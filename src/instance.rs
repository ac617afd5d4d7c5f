use vstd::prelude::*;
use crate::error::ShellError;

verus! {

/// What one attempt to take the instance lock reported.
#[derive(Debug, Clone, PartialEq, Eq)]
pub enum LockProbe {
    /// This process now holds the lock.
    Acquired,
    /// Another live process holds the lock.
    HeldByLive,
    /// The lock could not be taken for another reason.
    Failed { reason: String },
}

/// The arguments and working directory of a launch that found the lock held.
#[derive(Debug, Clone, PartialEq, Eq)]
pub struct LaunchEvent {
    pub args: Vec<String>,
    pub cwd: String,
}

/// What a starting process becomes.
#[derive(Debug, Clone, PartialEq, Eq)]
pub enum Role {
    /// It owns the lock and goes on to create its window.
    Primary,
    /// It hands this event to the primary and exits without a window.
    Secondary(LaunchEvent),
}

/// A model of the platform's instance lock for one application identifier:
/// at most one holder, named by process id. Taking it is one atomic step.
#[derive(Debug, Clone, PartialEq, Eq)]
pub struct InstanceLock {
    pub app_id: String,
    pub holder: Option<u32>,
}

/// Whether `pid` may take a lock held by `holder`: the lock is free, already
/// its own, or held by a process that the liveness probe found dead (stale).
pub open spec fn claimable(holder: Option<u32>, pid: u32, holder_alive: bool) -> bool {
    match holder {
        None => true,
        Some(h) => h == pid || !holder_alive,
    }
}

/// The holder after `pid` tries to take the lock.
pub open spec fn holder_after(holder: Option<u32>, pid: u32, holder_alive: bool) -> Option<u32> {
    if claimable(holder, pid, holder_alive) {
        Some(pid)
    } else {
        holder
    }
}

/// Whether one of the attempts, each with its own liveness probe result,
/// lets `pid` take a lock held by `holder`.
pub open spec fn claims_within(holder: Option<u32>, pid: u32, probes: Seq<bool>) -> bool {
    exists|i: int| 0 <= i < probes.len() && claimable(holder, pid, #[trigger] probes[i])
}

/// Decides what a starting process becomes from what the lock reported:
/// primary when it took the lock, secondary carrying its launch when another
/// live process holds it, and the fatal `LockAcquisitionFailed` otherwise.
pub fn arbitrate(probe: LockProbe, args: Vec<String>, cwd: String) -> (r: Result<Role, ShellError>)
    ensures
        probe is Acquired <==> r matches Ok(Role::Primary),
        probe is HeldByLive <==> r matches Ok(Role::Secondary(_)),
        r matches Ok(Role::Secondary(ev)) ==> ev.args@ == args@ && ev.cwd@ == cwd@,
        probe is Failed <==> r is Err,
        probe matches LockProbe::Failed { reason } ==> r == Err::<Role, ShellError>(
            ShellError::LockAcquisitionFailed { reason },
        ),
{
    match probe {
        LockProbe::Acquired => Ok(Role::Primary),
        LockProbe::HeldByLive => Ok(Role::Secondary(LaunchEvent { args, cwd })),
        LockProbe::Failed { reason } => Err(ShellError::LockAcquisitionFailed { reason }),
    }
}

impl InstanceLock {
    /// The free lock of an application.
    pub fn new(app_id: String) -> (r: InstanceLock)
        ensures
            r.app_id@ == app_id@,
            r.holder is None,
    {
        InstanceLock { app_id, holder: None }
    }

    /// One atomic attempt of `pid` to take the lock; `holder_alive` is what the
    /// liveness probe said of the current holder. A stale lock counts as free.
    pub fn try_acquire(&mut self, pid: u32, holder_alive: bool) -> (r: LockProbe)
        ensures
            final(self).app_id == old(self).app_id,
            final(self).holder == holder_after(old(self).holder, pid, holder_alive),
            claimable(old(self).holder, pid, holder_alive) <==> r is Acquired,
            !claimable(old(self).holder, pid, holder_alive) <==> r is HeldByLive,
    {
        let free = match self.holder {
            None => true,
            Some(h) => h == pid || !holder_alive,
        };
        if free {
            self.holder = Some(pid);
            LockProbe::Acquired
        } else {
            LockProbe::HeldByLive
        }
    }

    /// A clean release by `pid` at exit; the lock of another holder is untouched.
    pub fn release(&mut self, pid: u32)
        ensures
            final(self).app_id == old(self).app_id,
            old(self).holder == Some(pid) ==> final(self).holder is None,
            old(self).holder != Some(pid) ==> final(self).holder == old(self).holder,
    {
        if self.holder == Some(pid) {
            self.holder = None;
        }
    }

    /// The startup of process `pid`: try the lock, then decide its role. A
    /// `fault` is a failure of the platform's lock itself (permission denied, a
    /// corrupted lock artifact): the lock is left as it was and startup stops
    /// with `LockAcquisitionFailed`.
    pub fn start(
        &mut self,
        pid: u32,
        holder_alive: bool,
        fault: Option<String>,
        args: Vec<String>,
        cwd: String,
    ) -> (r: Result<Role, ShellError>)
        ensures
            final(self).app_id == old(self).app_id,
            fault is Some ==> final(self).holder == old(self).holder,
            fault matches Some(reason) ==> r == Err::<Role, ShellError>(
                ShellError::LockAcquisitionFailed { reason },
            ),
            fault is None ==> final(self).holder == holder_after(
                old(self).holder,
                pid,
                holder_alive,
            ),
            fault is None && claimable(old(self).holder, pid, holder_alive) <==> r matches Ok(
                Role::Primary,
            ),
            fault is None && !claimable(old(self).holder, pid, holder_alive) <==> r matches Ok(
                Role::Secondary(_),
            ),
            r matches Ok(Role::Secondary(ev)) ==> ev.args@ == args@ && ev.cwd@ == cwd@,
    {
        let probe = match fault {
            Some(reason) => LockProbe::Failed { reason },
            None => self.try_acquire(pid, holder_alive),
        };
        arbitrate(probe, args, cwd)
    }

    /// The startup of process `pid` with a bounded number of attempts, one per
    /// liveness probe result in `probes`: it stops at the first attempt that
    /// takes the lock, and is secondary when none does.
    pub fn start_retrying(&mut self, pid: u32, probes: &Vec<bool>, args: Vec<String>, cwd: String) -> (r:
        Result<Role, ShellError>)
        ensures
            final(self).app_id == old(self).app_id,
            claims_within(old(self).holder, pid, probes@) ==> final(self).holder == Some(pid),
            !claims_within(old(self).holder, pid, probes@) ==> final(self).holder == old(
                self,
            ).holder,
            claims_within(old(self).holder, pid, probes@) <==> r matches Ok(Role::Primary),
            !claims_within(old(self).holder, pid, probes@) <==> r matches Ok(Role::Secondary(_)),
            r matches Ok(Role::Secondary(ev)) ==> ev.args@ == args@ && ev.cwd@ == cwd@,
    {
        let mut probe = LockProbe::HeldByLive;
        let mut acquired = false;
        let mut i: usize = 0;
        while i < probes.len() && !acquired
            invariant
                i <= probes.len(),
                acquired <==> probe is Acquired,
                self.app_id == old(self).app_id,
                probe is Acquired || probe is HeldByLive,
                probe is Acquired ==> self.holder == Some(pid) && claims_within(
                    old(self).holder,
                    pid,
                    probes@,
                ),
                probe is HeldByLive ==> self.holder == old(self).holder && forall|j: int|
                    0 <= j < i ==> !claimable(old(self).holder, pid, #[trigger] probes@[j]),
            decreases probes.len() - i,
        {
            probe = self.try_acquire(pid, probes[i]);
            acquired = match probe {
                LockProbe::Acquired => true,
                _ => false,
            };
            i = i + 1;
        }
        arbitrate(probe, args, cwd)
    }
}

/// Two processes launched under one identifier, the first finding no live
/// holder: exactly one becomes primary. The first takes the lock; the second,
/// whose probe finds the first alive, is refused, and the lock stays with the first.
pub proof fn lemma_one_primary(holder: Option<u32>, a: u32, a_probe: bool, b: u32)
    requires
        a != b,
        claimable(holder, a, a_probe),
    ensures
        holder_after(holder, a, a_probe) == Some(a),
        !claimable(holder_after(holder, a, a_probe), b, true),
        holder_after(holder_after(holder, a, a_probe), b, true) == Some(a),
{
}

/// A lock whose holder died without releasing it is taken by the next launch.
pub proof fn lemma_stale_lock_reclaimed(dead: u32, pid: u32)
    ensures
        claimable(Some(dead), pid, false),
        holder_after(Some(dead), pid, false) == Some(pid),
{
}

/// A relaunch after the holder died without releasing: within a bounded run of
/// attempts, as soon as one probe finds the holder dead, the lock is taken.
pub proof fn lemma_stale_lock_reclaimed_within(dead: u32, pid: u32, probes: Seq<bool>, k: int)
    requires
        0 <= k < probes.len(),
        !probes[k],
    ensures
        claims_within(Some(dead), pid, probes),
{
    assert(claimable(Some(dead), pid, probes[k]));
}

} // verus!
