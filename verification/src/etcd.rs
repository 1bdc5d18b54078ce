//! The coordination-store service, specified only through the shared
//! lifecycle contract: it starts into `Ready` and stops through
//! `Stopping` into `Stopped`, or fails. Its recipe (executables,
//! arguments, readiness marker, data directory) is a collaborator
//! detail the driver owns.
use vstd::prelude::*;
use crate::errors::Error;
use crate::readiness::ProcessState;

verus! {

pub struct Etcd {
    pub state: ProcessState,
}

impl Etcd {
    /// Wraps the service once the driver has observed readiness.
    pub fn started() -> (e: Etcd)
        ensures
            e.state == ProcessState::Ready,
    {
        Etcd { state: ProcessState::Ready }
    }

    /// Marks the service as in its steady running state.
    pub fn mark_running(&mut self)
        requires
            old(self).state == ProcessState::Ready,
        ensures
            final(self).state == ProcessState::Running,
            old(self).state.can_step_to(final(self).state),
    {
        self.state = ProcessState::Running;
    }

    /// Begins graceful termination.
    pub fn begin_stop(&mut self)
        requires
            old(self).state == ProcessState::Ready || old(self).state == ProcessState::Running,
        ensures
            final(self).state == ProcessState::Stopping,
            old(self).state.can_step_to(final(self).state),
    {
        self.state = ProcessState::Stopping;
    }

    /// Records the outcome of terminating the process: exit within the
    /// grace period completes the stop; anything else is a
    /// `StopFailure` and the state is absorbed into `Failed`.
    pub fn on_stop_result(&mut self, exited_within_grace: bool) -> (r: Result<(), Error>)
        requires
            old(self).state == ProcessState::Stopping,
        ensures
            old(self).state.can_step_to(final(self).state),
            exited_within_grace ==> final(self).state == ProcessState::Stopped && r is Ok,
            !exited_within_grace ==> final(self).state == ProcessState::Failed && (r matches Err(e)
                && e matches Error::StopFailure { name } && name@ == "etcd"@),
    {
        if exited_within_grace {
            self.state = ProcessState::Stopped;
            Ok(())
        } else {
            self.state = ProcessState::Failed;
            Err(Error::StopFailure { name: "etcd".to_owned() })
        }
    }
}

} // verus!
