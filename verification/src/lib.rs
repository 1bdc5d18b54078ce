//! Verified planning and supervision logic for bootstrapping a local,
//! single-node Kubernetes control plane: resolving executables from a
//! search path, deriving service configuration (argument vectors and
//! network/policy documents), scanning process output for readiness
//! markers, ordering the drain-then-terminate shutdown of the container
//! runtime, and sequencing the external commands that provision per-role
//! credential files.
//!
//! All side effects (spawning daemons, file writes, running client
//! commands) are performed by an unverified driver; this crate computes
//! the exact plans, commands and state transitions, and proves the
//! ordering and failure-handling properties they obey.
use vstd::prelude::*;

pub mod config;
pub mod crio;
pub mod errors;
pub mod etcd;
pub mod kubeconfig;
pub mod readiness;
pub mod resolver;
pub mod strutil;

use crate::crio::Crio;
use crate::errors::Error;
use crate::etcd::Etcd;
use crate::readiness::ProcessState;

verus! {

/// Joins a directory and a file name with a single separator.
pub fn path_join(dir: &str, name: &str) -> (r: String)
    ensures
        r@ == dir@ + "/"@ + name@,
{
    let mut s: String = dir.to_owned();
    s.append("/");
    s.append(name);
    s
}

/// The aggregate outcome when bootstrap fails: the first error, and
/// every sibling service that did start and must now be stopped —
/// no started service is left unaccounted for.
pub struct StartFailure {
    pub error: Error,
    pub stop_crio: Option<Crio>,
    pub stop_etcd: Option<Etcd>,
}

/// The orchestrator: it holds exactly the two started services, both
/// confirmed ready, and stops them in a fixed order.
pub struct Kubernix {
    pub crio: Crio,
    pub etcd: Etcd,
}

impl Kubernix {
    /// Both held services are up.
    pub open spec fn services_ready(&self) -> bool {
        self.crio.state == ProcessState::Ready && self.etcd.state == ProcessState::Ready
    }

    /// Joins the two concurrent start outcomes the driver collected.
    /// Construction succeeds exactly when both services came up, and
    /// the orchestrator then holds them both in `Ready`. On failure
    /// the first error (the container runtime's, if both failed) is
    /// reported, and every sibling that did start is handed back for
    /// the driver to stop before the error propagates.
    pub fn new(crio: Result<Crio, Error>, etcd: Result<Etcd, Error>) -> (r: Result<
        Kubernix,
        StartFailure,
    >)
        requires
            crio matches Ok(c) ==> c.state == ProcessState::Ready,
            etcd matches Ok(e) ==> e.state == ProcessState::Ready,
        ensures
            r is Ok <==> (crio is Ok && etcd is Ok),
            r matches Ok(k) ==> k.services_ready() && Ok::<Crio, Error>(k.crio) == crio && Ok::<
                Etcd,
                Error,
            >(k.etcd) == etcd,
            crio matches Err(ce) ==> (r matches Err(f) && f.error == ce && f.stop_crio is None && (
            match etcd {
                Ok(e) => f.stop_etcd == Some(e),
                Err(_) => f.stop_etcd is None,
            })),
            etcd matches Err(ee) ==> (crio is Ok ==> (r matches Err(f) && f.error == ee
                && f.stop_etcd is None && (crio matches Ok(c) ==> f.stop_crio == Some(c)))),
    {
        match (crio, etcd) {
            (Ok(c), Ok(e)) => Ok(Kubernix { crio: c, etcd: e }),
            (Err(ce), Ok(e)) => Err(
                StartFailure { error: ce, stop_crio: None, stop_etcd: Some(e) },
            ),
            (Ok(c), Err(ee)) => Err(
                StartFailure { error: ee, stop_crio: Some(c), stop_etcd: None },
            ),
            (Err(ce), Err(_)) => Err(StartFailure { error: ce, stop_crio: None, stop_etcd: None }),
        }
    }

    /// Begins the fixed-order shutdown: the container runtime first
    /// (with its drain), then the coordination store.
    pub fn stop(&self) -> (s: Shutdown)
        ensures
            s.inv(),
            s.phase == ShutdownPhase::StopCrio,
            !s.crio_stop_ok,
    {
        Shutdown { phase: ShutdownPhase::StopCrio, crio_stop_ok: false }
    }
}

/// Construction never leaves a started service unaccounted for: on
/// success the orchestrator holds both services ready; on failure the
/// result names, for each service that started, that it must be
/// stopped, and omits exactly the ones that never started.
pub proof fn lemma_new_accounts_for_every_service(
    crio: Result<Crio, Error>,
    etcd: Result<Etcd, Error>,
    r: Result<Kubernix, StartFailure>,
)
    requires
        crio matches Ok(c) ==> c.state == ProcessState::Ready,
        etcd matches Ok(e) ==> e.state == ProcessState::Ready,
        r is Ok <==> (crio is Ok && etcd is Ok),
        r matches Ok(k) ==> k.services_ready(),
        crio matches Err(ce) ==> (r matches Err(f) && f.stop_crio is None && (match etcd {
            Ok(e) => f.stop_etcd == Some(e),
            Err(_) => f.stop_etcd is None,
        })),
        crio is Ok && etcd is Err ==> (r matches Err(f) && f.stop_etcd is None && (
        crio matches Ok(c) ==> f.stop_crio == Some(c))),
    ensures
        r matches Err(f) ==> ((crio matches Ok(c) ==> f.stop_crio == Some(c)) && (
        etcd matches Ok(e) ==> f.stop_etcd == Some(e))),
        r matches Ok(k) ==> k.crio.state == ProcessState::Ready && k.etcd.state
            == ProcessState::Ready,
{
}

#[derive(Debug, Clone, Copy, PartialEq, Eq, Structural)]
pub enum StopTarget {
    CrioService,
    EtcdService,
}

#[derive(Debug, Clone, Copy, PartialEq, Eq, Structural)]
pub enum ShutdownPhase {
    /// The container runtime's stop (drain included) is owed.
    StopCrio,
    /// The runtime stopped; the coordination store's stop is owed.
    StopEtcd,
    /// Both services stopped.
    Done,
    /// A stop failed; the sequence aborts without touching the next
    /// service.
    Failed,
}

/// Orders the shutdown: strictly sequential, container runtime first,
/// coordination store second, short-circuiting on the first failure.
pub struct Shutdown {
    pub phase: ShutdownPhase,
    /// The container runtime's stop has completed successfully.
    pub crio_stop_ok: bool,
}

impl Shutdown {
    pub open spec fn inv(&self) -> bool {
        &&& ((self.phase == ShutdownPhase::StopEtcd || self.phase == ShutdownPhase::Done)
            ==> self.crio_stop_ok)
        &&& (self.phase == ShutdownPhase::StopCrio ==> !self.crio_stop_ok)
    }

    /// Which service to stop next, if any.
    pub fn next_target(&self) -> (r: Option<StopTarget>)
        ensures
            self.phase == ShutdownPhase::StopCrio ==> r == Some(StopTarget::CrioService),
            self.phase == ShutdownPhase::StopEtcd ==> r == Some(StopTarget::EtcdService),
            self.phase == ShutdownPhase::Done || self.phase == ShutdownPhase::Failed ==> r is None,
    {
        match self.phase {
            ShutdownPhase::StopCrio => Some(StopTarget::CrioService),
            ShutdownPhase::StopEtcd => Some(StopTarget::EtcdService),
            _ => None,
        }
    }

    /// Records the current target's stop outcome. A failure aborts
    /// before the next service is attempted.
    pub fn on_target_result(&mut self, ok: bool)
        requires
            old(self).inv(),
            old(self).phase == ShutdownPhase::StopCrio || old(self).phase
                == ShutdownPhase::StopEtcd,
        ensures
            final(self).inv(),
            old(self).phase == ShutdownPhase::StopCrio && ok ==> final(self).phase
                == ShutdownPhase::StopEtcd && final(self).crio_stop_ok,
            old(self).phase == ShutdownPhase::StopCrio && !ok ==> final(self).phase
                == ShutdownPhase::Failed && !final(self).crio_stop_ok,
            old(self).phase == ShutdownPhase::StopEtcd && ok ==> final(self).phase
                == ShutdownPhase::Done,
            old(self).phase == ShutdownPhase::StopEtcd && !ok ==> final(self).phase
                == ShutdownPhase::Failed,
    {
        let at_crio = match self.phase {
            ShutdownPhase::StopCrio => true,
            _ => false,
        };
        if ok {
            if at_crio {
                self.crio_stop_ok = true;
                self.phase = ShutdownPhase::StopEtcd;
            } else {
                self.phase = ShutdownPhase::Done;
            }
        } else {
            self.phase = ShutdownPhase::Failed;
        }
    }
}

/// The coordination store is stopped only after the container
/// runtime's stop — drain included — has completed successfully: in
/// every reachable shutdown whose next target is the store, the
/// runtime's stop already succeeded.
pub proof fn lemma_stop_order(s: &Shutdown)
    requires
        s.inv(),
        s.phase == ShutdownPhase::StopEtcd,
    ensures
        s.crio_stop_ok,
{
}

} // verus!
