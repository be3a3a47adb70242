//! Start-up constants of the pipeline and the arbitration of shutdown.
//!
//! The service runs until a termination signal arrives or every supervisor
//! has exited. Then no new segment is accepted, and the uploads that are
//! queued or in flight get a fixed time to finish.

use vstd::prelude::*;

verus! {

/// Segments that the upload queue holds before a producer has to wait.
pub const UPLOAD_QUEUE_CAPACITY: usize = 1000;

/// Seconds that pending uploads are given at shutdown.
pub const DRAIN_DEADLINE_SECS: u64 = 60;

/// Where the service stands.
#[derive(Debug, Clone, Copy, PartialEq, Eq, Structural)]
pub enum CoordinatorPhase {
    /// Supervisors and the upload pipeline are running.
    Running,
    /// The queue is closed to producers; pending uploads are finishing.
    Draining,
    /// The service is over.
    Stopped,
}

/// What can happen to the service as a whole.
#[derive(Debug, Clone, Copy, PartialEq, Eq, Structural)]
pub enum CoordinatorEvent {
    /// The operating system asked the service to stop.
    TerminationSignal,
    /// One supervisor task exited.
    SupervisorExited,
    /// The upload pipeline has nothing left to do.
    UploadsDrained,
    /// The time given to pending uploads is over.
    DrainDeadlineExpired,
}

/// What the coordinator does in answer to an event.
#[derive(Debug, Clone, Copy, PartialEq, Eq, Structural)]
pub enum CoordinatorAction {
    /// Go on waiting.
    Wait,
    /// Close the producer side of the upload queue and give pending uploads
    /// `deadline_secs` seconds.
    BeginDrain { deadline_secs: u64 },
    /// Exit. `uploads_abandoned` says that the deadline cut uploads short.
    Exit { uploads_abandoned: bool },
}

/// The coordinator as the contracts see it.
pub struct CoordinatorView {
    pub phase: CoordinatorPhase,
    /// Supervisor tasks that have not exited.
    pub supervisors: nat,
}

impl CoordinatorView {
    /// Whether an event, met while running, starts the shutdown: a
    /// termination signal does, and so does the exit of the last supervisor.
    pub open spec fn triggers_shutdown(self, event: CoordinatorEvent) -> bool {
        self.phase == CoordinatorPhase::Running && (event == CoordinatorEvent::TerminationSignal
            || (event == CoordinatorEvent::SupervisorExited && self.supervisors <= 1))
    }

    /// Whether an event, met while draining, ends the service.
    pub open spec fn ends_drain(self, event: CoordinatorEvent) -> bool {
        self.phase == CoordinatorPhase::Draining && (event == CoordinatorEvent::UploadsDrained
            || event == CoordinatorEvent::DrainDeadlineExpired)
    }

    /// The coordinator after an event.
    pub open spec fn after(self, event: CoordinatorEvent) -> CoordinatorView {
        CoordinatorView {
            phase: if self.triggers_shutdown(event) {
                CoordinatorPhase::Draining
            } else if self.ends_drain(event) {
                CoordinatorPhase::Stopped
            } else {
                self.phase
            },
            supervisors: if event == CoordinatorEvent::SupervisorExited && self.supervisors > 0 {
                (self.supervisors - 1) as nat
            } else {
                self.supervisors
            },
        }
    }

    /// The coordinator's answer to an event.
    pub open spec fn action(self, event: CoordinatorEvent) -> CoordinatorAction {
        if self.triggers_shutdown(event) {
            CoordinatorAction::BeginDrain { deadline_secs: DRAIN_DEADLINE_SECS }
        } else if self.ends_drain(event) {
            CoordinatorAction::Exit {
                uploads_abandoned: event == CoordinatorEvent::DrainDeadlineExpired,
            }
        } else {
            CoordinatorAction::Wait
        }
    }
}

/// The service coordinator's shutdown state.
#[derive(Debug)]
pub struct Coordinator {
    phase: CoordinatorPhase,
    supervisors: usize,
}

impl View for Coordinator {
    type V = CoordinatorView;

    closed spec fn view(&self) -> CoordinatorView {
        CoordinatorView { phase: self.phase, supervisors: self.supervisors as nat }
    }
}

impl Coordinator {
    /// A running service with `supervisors` supervisor tasks.
    pub fn new(supervisors: usize) -> (c: Coordinator)
        ensures
            c@ == (CoordinatorView {
                phase: CoordinatorPhase::Running,
                supervisors: supervisors as nat,
            }),
    {
        Coordinator { phase: CoordinatorPhase::Running, supervisors }
    }

    pub fn phase(&self) -> (phase: CoordinatorPhase)
        ensures
            phase == self@.phase,
    {
        self.phase
    }

    /// Takes in an event and says what to do.
    pub fn on_event(&mut self, event: CoordinatorEvent) -> (action: CoordinatorAction)
        ensures
            final(self)@ == old(self)@.after(event),
            action == old(self)@.action(event),
    {
        let last_supervisor = self.supervisors <= 1;
        if event == CoordinatorEvent::SupervisorExited && self.supervisors > 0 {
            self.supervisors -= 1;
        }
        match self.phase {
            CoordinatorPhase::Running => {
                if event == CoordinatorEvent::TerminationSignal || (event
                    == CoordinatorEvent::SupervisorExited && last_supervisor) {
                    self.phase = CoordinatorPhase::Draining;
                    CoordinatorAction::BeginDrain { deadline_secs: DRAIN_DEADLINE_SECS }
                } else {
                    CoordinatorAction::Wait
                }
            },
            CoordinatorPhase::Draining => {
                if event == CoordinatorEvent::UploadsDrained {
                    self.phase = CoordinatorPhase::Stopped;
                    CoordinatorAction::Exit { uploads_abandoned: false }
                } else if event == CoordinatorEvent::DrainDeadlineExpired {
                    self.phase = CoordinatorPhase::Stopped;
                    CoordinatorAction::Exit { uploads_abandoned: true }
                } else {
                    CoordinatorAction::Wait
                }
            },
            CoordinatorPhase::Stopped => CoordinatorAction::Wait,
        }
    }
}

} // verus!
