use vstd::prelude::*;
use crate::backoff::{Backoff, delay_for};
use crate::model::{Endpoint, TunnelError};

verus! {

/// Delay before the first retry, in milliseconds.
pub const BASE_RETRY_DELAY_MS: u64 = 5000;

/// Longest delay between retries, in milliseconds.
pub const MAX_RETRY_DELAY_MS: u64 = 120000;

/// Where the reconnect loop stands.
pub enum LoopPhase {
    Idle,
    Connecting,
    Connected,
    Reconnecting,
    Closing,
    Closed,
}

/// What happened since the last step of the loop.
pub enum LoopEvent {
    /// The loop was spawned.
    Start,
    TokenReady(String),
    TokenFailed(TunnelError),
    RelayConnected(Endpoint),
    ConnectFailed(TunnelError),
    /// The live connection ended with an error.
    ConnectionFailed(TunnelError),
    /// The live connection ended gracefully.
    ConnectionEnded,
    DelayElapsed,
    ShutdownRequested,
    RelayClosed,
}

/// What the loop's driver must do next.
pub enum LoopAction {
    RefreshToken,
    Connect(String),
    /// Wait for the live connection to end or for shutdown, whichever comes first.
    AwaitConnection,
    /// Sleep this many milliseconds, then report `DelayElapsed`.
    Sleep(u64),
    CloseRelay,
    /// The loop is over.
    Exit,
    /// Keep doing what is in flight.
    Continue,
}

/// The action of one step, and the status to publish first, if any.
pub struct LoopStep {
    pub action: LoopAction,
    pub publish: Option<Result<Endpoint, TunnelError>>,
}

/// The reconnect loop of a hosted tunnel: connect, publish, watch, and retry
/// after a backoff delay until shutdown.
pub struct ReconnectLoop {
    pub phase: LoopPhase,
    pub backoff: Backoff,
    /// Shutdown was requested; honoured at the next checkpoint.
    pub shutdown: bool,
}

impl ReconnectLoop {
    pub open spec fn trying(self) -> bool {
        self.phase is Connecting || self.phase is Reconnecting
    }

    /// The loop and step after a failure while trying to connect, or after the
    /// live connection failed.
    pub open spec fn after_failure(self, phase: LoopPhase, publish: Option<Result<Endpoint, TunnelError>>) -> (ReconnectLoop, LoopStep) {
        let b = Backoff { failures: self.backoff.next_failures(), ..self.backoff };
        (
            ReconnectLoop { phase, backoff: b, ..self },
            LoopStep {
                action: LoopAction::Sleep(
                    delay_for(b.base_duration, b.max_duration, b.failures) as u64,
                ),
                publish,
            },
        )
    }

    pub open spec fn spec_closed(self) -> (ReconnectLoop, LoopStep) {
        (ReconnectLoop { phase: LoopPhase::Closed, ..self }, LoopStep { action: LoopAction::Exit, publish: None })
    }

    pub open spec fn spec_with(self, action: LoopAction) -> (ReconnectLoop, LoopStep) {
        (self, LoopStep { action, publish: None })
    }

    /// One transition of the loop.
    pub open spec fn spec_step(self, event: LoopEvent) -> (ReconnectLoop, LoopStep) {
        if self.phase is Closed {
            self.spec_with(LoopAction::Exit)
        } else {
            match event {
                LoopEvent::ShutdownRequested => if self.phase is Connected {
                    (ReconnectLoop { phase: LoopPhase::Closing, shutdown: true, ..self }, LoopStep { action: LoopAction::CloseRelay, publish: None })
                } else {
                    (ReconnectLoop { shutdown: true, ..self }, LoopStep { action: LoopAction::Continue, publish: None })
                },
                LoopEvent::Start => if !(self.phase is Idle) {
                    self.spec_with(LoopAction::Continue)
                } else if self.shutdown {
                    self.spec_closed()
                } else {
                    ReconnectLoop { phase: LoopPhase::Connecting, ..self }.spec_with(LoopAction::RefreshToken)
                },
                LoopEvent::TokenReady(t) => if !self.trying() {
                    self.spec_with(LoopAction::Continue)
                } else if self.shutdown {
                    self.spec_closed()
                } else {
                    self.spec_with(LoopAction::Connect(t))
                },
                LoopEvent::TokenFailed(e) => if !self.trying() {
                    self.spec_with(LoopAction::Continue)
                } else if self.shutdown {
                    self.spec_closed()
                } else {
                    self.after_failure(self.phase, Some(Err(e)))
                },
                LoopEvent::ConnectFailed(e) => if !self.trying() {
                    self.spec_with(LoopAction::Continue)
                } else if self.shutdown {
                    self.spec_closed()
                } else {
                    self.after_failure(self.phase, Some(Err(e)))
                },
                LoopEvent::RelayConnected(ep) => if !self.trying() {
                    self.spec_with(LoopAction::Continue)
                } else {
                    let b = Backoff { failures: 0, ..self.backoff };
                    if self.shutdown {
                        (ReconnectLoop { phase: LoopPhase::Closing, backoff: b, ..self }, LoopStep { action: LoopAction::CloseRelay, publish: Some(Ok(ep)) })
                    } else {
                        (ReconnectLoop { phase: LoopPhase::Connected, backoff: b, ..self }, LoopStep { action: LoopAction::AwaitConnection, publish: Some(Ok(ep)) })
                    }
                },
                LoopEvent::DelayElapsed => if !self.trying() {
                    self.spec_with(LoopAction::Continue)
                } else if self.shutdown {
                    self.spec_closed()
                } else {
                    self.spec_with(LoopAction::RefreshToken)
                },
                LoopEvent::ConnectionFailed(e) => if !(self.phase is Connected) {
                    self.spec_with(LoopAction::Continue)
                } else {
                    self.after_failure(LoopPhase::Reconnecting, Some(Err(e)))
                },
                LoopEvent::ConnectionEnded => if !(self.phase is Connected) {
                    self.spec_with(LoopAction::Continue)
                } else {
                    self.after_failure(LoopPhase::Reconnecting, None)
                },
                LoopEvent::RelayClosed => if self.phase is Closing {
                    self.spec_closed()
                } else {
                    self.spec_with(LoopAction::Continue)
                },
            }
        }
    }

    /// A loop that has not started, with the standard retry delays.
    pub fn new() -> (r: Self)
        ensures
            r.phase is Idle,
            !r.shutdown,
            r.backoff == Backoff::new_spec(BASE_RETRY_DELAY_MS, MAX_RETRY_DELAY_MS),
    {
        ReconnectLoop {
            phase: LoopPhase::Idle,
            backoff: Backoff::new(BASE_RETRY_DELAY_MS, MAX_RETRY_DELAY_MS),
            shutdown: false,
        }
    }

    fn is_trying(&self) -> (r: bool)
        ensures
            r == self.trying(),
    {
        match self.phase {
            LoopPhase::Connecting | LoopPhase::Reconnecting => true,
            _ => false,
        }
    }

    fn fail(&mut self, phase: LoopPhase, publish: Option<Result<Endpoint, TunnelError>>) -> (r: LoopStep)
        ensures
            (*final(self), r) == old(self).after_failure(phase, publish),
    {
        let delay = self.backoff.next();
        self.phase = phase;
        LoopStep { action: LoopAction::Sleep(delay), publish }
    }

    fn close_now(&mut self) -> (r: LoopStep)
        ensures
            (*final(self), r) == old(self).spec_closed(),
    {
        self.phase = LoopPhase::Closed;
        LoopStep { action: LoopAction::Exit, publish: None }
    }

    /// Advances the loop by one event and says what to do next.
    pub fn step(&mut self, event: LoopEvent) -> (r: LoopStep)
        ensures
            (*final(self), r) == old(self).spec_step(event),
    {
        let idle = LoopStep { action: LoopAction::Continue, publish: None };
        if let LoopPhase::Closed = self.phase {
            return LoopStep { action: LoopAction::Exit, publish: None };
        }
        match event {
            LoopEvent::ShutdownRequested => {
                self.shutdown = true;
                if let LoopPhase::Connected = self.phase {
                    self.phase = LoopPhase::Closing;
                    LoopStep { action: LoopAction::CloseRelay, publish: None }
                } else {
                    idle
                }
            },
            LoopEvent::Start => {
                if let LoopPhase::Idle = self.phase {
                    if self.shutdown {
                        self.close_now()
                    } else {
                        self.phase = LoopPhase::Connecting;
                        LoopStep { action: LoopAction::RefreshToken, publish: None }
                    }
                } else {
                    idle
                }
            },
            LoopEvent::TokenReady(t) => {
                if !self.is_trying() {
                    idle
                } else if self.shutdown {
                    self.close_now()
                } else {
                    LoopStep { action: LoopAction::Connect(t), publish: None }
                }
            },
            LoopEvent::TokenFailed(e) => {
                if !self.is_trying() {
                    idle
                } else if self.shutdown {
                    self.close_now()
                } else {
                    let phase = if let LoopPhase::Connecting = self.phase {
                        LoopPhase::Connecting
                    } else {
                        LoopPhase::Reconnecting
                    };
                    self.fail(phase, Some(Err(e)))
                }
            },
            LoopEvent::ConnectFailed(e) => {
                if !self.is_trying() {
                    idle
                } else if self.shutdown {
                    self.close_now()
                } else {
                    let phase = if let LoopPhase::Connecting = self.phase {
                        LoopPhase::Connecting
                    } else {
                        LoopPhase::Reconnecting
                    };
                    self.fail(phase, Some(Err(e)))
                }
            },
            LoopEvent::RelayConnected(ep) => {
                if !self.is_trying() {
                    idle
                } else {
                    self.backoff.reset();
                    if self.shutdown {
                        self.phase = LoopPhase::Closing;
                        LoopStep { action: LoopAction::CloseRelay, publish: Some(Ok(ep)) }
                    } else {
                        self.phase = LoopPhase::Connected;
                        LoopStep { action: LoopAction::AwaitConnection, publish: Some(Ok(ep)) }
                    }
                }
            },
            LoopEvent::DelayElapsed => {
                if !self.is_trying() {
                    idle
                } else if self.shutdown {
                    self.close_now()
                } else {
                    LoopStep { action: LoopAction::RefreshToken, publish: None }
                }
            },
            LoopEvent::ConnectionFailed(e) => {
                if let LoopPhase::Connected = self.phase {
                    self.fail(LoopPhase::Reconnecting, Some(Err(e)))
                } else {
                    idle
                }
            },
            LoopEvent::ConnectionEnded => {
                if let LoopPhase::Connected = self.phase {
                    self.fail(LoopPhase::Reconnecting, None)
                } else {
                    idle
                }
            },
            LoopEvent::RelayClosed => {
                if let LoopPhase::Closing = self.phase {
                    self.close_now()
                } else {
                    idle
                }
            },
        }
    }
}

/// A closed loop is silent: whatever happens, it publishes nothing, asks only to
/// exit, and stays as it is; a second shutdown request changes nothing.
pub proof fn lemma_closed_loop_is_silent(l: ReconnectLoop, event: LoopEvent)
    requires
        l.phase is Closed,
    ensures
        l.spec_step(event).0 == l,
        l.spec_step(event).1.publish is None,
        l.spec_step(event).1.action is Exit,
{
}

/// A successful connection publishes the endpoint and resets the backoff, so
/// the next failure waits exactly the base delay again.
pub proof fn lemma_connection_resets_backoff(l: ReconnectLoop, ep: Endpoint, e: TunnelError)
    requires
        l.trying(),
        !l.shutdown,
        l.backoff.base_duration <= l.backoff.max_duration,
    ensures
        l.spec_step(LoopEvent::RelayConnected(ep)).1.publish == Some(Ok::<Endpoint, TunnelError>(ep)),
        l.spec_step(LoopEvent::RelayConnected(ep)).0.phase is Connected,
        l.spec_step(LoopEvent::RelayConnected(ep)).0.spec_step(LoopEvent::ConnectionFailed(e)).1.action
            == LoopAction::Sleep(l.backoff.base_duration),
{
    let c = l.spec_step(LoopEvent::RelayConnected(ep)).0;
    assert(c.backoff.failures == 0);
    assert(c.backoff.next_failures() == 1);
    assert(c.backoff.base_duration * 1 == c.backoff.base_duration);
}

} // verus!
