//! The client's life cycle, and what it accepts in each phase.
//!
//! The client here performs no I/O. It decides: whether a call is accepted,
//! what goes on the wire for it, what the reply means, and how shutdown
//! proceeds. The caller owns the connection, does what the client asks, and
//! reports back what happened.

use crate::batch::{carries, carries_all, to_wire, to_wire_batch};
use crate::decode::{decode_batch, decode_outcome, BatchReply, StepOutcome};
use crate::error::{ClientError, ConnectFailure, DecodeError, ShutdownStage};
use crate::model::{result_views, Config, QueryResult, Statement};
use hrana_client::proto::{Batch, Stmt};
use vstd::prelude::*;

verus! {

/// The phases of a client's life, in the order in which it passes through
/// them.
#[derive(Clone, Copy, Debug, PartialEq, Eq, Structural)]
pub enum Phase {
    /// No connection, and none being made.
    Disconnected,
    /// The connection is being established.
    Connecting,
    /// The session is open. Only in this phase are calls accepted.
    Connected,
    /// Shutdown is under way, at the given stage.
    ShuttingDown(ShutdownStage),
    /// The client is shut down, or its connection driver has stopped.
    Closed,
}

/// What can happen to a client.
#[derive(Clone, Copy, Debug, PartialEq, Eq, Structural)]
pub enum Event {
    /// The connection was established and the session opened.
    ConnectSucceeded,
    /// The connection could not be established.
    ConnectFailed,
    /// The connection driver stopped under a call in flight.
    DriverLost,
    /// The caller asked for shutdown.
    ShutdownRequested,
    /// The connection acknowledged the request to close.
    CloseSucceeded,
    /// The request to close failed.
    CloseFailed,
    /// The wait for the connection driver ended, well or badly.
    DrainFinished,
}

impl Phase {
    /// Shutdown has begun or is over: the session is gone for good.
    pub open spec fn closing(self) -> bool {
        self is ShuttingDown || self is Closed
    }

    /// The event is one this phase waits for.
    pub open spec fn expects(self, event: Event) -> bool {
        match (self, event) {
            (Phase::Connecting, Event::ConnectSucceeded) => true,
            (Phase::Connecting, Event::ConnectFailed) => true,
            (Phase::Connected, Event::DriverLost) => true,
            (Phase::Connected, Event::ShutdownRequested) => true,
            (Phase::ShuttingDown(ShutdownStage::Close), Event::CloseSucceeded) => true,
            (Phase::ShuttingDown(ShutdownStage::Close), Event::CloseFailed) => true,
            (Phase::ShuttingDown(ShutdownStage::Drain), Event::DrainFinished) => true,
            _ => false,
        }
    }

    /// The phase that follows this one on the event. An event that the phase
    /// does not wait for changes nothing.
    pub open spec fn spec_after(self, event: Event) -> Phase {
        match (self, event) {
            (Phase::Connecting, Event::ConnectSucceeded) => Phase::Connected,
            (Phase::Connecting, Event::ConnectFailed) => Phase::Disconnected,
            (Phase::Connected, Event::DriverLost) => Phase::Closed,
            (Phase::Connected, Event::ShutdownRequested) => Phase::ShuttingDown(
                ShutdownStage::Close,
            ),
            (Phase::ShuttingDown(ShutdownStage::Close), Event::CloseSucceeded) => {
                Phase::ShuttingDown(ShutdownStage::Drain)
            },
            (Phase::ShuttingDown(ShutdownStage::Close), Event::CloseFailed) => Phase::Closed,
            (Phase::ShuttingDown(ShutdownStage::Drain), Event::DrainFinished) => Phase::Closed,
            _ => self,
        }
    }

    /// The phase that follows this one on the event.
    #[verifier::when_used_as_spec(spec_after)]
    pub fn after(self, event: Event) -> (next: Phase)
        ensures
            next == self.spec_after(event),
    {
        match (self, event) {
            (Phase::Connecting, Event::ConnectSucceeded) => Phase::Connected,
            (Phase::Connecting, Event::ConnectFailed) => Phase::Disconnected,
            (Phase::Connected, Event::DriverLost) => Phase::Closed,
            (Phase::Connected, Event::ShutdownRequested) => Phase::ShuttingDown(
                ShutdownStage::Close,
            ),
            (Phase::ShuttingDown(ShutdownStage::Close), Event::CloseSucceeded) => {
                Phase::ShuttingDown(ShutdownStage::Drain)
            },
            (Phase::ShuttingDown(ShutdownStage::Close), Event::CloseFailed) => Phase::Closed,
            (Phase::ShuttingDown(ShutdownStage::Drain), Event::DrainFinished) => Phase::Closed,
            (phase, _) => phase,
        }
    }

    /// The phase reached from this one by a sequence of events.
    pub open spec fn after_all(self, events: Seq<Event>) -> Phase
        decreases events.len(),
    {
        if events.len() == 0 {
            self
        } else {
            self.after_all(events.drop_last()).spec_after(events.last())
        }
    }
}

/// The error with which a phase turns down what it does not accept: a call
/// before the client is connected is out of order, one after shutdown has
/// begun finds the connection closed.
pub open spec fn refusal(phase: Phase) -> ClientError {
    if phase.closing() {
        ClientError::ConnectionClosed
    } else {
        ClientError::InvalidState
    }
}

/// An event changes the phase exactly when the phase waits for it, and the
/// session opens in one way only: by a connection attempt that succeeds.
pub proof fn lemma_phases_advance(phase: Phase, event: Event)
    ensures
        phase.expects(event) <==> phase.spec_after(event) != phase,
        phase.spec_after(event) == Phase::Connected && phase != Phase::Connected ==> phase
            == Phase::Connecting && event == Event::ConnectSucceeded,
{
}

/// Once shutdown has begun, no event brings the session back.
pub proof fn lemma_closing_is_final(phase: Phase, events: Seq<Event>)
    requires
        phase.closing(),
    ensures
        phase.after_all(events).closing(),
        phase.after_all(events) != Phase::Connected,
    decreases events.len(),
{
    if events.len() > 0 {
        lemma_closing_is_final(phase, events.drop_last());
    }
}

/// A closed client stays closed whatever happens.
pub proof fn lemma_closed_is_final(events: Seq<Event>)
    ensures
        Phase::Closed.after_all(events) == Phase::Closed,
    decreases events.len(),
{
    if events.len() > 0 {
        lemma_closed_is_final(events.drop_last());
    }
}

/// What the caller has to connect to, and the token to present, if any.
#[derive(Clone, Debug)]
pub struct ConnectRequest {
    pub url: String,
    pub token: Option<String>,
}

/// Why a call in flight came back without a reply.
#[derive(Clone, Debug)]
pub enum CallFailure {
    /// I/O failed underneath the call.
    Transport { message: String },
    /// The connection driver had stopped.
    Closed,
}

/// The token to present for a configured token text: none for the empty
/// text, which asks for an unauthenticated connection.
pub open spec fn presented(token: Seq<char>) -> Option<Seq<char>> {
    if token.len() == 0 {
        None
    } else {
        Some(token)
    }
}

/// The characters of an optional token.
pub open spec fn token_view(token: Option<String>) -> Option<Seq<char>> {
    match token {
        Some(t) => Some(t@),
        None => None,
    }
}

/// The token text a configuration stands for: the empty text where it names
/// none.
pub open spec fn configured(token: Option<String>) -> Seq<char> {
    match token {
        Some(t) => t@,
        None => Seq::<char>::empty(),
    }
}

/// A database client: the record of where in its life the client stands.
#[derive(Debug)]
pub struct Client {
    phase: Phase,
}

impl Client {
    /// The phase the client is in.
    pub closed spec fn spec_phase(&self) -> Phase {
        self.phase
    }

    /// The phase the client is in.
    #[verifier::when_used_as_spec(spec_phase)]
    pub fn phase(&self) -> (phase: Phase)
        ensures
            phase == self.spec_phase(),
    {
        self.phase
    }

    /// Starts a client for the database at `url`, authenticating with
    /// `token`. An empty token asks for an unauthenticated connection.
    ///
    /// The client is connecting; the request says where to, and with what.
    pub fn new(url: String, token: String) -> (started: (Client, ConnectRequest))
        ensures
            started.0.phase() == Phase::Connecting,
            started.1.url@ == url@,
            token_view(started.1.token) == presented(token@),
    {
        let token = if token.as_str().is_empty() {
            None
        } else {
            Some(token)
        };
        (Client { phase: Phase::Connecting }, ConnectRequest { url, token })
    }

    /// Starts a client from a configuration. A configuration without a token
    /// asks for an unauthenticated connection.
    pub fn from_config(config: Config) -> (started: (Client, ConnectRequest))
        ensures
            started.0.phase() == Phase::Connecting,
            started.1.url@ == config.url@,
            token_view(started.1.token) == presented(configured(config.auth_token)),
    {
        let Config { url, auth_token } = config;
        let token = match auth_token {
            Some(token) => token,
            None => String::new(),
        };
        Client::new(url, token)
    }

    /// Takes note of how the connection attempt ended.
    ///
    /// On success the client is connected. On failure it is disconnected,
    /// and the failure is returned as a connection error with its kind and
    /// message. A client that is not connecting refuses the report.
    pub fn connect_finished(&mut self, outcome: Result<(), (ConnectFailure, String)>) -> (out:
        Result<(), ClientError>)
        ensures
            old(self).phase() == Phase::Connecting ==> match outcome {
                Ok(_) => out is Ok && final(self).phase() == Phase::Connected,
                Err((kind, message)) => {
                    &&& final(self).phase() == Phase::Disconnected
                    &&& out matches Err(ClientError::Connection { kind: k, message: m })
                    &&& k == kind
                    &&& m@ == message@
                },
            },
            old(self).phase() != Phase::Connecting ==> {
                &&& final(self).phase() == old(self).phase()
                &&& out == Err::<(), ClientError>(refusal(old(self).phase()))
            },
    {
        if self.phase != Phase::Connecting {
            return Err(self.refuse());
        }
        match outcome {
            Ok(_) => {
                self.phase = self.phase.after(Event::ConnectSucceeded);
                Ok(())
            },
            Err((kind, message)) => {
                self.phase = self.phase.after(Event::ConnectFailed);
                Err(ClientError::Connection { kind, message })
            },
        }
    }

    /// The error with which the client turns down a call in its phase.
    fn refuse(&self) -> (error: ClientError)
        ensures
            error == refusal(self.phase()),
    {
        match self.phase {
            Phase::ShuttingDown(_) | Phase::Closed => ClientError::ConnectionClosed,
            _ => ClientError::InvalidState,
        }
    }

    /// Whether the client accepts a call now: only while connected.
    pub fn ready(&self) -> (out: Result<(), ClientError>)
        ensures
            out is Ok <==> self.phase() == Phase::Connected,
            out is Err ==> out == Err::<(), ClientError>(refusal(self.phase())),
    {
        if self.phase == Phase::Connected {
            Ok(())
        } else {
            Err(self.refuse())
        }
    }

    /// Prepares the execution of one statement: what to submit on the
    /// session.
    pub fn execute(&self, stmt: Statement) -> (out: Result<Stmt, ClientError>)
        ensures
            out is Ok <==> self.phase() == Phase::Connected,
            match out {
                Ok(wire) => carries(wire, stmt),
                Err(error) => error == refusal(self.phase()),
            },
    {
        if self.phase == Phase::Connected {
            Ok(to_wire(stmt))
        } else {
            Err(self.refuse())
        }
    }

    /// Prepares the execution of a batch: what to submit on the session, one
    /// step per statement in the order given.
    pub fn raw_batch(&self, stmts: Vec<Statement>) -> (out: Result<Batch, ClientError>)
        ensures
            out is Ok <==> self.phase() == Phase::Connected,
            match out {
                Ok(batch) => carries_all(batch, stmts@),
                Err(error) => error == refusal(self.phase()),
            },
    {
        if self.phase == Phase::Connected {
            Ok(to_wire_batch(stmts))
        } else {
            Err(self.refuse())
        }
    }

    /// Takes note of a call that came back without a reply, and names the
    /// error to report for it.
    ///
    /// A transport failure leaves the client as it is. A stopped driver
    /// closes a connected client; every later call finds the connection
    /// closed.
    pub fn call_failed(&mut self, failure: CallFailure) -> (error: ClientError)
        ensures
            match failure {
                CallFailure::Transport { message } => {
                    &&& final(self).phase() == old(self).phase()
                    &&& error matches ClientError::Transport { message: m }
                    &&& m@ == message@
                },
                CallFailure::Closed => {
                    &&& final(self).phase() == old(self).phase().after(Event::DriverLost)
                    &&& error == ClientError::ConnectionClosed
                },
            },
    {
        match failure {
            CallFailure::Transport { message } => ClientError::Transport { message },
            CallFailure::Closed => {
                self.phase = self.phase.after(Event::DriverLost);
                ClientError::ConnectionClosed
            },
        }
    }

    /// Turns what came back for one statement into its query result.
    ///
    /// A failed statement is a result, not an error of the call. The call
    /// fails only where nothing came back, or where what came back is
    /// malformed.
    pub fn finish_execute(&mut self, reply: Result<StepOutcome, CallFailure>) -> (out: Result<
        QueryResult,
        ClientError,
    >)
        ensures
            match reply {
                Ok(outcome) => {
                    &&& final(self).phase() == old(self).phase()
                    &&& out is Ok <==> outcome@.decodable()
                    &&& match out {
                        Ok(decoded) => decoded.wf() && decoded@ == outcome@.decoded(),
                        Err(error) => {
                            &&& error matches ClientError::Decode(
                                DecodeError::Step { step, fault },
                            )
                            &&& step == 0
                            &&& outcome@.has_fault(fault)
                        },
                    }
                },
                Err(CallFailure::Transport { message }) => {
                    &&& final(self).phase() == old(self).phase()
                    &&& out matches Err(ClientError::Transport { message: m })
                    &&& m@ == message@
                },
                Err(CallFailure::Closed) => {
                    &&& final(self).phase() == old(self).phase().after(Event::DriverLost)
                    &&& out == Err::<QueryResult, ClientError>(ClientError::ConnectionClosed)
                },
            },
    {
        match reply {
            Ok(outcome) => match decode_outcome(&outcome) {
                Ok(decoded) => Ok(decoded),
                Err(fault) => Err(ClientError::Decode(DecodeError::Step { step: 0, fault })),
            },
            Err(failure) => Err(self.call_failed(failure)),
        }
    }

    /// Turns what came back for a batch of `expected` statements into one
    /// query result per statement, in the order of the statements.
    ///
    /// Failed statements are results among the others, not an error of the
    /// call. The call fails as a whole where nothing came back, or where
    /// what came back is malformed: then nothing is known of any statement.
    pub fn finish_batch(&mut self, expected: usize, reply: Result<BatchReply, CallFailure>) -> (out:
        Result<Vec<QueryResult>, ClientError>)
        ensures
            match reply {
                Ok(raw) => {
                    &&& final(self).phase() == old(self).phase()
                    &&& out is Ok <==> raw@.decodable(expected as nat)
                    &&& match out {
                        Ok(results) => {
                            &&& results@.len() == expected
                            &&& result_views(results@) == raw@.decoded()
                            &&& forall|i: int|
                                0 <= i < results@.len() ==> (#[trigger] results@[i]).wf()
                        },
                        Err(error) => {
                            &&& error matches ClientError::Decode(cause)
                            &&& raw@.has_error(expected as nat, cause)
                        },
                    }
                },
                Err(CallFailure::Transport { message }) => {
                    &&& final(self).phase() == old(self).phase()
                    &&& out matches Err(ClientError::Transport { message: m })
                    &&& m@ == message@
                },
                Err(CallFailure::Closed) => {
                    &&& final(self).phase() == old(self).phase().after(Event::DriverLost)
                    &&& out == Err::<Vec<QueryResult>, ClientError>(ClientError::ConnectionClosed)
                },
            },
    {
        match reply {
            Ok(raw) => match decode_batch(expected, &raw) {
                Ok(results) => Ok(results),
                Err(cause) => Err(ClientError::Decode(cause)),
            },
            Err(failure) => Err(self.call_failed(failure)),
        }
    }

    /// Begins shutdown. A connected client starts shutting down, and the
    /// caller is to ask the connection to close. Any other client refuses:
    /// one that was never connected because the call is out of order, one
    /// whose shutdown has begun because its connection is closed.
    pub fn shutdown(&mut self) -> (out: Result<(), ClientError>)
        ensures
            out is Ok <==> old(self).phase() == Phase::Connected,
            out is Ok ==> final(self).phase() == Phase::ShuttingDown(ShutdownStage::Close),
            out is Err ==> final(self).phase() == old(self).phase() && out == Err::<
                (),
                ClientError,
            >(refusal(old(self).phase())),
    {
        if self.phase == Phase::Connected {
            self.phase = self.phase.after(Event::ShutdownRequested);
            Ok(())
        } else {
            Err(self.refuse())
        }
    }

    /// Takes note of how the request to close ended.
    ///
    /// After an acknowledged close the caller is to wait for the connection
    /// driver to stop. A failed close ends the shutdown: the client is
    /// closed, and the failure is returned as a shutdown error. A client
    /// that is not waiting for this report refuses it.
    pub fn close_finished(&mut self, outcome: Result<(), String>) -> (out: Result<(), ClientError>)
        ensures
            old(self).phase() == Phase::ShuttingDown(ShutdownStage::Close) ==> match outcome {
                Ok(_) => out is Ok && final(self).phase() == Phase::ShuttingDown(
                    ShutdownStage::Drain,
                ),
                Err(message) => {
                    &&& final(self).phase() == Phase::Closed
                    &&& out matches Err(ClientError::Shutdown { stage, message: m })
                    &&& stage == ShutdownStage::Close
                    &&& m@ == message@
                },
            },
            old(self).phase() != Phase::ShuttingDown(ShutdownStage::Close) ==> {
                &&& final(self).phase() == old(self).phase()
                &&& out == Err::<(), ClientError>(ClientError::InvalidState)
            },
    {
        if self.phase != Phase::ShuttingDown(ShutdownStage::Close) {
            return Err(ClientError::InvalidState);
        }
        match outcome {
            Ok(_) => {
                self.phase = self.phase.after(Event::CloseSucceeded);
                Ok(())
            },
            Err(message) => {
                self.phase = self.phase.after(Event::CloseFailed);
                Err(ClientError::Shutdown { stage: ShutdownStage::Close, message })
            },
        }
    }

    /// Takes note of how the wait for the connection driver ended.
    ///
    /// Either way the client is closed. A driver that stopped with a failure
    /// is returned as a shutdown error. A client that is not waiting for
    /// this report refuses it.
    pub fn drain_finished(&mut self, outcome: Result<(), String>) -> (out: Result<(), ClientError>)
        ensures
            old(self).phase() == Phase::ShuttingDown(ShutdownStage::Drain) ==> {
                &&& final(self).phase() == Phase::Closed
                &&& match outcome {
                    Ok(_) => out is Ok,
                    Err(message) => {
                        &&& out matches Err(ClientError::Shutdown { stage, message: m })
                        &&& stage == ShutdownStage::Drain
                        &&& m@ == message@
                    },
                }
            },
            old(self).phase() != Phase::ShuttingDown(ShutdownStage::Drain) ==> {
                &&& final(self).phase() == old(self).phase()
                &&& out == Err::<(), ClientError>(ClientError::InvalidState)
            },
    {
        if self.phase != Phase::ShuttingDown(ShutdownStage::Drain) {
            return Err(ClientError::InvalidState);
        }
        self.phase = self.phase.after(Event::DrainFinished);
        match outcome {
            Ok(_) => Ok(()),
            Err(message) => Err(ClientError::Shutdown { stage: ShutdownStage::Drain, message }),
        }
    }
}

} // verus!
