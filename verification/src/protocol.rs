//! The protocol state machine that drives one authentication conversation and
//! one session-start exchange against the daemon.
//!
//! The machine is pure: each transition consumes one daemon reply or one
//! presentation-layer command and returns a [`Step`] saying what the worker
//! must do next — which responses to relay, whether to open a fresh daemon
//! connection, and which request to send. The surrounding application performs
//! the socket and mailbox I/O and feeds the results back in.

use vstd::prelude::*;

use crate::messages::{
    AuthMessageType, Command, DaemonRequest, DaemonResponse, ErrorType, InputType, Responce,
    SpecCommand, SpecDaemonRequest, SpecDaemonResponse, SpecResponce,
};

verus! {

/// How the worker left the flow when it exited.
#[derive(Clone, Copy, Debug, PartialEq, Eq)]
pub enum Outcome {
    /// Authentication and session start both succeeded.
    Success,
    /// The presentation layer sent `Command::Quit`.
    Quit,
}

/// The conversation state of the worker.
///
/// `AwaitingUserAnswer` carries the kind of input the last relayed prompt
/// requires; it is the `expected_input` conversation state, set when a prompt
/// is relayed and cleared when the matching command is consumed.
#[derive(Clone, Copy, Debug, PartialEq, Eq)]
pub enum FlowState {
    /// No `CreateSession` has been sent yet over the fresh connection.
    Connecting,
    /// One daemon message is to be read next.
    AwaitingDaemon,
    /// Exactly one command answering the last prompt is to be consumed next.
    AwaitingUserAnswer(InputType),
    /// Authentication succeeded; a `Command::Session` is to be consumed next.
    AwaitingSessionChoice,
    /// A `StartSession` was sent; one daemon message decides the flow.
    AwaitingStartResult,
    /// The worker is done and exits.
    Exited(Outcome),
}

/// A fatal protocol-invariant violation: the two sides of a mailbox have
/// desynchronized, or the daemon spoke out of turn. The worker must not
/// attempt recovery.
#[derive(Clone, Copy, Debug, PartialEq, Eq)]
pub enum ProtocolError {
    /// `Entered` arrived for a prompt that requested no input, or `Next`
    /// arrived for a prompt that requested a credential.
    AnswerMismatch,
    /// `Session` arrived before the worker asked for one.
    SessionNotRequested,
    /// `Entered` or `Next` arrived while the worker was waiting for the
    /// session choice.
    AnswerNotRequested,
    /// The daemon sent an auth prompt while the worker was waiting for the
    /// session-start result.
    UnexpectedAuthMessage,
}

/// What one transition obliges the worker to do, in order: relay `emits` to
/// the presentation layer, then (if `reconnect`) open a fresh connection to
/// the daemon, then (if any) send `request` to the daemon.
#[derive(Debug, Clone, PartialEq, Eq)]
pub struct Step {
    pub emits: Vec<Responce>,
    pub reconnect: bool,
    pub request: Option<DaemonRequest>,
}

/// Mathematical model of a [`Step`].
#[verifier::ext_equal]
pub ghost struct SpecStep {
    pub emits: Seq<SpecResponce>,
    pub reconnect: bool,
    pub request: Option<SpecDaemonRequest>,
}

impl View for Step {
    type V = SpecStep;

    open spec fn view(&self) -> SpecStep {
        SpecStep {
            emits: self.emits@.map_values(|r: Responce| r@),
            reconnect: self.reconnect,
            request: match self.request {
                Some(q) => Some(q@),
                None => None,
            },
        }
    }
}

/// What the worker must wait for next.
#[derive(Clone, Copy, Debug, PartialEq, Eq)]
pub enum Need {
    /// Call [`AuthFlow::start`] over a fresh connection.
    Start,
    /// Read one daemon message and call [`AuthFlow::on_daemon_reply`].
    DaemonReply,
    /// Consume one command and call [`AuthFlow::on_command`].
    UserCommand,
    /// The flow is over; exit the worker.
    Done,
}

/// The fixed mapping from a daemon prompt's type to the kind of input the
/// presentation layer must collect. `Info` and `Error` prompts carry no
/// credential expectation and only require a no-payload acknowledgement.
pub open spec fn input_kind(t: AuthMessageType) -> InputType {
    match t {
        AuthMessageType::Visible => InputType::Visible,
        AuthMessageType::Secret => InputType::Password,
        AuthMessageType::Info => InputType::NoInput,
        AuthMessageType::Error => InputType::NoInput,
    }
}

/// A step that relays nothing, keeps the connection, and sends nothing.
pub open spec fn empty_step() -> SpecStep {
    SpecStep { emits: Seq::<SpecResponce>::empty(), reconnect: false, request: None }
}

/// The transition taken on one daemon reply, read in `AwaitingDaemon` or
/// `AwaitingStartResult`.
///
/// A daemon error always restarts the conversation: the daemon closes the
/// failed session unconditionally, so the worker reconnects and sends a brand
/// new `CreateSession` for the same user.
pub open spec fn daemon_step(user: Seq<char>, state: FlowState, reply: SpecDaemonResponse) -> Result<
    (FlowState, SpecStep),
    ProtocolError,
>
    recommends
        state is AwaitingDaemon || state is AwaitingStartResult,
{
    match reply {
        SpecDaemonResponse::Success => if state is AwaitingDaemon {
            Ok(
                (
                    FlowState::AwaitingSessionChoice,
                    SpecStep {
                        emits: seq![SpecResponce::GetSession],
                        reconnect: false,
                        request: None,
                    },
                ),
            )
        } else {
            Ok(
                (
                    FlowState::Exited(Outcome::Success),
                    SpecStep { emits: seq![SpecResponce::Success], reconnect: false, request: None },
                ),
            )
        },
        SpecDaemonResponse::Error { error_type, description } => Ok(
            (
                FlowState::AwaitingDaemon,
                SpecStep {
                    emits: seq![SpecResponce::Error(description)],
                    reconnect: true,
                    request: Some(SpecDaemonRequest::CreateSession { username: user }),
                },
            ),
        ),
        SpecDaemonResponse::AuthMessage { auth_message_type, auth_message } => if state
            is AwaitingDaemon {
            Ok(
                (
                    FlowState::AwaitingUserAnswer(input_kind(auth_message_type)),
                    SpecStep {
                        emits: seq![
                            SpecResponce::Message(auth_message),
                            SpecResponce::GetInput(input_kind(auth_message_type)),
                        ],
                        reconnect: false,
                        request: None,
                    },
                ),
            )
        } else {
            Err(ProtocolError::UnexpectedAuthMessage)
        },
    }
}

/// The transition taken on one presentation-layer command, consumed in
/// `AwaitingUserAnswer` or `AwaitingSessionChoice`.
///
/// `Quit` exits the worker from either state without any further daemon
/// request. A command the state did not license is a fatal violation and
/// produces no step at all.
pub open spec fn command_step(state: FlowState, cmd: SpecCommand) -> Result<
    (FlowState, SpecStep),
    ProtocolError,
>
    recommends
        state is AwaitingUserAnswer || state is AwaitingSessionChoice,
{
    match cmd {
        SpecCommand::Quit => Ok((FlowState::Exited(Outcome::Quit), empty_step())),
        SpecCommand::Entered(text) => match state {
            FlowState::AwaitingUserAnswer(InputType::Password)
            | FlowState::AwaitingUserAnswer(InputType::Visible) => Ok(
                (
                    FlowState::AwaitingDaemon,
                    SpecStep {
                        emits: Seq::<SpecResponce>::empty(),
                        reconnect: false,
                        request: Some(
                            SpecDaemonRequest::PostAuthMessageResponse { response: Some(text) },
                        ),
                    },
                ),
            ),
            FlowState::AwaitingUserAnswer(InputType::NoInput) => Err(ProtocolError::AnswerMismatch),
            _ => Err(ProtocolError::AnswerNotRequested),
        },
        SpecCommand::Next => match state {
            FlowState::AwaitingUserAnswer(InputType::NoInput) => Ok(
                (
                    FlowState::AwaitingDaemon,
                    SpecStep {
                        emits: Seq::<SpecResponce>::empty(),
                        reconnect: false,
                        request: Some(SpecDaemonRequest::PostAuthMessageResponse { response: None }),
                    },
                ),
            ),
            FlowState::AwaitingUserAnswer(_) => Err(ProtocolError::AnswerMismatch),
            _ => Err(ProtocolError::AnswerNotRequested),
        },
        SpecCommand::Session(launch) => match state {
            FlowState::AwaitingSessionChoice => Ok(
                (
                    FlowState::AwaitingStartResult,
                    SpecStep {
                        emits: Seq::<SpecResponce>::empty(),
                        reconnect: false,
                        request: Some(
                            SpecDaemonRequest::StartSession {
                                cmd: seq!["sh"@, "-c"@, launch],
                                env: Seq::<Seq<char>>::empty(),
                            },
                        ),
                    },
                ),
            ),
            _ => Err(ProtocolError::SessionNotRequested),
        },
    }
}

/// What the worker must wait for in each state.
pub open spec fn spec_expects(state: FlowState) -> Need {
    match state {
        FlowState::Connecting => Need::Start,
        FlowState::AwaitingDaemon => Need::DaemonReply,
        FlowState::AwaitingUserAnswer(_) => Need::UserCommand,
        FlowState::AwaitingSessionChoice => Need::UserCommand,
        FlowState::AwaitingStartResult => Need::DaemonReply,
        FlowState::Exited(_) => Need::Done,
    }
}

/// One authentication conversation plus one session-start exchange for a
/// fixed user. Created fresh per worker start, mutated solely by the worker,
/// discarded when the worker exits.
pub struct AuthFlow {
    username: String,
    state: FlowState,
}

/// Mathematical model of an [`AuthFlow`].
#[verifier::ext_equal]
pub ghost struct SpecAuthFlow {
    pub username: Seq<char>,
    pub state: FlowState,
}

impl View for AuthFlow {
    type V = SpecAuthFlow;

    closed spec fn view(&self) -> SpecAuthFlow {
        SpecAuthFlow { username: self.username@, state: self.state }
    }
}

impl AuthFlow {
    /// A fresh flow for `username`, ready for its first connection.
    pub fn new(username: String) -> (flow: AuthFlow)
        ensures
            flow@.username == username@,
            flow@.state == FlowState::Connecting,
    {
        AuthFlow { username, state: FlowState::Connecting }
    }

    /// What the worker must wait for next.
    pub fn expects(&self) -> (need: Need)
        ensures
            need == spec_expects(self@.state),
    {
        match self.state {
            FlowState::Connecting => Need::Start,
            FlowState::AwaitingDaemon => Need::DaemonReply,
            FlowState::AwaitingUserAnswer(_) => Need::UserCommand,
            FlowState::AwaitingSessionChoice => Need::UserCommand,
            FlowState::AwaitingStartResult => Need::DaemonReply,
            FlowState::Exited(_) => Need::Done,
        }
    }

    /// Open the conversation over the connection the worker just established:
    /// send `CreateSession` for the flow's user and wait for the daemon.
    pub fn start(&mut self) -> (step: Step)
        requires
            old(self)@.state is Connecting,
        ensures
            final(self)@.username == old(self)@.username,
            final(self)@.state == FlowState::AwaitingDaemon,
            step@.emits == Seq::<SpecResponce>::empty(),
            !step@.reconnect,
            step@.request == Some(
                SpecDaemonRequest::CreateSession { username: old(self)@.username },
            ),
    {
        self.state = FlowState::AwaitingDaemon;
        let username = self.username.clone();
        let step = Step {
            emits: Vec::new(),
            reconnect: false,
            request: Some(DaemonRequest::CreateSession { username }),
        };
        proof {
            assert(step@.emits =~= Seq::<SpecResponce>::empty());
        }
        step
    }

    /// Consume the one daemon message read in `AwaitingDaemon` or
    /// `AwaitingStartResult` and take the transition [`daemon_step`] fixes for
    /// it. On a fatal violation the flow is left unchanged and the worker must
    /// abort.
    pub fn on_daemon_reply(&mut self, reply: DaemonResponse) -> (r: Result<Step, ProtocolError>)
        requires
            old(self)@.state is AwaitingDaemon || old(self)@.state is AwaitingStartResult,
        ensures
            final(self)@.username == old(self)@.username,
            match r {
                Ok(step) => daemon_step(old(self)@.username, old(self)@.state, reply@) == Ok::<
                    (FlowState, SpecStep),
                    ProtocolError,
                >((final(self)@.state, step@)),
                Err(e) => daemon_step(old(self)@.username, old(self)@.state, reply@) == Err::<
                    (FlowState, SpecStep),
                    ProtocolError,
                >(e) && final(self)@ == old(self)@,
            },
    {
        match reply {
            DaemonResponse::Success => {
                match self.state {
                    FlowState::AwaitingDaemon => {
                        self.state = FlowState::AwaitingSessionChoice;
                        let step = Step {
                            emits: vec![Responce::GetSession],
                            reconnect: false,
                            request: None,
                        };
                        proof {
                            assert(step@.emits =~= seq![SpecResponce::GetSession]);
                        }
                        Ok(step)
                    },
                    _ => {
                        self.state = FlowState::Exited(Outcome::Success);
                        let step = Step {
                            emits: vec![Responce::Success],
                            reconnect: false,
                            request: None,
                        };
                        proof {
                            assert(step@.emits =~= seq![SpecResponce::Success]);
                        }
                        Ok(step)
                    },
                }
            },
            DaemonResponse::Error { error_type: _, description } => {
                self.state = FlowState::AwaitingDaemon;
                let username = self.username.clone();
                let step = Step {
                    emits: vec![Responce::Error(description)],
                    reconnect: true,
                    request: Some(DaemonRequest::CreateSession { username }),
                };
                proof {
                    assert(step@.emits =~= seq![SpecResponce::Error(reply->description@)]);
                }
                Ok(step)
            },
            DaemonResponse::AuthMessage { auth_message_type, auth_message } => {
                match self.state {
                    FlowState::AwaitingDaemon => {
                        let kind = prompt_kind(auth_message_type);
                        self.state = FlowState::AwaitingUserAnswer(kind);
                        let step = Step {
                            emits: vec![Responce::Message(auth_message), Responce::GetInput(kind)],
                            reconnect: false,
                            request: None,
                        };
                        proof {
                            assert(step@.emits =~= seq![
                                SpecResponce::Message(reply->auth_message@),
                                SpecResponce::GetInput(input_kind(auth_message_type)),
                            ]);
                        }
                        Ok(step)
                    },
                    _ => Err(ProtocolError::UnexpectedAuthMessage),
                }
            },
        }
    }

    /// Consume the one command the presentation layer sent while the flow was
    /// in `AwaitingUserAnswer` or `AwaitingSessionChoice` and take the
    /// transition [`command_step`] fixes for it. An unlicensed command leaves
    /// the flow unchanged, sends nothing to the daemon, and obliges the worker
    /// to abort.
    pub fn on_command(&mut self, cmd: Command) -> (r: Result<Step, ProtocolError>)
        requires
            old(self)@.state is AwaitingUserAnswer || old(self)@.state is AwaitingSessionChoice,
        ensures
            final(self)@.username == old(self)@.username,
            match r {
                Ok(step) => command_step(old(self)@.state, cmd@) == Ok::<
                    (FlowState, SpecStep),
                    ProtocolError,
                >((final(self)@.state, step@)),
                Err(e) => command_step(old(self)@.state, cmd@) == Err::<
                    (FlowState, SpecStep),
                    ProtocolError,
                >(e) && final(self)@ == old(self)@,
            },
    {
        match cmd {
            Command::Quit => {
                self.state = FlowState::Exited(Outcome::Quit);
                let step = Step { emits: Vec::new(), reconnect: false, request: None };
                proof {
                    assert(step@.emits =~= Seq::<SpecResponce>::empty());
                }
                Ok(step)
            },
            Command::Entered(text) => {
                match self.state {
                    FlowState::AwaitingUserAnswer(InputType::Password)
                    | FlowState::AwaitingUserAnswer(InputType::Visible) => {
                        self.state = FlowState::AwaitingDaemon;
                        let step = Step {
                            emits: Vec::new(),
                            reconnect: false,
                            request: Some(
                                DaemonRequest::PostAuthMessageResponse { response: Some(text) },
                            ),
                        };
                        proof {
                            assert(step@.emits =~= Seq::<SpecResponce>::empty());
                        }
                        Ok(step)
                    },
                    FlowState::AwaitingUserAnswer(InputType::NoInput) => Err(
                        ProtocolError::AnswerMismatch,
                    ),
                    _ => Err(ProtocolError::AnswerNotRequested),
                }
            },
            Command::Next => {
                match self.state {
                    FlowState::AwaitingUserAnswer(InputType::NoInput) => {
                        self.state = FlowState::AwaitingDaemon;
                        let step = Step {
                            emits: Vec::new(),
                            reconnect: false,
                            request: Some(
                                DaemonRequest::PostAuthMessageResponse { response: None },
                            ),
                        };
                        proof {
                            assert(step@.emits =~= Seq::<SpecResponce>::empty());
                        }
                        Ok(step)
                    },
                    FlowState::AwaitingUserAnswer(_) => Err(ProtocolError::AnswerMismatch),
                    _ => Err(ProtocolError::AnswerNotRequested),
                }
            },
            Command::Session(launch) => {
                match self.state {
                    FlowState::AwaitingSessionChoice => {
                        self.state = FlowState::AwaitingStartResult;
                        let shell = String::from_str("sh");
                        let dash_c = String::from_str("-c");
                        let step = Step {
                            emits: Vec::new(),
                            reconnect: false,
                            request: Some(
                                DaemonRequest::StartSession {
                                    cmd: vec![shell, dash_c, launch],
                                    env: Vec::new(),
                                },
                            ),
                        };
                        proof {
                            assert(step@.emits =~= Seq::<SpecResponce>::empty());
                            assert(step@.request matches Some(SpecDaemonRequest::StartSession {
                                cmd: c,
                                env: e,
                            }) && c =~= seq!["sh"@, "-c"@, cmd->Session_0@] && e =~= Seq::<
                                Seq<char>,
                            >::empty());
                        }
                        Ok(step)
                    },
                    _ => Err(ProtocolError::SessionNotRequested),
                }
            },
        }
    }
}

/// Whatever the conversation state, the kind carried by an emitted
/// `GetInput` is determined solely by the prompt's type, per the fixed
/// mapping [`input_kind`]: no other part of the state, the user name, or the
/// prompt's text influences it.
pub proof fn lemma_prompt_kind_fixed(user: Seq<char>, state: FlowState, reply: SpecDaemonResponse)
    requires
        state is AwaitingDaemon || state is AwaitingStartResult,
    ensures
        ({
            let r = daemon_step(user, state, reply);
            r matches Ok((new_state, step)) ==> forall|i: int|
                #![trigger step.emits[i]]
                0 <= i < step.emits.len() ==> (step.emits[i] matches SpecResponce::GetInput(kind)
                    ==> (reply matches SpecDaemonResponse::AuthMessage { auth_message_type, .. }
                    && kind == input_kind(auth_message_type)))
        }),
{
}

/// An `Entered` answer when the expected kind is `NoInput`, or a `Next`
/// acknowledgement when the expected kind is `Password` or `Visible`, never
/// produces a step — so no daemon request is sent — and is signalled as the
/// fatal violation `AnswerMismatch`.
pub proof fn lemma_mismatched_answer_rejected(state: FlowState, cmd: SpecCommand)
    requires
        ({
            ||| state == FlowState::AwaitingUserAnswer(InputType::NoInput) && cmd is Entered
            ||| (state == FlowState::AwaitingUserAnswer(InputType::Password) || state
                == FlowState::AwaitingUserAnswer(InputType::Visible)) && cmd is Next
        }),
    ensures
        command_step(state, cmd) == Err::<(FlowState, SpecStep), ProtocolError>(
            ProtocolError::AnswerMismatch,
        ),
{
}

/// After any daemon-reported error, the flow reconnects and the very next
/// daemon request is `CreateSession` with the same user name as the original
/// attempt; only the error's description is relayed, and the conversation
/// returns to `AwaitingDaemon`.
pub proof fn lemma_error_restarts_conversation(
    user: Seq<char>,
    state: FlowState,
    error_type: ErrorType,
    description: Seq<char>,
)
    requires
        state is AwaitingDaemon || state is AwaitingStartResult,
    ensures
        ({
            let r = daemon_step(
                user,
                state,
                SpecDaemonResponse::Error { error_type, description },
            );
            &&& r matches Ok((new_state, step))
            &&& new_state == FlowState::AwaitingDaemon
            &&& step.reconnect
            &&& step.request == Some(SpecDaemonRequest::CreateSession { username: user })
            &&& step.emits =~= seq![SpecResponce::Error(description)]
        }),
{
}

/// `Quit`, consumed at either command-wait point, exits the worker without
/// any further daemon request, any relayed response, or any reconnection —
/// and an exited flow waits for nothing, so a pending `Quit` always ends the
/// worker's loop.
pub proof fn lemma_quit_exits(state: FlowState)
    requires
        state is AwaitingUserAnswer || state is AwaitingSessionChoice,
    ensures
        ({
            let r = command_step(state, SpecCommand::Quit);
            &&& r matches Ok((new_state, step))
            &&& new_state == FlowState::Exited(Outcome::Quit)
            &&& step.request is None
            &&& step.emits =~= Seq::<SpecResponce>::empty()
            &&& !step.reconnect
            &&& spec_expects(new_state) == Need::Done
        }),
{
}

/// A response that licenses exactly one command from the presentation layer.
pub open spec fn is_turn_request(r: SpecResponce) -> bool {
    r is GetInput || r is GetSession
}

/// Request/response alternation: a transition on a daemon reply relays at
/// most one `GetInput`/`GetSession`, it is the last response relayed, and one
/// is relayed exactly when the flow then waits for a command. So the worker
/// never asks the presentation layer twice without consuming a command in
/// between.
pub proof fn lemma_turn_alternation(user: Seq<char>, state: FlowState, reply: SpecDaemonResponse)
    requires
        state is AwaitingDaemon || state is AwaitingStartResult,
    ensures
        ({
            let r = daemon_step(user, state, reply);
            r matches Ok((new_state, step)) ==> {
                &&& step.emits.len() <= 2
                &&& (spec_expects(new_state) == Need::UserCommand <==> (step.emits.len() > 0
                    && is_turn_request(step.emits.last())))
                &&& forall|i: int|
                    0 <= i < step.emits.len() - 1 ==> !is_turn_request(#[trigger] step.emits[i])
            }
        }),
{
}

/// A transition on a command relays nothing at all to the presentation
/// layer, and never leads straight back to a command-wait state.
pub proof fn lemma_command_relays_nothing(state: FlowState, cmd: SpecCommand)
    requires
        state is AwaitingUserAnswer || state is AwaitingSessionChoice,
    ensures
        ({
            let r = command_step(state, cmd);
            r matches Ok((new_state, step)) ==> {
                &&& step.emits =~= Seq::<SpecResponce>::empty()
                &&& spec_expects(new_state) != Need::UserCommand
            }
        }),
{
}

/// The fixed prompt-type mapping, as executable code.
pub fn prompt_kind(t: AuthMessageType) -> (kind: InputType)
    ensures
        kind == input_kind(t),
{
    match t {
        AuthMessageType::Visible => InputType::Visible,
        AuthMessageType::Secret => InputType::Password,
        AuthMessageType::Info => InputType::NoInput,
        AuthMessageType::Error => InputType::NoInput,
    }
}

} // verus!
