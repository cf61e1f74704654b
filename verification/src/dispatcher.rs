//! The session state machine that the helper process runs.
//!
//! The helper owns the native library. It alternates between waiting for a
//! request, waiting for the native library to return, and, while the native
//! library authenticates, waiting for the answers to a conversation round.
//! [`Dispatcher`] decides at each of these points what happens next; the
//! process around it performs the reads, the writes and the native calls.

use vstd::prelude::*;
use crate::messages::{
    answers_model, bytes_model, prompts_model, Operation, PamMessage, PromptModel, Request,
    RequestModel, Response, ResponseModel, TransportError, PAM_SUCCESS, PAM_SYSTEM_ERR,
};

verus! {

/// Where a channel stands in the life of its sessions.
#[derive(Clone, Copy, Debug, PartialEq, Eq, Structural)]
pub enum SessionState {
    /// No session was opened on this channel yet.
    AwaitingStart,
    /// A session is open.
    InSession,
    /// The last session was ended; a new one may be started.
    Ended,
}

/// What the dispatcher is waiting for.
#[derive(Clone, Copy, Debug, PartialEq, Eq, Structural)]
pub enum Pending {
    /// The next request from the channel.
    Request,
    /// The native library, which is beginning a session.
    Start,
    /// The native library, which is running a call on the open session.
    Call(Operation),
    /// The answers to a conversation round of `prompts` prompts.
    Answers { prompts: usize },
}

/// A call that the process must make on the native library.
#[derive(Clone, Debug, PartialEq, Eq)]
pub enum NativeCall {
    /// Begin a session, in the given configuration directory if there is one.
    Start { service_name: Vec<u8>, user: Vec<u8>, confdir: Option<Vec<u8>> },
    /// Run `operation` on the open session with `argument`.
    Session { operation: Operation, argument: i32 },
}

/// Model of a [`NativeCall`].
pub enum NativeCallModel {
    Start { service_name: Seq<u8>, user: Seq<u8>, confdir: Option<Seq<u8>> },
    Session { operation: Operation, argument: i32 },
}

impl View for NativeCall {
    type V = NativeCallModel;

    open spec fn view(&self) -> NativeCallModel {
        match *self {
            NativeCall::Start { service_name, user, confdir } => NativeCallModel::Start {
                service_name: service_name@,
                user: user@,
                confdir: bytes_model(confdir),
            },
            NativeCall::Session { operation, argument } => NativeCallModel::Session {
                operation,
                argument,
            },
        }
    }
}

/// What the process must do after it handed a request to the dispatcher.
#[derive(Clone, Debug, PartialEq, Eq)]
pub enum Action {
    /// Send this response and wait for the next request.
    Reply(Response),
    /// Make this call on the native library and report its status with
    /// [`Dispatcher::native_returned`].
    Invoke(NativeCall),
}

/// Model of an [`Action`].
pub enum ActionModel {
    Reply(ResponseModel),
    Invoke(NativeCallModel),
}

impl View for Action {
    type V = ActionModel;

    open spec fn view(&self) -> ActionModel {
        match *self {
            Action::Reply(response) => ActionModel::Reply(response@),
            Action::Invoke(call) => ActionModel::Invoke(call@),
        }
    }
}

/// Why a conversation round failed. The native callback then reports
/// [`PAM_SYSTEM_ERR`] and nothing is sent for the round.
#[derive(Clone, Copy, Debug, PartialEq, Eq, Structural)]
pub enum ConvError {
    /// The native library asked for a conversation while no authentication
    /// was running.
    NotAuthenticating,
    /// Answers were handed in while no conversation round was open.
    NoConversation,
    /// A request other than the answers arrived.
    UnexpectedRequest,
    /// The number of answers differs from the number of prompts.
    WrongCount,
    /// The channel failed while the answers were awaited.
    Transport(TransportError),
}

/// The response that rejects a request: the reserved failure status.
pub open spec fn rejection() -> ResponseModel {
    ResponseModel::Result { pam_status: PAM_SYSTEM_ERR }
}

/// The token of the session that follows a session with token `token`. It
/// differs from `token` and is never 0.
pub open spec fn next_token(token: usize) -> usize {
    if token == usize::MAX {
        1
    } else {
        (token + 1) as usize
    }
}

/// Model of a [`Dispatcher`].
pub struct DispatcherModel {
    /// The state of the channel.
    pub state: SessionState,
    /// The token of the open session or, when none is open, of the last one;
    /// 0 until a session was opened.
    pub token: usize,
    /// What the dispatcher is waiting for.
    pub pending: Pending,
}

impl DispatcherModel {
    /// A dispatcher on a fresh channel.
    pub open spec fn initial() -> DispatcherModel {
        DispatcherModel {
            state: SessionState::AwaitingStart,
            token: 0,
            pending: Pending::Request,
        }
    }

    /// What holds of every dispatcher: the native library begins a session
    /// only while none is open and runs session calls only on an open one,
    /// and a token that was handed out is not 0.
    pub open spec fn inv(self) -> bool {
        &&& self.pending is Start ==> self.state != SessionState::InSession
        &&& self.pending is Call || self.pending is Answers ==> self.state
            == SessionState::InSession
        &&& self.state == SessionState::AwaitingStart <==> self.token == 0
    }

    /// Whether `request` is served when it arrives now. With a session open
    /// that is a session call that names the session's token; with none open
    /// it is `PamStart`. While the dispatcher waits for something else no
    /// request is served.
    pub open spec fn accepts(self, request: RequestModel) -> bool {
        &&& self.pending is Request
        &&& if self.state == SessionState::InSession {
            request.session_call() matches Some(call) && call.handle == self.token
        } else {
            request is PamStart
        }
    }

    /// A request arrives. One that is not served is answered with a
    /// rejection and changes nothing; one that is served leads to a native
    /// call with the request's arguments.
    pub open spec fn on_request(self, request: RequestModel) -> (DispatcherModel, ActionModel) {
        if !self.accepts(request) {
            (self, ActionModel::Reply(rejection()))
        } else {
            match request {
                RequestModel::PamStart { service_name, user, confdir } => (
                    DispatcherModel { pending: Pending::Start, ..self },
                    ActionModel::Invoke(NativeCallModel::Start { service_name, user, confdir }),
                ),
                _ => {
                    let call = request.session_call().unwrap();
                    (
                        DispatcherModel { pending: Pending::Call(call.operation), ..self },
                        ActionModel::Invoke(
                            NativeCallModel::Session {
                                operation: call.operation,
                                argument: call.argument,
                            },
                        ),
                    )
                },
            }
        }
    }

    /// The native library returns `status`. The status is passed on as it
    /// is. A session that began successfully is open under a new token; a
    /// session whose end was called is over, whatever the status. Where no
    /// native call was running the answer is a rejection.
    pub open spec fn on_return(self, status: i32) -> (DispatcherModel, ResponseModel) {
        match self.pending {
            Pending::Start => if status == PAM_SUCCESS {
                let token = next_token(self.token);
                (
                    DispatcherModel {
                        state: SessionState::InSession,
                        token,
                        pending: Pending::Request,
                    },
                    ResponseModel::Handle { handle: token, pam_status: status },
                )
            } else {
                (
                    DispatcherModel { pending: Pending::Request, ..self },
                    ResponseModel::Handle { handle: 0, pam_status: status },
                )
            },
            Pending::Call(Operation::End) => (
                DispatcherModel { state: SessionState::Ended, pending: Pending::Request, ..self },
                ResponseModel::Result { pam_status: status },
            ),
            Pending::Call(_) => (
                DispatcherModel { pending: Pending::Request, ..self },
                ResponseModel::Result { pam_status: status },
            ),
            _ => (self, rejection()),
        }
    }

    /// The native library asks for a conversation with `prompts`. While it
    /// authenticates, the prompts are sent on as they are and their number is
    /// kept; at any other time the round fails.
    pub open spec fn on_prompts(self, prompts: Seq<PromptModel>) -> (
        DispatcherModel,
        Result<ResponseModel, ConvError>,
    ) {
        if self.pending == Pending::Call(Operation::Authenticate) && prompts.len() <= usize::MAX {
            (
                DispatcherModel {
                    pending: Pending::Answers { prompts: prompts.len() as usize },
                    ..self
                },
                Ok(ResponseModel::Conversation { messages: prompts }),
            )
        } else {
            (self, Err(ConvError::NotAuthenticating))
        }
    }

    /// The read that follows a conversation round ends with `incoming`. Only
    /// `PamAuthenticateResponse` with one entry for each prompt is taken; its
    /// entries go to the native library as they are. Whatever arrived, the
    /// round is over and the native library goes on authenticating.
    pub open spec fn on_answers(self, incoming: Result<RequestModel, TransportError>) -> (
        DispatcherModel,
        Result<Seq<Option<Seq<u8>>>, ConvError>,
    ) {
        match self.pending {
            Pending::Answers { prompts } => (
                DispatcherModel { pending: Pending::Call(Operation::Authenticate), ..self },
                match incoming {
                    Ok(RequestModel::PamAuthenticateResponse { responses }) => if responses.len()
                        == prompts {
                        Ok(responses)
                    } else {
                        Err(ConvError::WrongCount)
                    },
                    Ok(_) => Err(ConvError::UnexpectedRequest),
                    Err(error) => Err(ConvError::Transport(error)),
                },
            ),
            _ => (self, Err(ConvError::NoConversation)),
        }
    }

    /// The channel fails while the next request is awaited. A session that
    /// is open must not outlive the channel: its end is called, with the
    /// reserved failure status. Otherwise nothing is left to do.
    pub open spec fn on_close(self) -> (DispatcherModel, Option<NativeCallModel>) {
        if self.pending is Request && self.state == SessionState::InSession {
            (
                DispatcherModel { pending: Pending::Call(Operation::End), ..self },
                Some(
                    NativeCallModel::Session {
                        operation: Operation::End,
                        argument: PAM_SYSTEM_ERR,
                    },
                ),
            )
        } else {
            (self, None)
        }
    }
}

/// Model of what a read gave: a request or a failure of the channel.
pub open spec fn incoming_model(incoming: Result<Request, TransportError>) -> Result<
    RequestModel,
    TransportError,
> {
    match incoming {
        Ok(request) => Ok(request@),
        Err(error) => Err(error),
    }
}

/// Model of how the opening of a conversation round ended.
pub open spec fn opened_model(round: Result<Response, ConvError>) -> Result<
    ResponseModel,
    ConvError,
> {
    match round {
        Ok(response) => Ok(response@),
        Err(error) => Err(error),
    }
}

/// Model of how a conversation round ended.
pub open spec fn answered_model(round: Result<Vec<Option<Vec<u8>>>, ConvError>) -> Result<
    Seq<Option<Seq<u8>>>,
    ConvError,
> {
    match round {
        Ok(answers) => Ok(answers_model(answers)),
        Err(error) => Err(error),
    }
}

/// Model of a call that may have to be made.
pub open spec fn call_model(call: Option<NativeCall>) -> Option<NativeCallModel> {
    match call {
        Some(call) => Some(call@),
        None => None,
    }
}

/// The status that the native callback reports for a conversation round:
/// success where the round gave answers, the reserved failure otherwise.
pub open spec fn callback_status<T>(round: Result<T, ConvError>) -> i32 {
    if round is Ok {
        PAM_SUCCESS
    } else {
        PAM_SYSTEM_ERR
    }
}

/// The state machine of one channel of the helper process.
#[derive(Debug)]
pub struct Dispatcher {
    state: SessionState,
    token: usize,
    pending: Pending,
}

impl View for Dispatcher {
    type V = DispatcherModel;

    closed spec fn view(&self) -> DispatcherModel {
        DispatcherModel { state: self.state, token: self.token, pending: self.pending }
    }
}

impl Dispatcher {
    #[verifier::type_invariant]
    closed spec fn well_formed(self) -> bool {
        self@.inv()
    }

    /// A dispatcher for a fresh channel.
    pub fn new() -> (dispatcher: Dispatcher)
        ensures
            dispatcher@ == DispatcherModel::initial(),
            dispatcher@.inv(),
    {
        Dispatcher { state: SessionState::AwaitingStart, token: 0, pending: Pending::Request }
    }

    /// The state of the channel.
    pub fn state(&self) -> (state: SessionState)
        ensures
            state == self@.state,
            self@.inv(),
    {
        proof {
            use_type_invariant(self);
        }
        self.state
    }

    /// The token of the open session or, when none is open, of the last one.
    pub fn token(&self) -> (token: usize)
        ensures
            token == self@.token,
            self@.inv(),
    {
        proof {
            use_type_invariant(self);
        }
        self.token
    }

    /// What the dispatcher is waiting for.
    pub fn pending(&self) -> (pending: Pending)
        ensures
            pending == self@.pending,
            self@.inv(),
    {
        proof {
            use_type_invariant(self);
        }
        self.pending
    }

    /// Takes a request that arrived while the process waited for one and
    /// says what to do about it.
    pub fn handle_request(&mut self, request: Request) -> (action: Action)
        ensures
            (final(self)@, action@) == old(self)@.on_request(request@),
            final(self)@.inv(),
    {
        proof {
            use_type_invariant(&*self);
        }
        let rejected = Action::Reply(Response::Result { pam_status: PAM_SYSTEM_ERR });
        match self.pending {
            Pending::Request => {},
            _ => {
                return rejected;
            },
        }
        match self.state {
            SessionState::InSession => {
                match request.session_call() {
                    Some(call) => {
                        if call.handle == self.token {
                            self.pending = Pending::Call(call.operation);
                            Action::Invoke(
                                NativeCall::Session {
                                    operation: call.operation,
                                    argument: call.argument,
                                },
                            )
                        } else {
                            rejected
                        }
                    },
                    None => rejected,
                }
            },
            _ => {
                match request {
                    Request::PamStart { service_name, user, confdir } => {
                        self.pending = Pending::Start;
                        Action::Invoke(NativeCall::Start { service_name, user, confdir })
                    },
                    _ => rejected,
                }
            },
        }
    }

    /// Takes the status that the native library returned for the call that
    /// [`Dispatcher::handle_request`] asked for, and gives the response to
    /// send.
    pub fn native_returned(&mut self, status: i32) -> (response: Response)
        ensures
            (final(self)@, response@) == old(self)@.on_return(status),
            final(self)@.inv(),
    {
        proof {
            use_type_invariant(&*self);
        }
        match self.pending {
            Pending::Start => {
                if status == PAM_SUCCESS {
                    let token: usize = if self.token == usize::MAX {
                        1
                    } else {
                        self.token + 1
                    };
                    *self = Dispatcher {
                        state: SessionState::InSession,
                        token,
                        pending: Pending::Request,
                    };
                    Response::Handle { handle: token, pam_status: status }
                } else {
                    self.pending = Pending::Request;
                    Response::Handle { handle: 0, pam_status: status }
                }
            },
            Pending::Call(operation) => {
                match operation {
                    Operation::End => {
                        *self = Dispatcher {
                            state: SessionState::Ended,
                            token: self.token,
                            pending: Pending::Request,
                        };
                    },
                    _ => {
                        self.pending = Pending::Request;
                    },
                }
                Response::Result { pam_status: status }
            },
            _ => Response::Result { pam_status: PAM_SYSTEM_ERR },
        }
    }

    /// Takes the prompts with which the native library called back, and
    /// gives the response that carries them to the facade.
    pub fn begin_conversation(&mut self, prompts: Vec<PamMessage>) -> (round: Result<
        Response,
        ConvError,
    >)
        ensures
            (final(self)@, opened_model(round)) == old(self)@.on_prompts(prompts_model(prompts)),
            final(self)@.inv(),
    {
        proof {
            use_type_invariant(&*self);
        }
        match self.pending {
            Pending::Call(Operation::Authenticate) => {
                self.pending = Pending::Answers { prompts: prompts.len() };
                Ok(Response::Conversation { messages: prompts })
            },
            _ => Err(ConvError::NotAuthenticating),
        }
    }

    /// Takes what the read after a conversation round gave, and gives the
    /// answers to hand to the native library.
    pub fn accept_answers(&mut self, incoming: Result<Request, TransportError>) -> (round: Result<
        Vec<Option<Vec<u8>>>,
        ConvError,
    >)
        ensures
            (final(self)@, answered_model(round)) == old(self)@.on_answers(
                incoming_model(incoming),
            ),
            final(self)@.inv(),
    {
        proof {
            use_type_invariant(&*self);
        }
        match self.pending {
            Pending::Answers { prompts } => {
                self.pending = Pending::Call(Operation::Authenticate);
                match incoming {
                    Ok(Request::PamAuthenticateResponse { responses }) => {
                        if responses.len() == prompts {
                            Ok(responses)
                        } else {
                            Err(ConvError::WrongCount)
                        }
                    },
                    Ok(_) => Err(ConvError::UnexpectedRequest),
                    Err(error) => Err(ConvError::Transport(error)),
                }
            },
            _ => Err(ConvError::NoConversation),
        }
    }

    /// Takes note that the channel failed while the process waited for a
    /// request, and gives the native call that is left to make, if any.
    pub fn channel_closed(&mut self) -> (call: Option<NativeCall>)
        ensures
            (final(self)@, call_model(call)) == old(self)@.on_close(),
            final(self)@.inv(),
    {
        proof {
            use_type_invariant(&*self);
        }
        match (self.pending, self.state) {
            (Pending::Request, SessionState::InSession) => {
                self.pending = Pending::Call(Operation::End);
                Some(NativeCall::Session { operation: Operation::End, argument: PAM_SYSTEM_ERR })
            },
            _ => None,
        }
    }
}

/// The status that the native callback returns for a conversation round,
/// whether the round failed when it was opened or when it was answered.
pub fn conv_status<T>(round: &Result<T, ConvError>) -> (status: i32)
    ensures
        status == callback_status(*round),
{
    match round {
        Ok(_) => PAM_SUCCESS,
        Err(_) => PAM_SYSTEM_ERR,
    }
}

/// The token of a new session is not 0 and differs from the token of the
/// session before it.
pub proof fn lemma_next_token_is_new(token: usize)
    ensures
        next_token(token) != token,
        next_token(token) != 0,
{
}

/// Every step keeps what holds of every dispatcher, and a fresh dispatcher
/// has it.
pub proof fn lemma_steps_keep_inv(
    dispatcher: DispatcherModel,
    request: RequestModel,
    status: i32,
    prompts: Seq<PromptModel>,
    incoming: Result<RequestModel, TransportError>,
)
    requires
        dispatcher.inv(),
    ensures
        DispatcherModel::initial().inv(),
        dispatcher.on_request(request).0.inv(),
        dispatcher.on_return(status).0.inv(),
        dispatcher.on_prompts(prompts).0.inv(),
        dispatcher.on_answers(incoming).0.inv(),
        dispatcher.on_close().0.inv(),
{
}

/// A request out of sequence is rejected with the reserved failure status
/// and changes nothing: before the first session, every request but
/// `PamStart`; with a session open, `PamStart`.
pub proof fn lemma_out_of_sequence_rejected(dispatcher: DispatcherModel, request: RequestModel)
    requires
        dispatcher.state == SessionState::AwaitingStart && !(request is PamStart)
            || dispatcher.state == SessionState::InSession && request is PamStart,
    ensures
        dispatcher.on_request(request) == (dispatcher, ActionModel::Reply(rejection())),
{
}

/// No native call is made on a session unless it is open and the request
/// names its token: a request with any other handle, and answers that no
/// conversation asked for, are rejected and change nothing.
pub proof fn lemma_foreign_handle_rejected(dispatcher: DispatcherModel, request: RequestModel)
    requires
        dispatcher.state == SessionState::InSession,
        request.session_call() matches Some(call) ==> call.handle != dispatcher.token,
    ensures
        dispatcher.on_request(request) == (dispatcher, ActionModel::Reply(rejection())),
{
}

/// One request at a time: while the dispatcher waits for the native library
/// or for the answers of a conversation, every request is rejected and
/// changes nothing.
pub proof fn lemma_one_request_at_a_time(dispatcher: DispatcherModel, request: RequestModel)
    requires
        !(dispatcher.pending is Request),
    ensures
        dispatcher.on_request(request) == (dispatcher, ActionModel::Reply(rejection())),
{
}

/// Answers that arrive as a request of their own, in whatever state, are
/// rejected and change nothing: they are taken only right after the
/// conversation round that asked for them.
pub proof fn lemma_unsolicited_answers_rejected(
    dispatcher: DispatcherModel,
    responses: Seq<Option<Seq<u8>>>,
    incoming: Result<RequestModel, TransportError>,
)
    ensures
        dispatcher.on_request(RequestModel::PamAuthenticateResponse { responses }) == (
            dispatcher,
            ActionModel::Reply(rejection()),
        ),
        !(dispatcher.pending is Answers) ==> dispatcher.on_answers(incoming) == (
            dispatcher,
            Err::<Seq<Option<Seq<u8>>>, ConvError>(ConvError::NoConversation),
        ),
{
}

/// A conversation round gives answers exactly when what arrived is
/// `PamAuthenticateResponse` with one entry for each prompt. In every other
/// case the native callback reports the reserved failure status.
pub proof fn lemma_round_succeeds_only_on_answers(
    dispatcher: DispatcherModel,
    incoming: Result<RequestModel, TransportError>,
)
    ensures
        dispatcher.on_answers(incoming).1 is Ok <==> (dispatcher.pending matches Pending::Answers {
            prompts,
        } && incoming matches Ok(RequestModel::PamAuthenticateResponse { responses })
            && responses.len() == prompts),
        callback_status(dispatcher.on_answers(incoming).1) == if dispatcher.on_answers(
            incoming,
        ).1 is Ok {
            PAM_SUCCESS
        } else {
            PAM_SYSTEM_ERR
        },
{
}

/// A request leads to a native call only where the dispatcher serves it, and
/// the call is the one that the request names.
pub proof fn lemma_invoke_only_when_served(dispatcher: DispatcherModel, request: RequestModel)
    ensures
        dispatcher.on_request(request).1 is Invoke <==> dispatcher.accepts(request),
        dispatcher.on_request(request).1 matches ActionModel::Invoke(
            NativeCallModel::Session { operation, argument },
        ) ==> dispatcher.state == SessionState::InSession && request.session_call() == Some(
            crate::messages::SessionCall { handle: dispatcher.token, operation, argument },
        ),
        dispatcher.on_request(request).1 matches ActionModel::Invoke(
            NativeCallModel::Start { service_name, user, confdir },
        ) ==> dispatcher.state != SessionState::InSession && request
            == (RequestModel::PamStart { service_name, user, confdir }),
{
}

/// Answers whose number differs from the number of prompts of the round
/// that was just opened are refused; answers of the right number are handed
/// on as they are.
pub proof fn lemma_answers_must_match_prompts(
    dispatcher: DispatcherModel,
    prompts: Seq<PromptModel>,
    responses: Seq<Option<Seq<u8>>>,
)
    requires
        dispatcher.on_prompts(prompts).1 is Ok,
    ensures
        dispatcher.on_prompts(prompts).0.on_answers(
            Ok(RequestModel::PamAuthenticateResponse { responses }),
        ).1 == if responses.len() == prompts.len() {
            Ok::<Seq<Option<Seq<u8>>>, ConvError>(responses)
        } else {
            Err::<Seq<Option<Seq<u8>>>, ConvError>(ConvError::WrongCount)
        },
{
}

/// The end of a session is final. Once it was called, whatever status the
/// native library returned, the session is over: a second `PamEnd`, and
/// every other request but `PamStart`, is rejected without a native call.
pub proof fn lemma_end_is_final(
    dispatcher: DispatcherModel,
    pam_status: i32,
    returned: i32,
    later: RequestModel,
)
    requires
        dispatcher.state == SessionState::InSession,
        dispatcher.pending is Request,
        !(later is PamStart),
    ensures
        ({
            let end = RequestModel::PamEnd { handle: dispatcher.token, pam_status };
            let (calling, action) = dispatcher.on_request(end);
            let (ended, response) = calling.on_return(returned);
            &&& action == ActionModel::Invoke(
                NativeCallModel::Session { operation: Operation::End, argument: pam_status },
            )
            &&& response == (ResponseModel::Result { pam_status: returned })
            &&& ended.state == SessionState::Ended
            &&& ended.on_request(later) == (ended, ActionModel::Reply(rejection()))
        }),
{
}

/// The token of a session that is over is never served again: the session
/// that follows on the same channel has another token.
pub proof fn lemma_token_not_reused(
    dispatcher: DispatcherModel,
    start: RequestModel,
    stale: RequestModel,
)
    requires
        dispatcher.state == SessionState::Ended,
        dispatcher.pending is Request,
        start is PamStart,
        stale.session_call() matches Some(call) && call.handle == dispatcher.token,
    ensures
        ({
            let (starting, action) = dispatcher.on_request(start);
            let (open, response) = starting.on_return(PAM_SUCCESS);
            &&& action is Invoke
            &&& open.state == SessionState::InSession
            &&& open.token != dispatcher.token
            &&& response == (ResponseModel::Handle { handle: open.token, pam_status: PAM_SUCCESS })
            &&& open.on_request(stale) == (open, ActionModel::Reply(rejection()))
        }),
{
}

} // verus!
