//! The messages exchanged between the facade and the helper process.
//!
//! Every executable type has a mathematical model, reached with `@`, in which
//! byte strings are sequences of bytes. The contracts of the other modules
//! are stated over these models.

use vstd::prelude::*;

verus! {

/// Status code of a call that succeeded.
pub const PAM_SUCCESS: i32 = 0;

/// Status code reserved for failures of the forwarding machinery itself: a
/// closed channel, a malformed message, a request out of sequence.
pub const PAM_SYSTEM_ERR: i32 = 4;

/// Prompt style: ask for a secret without echoing it.
pub const PAM_PROMPT_ECHO_OFF: i32 = 1;

/// Prompt style: ask for an answer and echo it.
pub const PAM_PROMPT_ECHO_ON: i32 = 2;

/// Prompt style: show an error text.
pub const PAM_ERROR_MSG: i32 = 3;

/// Prompt style: show an informational text.
pub const PAM_TEXT_INFO: i32 = 4;

/// Model of an optional byte string.
pub open spec fn bytes_model(text: Option<Vec<u8>>) -> Option<Seq<u8>> {
    match text {
        Some(bytes) => Some(bytes@),
        None => None,
    }
}

/// Model of the answers to one conversation round, in prompt order.
pub open spec fn answers_model(answers: Vec<Option<Vec<u8>>>) -> Seq<Option<Seq<u8>>> {
    answers@.map_values(|answer: Option<Vec<u8>>| bytes_model(answer))
}

/// Model of the prompts of one conversation round, in order.
pub open spec fn prompts_model(prompts: Vec<PamMessage>) -> Seq<PromptModel> {
    prompts@.map_values(|prompt: PamMessage| prompt@)
}

/// The calls that are made on an open session. Beginning a session is not
/// among them: it carries names instead of a handle.
#[derive(Clone, Copy, Debug, PartialEq, Eq, Structural)]
pub enum Operation {
    End,
    Authenticate,
    Setcred,
    AcctMgmt,
    OpenSession,
    CloseSession,
    Chauthtok,
}

/// One prompt of a conversation round: a style tag and a text.
#[derive(Clone, Debug, PartialEq, Eq)]
pub struct PamMessage {
    pub msg_style: i32,
    pub msg: Vec<u8>,
}

/// Model of a [`PamMessage`].
pub struct PromptModel {
    pub msg_style: i32,
    pub msg: Seq<u8>,
}

impl View for PamMessage {
    type V = PromptModel;

    open spec fn view(&self) -> PromptModel {
        PromptModel { msg_style: self.msg_style, msg: self.msg@ }
    }
}

/// What the facade sends to the helper process.
#[derive(Clone, Debug, PartialEq, Eq)]
pub enum Request {
    PamStart { service_name: Vec<u8>, user: Vec<u8>, confdir: Option<Vec<u8>> },
    PamEnd { handle: usize, pam_status: i32 },
    PamAuthenticate { handle: usize, flags: i32 },
    PamAuthenticateResponse { responses: Vec<Option<Vec<u8>>> },
    PamSetcred { handle: usize, flags: i32 },
    PamAcctMgmt { handle: usize, flags: i32 },
    PamOpenSession { handle: usize, flags: i32 },
    PamCloseSession { handle: usize, flags: i32 },
    PamChauthtok { handle: usize, flags: i32 },
}

/// Model of a [`Request`].
pub enum RequestModel {
    PamStart { service_name: Seq<u8>, user: Seq<u8>, confdir: Option<Seq<u8>> },
    PamEnd { handle: usize, pam_status: i32 },
    PamAuthenticate { handle: usize, flags: i32 },
    PamAuthenticateResponse { responses: Seq<Option<Seq<u8>>> },
    PamSetcred { handle: usize, flags: i32 },
    PamAcctMgmt { handle: usize, flags: i32 },
    PamOpenSession { handle: usize, flags: i32 },
    PamCloseSession { handle: usize, flags: i32 },
    PamChauthtok { handle: usize, flags: i32 },
}

impl View for Request {
    type V = RequestModel;

    open spec fn view(&self) -> RequestModel {
        match *self {
            Request::PamStart { service_name, user, confdir } => RequestModel::PamStart {
                service_name: service_name@,
                user: user@,
                confdir: bytes_model(confdir),
            },
            Request::PamEnd { handle, pam_status } => RequestModel::PamEnd { handle, pam_status },
            Request::PamAuthenticate { handle, flags } => RequestModel::PamAuthenticate {
                handle,
                flags,
            },
            Request::PamAuthenticateResponse { responses } => {
                RequestModel::PamAuthenticateResponse { responses: answers_model(responses) }
            },
            Request::PamSetcred { handle, flags } => RequestModel::PamSetcred { handle, flags },
            Request::PamAcctMgmt { handle, flags } => RequestModel::PamAcctMgmt { handle, flags },
            Request::PamOpenSession { handle, flags } => RequestModel::PamOpenSession {
                handle,
                flags,
            },
            Request::PamCloseSession { handle, flags } => RequestModel::PamCloseSession {
                handle,
                flags,
            },
            Request::PamChauthtok { handle, flags } => RequestModel::PamChauthtok { handle, flags },
        }
    }
}

/// A call on an open session: the handle it names, the operation, and the
/// operation's integer argument (the status for `End`, the flags otherwise).
#[derive(Clone, Copy, Debug, PartialEq, Eq, Structural)]
pub struct SessionCall {
    pub handle: usize,
    pub operation: Operation,
    pub argument: i32,
}

impl RequestModel {
    /// The session call that this request asks for, if it asks for one.
    /// `PamStart` and `PamAuthenticateResponse` ask for none.
    pub open spec fn session_call(self) -> Option<SessionCall> {
        match self {
            RequestModel::PamStart { .. } => None,
            RequestModel::PamAuthenticateResponse { .. } => None,
            RequestModel::PamEnd { handle, pam_status } => Some(
                SessionCall { handle, operation: Operation::End, argument: pam_status },
            ),
            RequestModel::PamAuthenticate { handle, flags } => Some(
                SessionCall { handle, operation: Operation::Authenticate, argument: flags },
            ),
            RequestModel::PamSetcred { handle, flags } => Some(
                SessionCall { handle, operation: Operation::Setcred, argument: flags },
            ),
            RequestModel::PamAcctMgmt { handle, flags } => Some(
                SessionCall { handle, operation: Operation::AcctMgmt, argument: flags },
            ),
            RequestModel::PamOpenSession { handle, flags } => Some(
                SessionCall { handle, operation: Operation::OpenSession, argument: flags },
            ),
            RequestModel::PamCloseSession { handle, flags } => Some(
                SessionCall { handle, operation: Operation::CloseSession, argument: flags },
            ),
            RequestModel::PamChauthtok { handle, flags } => Some(
                SessionCall { handle, operation: Operation::Chauthtok, argument: flags },
            ),
        }
    }

    /// The request that carries the given session call.
    pub open spec fn of_session_call(call: SessionCall) -> RequestModel {
        let SessionCall { handle, operation, argument } = call;
        match operation {
            Operation::End => RequestModel::PamEnd { handle, pam_status: argument },
            Operation::Authenticate => RequestModel::PamAuthenticate { handle, flags: argument },
            Operation::Setcred => RequestModel::PamSetcred { handle, flags: argument },
            Operation::AcctMgmt => RequestModel::PamAcctMgmt { handle, flags: argument },
            Operation::OpenSession => RequestModel::PamOpenSession { handle, flags: argument },
            Operation::CloseSession => RequestModel::PamCloseSession { handle, flags: argument },
            Operation::Chauthtok => RequestModel::PamChauthtok { handle, flags: argument },
        }
    }
}

impl Request {
    /// The session call that this request asks for, if it asks for one.
    pub fn session_call(&self) -> (call: Option<SessionCall>)
        ensures
            call == self@.session_call(),
    {
        match self {
            Request::PamStart { .. } => None,
            Request::PamAuthenticateResponse { .. } => None,
            Request::PamEnd { handle, pam_status } => Some(
                SessionCall { handle: *handle, operation: Operation::End, argument: *pam_status },
            ),
            Request::PamAuthenticate { handle, flags } => Some(
                SessionCall { handle: *handle, operation: Operation::Authenticate, argument: *flags },
            ),
            Request::PamSetcred { handle, flags } => Some(
                SessionCall { handle: *handle, operation: Operation::Setcred, argument: *flags },
            ),
            Request::PamAcctMgmt { handle, flags } => Some(
                SessionCall { handle: *handle, operation: Operation::AcctMgmt, argument: *flags },
            ),
            Request::PamOpenSession { handle, flags } => Some(
                SessionCall { handle: *handle, operation: Operation::OpenSession, argument: *flags },
            ),
            Request::PamCloseSession { handle, flags } => Some(
                SessionCall { handle: *handle, operation: Operation::CloseSession, argument: *flags },
            ),
            Request::PamChauthtok { handle, flags } => Some(
                SessionCall { handle: *handle, operation: Operation::Chauthtok, argument: *flags },
            ),
        }
    }

    /// The request that carries the given session call.
    pub fn of_session_call(call: SessionCall) -> (request: Request)
        ensures
            request@ == RequestModel::of_session_call(call),
    {
        let SessionCall { handle, operation, argument } = call;
        match operation {
            Operation::End => Request::PamEnd { handle, pam_status: argument },
            Operation::Authenticate => Request::PamAuthenticate { handle, flags: argument },
            Operation::Setcred => Request::PamSetcred { handle, flags: argument },
            Operation::AcctMgmt => Request::PamAcctMgmt { handle, flags: argument },
            Operation::OpenSession => Request::PamOpenSession { handle, flags: argument },
            Operation::CloseSession => Request::PamCloseSession { handle, flags: argument },
            Operation::Chauthtok => Request::PamChauthtok { handle, flags: argument },
        }
    }
}

/// What the helper process sends to the facade.
#[derive(Clone, Debug, PartialEq, Eq)]
pub enum Response {
    Handle { handle: usize, pam_status: i32 },
    Result { pam_status: i32 },
    Conversation { messages: Vec<PamMessage> },
}

/// Model of a [`Response`].
pub enum ResponseModel {
    Handle { handle: usize, pam_status: i32 },
    Result { pam_status: i32 },
    Conversation { messages: Seq<PromptModel> },
}

impl View for Response {
    type V = ResponseModel;

    open spec fn view(&self) -> ResponseModel {
        match *self {
            Response::Handle { handle, pam_status } => ResponseModel::Handle { handle, pam_status },
            Response::Result { pam_status } => ResponseModel::Result { pam_status },
            Response::Conversation { messages } => ResponseModel::Conversation {
                messages: prompts_model(messages),
            },
        }
    }
}

/// Why a message could not be sent or received.
#[derive(Clone, Copy, Debug, PartialEq, Eq, Structural)]
pub enum TransportError {
    /// The channel was closed before a single byte of a frame arrived.
    Closed,
    /// The channel delivered part of a frame and no more.
    Truncated,
    /// A whole frame arrived and its payload is no well-formed message.
    Malformed,
}

} // verus!
