//! The decisions of the facade: what each reply of the helper process means
//! to the application that called.
//!
//! The facade sends one request per call and reads replies until one ends
//! the call. Every failure of the channel, and every reply that does not
//! fit the call, becomes the reserved failure status; a status that the
//! native library returned is passed on as it is.

use vstd::prelude::*;
use crate::messages::{
    answers_model, prompts_model, PamMessage, PromptModel, Request, RequestModel, Response,
    ResponseModel, TransportError, PAM_SUCCESS, PAM_SYSTEM_ERR,
};

verus! {

/// Model of what a read gave: a response or a failure of the channel.
pub open spec fn reply_model(reply: Result<Response, TransportError>) -> Result<
    ResponseModel,
    TransportError,
> {
    match reply {
        Ok(response) => Ok(response@),
        Err(error) => Err(error),
    }
}

/// How the beginning of a session ended: the status for the application
/// and, where the session is open, its handle.
#[derive(Clone, Copy, Debug, PartialEq, Eq, Structural)]
pub struct StartOutcome {
    pub status: i32,
    pub handle: Option<usize>,
}

/// What the reply to `PamStart` means. Only `Handle` answers it: its status
/// is the call's status, and its handle is kept where the status is success.
pub open spec fn start_outcome_of(reply: Result<ResponseModel, TransportError>) -> StartOutcome {
    match reply {
        Ok(ResponseModel::Handle { handle, pam_status }) => StartOutcome {
            status: pam_status,
            handle: if pam_status == PAM_SUCCESS {
                Some(handle)
            } else {
                None
            },
        },
        _ => StartOutcome { status: PAM_SYSTEM_ERR, handle: None },
    }
}

/// What the reply to a session call other than an authentication means.
/// Only `Result` answers it, and its status is the call's status.
pub open spec fn call_status_of(reply: Result<ResponseModel, TransportError>) -> i32 {
    match reply {
        Ok(ResponseModel::Result { pam_status }) => pam_status,
        _ => PAM_SYSTEM_ERR,
    }
}

/// What the facade does after a reply to `PamAuthenticate`.
#[derive(Clone, Debug, PartialEq, Eq)]
pub enum AuthStep {
    /// Return this status to the application.
    Done(i32),
    /// Call the application's conversation function with these prompts,
    /// then go on with [`conversation_step`].
    Converse(Vec<PamMessage>),
}

/// Model of an [`AuthStep`].
pub enum AuthStepModel {
    Done(i32),
    Converse(Seq<PromptModel>),
}

impl View for AuthStep {
    type V = AuthStepModel;

    open spec fn view(&self) -> AuthStepModel {
        match *self {
            AuthStep::Done(status) => AuthStepModel::Done(status),
            AuthStep::Converse(prompts) => AuthStepModel::Converse(prompts_model(prompts)),
        }
    }
}

/// What a reply to `PamAuthenticate` means. `Result` ends the call with its
/// status. `Conversation` asks for a round with its prompts, as many as the
/// application's conversation function can be told of: their number must
/// fit a 32-bit signed count.
pub open spec fn authenticate_step_of(reply: Result<ResponseModel, TransportError>) -> AuthStepModel {
    match reply {
        Ok(ResponseModel::Result { pam_status }) => AuthStepModel::Done(pam_status),
        Ok(ResponseModel::Conversation { messages }) => if messages.len() <= i32::MAX {
            AuthStepModel::Converse(messages)
        } else {
            AuthStepModel::Done(PAM_SYSTEM_ERR)
        },
        _ => AuthStepModel::Done(PAM_SYSTEM_ERR),
    }
}

/// What the facade does after the application's conversation function
/// returned.
#[derive(Clone, Debug, PartialEq, Eq)]
pub enum ConvStep {
    /// Return this status to the application; nothing is sent.
    Abort(i32),
    /// Send this request and read the next reply to `PamAuthenticate`.
    Answer(Request),
}

/// Model of a [`ConvStep`].
pub enum ConvStepModel {
    Abort(i32),
    Answer(RequestModel),
}

impl View for ConvStep {
    type V = ConvStepModel;

    open spec fn view(&self) -> ConvStepModel {
        match *self {
            ConvStep::Abort(status) => ConvStepModel::Abort(status),
            ConvStep::Answer(request) => ConvStepModel::Answer(request@),
        }
    }
}

/// What the return of the application's conversation function means. A
/// status other than success ends the call with that status. On success the
/// answers are sent on as they are, absent ones included.
pub open spec fn conversation_step_of(status: i32, answers: Seq<Option<Seq<u8>>>) -> ConvStepModel {
    if status == PAM_SUCCESS {
        ConvStepModel::Answer(RequestModel::PamAuthenticateResponse { responses: answers })
    } else {
        ConvStepModel::Abort(status)
    }
}

/// Reads the reply to `PamStart`.
pub fn start_outcome(reply: Result<Response, TransportError>) -> (outcome: StartOutcome)
    ensures
        outcome == start_outcome_of(reply_model(reply)),
{
    match reply {
        Ok(Response::Handle { handle, pam_status }) => {
            if pam_status == PAM_SUCCESS {
                StartOutcome { status: pam_status, handle: Some(handle) }
            } else {
                StartOutcome { status: pam_status, handle: None }
            }
        },
        _ => StartOutcome { status: PAM_SYSTEM_ERR, handle: None },
    }
}

/// Reads the reply to a session call other than an authentication.
pub fn call_status(reply: Result<Response, TransportError>) -> (status: i32)
    ensures
        status == call_status_of(reply_model(reply)),
{
    match reply {
        Ok(Response::Result { pam_status }) => pam_status,
        _ => PAM_SYSTEM_ERR,
    }
}

/// Reads a reply to `PamAuthenticate`.
pub fn authenticate_step(reply: Result<Response, TransportError>) -> (step: AuthStep)
    ensures
        step@ == authenticate_step_of(reply_model(reply)),
{
    match reply {
        Ok(Response::Result { pam_status }) => AuthStep::Done(pam_status),
        Ok(Response::Conversation { messages }) => {
            if messages.len() <= i32::MAX as usize {
                AuthStep::Converse(messages)
            } else {
                AuthStep::Done(PAM_SYSTEM_ERR)
            }
        },
        _ => AuthStep::Done(PAM_SYSTEM_ERR),
    }
}

/// Takes the status and the answers that the application's conversation
/// function returned for a round.
pub fn conversation_step(status: i32, answers: Vec<Option<Vec<u8>>>) -> (step: ConvStep)
    ensures
        step@ == conversation_step_of(status, answers_model(answers)),
{
    if status == PAM_SUCCESS {
        ConvStep::Answer(Request::PamAuthenticateResponse { responses: answers })
    } else {
        ConvStep::Abort(status)
    }
}

} // verus!
