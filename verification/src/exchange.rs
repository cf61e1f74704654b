//! What holds of a facade and a dispatcher that talk to each other.
//!
//! The facade is meant to behave as the native library itself would. The
//! statements below say in which sense it does: calls reach the native
//! library as they were made, statuses reach the application as they were
//! returned, prompts and answers cross the channel unchanged, and whatever
//! goes wrong on the way becomes the reserved failure status.

use vstd::prelude::*;
use crate::dispatcher::{
    ActionModel, ConvError, DispatcherModel, NativeCallModel, Pending, SessionState,
};
use crate::facade::{
    authenticate_step_of, call_status_of, conversation_step_of, start_outcome_of, AuthStepModel,
    ConvStepModel, StartOutcome,
};
use crate::messages::{
    Operation, PromptModel, RequestModel, ResponseModel, SessionCall, TransportError, PAM_SUCCESS,
    PAM_SYSTEM_ERR,
};

verus! {

/// A call that the facade makes on the open session under its token reaches
/// the native library with the same operation and the same argument.
pub proof fn lemma_call_is_forwarded(
    dispatcher: DispatcherModel,
    operation: Operation,
    argument: i32,
)
    requires
        dispatcher.state == SessionState::InSession,
        dispatcher.pending is Request,
    ensures
        dispatcher.on_request(
            RequestModel::of_session_call(
                SessionCall { handle: dispatcher.token, operation, argument },
            ),
        ) == (
            DispatcherModel { pending: Pending::Call(operation), ..dispatcher },
            ActionModel::Invoke(NativeCallModel::Session { operation, argument }),
        ),
{
}

/// The status with which the native library returns from a session call is
/// the status that the facade returns to the application.
pub proof fn lemma_status_is_passed_on(
    dispatcher: DispatcherModel,
    operation: Operation,
    status: i32,
)
    requires
        dispatcher.pending == Pending::Call(operation),
    ensures
        call_status_of(Ok(dispatcher.on_return(status).1)) == status,
        authenticate_step_of(Ok(dispatcher.on_return(status).1)) == AuthStepModel::Done(status),
{
}

/// The status with which the native library returns from beginning a
/// session is the status that the facade returns, and the facade keeps a
/// handle exactly when a session is open: the session's token.
pub proof fn lemma_start_is_passed_on(dispatcher: DispatcherModel, status: i32)
    requires
        dispatcher.inv(),
        dispatcher.pending is Start,
    ensures
        ({
            let (next, response) = dispatcher.on_return(status);
            let outcome = start_outcome_of(Ok(response));
            &&& outcome.status == status
            &&& outcome.handle is Some <==> status == PAM_SUCCESS
            &&& outcome.handle is Some <==> next.state == SessionState::InSession
            &&& outcome.handle matches Some(handle) ==> handle == next.token
        }),
{
}

/// A conversation round crosses the channel unchanged in both directions:
/// the application is asked the prompts that the native library gave, and
/// the native library gets the answers that the application gave, one for
/// each prompt.
pub proof fn lemma_round_is_carried(
    dispatcher: DispatcherModel,
    prompts: Seq<PromptModel>,
    answers: Seq<Option<Seq<u8>>>,
)
    requires
        dispatcher.pending == Pending::Call(Operation::Authenticate),
        prompts.len() <= i32::MAX,
        answers.len() == prompts.len(),
    ensures
        ({
            let (conversing, opened) = dispatcher.on_prompts(prompts);
            &&& opened matches Ok(response)
            &&& authenticate_step_of(Ok(response)) == AuthStepModel::Converse(prompts)
            &&& conversation_step_of(PAM_SUCCESS, answers) matches ConvStepModel::Answer(request)
            &&& conversing.on_answers(Ok(request)) == (
                dispatcher,
                Ok::<Seq<Option<Seq<u8>>>, ConvError>(answers),
            )
        }),
{
}

/// Whatever fails on the channel, the application gets the reserved failure
/// status and no handle.
pub proof fn lemma_channel_failure_is_reported(error: TransportError)
    ensures
        start_outcome_of(Err(error)) == (StartOutcome { status: PAM_SYSTEM_ERR, handle: None }),
        call_status_of(Err(error)) == PAM_SYSTEM_ERR,
        authenticate_step_of(Err(error)) == AuthStepModel::Done(PAM_SYSTEM_ERR),
{
}

/// A reply of a kind that does not answer the call gives the reserved
/// failure status too.
pub proof fn lemma_misplaced_reply_is_reported(response: ResponseModel)
    ensures
        !(response is Handle) ==> start_outcome_of(Ok(response)) == (StartOutcome {
            status: PAM_SYSTEM_ERR,
            handle: None,
        }),
        !(response is Result) ==> call_status_of(Ok(response)) == PAM_SYSTEM_ERR,
        response is Handle ==> authenticate_step_of(Ok(response)) == AuthStepModel::Done(
            PAM_SYSTEM_ERR,
        ),
{
}

} // verus!
