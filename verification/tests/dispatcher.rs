use pam_shim::dispatcher::{
    conv_status, Action, ConvError, Dispatcher, NativeCall, Pending, SessionState,
};
use pam_shim::messages::{
    Operation, PamMessage, Request, Response, SessionCall, TransportError, PAM_PROMPT_ECHO_OFF,
    PAM_PROMPT_ECHO_ON, PAM_SUCCESS, PAM_SYSTEM_ERR,
};

fn rejected() -> Action {
    Action::Reply(Response::Result { pam_status: PAM_SYSTEM_ERR })
}

fn start() -> Request {
    Request::PamStart {
        service_name: b"login".to_vec(),
        user: b"alice".to_vec(),
        confdir: None,
    }
}

fn call(handle: usize, operation: Operation, argument: i32) -> Request {
    Request::of_session_call(SessionCall { handle, operation, argument })
}

/// A dispatcher with a session open, and the session's token.
fn in_session() -> (Dispatcher, usize) {
    let mut dispatcher = Dispatcher::new();
    dispatcher.handle_request(start());
    match dispatcher.native_returned(PAM_SUCCESS) {
        Response::Handle { handle, pam_status: 0 } => (dispatcher, handle),
        other => panic!("no session: {:?}", other),
    }
}

fn every_session_request(handle: usize) -> Vec<Request> {
    vec![
        Request::PamEnd { handle, pam_status: 0 },
        Request::PamAuthenticate { handle, flags: 0 },
        Request::PamSetcred { handle, flags: 2 },
        Request::PamAcctMgmt { handle, flags: 0 },
        Request::PamOpenSession { handle, flags: 0 },
        Request::PamCloseSession { handle, flags: 0 },
        Request::PamChauthtok { handle, flags: 0 },
    ]
}

#[test]
fn fresh_dispatcher_awaits_start() {
    let dispatcher = Dispatcher::new();
    assert_eq!(dispatcher.state(), SessionState::AwaitingStart);
    assert_eq!(dispatcher.pending(), Pending::Request);
    assert_eq!(dispatcher.token(), 0);
}

#[test]
fn requests_name_their_session_call() {
    assert_eq!(start().session_call(), None);
    assert_eq!(
        Request::PamAuthenticateResponse { responses: vec![None] }.session_call(),
        None
    );
    assert_eq!(
        Request::PamEnd { handle: 7, pam_status: 3 }.session_call(),
        Some(SessionCall { handle: 7, operation: Operation::End, argument: 3 })
    );
    assert_eq!(
        Request::PamSetcred { handle: 9, flags: -2 }.session_call(),
        Some(SessionCall { handle: 9, operation: Operation::Setcred, argument: -2 })
    );
    for request in every_session_request(11) {
        let named = request.session_call().expect("a session call");
        assert_eq!(named.handle, 11);
        assert_eq!(Request::of_session_call(named), request);
    }
}

#[test]
fn before_a_session_only_start_is_served() {
    let mut dispatcher = Dispatcher::new();
    let mut others = every_session_request(0);
    others.extend(every_session_request(1));
    others.push(Request::PamAuthenticateResponse { responses: vec![] });
    for request in others {
        assert_eq!(dispatcher.handle_request(request), rejected());
        assert_eq!(dispatcher.state(), SessionState::AwaitingStart);
        assert_eq!(dispatcher.pending(), Pending::Request);
        assert_eq!(dispatcher.token(), 0);
    }
}

#[test]
fn start_is_handed_to_the_native_library_as_it_came() {
    let mut dispatcher = Dispatcher::new();
    let request = Request::PamStart {
        service_name: b"sshd".to_vec(),
        user: vec![0xff, 0xfe, b'x'],
        confdir: Some(b"/etc/pam.d".to_vec()),
    };
    assert_eq!(
        dispatcher.handle_request(request),
        Action::Invoke(NativeCall::Start {
            service_name: b"sshd".to_vec(),
            user: vec![0xff, 0xfe, b'x'],
            confdir: Some(b"/etc/pam.d".to_vec()),
        })
    );
    assert_eq!(dispatcher.pending(), Pending::Start);
    assert_eq!(dispatcher.state(), SessionState::AwaitingStart);
}

#[test]
fn successful_start_opens_a_session_with_token_one() {
    let mut dispatcher = Dispatcher::new();
    dispatcher.handle_request(start());
    assert_eq!(
        dispatcher.native_returned(PAM_SUCCESS),
        Response::Handle { handle: 1, pam_status: 0 }
    );
    assert_eq!(dispatcher.state(), SessionState::InSession);
    assert_eq!(dispatcher.token(), 1);
    assert_eq!(dispatcher.pending(), Pending::Request);
}

#[test]
fn failed_start_keeps_waiting_and_passes_the_status_on() {
    let mut dispatcher = Dispatcher::new();
    dispatcher.handle_request(start());
    assert_eq!(
        dispatcher.native_returned(28),
        Response::Handle { handle: 0, pam_status: 28 }
    );
    assert_eq!(dispatcher.state(), SessionState::AwaitingStart);
    assert_eq!(dispatcher.pending(), Pending::Request);
    dispatcher.handle_request(start());
    assert_eq!(
        dispatcher.native_returned(PAM_SUCCESS),
        Response::Handle { handle: 1, pam_status: 0 }
    );
}

#[test]
fn second_start_is_rejected_and_the_session_lives_on() {
    let (mut dispatcher, token) = in_session();
    assert_eq!(dispatcher.handle_request(start()), rejected());
    assert_eq!(dispatcher.state(), SessionState::InSession);
    assert_eq!(dispatcher.token(), token);
    assert_eq!(dispatcher.pending(), Pending::Request);
    assert_eq!(
        dispatcher.handle_request(call(token, Operation::AcctMgmt, 0)),
        Action::Invoke(NativeCall::Session { operation: Operation::AcctMgmt, argument: 0 })
    );
}

#[test]
fn session_calls_pass_through_with_their_argument_and_status() {
    let operations = [
        (Operation::Setcred, 2, 17),
        (Operation::AcctMgmt, 0, 13),
        (Operation::OpenSession, 0x8000, 14),
        (Operation::CloseSession, -1, 0),
        (Operation::Chauthtok, 0x2000, 20),
        (Operation::Authenticate, 1, 7),
    ];
    let (mut dispatcher, token) = in_session();
    for (operation, argument, status) in operations {
        assert_eq!(
            dispatcher.handle_request(call(token, operation, argument)),
            Action::Invoke(NativeCall::Session { operation, argument })
        );
        assert_eq!(dispatcher.pending(), Pending::Call(operation));
        assert_eq!(
            dispatcher.native_returned(status),
            Response::Result { pam_status: status }
        );
        assert_eq!(dispatcher.pending(), Pending::Request);
        assert_eq!(dispatcher.state(), SessionState::InSession);
    }
}

#[test]
fn foreign_handle_is_rejected_without_a_native_call() {
    let (mut dispatcher, token) = in_session();
    for handle in [0, token + 1, usize::MAX] {
        for request in every_session_request(handle) {
            assert_eq!(dispatcher.handle_request(request), rejected());
            assert_eq!(dispatcher.pending(), Pending::Request);
            assert_eq!(dispatcher.state(), SessionState::InSession);
        }
    }
}

#[test]
fn unsolicited_answers_are_rejected() {
    let (mut dispatcher, _) = in_session();
    let answers = Request::PamAuthenticateResponse { responses: vec![Some(b"x".to_vec())] };
    assert_eq!(dispatcher.handle_request(answers), rejected());
    assert_eq!(dispatcher.state(), SessionState::InSession);
    assert_eq!(dispatcher.pending(), Pending::Request);
}

#[test]
fn end_closes_the_session_whatever_the_status() {
    for status in [0, 4, 7] {
        let (mut dispatcher, token) = in_session();
        assert_eq!(
            dispatcher.handle_request(Request::PamEnd { handle: token, pam_status: 9 }),
            Action::Invoke(NativeCall::Session { operation: Operation::End, argument: 9 })
        );
        assert_eq!(dispatcher.state(), SessionState::InSession);
        assert_eq!(
            dispatcher.native_returned(status),
            Response::Result { pam_status: status }
        );
        assert_eq!(dispatcher.state(), SessionState::Ended);
        assert_eq!(dispatcher.pending(), Pending::Request);
    }
}

#[test]
fn second_end_is_rejected_and_not_run() {
    let (mut dispatcher, token) = in_session();
    dispatcher.handle_request(Request::PamEnd { handle: token, pam_status: 0 });
    dispatcher.native_returned(PAM_SUCCESS);
    assert_eq!(
        dispatcher.handle_request(Request::PamEnd { handle: token, pam_status: 0 }),
        rejected()
    );
    assert_eq!(dispatcher.state(), SessionState::Ended);
    assert_eq!(dispatcher.pending(), Pending::Request);
}

#[test]
fn end_on_a_fresh_channel_is_rejected() {
    let (_, token) = in_session();
    let mut fresh = Dispatcher::new();
    assert_eq!(
        fresh.handle_request(Request::PamEnd { handle: token, pam_status: 0 }),
        rejected()
    );
    assert_eq!(fresh.state(), SessionState::AwaitingStart);
}

#[test]
fn next_session_on_the_channel_gets_another_token() {
    let (mut dispatcher, first) = in_session();
    dispatcher.handle_request(Request::PamEnd { handle: first, pam_status: 0 });
    dispatcher.native_returned(PAM_SUCCESS);
    assert!(matches!(dispatcher.handle_request(start()), Action::Invoke(NativeCall::Start { .. })));
    assert_eq!(
        dispatcher.native_returned(PAM_SUCCESS),
        Response::Handle { handle: 2, pam_status: 0 }
    );
    assert_eq!(dispatcher.state(), SessionState::InSession);
    assert_eq!(
        dispatcher.handle_request(Request::PamEnd { handle: first, pam_status: 0 }),
        rejected()
    );
    assert_eq!(dispatcher.state(), SessionState::InSession);
    assert_eq!(
        dispatcher.handle_request(Request::PamEnd { handle: 2, pam_status: 0 }),
        Action::Invoke(NativeCall::Session { operation: Operation::End, argument: 0 })
    );
}

#[test]
fn requests_while_the_native_library_runs_are_rejected() {
    let (mut dispatcher, token) = in_session();
    dispatcher.handle_request(call(token, Operation::Authenticate, 0));
    assert_eq!(dispatcher.handle_request(call(token, Operation::Setcred, 0)), rejected());
    assert_eq!(dispatcher.handle_request(start()), rejected());
    assert_eq!(dispatcher.pending(), Pending::Call(Operation::Authenticate));
}

#[test]
fn return_without_a_call_is_a_rejection() {
    let mut dispatcher = Dispatcher::new();
    assert_eq!(
        dispatcher.native_returned(0),
        Response::Result { pam_status: PAM_SYSTEM_ERR }
    );
    assert_eq!(dispatcher.state(), SessionState::AwaitingStart);
    assert_eq!(dispatcher.pending(), Pending::Request);
}

fn prompts() -> Vec<PamMessage> {
    vec![
        PamMessage { msg_style: PAM_PROMPT_ECHO_ON, msg: b"login: ".to_vec() },
        PamMessage { msg_style: PAM_PROMPT_ECHO_OFF, msg: b"Password: ".to_vec() },
    ]
}

/// A dispatcher whose native library authenticates and has just asked for a
/// conversation with `prompts()`.
fn conversing() -> Dispatcher {
    let (mut dispatcher, token) = in_session();
    dispatcher.handle_request(call(token, Operation::Authenticate, 0));
    dispatcher.begin_conversation(prompts()).expect("a round");
    dispatcher
}

#[test]
fn conversation_carries_the_prompts_and_remembers_their_number() {
    let (mut dispatcher, token) = in_session();
    dispatcher.handle_request(call(token, Operation::Authenticate, 0));
    assert_eq!(
        dispatcher.begin_conversation(prompts()),
        Ok(Response::Conversation { messages: prompts() })
    );
    assert_eq!(dispatcher.pending(), Pending::Answers { prompts: 2 });
}

#[test]
fn conversation_outside_an_authentication_fails() {
    let mut fresh = Dispatcher::new();
    assert_eq!(fresh.begin_conversation(prompts()), Err(ConvError::NotAuthenticating));
    assert_eq!(fresh.pending(), Pending::Request);

    let (mut dispatcher, token) = in_session();
    assert_eq!(dispatcher.begin_conversation(prompts()), Err(ConvError::NotAuthenticating));
    dispatcher.handle_request(call(token, Operation::Chauthtok, 0));
    assert_eq!(dispatcher.begin_conversation(prompts()), Err(ConvError::NotAuthenticating));
    assert_eq!(dispatcher.pending(), Pending::Call(Operation::Chauthtok));
}

#[test]
fn answers_of_the_right_number_reach_the_native_library() {
    let mut dispatcher = conversing();
    let responses = vec![Some(vec![0xc3, 0x28, 0x00, 0xff]), None];
    let round = dispatcher.accept_answers(Ok(Request::PamAuthenticateResponse {
        responses: responses.clone(),
    }));
    assert_eq!(round, Ok(responses));
    assert_eq!(conv_status(&round), PAM_SUCCESS);
    assert_eq!(dispatcher.pending(), Pending::Call(Operation::Authenticate));
}

#[test]
fn answers_of_another_number_are_refused() {
    for responses in [vec![], vec![None], vec![None, None, None]] {
        let mut dispatcher = conversing();
        let round =
            dispatcher.accept_answers(Ok(Request::PamAuthenticateResponse { responses }));
        assert_eq!(round, Err(ConvError::WrongCount));
        assert_eq!(conv_status(&round), PAM_SYSTEM_ERR);
        assert_eq!(dispatcher.pending(), Pending::Call(Operation::Authenticate));
    }
}

#[test]
fn empty_round_takes_empty_answers() {
    let (mut dispatcher, token) = in_session();
    dispatcher.handle_request(call(token, Operation::Authenticate, 0));
    assert_eq!(
        dispatcher.begin_conversation(vec![]),
        Ok(Response::Conversation { messages: vec![] })
    );
    assert_eq!(
        dispatcher.accept_answers(Ok(Request::PamAuthenticateResponse { responses: vec![] })),
        Ok(vec![])
    );
}

#[test]
fn any_other_request_fails_the_round() {
    let token = in_session().1;
    let mut others = every_session_request(token);
    others.push(start());
    for request in others {
        let mut dispatcher = conversing();
        let round = dispatcher.accept_answers(Ok(request));
        assert_eq!(round, Err(ConvError::UnexpectedRequest));
        assert_eq!(conv_status(&round), PAM_SYSTEM_ERR);
        assert_eq!(dispatcher.pending(), Pending::Call(Operation::Authenticate));
        assert_eq!(dispatcher.state(), SessionState::InSession);
    }
}

#[test]
fn channel_failure_fails_the_round() {
    for error in [TransportError::Closed, TransportError::Truncated, TransportError::Malformed] {
        let mut dispatcher = conversing();
        let round = dispatcher.accept_answers(Err(error));
        assert_eq!(round, Err(ConvError::Transport(error)));
        assert_eq!(conv_status(&round), PAM_SYSTEM_ERR);
        assert_eq!(dispatcher.pending(), Pending::Call(Operation::Authenticate));
    }
}

#[test]
fn answers_without_a_round_are_refused() {
    let (mut dispatcher, token) = in_session();
    let answers = Request::PamAuthenticateResponse { responses: vec![None, None] };
    assert_eq!(dispatcher.accept_answers(Ok(answers.clone())), Err(ConvError::NoConversation));
    dispatcher.handle_request(call(token, Operation::Authenticate, 0));
    assert_eq!(dispatcher.accept_answers(Ok(answers)), Err(ConvError::NoConversation));
    assert_eq!(dispatcher.pending(), Pending::Call(Operation::Authenticate));
}

#[test]
fn failed_round_still_ends_with_the_native_status() {
    let mut dispatcher = conversing();
    let round = dispatcher.accept_answers(Ok(start()));
    assert_eq!(conv_status(&round), PAM_SYSTEM_ERR);
    assert_eq!(dispatcher.native_returned(19), Response::Result { pam_status: 19 });
    assert_eq!(dispatcher.pending(), Pending::Request);
    assert_eq!(dispatcher.state(), SessionState::InSession);
}

#[test]
fn closed_channel_ends_an_open_session() {
    let (mut dispatcher, _) = in_session();
    assert_eq!(
        dispatcher.channel_closed(),
        Some(NativeCall::Session { operation: Operation::End, argument: PAM_SYSTEM_ERR })
    );
    assert_eq!(dispatcher.pending(), Pending::Call(Operation::End));
    dispatcher.native_returned(0);
    assert_eq!(dispatcher.state(), SessionState::Ended);
    assert_eq!(dispatcher.channel_closed(), None);
}

#[test]
fn closed_channel_without_a_session_leaves_nothing_to_do() {
    let mut dispatcher = Dispatcher::new();
    assert_eq!(dispatcher.channel_closed(), None);
    assert_eq!(dispatcher.state(), SessionState::AwaitingStart);
    assert_eq!(dispatcher.pending(), Pending::Request);
}
