use translation_gate::gate::AdmissionGate;
use translation_gate::session::CallPhase;
use translation_gate::session::CallSession;
use translation_gate::session::FetchOutcome;
use translation_gate::ApiResponse;
use translation_gate::TranslateError;
use translation_gate::SUCCESS_CODE;

#[test]
fn success_response_yields_translation() {
    let mut gate = AdmissionGate::with_ceiling(3);
    let mut call = CallSession::begin();
    assert!(call.poll_admission(&mut gate));
    let outcome = FetchOutcome::Response(ApiResponse::new(200, String::from("hola")));
    let r = call.complete(&mut gate, outcome);
    assert_eq!(r, Ok(String::from("hola")));
    assert_eq!(gate.in_flight(), 0);
    assert_eq!(call.phase(), CallPhase::Done);
}

#[test]
fn rejection_response_yields_server_message() {
    let mut gate = AdmissionGate::with_ceiling(3);
    let mut call = CallSession::begin();
    assert!(call.poll_admission(&mut gate));
    let outcome = FetchOutcome::Response(ApiResponse::new(
        400,
        String::from("unsupported language"),
    ));
    let r = call.complete(&mut gate, outcome);
    assert_eq!(
        r,
        Err(TranslateError::Remote(String::from("unsupported language")))
    );
    assert_eq!(gate.in_flight(), 0);
}

#[test]
fn transport_failure_restores_counter() {
    let mut gate = AdmissionGate::with_ceiling(3);

    // Another call is already in flight; the counter must come back to it.
    let mut other = CallSession::begin();
    assert!(other.poll_admission(&mut gate));
    let before = gate.in_flight();

    let mut call = CallSession::begin();
    assert!(call.poll_admission(&mut gate));
    let r = call.complete(
        &mut gate,
        FetchOutcome::Transport(String::from("connection refused")),
    );
    assert_eq!(
        r,
        Err(TranslateError::Transport(String::from("connection refused")))
    );
    assert_eq!(gate.in_flight(), before);
}

#[test]
fn into_result_by_status_code() {
    assert_eq!(SUCCESS_CODE, 200);
    let ok = ApiResponse::new(200, String::from("bonjour"));
    assert_eq!(ok.into_result(), Ok(String::from("bonjour")));

    // Anything but the success sentinel is a rejection, even a near miss.
    let near = ApiResponse::new(201, String::from("created"));
    assert_eq!(
        near.into_result(),
        Err(TranslateError::Remote(String::from("created")))
    );
    let server_error = ApiResponse::new(500, String::from("internal error"));
    assert_eq!(
        server_error.into_result(),
        Err(TranslateError::Remote(String::from("internal error")))
    );
}

#[test]
fn error_messages_carry_description() {
    let remote = TranslateError::Remote(String::from("quota exceeded"));
    assert_eq!(remote.message().as_str(), "quota exceeded");
    let transport = TranslateError::Transport(String::from("timed out"));
    assert_eq!(transport.message().as_str(), "timed out");
}

#[test]
fn phases_move_forward() {
    let mut gate = AdmissionGate::with_ceiling(1);
    let call = CallSession::begin();
    assert_eq!(call.phase(), CallPhase::Acquiring);

    let mut holder = CallSession::begin();
    assert!(holder.poll_admission(&mut gate));
    assert_eq!(holder.phase(), CallPhase::InFlight);

    let mut waiter = CallSession::begin();
    assert!(!waiter.poll_admission(&mut gate));
    assert_eq!(waiter.phase(), CallPhase::Acquiring);

    let r = holder.complete(&mut gate, FetchOutcome::Transport(String::from("down")));
    assert!(r.is_err());
    assert_eq!(holder.phase(), CallPhase::Done);
}
