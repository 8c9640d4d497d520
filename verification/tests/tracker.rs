use p2pchat::bridge::base64_decode;
use p2pchat::bridge::generate_ed25519_keypair;
use p2pchat::tracker::{
    find_by_id_url, find_by_name_url, register_url, registration_body, registration_from_body, registration_status,
    status_is_server_error, status_is_success, username_availability, TrackerError,
};
use p2pchat::types::RegisterResponse;

#[test]
fn status_classes() {
    assert!(status_is_success(200));
    assert!(status_is_success(299));
    assert!(!status_is_success(300));
    assert!(!status_is_success(199));
    assert!(status_is_server_error(500));
    assert!(status_is_server_error(599));
    assert!(!status_is_server_error(404));
}

#[test]
fn tracker_urls() {
    let t = "127.0.0.1:8000".to_string();
    assert_eq!(find_by_id_url(&t, &"12D3Koo".to_string()), "http://127.0.0.1:8000/find-by-id?q=12D3Koo");
    assert_eq!(find_by_name_url(&t, &"alice".to_string()), "http://127.0.0.1:8000/find-by-name?q=alice");
    assert_eq!(register_url(&t), "http://127.0.0.1:8000/register");
}

#[test]
fn availability_of_usernames() {
    assert_eq!(username_availability(Ok(200)), Ok(false));
    assert_eq!(username_availability(Ok(404)), Ok(true));
    assert_eq!(username_availability(Ok(503)), Err(TrackerError::ServerError));
    assert_eq!(
        username_availability(Err("refused".to_string())),
        Err(TrackerError::ConnectionFailed("refused".to_string()))
    );
}

#[test]
fn registration_outcomes() {
    assert_eq!(registration_status(Ok(201)), Ok(()));
    assert_eq!(registration_status(Ok(409)), Err(TrackerError::UsernameNotAvailable));
    assert_eq!(registration_status(Ok(500)), Err(TrackerError::ServerError));
    assert_eq!(registration_status(Err("timeout".to_string())), Err(TrackerError::ConnectionFailed("timeout".to_string())));
    let ok: Result<RegisterResponse, String> =
        Ok(RegisterResponse { peer_id: "p".to_string(), username: "u".to_string() });
    assert_eq!(
        registration_from_body(ok),
        Ok(RegisterResponse { peer_id: "p".to_string(), username: "u".to_string() })
    );
    let bad: Result<RegisterResponse, String> = Err("eof".to_string());
    assert_eq!(registration_from_body(bad), Err(TrackerError::ParseError("eof".to_string())));
}

#[test]
fn tracker_error_texts() {
    assert_eq!(TrackerError::ConnectionFailed("x".to_string()).message(), "Connection failed: x");
    assert_eq!(TrackerError::UsernameNotAvailable.message(), "Username not available");
    assert_eq!(TrackerError::UsernameNotFound.message(), "Username not found");
    assert_eq!(TrackerError::ServerError.message(), "Server error");
    assert_eq!(TrackerError::ParseError("y".to_string()).message(), "Failed to parse response: y");
}

#[test]
fn registration_body_signs_message() {
    let key = generate_ed25519_keypair();
    let message = "{\"username\":\"alice\"}".to_string();
    let body = registration_body(&key, message.clone()).unwrap();
    assert_eq!(body.message, message);
    let pk = base64_decode(&body.public_key).unwrap();
    let sig = base64_decode(&body.signature).unwrap();
    // An Ed25519 public key in protobuf form: two field tags and 32 key bytes.
    assert_eq!(pk.len(), 36);
    assert_eq!(sig.len(), 64);
    assert_eq!(registration_body(&[1, 2, 3], message), None);
}
