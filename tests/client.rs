use speculos_client::{
    apdu_response_bytes, apdu_url, automation_url, check_automation_status, DecodeError,
    SpeculosError,
};

#[test]
fn endpoint_urls() {
    assert_eq!(apdu_url(5000), "http://localhost:5000/apdu");
    assert_eq!(automation_url(41234), "http://localhost:41234/automation");
    assert_eq!(apdu_url(0), "http://localhost:0/apdu");
}

#[test]
fn success_statuses_pass() {
    assert!(check_automation_status(200).is_ok());
    assert!(check_automation_status(204).is_ok());
    assert!(check_automation_status(299).is_ok());
}

#[test]
fn other_statuses_fail_with_status() {
    for status in [100u16, 199, 300, 302, 400, 404, 500, 503] {
        assert!(matches!(
            check_automation_status(status),
            Err(SpeculosError::Status(s)) if s == status
        ));
    }
}

#[test]
fn apdu_response_decoding() {
    assert_eq!(apdu_response_bytes("9000").unwrap(), vec![0x90, 0x00]);
    assert!(matches!(
        apdu_response_bytes("900"),
        Err(SpeculosError::Decode(DecodeError::OddLength))
    ));
    assert!(matches!(
        apdu_response_bytes("90g0"),
        Err(SpeculosError::Decode(DecodeError::InvalidHexCharacter))
    ));
}

#[test]
fn error_messages() {
    assert_eq!(SpeculosError::Status(404).message(), "HTTP status 404");
    assert_eq!(
        SpeculosError::Decode(DecodeError::OddLength).message(),
        "odd number of hex digits"
    );
    assert_eq!(
        SpeculosError::Decode(DecodeError::InvalidHexCharacter).message(),
        "invalid hex character"
    );
    assert_eq!(SpeculosError::NotReady.message(), "emulator exited before it was ready");
    let io = std::io::Error::new(std::io::ErrorKind::NotFound, "no speculos on PATH");
    assert_eq!(SpeculosError::from(io).message(), "no speculos on PATH");
}
