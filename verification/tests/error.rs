use pressure::{DecodeError, Errno, Error, VarError};

#[test]
fn error_is_made_from_an_error_number() {
    match Error::from(Errno { raw: 9 }) {
        Error::Nix(errno) => assert_eq!(errno.raw, 9),
        other => panic!("unexpected: {:?}", other),
    }
}

#[test]
fn error_is_made_from_an_io_error() {
    let denied = std::io::Error::from(std::io::ErrorKind::PermissionDenied);
    match Error::from(denied) {
        Error::Io(e) => assert_eq!(e.kind(), std::io::ErrorKind::PermissionDenied),
        other => panic!("unexpected: {:?}", other),
    }
}

#[test]
fn error_is_made_from_a_failed_lookup() {
    match Error::from(VarError::NotUnicode(vec![0xff])) {
        Error::VarError(e) => assert_eq!(e, VarError::NotUnicode(vec![0xff])),
        other => panic!("unexpected: {:?}", other),
    }
}

#[test]
fn error_is_made_from_a_failed_decoding() {
    match Error::from(DecodeError::InvalidLength(5)) {
        Error::Base64(e) => assert_eq!(e, DecodeError::InvalidLength(5)),
        other => panic!("unexpected: {:?}", other),
    }
}

#[test]
fn question_mark_converts_the_causes() {
    fn lookup() -> Result<String, Error> {
        let text: Result<String, VarError> = Err(VarError::NotPresent);
        Ok(text?)
    }
    assert!(matches!(lookup(), Err(Error::VarError(VarError::NotPresent))));
}
