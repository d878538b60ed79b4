use mio::error::MioError;

#[test]
fn errno_classification() {
    assert_eq!(MioError::from_errno(11), MioError::WouldBlock);
    assert_eq!(MioError::from_errno(17), MioError::AlreadyRegistered);
    assert_eq!(MioError::from_errno(2), MioError::NoSuchRegistration);
    assert_eq!(MioError::from_errno(104), MioError::HangUp);
    assert_eq!(MioError::from_errno(32), MioError::HangUp);
    assert_eq!(MioError::from_errno(9), MioError::PlatformError(9));
    assert_eq!(MioError::from_errno(0), MioError::PlatformError(0));
}
