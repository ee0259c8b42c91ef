use hyper_timeout::Error;

#[test]
fn timeouts_are_told_apart_from_transport_failures() {
    assert!(Error::<u8>::ConnectTimeout.is_timeout());
    assert!(Error::<u8>::ReadTimeout.is_timeout());
    assert!(Error::<u8>::WriteTimeout.is_timeout());
    assert!(!Error::ConnectFailure(1u8).is_timeout());
    assert!(!Error::ChannelError(2u8).is_timeout());
}

#[test]
fn every_kind_is_distinct() {
    let kinds = [
        Error::ConnectTimeout,
        Error::ConnectFailure(7u8),
        Error::ReadTimeout,
        Error::WriteTimeout,
        Error::ChannelError(7u8),
    ];
    let mut i: usize = 0;
    while i < kinds.len() {
        let mut j: usize = 0;
        while j < kinds.len() {
            assert_eq!(kinds[i] == kinds[j], i == j);
            j += 1;
        }
        i += 1;
    }
}

#[test]
fn transport_errors_come_back_unchanged() {
    assert_eq!(Error::ConnectFailure("refused").into_source(), Some("refused"));
    assert_eq!(Error::ChannelError("reset").into_source(), Some("reset"));
    assert_eq!(Error::<&str>::ConnectTimeout.into_source(), None);
    assert_eq!(Error::<&str>::ReadTimeout.into_source(), None);
    assert_eq!(Error::<&str>::WriteTimeout.into_source(), None);
}
