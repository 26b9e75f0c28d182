use msf_ffi::error::SecurityError;
use msf_ffi::random::zeroed_buffer;
use msf_ffi::secure_transport::{
    cipher_suites, handshake_result, received, HandshakeError, HandshakeOutcome,
};

#[test]
fn cipher_suites_accepts_16_bit_values() {
    assert_eq!(cipher_suites(vec![0x1301, 0xc02f, 0, 0xffff]), Ok(vec![0x1301, 0xc02f, 0, 0xffff]));
    assert_eq!(cipher_suites(vec![]), Ok(vec![]));
}

#[test]
fn cipher_suites_reports_first_wide_value() {
    assert_eq!(
        cipher_suites(vec![1, 0x10000, 0x20000]),
        Err(SecurityError::CipherSuiteOutOfRange(0x10000))
    );
    assert_eq!(
        cipher_suites(vec![u32::MAX]),
        Err(SecurityError::CipherSuiteOutOfRange(u32::MAX))
    );
}

#[test]
fn cipher_numbers_round_trip() {
    let suites: Vec<u16> = vec![0x1301, 0x002f, 0xffff];
    let numbers: Vec<u32> = suites.iter().map(|suite| u32::from(*suite)).collect();
    assert_eq!(cipher_suites(numbers), Ok(suites));
}

#[test]
fn handshake_outcomes() {
    let done = handshake_result::<u8, u16, &str>(HandshakeOutcome::Established(1));
    assert!(matches!(done, Ok(1)));
    let paused = handshake_result::<u8, u16, &str>(HandshakeOutcome::Interrupted(2));
    assert!(matches!(paused, Err(HandshakeError::Interrupted(2))));
    let failed = handshake_result::<u8, u16, &str>(HandshakeOutcome::Failed("refused"));
    assert!(matches!(failed, Err(HandshakeError::Failure("refused"))));
}

#[test]
fn read_buffers() {
    let buffer = zeroed_buffer(5);
    assert_eq!(buffer, vec![0u8; 5]);
    assert_eq!(received(vec![1, 2, 3, 4], 2), vec![1, 2]);
    assert_eq!(received(vec![1, 2], 9), vec![1, 2]);
    assert_eq!(received(vec![1, 2], 0), Vec::<u8>::new());
    assert!(zeroed_buffer(0).is_empty());
}
