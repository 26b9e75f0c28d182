use vstd::prelude::*;

use crate::error::SecurityError;

verus! {

/// The side of a TLS connection that a context plays.
#[derive(Clone, Copy, Debug, PartialEq, Eq, Structural)]
pub enum SslSide {
    Client,
    Server,
}

/// Whether a TLS context runs over a stream or datagrams.
#[derive(Clone, Copy, Debug, PartialEq, Eq, Structural)]
pub enum SslConnectionType {
    Stream,
    Datagram,
}

/// A TLS or SSL protocol version.
#[derive(Clone, Copy, Debug, PartialEq, Eq, Structural)]
pub enum SslProtocol {
    All,
    Dtls1,
    Ssl2,
    Ssl3,
    Ssl3Only,
    Tls1,
    Tls11,
    Tls12,
    Tls13,
    Tls1Only,
    Unknown,
}

/// Whether a server asks the client for a certificate.
#[derive(Clone, Copy, Debug, PartialEq, Eq, Structural)]
pub enum SslAuthenticate {
    Always,
    Never,
    Try,
}

/// The state of a TLS session.
#[derive(Clone, Copy, Debug, PartialEq, Eq, Structural)]
pub enum SslSessionState {
    Aborted,
    Closed,
    Connected,
    Handshake,
    Idle,
}

/// What became of the client certificate of a TLS session.
#[derive(Clone, Copy, Debug, PartialEq, Eq, Structural)]
pub enum SslClientCertificateState {
    Rejected,
    Requested,
    Sent,
    NoCertificate,
}

/// The two ends of the socket under a TLS stream.
pub struct SocketInfo {
    pub local_address: String,
    pub peer_address: String,
}

/// Why a handshake stopped before it was done.
pub struct HandshakeInterruption {
    pub error: String,
    pub server_auth_completed: bool,
    pub client_certificate_requested: bool,
    pub would_block: bool,
    pub client_hello_received: bool,
}

/// How a native handshake ended: with an established stream, interrupted at
/// a breakpoint with a handshake that can be resumed, or failed.
pub enum HandshakeOutcome<S, M, E> {
    Established(S),
    Interrupted(M),
    Failed(E),
}

/// Why a handshake gave no stream: it stopped at an authentication
/// breakpoint and can be resumed from the handshake carried here, or it
/// failed.
pub enum HandshakeError<M, E> {
    Interrupted(M),
    Failure(E),
}

/// What a handshake gives its caller: the established stream itself; an
/// interruption is an error that carries the resumable handshake, and a
/// failure an error that carries the native error.
pub fn handshake_result<S, M, E>(outcome: HandshakeOutcome<S, M, E>) -> (result: Result<S, HandshakeError<M, E>>)
    ensures
        match outcome {
            HandshakeOutcome::Established(stream) => result == Ok::<S, HandshakeError<M, E>>(stream),
            HandshakeOutcome::Interrupted(handshake) => result
                == Err::<S, HandshakeError<M, E>>(HandshakeError::Interrupted(handshake)),
            HandshakeOutcome::Failed(error) => result == Err::<S, HandshakeError<M, E>>(HandshakeError::Failure(error)),
        },
{
    match outcome {
        HandshakeOutcome::Established(stream) => Ok(stream),
        HandshakeOutcome::Interrupted(handshake) => Err(HandshakeError::Interrupted(handshake)),
        HandshakeOutcome::Failed(error) => Err(HandshakeError::Failure(error)),
    }
}

/// Whether a number names a TLS cipher suite, which is 16 bits wide.
pub open spec fn fits_cipher_suite(value: u32) -> bool {
    value <= 0xffff
}

/// The numbers that JavaScript sees for a list of cipher suites.
pub open spec fn cipher_numbers_of(suites: Seq<u16>) -> Seq<u32> {
    suites.map_values(|suite: u16| suite as u32)
}

/// The cipher suites named by `values`, in order. The first value that does
/// not fit in 16 bits is reported instead.
pub fn cipher_suites(values: Vec<u32>) -> (result: Result<Vec<u16>, SecurityError>)
    ensures
        result is Ok <==> (forall|i: int| 0 <= i < values@.len() ==> fits_cipher_suite(#[trigger] values@[i])),
        result matches Ok(suites) ==> cipher_numbers_of(suites@) == values@,
        result matches Ok(suites) ==> suites@.len() == values@.len()
            && forall|i: int| 0 <= i < values@.len() ==> #[trigger] suites@[i] as u32 == values@[i],
        result matches Err(e) ==> exists|i: int|
            0 <= i < values@.len()
            && !fits_cipher_suite(#[trigger] values@[i])
            && (forall|j: int| 0 <= j < i ==> fits_cipher_suite(values@[j]))
            && e == SecurityError::CipherSuiteOutOfRange(values@[i]),
{
    let mut suites: Vec<u16> = Vec::new();
    let n = values.len();
    for i in 0..n
        invariant
            n == values@.len(),
            suites@.len() == i,
            forall|j: int| 0 <= j < i ==> fits_cipher_suite(#[trigger] values@[j]),
            forall|j: int| 0 <= j < i ==> suites@[j] as u32 == #[trigger] values@[j],
    {
        let value = values[i];
        if value > 0xffff {
            return Err(SecurityError::CipherSuiteOutOfRange(value));
        }
        suites.push(value as u16);
    }
    assert(cipher_numbers_of(suites@) =~= values@);
    Ok(suites)
}

/// The numbers JavaScript sees for cipher suites are accepted again and name
/// the same suites: every such number fits in 16 bits, and the numbers
/// determine the suites, so `cipher_suites` gives back exactly the suites
/// they were read from.
pub proof fn law_cipher_numbers_round_trip(suites: Seq<u16>, other: Seq<u16>)
    ensures
        forall|i: int| 0 <= i < suites.len() ==> fits_cipher_suite(#[trigger] cipher_numbers_of(suites)[i]),
        cipher_numbers_of(other) == cipher_numbers_of(suites) ==> other == suites,
{
    if cipher_numbers_of(other) == cipher_numbers_of(suites) {
        assert(cipher_numbers_of(other).len() == other.len());
        assert(cipher_numbers_of(suites).len() == suites.len());
        assert forall|i: int| 0 <= i < suites.len() implies other[i] == suites[i] by {
            assert(cipher_numbers_of(other)[i] == cipher_numbers_of(suites)[i]);
            assert(cipher_numbers_of(other)[i] == other[i] as u32);
            assert(cipher_numbers_of(suites)[i] == suites[i] as u32);
        }
        assert(other =~= suites);
    }
}

/// What a read of `count` bytes into `data` delivers: the bytes read, and no
/// more.
pub fn received(data: Vec<u8>, count: usize) -> (bytes: Vec<u8>)
    ensures
        count <= data@.len() ==> bytes@ == data@.take(count as int),
        count > data@.len() ==> bytes@ == data@,
{
    let mut data = data;
    data.truncate(count);
    data
}

} // verus!
