use vstd::prelude::*;

verus! {

/// How an error is reported to JavaScript callers.
#[derive(Clone, Copy, Debug, PartialEq, Eq, Structural)]
pub enum ErrorStatus {
    /// The arguments or the state of the receiver rule the call out.
    InvalidArg,
    /// The operation itself failed.
    GenericFailure,
}

/// A native resource that can be used up or released.
#[derive(Clone, Copy, Debug, PartialEq, Eq, Structural)]
pub enum Resource {
    PasswordOptions,
    SslContext,
    MidHandshakeSslStream,
    MidHandshakeClientBuilder,
    KeychainItem,
    Authorization,
}

/// Errors decided by the bindings themselves, before or after a native call.
#[derive(Clone, Copy, Debug, PartialEq, Eq, Structural)]
pub enum SecurityError {
    /// The resource was consumed, deleted or destroyed earlier.
    Spent(Resource),
    /// A TLS cipher suite number does not fit in 16 bits.
    CipherSuiteOutOfRange(u32),
    /// An authorization external form was not exactly 32 bytes long.
    ExternalFormLength(usize),
}

/// The message reported once a resource has been used up.
pub open spec fn spent_message(resource: Resource) -> Seq<char> {
    match resource {
        Resource::PasswordOptions => "PasswordOptions has already been consumed"@,
        Resource::SslContext => "SslContext has already been consumed"@,
        Resource::MidHandshakeSslStream => "MidHandshakeSslStream has already been consumed"@,
        Resource::MidHandshakeClientBuilder => "MidHandshakeClientBuilder has already been consumed"@,
        Resource::KeychainItem => "keychain item has been deleted"@,
        Resource::Authorization => "authorization rights have been destroyed"@,
    }
}

impl Resource {
    /// The message reported when this resource is used after it was spent.
    pub fn spent_message(&self) -> (message: String)
        ensures
            message@ == spent_message(*self),
            *self == Resource::PasswordOptions ==> message@ == "PasswordOptions has already been consumed"@,
            *self == Resource::SslContext ==> message@ == "SslContext has already been consumed"@,
            *self == Resource::MidHandshakeSslStream ==> message@
                == "MidHandshakeSslStream has already been consumed"@,
            *self == Resource::MidHandshakeClientBuilder ==> message@
                == "MidHandshakeClientBuilder has already been consumed"@,
            *self == Resource::KeychainItem ==> message@ == "keychain item has been deleted"@,
            *self == Resource::Authorization ==> message@ == "authorization rights have been destroyed"@,
    {
        proof {
            reveal_strlit("PasswordOptions has already been consumed");
            reveal_strlit("SslContext has already been consumed");
            reveal_strlit("MidHandshakeSslStream has already been consumed");
            reveal_strlit("MidHandshakeClientBuilder has already been consumed");
            reveal_strlit("keychain item has been deleted");
            reveal_strlit("authorization rights have been destroyed");
        }
        match self {
            Resource::PasswordOptions => "PasswordOptions has already been consumed".to_owned(),
            Resource::SslContext => "SslContext has already been consumed".to_owned(),
            Resource::MidHandshakeSslStream => "MidHandshakeSslStream has already been consumed".to_owned(),
            Resource::MidHandshakeClientBuilder => "MidHandshakeClientBuilder has already been consumed".to_owned(),
            Resource::KeychainItem => "keychain item has been deleted".to_owned(),
            Resource::Authorization => "authorization rights have been destroyed".to_owned(),
        }
    }

    /// A deleted keychain item is reported as a failure; every other spent
    /// resource as an invalid argument.
    pub fn spent_status(&self) -> (status: ErrorStatus)
        ensures
            status == (if *self == Resource::KeychainItem {
                ErrorStatus::GenericFailure
            } else {
                ErrorStatus::InvalidArg
            }),
    {
        match self {
            Resource::KeychainItem => ErrorStatus::GenericFailure,
            _ => ErrorStatus::InvalidArg,
        }
    }
}

impl SecurityError {
    /// Every error of the bindings' own is reported as an invalid argument,
    /// but for a deleted keychain item.
    pub fn status(&self) -> (status: ErrorStatus)
        ensures
            status == (match *self {
                SecurityError::Spent(Resource::KeychainItem) => ErrorStatus::GenericFailure,
                _ => ErrorStatus::InvalidArg,
            }),
    {
        match self {
            SecurityError::Spent(resource) => resource.spent_status(),
            _ => ErrorStatus::InvalidArg,
        }
    }
}

/// The decimal character of a digit.
pub open spec fn digit_char(digit: nat) -> char {
    if digit == 0 { '0' }
    else if digit == 1 { '1' }
    else if digit == 2 { '2' }
    else if digit == 3 { '3' }
    else if digit == 4 { '4' }
    else if digit == 5 { '5' }
    else if digit == 6 { '6' }
    else if digit == 7 { '7' }
    else if digit == 8 { '8' }
    else { '9' }
}

/// The decimal notation of `n`, without leading zeros.
pub open spec fn decimal(n: nat) -> Seq<char>
    decreases n,
{
    if n < 10 {
        seq![digit_char(n)]
    } else {
        decimal(n / 10).push(digit_char(n % 10))
    }
}

/// The message reported for an error of the bindings' own.
pub open spec fn error_message(error: SecurityError) -> Seq<char> {
    match error {
        SecurityError::Spent(resource) => spent_message(resource),
        SecurityError::CipherSuiteOutOfRange(value) => "TLS cipher suite must fit in 16 bits: "@
            + decimal(value as nat),
        SecurityError::ExternalFormLength(_) => "authorization external form must be exactly 32 bytes"@,
    }
}

/// The number written by a string of decimal digits, most significant
/// first.
pub open spec fn digits_value(text: Seq<char>) -> int
    decreases text.len(),
{
    if text.len() == 0 {
        0
    } else {
        digits_value(text.drop_last()) * 10 + (text.last() as int - '0' as int)
    }
}

/// The decimal notation of a number writes that number: it is made of the
/// characters `0` to `9` only, reads back as the number, and starts with
/// `0` only for zero itself.
pub proof fn law_decimal_writes_the_number(n: nat)
    ensures
        decimal(n).len() > 0,
        forall|i: int| 0 <= i < decimal(n).len() ==> '0' <= #[trigger] decimal(n)[i] <= '9',
        digits_value(decimal(n)) == n,
        n > 0 ==> decimal(n)[0] != '0',
    decreases n,
{
    assert forall|d: nat| d < 10 implies (#[trigger] digit_char(d)) as int - '0' as int == d
        && '0' <= digit_char(d) <= '9' by {
        if d == 0 {} else if d == 1 {} else if d == 2 {} else if d == 3 {} else if d == 4 {}
        else if d == 5 {} else if d == 6 {} else if d == 7 {} else if d == 8 {} else {}
    }
    if n < 10 {
        assert(decimal(n) == seq![digit_char(n)]);
        assert(decimal(n).drop_last() =~= Seq::<char>::empty());
        assert(digits_value(decimal(n)) == digits_value(Seq::<char>::empty()) * 10 + (digit_char(n) as int - '0' as int));
    } else {
        law_decimal_writes_the_number(n / 10);
        let d = decimal(n);
        assert(d.drop_last() =~= decimal(n / 10));
        assert(d[0] == decimal(n / 10)[0]);
        assert(d.last() == digit_char(n % 10));
        assert(n == (n / 10) * 10 + n % 10);
        assert forall|i: int| 0 <= i < d.len() implies '0' <= #[trigger] d[i] <= '9' by {
            if i < d.len() - 1 {
                assert(d[i] == decimal(n / 10)[i]);
            }
        }
    }
}

/// The message for a cipher suite number that does not fit names that
/// number: after the fixed text come decimal digits that read back as the
/// rejected number.
pub proof fn law_cipher_message_names_value(value: u32)
    ensures ({
        let message = error_message(SecurityError::CipherSuiteOutOfRange(value));
        let prefix = "TLS cipher suite must fit in 16 bits: "@;
        &&& message.len() > prefix.len()
        &&& message.take(prefix.len() as int) == prefix
        &&& forall|i: int| prefix.len() <= i < message.len() ==> '0' <= #[trigger] message[i] <= '9'
        &&& digits_value(message.skip(prefix.len() as int)) == value
    }),
{
    law_decimal_writes_the_number(value as nat);
    let prefix = "TLS cipher suite must fit in 16 bits: "@;
    let message = error_message(SecurityError::CipherSuiteOutOfRange(value));
    assert(message == prefix + decimal(value as nat));
    assert(message.take(prefix.len() as int) =~= prefix);
    assert(message.skip(prefix.len() as int) =~= decimal(value as nat));
    assert forall|i: int| prefix.len() <= i < message.len() implies '0' <= #[trigger] message[i] <= '9' by {
        assert(message[i] == decimal(value as nat)[i - prefix.len()]);
    }
}

fn digit_str(digit: u32) -> (text: &'static str)
    requires
        digit < 10,
    ensures
        text@ == seq![digit_char(digit as nat)],
{
    proof {
        reveal_strlit("0");
        reveal_strlit("1");
        reveal_strlit("2");
        reveal_strlit("3");
        reveal_strlit("4");
        reveal_strlit("5");
        reveal_strlit("6");
        reveal_strlit("7");
        reveal_strlit("8");
        reveal_strlit("9");
    }
    if digit == 0 { "0" }
    else if digit == 1 { "1" }
    else if digit == 2 { "2" }
    else if digit == 3 { "3" }
    else if digit == 4 { "4" }
    else if digit == 5 { "5" }
    else if digit == 6 { "6" }
    else if digit == 7 { "7" }
    else if digit == 8 { "8" }
    else { "9" }
}

fn append_decimal(text: &mut String, n: u32)
    ensures
        final(text)@ == old(text)@ + decimal(n as nat),
    decreases n,
{
    if n >= 10 {
        append_decimal(text, n / 10);
    }
    text.append(digit_str(n % 10));
}

impl SecurityError {
    /// The message reported to JavaScript for this error.
    pub fn message(&self) -> (message: String)
        ensures
            message@ == error_message(*self),
            self matches SecurityError::Spent(resource) ==> message@ == spent_message(*resource),
            self is ExternalFormLength ==> message@ == "authorization external form must be exactly 32 bytes"@,
            self matches SecurityError::CipherSuiteOutOfRange(value) ==> message@
                == "TLS cipher suite must fit in 16 bits: "@ + decimal(*value as nat),
    {
        match self {
            SecurityError::Spent(resource) => resource.spent_message(),
            SecurityError::CipherSuiteOutOfRange(value) => {
                proof {
                    reveal_strlit("TLS cipher suite must fit in 16 bits: ");
                }
                let mut message = "TLS cipher suite must fit in 16 bits: ".to_owned();
                append_decimal(&mut message, *value);
                message
            },
            SecurityError::ExternalFormLength(_) => {
                proof {
                    reveal_strlit("authorization external form must be exactly 32 bytes");
                }
                "authorization external form must be exactly 32 bytes".to_owned()
            },
        }
    }
}

} // verus!
