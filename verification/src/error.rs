use vstd::prelude::*;
use vstd::utf8::*;

verus! {

/// What an [`Error`] says, as a value of the specification language.
pub enum ErrorModel {
    Message(Seq<char>),
    Trap(Seq<char>),
}

/// Anything that can go wrong in this crate.
#[derive(Debug)]
pub enum Error {
    /// An operation failed without producing a trap.
    ///
    /// Most of the C API reports failure as a null pointer or `false` and carries
    /// no reason, so these messages are written here rather than taken from zwasm.
    Message(String),
    /// Guest execution trapped. Carries the message of the trap.
    Trap(String),
}

impl View for Error {
    type V = ErrorModel;

    open spec fn view(&self) -> ErrorModel {
        match self {
            Error::Message(s) => ErrorModel::Message(s@),
            Error::Trap(s) => ErrorModel::Trap(s@),
        }
    }
}

impl Error {
    /// The text the error carries, whichever its kind; it is what the error
    /// displays as.
    pub fn message(&self) -> (r: &str)
        ensures
            r@ == match self@ {
                ErrorModel::Message(m) => m,
                ErrorModel::Trap(m) => m,
            },
    {
        match self {
            Error::Message(s) => s.as_str(),
            Error::Trap(s) => s.as_str(),
        }
    }
}

/// The error of the configuration and import registry API: a message.
#[derive(Debug)]
pub struct ZwasmError(pub String);

/// The error that a failed constructor of the configuration API reports: the
/// runtime's last error message when there is one, else "Unknown error".
pub open spec fn last_error_spec(last_error: Option<String>) -> Seq<char> {
    match last_error {
        Some(m) => m@,
        None => "Unknown error"@,
    }
}

/// Builds the [`ZwasmError`] for a failed constructor from the runtime's last
/// error message, if it has one.
pub fn error_from_last(last_error: Option<String>) -> (e: ZwasmError)
    ensures
        e.0@ == last_error_spec(last_error),
{
    match last_error {
        Some(m) => ZwasmError(m),
        None => ZwasmError("Unknown error".to_owned()),
    }
}

/// Turns a possibly null result of the runtime into a `Result`.
///
/// `None` stands for a null pointer; it becomes an [`Error::Message`] carrying
/// `msg`.
pub fn non_null<T>(value: Option<T>, msg: &str) -> (r: Result<T, Error>)
    ensures
        match r {
            Ok(v) => value == Some(v),
            Err(e) => value is None && e@ == ErrorModel::Message(msg@),
        },
{
    match value {
        Some(v) => Ok(v),
        None => Err(Error::Message(msg.to_owned())),
    }
}

/// Turns a runtime address into a `Result`, `0` being the null pointer.
pub fn non_null_addr(addr: usize, msg: &str) -> (r: Result<usize, Error>)
    ensures
        match r {
            Ok(v) => addr != 0 && v == addr,
            Err(e) => addr == 0 && e@ == ErrorModel::Message(msg@),
        },
{
    if addr == 0 {
        non_null(None, msg)
    } else {
        non_null(Some(addr), msg)
    }
}

/// A trap raised by guest code, as the library reads it: the bytes of its
/// message, or `None` when the runtime gave the message no data.
pub struct Trap {
    pub message: Option<Vec<u8>>,
}

/// The text that `String::from_utf8_lossy` makes of `bytes`.
pub uninterp spec fn utf8_lossy(bytes: Seq<u8>) -> Seq<char>;

/// Calls `String::from_utf8_lossy` and takes the result as an owned `String`.
///
/// Trusted: the text is named [`utf8_lossy`] of the bytes; where the bytes are
/// valid UTF-8, the documentation of `from_utf8_lossy` says the text is their
/// decoding, unchanged.
#[verifier::external_body]
fn string_from_utf8_lossy(bytes: &[u8]) -> (r: String)
    ensures
        r@ == utf8_lossy(bytes@),
        valid_utf8(bytes@) ==> r@ == decode_utf8(bytes@),
{
    String::from_utf8_lossy(bytes).into_owned()
}

/// What [`trap_to_error`] makes of a trap.
pub open spec fn trap_error_spec(trap: Trap) -> ErrorModel {
    match trap.message {
        Some(bytes) => ErrorModel::Trap(utf8_lossy(bytes@)),
        None => ErrorModel::Trap("trap with no message"@),
    }
}

/// Turns a trap into an [`Error::Trap`] carrying its message, decoded as UTF-8
/// with invalid sequences replaced; a trap whose message has no data says
/// "trap with no message".
pub fn trap_to_error(trap: Trap) -> (e: Error)
    ensures
        e@ == trap_error_spec(trap),
        e is Trap,
        trap.message matches Some(bytes) ==> e@ == ErrorModel::Trap(utf8_lossy(bytes@)),
        trap.message is None ==> e@ == ErrorModel::Trap("trap with no message"@),
{
    match &trap.message {
        Some(bytes) => Error::Trap(string_from_utf8_lossy(bytes.as_slice())),
        None => Error::Trap("trap with no message".to_owned()),
    }
}

/// Every trap becomes a trap error, whatever its message: its text is the
/// message decoded with invalid UTF-8 replaced (exactly the decoding when the
/// message is valid UTF-8), or "trap with no message" when there is none. It
/// never becomes a plain message error.
pub proof fn law_trap_is_always_a_trap_error(trap: Trap)
    ensures
        trap_error_spec(trap) is Trap,
        !(trap_error_spec(trap) is Message),
        trap.message matches Some(bytes) ==> trap_error_spec(trap) == ErrorModel::Trap(
            utf8_lossy(bytes@),
        ),
        trap.message is None ==> trap_error_spec(trap) == ErrorModel::Trap(
            "trap with no message"@,
        ),
{
}

/// `Ok` when no trap was raised, else the trap as an [`Error::Trap`].
pub fn trap_into_result(trap: Option<Trap>) -> (r: Result<(), Error>)
    ensures
        match trap {
            None => r is Ok,
            Some(t) => r matches Err(e) && e@ == trap_error_spec(t) && e is Trap,
        },
{
    match trap {
        None => Ok(()),
        Some(t) => Err(trap_to_error(t)),
    }
}

} // verus!
