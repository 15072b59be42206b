use vstd::prelude::*;

use crate::decimal::{dec_text, push_decimal};

verus! {

/// A transport-level failure: the HTTP status when the server answered with
/// one outside 2xx, and a message for a human reader.
#[derive(Clone, Debug)]
pub struct TransportDetail {
    pub status: Option<u16>,
    pub message: String,
}

/// Why a fetch gave no bars.
#[derive(Clone, Debug)]
pub enum FetchError {
    /// The network failed or the server answered with a status outside 2xx.
    Transport(TransportDetail),
    /// The body is not JSON of the bars response's shape; the parser's
    /// message.
    Decode(String),
    /// The request was abandoned before it completed.
    Cancelled,
}

pub open spec fn is_success(status: u16) -> bool {
    200 <= status && status < 300
}

/// The transport error for a status outside 2xx: the status itself, and the
/// message `HTTP status {status}`.
pub open spec fn is_status_error(e: FetchError, status: u16) -> bool {
    match e {
        FetchError::Transport(d) => d.status == Some(status) && d.message@ == status_message(
            status,
        ),
        _ => false,
    }
}

pub open spec fn status_message(status: u16) -> Seq<char> {
    "HTTP status "@ + dec_text(status as nat)
}

/// Accepts a 2xx status; any other becomes a transport error that carries it.
pub fn check_status(status: u16) -> (r: Result<(), FetchError>)
    ensures
        r is Ok <==> is_success(status),
        !is_success(status) ==> r is Err && is_status_error(r->Err_0, status),
{
    if 200 <= status && status < 300 {
        Ok(())
    } else {
        let mut message = String::from_str("HTTP status ");
        push_decimal(&mut message, status as u32);
        Err(FetchError::Transport(TransportDetail { status: Some(status), message }))
    }
}

/// A failure below HTTP (DNS, connection, TLS): a transport error with no
/// status.
pub fn transport_failure(message: String) -> (r: FetchError)
    ensures
        (r matches FetchError::Transport(d) && d.status is None && d.message@ == message@),
{
    FetchError::Transport(TransportDetail { status: None, message })
}

/// The outcome of a fetch from the status and, for a 2xx status, the result of
/// decoding the body (`None` when the body was abandoned before it was read):
/// no bars unless both succeeded, and the status decides first.
pub fn fetch_outcome<T>(status: u16, decoded: Option<Result<T, String>>) -> (r: Result<
    T,
    FetchError,
>)
    ensures
        !is_success(status) ==> r is Err && is_status_error(r->Err_0, status),
        is_success(status) && decoded is Some ==> match decoded->Some_0 {
            Ok(v) => r == Ok::<T, FetchError>(v),
            Err(m) => (r->Err_0 matches FetchError::Decode(dm) && dm@ == m@),
        },
        is_success(status) && decoded is None ==> (r->Err_0 matches FetchError::Cancelled),
{
    match check_status(status) {
        Err(e) => Err(e),
        Ok(()) => match decoded {
            Some(Ok(v)) => Ok(v),
            Some(Err(m)) => Err(FetchError::Decode(m)),
            None => Err(FetchError::Cancelled),
        },
    }
}

} // verus!
