//! The guest control protocol: one textual request per connection to the
//! guest's unix socket, answered by whatever the guest writes before it
//! closes the connection.

use vstd::prelude::*;
use crate::text::{contains, contains_str};

verus! {

/// Delay between two attempts of a polling loop, in milliseconds.
pub const RETRY_DELAY_MS: u64 = 500;

/// The requests the guest's control endpoint understands.
#[derive(Clone, Copy, Debug, PartialEq, Eq, Structural)]
pub enum ControlRequest {
    /// Whether the guest has finished booting.
    Ready,
    /// Ask the guest to power off.
    Shutdown,
    /// Ask the guest to open a terminal window.
    SpawnTerminal,
}

pub open spec fn method_spec(r: ControlRequest) -> Seq<char> {
    match r {
        ControlRequest::Ready => "GET"@,
        _ => "POST"@,
    }
}

pub open spec fn path_spec(r: ControlRequest) -> Seq<char> {
    match r {
        ControlRequest::Ready => "/ready"@,
        ControlRequest::Shutdown => "/shutdown"@,
        ControlRequest::SpawnTerminal => "/spawn-terminal"@,
    }
}

/// Request line, the two headers and the blank line that ends the request.
pub open spec fn request_text_spec(method: Seq<char>, path: Seq<char>) -> Seq<char> {
    method + " "@ + path + " HTTP/1.0\r\nHost: localhost\r\nContent-Length: 0\r\n\r\n"@
}

/// The bytes of a request with `method` on `path`, as text.
pub fn request_text(method: &str, path: &str) -> (r: String)
    ensures
        r@ == request_text_spec(method@, path@),
{
    String::from_str(method).concat(" ").concat(path).concat(
        " HTTP/1.0\r\nHost: localhost\r\nContent-Length: 0\r\n\r\n",
    )
}

pub fn method(r: ControlRequest) -> (m: &'static str)
    ensures
        m@ == method_spec(r),
{
    match r {
        ControlRequest::Ready => "GET",
        _ => "POST",
    }
}

pub fn path(r: ControlRequest) -> (p: &'static str)
    ensures
        p@ == path_spec(r),
{
    match r {
        ControlRequest::Ready => "/ready",
        ControlRequest::Shutdown => "/shutdown",
        ControlRequest::SpawnTerminal => "/spawn-terminal",
    }
}

/// The text sent to the guest for `r`.
pub fn control_request(r: ControlRequest) -> (t: String)
    ensures
        t@ == request_text_spec(method_spec(r), path_spec(r)),
{
    request_text(method(r), path(r))
}

/// Whether a reply to the readiness request reports success: the status
/// token `200` appears anywhere in it.
pub open spec fn reply_is_ready_spec(reply: Seq<char>) -> bool {
    contains(reply, "200"@)
}

pub fn reply_is_ready(reply: &str) -> (r: bool)
    ensures
        r == reply_is_ready_spec(reply@),
{
    contains_str(reply, "200")
}

/// What a polling loop does after one attempt.
#[derive(Clone, Copy, Debug, PartialEq, Eq, Structural)]
pub enum Poll {
    /// The awaited condition holds.
    Done,
    /// Try again after this many milliseconds.
    RetryAfter(u64),
}

/// The readiness loop's decision after one exchange; `None` when the
/// exchange failed (the socket is missing or the guest is not listening
/// yet), which is expected while the guest boots.
pub fn ready_poll(reply: Option<&str>) -> (p: Poll)
    ensures
        p == (match reply {
            Some(t) => if reply_is_ready_spec(t@) {
                Poll::Done
            } else {
                Poll::RetryAfter(RETRY_DELAY_MS)
            },
            None => Poll::RetryAfter(RETRY_DELAY_MS),
        }),
{
    match reply {
        Some(t) => if reply_is_ready(t) {
            Poll::Done
        } else {
            Poll::RetryAfter(RETRY_DELAY_MS)
        },
        None => Poll::RetryAfter(RETRY_DELAY_MS),
    }
}

/// The path poller's decision after one existence check.
pub fn exists_poll(exists: bool) -> (p: Poll)
    ensures
        p == (if exists {
            Poll::Done
        } else {
            Poll::RetryAfter(RETRY_DELAY_MS)
        }),
{
    if exists {
        Poll::Done
    } else {
        Poll::RetryAfter(RETRY_DELAY_MS)
    }
}

} // verus!
