//! The error taxonomy of the library and its mapping to HTTP responses.
//!
//! Every failure of the core is one of the kinds in [`ThreadError`]; each kind
//! is produced by exactly one layer (URL handling, the API client, the
//! walker).  The rendering boundary turns a `ThreadError` into a
//! [`RenderError`], which fixes the HTTP status and the page body.

use vstd::prelude::*;

verus! {

use vstd::string::StringExecFns;

/// A failure of the thread-reconstruction core.
#[derive(Debug, Clone)]
pub enum ThreadError {
    /// The user-supplied URL is not a base URL or has no non-empty path
    /// segment to use as a post id.
    InvalidUrl(String),
    /// The upstream server failed: a network error, a non-success status, a
    /// body that does not decode, or upstream data whose URLs cannot be used.
    Upstream(String),
    /// The defensive cap on walk iterations was exceeded.
    WalkLimit,
}

/// An error as the rendering boundary sees it: one variant per HTTP status.
#[derive(Debug, Clone)]
pub enum RenderError {
    Internal(String),
    NotFound(String),
    BadRequest(String),
}

/// The status line shown for an error: the HTTP status phrase followed by
/// the message the error carries.
pub open spec fn render_message(e: RenderError) -> Seq<char> {
    match e {
        RenderError::Internal(s) => "500 Internal Server Error: "@ + s@,
        RenderError::NotFound(s) => "404 Not Found: "@ + s@,
        RenderError::BadRequest(s) => "400 Bad Request: "@ + s@,
    }
}

impl RenderError {
    /// The HTTP status code that the error page is served with.
    pub fn get_http_status(&self) -> (r: u16)
        ensures
            self is Internal ==> r == 500,
            self is NotFound ==> r == 404,
            self is BadRequest ==> r == 400,
    {
        match self {
            RenderError::Internal(_) => 500,
            RenderError::NotFound(_) => 404,
            RenderError::BadRequest(_) => 400,
        }
    }

    /// The human-readable message the error carries to the error page.
    pub fn get_error_message(&self) -> (r: String)
        ensures
            self matches RenderError::Internal(s) ==> r@ == s@,
            self matches RenderError::NotFound(s) ==> r@ == s@,
            self matches RenderError::BadRequest(s) ==> r@ == s@,
    {
        match self {
            RenderError::Internal(s) => s.clone(),
            RenderError::NotFound(s) => s.clone(),
            RenderError::BadRequest(s) => s.clone(),
        }
    }

    /// The status line of the error, in place of a `Display` impl:
    /// the status phrase followed by the message.
    pub fn describe(&self) -> (r: String)
        ensures
            r@ == render_message(*self),
    {
        let mut out: String = match self {
            RenderError::Internal(_) => String::from_str("500 Internal Server Error: "),
            RenderError::NotFound(_) => String::from_str("404 Not Found: "),
            RenderError::BadRequest(_) => String::from_str("400 Bad Request: "),
        };
        let msg = self.get_error_message();
        out.append(msg.as_str());
        out
    }

    /// How the boundary classifies each kind of core failure:
    /// a bad input URL is the client's fault, everything else is served
    /// as an internal error.
    pub fn of_thread_error(e: ThreadError) -> (r: RenderError)
        ensures
            e matches ThreadError::InvalidUrl(m) ==> (r matches RenderError::BadRequest(m2)
                && m2@ == m@),
            e matches ThreadError::Upstream(m) ==> (r matches RenderError::Internal(m2) && m2@
                == m@),
            e is WalkLimit ==> (r matches RenderError::Internal(m2) && m2@
                == "thread walk limit exceeded"@),
    {
        match e {
            ThreadError::InvalidUrl(m) => RenderError::BadRequest(m),
            ThreadError::Upstream(m) => RenderError::Internal(m),
            ThreadError::WalkLimit => RenderError::Internal(
                String::from_str("thread walk limit exceeded"),
            ),
        }
    }
}

} // verus!
