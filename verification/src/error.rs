//! Provider-originated errors and the single boundary that turns them into
//! a user-visible status and message.
//!
//! Whenever the originating status indicates a server-side fault, the
//! detail is redacted so that backend internals never reach a client.

use vstd::prelude::*;
use vstd::string::StringExecFns;

verus! {

/// Detail of an authentication failure as the provider reports it.
#[derive(Debug)]
pub struct AuthError {
    pub msg: Option<String>,
    pub error_description: Option<String>,
}

/// Detail of a durable-store failure as the provider reports it.
#[derive(Debug)]
pub struct PostgrestError {
    pub message: String,
    pub code: String,
}

/// Which side of the provider an error came from.
#[derive(Debug)]
pub enum ErrorKind {
    Auth(AuthError),
    Postgrest(PostgrestError),
}

/// One provider-originated error: an HTTP status and its detail.
#[derive(Debug)]
pub struct SupabaseError {
    pub http_status: u16,
    pub kind: ErrorKind,
}

/// What a client is shown.
#[derive(Debug)]
pub struct UserFacingError {
    pub status: u16,
    pub message: String,
}

/// Mathematical value of an `AuthError`.
pub struct AuthErrorView {
    pub msg: Option<Seq<char>>,
    pub error_description: Option<Seq<char>>,
}

/// Mathematical value of a `PostgrestError`.
pub struct PostgrestErrorView {
    pub message: Seq<char>,
    pub code: Seq<char>,
}

/// Mathematical value of an `ErrorKind`.
pub enum ErrorKindView {
    Auth(AuthErrorView),
    Postgrest(PostgrestErrorView),
}

/// Mathematical value of a `SupabaseError`.
pub struct SupabaseErrorView {
    pub http_status: u16,
    pub kind: ErrorKindView,
}

impl View for SupabaseError {
    type V = SupabaseErrorView;

    open spec fn view(&self) -> SupabaseErrorView {
        SupabaseErrorView {
            http_status: self.http_status,
            kind: match self.kind {
                ErrorKind::Auth(a) => ErrorKindView::Auth(
                    AuthErrorView {
                        msg: match a.msg {
                            Some(m) => Some(m@),
                            None => None,
                        },
                        error_description: match a.error_description {
                            Some(d) => Some(d@),
                            None => None,
                        },
                    },
                ),
                ErrorKind::Postgrest(p) => ErrorKindView::Postgrest(
                    PostgrestErrorView { message: p.message@, code: p.code@ },
                ),
            },
        }
    }
}

/// The message a client may see for an authentication failure that is not
/// a server-side fault: the description if present, else the raw message,
/// else nothing.
pub open spec fn spec_auth_client_message(a: AuthError) -> Seq<char> {
    match a.error_description {
        Some(d) => d@,
        None => match a.msg {
            Some(m) => m@,
            None => Seq::<char>::empty(),
        },
    }
}

/// Whether a status indicates a server-side fault, whose detail must be
/// redacted.
pub open spec fn spec_is_server_fault(status: u16) -> bool {
    status > 499
}

/// Maps a provider error to what the client is shown, at the single
/// translation boundary.  The status is passed through; for a server-side
/// fault the message is a fixed notice (authentication side) or only the
/// error code (durable-store side), so no internal detail leaks.
pub fn map_err(e: SupabaseError) -> (r: UserFacingError)
    ensures
        r.status == e.http_status,
        match e.kind {
            ErrorKind::Auth(a) => if spec_is_server_fault(e.http_status) {
                r.message@ == " Oops! Something went wrong on our end."@
            } else {
                r.message@ == spec_auth_client_message(a)
            },
            ErrorKind::Postgrest(p) => if spec_is_server_fault(e.http_status) {
                r.message@ == p.code@
            } else {
                r.message@ == p.message@
            },
        },
{
    let status = e.http_status;
    let message = match e.kind {
        ErrorKind::Auth(a) => {
            if status > 499 {
                String::from_str(" Oops! Something went wrong on our end.")
            } else {
                match a.error_description {
                    Some(d) => d,
                    None => match a.msg {
                        Some(m) => m,
                        None => String::new(),
                    },
                }
            }
        },
        ErrorKind::Postgrest(p) => {
            if status > 499 {
                p.code
            } else {
                p.message
            }
        },
    };
    UserFacingError { status, message }
}

} // verus!
