//! Classification of the messages a controller reports with a failure.

use vstd::prelude::*;

verus! {

/// A failure reported by the controller.
#[derive(Debug, Clone, PartialEq, Eq)]
pub enum UnifiApiErrorCode {
    /// The controller asks for a new session.
    LoginRequired,
    /// Any other message, kept as the controller sent it.
    Unknown(String),
}

/// The mathematical value of a [`UnifiApiErrorCode`].
pub enum ErrorCodeView {
    LoginRequired,
    Unknown(Seq<char>),
}

impl View for UnifiApiErrorCode {
    type V = ErrorCodeView;

    open spec fn view(&self) -> ErrorCodeView {
        match self {
            UnifiApiErrorCode::LoginRequired => ErrorCodeView::LoginRequired,
            UnifiApiErrorCode::Unknown(msg) => ErrorCodeView::Unknown(msg@),
        }
    }
}

/// The message by which the controller says that the session is missing or
/// has expired.
pub open spec fn login_required_sentinel() -> Seq<char> {
    "api.err.LoginRequired"@
}

/// How a controller message is classified: the sentinel means that a login
/// is required, every other text is kept unchanged.
pub open spec fn classify(msg: Seq<char>) -> ErrorCodeView {
    if msg == login_required_sentinel() {
        ErrorCodeView::LoginRequired
    } else {
        ErrorCodeView::Unknown(msg)
    }
}

/// The text of a failure: a fixed one where a login is required, else the
/// controller's message as it came.
pub open spec fn error_message(code: ErrorCodeView) -> Seq<char> {
    match code {
        ErrorCodeView::LoginRequired => "login required"@,
        ErrorCodeView::Unknown(msg) => msg,
    }
}

impl UnifiApiErrorCode {
    /// The failure as a line for the user.
    pub fn message(&self) -> (text: String)
        ensures
            text@ == error_message(self@),
    {
        match self {
            UnifiApiErrorCode::LoginRequired => "login required".to_owned(),
            UnifiApiErrorCode::Unknown(msg) => msg.clone(),
        }
    }

    /// Classifies a message of the controller.
    pub fn from(value: String) -> (code: UnifiApiErrorCode)
        ensures
            code@ == classify(value@),
    {
        let sentinel: String = "api.err.LoginRequired".to_owned();
        if value == sentinel {
            UnifiApiErrorCode::LoginRequired
        } else {
            UnifiApiErrorCode::Unknown(value)
        }
    }
}

} // verus!
