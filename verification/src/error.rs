//! What the control surface answers when it refuses a request.

use crate::text::join_text;
use vstd::prelude::*;

verus! {

/// The kinds of failure, each with the status the HTTP boundary gives it.
#[derive(Clone, Copy, Debug, PartialEq, Eq, Structural)]
pub enum ErrorKind {
    AuthMissing,
    AuthInvalid,
    Forbidden,
    NotFound,
    DomainConflict,
    RobotUnavailable,
    Upstream,
}

/// The HTTP status of each kind. A domain conflict answers 200 with an error
/// body, which existing clients rely on.
pub open spec fn status_of(kind: ErrorKind) -> u16 {
    match kind {
        ErrorKind::AuthMissing => 401,
        ErrorKind::AuthInvalid => 401,
        ErrorKind::Forbidden => 403,
        ErrorKind::NotFound => 404,
        ErrorKind::DomainConflict => 200,
        ErrorKind::RobotUnavailable => 503,
        ErrorKind::Upstream => 500,
    }
}

impl ErrorKind {
    pub fn status_code(&self) -> (code: u16)
        ensures
            code == status_of(*self),
    {
        match self {
            ErrorKind::AuthMissing => 401,
            ErrorKind::AuthInvalid => 401,
            ErrorKind::Forbidden => 403,
            ErrorKind::NotFound => 404,
            ErrorKind::DomainConflict => 200,
            ErrorKind::RobotUnavailable => 503,
            ErrorKind::Upstream => 500,
        }
    }
}

/// A refusal by the control core.
#[derive(Debug, PartialEq, Eq)]
pub enum ControlError {
    /// The robot's request carried no API key.
    MissingApiKey,
    /// The robot's request carried a wrong API key.
    InvalidApiKey,
    /// The caller's role is below what the operation needs.
    Forbidden,
    /// No queued route has the given id.
    NotFound,
    /// A route was selected while someone holds the manual-drive lock.
    Locked,
    /// The lock was asked for while an automated route is active.
    RouteActive,
    /// The lock is held by someone else.
    HeldBy { holder_name: String },
    /// The token's subject is no user id.
    InvalidUserId,
    /// The caller asked to release a lock that they do not hold.
    NotHolder,
}

pub enum ControlErrorView {
    MissingApiKey,
    InvalidApiKey,
    Forbidden,
    NotFound,
    Locked,
    RouteActive,
    HeldBy { holder_name: Seq<char> },
    InvalidUserId,
    NotHolder,
}

impl View for ControlError {
    type V = ControlErrorView;

    open spec fn view(&self) -> ControlErrorView {
        match *self {
            ControlError::MissingApiKey => ControlErrorView::MissingApiKey,
            ControlError::InvalidApiKey => ControlErrorView::InvalidApiKey,
            ControlError::Forbidden => ControlErrorView::Forbidden,
            ControlError::NotFound => ControlErrorView::NotFound,
            ControlError::Locked => ControlErrorView::Locked,
            ControlError::RouteActive => ControlErrorView::RouteActive,
            ControlError::HeldBy { holder_name } => ControlErrorView::HeldBy {
                holder_name: holder_name@,
            },
            ControlError::InvalidUserId => ControlErrorView::InvalidUserId,
            ControlError::NotHolder => ControlErrorView::NotHolder,
        }
    }
}

impl ControlErrorView {
    pub open spec fn kind(self) -> ErrorKind {
        match self {
            ControlErrorView::MissingApiKey => ErrorKind::AuthMissing,
            ControlErrorView::InvalidApiKey => ErrorKind::AuthInvalid,
            ControlErrorView::Forbidden => ErrorKind::Forbidden,
            ControlErrorView::NotFound => ErrorKind::NotFound,
            ControlErrorView::Locked => ErrorKind::DomainConflict,
            ControlErrorView::RouteActive => ErrorKind::DomainConflict,
            ControlErrorView::HeldBy { .. } => ErrorKind::DomainConflict,
            ControlErrorView::InvalidUserId => ErrorKind::DomainConflict,
            ControlErrorView::NotHolder => ErrorKind::DomainConflict,
        }
    }

    /// The text of the error body; a bare status has none.
    pub open spec fn message(self) -> Option<Seq<char>> {
        match self {
            ControlErrorView::MissingApiKey => Some("Invalid API Key"@),
            ControlErrorView::InvalidApiKey => Some("Invalid API Key"@),
            ControlErrorView::Forbidden => None,
            ControlErrorView::NotFound => None,
            ControlErrorView::Locked => Some("Robot is manually locked"@),
            ControlErrorView::RouteActive => Some(
                "Cannot acquire lock while automated route is active"@,
            ),
            ControlErrorView::HeldBy { holder_name } => Some("Lock held by "@ + holder_name),
            ControlErrorView::InvalidUserId => Some("Invalid User ID"@),
            ControlErrorView::NotHolder => Some("You do not hold the lock"@),
        }
    }
}

/// The view of an optional text.
pub open spec fn message_view(m: Option<String>) -> Option<Seq<char>> {
    match m {
        Some(s) => Some(s@),
        None => None,
    }
}

impl ControlError {
    pub fn kind(&self) -> (k: ErrorKind)
        ensures
            k == self@.kind(),
    {
        match self {
            ControlError::MissingApiKey => ErrorKind::AuthMissing,
            ControlError::InvalidApiKey => ErrorKind::AuthInvalid,
            ControlError::Forbidden => ErrorKind::Forbidden,
            ControlError::NotFound => ErrorKind::NotFound,
            ControlError::Locked => ErrorKind::DomainConflict,
            ControlError::RouteActive => ErrorKind::DomainConflict,
            ControlError::HeldBy { .. } => ErrorKind::DomainConflict,
            ControlError::InvalidUserId => ErrorKind::DomainConflict,
            ControlError::NotHolder => ErrorKind::DomainConflict,
        }
    }

    pub fn status_code(&self) -> (code: u16)
        ensures
            code == status_of(self@.kind()),
    {
        self.kind().status_code()
    }

    pub fn message(&self) -> (m: Option<String>)
        ensures
            message_view(m) == self@.message(),
    {
        match self {
            ControlError::MissingApiKey => Some("Invalid API Key".to_owned()),
            ControlError::InvalidApiKey => Some("Invalid API Key".to_owned()),
            ControlError::Forbidden => None,
            ControlError::NotFound => None,
            ControlError::Locked => Some("Robot is manually locked".to_owned()),
            ControlError::RouteActive => Some(
                "Cannot acquire lock while automated route is active".to_owned(),
            ),
            ControlError::HeldBy { holder_name } => Some(
                join_text("Lock held by ", holder_name.as_str()),
            ),
            ControlError::InvalidUserId => Some("Invalid User ID".to_owned()),
            ControlError::NotHolder => Some("You do not hold the lock".to_owned()),
        }
    }
}

} // verus!
