//! The failure taxonomy shared by every operation, and its mapping to the
//! status code and message that cross the service boundary.

use vstd::prelude::*;
use vstd::string::*;

verus! {

/// The class of a failure. Each class maps to exactly one status code.
#[derive(Clone, Copy, Debug, PartialEq, Eq, Structural)]
pub enum ErrorKind {
    Database,
    Validation,
    Authentication,
    Authorization,
    NotFound,
    BadRequest,
    Internal,
}

/// A typed failure: its class and a human-readable detail.
#[derive(Clone, Debug)]
pub enum AppError {
    Database(String),
    Validation(String),
    Authentication(String),
    Authorization(String),
    NotFound(String),
    BadRequest(String),
    Internal(String),
}

pub type AppResult<T> = Result<T, AppError>;

/// Mathematical value of an [`AppError`].
pub ghost struct AppErrorView {
    pub kind: ErrorKind,
    pub detail: Seq<char>,
}

/// What the boundary layer serialises for a failure.
#[derive(Clone, Debug)]
pub struct ErrorBody {
    pub error: String,
    pub status: u16,
}

/// Status code of each failure class.
pub open spec fn status_of(kind: ErrorKind) -> int {
    match kind {
        ErrorKind::Database => 500,
        ErrorKind::Validation => 400,
        ErrorKind::Authentication => 401,
        ErrorKind::Authorization => 403,
        ErrorKind::NotFound => 404,
        ErrorKind::BadRequest => 400,
        ErrorKind::Internal => 500,
    }
}

/// The fixed text shown in place of any store-layer detail.
pub open spec fn database_notice() -> Seq<char> {
    "Database error occurred"@
}

/// The fixed text shown in place of the detail of any other internal
/// failure.
pub open spec fn internal_notice() -> Seq<char> {
    "Internal server error"@
}

/// Whether a failure class is the service's own fault: the two classes
/// answered with status 500.
pub open spec fn is_server_fault(kind: ErrorKind) -> bool {
    kind == ErrorKind::Database || kind == ErrorKind::Internal
}

/// Message exposed to the client. A failure that is the service's own
/// fault shows a fixed notice: its detail, which may quote the store or a
/// library, never crosses the boundary. Every other failure shows its
/// detail.
pub open spec fn public_message(e: AppErrorView) -> Seq<char> {
    match e.kind {
        ErrorKind::Database => database_notice(),
        ErrorKind::Internal => internal_notice(),
        _ => e.detail,
    }
}

/// No internal detail crosses the boundary: a failure answered with status
/// 500 shows the same message whatever its detail holds, and every failure
/// that is the service's own fault is answered with status 500.
pub proof fn lemma_server_fault_detail_stays_inside(
    kind: ErrorKind,
    one: Seq<char>,
    other: Seq<char>,
)
    requires
        status_of(kind) == 500,
    ensures
        is_server_fault(kind),
        public_message(AppErrorView { kind, detail: one }) == public_message(
            AppErrorView { kind, detail: other },
        ),
{
}

/// Prefix that introduces the detail in the descriptive text of a failure.
pub open spec fn kind_prefix(kind: ErrorKind) -> Seq<char> {
    match kind {
        ErrorKind::Database => "Database error: "@,
        ErrorKind::Validation => "Validation error: "@,
        ErrorKind::Authentication => "Authentication error: "@,
        ErrorKind::Authorization => "Authorization error: "@,
        ErrorKind::NotFound => "Not found: "@,
        ErrorKind::BadRequest => "Bad request: "@,
        ErrorKind::Internal => "Internal server error: "@,
    }
}

impl View for AppError {
    type V = AppErrorView;

    open spec fn view(&self) -> AppErrorView {
        match self {
            AppError::Database(m) => AppErrorView { kind: ErrorKind::Database, detail: m@ },
            AppError::Validation(m) => AppErrorView { kind: ErrorKind::Validation, detail: m@ },
            AppError::Authentication(m) => AppErrorView {
                kind: ErrorKind::Authentication,
                detail: m@,
            },
            AppError::Authorization(m) => AppErrorView {
                kind: ErrorKind::Authorization,
                detail: m@,
            },
            AppError::NotFound(m) => AppErrorView { kind: ErrorKind::NotFound, detail: m@ },
            AppError::BadRequest(m) => AppErrorView { kind: ErrorKind::BadRequest, detail: m@ },
            AppError::Internal(m) => AppErrorView { kind: ErrorKind::Internal, detail: m@ },
        }
    }
}

impl ErrorKind {
    /// The HTTP status code this class is reported with.
    pub fn status_code(self) -> (code: u16)
        ensures
            code == status_of(self),
    {
        match self {
            ErrorKind::Database => 500,
            ErrorKind::Validation => 400,
            ErrorKind::Authentication => 401,
            ErrorKind::Authorization => 403,
            ErrorKind::NotFound => 404,
            ErrorKind::BadRequest => 400,
            ErrorKind::Internal => 500,
        }
    }

    /// Text that precedes the detail in [`AppError::describe`].
    pub fn prefix(self) -> (p: &'static str)
        ensures
            p@ == kind_prefix(self),
    {
        match self {
            ErrorKind::Database => "Database error: ",
            ErrorKind::Validation => "Validation error: ",
            ErrorKind::Authentication => "Authentication error: ",
            ErrorKind::Authorization => "Authorization error: ",
            ErrorKind::NotFound => "Not found: ",
            ErrorKind::BadRequest => "Bad request: ",
            ErrorKind::Internal => "Internal server error: ",
        }
    }
}

impl AppError {
    /// The class of this failure.
    pub fn kind(&self) -> (k: ErrorKind)
        ensures
            k == self@.kind,
    {
        match self {
            AppError::Database(_) => ErrorKind::Database,
            AppError::Validation(_) => ErrorKind::Validation,
            AppError::Authentication(_) => ErrorKind::Authentication,
            AppError::Authorization(_) => ErrorKind::Authorization,
            AppError::NotFound(_) => ErrorKind::NotFound,
            AppError::BadRequest(_) => ErrorKind::BadRequest,
            AppError::Internal(_) => ErrorKind::Internal,
        }
    }

    /// The detail this failure was raised with.
    pub fn detail(&self) -> (d: &String)
        ensures
            d@ == self@.detail,
    {
        match self {
            AppError::Database(m) => m,
            AppError::Validation(m) => m,
            AppError::Authentication(m) => m,
            AppError::Authorization(m) => m,
            AppError::NotFound(m) => m,
            AppError::BadRequest(m) => m,
            AppError::Internal(m) => m,
        }
    }

    /// The HTTP status code this failure is reported with.
    pub fn status_code(&self) -> (code: u16)
        ensures
            code == status_of(self@.kind),
    {
        self.kind().status_code()
    }

    /// The message exposed to the client: a fixed notice for a failure that
    /// is the service's own fault, the detail for every other.
    pub fn error_message(&self) -> (m: String)
        ensures
            m@ == public_message(self@),
    {
        match self {
            AppError::Database(_) => String::from_str("Database error occurred"),
            AppError::Internal(_) => String::from_str("Internal server error"),
            _ => self.detail().clone(),
        }
    }

    /// Class prefix followed by the detail.
    pub fn describe(&self) -> (text: String)
        ensures
            text@ == kind_prefix(self@.kind) + self@.detail,
    {
        let mut text = String::from_str(self.kind().prefix());
        text.append(self.detail().as_str());
        text
    }

    /// The body and status the boundary answers with. For the two classes
    /// answered with status 500 the body holds a fixed notice and nothing of
    /// the detail; for the other four it holds the detail.
    pub fn error_response(&self) -> (body: ErrorBody)
        ensures
            body.error@ == public_message(self@),
            body.status == status_of(self@.kind),
            self@.kind == ErrorKind::Database ==> body.error@ == database_notice(),
            self@.kind == ErrorKind::Internal ==> body.error@ == internal_notice(),
            !is_server_fault(self@.kind) ==> body.error@ == self@.detail,
    {
        ErrorBody { error: self.error_message(), status: self.status_code() }
    }

    /// An independent copy of this failure.
    pub fn duplicate(&self) -> (copy: AppError)
        ensures
            copy@ == self@,
    {
        match self {
            AppError::Database(m) => AppError::Database(m.clone()),
            AppError::Validation(m) => AppError::Validation(m.clone()),
            AppError::Authentication(m) => AppError::Authentication(m.clone()),
            AppError::Authorization(m) => AppError::Authorization(m.clone()),
            AppError::NotFound(m) => AppError::NotFound(m.clone()),
            AppError::BadRequest(m) => AppError::BadRequest(m.clone()),
            AppError::Internal(m) => AppError::Internal(m.clone()),
        }
    }
}

} // verus!
