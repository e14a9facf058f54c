use vstd::prelude::*;

verus! {

/// The closed set of failures that the store client reports.
#[derive(Debug)]
pub enum VssError {
    ConnectionError { error_details: String },
    AuthError { error_details: String },
    StoreError { error_details: String },
    GetError { error_details: String },
    ListError { error_details: String },
    PutError { error_details: String },
    DeleteError { error_details: String },
    InvalidData { error_details: String },
    NetworkError { error_details: String },
    UnknownError { error_details: String },
}

impl VssError {
    /// The detail text that every variant carries.
    pub open spec fn details(self) -> Seq<char> {
        match self {
            VssError::ConnectionError { error_details } => error_details@,
            VssError::AuthError { error_details } => error_details@,
            VssError::StoreError { error_details } => error_details@,
            VssError::GetError { error_details } => error_details@,
            VssError::ListError { error_details } => error_details@,
            VssError::PutError { error_details } => error_details@,
            VssError::DeleteError { error_details } => error_details@,
            VssError::InvalidData { error_details } => error_details@,
            VssError::NetworkError { error_details } => error_details@,
            VssError::UnknownError { error_details } => error_details@,
        }
    }

    /// The human-readable heading of each variant.
    pub open spec fn heading(self) -> Seq<char> {
        match self {
            VssError::ConnectionError { .. } => "Connection error: "@,
            VssError::AuthError { .. } => "Authentication error: "@,
            VssError::StoreError { .. } => "Store error: "@,
            VssError::GetError { .. } => "Get error: "@,
            VssError::ListError { .. } => "List error: "@,
            VssError::PutError { .. } => "Put error: "@,
            VssError::DeleteError { .. } => "Delete error: "@,
            VssError::InvalidData { .. } => "Invalid data: "@,
            VssError::NetworkError { .. } => "Network error: "@,
            VssError::UnknownError { .. } => "Unknown error: "@,
        }
    }

    /// The message shown to users: the variant's heading followed by its details.
    pub fn message(&self) -> (r: String)
        ensures
            r@ == self.heading() + self.details(),
    {
        let (heading, details) = match self {
            VssError::ConnectionError { error_details } => ("Connection error: ", error_details),
            VssError::AuthError { error_details } => ("Authentication error: ", error_details),
            VssError::StoreError { error_details } => ("Store error: ", error_details),
            VssError::GetError { error_details } => ("Get error: ", error_details),
            VssError::ListError { error_details } => ("List error: ", error_details),
            VssError::PutError { error_details } => ("Put error: ", error_details),
            VssError::DeleteError { error_details } => ("Delete error: ", error_details),
            VssError::InvalidData { error_details } => ("Invalid data: ", error_details),
            VssError::NetworkError { error_details } => ("Network error: ", error_details),
            VssError::UnknownError { error_details } => ("Unknown error: ", error_details),
        };
        String::from_str(heading).concat(details.as_str())
    }
}

/// The failure classes that the remote store protocol distinguishes.
#[derive(PartialEq, Eq, Structural, Clone, Copy, Debug)]
pub enum RemoteErrorKind {
    NoSuchKey,
    InvalidRequest,
    Conflict,
    Auth,
    InternalServer,
    Internal,
}

/// A failure reported by the remote store (or by the transport on its way there),
/// with the message that came with it.
#[derive(Debug)]
pub enum RemoteError {
    NoSuchKey(String),
    InvalidRequest(String),
    Conflict(String),
    Auth(String),
    InternalServer(String),
    Internal(String),
}

impl RemoteError {
    pub open spec fn spec_kind(&self) -> RemoteErrorKind {
        match self {
            RemoteError::NoSuchKey(_) => RemoteErrorKind::NoSuchKey,
            RemoteError::InvalidRequest(_) => RemoteErrorKind::InvalidRequest,
            RemoteError::Conflict(_) => RemoteErrorKind::Conflict,
            RemoteError::Auth(_) => RemoteErrorKind::Auth,
            RemoteError::InternalServer(_) => RemoteErrorKind::InternalServer,
            RemoteError::Internal(_) => RemoteErrorKind::Internal,
        }
    }

    pub open spec fn text(&self) -> Seq<char> {
        match self {
            RemoteError::NoSuchKey(m) => m@,
            RemoteError::InvalidRequest(m) => m@,
            RemoteError::Conflict(m) => m@,
            RemoteError::Auth(m) => m@,
            RemoteError::InternalServer(m) => m@,
            RemoteError::Internal(m) => m@,
        }
    }

    /// The failure class of this error.
    #[verifier::when_used_as_spec(spec_kind)]
    pub fn kind(&self) -> (r: RemoteErrorKind)
        ensures
            r == self.spec_kind(),
    {
        match self {
            RemoteError::NoSuchKey(_) => RemoteErrorKind::NoSuchKey,
            RemoteError::InvalidRequest(_) => RemoteErrorKind::InvalidRequest,
            RemoteError::Conflict(_) => RemoteErrorKind::Conflict,
            RemoteError::Auth(_) => RemoteErrorKind::Auth,
            RemoteError::InternalServer(_) => RemoteErrorKind::InternalServer,
            RemoteError::Internal(_) => RemoteErrorKind::Internal,
        }
    }
}

/// The taxonomy error that a remote error maps to: one target per remote class.
pub open spec fn converts_to(e: RemoteError, r: VssError) -> bool {
    match e {
        RemoteError::NoSuchKey(m) => r is GetError && r.details() == "Not found: "@ + m@,
        RemoteError::InternalServer(m) => r is NetworkError && r.details() == m@,
        RemoteError::InvalidRequest(m) => r is InvalidData && r.details() == m@,
        RemoteError::Internal(m) => r is UnknownError && r.details() == m@,
        RemoteError::Conflict(m) => r is StoreError && r.details() == "Conflict: "@ + m@,
        RemoteError::Auth(m) => r is AuthError && r.details() == m@,
    }
}

/// Maps a remote error into the client's taxonomy.
pub fn convert_error(error: RemoteError) -> (r: VssError)
    ensures
        converts_to(error, r),
{
    match error {
        RemoteError::NoSuchKey(m) => VssError::GetError {
            error_details: String::from_str("Not found: ").concat(m.as_str()),
        },
        RemoteError::InternalServer(m) => VssError::NetworkError { error_details: m },
        RemoteError::InvalidRequest(m) => VssError::InvalidData { error_details: m },
        RemoteError::Internal(m) => VssError::UnknownError { error_details: m },
        RemoteError::Conflict(m) => VssError::StoreError {
            error_details: String::from_str("Conflict: ").concat(m.as_str()),
        },
        RemoteError::Auth(m) => VssError::AuthError { error_details: m },
    }
}

} // verus!
