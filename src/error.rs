//! The error taxonomy of the API and its wire form.
use vstd::prelude::*;

verus! {

/// The store query whose failure is being reported.
#[derive(PartialEq, Eq, Structural, Clone, Copy, Debug)]
pub enum Query {
    AccountLookup,
    DeviceListing,
}

/// Failures that the API reports to its callers.
#[derive(PartialEq, Eq, Structural, Clone, Copy, Debug)]
pub enum ApiError {
    /// No account matches the presented credentials.
    InvalidCredentials,
    /// The store could not answer the query.
    PersistenceError(Query),
    /// A device with the same MAC address is already registered.
    DuplicateDevice,
    /// The device could not be created for another reason.
    CreateFailed,
}

/// The HTTP status with which an error is reported.
pub open spec fn status_of(e: ApiError) -> u16 {
    match e {
        ApiError::InvalidCredentials => 401,
        ApiError::PersistenceError(_) => 500,
        ApiError::DuplicateDevice => 400,
        ApiError::CreateFailed => 400,
    }
}

/// The machine-readable kind of an error.
pub open spec fn kind_of(e: ApiError) -> Seq<char> {
    match e {
        ApiError::InvalidCredentials => "INVALID_CREDENTIALS"@,
        ApiError::PersistenceError(_) => "DATABASE_ERROR"@,
        ApiError::DuplicateDevice => "CREATE_FAILED"@,
        ApiError::CreateFailed => "CREATE_FAILED"@,
    }
}

/// The human-readable text of an error.
pub open spec fn message_of(e: ApiError) -> Seq<char> {
    match e {
        ApiError::InvalidCredentials => "Email o contraseña incorrectos"@,
        ApiError::PersistenceError(Query::AccountLookup) => "Error al consultar la base de datos"@,
        ApiError::PersistenceError(Query::DeviceListing) => "Error al consultar dispositivos"@,
        ApiError::DuplicateDevice => "Esta dirección MAC ya está registrada"@,
        ApiError::CreateFailed => "Error al crear dispositivo"@,
    }
}

/// The uniform error body: `{error, message}`, sent with `status`.
pub struct ErrorEnvelope {
    pub status: u16,
    pub error: String,
    pub message: String,
}

/// Status of a successful read.
pub const STATUS_OK: u16 = 200;

/// Status of a successful creation.
pub const STATUS_CREATED: u16 = 201;

impl ApiError {
    /// The HTTP status with which this error is reported.
    pub fn status_code(&self) -> (r: u16)
        ensures
            r == status_of(*self),
    {
        match self {
            ApiError::InvalidCredentials => 401,
            ApiError::PersistenceError(_) => 500,
            ApiError::DuplicateDevice => 400,
            ApiError::CreateFailed => 400,
        }
    }

    /// The machine-readable kind, in upper snake case.
    pub fn kind(&self) -> (r: String)
        ensures
            r@ == kind_of(*self),
    {
        proof {
            reveal_strlit("INVALID_CREDENTIALS");
            reveal_strlit("DATABASE_ERROR");
            reveal_strlit("CREATE_FAILED");
        }
        match self {
            ApiError::InvalidCredentials => String::from_str("INVALID_CREDENTIALS"),
            ApiError::PersistenceError(_) => String::from_str("DATABASE_ERROR"),
            ApiError::DuplicateDevice => String::from_str("CREATE_FAILED"),
            ApiError::CreateFailed => String::from_str("CREATE_FAILED"),
        }
    }

    /// The human-readable message.
    pub fn message(&self) -> (r: String)
        ensures
            r@ == message_of(*self),
    {
        match self {
            ApiError::InvalidCredentials => String::from_str("Email o contraseña incorrectos"),
            ApiError::PersistenceError(Query::AccountLookup) => String::from_str(
                "Error al consultar la base de datos",
            ),
            ApiError::PersistenceError(Query::DeviceListing) => String::from_str(
                "Error al consultar dispositivos",
            ),
            ApiError::DuplicateDevice => String::from_str("Esta dirección MAC ya está registrada"),
            ApiError::CreateFailed => String::from_str("Error al crear dispositivo"),
        }
    }

    /// The status and body with which this error is sent.
    pub fn envelope(&self) -> (r: ErrorEnvelope)
        ensures
            r.status == status_of(*self),
            r.error@ == kind_of(*self),
            r.message@ == message_of(*self),
    {
        ErrorEnvelope { status: self.status_code(), error: self.kind(), message: self.message() }
    }
}

} // verus!
