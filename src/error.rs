use vstd::prelude::*;

verus! {

/// A failure reported by the storage backend, sorted into what the store tells apart.
#[derive(Debug, Clone)]
pub enum StorageError {
    /// A lookup matched no row.
    RowNotFound,
    /// An insert broke the uniqueness of the alias.
    UniqueViolation,
    /// Any other fault of the backend, with its description.
    Other(String),
}

/// The outcomes of a store operation other than success.
#[derive(Debug, Clone)]
pub enum DbServiceError {
    /// No record has the alias.
    NotFoundError,
    /// A record with the alias exists already.
    ConflictError,
    /// The named field broke the listed rules.
    PayloadValidationError(String, Vec<String>),
    /// The backend failed.
    DatabaseError(String),
}

pub const NOT_FOUND_TEXT: &'static str = "Resource not found";

pub const CONFLICT_TEXT: &'static str = "Resource already exists";

pub const VALIDATION_TEXT: &'static str = "Validation failed on ";

pub const DATABASE_TEXT: &'static str = "Database error: ";

/// The kind of store error that a backend failure stands for.
pub open spec fn error_of(e: StorageError) -> DbServiceError {
    match e {
        StorageError::RowNotFound => DbServiceError::NotFoundError,
        StorageError::UniqueViolation => DbServiceError::ConflictError,
        StorageError::Other(m) => DbServiceError::DatabaseError(m),
    }
}

impl From<StorageError> for DbServiceError {
    fn from(e: StorageError) -> (r: Self) {
        match e {
            StorageError::RowNotFound => DbServiceError::NotFoundError,
            StorageError::UniqueViolation => DbServiceError::ConflictError,
            StorageError::Other(m) => DbServiceError::DatabaseError(m),
        }
    }
}

impl vstd::std_specs::convert::FromSpecImpl<StorageError> for DbServiceError {
    open spec fn obeys_from_spec() -> bool {
        true
    }

    open spec fn from_spec(e: StorageError) -> DbServiceError {
        error_of(e)
    }
}

impl DbServiceError {
    /// The text that describes the error to a person.
    pub open spec fn text(&self) -> Seq<char> {
        match self {
            DbServiceError::NotFoundError => NOT_FOUND_TEXT@,
            DbServiceError::ConflictError => CONFLICT_TEXT@,
            DbServiceError::PayloadValidationError(field, _) => VALIDATION_TEXT@ + field@,
            DbServiceError::DatabaseError(m) => DATABASE_TEXT@ + m@,
        }
    }

    /// Describes the error in words.
    pub fn message(&self) -> (r: String)
        ensures
            r@ == self.text(),
    {
        match self {
            DbServiceError::NotFoundError => String::from_str(NOT_FOUND_TEXT),
            DbServiceError::ConflictError => String::from_str(CONFLICT_TEXT),
            DbServiceError::PayloadValidationError(field, _) => {
                let mut s = String::from_str(VALIDATION_TEXT);
                s.append(field.as_str());
                s
            },
            DbServiceError::DatabaseError(m) => {
                let mut s = String::from_str(DATABASE_TEXT);
                s.append(m.as_str());
                s
            },
        }
    }
}

} // verus!
