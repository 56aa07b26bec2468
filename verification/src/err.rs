//! Errors the engine surfaces to the user through the modal overlay.

use vstd::prelude::*;

verus! {

use vstd::string::StringExecFns;

/// The error kinds shown in the overlay.
#[derive(Debug)]
pub enum UiError {
    /// Opening a connection pool failed.
    ConnectionFailed(String),
    /// The driver rejected a statement.
    QueryFailed(String),
    /// A cell value could not be rendered; carries column name and its
    /// declared type.
    UnsupportedColumnType { column: String, declared_type: String },
    /// The configuration could not be used.
    ConfigError(String),
}

impl UiError {
    /// The text the overlay shows.
    pub fn message(&self) -> (r: String)
        ensures
            match self {
                UiError::ConnectionFailed(m) => r@ == "connection failed: "@ + m@,
                UiError::QueryFailed(m) => r@ == "query failed: "@ + m@,
                UiError::UnsupportedColumnType { column, declared_type } => r@
                    == "column type not implemented: `"@ + column@ + "` "@ + declared_type@,
                UiError::ConfigError(m) => r@ == "config error: "@ + m@,
            },
    {
        match self {
            UiError::ConnectionFailed(m) => String::from_str("connection failed: ").concat(
                m.as_str(),
            ),
            UiError::QueryFailed(m) => String::from_str("query failed: ").concat(m.as_str()),
            UiError::UnsupportedColumnType { column, declared_type } => String::from_str(
                "column type not implemented: `",
            ).concat(column.as_str()).concat("` ").concat(declared_type.as_str()),
            UiError::ConfigError(m) => String::from_str("config error: ").concat(m.as_str()),
        }
    }
}

impl Clone for UiError {
    fn clone(&self) -> (r: UiError)
        ensures
            match (self, &r) {
                (UiError::ConnectionFailed(a), UiError::ConnectionFailed(b)) => a@ == b@,
                (UiError::QueryFailed(a), UiError::QueryFailed(b)) => a@ == b@,
                (
                    UiError::UnsupportedColumnType { column: a, declared_type: at },
                    UiError::UnsupportedColumnType { column: b, declared_type: bt },
                ) => a@ == b@ && at@ == bt@,
                (UiError::ConfigError(a), UiError::ConfigError(b)) => a@ == b@,
                _ => false,
            },
    {
        match self {
            UiError::ConnectionFailed(m) => UiError::ConnectionFailed(m.clone()),
            UiError::QueryFailed(m) => UiError::QueryFailed(m.clone()),
            UiError::UnsupportedColumnType { column, declared_type } => {
                UiError::UnsupportedColumnType {
                    column: column.clone(),
                    declared_type: declared_type.clone(),
                }
            },
            UiError::ConfigError(m) => UiError::ConfigError(m.clone()),
        }
    }
}

} // verus!
