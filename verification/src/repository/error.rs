//! What a repository operation reports when it cannot do its work.

use vstd::prelude::*;
use vstd::string::*;

verus! {

/// Code that the database gives to a violated uniqueness constraint.
pub open spec fn unique_violation_code() -> Seq<char> {
    "23505"@
}

/// Failure of a repository operation.
#[derive(Debug)]
pub enum RepositoryError {
    /// No row of `entity_type` is known under `id`.
    NotFound { entity_type: String, id: String },
    /// The caller may not do this.
    Forbidden,
    /// The store refused a statement; `code` is its error code, where it
    /// gave one.
    SqlQueryFailed { code: Option<String> },
    /// A background task did not run to its end.
    BackgroundTaskFailed,
}

impl RepositoryError {
    /// Error code of the store, for a refused statement that carries one.
    pub open spec fn code(self) -> Option<Seq<char>> {
        match self {
            RepositoryError::SqlQueryFailed { code: Some(c) } => Some(c@),
            _ => None,
        }
    }

    /// The error in words.
    pub open spec fn text(self) -> Seq<char> {
        match self {
            RepositoryError::NotFound { entity_type, id } => entity_type@ + " does not exist"@,
            RepositoryError::Forbidden => "permission denied"@,
            RepositoryError::SqlQueryFailed { code } => "SQL query failed"@,
            RepositoryError::BackgroundTaskFailed => "failed to execute background task"@,
        }
    }

    /// The error in words.
    pub fn to_string(&self) -> (r: String)
        ensures
            r@ == self.text(),
    {
        match self {
            RepositoryError::NotFound { entity_type, id } => {
                let mut r = entity_type.clone();
                r.append(" does not exist");
                r
            },
            RepositoryError::Forbidden => "permission denied".to_string(),
            RepositoryError::SqlQueryFailed { code } => "SQL query failed".to_string(),
            RepositoryError::BackgroundTaskFailed => "failed to execute background task".to_string(),
        }
    }

    /// The error of a statement that broke a uniqueness constraint.
    pub fn unique_constraint_violation() -> (e: RepositoryError)
        ensures
            e.code() == Some(unique_violation_code()),
    {
        RepositoryError::SqlQueryFailed { code: Some("23505".to_string()) }
    }

    /// Error code of the store, if the error carries one.
    pub fn database_error_code(&self) -> (r: Option<String>)
        ensures
            r is Some <==> self.code() is Some,
            r matches Some(c) ==> self.code() == Some(c@),
    {
        match self {
            RepositoryError::SqlQueryFailed { code: Some(c) } => Some(c.clone()),
            _ => None,
        }
    }

    /// Whether the store refused a statement because a unique key was
    /// already taken.
    pub fn is_unique_constraint_violation(&self) -> (r: bool)
        ensures
            r == (self.code() == Some(unique_violation_code())),
    {
        match self.database_error_code() {
            Some(code) => {
                let expected = "23505".to_string();
                code == expected
            },
            None => false,
        }
    }
}

} // verus!
