//! Columns of the projects table.

use crate::dto::{ModelField, UnsupportedField};
use crate::text::same_text;
use vstd::prelude::*;

verus! {

/// A column of the projects table; `Table` stands for the table itself.
#[derive(Clone, Copy, Debug, PartialEq, Eq, Hash, Structural)]
pub enum Field {
    Table,
    Id,
    AccountId,
    Uuid,
    ShortId,
    Name,
    CreatedAt,
    UpdatedAt,
    Deleted,
    DeletedAt,
}

/// Every column of the table, in the order of the table's definition.
pub open spec fn all_fields() -> Seq<Field> {
    seq![
        Field::Id,
        Field::AccountId,
        Field::Uuid,
        Field::ShortId,
        Field::Name,
        Field::CreatedAt,
        Field::UpdatedAt,
        Field::Deleted,
        Field::DeletedAt,
    ]
}

/// The columns that an update may set.
pub open spec fn updatable_fields() -> Seq<Field> {
    seq![Field::Name, Field::AccountId]
}

impl Field {
    /// Every column of the table.
    pub fn all() -> (r: Vec<Field>)
        ensures
            r@ == all_fields(),
    {
        let mut r: Vec<Field> = Vec::new();
        r.push(Field::Id);
        r.push(Field::AccountId);
        r.push(Field::Uuid);
        r.push(Field::ShortId);
        r.push(Field::Name);
        r.push(Field::CreatedAt);
        r.push(Field::UpdatedAt);
        r.push(Field::Deleted);
        r.push(Field::DeletedAt);
        assert(r@ =~= all_fields());
        r
    }

    /// The columns that an update may set.
    pub fn updatable() -> (r: Vec<Field>)
        ensures
            r@ == updatable_fields(),
    {
        let mut r: Vec<Field> = Vec::new();
        r.push(Field::Name);
        r.push(Field::AccountId);
        assert(r@ =~= updatable_fields());
        r
    }

    /// Whether an update may set the column.
    pub fn is_updatable(&self) -> (r: bool)
        ensures
            r == updatable_fields().contains(*self),
    {
        let r = match self {
            Field::Name => true,
            Field::AccountId => true,
            _ => false,
        };
        proof {
            let u = updatable_fields();
            assert(u[0] == Field::Name);
            assert(u[1] == Field::AccountId);
        }
        r
    }
}

impl ModelField for Field {
    open spec fn column(&self) -> Seq<char> {
        match self {
            Field::Table => "projects"@,
            Field::Id => "id"@,
            Field::AccountId => "account_id"@,
            Field::Uuid => "uuid"@,
            Field::ShortId => "shortid"@,
            Field::Name => "name"@,
            Field::CreatedAt => "created_at"@,
            Field::UpdatedAt => "updated_at"@,
            Field::Deleted => "deleted"@,
            Field::DeletedAt => "deleted_at"@,
        }
    }

    open spec fn is_table(&self) -> bool {
        *self == Field::Table
    }

    fn as_ref(&self) -> (r: &'static str) {
        match self {
            Field::Table => "projects",
            Field::Id => "id",
            Field::AccountId => "account_id",
            Field::Uuid => "uuid",
            Field::ShortId => "shortid",
            Field::Name => "name",
            Field::CreatedAt => "created_at",
            Field::UpdatedAt => "updated_at",
            Field::Deleted => "deleted",
            Field::DeletedAt => "deleted_at",
        }
    }

    fn from_str(value: &str) -> (r: Result<Field, UnsupportedField>) {
        if same_text(value, "id") {
            Ok(Field::Id)
        } else if same_text(value, "account_id") {
            Ok(Field::AccountId)
        } else if same_text(value, "uuid") {
            Ok(Field::Uuid)
        } else if same_text(value, "shortid") {
            Ok(Field::ShortId)
        } else if same_text(value, "name") {
            Ok(Field::Name)
        } else if same_text(value, "created_at") {
            Ok(Field::CreatedAt)
        } else if same_text(value, "updated_at") {
            Ok(Field::UpdatedAt)
        } else if same_text(value, "deleted") {
            Ok(Field::Deleted)
        } else if same_text(value, "deleted_at") {
            Ok(Field::DeletedAt)
        } else {
            Err(UnsupportedField { entity: "Project".to_string(), value: value.to_string() })
        }
    }
}

} // verus!
