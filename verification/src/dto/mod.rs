//! Column sets of the tables, for reads and updates that name the columns
//! they touch.

pub mod account;
pub mod check;
pub mod project;

use vstd::prelude::*;

verus! {

/// A column of a table: it has a name, and it can be found by that name.
pub trait ModelField: Sized {
    /// Name of the column in the store. For the variant that stands for
    /// the table itself, the name of the table.
    spec fn column(&self) -> Seq<char>;

    /// The variant stands for the table, not for a column.
    spec fn is_table(&self) -> bool;

    /// Name of the column in the store.
    fn as_ref(&self) -> (r: &'static str)
        ensures
            r@ == self.column(),
    ;

    /// The column called `value`, if the table has one.
    fn from_str(value: &str) -> (r: Result<Self, UnsupportedField>)
        ensures
            r matches Ok(f) ==> !f.is_table() && f.column() == value@,
            r matches Err(e) ==> e.value@ == value@ && forall|f: Self| !f.is_table() ==> f.column() != value@,
    ;
}

/// A name that is no column of the table it was looked up in.
#[derive(Debug)]
pub struct UnsupportedField {
    /// What the rows of the table are called in messages.
    pub entity: String,
    /// The name that was looked up.
    pub value: String,
}

impl UnsupportedField {
    /// The message: which name is not supported, and for which table.
    pub fn to_string(&self) -> (r: String)
        ensures
            r@ == "unsupported "@ + self.entity@ + " variant '"@ + self.value@ + "'"@,
    {
        let mut r = "unsupported ".to_string();
        r.append(self.entity.as_str());
        r.append(" variant '");
        r.append(self.value.as_str());
        r.append("'");
        r
    }
}

} // verus!
