//! The one failure mode of generation: a field name that cannot become a
//! usable identifier, or two field names that become the same one.

use vstd::prelude::*;

verus! {

/// An error raised while deriving identifiers for an operation's fields.
///
/// Both variants carry the offending field name, so a diagnosis can point at
/// the schema entry that must change.  Generation for the affected operation
/// stops before any text is emitted; other operations are unaffected.
#[derive(Debug)]
pub enum Error {
    /// The field name contains nothing that survives case normalization, so
    /// no identifier can be derived from it.
    InvalidName { name: String },
    /// Two required fields of one operation sanitize to the same identifier,
    /// which would make the generated type-state slots ambiguous.
    NameCollision { name: String },
}

impl Error {
    /// The field name that the error reports.
    pub fn field_name(&self) -> (r: &String)
        ensures
            *self matches Error::InvalidName { name } ==> r@ == name@,
            *self matches Error::NameCollision { name } ==> r@ == name@,
    {
        match self {
            Error::InvalidName { name } => name,
            Error::NameCollision { name } => name,
        }
    }
}

} // verus!
