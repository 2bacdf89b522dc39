use vstd::prelude::*;

verus! {

/// Errors surfaced by parsing, diffing and planning.
#[derive(Debug, Clone, PartialEq, Eq)]
pub enum RenovateError {
    /// The text does not parse as SQL; holds the offending text.
    Parse(String),
    /// The statement parsed, but is not of the kind that was asked for.
    KindMismatch(String),
    /// Two objects with different identities were compared.
    IdentityMismatch,
    /// A statement could not be rendered back to SQL; holds the reason.
    Render(String),
}

} // verus!
