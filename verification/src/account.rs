//! One row of the account registry: the identifier that names the key-pair
//! files, and the committer name and email that go with it.

use vstd::prelude::*;

verus! {

/// One registry row. `key` is the filename stem of the account's key-pair
/// files; `name` and `email` are the committer identity. Duplicate keys are
/// kept as loaded: rows are told apart by their printed ordinal, not
/// deduplicated.
#[derive(Debug)]
pub struct Account {
    pub key: String,
    pub name: String,
    pub email: String,
}

impl View for Account {
    /// The row as plain character sequences, in file order:
    /// `(key, name, email)`.
    type V = (Seq<char>, Seq<char>, Seq<char>);

    open spec fn view(&self) -> Self::V {
        (self.key@, self.name@, self.email@)
    }
}

/// A loaded registry as plain values, one `(key, name, email)` triple per
/// row, in file order.
pub open spec fn registry_view(rows: Seq<Account>) -> Seq<(Seq<char>, Seq<char>, Seq<char>)> {
    rows.map_values(|a: Account| a@)
}

} // verus!
