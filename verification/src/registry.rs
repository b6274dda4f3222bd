//! Loading the account registry: a header-prefixed tabular text with the
//! three columns `key,name,email`. The parsing itself is done by the `csv`
//! crate on the file's bytes; everything around the call is verified.

use vstd::prelude::*;
use crate::account::{registry_view, Account};

verus! {

/// What the `csv` crate's reader makes of these bytes, read with a header
/// row into rows of exactly three text fields: `Some` rows on success,
/// `None` where any row fails to parse. The result depends on the bytes
/// alone.
pub uninterp spec fn csv_accounts_of(bytes: Seq<u8>) -> Option<
    Seq<(Seq<char>, Seq<char>, Seq<char>)>,
>;

/// A registry that could not be loaded; `message` carries the parser's own
/// diagnostic text.
#[derive(Debug)]
pub struct RegistryError {
    pub message: String,
}

impl RegistryError {
    /// Load failures end the run with a non-zero status.
    pub fn exit_code(&self) -> (c: u8)
        ensures
            c == 1,
    {
        1
    }
}

/// Relies on `csv::Reader::from_reader` and its `deserialize` iterator: with
/// the default header row, each further record is read positionally into
/// three owned strings, and any malformed or wrongly sized record yields an
/// error that aborts the whole load.
#[verifier::external_body]
fn read_accounts_csv(bytes: &[u8]) -> (r: Result<Vec<Account>, String>)
    ensures
        match r {
            Ok(rows) => csv_accounts_of(bytes@) == Some(registry_view(rows@)),
            Err(_) => csv_accounts_of(bytes@) is None,
        },
{
    let mut rdr = csv::Reader::from_reader(bytes);
    let mut rows: Vec<Account> = Vec::new();
    for result in rdr.deserialize() {
        match result {
            Ok(row) => {
                let (key, name, email): (String, String, String) = row;
                rows.push(Account { key, name, email });
            },
            Err(e) => return Err(e.to_string()),
        }
    }
    Ok(rows)
}

/// Parses the registry file's bytes into the ordered list of accounts.
/// All rows load, in file order, or the whole load fails: no partial
/// result.
pub fn load_registry(bytes: &[u8]) -> (r: Result<Vec<Account>, RegistryError>)
    ensures
        match r {
            Ok(rows) => csv_accounts_of(bytes@) == Some(registry_view(rows@)),
            Err(_) => csv_accounts_of(bytes@) is None,
        },
{
    match read_accounts_csv(bytes) {
        Ok(rows) => Ok(rows),
        Err(message) => Err(RegistryError { message }),
    }
}

} // verus!
