use vstd::prelude::*;

verus! {

/// A struct that can be used as an element in a `TableList`.
///
/// Implement it on any struct that should be stored as a TOML array of tables
/// (`[[key]]`) and read from or shown as a JSON array; the two conversions are
/// usually one call each of `serde_json::from_str` and `serde_json::to_string`.
///
/// `spec_from_json_list` and `spec_to_json_list` say what the two conversions give. An
/// implementation checked by Verus defines them; where an implementation leaves them to
/// their defaults, they are left unspecified, and the conversions' contracts are the
/// implementer's promise, which nothing here checks.
pub trait ConfigTable: Sized + Clone + Default + PartialEq {
    /// What reading `input` as a JSON array of tables gives: the tables, or the reader's
    /// message.
    closed spec fn spec_from_json_list(input: Seq<char>) -> Result<Seq<Self>, Seq<char>> {
        arbitrary()
    }

    /// What writing `values` as a JSON array gives: its text, or `None` when they cannot be
    /// written.
    closed spec fn spec_to_json_list(values: Seq<Self>) -> Option<Seq<char>> {
        arbitrary()
    }

    /// Reads a JSON array of tables; the error is the reader's message.
    fn from_json_list(input: &str) -> (r: Result<Vec<Self>, String>)
        ensures
            match Self::spec_from_json_list(input@) {
                Ok(v) => r matches Ok(x) && x@ == v,
                Err(m) => r matches Err(e) && e@ == m,
            },
    ;

    /// Writes tables as a JSON array, or `None` when they cannot be written.
    fn to_json_list(values: &[Self]) -> (r: Option<String>)
        ensures
            match Self::spec_to_json_list(values@) {
                Some(s) => r matches Some(x) && x@ == s,
                None => r is None,
            },
    ;
}

} // verus!
