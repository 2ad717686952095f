//! The parsed `[command]` table of a configuration file, as the `toml` crate holds it.

use vstd::prelude::*;

verus! {

#[verifier::external_type_specification]
#[verifier::external_body]
pub struct ExTomlValue(toml::Value);

#[verifier::external_type_specification]
#[verifier::external_body]
#[verifier::reject_recursive_types(K)]
#[verifier::reject_recursive_types(V)]
pub struct ExTomlMap<K, V>(toml::map::Map<K, V>);

/// The entries of a table in its iteration order: each key, with the value's
/// text where the value is a TOML string and `None` for any other value.
pub uninterp spec fn table_entries(t: toml::map::Map<String, toml::Value>) -> Seq<(Seq<char>, Option<Seq<char>>)>;

/// Relies on `toml::map::Map::iter` (one pair per key, each key once) and
/// `toml::Value::as_str` (the text of a string value, `None` otherwise).
#[verifier::external_body]
pub(crate) fn entries_of(t: &toml::map::Map<String, toml::Value>) -> (r: Vec<(String, Option<String>)>)
    ensures
        r@.len() == table_entries(*t).len(),
        forall|i: int| 0 <= i < r@.len() ==> (#[trigger] r@[i]).0@ == table_entries(*t)[i].0 && crate::record::opt_view(r@[i].1) == table_entries(*t)[i].1,
{
    t.iter().map(|(k, v)| (k.clone(), v.as_str().map(|s| s.to_string()))).collect()
}

} // verus!
