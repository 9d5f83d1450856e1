//! Field validation: length bounds, counted in characters.

use vstd::prelude::*;

verus! {

/// The fields of a value that failed validation, by name, in the order in
/// which the value declares them.
#[derive(Clone, Debug, PartialEq, Eq)]
pub struct ValidationErrors {
    pub fields: Vec<String>,
}

impl ValidationErrors {
    /// The names of the failed fields.
    pub open spec fn names(self) -> Seq<Seq<char>> {
        self.fields@.map_values(|f: String| f@)
    }
}

/// Whether `len` lies within the optional bounds `min` and `max`.
pub open spec fn within(len: nat, min: Option<u64>, max: Option<u64>) -> bool {
    &&& (min matches Some(m) ==> m <= len)
    &&& (max matches Some(m) ==> len <= m)
}

/// `validator::validate_length` on a string, with no exact length: the source
/// counts the string's characters (`chars().count()`) and checks them against
/// the bounds that are given.
#[verifier::external_body]
pub(crate) fn length_within(value: &str, min: Option<u64>, max: Option<u64>) -> (r: bool)
    ensures
        r == within(value@.len(), min, max),
{
    validator::validate_length(value, min, max, None)
}

/// `names`, followed by `name` where `failed` holds.
pub open spec fn note_failure(names: Seq<Seq<char>>, failed: bool, name: Seq<char>) -> Seq<Seq<char>> {
    if failed {
        names.push(name)
    } else {
        names
    }
}

/// Appends `name` to `fields` where `failed` holds.
pub(crate) fn record_failure(fields: &mut Vec<String>, failed: bool, name: &str)
    ensures
        final(fields)@.map_values(|f: String| f@) == note_failure(
            old(fields)@.map_values(|f: String| f@),
            failed,
            name@,
        ),
{
    if failed {
        fields.push(name.to_owned());
        assert(fields@.map_values(|f: String| f@) =~= old(fields)@.map_values(|f: String| f@).push(name@));
    }
}

/// An empty list of failed fields.
pub(crate) fn no_failures() -> (v: Vec<String>)
    ensures
        v@.map_values(|f: String| f@) == Seq::<Seq<char>>::empty(),
{
    let v: Vec<String> = Vec::new();
    assert(v@.map_values(|f: String| f@) =~= Seq::<Seq<char>>::empty());
    v
}

/// Turns the list of failed fields into the outcome of a validation.
pub(crate) fn outcome(fields: Vec<String>) -> (r: Result<(), ValidationErrors>)
    ensures
        fields@.len() == 0 ==> r is Ok,
        fields@.len() != 0 ==> (r matches Err(e) && e.fields@ == fields@),
{
    if fields.len() == 0 {
        Ok(())
    } else {
        Err(ValidationErrors { fields })
    }
}

} // verus!
