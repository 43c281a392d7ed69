use vstd::prelude::*;

verus! {

/// A structured, loosely typed value: the shape in which the host hands a
/// request description to the pipeline, and the shape in which a JSON
/// response body comes back.
#[derive(Debug, PartialEq, Eq)]
pub enum Dynamic {
    /// The absent / empty value (JSON `null`).
    Null,
    Bool(bool),
    /// An integral number.
    Int(i64),
    /// A non-integral number, kept as its decimal text.
    Num(String),
    Str(String),
    Arr(Vec<Dynamic>),
    /// String-keyed entries, in order; duplicate keys are allowed and the
    /// first occurrence wins on lookup.
    Obj(Vec<(String, Dynamic)>),
}

/// The value under `key` in `entries`: the first entry whose key reads as
/// `key`, if any.
pub open spec fn lookup(entries: Seq<(String, Dynamic)>, key: Seq<char>) -> Option<Dynamic>
    decreases entries.len(),
{
    if entries.len() == 0 {
        None
    } else if entries[0].0@ == key {
        Some(entries[0].1)
    } else {
        lookup(entries.drop_first(), key)
    }
}

} // verus!
