//! The flat string-to-string field map an inbound request carries.
//!
//! Lookups return the value of the first entry bearing the requested name,
//! so a well-formed request (each name at most once) behaves like a map.

use vstd::prelude::*;

use crate::strutil::str_eq;

verus! {

/// First-match lookup of `name` among the `(name, value)` entries.
pub open spec fn lookup(fields: Seq<(String, String)>, name: Seq<char>) -> Option<Seq<char>>
    decreases fields.len(),
{
    if fields.len() == 0 {
        None
    } else if fields[0].0@ == name {
        Some(fields[0].1@)
    } else {
        lookup(fields.drop_first(), name)
    }
}

/// If no entry among the first `i` bears `name`, the lookup is decided by
/// the remaining entries.
pub proof fn lemma_lookup_skip(fields: Seq<(String, String)>, name: Seq<char>, i: int)
    requires
        0 <= i <= fields.len(),
        forall|j: int| 0 <= j < i ==> fields[j].0@ != name,
    ensures
        lookup(fields, name) == lookup(fields.skip(i), name),
    decreases i,
{
    if i > 0 {
        assert(fields.skip(1).skip(i - 1) =~= fields.skip(i));
        lemma_lookup_skip(fields.drop_first(), name, i - 1);
    } else {
        assert(fields.skip(0) =~= fields);
    }
}

/// The field map of one request: action parameters keyed by field name.
#[derive(Debug, PartialEq)]
pub struct RequestData {
    pub fields: Vec<(String, String)>,
}

impl RequestData {
    /// What `get` finds for `name`.
    pub open spec fn spec_get(self, name: Seq<char>) -> Option<Seq<char>> {
        lookup(self.fields@, name)
    }

    /// An empty field map.
    pub fn new() -> (r: RequestData)
        ensures
            r.fields@.len() == 0,
    {
        RequestData { fields: Vec::new() }
    }

    /// Append one `(name, value)` entry.
    pub fn push_field(&mut self, name: String, value: String)
        ensures
            final(self).fields@ == old(self).fields@.push((name, value)),
    {
        self.fields.push((name, value));
    }

    /// The value of the first entry named `name`, if any.
    pub fn get<'a>(&'a self, name: &str) -> (r: Option<&'a String>)
        ensures
            match r {
                Some(v) => self.spec_get(name@) == Some(v@),
                None => self.spec_get(name@) is None,
            },
    {
        let n = self.fields.len();
        let mut i: usize = 0;
        while i < n
            invariant
                n == self.fields@.len(),
                0 <= i <= n,
                forall|j: int| 0 <= j < i ==> self.fields@[j].0@ != name@,
            decreases n - i,
        {
            if str_eq(self.fields[i].0.as_str(), name) {
                proof {
                    lemma_lookup_skip(self.fields@, name@, i as int);
                }
                return Some(&self.fields[i].1);
            }
            i = i + 1;
        }
        proof {
            lemma_lookup_skip(self.fields@, name@, n as int);
        }
        None
    }
}

} // verus!
