use vstd::prelude::*;

use crate::expression::lookup;
use crate::kind::Kind;
use crate::value::Data;

verus! {

/// What compilation knows of the records a program will see: the static
/// kind of some of their fields. A field it does not list may hold anything.
/// Where a key is listed twice, the first entry counts.
#[derive(Debug)]
pub struct ExternalEnv {
    pub fields: Vec<(String, Kind)>,
}

/// The kind the entries `fields` give to the field `key`.
pub open spec fn entry_kind(fields: Seq<(Seq<char>, Kind)>, key: Seq<char>) -> Kind
    decreases fields.len(),
{
    if fields.len() == 0 {
        Kind::spec_any()
    } else if fields[0].0 == key {
        fields[0].1
    } else {
        entry_kind(fields.drop_first(), key)
    }
}

impl ExternalEnv {
    pub open spec fn view(&self) -> Seq<(Seq<char>, Kind)> {
        Seq::new(self.fields@.len(), |i: int| (self.fields@[i].0@, self.fields@[i].1))
    }

    /// The static kind of the field `key`.
    pub open spec fn spec_kind_of(&self, key: Seq<char>) -> Kind {
        entry_kind(self@, key)
    }

    /// Whether `record` is one the environment describes: each of its
    /// fields holds a value of the kind the environment gives it.
    pub open spec fn admits(&self, record: Data) -> bool {
        forall|key: Seq<char>| #[trigger]
            self.spec_kind_of(key).contains(lookup(record, key).tag())
    }

    /// An environment that knows nothing of the records.
    pub fn new() -> (r: ExternalEnv)
        ensures
            r@.len() == 0,
    {
        ExternalEnv { fields: Vec::new() }
    }

    pub fn kind_of(&self, key: &String) -> (r: Kind)
        ensures
            r == self.spec_kind_of(key@),
    {
        let ghost s = self@;
        proof {
            assert(s.subrange(0, s.len() as int) =~= s);
        }
        let mut i: usize = 0;
        while i < self.fields.len()
            invariant
                i <= self.fields@.len(),
                s == self@,
                self.spec_kind_of(key@) == entry_kind(s.subrange(i as int, s.len() as int), key@),
            decreases self.fields@.len() - i,
        {
            proof {
                let rest = s.subrange(i as int, s.len() as int);
                assert(rest.drop_first() =~= s.subrange(i + 1, s.len() as int));
                assert(rest[0] == s[i as int]);
            }
            if self.fields[i].0 == *key {
                return self.fields[i].1;
            }
            i = i + 1;
        }
        Kind::any()
    }
}

} // verus!
