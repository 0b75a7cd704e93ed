//! The loosely-typed values a caller supplies with a signup request and
//! the record references the evaluation engine resolves: the parts of
//! such values that this core reads, held as plain data.

use vstd::prelude::*;

verus! {

/// A reference to a unique record: a table name and a key within it.
#[derive(Clone, Debug, PartialEq, Eq)]
pub struct RecordId {
    pub tb: String,
    pub id: String,
}

impl RecordId {
    /// The raw string form of the reference, `table:key`.
    pub open spec fn spec_raw(self) -> Seq<char> {
        self.tb@ + seq![':'] + self.id@
    }

    /// Renders the reference as `table:key`; this string form becomes
    /// the token subject and the session's subject identity.
    pub fn to_raw(&self) -> (r: String)
        ensures
            r@ == self.spec_raw(),
    {
        let r = self.tb.clone().concat(":").concat(self.id.as_str());
        proof {
            reveal_strlit(":");
            assert(":"@ =~= seq![':']);
        }
        r
    }
}

/// A caller-supplied or engine-produced value, reduced to the shapes
/// this core inspects: nothing, a boolean, a string, or a record
/// reference.
#[derive(Clone, Debug, PartialEq, Eq)]
pub enum Value {
    Null,
    Bool(bool),
    Strand(String),
    Record(RecordId),
}

impl Value {
    /// The raw string form of the value, without quoting.
    pub open spec fn spec_raw_string(self) -> Seq<char> {
        match self {
            Value::Null => "NULL"@,
            Value::Bool(b) => if b {
                "true"@
            } else {
                "false"@
            },
            Value::Strand(s) => s@,
            Value::Record(r) => r.spec_raw(),
        }
    }

    /// The record reference the value resolves to, if it is one.
    pub open spec fn spec_record(self) -> Option<RecordId> {
        match self {
            Value::Record(r) => Some(r),
            _ => None,
        }
    }

    /// Renders the value as a raw string, the form used for the three
    /// request parameters.
    pub fn to_raw_string(&self) -> (r: String)
        ensures
            r@ == self.spec_raw_string(),
    {
        match self {
            Value::Null => String::from_str("NULL"),
            Value::Bool(b) => if *b {
                String::from_str("true")
            } else {
                String::from_str("false")
            },
            Value::Strand(s) => s.clone(),
            Value::Record(r) => r.to_raw(),
        }
    }

    /// Returns the record reference the value carries, if any; every
    /// other shape of value resolves no record.
    pub fn record(&self) -> (r: Option<RecordId>)
        ensures
            r == self.spec_record(),
    {
        match self {
            Value::Record(rid) => Some(RecordId { tb: rid.tb.clone(), id: rid.id.clone() }),
            _ => None,
        }
    }
}

/// An open mapping of caller-supplied variable names to values, passed
/// through to evaluation unmodified. Lookup returns the first entry
/// with the requested name.
#[derive(Clone, Debug, PartialEq, Eq)]
pub struct Object {
    pub entries: Vec<(String, Value)>,
}

/// The first value bound to `key`, scanning the entries in order.
pub open spec fn lookup(entries: Seq<(String, Value)>, key: Seq<char>) -> Option<Value>
    decreases entries.len(),
{
    if entries.len() == 0 {
        None
    } else if entries[0].0@ == key {
        Some(entries[0].1)
    } else {
        lookup(entries.drop_first(), key)
    }
}

impl Object {
    /// The value bound to `key`, if any.
    pub open spec fn spec_get(self, key: Seq<char>) -> Option<Value> {
        lookup(self.entries@, key)
    }

    /// Looks a variable up by name.
    pub fn get(&self, key: &String) -> (r: Option<&Value>)
        ensures
            match r {
                Some(v) => self.spec_get(key@) == Some(*v),
                None => self.spec_get(key@) is None,
            },
    {
        let n = self.entries.len();
        let mut i: usize = 0;
        proof {
            assert(self.entries@.skip(0) =~= self.entries@);
        }
        while i < n
            invariant
                i <= n,
                n == self.entries@.len(),
                lookup(self.entries@, key@) == lookup(self.entries@.skip(i as int), key@),
            decreases n - i,
        {
            if self.entries[i].0 == *key {
                proof {
                    let s = self.entries@.skip(i as int);
                    assert(s[0] == self.entries@[i as int]);
                    assert(lookup(s, key@) == Some(s[0].1));
                }
                return Some(&self.entries[i].1);
            }
            proof {
                let s = self.entries@.skip(i as int);
                assert(s[0] == self.entries@[i as int]);
                assert(lookup(s, key@) == lookup(s.drop_first(), key@));
                assert(s.drop_first() =~= self.entries@.skip(i as int + 1));
            }
            i += 1;
        }
        proof {
            assert(self.entries@.skip(n as int).len() == 0);
        }
        None
    }
}

} // verus!
