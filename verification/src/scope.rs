//! Scope definitions and the catalog they are read from.
//!
//! The catalog value handed to a signup call is a point-in-time,
//! read-only view of the defined scopes, as a short-lived read-only
//! transaction against the store provides it; it is discarded after
//! the lookup and never written through.

use vstd::prelude::*;

verus! {

/// The number of seconds a session lasts when the scope configures no
/// duration of its own.
pub const DEFAULT_SESSION_SECS: u64 = 3600;

/// A tenant-defined authentication policy: an optional signup rule (an
/// expression producing a record reference; absent means signup is
/// disabled for this scope), the opaque secret the scope signs tokens
/// with, and an optional session duration in seconds.
#[derive(Debug)]
pub struct ScopeDefinition {
    pub signup: Option<String>,
    pub code: Vec<u8>,
    pub session: Option<u64>,
}

/// The session duration a scope grants, in seconds: its configured
/// duration, or one hour when none is configured.
pub open spec fn duration_secs(def: ScopeDefinition) -> int {
    match def.session {
        Some(d) => d as int,
        None => DEFAULT_SESSION_SECS as int,
    }
}

fn clone_bytes(v: &Vec<u8>) -> (r: Vec<u8>)
    ensures
        r@ == v@,
{
    let n = v.len();
    let mut r: Vec<u8> = Vec::new();
    let mut i: usize = 0;
    while i < n
        invariant
            i <= n,
            n == v@.len(),
            r@ == v@.take(i as int),
        decreases n - i,
    {
        r.push(v[i]);
        i += 1;
        proof {
            assert(v@.take(i as int) =~= v@.take(i as int - 1).push(v@[i as int - 1]));
        }
    }
    proof {
        assert(v@.take(n as int) =~= v@);
    }
    r
}

/// Two definitions that hold the same rule, secret bytes and duration.
pub open spec fn same_def(a: ScopeDefinition, b: ScopeDefinition) -> bool {
    &&& a.signup == b.signup
    &&& a.code@ == b.code@
    &&& a.session == b.session
}

impl ScopeDefinition {
    /// An equal copy of the definition.
    pub fn duplicate(&self) -> (r: ScopeDefinition)
        ensures
            same_def(r, *self),
    {
        ScopeDefinition {
            signup: match &self.signup {
                Some(s) => Some(s.clone()),
                None => None,
            },
            code: clone_bytes(&self.code),
            session: self.session,
        }
    }
}

/// One named scope of one database of one namespace.
#[derive(Debug)]
pub struct ScopeEntry {
    pub ns: String,
    pub db: String,
    pub name: String,
    pub def: ScopeDefinition,
}

/// A read-only, point-in-time view of the defined scopes.
#[derive(Debug)]
pub struct Catalog {
    pub scopes: Vec<ScopeEntry>,
}

/// The first definition registered under the triple, scanning in order.
pub open spec fn find_scope(
    entries: Seq<ScopeEntry>,
    ns: Seq<char>,
    db: Seq<char>,
    sc: Seq<char>,
) -> Option<ScopeDefinition>
    decreases entries.len(),
{
    if entries.len() == 0 {
        None
    } else if entries[0].ns@ == ns && entries[0].db@ == db && entries[0].name@ == sc {
        Some(entries[0].def)
    } else {
        find_scope(entries.drop_first(), ns, db, sc)
    }
}

impl Catalog {
    /// The definition of the scope named `sc` of database `db` of
    /// namespace `ns`, if one exists.
    pub open spec fn spec_get_scope(self, ns: Seq<char>, db: Seq<char>, sc: Seq<char>) -> Option<
        ScopeDefinition,
    > {
        find_scope(self.scopes@, ns, db, sc)
    }

    /// The catalog reader: looks a scope up by (namespace, database,
    /// scope name). A missing scope is terminal for the call; nothing
    /// is retried.
    pub fn get_scope(&self, ns: &String, db: &String, sc: &String) -> (r: Option<&ScopeDefinition>)
        ensures
            match r {
                Some(def) => self.spec_get_scope(ns@, db@, sc@) == Some(*def),
                None => self.spec_get_scope(ns@, db@, sc@) is None,
            },
    {
        let n = self.scopes.len();
        let mut i: usize = 0;
        proof {
            assert(self.scopes@.skip(0) =~= self.scopes@);
        }
        while i < n
            invariant
                i <= n,
                n == self.scopes@.len(),
                find_scope(self.scopes@, ns@, db@, sc@) == find_scope(
                    self.scopes@.skip(i as int),
                    ns@,
                    db@,
                    sc@,
                ),
            decreases n - i,
        {
            let entry = &self.scopes[i];
            if entry.ns == *ns && entry.db == *db && entry.name == *sc {
                proof {
                    let s = self.scopes@.skip(i as int);
                    assert(s[0] == self.scopes@[i as int]);
                    assert(find_scope(s, ns@, db@, sc@) == Some(s[0].def));
                }
                return Some(&entry.def);
            }
            proof {
                let s = self.scopes@.skip(i as int);
                assert(s[0] == self.scopes@[i as int]);
                assert(find_scope(s, ns@, db@, sc@) == find_scope(
                    s.drop_first(),
                    ns@,
                    db@,
                    sc@,
                ));
                assert(s.drop_first() =~= self.scopes@.skip(i as int + 1));
            }
            i += 1;
        }
        proof {
            assert(self.scopes@.skip(n as int).len() == 0);
        }
        None
    }
}

} // verus!
