//! The caller's session and the one persistent effect of a signup: the
//! atomic update of its identity fields.

use vstd::prelude::*;

use crate::token::Claims;
use crate::value::RecordId;
use crate::value::Value;

verus! {

/// The authorization context a session carries.
#[derive(Debug, PartialEq, Eq)]
pub enum Auth {
    /// No authentication has taken place.
    No,
    /// Scope-authenticated within (namespace, database, scope).
    Sc(String, String, String),
}

/// The caller-held mutable context of the current authenticated
/// identity: the accepted claims, the tenant coordinates, the subject
/// identity, and the authorization context. A signup updates all of
/// these together or none of them.
#[derive(Debug, PartialEq, Eq)]
pub struct Session {
    pub tk: Option<Claims>,
    pub ns: Option<String>,
    pub db: Option<String>,
    pub sc: Option<String>,
    pub sd: Option<Value>,
    pub au: Auth,
}

/// Whether a session is the bare evaluation context scoped to a
/// namespace and a database only: no claims, no scope, no identity.
pub open spec fn is_db_context(s: Session, ns: Seq<char>, db: Seq<char>) -> bool {
    &&& s.tk is None
    &&& s.ns matches Some(n) && n@ == ns
    &&& s.db matches Some(d) && d@ == db
    &&& s.sc is None
    &&& s.sd is None
    &&& s.au == Auth::No
}

/// Whether a session holds exactly the outcome of a successful signup:
/// the claims, the claims' tenant coordinates, the resolved record as
/// its subject, and a scope authorization for the same coordinates.
pub open spec fn scope_authenticated(s: Session, c: Claims, rid: RecordId) -> bool {
    &&& s.tk == Some(c)
    &&& s.ns matches Some(n) && n@ == c.ns@
    &&& s.db matches Some(d) && d@ == c.db@
    &&& s.sc matches Some(x) && x@ == c.sc@
    &&& s.sd == Some(Value::Record(rid))
    &&& s.au matches Auth::Sc(an, ad, ax) && an@ == c.ns@ && ad@ == c.db@ && ax@ == c.sc@
}

impl Session {
    /// A fresh, unauthenticated session.
    pub fn new() -> (s: Session)
        ensures
            s.tk is None,
            s.ns is None,
            s.db is None,
            s.sc is None,
            s.sd is None,
            s.au == Auth::No,
    {
        Session { tk: None, ns: None, db: None, sc: None, sd: None, au: Auth::No }
    }

    /// The evaluation context for a signup rule: scoped to the target
    /// namespace and database only, with no identity, since none exists
    /// before resolution.
    pub fn for_db(ns: &String, db: &String) -> (s: Session)
        ensures
            is_db_context(s, ns@, db@),
    {
        Session {
            tk: None,
            ns: Some(ns.clone()),
            db: Some(db.clone()),
            sc: None,
            sd: None,
            au: Auth::No,
        }
    }

    /// The session mutator: applies the accepted claims and the
    /// resolved record in one assignment, so no concurrent reader of
    /// the session ever observes a mix of old and new fields.
    pub fn apply(&mut self, claims: Claims, rid: RecordId)
        ensures
            scope_authenticated(*final(self), claims, rid),
    {
        let ns = claims.ns.clone();
        let db = claims.db.clone();
        let sc = claims.sc.clone();
        let au_ns = claims.ns.clone();
        let au_db = claims.db.clone();
        let au_sc = claims.sc.clone();
        *self = Session {
            tk: Some(claims),
            ns: Some(ns),
            db: Some(db),
            sc: Some(sc),
            sd: Some(Value::Record(rid)),
            au: Auth::Sc(au_ns, au_db, au_sc),
        };
    }
}

/// Signups against different sessions never interfere: a session
/// authenticated from a resolved record holds exactly that record as
/// its subject, so two sessions whose signups resolved different
/// records never end up sharing one, whether or not they used the same
/// scope.
pub proof fn lemma_sessions_do_not_interfere(
    s1: Session,
    s2: Session,
    c1: Claims,
    c2: Claims,
    r1: RecordId,
    r2: RecordId,
)
    requires
        scope_authenticated(s1, c1, r1),
        scope_authenticated(s2, c2, r2),
    ensures
        s1.sd == Some(Value::Record(r1)),
        s2.sd == Some(Value::Record(r2)),
        r1 != r2 ==> s1.sd != s2.sd,
{
}

} // verus!
