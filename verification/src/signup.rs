//! The signup operation itself.
//!
//! A signup runs in two verified phases around one piece of outside
//! work. The first phase ([`signup`] / [`sc`]) checks the request
//! parameters, looks the scope up in the catalog view and, if the scope
//! permits signup, hands back everything the caller's evaluation engine
//! needs to run the signup rule. The second phase ([`finish`] /
//! [`finish_at`]) takes whatever evaluation produced, and only on a
//! resolved record issues the token and applies the session update; on
//! every failure the session is left exactly as it was.

use vstd::prelude::*;

use crate::err::normalize;
use crate::err::AuthError;
use crate::err::Denial;
use crate::scope::duration_secs;
use crate::scope::same_def;
use crate::scope::Catalog;
use crate::scope::ScopeDefinition;
use crate::session::is_db_context;
use crate::session::scope_authenticated;
use crate::session::Session;
use crate::token::claims_for;
use crate::token::issue_token;
use crate::token::now_timestamp;
use crate::token::MAX_CLOCK_SECS;
use crate::token::server_name;
use crate::token::token_chars;
use crate::value::Object;
use crate::value::Value;

verus! {

/// Everything a caller needs to run the signup rule of a scope that
/// permits signup: the rule itself, the evaluation context scoped to
/// the target namespace and database, the caller's variables passed
/// through unmodified, the strictness flag, and the scope definition
/// the token will be issued under.
#[derive(Debug)]
pub struct PendingSignup {
    pub ns: String,
    pub db: String,
    pub sc: String,
    pub rule: String,
    pub context: Session,
    pub bindings: Object,
    pub strict: bool,
    pub def: ScopeDefinition,
}

/// The request parameter bound to the upper-case name, or failing that
/// the lower-case one.
pub open spec fn param_value(vars: Object, upper: Seq<char>, lower: Seq<char>) -> Option<Value> {
    match vars.spec_get(upper) {
        Some(v) => Some(v),
        None => vars.spec_get(lower),
    }
}

/// The raw string of an extracted parameter; empty when absent.
pub open spec fn raw_of(v: Option<Value>) -> Seq<char> {
    match v {
        Some(x) => x.spec_raw_string(),
        None => Seq::empty(),
    }
}

/// Whether the request carries all three of namespace, database and
/// scope name.
pub open spec fn params_present(vars: Object) -> bool {
    &&& param_value(vars, "NS"@, "ns"@) is Some
    &&& param_value(vars, "DB"@, "db"@) is Some
    &&& param_value(vars, "SC"@, "sc"@) is Some
}

/// What the lookup phase owes for a triple and a set of variables: a
/// missing scope is denied, a scope without a signup rule is denied,
/// and a scope with one yields exactly the pending signup for it.
pub open spec fn lookup_outcome(
    catalog: Catalog,
    strict: bool,
    ns: Seq<char>,
    db: Seq<char>,
    sc: Seq<char>,
    vars: Object,
    r: Result<PendingSignup, Denial>,
) -> bool {
    match catalog.spec_get_scope(ns, db, sc) {
        None => r == Err::<PendingSignup, Denial>(Denial::ScopeNotFound),
        Some(def) => match def.signup {
            None => r == Err::<PendingSignup, Denial>(Denial::SignupDisabled),
            Some(rule) => r matches Ok(p) && {
                &&& p.ns@ == ns
                &&& p.db@ == db
                &&& p.sc@ == sc
                &&& p.rule@ == rule@
                &&& is_db_context(p.context, ns, db)
                &&& p.bindings == vars
                &&& p.strict == strict
                &&& same_def(p.def, def)
            },
        },
    }
}

fn raw_param(vars: &Object, upper: &str, lower: &str) -> (r: Option<String>)
    ensures
        r matches Some(s) ==> param_value(*vars, upper@, lower@) matches Some(v) && s@
            == v.spec_raw_string(),
        r is None ==> param_value(*vars, upper@, lower@) is None,
{
    let uk = String::from_str(upper);
    match vars.get(&uk) {
        Some(v) => Some(v.to_raw_string()),
        None => {
            let lk = String::from_str(lower);
            match vars.get(&lk) {
                Some(v) => Some(v.to_raw_string()),
                None => None,
            }
        },
    }
}

/// The caller-facing entry of the lookup phase: extracts the namespace,
/// database and scope name from the request variables (each under its
/// upper-case name, or failing that its lower-case one) and proceeds to
/// the scope lookup; a request missing any of the three is denied
/// without touching anything.
pub fn signup(catalog: &Catalog, strict: bool, vars: Object) -> (r: Result<PendingSignup, Denial>)
    ensures
        !params_present(vars) ==> r == Err::<PendingSignup, Denial>(Denial::MissingParams),
        params_present(vars) ==> lookup_outcome(
            *catalog,
            strict,
            raw_of(param_value(vars, "NS"@, "ns"@)),
            raw_of(param_value(vars, "DB"@, "db"@)),
            raw_of(param_value(vars, "SC"@, "sc"@)),
            vars,
            r,
        ),
{
    let ns = raw_param(&vars, "NS", "ns");
    let db = raw_param(&vars, "DB", "db");
    let scp = raw_param(&vars, "SC", "sc");
    match (ns, db, scp) {
        (Some(a), Some(b), Some(c)) => sc(catalog, strict, a, b, c, vars),
        _ => Err(Denial::MissingParams),
    }
}

/// The lookup phase for an already-extracted triple: reads the scope's
/// definition from the catalog view and, when the scope has a signup
/// rule, yields the pending signup; a missing scope and a scope whose
/// signup is disabled are denied.
pub fn sc(
    catalog: &Catalog,
    strict: bool,
    ns: String,
    db: String,
    sc_name: String,
    vars: Object,
) -> (r: Result<PendingSignup, Denial>)
    ensures
        lookup_outcome(*catalog, strict, ns@, db@, sc_name@, vars, r),
{
    match catalog.get_scope(&ns, &db, &sc_name) {
        None => Err(Denial::ScopeNotFound),
        Some(def) => match &def.signup {
            None => Err(Denial::SignupDisabled),
            Some(rule) => {
                let context = Session::for_db(&ns, &db);
                Ok(
                    PendingSignup {
                        rule: rule.clone(),
                        context,
                        bindings: vars,
                        strict,
                        def: def.duplicate(),
                        ns,
                        db,
                        sc: sc_name,
                    },
                )
            },
        },
    }
}

/// The completion phase, at an explicit issue time: takes whatever the
/// evaluation engine produced. A failed evaluation, a value resolving
/// no record, and an expiry beyond the representable range are denied
/// with the session untouched; a resolved record gets a token under the
/// scope's secret, and the session is updated in one step.
pub fn finish_at(
    p: &PendingSignup,
    session: &mut Session,
    eval: Option<Value>,
    now: i64,
) -> (r: Result<Option<String>, Denial>)
    ensures
        r is Err ==> *final(session) == *old(session),
        eval is None ==> r == Err::<Option<String>, Denial>(Denial::EvaluationFailed),
        (eval matches Some(v) && v.spec_record() is None) ==> r == Err::<Option<String>, Denial>(
            Denial::NoRecordResolved,
        ),
        eval matches Some(v) ==> v.spec_record() matches Some(rid) ==> {
            &&& now + duration_secs(p.def) > i64::MAX ==> r == Err::<Option<String>, Denial>(
                Denial::ExpiryOverflow,
            )
            &&& now + duration_secs(p.def) <= i64::MAX ==> {
                &&& r matches Ok(t)
                &&& final(session).tk matches Some(c)
                &&& claims_for(
                    c,
                    p.ns@,
                    p.db@,
                    p.sc@,
                    rid.spec_raw(),
                    now as int,
                    duration_secs(p.def),
                )
                &&& scope_authenticated(*final(session), c, rid)
                &&& t matches Some(tok) && tok@ == token_chars(c, p.def.code@)
            }
        },
{
    match eval {
        None => Err(Denial::EvaluationFailed),
        Some(v) => match v.record() {
            None => Err(Denial::NoRecordResolved),
            Some(rid) => {
                let id_raw = rid.to_raw();
                match issue_token(&p.def, &p.ns, &p.db, &p.sc, &id_raw, now) {
                    Err(d) => Err(d),
                    Ok(pair) => {
                        let (claims, token) = pair;
                        session.apply(claims, rid);
                        Ok(Some(token))
                    },
                }
            },
        },
    }
}

/// The completion phase at the current time, with the uniform failure
/// surface: every denial, whatever its cause, reaches the caller as the
/// one authentication error, and only a full success touches the
/// session. Success is owed whenever evaluation resolved a record and
/// the scope's duration leaves room above any time the clock can read.
pub fn finish(p: &PendingSignup, session: &mut Session, eval: Option<Value>) -> (r: Result<
    Option<String>,
    AuthError,
>)
    ensures
        r is Err ==> r == Err::<Option<String>, AuthError>(AuthError::InvalidAuth)
            && *final(session) == *old(session),
        eval is None ==> r is Err,
        (eval matches Some(v) && v.spec_record() is None) ==> r is Err,
        (eval matches Some(v) && v.spec_record() is Some && duration_secs(p.def) <= i64::MAX
            - MAX_CLOCK_SECS) ==> r is Ok,
        r matches Ok(t) ==> {
            &&& eval matches Some(v)
            &&& v.spec_record() matches Some(rid)
            &&& final(session).tk matches Some(c)
            &&& c.iss@ == server_name()
            &&& c.nbf == c.iat
            &&& c.exp == c.iat + duration_secs(p.def)
            &&& c.ns@ == p.ns@ && c.db@ == p.db@ && c.sc@ == p.sc@ && c.id@ == rid.spec_raw()
            &&& scope_authenticated(*final(session), c, rid)
            &&& t matches Some(tok) && tok@ == token_chars(c, p.def.code@)
        },
{
    let now = now_timestamp();
    match finish_at(p, session, eval, now) {
        Ok(t) => Ok(t),
        Err(d) => Err(normalize(&d)),
    }
}

} // verus!
