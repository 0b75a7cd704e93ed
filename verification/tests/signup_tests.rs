use scope_signup::encode::b64url_encode;
use scope_signup::err::normalize;
use scope_signup::err::AuthError;
use scope_signup::err::Denial;
use scope_signup::scope::Catalog;
use scope_signup::scope::ScopeDefinition;
use scope_signup::scope::ScopeEntry;
use scope_signup::session::Auth;
use scope_signup::session::Session;
use scope_signup::signup::finish;
use scope_signup::signup::finish_at;
use scope_signup::signup::sc;
use scope_signup::signup::signup;
use scope_signup::signup::PendingSignup;
use scope_signup::token::assemble_token;
use scope_signup::value::Object;
use scope_signup::value::RecordId;
use scope_signup::value::Value;

fn strand(s: &str) -> Value {
    Value::Strand(s.to_string())
}

fn vars_for(ns: &str, db: &str, sc: &str) -> Object {
    Object {
        entries: vec![
            ("NS".to_string(), strand(ns)),
            ("DB".to_string(), strand(db)),
            ("SC".to_string(), strand(sc)),
            ("user".to_string(), strand("someone")),
        ],
    }
}

fn one_scope_catalog(ns: &str, db: &str, sc: &str, def: ScopeDefinition) -> Catalog {
    Catalog {
        scopes: vec![ScopeEntry {
            ns: ns.to_string(),
            db: db.to_string(),
            name: sc.to_string(),
            def,
        }],
    }
}

fn allauth_def(secret: &[u8], session: Option<u64>) -> ScopeDefinition {
    ScopeDefinition {
        signup: Some("CREATE user SET email = $user".to_string()),
        code: secret.to_vec(),
        session,
    }
}

fn user_record(id: &str) -> Value {
    Value::Record(RecordId { tb: "user".to_string(), id: id.to_string() })
}

fn pending(catalog: &Catalog, ns: &str, db: &str, sc: &str) -> PendingSignup {
    signup(catalog, false, vars_for(ns, db, sc)).expect("scope should permit signup")
}

fn decode_claims(token: &str, secret: &[u8]) -> serde_json::Value {
    let mut validation = jsonwebtoken::Validation::new(jsonwebtoken::Algorithm::HS512);
    validation.validate_exp = false;
    validation.required_spec_claims = std::collections::HashSet::new();
    let data = jsonwebtoken::decode::<serde_json::Value>(
        token,
        &jsonwebtoken::DecodingKey::from_secret(secret),
        &validation,
    )
    .expect("token must decode and verify under the scope secret");
    assert_eq!(data.header.alg, jsonwebtoken::Algorithm::HS512);
    data.claims
}

#[test]
fn missing_namespace_is_denied() {
    let catalog = one_scope_catalog("t", "d", "s", allauth_def(b"k", None));
    let vars = Object {
        entries: vec![("DB".to_string(), strand("d")), ("SC".to_string(), strand("s"))],
    };
    let r = signup(&catalog, false, vars);
    assert_eq!(r.unwrap_err(), Denial::MissingParams);
    assert_eq!(normalize(&Denial::MissingParams), AuthError::InvalidAuth);
}

#[test]
fn missing_database_is_denied() {
    let catalog = one_scope_catalog("t", "d", "s", allauth_def(b"k", None));
    let vars = Object {
        entries: vec![("NS".to_string(), strand("t")), ("SC".to_string(), strand("s"))],
    };
    assert_eq!(signup(&catalog, false, vars).unwrap_err(), Denial::MissingParams);
}

#[test]
fn missing_scope_name_is_denied() {
    let catalog = one_scope_catalog("t", "d", "s", allauth_def(b"k", None));
    let vars = Object {
        entries: vec![("NS".to_string(), strand("t")), ("DB".to_string(), strand("d"))],
    };
    assert_eq!(signup(&catalog, false, vars).unwrap_err(), Denial::MissingParams);
}

#[test]
fn lowercase_parameters_are_accepted() {
    let catalog = one_scope_catalog("t", "d", "s", allauth_def(b"k", None));
    let vars = Object {
        entries: vec![
            ("ns".to_string(), strand("t")),
            ("db".to_string(), strand("d")),
            ("sc".to_string(), strand("s")),
        ],
    };
    let p = signup(&catalog, false, vars).expect("lower-case names must work");
    assert_eq!(p.ns, "t");
    assert_eq!(p.db, "d");
    assert_eq!(p.sc, "s");
}

#[test]
fn uppercase_parameter_wins_over_lowercase() {
    let catalog = one_scope_catalog("upper", "d", "s", allauth_def(b"k", None));
    let vars = Object {
        entries: vec![
            ("ns".to_string(), strand("lower")),
            ("NS".to_string(), strand("upper")),
            ("DB".to_string(), strand("d")),
            ("SC".to_string(), strand("s")),
        ],
    };
    let p = signup(&catalog, false, vars).expect("scope exists under the upper-case namespace");
    assert_eq!(p.ns, "upper");
}

#[test]
fn unknown_scope_is_denied() {
    let catalog = one_scope_catalog("t", "d", "s", allauth_def(b"k", None));
    let r = signup(&catalog, false, vars_for("t", "d", "other"));
    assert_eq!(r.unwrap_err(), Denial::ScopeNotFound);
}

#[test]
fn scope_without_signup_rule_is_denied() {
    let def = ScopeDefinition { signup: None, code: b"k".to_vec(), session: None };
    let catalog = one_scope_catalog("t", "d", "s", def);
    let r = signup(&catalog, false, vars_for("t", "d", "s"));
    assert_eq!(r.unwrap_err(), Denial::SignupDisabled);
}

#[test]
fn pending_signup_carries_rule_context_and_bindings() {
    let catalog = one_scope_catalog("t", "d", "s", allauth_def(b"k", Some(60)));
    let vars = vars_for("t", "d", "s");
    let p = sc(&catalog, true, "t".to_string(), "d".to_string(), "s".to_string(), vars.clone())
        .expect("scope permits signup");
    assert_eq!(p.rule, "CREATE user SET email = $user");
    assert!(p.strict);
    assert_eq!(p.bindings, vars);
    assert_eq!(p.context.ns, Some("t".to_string()));
    assert_eq!(p.context.db, Some("d".to_string()));
    assert_eq!(p.context.sc, None);
    assert_eq!(p.context.tk, None);
    assert_eq!(p.context.sd, None);
    assert_eq!(p.context.au, Auth::No);
    assert_eq!(p.def.session, Some(60));
}

#[test]
fn failed_evaluation_leaves_session_untouched() {
    let catalog = one_scope_catalog("t", "d", "s", allauth_def(b"k", None));
    let p = pending(&catalog, "t", "d", "s");
    let mut session = Session::new();
    let r = finish_at(&p, &mut session, None, 4_000_000_000);
    assert_eq!(r.unwrap_err(), Denial::EvaluationFailed);
    assert_eq!(session, Session::new());
}

#[test]
fn unresolved_identity_leaves_session_untouched() {
    let catalog = one_scope_catalog("t", "d", "s", allauth_def(b"k", None));
    let p = pending(&catalog, "t", "d", "s");
    let mut session = Session::new();
    let r = finish_at(&p, &mut session, Some(strand("no record here")), 4_000_000_000);
    assert_eq!(r.unwrap_err(), Denial::NoRecordResolved);
    assert_eq!(session, Session::new());
}

#[test]
fn missing_signature_is_the_signing_denial() {
    let r = assemble_token(vec![97u8, 46u8, 98u8], None);
    assert_eq!(r.unwrap_err(), Denial::SigningFailed);
}

#[test]
fn expiry_beyond_range_leaves_session_untouched() {
    let catalog = one_scope_catalog("t", "d", "s", allauth_def(b"k", Some(u64::MAX)));
    let p = pending(&catalog, "t", "d", "s");
    let mut session = Session::new();
    let r = finish_at(&p, &mut session, Some(user_record("1")), 4_000_000_000);
    assert_eq!(r.unwrap_err(), Denial::ExpiryOverflow);
    assert_eq!(session, Session::new());
}

#[test]
fn successful_signup_updates_every_session_field() {
    let secret = b"scope-signing-key";
    let catalog = one_scope_catalog("t", "d", "s", allauth_def(secret, Some(1234)));
    let p = pending(&catalog, "t", "d", "s");
    let mut session = Session::new();
    let now: i64 = 4_000_000_000;
    let token = finish_at(&p, &mut session, Some(user_record("42")), now)
        .expect("signup must succeed")
        .expect("a token is always issued on success");

    let claims = session.tk.as_ref().expect("claims applied to the session");
    assert_eq!(claims.iss, "SurrealDB");
    assert_eq!(claims.iat, now);
    assert_eq!(claims.nbf, now);
    assert_eq!(claims.exp, now + 1234);
    assert_eq!(claims.ns, "t");
    assert_eq!(claims.db, "d");
    assert_eq!(claims.sc, "s");
    assert_eq!(claims.id, "user:42");
    assert_eq!(session.ns, Some("t".to_string()));
    assert_eq!(session.db, Some("d".to_string()));
    assert_eq!(session.sc, Some("s".to_string()));
    assert_eq!(
        session.sd,
        Some(Value::Record(RecordId { tb: "user".to_string(), id: "42".to_string() }))
    );
    assert_eq!(session.au, Auth::Sc("t".to_string(), "d".to_string(), "s".to_string()));

    let decoded = decode_claims(&token, secret);
    assert_eq!(decoded.get("iss").and_then(|v| v.as_str()), Some("SurrealDB"));
    assert_eq!(decoded.get("iat").and_then(|v| v.as_i64()), Some(now));
    assert_eq!(decoded.get("nbf").and_then(|v| v.as_i64()), Some(now));
    assert_eq!(decoded.get("exp").and_then(|v| v.as_i64()), Some(now + 1234));
    assert_eq!(decoded.get("ns").and_then(|v| v.as_str()), Some("t"));
    assert_eq!(decoded.get("db").and_then(|v| v.as_str()), Some("d"));
    assert_eq!(decoded.get("sc").and_then(|v| v.as_str()), Some("s"));
    assert_eq!(decoded.get("id").and_then(|v| v.as_str()), Some("user:42"));
}

#[test]
fn token_is_rejected_under_a_different_secret() {
    let catalog = one_scope_catalog("t", "d", "s", allauth_def(b"right", Some(1234)));
    let p = pending(&catalog, "t", "d", "s");
    let mut session = Session::new();
    let token = finish_at(&p, &mut session, Some(user_record("42")), 4_000_000_000)
        .unwrap()
        .unwrap();
    let mut validation = jsonwebtoken::Validation::new(jsonwebtoken::Algorithm::HS512);
    validation.validate_exp = false;
    let r = jsonwebtoken::decode::<serde_json::Value>(
        &token,
        &jsonwebtoken::DecodingKey::from_secret(b"wrong"),
        &validation,
    );
    assert!(r.is_err());
}

#[test]
fn default_session_duration_is_one_hour() {
    let secret = b"k";
    let catalog = one_scope_catalog("t", "d", "s", allauth_def(secret, None));
    let p = pending(&catalog, "t", "d", "s");
    let mut session = Session::new();
    let now: i64 = 4_000_000_000;
    let token = finish_at(&p, &mut session, Some(user_record("1")), now).unwrap().unwrap();
    assert_eq!(session.tk.as_ref().unwrap().exp, now + 3600);
    let decoded = decode_claims(&token, secret);
    assert_eq!(decoded.get("exp").and_then(|v| v.as_i64()), Some(now + 3600));
}

#[test]
fn awkward_tenant_names_round_trip_through_the_token() {
    let secret = b"k";
    let ns = "a\"b\\c\nd\u{20ac}\u{1F600}";
    let catalog = one_scope_catalog(ns, "d", "s", allauth_def(secret, Some(10)));
    let vars = Object {
        entries: vec![
            ("NS".to_string(), strand(ns)),
            ("DB".to_string(), strand("d")),
            ("SC".to_string(), strand("s")),
        ],
    };
    let p = signup(&catalog, false, vars).unwrap();
    let mut session = Session::new();
    let token = finish_at(&p, &mut session, Some(user_record("1")), 4_000_000_000)
        .unwrap()
        .unwrap();
    let decoded = decode_claims(&token, secret);
    assert_eq!(decoded.get("ns").and_then(|v| v.as_str()), Some(ns));
}

#[test]
fn concurrent_style_signups_do_not_share_identities() {
    let catalog = one_scope_catalog("t", "d", "s", allauth_def(b"k", Some(60)));
    let p1 = pending(&catalog, "t", "d", "s");
    let p2 = pending(&catalog, "t", "d", "s");
    let mut s1 = Session::new();
    let mut s2 = Session::new();
    finish_at(&p1, &mut s1, Some(user_record("alice")), 4_000_000_000).unwrap();
    finish_at(&p2, &mut s2, Some(user_record("bob")), 4_000_000_000).unwrap();
    assert_eq!(
        s1.sd,
        Some(Value::Record(RecordId { tb: "user".to_string(), id: "alice".to_string() }))
    );
    assert_eq!(
        s2.sd,
        Some(Value::Record(RecordId { tb: "user".to_string(), id: "bob".to_string() }))
    );
    assert_ne!(s1.sd, s2.sd);
}

#[test]
fn finish_uses_the_real_clock_and_normalizes_failures() {
    let catalog = one_scope_catalog("t", "d", "s", allauth_def(b"k", Some(60)));
    let p = pending(&catalog, "t", "d", "s");

    let mut denied = Session::new();
    let r = finish(&p, &mut denied, None);
    assert_eq!(r.unwrap_err(), AuthError::InvalidAuth);
    assert_eq!(denied, Session::new());

    let mut session = Session::new();
    let token = finish(&p, &mut session, Some(user_record("1")))
        .expect("signup at the current time must succeed")
        .expect("a token is always issued on success");
    assert!(!token.is_empty());
    let claims = session.tk.as_ref().unwrap();
    // The clock must have read a plausible present-day time.
    assert!(claims.iat > 1_600_000_000);
    assert_eq!(claims.exp, claims.iat + 60);
}

#[test]
fn raw_string_forms_of_values() {
    assert_eq!(strand("x").to_raw_string(), "x");
    assert_eq!(Value::Bool(true).to_raw_string(), "true");
    assert_eq!(Value::Bool(false).to_raw_string(), "false");
    assert_eq!(Value::Null.to_raw_string(), "NULL");
    assert_eq!(user_record("7").to_raw_string(), "user:7");
    assert_eq!(user_record("7").record(), Some(RecordId {
        tb: "user".to_string(),
        id: "7".to_string()
    }));
    assert_eq!(strand("x").record(), None);
}

#[test]
fn negative_timestamps_render_correctly() {
    let secret = b"k";
    let catalog = one_scope_catalog("t", "d", "s", allauth_def(secret, Some(10)));
    let p = pending(&catalog, "t", "d", "s");
    let mut session = Session::new();
    let token = finish_at(&p, &mut session, Some(user_record("1")), -120).unwrap().unwrap();
    let decoded = decode_claims(&token, secret);
    assert_eq!(decoded.get("iat").and_then(|v| v.as_i64()), Some(-120));
    assert_eq!(decoded.get("exp").and_then(|v| v.as_i64()), Some(-110));
}

#[test]
fn base64_encoding_matches_known_vectors() {
    assert_eq!(b64url_encode(&b"".to_vec()), b"".to_vec());
    assert_eq!(b64url_encode(&b"a".to_vec()), b"YQ".to_vec());
    assert_eq!(b64url_encode(&b"ab".to_vec()), b"YWI".to_vec());
    assert_eq!(b64url_encode(&b"abc".to_vec()), b"YWJj".to_vec());
    assert_eq!(b64url_encode(&b"abcd".to_vec()), b"YWJjZA".to_vec());
    // Bytes whose standard encoding would use '+' and '/' use '-' and '_'.
    assert_eq!(b64url_encode(&vec![0xFB, 0xFF]), b"-_8".to_vec());
}
