use chrono::{Duration, Utc};
use dsp_rs::claims::AuthClaims;
use dsp_rs::json::Json;
use dsp_rs::policy::{AtomicConstraint, Constraint, LogicalConstraint, Operator, Policy, RightOperand, Rule};
use dsp_rs::policy_engine::transfer::{check_transfer_policy, check_transfer_policy_at, rule_satisfied, RuleError, TransferOutcome};

fn atomic(left: &str, operator: Operator, right: &str) -> Constraint {
    Constraint::Atomic(AtomicConstraint {
        left_operand: left.into(),
        operator,
        right_operand: RightOperand::String(right.into()),
    })
}

fn rule(action: &str, constraint: Option<Vec<Constraint>>) -> Rule {
    Rule { action: action.into(), constraint }
}

fn claims_with(key: &str, value: &str) -> AuthClaims {
    let mut claims = AuthClaims::default();
    claims.insert(key.into(), Json::String(value.into()));
    claims
}

#[test]
fn test_temporal() {
    let now = Utc::now();
    let policy = Policy {
        profile: None,
        permission: Some(vec![rule(
            "use",
            Some(vec![atomic("temporal", Operator::Lteq, &(now + Duration::days(30)).to_rfc3339())]),
        )]),
        prohibition: None,
        obligation: None,
    };

    let claims = AuthClaims::default();
    assert!(matches!(check_transfer_policy(&policy, &claims), TransferOutcome::Success));
}

#[test]
fn test_spatial() {
    let policy = Policy {
        profile: None,
        permission: Some(vec![rule("use", Some(vec![atomic("spatial", Operator::IsPartOf, "_:EU")]))]),
        prohibition: None,
        obligation: None,
    };

    let claims = AuthClaims::default();
    assert!(matches!(check_transfer_policy(&policy, &claims), TransferOutcome::Forbidden(_)));

    let claims = claims_with("country", "DE");
    assert!(matches!(check_transfer_policy(&policy, &claims), TransferOutcome::Success));

    let claims = claims_with("country", "US");
    assert!(matches!(check_transfer_policy(&policy, &claims), TransferOutcome::Forbidden(_)));
}

#[test]
fn test_logical() {
    let now = Utc::now();
    let policy = Policy {
        profile: None,
        permission: Some(vec![rule(
            "use",
            Some(vec![Constraint::Logical(LogicalConstraint::And {
                and: vec![
                    atomic("temporal", Operator::Lteq, &(now + Duration::days(30)).to_rfc3339()),
                    atomic("spatial", Operator::IsPartOf, "_:EU"),
                ],
            })]),
        )]),
        prohibition: None,
        obligation: None,
    };

    let claims = AuthClaims::default();
    assert!(matches!(check_transfer_policy(&policy, &claims), TransferOutcome::Forbidden(_)));

    let claims = claims_with("country", "DE");
    assert!(matches!(check_transfer_policy(&policy, &claims), TransferOutcome::Success));

    let claims = claims_with("country", "US");
    assert!(matches!(check_transfer_policy(&policy, &claims), TransferOutcome::Forbidden(_)));
}

#[test]
fn test_prohibition() {
    let now = Utc::now();
    let policy = Policy {
        profile: None,
        permission: Some(vec![rule(
            "use",
            Some(vec![atomic("temporal", Operator::Lteq, &(now + Duration::days(30)).to_rfc3339())]),
        )]),
        prohibition: Some(vec![rule("use", Some(vec![atomic("spatial", Operator::IsPartOf, "_:EU")]))]),
        obligation: None,
    };

    let claims = AuthClaims::default();
    assert!(matches!(check_transfer_policy(&policy, &claims), TransferOutcome::Forbidden(_)));

    let claims = claims_with("country", "DE");
    assert!(matches!(check_transfer_policy(&policy, &claims), TransferOutcome::Forbidden(_)));

    let claims = claims_with("country", "UK");
    assert!(matches!(check_transfer_policy(&policy, &claims), TransferOutcome::Success));
}

#[test]
fn transfer_check_at_a_given_time() {
    let policy = Policy {
        profile: None,
        permission: Some(vec![rule("use", Some(vec![atomic("temporal", Operator::Lteq, "2030-06-01T00:00:00Z")]))]),
        prohibition: None,
        obligation: None,
    };
    let claims = AuthClaims::default();
    assert!(matches!(check_transfer_policy_at(&policy, &claims, "2030-05-31T23:59:59Z"), TransferOutcome::Success));
    match check_transfer_policy_at(&policy, &claims, "2030-06-01T00:00:01Z") {
        TransferOutcome::Forbidden(msg) => assert_eq!(msg, "Permissions not satisifed"),
        TransferOutcome::Success => panic!("expected a refusal"),
    }
}

#[test]
fn unsupported_actions_and_missing_claims_are_errors() {
    let claims = AuthClaims::default();
    match rule_satisfied(&rule("read", None), &claims, "2030-01-01T00:00:00Z") {
        Err(RuleError::UnsupportedAction(a)) => assert_eq!(a, "read"),
        other => panic!("unexpected {:?}", other),
    }
    assert!(matches!(
        rule_satisfied(&rule("use", Some(vec![atomic("purpose", Operator::Eq, "research")])), &claims, "x"),
        Err(RuleError::InsufficientClaims)
    ));
    let claims = claims_with("purpose", "research");
    assert!(matches!(
        rule_satisfied(&rule("use", Some(vec![atomic("purpose", Operator::Eq, "research")])), &claims, "x"),
        Ok(true)
    ));
    // an error in a prohibition forbids the transfer
    let policy = Policy {
        profile: None,
        permission: None,
        prohibition: Some(vec![rule("share", None)]),
        obligation: None,
    };
    match check_transfer_policy_at(&policy, &claims, "x") {
        TransferOutcome::Forbidden(msg) => assert_eq!(msg, "Prohibitions violated"),
        TransferOutcome::Success => panic!("expected a refusal"),
    }
}

#[test]
fn or_constraints_need_one_branch() {
    let policy = Policy {
        profile: None,
        permission: Some(vec![rule(
            "use",
            Some(vec![Constraint::Logical(LogicalConstraint::Xone {
                xone: vec![atomic("spatial", Operator::Eq, "US"), atomic("spatial", Operator::Eq, "FR")],
            })]),
        )]),
        prohibition: None,
        obligation: None,
    };
    assert!(matches!(check_transfer_policy_at(&policy, &claims_with("country", "FR"), "x"), TransferOutcome::Success));
    assert!(matches!(check_transfer_policy_at(&policy, &claims_with("country", "DE"), "x"), TransferOutcome::Forbidden(_)));
}

#[test]
fn a_later_claim_replaces_an_earlier_one() {
    let mut claims = claims_with("country", "US");
    claims.insert("country".into(), Json::String("DE".into()));
    assert_eq!(claims.get_str("country"), Some("DE".to_string()));
    claims.insert("country".into(), Json::Bool(true));
    assert_eq!(claims.get_str("country"), None);
}

#[test]
fn unrestricted_policy_allows_every_transfer() {
    let policy = Policy { profile: None, permission: Some(vec![]), prohibition: None, obligation: None };
    assert!(matches!(check_transfer_policy(&policy, &AuthClaims::default()), TransferOutcome::Success));
}

#[test]
fn adding_rules_never_allows_more() {
    let claims = claims_with("country", "DE");
    let smaller = Policy {
        profile: None,
        permission: Some(vec![rule("use", Some(vec![atomic("spatial", Operator::Eq, "DE")]))]),
        prohibition: None,
        obligation: None,
    };
    let larger = Policy {
        profile: None,
        permission: Some(vec![
            rule("use", Some(vec![atomic("spatial", Operator::Eq, "DE")])),
            rule("use", Some(vec![atomic("role", Operator::Eq, "admin")])),
        ]),
        prohibition: Some(vec![rule("use", Some(vec![atomic("spatial", Operator::Eq, "FR")]))]),
        obligation: None,
    };
    assert!(matches!(check_transfer_policy(&smaller, &claims), TransferOutcome::Success));
    assert!(matches!(check_transfer_policy(&larger, &claims), TransferOutcome::Forbidden(_)));
}
