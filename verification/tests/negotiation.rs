use chrono::{Duration, Utc};
use dsp_rs::policy::{copy_rules, AtomicConstraint, Constraint, LogicalConstraint, Operator, Policy, RightOperand, Rule};
use dsp_rs::policy_engine::negotiation::{negotiate_policy, NegotiationOutcome};

fn atomic(left: &str, operator: Operator, right: &str) -> Constraint {
    Constraint::Atomic(AtomicConstraint {
        left_operand: left.into(),
        operator,
        right_operand: RightOperand::String(right.into()),
    })
}

fn rule(action: &str, constraint: Option<Vec<Constraint>>) -> Rule {
    Rule { action: action.into(), constraint }
}

fn in_days(days: i64) -> String {
    (Utc::now() + Duration::days(days)).to_rfc3339()
}

#[test]
fn test_permissions() {
    let now = Utc::now();
    let required = Policy {
        profile: None,
        permission: Some(vec![rule(
            "use",
            Some(vec![atomic("temporal", Operator::Lteq, &(now + Duration::days(30)).to_rfc3339())]),
        )]),
        prohibition: None,
        obligation: None,
    };

    let offered = Policy {
        profile: None,
        permission: Some(vec![rule("use", None)]),
        prohibition: None,
        obligation: None,
    };
    assert!(matches!(negotiate_policy(&required, &offered), NegotiationOutcome::Forbidden(_)));

    let offered = Policy {
        profile: None,
        permission: Some(vec![rule(
            "use",
            Some(vec![atomic("temporal", Operator::Lteq, &(now + Duration::days(60)).to_rfc3339())]),
        )]),
        prohibition: None,
        obligation: None,
    };
    assert!(matches!(negotiate_policy(&required, &offered), NegotiationOutcome::Forbidden(_)));

    let offered = Policy {
        profile: None,
        permission: Some(vec![rule(
            "use",
            Some(vec![atomic("temporal", Operator::Lteq, &(now + Duration::days(20)).to_rfc3339())]),
        )]),
        prohibition: None,
        obligation: None,
    };
    assert!(
        matches!(negotiate_policy(&required, &offered), NegotiationOutcome::Success(policy) if policy == offered)
    );

    let required = Policy {
        profile: None,
        permission: Some(vec![rule("use", Some(vec![atomic("spatial", Operator::IsPartOf, "_:EU")]))]),
        prohibition: None,
        obligation: None,
    };

    let offered = Policy {
        profile: None,
        permission: Some(vec![rule("use", Some(vec![atomic("spatial", Operator::Eq, "DE")]))]),
        prohibition: None,
        obligation: None,
    };
    assert!(
        matches!(negotiate_policy(&required, &offered), NegotiationOutcome::Success(policy) if policy == offered)
    );
}

#[test]
fn test_prohibitions() {
    let now = Utc::now();
    let required = Policy {
        profile: None,
        permission: Some(vec![rule(
            "use",
            Some(vec![atomic("temporal", Operator::Lteq, &(now + Duration::days(30)).to_rfc3339())]),
        )]),
        prohibition: Some(vec![rule("use", Some(vec![atomic("file_path", Operator::Eq, "/var/secure")]))]),
        obligation: None,
    };

    let offered = Policy {
        profile: None,
        permission: Some(vec![rule(
            "use",
            Some(vec![atomic("temporal", Operator::Lteq, &(now + Duration::days(10)).to_rfc3339())]),
        )]),
        prohibition: None,
        obligation: None,
    };
    assert!(matches!(negotiate_policy(&required, &offered),
        NegotiationOutcome::Success(Policy { permission, prohibition, .. })
            if permission == offered.permission && prohibition == required.prohibition,
    ));

    let offered = Policy {
        profile: None,
        permission: Some(vec![rule(
            "use",
            Some(vec![Constraint::Logical(LogicalConstraint::And {
                and: vec![
                    atomic("temporal", Operator::Lteq, &(now + Duration::days(10)).to_rfc3339()),
                    atomic("file_path", Operator::Eq, "/home/data"),
                ],
            })]),
        )]),
        prohibition: None,
        obligation: None,
    };
    assert!(matches!(negotiate_policy(&required, &offered),
        NegotiationOutcome::Success(Policy { permission, prohibition, .. })
            if permission == offered.permission && prohibition == required.prohibition,
    ));

    let offered = Policy {
        profile: None,
        permission: Some(vec![rule(
            "use",
            Some(vec![Constraint::Logical(LogicalConstraint::Or {
                or: vec![
                    atomic("temporal", Operator::Lteq, &(now + Duration::days(10)).to_rfc3339()),
                    atomic("file_path", Operator::Eq, "/home/data"),
                ],
            })]),
        )]),
        prohibition: None,
        obligation: None,
    };
    assert!(matches!(negotiate_policy(&required, &offered), NegotiationOutcome::Forbidden(_)));

    let offered = Policy {
        profile: None,
        permission: Some(vec![rule(
            "use",
            Some(vec![Constraint::Logical(LogicalConstraint::And {
                and: vec![
                    atomic("temporal", Operator::Lteq, &(now + Duration::days(10)).to_rfc3339()),
                    atomic("file_path", Operator::Eq, "/var/secure"),
                ],
            })]),
        )]),
        prohibition: None,
        obligation: None,
    };
    assert!(matches!(negotiate_policy(&required, &offered), NegotiationOutcome::Forbidden(_)));
}

#[test]
fn test_obligations() {
    let now = Utc::now();
    let required = Policy {
        profile: None,
        permission: Some(vec![rule(
            "use",
            Some(vec![atomic("temporal", Operator::Lteq, &(now + Duration::days(30)).to_rfc3339())]),
        )]),
        prohibition: None,
        obligation: Some(vec![rule("report", Some(vec![atomic("interval", Operator::Eq, "monthly")]))]),
    };

    let offered = Policy {
        profile: None,
        permission: Some(vec![rule(
            "use",
            Some(vec![atomic("temporal", Operator::Lteq, &(now + Duration::days(10)).to_rfc3339())]),
        )]),
        prohibition: None,
        obligation: None,
    };
    assert!(matches!(negotiate_policy(&required, &offered), NegotiationOutcome::Forbidden(_)));

    let offered = Policy {
        profile: None,
        permission: Some(vec![rule(
            "use",
            Some(vec![atomic("temporal", Operator::Lteq, &(now + Duration::days(10)).to_rfc3339())]),
        )]),
        prohibition: None,
        obligation: Some(vec![rule("report", Some(vec![atomic("interval", Operator::Eq, "daily")]))]),
    };
    assert!(matches!(negotiate_policy(&required, &offered), NegotiationOutcome::Forbidden(_)));

    let offered = Policy {
        profile: None,
        permission: Some(vec![rule(
            "use",
            Some(vec![atomic("temporal", Operator::Lteq, &(now + Duration::days(10)).to_rfc3339())]),
        )]),
        prohibition: None,
        obligation: Some(vec![rule("report", Some(vec![atomic("interval", Operator::Eq, "monthly")]))]),
    };
    assert!(matches!(negotiate_policy(&required, &offered),
        NegotiationOutcome::Success(Policy { permission, obligation, .. })
            if permission == offered.permission && obligation == required.obligation,
    ));
}

#[test]
fn forbidden_messages_name_the_action() {
    let required = Policy {
        profile: None,
        permission: Some(vec![rule("use", None)]),
        prohibition: None,
        obligation: None,
    };
    let offered = Policy { profile: None, permission: Some(vec![rule("read", None)]), prohibition: None, obligation: None };
    match negotiate_policy(&required, &offered) {
        NegotiationOutcome::Forbidden(msg) => assert_eq!(
            msg,
            "The offer's policy does not satisfy the permission requirement for action 'use'"
        ),
        other => panic!("unexpected {:?}", other),
    }

    let required = Policy {
        profile: None,
        permission: None,
        prohibition: Some(vec![rule("share", None)]),
        obligation: None,
    };
    let offered = Policy { profile: None, permission: Some(vec![rule("share", None)]), prohibition: None, obligation: None };
    match negotiate_policy(&required, &offered) {
        NegotiationOutcome::Forbidden(msg) => assert_eq!(msg, "Requested action 'share' collides with prohibition"),
        other => panic!("unexpected {:?}", other),
    }

    let required = Policy {
        profile: None,
        permission: None,
        prohibition: None,
        obligation: Some(vec![rule("delete", None)]),
    };
    let offered = Policy { profile: None, permission: None, prohibition: None, obligation: None };
    match negotiate_policy(&required, &offered) {
        NegotiationOutcome::Forbidden(msg) => {
            assert_eq!(msg, "Required obligation 'delete' was not explicitly matched by the offer")
        },
        other => panic!("unexpected {:?}", other),
    }
}

#[test]
fn agreement_keeps_required_profile_and_first_meeting_offer() {
    let required = Policy {
        profile: Some("https://example.org/profile".into()),
        permission: Some(vec![rule("use", Some(vec![atomic("spatial", Operator::IsPartOf, "_:EU")]))]),
        prohibition: None,
        obligation: None,
    };
    let offered = Policy {
        profile: None,
        permission: Some(vec![
            rule("use", Some(vec![atomic("spatial", Operator::Eq, "US")])),
            rule("use", Some(vec![atomic("spatial", Operator::Eq, "fr")])),
            rule("use", Some(vec![atomic("spatial", Operator::Eq, "DE")])),
        ]),
        prohibition: None,
        obligation: None,
    };
    match negotiate_policy(&required, &offered) {
        NegotiationOutcome::Success(policy) => {
            assert_eq!(policy.profile, Some("https://example.org/profile".to_string()));
            assert_eq!(policy.permission, Some(vec![rule("use", Some(vec![atomic("spatial", Operator::Eq, "fr")]))]));
        },
        other => panic!("unexpected {:?}", other),
    }
}

#[test]
fn empty_required_policy_is_met_by_anything() {
    let required = Policy { profile: None, permission: None, prohibition: None, obligation: None };
    let offered = Policy { profile: None, permission: Some(vec![rule("use", None)]), prohibition: None, obligation: None };
    assert!(matches!(negotiate_policy(&required, &offered),
        NegotiationOutcome::Success(Policy { permission: None, prohibition: None, obligation: None, profile: None })));
}

#[test]
fn temporal_bounds_compare_instants_across_offsets() {
    // 10:00+02:00 is 08:00Z, earlier than 09:00Z
    let required = Policy {
        profile: None,
        permission: Some(vec![rule("use", Some(vec![atomic("temporal", Operator::Lteq, "2030-01-01T09:00:00Z")]))]),
        prohibition: None,
        obligation: None,
    };
    let offered = Policy {
        profile: None,
        permission: Some(vec![rule("use", Some(vec![atomic("temporal", Operator::Lt, "2030-01-01T10:00:00+02:00")]))]),
        prohibition: None,
        obligation: None,
    };
    assert!(matches!(negotiate_policy(&required, &offered), NegotiationOutcome::Success(_)));
    let _ = in_days(0);
}

#[test]
fn repeating_the_required_obligations_confirms_them() {
    let obligations = vec![
        rule("report", Some(vec![atomic("interval", Operator::Eq, "monthly")])),
        rule(
            "delete",
            Some(vec![Constraint::Logical(LogicalConstraint::Or {
                or: vec![atomic("a", Operator::Eq, "1"), atomic("b", Operator::Neq, "2")],
            })]),
        ),
    ];
    let required = Policy { profile: None, permission: None, prohibition: None, obligation: Some(copy_rules(&obligations)) };
    let offered = Policy { profile: None, permission: None, prohibition: None, obligation: Some(obligations) };
    assert!(matches!(negotiate_policy(&required, &offered), NegotiationOutcome::Success(_)));
}

#[test]
fn bounds_are_compared_inclusively() {
    let when = "2030-01-01T00:00:00Z";
    let required = Policy {
        profile: None,
        permission: Some(vec![rule("use", Some(vec![atomic("temporal", Operator::Lt, when)]))]),
        prohibition: None,
        obligation: None,
    };
    let offered = Policy {
        profile: None,
        permission: Some(vec![rule("use", Some(vec![atomic("temporal", Operator::Lteq, when)]))]),
        prohibition: None,
        obligation: None,
    };
    assert!(matches!(negotiate_policy(&required, &offered), NegotiationOutcome::Success(_)));
}
