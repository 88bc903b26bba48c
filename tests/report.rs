use nono::query::{AllowReason, DenyReason, QueryResult};

fn samples() -> Vec<QueryResult> {
    vec![
        QueryResult::Allowed {
            reason: AllowReason::ExplicitGrant,
            granted_by: "--read /data".to_string(),
        },
        QueryResult::Allowed {
            reason: AllowReason::WithinWorkdir,
            granted_by: String::new(),
        },
        QueryResult::Denied {
            reason: DenyReason::SensitivePath,
            category: Some("ssh".to_string()),
            suggestion: "--read ~/.ssh".to_string(),
        },
        QueryResult::Denied {
            reason: DenyReason::NotInAllowedPaths,
            category: None,
            suggestion: "--write /x".to_string(),
        },
        QueryResult::NotSandboxed {
            message: "not inside a sandbox".to_string(),
        },
    ]
}

fn same(a: &QueryResult, b: &QueryResult) -> bool {
    a == b
}

#[test]
fn structured_round_trip() {
    for v in samples() {
        let back = QueryResult::from_fields(&v.to_fields()).expect("decodes");
        assert!(same(&v, &back), "{:?} became {:?}", v, back);
    }
}

#[test]
fn results_compare_by_content() {
    let all = samples();
    for (i, a) in all.iter().enumerate() {
        for (j, b) in samples().iter().enumerate() {
            assert_eq!(a == b, i == j, "{:?} vs {:?}", a, b);
        }
    }
    let with_category = QueryResult::Denied {
        reason: DenyReason::NotInAllowedPaths,
        category: Some("x".to_string()),
        suggestion: "--write /x".to_string(),
    };
    assert!(with_category != all[3]);
}

#[test]
fn structured_fields_use_the_schema_names() {
    let v = QueryResult::Denied {
        reason: DenyReason::NotInAllowedPaths,
        category: None,
        suggestion: "--allow /etc".to_string(),
    };
    let f = v.to_fields();
    let expect = vec![
        ("status".to_string(), "denied".to_string()),
        ("reason".to_string(), "not_in_allowed_paths".to_string()),
        ("suggestion".to_string(), "--allow /etc".to_string()),
    ];
    assert_eq!(f, expect);
    let allowed = QueryResult::Allowed {
        reason: AllowReason::NetworkAllowedByDefault,
        granted_by: "g".to_string(),
    };
    assert_eq!(allowed.to_fields()[1].1, "network_allowed_by_default");
}

#[test]
fn malformed_records_are_refused() {
    let f = |pairs: &[(&str, &str)]| -> Vec<(String, String)> {
        pairs.iter().map(|(k, v)| (k.to_string(), v.to_string())).collect()
    };
    assert!(QueryResult::from_fields(&f(&[])).is_none());
    assert!(QueryResult::from_fields(&f(&[("status", "maybe")])).is_none());
    assert!(QueryResult::from_fields(&f(&[("status", "allowed"), ("reason", "explicit_grant")])).is_none());
    assert!(QueryResult::from_fields(&f(&[
        ("status", "denied"),
        ("reason", "bogus"),
        ("suggestion", "s")
    ]))
    .is_none());
    let v = QueryResult::from_fields(&f(&[
        ("suggestion", "--read /a"),
        ("reason", "network_blocked"),
        ("status", "denied"),
    ]))
    .expect("field order does not matter");
    assert!(same(
        &v,
        &QueryResult::Denied {
            reason: DenyReason::NetworkBlocked,
            category: None,
            suggestion: "--read /a".to_string()
        }
    ));
}

#[test]
fn text_rendering() {
    let v = QueryResult::Denied {
        reason: DenyReason::SensitivePath,
        category: Some("ssh".to_string()),
        suggestion: "--read ~/.ssh".to_string(),
    };
    assert_eq!(
        v.render_text(),
        "DENIED\n  Reason: SensitivePath\n  Category: ssh\n  Suggestion: --read ~/.ssh\n"
    );
    let v = QueryResult::Allowed {
        reason: AllowReason::ExplicitGrant,
        granted_by: "--read /data".to_string(),
    };
    assert_eq!(
        v.render_text(),
        "ALLOWED\n  Reason: ExplicitGrant\n  Granted by: --read /data\n"
    );
    let v = QueryResult::NotSandboxed {
        message: "m".to_string(),
    };
    assert_eq!(v.render_text(), "NOT SANDBOXED\n  m\n");
}
