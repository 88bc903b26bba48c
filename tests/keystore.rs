use nono::keystore::{build_secret_mappings, SecretMappings};

#[test]
fn test_build_secret_mappings_from_cli() {
    let mappings =
        build_secret_mappings(Some("openai_api_key,anthropic_api_key"), &SecretMappings::new());

    assert_eq!(mappings.len(), 2);
    assert_eq!(
        mappings.get("openai_api_key"),
        Some(&"OPENAI_API_KEY".to_string())
    );
    assert_eq!(
        mappings.get("anthropic_api_key"),
        Some(&"ANTHROPIC_API_KEY".to_string())
    );
}

#[test]
fn test_build_secret_mappings_from_profile() {
    let mut profile_secrets = SecretMappings::new();
    profile_secrets.insert("github_token".to_string(), "GITHUB_TOKEN".to_string());

    let mappings = build_secret_mappings(None, &profile_secrets);

    assert_eq!(mappings.len(), 1);
    assert_eq!(
        mappings.get("github_token"),
        Some(&"GITHUB_TOKEN".to_string())
    );
}

#[test]
fn test_build_secret_mappings_cli_overrides_profile() {
    let mut profile_secrets = SecretMappings::new();
    profile_secrets.insert("api_key".to_string(), "PROFILE_API_KEY".to_string());

    let mappings = build_secret_mappings(Some("api_key"), &profile_secrets);

    assert_eq!(mappings.len(), 1);
    assert_eq!(mappings.get("api_key"), Some(&"API_KEY".to_string()));
}

#[test]
fn test_build_secret_mappings_handles_whitespace() {
    let mappings = build_secret_mappings(Some(" key1 , key2 , key3 "), &SecretMappings::new());

    assert_eq!(mappings.len(), 3);
    assert!(mappings.contains_key("key1"));
    assert!(mappings.contains_key("key2"));
    assert!(mappings.contains_key("key3"));
}

#[test]
fn test_build_secret_mappings_empty() {
    let mappings = build_secret_mappings(None, &SecretMappings::new());
    assert!(mappings.is_empty());
}

#[test]
fn cli_names_are_trimmed_and_upper_cased() {
    let mappings = build_secret_mappings(Some("  gh_token\t"), &SecretMappings::new());
    assert_eq!(mappings.get("gh_token"), Some(&"GH_TOKEN".to_string()));
    assert!(!mappings.contains_key("  gh_token\t"));
}

#[test]
fn empty_cli_pieces_are_skipped() {
    let mappings = build_secret_mappings(Some(",, ,a,"), &SecretMappings::new());
    assert_eq!(mappings.len(), 1);
    assert_eq!(mappings.get("a"), Some(&"A".to_string()));
    let mappings = build_secret_mappings(Some(""), &SecretMappings::new());
    assert!(mappings.is_empty());
}

#[test]
fn profile_entries_survive_other_cli_accounts() {
    let mut profile = SecretMappings::new();
    profile.insert("db".to_string(), "DATABASE_PASSWORD".to_string());
    let mappings = build_secret_mappings(Some("api,db2"), &profile);
    assert_eq!(mappings.len(), 3);
    assert_eq!(mappings.get("db"), Some(&"DATABASE_PASSWORD".to_string()));
    assert_eq!(mappings.get("db2"), Some(&"DB2".to_string()));
    assert_eq!(mappings.get("missing"), None);
}

#[test]
fn insert_replaces_and_pairs_list_each_account_once() {
    let mut m = SecretMappings::new();
    m.insert("a".to_string(), "X".to_string());
    m.insert("b".to_string(), "Y".to_string());
    m.insert("a".to_string(), "Z".to_string());
    assert_eq!(m.len(), 2);
    let mut pairs = m.to_pairs();
    pairs.sort();
    assert_eq!(
        pairs,
        vec![
            ("a".to_string(), "Z".to_string()),
            ("b".to_string(), "Y".to_string())
        ]
    );
    let copy = m.duplicate();
    assert_eq!(copy.get("a"), Some(&"Z".to_string()));
}
