use kiro_switch::account::{Account, KiroLocalToken, UsageData};
use kiro_switch::amount::Amount;
use kiro_switch::identify::{
    can_cut_token, find_exact_match, find_token_match, get_current_account, plan_usage_lookup,
    resolve_current_account_by_usage, CurrentAccount,
};

fn some(s: &str) -> Option<String> {
    Some(s.to_string())
}

fn amount(value: f64) -> Amount {
    Amount::from_bits(value.to_bits())
}

fn usage(remaining: f64) -> UsageData {
    UsageData {
        document: "{}".to_string(),
        remaining: Some(amount(remaining)),
        email: None,
        user_id: None,
        capped: false,
    }
}

fn account(id: &str, remaining: f64) -> Account {
    Account {
        id: id.to_string(),
        email: Some(format!("{id}@example.com")),
        status: "active".to_string(),
        enabled: true,
        access_token: None,
        refresh_token: None,
        provider: None,
        auth_method: None,
        profile_arn: None,
        start_url: None,
        client_id: None,
        client_secret: None,
        client_id_hash: None,
        region: None,
        user_id: None,
        machine_id: None,
        usage_data: Some(usage(remaining)),
    }
}

fn token(refresh: Option<&str>, access: Option<&str>) -> KiroLocalToken {
    KiroLocalToken {
        access_token: access.map(str::to_string),
        refresh_token: refresh.map(str::to_string),
        client_id_hash: None,
        region: None,
        profile_arn: None,
    }
}

fn with_tokens(id: &str, refresh: Option<&str>, access: Option<&str>) -> Account {
    let mut a = account(id, 1.0);
    a.refresh_token = refresh.map(str::to_string);
    a.access_token = access.map(str::to_string);
    a
}

#[test]
fn the_refresh_token_comes_first() {
    let accounts = vec![
        with_tokens("a", None, Some("at")),
        with_tokens("b", Some("rt"), None),
        with_tokens("c", Some("rt"), None),
    ];
    assert_eq!(find_exact_match(&accounts, &token(Some("rt"), Some("at"))), Some(1));
    assert_eq!(find_token_match(&accounts, &token(Some("rt"), Some("at"))), Some(1));
    assert_eq!(find_token_match(&accounts, &token(Some("other"), Some("at"))), Some(0));
    assert_eq!(find_token_match(&accounts, &token(None, None)), None);
}

#[test]
fn an_equal_access_token_comes_before_one_that_begins_alike() {
    let accounts = vec![
        with_tokens("a", None, Some("aaaaaaaaaaaaaaaaaaaa-old")),
        with_tokens("b", None, Some("aaaaaaaaaaaaaaaaaaaa-new")),
    ];
    let t = |s: &str| token(None, Some(s));
    assert_eq!(find_token_match(&accounts, &t("aaaaaaaaaaaaaaaaaaaa-new")), Some(1));
    assert_eq!(find_token_match(&accounts, &t("aaaaaaaaaaaaaaaaaaaa-third")), Some(0));
    assert_eq!(find_token_match(&accounts, &t("aaaaaaaaaaaaaaaaaaab-third")), None);
    assert_eq!(find_token_match(&accounts, &t("aaa")), Some(0));
    assert_eq!(find_token_match(&accounts, &t("")), Some(0));
    assert_eq!(find_exact_match(&accounts, &t("aaa")), None);
}

#[test]
fn a_token_is_cut_by_bytes() {
    let accounts = vec![with_tokens("a", None, Some("\u{e9}\u{e9}\u{e9}\u{e9}\u{e9}\u{e9}\u{e9}\u{e9}\u{e9}\u{e9}xyz"))];
    let local = token(None, Some("\u{e9}\u{e9}\u{e9}\u{e9}\u{e9}\u{e9}\u{e9}\u{e9}\u{e9}\u{e9}other"));
    assert_eq!(find_token_match(&accounts, &local), Some(0));
}

#[test]
fn a_token_is_cut_where_a_character_ends() {
    assert!(can_cut_token(&token(None, None)));
    assert!(can_cut_token(&token(None, Some(""))));
    assert!(can_cut_token(&token(None, Some("é"))));
    assert!(can_cut_token(&token(None, Some("aaaaaaaaaaaaaaaaaaéa"))));
    assert!(!can_cut_token(&token(None, Some("aaaaaaaaaaaaaaaaaaaéa"))));
    assert!(can_cut_token(&token(None, Some("aaaaaaaaaaaaaaaaaaaaéa"))));
}

#[test]
fn the_client_hash_comes_last_and_is_not_blank() {
    let mut a = with_tokens("a", None, None);
    a.client_id_hash = some("  ");
    let mut b = with_tokens("b", None, None);
    b.client_id_hash = some("hash");
    let accounts = vec![a, b];
    let mut local = token(Some("rt"), Some("at"));
    local.client_id_hash = some("hash");
    assert_eq!(find_token_match(&accounts, &local), Some(1));
    local.client_id_hash = some("  ");
    assert_eq!(find_token_match(&accounts, &local), None);
}

#[test]
fn a_lookup_takes_what_the_list_knows() {
    let mut a = account("a", 1.0);
    a.machine_id = some("  ");
    let mut b = with_tokens("b", Some("rt"), None);
    b.machine_id = some(" M1 ");
    let mut c = with_tokens("c", Some("rt"), None);
    c.machine_id = some("M2");
    c.profile_arn = some("arn-c");
    let accounts = vec![a, b, c];
    let mut local = token(Some("rt"), Some("at"));
    local.region = some(" eu-west-1 ");
    let lookup = plan_usage_lookup(&accounts, &local).unwrap();
    assert_eq!(lookup.access_token, "at");
    assert_eq!(lookup.machine_id, "M1");
    assert_eq!(lookup.regions, vec!["eu-west-1".to_string()]);
    assert_eq!(lookup.profile_arn, some("arn-c"));
    local.profile_arn = some("own");
    local.region = some("  ");
    let lookup = plan_usage_lookup(&accounts, &local).unwrap();
    assert_eq!(lookup.regions, vec!["us-east-1".to_string()]);
    assert_eq!(lookup.profile_arn, some("own"));
    let lookup = plan_usage_lookup(&[], &token(None, Some("at"))).unwrap();
    assert_eq!(lookup.machine_id, "auto-switch");
    assert_eq!(lookup.profile_arn, None);
    assert!(plan_usage_lookup(&accounts, &token(Some("rt"), Some(""))).is_none());
    assert!(plan_usage_lookup(&accounts, &token(Some("rt"), None)).is_none());
}

#[test]
fn the_current_account_is_found_asked_for_or_unknown() {
    let accounts = vec![with_tokens("a", Some("rt"), None)];
    match get_current_account(&accounts, Some(&token(Some("rt"), None))) {
        CurrentAccount::Found(a) => assert_eq!(a.id, "a"),
        _ => panic!("the account is known by its token"),
    }
    match get_current_account(&accounts, Some(&token(None, Some("at")))) {
        CurrentAccount::Ask(lookup) => assert_eq!(lookup.access_token, "at"),
        _ => panic!("the account is to be asked for"),
    }
    assert!(matches!(
        get_current_account(&accounts, Some(&token(Some("x"), None))),
        CurrentAccount::Unknown
    ));
    assert!(matches!(get_current_account(&accounts, None), CurrentAccount::Unknown));
}

#[test]
fn a_quota_document_tells_the_user() {
    let mut a = with_tokens("a", Some("old-rt"), Some("old-at"));
    a.user_id = some("u1");
    let b = with_tokens("b", None, None);
    let accounts = vec![a, b];
    let mut document = usage(3.0);
    document.email = some("B@Example.COM");
    let found =
        resolve_current_account_by_usage(&accounts, &token(Some("rt"), None), document.clone())
            .unwrap();
    assert_eq!(found.id, "b");
    assert_eq!(found.refresh_token, some("rt"));
    assert_eq!(found.access_token, None);
    assert_eq!(
        found.usage_data.unwrap().remaining.unwrap().bits,
        3.0f64.to_bits()
    );
    document.user_id = some("u1");
    let found =
        resolve_current_account_by_usage(&accounts, &token(None, Some("at")), document).unwrap();
    assert_eq!(found.id, "a");
    assert_eq!(found.refresh_token, some("old-rt"));
    assert_eq!(found.access_token, some("at"));
    assert!(resolve_current_account_by_usage(&accounts, &token(None, None), usage(1.0)).is_none());
    let mut other = usage(1.0);
    other.email = some("\u{c9}@example.com");
    let mut accented = with_tokens("c", None, None);
    accented.email = some("\u{e9}@example.com");
    assert!(resolve_current_account_by_usage(&[accented], &token(None, None), other).is_none());
}
