use kiro_switch::account::{build_switch_params, Account, UsageData};
use kiro_switch::amount::Amount;
use kiro_switch::selection::{
    calculate_remaining, find_available_account, find_first_usable_account,
    find_next_available_account, position_of_id, unusable_status,
};

fn amount(value: f64) -> Amount {
    Amount::from_bits(value.to_bits())
}

fn usage(remaining: Option<f64>) -> UsageData {
    UsageData {
        document: "{}".to_string(),
        remaining: remaining.map(amount),
        email: None,
        user_id: None,
        capped: false,
    }
}

fn account(id: &str, remaining: f64) -> Account {
    Account {
        id: id.to_string(),
        email: Some(format!("{id}@example.com")),
        status: "active".to_string(),
        enabled: true,
        access_token: None,
        refresh_token: None,
        provider: None,
        auth_method: None,
        profile_arn: None,
        start_url: None,
        client_id: None,
        client_secret: None,
        client_id_hash: None,
        region: None,
        user_id: None,
        machine_id: None,
        usage_data: Some(usage(Some(remaining))),
    }
}

fn id(found: Option<Account>) -> Option<String> {
    found.map(|a| a.id)
}

#[test]
fn amounts_compare_as_doubles() {
    let values = [
        f64::NEG_INFINITY,
        f64::MIN,
        -1.5,
        -f64::MIN_POSITIVE,
        -5e-324,
        -0.0,
        0.0,
        5e-324,
        f64::MIN_POSITIVE,
        0.1,
        1.0,
        1.0 + f64::EPSILON,
        f64::MAX,
        f64::INFINITY,
        f64::NAN,
        -f64::NAN,
    ];
    for x in values {
        for y in values {
            assert_eq!(amount(x).gt(amount(y)), x > y, "{x} > {y}");
            assert_eq!(amount(x).le(amount(y)), x <= y, "{x} <= {y}");
            assert_eq!(amount(x).same(amount(y)), x == y, "{x} == {y}");
        }
    }
    assert_eq!(f64::from_bits(Amount::one().bits), 1.0);
    assert_eq!(f64::from_bits(Amount::zero().bits), 0.0);
}

#[test]
fn remaining_is_zero_without_usage_details() {
    assert_eq!(calculate_remaining(&account("a", 2.5)).bits, 2.5f64.to_bits());
    let mut a = account("a", 2.5);
    a.usage_data = Some(usage(None));
    assert_eq!(calculate_remaining(&a).bits, 0);
    a.usage_data = None;
    assert_eq!(calculate_remaining(&a).bits, 0);
}

#[test]
fn banned_and_invalid_are_unusable() {
    assert!(unusable_status("banned"));
    assert!(unusable_status("invalid"));
    assert!(!unusable_status("capped"));
    assert!(!unusable_status("Banned"));
    assert!(!unusable_status(""));
}

#[test]
fn the_account_with_the_most_left_takes_over() {
    let accounts = vec![account("a", 0.5), account("b", 7.0), account("c", 9.0), account("d", 3.0)];
    assert_eq!(
        id(find_available_account(&accounts, &accounts[0], amount(1.0))),
        Some("c".to_string())
    );
    assert_eq!(
        id(find_available_account(&accounts, &accounts[2], amount(1.0))),
        Some("b".to_string())
    );
}

#[test]
fn the_last_of_the_largest_takes_over() {
    let accounts = vec![account("a", 0.0), account("b", 9.0), account("c", 9.0), account("d", 8.0)];
    assert_eq!(
        id(find_available_account(&accounts, &accounts[0], amount(1.0))),
        Some("c".to_string())
    );
}

#[test]
fn an_amount_that_is_no_number_can_take_over() {
    let accounts = vec![account("a", 0.0), account("b", 9.0), account("c", f64::NAN)];
    assert_eq!(
        id(find_available_account(&accounts, &accounts[0], amount(1.0))),
        Some("c".to_string())
    );
}

#[test]
fn accounts_out_of_service_do_not_take_over() {
    let mut disabled = account("b", 9.0);
    disabled.enabled = false;
    let mut banned = account("c", 9.0);
    banned.status = "BANNED".to_string();
    let mut invalid = account("d", 9.0);
    invalid.status = "Invalid".to_string();
    let at_threshold = account("e", 1.0);
    let accounts = vec![account("a", 0.0), disabled, banned, invalid, at_threshold];
    assert_eq!(id(find_available_account(&accounts, &accounts[0], amount(1.0))), None);
    assert_eq!(
        id(find_available_account(&accounts, &accounts[0], amount(0.9))),
        Some("e".to_string())
    );
    assert_eq!(id(find_next_available_account(&accounts, &accounts[0])), Some("e".to_string()));
}

#[test]
fn the_rotation_goes_round_the_list() {
    let accounts = vec![account("a", 1.0), account("b", 0.0), account("c", 1.0), account("d", 0.0)];
    assert_eq!(id(find_next_available_account(&accounts, &accounts[0])), Some("c".to_string()));
    assert_eq!(id(find_next_available_account(&accounts, &accounts[1])), Some("c".to_string()));
    assert_eq!(id(find_next_available_account(&accounts, &accounts[2])), Some("a".to_string()));
    assert_eq!(id(find_next_available_account(&accounts, &accounts[3])), Some("a".to_string()));
}

#[test]
fn the_rotation_never_stays_and_needs_a_listed_account() {
    let accounts = vec![account("a", 1.0), account("b", 0.0)];
    assert_eq!(id(find_next_available_account(&accounts, &accounts[0])), None);
    assert_eq!(id(find_next_available_account(&accounts, &account("x", 1.0))), None);
    assert_eq!(id(find_next_available_account(&[], &accounts[0])), None);
    assert_eq!(position_of_id(&accounts, "b"), Some(1));
    assert_eq!(position_of_id(&accounts, "x"), None);
}

#[test]
fn the_first_usable_account_has_more_than_zero() {
    let mut banned = account("a", 5.0);
    banned.status = "banned".to_string();
    let accounts = vec![banned, account("b", 0.0), account("c", f64::NAN), account("d", 0.1)];
    assert_eq!(id(find_first_usable_account(&accounts)), Some("d".to_string()));
    assert_eq!(id(find_first_usable_account(&accounts[..3])), None);
}

#[test]
fn switch_params_hold_the_credentials() {
    let mut a = account("a", 1.0);
    let empty = build_switch_params(&a);
    assert_eq!(empty.access_token, "");
    assert_eq!(empty.refresh_token, "");
    assert_eq!(empty.provider, "");
    assert_eq!(empty.auth_method, None);
    assert_eq!(empty.email, Some("a@example.com".to_string()));
    let some = |s: &str| Some(s.to_string());
    a.access_token = some("at");
    a.refresh_token = some("rt");
    a.provider = some("Google");
    a.auth_method = some("social");
    a.profile_arn = some("arn");
    a.start_url = some("url");
    a.client_id = some("cid");
    a.client_secret = some("cs");
    a.client_id_hash = some("h");
    a.region = some("r");
    let full = build_switch_params(&a);
    assert_eq!(full.access_token, "at");
    assert_eq!(full.refresh_token, "rt");
    assert_eq!(full.provider, "Google");
    assert_eq!(full.auth_method, some("social"));
    assert_eq!(full.profile_arn, some("arn"));
    assert_eq!(full.start_url, some("url"));
    assert_eq!(full.client_id, some("cid"));
    assert_eq!(full.client_secret, some("cs"));
    assert_eq!(full.client_id_hash, some("h"));
    assert_eq!(full.region, some("r"));
}
