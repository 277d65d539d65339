use kiro_switch::account::{Account, AppSettings, KiroLocalToken, UsageData};
use kiro_switch::amount::Amount;
use kiro_switch::identify::find_exact_match;
use kiro_switch::machine::{
    account_machine_id_or_new, on_machine, resolve_machine_guid_switch_action,
    MachineGuidSwitchAction,
};
use kiro_switch::selection::find_next_available_account;
use kiro_switch::store::{
    choose_quota_token, persist_account_machine_id_if_needed, refresh_account_usage_for_switch,
    sync_local_tokens_to_account, UsageResult,
};

fn some(s: &str) -> Option<String> {
    Some(s.to_string())
}

fn amount(value: f64) -> Amount {
    Amount::from_bits(value.to_bits())
}

fn usage(remaining: f64) -> UsageData {
    UsageData {
        document: "{}".to_string(),
        remaining: Some(amount(remaining)),
        email: None,
        user_id: None,
        capped: false,
    }
}

fn account(id: &str, remaining: f64) -> Account {
    Account {
        id: id.to_string(),
        email: Some(format!("{id}@example.com")),
        status: "active".to_string(),
        enabled: true,
        access_token: None,
        refresh_token: None,
        provider: None,
        auth_method: None,
        profile_arn: None,
        start_url: None,
        client_id: None,
        client_secret: None,
        client_id_hash: None,
        region: None,
        user_id: None,
        machine_id: None,
        usage_data: Some(usage(remaining)),
    }
}

fn token(refresh: Option<&str>, access: Option<&str>) -> KiroLocalToken {
    KiroLocalToken {
        access_token: access.map(str::to_string),
        refresh_token: refresh.map(str::to_string),
        client_id_hash: None,
        region: None,
        profile_arn: None,
    }
}

fn account_with_machine_id(machine_id: Option<&str>) -> Account {
    let mut account = account("test", 0.0);
    account.email = some("test@example.com");
    account.machine_id = machine_id.map(str::to_string);
    account
}

#[test]
fn auto_switch_machine_guid_uses_existing_account_machine_id_by_default() {
    let account = account_with_machine_id(Some(" ACCOUNT-MACHINE "));
    let settings = AppSettings::default();

    assert_eq!(
        resolve_machine_guid_switch_action(&account, &settings),
        MachineGuidSwitchAction::UseAccountMachineId("account-machine".to_string())
    );
}

#[test]
fn auto_switch_machine_guid_generates_account_machine_id_when_bound_id_is_missing() {
    let account = account_with_machine_id(Some("   "));
    let settings = AppSettings::default();

    let MachineGuidSwitchAction::UseAccountMachineId(machine_id) =
        resolve_machine_guid_switch_action(&account, &settings);
    assert!(!machine_id.trim().is_empty());
    assert_ne!(
        machine_id.trim(),
        account.machine_id.as_deref().unwrap().trim()
    );
}

#[test]
fn a_new_machine_is_a_random_uuid() {
    let first = account_machine_id_or_new(&None);
    let second = account_machine_id_or_new(&None);
    assert_ne!(first, second);
    assert_eq!(first.len(), 36);
    let groups: Vec<usize> = first.split('-').map(str::len).collect();
    assert_eq!(groups, vec![8, 4, 4, 4, 12]);
    assert_eq!(&first[14..15], "4");
    assert!("89ab".contains(&first[19..20]));
    assert!(first
        .chars()
        .all(|c| c == '-' || c.is_ascii_digit() || ('a'..='f').contains(&c)));
    assert_eq!(account_machine_id_or_new(&some("\u{c9}A\n")), "\u{e9}a");
}

#[test]
fn an_account_takes_over_on_a_machine() {
    let a = on_machine(&account("a", 1.0), "m".to_string());
    assert_eq!(a.machine_id, some("m"));
    assert_eq!(a.id, "a");
}

#[test]
fn a_synced_session_is_recognised_as_its_account() {
    let mut accounts = vec![account("a", 1.0), account("b", 1.0)];
    let local = token(Some("rt"), Some("at"));
    assert_eq!(find_exact_match(&accounts, &local), None);
    let mut document = usage(4.0);
    document.email = some("other@example.com");
    document.user_id = some("u");
    let done =
        sync_local_tokens_to_account(&mut accounts, "b", Some("rt"), Some("at"), Some(&document));
    assert_eq!(done, Ok(()));
    assert_eq!(find_exact_match(&accounts, &local), Some(1));
    assert_eq!(accounts[1].email, some("b@example.com"));
    assert_eq!(accounts[1].user_id, some("u"));
    assert_eq!(
        accounts[1].usage_data.as_ref().unwrap().remaining.unwrap().bits,
        4.0f64.to_bits()
    );
    assert_eq!(accounts[0].refresh_token, None);
}

#[test]
fn sync_fills_in_what_is_missing_and_keeps_the_rest() {
    let mut a = account("a", 1.0);
    a.email = some("  ");
    a.user_id = some("mine");
    a.refresh_token = some("keep");
    let mut accounts = vec![a];
    let mut document = usage(1.0);
    document.user_id = some("u");
    let sync = |accounts: &mut Vec<Account>, document: &UsageData| {
        sync_local_tokens_to_account(accounts, "a", Some(""), None, Some(document))
    };
    assert_eq!(sync(&mut accounts, &document), Ok(()));
    assert_eq!(accounts[0].email, some("  "));
    assert_eq!(accounts[0].user_id, some("mine"));
    assert_eq!(accounts[0].refresh_token, some("keep"));
    document.email = some("new@example.com");
    assert_eq!(sync(&mut accounts, &document), Ok(()));
    assert_eq!(accounts[0].email, some("new@example.com"));
    let once = accounts[0].clone();
    assert_eq!(sync(&mut accounts, &document), Ok(()));
    assert_eq!(accounts[0].email, once.email);
    assert_eq!(accounts[0].user_id, once.user_id);
    assert_eq!(accounts[0].refresh_token, once.refresh_token);
    assert_eq!(
        sync_local_tokens_to_account(&mut accounts, "x", Some("rt"), None, None),
        Err("账号不存在".to_string())
    );
    assert_eq!(accounts[0].refresh_token, some("keep"));
}

#[test]
fn the_quota_is_read_with_the_sessions_token_first() {
    let mut a = account("a", 1.0);
    a.access_token = some("own");
    let local = token(None, Some("session"));
    assert_eq!(choose_quota_token(Some(&local), &a), Ok("session".to_string()));
    assert_eq!(choose_quota_token(Some(&token(None, Some(""))), &a), Ok("own".to_string()));
    assert_eq!(choose_quota_token(None, &a), Ok("own".to_string()));
    a.access_token = some("");
    assert_eq!(
        choose_quota_token(None, &a),
        Err("当前账号无 accessToken，无法刷新配额".to_string())
    );
    a.access_token = None;
    assert!(choose_quota_token(Some(&token(None, None)), &a).is_err());
}

fn result(capped: bool, is_banned: bool, is_auth_error: bool) -> UsageResult {
    let mut usage_data = usage(0.25);
    usage_data.capped = capped;
    UsageResult {
        usage_data,
        is_auth_error,
        is_banned,
    }
}

#[test]
fn a_quota_read_anew_is_written_to_the_list() {
    let cases = [
        (false, false, "active"),
        (true, false, "capped"),
        (false, true, "banned"),
        (true, true, "banned"),
    ];
    for (capped, banned, status) in cases {
        let mut accounts = vec![account("a", 9.0), account("b", 9.0)];
        let stale = account("b", 5.0);
        let refreshed =
            refresh_account_usage_for_switch(&mut accounts, &stale, result(capped, banned, false));
        let Ok(refreshed) = refreshed else {
            panic!("the credentials were not refused");
        };
        assert!(refreshed.listed);
        assert_eq!(refreshed.account.status, status);
        assert_eq!(accounts[1].status, status);
        assert_eq!(
            accounts[1].usage_data.as_ref().unwrap().remaining.unwrap().bits,
            0.25f64.to_bits()
        );
        assert_eq!(accounts[0].status, "active");
    }
}

#[test]
fn an_unlisted_account_only_gets_the_document() {
    let mut accounts = vec![account("a", 9.0)];
    let refreshed =
        refresh_account_usage_for_switch(&mut accounts, &account("x", 5.0), result(true, true, false));
    let Ok(refreshed) = refreshed else {
        panic!("the credentials were not refused");
    };
    assert!(!refreshed.listed);
    assert_eq!(refreshed.account.status, "active");
    assert_eq!(
        refreshed.account.usage_data.unwrap().remaining.unwrap().bits,
        0.25f64.to_bits()
    );
    let refused =
        refresh_account_usage_for_switch(&mut accounts, &account("a", 5.0), result(true, true, true));
    assert_eq!(refused.err(), some("AUTH_ERROR: 刷新配额时 token 无效"));
    assert_eq!(accounts[0].status, "active");
}

#[test]
fn an_account_is_bound_to_a_machine_once() {
    let mut accounts = vec![account_with_machine_id(Some(" m1 ")), account("b", 1.0)];
    let bind = persist_account_machine_id_if_needed;
    assert_eq!(bind(&mut accounts, "test", "m1"), Ok(false));
    assert_eq!(accounts[0].machine_id, some(" m1 "));
    assert_eq!(bind(&mut accounts, "test", "M1"), Ok(true));
    assert_eq!(accounts[0].machine_id, some("M1"));
    assert_eq!(bind(&mut accounts, "test", "M1"), Ok(false));
    assert_eq!(bind(&mut accounts, "b", "m2"), Ok(true));
    assert_eq!(accounts[1].machine_id, some("m2"));
    assert_eq!(bind(&mut accounts, "x", "m2"), Err("账号不存在".to_string()));
}

#[test]
fn a_machine_is_kept() {
    for bound in [None, some("  "), some(" AB-c\t")] {
        let first = account_machine_id_or_new(&bound);
        assert_eq!(account_machine_id_or_new(&Some(first.clone())), first);
    }
}

#[test]
fn an_account_that_is_found_banned_no_longer_takes_over() {
    for (banned, takes_over) in [(true, false), (false, true)] {
        let mut accounts = vec![account("a", 0.0), account("b", 9.0)];
        let known = account("b", 9.0);
        let written =
            refresh_account_usage_for_switch(&mut accounts, &known, result(true, banned, false));
        assert!(written.is_ok());
        let found = find_next_available_account(&accounts, &accounts[0]);
        assert_eq!(found.is_some(), takes_over);
    }
}
