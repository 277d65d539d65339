use kiro_switch::account::{Account, AppSettings, UsageData};
use kiro_switch::amount::Amount;
use kiro_switch::notice::{notices_of_check, notices_of_quick_switch, Notice};
use kiro_switch::schedule::{AutoSwitchTask, TaskAction};
use kiro_switch::switching::{
    check_and_auto_switch, decide_switch, quick_switch_done, quick_switch_from, quick_switch_next,
    CheckAction, CheckEvent, CheckOutcome, QuickAction, SwitchDecision,
};
use kiro_switch::takeover::{switch_account, TakeoverAction, TakeoverEvent};

fn some(s: &str) -> Option<String> {
    Some(s.to_string())
}

fn amount(value: f64) -> Amount {
    Amount::from_bits(value.to_bits())
}

fn usage(remaining: f64) -> UsageData {
    UsageData {
        document: "{}".to_string(),
        remaining: Some(amount(remaining)),
        email: None,
        user_id: None,
        capped: false,
    }
}

fn account(id: &str, remaining: f64) -> Account {
    Account {
        id: id.to_string(),
        email: Some(format!("{id}@example.com")),
        status: "active".to_string(),
        enabled: true,
        access_token: None,
        refresh_token: None,
        provider: None,
        auth_method: None,
        profile_arn: None,
        start_url: None,
        client_id: None,
        client_secret: None,
        client_id_hash: None,
        region: None,
        user_id: None,
        machine_id: None,
        usage_data: Some(usage(remaining)),
    }
}

fn settings(on: Option<bool>, threshold: Option<f64>, minutes: Option<i32>) -> AppSettings {
    AppSettings {
        auto_switch_enabled: on,
        auto_switch_threshold: threshold.map(amount),
        auto_switch_interval: minutes,
    }
}

#[test]
fn the_task_stops_on_the_third_failure_in_a_row() {
    let mut task = AutoSwitchTask::new();
    assert!(matches!(task.step(None), TaskAction::Sleep(300)));
    assert!(matches!(task.step(None), TaskAction::Sleep(300)));
    assert_eq!(task.failures(), 2);
    assert!(matches!(task.step(Some(AppSettings::default())), TaskAction::Sleep(15)));
    assert_eq!(task.failures(), 0);
    assert!(matches!(task.step(None), TaskAction::Sleep(300)));
    assert!(matches!(task.step(None), TaskAction::Sleep(300)));
    assert!(matches!(task.step(None), TaskAction::Stop));
}

#[test]
fn the_failure_that_drops_a_timer_does_not_count() {
    let mut task = AutoSwitchTask::new();
    let on = settings(Some(true), None, None);
    assert!(matches!(task.step(Some(on)), TaskAction::Start(300, _)));
    assert!(matches!(task.step(None), TaskAction::Restart));
    assert!(matches!(task.step(None), TaskAction::Sleep(300)));
    assert!(matches!(task.step(None), TaskAction::Sleep(300)));
    assert!(matches!(task.step(None), TaskAction::Stop));
}

#[test]
fn the_task_runs_by_the_settings() {
    let mut task = AutoSwitchTask::new();
    assert_eq!(task.failures(), 0);
    let off = settings(Some(false), Some(2.0), Some(10));
    assert!(matches!(task.step(Some(off)), TaskAction::Sleep(15)));
    match task.step(Some(settings(Some(true), None, None))) {
        TaskAction::Start(secs, threshold) => {
            assert_eq!(secs, 300);
            assert_eq!(threshold.bits, 1.0f64.to_bits());
        }
        _ => panic!("the timer starts"),
    }
    match task.step(Some(settings(Some(true), Some(1.0), Some(5)))) {
        TaskAction::Check(threshold) => assert_eq!(threshold.bits, 1.0f64.to_bits()),
        _ => panic!("the defaults are the same schedule"),
    }
    let slower = settings(Some(true), Some(1.0), Some(10));
    assert!(matches!(task.step(Some(slower)), TaskAction::Restart));
    assert!(matches!(task.step(Some(slower)), TaskAction::Start(600, _)));
    let higher = settings(Some(true), Some(1.5), Some(10));
    assert!(matches!(task.step(Some(higher)), TaskAction::Restart));
    match task.step(Some(higher)) {
        TaskAction::Start(600, threshold) => assert_eq!(threshold.bits, 1.5f64.to_bits()),
        _ => panic!("the timer starts"),
    }
    assert!(matches!(task.step(Some(off)), TaskAction::Restart));
    assert!(matches!(task.step(Some(off)), TaskAction::Sleep(15)));
    let longest = settings(Some(true), None, Some(i32::MAX));
    assert!(matches!(task.step(Some(longest)), TaskAction::Start(128849018820, _)));
}

#[test]
fn only_a_timer_that_starts_needs_a_positive_interval() {
    let mut task = AutoSwitchTask::new();
    for (minutes, possible) in [(Some(0), false), (Some(-1), false), (Some(1), true), (None, true)] {
        assert_eq!(task.can_take(Some(settings(Some(true), None, minutes))), possible);
        assert!(task.can_take(Some(settings(Some(false), None, minutes))));
        assert!(task.can_take(Some(settings(None, None, minutes))));
    }
    assert!(task.can_take(None));
    task.step(Some(settings(Some(true), None, Some(1))));
    let never = settings(Some(true), None, Some(0));
    assert!(task.can_take(Some(never)));
    assert!(matches!(task.step(Some(never)), TaskAction::Restart));
    assert!(!task.can_take(Some(never)));
}

#[test]
fn a_threshold_that_is_no_number_restarts_the_timer() {
    let mut task = AutoSwitchTask::new();
    let odd = settings(Some(true), Some(f64::NAN), Some(1));
    assert!(matches!(task.step(Some(odd)), TaskAction::Start(60, _)));
    assert!(matches!(task.step(Some(odd)), TaskAction::Restart));
}

#[test]
fn an_account_at_the_threshold_is_given_up() {
    let accounts = vec![account("a", 1.0), account("b", 1.0)];
    assert!(matches!(
        decide_switch(&accounts, &account("a", 1.5), amount(1.0)),
        SwitchDecision::Stay
    ));
    assert!(matches!(
        decide_switch(&accounts, &account("a", 1.0), amount(1.0)),
        SwitchDecision::NoCandidate
    ));
    match decide_switch(&accounts, &account("a", 0.5), amount(0.5)) {
        SwitchDecision::SwitchTo(a) => {
            assert_eq!(a.id, "b");
            assert!(matches!(decide_switch(&accounts, &a, amount(0.5)), SwitchDecision::Stay));
        }
        _ => panic!("the other account takes over"),
    }
}

#[test]
fn a_check_without_accounts_does_nothing() {
    let (_, action) = check_and_auto_switch(vec![], amount(1.0));
    assert!(matches!(action, CheckAction::Done(CheckOutcome::NoAccounts)));
}

#[test]
fn a_check_needs_the_current_account() {
    let (mut check, action) = check_and_auto_switch(vec![account("a", 1.0)], amount(1.0));
    assert!(matches!(action, CheckAction::Identify));
    assert!(matches!(
        check.step(CheckEvent::Identified(None)),
        CheckAction::Done(CheckOutcome::UnknownCurrent)
    ));
}

#[test]
fn a_check_switches_by_the_quota_read_anew() {
    let accounts = vec![account("a", 9.0), account("b", 2.0)];
    let (mut check, _) = check_and_auto_switch(accounts, amount(1.0));
    match check.step(CheckEvent::Identified(Some(account("a", 9.0)))) {
        CheckAction::Refresh(a) => assert_eq!(a.id, "a"),
        _ => panic!("the quota is read anew"),
    }
    match check.step(CheckEvent::Refreshed(Some(account("a", 0.5)))) {
        CheckAction::Switch(b) => assert_eq!(b.id, "b"),
        _ => panic!("the other account takes over"),
    }
    match check.step(CheckEvent::Switched(Ok(()))) {
        CheckAction::Done(CheckOutcome::Switched(email)) => {
            assert_eq!(email, some("b@example.com"))
        }
        _ => panic!("the check is done"),
    }
}

#[test]
fn a_check_falls_back_on_the_known_quota() {
    let accounts = vec![account("a", 9.0), account("b", 2.0)];
    let (mut check, _) = check_and_auto_switch(accounts.clone(), amount(1.0));
    check.step(CheckEvent::Identified(Some(account("a", 9.0))));
    assert!(matches!(
        check.step(CheckEvent::Refreshed(None)),
        CheckAction::Done(CheckOutcome::Enough)
    ));
    let (mut check, _) = check_and_auto_switch(accounts, amount(2.0));
    check.step(CheckEvent::Identified(Some(account("a", 0.0))));
    assert!(matches!(
        check.step(CheckEvent::Refreshed(None)),
        CheckAction::Done(CheckOutcome::NoCandidate)
    ));
}

#[test]
fn a_check_tells_why_a_switch_failed() {
    let accounts = vec![account("a", 0.0), account("b", 2.0)];
    let (mut check, _) = check_and_auto_switch(accounts, amount(1.0));
    check.step(CheckEvent::Identified(Some(account("a", 0.0))));
    check.step(CheckEvent::Refreshed(None));
    match check.step(CheckEvent::Switched(Err("no".to_string()))) {
        CheckAction::Done(CheckOutcome::Failed(error)) => assert_eq!(error, "no"),
        _ => panic!("the check is done"),
    }
}

fn done(action: QuickAction) -> Result<String, String> {
    match action {
        QuickAction::Done(result) => result,
        _ => panic!("the switch is not done"),
    }
}

#[test]
fn a_quick_switch_goes_to_the_next_account() {
    let accounts = vec![account("a", 0.5), account("b", 0.0), account("c", 0.1)];
    assert!(matches!(quick_switch_next(&accounts), QuickAction::Identify));
    match quick_switch_from(&accounts, Some(&accounts[0])) {
        QuickAction::Switch(c) => {
            assert_eq!(c.id, "c");
            assert_eq!(done(quick_switch_done(&c, Ok(()))), Ok("c@example.com".to_string()));
            assert_eq!(
                done(quick_switch_done(&c, Err("no".to_string()))),
                Err("no".to_string())
            );
        }
        _ => panic!("the next account takes over"),
    }
    match quick_switch_from(&accounts, None) {
        QuickAction::Switch(a) => assert_eq!(a.id, "a"),
        _ => panic!("the first account takes over"),
    }
    let mut nameless = account("n", 1.0);
    nameless.email = None;
    assert_eq!(done(quick_switch_done(&nameless, Ok(()))), Ok("未知账号".to_string()));
}

#[test]
fn a_quick_switch_tells_why_it_cannot() {
    assert_eq!(done(quick_switch_next(&[])), Err("没有可用账号".to_string()));
    let accounts = vec![account("a", 0.5), account("b", 0.0)];
    let nowhere = Err("没有可切换的可用账号".to_string());
    assert_eq!(done(quick_switch_from(&accounts, Some(&accounts[0]))), nowhere);
    assert_eq!(done(quick_switch_from(&accounts, Some(&account("x", 1.0)))), nowhere);
    assert_eq!(done(quick_switch_from(&accounts[1..], None)), nowhere);
}

#[test]
fn a_takeover_binds_then_writes_then_hands_over() {
    let mut bound = account("a", 1.0);
    bound.machine_id = some(" MACHINE-A ");
    bound.access_token = some("at");
    bound.region = some("eu-central-1");
    let (mut takeover, action) = switch_account(&bound);
    assert!(matches!(action, TakeoverAction::ReadSettings));
    match takeover.step(TakeoverEvent::Settings(Ok(AppSettings::default()))) {
        TakeoverAction::Bind(id) => assert_eq!(id, "machine-a"),
        _ => panic!("the account is bound"),
    }
    match takeover.step(TakeoverEvent::Bound) {
        TakeoverAction::WriteMachine(id) => assert_eq!(id, "machine-a"),
        _ => panic!("the machine is written"),
    }
    match takeover.step(TakeoverEvent::Written) {
        TakeoverAction::HandOver(params) => {
            assert_eq!(params.access_token, "at");
            assert_eq!(params.refresh_token, "");
            assert_eq!(params.provider, "");
            assert_eq!(params.region, some("eu-central-1"));
            assert_eq!(params.email, some("a@example.com"));
            assert_eq!(params.client_id, None);
        }
        _ => panic!("the account is handed over"),
    }
    match takeover.step(TakeoverEvent::HandedOver(Err("no".to_string()))) {
        TakeoverAction::Done(result) => assert_eq!(result, Err("no".to_string())),
        _ => panic!("the takeover is done"),
    }
}

#[test]
fn a_takeover_chooses_one_identifier() {
    let (mut takeover, _) = switch_account(&account("a", 1.0));
    let chosen = match takeover.step(TakeoverEvent::Settings(Ok(AppSettings::default()))) {
        TakeoverAction::Bind(id) => id,
        _ => panic!("the account is bound"),
    };
    assert_eq!(chosen.len(), 36);
    match takeover.step(TakeoverEvent::Bound) {
        TakeoverAction::WriteMachine(id) => assert_eq!(id, chosen),
        _ => panic!("the machine is written"),
    }
    takeover.step(TakeoverEvent::Written);
    assert!(matches!(
        takeover.step(TakeoverEvent::HandedOver(Ok(()))),
        TakeoverAction::Done(Ok(()))
    ));
}

#[test]
fn a_takeover_needs_the_settings() {
    let (mut takeover, _) = switch_account(&account("a", 1.0));
    match takeover.step(TakeoverEvent::Settings(Err("no".to_string()))) {
        TakeoverAction::Done(result) => assert_eq!(result, Err("no".to_string())),
        _ => panic!("the takeover is done"),
    }
}

fn told(notices: &[Notice]) -> Vec<(&str, Option<&str>)> {
    notices
        .iter()
        .map(|notice| match notice {
            Notice::AccountsUpdated => (notice.name(), None),
            Notice::AccountSwitched(email) => (notice.name(), email.as_deref()),
        })
        .collect()
}

#[test]
fn only_a_switch_is_told() {
    assert_eq!(
        told(&notices_of_check(&CheckOutcome::Switched(some("e")))),
        vec![("accounts-updated", None), ("account-switched", Some("e"))]
    );
    assert_eq!(
        told(&notices_of_check(&CheckOutcome::Switched(None))),
        vec![("accounts-updated", None), ("account-switched", None)]
    );
    assert_eq!(
        told(&notices_of_quick_switch(&Ok("e".to_string()))),
        vec![("accounts-updated", None), ("account-switched", Some("e"))]
    );
    assert!(notices_of_quick_switch(&Err("e".to_string())).is_empty());
    for outcome in [
        CheckOutcome::NoAccounts,
        CheckOutcome::UnknownCurrent,
        CheckOutcome::Enough,
        CheckOutcome::NoCandidate,
        CheckOutcome::Failed("e".to_string()),
    ] {
        assert!(notices_of_check(&outcome).is_empty());
    }
}
