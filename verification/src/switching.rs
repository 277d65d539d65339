//! The course of a switch: what is done next, from what has been done so far.
use crate::account::{Account, AccountView};
use crate::amount::{at_most, greater, Amount};
use crate::list::views;
use crate::selection::{
    automatic_switch_finds_the_account_with_the_most, available, best_available, best_available_is_last_of_the_largest, calculate_remaining,
    find_available_account, find_first_usable_account, find_next_available_account,
    first_startable, has_id, next_available, next_available_leaves_the_current_account,
    remaining_of, rotatable,
};
use crate::text::{lowered, opt_view};
use vstd::prelude::*;

verus! {

/// Whether the current account is to be given up, and for which one.
pub enum SwitchDecision {
    /// It has more than the threshold left.
    Stay,
    /// This account takes over.
    SwitchTo(Account),
    /// It is to be given up, but no account can take over.
    NoCandidate,
}

#[verifier::ext_equal]
pub enum DecisionView {
    Stay,
    SwitchTo(AccountView),
    NoCandidate,
}

impl View for SwitchDecision {
    type V = DecisionView;

    open spec fn view(&self) -> DecisionView {
        match *self {
            SwitchDecision::Stay => DecisionView::Stay,
            SwitchDecision::SwitchTo(account) => DecisionView::SwitchTo(account@),
            SwitchDecision::NoCandidate => DecisionView::NoCandidate,
        }
    }
}

/// Whether `current` is to be given up, and for which account.
pub open spec fn decision(
    accounts: Seq<AccountView>,
    current: AccountView,
    threshold: Option<int>,
) -> DecisionView {
    if greater(remaining_of(current), threshold) {
        DecisionView::Stay
    } else {
        match best_available(accounts, current.id, threshold) {
            Some(account) => DecisionView::SwitchTo(account),
            None => DecisionView::NoCandidate,
        }
    }
}

/// Whether `current_account` is to be given up, and for which account.
pub fn decide_switch(accounts: &[Account], current_account: &Account, threshold: Amount) -> (r:
    SwitchDecision)
    ensures
        r@ == decision(views(accounts@), current_account@, threshold.value()),
{
    if calculate_remaining(current_account).gt(threshold) {
        return SwitchDecision::Stay;
    }
    match find_available_account(accounts, current_account, threshold) {
        Some(account) => SwitchDecision::SwitchTo(account),
        None => SwitchDecision::NoCandidate,
    }
}

/// How a check ends.
pub enum CheckOutcome {
    /// There are no accounts.
    NoAccounts,
    /// The current account is not known.
    UnknownCurrent,
    /// The current account has enough left.
    Enough,
    /// No account can take over.
    NoCandidate,
    /// The switch failed.
    Failed(String),
    /// An account has taken over; its e-mail address is told to whoever listens.
    Switched(Option<String>),
}

#[verifier::ext_equal]
pub enum OutcomeView {
    NoAccounts,
    UnknownCurrent,
    Enough,
    NoCandidate,
    Failed(Seq<char>),
    Switched(Option<Seq<char>>),
}

impl View for CheckOutcome {
    type V = OutcomeView;

    open spec fn view(&self) -> OutcomeView {
        match *self {
            CheckOutcome::NoAccounts => OutcomeView::NoAccounts,
            CheckOutcome::UnknownCurrent => OutcomeView::UnknownCurrent,
            CheckOutcome::Enough => OutcomeView::Enough,
            CheckOutcome::NoCandidate => OutcomeView::NoCandidate,
            CheckOutcome::Failed(error) => OutcomeView::Failed(error@),
            CheckOutcome::Switched(email) => OutcomeView::Switched(opt_view(email)),
        }
    }
}

/// What a check does next.
pub enum CheckAction {
    /// Find the current account.
    Identify,
    /// Read the quota of this account anew.
    Refresh(Account),
    /// Let this account take over.
    Switch(Account),
    /// Nothing more.
    Done(CheckOutcome),
}

#[verifier::ext_equal]
pub enum CheckActionView {
    Identify,
    Refresh(AccountView),
    Switch(AccountView),
    Done(OutcomeView),
}

impl View for CheckAction {
    type V = CheckActionView;

    open spec fn view(&self) -> CheckActionView {
        match *self {
            CheckAction::Identify => CheckActionView::Identify,
            CheckAction::Refresh(account) => CheckActionView::Refresh(account@),
            CheckAction::Switch(account) => CheckActionView::Switch(account@),
            CheckAction::Done(outcome) => CheckActionView::Done(outcome@),
        }
    }
}

/// What has come of the last action of a check.
pub enum CheckEvent {
    /// The current account, if it could be found.
    Identified(Option<Account>),
    /// The account with its quota read anew; none where that failed.
    Refreshed(Option<Account>),
    /// The other account has taken over, or why it has not.
    Switched(Result<(), String>),
}

#[verifier::ext_equal]
pub enum CheckEventView {
    Identified(Option<AccountView>),
    Refreshed(Option<AccountView>),
    Switched(Result<(), Seq<char>>),
}

impl View for CheckEvent {
    type V = CheckEventView;

    open spec fn view(&self) -> CheckEventView {
        match *self {
            CheckEvent::Identified(account) => CheckEventView::Identified(
                match account {
                    Some(a) => Some(a@),
                    None => None,
                },
            ),
            CheckEvent::Refreshed(account) => CheckEventView::Refreshed(
                match account {
                    Some(a) => Some(a@),
                    None => None,
                },
            ),
            CheckEvent::Switched(result) => CheckEventView::Switched(
                match result {
                    Ok(done) => Ok(done),
                    Err(error) => Err(error@),
                },
            ),
        }
    }
}

/// How far a check has come.
enum CheckStage {
    Identifying,
    Refreshing(Account),
    Switching(Option<String>),
    Finished,
}

/// How far a check has come: what it waits for, with what it needs to go on.
#[verifier::ext_equal]
pub enum StageView {
    /// The current account.
    Identifying,
    /// The quota of this account.
    Refreshing(AccountView),
    /// The switch to an account with this e-mail address.
    Switching(Option<Seq<char>>),
    /// Nothing.
    Finished,
}

/// A check whether the current account is to be given up, for a list of accounts that stays
/// as it was at the beginning.
pub struct SwitchCheck {
    accounts: Vec<Account>,
    threshold: Amount,
    stage: CheckStage,
}

#[verifier::ext_equal]
pub struct CheckView {
    pub accounts: Seq<AccountView>,
    pub threshold: Amount,
    pub stage: StageView,
}

impl View for SwitchCheck {
    type V = CheckView;

    closed spec fn view(&self) -> CheckView {
        CheckView {
            accounts: views(self.accounts@),
            threshold: self.threshold,
            stage: match self.stage {
                CheckStage::Identifying => StageView::Identifying,
                CheckStage::Refreshing(account) => StageView::Refreshing(account@),
                CheckStage::Switching(email) => StageView::Switching(opt_view(email)),
                CheckStage::Finished => StageView::Finished,
            },
        }
    }
}

/// What a check of `accounts` begins with.
pub open spec fn check_begins(accounts: Seq<AccountView>, threshold: Amount) -> (
    CheckView,
    CheckActionView,
) {
    if accounts.len() == 0 {
        (
            CheckView { accounts, threshold, stage: StageView::Finished },
            CheckActionView::Done(OutcomeView::NoAccounts),
        )
    } else {
        (
            CheckView { accounts, threshold, stage: StageView::Identifying },
            CheckActionView::Identify,
        )
    }
}

/// The event is what the check waits for.
pub open spec fn is_awaited(stage: StageView, event: CheckEventView) -> bool {
    match event {
        CheckEventView::Identified(_) => stage is Identifying,
        CheckEventView::Refreshed(_) => stage is Refreshing,
        CheckEventView::Switched(_) => stage is Switching,
    }
}

/// The check ends with `outcome`.
pub open spec fn check_ends(state: CheckView, outcome: OutcomeView) -> (CheckView, CheckActionView) {
    (CheckView { stage: StageView::Finished, ..state }, CheckActionView::Done(outcome))
}

/// What an event makes of a check that waits for it. A quota that could not be read anew
/// leaves the one that was known.
pub open spec fn check_step(state: CheckView, event: CheckEventView) -> (
    CheckView,
    CheckActionView,
) {
    match event {
        CheckEventView::Identified(None) => check_ends(state, OutcomeView::UnknownCurrent),
        CheckEventView::Identified(Some(account)) => (
            CheckView { stage: StageView::Refreshing(account), ..state },
            CheckActionView::Refresh(account),
        ),
        CheckEventView::Refreshed(refreshed) => {
            let current = match refreshed {
                Some(account) => account,
                None => state.stage->Refreshing_0,
            };
            match decision(state.accounts, current, state.threshold.value()) {
                DecisionView::Stay => check_ends(state, OutcomeView::Enough),
                DecisionView::NoCandidate => check_ends(state, OutcomeView::NoCandidate),
                DecisionView::SwitchTo(account) => (
                    CheckView { stage: StageView::Switching(account.email), ..state },
                    CheckActionView::Switch(account),
                ),
            }
        },
        CheckEventView::Switched(Err(error)) => check_ends(state, OutcomeView::Failed(error)),
        CheckEventView::Switched(Ok(_)) => check_ends(
            state,
            OutcomeView::Switched(state.stage->Switching_0),
        ),
    }
}

/// Begins a check of `accounts`: gives it, and what it does first.
pub fn check_and_auto_switch(accounts: Vec<Account>, threshold: Amount) -> (r: (
    SwitchCheck,
    CheckAction,
))
    ensures
        (r.0@, r.1@) == check_begins(views(accounts@), threshold),
{
    if accounts.len() == 0 {
        (
            SwitchCheck { accounts, threshold, stage: CheckStage::Finished },
            CheckAction::Done(CheckOutcome::NoAccounts),
        )
    } else {
        (
            SwitchCheck { accounts, threshold, stage: CheckStage::Identifying },
            CheckAction::Identify,
        )
    }
}

impl SwitchCheck {
    fn decide(&mut self, current: &Account) -> (r: CheckAction)
        ensures
            (final(self)@, r@) == match decision(
                old(self)@.accounts,
                current@,
                old(self)@.threshold.value(),
            ) {
                DecisionView::Stay => check_ends(old(self)@, OutcomeView::Enough),
                DecisionView::NoCandidate => check_ends(old(self)@, OutcomeView::NoCandidate),
                DecisionView::SwitchTo(account) => (
                    CheckView { stage: StageView::Switching(account.email), ..old(self)@ },
                    CheckActionView::Switch(account),
                ),
            },
    {
        match decide_switch(self.accounts.as_slice(), current, self.threshold) {
            SwitchDecision::Stay => {
                self.stage = CheckStage::Finished;
                CheckAction::Done(CheckOutcome::Enough)
            },
            SwitchDecision::NoCandidate => {
                self.stage = CheckStage::Finished;
                CheckAction::Done(CheckOutcome::NoCandidate)
            },
            SwitchDecision::SwitchTo(account) => {
                self.stage = CheckStage::Switching(account.email.clone());
                CheckAction::Switch(account)
            },
        }
    }

    /// Takes what has come of the last action, and gives the next one.
    pub fn step(&mut self, event: CheckEvent) -> (r: CheckAction)
        requires
            is_awaited(old(self)@.stage, event@),
        ensures
            (final(self)@, r@) == check_step(old(self)@, event@),
    {
        match event {
            CheckEvent::Identified(None) => {
                self.stage = CheckStage::Finished;
                CheckAction::Done(CheckOutcome::UnknownCurrent)
            },
            CheckEvent::Identified(Some(account)) => {
                self.stage = CheckStage::Refreshing(account.clone());
                CheckAction::Refresh(account)
            },
            CheckEvent::Refreshed(Some(account)) => self.decide(&account),
            CheckEvent::Refreshed(None) => {
                let known = match &self.stage {
                    CheckStage::Refreshing(account) => Some(account.clone()),
                    _ => None,
                };
                match known {
                    Some(account) => self.decide(&account),
                    None => CheckAction::Identify,
                }
            },
            CheckEvent::Switched(Err(error)) => {
                self.stage = CheckStage::Finished;
                CheckAction::Done(CheckOutcome::Failed(error))
            },
            CheckEvent::Switched(Ok(_)) => {
                let email = match &self.stage {
                    CheckStage::Switching(email) => email.clone(),
                    _ => None,
                };
                self.stage = CheckStage::Finished;
                CheckAction::Done(CheckOutcome::Switched(email))
            },
        }
    }
}

/// An account that takes over is one of the list, is not the current one, and can take over;
/// and the current one was not above the threshold. Where every account that can take over
/// has a number left, none has more.
pub proof fn switch_goes_to_the_account_with_the_most(
    accounts: Seq<AccountView>,
    current: AccountView,
    threshold: Option<int>,
)
    ensures
        decision(accounts, current, threshold) matches DecisionView::SwitchTo(account) ==> {
            &&& accounts.contains(account)
            &&& account.id != current.id
            &&& available(current.id, threshold)(account)
            &&& !greater(remaining_of(current), threshold)
            &&& (forall|i: int|
                0 <= i < accounts.len() && available(current.id, threshold)(
                    #[trigger] accounts[i],
                ) ==> remaining_of(accounts[i]) is Some) ==> forall|i: int|
                0 <= i < accounts.len() && available(current.id, threshold)(
                    #[trigger] accounts[i],
                ) ==> at_most(remaining_of(accounts[i]), remaining_of(account))
        },
{
    best_available_is_last_of_the_largest(accounts, current.id, threshold);
}

/// A switch settles: an account that takes over, and the threshold, being numbers, the next
/// check finds that it has enough left, as long as nothing of it is used.
pub proof fn switch_settles(
    accounts: Seq<AccountView>,
    current: AccountView,
    threshold: Option<int>,
    later: Seq<AccountView>,
)
    ensures
        decision(accounts, current, threshold) matches DecisionView::SwitchTo(account) ==>
            remaining_of(account) is Some && threshold is Some ==> decision(
            later,
            account,
            threshold,
        ) is Stay,
{
    best_available_is_last_of_the_largest(accounts, current.id, threshold);
}

/// The events that a check can still take.
pub open spec fn steps_left(stage: StageView) -> nat {
    match stage {
        StageView::Identifying => 3,
        StageView::Refreshing(_) => 2,
        StageView::Switching(_) => 1,
        StageView::Finished => 0,
    }
}

/// A check ends after at most three events, exactly when it says so; the list and the
/// threshold stay as they were; and whatever it does next, it then waits for what comes of
/// it.
pub proof fn check_comes_to_an_end(state: CheckView, event: CheckEventView)
    requires
        is_awaited(state.stage, event),
    ensures
        ({
            let (after, action) = check_step(state, event);
            &&& steps_left(after.stage) < steps_left(state.stage) <= 3
            &&& action is Done <==> after.stage is Finished
            &&& action is Refresh <==> after.stage is Refreshing
            &&& action is Switch <==> after.stage is Switching
            &&& !(action is Identify)
            &&& after.accounts == state.accounts
            &&& after.threshold == state.threshold
        }),
{
}

/// Where the quota could not be read anew, the check decides by the quota that was known.
pub proof fn failed_refresh_decides_by_the_known_quota(state: CheckView)
    requires
        state.stage is Refreshing,
    ensures
        check_step(state, CheckEventView::Refreshed(None)) == check_step(
            state,
            CheckEventView::Refreshed(Some(state.stage->Refreshing_0)),
        ),
{
}

/// What a switch on demand does next.
pub enum QuickAction {
    /// Find the current account.
    Identify,
    /// Let this account take over.
    Switch(Account),
    /// Nothing more: the e-mail address of the account that has taken over, or why none has.
    Done(Result<String, String>),
}

#[verifier::ext_equal]
pub enum QuickActionView {
    Identify,
    Switch(AccountView),
    Done(Result<Seq<char>, Seq<char>>),
}

impl View for QuickAction {
    type V = QuickActionView;

    open spec fn view(&self) -> QuickActionView {
        match *self {
            QuickAction::Identify => QuickActionView::Identify,
            QuickAction::Switch(account) => QuickActionView::Switch(account@),
            QuickAction::Done(result) => QuickActionView::Done(
                match result {
                    Ok(email) => Ok(email@),
                    Err(error) => Err(error@),
                },
            ),
        }
    }
}

/// What a switch on demand does first.
pub open spec fn quick_begins(accounts: Seq<AccountView>) -> QuickActionView {
    if accounts.len() == 0 {
        QuickActionView::Done(Err("没有可用账号"@))
    } else {
        QuickActionView::Identify
    }
}

/// The account that a switch on demand goes to: the next one in the rotation, or the first
/// that can be used where the current one is not known.
pub open spec fn quick_target(accounts: Seq<AccountView>, current: Option<AccountView>) -> Option<
    AccountView,
> {
    match current {
        Some(account) => next_available(accounts, account.id),
        None => first_startable(accounts),
    }
}

/// What a switch on demand does once the current account has been looked for.
pub open spec fn quick_goes_on(
    accounts: Seq<AccountView>,
    current: Option<AccountView>,
) -> QuickActionView {
    match quick_target(accounts, current) {
        Some(account) => QuickActionView::Switch(account),
        None => QuickActionView::Done(Err("没有可切换的可用账号"@)),
    }
}

/// How an account is told to whoever asked for the switch.
pub open spec fn account_label(account: AccountView) -> Seq<char> {
    match account.email {
        Some(email) => email,
        None => "未知账号"@,
    }
}

/// Begins a switch on demand: what it does first.
pub fn quick_switch_next(accounts: &[Account]) -> (r: QuickAction)
    ensures
        r@ == quick_begins(views(accounts@)),
{
    if accounts.len() == 0 {
        QuickAction::Done(Err("没有可用账号".to_owned()))
    } else {
        QuickAction::Identify
    }
}

/// What a switch on demand does once the current account has been looked for.
pub fn quick_switch_from(accounts: &[Account], current: Option<&Account>) -> (r: QuickAction)
    ensures
        r@ == quick_goes_on(
            views(accounts@),
            match current {
                Some(account) => Some(account@),
                None => None,
            },
        ),
{
    let target = match current {
        Some(account) => find_next_available_account(accounts, account),
        None => find_first_usable_account(accounts),
    };
    match target {
        Some(account) => QuickAction::Switch(account),
        None => QuickAction::Done(Err("没有可切换的可用账号".to_owned())),
    }
}

/// A switch on demand goes to an account of the list that has an amount left which is not at
/// or below zero, and never to the current one. Where the current account is not in the
/// list, it goes nowhere; where it is, it goes somewhere whenever there is such an account.
pub proof fn quick_switch_leaves_the_current_account(
    accounts: Seq<AccountView>,
    current: AccountView,
)
    ensures
        ({
            let target = quick_target(accounts, Some(current));
            &&& target matches Some(account) ==> accounts.contains(account) && account.id
                != current.id && !at_most(remaining_of(account), Some(0))
            &&& target is Some <==> {
                &&& exists|i: int|
                    0 <= i < accounts.len() && has_id(current.id)(#[trigger] accounts[i])
                &&& exists|i: int|
                    0 <= i < accounts.len() && rotatable(current.id)(#[trigger] accounts[i])
            }
        }),
{
    next_available_leaves_the_current_account(accounts, current.id);
}

/// How a switch on demand to `account` ends.
pub fn quick_switch_done(account: &Account, switched: Result<(), String>) -> (r: QuickAction)
    ensures
        r@ == QuickActionView::Done(
            match switched {
                Ok(_) => Ok(account_label(account@)),
                Err(error) => Err(error@),
            },
        ),
{
    match switched {
        Ok(_) => match &account.email {
            Some(email) => QuickAction::Done(Ok(email.clone())),
            None => QuickAction::Done(Ok("未知账号".to_owned())),
        },
        Err(error) => QuickAction::Done(Err(error)),
    }
}

/// The current account is kept exactly when it has more than the threshold left. When it is
/// not kept, another account takes over exactly when one can: one that is enabled, is
/// neither banned nor invalid, and has an amount left that is not at or below the threshold.
/// The one that takes over is one of these, every other of these further down the list has
/// less left, and where all of them have numbers left, none has more.
pub proof fn current_account_is_kept_only_above_the_threshold(
    accounts: Seq<AccountView>,
    current: AccountView,
    threshold: Option<int>,
)
    ensures
        ({
            let above = {
                &&& remaining_of(current) is Some
                &&& threshold is Some
                &&& remaining_of(current)->0 > threshold->0
            };
            let can = |a: AccountView|
                {
                    &&& a.id != current.id
                    &&& a.enabled
                    &&& lowered(a.status) != "banned"@
                    &&& lowered(a.status) != "invalid"@
                    &&& remaining_of(a) is None || threshold is None || remaining_of(a)->0
                        > threshold->0
                };
            let some_can = exists|i: int|
                0 <= i < accounts.len() && can(#[trigger] accounts[i]);
            let decided = decision(accounts, current, threshold);
            &&& decided is Stay <==> above
            &&& decided is SwitchTo <==> !above && some_can
            &&& decided is NoCandidate <==> !above && !some_can
            &&& decided matches DecisionView::SwitchTo(best) ==> exists|k: int|
                #![trigger accounts[k]]
                {
                    &&& 0 <= k < accounts.len()
                    &&& accounts[k] == best
                    &&& can(best)
                    &&& forall|i: int|
                        k < i < accounts.len() && can(#[trigger] accounts[i]) ==> {
                            &&& remaining_of(best) is Some
                            &&& remaining_of(accounts[i]) is Some
                            &&& remaining_of(accounts[i])->0 < remaining_of(best)->0
                        }
                    &&& (forall|i: int|
                        0 <= i < accounts.len() && can(#[trigger] accounts[i]) ==> remaining_of(
                            accounts[i],
                        ) is Some) ==> forall|i: int|
                        0 <= i < accounts.len() && can(#[trigger] accounts[i]) ==> remaining_of(
                            accounts[i],
                        )->0 <= remaining_of(best)->0
                }
        }),
{
    automatic_switch_finds_the_account_with_the_most(accounts, current.id, threshold);
}

/// Of the current account only its identifier and what it has left count: its status, its
/// tokens and whether it is enabled play no part in the decision.
pub proof fn decision_looks_at_the_amount_alone(
    accounts: Seq<AccountView>,
    current: AccountView,
    other: AccountView,
    threshold: Option<int>,
)
    requires
        current.id == other.id,
        remaining_of(current) == remaining_of(other),
    ensures
        decision(accounts, current, threshold) == decision(accounts, other, threshold),
{
}

/// A check of a list without accounts ends at once; any other one looks for the current
/// account, with the list and the threshold that it was given.
pub proof fn check_begins_by_looking_for_the_current_account(
    accounts: Seq<AccountView>,
    threshold: Amount,
)
    ensures
        ({
            let (state, action) = check_begins(accounts, threshold);
            &&& action == CheckActionView::Done(OutcomeView::NoAccounts) <==> accounts.len() == 0
            &&& action == CheckActionView::Identify <==> accounts.len() > 0
            &&& accounts.len() > 0 ==> forall|current: Option<AccountView>|
                #[trigger] is_awaited(state.stage, CheckEventView::Identified(current))
            &&& state.accounts == accounts
            &&& state.threshold == threshold
        }),
{
}

/// From the current account to the end of a check: without a current account the check ends.
/// With one, its quota is read anew; the account as read anew, or as it was known where that
/// failed, is what the decision is made about; the account that the decision names takes
/// over; and once it has, the check ends with the e-mail address of that very account.
pub proof fn check_refreshes_decides_and_switches(
    accounts: Seq<AccountView>,
    threshold: Amount,
    known: AccountView,
    refreshed: Option<AccountView>,
    error: Seq<char>,
)
    requires
        accounts.len() > 0,
    ensures
        ({
            let s0 = check_begins(accounts, threshold).0;
            let (s1, a1) = check_step(s0, CheckEventView::Identified(Some(known)));
            let (s2, a2) = check_step(s1, CheckEventView::Refreshed(refreshed));
            let current = match refreshed {
                Some(account) => account,
                None => known,
            };
            let lost = check_step(s0, CheckEventView::Identified(None)).1;
            &&& lost == CheckActionView::Done(OutcomeView::UnknownCurrent)
            &&& a1 == CheckActionView::Refresh(known)
            &&& is_awaited(s1.stage, CheckEventView::Refreshed(refreshed))
            &&& match decision(accounts, current, threshold.value()) {
                DecisionView::Stay => a2 == CheckActionView::Done(OutcomeView::Enough),
                DecisionView::NoCandidate => a2 == CheckActionView::Done(OutcomeView::NoCandidate),
                DecisionView::SwitchTo(account) => {
                    let done = check_step(s2, CheckEventView::Switched(Ok(()))).1;
                    let failed = check_step(s2, CheckEventView::Switched(Err(error))).1;
                    &&& a2 == CheckActionView::Switch(account)
                    &&& is_awaited(s2.stage, CheckEventView::Switched(Ok(())))
                    &&& is_awaited(s2.stage, CheckEventView::Switched(Err(error)))
                    &&& done == CheckActionView::Done(OutcomeView::Switched(account.email))
                    &&& failed == CheckActionView::Done(OutcomeView::Failed(error))
                },
            }
        }),
{
}

/// A switch on demand looks for the current account unless the list is empty, which it says.
/// It goes where the rotation from the current account leads, to the first usable account
/// without a current one, and says so where there is nowhere to go.
pub proof fn quick_switch_goes_on_in_the_rotation(
    accounts: Seq<AccountView>,
    current: AccountView,
)
    ensures
        quick_begins(accounts) == QuickActionView::Done(Err("没有可用账号"@)) <==> accounts.len()
            == 0,
        quick_begins(accounts) == QuickActionView::Identify <==> accounts.len() > 0,
        match next_available(accounts, current.id) {
            Some(next) => quick_goes_on(accounts, Some(current)) == QuickActionView::Switch(next),
            None => quick_goes_on(accounts, Some(current)) == QuickActionView::Done(
                Err("没有可切换的可用账号"@),
            ),
        },
        match first_startable(accounts) {
            Some(first) => quick_goes_on(accounts, None) == QuickActionView::Switch(first),
            None => quick_goes_on(accounts, None) == QuickActionView::Done(
                Err("没有可切换的可用账号"@),
            ),
        },
{
}

/// A switch on demand that was made is told by the e-mail address of the account, or by a
/// word for an unknown one where the account has none; one that failed, by its failure.
pub proof fn quick_switch_tells_who_took_over(
    account: &Account,
    switched: Result<(), String>,
    r: QuickAction,
)
    requires
        call_ensures(quick_switch_done, (account, switched), r),
    ensures
        r@ is Done,
        switched matches Err(error) ==> r@ == QuickActionView::Done(Err(error@)),
        switched is Ok && account@.email is Some ==> r@ == QuickActionView::Done(
            Ok(account@.email->0),
        ),
        switched is Ok && account@.email is None ==> r@ == QuickActionView::Done(Ok("未知账号"@)),
{
}

/// A check decides by the current account as read anew: with more than the threshold left it
/// is enough; else another enabled account of the list takes over, or none can. The list and
/// the threshold stay.
pub proof fn check_decides_by_the_account_as_read_anew(
    check: &mut SwitchCheck,
    refreshed: Account,
    r: CheckAction,
)
    requires
        is_awaited(old(check)@.stage, CheckEvent::Refreshed(Some(refreshed))@),
        call_ensures(SwitchCheck::step, (check, CheckEvent::Refreshed(Some(refreshed))), r),
    ensures
        ({
            let limit = old(check)@.threshold.value();
            let left = remaining_of(refreshed@);
            let above = left is Some && limit is Some && left->0 > limit->0;
            &&& above ==> r@ == CheckActionView::Done(OutcomeView::Enough)
            &&& !above ==> r@ is Switch || r@ == CheckActionView::Done(OutcomeView::NoCandidate)
            &&& r@ matches CheckActionView::Switch(account) ==> {
                &&& old(check)@.accounts.contains(account)
                &&& account.id != refreshed@.id
                &&& account.enabled
                &&& final(check)@.stage == StageView::Switching(account.email)
            }
            &&& final(check)@.accounts == old(check)@.accounts
            &&& final(check)@.threshold == old(check)@.threshold
        }),
{
    current_account_is_kept_only_above_the_threshold(
        old(check)@.accounts,
        refreshed@,
        old(check)@.threshold.value(),
    );
}

} // verus!
