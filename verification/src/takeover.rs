//! How an account takes over: what is done to the machine and to the IDE, in order.
use crate::account::{
    build_switch_params, switch_params, Account, AccountView, AppSettings, ParamsView,
    SwitchAccountParams,
};
use crate::machine::{
    is_machine_for, moved_to, on_machine, resolve_machine_guid_switch_action,
    MachineGuidSwitchAction,
};
use vstd::prelude::*;

verus! {

/// What is done next to let an account take over.
pub enum TakeoverAction {
    /// Read the settings.
    ReadSettings,
    /// Bind the account to the machine with this identifier, in the list.
    Bind(String),
    /// Write this identifier to the machine.
    WriteMachine(String),
    /// Hand the IDE the account.
    HandOver(SwitchAccountParams),
    /// Nothing more: the account has taken over, or why it has not.
    Done(Result<(), String>),
}

#[verifier::ext_equal]
pub enum TakeoverActionView {
    ReadSettings,
    Bind(Seq<char>),
    WriteMachine(Seq<char>),
    HandOver(ParamsView),
    Done(Result<(), Seq<char>>),
}

/// The view of what has come of an action.
pub open spec fn done_view(result: Result<(), String>) -> Result<(), Seq<char>> {
    match result {
        Ok(done) => Ok(done),
        Err(error) => Err(error@),
    }
}

impl View for TakeoverAction {
    type V = TakeoverActionView;

    open spec fn view(&self) -> TakeoverActionView {
        match *self {
            TakeoverAction::ReadSettings => TakeoverActionView::ReadSettings,
            TakeoverAction::Bind(id) => TakeoverActionView::Bind(id@),
            TakeoverAction::WriteMachine(id) => TakeoverActionView::WriteMachine(id@),
            TakeoverAction::HandOver(params) => TakeoverActionView::HandOver(params@),
            TakeoverAction::Done(result) => TakeoverActionView::Done(done_view(result)),
        }
    }
}

/// What has come of the last action.
pub enum TakeoverEvent {
    /// The settings, or why they could not be read.
    Settings(Result<AppSettings, String>),
    /// The account is bound, or not.
    Bound,
    /// The identifier is written, or not.
    Written,
    /// The IDE has changed to the account, or why it has not.
    HandedOver(Result<(), String>),
}

#[verifier::ext_equal]
pub enum TakeoverEventView {
    Settings(Result<AppSettings, Seq<char>>),
    Bound,
    Written,
    HandedOver(Result<(), Seq<char>>),
}

impl View for TakeoverEvent {
    type V = TakeoverEventView;

    open spec fn view(&self) -> TakeoverEventView {
        match *self {
            TakeoverEvent::Settings(result) => TakeoverEventView::Settings(
                match result {
                    Ok(settings) => Ok(settings),
                    Err(error) => Err(error@),
                },
            ),
            TakeoverEvent::Bound => TakeoverEventView::Bound,
            TakeoverEvent::Written => TakeoverEventView::Written,
            TakeoverEvent::HandedOver(result) => TakeoverEventView::HandedOver(done_view(result)),
        }
    }
}

/// What an account that is taking over waits for.
pub enum TakeoverStage {
    Reading,
    Binding,
    Writing,
    HandingOver,
    Finished,
}

/// An account that is taking over.
pub struct Takeover {
    account: Account,
    machine_id: String,
    stage: TakeoverStage,
}

/// An account that is taking over: the identifier of the machine, empty until it is chosen,
/// and what it waits for.
#[verifier::ext_equal]
pub struct TakeoverView {
    pub account: AccountView,
    pub machine_id: Seq<char>,
    pub stage: TakeoverStage,
}

impl View for Takeover {
    type V = TakeoverView;

    closed spec fn view(&self) -> TakeoverView {
        TakeoverView {
            account: self.account@,
            machine_id: self.machine_id@,
            stage: self.stage,
        }
    }
}

/// `account` before anything is done.
pub open spec fn takeover_start(account: AccountView) -> TakeoverView {
    TakeoverView { account, machine_id: Seq::empty(), stage: TakeoverStage::Reading }
}

/// The event is what the account waits for.
pub open spec fn takeover_awaits(stage: TakeoverStage, event: TakeoverEventView) -> bool {
    match event {
        TakeoverEventView::Settings(_) => stage is Reading,
        TakeoverEventView::Bound => stage is Binding,
        TakeoverEventView::Written => stage is Writing,
        TakeoverEventView::HandedOver(_) => stage is HandingOver,
    }
}

/// What an event makes of an account that waits for it, and what is done next, where the
/// machine takes the identifier `chosen` if one is to be chosen. Neither a failure to bind
/// the account nor one to write the identifier stops it.
pub open spec fn takeover_step(
    state: TakeoverView,
    event: TakeoverEventView,
    chosen: Seq<char>,
) -> (TakeoverView, TakeoverActionView) {
    match event {
        TakeoverEventView::Settings(Err(error)) => (
            TakeoverView { stage: TakeoverStage::Finished, ..state },
            TakeoverActionView::Done(Err(error)),
        ),
        TakeoverEventView::Settings(Ok(_)) => (
            TakeoverView { machine_id: chosen, stage: TakeoverStage::Binding, ..state },
            TakeoverActionView::Bind(chosen),
        ),
        TakeoverEventView::Bound => (
            TakeoverView { stage: TakeoverStage::Writing, ..state },
            TakeoverActionView::WriteMachine(state.machine_id),
        ),
        TakeoverEventView::Written => {
            let account = moved_to(state.account, state.machine_id);
            (
                TakeoverView { account, stage: TakeoverStage::HandingOver, ..state },
                TakeoverActionView::HandOver(switch_params(account)),
            )
        },
        TakeoverEventView::HandedOver(result) => (
            TakeoverView { stage: TakeoverStage::Finished, ..state },
            TakeoverActionView::Done(result),
        ),
    }
}

/// The identifier that an action chooses for the machine.
pub open spec fn chosen_machine(action: TakeoverActionView) -> Seq<char> {
    match action {
        TakeoverActionView::Bind(id) => id,
        _ => Seq::empty(),
    }
}

/// Begins to let `account` take over: the settings are read first.
pub fn switch_account(account: &Account) -> (r: (Takeover, TakeoverAction))
    ensures
        r.0@ == takeover_start(account@),
        r.1@ == TakeoverActionView::ReadSettings,
{
    let takeover = Takeover {
        account: account.clone(),
        machine_id: String::new(),
        stage: TakeoverStage::Reading,
    };
    assert(takeover.machine_id@ =~= Seq::empty());
    (takeover, TakeoverAction::ReadSettings)
}

impl Takeover {
    /// Takes what has come of the last action, and gives the next one. The machine takes the
    /// identifier that the account is bound to, or a new one.
    pub fn step(&mut self, event: TakeoverEvent) -> (r: TakeoverAction)
        requires
            takeover_awaits(old(self)@.stage, event@),
        ensures
            (final(self)@, r@) == takeover_step(old(self)@, event@, chosen_machine(r@)),
            r@ matches TakeoverActionView::Bind(id) ==> is_machine_for(
                old(self)@.account.machine_id,
                id,
            ),
    {
        match event {
            TakeoverEvent::Settings(Ok(settings)) => {
                let MachineGuidSwitchAction::UseAccountMachineId(id) =
                    resolve_machine_guid_switch_action(&self.account, &settings);
                self.machine_id = id.clone();
                self.stage = TakeoverStage::Binding;
                TakeoverAction::Bind(id)
            },
            TakeoverEvent::Settings(Err(error)) => {
                self.stage = TakeoverStage::Finished;
                TakeoverAction::Done(Err(error))
            },
            TakeoverEvent::Bound => {
                self.stage = TakeoverStage::Writing;
                TakeoverAction::WriteMachine(self.machine_id.clone())
            },
            TakeoverEvent::Written => {
                self.account = on_machine(&self.account, self.machine_id.clone());
                self.stage = TakeoverStage::HandingOver;
                TakeoverAction::HandOver(build_switch_params(&self.account))
            },
            TakeoverEvent::HandedOver(result) => {
                self.stage = TakeoverStage::Finished;
                TakeoverAction::Done(result)
            },
        }
    }
}

/// Once the settings are read, an account is bound to one identifier in the list, that
/// identifier is written to the machine, and the IDE is handed the account's own
/// credentials, in that order, whether or not the first two succeed. What comes of the last
/// is the result.
pub proof fn takeover_binds_writes_and_hands_over(
    account: AccountView,
    settings: AppSettings,
    id: Seq<char>,
    result: Result<(), Seq<char>>,
)
    requires
        is_machine_for(account.machine_id, id),
    ensures
        ({
            let (s1, a1) = takeover_step(
                takeover_start(account),
                TakeoverEventView::Settings(Ok(settings)),
                id,
            );
            let (s2, a2) = takeover_step(s1, TakeoverEventView::Bound, Seq::empty());
            let (s3, a3) = takeover_step(s2, TakeoverEventView::Written, Seq::empty());
            let (s4, a4) = takeover_step(s3, TakeoverEventView::HandedOver(result), Seq::empty());
            &&& a1 == TakeoverActionView::Bind(id)
            &&& a2 == TakeoverActionView::WriteMachine(id)
            &&& a3 == TakeoverActionView::HandOver(switch_params(account))
            &&& a4 == TakeoverActionView::Done(result)
            &&& s4.account == moved_to(account, id)
            &&& s4.stage is Finished
        }),
{
}

/// An account whose settings cannot be read does not take over: nothing is bound, written or
/// handed over, and the failure is the result.
pub proof fn takeover_needs_the_settings(
    account: AccountView,
    error: Seq<char>,
    id: Seq<char>,
)
    ensures
        ({
            let (state, action) = takeover_step(
                takeover_start(account),
                TakeoverEventView::Settings(Err(error)),
                id,
            );
            &&& action == TakeoverActionView::Done(Err(error))
            &&& state.account == account
            &&& forall|event: TakeoverEventView| !#[trigger] takeover_awaits(state.stage, event)
        }),
{
}

/// What is done next is what the account then waits for, from the settings to the end; no
/// step is left out and none is done twice.
pub proof fn takeover_waits_for_what_it_does(
    account: AccountView,
    reading: Result<AppSettings, Seq<char>>,
    id: Seq<char>,
    result: Result<(), Seq<char>>,
)
    ensures
        ({
            let s0 = takeover_start(account);
            let (s1, a1) = takeover_step(s0, TakeoverEventView::Settings(reading), id);
            let (s2, a2) = takeover_step(s1, TakeoverEventView::Bound, Seq::empty());
            let (s3, a3) = takeover_step(s2, TakeoverEventView::Written, Seq::empty());
            let (s4, a4) = takeover_step(s3, TakeoverEventView::HandedOver(result), Seq::empty());
            &&& takeover_awaits(s0.stage, TakeoverEventView::Settings(reading))
            &&& reading is Ok ==> {
                &&& takeover_awaits(s1.stage, TakeoverEventView::Bound)
                &&& takeover_awaits(s2.stage, TakeoverEventView::Written)
                &&& takeover_awaits(s3.stage, TakeoverEventView::HandedOver(result))
                &&& forall|event: TakeoverEventView| !#[trigger] takeover_awaits(s4.stage, event)
                &&& s3.account == AccountView { machine_id: Some(id), ..account }
            }
            &&& reading matches Err(error) ==> {
                &&& a1 == TakeoverActionView::Done(Err(error))
                &&& forall|event: TakeoverEventView| !#[trigger] takeover_awaits(s1.stage, event)
            }
        }),
{
}

} // verus!
