//! What whoever listens is told of a switch.
use crate::list::views;
use crate::switching::{CheckOutcome, OutcomeView};
use crate::text::opt_view;
use vstd::prelude::*;

verus! {

/// What whoever listens is told.
pub enum Notice {
    /// The list of accounts is to be read again.
    AccountsUpdated,
    /// The account with this e-mail address has taken over.
    AccountSwitched(Option<String>),
}

#[verifier::ext_equal]
pub enum NoticeView {
    AccountsUpdated,
    AccountSwitched(Option<Seq<char>>),
}

impl View for Notice {
    type V = NoticeView;

    open spec fn view(&self) -> NoticeView {
        match *self {
            Notice::AccountsUpdated => NoticeView::AccountsUpdated,
            Notice::AccountSwitched(email) => NoticeView::AccountSwitched(opt_view(email)),
        }
    }
}

/// The name under which a notice is listened for.
pub open spec fn notice_name(notice: NoticeView) -> Seq<char> {
    match notice {
        NoticeView::AccountsUpdated => "accounts-updated"@,
        NoticeView::AccountSwitched(_) => "account-switched"@,
    }
}

impl Notice {
    /// The name under which the notice is listened for.
    pub fn name(&self) -> (r: &'static str)
        ensures
            r@ == notice_name(self@),
    {
        match self {
            Notice::AccountsUpdated => "accounts-updated",
            Notice::AccountSwitched(_) => "account-switched",
        }
    }
}

/// What is told, in order, when the account with the e-mail address `email` has taken over.
pub open spec fn switch_notices(email: Option<Seq<char>>) -> Seq<NoticeView> {
    seq![NoticeView::AccountsUpdated, NoticeView::AccountSwitched(email)]
}

/// What is told when a check has ended: a switch, and nothing else.
pub open spec fn check_notices(outcome: OutcomeView) -> Seq<NoticeView> {
    match outcome {
        OutcomeView::Switched(email) => switch_notices(email),
        _ => Seq::empty(),
    }
}

/// What is told when a switch on demand has ended: that it was made, and nothing else.
pub open spec fn quick_notices(result: Result<Seq<char>, Seq<char>>) -> Seq<NoticeView> {
    match result {
        Ok(email) => switch_notices(Some(email)),
        Err(_) => Seq::empty(),
    }
}

fn notices_of_switch(email: Option<String>) -> (r: Vec<Notice>)
    ensures
        views(r@) == switch_notices(opt_view(email)),
{
    let notices = vec![Notice::AccountsUpdated, Notice::AccountSwitched(email)];
    assert(views(notices@) =~= switch_notices(opt_view(email)));
    notices
}

fn no_notices() -> (r: Vec<Notice>)
    ensures
        views(r@) == Seq::<NoticeView>::empty(),
{
    let notices: Vec<Notice> = Vec::new();
    assert(views(notices@) =~= Seq::empty());
    notices
}

/// What is told, in order, when a check has ended.
pub fn notices_of_check(outcome: &CheckOutcome) -> (r: Vec<Notice>)
    ensures
        views(r@) == check_notices(outcome@),
{
    match outcome {
        CheckOutcome::Switched(email) => notices_of_switch(email.clone()),
        _ => no_notices(),
    }
}

/// What is told, in order, when a switch on demand has ended.
pub fn notices_of_quick_switch(result: &Result<String, String>) -> (r: Vec<Notice>)
    ensures
        views(r@) == quick_notices(
            match *result {
                Ok(email) => Ok(email@),
                Err(error) => Err(error@),
            },
        ),
{
    match result {
        Ok(email) => notices_of_switch(Some(email.clone())),
        Err(_) => no_notices(),
    }
}

/// A switch is told in two notices, first that the list of accounts has changed and then
/// whose account has taken over; how else a check or a switch on demand ends is not told.
pub proof fn only_a_switch_is_told_and_in_two_notices(
    outcome: &CheckOutcome,
    result: &Result<String, String>,
    of_check: Vec<Notice>,
    of_quick_switch: Vec<Notice>,
)
    requires
        call_ensures(notices_of_check, (outcome,), of_check),
        call_ensures(notices_of_quick_switch, (result,), of_quick_switch),
    ensures
        !(outcome is Switched) ==> of_check@.len() == 0,
        outcome matches CheckOutcome::Switched(email) ==> {
            &&& of_check@.len() == 2
            &&& of_check@[0]@ == NoticeView::AccountsUpdated
            &&& of_check@[1]@ == NoticeView::AccountSwitched(opt_view(*email))
        },
        result is Err ==> of_quick_switch@.len() == 0,
        result matches Ok(email) ==> {
            &&& of_quick_switch@.len() == 2
            &&& of_quick_switch@[0]@ == NoticeView::AccountsUpdated
            &&& of_quick_switch@[1]@ == NoticeView::AccountSwitched(Some(email@))
        },
{
    assert(views(of_check@).len() == of_check@.len());
    assert(views(of_quick_switch@).len() == of_quick_switch@.len());
    if outcome is Switched {
        assert(views(of_check@)[0] == of_check@[0]@);
        assert(views(of_check@)[1] == of_check@[1]@);
    }
    if result is Ok {
        assert(views(of_quick_switch@)[0] == of_quick_switch@[0]@);
        assert(views(of_quick_switch@)[1] == of_quick_switch@[1]@);
    }
}

/// The two notices have the names under which the windows listen for them.
pub proof fn notices_have_their_names(notice: Notice, r: &'static str)
    requires
        call_ensures(Notice::name, (&notice,), r),
    ensures
        notice is AccountsUpdated ==> r@ == "accounts-updated"@,
        notice is AccountSwitched ==> r@ == "account-switched"@,
{
}

} // verus!
