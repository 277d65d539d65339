//! Which account to change to.
use crate::account::{account_view, Account, AccountView};
use crate::amount::{at_most, double_value, greater, Amount};
use crate::list::{
    find_first, find_first_characterised, is_first, position, position_view, views,
};
use crate::text::{lowered, same_text};
use vstd::prelude::*;

verus! {

/// The amount that an account has left; zero where it carries no usage details.
pub open spec fn remaining_of(account: AccountView) -> Option<int> {
    match account.usage_data {
        Some(usage) => match usage.remaining {
            Some(amount) => amount.value(),
            None => Some(0),
        },
        None => Some(0),
    }
}

/// The amount that `account` has left; zero where it carries no usage details.
pub fn calculate_remaining(account: &Account) -> (r: Amount)
    ensures
        r.value() == remaining_of(account@),
{
    match &account.usage_data {
        Some(usage) => match usage.remaining {
            Some(amount) => amount,
            None => Amount::zero(),
        },
        None => Amount::zero(),
    }
}

/// A status in lower case that rules an account out for good.
pub open spec fn is_unusable(status: Seq<char>) -> bool {
    status == "banned"@ || status == "invalid"@
}

/// Whether a status in lower case rules an account out for good.
pub fn unusable_status(status: &str) -> (r: bool)
    ensures
        r == is_unusable(status@),
{
    same_text(status, "banned") || same_text(status, "invalid")
}

/// The account is enabled and neither banned nor invalid, whatever the case of the
/// letters of its status.
pub open spec fn in_service(account: AccountView) -> bool {
    account.enabled && !is_unusable(lowered(account.status))
}

fn is_in_service(account: &Account) -> (r: bool)
    ensures
        r == in_service(account@),
{
    account.enabled && !unusable_status(account.status.as_str().to_lowercase().as_str())
}

/// The accounts that can take over when the current one, `current`, falls to
/// `threshold`: another one, in service, whose amount is not at or below it.
pub open spec fn available(current: Seq<char>, threshold: Option<int>) -> spec_fn(AccountView) -> bool {
    |a: AccountView|
        a.id != current && in_service(a) && !at_most(remaining_of(a), threshold)
}

/// Of the accounts that can take over, the one that is left when each in turn replaces the
/// one before it, unless the one before it has strictly more left.
pub open spec fn best_available(
    accounts: Seq<AccountView>,
    current: Seq<char>,
    threshold: Option<int>,
) -> Option<AccountView>
    decreases accounts.len(),
{
    if accounts.len() == 0 {
        None
    } else {
        let best = best_available(accounts.drop_last(), current, threshold);
        let last = accounts.last();
        if !available(current, threshold)(last) {
            best
        } else if best is Some && greater(remaining_of(best->0), remaining_of(last)) {
            best
        } else {
            Some(last)
        }
    }
}

/// The account with the most left among those that can take over.
pub fn find_available_account(
    accounts: &[Account],
    current_account: &Account,
    threshold: Amount,
) -> (r: Option<Account>)
    ensures
        account_view(r) == best_available(
            views(accounts@),
            current_account@.id,
            threshold.value(),
        ),
{
    let ghost all = views(accounts@);
    let ghost current = current_account@.id;
    let mut best: Option<usize> = None;
    let mut i: usize = 0;
    assert(all.take(0) =~= Seq::empty());
    while i < accounts.len()
        invariant
            i <= accounts@.len(),
            all == views(accounts@),
            current == current_account@.id,
            best matches Some(b) ==> b < i,
            best_available(all.take(i as int), current, threshold.value()) == match best {
                Some(b) => Some(all[b as int]),
                None => None,
            },
        decreases accounts@.len() - i,
    {
        let account = &accounts[i];
        proof {
            assert(all.take(i + 1).drop_last() =~= all.take(i as int));
            assert(all.take(i + 1).last() == account@);
        }
        if is_available(account, current_account, threshold) {
            let keep = match best {
                Some(b) => calculate_remaining(&accounts[b]).gt(calculate_remaining(account)),
                None => false,
            };
            if !keep {
                best = Some(i);
            }
        }
        i += 1;
    }
    assert(all.take(i as int) =~= all);
    match best {
        Some(b) => Some(accounts[b].clone()),
        None => None,
    }
}

fn is_available(account: &Account, current_account: &Account, threshold: Amount) -> (r: bool)
    ensures
        r == available(current_account@.id, threshold.value())(account@),
{
    !same_text(account.id.as_str(), current_account.id.as_str()) && is_in_service(account)
        && !calculate_remaining(account).le(threshold)
}

/// An account is found exactly when one can take over. The one that is found can take
/// over, and where every account that can has a number left, none of them has more, and
/// none further down the list has as much.
pub proof fn best_available_is_last_of_the_largest(
    accounts: Seq<AccountView>,
    current: Seq<char>,
    threshold: Option<int>,
)
    ensures
        ({
            let can = available(current, threshold);
            let best = best_available(accounts, current, threshold);
            let numbers = forall|i: int|
                0 <= i < accounts.len() && can(#[trigger] accounts[i]) ==> remaining_of(
                    accounts[i],
                ) is Some;
            &&& best is None <==> forall|i: int| 0 <= i < accounts.len() ==> !can(#[trigger] accounts[i])
            &&& best matches Some(b) ==> can(b) && exists|k: int|
                #![trigger accounts[k]]
                {
                    &&& 0 <= k < accounts.len()
                    &&& accounts[k] == b
                    &&& numbers ==> forall|i: int|
                        0 <= i < accounts.len() && can(#[trigger] accounts[i]) ==> {
                            &&& remaining_of(accounts[i])->0 <= remaining_of(b)->0
                            &&& i > k ==> remaining_of(accounts[i])->0 < remaining_of(b)->0
                        }
                }
        }),
    decreases accounts.len(),
{
    if accounts.len() > 0 {
        let can = available(current, threshold);
        let front = accounts.drop_last();
        let last = accounts.last();
        best_available_is_last_of_the_largest(front, current, threshold);
        let before = best_available(front, current, threshold);
        let best = best_available(accounts, current, threshold);
        assert forall|i: int| 0 <= i < front.len() implies front[i] == #[trigger] accounts[i] by {}
        let n = accounts.len() - 1;
        assert(accounts[n] == last);
        if best is Some {
            if can(last) && !(before is Some && greater(
                remaining_of(before->0),
                remaining_of(last),
            )) {
                assert(accounts[n] == best->0);
                assert forall|i: int| 0 <= i < front.len() && can(#[trigger] accounts[i]) implies can(
                    front[i],
                ) by {}
            } else {
                let numbers = forall|i: int|
                    0 <= i < front.len() && can(#[trigger] front[i]) ==> remaining_of(
                        front[i],
                    ) is Some;
                let b = before->0;
                let k = choose|k: int|
                    #![trigger front[k]]
                    {
                        &&& 0 <= k < front.len()
                        &&& front[k] == b
                        &&& numbers ==> forall|i: int|
                            0 <= i < front.len() && can(#[trigger] front[i]) ==> {
                                &&& remaining_of(front[i])->0 <= remaining_of(b)->0
                                &&& i > k ==> remaining_of(front[i])->0 < remaining_of(b)->0
                            }
                    };
                assert(accounts[k] == best->0);
            }
        } else {
            assert forall|i: int| 0 <= i < accounts.len() implies !can(#[trigger] accounts[i]) by {
                if i < n {
                    assert(!can(front[i]));
                }
            }
        }
    }
}

/// The list in the order in which a rotation visits it: what follows position `p`,
/// then what precedes it.
pub open spec fn rotation(accounts: Seq<AccountView>, p: int) -> Seq<AccountView> {
    accounts.skip(p + 1) + accounts.take(p)
}

/// The accounts with the identifier `id`.
pub open spec fn has_id(id: Seq<char>) -> spec_fn(AccountView) -> bool {
    |a: AccountView| a.id == id
}

/// The accounts that a rotation away from `current` stops at: another one, in
/// service, whose amount is not at or below zero.
pub open spec fn rotatable(current: Seq<char>) -> spec_fn(AccountView) -> bool {
    |a: AccountView| a.id != current && in_service(a) && !at_most(remaining_of(a), Some(0))
}

/// The next account after `current` in the rotation of the list, if `current` is in the
/// list and the rotation stops at one.
pub open spec fn next_available(accounts: Seq<AccountView>, current: Seq<char>) -> Option<AccountView> {
    match find_first(accounts, has_id(current)) {
        Some(p) => match find_first(rotation(accounts, p), rotatable(current)) {
            Some(k) => Some(rotation(accounts, p)[k]),
            None => None,
        },
        None => None,
    }
}

/// The position of the account with the identifier `id`.
pub fn position_of_id(accounts: &[Account], id: &str) -> (r: Option<usize>)
    ensures
        find_first(views(accounts@), has_id(id@)) == position_view(r),
        r matches Some(i) ==> i < accounts@.len() && accounts@[i as int]@.id == id@,
{
    let matches = |a: &Account| -> (b: bool)
        ensures b == has_id(id@)(a@)
    {
        same_text(a.id.as_str(), id)
    };
    position(accounts, matches, Ghost(has_id(id@)))
}

/// The next account in the rotation of the list that starts behind the current one.
/// No threshold counts here; an account with nothing left is passed over.
pub fn find_next_available_account(
    accounts: &[Account],
    current_account: &Account,
) -> (r: Option<Account>)
    ensures
        account_view(r) == next_available(views(accounts@), current_account@.id),
{
    let ghost all = views(accounts@);
    let ghost current = current_account@.id;
    let p = match position_of_id(accounts, current_account.id.as_str()) {
        Some(p) => p,
        None => {
            return None;
        },
    };
    let n = accounts.len();
    let ghost order = rotation(all, p as int);
    proof {
        find_first_characterised(all, has_id(current));
        find_first_characterised(order, rotatable(current));
        assert(is_first(all, has_id(current), p as int));
    }
    let mut i: usize = 1;
    while i < n
        invariant
            1 <= i <= n,
            n == accounts@.len(),
            p < n,
            all == views(accounts@),
            current == current_account@.id,
            order == rotation(all, p as int),
            find_first(all, has_id(current)) == Some(p as int),
            forall|j: int| 0 <= j < i - 1 ==> !rotatable(current)(#[trigger] order[j]),
            forall|k: int|
                is_first(order, rotatable(current), k) <==> find_first(order, rotatable(current))
                    == Some(k),
        decreases n - i,
    {
        let next: usize = if i < n - p {
            p + i
        } else {
            i - (n - p)
        };
        let account = &accounts[next];
        assert(order[i - 1] == account@);
        if !same_text(account.id.as_str(), current_account.id.as_str()) && is_in_service(account)
            && !calculate_remaining(account).le(Amount::zero()) {
            assert(is_first(order, rotatable(current), i - 1));
            return Some(account.clone());
        }
        i += 1;
    }
    None
}

/// The account that a rotation gives is one of the list, is not the current one, is in
/// service and has something left; and the rotation gives one whenever the current
/// account is in the list together with such an account.
pub proof fn next_available_leaves_the_current_account(
    accounts: Seq<AccountView>,
    current: Seq<char>,
)
    ensures
        next_available(accounts, current) matches Some(a) ==> rotatable(current)(a)
            && accounts.contains(a),
        next_available(accounts, current) is Some <==> {
            &&& exists|i: int| 0 <= i < accounts.len() && has_id(current)(#[trigger] accounts[i])
            &&& exists|i: int|
                0 <= i < accounts.len() && rotatable(current)(#[trigger] accounts[i])
        },
{
    find_first_characterised(accounts, has_id(current));
    if let Some(p) = find_first(accounts, has_id(current)) {
        assert(is_first(accounts, has_id(current), p));
        let order = rotation(accounts, p);
        find_first_characterised(order, rotatable(current));
        let n = accounts.len() as int;
        assert forall|k: int| 0 <= k < order.len() implies accounts.contains(#[trigger] order[k]) by {
            let i = if k < n - p - 1 { p + 1 + k } else { k - (n - p - 1) };
            assert(order[k] == accounts[i]);
        }
        assert forall|i: int|
            0 <= i < n && rotatable(current)(#[trigger] accounts[i]) implies find_first(
            order,
            rotatable(current),
        ) is Some by {
            let k = if i > p { i - p - 1 } else { i + (n - p - 1) };
            assert(i != p);
            assert(order[k] == accounts[i]);
        }
        if let Some(k) = find_first(order, rotatable(current)) {
            assert(is_first(order, rotatable(current), k));
            assert(accounts.contains(order[k]));
            let i = choose|i: int| 0 <= i < n && accounts[i] == order[k];
            assert(rotatable(current)(accounts[i]));
            assert(has_id(current)(accounts[p]));
        }
    }
}

/// The accounts that a switch without a current account can take: in service, with
/// more than zero left.
pub open spec fn startable() -> spec_fn(AccountView) -> bool {
    |a: AccountView| in_service(a) && greater(remaining_of(a), Some(0))
}

/// The first account of the list that a switch without a current account can take.
pub open spec fn first_startable(accounts: Seq<AccountView>) -> Option<AccountView> {
    match find_first(accounts, startable()) {
        Some(i) => Some(accounts[i]),
        None => None,
    }
}

/// The first account of the list that is in service and has more than zero left.
pub fn find_first_usable_account(accounts: &[Account]) -> (r: Option<Account>)
    ensures
        account_view(r) == first_startable(views(accounts@)),
{
    let matches = |a: &Account| -> (b: bool)
        ensures b == startable()(a@)
    {
        is_in_service(a) && calculate_remaining(a).gt(Amount::zero())
    };
    match position(accounts, matches, Ghost(startable())) {
        Some(i) => Some(accounts[i].clone()),
        None => None,
    }
}

/// What an account has left is the amount that its quota document tells, whatever else is
/// known of the account; an account without a document, or with one that tells no amount,
/// has nothing left.
pub proof fn remaining_is_told_by_the_quota_document(account: AccountView)
    ensures
        account.usage_data is None ==> remaining_of(account) == Some(0int),
        account.usage_data matches Some(usage) ==> {
            &&& usage.remaining is None ==> remaining_of(account) == Some(0int)
            &&& usage.remaining matches Some(amount) ==> remaining_of(account) == double_value(
                amount.bits,
            )
        },
{
}

/// The automatic switch finds an account exactly when one other than the current one is
/// enabled, is neither banned nor invalid, and has an amount left that is not at or below
/// the threshold. The account that it finds is one of these; every such account further
/// down the list has less left; and where all of them have numbers left, none has more.
pub proof fn automatic_switch_finds_the_account_with_the_most(
    accounts: Seq<AccountView>,
    current: Seq<char>,
    threshold: Option<int>,
)
    ensures
        ({
            let found = best_available(accounts, current, threshold);
            let can = |a: AccountView|
                {
                    &&& a.id != current
                    &&& a.enabled
                    &&& lowered(a.status) != "banned"@
                    &&& lowered(a.status) != "invalid"@
                    &&& remaining_of(a) is None || threshold is None || remaining_of(a)->0
                        > threshold->0
                };
            &&& found is None <==> forall|i: int|
                0 <= i < accounts.len() ==> !can(#[trigger] accounts[i])
            &&& found matches Some(best) ==> exists|k: int|
                #![trigger accounts[k]]
                {
                    &&& 0 <= k < accounts.len()
                    &&& accounts[k] == best
                    &&& can(best)
                    &&& forall|i: int|
                        k < i < accounts.len() && can(#[trigger] accounts[i]) ==> {
                            &&& remaining_of(best) is Some
                            &&& remaining_of(accounts[i]) is Some
                            &&& remaining_of(accounts[i])->0 < remaining_of(best)->0
                        }
                    &&& (forall|i: int|
                        0 <= i < accounts.len() && can(#[trigger] accounts[i]) ==> remaining_of(
                            accounts[i],
                        ) is Some) ==> forall|i: int|
                        0 <= i < accounts.len() && can(#[trigger] accounts[i]) ==> remaining_of(
                            accounts[i],
                        )->0 <= remaining_of(best)->0
                }
        }),
    decreases accounts.len(),
{
    let can = |a: AccountView|
        {
            &&& a.id != current
            &&& a.enabled
            &&& lowered(a.status) != "banned"@
            &&& lowered(a.status) != "invalid"@
            &&& remaining_of(a) is None || threshold is None || remaining_of(a)->0 > threshold->0
        };
    if accounts.len() > 0 {
        let front = accounts.drop_last();
        let last = accounts.last();
        let n = accounts.len() - 1;
        automatic_switch_finds_the_account_with_the_most(front, current, threshold);
        let before = best_available(front, current, threshold);
        assert forall|i: int| 0 <= i < n implies front[i] == #[trigger] accounts[i] by {}
        assert(accounts[n] == last);
        assert(can(last) == available(current, threshold)(last));
        if can(last) && !(before is Some && greater(remaining_of(before->0), remaining_of(last))) {
            assert(best_available(accounts, current, threshold) == Some(last));
            if before is None {
                assert forall|i: int| 0 <= i < n implies !can(#[trigger] accounts[i]) by {
                    assert(!can(front[i]));
                }
            } else {
                assert(exists|k: int| 0 <= k < n && #[trigger] accounts[k] == before->0 && can(
                    accounts[k],
                )) by {
                    let k = choose|k: int|
                        0 <= k < front.len() && #[trigger] front[k] == before->0 && can(before->0);
                    assert(accounts[k] == before->0);
                }
                if forall|i: int|
                    0 <= i < accounts.len() && can(#[trigger] accounts[i]) ==> remaining_of(
                        accounts[i],
                    ) is Some {
                    assert forall|i: int|
                        0 <= i < front.len() && can(#[trigger] front[i]) implies remaining_of(
                        front[i],
                    ) is Some by {
                        assert(can(accounts[i]));
                    }
                    assert forall|i: int|
                        0 <= i < accounts.len() && can(#[trigger] accounts[i]) implies remaining_of(
                        accounts[i],
                    )->0 <= remaining_of(last)->0 by {
                        if i < n {
                            assert(can(front[i]));
                        }
                    }
                }
            }
        } else if before is Some {
            let best = before->0;
            let k = choose|k: int|
                #![trigger front[k]]
                {
                    &&& 0 <= k < front.len()
                    &&& front[k] == best
                    &&& can(best)
                    &&& forall|i: int|
                        k < i < front.len() && can(#[trigger] front[i]) ==> {
                            &&& remaining_of(best) is Some
                            &&& remaining_of(front[i]) is Some
                            &&& remaining_of(front[i])->0 < remaining_of(best)->0
                        }
                    &&& (forall|i: int|
                        0 <= i < front.len() && can(#[trigger] front[i]) ==> remaining_of(
                            front[i],
                        ) is Some) ==> forall|i: int|
                        0 <= i < front.len() && can(#[trigger] front[i]) ==> remaining_of(
                            front[i],
                        )->0 <= remaining_of(best)->0
                };
            assert(accounts[k] == best);
            assert forall|i: int| k < i < accounts.len() && can(#[trigger] accounts[i]) implies {
                &&& remaining_of(best) is Some
                &&& remaining_of(accounts[i]) is Some
                &&& remaining_of(accounts[i])->0 < remaining_of(best)->0
            } by {
                if i < n {
                    assert(can(front[i]));
                }
            }
            if forall|i: int|
                0 <= i < accounts.len() && can(#[trigger] accounts[i]) ==> remaining_of(
                    accounts[i],
                ) is Some {
                assert forall|i: int|
                    0 <= i < front.len() && can(#[trigger] front[i]) implies remaining_of(
                    front[i],
                ) is Some by {
                    assert(can(accounts[i]));
                }
                assert forall|i: int|
                    0 <= i < accounts.len() && can(#[trigger] accounts[i]) implies remaining_of(
                    accounts[i],
                )->0 <= remaining_of(best)->0 by {
                    if i < n {
                        assert(can(front[i]));
                    }
                }
            }
        } else {
            assert forall|i: int| 0 <= i < accounts.len() implies !can(#[trigger] accounts[i]) by {
                if i < n {
                    assert(!can(front[i]));
                }
            }
        }
    }
}

/// One more account at the end of the list is found by the automatic switch exactly when it
/// can take over and the account that was found without it, if any, does not have strictly
/// more left; else what was found without it is found still.
pub proof fn one_more_account_takes_over_or_changes_nothing(
    accounts: Seq<AccountView>,
    account: AccountView,
    current: Seq<char>,
    threshold: Option<int>,
)
    ensures
        ({
            let before = best_available(accounts, current, threshold);
            let after = best_available(accounts.push(account), current, threshold);
            let can = {
                &&& account.id != current
                &&& account.enabled
                &&& lowered(account.status) != "banned"@
                &&& lowered(account.status) != "invalid"@
                &&& remaining_of(account) is None || threshold is None || remaining_of(account)->0
                    > threshold->0
            };
            let beaten = before matches Some(b) && remaining_of(b) is Some && remaining_of(
                account,
            ) is Some && remaining_of(b)->0 > remaining_of(account)->0;
            if can && !beaten {
                after == Some(account)
            } else {
                after == before
            }
        }),
{
    assert(accounts.push(account).drop_last() =~= accounts);
}

/// The rotation leads from the current account, the first one in the list with its
/// identifier, to the nearest account behind it that is another one, is enabled, is neither
/// banned nor invalid, and does not have an amount at or below zero left, where the list
/// goes on from its end at its beginning. So no such account is passed over, and the
/// account right behind the current one, if it is one, is where the rotation leads.
pub proof fn rotation_leads_to_the_nearest_usable_account(
    accounts: Seq<AccountView>,
    current: Seq<char>,
    p: int,
)
    requires
        0 <= p < accounts.len(),
        accounts[p].id == current,
        forall|j: int| 0 <= j < p ==> (#[trigger] accounts[j]).id != current,
    ensures
        ({
            let n = accounts.len() as int;
            let stops = |a: AccountView|
                {
                    &&& a.id != current
                    &&& a.enabled
                    &&& lowered(a.status) != "banned"@
                    &&& lowered(a.status) != "invalid"@
                    &&& remaining_of(a) is None || remaining_of(a)->0 > 0
                };
            let steps = |i: int| if i > p { i - p } else { i - p + n };
            let found = next_available(accounts, current);
            &&& found is None <==> forall|i: int| 0 <= i < n ==> !stops(#[trigger] accounts[i])
            &&& found matches Some(next) ==> exists|k: int|
                #![trigger accounts[k]]
                {
                    &&& 0 <= k < n
                    &&& accounts[k] == next
                    &&& stops(next)
                    &&& forall|i: int|
                        0 <= i < n && stops(#[trigger] accounts[i]) ==> steps(k) <= steps(i)
                }
            &&& p + 1 < n && stops(accounts[p + 1]) ==> found == Some(accounts[p + 1])
            &&& p + 1 == n && stops(accounts[0]) ==> found == Some(accounts[0])
        }),
{
    let n = accounts.len() as int;
    let stops = |a: AccountView|
        {
            &&& a.id != current
            &&& a.enabled
            &&& lowered(a.status) != "banned"@
            &&& lowered(a.status) != "invalid"@
            &&& remaining_of(a) is None || remaining_of(a)->0 > 0
        };
    let steps = |i: int| if i > p { i - p } else { i - p + n };
    find_first_characterised(accounts, has_id(current));
    assert(is_first(accounts, has_id(current), p));
    let order = rotation(accounts, p);
    find_first_characterised(order, rotatable(current));
    assert(order.len() == n - 1);
    assert forall|a: AccountView| stops(a) == #[trigger] rotatable(current)(a) by {}
    assert forall|i: int| 0 <= i < n && i != p implies order[steps(i) - 1] == #[trigger] accounts[i] by {}
    match find_first(order, rotatable(current)) {
        Some(m) => {
            assert(is_first(order, rotatable(current), m));
            let k = if m + 1 < n - p { p + m + 1 } else { m + 1 - (n - p) };
            assert(accounts[k] == order[m]);
            assert(rotatable(current)(order[m]));
            assert forall|i: int| 0 <= i < n && stops(#[trigger] accounts[i]) implies steps(k)
                <= steps(i) by {
                assert(i != p);
                assert(rotatable(current)(order[steps(i) - 1]));
            }
            if p + 1 < n && stops(accounts[p + 1]) {
                assert(steps(k) <= steps(p + 1));
            }
            if p + 1 == n && stops(accounts[0]) {
                assert(n > 1);
                assert(steps(k) <= steps(0));
            }
        },
        None => {
            assert forall|i: int| 0 <= i < n implies !stops(#[trigger] accounts[i]) by {
                if i != p {
                    assert(!rotatable(current)(order[steps(i) - 1]));
                }
            }
        },
    }
}

/// Without the current account in the list the rotation leads nowhere.
pub proof fn rotation_needs_the_current_account(accounts: Seq<AccountView>, current: Seq<char>)
    requires
        forall|i: int| 0 <= i < accounts.len() ==> (#[trigger] accounts[i]).id != current,
    ensures
        next_available(accounts, current) is None,
{
    find_first_characterised(accounts, has_id(current));
}

/// Without a current account the switch goes to the first account of the list that is
/// enabled, is neither banned nor invalid, and has more than zero left, and nowhere exactly
/// when there is none.
pub proof fn switch_without_a_current_account_takes_the_first(accounts: Seq<AccountView>)
    ensures
        ({
            let fit = |a: AccountView|
                {
                    &&& a.enabled
                    &&& lowered(a.status) != "banned"@
                    &&& lowered(a.status) != "invalid"@
                    &&& remaining_of(a) is Some
                    &&& remaining_of(a)->0 > 0
                };
            let found = first_startable(accounts);
            &&& found is None <==> forall|i: int|
                0 <= i < accounts.len() ==> !fit(#[trigger] accounts[i])
            &&& found matches Some(first) ==> exists|k: int|
                #![trigger accounts[k]]
                {
                    &&& 0 <= k < accounts.len()
                    &&& accounts[k] == first
                    &&& fit(first)
                    &&& forall|i: int| 0 <= i < k ==> !fit(#[trigger] accounts[i])
                }
        }),
{
    let fit = |a: AccountView|
        {
            &&& a.enabled
            &&& lowered(a.status) != "banned"@
            &&& lowered(a.status) != "invalid"@
            &&& remaining_of(a) is Some
            &&& remaining_of(a)->0 > 0
        };
    find_first_characterised(accounts, startable());
    assert forall|a: AccountView| fit(a) == #[trigger] startable()(a) by {}
    if let Some(k) = find_first(accounts, startable()) {
        assert(is_first(accounts, startable(), k));
        assert(accounts[k] == first_startable(accounts)->0);
        assert forall|i: int| 0 <= i < k implies !fit(#[trigger] accounts[i]) by {
            assert(!startable()(accounts[i]));
        }
    } else {
        assert forall|i: int| 0 <= i < accounts.len() implies !fit(#[trigger] accounts[i]) by {
            assert(!startable()(accounts[i]));
        }
    }
}

} // verus!
