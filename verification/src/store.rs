//! What is written back to the list of accounts.
use crate::account::{Account, AccountView, KiroLocalToken, TokenView, UsageData, UsageView};
use crate::amount::double_value;
use crate::identify::{exact_match, with_access_token, with_refresh_token};
use crate::list::{find_first, find_first_characterised, is_first, views};
use crate::selection::{has_id, in_service, position_of_id, remaining_of};
use crate::text::{ascii_lower, blank, is_blank, opt_str_view, same_text, trimmed};
use vstd::prelude::*;

verus! {

/// There is a text, and it is not empty.
pub open spec fn is_given(text: Option<Seq<char>>) -> bool {
    text is Some && text->0.len() > 0
}

/// The view of an optional reference to a quota document.
pub open spec fn usage_ref_view(usage: Option<&UsageData>) -> Option<UsageView> {
    match usage {
        Some(u) => Some(u@),
        None => None,
    }
}

/// An account with what the local session knows better: tokens that are not empty replace
/// its own, and so does a quota document, whose user fills in an e-mail address that is
/// blank and an identifier that is missing.
pub open spec fn synced(
    account: AccountView,
    refresh_token: Option<Seq<char>>,
    access_token: Option<Seq<char>>,
    usage: Option<UsageView>,
) -> AccountView {
    AccountView {
        refresh_token: if is_given(refresh_token) {
            refresh_token
        } else {
            account.refresh_token
        },
        access_token: if is_given(access_token) {
            access_token
        } else {
            account.access_token
        },
        usage_data: if usage is Some {
            usage
        } else {
            account.usage_data
        },
        email: if usage is Some && usage->0.email is Some && (account.email is None || is_blank(
            account.email->0,
        )) {
            usage->0.email
        } else {
            account.email
        },
        user_id: if usage is Some && account.user_id is None {
            usage->0.user_id
        } else {
            account.user_id
        },
        ..account
    }
}

fn sync_account(
    account: &Account,
    refresh_token: Option<&str>,
    access_token: Option<&str>,
    usage_data: Option<&UsageData>,
) -> (r: Account)
    ensures
        r@ == synced(
            account@,
            opt_str_view(refresh_token),
            opt_str_view(access_token),
            usage_ref_view(usage_data),
        ),
{
    let mut acc = account.clone();
    if let Some(token) = refresh_token {
        if !token.is_empty() {
            acc.refresh_token = Some(token.to_owned());
        }
    }
    if let Some(token) = access_token {
        if !token.is_empty() {
            acc.access_token = Some(token.to_owned());
        }
    }
    if let Some(usage) = usage_data {
        acc.usage_data = Some(usage.clone());
        let email_missing = match &acc.email {
            Some(email) => blank(email.as_str()),
            None => true,
        };
        if email_missing && usage.email.is_some() {
            acc.email = usage.email.clone();
        }
        if acc.user_id.is_none() {
            acc.user_id = usage.user_id.clone();
        }
    }
    acc
}

proof fn lemma_first_with_id(accounts: Seq<Account>, id: Seq<char>)
    ensures
        match find_first(views(accounts), has_id(id)) {
            Some(i) => {
                &&& 0 <= i < accounts.len()
                &&& accounts[i]@.id == id
                &&& forall|j: int| 0 <= j < i ==> (#[trigger] accounts[j])@.id != id
            },
            None => forall|j: int| 0 <= j < accounts.len() ==> (#[trigger] accounts[j])@.id != id,
        },
{
    let all = views(accounts);
    find_first_characterised(all, has_id(id));
    match find_first(all, has_id(id)) {
        Some(i) => {
            assert(is_first(all, has_id(id), i));
            assert(has_id(id)(all[i]));
            assert forall|j: int| 0 <= j < i implies (#[trigger] accounts[j])@.id != id by {
                assert(!has_id(id)(all[j]));
            }
        },
        None => {
            assert forall|j: int| 0 <= j < accounts.len() implies (#[trigger] accounts[j])@.id
                != id by {
                assert(!has_id(id)(all[j]));
            }
        },
    }
}

/// Writes what the local session knows better to the account with the identifier
/// `account_id`; fails where there is none.
pub fn sync_local_tokens_to_account(
    accounts: &mut Vec<Account>,
    account_id: &str,
    refresh_token: Option<&str>,
    access_token: Option<&str>,
    usage_data: Option<&UsageData>,
) -> (r: Result<(), String>)
    ensures
        match find_first(views(old(accounts)@), has_id(account_id@)) {
            Some(i) => {
                &&& r is Ok
                &&& views(final(accounts)@) == views(old(accounts)@).update(
                    i,
                    synced(
                        old(accounts)@[i]@,
                        opt_str_view(refresh_token),
                        opt_str_view(access_token),
                        usage_ref_view(usage_data),
                    ),
                )
            },
            None => {
                &&& r matches Err(e) && e@ == "账号不存在"@
                &&& final(accounts)@ == old(accounts)@
            },
        },
        r is Ok <==> exists|j: int|
            0 <= j < old(accounts)@.len() && (#[trigger] old(accounts)@[j])@.id == account_id@,
        final(accounts)@.len() == old(accounts)@.len(),
        forall|j: int|
            0 <= j < old(accounts)@.len() && (#[trigger] old(accounts)@[j])@.id != account_id@
                ==> final(accounts)@[j]@ == old(accounts)@[j]@,
{
    proof {
        lemma_first_with_id(accounts@, account_id@);
    }
    match position_of_id(accounts.as_slice(), account_id) {
        Some(i) => {
            let ghost before = accounts@;
            let updated = sync_account(&accounts[i], refresh_token, access_token, usage_data);
            accounts.set(i, updated);
            assert(views(accounts@) =~= views(before).update(i as int, updated@));
            Ok(())
        },
        None => Err("账号不存在".to_owned()),
    }
}

/// Once the tokens of the session have been written to an account, the session is
/// recognised by them without another query, provided that one of them is not empty; and
/// where no account held one of them before, it is recognised as that account.
pub proof fn synced_session_is_recognised(
    accounts: Seq<AccountView>,
    i: int,
    token: TokenView,
    usage: Option<UsageView>,
)
    requires
        0 <= i < accounts.len(),
        is_given(token.refresh_token) || is_given(token.access_token),
    ensures
        ({
            let after = accounts.update(
                i,
                synced(accounts[i], token.refresh_token, token.access_token, usage),
            );
            &&& exact_match(after, token) is Some
            &&& exact_match(accounts, token) is None ==> exact_match(after, token) == Some(i)
        }),
{
    let after = accounts.update(
        i,
        synced(accounts[i], token.refresh_token, token.access_token, usage),
    );
    if let Some(t) = token.refresh_token {
        let pred = with_refresh_token(t);
        find_first_characterised(accounts, pred);
        find_first_characterised(after, pred);
        assert forall|j: int| 0 <= j < after.len() && j != i implies pred(
            #[trigger] after[j],
        ) == pred(accounts[j]) by {}
        if is_given(token.refresh_token) {
            assert(pred(after[i]));
            if exact_match(accounts, token) is None {
                assert(is_first(after, pred, i));
            }
        } else {
            assert(after[i].refresh_token == accounts[i].refresh_token);
        }
    }
    if let Some(t) = token.access_token {
        let pred = with_access_token(t);
        find_first_characterised(accounts, pred);
        find_first_characterised(after, pred);
        if is_given(token.access_token) {
            assert(pred(after[i]));
            if exact_match(accounts, token) is None {
                assert forall|j: int| 0 <= j < i implies !pred(#[trigger] after[j]) by {
                    assert(!pred(accounts[j]));
                }
                assert(is_first(after, pred, i));
            }
        }
    }
}

/// To write the same twice changes nothing more.
pub proof fn sync_twice_is_sync_once(
    account: AccountView,
    refresh_token: Option<Seq<char>>,
    access_token: Option<Seq<char>>,
    usage: Option<UsageView>,
)
    ensures
        synced(
            synced(account, refresh_token, access_token, usage),
            refresh_token,
            access_token,
            usage,
        ) == synced(account, refresh_token, access_token, usage),
{
}

/// The access token with which the quota of an account is read: that of the session, else
/// the account's own, if it is not empty.
pub open spec fn quota_token(session: Option<Seq<char>>, own: Option<Seq<char>>) -> Option<
    Seq<char>,
> {
    if is_given(session) {
        session
    } else if is_given(own) {
        own
    } else {
        None
    }
}

/// The access token with which the quota of `account` is read; fails where there is none.
pub fn choose_quota_token(local_token: Option<&KiroLocalToken>, account: &Account) -> (r: Result<
    String,
    String,
>)
    ensures
        match quota_token(
            match local_token {
                Some(token) => token@.access_token,
                None => None,
            },
            account@.access_token,
        ) {
            Some(token) => r matches Ok(t) && t@ == token,
            None => r matches Err(e) && e@ == "当前账号无 accessToken，无法刷新配额"@,
        },
{
    if let Some(local) = local_token {
        if let Some(token) = &local.access_token {
            if !token.as_str().is_empty() {
                return Ok(token.clone());
            }
        }
    }
    if let Some(token) = &account.access_token {
        if !token.as_str().is_empty() {
            return Ok(token.clone());
        }
    }
    Err("当前账号无 accessToken，无法刷新配额".to_owned())
}

/// What a quota query of an account gave.
pub struct UsageResult {
    pub usage_data: UsageData,
    /// The credentials were refused.
    pub is_auth_error: bool,
    /// The account is banned.
    pub is_banned: bool,
}

/// An account as a quota query leaves it in the list.
pub open spec fn with_usage(account: AccountView, result: UsageResult) -> AccountView {
    AccountView {
        usage_data: Some(result.usage_data@),
        status: if result.is_banned {
            "banned"@
        } else if result.usage_data.capped {
            "capped"@
        } else {
            account.status
        },
        ..account
    }
}

/// An account that a quota query finds banned is out of service from then on. One that it
/// finds capped, and no more, is in service if it is enabled.
pub proof fn banned_accounts_leave_the_service(account: AccountView, result: UsageResult)
    ensures
        result.is_banned ==> !in_service(with_usage(account, result)),
        !result.is_banned && result.usage_data.capped ==> in_service(with_usage(account, result))
            == account.enabled,
{
    reveal_strlit("banned");
    reveal_strlit("capped");
    reveal_strlit("invalid");
    assert(ascii_lower("banned"@) =~= "banned"@);
    assert(ascii_lower("capped"@) =~= "capped"@);
    assert("capped"@[0] != "banned"@[0]);
    assert("capped"@[0] != "invalid"@[0]);
}

/// An account with its quota read anew.
pub struct RefreshedAccount {
    pub account: Account,
    /// The account is in the list, and the list has changed.
    pub listed: bool,
}

/// Writes what a quota query of `account` gave to the list, and gives the account with it.
/// An account that is not in the list only gets the document. Fails, and changes nothing,
/// where the credentials were refused.
pub fn refresh_account_usage_for_switch(
    accounts: &mut Vec<Account>,
    account: &Account,
    result: UsageResult,
) -> (r: Result<RefreshedAccount, String>)
    ensures
        if result.is_auth_error {
            &&& r matches Err(e) && e@ == "AUTH_ERROR: 刷新配额时 token 无效"@
            &&& final(accounts)@ == old(accounts)@
        } else {
            match find_first(views(old(accounts)@), has_id(account@.id)) {
                Some(i) => {
                    &&& r matches Ok(refreshed) && refreshed.listed && refreshed.account@
                        == with_usage(old(accounts)@[i]@, result)
                    &&& views(final(accounts)@) == views(old(accounts)@).update(
                        i,
                        with_usage(old(accounts)@[i]@, result),
                    )
                },
                None => {
                    &&& r matches Ok(refreshed) && !refreshed.listed && refreshed.account@ == (
                    AccountView { usage_data: Some(result.usage_data@), ..account@ })
                    &&& final(accounts)@ == old(accounts)@
                },
            }
        },
        r is Ok <==> !result.is_auth_error,
        r matches Ok(refreshed) ==> {
            &&& refreshed.account@.id == account@.id
            &&& refreshed.account@.usage_data == Some(result.usage_data@)
            &&& refreshed.listed <==> exists|j: int|
                0 <= j < old(accounts)@.len() && (#[trigger] old(accounts)@[j])@.id == account@.id
        },
        final(accounts)@.len() == old(accounts)@.len(),
        forall|j: int|
            0 <= j < old(accounts)@.len() && (#[trigger] old(accounts)@[j])@.id != account@.id
                ==> final(accounts)@[j]@ == old(accounts)@[j]@,
{
    proof {
        lemma_first_with_id(accounts@, account@.id);
    }
    if result.is_auth_error {
        return Err("AUTH_ERROR: 刷新配额时 token 无效".to_owned());
    }
    match position_of_id(accounts.as_slice(), account.id.as_str()) {
        Some(i) => {
            let ghost before = accounts@;
            let mut updated = accounts[i].clone();
            if result.is_banned {
                updated.status = "banned".to_owned();
            } else if result.usage_data.capped {
                updated.status = "capped".to_owned();
            }
            updated.usage_data = Some(result.usage_data);
            let given = updated.clone();
            accounts.set(i, updated);
            assert(views(accounts@) =~= views(before).update(i as int, updated@));
            Ok(RefreshedAccount { account: given, listed: true })
        },
        None => {
            let mut updated = account.clone();
            updated.usage_data = Some(result.usage_data);
            Ok(RefreshedAccount { account: updated, listed: false })
        },
    }
}

/// The account is bound to the machine `machine_id`, the white space round it aside.
pub open spec fn is_bound_to(account: AccountView, machine_id: Seq<char>) -> bool {
    account.machine_id is Some && !is_blank(account.machine_id->0) && trimmed(
        account.machine_id->0,
    ) == machine_id
}

/// Binds the account with the identifier `account_id` to the machine `machine_id`, unless
/// it is bound to it already. Gives whether the list has changed; fails where there is no
/// such account.
pub fn persist_account_machine_id_if_needed(
    accounts: &mut Vec<Account>,
    account_id: &str,
    machine_id: &str,
) -> (r: Result<bool, String>)
    ensures
        match find_first(views(old(accounts)@), has_id(account_id@)) {
            Some(i) => {
                &&& r matches Ok(changed) && changed == !is_bound_to(
                    old(accounts)@[i]@,
                    machine_id@,
                )
                &&& r == Ok::<bool, String>(false) ==> final(accounts)@ == old(accounts)@
                &&& r == Ok::<bool, String>(true) ==> views(final(accounts)@) == views(
                    old(accounts)@,
                ).update(
                    i,
                    AccountView { machine_id: Some(machine_id@), ..old(accounts)@[i]@ },
                )
            },
            None => {
                &&& r matches Err(e) && e@ == "账号不存在"@
                &&& final(accounts)@ == old(accounts)@
            },
        },
        r is Ok <==> exists|j: int|
            0 <= j < old(accounts)@.len() && (#[trigger] old(accounts)@[j])@.id == account_id@,
        final(accounts)@.len() == old(accounts)@.len(),
        forall|j: int|
            0 <= j < old(accounts)@.len() && (#[trigger] old(accounts)@[j])@.id != account_id@
                ==> final(accounts)@[j]@ == old(accounts)@[j]@,
{
    proof {
        lemma_first_with_id(accounts@, account_id@);
    }
    match position_of_id(accounts.as_slice(), account_id) {
        Some(i) => {
            let bound = match &accounts[i].machine_id {
                Some(current) => !blank(current.as_str()) && same_text(
                    current.as_str().trim(),
                    machine_id,
                ),
                None => false,
            };
            if bound {
                return Ok(false);
            }
            let ghost before = accounts@;
            let mut updated = accounts[i].clone();
            updated.machine_id = Some(machine_id.to_owned());
            accounts.set(i, updated);
            assert(views(accounts@) =~= views(before).update(i as int, updated@));
            Ok(true)
        },
        None => Err("账号不存在".to_owned()),
    }
}

/// Once an account has been bound to a machine whose identifier has no white space round
/// it, it need not be bound to it again.
pub proof fn binding_to_a_machine_lasts(account: AccountView, machine_id: Seq<char>)
    requires
        machine_id.len() > 0,
        trimmed(machine_id) == machine_id,
    ensures
        is_bound_to(AccountView { machine_id: Some(machine_id), ..account }, machine_id),
{
}

/// Each token of the session is written on its own: one that is not empty becomes the
/// account's, whatever the other one is, and one that is missing or empty leaves the
/// account's. So with a quota document; its user's e-mail address is taken where the account
/// has none or a blank one, its user's identifier where the account has none, and nothing
/// else changes.
pub proof fn each_token_is_written_on_its_own(
    account: AccountView,
    refresh_token: Option<Seq<char>>,
    access_token: Option<Seq<char>>,
    usage: Option<UsageView>,
)
    ensures
        ({
            let after = synced(account, refresh_token, access_token, usage);
            let nameless = account.email is None || is_blank(account.email->0);
            &&& access_token matches Some(token) ==> token.len() > 0 ==> after.access_token == Some(
                token,
            )
            &&& access_token is None || access_token->0.len() == 0 ==> after.access_token
                == account.access_token
            &&& refresh_token matches Some(token) ==> token.len() > 0 ==> after.refresh_token
                == Some(token)
            &&& refresh_token is None || refresh_token->0.len() == 0 ==> after.refresh_token
                == account.refresh_token
            &&& usage matches Some(document) ==> {
                &&& after.usage_data == Some(document)
                &&& nameless && document.email is Some ==> after.email == document.email
                &&& !nameless || document.email is None ==> after.email == account.email
                &&& account.user_id is None ==> after.user_id == document.user_id
                &&& account.user_id is Some ==> after.user_id == account.user_id
            }
            &&& usage is None ==> {
                &&& after.usage_data == account.usage_data
                &&& after.email == account.email
                &&& after.user_id == account.user_id
            }
            &&& account == AccountView {
                refresh_token: account.refresh_token,
                access_token: account.access_token,
                usage_data: account.usage_data,
                email: account.email,
                user_id: account.user_id,
                ..after
            }
        }),
{
}

/// What is written of one thing does not depend on the others: neither token on the other or
/// on the document, and nothing that comes of the document on the tokens.
pub proof fn writes_do_not_depend_on_each_other(
    account: AccountView,
    refresh_token: Option<Seq<char>>,
    access_token: Option<Seq<char>>,
    usage: Option<UsageView>,
)
    ensures
        ({
            let all = synced(account, refresh_token, access_token, usage);
            let apart = synced(
                synced(
                    synced(account, None, None, usage),
                    None,
                    access_token,
                    None,
                ),
                refresh_token,
                None,
                None,
            );
            all == apart
        }),
{
}

/// The quota of an account is read with the access token of the session where that is not
/// empty, else with the account's own where that is not empty; where both are missing or
/// empty it is not read, and the failure says so.
pub proof fn quota_is_read_with_the_token_of_the_session(
    session: Option<&KiroLocalToken>,
    account: &Account,
    r: Result<String, String>,
)
    requires
        call_ensures(choose_quota_token, (session, account), r),
    ensures
        ({
            let speaks = session is Some && session->0@.access_token is Some
                && session->0@.access_token->0.len() > 0;
            let has_own = account@.access_token is Some && account@.access_token->0.len() > 0;
            &&& r is Ok <==> speaks || has_own
            &&& speaks ==> Some(r->Ok_0@) == session->0@.access_token
            &&& !speaks && has_own ==> Some(r->Ok_0@) == account@.access_token
            &&& !speaks && !has_own ==> r->Err_0@ == "当前账号无 accessToken，无法刷新配额"@
        }),
{
}

/// A quota query leaves an account of the list with the new document; banned where the query
/// found it banned, capped where it found it only capped, else with the status that it had;
/// and nothing else changes.
pub proof fn quota_query_writes_the_document_and_the_status(
    account: AccountView,
    result: UsageResult,
)
    ensures
        ({
            let after = with_usage(account, result);
            &&& after.usage_data == Some(result.usage_data@)
            &&& result.is_banned ==> after.status == "banned"@
            &&& !result.is_banned && result.usage_data@.capped ==> after.status == "capped"@
            &&& !result.is_banned && !result.usage_data@.capped ==> after.status == account.status
            &&& account == AccountView {
                usage_data: account.usage_data,
                status: account.status,
                ..after
            }
        }),
{
}

/// An account whose quota was read anew decides by what was read: what it has left is what
/// the new document tells.
pub proof fn quota_read_anew_is_what_is_left(account: AccountView, result: UsageResult)
    ensures
        remaining_of(with_usage(account, result)) == match result.usage_data@.remaining {
            Some(amount) => double_value(amount.bits),
            None => Some(0int),
        },
{
}

/// An account need not be bound to a machine again exactly when its binding, the white space
/// round it aside, is the identifier of that machine and is not empty.
pub proof fn bound_accounts_are_not_bound_again(account: AccountView, machine_id: Seq<char>)
    ensures
        is_bound_to(account, machine_id) <==> {
            &&& account.machine_id is Some
            &&& machine_id.len() > 0
            &&& trimmed(account.machine_id->0) == machine_id
        },
{
}

/// What the session knows better is written to the first account with the identifier, and to
/// no other: each token that is given and not empty, whatever the other is, and the quota
/// document where one is given. Its identifier, its machine and all that the session does
/// not know stay.
pub proof fn session_is_written_to_the_first_account_with_the_identifier(
    accounts: &mut Vec<Account>,
    account_id: &str,
    refresh_token: Option<&str>,
    access_token: Option<&str>,
    usage_data: Option<&UsageData>,
    r: Result<(), String>,
    i: int,
)
    requires
        call_ensures(
            sync_local_tokens_to_account,
            (accounts, account_id, refresh_token, access_token, usage_data),
            r,
        ),
        0 <= i < old(accounts)@.len(),
        old(accounts)@[i]@.id == account_id@,
        forall|j: int| 0 <= j < i ==> (#[trigger] old(accounts)@[j])@.id != account_id@,
    ensures
        r is Ok,
        final(accounts)@.len() == old(accounts)@.len(),
        forall|j: int|
            0 <= j < old(accounts)@.len() && j != i ==> (#[trigger] final(accounts)@[j])@
                == old(accounts)@[j]@,
        ({
            let (before, after) = (old(accounts)@[i]@, final(accounts)@[i]@);
            &&& access_token is Some && access_token->0@.len() > 0 ==> after.access_token == Some(
                access_token->0@,
            )
            &&& access_token is None || access_token->0@.len() == 0 ==> after.access_token
                == before.access_token
            &&& refresh_token is Some && refresh_token->0@.len() > 0 ==> after.refresh_token
                == Some(refresh_token->0@)
            &&& refresh_token is None || refresh_token->0@.len() == 0 ==> after.refresh_token
                == before.refresh_token
            &&& usage_data is Some ==> after.usage_data == Some(usage_data->0@)
            &&& usage_data is None ==> {
                &&& after.usage_data == before.usage_data
                &&& after.email == before.email
                &&& after.user_id == before.user_id
            }
            &&& after == synced(
                before,
                opt_str_view(refresh_token),
                opt_str_view(access_token),
                usage_ref_view(usage_data),
            )
        }),
{
    lemma_first_with_id(old(accounts)@, account_id@);
    let before = views(old(accounts)@);
    assert(before[i] == old(accounts)@[i]@);
    assert(find_first(before, has_id(account_id@)) == Some(i));
    let after = views(final(accounts)@);
    assert(after.len() == final(accounts)@.len());
    assert forall|j: int| 0 <= j < after.len() implies after[j] == (#[trigger] final(accounts)@[j])@ by {}
    assert forall|j: int| 0 <= j < before.len() && j != i implies (#[trigger] final(accounts)@[j])@
        == old(accounts)@[j]@ by {
        assert(after[j] == before[j]);
    }
    assert(after[i] == final(accounts)@[i]@);
    each_token_is_written_on_its_own(
        old(accounts)@[i]@,
        opt_str_view(refresh_token),
        opt_str_view(access_token),
        usage_ref_view(usage_data),
    );
}

/// A quota that was read anew is written to the first account with the identifier, and to no
/// other, and that account is what is given. Where the credentials were refused, that is the
/// failure, and no account changes.
pub proof fn quota_is_written_to_the_first_account_with_the_identifier(
    accounts: &mut Vec<Account>,
    account: &Account,
    result: UsageResult,
    r: Result<RefreshedAccount, String>,
    i: int,
)
    requires
        call_ensures(refresh_account_usage_for_switch, (accounts, account, result), r),
        0 <= i < old(accounts)@.len(),
        old(accounts)@[i]@.id == account@.id,
        forall|j: int| 0 <= j < i ==> (#[trigger] old(accounts)@[j])@.id != account@.id,
    ensures
        r is Ok <==> !result.is_auth_error,
        result.is_auth_error ==> {
            &&& r->Err_0@ == "AUTH_ERROR: 刷新配额时 token 无效"@
            &&& final(accounts)@ == old(accounts)@
        },
        !result.is_auth_error ==> {
            &&& r->Ok_0.listed
            &&& r->Ok_0.account@ == final(accounts)@[i]@
            &&& final(accounts)@[i]@ == with_usage(old(accounts)@[i]@, result)
        },
        final(accounts)@.len() == old(accounts)@.len(),
        forall|j: int|
            0 <= j < old(accounts)@.len() && j != i ==> (#[trigger] final(accounts)@[j])@
                == old(accounts)@[j]@,
{
    lemma_first_with_id(old(accounts)@, account@.id);
    let before = views(old(accounts)@);
    assert(find_first(before, has_id(account@.id)) == Some(i));
    if !result.is_auth_error {
        let after = views(final(accounts)@);
        assert forall|j: int| 0 <= j < after.len() implies after[j] == (
        #[trigger] final(accounts)@[j])@ by {}
        assert forall|j: int| 0 <= j < before.len() && j != i implies (
        #[trigger] final(accounts)@[j])@ == old(accounts)@[j]@ by {
            assert(after[j] == before[j]);
        }
        assert(after[i] == final(accounts)@[i]@);
    }
}

/// The first account with the identifier, and no other, is bound to the machine, unless it
/// is bound to it already, the white space round its binding aside; the list is said to have
/// changed exactly when it was not. Nothing else of the account changes.
pub proof fn binding_is_written_to_the_first_account_with_the_identifier(
    accounts: &mut Vec<Account>,
    account_id: &str,
    machine_id: &str,
    r: Result<bool, String>,
    i: int,
)
    requires
        call_ensures(persist_account_machine_id_if_needed, (accounts, account_id, machine_id), r),
        0 <= i < old(accounts)@.len(),
        old(accounts)@[i]@.id == account_id@,
        forall|j: int| 0 <= j < i ==> (#[trigger] old(accounts)@[j])@.id != account_id@,
    ensures
        ({
            let (before, after) = (old(accounts)@[i]@, final(accounts)@[i]@);
            let bound = {
                &&& before.machine_id is Some
                &&& trimmed(before.machine_id->0) == machine_id@
                &&& machine_id@.len() > 0
            };
            &&& r == Ok::<bool, String>(!bound)
            &&& bound ==> after == before
            &&& !bound ==> after == AccountView { machine_id: Some(machine_id@), ..before }
        }),
        final(accounts)@.len() == old(accounts)@.len(),
        forall|j: int|
            0 <= j < old(accounts)@.len() && j != i ==> (#[trigger] final(accounts)@[j])@
                == old(accounts)@[j]@,
{
    lemma_first_with_id(old(accounts)@, account_id@);
    let before = views(old(accounts)@);
    assert(find_first(before, has_id(account_id@)) == Some(i));
    if r == Ok::<bool, String>(true) {
        let after = views(final(accounts)@);
        assert forall|j: int| 0 <= j < after.len() implies after[j] == (
        #[trigger] final(accounts)@[j])@ by {}
        assert forall|j: int| 0 <= j < before.len() && j != i implies (
        #[trigger] final(accounts)@[j])@ == old(accounts)@[j]@ by {
            assert(after[j] == before[j]);
        }
        assert(after[i] == final(accounts)@[i]@);
    }
}

/// Where no account has the identifier, nothing is written. To write a session or a binding
/// then fails; a quota that was read anew, unless its credentials were refused, still gives
/// the account, with the new document and all else as it was.
pub proof fn nothing_is_written_without_the_account(
    synced_list: &mut Vec<Account>,
    refreshed_list: &mut Vec<Account>,
    bound_list: &mut Vec<Account>,
    account: &Account,
    account_id: &str,
    machine_id: &str,
    refresh_token: Option<&str>,
    access_token: Option<&str>,
    usage_data: Option<&UsageData>,
    result: UsageResult,
    synced: Result<(), String>,
    refreshed: Result<RefreshedAccount, String>,
    bound: Result<bool, String>,
)
    requires
        call_ensures(
            sync_local_tokens_to_account,
            (synced_list, account_id, refresh_token, access_token, usage_data),
            synced,
        ),
        call_ensures(refresh_account_usage_for_switch, (refreshed_list, account, result), refreshed),
        call_ensures(
            persist_account_machine_id_if_needed,
            (bound_list, account_id, machine_id),
            bound,
        ),
        forall|j: int|
            0 <= j < old(synced_list)@.len() ==> (#[trigger] old(synced_list)@[j])@.id
                != account_id@,
        forall|j: int|
            0 <= j < old(refreshed_list)@.len() ==> (#[trigger] old(refreshed_list)@[j])@.id
                != account@.id,
        forall|j: int|
            0 <= j < old(bound_list)@.len() ==> (#[trigger] old(bound_list)@[j])@.id != account_id@,
    ensures
        final(synced_list)@ == old(synced_list)@,
        final(refreshed_list)@ == old(refreshed_list)@,
        final(bound_list)@ == old(bound_list)@,
        synced is Err && synced->Err_0@ == "账号不存在"@,
        bound is Err && bound->Err_0@ == "账号不存在"@,
        refreshed is Ok <==> !result.is_auth_error,
        refreshed matches Ok(given) ==> {
            &&& !given.listed
            &&& given.account@ == AccountView {
                usage_data: Some(result.usage_data@),
                ..account@
            }
        },
{
    lemma_first_with_id(old(synced_list)@, account_id@);
    lemma_first_with_id(old(refreshed_list)@, account@.id);
    lemma_first_with_id(old(bound_list)@, account_id@);
}

} // verus!
