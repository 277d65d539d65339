//! Which account of the list the local IDE session belongs to.
use crate::account::{
    account_view, Account, AccountView, KiroLocalToken, TokenView, UsageData, UsageView,
};
use crate::list::{
    find_first, find_first_characterised, is_first, position, position_view, views,
};
use crate::region::{region_candidates, usage_limits_region_candidates};
use crate::text::{
    ascii_lower, blank, holds_text, is_blank, is_white_space, opt_view, starts_with, trimmed,
    trimming_drops_white_space_at_the_ends,
};
use vstd::prelude::*;
use vstd::utf8::*;

verus! {

/// The bytes of an access token by which it is recognised after a refresh.
pub const TOKEN_PREFIX_BYTES: usize = 20;

/// How many bytes of an access token are compared.
pub open spec fn prefix_len(token: Seq<char>) -> int {
    if encode_utf8(token).len() < TOKEN_PREFIX_BYTES {
        encode_utf8(token).len() as int
    } else {
        TOKEN_PREFIX_BYTES as int
    }
}

/// The beginning of an access token: the characters in its first bytes.
pub open spec fn token_prefix(token: Seq<char>) -> Seq<char> {
    decode_utf8(encode_utf8(token).take(prefix_len(token)))
}

/// The first bytes of the access token, if there is one, end where a character ends.
pub open spec fn prefix_ends_a_character(token: TokenView) -> bool {
    token.access_token matches Some(t) ==> is_char_boundary(encode_utf8(t), prefix_len(t))
}

/// The beginning of an access token of ASCII characters is its first 20 characters.
pub proof fn ascii_token_prefix(token: Seq<char>)
    requires
        is_ascii_chars(token),
    ensures
        token_prefix(token) == token.take(if token.len() < 20 { token.len() as int } else { 20 }),
        is_char_boundary(encode_utf8(token), prefix_len(token)),
{
    let n = if token.len() < 20 { token.len() as int } else { 20 };
    let front = token.take(n);
    is_ascii_chars_encode_utf8(token);
    is_ascii_chars_encode_utf8(front);
    assert(encode_utf8(token).take(n) =~= encode_utf8(front));
    encode_utf8_decode_utf8(front);
    encode_utf8_valid_utf8(token);
    if n < token.len() {
        is_char_boundary_iff_is_leading_byte(encode_utf8(token), n);
    } else {
        is_char_boundary_start_end_of_seq(encode_utf8(token));
    }
}

/// The accounts with the refresh token `token`.
pub open spec fn with_refresh_token(token: Seq<char>) -> spec_fn(AccountView) -> bool {
    |a: AccountView| a.refresh_token == Some(token)
}

/// The accounts with the access token `token`.
pub open spec fn with_access_token(token: Seq<char>) -> spec_fn(AccountView) -> bool {
    |a: AccountView| a.access_token == Some(token)
}

/// The accounts whose access token begins with `prefix`.
pub open spec fn with_access_prefix(prefix: Seq<char>) -> spec_fn(AccountView) -> bool {
    |a: AccountView| a.access_token is Some && prefix.is_prefix_of(a.access_token->0)
}

/// The accounts with the client `hash`.
pub open spec fn with_client_hash(hash: Seq<char>) -> spec_fn(AccountView) -> bool {
    |a: AccountView| a.client_id_hash == Some(hash)
}

/// The account that holds one of the tokens: the first with the refresh token, else the
/// first with the access token.
pub open spec fn exact_match(accounts: Seq<AccountView>, token: TokenView) -> Option<int> {
    let by_refresh = match token.refresh_token {
        Some(t) => find_first(accounts, with_refresh_token(t)),
        None => None,
    };
    if by_refresh is Some {
        by_refresh
    } else {
        match token.access_token {
            Some(t) => find_first(accounts, with_access_token(t)),
            None => None,
        }
    }
}

/// The account that the local tokens belong to: the one that holds one of them, else the
/// first whose access token begins alike, else the first with the same client hash, if
/// that is not blank.
pub open spec fn token_match(accounts: Seq<AccountView>, token: TokenView) -> Option<int> {
    let by_prefix = match token.access_token {
        Some(t) => find_first(accounts, with_access_prefix(token_prefix(t))),
        None => None,
    };
    let by_hash = match token.client_id_hash {
        Some(h) => if is_blank(h) {
            None
        } else {
            find_first(accounts, with_client_hash(h))
        },
        None => None,
    };
    if exact_match(accounts, token) is Some {
        exact_match(accounts, token)
    } else if by_prefix is Some {
        by_prefix
    } else {
        by_hash
    }
}

/// The position of the account that holds the local refresh token or, failing that, the
/// local access token.
pub fn find_exact_match(accounts: &[Account], local_token: &KiroLocalToken) -> (r: Option<usize>)
    ensures
        position_view(r) == exact_match(views(accounts@), local_token@),
        r matches Some(i) ==> i < accounts@.len(),
{
    if let Some(token) = &local_token.refresh_token {
        let matches = |a: &Account| -> (b: bool)
            ensures b == with_refresh_token(token@)(a@)
        {
            holds_text(&a.refresh_token, token.as_str())
        };
        let found = position(accounts, matches, Ghost(with_refresh_token(token@)));
        if found.is_some() {
            return found;
        }
    }
    if let Some(token) = &local_token.access_token {
        let matches = |a: &Account| -> (b: bool)
            ensures b == with_access_token(token@)(a@)
        {
            holds_text(&a.access_token, token.as_str())
        };
        return position(accounts, matches, Ghost(with_access_token(token@)));
    }
    None
}

/// The beginning of an access token.
fn cut_token(token: &str) -> (r: &str)
    requires
        is_char_boundary(encode_utf8(token@), prefix_len(token@)),
    ensures
        r@ == token_prefix(token@),
{
    let len = token.as_bytes().len();
    let n: usize = if len < TOKEN_PREFIX_BYTES {
        len
    } else {
        TOKEN_PREFIX_BYTES
    };
    let r = token.split_at(n).0;
    proof {
        encode_utf8_decode_utf8(r@);
        assert(encode_utf8(token@).take(n as int) =~= encode_utf8(token@).subrange(0, n as int));
    }
    r
}

/// Whether the first bytes of the access token, if there is one, end where a character ends.
pub fn can_cut_token(local_token: &KiroLocalToken) -> (r: bool)
    ensures
        r == prefix_ends_a_character(local_token@),
{
    match &local_token.access_token {
        Some(token) => {
            let len = token.as_str().as_bytes().len();
            let n: usize = if len < TOKEN_PREFIX_BYTES {
                len
            } else {
                TOKEN_PREFIX_BYTES
            };
            token.as_str().is_char_boundary(n)
        },
        None => true,
    }
}

/// The position of the account that the local tokens belong to. Where no account holds one
/// of them, the first bytes of the access token must end where a character ends.
pub fn find_token_match(accounts: &[Account], local_token: &KiroLocalToken) -> (r: Option<usize>)
    requires
        exact_match(views(accounts@), local_token@) is None ==> prefix_ends_a_character(
            local_token@,
        ),
    ensures
        position_view(r) == token_match(views(accounts@), local_token@),
        r matches Some(i) ==> i < accounts@.len(),
{
    let exact = find_exact_match(accounts, local_token);
    if exact.is_some() {
        return exact;
    }
    if let Some(token) = &local_token.access_token {
        let prefix = cut_token(token.as_str());
        let matches = |a: &Account| -> (b: bool)
            ensures b == with_access_prefix(prefix@)(a@)
        {
            match &a.access_token {
                Some(t) => starts_with(t.as_str(), prefix),
                None => false,
            }
        };
        let found = position(accounts, matches, Ghost(with_access_prefix(prefix@)));
        if found.is_some() {
            return found;
        }
    }
    if let Some(hash) = &local_token.client_id_hash {
        if !blank(hash.as_str()) {
            let matches = |a: &Account| -> (b: bool)
                ensures b == with_client_hash(hash@)(a@)
            {
                holds_text(&a.client_id_hash, hash.as_str())
            };
            return position(accounts, matches, Ghost(with_client_hash(hash@)));
        }
    }
    None
}

/// A quota query that is to tell whose session it is.
pub struct UsageLookup {
    pub access_token: String,
    pub machine_id: String,
    /// The regions to try, in order.
    pub regions: Vec<String>,
    pub profile_arn: Option<String>,
}

#[verifier::ext_equal]
pub struct LookupView {
    pub access_token: Seq<char>,
    pub machine_id: Seq<char>,
    pub regions: Seq<Seq<char>>,
    pub profile_arn: Option<Seq<char>>,
}

impl View for UsageLookup {
    type V = LookupView;

    open spec fn view(&self) -> LookupView {
        LookupView {
            access_token: self.access_token@,
            machine_id: self.machine_id@,
            regions: views(self.regions@),
            profile_arn: opt_view(self.profile_arn),
        }
    }
}

/// The region of the session, or the default one where it names none.
pub open spec fn session_region(token: TokenView) -> Seq<char> {
    match token.region {
        Some(region) => if is_blank(region) {
            "us-east-1"@
        } else {
            region
        },
        None => "us-east-1"@,
    }
}

/// The accounts that are bound to a machine.
pub open spec fn with_machine() -> spec_fn(AccountView) -> bool {
    |a: AccountView| a.machine_id is Some && !is_blank(a.machine_id->0)
}

/// The machine that a query speaks for: that of the first account that is bound to one,
/// or a placeholder.
pub open spec fn lookup_machine(accounts: Seq<AccountView>) -> Seq<char> {
    match find_first(accounts, with_machine()) {
        Some(i) => trimmed(accounts[i].machine_id->0),
        None => "auto-switch"@,
    }
}

/// The accounts with the refresh token `token` that know their profile.
pub open spec fn with_token_and_profile(token: Seq<char>) -> spec_fn(AccountView) -> bool {
    |a: AccountView| a.refresh_token == Some(token) && a.profile_arn is Some
}

/// The profile that a query names: that of the session, else that of the first account
/// with the same refresh token that knows its profile.
pub open spec fn lookup_profile(accounts: Seq<AccountView>, token: TokenView) -> Option<Seq<char>> {
    if token.profile_arn is Some {
        token.profile_arn
    } else {
        match token.refresh_token {
            Some(t) => match find_first(accounts, with_token_and_profile(t)) {
                Some(i) => accounts[i].profile_arn,
                None => None,
            },
            None => None,
        }
    }
}

/// The quota query that is to tell whose session it is; none without an access token.
pub open spec fn lookup_plan(accounts: Seq<AccountView>, token: TokenView) -> Option<LookupView> {
    match token.access_token {
        Some(access_token) => if access_token.len() == 0 {
            None
        } else {
            Some(
                LookupView {
                    access_token,
                    machine_id: lookup_machine(accounts),
                    regions: region_candidates(session_region(token), false),
                    profile_arn: lookup_profile(accounts, token),
                },
            )
        },
        None => None,
    }
}

fn find_lookup_machine(accounts: &[Account]) -> (r: String)
    ensures
        r@ == lookup_machine(views(accounts@)),
{
    let matches = |a: &Account| -> (b: bool)
        ensures b == with_machine()(a@)
    {
        match &a.machine_id {
            Some(m) => !blank(m.as_str()),
            None => false,
        }
    };
    let found = position(accounts, matches, Ghost(with_machine()));
    if let Some(i) = found {
        if let Some(m) = &accounts[i].machine_id {
            return m.as_str().trim().to_owned();
        }
    }
    "auto-switch".to_owned()
}

fn find_lookup_profile(accounts: &[Account], local_token: &KiroLocalToken) -> (r: Option<String>)
    ensures
        opt_view(r) == lookup_profile(views(accounts@), local_token@),
{
    if local_token.profile_arn.is_some() {
        return local_token.profile_arn.clone();
    }
    if let Some(token) = &local_token.refresh_token {
        let matches = |a: &Account| -> (b: bool)
            ensures b == with_token_and_profile(token@)(a@)
        {
            holds_text(&a.refresh_token, token.as_str()) && a.profile_arn.is_some()
        };
        let found = position(accounts, matches, Ghost(with_token_and_profile(token@)));
        if let Some(i) = found {
            return accounts[i].profile_arn.clone();
        }
    }
    None
}

/// The quota query that is to tell whose session it is.
pub fn plan_usage_lookup(accounts: &[Account], local_token: &KiroLocalToken) -> (r: Option<
    UsageLookup,
>)
    ensures
        lookup_plan(views(accounts@), local_token@) == match r {
            Some(lookup) => Some(lookup@),
            None => None,
        },
{
    let access_token = match &local_token.access_token {
        Some(token) => token,
        None => {
            return None;
        },
    };
    if access_token.as_str().is_empty() {
        return None;
    }
    let region = match &local_token.region {
        Some(region) => if blank(region.as_str()) {
            "us-east-1"
        } else {
            region.as_str()
        },
        None => "us-east-1",
    };
    Some(
        UsageLookup {
            access_token: access_token.clone(),
            machine_id: find_lookup_machine(accounts),
            regions: usage_limits_region_candidates(region, false),
            profile_arn: find_lookup_profile(accounts, local_token),
        },
    )
}

/// What is known of the current account before any query.
pub enum CurrentAccount {
    /// The local tokens belong to this account.
    Found(Account),
    /// They belong to none; a quota query may tell.
    Ask(UsageLookup),
    /// There is no way to tell.
    Unknown,
}

#[verifier::ext_equal]
pub enum CurrentView {
    Found(AccountView),
    Ask(LookupView),
    Unknown,
}

impl View for CurrentAccount {
    type V = CurrentView;

    open spec fn view(&self) -> CurrentView {
        match *self {
            CurrentAccount::Found(a) => CurrentView::Found(a@),
            CurrentAccount::Ask(lookup) => CurrentView::Ask(lookup@),
            CurrentAccount::Unknown => CurrentView::Unknown,
        }
    }
}

/// What is known of the current account: the one that the local tokens belong to, else
/// what a quota query may tell.
pub open spec fn current_account(accounts: Seq<AccountView>, token: TokenView) -> CurrentView {
    match token_match(accounts, token) {
        Some(i) => CurrentView::Found(accounts[i]),
        None => match lookup_plan(accounts, token) {
            Some(lookup) => CurrentView::Ask(lookup),
            None => CurrentView::Unknown,
        },
    }
}

/// What is known of the current account. Without local tokens nothing is.
pub fn get_current_account(accounts: &[Account], local_token: Option<&KiroLocalToken>) -> (r:
    CurrentAccount)
    requires
        local_token matches Some(token) ==> exact_match(views(accounts@), token@) is None
            ==> prefix_ends_a_character(token@),
    ensures
        r@ == match local_token {
            Some(token) => current_account(views(accounts@), token@),
            None => CurrentView::Unknown,
        },
{
    let token = match local_token {
        Some(token) => token,
        None => {
            return CurrentAccount::Unknown;
        },
    };
    match find_token_match(accounts, token) {
        Some(i) => CurrentAccount::Found(accounts[i].clone()),
        None => match plan_usage_lookup(accounts, token) {
            Some(lookup) => CurrentAccount::Ask(lookup),
            None => CurrentAccount::Unknown,
        },
    }
}

/// The accounts of the user that a quota document is about: by the identifier of the user,
/// or by the e-mail address, whatever the case of its ASCII letters.
pub open spec fn of_user(email: Option<Seq<char>>, user_id: Option<Seq<char>>) -> spec_fn(
    AccountView,
) -> bool {
    |a: AccountView|
        {
            ||| user_id is Some && a.user_id == user_id
            ||| email is Some && a.email is Some && ascii_lower(email->0) == ascii_lower(
                a.email->0,
            )
        }
}

/// An account with the tokens of the session in place of its own, and a new quota document.
pub open spec fn refreshed_snapshot(
    account: AccountView,
    token: TokenView,
    usage: UsageView,
) -> AccountView {
    AccountView {
        refresh_token: if token.refresh_token is Some {
            token.refresh_token
        } else {
            account.refresh_token
        },
        access_token: if token.access_token is Some {
            token.access_token
        } else {
            account.access_token
        },
        usage_data: Some(usage),
        ..account
    }
}

/// The current account as a quota document tells it: the first of its user, with the
/// tokens of the session and the document.
pub open spec fn resolved_account(
    accounts: Seq<AccountView>,
    token: TokenView,
    usage: UsageView,
) -> Option<AccountView> {
    match find_first(accounts, of_user(usage.email, usage.user_id)) {
        Some(i) => Some(refreshed_snapshot(accounts[i], token, usage)),
        None => None,
    }
}

/// The account of the user that a quota document is about, with the tokens of the session
/// and the document.
pub fn resolve_current_account_by_usage(
    accounts: &[Account],
    local_token: &KiroLocalToken,
    usage: UsageData,
) -> (r: Option<Account>)
    ensures
        account_view(r) == resolved_account(views(accounts@), local_token@, usage@),
{
    let email = &usage.email;
    let user_id = &usage.user_id;
    let matches = |a: &Account| -> (b: bool)
        ensures b == of_user(opt_view(*email), opt_view(*user_id))(a@)
    {
        let same_user = match user_id {
            Some(id) => holds_text(&a.user_id, id.as_str()),
            None => false,
        };
        let same_email = match (email, &a.email) {
            (Some(x), Some(y)) => x.as_str().eq_ignore_ascii_case(y.as_str()),
            _ => false,
        };
        same_user || same_email
    };
    let found = position(accounts, matches, Ghost(of_user(usage@.email, usage@.user_id)));
    match found {
        Some(i) => {
            let mut updated = accounts[i].clone();
            if local_token.refresh_token.is_some() {
                updated.refresh_token = local_token.refresh_token.clone();
            }
            if local_token.access_token.is_some() {
                updated.access_token = local_token.access_token.clone();
            }
            updated.usage_data = Some(usage);
            Some(updated)
        },
        None => None,
    }
}

/// Where a character ends with the first 20 bytes of an access token, or the token has no
/// more than these, its beginning is what these bytes hold; and a token can be cut exactly
/// there.
pub proof fn token_begins_with_its_first_bytes(token: KiroLocalToken, can_cut: bool)
    requires
        call_ensures(can_cut_token, (&token,), can_cut),
    ensures
        token@.access_token is None ==> can_cut,
        token@.access_token matches Some(t) ==> {
            let bytes = encode_utf8(t);
            let n = if bytes.len() < 20 { bytes.len() as int } else { 20 };
            &&& can_cut <==> is_char_boundary(bytes, n)
            &&& can_cut ==> encode_utf8(token_prefix(t)) == bytes.take(n)
            &&& can_cut ==> token_prefix(t).is_prefix_of(t)
        },
{
    if let Some(t) = token@.access_token {
        let bytes = encode_utf8(t);
        let n = prefix_len(t);
        if is_char_boundary(bytes, n) {
            encode_utf8_valid_utf8(t);
            encode_utf8_decode_utf8(t);
            valid_utf8_split(bytes, n);
            decode_utf8_split(bytes, n);
            assert(bytes.take(n) =~= bytes.subrange(0, n));
            decode_utf8_encode_utf8(bytes.subrange(0, n));
            assert(t =~= token_prefix(t) + decode_utf8(bytes.subrange(n, bytes.len() as int)));
        }
    }
}

/// An account holds one of the tokens of a session: where some account has the refresh
/// token of the session, the first that has it; where none has, the first that has its
/// access token; and none where none has that either.
pub proof fn refresh_token_tells_before_the_access_token(
    accounts: Seq<AccountView>,
    token: TokenView,
)
    ensures
        ({
            let same_refresh = |a: AccountView|
                token.refresh_token is Some && a.refresh_token == token.refresh_token;
            let same_access = |a: AccountView|
                token.access_token is Some && a.access_token == token.access_token;
            let n = accounts.len();
            match exact_match(accounts, token) {
                Some(i) => {
                    &&& 0 <= i < n
                    &&& {
                        ||| {
                            &&& same_refresh(accounts[i])
                            &&& forall|j: int| 0 <= j < i ==> !same_refresh(#[trigger] accounts[j])
                        }
                        ||| {
                            &&& forall|j: int| 0 <= j < n ==> !same_refresh(#[trigger] accounts[j])
                            &&& same_access(accounts[i])
                            &&& forall|j: int| 0 <= j < i ==> !same_access(#[trigger] accounts[j])
                        }
                    }
                },
                None => forall|j: int|
                    0 <= j < n ==> !same_refresh(#[trigger] accounts[j]) && !same_access(
                        accounts[j],
                    ),
            }
        }),
{
    if let Some(t) = token.refresh_token {
        find_first_characterised(accounts, with_refresh_token(t));
        assert forall|a: AccountView| #[trigger] with_refresh_token(t)(a) == (a.refresh_token
            == token.refresh_token) by {}
        if let Some(i) = find_first(accounts, with_refresh_token(t)) {
            assert(is_first(accounts, with_refresh_token(t), i));
            assert forall|j: int| 0 <= j < i implies (#[trigger] accounts[j]).refresh_token
                != token.refresh_token by {
                assert(!with_refresh_token(t)(accounts[j]));
            }
        } else {
            assert forall|j: int| 0 <= j < accounts.len() implies (
            #[trigger] accounts[j]).refresh_token != token.refresh_token by {
                assert(!with_refresh_token(t)(accounts[j]));
            }
        }
    }
    if let Some(t) = token.access_token {
        find_first_characterised(accounts, with_access_token(t));
        assert forall|a: AccountView| #[trigger] with_access_token(t)(a) == (a.access_token
            == token.access_token) by {}
        if let Some(i) = find_first(accounts, with_access_token(t)) {
            assert(is_first(accounts, with_access_token(t), i));
            assert forall|j: int| 0 <= j < i implies (#[trigger] accounts[j]).access_token
                != token.access_token by {
                assert(!with_access_token(t)(accounts[j]));
            }
        } else {
            assert forall|j: int| 0 <= j < accounts.len() implies (
            #[trigger] accounts[j]).access_token != token.access_token by {
                assert(!with_access_token(t)(accounts[j]));
            }
        }
    }
}

/// The account that a session belongs to by its tokens: the one that holds one of them;
/// where none does, the first whose access token begins as that of the session does; where
/// there is no such account either, the first with the client hash of the session, if that
/// is not blank; and none exactly when no account is like that in any way.
pub proof fn tokens_tell_the_account_in_four_ways(accounts: Seq<AccountView>, token: TokenView)
    ensures
        ({
            let same_refresh = |a: AccountView|
                token.refresh_token is Some && a.refresh_token == token.refresh_token;
            let same_access = |a: AccountView|
                token.access_token is Some && a.access_token == token.access_token;
            let alike = |a: AccountView|
                {
                    &&& token.access_token is Some
                    &&& a.access_token is Some
                    &&& token_prefix(token.access_token->0).is_prefix_of(a.access_token->0)
                };
            let same_client = |a: AccountView|
                {
                    &&& token.client_id_hash is Some
                    &&& !is_blank(token.client_id_hash->0)
                    &&& a.client_id_hash == token.client_id_hash
                };
            let n = accounts.len();
            let held = exists|j: int|
                0 <= j < n && (same_refresh(#[trigger] accounts[j]) || same_access(accounts[j]));
            &&& held ==> token_match(accounts, token) == exact_match(accounts, token) && exact_match(
                accounts,
                token,
            ) is Some
            &&& !held ==> match token_match(accounts, token) {
                Some(i) => {
                    &&& 0 <= i < n
                    &&& {
                        ||| {
                            &&& alike(accounts[i])
                            &&& forall|j: int| 0 <= j < i ==> !alike(#[trigger] accounts[j])
                        }
                        ||| {
                            &&& forall|j: int| 0 <= j < n ==> !alike(#[trigger] accounts[j])
                            &&& same_client(accounts[i])
                            &&& forall|j: int| 0 <= j < i ==> !same_client(#[trigger] accounts[j])
                        }
                    }
                },
                None => forall|j: int|
                    0 <= j < n ==> !alike(#[trigger] accounts[j]) && !same_client(accounts[j]),
            }
        }),
{
    refresh_token_tells_before_the_access_token(accounts, token);
    if let Some(t) = token.access_token {
        let pred = with_access_prefix(token_prefix(t));
        find_first_characterised(accounts, pred);
        if let Some(i) = find_first(accounts, pred) {
            assert(is_first(accounts, pred, i));
            assert forall|j: int| 0 <= j < i implies !(
            (#[trigger] accounts[j]).access_token is Some && token_prefix(t).is_prefix_of(
                accounts[j].access_token->0,
            )) by {
                assert(!pred(accounts[j]));
            }
        } else {
            assert forall|j: int| 0 <= j < accounts.len() implies !(
            (#[trigger] accounts[j]).access_token is Some && token_prefix(t).is_prefix_of(
                accounts[j].access_token->0,
            )) by {
                assert(!pred(accounts[j]));
            }
        }
    }
    if let Some(h) = token.client_id_hash {
        let pred = with_client_hash(h);
        find_first_characterised(accounts, pred);
        if let Some(i) = find_first(accounts, pred) {
            assert(is_first(accounts, pred, i));
            assert forall|j: int| 0 <= j < i implies (#[trigger] accounts[j]).client_id_hash
                != token.client_id_hash by {
                assert(!pred(accounts[j]));
            }
        } else {
            assert forall|j: int| 0 <= j < accounts.len() implies (
            #[trigger] accounts[j]).client_id_hash != token.client_id_hash by {
                assert(!pred(accounts[j]));
            }
        }
    }
}

/// The current account is the one that the tokens of the session tell, as it stands in the
/// list. Where they tell none, a quota query is made with the access token of the session,
/// if there is one and it is not empty; else, as without a session, nothing is known.
pub proof fn current_account_is_matched_before_it_is_asked_for(
    accounts: &[Account],
    session: Option<&KiroLocalToken>,
    r: CurrentAccount,
)
    requires
        call_ensures(get_current_account, (accounts, session), r),
    ensures
        session is None ==> r@ == CurrentView::Unknown,
        session matches Some(token) ==> {
            let all = views(accounts@);
            let speaks = token@.access_token is Some && token@.access_token->0.len() > 0;
            match token_match(all, token@) {
                Some(i) => r@ == CurrentView::Found(all[i]),
                None => {
                    &&& r@ is Ask <==> speaks
                    &&& r@ is Unknown <==> !speaks
                    &&& r@ matches CurrentView::Ask(lookup) ==> lookup_plan(all, token@) == Some(
                        lookup,
                    )
                },
            }
        },
{
}

/// A quota query for a session is made exactly when the session has an access token that is
/// not empty, and it is made with that token; in the region that the session names, without
/// the white space round it, or in the default one where it names none; and in no other.
pub proof fn lookup_speaks_for_the_session(accounts: Seq<AccountView>, token: TokenView)
    ensures
        lookup_plan(accounts, token) is Some <==> token.access_token is Some
            && token.access_token->0.len() > 0,
        lookup_plan(accounts, token) matches Some(lookup) ==> {
            &&& Some(lookup.access_token) == token.access_token
            &&& lookup.regions.len() == 1
            &&& token.region is Some && !is_blank(token.region->0) ==> lookup.regions[0] == trimmed(
                token.region->0,
            )
            &&& token.region is None || is_blank(token.region->0) ==> lookup.regions[0]
                == "us-east-1"@
        },
{
    reveal_strlit("us-east-1");
    let name = "us-east-1"@;
    trimming_drops_white_space_at_the_ends(name);
    let (i, j) = choose|i: int, j: int|
        #![trigger name.subrange(i, j)]
        {
            &&& 0 <= i <= j <= name.len()
            &&& trimmed(name) == name.subrange(i, j)
            &&& forall|k: int|
                0 <= k < i || j <= k < name.len() ==> is_white_space(#[trigger] name[k])
            &&& i < j ==> !is_white_space(name[i]) && !is_white_space(name[j - 1])
        };
    assert(!is_white_space(name[0]) && !is_white_space(name[8]));
    assert(trimmed(name) =~= name);
}

/// A quota query for a session speaks for the machine of the first account that is bound to
/// one, without the white space round its identifier, and for a placeholder exactly where no
/// account is bound.
pub proof fn lookup_borrows_the_first_machine(accounts: Seq<AccountView>, token: TokenView)
    ensures
        lookup_plan(accounts, token) matches Some(lookup) ==> {
            let bound = |a: AccountView| a.machine_id is Some && !is_blank(a.machine_id->0);
            ||| {
                &&& lookup.machine_id == "auto-switch"@
                &&& forall|j: int| 0 <= j < accounts.len() ==> !bound(#[trigger] accounts[j])
            }
            ||| exists|i: int|
                #![trigger accounts[i]]
                {
                    &&& 0 <= i < accounts.len()
                    &&& bound(accounts[i])
                    &&& lookup.machine_id == trimmed(accounts[i].machine_id->0)
                    &&& forall|j: int| 0 <= j < i ==> !bound(#[trigger] accounts[j])
                }
        },
{
    find_first_characterised(accounts, with_machine());
    if let Some(i) = find_first(accounts, with_machine()) {
        assert(is_first(accounts, with_machine(), i));
        assert(with_machine()(accounts[i]));
        assert forall|j: int| 0 <= j < i implies !(
        (#[trigger] accounts[j]).machine_id is Some && !is_blank(accounts[j].machine_id->0)) by {
            assert(!with_machine()(accounts[j]));
        }
    } else {
        assert forall|j: int| 0 <= j < accounts.len() implies !(
        (#[trigger] accounts[j]).machine_id is Some && !is_blank(accounts[j].machine_id->0)) by {
            assert(!with_machine()(accounts[j]));
        }
    }
}

/// A quota query for a session names the profile of the session. Where the session has none,
/// it names that of the first account that has the refresh token of the session and a
/// profile, and none exactly where there is no such account.
pub proof fn lookup_names_the_profile_of_the_session(accounts: Seq<AccountView>, token: TokenView)
    ensures
        lookup_plan(accounts, token) matches Some(lookup) ==> {
            let knows = |a: AccountView|
                {
                    &&& token.refresh_token is Some
                    &&& a.refresh_token == token.refresh_token
                    &&& a.profile_arn is Some
                };
            &&& token.profile_arn is Some ==> lookup.profile_arn == token.profile_arn
            &&& token.profile_arn is None ==> {
                ||| {
                    &&& lookup.profile_arn is None
                    &&& forall|j: int| 0 <= j < accounts.len() ==> !knows(#[trigger] accounts[j])
                }
                ||| exists|i: int|
                    #![trigger accounts[i]]
                    {
                        &&& 0 <= i < accounts.len()
                        &&& knows(accounts[i])
                        &&& lookup.profile_arn == accounts[i].profile_arn
                        &&& forall|j: int| 0 <= j < i ==> !knows(#[trigger] accounts[j])
                    }
            }
        },
{
    if let Some(t) = token.refresh_token {
        let pred = with_token_and_profile(t);
        find_first_characterised(accounts, pred);
        if let Some(i) = find_first(accounts, pred) {
            assert(is_first(accounts, pred, i));
            assert(pred(accounts[i]));
            assert forall|j: int| 0 <= j < i implies !(
            (#[trigger] accounts[j]).refresh_token == token.refresh_token
                && accounts[j].profile_arn is Some) by {
                assert(!pred(accounts[j]));
            }
        } else {
            assert forall|j: int| 0 <= j < accounts.len() implies !(
            (#[trigger] accounts[j]).refresh_token == token.refresh_token
                && accounts[j].profile_arn is Some) by {
                assert(!pred(accounts[j]));
            }
        }
    }
}

/// A quota document tells an account exactly when some account of the list has the user
/// identifier that the document names, or the e-mail address that it names, whatever the
/// case of its ASCII letters; each of the two is enough, whether or not the document names
/// the other. It tells the first such account, with the document as its quota, each token
/// that the session has in place of its own, and all else as it was.
pub proof fn document_tells_the_first_account_of_its_user(
    accounts: Seq<AccountView>,
    token: TokenView,
    usage: UsageView,
)
    ensures
        ({
            let same_user = |a: AccountView| usage.user_id is Some && a.user_id == usage.user_id;
            let same_email = |a: AccountView|
                {
                    &&& usage.email is Some
                    &&& a.email is Some
                    &&& ascii_lower(usage.email->0) == ascii_lower(a.email->0)
                };
            match resolved_account(accounts, token, usage) {
                None => forall|j: int|
                    0 <= j < accounts.len() ==> !same_user(#[trigger] accounts[j]) && !same_email(
                        accounts[j],
                    ),
                Some(found) => exists|i: int|
                    #![trigger accounts[i]]
                    {
                        &&& 0 <= i < accounts.len()
                        &&& same_user(accounts[i]) || same_email(accounts[i])
                        &&& forall|j: int|
                            0 <= j < i ==> !same_user(#[trigger] accounts[j]) && !same_email(
                                accounts[j],
                            )
                        &&& found.usage_data == Some(usage)
                        &&& found.refresh_token == (if token.refresh_token is Some {
                            token.refresh_token
                        } else {
                            accounts[i].refresh_token
                        })
                        &&& found.access_token == (if token.access_token is Some {
                            token.access_token
                        } else {
                            accounts[i].access_token
                        })
                        &&& found == AccountView {
                            usage_data: found.usage_data,
                            refresh_token: found.refresh_token,
                            access_token: found.access_token,
                            ..accounts[i]
                        }
                    },
            }
        }),
{
    let pred = of_user(usage.email, usage.user_id);
    find_first_characterised(accounts, pred);
    if let Some(i) = find_first(accounts, pred) {
        assert(is_first(accounts, pred, i));
        assert(pred(accounts[i]));
        assert forall|j: int| 0 <= j < i implies !(usage.user_id is Some && (
        #[trigger] accounts[j]).user_id == usage.user_id) && !(usage.email is Some
            && accounts[j].email is Some && ascii_lower(usage.email->0) == ascii_lower(
            accounts[j].email->0,
        )) by {
            assert(!pred(accounts[j]));
        }
    } else {
        assert forall|j: int| 0 <= j < accounts.len() implies !(usage.user_id is Some && (
        #[trigger] accounts[j]).user_id == usage.user_id) && !(usage.email is Some
            && accounts[j].email is Some && ascii_lower(usage.email->0) == ascii_lower(
            accounts[j].email->0,
        )) by {
            assert(!pred(accounts[j]));
        }
    }
}

} // verus!
