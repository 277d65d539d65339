//! The data that the switching logic works on: accounts, the quota documents that
//! they carry, the settings, and the credentials of the local IDE session.
use crate::amount::Amount;
use crate::text::opt_view;
use vstd::prelude::*;

verus! {

/// A quota document, as JSON text, with what the switching logic reads in it.
pub struct UsageData {
    /// The document itself.
    pub document: String,
    /// The amount that is left, where the document holds usage details.
    pub remaining: Option<Amount>,
    /// The e-mail address of the user that the document is about.
    pub email: Option<String>,
    /// The identifier of that user.
    pub user_id: Option<String>,
    /// The quota is used up to its cap.
    pub capped: bool,
}

#[verifier::ext_equal]
pub struct UsageView {
    pub document: Seq<char>,
    pub remaining: Option<Amount>,
    pub email: Option<Seq<char>>,
    pub user_id: Option<Seq<char>>,
    pub capped: bool,
}

impl View for UsageData {
    type V = UsageView;

    open spec fn view(&self) -> UsageView {
        UsageView {
            document: self.document@,
            remaining: self.remaining,
            email: opt_view(self.email),
            user_id: opt_view(self.user_id),
            capped: self.capped,
        }
    }
}

/// The view of an optional quota document.
pub open spec fn usage_view(usage: Option<UsageData>) -> Option<UsageView> {
    match usage {
        Some(u) => Some(u@),
        None => None,
    }
}

impl Clone for UsageData {
    fn clone(&self) -> (r: Self)
        ensures
            r@ == self@,
    {
        UsageData {
            document: self.document.clone(),
            remaining: self.remaining,
            email: self.email.clone(),
            user_id: self.user_id.clone(),
            capped: self.capped,
        }
    }
}

/// An account of the list.
pub struct Account {
    pub id: String,
    pub email: Option<String>,
    pub status: String,
    pub enabled: bool,
    pub access_token: Option<String>,
    pub refresh_token: Option<String>,
    pub provider: Option<String>,
    pub auth_method: Option<String>,
    pub profile_arn: Option<String>,
    pub start_url: Option<String>,
    pub client_id: Option<String>,
    pub client_secret: Option<String>,
    pub client_id_hash: Option<String>,
    pub region: Option<String>,
    pub user_id: Option<String>,
    pub machine_id: Option<String>,
    pub usage_data: Option<UsageData>,
}

#[verifier::ext_equal]
pub struct AccountView {
    pub id: Seq<char>,
    pub email: Option<Seq<char>>,
    pub status: Seq<char>,
    pub enabled: bool,
    pub access_token: Option<Seq<char>>,
    pub refresh_token: Option<Seq<char>>,
    pub provider: Option<Seq<char>>,
    pub auth_method: Option<Seq<char>>,
    pub profile_arn: Option<Seq<char>>,
    pub start_url: Option<Seq<char>>,
    pub client_id: Option<Seq<char>>,
    pub client_secret: Option<Seq<char>>,
    pub client_id_hash: Option<Seq<char>>,
    pub region: Option<Seq<char>>,
    pub user_id: Option<Seq<char>>,
    pub machine_id: Option<Seq<char>>,
    pub usage_data: Option<UsageView>,
}

impl View for Account {
    type V = AccountView;

    open spec fn view(&self) -> AccountView {
        AccountView {
            id: self.id@,
            email: opt_view(self.email),
            status: self.status@,
            enabled: self.enabled,
            access_token: opt_view(self.access_token),
            refresh_token: opt_view(self.refresh_token),
            provider: opt_view(self.provider),
            auth_method: opt_view(self.auth_method),
            profile_arn: opt_view(self.profile_arn),
            start_url: opt_view(self.start_url),
            client_id: opt_view(self.client_id),
            client_secret: opt_view(self.client_secret),
            client_id_hash: opt_view(self.client_id_hash),
            region: opt_view(self.region),
            user_id: opt_view(self.user_id),
            machine_id: opt_view(self.machine_id),
            usage_data: usage_view(self.usage_data),
        }
    }
}

impl Clone for Account {
    fn clone(&self) -> (r: Self)
        ensures
            r@ == self@,
    {
        let usage_data = match &self.usage_data {
            Some(u) => Some(u.clone()),
            None => None,
        };
        Account {
            id: self.id.clone(),
            email: self.email.clone(),
            status: self.status.clone(),
            enabled: self.enabled,
            access_token: self.access_token.clone(),
            refresh_token: self.refresh_token.clone(),
            provider: self.provider.clone(),
            auth_method: self.auth_method.clone(),
            profile_arn: self.profile_arn.clone(),
            start_url: self.start_url.clone(),
            client_id: self.client_id.clone(),
            client_secret: self.client_secret.clone(),
            client_id_hash: self.client_id_hash.clone(),
            region: self.region.clone(),
            user_id: self.user_id.clone(),
            machine_id: self.machine_id.clone(),
            usage_data,
        }
    }
}

/// The view of an optional account.
pub open spec fn account_view(account: Option<Account>) -> Option<AccountView> {
    match account {
        Some(a) => Some(a@),
        None => None,
    }
}

/// The settings that steer the automatic switch; what is not set has a default.
#[derive(Clone, Copy)]
pub struct AppSettings {
    /// Whether accounts are switched automatically.
    pub auto_switch_enabled: Option<bool>,
    /// The amount at or below which the current account is given up.
    pub auto_switch_threshold: Option<Amount>,
    /// The minutes between two checks.
    pub auto_switch_interval: Option<i32>,
}

impl Default for AppSettings {
    fn default() -> (r: Self)
        ensures
            r.auto_switch_enabled is None,
            r.auto_switch_threshold is None,
            r.auto_switch_interval is None,
    {
        AppSettings {
            auto_switch_enabled: None,
            auto_switch_threshold: None,
            auto_switch_interval: None,
        }
    }
}

/// The credentials of the local IDE session.
pub struct KiroLocalToken {
    pub access_token: Option<String>,
    pub refresh_token: Option<String>,
    pub client_id_hash: Option<String>,
    pub region: Option<String>,
    pub profile_arn: Option<String>,
}

#[verifier::ext_equal]
pub struct TokenView {
    pub access_token: Option<Seq<char>>,
    pub refresh_token: Option<Seq<char>>,
    pub client_id_hash: Option<Seq<char>>,
    pub region: Option<Seq<char>>,
    pub profile_arn: Option<Seq<char>>,
}

impl View for KiroLocalToken {
    type V = TokenView;

    open spec fn view(&self) -> TokenView {
        TokenView {
            access_token: opt_view(self.access_token),
            refresh_token: opt_view(self.refresh_token),
            client_id_hash: opt_view(self.client_id_hash),
            region: opt_view(self.region),
            profile_arn: opt_view(self.profile_arn),
        }
    }
}

/// What the IDE is handed to change to another account.
pub struct SwitchAccountParams {
    pub access_token: String,
    pub refresh_token: String,
    pub provider: String,
    pub auth_method: Option<String>,
    pub profile_arn: Option<String>,
    pub start_url: Option<String>,
    pub client_id: Option<String>,
    pub client_secret: Option<String>,
    pub client_id_hash: Option<String>,
    pub region: Option<String>,
    pub email: Option<String>,
}

#[verifier::ext_equal]
pub struct ParamsView {
    pub access_token: Seq<char>,
    pub refresh_token: Seq<char>,
    pub provider: Seq<char>,
    pub auth_method: Option<Seq<char>>,
    pub profile_arn: Option<Seq<char>>,
    pub start_url: Option<Seq<char>>,
    pub client_id: Option<Seq<char>>,
    pub client_secret: Option<Seq<char>>,
    pub client_id_hash: Option<Seq<char>>,
    pub region: Option<Seq<char>>,
    pub email: Option<Seq<char>>,
}

impl View for SwitchAccountParams {
    type V = ParamsView;

    open spec fn view(&self) -> ParamsView {
        ParamsView {
            access_token: self.access_token@,
            refresh_token: self.refresh_token@,
            provider: self.provider@,
            auth_method: opt_view(self.auth_method),
            profile_arn: opt_view(self.profile_arn),
            start_url: opt_view(self.start_url),
            client_id: opt_view(self.client_id),
            client_secret: opt_view(self.client_secret),
            client_id_hash: opt_view(self.client_id_hash),
            region: opt_view(self.region),
            email: opt_view(self.email),
        }
    }
}

/// The text of an optional string; the empty text where there is none.
pub open spec fn text_or_empty(s: Option<Seq<char>>) -> Seq<char> {
    match s {
        Some(s) => s,
        None => Seq::empty(),
    }
}

/// What the IDE is handed to change to `account`: its credentials, its e-mail address, and
/// an empty text for each of the three that must be there and is not.
pub open spec fn switch_params(account: AccountView) -> ParamsView {
    ParamsView {
        access_token: text_or_empty(account.access_token),
        refresh_token: text_or_empty(account.refresh_token),
        provider: text_or_empty(account.provider),
        auth_method: account.auth_method,
        profile_arn: account.profile_arn,
        start_url: account.start_url,
        client_id: account.client_id,
        client_secret: account.client_secret,
        client_id_hash: account.client_id_hash,
        region: account.region,
        email: account.email,
    }
}

/// What the IDE is handed to change to `account`.
pub fn build_switch_params(account: &Account) -> (r: SwitchAccountParams)
    ensures
        r@ == switch_params(account@),
{
    SwitchAccountParams {
        access_token: account.access_token.clone().unwrap_or_default(),
        refresh_token: account.refresh_token.clone().unwrap_or_default(),
        provider: account.provider.clone().unwrap_or_default(),
        auth_method: account.auth_method.clone(),
        profile_arn: account.profile_arn.clone(),
        start_url: account.start_url.clone(),
        client_id: account.client_id.clone(),
        client_secret: account.client_secret.clone(),
        client_id_hash: account.client_id_hash.clone(),
        region: account.region.clone(),
        email: account.email.clone(),
    }
}

/// The IDE is handed the account's own credentials: each of them unchanged where the account
/// has it, and of the tokens and the provider an empty text where it has not.
pub proof fn ide_is_handed_the_credentials_of_the_account(account: &Account, r: SwitchAccountParams)
    requires
        call_ensures(build_switch_params, (account,), r),
    ensures
        account@.access_token is Some ==> Some(r@.access_token) == account@.access_token,
        account@.access_token is None ==> r@.access_token.len() == 0,
        account@.refresh_token is Some ==> Some(r@.refresh_token) == account@.refresh_token,
        account@.refresh_token is None ==> r@.refresh_token.len() == 0,
        account@.provider is Some ==> Some(r@.provider) == account@.provider,
        account@.provider is None ==> r@.provider.len() == 0,
        r@.auth_method == account@.auth_method,
        r@.profile_arn == account@.profile_arn,
        r@.start_url == account@.start_url,
        r@.client_id == account@.client_id,
        r@.client_secret == account@.client_secret,
        r@.client_id_hash == account@.client_id_hash,
        r@.region == account@.region,
        r@.email == account@.email,
{
}

/// What is said of an account, of a quota document, of a session and of what the IDE is
/// handed is said of each of its parts.
pub proof fn views_show_every_part(
    account: Account,
    usage: UsageData,
    token: KiroLocalToken,
    params: SwitchAccountParams,
)
    ensures
        account@.id == account.id@,
        account@.status == account.status@,
        account@.enabled == account.enabled,
        account@.email == opt_view(account.email),
        account@.access_token == opt_view(account.access_token),
        account@.refresh_token == opt_view(account.refresh_token),
        account@.provider == opt_view(account.provider),
        account@.auth_method == opt_view(account.auth_method),
        account@.profile_arn == opt_view(account.profile_arn),
        account@.start_url == opt_view(account.start_url),
        account@.client_id == opt_view(account.client_id),
        account@.client_secret == opt_view(account.client_secret),
        account@.client_id_hash == opt_view(account.client_id_hash),
        account@.region == opt_view(account.region),
        account@.user_id == opt_view(account.user_id),
        account@.machine_id == opt_view(account.machine_id),
        account.usage_data is None ==> account@.usage_data is None,
        account.usage_data matches Some(document) ==> account@.usage_data == Some(document@),
        usage@.document == usage.document@,
        usage@.remaining == usage.remaining,
        usage@.email == opt_view(usage.email),
        usage@.user_id == opt_view(usage.user_id),
        usage@.capped == usage.capped,
        token@.access_token == opt_view(token.access_token),
        token@.refresh_token == opt_view(token.refresh_token),
        token@.client_id_hash == opt_view(token.client_id_hash),
        token@.region == opt_view(token.region),
        token@.profile_arn == opt_view(token.profile_arn),
        params@.access_token == params.access_token@,
        params@.refresh_token == params.refresh_token@,
        params@.provider == params.provider@,
        params@.auth_method == opt_view(params.auth_method),
        params@.profile_arn == opt_view(params.profile_arn),
        params@.start_url == opt_view(params.start_url),
        params@.client_id == opt_view(params.client_id),
        params@.client_secret == opt_view(params.client_secret),
        params@.client_id_hash == opt_view(params.client_id_hash),
        params@.region == opt_view(params.region),
        params@.email == opt_view(params.email),
{
}

} // verus!
