//! The machine that an account is bound to.
use crate::account::{Account, AccountView, AppSettings};
use crate::request::{is_hex_digit, is_random_uuid, random_uuid};
use crate::text::{
    ascii_lower, ascii_lower_char, blank, is_blank, is_white_space, lowered, opt_view, trimmed,
    trimmed_end, trimmed_start,
};
use vstd::prelude::*;
use vstd::utf8::is_ascii_chars;

verus! {

/// The identifier of the machine that an account is bound to: in lower case, without
/// white space round it; none where it is blank.
pub open spec fn bound_machine(machine_id: Option<Seq<char>>) -> Option<Seq<char>> {
    match machine_id {
        Some(id) => if is_blank(id) {
            None
        } else {
            Some(lowered(trimmed(id)))
        },
        None => None,
    }
}

/// An identifier that the machine can take for an account with the binding `machine_id`: the
/// one that it is bound to, or any random UUID where it is not bound.
pub open spec fn is_machine_for(machine_id: Option<Seq<char>>, id: Seq<char>) -> bool {
    match bound_machine(machine_id) {
        Some(bound) => id == bound,
        None => is_random_uuid(id),
    }
}

/// The identifier of the machine that an account is bound to, or a new one for an account
/// that is not bound: a random UUID.
pub fn account_machine_id_or_new(machine_id: &Option<String>) -> (r: String)
    ensures
        is_machine_for(opt_view(*machine_id), r@),
{
    if let Some(id) = machine_id {
        if !blank(id.as_str()) {
            return id.as_str().trim().to_lowercase();
        }
    }
    random_uuid()
}

/// No white space at either end.
spec fn is_bare(s: Seq<char>) -> bool {
    s.len() > 0 ==> !is_white_space(s.first()) && !is_white_space(s.last())
}

proof fn lemma_trimmed_end(s: Seq<char>)
    ensures
        trimmed_end(s).is_prefix_of(s),
        trimmed_end(s).len() > 0 ==> !is_white_space(trimmed_end(s).last()),
    decreases s.len(),
{
    if s.len() > 0 && is_white_space(s.last()) {
        lemma_trimmed_end(s.drop_last());
    }
}

proof fn lemma_trimmed_start(s: Seq<char>)
    ensures
        trimmed_start(s).len() > 0 ==> !is_white_space(trimmed_start(s).first()),
        is_ascii_chars(s) ==> is_ascii_chars(trimmed_start(s)),
    decreases s.len(),
{
    if s.len() > 0 && is_white_space(s.first()) {
        lemma_trimmed_start(s.drop_first());
    }
}

proof fn lemma_trimmed_is_bare(s: Seq<char>)
    ensures
        is_bare(trimmed(s)),
        is_ascii_chars(s) ==> is_ascii_chars(trimmed(s)),
{
    lemma_trimmed_start(s);
    lemma_trimmed_end(trimmed_start(s));
}

/// An identifier that an account was bound to once, as resolved from ASCII characters or as
/// newly made, is kept: it is what the account is bound to from then on.
pub proof fn machine_is_kept(machine_id: Option<Seq<char>>, id: Seq<char>)
    requires
        is_machine_for(machine_id, id),
        bound_machine(machine_id) is Some ==> is_ascii_chars(machine_id->0),
    ensures
        bound_machine(Some(id)) == Some(id),
{
    match bound_machine(machine_id) {
        Some(_) => {
            let t = trimmed(machine_id->0);
            lemma_trimmed_is_bare(machine_id->0);
            assert(id.len() == t.len());
            assert forall|i: int| 0 <= i < id.len() implies {
                &&& is_white_space(#[trigger] id[i]) == is_white_space(t[i])
                &&& ascii_lower_char(id[i]) == id[i]
                &&& id[i] < '\u{80}'
            } by {
                assert(id[i] == ascii_lower_char(t[i]));
            }
            assert(is_ascii_chars(id));
        },
        None => {
            assert forall|i: int| 0 <= i < id.len() implies {
                &&& !is_white_space(#[trigger] id[i])
                &&& ascii_lower_char(id[i]) == id[i]
                &&& id[i] < '\u{80}'
            } by {
                assert(id[i] == '-' || is_hex_digit(id[i]));
            }
            assert(is_ascii_chars(id));
        },
    }
    assert(trimmed(id) == id);
    assert(ascii_lower(id) =~= id);
}

/// What becomes of the machine when an account takes over.
#[derive(Debug, Clone, PartialEq, Eq)]
pub enum MachineGuidSwitchAction {
    /// The machine takes this identifier.
    UseAccountMachineId(String),
}

/// What becomes of the machine when `account` takes over: it takes the identifier that the
/// account is bound to, or a new one. No setting changes that.
pub fn resolve_machine_guid_switch_action(account: &Account, _settings: &AppSettings) -> (r:
    MachineGuidSwitchAction)
    ensures
        r matches MachineGuidSwitchAction::UseAccountMachineId(id) && is_machine_for(
            account@.machine_id,
            id@,
        ),
{
    MachineGuidSwitchAction::UseAccountMachineId(account_machine_id_or_new(&account.machine_id))
}

/// An account on a machine with the identifier `machine_id`.
pub open spec fn moved_to(account: AccountView, machine_id: Seq<char>) -> AccountView {
    AccountView { machine_id: Some(machine_id), ..account }
}

/// The account that takes over on a machine with the identifier `machine_id`.
pub fn on_machine(account: &Account, machine_id: String) -> (r: Account)
    ensures
        r@ == moved_to(account@, machine_id@),
{
    let mut account = account.clone();
    account.machine_id = Some(machine_id);
    account
}

/// An account with a binding that is not blank brings the machine that very identifier, in
/// lower case and without the white space round it, whatever the settings say. Any other
/// account brings it an identifier of 36 characters: lower-case hexadecimal digits with
/// hyphens behind the eighth, twelfth, sixteenth and twentieth, of the random kind.
pub proof fn bound_account_brings_its_machine(
    account: &Account,
    settings: &AppSettings,
    r: MachineGuidSwitchAction,
)
    requires
        call_ensures(resolve_machine_guid_switch_action, (account, settings), r),
    ensures
        ({
            let binding = account@.machine_id;
            let id = r->UseAccountMachineId_0@;
            &&& binding is Some && !is_blank(binding->0) ==> id == lowered(trimmed(binding->0))
            &&& binding is None || is_blank(binding->0) ==> {
                &&& id.len() == 36
                &&& id[8] == '-' && id[13] == '-' && id[18] == '-' && id[23] == '-'
                &&& forall|i: int|
                    0 <= i < 36 && i != 8 && i != 13 && i != 18 && i != 23 ==> '0' <= #[trigger] id[i]
                        <= '9' || 'a' <= id[i] <= 'f'
                &&& id[14] == '4'
            }
        }),
{
}

/// An account on another machine differs in its binding alone.
pub proof fn account_on_a_machine_keeps_all_else(account: &Account, machine_id: String, r: Account)
    requires
        call_ensures(on_machine, (account, machine_id), r),
    ensures
        r@.machine_id == Some(machine_id@),
        account@ == (AccountView { machine_id: account@.machine_id, ..r@ }),
{
}

} // verus!
