//! What a refused request is answered with.
use crate::json::{json_of, json_read, member_of, read_json, text_member, text_of, Json};
use crate::region::is_final_failure;
use crate::text::{contains, contains_text, same_text};
use vstd::prelude::*;

verus! {

/// The decimal digit `d`.
pub open spec fn digit_text(d: int) -> Seq<char> {
    seq![('0' as int + d) as char]
}

/// `n` in decimal digits, without leading zeros.
pub open spec fn decimal_text(n: int) -> Seq<char>
    decreases n,
{
    if n < 10 {
        digit_text(n)
    } else {
        decimal_text(n / 10) + digit_text(n % 10)
    }
}

fn digit(d: u16) -> (r: &'static str)
    requires
        d < 10,
    ensures
        r@ == digit_text(d as int),
{
    proof {
        reveal_strlit("0");
        reveal_strlit("1");
        reveal_strlit("2");
        reveal_strlit("3");
        reveal_strlit("4");
        reveal_strlit("5");
        reveal_strlit("6");
        reveal_strlit("7");
        reveal_strlit("8");
        reveal_strlit("9");
    }
    match d {
        0 => "0",
        1 => "1",
        2 => "2",
        3 => "3",
        4 => "4",
        5 => "5",
        6 => "6",
        7 => "7",
        8 => "8",
        _ => "9",
    }
}

/// `n` in decimal digits.
pub fn decimal(n: u16) -> (r: String)
    ensures
        r@ == decimal_text(n as int),
    decreases n,
{
    if n < 10 {
        digit(n).to_owned()
    } else {
        decimal(n / 10).concat(digit(n % 10))
    }
}

/// The message of a reply that gives a suspension as its reason.
pub open spec fn suspension_message(reply: Option<Json>) -> Option<Seq<char>> {
    match reply {
        Some(value) => if text_of(member_of(value, "reason"@)) == Some("TemporarilySuspended"@) {
            match text_of(member_of(value, "message"@)) {
                Some(message) => Some(message),
                None => Some("账号已被封禁"@),
            }
        } else {
            None
        },
        None => None,
    }
}

/// The failure that a refused request is reported as. `reply` is the JSON value that the
/// body holds, if any, and `lowered` the body in lower case.
pub open spec fn failure_text(
    api: Seq<char>,
    status: u16,
    body: Seq<char>,
    reply: Option<Json>,
    lowered: Seq<char>,
) -> Seq<char> {
    if status == 401 {
        "AUTH_ERROR: "@ + api + " 401: "@ + body
    } else if status == 403 {
        if suspension_message(reply) is Some {
            "BANNED: "@ + suspension_message(reply)->0
        } else if contains_text(lowered, "suspended"@) {
            "BANNED: "@ + body
        } else {
            "AUTH_ERROR: "@ + api + " 403: "@ + body
        }
    } else if status == 423 {
        "BANNED: Account suspended"@
    } else {
        api + " failed - HTTP "@ + decimal_text(status as int) + ": "@ + body
    }
}

/// The failure that a refused request is reported as, from the body as read as JSON and
/// the body in lower case. Only a reply with the status 403 looks at either.
pub fn classify_reply(
    api: &str,
    status: u16,
    body: &str,
    reply: Option<&serde_json::Value>,
    lowered: &str,
) -> (r: String)
    ensures
        r@ == failure_text(
            api@,
            status,
            body@,
            match reply {
                Some(value) => Some(json_of(*value)),
                None => None,
            },
            lowered@,
        ),
{
    if status == 401 {
        return "AUTH_ERROR: ".to_owned().concat(api).concat(" 401: ").concat(body);
    }
    if status == 403 {
        if let Some(value) = reply {
            let suspended = match text_member(value, "reason") {
                Some(reason) => same_text(reason, "TemporarilySuspended"),
                None => false,
            };
            if suspended {
                let message = match text_member(value, "message") {
                    Some(message) => message,
                    None => "账号已被封禁",
                };
                return "BANNED: ".to_owned().concat(message);
            }
        }
        if contains(lowered, "suspended") {
            return "BANNED: ".to_owned().concat(body);
        }
        return "AUTH_ERROR: ".to_owned().concat(api).concat(" 403: ").concat(body);
    }
    if status == 423 {
        return "BANNED: Account suspended".to_owned();
    }
    api.to_owned().concat(" failed - HTTP ").concat(decimal(status).as_str()).concat(": ").concat(
        body,
    )
}

/// The failure that a request to `api` is reported as when it is refused with `status`
/// and `body`.
pub fn classify_kiro_management_error(api: &str, status: u16, body: &str) -> (r: String)
    ensures
        r@ == failure_text(api@, status, body@, json_read(body@), crate::text::lowered(body@)),
{
    if status != 403 {
        return classify_reply(api, status, body, None, body);
    }
    let lowered = body.to_lowercase();
    match read_json(body) {
        Ok(value) => classify_reply(api, status, body, Some(&value), lowered.as_str()),
        Err(_) => classify_reply(api, status, body, None, lowered.as_str()),
    }
}

/// A status that says that a request succeeded.
pub open spec fn is_success(status: u16) -> bool {
    200 <= status < 300
}

/// Whether a status says that a request succeeded.
pub fn success_status(status: u16) -> (r: bool)
    ensures
        r == is_success(status),
{
    200 <= status && status < 300
}

/// What a reply to a request becomes whose body does not matter where it succeeded.
pub fn reply_outcome(api: &str, status: u16, body: &str) -> (r: Result<(), String>)
    ensures
        r is Ok <==> is_success(status),
        r matches Err(e) ==> e@ == failure_text(
            api@,
            status,
            body@,
            json_read(body@),
            crate::text::lowered(body@),
        ),
{
    if success_status(status) {
        Ok(())
    } else {
        Err(classify_kiro_management_error(api, status, body))
    }
}

/// What is read of a reply: of one that succeeded a JSON value, or why there is none; of
/// another one its body.
pub enum ReplyContent {
    Value(Result<serde_json::Value, String>),
    Body(String),
}

/// What a reply to a request becomes that asks for a JSON value: the value of a reply that
/// succeeded, or that it is unreadable; the failure of one that did not.
pub fn reply_value(api: &str, status: u16, content: ReplyContent) -> (r: Result<
    serde_json::Value,
    String,
>)
    requires
        content is Value <==> is_success(status),
    ensures
        match content {
            ReplyContent::Value(Ok(value)) => r == Ok::<serde_json::Value, String>(value),
            ReplyContent::Value(Err(error)) => r matches Err(e) && e@ == "Failed to parse JSON: "@
                + error@,
            ReplyContent::Body(body) => r matches Err(e) && e@ == failure_text(
                api@,
                status,
                body@,
                json_read(body@),
                crate::text::lowered(body@),
            ),
        },
{
    match content {
        ReplyContent::Value(Ok(value)) => Ok(value),
        ReplyContent::Value(Err(error)) => Err(unreadable_reply(error.as_str())),
        ReplyContent::Body(body) => Err(classify_kiro_management_error(api, status, body.as_str())),
    }
}

/// A refused request ends a query that goes from region to region exactly when its
/// status is 401, 403 or 423; any other refusal leaves the next region to be tried.
/// (A name of the operation that reads like a final failure would end the query too.)
pub proof fn refusals_end_a_query_by_their_status(
    api: Seq<char>,
    status: u16,
    body: Seq<char>,
    reply: Option<Json>,
    lowered: Seq<char>,
)
    ensures
        is_final_failure(failure_text(api, status, body, reply, lowered)) <==> (status == 401
            || status == 403 || status == 423 || is_final_failure(api)),
{
    reveal_strlit("AUTH_ERROR:");
    reveal_strlit("BANNED:");
    reveal_strlit("AUTH_ERROR: ");
    reveal_strlit("BANNED: ");
    reveal_strlit("BANNED: Account suspended");
    reveal_strlit(" failed - HTTP ");
    let text = failure_text(api, status, body, reply, lowered);
    if status == 401 || status == 403 || status == 423 {
        if "AUTH_ERROR: "@.is_prefix_of(text) {
            assert("AUTH_ERROR:"@.is_prefix_of(text));
        } else {
            assert("BANNED:"@.is_prefix_of(text));
        }
    } else {
        assert(text.len() > api.len() && text[api.len() as int] == ' ');
        assert forall|prefix: Seq<char>| !prefix.contains(' ') implies (
        #[trigger] prefix.is_prefix_of(text) <==> prefix.is_prefix_of(api)) by {
            if prefix.is_prefix_of(text) && prefix.len() > api.len() {
                assert(prefix[api.len() as int] == ' ');
            }
        }
    }
}

/// The failure of a request that got no reply.
pub fn request_failed(api: &str, error: &str) -> (r: String)
    ensures
        r@ == api@ + " 请求失败: "@ + error@,
{
    api.to_owned().concat(" 请求失败: ").concat(error)
}

/// The failure of a request to set a preference that got no reply.
pub fn preference_request_failed(error: &str, url: &str) -> (r: String)
    ensures
        r@ == "setUserPreference"@ + " 请求失败: "@ + error@ + " (URL: "@ + url@ + ")"@,
{
    request_failed("setUserPreference", error).concat(" (URL: ").concat(url).concat(")")
}

/// The failure of a request whose reply is no JSON value.
pub fn unreadable_reply(error: &str) -> (r: String)
    ensures
        r@ == "Failed to parse JSON: "@ + error@,
{
    "Failed to parse JSON: ".to_owned().concat(error)
}

/// A request that got no reply ends a query that goes from region to region only where the
/// name of its operation reads like a final failure; that of the quota query does not. A
/// reply that cannot be read never ends one. So the next region is tried, whatever the error
/// says. Both failures tell the error, and the first tells the operation.
pub proof fn silent_and_unreadable_services_do_not_end_a_query(
    api: &str,
    error: &str,
    silent: String,
    unreadable: String,
)
    requires
        call_ensures(request_failed, (api, error), silent),
        call_ensures(unreadable_reply, (error,), unreadable),
    ensures
        ({
            let ends = |text: Seq<char>|
                "AUTH_ERROR:"@.is_prefix_of(text) || "BANNED:"@.is_prefix_of(text);
            &&& ends(silent@) <==> ends(api@)
            &&& api@ == "getUsageLimits"@ ==> !ends(silent@)
            &&& !ends(unreadable@)
            &&& is_final_failure(silent@) == ends(silent@)
            &&& is_final_failure(unreadable@) == ends(unreadable@)
            &&& silent@ == api@ + " 请求失败: "@ + error@
            &&& unreadable@ == "Failed to parse JSON: "@ + error@
        }),
{
    reveal_strlit("AUTH_ERROR:");
    reveal_strlit("BANNED:");
    reveal_strlit(" 请求失败: ");
    reveal_strlit("Failed to parse JSON: ");
    reveal_strlit("getUsageLimits");
    let n = api@.len() as int;
    assert(silent@[n] == ' ');
    assert forall|prefix: Seq<char>| !prefix.contains(' ') implies (
    #[trigger] prefix.is_prefix_of(silent@) <==> prefix.is_prefix_of(api@)) by {
        if prefix.is_prefix_of(silent@) && prefix.len() > n {
            assert(prefix[n] == ' ');
        }
        if prefix.is_prefix_of(silent@) && prefix.len() <= n {
            assert(prefix =~= api@.take(prefix.len() as int));
        }
        if prefix.is_prefix_of(api@) {
            assert(prefix =~= silent@.take(prefix.len() as int));
        }
    }
    assert(!"AUTH_ERROR:"@.contains(' '));
    assert(!"BANNED:"@.contains(' '));
    if api@ == "getUsageLimits"@ {
        assert(api@[0] == 'g');
        assert("AUTH_ERROR:"@[0] == 'A' && "BANNED:"@[0] == 'B');
    }
    assert(unreadable@[0] == 'F');
}

/// How a refusal is told. Refused credentials, by the statuses 401 and 403, are told with
/// the operation, the status and the body. A 403 whose body is JSON and gives
/// `TemporarilySuspended` as its reason is a ban, told by its message, or by a standing text
/// where it has none; so is one whose body says `suspended` in whatever letters, told by the
/// body. A 423 is always a ban. Any other status is neither, and is told with the operation,
/// the status and the body, whatever the body says.
pub proof fn refusals_are_told_by_status_and_body(api: &str, status: u16, body: &str, r: String)
    requires
        call_ensures(classify_kiro_management_error, (api, status, body), r),
    ensures
        ({
            let value = json_read(body@);
            let reason = value is Some && member_of(value->0, "reason"@) == Some(
                Json::Text("TemporarilySuspended"@),
            );
            let word = contains_text(crate::text::lowered(body@), "suspended"@);
            &&& status == 401 ==> r@ == "AUTH_ERROR: "@ + api@ + " 401: "@ + body@
            &&& status == 403 && !reason && !word ==> r@ == "AUTH_ERROR: "@ + api@ + " 403: "@
                + body@
            &&& status == 403 && !reason && word ==> r@ == "BANNED: "@ + body@
            &&& status == 403 && reason ==> match member_of(value->0, "message"@) {
                Some(Json::Text(message)) => r@ == "BANNED: "@ + message,
                _ => r@ == "BANNED: "@ + "账号已被封禁"@,
            }
            &&& status == 423 ==> r@ == "BANNED: Account suspended"@
            &&& status != 401 && status != 403 && status != 423 ==> r@ == api@ + " failed - HTTP "@
                + decimal_text(status as int) + ": "@ + body@
        }),
{
}

/// The number that decimal digits stand for.
pub open spec fn number_of(digits: Seq<char>) -> int
    decreases digits.len(),
{
    if digits.len() == 0 {
        0
    } else {
        10 * number_of(digits.drop_last()) + (digits.last() as int - '0' as int)
    }
}

/// A number in decimal is made of digits that stand for that number, and begins with a zero
/// only where it is nothing but that zero.
pub proof fn decimal_digits_stand_for_the_number(n: int)
    requires
        n >= 0,
    ensures
        number_of(decimal_text(n)) == n,
        decimal_text(n).len() > 0,
        forall|i: int|
            0 <= i < decimal_text(n).len() ==> '0' <= #[trigger] decimal_text(n)[i] <= '9',
        decimal_text(n)[0] == '0' ==> n == 0 && decimal_text(n).len() == 1,
    decreases n,
{
    let text = decimal_text(n);
    if n < 10 {
        assert(text.drop_last() =~= Seq::empty());
        assert(number_of(text.drop_last()) == 0);
    } else {
        decimal_digits_stand_for_the_number(n / 10);
        assert(text.drop_last() =~= decimal_text(n / 10));
        assert(text[0] == decimal_text(n / 10)[0]);
    }
}

/// A reply succeeds exactly when its status is in the two hundreds. One that does not is told
/// as a refusal, by the operation, the status and the body that came with it.
pub proof fn replies_succeed_by_their_status(
    api: &str,
    status: u16,
    body: &str,
    success: bool,
    outcome: Result<(), String>,
    told: String,
)
    requires
        call_ensures(success_status, (status,), success),
        call_ensures(reply_outcome, (api, status, body), outcome),
        call_ensures(classify_kiro_management_error, (api, status, body), told),
    ensures
        success <==> 200 <= status <= 299,
        outcome is Ok <==> 200 <= status <= 299,
        outcome matches Err(error) ==> error@ == told@,
{
}

/// A reply that succeeded gives the value that was read of it, unchanged, or says why none
/// could be read; one that did not is told as a refusal.
pub proof fn reply_values_are_handed_on(
    api: &str,
    success: u16,
    refusal: u16,
    value: Result<serde_json::Value, String>,
    body: String,
    text: &str,
    of_value: Result<serde_json::Value, String>,
    of_body: Result<serde_json::Value, String>,
    told: String,
)
    requires
        200 <= success <= 299,
        !(200 <= refusal <= 299),
        body@ == text@,
        call_ensures(reply_value, (api, success, ReplyContent::Value(value)), of_value),
        call_ensures(reply_value, (api, refusal, ReplyContent::Body(body)), of_body),
        call_ensures(classify_kiro_management_error, (api, refusal, text), told),
    ensures
        value is Ok ==> of_value == value,
        value matches Err(error) ==> of_value is Err && of_value->Err_0@ == "Failed to parse JSON: "@
            + error@,
        of_body is Err && of_body->Err_0@ == told@,
{
}

/// The failure of a request to set a preference that got no reply tells the operation, the
/// error and the address.
pub proof fn silent_preference_request_tells_its_address(error: &str, url: &str, r: String)
    requires
        call_ensures(preference_request_failed, (error, url), r),
    ensures
        r@ == "setUserPreference 请求失败: "@ + error@ + " (URL: "@ + url@ + ")"@,
{
    reveal_strlit("setUserPreference");
    reveal_strlit(" 请求失败: ");
    reveal_strlit("setUserPreference 请求失败: ");
    assert("setUserPreference"@ + " 请求失败: "@ =~= "setUserPreference 请求失败: "@);
}

} // verus!
