//! The addresses of the Kiro services.
use crate::text::{blank, is_blank, opt_str_view, trimmed};
use vstd::prelude::*;
use vstd::utf8::*;

verus! {

/// The host of the runtime service in `region`.
pub open spec fn runtime_host(region: Seq<char>) -> Seq<char> {
    "runtime."@ + region + ".kiro.dev"@
}

/// The host of the management service in `region`.
pub open spec fn management_host(region: Seq<char>) -> Seq<char> {
    "management."@ + region + ".kiro.dev"@
}

/// The address of a host that is reached over TLS.
pub open spec fn service_url(host: Seq<char>) -> Seq<char> {
    "https://"@ + host
}

/// The host of the runtime service in `region`.
pub fn build_kiro_runtime_host(region: &str) -> (host: String)
    ensures
        host@ == runtime_host(region@),
{
    "runtime.".to_owned().concat(region).concat(".kiro.dev")
}

/// The address of the runtime service in `region`.
pub fn build_kiro_runtime_service_url(region: &str) -> (url: String)
    ensures
        url@ == service_url(runtime_host(region@)),
{
    "https://".to_owned().concat(build_kiro_runtime_host(region).as_str())
}

/// The address at which the runtime service generates the assistant's response.
pub fn build_generate_assistant_response_url(region: &str) -> (url: String)
    ensures
        url@ == service_url(runtime_host(region@)) + "/generateAssistantResponse"@,
{
    build_kiro_runtime_service_url(region).concat("/generateAssistantResponse")
}

/// The MCP endpoint of the runtime service.
pub fn build_mcp_url(region: &str) -> (url: String)
    ensures
        url@ == service_url(runtime_host(region@)) + "/mcp"@,
{
    build_kiro_runtime_service_url(region).concat("/mcp")
}

/// The host of the management service in `region`.
pub fn build_kiro_management_host(region: &str) -> (host: String)
    ensures
        host@ == management_host(region@),
{
    "management.".to_owned().concat(region).concat(".kiro.dev")
}

/// The address of the management service in `region`.
pub fn build_kiro_management_service_url(region: &str) -> (url: String)
    ensures
        url@ == service_url(management_host(region@)),
{
    "https://".to_owned().concat(build_kiro_management_host(region).as_str())
}

/// The bytes that stand for themselves in a query: letters, digits, `-`, `.`, `_`
/// and `~`.
pub open spec fn is_unreserved(b: u8) -> bool {
    ||| '0' <= b as char <= '9'
    ||| 'A' <= b as char <= 'Z'
    ||| 'a' <= b as char <= 'z'
    ||| b as char == '-'
    ||| b as char == '.'
    ||| b as char == '_'
    ||| b as char == '~'
}

/// A hexadecimal digit, in upper case.
pub open spec fn hex_digit(d: int) -> char {
    if d < 10 {
        ('0' as int + d) as char
    } else {
        ('A' as int + (d - 10)) as char
    }
}

/// A byte as it stands in a query: itself, or `%` and its two digits.
pub open spec fn percent_byte(b: u8) -> Seq<char> {
    if is_unreserved(b) {
        seq![b as char]
    } else {
        seq!['%', hex_digit(b as int / 16), hex_digit(b as int % 16)]
    }
}

/// Bytes as they stand in a query.
pub open spec fn percent_encoded(bytes: Seq<u8>) -> Seq<char>
    decreases bytes.len(),
{
    if bytes.len() == 0 {
        Seq::empty()
    } else {
        percent_encoded(bytes.drop_last()) + percent_byte(bytes.last())
    }
}

/// Calls `urlencoding::encode`, which leaves the unreserved bytes of the UTF-8 form of
/// a text and writes each other byte as `%` and two upper-case digits.
#[verifier::external_body]
pub(crate) fn percent_encode(text: &str) -> (r: String)
    ensures
        r@ == percent_encoded(encode_utf8(text@)),
{
    urlencoding::encode(text).into_owned()
}

/// The part of the quota query that names a profile: none for a blank name, else the
/// name without the white space round it, percent-encoded.
pub open spec fn profile_parameter(profile_arn: Option<Seq<char>>) -> Seq<char> {
    match profile_arn {
        Some(arn) => if is_blank(arn) {
            Seq::empty()
        } else {
            "&profileArn="@ + percent_encoded(encode_utf8(trimmed(arn)))
        },
        None => Seq::empty(),
    }
}

/// The address of the quota query.
pub open spec fn usage_limits_url(region: Seq<char>, profile_arn: Option<Seq<char>>) -> Seq<char> {
    service_url(management_host(region))
        + "/getUsageLimits?isEmailRequired=true&origin=AI_EDITOR"@ + profile_parameter(profile_arn)
        + "&resourceType=AGENTIC_REQUEST"@
}

/// The address of the quota query.
pub fn build_get_usage_limits_url(region: &str, profile_arn: Option<&str>) -> (url: String)
    ensures
        url@ == usage_limits_url(region@, opt_str_view(profile_arn)),
{
    let mut url = build_kiro_management_service_url(region).concat(
        "/getUsageLimits?isEmailRequired=true&origin=AI_EDITOR",
    );
    let ghost base = url@;
    if let Some(arn) = profile_arn {
        if !blank(arn) {
            url.append("&profileArn=");
            url.append(percent_encode(arn.trim()).as_str());
        }
    }
    assert(url@ =~= base + profile_parameter(opt_str_view(profile_arn)));
    url.append("&resourceType=AGENTIC_REQUEST");
    url
}

/// A character that can stand in a percent-encoded text.
pub open spec fn is_query_char(c: char) -> bool {
    (c < '\u{80}' && is_unreserved(c as u8)) || c == '%'
}

/// A percent-encoded text holds unreserved characters and `%` only. So nothing in a
/// profile name can end the parameter that it stands in, nor add another one.
pub proof fn percent_encoded_text_stays_in_its_parameter(bytes: Seq<u8>)
    ensures
        forall|i: int|
            0 <= i < percent_encoded(bytes).len() ==> is_query_char(
                #[trigger] percent_encoded(bytes)[i],
            ),
        !percent_encoded(bytes).contains('&'),
        !percent_encoded(bytes).contains('='),
        !percent_encoded(bytes).contains('#'),
        !percent_encoded(bytes).contains('+'),
    decreases bytes.len(),
{
    if bytes.len() > 0 {
        percent_encoded_text_stays_in_its_parameter(bytes.drop_last());
        let b = bytes.last();
        assert forall|i: int| 0 <= i < percent_byte(b).len() implies is_query_char(
            #[trigger] percent_byte(b)[i],
        ) by {}
    }
}

proof fn lemma_percent_encoded_first(bytes: Seq<u8>)
    requires
        bytes.len() > 0,
    ensures
        percent_encoded(bytes) == percent_byte(bytes.first()) + percent_encoded(bytes.drop_first()),
    decreases bytes.len(),
{
    if bytes.len() == 1 {
        assert(percent_encoded(bytes.drop_last()) =~= Seq::empty());
        assert(percent_encoded(bytes.drop_first()) =~= Seq::empty());
        assert(percent_encoded(bytes) =~= percent_byte(bytes.first()) + Seq::empty());
    } else {
        lemma_percent_encoded_first(bytes.drop_last());
        assert(bytes.drop_last().drop_first() =~= bytes.drop_first().drop_last());
        assert(percent_encoded(bytes) =~= percent_byte(bytes.first()) + percent_encoded(
            bytes.drop_first(),
        ));
    }
}

proof fn lemma_percent_byte_injective(a: u8, b: u8, s: Seq<char>, t: Seq<char>)
    requires
        percent_byte(a) + s == percent_byte(b) + t,
    ensures
        a == b,
        s == t,
{
    let x = percent_byte(a) + s;
    let y = percent_byte(b) + t;
    assert(x[0] == y[0]);
    assert(is_unreserved(a) == is_unreserved(b));
    if !is_unreserved(a) {
        assert(x[1] == y[1] && x[2] == y[2]);
    }
    assert(a == b);
    assert(s =~= x.skip(percent_byte(a).len() as int));
    assert(t =~= y.skip(percent_byte(b).len() as int));
}

/// Percent-encoding loses nothing: two sequences of bytes that are written alike are alike.
pub proof fn percent_encoding_tells_bytes_apart(a: Seq<u8>, b: Seq<u8>)
    requires
        percent_encoded(a) == percent_encoded(b),
    ensures
        a == b,
    decreases a.len(),
{
    if a.len() > 0 {
        lemma_percent_encoded_first(a);
    }
    if b.len() > 0 {
        lemma_percent_encoded_first(b);
    }
    if a.len() == 0 || b.len() == 0 {
        assert(a.len() > 0 ==> percent_encoded(a).len() > 0);
        assert(b.len() > 0 ==> percent_encoded(b).len() > 0);
        assert(a =~= b);
    } else {
        lemma_percent_byte_injective(
            a.first(),
            b.first(),
            percent_encoded(a.drop_first()),
            percent_encoded(b.drop_first()),
        );
        percent_encoding_tells_bytes_apart(a.drop_first(), b.drop_first());
        assert(a =~= seq![a.first()] + a.drop_first());
        assert(b =~= seq![b.first()] + b.drop_first());
    }
}

/// The address of a quota query tells which profile it is about: in one region, two
/// profiles that are not blank have the same address only where they are the same, the
/// white space round them aside.
pub proof fn usage_limits_url_tells_the_profile(region: Seq<char>, a: Seq<char>, b: Seq<char>)
    requires
        usage_limits_url(region, Some(a)) == usage_limits_url(region, Some(b)),
        !is_blank(a),
        !is_blank(b),
    ensures
        trimmed(a) == trimmed(b),
{
    let front = service_url(management_host(region))
        + "/getUsageLimits?isEmailRequired=true&origin=AI_EDITOR"@;
    let back = "&resourceType=AGENTIC_REQUEST"@;
    let name = "&profileArn="@;
    let x = percent_encoded(encode_utf8(trimmed(a)));
    let y = percent_encoded(encode_utf8(trimmed(b)));
    let u = usage_limits_url(region, Some(a));
    let n = (front + name).len() as int;
    assert(u.len() == n + x.len() + back.len());
    assert(u.len() == n + y.len() + back.len());
    assert(x =~= u.subrange(n, u.len() - back.len()));
    assert(y =~= usage_limits_url(region, Some(b)).subrange(n, u.len() - back.len()));
    percent_encoding_tells_bytes_apart(encode_utf8(trimmed(a)), encode_utf8(trimmed(b)));
    encode_utf8_decode_utf8(trimmed(a));
    encode_utf8_decode_utf8(trimmed(b));
}

/// The services of a region are reached at hosts that name the service and the region, over
/// TLS, and each operation of the runtime service at a path of its own.
pub proof fn services_are_reached_in_their_region(
    region: &str,
    runtime: String,
    service: String,
    response: String,
    mcp: String,
    host: String,
    management: String,
)
    requires
        call_ensures(build_kiro_runtime_host, (region,), runtime),
        call_ensures(build_kiro_runtime_service_url, (region,), service),
        call_ensures(build_generate_assistant_response_url, (region,), response),
        call_ensures(build_mcp_url, (region,), mcp),
        call_ensures(build_kiro_management_host, (region,), host),
        call_ensures(build_kiro_management_service_url, (region,), management),
    ensures
        runtime@ == "runtime."@ + region@ + ".kiro.dev"@,
        service@ == "https://runtime."@ + region@ + ".kiro.dev"@,
        response@ == "https://runtime."@ + region@ + ".kiro.dev/generateAssistantResponse"@,
        mcp@ == "https://runtime."@ + region@ + ".kiro.dev/mcp"@,
        host@ == "management."@ + region@ + ".kiro.dev"@,
        management@ == "https://management."@ + region@ + ".kiro.dev"@,
{
    reveal_strlit("https://");
    reveal_strlit("runtime.");
    reveal_strlit("management.");
    reveal_strlit(".kiro.dev");
    reveal_strlit("/mcp");
    reveal_strlit("/generateAssistantResponse");
    reveal_strlit("https://runtime.");
    reveal_strlit("https://management.");
    reveal_strlit(".kiro.dev/mcp");
    reveal_strlit(".kiro.dev/generateAssistantResponse");
    assert("https://"@ + "runtime."@ =~= "https://runtime."@);
    assert("https://"@ + "management."@ =~= "https://management."@);
    assert(".kiro.dev"@ + "/mcp"@ =~= ".kiro.dev/mcp"@);
    assert(".kiro.dev"@ + "/generateAssistantResponse"@
        =~= ".kiro.dev/generateAssistantResponse"@);
    assert(service@ =~= ("https://"@ + "runtime."@) + region@ + ".kiro.dev"@);
    assert(response@ =~= ("https://"@ + "runtime."@) + region@ + (".kiro.dev"@
        + "/generateAssistantResponse"@));
    assert(mcp@ =~= ("https://"@ + "runtime."@) + region@ + (".kiro.dev"@ + "/mcp"@));
    assert(management@ =~= ("https://"@ + "management."@) + region@ + ".kiro.dev"@);
}

/// A quota query is the same for every account of a region but for the profile. A profile
/// that is missing or blank adds nothing; any other one adds one parameter, with its name
/// percent-encoded and without the white space round it.
pub proof fn quota_query_differs_in_the_profile_alone(
    region: &str,
    profile_arn: Option<&str>,
    r: String,
)
    requires
        call_ensures(build_get_usage_limits_url, (region, profile_arn), r),
    ensures
        ({
            let front = "https://management."@ + region@
                + ".kiro.dev/getUsageLimits?isEmailRequired=true&origin=AI_EDITOR"@;
            let back = "&resourceType=AGENTIC_REQUEST"@;
            &&& profile_arn is None || is_blank(profile_arn->0@) ==> r@ == front + back
            &&& profile_arn is Some && !is_blank(profile_arn->0@) ==> r@ == front + "&profileArn="@
                + percent_encoded(encode_utf8(trimmed(profile_arn->0@))) + back
        }),
{
    reveal_strlit("https://");
    reveal_strlit("management.");
    reveal_strlit(".kiro.dev");
    reveal_strlit("/getUsageLimits?isEmailRequired=true&origin=AI_EDITOR");
    reveal_strlit("https://management.");
    reveal_strlit(".kiro.dev/getUsageLimits?isEmailRequired=true&origin=AI_EDITOR");
    assert("https://"@ + "management."@ =~= "https://management."@);
    assert(".kiro.dev"@ + "/getUsageLimits?isEmailRequired=true&origin=AI_EDITOR"@
        =~= ".kiro.dev/getUsageLimits?isEmailRequired=true&origin=AI_EDITOR"@);
    let front = ("https://"@ + "management."@) + region@ + (".kiro.dev"@
        + "/getUsageLimits?isEmailRequired=true&origin=AI_EDITOR"@);
    let back = "&resourceType=AGENTIC_REQUEST"@;
    let middle = profile_parameter(opt_str_view(profile_arn));
    assert(r@ =~= front + middle + back);
    if profile_arn is None || is_blank(profile_arn->0@) {
        assert(r@ =~= front + back);
    } else {
        assert(r@ =~= front + "&profileArn="@ + percent_encoded(
            encode_utf8(trimmed(profile_arn->0@)),
        ) + back);
    }
}

/// Percent-encoding is done byte by byte: what two pieces become is what each becomes, one
/// behind the other; a letter, a digit and each of `-`, `.`, `_` and `~` stays, and any other
/// byte becomes `%` and two characters that are digits or letters from `A` to `F`.
pub proof fn percent_encoding_goes_byte_by_byte(a: Seq<u8>, b: Seq<u8>, byte: u8)
    ensures
        percent_encoded(a + b) == percent_encoded(a) + percent_encoded(b),
        ({
            let c = byte as char;
            let text = percent_encoded(seq![byte]);
            let kept = {
                ||| 'a' <= c <= 'z'
                ||| 'A' <= c <= 'Z'
                ||| '0' <= c <= '9'
                ||| c == '-'
                ||| c == '.'
                ||| c == '_'
                ||| c == '~'
            };
            &&& kept ==> text == seq![c]
            &&& !kept ==> {
                &&& text.len() == 3
                &&& text[0] == '%'
                &&& '0' <= text[1] <= '9' || 'A' <= text[1] <= 'F'
                &&& '0' <= text[2] <= '9' || 'A' <= text[2] <= 'F'
            }
        }),
    decreases b.len(),
{
    assert(percent_encoded(Seq::<u8>::empty()) =~= Seq::empty());
    assert(seq![byte].drop_last() =~= Seq::empty());
    assert(percent_encoded(seq![byte]) =~= percent_byte(byte));
    if b.len() == 0 {
        assert(a + b =~= a);
        assert(percent_encoded(a) + percent_encoded(b) =~= percent_encoded(a));
    } else {
        percent_encoding_goes_byte_by_byte(a, b.drop_last(), byte);
        assert((a + b).drop_last() =~= a + b.drop_last());
        assert((a + b).last() == b.last());
        assert(percent_encoded(a + b) =~= percent_encoded(a) + percent_encoded(b));
    }
}

} // verus!
