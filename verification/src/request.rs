//! The requests to the management service.
use crate::endpoint::{
    build_get_usage_limits_url, build_kiro_management_host, build_kiro_management_service_url,
    management_host, service_url, usage_limits_url,
};
use crate::json::{empty_object, json_of, member_of, set_member, text_value, Json};
use crate::list::views;
use crate::text::{blank, contains_text, is_blank, occurs_at, opt_str_view};
use vstd::prelude::*;

verus! {

/// The method of a request.
#[derive(Clone, Copy, Debug, PartialEq, Eq, Structural)]
pub enum Method {
    Get,
    Post,
}

/// A header of a request.
pub struct Header {
    pub name: String,
    pub value: String,
}

impl View for Header {
    type V = (Seq<char>, Seq<char>);

    open spec fn view(&self) -> (Seq<char>, Seq<char>) {
        (self.name@, self.value@)
    }
}

/// A request that is ready to be sent.
pub struct ApiRequest {
    pub method: Method,
    pub url: String,
    /// The headers, in the order in which they were added.
    pub headers: Vec<Header>,
    /// The value that is sent as JSON.
    pub body: Option<serde_json::Value>,
}

#[verifier::ext_equal]
pub struct RequestView {
    pub method: Method,
    pub url: Seq<char>,
    pub headers: Seq<(Seq<char>, Seq<char>)>,
    pub body: Option<Json>,
}

impl View for ApiRequest {
    type V = RequestView;

    open spec fn view(&self) -> RequestView {
        RequestView {
            method: self.method,
            url: self.url@,
            headers: views(self.headers@),
            body: match self.body {
                Some(value) => Some(json_of(value)),
                None => None,
            },
        }
    }
}

impl RequestView {
    /// A request without headers and body.
    pub open spec fn bare(method: Method, url: Seq<char>) -> RequestView {
        RequestView { method, url, headers: Seq::empty(), body: None }
    }

    /// The request with more headers behind its own.
    pub open spec fn with_headers(self, headers: Seq<(Seq<char>, Seq<char>)>) -> RequestView {
        RequestView { headers: self.headers + headers, ..self }
    }

    /// The request with a value to send as JSON.
    pub open spec fn with_json(self, body: Json) -> RequestView {
        RequestView { body: Some(body), ..self }
    }
}

impl ApiRequest {
    fn bare(method: Method, url: String) -> (r: ApiRequest)
        ensures
            r@ == RequestView::bare(method, url@),
            r.body is None,
    {
        let r = ApiRequest { method, url, headers: Vec::new(), body: None };
        assert(views(r.headers@) =~= Seq::empty());
        r
    }

    /// A request to read what is at `url`.
    pub fn get(url: &str) -> (r: ApiRequest)
        ensures
            r@ == RequestView::bare(Method::Get, url@),
            r.body is None,
    {
        ApiRequest::bare(Method::Get, url.to_owned())
    }

    /// A request to send to `url`.
    pub fn post(url: &str) -> (r: ApiRequest)
        ensures
            r@ == RequestView::bare(Method::Post, url@),
            r.body is None,
    {
        ApiRequest::bare(Method::Post, url.to_owned())
    }

    /// The request with one more header.
    pub fn header(self, name: &str, value: &str) -> (r: ApiRequest)
        ensures
            r@ == self@.with_headers(seq![(name@, value@)]),
            r.body == self.body,
    {
        let mut headers = self.headers;
        let ghost before = headers@;
        headers.push(Header { name: name.to_owned(), value: value.to_owned() });
        assert(views(headers@) =~= views(before) + seq![(name@, value@)]);
        ApiRequest { method: self.method, url: self.url, headers, body: self.body }
    }

    /// The request with a value to send as JSON.
    pub fn json(self, body: serde_json::Value) -> (r: ApiRequest)
        ensures
            r@ == self@.with_json(json_of(body)),
            r.body == Some(body),
    {
        ApiRequest { method: self.method, url: self.url, headers: self.headers, body: Some(body) }
    }
}

/// What a client says of itself.
pub struct ClientIdentity {
    /// The system and the language that the client runs on, as they stand behind `os/`.
    pub platform: String,
    /// The version of the IDE.
    pub ide_version: String,
    /// What the user agent of the control plane holds in front of the service's name.
    pub control_plane_front: String,
    /// What the user agent of the control plane holds behind the service's name.
    pub control_plane_back: String,
}

/// The user agent of the management service.
pub open spec fn management_user_agent(client: ClientIdentity, machine_id: Seq<char>) -> Seq<char> {
    "aws-sdk-js/1.0.0 ua/2.1 os/"@ + client.platform@
        + " api/codewhispererruntime#1.0.0 m/N,E KiroIDE-"@ + client.ide_version@ + "-"@ + machine_id
}

/// The short user agent of the management service.
pub open spec fn management_x_amz_user_agent(client: ClientIdentity, machine_id: Seq<char>) -> Seq<
    char,
> {
    "aws-sdk-js/1.0.0 KiroIDE-"@ + client.ide_version@ + "-"@ + machine_id
}

/// The user agent of the control plane: it names the service that it speaks to.
pub open spec fn control_plane_user_agent(client: ClientIdentity) -> Seq<char> {
    client.control_plane_front@ + "api/kirocontrolplanebearer#1.0.0"@ + client.control_plane_back@
}

/// Whatever a client says of itself, the user agent of the control plane names the service.
pub proof fn control_plane_user_agent_names_the_service(client: ClientIdentity)
    ensures
        contains_text(control_plane_user_agent(client), "api/kirocontrolplanebearer#1.0.0"@),
{
    let name = "api/kirocontrolplanebearer#1.0.0"@;
    let agent = control_plane_user_agent(client);
    let i = client.control_plane_front@.len() as int;
    assert(agent.subrange(i, i + name.len()) =~= name);
    assert(occurs_at(agent, name, i));
}

/// The user agent of the control plane.
pub fn build_kiro_control_plane_user_agent(client: &ClientIdentity) -> (r: String)
    ensures
        r@ == control_plane_user_agent(*client),
        contains_text(r@, "api/kirocontrolplanebearer#1.0.0"@),
{
    proof {
        control_plane_user_agent_names_the_service(*client);
    }
    client.control_plane_front.clone().concat("api/kirocontrolplanebearer#1.0.0").concat(
        client.control_plane_back.as_str(),
    )
}

/// The user agent of the management service.
pub fn build_kiro_management_user_agent(client: &ClientIdentity, machine_id: &str) -> (r: String)
    ensures
        r@ == management_user_agent(*client, machine_id@),
{
    "aws-sdk-js/1.0.0 ua/2.1 os/".to_owned().concat(client.platform.as_str()).concat(
        " api/codewhispererruntime#1.0.0 m/N,E KiroIDE-",
    ).concat(client.ide_version.as_str()).concat("-").concat(machine_id)
}

/// The short user agent of the management service.
pub fn build_kiro_management_x_amz_user_agent(client: &ClientIdentity, machine_id: &str) -> (r:
    String)
    ensures
        r@ == management_x_amz_user_agent(*client, machine_id@),
{
    "aws-sdk-js/1.0.0 KiroIDE-".to_owned().concat(client.ide_version.as_str()).concat("-").concat(
        machine_id,
    )
}

/// A lower-case hexadecimal digit.
pub open spec fn is_hex_digit(c: char) -> bool {
    '0' <= c <= '9' || 'a' <= c <= 'f'
}

/// The text of a random UUID: lower-case digits in groups of 8, 4, 4, 4 and 12, with the
/// marks of version 4 and of its variant.
pub open spec fn is_random_uuid(s: Seq<char>) -> bool {
    &&& s.len() == 36
    &&& forall|i: int|
        0 <= i < 36 ==> if i == 8 || i == 13 || i == 18 || i == 23 {
            #[trigger] s[i] == '-'
        } else {
            is_hex_digit(s[i])
        }
    &&& s[14] == '4'
    &&& s[19] == '8' || s[19] == '9' || s[19] == 'a' || s[19] == 'b'
}

/// Calls `uuid::Uuid::new_v4` and gives the UUID as text. Which one it is rests on
/// chance; its form does not.
#[verifier::external_body]
pub(crate) fn random_uuid() -> (r: String)
    ensures
        is_random_uuid(r@),
{
    uuid::Uuid::new_v4().to_string()
}

/// The headers of a request to the management service.
pub open spec fn management_headers(
    access_token: Seq<char>,
    client: ClientIdentity,
    machine_id: Seq<char>,
    region: Seq<char>,
    invocation_id: Seq<char>,
) -> Seq<(Seq<char>, Seq<char>)> {
    seq![
        ("Authorization"@, "Bearer "@ + access_token),
        ("host"@, management_host(region)),
        ("user-agent"@, management_user_agent(client, machine_id)),
        ("x-amz-user-agent"@, management_x_amz_user_agent(client, machine_id)),
        ("amz-sdk-invocation-id"@, invocation_id),
        ("amz-sdk-request"@, "attempt=1; max=1"@),
        ("connection"@, "close"@),
    ]
}

/// The headers of a request to the control plane of the management service.
pub open spec fn control_plane_headers(
    access_token: Seq<char>,
    client: ClientIdentity,
    region: Seq<char>,
    invocation_id: Seq<char>,
) -> Seq<(Seq<char>, Seq<char>)> {
    seq![
        ("Authorization"@, "Bearer "@ + access_token),
        ("host"@, management_host(region)),
        ("user-agent"@, control_plane_user_agent(client)),
        ("x-amz-user-agent"@, "aws-sdk-js/1.0.0"@),
        ("amz-sdk-invocation-id"@, invocation_id),
        ("amz-sdk-request"@, "attempt=1; max=3"@),
        ("connection"@, "close"@),
    ]
}

/// The request with the headers of the management service, under the given invocation.
pub fn add_management_headers(
    req: ApiRequest,
    client: &ClientIdentity,
    access_token: &str,
    machine_id: &str,
    region: &str,
    invocation_id: &str,
) -> (r: ApiRequest)
    ensures
        r@ == req@.with_headers(
            management_headers(access_token@, *client, machine_id@, region@, invocation_id@),
        ),
        r.body == req.body,
{
    req.header("Authorization", "Bearer ".to_owned().concat(access_token).as_str()).header(
        "host",
        build_kiro_management_host(region).as_str(),
    ).header("user-agent", build_kiro_management_user_agent(client, machine_id).as_str()).header(
        "x-amz-user-agent",
        build_kiro_management_x_amz_user_agent(client, machine_id).as_str(),
    ).header("amz-sdk-invocation-id", invocation_id).header(
        "amz-sdk-request",
        "attempt=1; max=1",
    ).header("connection", "close")
}

/// The request with the headers of the control plane, under the given invocation.
pub fn add_control_plane_headers(
    req: ApiRequest,
    client: &ClientIdentity,
    access_token: &str,
    region: &str,
    invocation_id: &str,
) -> (r: ApiRequest)
    ensures
        r@ == req@.with_headers(
            control_plane_headers(access_token@, *client, region@, invocation_id@),
        ),
        r.body == req.body,
{
    req.header("Authorization", "Bearer ".to_owned().concat(access_token).as_str()).header(
        "host",
        build_kiro_management_host(region).as_str(),
    ).header("user-agent", build_kiro_control_plane_user_agent(client).as_str()).header(
        "x-amz-user-agent",
        "aws-sdk-js/1.0.0",
    ).header("amz-sdk-invocation-id", invocation_id).header(
        "amz-sdk-request",
        "attempt=1; max=3",
    ).header("connection", "close")
}

/// The request with the headers of the management service, under a new invocation.
pub fn with_kiro_runtime_management_headers(
    req: ApiRequest,
    client: &ClientIdentity,
    access_token: &str,
    machine_id: &str,
    region: &str,
) -> (r: ApiRequest)
    ensures
        exists|id: Seq<char>|
            #[trigger] is_random_uuid(id) && r@ == req@.with_headers(
                management_headers(access_token@, *client, machine_id@, region@, id),
            ),
        r.body == req.body,
{
    let id = random_uuid();
    add_management_headers(req, client, access_token, machine_id, region, id.as_str())
}

/// The request with the headers of the control plane, under a new invocation.
pub fn with_kiro_control_plane_headers(
    req: ApiRequest,
    client: &ClientIdentity,
    access_token: &str,
    region: &str,
) -> (r: ApiRequest)
    ensures
        exists|id: Seq<char>|
            #[trigger] is_random_uuid(id) && r@ == req@.with_headers(
                control_plane_headers(access_token@, *client, region@, id),
            ),
        exists|i: int|
            0 <= i < r@.headers.len() && (#[trigger] r@.headers[i]).0 == "user-agent"@
                && contains_text(r@.headers[i].1, "api/kirocontrolplanebearer#1.0.0"@),
        r.body == req.body,
{
    proof {
        control_plane_user_agent_names_the_service(*client);
    }
    let ghost before = req@.headers.len() as int;
    let id = random_uuid();
    let req = add_control_plane_headers(req, client, access_token, region, id.as_str());
    assert(req@.headers[before + 2] == ("user-agent"@, control_plane_user_agent(*client)));
    req
}

/// An object with one more member for a profile that is not blank.
pub open spec fn with_profile(
    members: Map<Seq<char>, Json>,
    profile_arn: Option<Seq<char>>,
) -> Json {
    match profile_arn {
        Some(arn) => if is_blank(arn) {
            Json::Object(members)
        } else {
            Json::Object(members.insert("profileArn"@, Json::Text(arn)))
        },
        None => Json::Object(members),
    }
}

fn set_profile(object: &mut serde_json::Value, profile_arn: Option<&str>)
    requires
        json_of(*old(object)) is Object,
    ensures
        json_of(*final(object)) == with_profile(
            json_of(*old(object))->Object_0,
            opt_str_view(profile_arn),
        ),
{
    if let Some(arn) = profile_arn {
        if !blank(arn) {
            set_member(object, "profileArn", text_value(arn));
        }
    }
}

/// What is sent to list the models.
pub open spec fn list_models_body(profile_arn: Option<Seq<char>>) -> Json {
    with_profile(Map::empty().insert("origin"@, Json::Text("AI_EDITOR"@)), profile_arn)
}

/// What is sent to list the models. A profile that is blank is not named.
pub fn build_list_available_models_body(profile_arn: Option<&str>) -> (r: serde_json::Value)
    ensures
        json_of(r) == list_models_body(opt_str_view(profile_arn)),
{
    let mut body = empty_object();
    set_member(&mut body, "origin", text_value("AI_EDITOR"));
    set_profile(&mut body, profile_arn);
    body
}

/// What is sent to list the profiles: an object without members.
pub fn build_list_available_profiles_body() -> (r: serde_json::Value)
    ensures
        json_of(r) == Json::Object(Map::empty()),
{
    empty_object()
}

/// What is sent to turn the overage on or off.
pub open spec fn preference_body(profile_arn: Option<Seq<char>>, overage_status: Seq<char>) -> Json {
    with_profile(
        Map::empty().insert(
            "overageConfiguration"@,
            Json::Object(Map::empty().insert("overageStatus"@, Json::Text(overage_status))),
        ),
        profile_arn,
    )
}

/// What is sent to turn the overage on or off. A profile that is blank is not named.
pub fn build_set_user_preference_body(profile_arn: Option<&str>, overage_status: &str) -> (r:
    serde_json::Value)
    ensures
        json_of(r) == preference_body(opt_str_view(profile_arn), overage_status@),
{
    let mut overage = empty_object();
    set_member(&mut overage, "overageStatus", text_value(overage_status));
    let mut body = empty_object();
    set_member(&mut body, "overageConfiguration", overage);
    set_profile(&mut body, profile_arn);
    body
}

/// The request for the quota of an account. A profile that is blank, or none, is not
/// named: the service refuses a quota query of an enterprise account that names one.
pub fn get_usage_limits_request(
    client: &ClientIdentity,
    access_token: &str,
    machine_id: &str,
    region: &str,
    profile_arn: Option<&str>,
) -> (r: ApiRequest)
    ensures
        exists|id: Seq<char>|
            #[trigger] is_random_uuid(id) && r@ == RequestView::bare(
                Method::Get,
                usage_limits_url(region@, opt_str_view(profile_arn)),
            ).with_headers(management_headers(access_token@, *client, machine_id@, region@, id)).with_headers(
                seq![("accept"@, "application/json"@)],
            ),
{
    let url = build_get_usage_limits_url(region, profile_arn);
    with_kiro_runtime_management_headers(
        ApiRequest::get(url.as_str()),
        client,
        access_token,
        machine_id,
        region,
    ).header("accept", "application/json")
}

/// The headers that name an operation of the control plane.
pub open spec fn operation_headers(target: Seq<char>) -> Seq<(Seq<char>, Seq<char>)> {
    seq![("content-type"@, "application/x-amz-json-1.0"@), ("x-amz-target"@, target)]
}

fn control_plane_request(
    client: &ClientIdentity,
    access_token: &str,
    region: &str,
    target: &str,
    body: serde_json::Value,
) -> (r: ApiRequest)
    ensures
        exists|id: Seq<char>|
            #[trigger] is_random_uuid(id) && r@ == RequestView::bare(
                Method::Post,
                service_url(management_host(region@)),
            ).with_headers(
                control_plane_headers(access_token@, *client, region@, id),
            ).with_headers(operation_headers(target@)).with_json(json_of(body)),
{
    let url = build_kiro_management_service_url(region);
    let req = with_kiro_control_plane_headers(
        ApiRequest::post(url.as_str()),
        client,
        access_token,
        region,
    );
    let ghost before = req@;
    let req = req.header("content-type", "application/x-amz-json-1.0").header(
        "x-amz-target",
        target,
    ).json(body);
    assert(req@ =~= before.with_headers(operation_headers(target@)).with_json(json_of(body)));
    req
}

/// The request for the models that a profile can use.
pub fn list_available_models_request(
    client: &ClientIdentity,
    access_token: &str,
    region: &str,
    profile_arn: Option<&str>,
) -> (r: ApiRequest)
    ensures
        exists|id: Seq<char>|
            #[trigger] is_random_uuid(id) && r@ == RequestView::bare(
                Method::Post,
                service_url(management_host(region@)),
            ).with_headers(
                control_plane_headers(access_token@, *client, region@, id),
            ).with_headers(
                operation_headers("KiroControlPlaneBearerService.ListAvailableModels"@),
            ).with_json(list_models_body(opt_str_view(profile_arn))),
{
    control_plane_request(
        client,
        access_token,
        region,
        "KiroControlPlaneBearerService.ListAvailableModels",
        build_list_available_models_body(profile_arn),
    )
}

/// The request for the profiles of an account.
pub fn list_available_profiles_request(client: &ClientIdentity, access_token: &str, region: &str) -> (r:
    ApiRequest)
    ensures
        exists|id: Seq<char>|
            #[trigger] is_random_uuid(id) && r@ == RequestView::bare(
                Method::Post,
                service_url(management_host(region@)),
            ).with_headers(
                control_plane_headers(access_token@, *client, region@, id),
            ).with_headers(
                operation_headers("KiroControlPlaneBearerService.ListAvailableProfiles"@),
            ).with_json(Json::Object(Map::empty())),
{
    control_plane_request(
        client,
        access_token,
        region,
        "KiroControlPlaneBearerService.ListAvailableProfiles",
        build_list_available_profiles_body(),
    )
}

/// The request for what is at `path` of the management service.
pub fn get_management_api_request(
    client: &ClientIdentity,
    access_token: &str,
    machine_id: &str,
    region: &str,
    path: &str,
) -> (r: ApiRequest)
    ensures
        exists|id: Seq<char>|
            #[trigger] is_random_uuid(id) && r@ == RequestView::bare(
                Method::Get,
                service_url(management_host(region@)) + path@,
            ).with_headers(management_headers(access_token@, *client, machine_id@, region@, id)).with_headers(
                seq![("accept"@, "application/json"@)],
            ),
{
    let url = build_kiro_management_service_url(region).concat(path);
    with_kiro_runtime_management_headers(
        ApiRequest::get(url.as_str()),
        client,
        access_token,
        machine_id,
        region,
    ).header("accept", "application/json")
}

/// The request to turn the overage of an account on or off.
pub fn set_user_preference_request(
    client: &ClientIdentity,
    access_token: &str,
    machine_id: &str,
    region: &str,
    profile_arn: Option<&str>,
    overage_status: &str,
) -> (r: ApiRequest)
    ensures
        exists|id: Seq<char>|
            #[trigger] is_random_uuid(id) && r@ == RequestView::bare(
                Method::Post,
                service_url(management_host(region@)) + "/setUserPreference"@,
            ).with_headers(management_headers(access_token@, *client, machine_id@, region@, id)).with_headers(
                seq![("content-type"@, "application/json"@)],
            ).with_json(preference_body(opt_str_view(profile_arn), overage_status@)),
{
    let url = build_kiro_management_service_url(region).concat("/setUserPreference");
    with_kiro_runtime_management_headers(
        ApiRequest::post(url.as_str()),
        client,
        access_token,
        machine_id,
        region,
    ).header("content-type", "application/json").json(
        build_set_user_preference_body(profile_arn, overage_status),
    )
}

/// A request to the management service speaks for the owner of the access token, to the host
/// of the region, as the IDE of its version on its machine, once, under its invocation, and
/// for one exchange; what the request had is kept.
pub proof fn management_headers_say_who_asks(
    req: ApiRequest,
    client: &ClientIdentity,
    access_token: &str,
    machine_id: &str,
    region: &str,
    invocation_id: &str,
    r: ApiRequest,
)
    requires
        call_ensures(
            add_management_headers,
            (req, client, access_token, machine_id, region, invocation_id),
            r,
        ),
    ensures
        r@.method == req@.method,
        r@.url == req@.url,
        r@.body == req@.body,
        r@.headers.len() == req@.headers.len() + 7,
        req@.headers.is_prefix_of(r@.headers),
        r@.headers.contains(("Authorization"@, "Bearer "@ + access_token@)),
        r@.headers.contains(("host"@, "management."@ + region@ + ".kiro.dev"@)),
        r@.headers.contains(
            (
                "user-agent"@,
                "aws-sdk-js/1.0.0 ua/2.1 os/"@ + client.platform@
                    + " api/codewhispererruntime#1.0.0 m/N,E KiroIDE-"@ + client.ide_version@ + "-"@
                    + machine_id@,
            ),
        ),
        r@.headers.contains(
            (
                "x-amz-user-agent"@,
                "aws-sdk-js/1.0.0 KiroIDE-"@ + client.ide_version@ + "-"@ + machine_id@,
            ),
        ),
        r@.headers.contains(("amz-sdk-invocation-id"@, invocation_id@)),
        r@.headers.contains(("amz-sdk-request"@, "attempt=1; max=1"@)),
        r@.headers.contains(("connection"@, "close"@)),
{
    let n = req@.headers.len() as int;
    assert(req@.headers =~= r@.headers.take(n));
    assert(r@.headers[n].0 == "Authorization"@);
    assert(r@.headers[n + 1].0 == "host"@);
    assert(r@.headers[n + 2].0 == "user-agent"@);
    assert(r@.headers[n + 3].0 == "x-amz-user-agent"@);
    assert(r@.headers[n + 4].0 == "amz-sdk-invocation-id"@);
    assert(r@.headers[n + 5].0 == "amz-sdk-request"@);
    assert(r@.headers[n + 6].0 == "connection"@);
}

/// A request to the control plane speaks for the owner of the access token, to the host of
/// the region, as a client that names the service, under its invocation, and for one
/// exchange that may be tried three times; what the request had is kept.
pub proof fn control_plane_headers_say_who_asks(
    req: ApiRequest,
    client: &ClientIdentity,
    access_token: &str,
    region: &str,
    invocation_id: &str,
    r: ApiRequest,
)
    requires
        call_ensures(
            add_control_plane_headers,
            (req, client, access_token, region, invocation_id),
            r,
        ),
    ensures
        r@.method == req@.method,
        r@.url == req@.url,
        r@.body == req@.body,
        r@.headers.len() == req@.headers.len() + 7,
        req@.headers.is_prefix_of(r@.headers),
        r@.headers.contains(("Authorization"@, "Bearer "@ + access_token@)),
        r@.headers.contains(("host"@, "management."@ + region@ + ".kiro.dev"@)),
        r@.headers.contains(
            (
                "user-agent"@,
                client.control_plane_front@ + "api/kirocontrolplanebearer#1.0.0"@
                    + client.control_plane_back@,
            ),
        ),
        r@.headers.contains(("x-amz-user-agent"@, "aws-sdk-js/1.0.0"@)),
        r@.headers.contains(("amz-sdk-invocation-id"@, invocation_id@)),
        r@.headers.contains(("amz-sdk-request"@, "attempt=1; max=3"@)),
        r@.headers.contains(("connection"@, "close"@)),
{
    let n = req@.headers.len() as int;
    assert(req@.headers =~= r@.headers.take(n));
    assert(r@.headers[n].0 == "Authorization"@);
    assert(r@.headers[n + 1].0 == "host"@);
    assert(r@.headers[n + 2].0 == "user-agent"@);
    assert(r@.headers[n + 3].0 == "x-amz-user-agent"@);
    assert(r@.headers[n + 4].0 == "amz-sdk-invocation-id"@);
    assert(r@.headers[n + 5].0 == "amz-sdk-request"@);
    assert(r@.headers[n + 6].0 == "connection"@);
}

/// What is sent to list the models names the origin, and the profile as it was given where
/// that is not blank; what is sent to list the profiles names nothing.
pub proof fn listings_name_the_origin_and_the_profile(
    profile_arn: Option<&str>,
    models: serde_json::Value,
    profiles: serde_json::Value,
)
    requires
        call_ensures(build_list_available_models_body, (profile_arn,), models),
        call_ensures(build_list_available_profiles_body, (), profiles),
    ensures
        json_of(models) is Object,
        member_of(json_of(models), "origin"@) == Some(Json::Text("AI_EDITOR"@)),
        profile_arn is None || is_blank(profile_arn->0@) ==> member_of(
            json_of(models),
            "profileArn"@,
        ) is None,
        profile_arn is Some && !is_blank(profile_arn->0@) ==> member_of(
            json_of(models),
            "profileArn"@,
        ) == Some(Json::Text(profile_arn->0@)),
        forall|key: Seq<char>|
            key != "origin"@ && key != "profileArn"@ ==> #[trigger] member_of(
                json_of(models),
                key,
            ) is None,
        json_of(profiles) is Object,
        forall|key: Seq<char>| #[trigger] member_of(json_of(profiles), key) is None,
{
    reveal_strlit("origin");
    reveal_strlit("profileArn");
    assert("origin"@.len() != "profileArn"@.len());
}

/// What is sent to turn the overage on or off holds the status that it is to have, and the
/// profile as it was given where that is not blank.
pub proof fn preference_holds_the_overage_and_the_profile(
    profile_arn: Option<&str>,
    overage_status: &str,
    r: serde_json::Value,
)
    requires
        call_ensures(build_set_user_preference_body, (profile_arn, overage_status), r),
    ensures
        ({
            let overage = member_of(json_of(r), "overageConfiguration"@);
            &&& json_of(r) is Object
            &&& overage is Some && overage->0 is Object
            &&& member_of(overage->0, "overageStatus"@) == Some(Json::Text(overage_status@))
            &&& forall|key: Seq<char>|
                key != "overageStatus"@ ==> #[trigger] member_of(overage->0, key) is None
            &&& profile_arn is None || is_blank(profile_arn->0@) ==> member_of(
                json_of(r),
                "profileArn"@,
            ) is None
            &&& profile_arn is Some && !is_blank(profile_arn->0@) ==> member_of(
                json_of(r),
                "profileArn"@,
            ) == Some(Json::Text(profile_arn->0@))
            &&& forall|key: Seq<char>|
                key != "overageConfiguration"@ && key != "profileArn"@ ==> #[trigger] member_of(
                    json_of(r),
                    key,
                ) is None
        }),
{
    reveal_strlit("overageConfiguration");
    reveal_strlit("profileArn");
    assert("overageConfiguration"@.len() != "profileArn"@.len());
}

/// The quota query and any other reading from the management service are requests of their
/// address without a body that speak for the owner of the access token, to the host of the
/// region, from the machine, under an invocation of their own, and accept JSON.
pub proof fn readings_speak_for_the_account(
    client: &ClientIdentity,
    access_token: &str,
    machine_id: &str,
    region: &str,
    profile_arn: Option<&str>,
    path: &str,
    url: String,
    usage: ApiRequest,
    other: ApiRequest,
)
    requires
        call_ensures(build_get_usage_limits_url, (region, profile_arn), url),
        call_ensures(
            get_usage_limits_request,
            (client, access_token, machine_id, region, profile_arn),
            usage,
        ),
        call_ensures(
            get_management_api_request,
            (client, access_token, machine_id, region, path),
            other,
        ),
    ensures
        usage@.url == url@,
        other@.url == "https://management."@ + region@ + ".kiro.dev"@ + path@,
        forall|r: ApiRequest|
            r == usage || r == other ==> {
                &&& (#[trigger] r@).method is Get
                &&& r@.body is None
                &&& r@.headers.len() == 8
                &&& r@.headers[0] == ("Authorization"@, "Bearer "@ + access_token@)
                &&& r@.headers[1] == ("host"@, "management."@ + region@ + ".kiro.dev"@)
                &&& r@.headers[2].0 == "user-agent"@
                &&& r@.headers[2].1 == "aws-sdk-js/1.0.0 ua/2.1 os/"@ + client.platform@
                    + " api/codewhispererruntime#1.0.0 m/N,E KiroIDE-"@ + client.ide_version@ + "-"@
                    + machine_id@
                &&& r@.headers[4].0 == "amz-sdk-invocation-id"@
                &&& is_random_uuid(r@.headers[4].1)
                &&& r@.headers[7] == ("accept"@, "application/json"@)
            },
{
    reveal_strlit("https://");
    reveal_strlit("management.");
    reveal_strlit("https://management.");
    assert("https://"@ + "management."@ =~= "https://management."@);
    assert(other@.url =~= ("https://"@ + "management."@) + region@ + ".kiro.dev"@ + path@);
}

/// The models and the profiles are listed by requests that are sent to the address of the
/// management service, speak for the owner of the access token, under an invocation of their
/// own, name their operation of the control plane, and carry what that operation is sent.
pub proof fn listings_name_their_operation(
    client: &ClientIdentity,
    access_token: &str,
    region: &str,
    profile_arn: Option<&str>,
    models_body: serde_json::Value,
    profiles_body: serde_json::Value,
    models: ApiRequest,
    profiles: ApiRequest,
)
    requires
        call_ensures(build_list_available_models_body, (profile_arn,), models_body),
        call_ensures(build_list_available_profiles_body, (), profiles_body),
        call_ensures(
            list_available_models_request,
            (client, access_token, region, profile_arn),
            models,
        ),
        call_ensures(list_available_profiles_request, (client, access_token, region), profiles),
    ensures
        models@.body == Some(json_of(models_body)),
        profiles@.body == Some(json_of(profiles_body)),
        models@.headers[8] == ("x-amz-target"@, "KiroControlPlaneBearerService.ListAvailableModels"@),
        profiles@.headers[8] == (
            "x-amz-target"@,
            "KiroControlPlaneBearerService.ListAvailableProfiles"@,
        ),
        forall|r: ApiRequest|
            r == models || r == profiles ==> {
                &&& (#[trigger] r@).method is Post
                &&& r@.url == "https://management."@ + region@ + ".kiro.dev"@
                &&& r@.headers.len() == 9
                &&& r@.headers[0] == ("Authorization"@, "Bearer "@ + access_token@)
                &&& r@.headers[1] == ("host"@, "management."@ + region@ + ".kiro.dev"@)
                &&& r@.headers[2].0 == "user-agent"@
                &&& r@.headers[2].1 == client.control_plane_front@
                    + "api/kirocontrolplanebearer#1.0.0"@ + client.control_plane_back@
                &&& r@.headers[4].0 == "amz-sdk-invocation-id"@
                &&& is_random_uuid(r@.headers[4].1)
                &&& r@.headers[7] == ("content-type"@, "application/x-amz-json-1.0"@)
            },
{
    reveal_strlit("https://");
    reveal_strlit("management.");
    reveal_strlit("https://management.");
    assert("https://"@ + "management."@ =~= "https://management."@);
    assert(models@.url =~= ("https://"@ + "management."@) + region@ + ".kiro.dev"@);
    assert(profiles@.url =~= ("https://"@ + "management."@) + region@ + ".kiro.dev"@);
}

/// The overage is turned on or off by a request that is sent to an address of its own in the
/// region, speaks for the owner of the access token from the machine, under an invocation of
/// its own, and carries the preference as JSON.
pub proof fn preference_is_sent_for_the_account(
    client: &ClientIdentity,
    access_token: &str,
    machine_id: &str,
    region: &str,
    profile_arn: Option<&str>,
    overage_status: &str,
    body: serde_json::Value,
    r: ApiRequest,
)
    requires
        call_ensures(build_set_user_preference_body, (profile_arn, overage_status), body),
        call_ensures(
            set_user_preference_request,
            (client, access_token, machine_id, region, profile_arn, overage_status),
            r,
        ),
    ensures
        r@.method is Post,
        r@.url == "https://management."@ + region@ + ".kiro.dev/setUserPreference"@,
        r@.body == Some(json_of(body)),
        r@.headers.len() == 8,
        r@.headers[0] == ("Authorization"@, "Bearer "@ + access_token@),
        r@.headers[1] == ("host"@, "management."@ + region@ + ".kiro.dev"@),
        r@.headers[2].0 == "user-agent"@,
        r@.headers[2].1 == "aws-sdk-js/1.0.0 ua/2.1 os/"@ + client.platform@
            + " api/codewhispererruntime#1.0.0 m/N,E KiroIDE-"@ + client.ide_version@ + "-"@
            + machine_id@,
        r@.headers[4].0 == "amz-sdk-invocation-id"@,
        is_random_uuid(r@.headers[4].1),
        r@.headers[7] == ("content-type"@, "application/json"@),
{
    reveal_strlit("https://");
    reveal_strlit("management.");
    reveal_strlit("https://management.");
    reveal_strlit(".kiro.dev");
    reveal_strlit("/setUserPreference");
    reveal_strlit(".kiro.dev/setUserPreference");
    assert("https://"@ + "management."@ =~= "https://management."@);
    assert(".kiro.dev"@ + "/setUserPreference"@ =~= ".kiro.dev/setUserPreference"@);
    assert(r@.url =~= ("https://"@ + "management."@) + region@ + (".kiro.dev"@
        + "/setUserPreference"@));
}

/// Headers are added behind those that a request has, and a body in place of the one that it
/// has; nothing else of it changes.
pub proof fn requests_are_built_up(
    url: &str,
    name: &str,
    value: &str,
    body: serde_json::Value,
    req: ApiRequest,
    read: ApiRequest,
    sent: ApiRequest,
    headed: ApiRequest,
    filled: ApiRequest,
)
    requires
        call_ensures(ApiRequest::get, (url,), read),
        call_ensures(ApiRequest::post, (url,), sent),
        call_ensures(ApiRequest::header, (req, name, value), headed),
        call_ensures(ApiRequest::json, (req, body), filled),
    ensures
        read@.method is Get && read@.url == url@ && read@.headers.len() == 0 && read@.body is None,
        sent@.method is Post && sent@.url == url@ && sent@.headers.len() == 0 && sent@.body is None,
        headed@.headers == req@.headers.push((name@, value@)),
        headed@.method == req@.method && headed@.url == req@.url && headed@.body == req@.body,
        filled@.body == Some(json_of(body)),
        filled@.method == req@.method && filled@.url == req@.url && filled@.headers == req@.headers,
{
    assert(headed@.headers =~= req@.headers.push((name@, value@)));
}

} // verus!
