use kiro_switch::failure::{
    classify_kiro_management_error, classify_reply, decimal, preference_request_failed,
    reply_outcome, reply_value, request_failed, success_status, unreadable_reply, ReplyContent,
};
use kiro_switch::json::text_member;
use kiro_switch::region::final_failure;
use kiro_switch::request::{
    add_control_plane_headers, add_management_headers, build_kiro_control_plane_user_agent,
    build_list_available_models_body, build_list_available_profiles_body,
    build_set_user_preference_body, get_management_api_request, get_usage_limits_request, list_available_models_request,
    list_available_profiles_request, set_user_preference_request,
    with_kiro_control_plane_headers, with_kiro_runtime_management_headers, ApiRequest,
    ClientIdentity, Method,
};
use serde_json::Value;

fn client() -> ClientIdentity {
    ClientIdentity {
        platform: "macos#24.5.0 lang/js md/nodejs#22.21.1".to_string(),
        ide_version: "0.12.301".to_string(),
        control_plane_front: "aws-sdk-js/1.0.0 ua/2.1 os/macos#24.5.0 ".to_string(),
        control_plane_back: " m/E".to_string(),
    }
}

fn header<'a>(request: &'a ApiRequest, name: &str) -> Option<&'a str> {
    request
        .headers
        .iter()
        .find(|h| h.name == name)
        .map(|h| h.value.as_str())
}

fn json(text: &str) -> Value {
    serde_json::from_str(text).expect("a JSON value")
}

#[test]
fn builds_list_available_models_body_like_control_plane_capture() {
    assert_eq!(
        build_list_available_models_body(Some(
            "arn:aws:codewhisperer:us-east-1:638616132270:profile/AAAACCCCXXXX"
        )),
        json(
            "{\"origin\": \"AI_EDITOR\", \"profileArn\": \"arn:aws:codewhisperer:us-east-1:638616132270:profile/AAAACCCCXXXX\"}"
        )
    );
    assert_eq!(
        build_list_available_models_body(None),
        json("{\"origin\": \"AI_EDITOR\"}")
    );
}

#[test]
fn builds_list_available_profiles_body_like_control_plane_schema() {
    assert_eq!(build_list_available_profiles_body(), json("{}"));
}

#[test]
fn with_kiro_control_plane_headers_matches_list_available_profiles_capture_shape() {
    let request = with_kiro_control_plane_headers(
        ApiRequest::post("https://management.us-east-1.kiro.dev/"),
        &client(),
        "token-cp",
        "us-east-1",
    )
    .header("content-type", "application/x-amz-json-1.0")
    .header(
        "x-amz-target",
        "KiroControlPlaneBearerService.ListAvailableProfiles",
    )
    .json(build_list_available_profiles_body());

    assert_eq!(request.method, Method::Post);
    assert_eq!(request.url, "https://management.us-east-1.kiro.dev/");
    assert_eq!(
        header(&request, "x-amz-target"),
        Some("KiroControlPlaneBearerService.ListAvailableProfiles")
    );
    assert_eq!(request.body, Some(json("{}")));
}

#[test]
fn with_kiro_runtime_management_headers_uses_kiro_aws_sdk_js_user_agents() {
    let request = with_kiro_runtime_management_headers(
        ApiRequest::get(
            "https://management.eu-central-1.kiro.dev/getUsageLimits?isEmailRequired=true&origin=AI_EDITOR&resourceType=AGENTIC_REQUEST",
        ),
        &client(),
        "token-ua",
        "machine-ua",
        "eu-central-1",
    );

    let user_agent = header(&request, "user-agent").expect("user-agent header");
    let x_amz_user_agent = header(&request, "x-amz-user-agent").expect("x-amz-user-agent header");

    assert!(user_agent.starts_with("aws-sdk-js/1.0.0 ua/2.1 os/"));
    assert!(user_agent.contains(" api/codewhispererruntime#1.0.0 m/N,E KiroIDE-"));
    assert!(user_agent.ends_with("-machine-ua"));
    assert!(x_amz_user_agent.starts_with("aws-sdk-js/1.0.0 KiroIDE-"));
    assert!(x_amz_user_agent.ends_with("-machine-ua"));
    assert_eq!(
        header(&request, "host"),
        Some("management.eu-central-1.kiro.dev")
    );
    assert_eq!(header(&request, "connection"), Some("close"));
}

#[test]
fn with_kiro_control_plane_headers_matches_list_available_models_capture_shape() {
    let request = with_kiro_control_plane_headers(
        ApiRequest::post("https://management.us-east-1.kiro.dev/"),
        &client(),
        "token-cp",
        "us-east-1",
    )
    .header("content-type", "application/x-amz-json-1.0")
    .header(
        "x-amz-target",
        "KiroControlPlaneBearerService.ListAvailableModels",
    );

    assert_eq!(request.method, Method::Post);
    assert_eq!(request.url, "https://management.us-east-1.kiro.dev/");
    assert_eq!(
        header(&request, "host"),
        Some("management.us-east-1.kiro.dev")
    );
    assert_eq!(
        header(&request, "x-amz-target"),
        Some("KiroControlPlaneBearerService.ListAvailableModels")
    );
    assert_eq!(header(&request, "x-amz-user-agent"), Some("aws-sdk-js/1.0.0"));
    assert!(header(&request, "user-agent")
        .is_some_and(|value| value.contains("api/kirocontrolplanebearer#1.0.0")));
    assert_eq!(header(&request, "amz-sdk-request"), Some("attempt=1; max=3"));
}

fn pairs(request: &ApiRequest) -> Vec<(&str, &str)> {
    request
        .headers
        .iter()
        .map(|h| (h.name.as_str(), h.value.as_str()))
        .collect()
}

#[test]
fn management_headers_stand_in_order() {
    let request = add_management_headers(ApiRequest::get("u"), &client(), "t", "m", "r", "id");
    assert_eq!(
        pairs(&request),
        vec![
            ("Authorization", "Bearer t"),
            ("host", "management.r.kiro.dev"),
            (
                "user-agent",
                "aws-sdk-js/1.0.0 ua/2.1 os/macos#24.5.0 lang/js md/nodejs#22.21.1 api/codewhispererruntime#1.0.0 m/N,E KiroIDE-0.12.301-m"
            ),
            ("x-amz-user-agent", "aws-sdk-js/1.0.0 KiroIDE-0.12.301-m"),
            ("amz-sdk-invocation-id", "id"),
            ("amz-sdk-request", "attempt=1; max=1"),
            ("connection", "close"),
        ]
    );
    let request = add_control_plane_headers(ApiRequest::post("u"), &client(), "t", "r", "id");
    assert_eq!(
        pairs(&request),
        vec![
            ("Authorization", "Bearer t"),
            ("host", "management.r.kiro.dev"),
            (
                "user-agent",
                "aws-sdk-js/1.0.0 ua/2.1 os/macos#24.5.0 api/kirocontrolplanebearer#1.0.0 m/E"
            ),
            ("x-amz-user-agent", "aws-sdk-js/1.0.0"),
            ("amz-sdk-invocation-id", "id"),
            ("amz-sdk-request", "attempt=1; max=3"),
            ("connection", "close"),
        ]
    );
}

#[test]
fn every_invocation_has_its_own_uuid() {
    let id = || {
        let request = get_management_api_request(&client(), "t", "m", "r", "/p");
        header(&request, "amz-sdk-invocation-id").unwrap().to_string()
    };
    let (first, second) = (id(), id());
    assert_ne!(first, second);
    assert_eq!(first.len(), 36);
    assert_eq!(first.as_bytes()[14], b'4');
}

#[test]
fn requests_name_their_operations() {
    let request = get_usage_limits_request(&client(), "t", "m", "r", Some("a:b"));
    assert_eq!(request.method, Method::Get);
    assert_eq!(
        request.url,
        "https://management.r.kiro.dev/getUsageLimits?isEmailRequired=true&origin=AI_EDITOR&profileArn=a%3Ab&resourceType=AGENTIC_REQUEST"
    );
    assert_eq!(header(&request, "accept"), Some("application/json"));
    assert_eq!(request.body, None);

    let request = list_available_models_request(&client(), "t", "r", Some("arn"));
    assert_eq!(request.method, Method::Post);
    assert_eq!(request.url, "https://management.r.kiro.dev");
    assert_eq!(header(&request, "content-type"), Some("application/x-amz-json-1.0"));
    assert_eq!(
        header(&request, "x-amz-target"),
        Some("KiroControlPlaneBearerService.ListAvailableModels")
    );
    assert_eq!(
        request.body,
        Some(json("{\"origin\": \"AI_EDITOR\", \"profileArn\": \"arn\"}"))
    );

    let request = list_available_profiles_request(&client(), "t", "r");
    assert_eq!(
        header(&request, "x-amz-target"),
        Some("KiroControlPlaneBearerService.ListAvailableProfiles")
    );
    assert_eq!(request.body, Some(json("{}")));

    let request = get_management_api_request(&client(), "t", "m", "r", "/getAccount");
    assert_eq!(request.method, Method::Get);
    assert_eq!(request.url, "https://management.r.kiro.dev/getAccount");

    let request = set_user_preference_request(&client(), "t", "m", "r", None, "ENABLED");
    assert_eq!(request.method, Method::Post);
    assert_eq!(request.url, "https://management.r.kiro.dev/setUserPreference");
    assert_eq!(header(&request, "content-type"), Some("application/json"));
    assert_eq!(
        request.body,
        Some(json("{\"overageConfiguration\": {\"overageStatus\": \"ENABLED\"}}"))
    );
}

#[test]
fn bodies_leave_a_blank_profile_out_and_keep_another_as_it_is() {
    assert_eq!(
        build_list_available_models_body(Some(" \n")),
        json("{\"origin\": \"AI_EDITOR\"}")
    );
    assert_eq!(
        build_list_available_models_body(Some(" a ")),
        json("{\"origin\": \"AI_EDITOR\", \"profileArn\": \" a \"}")
    );
    assert_eq!(
        build_set_user_preference_body(Some("a"), "DISABLED"),
        json("{\"overageConfiguration\": {\"overageStatus\": \"DISABLED\"}, \"profileArn\": \"a\"}")
    );
}

#[test]
fn text_members_are_strings_of_objects() {
    let value = json("{\"a\": \"x\", \"b\": 1, \"c\": {\"a\": \"y\"}}");
    assert_eq!(text_member(&value, "a"), Some("x"));
    assert_eq!(text_member(&value, "b"), None);
    assert_eq!(text_member(&value, "c"), None);
    assert_eq!(text_member(&value, "d"), None);
    assert_eq!(text_member(&json("\"a\""), "a"), None);
    assert_eq!(text_member(&json("[\"a\"]"), "a"), None);
}

#[test]
fn refusals_are_told_apart() {
    let tell = |status: u16, body: &str| classify_kiro_management_error("api", status, body);
    assert_eq!(tell(401, "b"), "AUTH_ERROR: api 401: b");
    assert_eq!(tell(403, "b"), "AUTH_ERROR: api 403: b");
    assert_eq!(tell(403, ""), "AUTH_ERROR: api 403: ");
    assert_eq!(
        tell(403, "{\"reason\":\"TemporarilySuspended\",\"message\":\"m\"}"),
        "BANNED: m"
    );
    assert_eq!(
        tell(403, "{\"reason\":\"TemporarilySuspended\",\"message\":1}"),
        "BANNED: 账号已被封禁"
    );
    assert_eq!(
        tell(403, "{\"reason\":\"Other\",\"message\":\"m\"}"),
        "AUTH_ERROR: api 403: {\"reason\":\"Other\",\"message\":\"m\"}"
    );
    assert_eq!(tell(403, "Your account is SUSPENDED."), "BANNED: Your account is SUSPENDED.");
    assert_eq!(
        tell(403, "{\"message\":\"User suspendeD\"}"),
        "BANNED: {\"message\":\"User suspendeD\"}"
    );
    assert_eq!(tell(423, "b"), "BANNED: Account suspended");
    assert_eq!(tell(500, "b"), "api failed - HTTP 500: b");
    assert_eq!(tell(400, "suspended"), "api failed - HTTP 400: suspended");
}

#[test]
fn a_reply_is_told_by_its_value() {
    let reason = json("{\"reason\":\"TemporarilySuspended\"}");
    assert_eq!(classify_reply("api", 403, "b", Some(&reason), ""), "BANNED: 账号已被封禁");
    assert_eq!(classify_reply("api", 403, "b", None, "x suspended"), "BANNED: b");
    assert_eq!(classify_reply("api", 403, "b", None, "suspende"), "AUTH_ERROR: api 403: b");
    assert_eq!(classify_reply("api", 404, "b", Some(&reason), "suspended"), "api failed - HTTP 404: b");
}

#[test]
fn the_control_plane_user_agent_names_the_service() {
    assert_eq!(
        build_kiro_control_plane_user_agent(&client()),
        "aws-sdk-js/1.0.0 ua/2.1 os/macos#24.5.0 api/kirocontrolplanebearer#1.0.0 m/E"
    );
    let nameless = ClientIdentity {
        platform: String::new(),
        ide_version: String::new(),
        control_plane_front: String::new(),
        control_plane_back: String::new(),
    };
    assert_eq!(
        build_kiro_control_plane_user_agent(&nameless),
        "api/kirocontrolplanebearer#1.0.0"
    );
}

#[test]
fn a_request_keeps_its_body() {
    let request = ApiRequest::post("u").json(json("[null, 1, true]"));
    assert_eq!(request.body, Some(json("[null, 1, true]")));
    let request = with_kiro_control_plane_headers(request, &client(), "t", "r").header("a", "b");
    assert_eq!(request.body, Some(json("[null, 1, true]")));
    assert_eq!(ApiRequest::get("u").header("a", "b").body, None);
}

#[test]
fn success_is_two_hundred_and_something() {
    for (status, success) in [(199u16, false), (200, true), (204, true), (299, true), (300, false)] {
        assert_eq!(success_status(status), success);
        assert_eq!(reply_outcome("api", status, "suspended").is_ok(), success);
    }
    assert_eq!(success_status(0), false);
    assert_eq!(success_status(u16::MAX), false);
}

#[test]
fn a_reply_becomes_its_value_or_its_failure() {
    let value = |content| reply_value("api", 200, content);
    assert_eq!(value(ReplyContent::Value(Ok(json("[1]")))), Ok(json("[1]")));
    assert_eq!(
        value(ReplyContent::Value(Err("e".to_string()))),
        Err("Failed to parse JSON: e".to_string())
    );
    assert_eq!(
        reply_value("api", 500, ReplyContent::Body("b".to_string())),
        Err("api failed - HTTP 500: b".to_string())
    );
    assert_eq!(
        reply_value("api", 403, ReplyContent::Body("Suspended".to_string())),
        Err("BANNED: Suspended".to_string())
    );
    assert_eq!(reply_outcome("api", 200, ""), Ok(()));
    assert_eq!(reply_outcome("api", 401, "b"), Err("AUTH_ERROR: api 401: b".to_string()));
    assert_eq!(reply_outcome("api", 423, "b"), Err("BANNED: Account suspended".to_string()));
}

#[test]
fn only_refusals_and_bans_end_a_query() {
    for status in [400u16, 401, 402, 403, 404, 422, 423, 424, 429, 500, 503] {
        let error = classify_kiro_management_error("getUsageLimits", status, "AUTH_ERROR: x");
        assert_eq!(final_failure(&error), [401, 403, 423].contains(&status), "{status}");
    }
}

#[test]
fn numbers_are_written_in_decimal() {
    for n in [0u16, 7, 10, 99, 100, 500, 10000, u16::MAX] {
        assert_eq!(decimal(n), n.to_string());
    }
}

#[test]
fn failures_tell_the_operation() {
    assert_eq!(request_failed("GET /p", "e"), "GET /p 请求失败: e");
    assert_eq!(
        preference_request_failed("e", "u"),
        "setUserPreference 请求失败: e (URL: u)"
    );
    assert_eq!(unreadable_reply("e"), "Failed to parse JSON: e");
}
