use kiro_switch::endpoint::{
    build_generate_assistant_response_url, build_get_usage_limits_url, build_kiro_management_host,
    build_kiro_management_service_url, build_kiro_runtime_host, build_kiro_runtime_service_url,
    build_mcp_url,
};

#[test]
fn builds_kiro_management_endpoint_for_region() {
    assert_eq!(
        build_kiro_management_host("us-east-1"),
        "management.us-east-1.kiro.dev"
    );
    assert_eq!(
        build_kiro_management_service_url("eu-central-1"),
        "https://management.eu-central-1.kiro.dev"
    );
}

#[test]
fn builds_kiro_runtime_endpoints_for_region() {
    assert_eq!(
        build_kiro_runtime_host("us-east-1"),
        "runtime.us-east-1.kiro.dev"
    );
    assert_eq!(
        build_kiro_runtime_service_url("us-east-1"),
        "https://runtime.us-east-1.kiro.dev"
    );
    assert_eq!(
        build_generate_assistant_response_url("eu-central-1"),
        "https://runtime.eu-central-1.kiro.dev/generateAssistantResponse"
    );
    assert_eq!(
        build_mcp_url("eu-central-1"),
        "https://runtime.eu-central-1.kiro.dev/mcp"
    );
}

#[test]
fn builds_get_usage_limits_url_without_profile_arn() {
    assert_eq!(
        build_get_usage_limits_url("us-east-1", None),
        "https://management.us-east-1.kiro.dev/getUsageLimits?isEmailRequired=true&origin=AI_EDITOR&resourceType=AGENTIC_REQUEST"
    );
}

#[test]
fn builds_get_usage_limits_url_with_encoded_profile_arn() {
    assert_eq!(
        build_get_usage_limits_url(
            "us-east-1",
            Some("arn:aws:codewhisperer:us-east-1:699475941385:profile/EHGA3GRVQMUK")
        ),
        "https://management.us-east-1.kiro.dev/getUsageLimits?isEmailRequired=true&origin=AI_EDITOR&profileArn=arn%3Aaws%3Acodewhisperer%3Aus-east-1%3A699475941385%3Aprofile%2FEHGA3GRVQMUK&resourceType=AGENTIC_REQUEST"
    );
}

#[test]
fn get_usage_limits_url_leaves_a_blank_profile_out_and_trims_another() {
    let without = build_get_usage_limits_url("r", None);
    assert_eq!(build_get_usage_limits_url("r", Some("")), without);
    assert_eq!(build_get_usage_limits_url("r", Some(" \t\u{3000}\n")), without);
    assert_eq!(
        build_get_usage_limits_url("r", Some("  a b&c=d+\u{e9}~_.-  ")),
        "https://management.r.kiro.dev/getUsageLimits?isEmailRequired=true&origin=AI_EDITOR&profileArn=a%20b%26c%3Dd%2B%C3%A9~_.-&resourceType=AGENTIC_REQUEST"
    );
}

#[test]
fn percent_encoding_leaves_no_separator_in_a_profile() {
    let every: String = (0u8..128).map(char::from).collect();
    let url = build_get_usage_limits_url("r", Some(&every));
    assert_eq!(url.matches('&').count(), 3);
    assert_eq!(url.matches('=').count(), 4);
    assert_eq!(url.matches('#').count(), 0);
    assert_eq!(url.matches('?').count(), 1);
}

#[test]
fn the_address_of_a_quota_query_tells_the_profile() {
    let url = |arn: &str| build_get_usage_limits_url("r", Some(arn));
    assert_ne!(url("a%3A"), url("a:"));
    assert_ne!(url("a+b"), url("a b"));
    assert_ne!(url("\u{e9}"), url("e"));
    assert_eq!(url(" a:b\n"), url("a:b"));
}
