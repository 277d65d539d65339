use kiro_switch::region::{final_failure, usage_limits_region_candidates, RegionFallback};

#[test]
fn usage_limits_region_candidates_prefers_account_region_and_dedupes_enterprise_fallback() {
    assert_eq!(
        usage_limits_region_candidates("eu-central-1", true),
        vec!["eu-central-1".to_string(), "us-east-1".to_string()]
    );
    assert_eq!(
        usage_limits_region_candidates("us-east-1", true),
        vec!["us-east-1".to_string(), "eu-central-1".to_string()]
    );
    assert_eq!(
        usage_limits_region_candidates("ap-southeast-1", false),
        vec!["ap-southeast-1".to_string()]
    );
    assert_eq!(
        usage_limits_region_candidates("", true),
        vec!["us-east-1".to_string(), "eu-central-1".to_string()]
    );
}

#[test]
fn region_candidates_trim_and_fall_back_on_one_region() {
    assert_eq!(
        usage_limits_region_candidates("  ap-southeast-1\n", true),
        vec![
            "ap-southeast-1".to_string(),
            "us-east-1".to_string(),
            "eu-central-1".to_string()
        ]
    );
    assert_eq!(
        usage_limits_region_candidates("  ", false),
        vec!["us-east-1".to_string()]
    );
}

fn regions(names: &[&str]) -> Vec<String> {
    names.iter().map(|n| n.to_string()).collect()
}

#[test]
fn fallback_stops_at_the_first_region_that_answers() {
    let mut query = RegionFallback::new(&regions(&["a", "b", "c"]));
    assert_eq!(query.next_region(), Some("a".to_string()));
    assert_eq!(query.report::<u32>(Err("timeout".to_string())), None);
    assert_eq!(query.next_region(), Some("b".to_string()));
    assert_eq!(query.report(Ok(7u32)), Some(Ok(("b".to_string(), 7))));
}

#[test]
fn fallback_stops_at_a_refusal_or_a_ban() {
    for error in ["AUTH_ERROR: getUsageLimits 401: x", "BANNED: y"] {
        let mut query = RegionFallback::new(&regions(&["a", "b"]));
        assert_eq!(
            query.report::<u32>(Err(error.to_string())),
            Some(Err(error.to_string()))
        );
    }
    assert!(final_failure("AUTH_ERROR:"));
    assert!(final_failure("BANNED:"));
    assert!(!final_failure("AUTH_ERROR"));
    assert!(!final_failure("x BANNED:"));
}

#[test]
fn fallback_fails_with_the_last_failure() {
    let mut query = RegionFallback::new(&regions(&["a", "b"]));
    assert_eq!(query.report::<u32>(Err("first".to_string())), None);
    assert_eq!(query.report::<u32>(Err("second".to_string())), None);
    assert_eq!(query.next_region(), None);
    assert_eq!(query.failure(), "所有 region 均失败: second");
    let none = RegionFallback::new(&[]);
    assert_eq!(none.next_region(), None);
    assert_eq!(none.failure(), "所有 region 均失败: ");
}
