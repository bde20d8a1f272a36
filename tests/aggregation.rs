use vps_status::config::Credential;
use vps_status::status::{
    collect_successes, service_info_url, status_from_record, upstream_requests, usage_share, FetchError,
    RawServiceRecord, ServiceStatus, UsageShare,
};

fn status(veid: &str) -> ServiceStatus {
    status_from_record(
        veid.to_string(),
        RawServiceRecord {
            plan: "plan".to_string(),
            ip_addresses: vec!["10.0.0.1".to_string()],
            plan_monthly_data: 100,
            data_counter: 10,
        },
    )
}

fn percent(s: UsageShare) -> f64 {
    (s.used as f64 / s.allowance as f64) * 100.0
}

#[test]
fn usage_percentage_is_proportional() {
    assert_eq!(percent(usage_share(50, 200)), 25.0);
    assert_eq!(usage_share(50, 200), UsageShare { used: 50, allowance: 200 });
}

#[test]
fn usage_percentage_is_not_capped() {
    assert_eq!(percent(usage_share(300, 100)), 300.0);
}

#[test]
fn usage_percentage_with_zero_allowance_is_zero() {
    assert_eq!(percent(usage_share(12345, 0)), 0.0);
    assert_eq!(percent(usage_share(0, 0)), 0.0);
}

#[test]
fn status_takes_first_address() {
    let s = status_from_record(
        "42".to_string(),
        RawServiceRecord {
            plan: "basic".to_string(),
            ip_addresses: vec!["1.2.3.4".to_string(), "5.6.7.8".to_string()],
            plan_monthly_data: 1000,
            data_counter: 250,
        },
    );
    assert_eq!(s.veid, "42");
    assert_eq!(s.plan, "basic");
    assert_eq!(s.ip_address, "1.2.3.4");
    assert_eq!(s.plan_monthly_data, 1000);
    assert_eq!(s.data_counter, 250);
    assert_eq!(percent(s.usage_share()), 25.0);
}

#[test]
fn status_without_addresses_has_empty_address() {
    let s = status_from_record(
        "7".to_string(),
        RawServiceRecord { plan: "p".to_string(), ip_addresses: Vec::new(), plan_monthly_data: 0, data_counter: 9 },
    );
    assert_eq!(s.ip_address, "");
    assert_eq!(percent(s.usage_share()), 0.0);
}

#[test]
fn url_embeds_both_credentials() {
    assert_eq!(
        service_info_url("123", "k3y"),
        "https://api.64clouds.com/v1/getServiceInfo?veid=123&api_key=k3y"
    );
}

#[test]
fn one_request_per_credential() {
    let creds = vec![
        Credential { veid: "1".to_string(), api_key: "a".to_string() },
        Credential { veid: "1".to_string(), api_key: "b".to_string() },
    ];
    let reqs = upstream_requests(&creds);
    assert_eq!(reqs.len(), 2);
    assert_eq!(reqs[0].veid, "1");
    assert_eq!(reqs[1].url, "https://api.64clouds.com/v1/getServiceInfo?veid=1&api_key=b");
    assert!(upstream_requests(&Vec::new()).is_empty());
}

#[test]
fn best_effort_drops_the_failed_middle_call() {
    let results = vec![
        Ok(status("first")),
        Err(FetchError::Network { veid: "second".to_string(), detail: "refused".to_string() }),
        Ok(status("third")),
    ];
    let kept = collect_successes(results);
    assert_eq!(kept.len(), 2);
    assert_eq!(kept[0].veid, "first");
    assert_eq!(kept[1].veid, "third");
}

#[test]
fn decode_failures_are_dropped_too() {
    let results = vec![Err(FetchError::Decode { veid: "x".to_string(), detail: "bad json".to_string() })];
    assert!(collect_successes(results).is_empty());
}

#[test]
fn no_credentials_give_an_empty_list() {
    assert!(collect_successes(Vec::new()).is_empty());
}
