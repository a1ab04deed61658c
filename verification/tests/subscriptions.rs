use onchainos::subscription::{
    device_receives, filter_subscriptions, mark_this_device, my_subscriptions_path, name_statuses,
    normalize_str_array, status_name, subscribe_detail_path,
    SubscriptionInfo, SubscriptionRole, AGENT_ROLE_ASP, AGENT_ROLE_USER,
};

#[test]
fn status_name_covers_all_nine_cases_and_unknown() {
    assert_eq!(status_name(-1), "INIT");
    assert_eq!(status_name(0), "NONE");
    assert_eq!(status_name(1), "ACTIVE");
    assert_eq!(status_name(2), "REJECTED");
    assert_eq!(status_name(3), "DISPUTED");
    assert_eq!(status_name(4), "COMPLETED");
    assert_eq!(status_name(5), "FAILED");
    assert_eq!(status_name(6), "CLOSED");
    assert_eq!(status_name(9), "UNKNOWN_9");
    assert_eq!(status_name(42), "UNKNOWN_42");
}

#[test]
fn status_name_negative_and_extreme_values() {
    assert_eq!(status_name(-2), "UNKNOWN_-2");
    assert_eq!(status_name(i64::MIN), "UNKNOWN_-9223372036854775808");
    assert_eq!(status_name(i64::MAX), "UNKNOWN_9223372036854775807");
}

#[test]
fn subscription_role_maps_agent_role() {
    assert_eq!(SubscriptionRole::Buyer.agent_role(), AGENT_ROLE_USER);
    assert_eq!(SubscriptionRole::Provider.agent_role(), AGENT_ROLE_ASP);
}

#[test]
fn my_subscriptions_path_has_no_query_string() {
    let path = my_subscriptions_path();
    assert_eq!(path, "/priapi/v1/aieco/task/subscribe/my");
    assert!(!path.contains('?'), "the /my endpoint takes no query params");
}

#[test]
fn detail_path_refuses_blank_id() {
    assert_eq!(subscribe_detail_path("  "), Err("<subId> must not be empty".to_string()));
    assert_eq!(subscribe_detail_path("42"), Ok("/priapi/v1/aieco/task/subscribe/42".to_string()));
}

fn sub(buyer: &str, provider: &str, status: i64) -> SubscriptionInfo {
    SubscriptionInfo {
        job_id: "1234567890".to_string(),
        buyer_agent_id: buyer.to_string(),
        provider_agent_id: provider.to_string(),
        status,
        ..Default::default()
    }
}

#[test]
fn filter_subscriptions_buyer_and_provider_views_are_client_side() {
    let list = || vec![sub("1001", "2002", 1), sub("3003", "1001", 4)];
    let buyer = filter_subscriptions(list(), SubscriptionRole::Buyer, "1001", None);
    assert_eq!(buyer.len(), 1);
    assert_eq!(buyer[0].provider_agent_id, "2002");
    let provider = filter_subscriptions(list(), SubscriptionRole::Provider, "1001", None);
    assert_eq!(provider.len(), 1);
    assert_eq!(provider[0].buyer_agent_id, "3003");
}

#[test]
fn filter_subscriptions_status_filter_is_client_side() {
    let list = || vec![sub("1001", "2002", 1), sub("1001", "3003", 4), sub("1001", "4004", 1)];
    assert_eq!(filter_subscriptions(list(), SubscriptionRole::Buyer, "1001", None).len(), 3);
    let active = filter_subscriptions(list(), SubscriptionRole::Buyer, "1001", Some(1));
    assert_eq!(active.len(), 2);
    assert!(active.iter().all(|s| s.status == 1));
    assert!(filter_subscriptions(list(), SubscriptionRole::Buyer, "1001", Some(9)).is_empty());
}

#[test]
fn status_names_are_filled_in() {
    let mut list = vec![sub("1", "2", 1), sub("1", "2", 77)];
    name_statuses(&mut list);
    assert_eq!(list[0].status_name, "ACTIVE");
    assert_eq!(list[1].status_name, "UNKNOWN_77");
    assert_eq!(list[1].status, 77);
}

fn ids(v: &[&str]) -> Vec<String> {
    v.iter().map(|s| s.to_string()).collect()
}

#[test]
fn device_list_is_tri_state_for_this_device() {
    assert!(device_receives(&None, Some("d1")));
    assert!(device_receives(&None, None));
    assert!(!device_receives(&Some(vec![]), Some("d1")));
    assert!(device_receives(&Some(ids(&["d0", "d1"])), Some("d1")));
    assert!(!device_receives(&Some(ids(&["d0"])), Some("d1")));
    assert!(!device_receives(&Some(ids(&["d0"])), None));
}

#[test]
fn str_arrays_drop_non_strings_and_keep_absence() {
    assert_eq!(normalize_str_array(None), None);
    assert_eq!(normalize_str_array(Some(vec![])), Some(vec![]));
    assert_eq!(
        normalize_str_array(Some(vec![Some("a".to_string()), None, Some("b".to_string())])),
        Some(ids(&["a", "b"]))
    );
}

#[test]
fn each_record_marks_whether_this_device_receives() {
    let mut a = sub("1001", "2002", 1);
    a.device_list = Some(ids(&["d1"]));
    let mut b = sub("1001", "2002", 1);
    b.device_list = Some(vec![]);
    let c = sub("1001", "2002", 1);
    let mut list = vec![a.clone(), b, c];
    mark_this_device(&mut list, Some("d1"));
    assert_eq!(
        list.iter().map(|x| x.this_device_receives).collect::<Vec<_>>(),
        vec![true, false, true]
    );
    assert_eq!(list[0].device_list, a.device_list);
}
