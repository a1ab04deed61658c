use chrono::TimeZone;
use onchainos::device_routing::{
    device_ids, device_out, fmt_unix_millis, millis_text, normalize_items, parse_csv_devices,
    resolve_create_device_set, validate_items_len, DevicePager, DeviceRow, UpdateItem, DAY_MILLIS,
    MAX_DATED_MILLIS, MIN_DATED_MILLIS,
};

#[test]
fn validate_item_count_boundaries_0_1_100_101() {
    assert!(validate_items_len(0).is_err());
    assert!(validate_items_len(1).is_ok());
    assert!(validate_items_len(100).is_ok());
    assert!(validate_items_len(101).is_err());
}

#[test]
fn item_count_messages() {
    assert_eq!(
        validate_items_len(0),
        Err("no subscriptions to update: provide --job-id or a non-empty --items array".to_string())
    );
    assert_eq!(
        validate_items_len(101),
        Err("too many items (101); at most 100 subscriptions per batch".to_string())
    );
}

#[test]
fn create_device_set_default_all_devices() {
    let fetched = Some(vec!["d1".to_string(), "d2".to_string(), "d3".to_string()]);
    let (list, degraded) = resolve_create_device_set(fetched, &[], Some("d2"));
    assert_eq!(list, vec!["d1", "d2", "d3"]);
    assert!(!degraded);
}

#[test]
fn create_device_set_excludes_named_devices() {
    let fetched = Some(vec!["d1".to_string(), "d2".to_string(), "d3".to_string()]);
    let excluded = vec!["d2".to_string()];
    let (list, degraded) = resolve_create_device_set(fetched, &excluded, Some("d1"));
    assert_eq!(list, vec!["d1", "d3"]);
    assert!(!degraded);
}

#[test]
fn create_device_set_degrades_to_this_device_on_fetch_failure() {
    let (list, degraded) = resolve_create_device_set(None, &[], Some("dME"));
    assert_eq!(list, vec!["dME"]);
    assert!(degraded);
}

#[test]
fn create_device_set_degrades_on_empty_fetch() {
    let (list, degraded) = resolve_create_device_set(Some(vec![]), &[], Some("dME"));
    assert_eq!(list, vec!["dME"]);
    assert!(degraded);
}

#[test]
fn create_device_set_degrade_with_unresolved_this_device_is_empty() {
    let (list, degraded) = resolve_create_device_set(None, &[], None);
    assert!(list.is_empty());
    assert!(degraded);
}

#[test]
fn normalize_form_a_csv() {
    let items = normalize_items(Some("0xjob"), Some("d1, d2 ,,d3"), None).unwrap();
    assert_eq!(items.len(), 1);
    assert_eq!(items[0].job_id, "0xjob");
    assert_eq!(items[0].device_list, vec!["d1", "d2", "d3"]);
}

#[test]
fn normalize_form_a_omitted_device_list_clears() {
    let items = normalize_items(Some("0xjob"), None, None).unwrap();
    assert_eq!(items.len(), 1);
    assert!(items[0].device_list.is_empty());
}

#[test]
fn normalize_form_b_wins_over_form_a() {
    let b = vec![UpdateItem { job_id: "0xB".to_string(), device_list: vec!["d9".to_string()] }];
    let items = normalize_items(Some("0xA"), Some("ignored"), Some(b)).unwrap();
    assert_eq!(items.len(), 1);
    assert_eq!(items[0].job_id, "0xB");
    assert_eq!(items[0].device_list, vec!["d9"]);
}

#[test]
fn normalize_requires_job_id_or_items() {
    assert!(normalize_items(None, Some("d1"), None).is_err());
    assert_eq!(normalize_items(Some(""), None, None), Err("--job-id must not be empty".to_string()));
}

#[test]
fn form_b_zero_items_fails_validation() {
    let items = normalize_items(None, None, Some(vec![])).unwrap();
    assert!(validate_items_len(items.len()).is_err());
}

#[test]
fn csv_devices_drop_blanks() {
    assert_eq!(parse_csv_devices(Some(" a ,, b,")), vec!["a", "b"]);
    assert!(parse_csv_devices(Some("")).is_empty());
    assert!(parse_csv_devices(None).is_empty());
}

#[test]
fn fmt_unix_millis_zero_sentinel() {
    assert_eq!(fmt_unix_millis(0), "0");
}

#[test]
fn fmt_unix_millis_unparseable_sentinel() {
    let out = fmt_unix_millis(i64::MAX);
    assert!(out.contains("unparseable"), "expected unparseable sentinel: {out}");
    assert_eq!(millis_text(-5, None), "-5 (unparseable)");
    assert_eq!(millis_text(7, Some("local".to_string())), "local");
}

#[test]
fn device_rows_mark_this_device() {
    let row = DeviceRow { device_id: "d1".to_string(), device_name: "Phone".to_string(), last_online_time: 0 };
    let out = device_out(&row, Some("d1"));
    assert!(out.is_this_device);
    assert_eq!(out.last_online_local, "0");
    assert!(!device_out(&row, Some("d2")).is_this_device);
    assert!(!device_out(&row, None).is_this_device);
}

#[test]
fn pager_stops_on_short_page_total_or_cap() {
    let mut p = DevicePager::new(0, 0);
    assert_eq!((p.start_page(), p.page_size()), (1, 20));
    assert_eq!(p.page_path(), "/priapi/v5/wallet/agentic/agent/device-list?page=1&pageSize=20");
    assert!(!p.after_page(20, 50));
    assert_eq!(p.page_path(), "/priapi/v5/wallet/agentic/agent/device-list?page=2&pageSize=20");
    assert!(!p.after_page(20, 50));
    assert!(p.after_page(10, 50));

    let mut q = DevicePager::new(3, 2);
    assert!(q.after_page(2, 2));
    let mut r = DevicePager::new(1, 2);
    assert!(r.after_page(0, 0));
    let mut s = DevicePager::new(1, 1);
    let mut pages = 1;
    while !s.after_page(1, 0) {
        pages += 1;
    }
    assert_eq!(pages, 10_001);
}

#[test]
fn fmt_unix_millis_uses_milliseconds_not_seconds() {
    let ms = 1_784_620_000_000i64;
    let as_ms = fmt_unix_millis(ms);
    assert!(as_ms.contains("2026"), "ms must format to year 2026: {as_ms}");
    if let Some(dt) = chrono::Local.timestamp_opt(ms, 0).single() {
        assert_ne!(dt.format("%Y").to_string(), "2026", "a seconds misread must NOT resolve to 2026");
    }
}

#[test]
fn create_device_set_all_excluded_falls_back_to_this_device() {
    let fetched = Some(vec!["d1".to_string(), "d2".to_string()]);
    let excluded = vec!["d1".to_string(), "d2".to_string()];
    let (list, degraded) = resolve_create_device_set(fetched.clone(), &excluded, Some("dME"));
    assert_eq!(list, vec!["dME"]);
    assert!(degraded);
    let (list, degraded) = resolve_create_device_set(fetched.clone(), &excluded, Some("d1"));
    assert!(list.is_empty());
    assert!(degraded);
    let (list, degraded) = resolve_create_device_set(fetched, &excluded, None);
    assert!(list.is_empty());
    assert!(degraded);
}

#[test]
fn normalize_form_b_rejects_empty_job_id() {
    let b = vec![
        UpdateItem { job_id: "0xB".to_string(), device_list: vec![] },
        UpdateItem { job_id: String::new(), device_list: vec!["d1".to_string()] },
    ];
    assert_eq!(
        normalize_items(None, None, Some(b)),
        Err("--items: every entry needs a non-empty jobId".to_string())
    );
}

#[test]
fn fmt_unix_millis_date_range_edges() {
    for ts in [MIN_DATED_MILLIS - 1, MAX_DATED_MILLIS + 1, i64::MIN, i64::MAX] {
        assert_eq!(fmt_unix_millis(ts), format!("{ts} (unparseable)"));
    }
    for ts in [MIN_DATED_MILLIS + DAY_MILLIS, MAX_DATED_MILLIS - DAY_MILLIS, -1, 1] {
        let out = fmt_unix_millis(ts);
        assert!(out.contains(':') && !out.contains("unparseable"), "{ts}: {out}");
    }
}

#[test]
fn pager_total_never_under_reports_rows() {
    let mut p = DevicePager::new(1, 2);
    assert!(!p.after_page(2, 0));
    assert!(p.after_page(0, 0));
    assert_eq!(p.total(0), 2);
    assert_eq!(p.total(7), 7);
}

#[test]
fn device_ids_drop_blank_ids() {
    let row = |id: &str| DeviceRow { device_id: id.to_string(), device_name: String::new(), last_online_time: 0 };
    assert_eq!(device_ids(&vec![row("a"), row(""), row("b")]), vec!["a", "b"]);
}

#[test]
fn fmt_unix_millis_is_wall_clock_of_the_milliseconds() {
    for ts in [1_784_620_000_000i64, 1, -1, 86_399_999, 253_402_214_399_999, -62_135_510_400_000] {
        let out = fmt_unix_millis(ts);
        assert_eq!(out.as_bytes()[19], b' ', "{ts}: {out}");
        let clock = chrono::NaiveDateTime::parse_from_str(&out[..19], "%Y-%m-%d %H:%M:%S")
            .unwrap_or_else(|e| panic!("{ts}: {out}: {e}"));
        let shown = clock.and_utc().timestamp();
        let secs = ts.div_euclid(1000);
        assert!((shown - secs).abs() < 86_400, "{ts}: {out} is not within a day of {secs}");
    }
}
