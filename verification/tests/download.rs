use voiceinput::download::{
    get_download_url, is_chinese_locale, lowered_value_is_chinese, plan_response, progress_due,
    range_header, resume_range_header, value_is_chinese, DownloadProgress, ResponsePlan,
    HF_MIRROR_URL, HF_URL,
};

fn vals(v: &[&str]) -> Vec<String> {
    v.iter().map(|s| s.to_string()).collect()
}

#[test]
fn mirror_setting_decides() {
    assert_eq!(get_download_url("cn", &vals(&["en_US.UTF-8"])), HF_MIRROR_URL);
    assert_eq!(get_download_url("global", &vals(&["zh_CN.UTF-8"])), HF_URL);
}

#[test]
fn auto_follows_locale() {
    assert_eq!(get_download_url("auto", &vals(&["zh_CN.UTF-8"])), HF_MIRROR_URL);
    assert_eq!(get_download_url("auto", &vals(&["en_US.UTF-8", "C"])), HF_URL);
    assert_eq!(get_download_url("anything", &vals(&[])), HF_URL);
    assert_eq!(get_download_url("auto", &vals(&["C", "Chinese_PRC"])), HF_MIRROR_URL);
}

#[test]
fn locale_values_are_lowercased() {
    // upper-case values are matched only once lowered
    assert!(value_is_chinese("ZH_TW"));
    assert!(!lowered_value_is_chinese("ZH_TW"));
    assert!(value_is_chinese("en_CN"));
    assert!(!value_is_chinese("en_GB"));
    assert!(is_chinese_locale(&vals(&["fr_FR", "ZH"])));
    assert!(!is_chinese_locale(&vals(&[])));
}

#[test]
fn partial_content_resumes() {
    assert_eq!(
        plan_response(206, 1000, Some("bytes 1000-4999/5000"), Some("4000")),
        Ok(ResponsePlan { total_size: 5000, resume_offset: 1000 })
    );
    assert_eq!(
        plan_response(206, 1000, Some("bytes 1000-4999/*"), None),
        Ok(ResponsePlan { total_size: 0, resume_offset: 1000 })
    );
    assert_eq!(
        plan_response(206, 7, None, None),
        Ok(ResponsePlan { total_size: 0, resume_offset: 7 })
    );
    assert_eq!(
        plan_response(206, 7, Some("+42"), None),
        Ok(ResponsePlan { total_size: 42, resume_offset: 7 })
    );
}

#[test]
fn full_content_starts_afresh() {
    assert_eq!(
        plan_response(200, 1000, Some("bytes 0-9/10"), Some("466000000")),
        Ok(ResponsePlan { total_size: 466000000, resume_offset: 0 })
    );
    assert_eq!(
        plan_response(204, 0, None, Some("18446744073709551616")),
        Ok(ResponsePlan { total_size: 0, resume_offset: 0 })
    );
    assert_eq!(
        plan_response(200, 0, None, Some("18446744073709551615")),
        Ok(ResponsePlan { total_size: u64::MAX, resume_offset: 0 })
    );
    assert_eq!(
        plan_response(200, 0, None, Some("-5")),
        Ok(ResponsePlan { total_size: 0, resume_offset: 0 })
    );
}

#[test]
fn other_status_fails() {
    assert_eq!(plan_response(404, 0, None, None), Err(404));
    assert_eq!(plan_response(301, 0, None, None), Err(301));
    assert_eq!(plan_response(199, 0, None, None), Err(199));
}

#[test]
fn range_headers() {
    assert_eq!(range_header(0), "bytes=0-");
    assert_eq!(range_header(1234567), "bytes=1234567-");
    assert_eq!(range_header(u64::MAX), format!("bytes={}-", u64::MAX));
    assert_eq!(resume_range_header(0), None);
    assert_eq!(resume_range_header(10), Some("bytes=10-".to_string()));
}

#[test]
fn progress_reports() {
    assert!(!progress_due(199));
    assert!(progress_due(200));
    let p = DownloadProgress::downloading(10, 100, 5);
    assert_eq!((p.downloaded, p.total, p.speed_bps, p.stage.as_str()), (10, 100, 5, "downloading"));
    let v = DownloadProgress::verifying(100);
    assert_eq!((v.downloaded, v.total, v.speed_bps, v.stage.as_str()), (100, 100, 0, "verifying"));
}
