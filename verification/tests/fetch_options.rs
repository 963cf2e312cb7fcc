use std::cmp::Ordering;

use anyserver::json::{json_navigate, JsonValue};
use anyserver::numeric::split_numeric_prefix;
use anyserver::options::{extract_options, sort_and_limit, substitute_template_vars};
use anyserver::replies::{options_from_reply, prepare_options_url, FetchReply};
use anyserver::types::pipeline::{FetchedOption, OptionsSortOrder};
use anyserver::version::{compare_segments, version_cmp};

fn fo(v: &str) -> FetchedOption {
    FetchedOption { value: v.into(), label: v.into() }
}

fn s(v: &str) -> JsonValue {
    JsonValue::String(v.to_string())
}

fn n(v: &str) -> JsonValue {
    JsonValue::Number(v.to_string())
}

fn arr(items: Vec<JsonValue>) -> JsonValue {
    JsonValue::Array(items)
}

fn obj(members: Vec<(&str, JsonValue)>) -> JsonValue {
    JsonValue::Object(members.into_iter().map(|(k, v)| (k.to_string(), v)).collect())
}

fn vars(pairs: &[(&str, &str)]) -> Vec<(String, String)> {
    pairs.iter().map(|(k, v)| (k.to_string(), v.to_string())).collect()
}

// ── substitute_template_vars ──

#[test]
fn substitute_replaces_double_braces() {
    let v = vars(&[("version", "1.21.4"), ("project", "paper")]);
    let result = substitute_template_vars(
        "https://api.papermc.io/v2/projects/{{project}}/versions/{{version}}/builds",
        &v,
    );
    assert_eq!(result, "https://api.papermc.io/v2/projects/paper/versions/1.21.4/builds");
}

#[test]
fn substitute_no_vars_passthrough() {
    let v = vars(&[]);
    let result = substitute_template_vars("https://api.example.com/versions", &v);
    assert_eq!(result, "https://api.example.com/versions");
}

#[test]
fn substitute_missing_var_left_as_is() {
    let v = vars(&[]);
    let result = substitute_template_vars("https://api.example.com/{{missing}}/data", &v);
    assert_eq!(result, "https://api.example.com/{{missing}}/data");
}

// ── json_navigate ──

#[test]
fn fetch_options_navigate_none_path_returns_root() {
    let val = obj(vec![("a", n("1"))]);
    assert_eq!(json_navigate(&val, None), Some(&val));
}

#[test]
fn fetch_options_navigate_empty_path_returns_root() {
    let val = obj(vec![("a", n("1"))]);
    assert_eq!(json_navigate(&val, Some("")), Some(&val));
}

#[test]
fn fetch_options_navigate_single_key() {
    let val = obj(vec![("versions", arr(vec![n("1"), n("2"), n("3")]))]);
    assert_eq!(json_navigate(&val, Some("versions")), Some(&arr(vec![n("1"), n("2"), n("3")])));
}

#[test]
fn fetch_options_navigate_nested_path() {
    let val = obj(vec![("data", obj(vec![("runtimes", arr(vec![s("a"), s("b")]))]))]);
    assert_eq!(json_navigate(&val, Some("data.runtimes")), Some(&arr(vec![s("a"), s("b")])));
}

#[test]
fn fetch_options_navigate_missing_key_returns_none() {
    let val = obj(vec![("a", n("1"))]);
    assert_eq!(json_navigate(&val, Some("b")), None);
}

#[test]
fn fetch_options_navigate_through_non_object_returns_none() {
    let val = obj(vec![("a", s("hello"))]);
    assert_eq!(json_navigate(&val, Some("a.b")), None);
}

// ── extract_options — scalar mode ──

#[test]
fn extract_string_array() {
    let val = arr(vec![s("1.21.4"), s("1.21.3"), s("1.20.6")]);
    let opts = extract_options(&val, None, None).unwrap();
    assert_eq!(opts.len(), 3);
    assert_eq!(opts[0].value, "1.21.4");
    assert_eq!(opts[0].label, "1.21.4");
    assert_eq!(opts[2].value, "1.20.6");
}

#[test]
fn extract_number_array() {
    let val = arr(vec![n("100"), n("200"), n("300")]);
    let opts = extract_options(&val, None, None).unwrap();
    assert_eq!(opts.len(), 3);
    assert_eq!(opts[0].value, "100");
    assert_eq!(opts[0].label, "100");
}

#[test]
fn extract_empty_array() {
    let val = arr(vec![]);
    let opts = extract_options(&val, None, None).unwrap();
    assert!(opts.is_empty());
}

#[test]
fn extract_non_array_returns_error() {
    let val = s("hello");
    let err = extract_options(&val, None, None).unwrap_err();
    assert!(err.contains("Expected a JSON array"));
}

#[test]
fn extract_mixed_non_scalar_array_returns_error() {
    let val = arr(vec![obj(vec![("a", n("1"))]), obj(vec![("a", n("2"))])]);
    let err = extract_options(&val, None, None).unwrap_err();
    assert!(err.contains("not a string or number"));
}

// ── extract_options — object mode ──

#[test]
fn extract_with_value_key() {
    let val = arr(vec![
        obj(vec![("id", s("java17")), ("name", s("Java 17"))]),
        obj(vec![("id", s("java21")), ("name", s("Java 21"))]),
    ]);
    let opts = extract_options(&val, Some("id"), None).unwrap();
    assert_eq!(opts.len(), 2);
    assert_eq!(opts[0].value, "java17");
    assert_eq!(opts[0].label, "java17");
}

#[test]
fn extract_with_value_key_and_label_key() {
    let val = arr(vec![
        obj(vec![("id", s("java17")), ("display_name", s("Java 17 (LTS)"))]),
        obj(vec![("id", s("java21")), ("display_name", s("Java 21 (LTS)"))]),
    ]);
    let opts = extract_options(&val, Some("id"), Some("display_name")).unwrap();
    assert_eq!(opts.len(), 2);
    assert_eq!(opts[0].value, "java17");
    assert_eq!(opts[0].label, "Java 17 (LTS)");
    assert_eq!(opts[1].value, "java21");
    assert_eq!(opts[1].label, "Java 21 (LTS)");
}

#[test]
fn extract_with_label_key_missing_falls_back_to_value() {
    let val = arr(vec![
        obj(vec![("id", s("java17"))]),
        obj(vec![("id", s("java21")), ("display_name", s("Java 21 (LTS)"))]),
    ]);
    let opts = extract_options(&val, Some("id"), Some("display_name")).unwrap();
    assert_eq!(opts[0].label, "java17");
    assert_eq!(opts[1].label, "Java 21 (LTS)");
}

#[test]
fn extract_with_value_key_missing_returns_error() {
    let val = arr(vec![obj(vec![("name", s("Java 17"))])]);
    let err = extract_options(&val, Some("id"), None).unwrap_err();
    assert!(err.contains("does not have key 'id'"));
}

#[test]
fn fetch_options_extract_numeric_value_key() {
    let val = arr(vec![
        obj(vec![("build", n("42")), ("version", s("1.21.4"))]),
        obj(vec![("build", n("43")), ("version", s("1.21.4"))]),
    ]);
    let opts = extract_options(&val, Some("build"), Some("version")).unwrap();
    assert_eq!(opts[0].value, "42");
    assert_eq!(opts[0].label, "1.21.4");
}

#[test]
fn extract_non_object_elements_with_value_key_returns_error() {
    let val = arr(vec![s("a"), s("b")]);
    let err = extract_options(&val, Some("id"), None).unwrap_err();
    assert!(err.contains("not an object"));
}

// ── sort_and_limit ──

#[test]
fn sort_asc() {
    let opts = vec![fo("c"), fo("a"), fo("b")];
    let sorted = sort_and_limit(opts, Some(OptionsSortOrder::Asc), None);
    assert_eq!(sorted[0].value, "a");
    assert_eq!(sorted[1].value, "b");
    assert_eq!(sorted[2].value, "c");
}

#[test]
fn sort_desc() {
    let opts = vec![fo("a"), fo("c"), fo("b")];
    let sorted = sort_and_limit(opts, Some(OptionsSortOrder::Desc), None);
    assert_eq!(sorted[0].value, "c");
    assert_eq!(sorted[1].value, "b");
    assert_eq!(sorted[2].value, "a");
}

#[test]
fn limit_only() {
    let opts = vec![fo("a"), fo("b"), fo("c")];
    let limited = sort_and_limit(opts, None, Some(2));
    assert_eq!(limited.len(), 2);
    assert_eq!(limited[0].value, "a");
    assert_eq!(limited[1].value, "b");
}

#[test]
fn sort_then_limit() {
    let opts = vec![fo("1.20"), fo("1.21"), fo("1.19"), fo("1.18")];
    let result = sort_and_limit(opts, Some(OptionsSortOrder::Desc), Some(2));
    assert_eq!(result.len(), 2);
    assert_eq!(result[0].value, "1.21");
    assert_eq!(result[1].value, "1.20");
}

#[test]
fn no_sort_no_limit_preserves_order() {
    let opts = vec![fo("c"), fo("a")];
    let result = sort_and_limit(opts.clone(), None, None);
    assert_eq!(result[0].value, "c");
    assert_eq!(result[1].value, "a");
}

#[test]
fn limit_larger_than_vec() {
    let opts = vec![fo("a")];
    let result = sort_and_limit(opts, None, Some(100));
    assert_eq!(result.len(), 1);
}

// ── Full pipeline ──

#[test]
fn papermc_style_full_pipeline() {
    let versions = [
        "1.8", "1.8.1", "1.8.2", "1.19", "1.19.1", "1.20", "1.20.1", "1.20.4", "1.20.6", "1.21",
        "1.21.1", "1.21.2", "1.21.3", "1.21.4",
    ];
    let response = obj(vec![
        ("project_id", s("paper")),
        ("project_name", s("Paper")),
        ("versions", arr(versions.iter().map(|v| s(v)).collect())),
    ]);
    let navigated = json_navigate(&response, Some("versions")).unwrap();
    let opts = extract_options(navigated, None, None).unwrap();
    let result = sort_and_limit(opts, Some(OptionsSortOrder::Desc), Some(5));
    assert_eq!(result.len(), 5);
    assert_eq!(result[0].value, "1.21.4");
    assert_eq!(result[1].value, "1.21.3");
    assert_eq!(result[2].value, "1.21.2");
    assert_eq!(result[3].value, "1.21.1");
    assert_eq!(result[4].value, "1.21");
}

#[test]
fn version_sort_prerelease_segments() {
    let opts = vec![
        fo("1.21.9-pre2"),
        fo("1.21.10"),
        fo("1.21.9"),
        fo("1.21.9-rc1"),
        fo("1.21.9-pre4"),
        fo("1.21.8"),
    ];
    let sorted = sort_and_limit(opts, Some(OptionsSortOrder::Desc), None);
    let vals: Vec<&str> = sorted.iter().map(|o| o.value.as_str()).collect();
    assert_eq!(
        vals,
        vec!["1.21.10", "1.21.9", "1.21.9-rc1", "1.21.9-pre4", "1.21.9-pre2", "1.21.8"]
    );
}

#[test]
fn version_sort_real_papermc_data() {
    let versions = vec![
        "1.7.10", "1.8.8", "1.9.4", "1.10.2", "1.11.2", "1.12", "1.12.1", "1.12.2", "1.13-pre7",
        "1.13", "1.13.1", "1.13.2", "1.14", "1.14.1", "1.14.2", "1.14.3", "1.14.4", "1.15",
        "1.15.1", "1.15.2", "1.16.1", "1.16.2", "1.16.3", "1.16.4", "1.16.5", "1.17", "1.17.1",
        "1.18", "1.18.1", "1.18.2", "1.19", "1.19.1", "1.19.2", "1.19.3", "1.19.4", "1.20",
        "1.20.1", "1.20.2", "1.20.4", "1.20.5", "1.20.6", "1.21", "1.21.1", "1.21.3", "1.21.4",
        "1.21.5", "1.21.6", "1.21.7", "1.21.8", "1.21.9-pre2", "1.21.9-pre3", "1.21.9-pre4",
        "1.21.9-rc1", "1.21.9", "1.21.10", "1.21.11-pre3", "1.21.11-pre4", "1.21.11-pre5",
        "1.21.11-rc1", "1.21.11-rc2", "1.21.11-rc3", "1.21.11",
    ];
    let opts: Vec<FetchedOption> = versions.into_iter().map(fo).collect();
    let result = sort_and_limit(opts, Some(OptionsSortOrder::Desc), Some(10));
    assert_eq!(result.len(), 10);
    assert_eq!(result[0].value, "1.21.11");
    assert_eq!(result[1].value, "1.21.11-rc3");
    assert_eq!(result[2].value, "1.21.11-rc2");
    assert_eq!(result[3].value, "1.21.11-rc1");
    assert_eq!(result[4].value, "1.21.11-pre5");
}

#[test]
fn object_array_full_pipeline() {
    let response = obj(vec![(
        "data",
        obj(vec![(
            "runtimes",
            arr(vec![
                obj(vec![("id", s("java17")), ("display_name", s("Java 17 (LTS)"))]),
                obj(vec![("id", s("java11")), ("display_name", s("Java 11 (LTS)"))]),
                obj(vec![("id", s("java21")), ("display_name", s("Java 21 (LTS)"))]),
            ]),
        )]),
    )]);
    let navigated = json_navigate(&response, Some("data.runtimes")).unwrap();
    let opts = extract_options(navigated, Some("id"), Some("display_name")).unwrap();
    let result = sort_and_limit(opts, Some(OptionsSortOrder::Asc), None);
    assert_eq!(result.len(), 3);
    assert_eq!(result[0].value, "java11");
    assert_eq!(result[0].label, "Java 11 (LTS)");
    assert_eq!(result[1].value, "java17");
    assert_eq!(result[1].label, "Java 17 (LTS)");
    assert_eq!(result[2].value, "java21");
    assert_eq!(result[2].label, "Java 21 (LTS)");
}

#[test]
fn builds_with_numeric_keys() {
    let response = obj(vec![(
        "builds",
        arr(vec![
            obj(vec![("build", n("1")), ("channel", s("default"))]),
            obj(vec![("build", n("2")), ("channel", s("default"))]),
            obj(vec![("build", n("3")), ("channel", s("experimental"))]),
        ]),
    )]);
    let navigated = json_navigate(&response, Some("builds")).unwrap();
    let opts = extract_options(navigated, Some("build"), Some("channel")).unwrap();
    let result = sort_and_limit(opts, Some(OptionsSortOrder::Desc), Some(2));
    assert_eq!(result.len(), 2);
    assert_eq!(result[0].value, "3");
    assert_eq!(result[0].label, "experimental");
    assert_eq!(result[1].value, "2");
    assert_eq!(result[1].label, "default");
}

// ── Version-aware sort ──

#[test]
fn version_sort_numeric_segments() {
    let opts = vec![fo("1.20"), fo("1.9"), fo("1.21")];
    let sorted = sort_and_limit(opts, Some(OptionsSortOrder::Asc), None);
    assert_eq!(sorted[0].value, "1.9");
    assert_eq!(sorted[1].value, "1.20");
    assert_eq!(sorted[2].value, "1.21");
}

#[test]
fn version_sort_desc_three_part() {
    let opts = vec![fo("1.8.1"), fo("1.21.4"), fo("1.20.6"), fo("1.21")];
    let sorted = sort_and_limit(opts, Some(OptionsSortOrder::Desc), None);
    assert_eq!(sorted[0].value, "1.21.4");
    assert_eq!(sorted[1].value, "1.21");
    assert_eq!(sorted[2].value, "1.20.6");
    assert_eq!(sorted[3].value, "1.8.1");
}

#[test]
fn version_sort_mixed_version_and_non_version() {
    let opts = vec![fo("snapshot-1"), fo("1.20"), fo("beta-2"), fo("1.9")];
    let sorted = sort_and_limit(opts, Some(OptionsSortOrder::Asc), None);
    assert_eq!(sorted[0].value, "1.9");
    assert_eq!(sorted[1].value, "1.20");
    assert_eq!(sorted[2].value, "beta-2");
    assert_eq!(sorted[3].value, "snapshot-1");
}

#[test]
fn version_sort_mixed_desc() {
    let opts = vec![fo("alpha"), fo("2.0"), fo("1.10")];
    let sorted = sort_and_limit(opts, Some(OptionsSortOrder::Desc), None);
    assert_eq!(sorted[0].value, "2.0");
    assert_eq!(sorted[1].value, "1.10");
    assert_eq!(sorted[2].value, "alpha");
}

#[test]
fn version_sort_equal_prefix_longer_wins() {
    let opts = vec![fo("1.21.1"), fo("1.21")];
    let sorted = sort_and_limit(opts, Some(OptionsSortOrder::Asc), None);
    assert_eq!(sorted[0].value, "1.21");
    assert_eq!(sorted[1].value, "1.21.1");
}

#[test]
fn version_cmp_unit() {
    assert_eq!(version_cmp("1.9", "1.20"), Ordering::Less);
    assert_eq!(version_cmp("1.21.4", "1.21.3"), Ordering::Greater);
    assert_eq!(version_cmp("1.21", "1.21"), Ordering::Equal);
    assert_eq!(version_cmp("1.21", "1.21.0"), Ordering::Less);
    assert_eq!(version_cmp("2.0", "1.99"), Ordering::Greater);
    assert_eq!(version_cmp("10", "9"), Ordering::Greater);
    assert_eq!(version_cmp("1.0a", "1.0b"), Ordering::Less);
    assert_eq!(version_cmp("1.21.9", "1.21.9-pre2"), Ordering::Greater);
    assert_eq!(version_cmp("1.21.9-pre2", "1.21.9"), Ordering::Less);
    assert_eq!(version_cmp("1.21.9-pre2", "1.21.9-pre4"), Ordering::Less);
    assert_eq!(version_cmp("1.21.9-rc1", "1.21.9-pre4"), Ordering::Greater);
    assert_eq!(version_cmp("1.21.10", "1.21.9-pre2"), Ordering::Greater);
    assert_eq!(version_cmp("1.21.10", "1.21.9"), Ordering::Greater);
    assert_eq!(version_cmp("1.21.9-pre2", "1.21.9"), Ordering::Less);
    assert_eq!(version_cmp("1.13-pre7", "1.13"), Ordering::Less);
    assert_eq!(version_cmp("1.13", "1.13-pre7"), Ordering::Greater);
    assert_eq!(version_cmp("1.14", "1.13-pre7"), Ordering::Greater);
}

#[test]
fn split_numeric_prefix_unit() {
    assert_eq!(split_numeric_prefix("21"), (Some(21), ""));
    assert_eq!(split_numeric_prefix("9-pre2"), (Some(9), "-pre2"));
    assert_eq!(split_numeric_prefix("rc1"), (None, "rc1"));
    assert_eq!(split_numeric_prefix(""), (None, ""));
    assert_eq!(split_numeric_prefix("0"), (Some(0), ""));
    assert_eq!(split_numeric_prefix("13-pre7"), (Some(13), "-pre7"));
    assert_eq!(split_numeric_prefix("11-rc3"), (Some(11), "-rc3"));
}

#[test]
fn compare_segments_total_order_exhaustive() {
    let segments = [
        "8", "9", "9-pre2", "9-pre4", "9-rc1", "9-rc2", "10", "11-pre3", "11-rc1", "11", "abc",
        "rc1",
    ];
    let mut sorted = segments.to_vec();
    sorted.sort_by(|a, b| compare_segments(a, b));
    for i in 0..sorted.len() {
        for j in i..sorted.len() {
            let cmp = compare_segments(sorted[i], sorted[j]);
            assert!(
                cmp != Ordering::Greater,
                "Total order violation: {:?} should be <= {:?} but got Greater",
                sorted[i],
                sorted[j],
            );
        }
    }
    for a in &segments {
        for b in &segments {
            let ab = compare_segments(a, b);
            let ba = compare_segments(b, a);
            assert_eq!(ab, ba.reverse(), "Antisymmetry violation: cmp({:?},{:?})", a, b);
        }
    }
}

#[test]
fn version_sort_realistic_minecraft_versions() {
    let versions = vec![
        "1.8", "1.8.1", "1.8.2", "1.9", "1.9.1", "1.10", "1.11", "1.12", "1.13", "1.14", "1.15",
        "1.16", "1.17", "1.18", "1.19", "1.19.1", "1.20", "1.20.1", "1.20.4", "1.20.6", "1.21",
        "1.21.1", "1.21.2", "1.21.3", "1.21.4",
    ];
    let opts: Vec<FetchedOption> = versions.into_iter().map(fo).collect();
    let result = sort_and_limit(opts, Some(OptionsSortOrder::Desc), Some(10));
    let values: Vec<&str> = result.iter().map(|o| o.value.as_str()).collect();
    assert_eq!(
        values,
        vec![
            "1.21.4", "1.21.3", "1.21.2", "1.21.1", "1.21", "1.20.6", "1.20.4", "1.20.1", "1.20",
            "1.19.1",
        ]
    );
}

#[test]
fn version_sort_mixed_prerelease_and_release() {
    let opts = vec![fo("1.13-pre7"), fo("1.13"), fo("1.13.1"), fo("1.12.2"), fo("1.14")];
    let sorted = sort_and_limit(opts, Some(OptionsSortOrder::Desc), None);
    let vals: Vec<&str> = sorted.iter().map(|o| o.value.as_str()).collect();
    assert_eq!(vals, vec!["1.14", "1.13.1", "1.13", "1.13-pre7", "1.12.2"]);
}

#[test]
fn root_array_no_path() {
    let response = arr(vec![s("alpha"), s("beta"), s("gamma")]);
    let navigated = json_navigate(&response, None).unwrap();
    let opts = extract_options(navigated, None, None).unwrap();
    assert_eq!(opts.len(), 3);
    assert_eq!(opts[0].value, "alpha");
}

// ── URL scheme ──

#[test]
fn rejects_non_http_scheme() {
    let err = prepare_options_url("ftp://evil.com/data", &vars(&[])).unwrap_err();
    assert!(err.contains("URL scheme must be http or https"));
    assert_eq!(err, "URL scheme must be http or https, got: ftp");
}

#[test]
fn rejects_no_scheme() {
    let err = prepare_options_url("not-a-url", &vars(&[])).unwrap_err();
    assert!(err.contains("URL scheme must be http or https"));
    assert_eq!(err, "URL scheme must be http or https, got: not-a-url");
}

#[test]
fn options_url_substitutes_then_checks() {
    let v = vars(&[("project", "paper")]);
    let url = prepare_options_url("https://api.papermc.io/v2/projects/{{project}}", &v).unwrap();
    assert_eq!(url, "https://api.papermc.io/v2/projects/paper");
    assert!(prepare_options_url("http://example.com", &v).is_ok());
}

// ── Fetched documents ──

#[test]
fn options_from_fetched_document() {
    let reply = FetchReply::Body(br#"{"versions": ["1.20", "1.21", "1.9"]}"#.to_vec());
    let opts = options_from_reply(
        "https://x.test/a",
        &reply,
        Some("versions"),
        None,
        None,
        Some(OptionsSortOrder::Desc),
        Some(2),
    )
    .unwrap();
    let vals: Vec<&str> = opts.iter().map(|o| o.value.as_str()).collect();
    assert_eq!(vals, vec!["1.21", "1.20"]);
}

#[test]
fn options_reply_errors() {
    let url = "https://x.test/a";
    let too_big = FetchReply::Body(vec![b' '; 3 * 1024 * 1024]);
    assert_eq!(
        options_from_reply(url, &too_big, None, None, None, None, None).unwrap_err(),
        "Response from https://x.test/a exceeds 2 MB limit (3145728 bytes)"
    );
    let bad_json = FetchReply::Body(b"not json".to_vec());
    let parser_error = serde_json::from_slice::<serde_json::Value>(b"not json").unwrap_err().to_string();
    assert_eq!(
        options_from_reply(url, &bad_json, None, None, None, None, None).unwrap_err(),
        format!("Response from https://x.test/a is not valid JSON: {}", parser_error)
    );
    let missing = FetchReply::Body(br#"{"a": 1}"#.to_vec());
    assert_eq!(
        options_from_reply(url, &missing, Some("b.c"), None, None, None, None).unwrap_err(),
        "Path 'b.c' did not resolve in the JSON response from https://x.test/a"
    );
    let status = FetchReply::BadStatus("404 Not Found".to_string());
    assert_eq!(
        options_from_reply(url, &status, None, None, None, None, None).unwrap_err(),
        "HTTP 404 Not Found from https://x.test/a"
    );
    let send = FetchReply::SendFailed("timed out".to_string());
    assert_eq!(
        options_from_reply(url, &send, None, None, None, None, None).unwrap_err(),
        "HTTP request to https://x.test/a failed: timed out"
    );
    let read = FetchReply::ReadFailed("reset".to_string());
    assert_eq!(
        options_from_reply(url, &read, None, None, None, None, None).unwrap_err(),
        "Failed to read response body from https://x.test/a: reset"
    );
}

#[test]
fn boolean_elements_are_not_options() {
    let val = JsonValue::Array(vec![JsonValue::Bool(true), JsonValue::Bool(false)]);
    let err = extract_options(&val, None, None).unwrap_err();
    assert!(err.contains("is not a string or number"), "{}", err);
    let obj = JsonValue::Object(vec![("v".to_string(), JsonValue::Bool(true))]);
    let err = extract_options(&JsonValue::Array(vec![obj]), Some("v"), None).unwrap_err();
    assert!(err.contains("is not a string or number"), "{}", err);
}

#[test]
fn boolean_labels_are_printed() {
    let obj = JsonValue::Object(vec![("v".to_string(), s("1.0")), ("stable".to_string(), JsonValue::Bool(true))]);
    let opts = extract_options(&JsonValue::Array(vec![obj]), Some("v"), Some("stable")).unwrap();
    assert_eq!(opts[0].value, "1.0");
    assert_eq!(opts[0].label, "true");
}

#[test]
fn more_segments_over_an_equal_prefix_are_greater() {
    assert_eq!(version_cmp("1.21", "1.21.1"), Ordering::Less);
    assert_eq!(version_cmp("1.21.0", "1.21"), Ordering::Greater);
}

#[test]
fn fetched_numbers_keep_their_printed_text() {
    let reply = FetchReply::Body(br#"[1, 2.5, "x", 30]"#.to_vec());
    let opts = options_from_reply("https://x.test/n", &reply, None, None, None, None, None).unwrap();
    let vals: Vec<&str> = opts.iter().map(|o| o.value.as_str()).collect();
    assert_eq!(vals, vec!["1", "2.5", "x", "30"]);
}
