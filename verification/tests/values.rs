use rig_tasks::descriptor::ToolTaskDescriptor;
use rig_tasks::duration::{duration_from_millis, duration_to_millis, Duration};
use rig_tasks::json::{Json, JsonMap};
use rig_tasks::meta::{
    request_meta_from_trace, retained_trace_meta, without_reserved_client_meta,
    CLIENT_CAPABILITIES_META_KEY, CLIENT_INFO_META_KEY, PROTOCOL_VERSION_META_KEY,
    TRACEPARENT_META_KEY, TRACESTATE_META_KEY,
};
use rig_tasks::requests::{
    arguments_from, json_value_kind, parse_mcp_arguments, McpArgumentError,
};
use rig_tasks::json::JsonKind;
use rig_tasks::string_map::StringMap;
use rig_tasks::text::{decimal_text, less, same, trim};
use rig_tasks::timer::next_slice;

fn entry(map: &mut JsonMap, key: &str, value: &str) {
    map.put(key.to_owned(), Json::parse(value).expect("value"));
}

#[test]
fn per_call_meta_cannot_override_discover_owned_client_context() {
    let mut meta: JsonMap = StringMap::new();
    entry(
        &mut meta,
        "io.modelcontextprotocol/protocolVersion",
        "\"attacker-version\"",
    );
    entry(
        &mut meta,
        "io.modelcontextprotocol/clientInfo",
        "{\"name\": \"attacker\", \"version\": \"0\"}",
    );
    entry(
        &mut meta,
        "io.modelcontextprotocol/clientCapabilities",
        "{\"sampling\": {}}",
    );
    entry(
        &mut meta,
        "traceparent",
        "\"00-0af7651916cd43dd8448eb211c80319c-00f067aa0ba902b7-01\"",
    );

    let sanitized = without_reserved_client_meta(Some(meta)).expect("metadata remains");
    for key in [
        PROTOCOL_VERSION_META_KEY,
        CLIENT_INFO_META_KEY,
        CLIENT_CAPABILITIES_META_KEY,
    ] {
        assert!(!sanitized.contains_key(key));
    }
    assert_eq!(
        sanitized
            .get("traceparent")
            .and_then(|value| value.as_string())
            .as_deref(),
        Some("00-0af7651916cd43dd8448eb211c80319c-00f067aa0ba902b7-01")
    );
    assert!(without_reserved_client_meta(None).is_none());
}

#[test]
fn only_trace_entries_reach_later_requests() {
    let mut meta: JsonMap = StringMap::new();
    entry(&mut meta, "traceparent", "\"parent\"");
    entry(&mut meta, "tracestate", "\"state\"");
    entry(&mut meta, "authorization", "\"Bearer test\"");
    let trace = retained_trace_meta(Some(&meta));
    assert_eq!(trace.len(), 2);
    let later = request_meta_from_trace(&trace).expect("trace metadata");
    assert_eq!(
        later.key_list(),
        vec![TRACEPARENT_META_KEY.to_owned(), TRACESTATE_META_KEY.to_owned()]
    );
    assert_eq!(later.get("traceparent").expect("parent").text, "\"parent\"");
    assert!(later.get("authorization").is_none());

    let nothing = retained_trace_meta(None);
    assert!(nothing.is_empty());
    assert!(request_meta_from_trace(&nothing).is_none());
}

#[test]
fn string_maps_walk_their_keys_in_order() {
    let mut map: StringMap<u64> = StringMap::new();
    assert!(map.insert("b".to_owned(), 2).is_none());
    assert!(map.insert("a".to_owned(), 1).is_none());
    assert!(map.insert("ä".to_owned(), 4).is_none());
    assert!(map.insert("ab".to_owned(), 3).is_none());
    assert_eq!(map.insert("b".to_owned(), 5), Some(2));
    assert_eq!(map.key_list(), vec!["a", "ab", "b", "ä"]);
    assert_eq!(map.len(), 4);
    assert_eq!(map.get("b"), Some(&5));
    assert_eq!(map.get("c"), None);
    assert_eq!(map.key_at(1), "ab");
    assert_eq!(*map.value_at(1), 3);
    assert_eq!(map.remove("ab"), Some(3));
    assert_eq!(map.remove("ab"), None);
    map.put("a".to_owned(), 10);
    map.put("z".to_owned(), 26);
    assert_eq!(map.key_list(), vec!["a", "b", "z", "ä"]);
    assert_eq!(map.get("a"), Some(&10));
    assert_eq!(map.clone().key_list(), map.key_list());
    map.clear();
    assert!(map.is_empty());
}

#[test]
fn texts_are_compared_like_strings() {
    for (a, b) in [("", "a"), ("a", "b"), ("a", "aa"), ("Z", "a"), ("z", "é"), ("é", "😀")] {
        assert_eq!(less(a, b), a < b);
        assert_eq!(less(b, a), b < a);
        assert!(!less(a, a));
        assert!(same(a, a));
        assert!(!same(a, b));
    }
}

#[test]
fn texts_are_trimmed_like_strings() {
    for text in [
        "", " ", "a", " a ", "\t\n a b \r", "\u{a0}x\u{3000}", "\u{200b}x", "\u{2028}", "\u{85}y",
    ] {
        assert_eq!(trim(text), text.trim());
    }
}

#[test]
fn numbers_are_rendered_in_decimal() {
    for n in [0u64, 7, 10, 99, 100, 18_446_744_073_709_551_615] {
        assert_eq!(decimal_text(n), n.to_string());
    }
}

#[test]
fn durations_count_like_std() {
    for (secs, nanos) in [(0u64, 0u32), (1, 0), (0, 25_000_000), (3, 999_999_999), (u64::MAX, 1)] {
        let ours = Duration::new(secs, nanos);
        let theirs = std::time::Duration::new(secs, nanos);
        assert_eq!(ours.as_millis(), theirs.as_millis());
        assert_eq!(ours.as_secs(), theirs.as_secs());
        assert_eq!(ours.subsec_nanos(), theirs.subsec_nanos());
        assert_eq!(ours.is_zero(), theirs.is_zero());
        assert_eq!(ours.debug_text(), format!("{theirs:?}"));
    }
    let long = Duration::new(2, 1);
    let short = Duration::new(1, 999_999_999);
    assert_eq!(long.min(short), short);
    assert_eq!(long.max(short), long);
    assert_eq!(long.saturating_sub(short), Duration::new(0, 2));
    assert_eq!(short.saturating_sub(long), Duration::zero());
    assert_eq!(Duration::from_millis(1_500), Duration::new(1, 500_000_000));
}

#[test]
fn millisecond_counts_round_trip() {
    assert_eq!(duration_to_millis(None), None);
    assert_eq!(duration_to_millis(duration_from_millis(Some(1_234))), Some(1_234));
    assert_eq!(
        duration_to_millis(duration_from_millis(Some(u64::MAX))),
        Some(u64::MAX)
    );
    assert_eq!(
        duration_to_millis(Some(Duration::from_secs(u64::MAX))),
        Some(u64::MAX)
    );
    assert_eq!(duration_to_millis(Some(Duration::new(0, 999_999))), Some(0));
}

#[test]
fn long_waits_are_cut_into_days() {
    let mut remaining = Duration::from_secs(200_000);
    let mut total = 0u64;
    let mut slices = 0;
    loop {
        let (slice, rest) = next_slice(remaining);
        assert!(slice.as_secs() <= 86_400);
        total += slice.as_secs();
        slices += 1;
        remaining = rest;
        if remaining.is_zero() {
            break;
        }
    }
    assert_eq!(total, 200_000);
    assert_eq!(slices, 3);
    let (slice, rest) = next_slice(Duration::zero());
    assert!(slice.is_zero() && rest.is_zero());
}

#[test]
fn json_is_read_by_serde_json() {
    assert_eq!(
        Json::parse("{ \"b\": [1, 2.5, null], \"a\": \"x\" }").expect("object").text,
        "{\"a\":\"x\",\"b\":[1,2.5,null]}"
    );
    let error = Json::parse("{").expect_err("malformed");
    assert_eq!(
        error,
        serde_json::from_str::<serde_json::Value>("{")
            .expect_err("malformed")
            .to_string()
    );
    assert_eq!(
        Json::parse("\"a\\nb\"").expect("string").as_string().as_deref(),
        Some("a\nb")
    );
    assert_eq!(Json::parse("7").expect("number").as_string(), None);
    let object = Json::parse("{\"k\": {\"n\": 1}}").expect("object");
    assert_eq!(object.member("k").expect("member").text, "{\"n\":1}");
    assert!(object.member("x").is_none());
    assert!(Json::parse("[1]").expect("array").member("k").is_none());
    assert_eq!(
        Json::parse("[\"only\"]").expect("array").only_item_string().as_deref(),
        Some("only")
    );
    assert_eq!(object.only_item_string(), None);
}

#[test]
fn arguments_are_objects_or_nothing() {
    for args in ["", "   ", "null", " null "] {
        assert!(matches!(parse_mcp_arguments(args), Ok(None)), "{args:?}");
    }
    match parse_mcp_arguments("\u{a0}{\"x\": 1}\n") {
        Ok(Some(object)) => assert_eq!(object.text, "{\"x\":1}"),
        other => panic!("unexpected {other:?}"),
    }
    for (args, kind) in [
        ("[1,2]", "array"),
        ("\"text\"", "string"),
        ("7", "number"),
        ("true", "boolean"),
    ] {
        let error = parse_mcp_arguments(args).expect_err("no object");
        assert!(matches!(error, McpArgumentError::NonObject(_)));
        assert_eq!(
            error.to_string(),
            format!("expected a JSON object or null, got {kind}")
        );
    }
    let malformed = parse_mcp_arguments("{").expect_err("malformed");
    assert!(matches!(malformed, McpArgumentError::Json(_)));
    assert!(malformed.to_string().starts_with("invalid JSON: "));
    assert!(matches!(
        arguments_from(Ok((JsonKind::Null, "null".to_owned()))),
        Ok(None)
    ));
    assert_eq!(json_value_kind(JsonKind::Null), "null");
    assert_eq!(json_value_kind(JsonKind::Object), "object");
}

#[test]
fn descriptors_start_without_optionals() {
    let descriptor = ToolTaskDescriptor::new(
        ToolTaskDescriptor::BACKEND_MCP.to_owned(),
        "t-1".to_owned(),
        "search".to_owned(),
    );
    assert_eq!(descriptor.backend, "mcp");
    assert_eq!(descriptor.task_id, "t-1");
    assert_eq!(descriptor.tool_name, "search");
    assert!(descriptor.server_key.is_none());
    assert!(descriptor.created_at.is_none());
    assert!(descriptor.ttl_ms.is_none());
    assert!(descriptor.poll_interval_ms.is_none());
    assert!(descriptor.immediate_response.is_none());
}
