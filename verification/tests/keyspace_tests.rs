use restix::keyspace::{
    check_ping_reply, describe_value, disconnected_data, get_full_value, key_info_from, keys_to_inspect,
    preview_query, scanned_data, value_preview, value_query, PreviewQuery, StoredValue,
    ValueQuery,
};
use restix::models::{KeyInfo, RedisData};

fn key(name: &str, memory: u64) -> KeyInfo {
    KeyInfo {
        name: name.to_string(),
        key_type: "string".to_string(),
        ttl: -1,
        memory_bytes: memory,
        value_preview: String::new(),
    }
}

#[test]
fn queries_by_type() {
    assert_eq!(value_query("string"), ValueQuery::Get);
    assert_eq!(value_query("list"), ValueQuery::ListRange);
    assert_eq!(value_query("hash"), ValueQuery::HashAll);
    assert_eq!(value_query("set"), ValueQuery::SetMembers);
    assert_eq!(value_query("zset"), ValueQuery::SortedRange);
    assert_eq!(value_query("String"), ValueQuery::Unsupported);
    assert_eq!(value_query("stream"), ValueQuery::Unsupported);
    assert_eq!(preview_query("string"), PreviewQuery::Get);
    assert_eq!(preview_query("list"), PreviewQuery::ListLength);
    assert_eq!(preview_query("hash"), PreviewQuery::HashLength);
    assert_eq!(preview_query("set"), PreviewQuery::SetCardinality);
    assert_eq!(preview_query("zset"), PreviewQuery::NoQuery);
}

#[test]
fn previews() {
    assert_eq!(value_preview(PreviewQuery::Get, "hello", 0), "hello");
    let long = "x".repeat(51);
    assert_eq!(value_preview(PreviewQuery::Get, &long, 0), format!("{}...", "x".repeat(47)));
    assert_eq!(value_preview(PreviewQuery::Get, &"y".repeat(50), 0), "y".repeat(50));
    assert_eq!(value_preview(PreviewQuery::ListLength, "", 3), "[3 items]");
    assert_eq!(value_preview(PreviewQuery::HashLength, "", 2), "{2 fields}");
    assert_eq!(value_preview(PreviewQuery::SetCardinality, "", 0), "[0 items]");
    assert_eq!(value_preview(PreviewQuery::NoQuery, "", 9), "[binary data]");
}

#[test]
fn full_values() {
    assert_eq!(describe_value(&StoredValue::Text(String::new())), "(empty string)");
    assert_eq!(describe_value(&StoredValue::Text("plain".to_string())), "plain");
    assert_eq!(describe_value(&StoredValue::Text("{\"a\":1}".to_string())), "{\n  \"a\": 1\n}");
    assert_eq!(describe_value(&StoredValue::List(vec![])), "(empty list)");
    assert_eq!(
        describe_value(&StoredValue::List(vec!["a".to_string(), "[1]".to_string()])),
        "[0] a\n[1]\n    [\n      1\n    ]"
    );
    assert_eq!(describe_value(&StoredValue::Hash(vec![])), "(empty hash)");
    assert_eq!(
        describe_value(&StoredValue::Hash(vec![
            ("k".to_string(), "v".to_string()),
            ("j".to_string(), "{\"x\":true}".to_string()),
        ])),
        "k: v\nj:\n{\n  \"x\": true\n}"
    );
    assert_eq!(describe_value(&StoredValue::Members(vec![])), "(empty set)");
    assert_eq!(
        describe_value(&StoredValue::Members(vec!["m".to_string(), "[2]".to_string()])),
        "[0] m\n[1]\n[\n  2\n]"
    );
    assert_eq!(describe_value(&StoredValue::SortedSet(vec![])), "(empty sorted set)");
    assert_eq!(
        describe_value(&StoredValue::SortedSet(vec![
            ("a".to_string(), "1.5".to_string()),
            ("[3]".to_string(), "2".to_string()),
        ])),
        "a (score: 1.5)\n[\n  3\n] (score: 2)\n[\n  3\n]"
    );
    assert_eq!(describe_value(&StoredValue::Unsupported), "(unsupported type)");
    assert_eq!(
        get_full_value(false, &StoredValue::Text("x".to_string())),
        "Not connected to Redis. Use Tab to go to Settings and connect."
    );
    assert_eq!(get_full_value(true, &StoredValue::Text("x".to_string())), "x");
}

#[test]
fn scans() {
    let names: Vec<String> = (0..1500).map(|i| format!("k{}", i)).collect();
    let picked = keys_to_inspect(&names);
    assert_eq!(picked.len(), 1000);
    assert_eq!(picked[999], "k999");
    let few: Vec<String> = vec!["a".to_string()];
    assert_eq!(keys_to_inspect(&few), few);
    let data: RedisData = scanned_data(vec![key("a", 10), key("b", 32)]);
    assert_eq!(data.total_memory, 42);
    assert!(data.connected);
    assert!(data.error.is_none());
    assert_eq!(data.keys.len(), 2);
    let none = disconnected_data();
    assert!(!none.connected);
    assert_eq!(none.error.as_deref(), Some("Not connected to Redis"));
    let default = RedisData::default();
    assert!(default.keys.is_empty() && default.total_memory == 0 && !default.connected);
}

#[test]
fn ping_replies() {
    assert_eq!(check_ping_reply("PONG"), Ok(()));
    assert_eq!(check_ping_reply("pong"), Err("Unexpected PING response: pong".to_string()));
}

#[test]
fn key_entries_from_scan_replies() {
    let k = key_info_from("user:1".to_string(), "list".to_string(), 30, 120, "", 4);
    assert_eq!(k.name, "user:1");
    assert_eq!(k.key_type, "list");
    assert_eq!(k.ttl, 30);
    assert_eq!(k.memory_bytes, 120);
    assert_eq!(k.value_preview, "[4 items]");
    let long = "x".repeat(60);
    let s = key_info_from("s".to_string(), "string".to_string(), -1, 8, &long, 0);
    assert_eq!(s.value_preview, format!("{}...", "x".repeat(47)));
    let h = key_info_from("h".to_string(), "hash".to_string(), -1, 8, "", 2);
    assert_eq!(h.value_preview, "{2 fields}");
    let z = key_info_from("z".to_string(), "zset".to_string(), -2, 0, "", 0);
    assert_eq!(z.value_preview, "[binary data]");
}
