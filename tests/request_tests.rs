use agent_core::assets::{asset_path, static_content_type};
use agent_core::requests::{
    cortex_chat_limit, cortex_events_limit, default_cortex_chat_limit, default_cortex_events_limit,
    default_memories_limit, default_memories_sort, default_message_limit, default_search_limit,
    locate_agent_entry, memories_fetch_limit, memory_type_filter, message_limit, paginate,
    parse_memory_type, parse_sort, search_limit, thread_id_or_new, AgentSlot, MemoryType,
    SearchSort,
};

#[test]
fn defaults() {
    assert_eq!(default_message_limit(), 20);
    assert_eq!(default_memories_limit(), 50);
    assert_eq!(default_memories_sort(), "recent");
    assert_eq!(default_search_limit(), 20);
    assert_eq!(default_cortex_chat_limit(), 50);
    assert_eq!(default_cortex_events_limit(), 50);
}

#[test]
fn sort_names() {
    assert_eq!(parse_sort("importance"), SearchSort::Importance);
    assert_eq!(parse_sort("most_accessed"), SearchSort::MostAccessed);
    assert_eq!(parse_sort("recent"), SearchSort::Recent);
    assert_eq!(parse_sort("bogus"), SearchSort::Recent);
    assert_eq!(parse_sort(""), SearchSort::Recent);
}

#[test]
fn memory_type_names() {
    assert_eq!(parse_memory_type("fact"), Some(MemoryType::Fact));
    assert_eq!(parse_memory_type("preference"), Some(MemoryType::Preference));
    assert_eq!(parse_memory_type("decision"), Some(MemoryType::Decision));
    assert_eq!(parse_memory_type("identity"), Some(MemoryType::Identity));
    assert_eq!(parse_memory_type("event"), Some(MemoryType::Event));
    assert_eq!(parse_memory_type("observation"), Some(MemoryType::Observation));
    assert_eq!(parse_memory_type("goal"), Some(MemoryType::Goal));
    assert_eq!(parse_memory_type("todo"), Some(MemoryType::Todo));
    assert_eq!(parse_memory_type("Fact"), None);
    assert_eq!(memory_type_filter(&Some("goal".to_string())), Some(MemoryType::Goal));
    assert_eq!(memory_type_filter(&None), None);
}

#[test]
fn limits_are_capped() {
    assert_eq!(message_limit(20), 20);
    assert_eq!(message_limit(500), 100);
    assert_eq!(cortex_chat_limit(201), 200);
    assert_eq!(cortex_events_limit(-5), -5);
    assert_eq!(search_limit(1000), 100);
    assert_eq!(search_limit(7), 7);
}

#[test]
fn memories_fetch_covers_offset() {
    assert_eq!(memories_fetch_limit(50, 0), 50);
    assert_eq!(memories_fetch_limit(500, 30), 230);
    assert_eq!(memories_fetch_limit(200, usize::MAX), i64::MAX);
}

#[test]
fn pagination_skips_offset() {
    let p = paginate(vec![1, 2, 3, 4, 5], 2);
    assert_eq!(p.items, vec![3, 4, 5]);
    assert_eq!(p.total, 5);
    let q = paginate(vec![1, 2], 5);
    assert!(q.items.is_empty());
    assert_eq!(q.total, 2);
}

#[test]
fn agent_entries_are_found_or_appended() {
    let ids = vec![Some("main".to_string()), None, Some("ops".to_string()), Some("ops".to_string())];
    assert_eq!(locate_agent_entry(&ids, "ops"), AgentSlot::Existing(2));
    assert_eq!(locate_agent_entry(&ids, "main"), AgentSlot::Existing(0));
    assert_eq!(locate_agent_entry(&ids, "new"), AgentSlot::Append);
    assert_eq!(locate_agent_entry(&Vec::new(), "main"), AgentSlot::Append);
}

#[test]
fn thread_id_prefers_latest() {
    assert_eq!(thread_id_or_new(Some("t-1".to_string())), "t-1");
}

#[test]
fn fresh_thread_id_is_uuid_v4() {
    let id = thread_id_or_new(None);
    assert_eq!(id.len(), 36);
    let chars: Vec<char> = id.chars().collect();
    for (i, c) in chars.iter().enumerate() {
        if [8, 13, 18, 23].contains(&i) {
            assert_eq!(*c, '-');
        } else {
            assert!(c.is_ascii_hexdigit() && !c.is_ascii_uppercase());
        }
    }
    assert_eq!(chars[14], '4');
    assert!(['8', '9', 'a', 'b'].contains(&chars[19]));
    assert_ne!(thread_id_or_new(None), id);
}

#[test]
fn asset_paths_drop_leading_slashes() {
    assert_eq!(asset_path("/index.html"), "index.html");
    assert_eq!(asset_path("//assets/app.js"), "assets/app.js");
    assert_eq!(asset_path("plain"), "plain");
    assert_eq!(asset_path("/"), "");
}

#[test]
fn content_types_follow_extension() {
    assert_eq!(static_content_type("/index.html"), "text/html");
    assert_eq!(static_content_type("/assets/app.js"), "text/javascript");
    assert_eq!(static_content_type("/style.css"), "text/css");
    assert_eq!(static_content_type("/LICENSE"), "application/octet-stream");
    assert_eq!(static_content_type("/data.unknownext"), "application/octet-stream");
}
