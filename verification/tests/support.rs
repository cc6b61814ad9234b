use moltbot_harness::brain::project_from_path;
use moltbot_harness::campaign::clamp_points;
use moltbot_harness::json::{json_to_string, parse_json};
use moltbot_harness::model::{mask_token, parse_action_type, parse_agent_type, ActionType, AgentType};
use moltbot_harness::text::{parse_u64, truncate};

#[test]
fn test_project_from_path() {
    assert_eq!(
        project_from_path("/Volumes/formac/proj/safebot/src/main.rs"),
        "/Volumes/formac/proj/safebot"
    );
}

#[test]
fn test_clamp_points() {
    assert_eq!(clamp_points(120, 100), 100);
    assert_eq!(clamp_points(80, 100), 80);
}

#[test]
fn test_json_round_trip() {
    let v = parse_json(r#"{"a":1,"b":[true,null,"x\n"],"c":{"d":"\u0001"}}"#).unwrap();
    let s = json_to_string(&v);
    let reparsed: serde_json::Value = serde_json::from_str(&s).unwrap();
    let direct: serde_json::Value =
        serde_json::from_str(r#"{"a":1,"b":[true,null,"x\n"],"c":{"d":"\u0001"}}"#).unwrap();
    assert_eq!(reparsed, direct);
}

#[test]
fn test_json_serializer_escapes() {
    let v = parse_json("{\"s\":\"a\\\"b\\\\c\\nd\"}").unwrap();
    let s = json_to_string(&v);
    assert_eq!(s, "{\"s\":\"a\\\"b\\\\c\\nd\"}");
}

#[test]
fn test_parse_helpers() {
    assert_eq!(parse_agent_type("MOLTBOT"), AgentType::Moltbot);
    assert_eq!(parse_agent_type("somebody"), AgentType::Unknown);
    assert_eq!(parse_action_type("Exec"), ActionType::Exec);
    assert_eq!(parse_action_type("exec"), ActionType::Unknown);
}

#[test]
fn test_mask_token_shapes() {
    assert_eq!(mask_token("short"), "****");
    assert_eq!(mask_token("1234567890ab"), "1234****90ab");
}

#[test]
fn test_truncate_marks_cut() {
    assert_eq!(truncate("hello world", 5), "hello...");
    assert_eq!(truncate("hi", 5), "hi");
}

#[test]
fn test_parse_u64_bounds() {
    assert_eq!(parse_u64("0"), Some(0));
    assert_eq!(parse_u64("18446744073709551615"), Some(u64::MAX));
    assert_eq!(parse_u64("18446744073709551616"), None);
    assert_eq!(parse_u64("12a"), None);
    assert_eq!(parse_u64(""), None);
}
