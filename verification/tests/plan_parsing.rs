use seasons::ollama::models::{PlannedAction, PlannedResponse};
use seasons::ollama::planning::{
    extract_first_json_object, next_significant_char, parse_planned_response, plan_reply,
    planned_response_candidates, repair_missing_commas, strip_markdown_json_block,
};

#[test]
fn commas_are_inserted_between_members() {
    assert_eq!(repair_missing_commas(r#"{"a":1 "b":2}"#), r#"{"a":1, "b":2}"#);
    assert_eq!(repair_missing_commas(r#"{"a":"x" "b":"y"}"#), r#"{"a":"x", "b":"y"}"#);
    assert_eq!(repair_missing_commas(r#"{"a":true "b":null}"#), r#"{"a":true, "b":null}"#);
    assert_eq!(repair_missing_commas("{\"a\":{}\n\"b\":[]\n}"), "{\"a\":{},\n\"b\":[]\n}");
}

#[test]
fn repair_leaves_valid_json_and_string_contents_alone() {
    let valid = r#"{"a": 1, "b": [1, 2], "c": "x"}"#;
    assert_eq!(repair_missing_commas(valid), valid);
    let quoted = r#"{"a":"1 \"2\" 3"}"#;
    assert_eq!(repair_missing_commas(quoted), quoted);
    assert_eq!(repair_missing_commas(""), "");
}

#[test]
fn repair_only_adds_commas() {
    let input = r#"{"a":1 "b":"x" "c":false "d":{"e":2 "f":3}}"#;
    let output = repair_missing_commas(input);
    assert_eq!(output.replace(',', ""), input.replace(',', ""));
    assert!(output.len() > input.len());
}

#[test]
fn next_significant_char_skips_whitespace() {
    let chars: Vec<char> = "a  \n b".chars().collect();
    assert_eq!(next_significant_char(&chars, 1), Some('b'));
    assert_eq!(next_significant_char(&chars, 0), Some('a'));
    assert_eq!(next_significant_char(&chars, 6), None);
    let blank: Vec<char> = "   ".chars().collect();
    assert_eq!(next_significant_char(&blank, 0), None);
}

#[test]
fn code_fence_bodies_are_extracted() {
    assert_eq!(
        strip_markdown_json_block("```json\n{\"a\":1}\n```"),
        Some("{\"a\":1}".to_string())
    );
    assert_eq!(
        strip_markdown_json_block("  ```\nline one\nline two\n  ``` trailing"),
        Some("line one\nline two".to_string())
    );
    assert_eq!(strip_markdown_json_block("```\nunclosed"), Some("unclosed".to_string()));
    assert_eq!(strip_markdown_json_block("```\n```"), None);
    assert_eq!(strip_markdown_json_block("{\"a\":1}"), None);
}

#[test]
fn first_balanced_object_is_found() {
    assert_eq!(
        extract_first_json_object("Here: {\"a\": {\"b\": 1}} trailing {\"c\":2}"),
        Some("{\"a\": {\"b\": 1}}".to_string())
    );
    assert_eq!(
        extract_first_json_object("x {\"a\":\"}\\\"{\"} y"),
        Some("{\"a\":\"}\\\"{\"}".to_string())
    );
    assert_eq!(extract_first_json_object("{\"a\":1"), None);
    assert_eq!(extract_first_json_object("no object here"), None);
    assert_eq!(extract_first_json_object("é {}"), Some("{}".to_string()));
}

#[test]
fn candidates_come_in_trial_order() {
    assert_eq!(planned_response_candidates("  plain text "), vec!["plain text".to_string()]);
    assert!(planned_response_candidates("\u{feff}   ").is_empty());
    let reply = "Sure: {\"a\":1 \"b\":2}";
    assert_eq!(
        planned_response_candidates(reply),
        vec![
            "Sure: {\"a\":1 \"b\":2}".to_string(),
            "Sure: {\"a\":1, \"b\":2}".to_string(),
            "{\"a\":1 \"b\":2}".to_string(),
            "{\"a\":1, \"b\":2}".to_string(),
        ]
    );
}

#[test]
fn fenced_reply_yields_body_and_object_candidates() {
    let reply = "```json\n{\"x\":[]}\n```";
    assert_eq!(
        planned_response_candidates(reply),
        vec![reply.to_string(), "{\"x\":[]}".to_string(), "{\"x\":[]}".to_string()]
    );
}

/// No exact-format parse for any candidate text of a reply.
fn no_exact(content: &str) -> Vec<Option<PlannedResponse>> {
    planned_response_candidates(content).iter().map(|_| None).collect()
}

#[test]
fn blank_reply_is_an_empty_plan() {
    let plan = parse_planned_response("\u{feff}  ", vec![]).unwrap();
    assert_eq!(plan, PlannedResponse { assistant_message: String::new(), actions: vec![] });
}

#[test]
fn first_attempt_that_yields_a_plan_wins() {
    let exact = PlannedResponse {
        assistant_message: "exact".to_string(),
        actions: vec![PlannedAction::ActivateScene { scene_id: "s1".to_string(), group_id: None }],
    };
    let reply = "```json\n{\"assistantMessage\":\"fenced\",\"actions\":[]}\n```";
    assert_eq!(planned_response_candidates(reply).len(), 3);
    assert_eq!(parse_planned_response(reply, vec![None, Some(exact.clone()), None]), Ok(exact));
    let plan = parse_planned_response(reply, no_exact(reply)).unwrap();
    assert_eq!(plan.assistant_message, "fenced");
}

#[test]
fn json_reading_is_used_when_the_exact_parse_fails() {
    let reply = "{\"assistantMessage\":\"  hello \",\"actions\":[]}";
    let plan = parse_planned_response(reply, no_exact(reply)).unwrap();
    assert_eq!(plan.assistant_message, "hello");
    assert!(plan.actions.is_empty());
}

#[test]
fn repaired_text_is_parsed_when_the_reply_lacks_a_comma() {
    let reply = "{\"assistantMessage\":\"fixed\" \"actions\":[{\"type\":\"activateScene\",\"sceneId\":\"7\"}]}";
    let plan = parse_planned_response(reply, no_exact(reply)).unwrap();
    assert_eq!(plan.assistant_message, "fixed");
    assert_eq!(plan.actions, vec![PlannedAction::ActivateScene { scene_id: "7".to_string(), group_id: None }]);
}

#[test]
fn reply_without_plan_is_quoted_in_the_error() {
    assert_eq!(
        parse_planned_response("  not json  ", no_exact("  not json  ")),
        Err("Ollama did not return valid structured JSON. Raw output: not json".to_string())
    );
    assert_eq!(
        parse_planned_response("[1, 2]", no_exact("[1, 2]")),
        Err("Ollama did not return valid structured JSON. Raw output: [1, 2]".to_string())
    );
}

#[test]
fn unquotable_reply_without_plan_is_reported() {
    let cut_inside = format!("{}é tail", "a".repeat(399));
    assert_eq!(plan_reply(&cut_inside, no_exact(&cut_inside)), None);
    let cut_between = format!("{}é tail", "a".repeat(400));
    assert_eq!(
        plan_reply(&cut_between, no_exact(&cut_between)),
        Some(Err(format!("Ollama did not return valid structured JSON. Raw output: {}…", "a".repeat(400))))
    );
    let plan = plan_reply("{\"assistantMessage\":\"hi\"}", no_exact("{\"assistantMessage\":\"hi\"}"));
    assert_eq!(plan.unwrap().unwrap().assistant_message, "hi");
    assert_eq!(plan_reply(" ", vec![]), Some(Ok(PlannedResponse { assistant_message: String::new(), actions: vec![] })));
}
