use athena_cli::json::parse_search_response;
use athena_cli::model::CliError;
use athena_cli::client::interpret_search_response;

#[test]
fn decodes_two_skills_in_order() {
    let body = "{\"total\": 2, \"skills\": [{\"id\":\"s1\",\"name\":\"Skill One\",\"description\":\"d1\",\"category\":\"cat\",\"author\":\"a1\"}, {\"id\":\"s2\",\"name\":\"Skill Two\",\"description\":\"d2\",\"category\":\"cat\",\"author\":\"a2\"}]}";
    let resp = parse_search_response(body).expect("body should decode");
    assert_eq!(resp.total, 2);
    assert_eq!(resp.skills.len(), 2);
    assert_eq!(resp.skills[0].id, "s1");
    assert_eq!(resp.skills[0].name, "Skill One");
    assert_eq!(resp.skills[0].description, "d1");
    assert_eq!(resp.skills[0].category, "cat");
    assert_eq!(resp.skills[0].author, "a1");
    assert_eq!(resp.skills[1].id, "s2");
    assert_eq!(resp.skills[1].name, "Skill Two");
}

#[test]
fn decodes_empty_skill_list() {
    let resp = parse_search_response("{\"total\": 0, \"skills\": []}").expect("body should decode");
    assert_eq!(resp.total, 0);
    assert_eq!(resp.skills.len(), 0);
}

#[test]
fn decodes_members_in_any_order() {
    let body = "{ \"skills\": [ { \"author\": \"a\", \"category\": \"c\", \"description\": \"d\", \"name\": \"n\", \"id\": \"i\" } ], \"total\": 1 }";
    let resp = parse_search_response(body).expect("body should decode");
    assert_eq!(resp.total, 1);
    assert_eq!(resp.skills[0].id, "i");
    assert_eq!(resp.skills[0].author, "a");
}

#[test]
fn decodes_string_escapes() {
    let body = "{\"total\":1,\"skills\":[{\"id\":\"a\\\"b\",\"name\":\"x\\\\y\",\"description\":\"line\\nbreak\",\"category\":\"tab\\there\",\"author\":\"slash\\/ok\"}]}";
    let resp = parse_search_response(body).expect("body should decode");
    assert_eq!(resp.skills[0].id, "a\"b");
    assert_eq!(resp.skills[0].name, "x\\y");
    assert_eq!(resp.skills[0].description, "line\nbreak");
    assert_eq!(resp.skills[0].category, "tab\there");
    assert_eq!(resp.skills[0].author, "slash/ok");
}

#[test]
fn decodes_unicode_escapes() {
    let body = "{\"total\":1,\"skills\":[{\"id\":\"\\u0041\",\"name\":\"caf\\u00e9\",\"description\":\"\\u4e2d\",\"category\":\"\\u00E9\",\"author\":\"\\ud83d\\ude00\"}]}";
    let resp = parse_search_response(body).expect("body should decode");
    assert_eq!(resp.skills[0].id, "A");
    assert_eq!(resp.skills[0].name, "café");
    assert_eq!(resp.skills[0].description, "中");
    assert_eq!(resp.skills[0].category, "é");
    assert_eq!(resp.skills[0].author, "😀");
}

#[test]
fn rejects_bad_unicode_escapes() {
    let shape = |v: &str| {
        format!(
            "{{\"total\":1,\"skills\":[{{\"id\":\"{}\",\"name\":\"n\",\"description\":\"d\",\"category\":\"c\",\"author\":\"a\"}}]}}",
            v
        )
    };
    assert!(parse_search_response(&shape("\\ud83d")).is_none());
    assert!(parse_search_response(&shape("\\ud83dx")).is_none());
    assert!(parse_search_response(&shape("\\ude00")).is_none());
    assert!(parse_search_response(&shape("\\ud83d\\u0041")).is_none());
    assert!(parse_search_response(&shape("\\u12g4")).is_none());
    assert!(parse_search_response(&shape("\\u12")).is_none());
}

#[test]
fn rejects_missing_required_field() {
    assert!(parse_search_response("{\"total\": 2}").is_none());
    assert!(parse_search_response("{\"skills\": []}").is_none());
    let body = "{\"total\":1,\"skills\":[{\"id\":\"i\",\"name\":\"n\",\"description\":\"d\",\"category\":\"c\"}]}";
    assert!(parse_search_response(body).is_none());
}

#[test]
fn rejects_unknown_and_repeated_fields() {
    assert!(parse_search_response("{\"total\": 0, \"skills\": [], \"extra\": 1}").is_none());
    assert!(parse_search_response("{\"total\": 0, \"total\": 1, \"skills\": []}").is_none());
}

#[test]
fn rejects_malformed_bodies() {
    assert!(parse_search_response("").is_none());
    assert!(parse_search_response("not json").is_none());
    assert!(parse_search_response("{\"total\": 0, \"skills\": []} trailing").is_none());
    assert!(parse_search_response("{\"total\": -1, \"skills\": []}").is_none());
    assert!(parse_search_response("{\"total\": 1.5, \"skills\": []}").is_none());
    assert!(parse_search_response("{\"total\": 007, \"skills\": []}").is_none());
    assert!(parse_search_response("{\"total\": 4294967296, \"skills\": []}").is_none());
}

#[test]
fn accepts_largest_total() {
    let resp = parse_search_response("{\"total\": 4294967295, \"skills\": []}").expect("fits u32");
    assert_eq!(resp.total, 4294967295);
}

#[test]
fn non_success_status_is_api_error_and_body_is_ignored() {
    let good = "{\"total\": 0, \"skills\": []}";
    assert_eq!(interpret_search_response(500, "boom").unwrap_err(), CliError::Api(500));
    assert_eq!(interpret_search_response(500, good).unwrap_err(), CliError::Api(500));
    assert_eq!(interpret_search_response(404, good).unwrap_err(), CliError::Api(404));
    assert_eq!(interpret_search_response(199, good).unwrap_err(), CliError::Api(199));
    assert_eq!(interpret_search_response(300, good).unwrap_err(), CliError::Api(300));
}

#[test]
fn undecodable_success_body_is_decode_error_not_api_error() {
    let e = interpret_search_response(200, "{\"total\": 2}").unwrap_err();
    assert_eq!(e, CliError::Decode);
    assert_ne!(e, CliError::Api(200));
}

#[test]
fn success_status_with_good_body_is_ok() {
    let resp = interpret_search_response(201, "{\"total\": 0, \"skills\": []}").unwrap();
    assert_eq!(resp.total, 0);
}
