use athena_cli::model::CliError;
use athena_cli::model::SearchResponse;
use athena_cli::model::SkillResult;
use athena_cli::num::str_to_u32;
use athena_cli::num::u64_to_string;
use athena_cli::render::render_search_error;
use athena_cli::render::render_search_results;

fn skill(id: &str, name: &str, description: &str, category: &str, author: &str) -> SkillResult {
    SkillResult {
        id: id.to_string(),
        name: name.to_string(),
        description: description.to_string(),
        category: category.to_string(),
        author: author.to_string(),
    }
}

#[test]
fn renders_no_results_notice_without_list_or_hint() {
    let resp = SearchResponse { total: 0, skills: Vec::new() };
    let out = render_search_results("test", &resp);
    assert_eq!(out, "Found 0 results for 'test'\n\nNo skills found matching your query.\n");
    assert!(!out.contains("1."));
    assert!(!out.contains("install"));
}

#[test]
fn renders_two_numbered_entries_in_order_with_hint() {
    let resp = SearchResponse {
        total: 2,
        skills: vec![
            skill("s1", "Skill One", "d1", "cat", "a1"),
            skill("s2", "Skill Two", "d2", "cat", "a2"),
        ],
    };
    let out = render_search_results("test", &resp);
    let expected = "Found 2 results for 'test'\n\n\
        1. Skill One (s1)\n   by a1\n   d1\n   Category: cat\n\n\
        2. Skill Two (s2)\n   by a2\n   d2\n   Category: cat\n\n\
        Run 'athena install <skill-id>' to install a skill\n";
    assert_eq!(out, expected);
    let one = out.find("Skill One (s1)").unwrap();
    let two = out.find("Skill Two (s2)").unwrap();
    assert!(one < two);
}

#[test]
fn numbers_entries_from_one() {
    let resp = SearchResponse {
        total: 3,
        skills: vec![
            skill("a", "A", "da", "c", "aa"),
            skill("b", "B", "db", "c", "ab"),
            skill("c", "C", "dc", "c", "ac"),
        ],
    };
    let out = render_search_results("q", &resp);
    assert!(out.contains("1. A (a)"));
    assert!(out.contains("2. B (b)"));
    assert!(out.contains("3. C (c)"));
    assert!(!out.contains("0. "));
}

#[test]
fn api_error_line_carries_the_status_code() {
    let out = render_search_error(&CliError::Api(500));
    assert_eq!(out, "Error: Failed to search: 500\n");
    assert!(out.contains("500"));
}

#[test]
fn the_three_error_kinds_render_distinctly() {
    let api = render_search_error(&CliError::Api(404));
    let decode = render_search_error(&CliError::Decode);
    let transport = render_search_error(&CliError::Transport);
    assert_ne!(api, decode);
    assert_ne!(api, transport);
    assert_ne!(decode, transport);
}

#[test]
fn renders_decimal_digits() {
    assert_eq!(u64_to_string(0), "0");
    assert_eq!(u64_to_string(7), "7");
    assert_eq!(u64_to_string(10), "10");
    assert_eq!(u64_to_string(40210), "40210");
    assert_eq!(u64_to_string(u64::MAX), "18446744073709551615");
}

#[test]
fn reads_decimal_strings() {
    assert_eq!(str_to_u32("0"), Some(0));
    assert_eq!(str_to_u32("10"), Some(10));
    assert_eq!(str_to_u32("007"), Some(7));
    assert_eq!(str_to_u32("4294967295"), Some(4294967295));
    assert_eq!(str_to_u32("4294967296"), None);
    assert_eq!(str_to_u32(""), None);
    assert_eq!(str_to_u32("12a"), None);
    assert_eq!(str_to_u32("-1"), None);
}
