use athena_cli::args::parse_args;
use athena_cli::args::render_usage;
use athena_cli::client::build_search_url;
use athena_cli::model::ArgError;
use athena_cli::model::Command;

fn strings(parts: &[&str]) -> Vec<String> {
    parts.iter().map(|p| p.to_string()).collect()
}

#[test]
fn parses_search_with_limit() {
    let cli = parse_args(&strings(&["search", "test", "--limit", "2"]), &None).unwrap();
    assert!(!cli.verbose);
    assert_eq!(cli.api_url, "http://localhost:8000/api");
    match &cli.command {
        Command::Search { query, category, limit } => {
            assert_eq!(query, "test");
            assert!(category.is_none());
            assert_eq!(*limit, 2);
        },
        other => panic!("expected a search command, got {:?}", other),
    }
}

#[test]
fn search_limit_defaults_to_ten() {
    let cli = parse_args(&strings(&["search", "q"]), &None).unwrap();
    match &cli.command {
        Command::Search { limit, .. } => assert_eq!(*limit, 10),
        other => panic!("expected a search command, got {:?}", other),
    }
}

#[test]
fn parses_category_in_both_spellings() {
    let a = parse_args(&strings(&["search", "q", "-c", "dev"]), &None).unwrap();
    let b = parse_args(&strings(&["search", "q", "--category=dev"]), &None).unwrap();
    for cli in [a, b] {
        match &cli.command {
            Command::Search { category, .. } => assert_eq!(category.as_deref(), Some("dev")),
            other => panic!("expected a search command, got {:?}", other),
        }
    }
}

#[test]
fn missing_positional_is_rejected() {
    assert_eq!(parse_args(&strings(&["search"]), &None).unwrap_err(), ArgError::MissingArgument);
    assert_eq!(parse_args(&strings(&["install"]), &None).unwrap_err(), ArgError::MissingArgument);
    assert_eq!(parse_args(&strings(&["run"]), &None).unwrap_err(), ArgError::MissingArgument);
    assert_eq!(parse_args(&strings(&["init"]), &None).unwrap_err(), ArgError::MissingArgument);
}

#[test]
fn unknown_subcommand_is_rejected() {
    assert_eq!(parse_args(&strings(&["frobnicate"]), &None).unwrap_err(), ArgError::UnknownCommand);
}

#[test]
fn empty_line_is_rejected() {
    assert_eq!(parse_args(&Vec::new(), &None).unwrap_err(), ArgError::MissingCommand);
}

#[test]
fn option_errors_are_rejected() {
    let args = strings(&["search", "q", "--force"]);
    assert_eq!(parse_args(&args, &None).unwrap_err(), ArgError::OptionNotAllowed);
    let args = strings(&["search", "q", "--limit"]);
    assert_eq!(parse_args(&args, &None).unwrap_err(), ArgError::MissingValue);
    let args = strings(&["search", "q", "-l", "1", "-l", "2"]);
    assert_eq!(parse_args(&args, &None).unwrap_err(), ArgError::DuplicateOption);
    let args = strings(&["search", "q", "--limit", "abc"]);
    assert_eq!(parse_args(&args, &None).unwrap_err(), ArgError::InvalidLimit);
    let args = strings(&["search", "q", "--bogus"]);
    assert_eq!(parse_args(&args, &None).unwrap_err(), ArgError::UnknownOption);
    let args = strings(&["search", "q", "extra"]);
    assert_eq!(parse_args(&args, &None).unwrap_err(), ArgError::UnexpectedArgument);
}

#[test]
fn empty_query_is_rejected() {
    let args = strings(&["search", ""]);
    assert_eq!(parse_args(&args, &None).unwrap_err(), ArgError::MissingArgument);
}

#[test]
fn zero_limit_is_rejected() {
    let args = strings(&["search", "q", "--limit", "0"]);
    assert_eq!(parse_args(&args, &None).unwrap_err(), ArgError::InvalidLimit);
    let args = strings(&["search", "q", "-l", "1"]);
    assert!(parse_args(&args, &None).is_ok());
}

#[test]
fn api_url_flag_beats_environment_which_beats_default() {
    let env = Some("http://env:1/api".to_string());
    let flagged = parse_args(&strings(&["--api-url", "http://flag:2/api", "info"]), &env).unwrap();
    assert_eq!(flagged.api_url, "http://flag:2/api");
    let from_env = parse_args(&strings(&["info"]), &env).unwrap();
    assert_eq!(from_env.api_url, "http://env:1/api");
    let fallback = parse_args(&strings(&["info"]), &None).unwrap();
    assert_eq!(fallback.api_url, "http://localhost:8000/api");
}

#[test]
fn global_flags_may_stand_before_or_after_the_subcommand() {
    let before = parse_args(&strings(&["-v", "status"]), &None).unwrap();
    let after = parse_args(&strings(&["status", "--verbose"]), &None).unwrap();
    assert!(before.verbose);
    assert!(after.verbose);
}

#[test]
fn parses_install_with_force() {
    let cli = parse_args(&strings(&["install", "s1", "-f"]), &None).unwrap();
    match &cli.command {
        Command::Install { skill, force } => {
            assert_eq!(skill, "s1");
            assert!(force);
        },
        other => panic!("expected an install command, got {:?}", other),
    }
}

#[test]
fn list_target_defaults_to_skills() {
    let cli = parse_args(&strings(&["list"]), &None).unwrap();
    match &cli.command {
        Command::List { target } => assert_eq!(target, "skills"),
        other => panic!("expected a list command, got {:?}", other),
    }
    let cli = parse_args(&strings(&["list", "agents"]), &None).unwrap();
    match &cli.command {
        Command::List { target } => assert_eq!(target, "agents"),
        other => panic!("expected a list command, got {:?}", other),
    }
}

#[test]
fn init_template_defaults_to_basic() {
    let cli = parse_args(&strings(&["init", "proj"]), &None).unwrap();
    match &cli.command {
        Command::Init { name, template } => {
            assert_eq!(name, "proj");
            assert_eq!(template, "basic");
        },
        other => panic!("expected an init command, got {:?}", other),
    }
    let cli = parse_args(&strings(&["init", "proj", "-t", "web"]), &None).unwrap();
    match &cli.command {
        Command::Init { template, .. } => assert_eq!(template, "web"),
        other => panic!("expected an init command, got {:?}", other),
    }
}

#[test]
fn parses_the_remaining_subcommands() {
    let cli = parse_args(&strings(&["run", "s1", "payload"]), &None).unwrap();
    match &cli.command {
        Command::Run { skill, input } => {
            assert_eq!(skill, "s1");
            assert_eq!(input.as_deref(), Some("payload"));
        },
        other => panic!("expected a run command, got {:?}", other),
    }
    let cli = parse_args(&strings(&["status"]), &None).unwrap();
    assert!(matches!(&cli.command, Command::Status { agent } if agent.is_none()));
    let cli = parse_args(&strings(&["config", "k", "v"]), &None).unwrap();
    match &cli.command {
        Command::Config { key, value } => {
            assert_eq!(key.as_deref(), Some("k"));
            assert_eq!(value.as_deref(), Some("v"));
        },
        other => panic!("expected a config command, got {:?}", other),
    }
    let cli = parse_args(&strings(&["help", "search"]), &None).unwrap();
    assert!(matches!(&cli.command, Command::Help { topic } if topic.as_deref() == Some("search")));
    let cli = parse_args(&strings(&["info"]), &None).unwrap();
    assert!(matches!(&cli.command, Command::Info));
}

#[test]
fn builds_the_search_url() {
    let url = build_search_url("http://localhost:8000/api", "test", &None, 10);
    assert_eq!(url, "http://localhost:8000/api/skills?query=test&limit=10");
    let url = build_search_url("http://h/api", "q", &Some("dev".to_string()), 2);
    assert_eq!(url, "http://h/api/skills?query=q&limit=2&category=dev");
}

#[test]
fn url_encodes_query_and_category_values() {
    let url = build_search_url("http://h/api", "a&b c", &None, 10);
    assert_eq!(url, "http://h/api/skills?query=a%26b%20c&limit=10");
    let url = build_search_url("http://h/api", "x=y#z%", &Some("café".to_string()), 1);
    assert_eq!(url, "http://h/api/skills?query=x%3Dy%23z%25&limit=1&category=caf%C3%A9");
    let url = build_search_url("http://h/api", "A-z_0.~", &None, 3);
    assert_eq!(url, "http://h/api/skills?query=A-z_0.~&limit=3");
    let url = build_search_url("http://h/api", "中", &Some("😀".to_string()), 1);
    assert_eq!(url, "http://h/api/skills?query=%E4%B8%AD&limit=1&category=%F0%9F%98%80");
}

#[test]
fn usage_text_names_every_subcommand() {
    let usage = render_usage();
    for name in ["search", "install", "list", "run", "status", "config", "help", "init", "info"] {
        assert!(usage.contains(name));
    }
}
