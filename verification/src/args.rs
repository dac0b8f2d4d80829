//! Verified reading of the command line.
//!
//! The grammar: global options (`-v`/`--verbose`, `--api-url <url>`) and
//! subcommand options (`-c`/`--category`, `-l`/`--limit`, `-f`/`--force`,
//! `-t`/`--template`) may stand anywhere; a value option takes the next
//! argument or an `=` suffix; the first non-option argument names the
//! subcommand and the following ones are its positional arguments. A search
//! query must be non-empty and a given limit a positive integer. A
//! malformed line is rejected with an [`ArgError`] before anything else
//! happens, and the binary turns that into a usage message and a non-zero
//! exit without issuing any request.

use vstd::prelude::*;
use vstd::string::StrSliceExecFns;
use vstd::string::StringExecFns;

use crate::model::ArgError;
use crate::model::Cli;
use crate::model::CliData;
use crate::model::Command;
use crate::model::CommandData;
use crate::model::opt_view;
use crate::num::spec_str_u32;
use crate::num::str_to_u32;

verus! {

/// Options and positional arguments as collected from the raw line, before
/// the subcommand gives them meaning.
pub struct CollectedArgs {
    pub verbose: bool,
    pub api_url: Option<String>,
    pub category: Option<String>,
    pub limit: Option<String>,
    pub force: bool,
    pub template: Option<String>,
    pub positionals: Vec<String>,
}

/// Mathematical model of the collected line.
pub struct CollectedData {
    pub verbose: bool,
    pub api_url: Option<Seq<char>>,
    pub category: Option<Seq<char>>,
    pub limit: Option<Seq<char>>,
    pub force: bool,
    pub template: Option<Seq<char>>,
    pub positionals: Seq<Seq<char>>,
}

impl View for CollectedArgs {
    type V = CollectedData;

    open spec fn view(&self) -> CollectedData {
        CollectedData {
            verbose: self.verbose,
            api_url: opt_view(self.api_url),
            category: opt_view(self.category),
            limit: opt_view(self.limit),
            force: self.force,
            template: opt_view(self.template),
            positionals: self.positionals.deep_view(),
        }
    }
}

/// The collected state of an empty line.
pub open spec fn spec_empty_collected() -> CollectedData {
    CollectedData {
        verbose: false,
        api_url: None,
        category: None,
        limit: None,
        force: false,
        template: None,
        positionals: Seq::empty(),
    }
}

/// The position of the first `=` at or after `i`.
pub open spec fn spec_find_eq(s: Seq<char>, i: int) -> Option<int>
    decreases s.len() - i,
{
    if !(0 <= i < s.len()) {
        None
    } else if s[i] == '=' {
        Some(i)
    } else {
        spec_find_eq(s, i + 1)
    }
}

/// An argument split at its first `=`, when it has one.
pub open spec fn spec_split_eq(a: Seq<char>) -> Option<(Seq<char>, Seq<char>)> {
    match spec_find_eq(a, 0) {
        Some(p) => Some((a.subrange(0, p), a.subrange(p + 1, a.len() as int))),
        None => None,
    }
}

fn find_eq(s: &str, i: usize) -> (r: Option<usize>)
    requires
        i <= s@.len(),
    ensures
        match r {
            Some(p) => spec_find_eq(s@, i as int) == Some(p as int) && i <= p < s@.len(),
            None => spec_find_eq(s@, i as int) is None,
        },
    decreases s@.len() - i,
{
    if i == s.unicode_len() {
        None
    } else if s.get_char(i) == '=' {
        Some(i)
    } else {
        find_eq(s, i + 1)
    }
}

fn split_eq(a: &str) -> (r: Option<(String, String)>)
    ensures
        match r {
            Some(p) => spec_split_eq(a@) == Some((p.0@, p.1@)),
            None => spec_split_eq(a@) is None,
        },
{
    match find_eq(a, 0) {
        Some(p) => {
            let n = a.unicode_len();
            let key = a.substring_char(0, p);
            let v = a.substring_char(p + 1, n);
            Some((String::from_str(key), String::from_str(v)))
        },
        None => None,
    }
}

/// Whether a spelling is one of the option names that take a value.
pub open spec fn is_value_option_key(key: Seq<char>) -> bool {
    key == "--api-url"@ || key == "--category"@ || key == "-c"@ || key == "--limit"@ || key
        == "-l"@ || key == "--template"@ || key == "-t"@
}

/// Stores a value option into its slot; a repeated option is an error.
pub open spec fn spec_store_value(c: CollectedData, key: Seq<char>, v: Seq<char>) -> Result<
    CollectedData,
    ArgError,
> {
    if key == "--api-url"@ {
        if c.api_url is Some {
            Err(ArgError::DuplicateOption)
        } else {
            Ok(CollectedData { api_url: Some(v), ..c })
        }
    } else if key == "--category"@ || key == "-c"@ {
        if c.category is Some {
            Err(ArgError::DuplicateOption)
        } else {
            Ok(CollectedData { category: Some(v), ..c })
        }
    } else if key == "--limit"@ || key == "-l"@ {
        if c.limit is Some {
            Err(ArgError::DuplicateOption)
        } else {
            Ok(CollectedData { limit: Some(v), ..c })
        }
    } else if key == "--template"@ || key == "-t"@ {
        if c.template is Some {
            Err(ArgError::DuplicateOption)
        } else {
            Ok(CollectedData { template: Some(v), ..c })
        }
    } else {
        Err(ArgError::UnknownOption)
    }
}

fn store_value(c: CollectedArgs, key: &String, v: String) -> (r: Result<CollectedArgs, ArgError>)
    ensures
        match r {
            Ok(c2) => spec_store_value(c@, key@, v@) == Ok::<CollectedData, ArgError>(c2@),
            Err(e) => spec_store_value(c@, key@, v@) == Err::<CollectedData, ArgError>(e),
        },
{
    if *key == String::from_str("--api-url") {
        if c.api_url.is_some() {
            Err(ArgError::DuplicateOption)
        } else {
            Ok(CollectedArgs { api_url: Some(v), ..c })
        }
    } else if *key == String::from_str("--category") || *key == String::from_str("-c") {
        if c.category.is_some() {
            Err(ArgError::DuplicateOption)
        } else {
            Ok(CollectedArgs { category: Some(v), ..c })
        }
    } else if *key == String::from_str("--limit") || *key == String::from_str("-l") {
        if c.limit.is_some() {
            Err(ArgError::DuplicateOption)
        } else {
            Ok(CollectedArgs { limit: Some(v), ..c })
        }
    } else if *key == String::from_str("--template") || *key == String::from_str("-t") {
        if c.template.is_some() {
            Err(ArgError::DuplicateOption)
        } else {
            Ok(CollectedArgs { template: Some(v), ..c })
        }
    } else {
        Err(ArgError::UnknownOption)
    }
}

/// Collects options and positionals from the arguments from `i` on.
pub open spec fn spec_collect(args: Seq<Seq<char>>, i: int, c: CollectedData) -> Result<
    CollectedData,
    ArgError,
>
    decreases args.len() - i,
{
    if !(0 <= i < args.len()) {
        Ok(c)
    } else {
        let a = args[i];
        if a.len() > 0 && a[0] == '-' {
            match spec_split_eq(a) {
                Some((key, v)) => {
                    match spec_store_value(c, key, v) {
                        Ok(c2) => spec_collect(args, i + 1, c2),
                        Err(e) => Err(e),
                    }
                },
                None => {
                    if a == "--verbose"@ || a == "-v"@ {
                        spec_collect(args, i + 1, CollectedData { verbose: true, ..c })
                    } else if a == "--force"@ || a == "-f"@ {
                        spec_collect(args, i + 1, CollectedData { force: true, ..c })
                    } else if is_value_option_key(a) {
                        if i + 1 >= args.len() {
                            Err(ArgError::MissingValue)
                        } else {
                            match spec_store_value(c, a, args[i + 1]) {
                                Ok(c2) => spec_collect(args, i + 2, c2),
                                Err(e) => Err(e),
                            }
                        }
                    } else {
                        Err(ArgError::UnknownOption)
                    }
                },
            }
        } else {
            spec_collect(args, i + 1, CollectedData { positionals: c.positionals.push(a), ..c })
        }
    }
}

fn collect(args: &Vec<String>, i: usize, c: CollectedArgs) -> (r: Result<CollectedArgs, ArgError>)
    requires
        i <= args@.len(),
    ensures
        match r {
            Ok(c2) => spec_collect(args.deep_view(), i as int, c@) == Ok::<
                CollectedData,
                ArgError,
            >(c2@),
            Err(e) => spec_collect(args.deep_view(), i as int, c@) == Err::<
                CollectedData,
                ArgError,
            >(e),
        },
    decreases args@.len() - i,
{
    proof {
        assert(args.deep_view().len() == args@.len());
    }
    if i == args.len() {
        Ok(c)
    } else {
        let a = &args[i];
        proof {
            assert(args.deep_view()[i as int] == args@[i as int]@);
        }
        if a.unicode_len() > 0 && a.as_str().get_char(0) == '-' {
            match split_eq(a.as_str()) {
                Some((key, v)) => {
                    match store_value(c, &key, v) {
                        Ok(c2) => collect(args, i + 1, c2),
                        Err(e) => Err(e),
                    }
                },
                None => {
                    if *a == String::from_str("--verbose") || *a == String::from_str("-v") {
                        collect(args, i + 1, CollectedArgs { verbose: true, ..c })
                    } else if *a == String::from_str("--force") || *a == String::from_str("-f") {
                        collect(args, i + 1, CollectedArgs { force: true, ..c })
                    } else if *a == String::from_str("--api-url") || *a == String::from_str(
                        "--category",
                    ) || *a == String::from_str("-c") || *a == String::from_str("--limit") || *a
                        == String::from_str("-l") || *a == String::from_str("--template") || *a
                        == String::from_str("-t") {
                        if i + 1 == args.len() {
                            Err(ArgError::MissingValue)
                        } else {
                            proof {
                                assert(args.deep_view()[i as int + 1] == args@[i as int + 1]@);
                            }
                            let v = args[i + 1].clone();
                            match store_value(c, a, v) {
                                Ok(c2) => collect(args, i + 2, c2),
                                Err(e) => Err(e),
                            }
                        }
                    } else {
                        Err(ArgError::UnknownOption)
                    }
                },
            }
        } else {
            let mut c2 = c;
            let ghost old_pos = c2@.positionals;
            c2.positionals.push(args[i].clone());
            proof {
                assert(c2@.positionals =~= old_pos.push(args.deep_view()[i as int]));
            }
            collect(args, i + 1, c2)
        }
    }
}

/// Gives the collected line its meaning as one subcommand. Option use is
/// checked against the subcommand, arity against its positional arguments,
/// a search query against being non-empty, and a limit against being a
/// positive integer within `u32`; anything off is an error.
pub open spec fn spec_select_command(c: CollectedData) -> Result<CommandData, ArgError> {
    if c.positionals.len() == 0 {
        Err(ArgError::MissingCommand)
    } else {
        let name = c.positionals[0];
        if name == "search"@ {
            if c.force || c.template is Some {
                Err(ArgError::OptionNotAllowed)
            } else if c.positionals.len() < 2 {
                Err(ArgError::MissingArgument)
            } else if c.positionals.len() > 2 {
                Err(ArgError::UnexpectedArgument)
            } else if c.positionals[1].len() == 0 {
                Err(ArgError::MissingArgument)
            } else {
                match c.limit {
                    None => Ok(
                        CommandData::Search {
                            query: c.positionals[1],
                            category: c.category,
                            limit: 10,
                        },
                    ),
                    Some(v) => match spec_str_u32(v) {
                        Some(n) => if n == 0 {
                            Err(ArgError::InvalidLimit)
                        } else {
                            Ok(
                                CommandData::Search {
                                    query: c.positionals[1],
                                    category: c.category,
                                    limit: n,
                                },
                            )
                        },
                        None => Err(ArgError::InvalidLimit),
                    },
                }
            }
        } else if name == "install"@ {
            if c.category is Some || c.limit is Some || c.template is Some {
                Err(ArgError::OptionNotAllowed)
            } else if c.positionals.len() < 2 {
                Err(ArgError::MissingArgument)
            } else if c.positionals.len() > 2 {
                Err(ArgError::UnexpectedArgument)
            } else {
                Ok(CommandData::Install { skill: c.positionals[1], force: c.force })
            }
        } else if name == "list"@ {
            if c.category is Some || c.limit is Some || c.template is Some || c.force {
                Err(ArgError::OptionNotAllowed)
            } else if c.positionals.len() > 2 {
                Err(ArgError::UnexpectedArgument)
            } else {
                Ok(
                    CommandData::List {
                        target: if c.positionals.len() == 2 {
                            c.positionals[1]
                        } else {
                            "skills"@
                        },
                    },
                )
            }
        } else if name == "run"@ {
            if c.category is Some || c.limit is Some || c.template is Some || c.force {
                Err(ArgError::OptionNotAllowed)
            } else if c.positionals.len() < 2 {
                Err(ArgError::MissingArgument)
            } else if c.positionals.len() > 3 {
                Err(ArgError::UnexpectedArgument)
            } else {
                Ok(
                    CommandData::Run {
                        skill: c.positionals[1],
                        input: if c.positionals.len() == 3 {
                            Some(c.positionals[2])
                        } else {
                            None
                        },
                    },
                )
            }
        } else if name == "status"@ {
            if c.category is Some || c.limit is Some || c.template is Some || c.force {
                Err(ArgError::OptionNotAllowed)
            } else if c.positionals.len() > 2 {
                Err(ArgError::UnexpectedArgument)
            } else {
                Ok(
                    CommandData::Status {
                        agent: if c.positionals.len() == 2 {
                            Some(c.positionals[1])
                        } else {
                            None
                        },
                    },
                )
            }
        } else if name == "config"@ {
            if c.category is Some || c.limit is Some || c.template is Some || c.force {
                Err(ArgError::OptionNotAllowed)
            } else if c.positionals.len() > 3 {
                Err(ArgError::UnexpectedArgument)
            } else {
                Ok(
                    CommandData::Config {
                        key: if c.positionals.len() >= 2 {
                            Some(c.positionals[1])
                        } else {
                            None
                        },
                        value: if c.positionals.len() == 3 {
                            Some(c.positionals[2])
                        } else {
                            None
                        },
                    },
                )
            }
        } else if name == "help"@ {
            if c.category is Some || c.limit is Some || c.template is Some || c.force {
                Err(ArgError::OptionNotAllowed)
            } else if c.positionals.len() > 2 {
                Err(ArgError::UnexpectedArgument)
            } else {
                Ok(
                    CommandData::Help {
                        topic: if c.positionals.len() == 2 {
                            Some(c.positionals[1])
                        } else {
                            None
                        },
                    },
                )
            }
        } else if name == "init"@ {
            if c.category is Some || c.limit is Some || c.force {
                Err(ArgError::OptionNotAllowed)
            } else if c.positionals.len() < 2 {
                Err(ArgError::MissingArgument)
            } else if c.positionals.len() > 2 {
                Err(ArgError::UnexpectedArgument)
            } else {
                Ok(
                    CommandData::Init {
                        name: c.positionals[1],
                        template: match c.template {
                            Some(t) => t,
                            None => "basic"@,
                        },
                    },
                )
            }
        } else if name == "info"@ {
            if c.category is Some || c.limit is Some || c.template is Some || c.force {
                Err(ArgError::OptionNotAllowed)
            } else if c.positionals.len() > 1 {
                Err(ArgError::UnexpectedArgument)
            } else {
                Ok(CommandData::Info)
            }
        } else {
            Err(ArgError::UnknownCommand)
        }
    }
}

/// The endpoint the invocation uses: the flag wins, then the environment,
/// then the built-in default.
pub open spec fn spec_resolve_api_url(flag: Option<Seq<char>>, env: Option<Seq<char>>) -> Seq<
    char,
> {
    match flag {
        Some(u) => u,
        None => match env {
            Some(u) => u,
            None => "http://localhost:8000/api"@,
        },
    }
}

/// The full reading of a command line, given the environment's endpoint
/// value when one is set.
pub open spec fn spec_parse_args(args: Seq<Seq<char>>, env_api_url: Option<Seq<char>>) -> Result<
    CliData,
    ArgError,
> {
    match spec_collect(args, 0, spec_empty_collected()) {
        Err(e) => Err(e),
        Ok(c) => match spec_select_command(c) {
            Err(e) => Err(e),
            Ok(cmd) => Ok(
                CliData {
                    verbose: c.verbose,
                    api_url: spec_resolve_api_url(c.api_url, env_api_url),
                    command: cmd,
                },
            ),
        },
    }
}

fn select_command(c: CollectedArgs) -> (r: Result<Command, ArgError>)
    ensures
        match r {
            Ok(cmd) => spec_select_command(c@) == Ok::<CommandData, ArgError>(cmd@),
            Err(e) => spec_select_command(c@) == Err::<CommandData, ArgError>(e),
        },
{
    if c.positionals.len() == 0 {
        Err(ArgError::MissingCommand)
    } else if c.positionals[0] == String::from_str("search") {
        if c.force || c.template.is_some() {
            Err(ArgError::OptionNotAllowed)
        } else if c.positionals.len() < 2 {
            Err(ArgError::MissingArgument)
        } else if c.positionals.len() > 2 {
            Err(ArgError::UnexpectedArgument)
        } else if c.positionals[1].as_str().is_empty() {
            Err(ArgError::MissingArgument)
        } else {
            match c.limit {
                None => Ok(
                    Command::Search {
                        query: c.positionals[1].clone(),
                        category: c.category,
                        limit: 10,
                    },
                ),
                Some(v) => match str_to_u32(v.as_str()) {
                    Some(n) => {
                        if n == 0 {
                            Err(ArgError::InvalidLimit)
                        } else {
                            Ok(
                                Command::Search {
                                    query: c.positionals[1].clone(),
                                    category: c.category,
                                    limit: n,
                                },
                            )
                        }
                    },
                    None => Err(ArgError::InvalidLimit),
                },
            }
        }
    } else if c.positionals[0] == String::from_str("install") {
        if c.category.is_some() || c.limit.is_some() || c.template.is_some() {
            Err(ArgError::OptionNotAllowed)
        } else if c.positionals.len() < 2 {
            Err(ArgError::MissingArgument)
        } else if c.positionals.len() > 2 {
            Err(ArgError::UnexpectedArgument)
        } else {
            Ok(Command::Install { skill: c.positionals[1].clone(), force: c.force })
        }
    } else if c.positionals[0] == String::from_str("list") {
        if c.category.is_some() || c.limit.is_some() || c.template.is_some() || c.force {
            Err(ArgError::OptionNotAllowed)
        } else if c.positionals.len() > 2 {
            Err(ArgError::UnexpectedArgument)
        } else if c.positionals.len() == 2 {
            Ok(Command::List { target: c.positionals[1].clone() })
        } else {
            Ok(Command::List { target: String::from_str("skills") })
        }
    } else if c.positionals[0] == String::from_str("run") {
        if c.category.is_some() || c.limit.is_some() || c.template.is_some() || c.force {
            Err(ArgError::OptionNotAllowed)
        } else if c.positionals.len() < 2 {
            Err(ArgError::MissingArgument)
        } else if c.positionals.len() > 3 {
            Err(ArgError::UnexpectedArgument)
        } else if c.positionals.len() == 3 {
            Ok(
                Command::Run {
                    skill: c.positionals[1].clone(),
                    input: Some(c.positionals[2].clone()),
                },
            )
        } else {
            Ok(Command::Run { skill: c.positionals[1].clone(), input: None })
        }
    } else if c.positionals[0] == String::from_str("status") {
        if c.category.is_some() || c.limit.is_some() || c.template.is_some() || c.force {
            Err(ArgError::OptionNotAllowed)
        } else if c.positionals.len() > 2 {
            Err(ArgError::UnexpectedArgument)
        } else if c.positionals.len() == 2 {
            Ok(Command::Status { agent: Some(c.positionals[1].clone()) })
        } else {
            Ok(Command::Status { agent: None })
        }
    } else if c.positionals[0] == String::from_str("config") {
        if c.category.is_some() || c.limit.is_some() || c.template.is_some() || c.force {
            Err(ArgError::OptionNotAllowed)
        } else if c.positionals.len() > 3 {
            Err(ArgError::UnexpectedArgument)
        } else if c.positionals.len() == 3 {
            Ok(
                Command::Config {
                    key: Some(c.positionals[1].clone()),
                    value: Some(c.positionals[2].clone()),
                },
            )
        } else if c.positionals.len() == 2 {
            Ok(Command::Config { key: Some(c.positionals[1].clone()), value: None })
        } else {
            Ok(Command::Config { key: None, value: None })
        }
    } else if c.positionals[0] == String::from_str("help") {
        if c.category.is_some() || c.limit.is_some() || c.template.is_some() || c.force {
            Err(ArgError::OptionNotAllowed)
        } else if c.positionals.len() > 2 {
            Err(ArgError::UnexpectedArgument)
        } else if c.positionals.len() == 2 {
            Ok(Command::Help { topic: Some(c.positionals[1].clone()) })
        } else {
            Ok(Command::Help { topic: None })
        }
    } else if c.positionals[0] == String::from_str("init") {
        if c.category.is_some() || c.limit.is_some() || c.force {
            Err(ArgError::OptionNotAllowed)
        } else if c.positionals.len() < 2 {
            Err(ArgError::MissingArgument)
        } else if c.positionals.len() > 2 {
            Err(ArgError::UnexpectedArgument)
        } else {
            match c.template {
                Some(t) => Ok(Command::Init { name: c.positionals[1].clone(), template: t }),
                None => Ok(
                    Command::Init {
                        name: c.positionals[1].clone(),
                        template: String::from_str("basic"),
                    },
                ),
            }
        }
    } else if c.positionals[0] == String::from_str("info") {
        if c.category.is_some() || c.limit.is_some() || c.template.is_some() || c.force {
            Err(ArgError::OptionNotAllowed)
        } else if c.positionals.len() > 1 {
            Err(ArgError::UnexpectedArgument)
        } else {
            Ok(Command::Info)
        }
    } else {
        Err(ArgError::UnknownCommand)
    }
}

/// Reads a command line: the arguments after the program name, and the
/// environment's endpoint value when one is set. Returns exactly what
/// `spec_parse_args` states; in particular every malformed line comes back
/// as an error, on which the binary prints usage and exits without any
/// network activity.
pub fn parse_args(args: &Vec<String>, env_api_url: &Option<String>) -> (r: Result<Cli, ArgError>)
    ensures
        match r {
            Ok(cli) => spec_parse_args(args.deep_view(), opt_view(*env_api_url)) == Ok::<
                CliData,
                ArgError,
            >(cli@),
            Err(e) => spec_parse_args(args.deep_view(), opt_view(*env_api_url)) == Err::<
                CliData,
                ArgError,
            >(e),
        },
{
    let empty = CollectedArgs {
        verbose: false,
        api_url: None,
        category: None,
        limit: None,
        force: false,
        template: None,
        positionals: Vec::new(),
    };
    proof {
        assert(empty@.positionals =~= spec_empty_collected().positionals);
        assert(empty@ == spec_empty_collected());
    }
    match collect(args, 0, empty) {
        Err(e) => Err(e),
        Ok(c) => {
            let verbose = c.verbose;
            let flag_url: Option<String> = match &c.api_url {
                Some(u) => Some(u.clone()),
                None => None,
            };
            match select_command(c) {
                Err(e) => Err(e),
                Ok(cmd) => {
                    let api_url = match flag_url {
                        Some(u) => u,
                        None => match env_api_url {
                            Some(u) => u.clone(),
                            None => String::from_str("http://localhost:8000/api"),
                        },
                    };
                    Ok(Cli { verbose, api_url, command: cmd })
                },
            }
        },
    }
}

/// An empty line names no subcommand and is rejected.
pub proof fn lemma_missing_command_rejected(c: CollectedData)
    requires
        c.positionals.len() == 0,
    ensures
        spec_select_command(c) == Err::<CommandData, ArgError>(ArgError::MissingCommand),
{
}

/// A first positional that names none of the subcommands is rejected.
pub proof fn lemma_unknown_command_rejected(c: CollectedData)
    requires
        c.positionals.len() > 0,
        c.positionals[0] != "search"@,
        c.positionals[0] != "install"@,
        c.positionals[0] != "list"@,
        c.positionals[0] != "run"@,
        c.positionals[0] != "status"@,
        c.positionals[0] != "config"@,
        c.positionals[0] != "help"@,
        c.positionals[0] != "init"@,
        c.positionals[0] != "info"@,
    ensures
        spec_select_command(c) == Err::<CommandData, ArgError>(ArgError::UnknownCommand),
{
}

/// A subcommand that requires a positional argument and got none is
/// rejected, whatever options were given.
pub proof fn lemma_missing_positional_rejected(c: CollectedData)
    requires
        c.positionals.len() == 1,
        c.positionals[0] == "search"@ || c.positionals[0] == "install"@ || c.positionals[0]
            == "run"@ || c.positionals[0] == "init"@,
    ensures
        spec_select_command(c) is Err,
{
    reveal_strlit("search");
    reveal_strlit("install");
    reveal_strlit("list");
    reveal_strlit("run");
    reveal_strlit("status");
    reveal_strlit("config");
    reveal_strlit("help");
    reveal_strlit("init");
    reveal_strlit("info");
    assert("search"@.len() == 6);
    assert("install"@.len() == 7);
    assert("list"@.len() == 4);
    assert("run"@.len() == 3);
    assert("status"@.len() == 6);
    assert("config"@.len() == 6);
    assert("help"@.len() == 4);
    assert("init"@.len() == 4);
    assert("init"@[0] == 'i' && "list"@[0] == 'l' && "help"@[0] == 'h');
}

/// The usage text the binary prints when the command line is rejected.
pub fn render_usage() -> (out: String)
    ensures
        out@
            == "Usage: athena [-v|--verbose] [--api-url <url>] <command> [args]\n\nCommands:\n  search <query> [-c <category>] [-l <limit>]\n  install <skill> [-f|--force]\n  list [target]\n  run <skill> [input]\n  status [agent]\n  config [key] [value]\n  help [topic]\n  init <name> [-t <template>]\n  info\n"@,
{
    String::from_str(
        "Usage: athena [-v|--verbose] [--api-url <url>] <command> [args]\n\nCommands:\n  search <query> [-c <category>] [-l <limit>]\n  install <skill> [-f|--force]\n  list [target]\n  run <skill> [input]\n  status [agent]\n  config [key] [value]\n  help [topic]\n  init <name> [-t <template>]\n  info\n",
    )
}

} // verus!
