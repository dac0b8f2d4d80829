//! Typed shapes of the client: commands, the search response, and errors.

use vstd::prelude::*;

verus! {

/// One skill record as the registry's search endpoint returns it.
#[derive(Debug)]
pub struct SkillResult {
    pub id: String,
    pub name: String,
    pub description: String,
    pub category: String,
    pub author: String,
}

/// Mathematical model of a skill record.
pub struct SkillData {
    pub id: Seq<char>,
    pub name: Seq<char>,
    pub description: Seq<char>,
    pub category: Seq<char>,
    pub author: Seq<char>,
}

impl View for SkillResult {
    type V = SkillData;

    open spec fn view(&self) -> SkillData {
        SkillData {
            id: self.id@,
            name: self.name@,
            description: self.description@,
            category: self.category@,
            author: self.author@,
        }
    }
}

/// The model of a sequence of skill records.
pub open spec fn skills_view(v: Seq<SkillResult>) -> Seq<SkillData> {
    v.map_values(|x: SkillResult| x@)
}

/// The body of a successful search: the backend's total count and the
/// returned skills in the order received.
#[derive(Debug)]
pub struct SearchResponse {
    pub total: u32,
    pub skills: Vec<SkillResult>,
}

/// Mathematical model of a search response.
pub struct SearchData {
    pub total: u32,
    pub skills: Seq<SkillData>,
}

impl View for SearchResponse {
    type V = SearchData;

    open spec fn view(&self) -> SearchData {
        SearchData { total: self.total, skills: skills_view(self.skills@) }
    }
}

/// What can go wrong between issuing a request and having a typed response:
/// the transport failed, the backend answered outside the 2xx range, or the
/// body did not decode as the expected shape. The three are never conflated.
#[derive(Debug, Clone, Copy, PartialEq, Eq, Structural)]
pub enum CliError {
    Transport,
    Api(u16),
    Decode,
}

/// A parsed command-line invocation: one subcommand with its arguments.
#[derive(Debug)]
pub enum Command {
    Search { query: String, category: Option<String>, limit: u32 },
    Install { skill: String, force: bool },
    List { target: String },
    Run { skill: String, input: Option<String> },
    Status { agent: Option<String> },
    Config { key: Option<String>, value: Option<String> },
    Help { topic: Option<String> },
    Init { name: String, template: String },
    Info,
}

/// Mathematical model of a command.
pub enum CommandData {
    Search { query: Seq<char>, category: Option<Seq<char>>, limit: u32 },
    Install { skill: Seq<char>, force: bool },
    List { target: Seq<char> },
    Run { skill: Seq<char>, input: Option<Seq<char>> },
    Status { agent: Option<Seq<char>> },
    Config { key: Option<Seq<char>>, value: Option<Seq<char>> },
    Help { topic: Option<Seq<char>> },
    Init { name: Seq<char>, template: Seq<char> },
    Info,
}

/// The model of an optional string.
pub open spec fn opt_view(o: Option<String>) -> Option<Seq<char>> {
    match o {
        Some(s) => Some(s@),
        None => None,
    }
}

impl View for Command {
    type V = CommandData;

    open spec fn view(&self) -> CommandData {
        match self {
            Command::Search { query, category, limit } => CommandData::Search {
                query: query@,
                category: opt_view(*category),
                limit: *limit,
            },
            Command::Install { skill, force } => CommandData::Install {
                skill: skill@,
                force: *force,
            },
            Command::List { target } => CommandData::List { target: target@ },
            Command::Run { skill, input } => CommandData::Run {
                skill: skill@,
                input: opt_view(*input),
            },
            Command::Status { agent } => CommandData::Status { agent: opt_view(*agent) },
            Command::Config { key, value } => CommandData::Config {
                key: opt_view(*key),
                value: opt_view(*value),
            },
            Command::Help { topic } => CommandData::Help { topic: opt_view(*topic) },
            Command::Init { name, template } => CommandData::Init {
                name: name@,
                template: template@,
            },
            Command::Info => CommandData::Info,
        }
    }
}

/// A full invocation: global options and the chosen subcommand.
#[derive(Debug)]
pub struct Cli {
    pub verbose: bool,
    pub api_url: String,
    pub command: Command,
}

/// Mathematical model of an invocation.
pub struct CliData {
    pub verbose: bool,
    pub api_url: Seq<char>,
    pub command: CommandData,
}

impl View for Cli {
    type V = CliData;

    open spec fn view(&self) -> CliData {
        CliData { verbose: self.verbose, api_url: self.api_url@, command: self.command@ }
    }
}

/// Why a command line was rejected before any request was made.
#[derive(Debug, Clone, Copy, PartialEq, Eq, Structural)]
pub enum ArgError {
    UnknownOption,
    OptionNotAllowed,
    MissingValue,
    DuplicateOption,
    MissingCommand,
    UnknownCommand,
    MissingArgument,
    UnexpectedArgument,
    InvalidLimit,
}

} // verus!
