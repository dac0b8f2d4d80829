//! Terminal rendering of search outcomes, specified to the character.

use vstd::prelude::*;
use vstd::string::StringExecFns;

use crate::model::CliError;
use crate::model::SearchData;
use crate::model::SearchResponse;
use crate::model::SkillData;
use crate::num::spec_dec_digits;
use crate::num::u64_to_string;

verus! {

/// The block printed for one skill, numbered `n`.
pub open spec fn spec_skill_entry(n: int, sk: SkillData) -> Seq<char> {
    spec_dec_digits(n) + ". "@ + sk.name + " ("@ + sk.id + ")\n   by "@ + sk.author + "\n   "@
        + sk.description + "\n   Category: "@ + sk.category + "\n\n"@
}

/// The entry blocks for the skills from index `k` on, numbered from `k + 1`.
pub open spec fn spec_entries_from(skills: Seq<SkillData>, k: int) -> Seq<char>
    decreases skills.len() - k,
{
    if !(0 <= k < skills.len()) {
        Seq::empty()
    } else {
        spec_skill_entry(k + 1, skills[k]) + spec_entries_from(skills, k + 1)
    }
}

/// The heading of every search rendering.
pub open spec fn spec_search_header(query: Seq<char>, total: u32) -> Seq<char> {
    "Found "@ + spec_dec_digits(total as int) + " results for '"@ + query + "'\n\n"@
}

/// The notice for a search without matches.
pub open spec fn spec_no_results_line() -> Seq<char> {
    "No skills found matching your query.\n"@
}

/// The closing hint printed under a non-empty listing.
pub open spec fn spec_install_hint_line() -> Seq<char> {
    "Run 'athena install <skill-id>' to install a skill\n"@
}

/// Everything the search handler prints for a successful response.
pub open spec fn spec_search_output(query: Seq<char>, data: SearchData) -> Seq<char> {
    if data.skills.len() == 0 {
        spec_search_header(query, data.total) + spec_no_results_line()
    } else {
        spec_search_header(query, data.total) + spec_entries_from(data.skills, 0)
            + spec_install_hint_line()
    }
}

/// An empty result sequence is a success with its own notice: the rendering
/// is the heading followed by the no-results line alone, so no numbered
/// entry and no install hint appears.
pub proof fn lemma_no_results_output(query: Seq<char>, data: SearchData)
    requires
        data.skills.len() == 0,
    ensures
        spec_search_output(query, data) == spec_search_header(query, data.total)
            + spec_no_results_line(),
{
}

/// A response with at least one skill renders as the heading, then one
/// numbered block per skill in the order received, then the install hint;
/// the block of the skill at index `k` opens with the number `k + 1` and
/// carries that skill's name, id, author, description and category.
pub proof fn lemma_listing_output(query: Seq<char>, data: SearchData)
    requires
        data.skills.len() > 0,
    ensures
        spec_search_output(query, data) == spec_search_header(query, data.total)
            + spec_entries_from(data.skills, 0) + spec_install_hint_line(),
        forall|k: int|
            0 <= k < data.skills.len() ==> #[trigger] spec_entries_from(data.skills, k)
                == spec_skill_entry(k + 1, data.skills[k]) + spec_entries_from(data.skills, k + 1),
{
}

fn render_entries_from(resp: &SearchResponse, k: usize) -> (out: String)
    requires
        k <= resp.skills@.len(),
    ensures
        out@ == spec_entries_from(resp@.skills, k as int),
    decreases resp.skills@.len() - k,
{
    if k == resp.skills.len() {
        String::new()
    } else {
        let sk = &resp.skills[k];
        let mut entry = u64_to_string(k as u64 + 1);
        entry.append(". ");
        entry.append(sk.name.as_str());
        entry.append(" (");
        entry.append(sk.id.as_str());
        entry.append(")\n   by ");
        entry.append(sk.author.as_str());
        entry.append("\n   ");
        entry.append(sk.description.as_str());
        entry.append("\n   Category: ");
        entry.append(sk.category.as_str());
        entry.append("\n\n");
        let rest = render_entries_from(resp, k + 1);
        let out = entry.concat(rest.as_str());
        proof {
            assert(out@ =~= spec_entries_from(resp@.skills, k as int));
        }
        out
    }
}

/// Renders a successful search exactly as `spec_search_output` states it.
pub fn render_search_results(query: &str, resp: &SearchResponse) -> (out: String)
    ensures
        out@ == spec_search_output(query@, resp@),
{
    let mut out = String::from_str("Found ");
    let total_digits = u64_to_string(resp.total as u64);
    out.append(total_digits.as_str());
    out.append(" results for '");
    out.append(query);
    out.append("'\n\n");
    if resp.skills.len() == 0 {
        out.append("No skills found matching your query.\n");
    } else {
        let entries = render_entries_from(resp, 0);
        out.append(entries.as_str());
        out.append("Run 'athena install <skill-id>' to install a skill\n");
    }
    proof {
        assert(out@ =~= spec_search_output(query@, resp@));
    }
    out
}

/// The error line printed for a failed search. An API error carries the
/// numeric status; the transport and decode cases name their own causes, so
/// a rejected request and an unreadable body are never confused.
pub open spec fn spec_error_output(e: CliError) -> Seq<char> {
    match e {
        CliError::Transport => "Error: Failed to search: network request failed\n"@,
        CliError::Api(status) => "Error: Failed to search: "@ + spec_dec_digits(status as int)
            + "\n"@,
        CliError::Decode => "Error: Failed to search: could not decode the response body\n"@,
    }
}

/// Renders a search failure exactly as `spec_error_output` states it.
pub fn render_search_error(e: &CliError) -> (out: String)
    ensures
        out@ == spec_error_output(*e),
{
    match e {
        CliError::Transport => String::from_str("Error: Failed to search: network request failed\n"),
        CliError::Api(status) => {
            let mut out = String::from_str("Error: Failed to search: ");
            let digits = u64_to_string(*status as u64);
            out.append(digits.as_str());
            out.append("\n");
            proof {
                assert(out@ =~= spec_error_output(*e));
            }
            out
        },
        CliError::Decode => String::from_str(
            "Error: Failed to search: could not decode the response body\n",
        ),
    }
}

} // verus!
