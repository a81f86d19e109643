//! The texts handed to the agent, the markers read back from its answers,
//! and the addresses of its conversations.

use vstd::prelude::*;

use crate::text::{append_str, contains_seq, contains_str, string_of};

verus! {

/// Line by which the agent reports that the prompt succeeded.
pub open spec fn prompt_pass_marker() -> Seq<char> {
    "PROMPT: PASS"@
}

/// Line by which the agent reports that the prompt failed.
pub open spec fn prompt_fail_marker() -> Seq<char> {
    "PROMPT: FAIL"@
}

/// Line by which the validator reports that the changes passed review.
pub open spec fn validation_pass_marker() -> Seq<char> {
    "VALIDATION: PASS"@
}

/// Directive appended to every execution prompt.
pub open spec fn prompt_directive() -> Seq<char> {
    "\n\nIMPORTANT: You MUST end your final response with exactly one of these lines on the final line to reflect if the above prompt is considered successful or not:\nPROMPT: PASS\nPROMPT: FAIL"@
}

/// Directive appended to every review prompt.
pub open spec fn validation_directive() -> Seq<char> {
    "\n\nIMPORTANT: You MUST end your response with exactly one of these lines on the final line:\nVALIDATION: PASS\nVALIDATION: FAIL"@
}

/// Opening of a review prompt, before the branch name.
pub open spec fn review_intro() -> Seq<char> {
    "You are a code change validation validator\nYou are tasked with ensuring the current changes in "@
}

/// Rest of the review prompt's opening, after the branch name.
pub open spec fn review_rules() -> Seq<char> {
    ".\nYou are to review the pending changes in the current branch with the oracle, librarian, and any other tools that will not make any further code changes to ensure that the following is true:\n\n"@
}

/// Prompt that continues an earlier session.
pub open spec fn resume_request() -> Seq<char> {
    "Please continue with the previous task."@
}

/// Address of the agent conversation with the given session id.
pub open spec fn thread_url_of(session_id: Seq<char>) -> Seq<char> {
    "https://ampcode.com/threads/"@ + session_id
}

/// The address of an agent conversation.
pub fn thread_url(session_id: &str) -> (r: String)
    ensures
        r@ == thread_url_of(session_id@),
{
    let mut out: Vec<char> = Vec::new();
    append_str(&mut out, "https://ampcode.com/threads/");
    append_str(&mut out, session_id);
    string_of(out.as_slice())
}

/// The prompt of a run: the revision's text followed by the pass/fail directive.
pub fn execution_prompt(prompt_text: &str) -> (r: String)
    ensures
        r@ == prompt_text@ + prompt_directive(),
{
    let mut out: Vec<char> = Vec::new();
    append_str(&mut out, prompt_text);
    append_str(
        &mut out,
        "\n\nIMPORTANT: You MUST end your final response with exactly one of these lines on the final line to reflect if the above prompt is considered successful or not:\nPROMPT: PASS\nPROMPT: FAIL",
    );
    string_of(out.as_slice())
}

/// The prompt of a resumed run.
pub fn resume_prompt() -> (r: String)
    ensures
        r@ == resume_request() + prompt_directive(),
{
    execution_prompt("Please continue with the previous task.")
}

/// The prompt of a review of the changes on `branch`.
pub fn validation_prompt(branch: &str, validation_text: &str) -> (r: String)
    ensures
        r@ == review_intro() + branch@ + review_rules() + validation_text@ + validation_directive(),
{
    let mut out: Vec<char> = Vec::new();
    append_str(
        &mut out,
        "You are a code change validation validator\nYou are tasked with ensuring the current changes in ",
    );
    append_str(&mut out, branch);
    append_str(
        &mut out,
        ".\nYou are to review the pending changes in the current branch with the oracle, librarian, and any other tools that will not make any further code changes to ensure that the following is true:\n\n",
    );
    append_str(&mut out, validation_text);
    append_str(
        &mut out,
        "\n\nIMPORTANT: You MUST end your response with exactly one of these lines on the final line:\nVALIDATION: PASS\nVALIDATION: FAIL",
    );
    string_of(out.as_slice())
}

/// `- f` for each file, one per line.
pub open spec fn file_list(files: Seq<Seq<char>>) -> Seq<char>
    decreases files.len(),
{
    if files.len() == 0 {
        Seq::empty()
    } else if files.len() == 1 {
        "- "@ + files[0]
    } else {
        file_list(files.drop_last()) + "\n"@ + "- "@ + files.last()
    }
}

/// The views of a list of strings.
pub open spec fn views_of(v: Seq<String>) -> Seq<Seq<char>> {
    v.map_values(|s: String| s@)
}

/// Request to commit everything that changed.
pub open spec fn commit_all_request() -> Seq<char> {
    "Please commit the current changes with an appropriate commit message."@
}

/// Opening of a request to commit only some files.
pub open spec fn commit_files_request() -> Seq<char> {
    "Please commit only the following files with an appropriate commit message:\n"@
}

/// The prompt that asks the agent to commit, all changes or only `files`.
pub fn commit_prompt(files: Option<&Vec<String>>) -> (r: String)
    ensures
        r@ == match files {
            Some(fs) => commit_files_request() + file_list(views_of(fs@)),
            None => commit_all_request(),
        },
{
    match files {
        None => String::from_str("Please commit the current changes with an appropriate commit message."),
        Some(fs) => {
            let mut out: Vec<char> = Vec::new();
            append_str(&mut out, "Please commit only the following files with an appropriate commit message:\n");
            let ghost start = out@;
            let mut i: usize = 0;
            while i < fs.len()
                invariant
                    i <= fs@.len(),
                    out@ == start + file_list(views_of(fs@).subrange(0, i as int)),
                decreases fs@.len() - i,
            {
                let ghost before = views_of(fs@).subrange(0, i as int);
                let ghost after = views_of(fs@).subrange(0, i + 1);
                assert(after.drop_last() =~= before);
                if i > 0 {
                    append_str(&mut out, "\n");
                }
                append_str(&mut out, "- ");
                append_str(&mut out, fs[i].as_str());
                i = i + 1;
                proof {
                    if before.len() == 0 {
                        assert(out@ =~= start + file_list(after));
                    } else {
                        assert(out@ =~= start + file_list(after));
                    }
                }
            }
            assert(views_of(fs@).subrange(0, fs@.len() as int) =~= views_of(fs@));
            string_of(out.as_slice())
        },
    }
}

/// The verdict an execution answer carries: passed if it holds the pass
/// marker, else failed if it holds the fail marker, else none.
pub open spec fn prompt_verdict(answer: Option<Seq<char>>) -> Option<crate::types::PromptStatus> {
    match answer {
        Some(m) => if contains_seq(m, prompt_pass_marker()) {
            Some(crate::types::PromptStatus::Passed)
        } else if contains_seq(m, prompt_fail_marker()) {
            Some(crate::types::PromptStatus::Failed)
        } else {
            None
        },
        None => None,
    }
}

/// The view of an optional string.
pub open spec fn opt_view(s: Option<String>) -> Option<Seq<char>> {
    match s {
        Some(x) => Some(x@),
        None => None,
    }
}

/// Reads the verdict of an execution answer.
pub fn read_prompt_verdict(answer: &Option<String>) -> (r: Option<crate::types::PromptStatus>)
    ensures
        r == prompt_verdict(opt_view(*answer)),
{
    match answer {
        Some(m) => {
            if contains_str(m.as_str(), "PROMPT: PASS") {
                Some(crate::types::PromptStatus::Passed)
            } else if contains_str(m.as_str(), "PROMPT: FAIL") {
                Some(crate::types::PromptStatus::Failed)
            } else {
                None
            }
        },
        None => None,
    }
}

/// Whether a review answer holds the pass marker.
pub fn review_passed(answer: &Option<String>) -> (r: bool)
    ensures
        r == (opt_view(*answer) matches Some(m) && contains_seq(m, validation_pass_marker())),
{
    match answer {
        Some(m) => contains_str(m.as_str(), "VALIDATION: PASS"),
        None => false,
    }
}

} // verus!
