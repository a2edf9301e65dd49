//! Tokenizing a command line and classifying it against the denylist.
//!
//! The tokenizer knows nothing of quoting or escaping, and the denylist is a
//! heuristic: a command that passes it is not thereby safe.

use crate::shell::{ShellError, ShellResult};
use crate::text::{
    blank, chars_of, contains, includes, is_blank, lowercase, split_whitespace, to_lowercase,
    tokens, views,
};
use vstd::prelude::*;

verus! {

/// The substrings that mark a command as destructive, in the order in which
/// they are tried. They are matched against the lowercase form of a command.
pub open spec fn denylist() -> Seq<Seq<char>> {
    seq!["rm -rf /"@, "rm -rf /*"@, "dd if=/dev/zero"@, "mkfs"@, "fdisk"@, "format"@]
}

/// Some entry of the denylist is a part of `normalized`.
pub open spec fn on_denylist(normalized: Seq<char>) -> bool {
    exists|k: int| 0 <= k < denylist().len() && contains(normalized, #[trigger] denylist()[k])
}

/// A command is dangerous if its lowercase form matches the denylist.
pub open spec fn is_dangerous_command(command: Seq<char>) -> bool {
    on_denylist(lowercase(command))
}

/// The classification ignores case: two commands with the same lowercase
/// form are classified alike.
pub proof fn lemma_danger_ignores_case(first: Seq<char>, second: Seq<char>)
    requires
        lowercase(first) == lowercase(second),
    ensures
        is_dangerous_command(first) == is_dangerous_command(second),
{
}

/// The position in the denylist of the first entry that is a part of
/// `normalized`, if there is one.
pub open spec fn is_first_match(normalized: Seq<char>, found: Option<usize>) -> bool {
    match found {
        Some(k) => {
            &&& k < denylist().len()
            &&& contains(normalized, denylist()[k as int])
            &&& forall|j: int| 0 <= j < k ==> !contains(normalized, #[trigger] denylist()[j])
        },
        None => !on_denylist(normalized),
    }
}

/// The detail of the error for an empty command.
pub open spec fn empty_command_detail() -> Seq<char> {
    "Empty command"@
}

/// The detail of the error for a command that matches the denylist.
pub open spec fn dangerous_command_detail() -> Seq<char> {
    "Command appears to be potentially dangerous"@
}

/// The entries of the denylist.
pub fn dangerous_patterns() -> (v: Vec<&'static str>)
    ensures
        v@.len() == denylist().len(),
        forall|k: int| 0 <= k < v@.len() ==> (#[trigger] v@[k])@ == denylist()[k],
{
    let v = vec!["rm -rf /", "rm -rf /*", "dd if=/dev/zero", "mkfs", "fdisk", "format"];
    v
}

/// Command parser for shell commands.
pub struct CommandParser;

impl CommandParser {
    /// Parse a command string into its whitespace-separated components.
    pub fn parse(command: &str) -> (r: ShellResult<Vec<String>>)
        ensures
            is_blank(command@) ==> (r matches Err(e) && e.is_invalid_command(
                empty_command_detail(),
            )),
            !is_blank(command@) ==> (r matches Ok(parts) && views(parts@) == tokens(command@)),
    {
        if blank(command) {
            return Err(ShellError::InvalidCommand(String::from_str("Empty command")));
        }
        Ok(split_whitespace(command))
    }

    /// The first entry of the denylist that is a part of `normalized`, a
    /// command already brought to lowercase.
    pub fn first_denylisted(normalized: &str) -> (found: Option<usize>)
        ensures
            is_first_match(normalized@, found),
    {
        let patterns = dangerous_patterns();
        let text = chars_of(normalized);
        let mut k: usize = 0;
        while k < patterns.len()
            invariant
                k <= patterns.len(),
                text@ == normalized@,
                patterns@.len() == denylist().len(),
                forall|j: int|
                    0 <= j < patterns@.len() ==> (#[trigger] patterns@[j])@ == denylist()[j],
                forall|j: int| 0 <= j < k ==> !contains(normalized@, #[trigger] denylist()[j]),
            decreases patterns.len() - k,
        {
            let pattern = chars_of(patterns[k]);
            if includes(&text, &pattern) {
                return Some(k);
            }
            k = k + 1;
        }
        None
    }

    /// Check if a command is potentially dangerous: whether its lowercase
    /// form holds an entry of the denylist.
    pub fn is_dangerous(command: &str) -> (b: bool)
        ensures
            b == is_dangerous_command(command@),
    {
        let normalized = to_lowercase(command);
        Self::first_denylisted(normalized.as_str()).is_some()
    }

    /// Validate command safety: the one check between translation and
    /// execution.
    pub fn validate_safety(command: &str) -> (r: ShellResult<()>)
        ensures
            is_dangerous_command(command@) ==> (r matches Err(e) && e.is_invalid_command(
                dangerous_command_detail(),
            )),
            !is_dangerous_command(command@) ==> r is Ok,
    {
        if Self::is_dangerous(command) {
            return Err(
                ShellError::InvalidCommand(
                    String::from_str("Command appears to be potentially dangerous"),
                ),
            );
        }
        Ok(())
    }
}

} // verus!
