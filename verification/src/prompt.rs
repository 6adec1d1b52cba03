//! The authorization gate: what the user is asked, and how the answer is
//! read.
use vstd::prelude::*;
use crate::strings::{lowercase, lowercased, trim, trimmed};
use crate::text;

verus! {

/// Why the user is asked.
#[derive(Clone, Copy, Debug, PartialEq, Eq, Structural)]
pub enum Context {
    /// The path is absolute (has a root).
    Absolute,
    /// The `interactive` option is present.
    Interactive,
}

/// What a line of input says to a prompt.
#[derive(Clone, Copy, Debug, PartialEq, Eq, Structural)]
pub enum Answer {
    /// Go on.
    Yes,
    /// Leave it.
    No,
    /// Neither: the question is asked again.
    Unclear,
}

impl Context {
    /// What the prompt says of the path.
    pub open spec fn descriptor(self) -> Seq<char> {
        match self {
            Context::Absolute => text::ABSOLUTE@,
            Context::Interactive => text::INTERACTIVE@,
        }
    }

    /// What the prompt says of the path.
    pub fn describe(self) -> (descriptor: &'static str)
        ensures
            descriptor@ == self.descriptor(),
    {
        match self {
            Context::Absolute => text::ABSOLUTE,
            Context::Interactive => text::INTERACTIVE,
        }
    }
}

/// The prompt for a path: the path in double quotes, what is said of it, and
/// the question, with a space after it and no end of line.
pub open spec fn prompt_text(path: Seq<char>, context: Context) -> Seq<char> {
    "\""@ + path + "\" "@ + context.descriptor() + " "@ + text::CONTINUE@ + " "@
}

/// Builds the prompt for a path.
pub fn format_prompt(path: &str, context: Context) -> (prompt: String)
    ensures
        prompt@ == prompt_text(path@, context),
{
    let mut prompt = String::from_str("\"");
    prompt.append(path);
    prompt.append("\" ");
    prompt.append(context.describe());
    prompt.append(" ");
    prompt.append(text::CONTINUE);
    prompt.append(" ");
    prompt
}

/// What a normalized answer says: exactly `y` is yes, exactly `n` is no, and
/// anything else is neither.
pub open spec fn judged(normal: Seq<char>) -> Answer {
    if normal == text::YES@ {
        Answer::Yes
    } else if normal == text::NO@ {
        Answer::No
    } else {
        Answer::Unclear
    }
}

/// What a line of input says: the line is trimmed and put in lowercase, then
/// judged.
pub open spec fn answer_of(line: Seq<char>) -> Answer {
    judged(lowercased(trimmed(line)))
}

/// Judges an answer that has been trimmed and put in lowercase.
pub fn judge(normal: &str) -> (answer: Answer)
    ensures
        answer == judged(normal@),
{
    let given = normal.to_owned();
    if given == String::from_str(text::YES) {
        Answer::Yes
    } else if given == String::from_str(text::NO) {
        Answer::No
    } else {
        Answer::Unclear
    }
}

/// Reads a line of input as the answer to a prompt.
pub fn read_answer(line: &str) -> (answer: Answer)
    ensures
        answer == answer_of(line@),
{
    let lower = lowercase(trim(line));
    judge(lower.as_str())
}

} // verus!
