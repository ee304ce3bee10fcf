//! Reading answers typed at a prompt: line breaks, defaults, yes and no.
use vstd::prelude::*;
use crate::logger::push_char;

verus! {

/// Whether two texts hold the same characters.
pub fn same_text(a: &str, b: &str) -> (r: bool)
    ensures
        r == (a@ == b@),
{
    let n = a.unicode_len();
    if n != b.unicode_len() {
        return false;
    }
    let mut i: usize = 0;
    while i < n
        invariant
            n == a@.len(),
            n == b@.len(),
            i <= n,
            forall|j: int| 0 <= j < i ==> a@[j] == b@[j],
        decreases n - i,
    {
        if a.get_char(i) != b.get_char(i) {
            return false;
        }
        i = i + 1;
    }
    assert(a@ =~= b@);
    true
}

/// Whether the character at `i` is kept when line breaks are taken out: a line
/// feed is not, nor a carriage return right after one.
pub open spec fn kept_at(s: Seq<char>, i: int) -> bool {
    !(s[i] == '\n' || (s[i] == '\r' && i > 0 && s[i - 1] == '\n'))
}

/// A typed line without its line breaks.
pub open spec fn without_breaks(s: Seq<char>) -> Seq<char>
    decreases s.len(),
{
    if s.len() == 0 {
        seq![]
    } else if kept_at(s, s.len() - 1) {
        without_breaks(s.drop_last()).push(s.last())
    } else {
        without_breaks(s.drop_last())
    }
}

/// The accepted words for yes (in lower case).
pub open spec fn is_yes(s: Seq<char>) -> bool {
    s == "y"@ || s == "yes"@ || s == "true"@ || s == "ye"@ || s == "t"@
}

/// The accepted words for no (in lower case).
pub open spec fn is_no(s: Seq<char>) -> bool {
    s == "n"@ || s == "no"@ || s == "false"@ || s == "nah"@ || s == "f"@
}

/// What a lower-case answer to a yes/no question means: an empty answer takes
/// the default where there is one; `None` where the answer means neither.
pub open spec fn yes_no(s: Seq<char>, default: Option<bool>) -> Option<bool> {
    if s.len() == 0 && default is Some {
        default
    } else if is_yes(s) {
        Some(true)
    } else if is_no(s) {
        Some(false)
    } else {
        None
    }
}

/// The lower-case form of a text, as std's full Unicode mapping gives it.
pub uninterp spec fn lower_of(s: Seq<char>) -> Seq<char>;

/// An answer in lower case; an empty answer stays as it is.
pub open spec fn lowered(s: Seq<char>) -> Seq<char> {
    if s.len() == 0 {
        s
    } else {
        lower_of(s)
    }
}

/// Relies on str::to_lowercase: the lower-case mapping of each character, which
/// depends on the text alone.
#[verifier::external_body]
fn lowercase(s: &str) -> (r: String)
    ensures
        r@ == lower_of(s@),
{
    s.to_lowercase()
}

/// An answer that is neither an accepted yes nor an accepted no.
#[derive(Debug, Clone, Copy, PartialEq, Eq, Structural)]
pub enum PromptError {
    UnknownAnswer,
}

/// Questions put to the user. Reading the line is left to the caller; these
/// functions take what was read.
pub struct Prompt {}

impl Prompt {
    /// The answer held in a raw line read from the terminal: its line breaks
    /// taken out.
    pub fn string(line: &str) -> (r: String)
        ensures
            r@ == without_breaks(line@),
    {
        let mut r = String::new();
        let mut after_feed = false;
        for c in it: line.chars()
            invariant
                it.seq() == line@,
                r@ == without_breaks(line@.subrange(0, it.index() as int)),
                it.index() > 0 ==> after_feed == (line@[it.index() - 1] == '\n'),
                it.index() == 0 ==> !after_feed,
        {
            let ghost before = line@.subrange(0, it.index() as int);
            let ghost after = line@.subrange(0, it.index() + 1);
            assert(after.drop_last() =~= before);
            if !(c == '\n' || (c == '\r' && after_feed)) {
                push_char(&mut r, c);
            }
            after_feed = c == '\n';
        }
        assert(line@.subrange(0, line@.len() as int) =~= line@);
        r
    }

    /// The answer, or the default where the answer is empty.
    pub fn default(answer: &str, default: &str) -> (r: String)
        ensures
            r@ == (if answer@.len() == 0 {
                default@
            } else {
                answer@
            }),
    {
        if answer.unicode_len() == 0 {
            String::from_str(default)
        } else {
            String::from_str(answer)
        }
    }

    /// What an answer already in lower case means to a yes/no question.
    pub fn yes_no(lowered: &str, default: Option<bool>) -> (r: Result<bool, PromptError>)
        ensures
            r == (match yes_no(lowered@, default) {
                Some(b) => Ok(b),
                None => Err(PromptError::UnknownAnswer),
            }),
    {
        if lowered.unicode_len() == 0 {
            if let Some(d) = default {
                return Ok(d);
            }
        }
        if same_text(lowered, "y") || same_text(lowered, "yes") || same_text(lowered, "true")
            || same_text(lowered, "ye") || same_text(lowered, "t") {
            Ok(true)
        } else if same_text(lowered, "n") || same_text(lowered, "no") || same_text(lowered, "false")
            || same_text(lowered, "nah") || same_text(lowered, "f") {
            Ok(false)
        } else {
            Err(PromptError::UnknownAnswer)
        }
    }

    /// What an answer to a yes/no question means, whatever its case. An empty
    /// answer takes the default where there is one.
    pub fn bool(answer: &str, default: Option<bool>) -> (r: Result<bool, PromptError>)
        ensures
            r == (match yes_no(lowered(answer@), default) {
                Some(b) => Ok(b),
                None => Err(PromptError::UnknownAnswer),
            }),
            answer@.len() == 0 && default is Some ==> r == Ok::<bool, PromptError>(default->Some_0),
    {
        if answer.unicode_len() == 0 {
            return Self::yes_no(answer, default);
        }
        let lowered = lowercase(answer);
        Self::yes_no(lowered.as_str(), default)
    }
}

} // verus!
