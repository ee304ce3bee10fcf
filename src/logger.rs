//! Console lines: a colored tag before a message, and numbered code blocks.
use vstd::prelude::*;

verus! {

pub const RESET: &'static str = "\x1b[0m";

pub const FG_RED: &'static str = "\x1b[31m";

pub const FG_GREEN: &'static str = "\x1b[32m";

pub const FG_YELLOW: &'static str = "\x1b[33m";

pub const FG_BLUE: &'static str = "\x1b[34m";

pub const FG_MAGENTA: &'static str = "\x1b[35m";

pub const FG_CYAN: &'static str = "\x1b[36m";

/// The character of a decimal digit.
pub open spec fn digit_char(d: nat) -> char {
    seq!['0', '1', '2', '3', '4', '5', '6', '7', '8', '9'][d as int]
}

/// The decimal notation of `n`, most significant digit first, without leading zeros.
pub open spec fn decimal(n: nat) -> Seq<char>
    decreases n,
{
    if n < 10 {
        seq![digit_char(n)]
    } else {
        decimal(n / 10).push(digit_char(n % 10))
    }
}

fn digit_str(d: usize) -> (r: &'static str)
    requires
        d < 10,
    ensures
        r@ == seq![digit_char(d as nat)],
{
    proof {
        reveal_strlit("0");
        reveal_strlit("1");
        reveal_strlit("2");
        reveal_strlit("3");
        reveal_strlit("4");
        reveal_strlit("5");
        reveal_strlit("6");
        reveal_strlit("7");
        reveal_strlit("8");
        reveal_strlit("9");
    }
    let r = if d == 0 {
        "0"
    } else if d == 1 {
        "1"
    } else if d == 2 {
        "2"
    } else if d == 3 {
        "3"
    } else if d == 4 {
        "4"
    } else if d == 5 {
        "5"
    } else if d == 6 {
        "6"
    } else if d == 7 {
        "7"
    } else if d == 8 {
        "8"
    } else {
        "9"
    };
    assert(r@ =~= seq![digit_char(d as nat)]);
    r
}

/// Appends the decimal notation of `n` to `out`.
pub fn push_decimal(out: &mut String, n: usize)
    ensures
        final(out)@ == old(out)@ + decimal(n as nat),
    decreases n,
{
    if n < 10 {
        out.append(digit_str(n));
    } else {
        push_decimal(out, n / 10);
        out.append(digit_str(n % 10));
        assert(decimal(n as nat) == decimal((n / 10) as nat).push(digit_char((n % 10) as nat)));
        assert(final(out)@ =~= old(out)@ + decimal(n as nat));
    }
}


/// A console line: a colored tag, then the message.
pub open spec fn tagged(color: Seq<char>, tag: Seq<char>, msg: Seq<char>) -> Seq<char> {
    color + tag + RESET@ + ": "@ + msg
}

fn tag_line(color: &str, tag: &str, msg: &str) -> (r: String)
    ensures
        r@ == tagged(color@, tag@, msg@),
{
    let mut r = String::from_str(color);
    r.append(tag);
    r.append(RESET);
    r.append(": ");
    r.append(msg);
    assert(r@ =~= tagged(color@, tag@, msg@));
    r
}

/// The line that reports an error.
pub fn error(msg: &str) -> (r: String)
    ensures
        r@ == tagged(FG_RED@, "error"@, msg@),
{
    tag_line(FG_RED, "error", msg)
}

/// The line that warns.
pub fn warn(msg: &str) -> (r: String)
    ensures
        r@ == tagged(FG_YELLOW@, "warn"@, msg@),
{
    tag_line(FG_YELLOW, "warn", msg)
}

/// The line that informs.
pub fn info(msg: &str) -> (r: String)
    ensures
        r@ == tagged(FG_GREEN@, "info"@, msg@),
{
    tag_line(FG_GREEN, "info", msg)
}

/// The line that adds a note.
pub fn note(msg: &str) -> (r: String)
    ensures
        r@ == tagged(FG_BLUE@, "note"@, msg@),
{
    tag_line(FG_BLUE, "note", msg)
}

/// The line that offers help.
pub fn help(msg: &str) -> (r: String)
    ensures
        r@ == tagged(FG_CYAN@, "help"@, msg@),
{
    tag_line(FG_CYAN, "help", msg)
}

/// The line that shows a command.
pub fn cmd(msg: &str) -> (r: String)
    ensures
        r@ == tagged(FG_MAGENTA@, "cmd"@, msg@),
{
    tag_line(FG_MAGENTA, "cmd", msg)
}

/// Relies on String::push: the character goes at the end.
#[verifier::external_body]
pub(crate) fn push_char(s: &mut String, c: char)
    ensures
        final(s)@ == old(s)@.push(c),
{
    s.push(c);
}

/// A line without the one carriage return that may close it.
pub open spec fn strip_cr(line: Seq<char>) -> Seq<char> {
    if line.len() > 0 && line.last() == '\r' {
        line.drop_last()
    } else {
        line
    }
}

/// The lines of `s` that a line feed closes, each without that line feed and
/// without a carriage return just before it; and what follows the last line feed.
pub open spec fn split_closed(s: Seq<char>) -> (Seq<Seq<char>>, Seq<char>)
    decreases s.len(),
{
    if s.len() == 0 {
        (seq![], seq![])
    } else {
        let (closed, rest) = split_closed(s.drop_last());
        if s.last() == '\n' {
            (closed.push(strip_cr(rest)), seq![])
        } else {
            (closed, rest.push(s.last()))
        }
    }
}

/// The lines of a text: split at each line feed (a carriage return before it
/// goes too), with a last line where text follows the last line feed.
pub open spec fn lines_of(s: Seq<char>) -> Seq<Seq<char>> {
    let (closed, rest) = split_closed(s);
    if rest.len() == 0 {
        closed
    } else {
        closed.push(rest)
    }
}

/// Line `k` (counted from 1) of a code block.
pub open spec fn numbered_line(k: nat, line: Seq<char>) -> Seq<char> {
    FG_BLUE@ + decimal(k) + " | "@ + line + RESET@ + "\n"@
}

/// The lines, each numbered from 1 in order, one per row.
pub open spec fn numbered_block(lines: Seq<Seq<char>>) -> Seq<char>
    decreases lines.len(),
{
    if lines.len() == 0 {
        seq![]
    } else {
        numbered_block(lines.drop_last()) + numbered_line(lines.len(), lines.last())
    }
}

/// The code block that shows `s`.
pub open spec fn code_block_of(s: Seq<char>) -> Seq<char> {
    numbered_block(lines_of(s))
}

/// Appends row `k` of a code block to `out`.
fn push_numbered_line(out: &mut String, k: usize, line: &str)
    ensures
        final(out)@ == old(out)@ + numbered_line(k as nat, line@),
{
    out.append(FG_BLUE);
    push_decimal(out, k);
    out.append(" | ");
    out.append(line);
    out.append(RESET);
    out.append("\n");
    assert(final(out)@ =~= old(out)@ + numbered_line(k as nat, line@));
}

/// Shows a text as a block of rows, each line of it numbered from 1.
pub fn code_block(code: &str) -> (r: String)
    ensures
        r@ == code_block_of(code@),
{
    let total = code.unicode_len();
    let mut ret = String::new();
    let mut line = String::new();
    let mut count: usize = 0;
    let ghost mut closed: Seq<Seq<char>> = seq![];
    let chars = code.chars();
    for c in it: chars
        invariant
            it.seq() == code@,
            total == code@.len(),
            (closed, line@) == split_closed(code@.subrange(0, it.index() as int)),
            ret@ == numbered_block(closed),
            count == closed.len(),
            count + line@.len() <= it.index(),
    {
        let ghost before = code@.subrange(0, it.index() as int);
        let ghost after = code@.subrange(0, it.index() + 1);
        assert(after.drop_last() =~= before);
        if c == '\n' {
            let mut text = line.as_str();
            let n = text.unicode_len();
            if n > 0 && text.get_char(n - 1) == '\r' {
                text = text.substring_char(0, n - 1);
            }
            assert(text@ =~= strip_cr(line@));
            push_numbered_line(&mut ret, count + 1, text);
            proof {
                let grown = closed.push(strip_cr(line@));
                assert(grown.drop_last() =~= closed);
                closed = grown;
            }
            count = count + 1;
            line = String::new();
        } else {
            push_char(&mut line, c);
        }
    }
    assert(code@.subrange(0, code@.len() as int) =~= code@);
    if line.as_str().unicode_len() > 0 {
        push_numbered_line(&mut ret, count + 1, line.as_str());
        proof {
            let grown = closed.push(line@);
            assert(grown.drop_last() =~= closed);
        }
    }
    ret
}

} // verus!
