use vstd::prelude::*;
use vstd::string::StrSliceExecFns;
use crate::keys::CARRIAGE_RETURN;

verus! {

/// Pause after each injected character, in milliseconds.
pub const CHAR_DELAY_MS: u64 = 20;

/// Pause after each injected line, ten times the pause after a character.
pub const LINE_DELAY_MS: u64 = 200;

/// One injected keystroke: the byte to queue and the pause that follows it.
#[derive(Clone, Copy, Debug, PartialEq, Eq, Structural)]
pub struct Keystroke {
    pub byte: u8,
    pub delay_ms: u64,
}

/// A line without the carriage return that may close it.
pub open spec fn strip_cr(line: Seq<char>) -> Seq<char> {
    if line.len() > 0 && line.last() == '\r' {
        line.drop_last()
    } else {
        line
    }
}

/// The lines completed so far and the line in progress, after reading `s`.
pub open spec fn split_state(s: Seq<char>) -> (Seq<Seq<char>>, Seq<char>)
    decreases s.len(),
{
    if s.len() == 0 {
        (seq![], seq![])
    } else {
        let (done, cur) = split_state(s.drop_last());
        if s.last() == '\n' {
            (done.push(strip_cr(cur)), seq![])
        } else {
            (done, cur.push(s.last()))
        }
    }
}

/// The lines of a text: split at each `\n`, a `\r` just before it dropped,
/// and no empty line after a final line ending.
pub open spec fn text_lines(s: Seq<char>) -> Seq<Seq<char>> {
    let (done, cur) = split_state(s);
    if cur.len() == 0 {
        done
    } else {
        done.push(cur)
    }
}

/// The keystrokes for one line: each character, then a carriage return.
pub open spec fn line_keystrokes(line: Seq<char>) -> Seq<Keystroke> {
    Seq::new(line.len(), |i: int| Keystroke { byte: line[i] as u8, delay_ms: CHAR_DELAY_MS }).push(
        Keystroke { byte: CARRIAGE_RETURN, delay_ms: LINE_DELAY_MS },
    )
}

/// The keystrokes for a sequence of lines, line after line.
pub open spec fn lines_keystrokes(lines: Seq<Seq<char>>) -> Seq<Keystroke>
    decreases lines.len(),
{
    if lines.len() == 0 {
        seq![]
    } else {
        lines_keystrokes(lines.drop_last()) + line_keystrokes(lines.last())
    }
}

/// The characters of each line, as vectors.
pub open spec fn lines_view(lines: Seq<Vec<char>>) -> Seq<Seq<char>> {
    lines.map_values(|l: Vec<char>| l@)
}

/// Splits a text into its lines.
pub fn split_lines(text: &str) -> (r: Vec<Vec<char>>)
    ensures
        lines_view(r@) == text_lines(text@),
{
    let n = text.unicode_len();
    let mut done: Vec<Vec<char>> = Vec::new();
    let mut cur: Vec<char> = Vec::new();
    let mut i: usize = 0;
    while i < n
        invariant
            n == text@.len(),
            0 <= i <= n,
            (lines_view(done@), cur@) == split_state(text@.subrange(0, i as int)),
        decreases n - i,
    {
        let c = text.get_char(i);
        let ghost prefix = text@.subrange(0, i as int);
        assert(text@.subrange(0, i + 1).drop_last() == prefix);
        if c == '\n' {
            let len = cur.len();
            if len > 0 && cur[len - 1] == '\r' {
                cur.pop();
            }
            let ghost old_done = done@;
            done.push(cur);
            assert(lines_view(done@) == lines_view(old_done).push(cur@));
            cur = Vec::new();
        } else {
            cur.push(c);
        }
        i = i + 1;
    }
    assert(text@.subrange(0, n as int) == text@);
    if cur.len() > 0 {
        let ghost old_done = done@;
        done.push(cur);
        assert(lines_view(done@) == lines_view(old_done).push(cur@));
    }
    done
}

/// Appends the keystrokes for one line to `out`.
fn push_line(out: &mut Vec<Keystroke>, line: &Vec<char>)
    ensures
        final(out)@ == old(out)@ + line_keystrokes(line@),
{
    let ghost start = old(out)@;
    let mut j: usize = 0;
    while j < line.len()
        invariant
            0 <= j <= line.len(),
            out@ == start + Seq::new(
                j as nat,
                |i: int| Keystroke { byte: line@[i] as u8, delay_ms: CHAR_DELAY_MS },
            ),
        decreases line.len() - j,
    {
        out.push(Keystroke { byte: line[j] as u8, delay_ms: CHAR_DELAY_MS });
        j = j + 1;
    }
    out.push(Keystroke { byte: CARRIAGE_RETURN, delay_ms: LINE_DELAY_MS });
}

/// The keystrokes that type in the given lines, line after line.
pub fn pace_lines(lines: &Vec<Vec<char>>) -> (r: Vec<Keystroke>)
    ensures
        r@ == lines_keystrokes(lines_view(lines@)),
{
    let mut out: Vec<Keystroke> = Vec::new();
    let mut k: usize = 0;
    while k < lines.len()
        invariant
            0 <= k <= lines.len(),
            out@ == lines_keystrokes(lines_view(lines@.subrange(0, k as int))),
        decreases lines.len() - k,
    {
        assert(lines_view(lines@.subrange(0, k + 1)).drop_last()
            == lines_view(lines@.subrange(0, k as int)));
        push_line(&mut out, &lines[k]);
        k = k + 1;
    }
    assert(lines@.subrange(0, lines.len() as int) == lines@);
    out
}

/// The keystrokes that type in a text file: its lines one after another,
/// each character followed by a short pause and each line by a carriage
/// return and a longer pause.
pub fn paced_keystrokes(text: &str) -> (r: Vec<Keystroke>)
    ensures
        r@ == lines_keystrokes(text_lines(text@)),
{
    let lines = split_lines(text);
    pace_lines(&lines)
}

/// How many of the keystrokes are carriage returns.
pub open spec fn carriage_returns(ks: Seq<Keystroke>) -> nat
    decreases ks.len(),
{
    if ks.len() == 0 {
        0
    } else {
        carriage_returns(ks.drop_last()) + if ks.last().byte == CARRIAGE_RETURN {
            1nat
        } else {
            0nat
        }
    }
}

/// How many characters the lines hold in all.
pub open spec fn total_chars(lines: Seq<Seq<char>>) -> nat
    decreases lines.len(),
{
    if lines.len() == 0 {
        0
    } else {
        total_chars(lines.drop_last()) + lines.last().len()
    }
}

proof fn lemma_carriage_returns_concat(a: Seq<Keystroke>, b: Seq<Keystroke>)
    ensures
        carriage_returns(a + b) == carriage_returns(a) + carriage_returns(b),
    decreases b.len(),
{
    if b.len() == 0 {
        assert(a + b == a);
    } else {
        lemma_carriage_returns_concat(a, b.drop_last());
        assert((a + b).drop_last() == a + b.drop_last());
    }
}

proof fn lemma_no_carriage_returns(ks: Seq<Keystroke>)
    requires
        forall|i: int| 0 <= i < ks.len() ==> ks[i].byte != CARRIAGE_RETURN,
    ensures
        carriage_returns(ks) == 0,
    decreases ks.len(),
{
    if ks.len() > 0 {
        lemma_no_carriage_returns(ks.drop_last());
    }
}

/// Typing in N lines sends exactly N carriage returns, each line's
/// characters before its own carriage return, with nothing dropped or
/// repeated: one keystroke per character plus one per line. Lines whose
/// characters themselves give the carriage-return byte are left out, as
/// their own bytes would add to the count.
pub proof fn lemma_one_carriage_return_per_line(lines: Seq<Seq<char>>)
    requires
        forall|l: int, i: int|
            0 <= l < lines.len() && 0 <= i < lines[l].len() ==> (lines[l][i] as u8)
                != CARRIAGE_RETURN,
    ensures
        carriage_returns(lines_keystrokes(lines)) == lines.len(),
        lines_keystrokes(lines).len() == total_chars(lines) + lines.len(),
        lines.len() > 0 ==> lines_keystrokes(lines) == lines_keystrokes(lines.drop_last())
            + line_keystrokes(lines.last()),
    decreases lines.len(),
{
    if lines.len() > 0 {
        let prefix = lines.drop_last();
        let line = lines.last();
        assert forall|l: int, i: int|
            0 <= l < prefix.len() && 0 <= i < prefix[l].len() implies (prefix[l][i] as u8)
                != CARRIAGE_RETURN by {
            assert(prefix[l] == lines[l]);
        }
        lemma_one_carriage_return_per_line(prefix);
        let body = Seq::new(
            line.len(),
            |i: int| Keystroke { byte: line[i] as u8, delay_ms: CHAR_DELAY_MS },
        );
        assert forall|i: int| 0 <= i < body.len() implies body[i].byte != CARRIAGE_RETURN by {
            assert(lines[lines.len() - 1] == line);
        }
        lemma_no_carriage_returns(body);
        assert(line_keystrokes(line).drop_last() == body);
        lemma_carriage_returns_concat(lines_keystrokes(prefix), line_keystrokes(line));
    }
}

proof fn lemma_ascii_byte(c: char)
    requires
        (c as u32) < 128,
        c != '\r',
    ensures
        (c as u8) != CARRIAGE_RETURN,
{
    let x = c as u32;
    assert(x < 128 ==> (x as u8) as u32 == x) by (bit_vector);
    assert((c as u8) == (x as u8));
}

/// For a plain ASCII file whose lines hold no carriage return, typing it
/// in sends exactly one carriage return per line and one keystroke per
/// character besides.
pub proof fn lemma_ascii_file_one_carriage_return_per_line(text: Seq<char>)
    requires
        forall|l: int, i: int|
            0 <= l < text_lines(text).len() && 0 <= i < text_lines(text)[l].len() ==> (
            text_lines(text)[l][i] as u32) < 128 && text_lines(text)[l][i] != '\r',
    ensures
        carriage_returns(lines_keystrokes(text_lines(text))) == text_lines(text).len(),
        lines_keystrokes(text_lines(text)).len() == total_chars(text_lines(text)) + text_lines(
            text,
        ).len(),
{
    let lines = text_lines(text);
    assert forall|l: int, i: int|
        0 <= l < lines.len() && 0 <= i < lines[l].len() implies (lines[l][i] as u8)
            != CARRIAGE_RETURN by {
        lemma_ascii_byte(lines[l][i]);
    }
    lemma_one_carriage_return_per_line(lines);
}

} // verus!
