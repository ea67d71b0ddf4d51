//! Turning what the transcription engine printed into the text to type.
//!
//! The raw output is stripped of surrounding white space, cut into lines,
//! blank lines are dropped and the rest is joined with single spaces.

use vstd::prelude::*;
use crate::text::chars_of;

verus! {

/// White space as Unicode defines it (the `White_Space` property).
pub open spec fn is_space(c: char) -> bool {
    let u = c as u32;
    ||| 0x09 <= u <= 0x0D
    ||| u == 0x20
    ||| u == 0x85
    ||| u == 0xA0
    ||| u == 0x1680
    ||| 0x2000 <= u <= 0x200A
    ||| u == 0x2028
    ||| u == 0x2029
    ||| u == 0x202F
    ||| u == 0x205F
    ||| u == 0x3000
}

/// The first position at or after `i` that holds no white space.
pub open spec fn skip_spaces(s: Seq<char>, i: int) -> int
    decreases s.len() - i,
{
    if 0 <= i < s.len() && is_space(s[i]) {
        skip_spaces(s, i + 1)
    } else {
        i
    }
}

/// The end of `s[lo..j]` once its trailing white space is cut off.
pub open spec fn drop_spaces(s: Seq<char>, lo: int, j: int) -> int
    decreases j,
{
    if 0 <= lo < j <= s.len() && is_space(s[j - 1]) {
        drop_spaces(s, lo, j - 1)
    } else {
        j
    }
}

/// Where the text proper begins and ends: `s` without the white space
/// around it is `s[a..b]`.
pub open spec fn trim_bounds(s: Seq<char>) -> (int, int) {
    let a = skip_spaces(s, 0);
    (a, drop_spaces(s, a, s.len() as int))
}

/// `s` without the white space around it.
pub open spec fn trimmed(s: Seq<char>) -> Seq<char> {
    s.subrange(trim_bounds(s).0, trim_bounds(s).1)
}

/// The position of the first newline at or after `i`, or the end of `s`.
pub open spec fn line_end(s: Seq<char>, i: int) -> int
    decreases s.len() - i,
{
    if 0 <= i < s.len() && s[i] != '\n' {
        line_end(s, i + 1)
    } else {
        i
    }
}

/// A line without the carriage return that may close it.
pub open spec fn without_cr(line: Seq<char>) -> Seq<char> {
    if line.len() > 0 && line.last() == '\r' {
        line.drop_last()
    } else {
        line
    }
}

/// A line of nothing but white space.
pub open spec fn is_blank(line: Seq<char>) -> bool {
    forall|i: int| 0 <= i < line.len() ==> is_space(#[trigger] line[i])
}

/// The line of `s` that begins at `i`: up to the next newline, without the
/// carriage return before that newline; the last line runs to the end.
pub open spec fn line_at(s: Seq<char>, i: int) -> Seq<char> {
    let e = line_end(s, i);
    if e < s.len() {
        without_cr(s.subrange(i, e))
    } else {
        s.subrange(i, e)
    }
}

/// The lines of `s` from position `i` on that are not blank, in order.
pub open spec fn kept_lines(s: Seq<char>, i: int) -> Seq<Seq<char>>
    decreases s.len() - i,
{
    if 0 <= i < s.len() {
        let e = line_end(s, i);
        let rest = if i <= e < s.len() {
            kept_lines(s, e + 1)
        } else {
            Seq::empty()
        };
        if is_blank(line_at(s, i)) {
            rest
        } else {
            seq![line_at(s, i)] + rest
        }
    } else {
        Seq::empty()
    }
}

/// The lines joined by single spaces.
pub open spec fn joined(lines: Seq<Seq<char>>) -> Seq<char>
    decreases lines.len(),
{
    if lines.len() == 0 {
        Seq::empty()
    } else if lines.len() == 1 {
        lines[0]
    } else {
        joined(lines.drop_last()) + seq![' '] + lines.last()
    }
}

/// The text that raw engine output stands for.
pub open spec fn cleaned(raw: Seq<char>) -> Seq<char> {
    joined(kept_lines(trimmed(raw), 0))
}

/// The message for an engine that exited with a failure.
pub open spec fn engine_failed_text(stderr: Seq<char>) -> Seq<char> {
    "Whisper.cpp failed: "@ + stderr
}

/// The message for an engine that printed nothing to type.
pub open spec fn empty_transcription_text() -> Seq<char> {
    "Whisper returned empty transcription"@
}

/// Tells whether a character is white space.
pub fn char_is_space(c: char) -> (r: bool)
    ensures
        r == is_space(c),
{
    let u: u32 = c as u32;
    (0x09 <= u && u <= 0x0D) || u == 0x20 || u == 0x85 || u == 0xA0 || u == 0x1680 || (0x2000 <= u
        && u <= 0x200A) || u == 0x2028 || u == 0x2029 || u == 0x202F || u == 0x205F || u == 0x3000
}

/// Cleans raw engine output: strips the white space around it, drops blank
/// lines and joins the remaining lines with single spaces.
pub fn clean_transcription(raw: &str) -> (r: String)
    ensures
        r@ == cleaned(raw@),
{
    let chars = chars_of(raw);
    let n: usize = chars.len();
    let mut a: usize = 0;
    while a < n && char_is_space(chars[a])
        invariant
            a <= n,
            n == chars@.len(),
            skip_spaces(chars@, 0) == skip_spaces(chars@, a as int),
        decreases n - a,
    {
        a = a + 1;
    }
    let mut b: usize = n;
    while b > a && char_is_space(chars[b - 1])
        invariant
            a <= b <= n,
            n == chars@.len(),
            drop_spaces(chars@, a as int, n as int) == drop_spaces(chars@, a as int, b as int),
        decreases b,
    {
        b = b - 1;
    }
    let ghost t = chars@.subrange(a as int, b as int);
    assert(t == trimmed(raw@));
    let ghost mut acc: Seq<Seq<char>> = Seq::empty();
    let mut out: String = String::new();
    let mut any: bool = false;
    let mut i: usize = a;
    proof {
        reveal_strlit(" ");
    }
    while i < b
        invariant
            a <= i <= b <= n,
            n == chars@.len(),
            chars@ == raw@,
            t == chars@.subrange(a as int, b as int),
            kept_lines(t, 0) == acc + kept_lines(t, i - a),
            out@ == joined(acc),
            any == (acc.len() > 0),
            " "@ == seq![' '],
        decreases b - i,
    {
        let mut e: usize = i;
        while e < b && chars[e] != '\n'
            invariant
                i <= e <= b <= n,
                n == chars@.len(),
                t == chars@.subrange(a as int, b as int),
                a <= i,
                line_end(t, i - a) == line_end(t, e - a),
            decreases b - e,
        {
            assert(t[e - a] == chars@[e as int]);
            e = e + 1;
        }
        proof {
            if e < b {
                assert(t[e - a] == chars@[e as int]);
            }
            assert(line_end(t, i - a) == e - a);
        }
        let mut stop: usize = e;
        if e < b && e > i && chars[e - 1] == '\r' {
            stop = e - 1;
        }
        let ghost line = chars@.subrange(i as int, stop as int);
        proof {
            let whole = t.subrange(i - a, e - a);
            assert(whole =~= chars@.subrange(i as int, e as int));
            if e < b {
                if whole.len() > 0 && whole.last() == '\r' {
                    assert(whole.drop_last() =~= line);
                }
            }
            assert(line_at(t, i - a) =~= line);
        }
        let ghost rest = if e < b {
            kept_lines(t, e - a + 1)
        } else {
            Seq::<Seq<char>>::empty()
        };
        assert(kept_lines(t, i - a) == if is_blank(line) {
            rest
        } else {
            seq![line] + rest
        });
        let mut k: usize = i;
        while k < stop && char_is_space(chars[k])
            invariant
                i <= k <= stop <= n,
                n == chars@.len(),
                line == chars@.subrange(i as int, stop as int),
                forall|m: int| 0 <= m < k - i ==> is_space(#[trigger] line[m]),
            decreases stop - k,
        {
            k = k + 1;
        }
        proof {
            if k < stop {
                assert(!is_space(line[k - i]));
            }
        }
        if k < stop {
            if any {
                out.append(" ");
            }
            out.append(raw.substring_char(i, stop));
            proof {
                let grown = acc.push(line);
                assert(grown.drop_last() =~= acc);
                assert(joined(grown) =~= out@);
                assert(acc + (seq![line] + rest) =~= grown + rest);
                acc = grown;
            }
            any = true;
        }
        if e < b {
            i = e + 1;
        } else {
            i = b;
            assert(kept_lines(t, i - a) =~= rest);
        }
    }
    assert(kept_lines(t, i - a) =~= Seq::<Seq<char>>::empty());
    assert(acc + Seq::<Seq<char>>::empty() =~= acc);
    out
}

/// Reads the outcome of one run of the engine: whether it exited with
/// success, what it printed and what it complained of. Gives the text to
/// type, or the message that says why there is none.
pub fn transcription_result(success: bool, stdout: &str, stderr: &str) -> (r: Result<String, String>)
    ensures
        match r {
            Ok(text) => success && text@ == cleaned(stdout@) && text@.len() > 0,
            Err(message) => if !success {
                message@ == engine_failed_text(stderr@)
            } else {
                cleaned(stdout@).len() == 0 && message@ == empty_transcription_text()
            },
        },
{
    if !success {
        return Err(String::from_str("Whisper.cpp failed: ").concat(stderr));
    }
    let text = clean_transcription(stdout);
    if text.as_str().unicode_len() == 0 {
        return Err(String::from_str("Whisper returned empty transcription"));
    }
    Ok(text)
}

} // verus!
