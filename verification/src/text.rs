//! Small text helpers shared by the modules that build messages, headers
//! and URLs.

use vstd::prelude::*;

verus! {

/// The decimal digit for a value below ten.
pub open spec fn digit_char(d: nat) -> char {
    if d == 0 {
        '0'
    } else if d == 1 {
        '1'
    } else if d == 2 {
        '2'
    } else if d == 3 {
        '3'
    } else if d == 4 {
        '4'
    } else if d == 5 {
        '5'
    } else if d == 6 {
        '6'
    } else if d == 7 {
        '7'
    } else if d == 8 {
        '8'
    } else {
        '9'
    }
}

/// The decimal numeral of `n`, most significant digit first, without
/// leading zeros (`0` is written `"0"`).
pub open spec fn decimal(n: nat) -> Seq<char>
    decreases n,
{
    if n < 10 {
        seq![digit_char(n)]
    } else {
        decimal(n / 10).push(digit_char(n % 10))
    }
}

/// The numeral of `n`, left-padded with zeros to at least two digits.
pub open spec fn decimal2(n: nat) -> Seq<char> {
    if n < 10 {
        seq!['0'].add(decimal(n))
    } else {
        decimal(n)
    }
}

fn digit_str(d: u64) -> (s: &'static str)
    requires
        d < 10,
    ensures
        s@ == seq![digit_char(d as nat)],
{
    proof {
        reveal_strlit("0");
        reveal_strlit("1");
        reveal_strlit("2");
        reveal_strlit("3");
        reveal_strlit("4");
        reveal_strlit("5");
        reveal_strlit("6");
        reveal_strlit("7");
        reveal_strlit("8");
        reveal_strlit("9");
    }
    let s = if d == 0 {
        "0"
    } else if d == 1 {
        "1"
    } else if d == 2 {
        "2"
    } else if d == 3 {
        "3"
    } else if d == 4 {
        "4"
    } else if d == 5 {
        "5"
    } else if d == 6 {
        "6"
    } else if d == 7 {
        "7"
    } else if d == 8 {
        "8"
    } else {
        "9"
    };
    assert(s@ =~= seq![digit_char(d as nat)]);
    s
}

/// Appends the decimal numeral of `n` to `out`.
pub fn push_decimal(out: &mut String, n: u64)
    ensures
        final(out)@ == old(out)@ + decimal(n as nat),
    decreases n,
{
    if n >= 10 {
        push_decimal(out, n / 10);
    }
    let d = digit_str(n % 10);
    out.append(d);
    proof {
        if n >= 10 {
            assert(final(out)@ =~= old(out)@ + decimal(n as nat));
        } else {
            assert(final(out)@ =~= old(out)@ + decimal(n as nat));
        }
    }
}

/// Appends `n` with at least two digits.
pub fn push_decimal2(out: &mut String, n: u64)
    ensures
        final(out)@ == old(out)@ + decimal2(n as nat),
{
    if n < 10 {
        out.append("0");
        proof {
            reveal_strlit("0");
        }
    }
    push_decimal(out, n);
    proof {
        assert(final(out)@ =~= old(out)@ + decimal2(n as nat));
    }
}

/// `text` without the slashes at its end.
pub open spec fn trim_end_slashes(text: Seq<char>) -> Seq<char>
    decreases text.len(),
{
    if text.len() > 0 && text.last() == '/' {
        trim_end_slashes(text.drop_last())
    } else {
        text
    }
}

/// Cuts the slashes from the end of `text`.
pub fn strip_end_slashes(text: &str) -> (trimmed: &str)
    ensures
        trimmed@ == trim_end_slashes(text@),
{
    let mut end: usize = text.unicode_len();
    proof {
        assert(text@.subrange(0, end as int) =~= text@);
    }
    while end > 0 && text.get_char(end - 1) == '/'
        invariant
            end <= text@.len(),
            trim_end_slashes(text@) == trim_end_slashes(text@.subrange(0, end as int)),
        decreases end,
    {
        proof {
            let cut = text@.subrange(0, end as int);
            assert(cut.last() == '/');
            assert(cut.drop_last() =~= text@.subrange(0, end - 1));
        }
        end -= 1;
    }
    text.substring_char(0, end)
}

/// The LRC time tag of a line that starts `ms` milliseconds into a song:
/// minutes, seconds and hundredths, each with two digits at least.
pub open spec fn lrc_tag(ms: nat) -> Seq<char> {
    "["@ + decimal2(ms / 60000) + ":"@ + decimal2((ms % 60000) / 1000) + "."@ + decimal2(
        (ms % 1000) / 10,
    ) + "]"@
}

/// Appends the LRC time tag for `ms` milliseconds.
pub fn push_lrc_tag(out: &mut String, ms: u64)
    ensures
        final(out)@ == old(out)@ + lrc_tag(ms as nat),
{
    out.append("[");
    push_decimal2(out, ms / 60000);
    out.append(":");
    push_decimal2(out, (ms % 60000) / 1000);
    out.append(".");
    push_decimal2(out, (ms % 1000) / 10);
    out.append("]");
    proof {
        assert(final(out)@ =~= old(out)@ + lrc_tag(ms as nat));
    }
}

/// Lines joined with a line feed between them.
pub open spec fn joined_lines(lines: Seq<Seq<char>>) -> Seq<char>
    decreases lines.len(),
{
    if lines.len() == 0 {
        Seq::empty()
    } else if lines.len() == 1 {
        lines[0]
    } else {
        joined_lines(lines.drop_last()) + "\n"@ + lines.last()
    }
}

/// Joining one more line.
pub proof fn lemma_join_push(lines: Seq<Seq<char>>, line: Seq<char>)
    ensures
        joined_lines(lines.push(line)) == if lines.len() == 0 {
            line
        } else {
            joined_lines(lines) + "\n"@ + line
        },
{
    assert(lines.push(line).drop_last() =~= lines);
}

} // verus!
