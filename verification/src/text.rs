//! Verified text building: indentation, decimal rendering of line
//! numbers, and the fixed-width line-number gutter.

use vstd::prelude::*;
use vstd::string::StringExecFns;

verus! {

/// `n` spaces.
pub open spec fn sp(n: nat) -> Seq<char> {
    Seq::new(n, |i: int| ' ')
}

/// A string of `n` spaces.
pub fn spaces(n: usize) -> (r: String)
    ensures
        r@ == sp(n as nat),
{
    let mut r = String::new();
    let mut i: usize = 0;
    proof {
        assert(r@ =~= sp(0));
    }
    while i < n
        invariant
            i <= n,
            r@ == sp(i as nat),
        decreases n - i,
    {
        r.append(" ");
        proof {
            reveal_strlit(" ");
            assert(r@ =~= sp((i + 1) as nat));
        }
        i = i + 1;
    }
    r
}

/// The decimal digit character for `d < 10`.
pub open spec fn digit_char(d: nat) -> char {
    ((48 + d) as u8) as char
}

/// The decimal rendering of `n`, most significant digit first, without
/// leading zeros (a single `0` for zero).
pub open spec fn dec_of(n: nat) -> Seq<char>
    decreases n,
{
    if n < 10 {
        seq![digit_char(n)]
    } else {
        dec_of(n / 10).push(digit_char(n % 10))
    }
}

/// One decimal digit as a string.
fn digit_str(d: usize) -> (r: &'static str)
    requires
        d < 10,
    ensures
        r@ == seq![digit_char(d as nat)],
{
    proof {
        reveal_strlit("0");
        reveal_strlit("1");
        reveal_strlit("2");
        reveal_strlit("3");
        reveal_strlit("4");
        reveal_strlit("5");
        reveal_strlit("6");
        reveal_strlit("7");
        reveal_strlit("8");
        reveal_strlit("9");
    }
    if d == 0 {
        proof {
            assert("0"@ =~= seq![digit_char(0)]);
        }
        "0"
    } else if d == 1 {
        proof {
            assert("1"@ =~= seq![digit_char(1)]);
        }
        "1"
    } else if d == 2 {
        proof {
            assert("2"@ =~= seq![digit_char(2)]);
        }
        "2"
    } else if d == 3 {
        proof {
            assert("3"@ =~= seq![digit_char(3)]);
        }
        "3"
    } else if d == 4 {
        proof {
            assert("4"@ =~= seq![digit_char(4)]);
        }
        "4"
    } else if d == 5 {
        proof {
            assert("5"@ =~= seq![digit_char(5)]);
        }
        "5"
    } else if d == 6 {
        proof {
            assert("6"@ =~= seq![digit_char(6)]);
        }
        "6"
    } else if d == 7 {
        proof {
            assert("7"@ =~= seq![digit_char(7)]);
        }
        "7"
    } else if d == 8 {
        proof {
            assert("8"@ =~= seq![digit_char(8)]);
        }
        "8"
    } else {
        proof {
            assert("9"@ =~= seq![digit_char(9)]);
        }
        "9"
    }
}

/// The decimal rendering of `n` as a string.
pub fn dec_string(n: usize) -> (r: String)
    ensures
        r@ == dec_of(n as nat),
    decreases n,
{
    if n < 10 {
        String::from_str(digit_str(n))
    } else {
        let mut r = dec_string(n / 10);
        r.append(digit_str(n % 10));
        proof {
            assert(dec_of((n as nat) / 10).push(digit_char((n as nat) % 10)) =~= dec_of(
                (n as nat) / 10,
            ) + seq![digit_char((n as nat) % 10)]);
        }
        r
    }
}

/// How many digits `dec_of` uses.
pub proof fn lemma_dec_len(n: nat)
    ensures
        n < 10 ==> dec_of(n).len() == 1,
        10 <= n < 100 ==> dec_of(n).len() == 2,
        100 <= n ==> dec_of(n).len() >= 3,
    decreases n,
{
    if n >= 10 {
        lemma_dec_len(n / 10);
    }
}

/// The padding that left-aligns a rendering of length `l` in a field of
/// width three.
pub open spec fn pad3(l: nat) -> nat {
    if l < 3 {
        (3 - l) as nat
    } else {
        0
    }
}

/// The fixed-width, one-based line-number gutter: a space, the number
/// left-aligned in a field of width three, and a space.
pub open spec fn gutter_model(n: nat) -> Seq<char> {
    " "@ + dec_of(n) + sp(pad3(dec_of(n).len())) + " "@
}

/// The gutter text for line number `n`.
pub fn gutter_text(n: usize) -> (r: String)
    ensures
        r@ == gutter_model(n as nat),
{
    let d = dec_string(n);
    let pad: usize = if n < 10 {
        2
    } else if n < 100 {
        1
    } else {
        0
    };
    proof {
        lemma_dec_len(n as nat);
        assert(pad == pad3(dec_of(n as nat).len()));
    }
    let mut r = String::from_str(" ");
    r.append(d.as_str());
    let s = spaces(pad);
    r.append(s.as_str());
    r.append(" ");
    r
}

/// The sequence of line texts held by a sequence of strings.
pub open spec fn lines_model(v: Seq<String>) -> Seq<Seq<char>> {
    v.map(|i: int, s: String| s@)
}

/// Appending one string appends its text.
pub proof fn lemma_lines_model_push(v: Seq<String>, s: String)
    ensures
        lines_model(v.push(s)) == lines_model(v) + seq![s@],
{
    assert(lines_model(v.push(s)) =~= lines_model(v) + seq![s@]);
}

/// The lines joined into one text, a newline after every line (also the
/// last).
pub open spec fn join_nl(lines: Seq<Seq<char>>) -> Seq<char>
    decreases lines.len(),
{
    if lines.len() == 0 {
        Seq::empty()
    } else {
        lines[0] + "\n"@ + join_nl(lines.drop_first())
    }
}

/// Joining one more line appends it and a newline.
pub proof fn lemma_join_nl_push(lines: Seq<Seq<char>>, l: Seq<char>)
    ensures
        join_nl(lines.push(l)) == join_nl(lines) + l + "\n"@,
    decreases lines.len(),
{
    if lines.len() == 0 {
        reveal_with_fuel(join_nl, 2);
        assert(lines.push(l)[0] == l);
        assert(lines.push(l).drop_first() =~= Seq::<Seq<char>>::empty());
        assert(join_nl(lines.push(l)) =~= join_nl(lines) + l + "\n"@);
    } else {
        reveal_with_fuel(join_nl, 2);
        assert(lines.push(l)[0] == lines[0]);
        assert(lines.push(l).drop_first() =~= lines.drop_first().push(l));
        lemma_join_nl_push(lines.drop_first(), l);
        assert(join_nl(lines.push(l)) =~= join_nl(lines) + l + "\n"@);
    }
}

/// The text of all lines, joined, newline-terminated.
pub fn join_lines(lines: &Vec<String>) -> (r: String)
    ensures
        r@ == join_nl(lines_model(lines@)),
{
    let mut r = String::new();
    let mut i: usize = 0;
    proof {
        assert(lines_model(lines@).take(0) =~= Seq::<Seq<char>>::empty());
        assert(r@ =~= join_nl(lines_model(lines@).take(0)));
    }
    while i < lines.len()
        invariant
            i <= lines@.len(),
            r@ == join_nl(lines_model(lines@).take(i as int)),
        decreases lines@.len() - i,
    {
        r.append(lines[i].as_str());
        r.append("\n");
        proof {
            lemma_join_nl_push(lines_model(lines@).take(i as int), lines@[i as int]@);
            assert(lines_model(lines@).take(i as int).push(lines@[i as int]@) =~= lines_model(
                lines@,
            ).take(i as int + 1));
        }
        i = i + 1;
    }
    proof {
        assert(lines_model(lines@).take(lines@.len() as int) =~= lines_model(lines@));
    }
    r
}

/// How many newline characters `s` holds.
pub open spec fn count_nl(s: Seq<char>) -> nat
    decreases s.len(),
{
    if s.len() == 0 {
        0
    } else {
        (if s[0] == '\n' {
            1nat
        } else {
            0nat
        }) + count_nl(s.drop_first())
    }
}

/// How many lines a text has when it is split after each newline: one
/// per newline, plus a trailing line for a nonempty remainder.
pub open spec fn line_count(s: Seq<char>) -> nat {
    count_nl(s) + (if s.len() > 0 && s[s.len() - 1] != '\n' {
        1nat
    } else {
        0nat
    })
}

/// The length of the first line piece of a text: through the first
/// newline, or the whole remainder when none follows.
pub open spec fn first_piece_len(s: Seq<char>) -> nat
    decreases s.len(),
{
    if s.len() == 0 {
        0
    } else if s[0] == '\n' {
        1
    } else {
        1 + first_piece_len(s.drop_first())
    }
}

/// The first piece of a nonempty text is nonempty and lies within it.
pub proof fn lemma_first_piece_len_bounds(s: Seq<char>)
    requires
        s.len() > 0,
    ensures
        0 < first_piece_len(s) <= s.len(),
    decreases s.len(),
{
    if s[0] != '\n' {
        if s.len() > 1 {
            lemma_first_piece_len_bounds(s.drop_first());
        } else {
            assert(first_piece_len(s.drop_first()) == 0);
        }
    }
}

/// The pieces a text splits into after each newline, each piece keeping
/// its newline; a nonempty remainder without one is the last piece.
pub open spec fn split_lines(s: Seq<char>) -> Seq<Seq<char>>
    decreases s.len(),
    via split_lines_decreases
{
    if s.len() == 0 {
        Seq::empty()
    } else {
        seq![s.take(first_piece_len(s) as int)] + split_lines(s.skip(first_piece_len(s) as int))
    }
}

#[via_fn]
proof fn split_lines_decreases(s: Seq<char>) {
    if s.len() > 0 {
        lemma_first_piece_len_bounds(s);
    }
}

/// Newlines are counted piecewise.
pub proof fn lemma_count_nl_add(a: Seq<char>, b: Seq<char>)
    ensures
        count_nl(a + b) == count_nl(a) + count_nl(b),
    decreases a.len(),
{
    if a.len() == 0 {
        assert(a + b =~= b);
    } else {
        assert((a + b)[0] == a[0]);
        assert((a + b).drop_first() =~= a.drop_first() + b);
        lemma_count_nl_add(a.drop_first(), b);
    }
}

/// A nonempty joined text ends with a newline.
pub proof fn lemma_join_nl_ends_with_nl(lines: Seq<Seq<char>>)
    requires
        lines.len() > 0,
    ensures
        join_nl(lines).len() > 0,
        join_nl(lines)[join_nl(lines).len() - 1] == '\n',
    decreases lines.len(),
{
    reveal_strlit("\n");
    if lines.len() == 1 {
        assert(join_nl(lines.drop_first()) =~= Seq::empty()) by {
            assert(lines.drop_first().len() == 0);
        }
        assert(join_nl(lines) =~= lines[0] + "\n"@);
    } else {
        lemma_join_nl_ends_with_nl(lines.drop_first());
    }
}

/// Joining lines that hold no newline themselves gives a text of
/// exactly one line per joined line: the line count of the canonical
/// text is the number of canonical lines.
pub proof fn lemma_line_count_join(lines: Seq<Seq<char>>)
    requires
        forall|i: int| 0 <= i < lines.len() ==> count_nl(#[trigger] lines[i]) == 0,
    ensures
        line_count(join_nl(lines)) == lines.len(),
    decreases lines.len(),
{
    reveal_strlit("\n");
    if lines.len() == 0 {
    } else {
        assert(count_nl("\n"@) == 1) by {
            reveal_with_fuel(count_nl, 2);
            assert("\n"@.len() == 1);
        }
        lemma_count_nl_add(lines[0], "\n"@);
        lemma_count_nl_add(lines[0] + "\n"@, join_nl(lines.drop_first()));
        assert(lines[0] + "\n"@ + join_nl(lines.drop_first()) =~= (lines[0] + "\n"@) + join_nl(
            lines.drop_first(),
        ));
        lemma_line_count_join(lines.drop_first());
        lemma_join_nl_ends_with_nl(lines);
        assert(count_nl(join_nl(lines.drop_first())) == line_count(
            join_nl(lines.drop_first()),
        )) by {
            if lines.drop_first().len() > 0 {
                lemma_join_nl_ends_with_nl(lines.drop_first());
            }
        }
    }
}

} // verus!
