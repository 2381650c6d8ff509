use vstd::prelude::*;

verus! {

/// The decimal digit character for `d`, which must be below ten.
pub open spec fn spec_digit(d: nat) -> char {
    if d == 0 {
        '0'
    } else if d == 1 {
        '1'
    } else if d == 2 {
        '2'
    } else if d == 3 {
        '3'
    } else if d == 4 {
        '4'
    } else if d == 5 {
        '5'
    } else if d == 6 {
        '6'
    } else if d == 7 {
        '7'
    } else if d == 8 {
        '8'
    } else {
        '9'
    }
}

/// The decimal representation of `n`: most significant digit first, no sign,
/// no leading zeros (a single `'0'` for zero).
pub open spec fn spec_decimal(n: nat) -> Seq<char>
    decreases n,
{
    if n < 10 {
        seq![spec_digit(n)]
    } else {
        spec_decimal(n / 10) + seq![spec_digit(n % 10)]
    }
}

fn digit_str(d: u32) -> (r: &'static str)
    requires
        d < 10,
    ensures
        r@ == seq![spec_digit(d as nat)],
{
    let r = match d {
        0 => "0",
        1 => "1",
        2 => "2",
        3 => "3",
        4 => "4",
        5 => "5",
        6 => "6",
        7 => "7",
        8 => "8",
        _ => "9",
    };
    proof {
        reveal_strlit("0");
        reveal_strlit("1");
        reveal_strlit("2");
        reveal_strlit("3");
        reveal_strlit("4");
        reveal_strlit("5");
        reveal_strlit("6");
        reveal_strlit("7");
        reveal_strlit("8");
        reveal_strlit("9");
        assert(r@ =~= seq![spec_digit(d as nat)]);
    }
    r
}

/// Renders `n` in decimal, exactly as `spec_decimal` describes.
pub fn u32_to_decimal(n: u32) -> (s: String)
    ensures
        s@ == spec_decimal(n as nat),
    decreases n,
{
    if n < 10 {
        digit_str(n).to_owned()
    } else {
        let q = n / 10;
        let r = n % 10;
        assert(q < n) by (nonlinear_arith)
            requires
                q == n / 10,
                n >= 10,
        ;
        let prefix = u32_to_decimal(q);
        prefix.concat(digit_str(r))
    }
}

/// The position of the first `'\n'` at or after `i`, or the length of `s`
/// when no newline follows.
pub open spec fn line_end(s: Seq<char>, i: int) -> int
    decreases s.len() - i when 0 <= i <= s.len()
{
    if i >= s.len() {
        s.len() as int
    } else if s[i] == '\n' {
        i
    } else {
        line_end(s, i + 1)
    }
}

proof fn lemma_line_end_bounds(s: Seq<char>, i: int)
    requires
        0 <= i <= s.len(),
    ensures
        i <= line_end(s, i) <= s.len(),
    decreases s.len() - i,
{
    if i < s.len() && s[i] != '\n' {
        lemma_line_end_bounds(s, i + 1);
    }
}

/// `l` with one trailing carriage return removed, if it has one.
pub open spec fn strip_cr(l: Seq<char>) -> Seq<char> {
    if l.len() > 0 && l.last() == '\r' {
        l.drop_last()
    } else {
        l
    }
}

/// The lines of `s` from position `i` on: each line runs to the next newline
/// (exclusive) or to the end of the text; a terminated line sheds one
/// trailing carriage return; a final newline opens no further line.
pub open spec fn spec_lines_from(s: Seq<char>, i: int) -> Seq<Seq<char>>
    decreases s.len() + 1 - i when 0 <= i <= s.len() + 1 via spec_lines_from_decreases
{
    if i >= s.len() {
        seq![]
    } else {
        let end = line_end(s, i);
        let raw = s.subrange(i, end);
        let line = if end < s.len() {
            strip_cr(raw)
        } else {
            raw
        };
        seq![line] + spec_lines_from(s, end + 1)
    }
}

#[via_fn]
proof fn spec_lines_from_decreases(s: Seq<char>, i: int) {
    if 0 <= i < s.len() {
        lemma_line_end_bounds(s, i);
    }
}

/// The lines of `s`, as a text split at newlines: a trailing carriage return
/// before each newline is dropped, and a trailing newline ends the last line
/// rather than opening an empty one.
pub open spec fn spec_lines(s: Seq<char>) -> Seq<Seq<char>> {
    spec_lines_from(s, 0)
}

/// Splits `s` into its lines, exactly as `spec_lines` describes.
pub fn split_lines(s: &str) -> (r: Vec<String>)
    ensures
        r@.map_values(|l: String| l@) == spec_lines(s@),
{
    let n = s.unicode_len();
    let mut out: Vec<String> = Vec::new();
    let mut start: usize = 0;
    while start < n
        invariant
            n == s@.len(),
            start <= n,
            spec_lines(s@) == out@.map_values(|l: String| l@) + spec_lines_from(s@, start as int),
        decreases n - start,
    {
        let ghost start0 = start as int;
        let ghost out0 = out@;
        let mut j = start;
        while j < n && s.get_char(j) != '\n'
            invariant
                n == s@.len(),
                start <= j <= n,
                start0 == start as int,
                line_end(s@, start0) == line_end(s@, j as int),
            decreases n - j,
        {
            j += 1;
        }
        proof {
            assert(line_end(s@, start0) == j as int);
        }
        let piece: String;
        if j < n {
            let e = if j > start && s.get_char(j - 1) == '\r' {
                j - 1
            } else {
                j
            };
            piece = s.substring_char(start, e).to_owned();
            proof {
                assert(piece@ =~= strip_cr(s@.subrange(start0, j as int)));
            }
            out.push(piece);
            start = j + 1;
        } else {
            piece = s.substring_char(start, n).to_owned();
            out.push(piece);
            start = n;
        }
        proof {
            assert(out@.map_values(|l: String| l@) =~= out0.map_values(|l: String| l@).push(
                piece@,
            )) by {
                out0.lemma_push_map_commute(|l: String| l@, piece);
            }
            let ghost end = line_end(s@, start0);
            assert(spec_lines_from(s@, start0) == seq![
                if end < s@.len() {
                    strip_cr(s@.subrange(start0, end))
                } else {
                    s@.subrange(start0, end)
                },
            ] + spec_lines_from(s@, end + 1));
            assert(seq![
                if end < s@.len() {
                    strip_cr(s@.subrange(start0, end))
                } else {
                    s@.subrange(start0, end)
                },
            ] =~= seq![piece@]);
            assert(spec_lines_from(s@, end + 1) == spec_lines_from(s@, start as int));
            assert(spec_lines_from(s@, start0) == seq![piece@] + spec_lines_from(
                s@,
                start as int,
            ));
            assert(out0.map_values(|l: String| l@).push(piece@) + spec_lines_from(
                s@,
                start as int,
            ) =~= out0.map_values(|l: String| l@) + spec_lines_from(s@, start0));
        }
    }
    out
}

} // verus!

