use vstd::prelude::*;
use vstd::string::*;

verus! {

/// The character that separates the segments of a category.
pub const SEPARATOR: char = '/';

/// The decimal digit that stands for `d`, for `0 <= d < 10`.
pub open spec fn digit_char(d: int) -> char {
    if d == 0 {
        '0'
    } else if d == 1 {
        '1'
    } else if d == 2 {
        '2'
    } else if d == 3 {
        '3'
    } else if d == 4 {
        '4'
    } else if d == 5 {
        '5'
    } else if d == 6 {
        '6'
    } else if d == 7 {
        '7'
    } else if d == 8 {
        '8'
    } else {
        '9'
    }
}

/// Decimal notation of a natural number, most significant digit first,
/// without leading zeros.
pub open spec fn decimal_nat(n: nat) -> Seq<char>
    decreases n,
{
    if n < 10 {
        seq![digit_char(n as int)]
    } else {
        decimal_nat(n / 10).push(digit_char((n % 10) as int))
    }
}

/// Decimal notation of an integer: a minus sign before the digits of a
/// negative number.
pub open spec fn decimal(v: int) -> Seq<char> {
    if v < 0 {
        seq!['-'] + decimal_nat((-v) as nat)
    } else {
        decimal_nat(v as nat)
    }
}

fn digit_str(d: u32) -> (s: &'static str)
    requires
        d < 10,
    ensures
        s@ == seq![digit_char(d as int)],
{
    let s: &'static str = if d == 0 {
        "0"
    } else if d == 1 {
        "1"
    } else if d == 2 {
        "2"
    } else if d == 3 {
        "3"
    } else if d == 4 {
        "4"
    } else if d == 5 {
        "5"
    } else if d == 6 {
        "6"
    } else if d == 7 {
        "7"
    } else if d == 8 {
        "8"
    } else {
        "9"
    };
    proof {
        reveal_strlit("0");
        reveal_strlit("1");
        reveal_strlit("2");
        reveal_strlit("3");
        reveal_strlit("4");
        reveal_strlit("5");
        reveal_strlit("6");
        reveal_strlit("7");
        reveal_strlit("8");
        reveal_strlit("9");
        assert(s@ =~= seq![digit_char(d as int)]);
    }
    s
}

/// Writes an unsigned number in decimal notation.
pub fn format_u32(n: u32) -> (s: String)
    ensures
        s@ == decimal_nat(n as nat),
    decreases n,
{
    if n < 10 {
        String::from_str(digit_str(n))
    } else {
        let mut s = format_u32(n / 10);
        s.append(digit_str(n % 10));
        proof {
            assert(s@ =~= decimal_nat((n / 10) as nat).push(digit_char((n % 10) as int)));
        }
        s
    }
}

/// Writes a signed number in decimal notation.
pub fn format_i32(v: i32) -> (s: String)
    ensures
        s@ == decimal(v as int),
{
    if v < 0 {
        let wide: i64 = -(v as i64);
        let digits = format_u32(wide as u32);
        let mut s = String::from_str("-");
        s.append(digits.as_str());
        proof {
            reveal_strlit("-");
            assert(s@ =~= seq!['-'] + decimal_nat((-v) as nat));
        }
        s
    } else {
        format_u32(v as u32)
    }
}

/// `s` without the separators it starts with.
pub open spec fn strip_leading(s: Seq<char>) -> Seq<char>
    decreases s.len(),
{
    if s.len() > 0 && s[0] == SEPARATOR {
        strip_leading(s.subrange(1, s.len() as int))
    } else {
        s
    }
}

/// `s` without the separators it ends with.
pub open spec fn strip_trailing(s: Seq<char>) -> Seq<char>
    decreases s.len(),
{
    if s.len() > 0 && s.last() == SEPARATOR {
        strip_trailing(s.drop_last())
    } else {
        s
    }
}

/// `s` without the separators at either end.
pub open spec fn strip_separators(s: Seq<char>) -> Seq<char> {
    strip_trailing(strip_leading(s))
}

/// Whether every character of `s` is the separator.
pub open spec fn only_separators(s: Seq<char>) -> bool {
    forall|i: int| 0 <= i < s.len() ==> s[i] == SEPARATOR
}

/// The pieces of `s` between its separators, in order. There is always one
/// piece more than there are separators, so a piece may be empty.
pub open spec fn split_segments(s: Seq<char>) -> Seq<Seq<char>>
    decreases s.len(),
{
    if s.len() == 0 {
        seq![Seq::<char>::empty()]
    } else if s.last() == SEPARATOR {
        split_segments(s.drop_last()).push(Seq::<char>::empty())
    } else {
        let before = split_segments(s.drop_last());
        before.drop_last().push(before.last().push(s.last()))
    }
}

/// The views of a list of strings.
pub open spec fn views(v: Seq<String>) -> Seq<Seq<char>> {
    Seq::new(v.len(), |i: int| v[i]@)
}

/// A string of separators alone is stripped to nothing.
pub proof fn lemma_strip_only_separators(s: Seq<char>)
    requires
        only_separators(s),
    ensures
        strip_separators(s) == Seq::<char>::empty(),
    decreases s.len(),
{
    if s.len() > 0 {
        let rest = s.subrange(1, s.len() as int);
        assert(only_separators(rest)) by {
            assert forall|i: int| 0 <= i < rest.len() implies rest[i] == SEPARATOR by {
                assert(rest[i] == s[i + 1]);
            }
        }
        lemma_strip_only_separators(rest);
    } else {
        assert(s =~= Seq::<char>::empty());
    }
}

/// What is left of a stripped string neither starts nor ends with a
/// separator.
pub proof fn lemma_strip_has_no_outer_separator(s: Seq<char>)
    ensures
        strip_separators(s).len() > 0 ==> strip_separators(s)[0] != SEPARATOR
            && strip_separators(s).last() != SEPARATOR,
{
    lemma_leading_stripped(s);
    lemma_trailing_keeps_head(strip_leading(s));
}

proof fn lemma_leading_stripped(s: Seq<char>)
    ensures
        strip_leading(s).len() > 0 ==> strip_leading(s)[0] != SEPARATOR,
    decreases s.len(),
{
    if s.len() > 0 && s[0] == SEPARATOR {
        lemma_leading_stripped(s.subrange(1, s.len() as int));
    }
}

proof fn lemma_trailing_keeps_head(s: Seq<char>)
    ensures
        strip_trailing(s).len() <= s.len(),
        strip_trailing(s).len() > 0 ==> strip_trailing(s)[0] == s[0] && strip_trailing(s).last()
            != SEPARATOR,
    decreases s.len(),
{
    if s.len() > 0 && s.last() == SEPARATOR {
        lemma_trailing_keeps_head(s.drop_last());
    }
}

/// Removes the separators at both ends of `s`.
pub fn strip(s: &str) -> (r: String)
    ensures
        r@ == strip_separators(s@),
{
    let n: usize = s.unicode_len();
    let mut i: usize = 0;
    proof {
        assert(s@.subrange(0, n as int) =~= s@);
    }
    while i < n && s.get_char(i) == SEPARATOR
        invariant
            i <= n,
            n == s@.len(),
            strip_leading(s@) == strip_leading(s@.subrange(i as int, n as int)),
        decreases n - i,
    {
        proof {
            let cur = s@.subrange(i as int, n as int);
            assert(cur.subrange(1, cur.len() as int) =~= s@.subrange(i + 1, n as int));
        }
        i = i + 1;
    }
    let mut j: usize = n;
    while i < j && s.get_char(j - 1) == SEPARATOR
        invariant
            i <= j <= n,
            n == s@.len(),
            strip_leading(s@) == s@.subrange(i as int, n as int),
            strip_separators(s@) == strip_trailing(s@.subrange(i as int, j as int)),
        decreases j - i,
    {
        proof {
            let cur = s@.subrange(i as int, j as int);
            assert(cur.drop_last() =~= s@.subrange(i as int, j - 1));
        }
        j = j - 1;
    }
    String::from_str(s.substring_char(i, j))
}

/// Cuts `s` at every separator.
pub fn split(s: &str) -> (r: Vec<String>)
    ensures
        views(r@) == split_segments(s@),
        r@.len() >= 1,
{
    let n: usize = s.unicode_len();
    let mut done: Vec<String> = Vec::new();
    let mut start: usize = 0;
    let mut i: usize = 0;
    proof {
        assert(s@.subrange(0, 0) =~= Seq::<char>::empty());
        assert(views(done@).push(s@.subrange(0, 0)) =~= seq![Seq::<char>::empty()]);
    }
    while i < n
        invariant
            start <= i <= n,
            n == s@.len(),
            split_segments(s@.subrange(0, i as int)) == views(done@).push(
                s@.subrange(start as int, i as int),
            ),
        decreases n - i,
    {
        let c = s.get_char(i);
        proof {
            let next = s@.subrange(0, i + 1);
            assert(next.drop_last() =~= s@.subrange(0, i as int));
            assert(next.last() == c);
            let before = split_segments(next.drop_last());
            assert(before.drop_last() =~= views(done@));
            assert(before.last() == s@.subrange(start as int, i as int));
            if c != SEPARATOR {
                assert(before.last().push(c) =~= s@.subrange(start as int, i + 1));
            }
        }
        if c == SEPARATOR {
            let piece = String::from_str(s.substring_char(start, i));
            let ghost prior = done@;
            done.push(piece);
            proof {
                assert(views(done@) =~= views(prior).push(piece@));
                assert(s@.subrange(i + 1, i + 1) =~= Seq::<char>::empty());
            }
            start = i + 1;
        }
        i = i + 1;
    }
    let piece = String::from_str(s.substring_char(start, n));
    let ghost prior = done@;
    done.push(piece);
    proof {
        assert(views(done@) =~= views(prior).push(piece@));
        assert(s@.subrange(0, n as int) =~= s@);
    }
    done
}

} // verus!
