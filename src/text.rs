//! Character-level helpers shared by the parsers: splitting on a separator
//! and reading unsigned integers in a given radix.
use vstd::prelude::*;
use vstd::string::*;

verus! {

/// Why a number did not parse.
#[derive(Debug, Clone, Copy, PartialEq, Eq)]
pub enum IntErrorKind {
    Empty,
    InvalidDigit,
    PosOverflow,
}

/// A number that did not parse, with the reason.
#[derive(Debug, Clone, Copy, PartialEq, Eq)]
pub struct ParseIntError {
    pub kind: IntErrorKind,
}

/// Value of a digit character in radices up to 36; 99 for any other character.
pub open spec fn digit_of(c: char) -> int {
    if '0' <= c && c <= '9' {
        c as int - '0' as int
    } else if 'a' <= c && c <= 'z' {
        c as int - 'a' as int + 10
    } else if 'A' <= c && c <= 'Z' {
        c as int - 'A' as int + 10
    } else {
        99
    }
}

pub open spec fn all_digits(s: Seq<char>, radix: int) -> bool {
    forall|i: int| 0 <= i < s.len() ==> #[trigger] digit_of(s[i]) < radix
}

/// The number that a sequence of digits writes, most significant first.
pub open spec fn digits_value(s: Seq<char>, radix: int) -> int
    decreases s.len(),
{
    if s.len() == 0 {
        0
    } else {
        digits_value(s.drop_last(), radix) * radix + digit_of(s.last())
    }
}

/// The digits of a number, after an optional leading `+`.
pub open spec fn number_body(s: Seq<char>) -> Seq<char> {
    if s.len() > 0 && s[0] == '+' {
        s.skip(1)
    } else {
        s
    }
}

/// The `u32` that `s` writes in `radix`: an optional `+`, then at least one
/// digit, and a value that fits.
pub open spec fn radix_value(s: Seq<char>, radix: int) -> Option<u32> {
    let b = number_body(s);
    if b.len() > 0 && all_digits(b, radix) && digits_value(b, radix) <= u32::MAX {
        Some(digits_value(b, radix) as u32)
    } else {
        None
    }
}

/// Index of the first `c` at or after `i`, or the length if there is none.
pub open spec fn next_sep(s: Seq<char>, i: int, c: char) -> int
    decreases s.len() - i,
{
    if i >= s.len() {
        s.len() as int
    } else if s[i] == c {
        i
    } else {
        next_sep(s, i + 1, c)
    }
}

proof fn lemma_digits_value_nonneg(s: Seq<char>, radix: int)
    requires
        radix >= 2,
        all_digits(s, radix),
    ensures
        digits_value(s, radix) >= 0,
    decreases s.len(),
{
    if s.len() > 0 {
        assert(all_digits(s.drop_last(), radix)) by {
            assert forall|i: int| 0 <= i < s.drop_last().len() implies #[trigger] digit_of(
                s.drop_last()[i],
            ) < radix by {
                assert(s.drop_last()[i] == s[i]);
            }
        }
        lemma_digits_value_nonneg(s.drop_last(), radix);
        assert(digit_of(s[s.len() - 1]) < radix);
        assert(digits_value(s.drop_last(), radix) * radix >= 0) by (nonlinear_arith)
            requires
                digits_value(s.drop_last(), radix) >= 0,
                radix >= 2,
        ;
    }
}

/// A number written with more digits is at least the number its prefix writes.
proof fn lemma_digits_value_prefix(s: Seq<char>, k: int, radix: int)
    requires
        radix >= 2,
        0 <= k <= s.len(),
        all_digits(s, radix),
    ensures
        digits_value(s.take(k), radix) <= digits_value(s, radix),
    decreases s.len(),
{
    if k < s.len() {
        let d = s.drop_last();
        assert(all_digits(d, radix)) by {
            assert forall|i: int| 0 <= i < d.len() implies #[trigger] digit_of(d[i]) < radix by {
                assert(d[i] == s[i]);
            }
        }
        lemma_digits_value_prefix(d, k, radix);
        assert(d.take(k) =~= s.take(k));
        lemma_digits_value_nonneg(d, radix);
        assert(digit_of(s[s.len() - 1]) < radix);
        assert(digits_value(d, radix) <= digits_value(d, radix) * radix) by (nonlinear_arith)
            requires
                digits_value(d, radix) >= 0,
                radix >= 2,
        ;
    } else {
        assert(s.take(k) =~= s);
    }
}

/// The characters of a string, one element each.
pub fn chars_of(s: &str) -> (r: Vec<char>)
    ensures
        r@ == s@,
{
    let n = s.unicode_len();
    let mut v: Vec<char> = Vec::new();
    let mut i: usize = 0;
    while i < n
        invariant
            n == s@.len(),
            i <= n,
            v@ == s@.take(i as int),
        decreases n - i,
    {
        v.push(s.get_char(i));
        i += 1;
        assert(v@ =~= s@.take(i as int));
    }
    assert(v@ =~= s@);
    v
}

/// Index of the first `c` at or after `from`, or the length if there is none.
pub fn find_from(v: &Vec<char>, from: usize, c: char) -> (r: usize)
    requires
        from <= v@.len(),
    ensures
        r as int == next_sep(v@, from as int, c),
        from <= r <= v@.len(),
{
    let mut j = from;
    while j < v.len() && v[j] != c
        invariant
            from <= j <= v@.len(),
            next_sep(v@, from as int, c) == next_sep(v@, j as int, c),
        decreases v@.len() - j,
    {
        j += 1;
    }
    j
}

/// The elements from index `from` up to, not including, `to`.
pub fn copy_range<T: Copy>(v: &Vec<T>, from: usize, to: usize) -> (r: Vec<T>)
    requires
        from <= to <= v@.len(),
    ensures
        r@ == v@.subrange(from as int, to as int),
{
    let mut out: Vec<T> = Vec::new();
    let mut i = from;
    while i < to
        invariant
            from <= i <= to <= v@.len(),
            out@ == v@.subrange(from as int, i as int),
        decreases to - i,
    {
        out.push(v[i]);
        i += 1;
        assert(out@ =~= v@.subrange(from as int, i as int));
    }
    out
}

fn digit_value(c: char) -> (r: u32)
    ensures
        r as int == digit_of(c),
{
    if '0' <= c && c <= '9' {
        (c as u32) - ('0' as u32)
    } else if 'a' <= c && c <= 'z' {
        (c as u32) - ('a' as u32) + 10
    } else if 'A' <= c && c <= 'Z' {
        (c as u32) - ('A' as u32) + 10
    } else {
        99
    }
}

/// Reads an unsigned 32-bit number in `radix`: an optional `+`, then digits.
pub fn parse_radix(s: &Vec<char>, radix: u32) -> (r: Result<u32, ParseIntError>)
    requires
        2 <= radix <= 36,
    ensures
        r is Ok <==> radix_value(s@, radix as int) is Some,
        r is Ok ==> r->Ok_0 == radix_value(s@, radix as int)->Some_0,
{
    let start: usize = if s.len() > 0 && s[0] == '+' {
        1
    } else {
        0
    };
    let ghost body = number_body(s@);
    assert(body =~= s@.subrange(start as int, s@.len() as int));
    if start == s.len() {
        if s.len() == 0 {
            return Err(ParseIntError { kind: IntErrorKind::Empty });
        }
        return Err(ParseIntError { kind: IntErrorKind::InvalidDigit });
    }
    let mut acc: u64 = 0;
    let mut i = start;
    while i < s.len()
        invariant
            start <= i <= s@.len(),
            2 <= radix <= 36,
            body == s@.subrange(start as int, s@.len() as int),
            body == number_body(s@),
            all_digits(body.take(i - start), radix as int),
            acc as int == digits_value(body.take(i - start), radix as int),
            acc <= u32::MAX,
        decreases s@.len() - i,
    {
        let d = digit_value(s[i]);
        if d >= radix {
            assert(body[i - start] == s@[i as int]);
            assert(digit_of(body[i - start]) >= radix);
            assert(!all_digits(body, radix as int));
            return Err(ParseIntError { kind: IntErrorKind::InvalidDigit });
        }
        let ghost prev = body.take(i - start);
        let ghost next = body.take(i + 1 - start);
        assert(next.drop_last() =~= prev);
        assert(next.last() == s@[i as int]);
        assert(all_digits(next, radix as int)) by {
            assert forall|k: int| 0 <= k < next.len() implies #[trigger] digit_of(next[k])
                < radix as int by {
                if k < prev.len() {
                    assert(next[k] == prev[k]);
                }
            }
        }
        assert(acc * (radix as u64) + (d as u64) <= u32::MAX as u64 * 36 + 36) by (nonlinear_arith)
            requires
                acc <= u32::MAX,
                radix <= 36,
                d < radix,
        ;
        acc = acc * (radix as u64) + (d as u64);
        assert(acc as int == digits_value(next, radix as int));
        i += 1;
        if acc > u32::MAX as u64 {
            proof {
                if all_digits(body, radix as int) {
                    lemma_digits_value_prefix(body, i - start, radix as int);
                }
            }
            return Err(ParseIntError { kind: IntErrorKind::PosOverflow });
        }
    }
    assert(body.take(i - start) =~= body);
    Ok(acc as u32)
}

} // verus!
