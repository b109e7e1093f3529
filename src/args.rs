//! Numbers and `address[:length]` pairs as written on the command line.
use crate::text::{
    chars_of, find_from, next_sep, parse_radix, radix_value, copy_range,
    IntErrorKind, ParseIntError,
};
use crate::error::Error;
use vstd::prelude::*;

verus! {

/// `s` with every `_` removed.
pub open spec fn without_underscores(s: Seq<char>) -> Seq<char>
    decreases s.len(),
{
    if s.len() == 0 {
        s
    } else if s.last() == '_' {
        without_underscores(s.drop_last())
    } else {
        without_underscores(s.drop_last()).push(s.last())
    }
}

/// Index of the first `0x` at or after `i`, or -1.
pub open spec fn find_hex_marker(s: Seq<char>, i: int) -> int
    decreases s.len() - i,
{
    if i < 0 || i + 1 >= s.len() {
        -1
    } else if s[i] == '0' && s[i + 1] == 'x' {
        i
    } else {
        find_hex_marker(s, i + 1)
    }
}

/// The value of a command-line number: underscores are ignored; what follows
/// the first `0x` is hexadecimal, anything else decimal.
pub open spec fn int_value(src: Seq<char>) -> Option<u32> {
    let t = without_underscores(src);
    let k = find_hex_marker(t, 0);
    if k >= 0 {
        radix_value(t.skip(k + 2), 16)
    } else {
        radix_value(t, 10)
    }
}

/// The first `:`-separated field of `s`.
pub open spec fn first_field(s: Seq<char>) -> Seq<char> {
    s.take(next_sep(s, 0, ':'))
}

/// The second `:`-separated field of `s`, if there is one.
pub open spec fn second_field(s: Seq<char>) -> Option<Seq<char>> {
    let e = next_sep(s, 0, ':');
    if e < s.len() {
        Some(s.subrange(e + 1, next_sep(s, e + 1, ':')))
    } else {
        None
    }
}

fn remove_underscores(v: &Vec<char>) -> (r: Vec<char>)
    ensures
        r@ == without_underscores(v@),
{
    let mut out: Vec<char> = Vec::new();
    let mut i: usize = 0;
    while i < v.len()
        invariant
            i <= v@.len(),
            out@ == without_underscores(v@.take(i as int)),
        decreases v@.len() - i,
    {
        assert(v@.take(i + 1).drop_last() =~= v@.take(i as int));
        if v[i] != '_' {
            out.push(v[i]);
        }
        i += 1;
    }
    assert(v@.take(i as int) =~= v@);
    out
}

fn hex_marker(v: &Vec<char>) -> (r: Option<usize>)
    ensures
        r is Some <==> find_hex_marker(v@, 0) >= 0,
        r is Some ==> r->Some_0 == find_hex_marker(v@, 0) && r->Some_0 + 2 <= v@.len(),
{
    let mut i: usize = 0;
    while i < v.len() && i + 1 < v.len()
        invariant
            i <= v@.len(),
            find_hex_marker(v@, 0) == find_hex_marker(v@, i as int),
        decreases v@.len() - i,
    {
        if v[i] == '0' && v[i + 1] == 'x' {
            return Some(i);
        }
        i += 1;
    }
    None
}

fn int_of_chars(src: &Vec<char>) -> (r: Result<u32, ParseIntError>)
    ensures
        r is Ok <==> int_value(src@) is Some,
        r is Ok ==> r->Ok_0 == int_value(src@)->Some_0,
{
    let t = remove_underscores(src);
    match hex_marker(&t) {
        Some(k) => {
            let digits = copy_range(&t, k + 2, t.len());
            assert(digits@ =~= t@.skip(k + 2));
            parse_radix(&digits, 16)
        },
        None => parse_radix(&t, 10),
    }
}

/// Reads a number: underscores are ignored, what follows the first `0x` is
/// hexadecimal, anything else decimal.
pub fn parse_int(src: &str) -> (r: Result<u32, ParseIntError>)
    ensures
        r is Ok <==> int_value(src@) is Some,
        r is Ok ==> r->Ok_0 == int_value(src@)->Some_0,
{
    let v = chars_of(src);
    int_of_chars(&v)
}

/// Reads `address[:length]`; fields after the second are ignored.
pub fn parse_address_and_length_as_some(dfuse_address: &str) -> (r: Result<
    (u32, Option<u32>),
    ParseIntError,
>)
    ensures
        r is Ok <==> (int_value(first_field(dfuse_address@)) is Some && (second_field(
            dfuse_address@,
        ) is Some ==> int_value(second_field(dfuse_address@)->Some_0) is Some)),
        r is Ok ==> r->Ok_0.0 == int_value(first_field(dfuse_address@))->Some_0,
        r is Ok ==> (r->Ok_0.1 is Some <==> second_field(dfuse_address@) is Some),
        r is Ok && r->Ok_0.1 is Some ==> r->Ok_0.1->Some_0 == int_value(
            second_field(dfuse_address@)->Some_0,
        )->Some_0,
{
    let v = chars_of(dfuse_address);
    let e = find_from(&v, 0, ':');
    let a = copy_range(&v, 0, e);
    assert(a@ =~= first_field(v@));
    let address = int_of_chars(&a)?;
    if e < v.len() {
        let e2 = find_from(&v, e + 1, ':');
        let l = copy_range(&v, e + 1, e2);
        let length = int_of_chars(&l)?;
        Ok((address, Some(length)))
    } else {
        Ok((address, None))
    }
}

/// Reads `address[:length]`; a missing length reads as 0.
pub fn parse_address_and_length(address: &str) -> (r: Result<(u32, u32), ParseIntError>)
    ensures
        r is Ok <==> (int_value(first_field(address@)) is Some && (second_field(address@) is Some
            ==> int_value(second_field(address@)->Some_0) is Some)),
        r is Ok ==> r->Ok_0.0 == int_value(first_field(address@))->Some_0,
        r is Ok ==> r->Ok_0.1 == match second_field(address@) {
            Some(l) => int_value(l)->Some_0,
            None => 0,
        },
{
    let a = parse_address_and_length_as_some(address)?;
    let length = match a.1 {
        Some(l) => l,
        None => 0,
    };
    Ok((a.0, length))
}

/// Reads `address[:pages]`, where a missing page count reads as 0 and a count
/// above 255 is refused.
pub fn parse_address_and_pages(dfuse_address: &str) -> (r: Result<(u32, u8), ParseIntError>)
    ensures
        ({
            let s = dfuse_address@;
            let pages = match second_field(s) {
                Some(p) => int_value(p),
                None => Some(0u32),
            };
            &&& r is Ok <==> (int_value(first_field(s)) is Some && pages is Some
                && pages->Some_0 <= 255)
            &&& r is Ok ==> r->Ok_0.0 == int_value(first_field(s))->Some_0
                && r->Ok_0.1 as u32 == pages->Some_0
        }),
{
    let v = chars_of(dfuse_address);
    let e = find_from(&v, 0, ':');
    let a = copy_range(&v, 0, e);
    assert(a@ =~= first_field(v@));
    let address = int_of_chars(&a)?;
    let length = if e < v.len() {
        let e2 = find_from(&v, e + 1, ':');
        let l = copy_range(&v, e + 1, e2);
        int_of_chars(&l)?
    } else {
        0
    };
    if length > 255 {
        return Err(ParseIntError { kind: IntErrorKind::PosOverflow });
    }
    Ok((address, length as u8))
}

/// How many bytes of a file of `file_length` bytes to use: `length` if the
/// file holds that many, else the whole file if it is not empty. The file
/// length is taken modulo 2^32.
pub fn get_length_from_file(file_length: u64, length: Option<u32>) -> (r: Result<u32, Error>)
    ensures
        ({
            let fl = (file_length % 0x1_0000_0000) as u32;
            match length {
                Some(l) => if fl < l {
                    r is Err && r->Err_0 is Argument
                } else {
                    r == Ok::<u32, Error>(l)
                },
                None => if fl == 0 {
                    r is Err && r->Err_0 is Argument
                } else {
                    r == Ok::<u32, Error>(fl)
                },
            }
        }),
{
    let fl = (file_length % 0x1_0000_0000) as u32;
    match length {
        Some(l) => {
            if fl < l {
                return Err(Error::Argument("file is shorter than the requested length".to_string()));
            }
            Ok(l)
        },
        None => {
            if fl == 0 {
                return Err(Error::Argument("file is empty".to_string()));
            }
            Ok(fl)
        },
    }
}

} // verus!
