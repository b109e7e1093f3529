//! The flash layout that a DfuSe device advertises in the string descriptor
//! of its alternate setting, e.g. `@Internal Flash /0x08000000/02*016Kg,01*064Kg`.
use crate::error::Error;
use crate::text::{chars_of, find_from, next_sep, parse_radix, radix_value, copy_range};
use vstd::prelude::*;

verus! {

/// One erasable unit of flash.
#[derive(Debug, Clone, Copy, PartialEq, Eq, Structural)]
pub struct Page {
    pub address: u32,
    pub size: u32,
}

/// The pages of a device's flash, in ascending order and without overlap.
#[derive(Debug, Clone)]
pub struct MemoryLayout {
    pages: Vec<Page>,
}

/// Pages lie in ascending order, none overlapping the next, and none reaching
/// past the 32-bit address space.
pub open spec fn pages_ordered(ps: Seq<Page>) -> bool {
    &&& forall|i: int, j: int|
        0 <= i < j < ps.len() ==> #[trigger] ps[i].address + ps[i].size <= #[trigger] ps[j].address
    &&& forall|i: int| 0 <= i < ps.len() ==> #[trigger] ps[i].address + ps[i].size <= u32::MAX
}

/// Whether `c` has the Unicode Alphabetic property.
pub uninterp spec fn is_alphabetic_char(c: char) -> bool;

/// Whether `c` has a Unicode numeric general category.
pub uninterp spec fn is_numeric_char(c: char) -> bool;

/// Relies on `char::is_alphabetic`, which reports the Unicode Alphabetic
/// property of `c` and nothing else.
#[verifier::external_body]
fn alphabetic(c: char) -> (r: bool)
    ensures
        r == is_alphabetic_char(c),
{
    c.is_alphabetic()
}

/// Relies on `char::is_numeric`, which reports whether `c` is in a Unicode
/// numeric category and nothing else.
#[verifier::external_body]
fn numeric(c: char) -> (r: bool)
    ensures
        r == is_numeric_char(c),
{
    c.is_numeric()
}

pub open spec fn in_class(c: char, alpha: bool) -> bool {
    if alpha {
        is_alphabetic_char(c)
    } else {
        is_numeric_char(c)
    }
}

/// Whether each character of `s` is in the class (alphabetic when `alpha`,
/// else numeric).
pub open spec fn class_marks(s: Seq<char>, alpha: bool) -> Seq<bool> {
    Seq::new(s.len(), |i: int| in_class(s[i], alpha))
}

/// First index at or after `i` that is not marked.
pub open spec fn lead_end(m: Seq<bool>, i: int) -> int
    decreases m.len() - i,
{
    if 0 <= i < m.len() && m[i] {
        lead_end(m, i + 1)
    } else {
        i
    }
}

/// Start of the run of marked indices that ends at `j`, not going below `lo`.
pub open spec fn trail_start(m: Seq<bool>, lo: int, j: int) -> int
    decreases j - lo,
{
    if lo < j && j <= m.len() && m[j - 1] {
        trail_start(m, lo, j - 1)
    } else {
        j
    }
}

/// `s` without the marked characters at either end; `m` marks each
/// character of `s`.
pub open spec fn trimmed_by(s: Seq<char>, m: Seq<bool>) -> Seq<char> {
    let lo = lead_end(m, 0);
    s.subrange(lo, trail_start(m, lo, m.len() as int))
}

/// `s` with every `0x` taken out, scanning from index `i`.
pub open spec fn without_hex_marks(s: Seq<char>, i: int) -> Seq<char>
    decreases s.len() - i,
{
    if i >= s.len() {
        Seq::empty()
    } else if i + 1 < s.len() && s[i] == '0' && s[i + 1] == 'x' {
        without_hex_marks(s, i + 2)
    } else {
        seq![s[i]] + without_hex_marks(s, i + 1)
    }
}

/// The byte multiplier that a unit letter stands for.
pub open spec fn unit_of(c: char) -> Option<u32> {
    if c == 'K' {
        Some(1024)
    } else if c == 'M' {
        Some(1048576)
    } else {
        None
    }
}

/// The page count and page size that one region `<count>*<size><unit>`
/// gives, where `alpha` and `num` mark the alphabetic and the numeric
/// characters of `p`: the size is the value part without letters at either
/// end, the unit the first character of it without digits at either end.
pub open spec fn region_with(p: Seq<char>, alpha: Seq<bool>, num: Seq<bool>) -> Option<(u32, u32)> {
    let k0 = next_sep(p, 0, '*');
    let k1 = next_sep(p, k0 + 1, '*');
    let val = p.subrange(k0 + 1, k1);
    let digits = trimmed_by(val, alpha.subrange(k0 + 1, k1));
    let unit = trimmed_by(val, num.subrange(k0 + 1, k1));
    match radix_value(p.take(k0), 10) {
        None => None,
        Some(count) => if k0 >= p.len() {
            None
        } else {
            match radix_value(digits, 10) {
                None => None,
                Some(size) => if unit.len() == 0 {
                    None
                } else {
                    match unit_of(unit[0]) {
                        None => None,
                        Some(m) => if size * m > u32::MAX {
                            None
                        } else {
                            Some((count, (size * m) as u32))
                        },
                    }
                },
            }
        },
    }
}

/// The page count and page size that one region gives.
pub open spec fn region_of(p: Seq<char>) -> Option<(u32, u32)> {
    region_with(p, class_marks(p, true), class_marks(p, false))
}

/// `count` pages of `size` bytes, the first at `addr`.
pub open spec fn run_pages(addr: u32, count: u32, size: u32) -> Seq<Page> {
    Seq::new(count as nat, |i: int| Page { address: (addr + i * size) as u32, size })
}

pub open spec fn run_fits(addr: u32, count: u32, size: u32) -> bool {
    count == 0 || addr + count * size <= u32::MAX
}

pub open spec fn prepend(out: Seq<Page>, rest: Option<Seq<Page>>) -> Option<Seq<Page>> {
    match rest {
        None => None,
        Some(r) => Some(out + r),
    }
}

/// The pages that the regions from index `pos` of `reg` give, the first at `addr`.
pub open spec fn pages_from(reg: Seq<char>, pos: int, addr: u32) -> Option<Seq<Page>>
    decreases reg.len() - pos,
    via pages_from_decreases
{
    let e = next_sep(reg, pos, ',');
    match region_of(reg.subrange(pos, e)) {
        None => None,
        Some((count, size)) => if !run_fits(addr, count, size) {
            None
        } else if e >= reg.len() {
            Some(run_pages(addr, count, size))
        } else {
            prepend(run_pages(addr, count, size), pages_from(reg, e + 1, (addr + count * size) as u32))
        },
    }
}

proof fn lemma_next_sep_from(s: Seq<char>, i: int, c: char)
    requires
        i <= s.len(),
    ensures
        next_sep(s, i, c) >= i,
    decreases s.len() - i,
{
    if i < s.len() && s[i] != c {
        lemma_next_sep_from(s, i + 1, c);
    }
}

#[via_fn]
proof fn pages_from_decreases(reg: Seq<char>, pos: int, addr: u32) {
    if pos <= reg.len() {
        lemma_next_sep_from(reg, pos, ',');
    }
}

/// The layout that a descriptor string gives, if it parses: every `0x` is
/// dropped, the second `/` field is the hexadecimal start address and the
/// third the comma-separated regions.
pub open spec fn layout_of(s: Seq<char>) -> Option<Seq<Page>> {
    let r = without_hex_marks(s, 0);
    let e0 = next_sep(r, 0, '/');
    let e1 = next_sep(r, e0 + 1, '/');
    if e0 >= r.len() {
        None
    } else {
        match radix_value(r.subrange(e0 + 1, e1), 16) {
            None => None,
            Some(a) => if e1 >= r.len() {
                None
            } else {
                pages_from(r.subrange(e1 + 1, next_sep(r, e1 + 1, '/')), 0, a)
            },
        }
    }
}

/// The first page from index `i` on that holds address `a`.
pub open spec fn first_containing(ps: Seq<Page>, a: u32, i: int) -> Option<Page>
    decreases ps.len() - i,
{
    if i < 0 || i >= ps.len() {
        None
    } else if ps[i].address <= a && a < ps[i].address + ps[i].size {
        Some(ps[i])
    } else {
        first_containing(ps, a, i + 1)
    }
}

/// How many pages a walk from `cur` to `end` visits, jumping by each page's
/// size; the error is the first address of the walk that no page holds.
pub open spec fn pages_needed(ps: Seq<Page>, cur: int, end: int) -> Result<nat, u32>
    decreases end - cur,
{
    if cur >= end {
        Ok(0)
    } else if cur < 0 || cur > u32::MAX {
        Err((cur % 0x1_0000_0000) as u32)
    } else {
        match first_containing(ps, cur as u32, 0) {
            None => Err(cur as u32),
            Some(p) => if p.size == 0 {
                Err(cur as u32)
            } else if cur + p.size >= end {
                Ok(1)
            } else {
                match pages_needed(ps, cur + p.size, end) {
                    Err(a) => Err(a),
                    Ok(n) => Ok(n + 1),
                }
            },
        }
    }
}

fn class_member(c: char, alpha: bool) -> (r: bool)
    ensures
        r == in_class(c, alpha),
{
    if alpha {
        alphabetic(c)
    } else {
        numeric(c)
    }
}

fn trim_marked(v: &Vec<char>, m: &Vec<bool>) -> (r: Vec<char>)
    requires
        v@.len() == m@.len(),
    ensures
        r@ == trimmed_by(v@, m@),
{
    let mut lo: usize = 0;
    while lo < m.len() && m[lo]
        invariant
            lo <= m@.len(),
            lead_end(m@, 0) == lead_end(m@, lo as int),
        decreases m@.len() - lo,
    {
        lo += 1;
    }
    let mut hi: usize = m.len();
    while lo < hi && m[hi - 1]
        invariant
            lo <= hi <= m@.len(),
            v@.len() == m@.len(),
            lead_end(m@, 0) == lo,
            trail_start(m@, lo as int, m@.len() as int) == trail_start(m@, lo as int, hi as int),
        decreases hi,
    {
        hi -= 1;
    }
    copy_range(v, lo, hi)
}

fn strip_hex_marks(v: &Vec<char>) -> (r: Vec<char>)
    ensures
        r@ == without_hex_marks(v@, 0),
{
    let mut out: Vec<char> = Vec::new();
    let mut i: usize = 0;
    while i < v.len()
        invariant
            i <= v@.len() + 1,
            out@ + without_hex_marks(v@, i as int) == without_hex_marks(v@, 0),
        decreases v@.len() + 1 - i,
    {
        if i + 1 < v.len() && v[i] == '0' && v[i + 1] == 'x' {
            i += 2;
        } else {
            let ghost before = out@;
            out.push(v[i]);
            assert(out@ + without_hex_marks(v@, i + 1) =~= before + without_hex_marks(
                v@,
                i as int,
            ));
            i += 1;
        }
    }
    assert(without_hex_marks(v@, i as int) =~= Seq::<char>::empty());
    assert(out@ =~= out@ + without_hex_marks(v@, i as int));
    out
}

fn layout_error() -> (r: Error)
    ensures
        r is MemoryLayout,
{
    Error::MemoryLayout("could not parse memory layout".to_string())
}

fn unit_multiplier(c: char) -> (r: Option<u32>)
    ensures
        r == unit_of(c),
{
    if c == 'K' {
        Some(1024)
    } else if c == 'M' {
        Some(1048576)
    } else {
        None
    }
}

/// Reads one region `<count>*<size><unit>`, given which characters of `p`
/// are alphabetic (`alpha`) and which numeric (`num`).
pub fn parse_region_with(p: &Vec<char>, alpha: &Vec<bool>, num: &Vec<bool>) -> (r: Result<
    (u32, u32),
    Error,
>)
    requires
        alpha@.len() == p@.len(),
        num@.len() == p@.len(),
    ensures
        r is Ok <==> region_with(p@, alpha@, num@) is Some,
        r is Ok ==> r->Ok_0 == region_with(p@, alpha@, num@)->Some_0,
        r is Err ==> r->Err_0 is MemoryLayout,
{
    let k0 = find_from(p, 0, '*');
    let count_txt = copy_range(p, 0, k0);
    assert(count_txt@ =~= p@.take(k0 as int));
    let count = match parse_radix(&count_txt, 10) {
        Ok(c) => c,
        Err(_) => return Err(layout_error()),
    };
    if k0 >= p.len() {
        return Err(layout_error());
    }
    let k1 = find_from(p, k0 + 1, '*');
    let val = copy_range(p, k0 + 1, k1);
    let alpha_val = copy_range(alpha, k0 + 1, k1);
    let num_val = copy_range(num, k0 + 1, k1);
    let digits = trim_marked(&val, &alpha_val);
    let unit = trim_marked(&val, &num_val);
    let size = match parse_radix(&digits, 10) {
        Ok(s) => s,
        Err(_) => return Err(layout_error()),
    };
    if unit.len() == 0 {
        return Err(layout_error());
    }
    let m = match unit_multiplier(unit[0]) {
        Some(m) => m,
        None => return Err(layout_error()),
    };
    if (size as u64) * (m as u64) > u32::MAX as u64 {
        return Err(layout_error());
    }
    Ok((count, size * m))
}

fn marks_of(p: &Vec<char>, alpha: bool) -> (r: Vec<bool>)
    ensures
        r@ == class_marks(p@, alpha),
{
    let mut out: Vec<bool> = Vec::new();
    let mut i: usize = 0;
    while i < p.len()
        invariant
            i <= p@.len(),
            out@ == class_marks(p@, alpha).take(i as int),
        decreases p@.len() - i,
    {
        out.push(class_member(p[i], alpha));
        i += 1;
        assert(out@ =~= class_marks(p@, alpha).take(i as int));
    }
    assert(out@ =~= class_marks(p@, alpha));
    out
}

fn parse_region(p: &Vec<char>) -> (r: Result<(u32, u32), Error>)
    ensures
        r is Ok <==> region_of(p@) is Some,
        r is Ok ==> r->Ok_0 == region_of(p@)->Some_0,
        r is Err ==> r->Err_0 is MemoryLayout,
{
    let alpha = marks_of(p, true);
    let num = marks_of(p, false);
    parse_region_with(p, &alpha, &num)
}

/// Appends `count` pages of `size` bytes starting at `addr`.
fn push_run(out: &mut Vec<Page>, addr: u32, count: u32, size: u32)
    requires
        run_fits(addr, count, size),
        pages_ordered(old(out)@),
        forall|k: int|
            0 <= k < old(out)@.len() ==> #[trigger] old(out)@[k].address + old(out)@[k].size
                <= addr,
    ensures
        final(out)@ == old(out)@ + run_pages(addr, count, size),
        pages_ordered(final(out)@),
        forall|k: int|
            0 <= k < final(out)@.len() ==> #[trigger] final(out)@[k].address
                + final(out)@[k].size <= addr + count * size,
{
    let ghost start = out@;
    let mut i: u32 = 0;
    let mut cur: u32 = addr;
    while i < count
        invariant
            i <= count,
            run_fits(addr, count, size),
            cur == addr + i * size,
            out@ == start + run_pages(addr, i, size),
            pages_ordered(out@),
            forall|k: int| 0 <= k < out@.len() ==> #[trigger] out@[k].address + out@[k].size <= cur,
        decreases count - i,
    {
        assert(cur + size <= addr + count * size) by (nonlinear_arith)
            requires
                cur == addr + i * size,
                i < count,
        ;
        let ghost before = out@;
        out.push(Page { address: cur, size });
        assert(run_pages(addr, (i + 1) as u32, size) =~= run_pages(addr, i, size).push(
            Page { address: cur, size },
        ));
        assert(out@ =~= start + run_pages(addr, (i + 1) as u32, size));
        assert forall|k: int| 0 <= k < out@.len() implies #[trigger] out@[k].address
            + out@[k].size <= cur + size by {
            if k < before.len() {
                assert(out@[k] == before[k]);
            }
        }
        assert forall|a: int, b: int| 0 <= a < b < out@.len() implies #[trigger] out@[a].address
            + out@[a].size <= #[trigger] out@[b].address by {
            if b < before.len() {
                assert(out@[a] == before[a] && out@[b] == before[b]);
            } else {
                assert(out@[a] == before[a]);
            }
        }
        assert(cur + size == addr + (i + 1) * size) by (nonlinear_arith)
            requires
                cur == addr + i * size,
        ;
        cur = cur + size;
        i += 1;
    }
    assert(count == 0 ==> addr + count * size == addr) by (nonlinear_arith);
}

impl MemoryLayout {
    pub closed spec fn view(&self) -> Seq<Page> {
        self.pages@
    }

    pub closed spec fn wf(&self) -> bool {
        pages_ordered(self.pages@)
    }

    /// Parses a layout string such as `/0x08010000/02*16K,01*64K`.
    pub fn from_str(s: &str) -> (r: Result<MemoryLayout, Error>)
        ensures
            r is Ok <==> layout_of(s@) is Some,
            r is Ok ==> r->Ok_0@ == layout_of(s@)->Some_0 && r->Ok_0.wf(),
            r is Ok ==> pages_ordered(r->Ok_0@),
            r is Err ==> r->Err_0 is MemoryLayout,
    {
        let raw = chars_of(s);
        let r = strip_hex_marks(&raw);
        let e0 = find_from(&r, 0, '/');
        if e0 >= r.len() {
            return Err(layout_error());
        }
        let e1 = find_from(&r, e0 + 1, '/');
        let addr_txt = copy_range(&r, e0 + 1, e1);
        let start = match parse_radix(&addr_txt, 16) {
            Ok(a) => a,
            Err(_) => {
                assert(layout_of(s@) is None);
                return Err(layout_error());
            },
        };
        if e1 >= r.len() {
            return Err(layout_error());
        }
        let e2 = find_from(&r, e1 + 1, '/');
        let reg = copy_range(&r, e1 + 1, e2);
        assert(layout_of(s@) == pages_from(reg@, 0, start));
        let mut pages: Vec<Page> = Vec::new();
        let mut pos: usize = 0;
        let mut addr: u32 = start;
        loop
            invariant
                pos <= reg@.len(),
                layout_of(s@) == pages_from(reg@, 0, start),
                pages_from(reg@, 0, start) == prepend(pages@, pages_from(reg@, pos as int, addr)),
                pages_ordered(pages@),
                forall|k: int|
                    0 <= k < pages@.len() ==> #[trigger] pages@[k].address + pages@[k].size <= addr,
            decreases reg@.len() - pos,
        {
            let e = find_from(&reg, pos, ',');
            let piece = copy_range(&reg, pos, e);
            assert(piece@ == reg@.subrange(pos as int, next_sep(reg@, pos as int, ',')));
            let (count, size) = match parse_region(&piece) {
                Ok(cs) => cs,
                Err(err) => {
                    assert(pages_from(reg@, pos as int, addr) is None);
                    return Err(err);
                },
            };
            assert((count as u64) * (size as u64) <= 0xFFFF_FFFFu64 * 0xFFFF_FFFFu64) by (nonlinear_arith)
                requires
                    count <= 0xFFFF_FFFFu32,
                    size <= 0xFFFF_FFFFu32,
            ;
            if count != 0 && (addr as u64) + (count as u64) * (size as u64) > u32::MAX as u64 {
                assert(pages_from(reg@, pos as int, addr) is None);
                return Err(layout_error());
            }
            let ghost before = pages@;
            push_run(&mut pages, addr, count, size);
            if e >= reg.len() {
                assert(pages_from(reg@, pos as int, addr) == Some(run_pages(addr, count, size)));
                return Ok(MemoryLayout { pages });
            }
            assert(prepend(before, prepend(run_pages(addr, count, size), pages_from(reg@, e + 1, (addr + count * size) as u32)))
                == prepend(pages@, pages_from(reg@, e + 1, (addr + count * size) as u32))) by {
                match pages_from(reg@, e + 1, (addr + count * size) as u32) {
                    None => {},
                    Some(rest) => {
                        assert(before + (run_pages(addr, count, size) + rest) =~= pages@ + rest);
                    },
                }
            }
            assert(count == 0 ==> count * size == 0) by (nonlinear_arith);
            addr = (addr as u64 + (count as u64) * (size as u64)) as u32;
            pos = e + 1;
        }
    }

    /// The pages, in ascending order.
    pub fn pages(&self) -> (r: &Vec<Page>)
        ensures
            r@ == self@,
    {
        &self.pages
    }

    /// The page that holds `address`.
    pub fn address(&self, address: u32) -> (r: Result<Page, Error>)
        ensures
            r is Ok <==> first_containing(self@, address, 0) is Some,
            r is Ok ==> r->Ok_0 == first_containing(self@, address, 0)->Some_0,
            r is Err ==> r->Err_0 == Error::Address(address),
    {
        let mut i: usize = 0;
        while i < self.pages.len()
            invariant
                i <= self.pages@.len(),
                first_containing(self@, address, 0) == first_containing(self@, address, i as int),
            decreases self.pages@.len() - i,
        {
            let p = self.pages[i];
            if address >= p.address && (address as u64) < (p.address as u64) + (p.size as u64) {
                return Ok(Page { address: p.address, size: p.size });
            }
            i += 1;
        }
        Err(Error::Address(address))
    }

    /// How many pages a walk from `address` over `length` bytes visits, jumping
    /// by the size of each page met; fails on an address that no page holds.
    pub fn num_pages(&self, address: u32, length: u32) -> (r: Result<usize, Error>)
        ensures
            r is Ok <==> pages_needed(self@, address as int, address + length) is Ok,
            r is Ok ==> r->Ok_0 == pages_needed(self@, address as int, address + length)->Ok_0,
            r is Err ==> r->Err_0 == Error::Address(
                pages_needed(self@, address as int, address + length)->Err_0,
            ),
    {
        let end: u64 = address as u64 + length as u64;
        let mut cur: u64 = address as u64;
        let mut pages: usize = 0;
        while cur < end
            invariant
                address <= cur,
                end == address + length,
                pages <= cur - address,
                pages_needed(self@, address as int, end as int) == match pages_needed(
                    self@,
                    cur as int,
                    end as int,
                ) {
                    Err(a) => Err(a),
                    Ok(n) => Ok((n + pages) as nat),
                },
            decreases end - cur,
        {
            if cur > u32::MAX as u64 {
                return Err(Error::Address((cur % 0x1_0000_0000) as u32));
            }
            let p = self.address(cur as u32)?;
            if p.size == 0 {
                return Err(Error::Address(cur as u32));
            }
            if cur + p.size as u64 >= end {
                return Ok(pages + 1);
            }
            cur = cur + p.size as u64;
            pages += 1;
        }
        Ok(pages)
    }
}

/// Page size of the fixed layout that `calculate_pages` assumes.
pub const PAGE_SIZE: u32 = 0x10000;

/// The number of 64 KiB pages that `length` bytes touch, rounded up.
pub open spec fn pages_for(length: u32) -> int {
    length / 0x10000 + if length % 0x10000 != 0 {
        1int
    } else {
        0int
    }
}

/// Pages of 64 KiB that `length` bytes touch, for a start address in the
/// fixed region 0x0801_0000..=0x0801_FFFE; a count that does not fit in 16
/// bits is refused.
pub fn calculate_pages(address: u32, length: u32) -> (r: Result<u16, Error>)
    ensures
        length == 0 ==> r is Err && r->Err_0 is Argument,
        length != 0 && !(0x0801_0000 <= address <= 0x0801_FFFE) ==> r == Err::<u16, Error>(
            Error::Address(address),
        ),
        length != 0 && 0x0801_0000 <= address <= 0x0801_FFFE && pages_for(length) > u16::MAX
            ==> r is Err && r->Err_0 is Argument,
        length != 0 && 0x0801_0000 <= address <= 0x0801_FFFE && pages_for(length) <= u16::MAX
            ==> r == Ok::<u16, Error>(pages_for(length) as u16),
{
    if length == 0 {
        return Err(Error::Argument("Length must be > 0".to_string()));
    }
    if address >= 0x0801_0000 && address <= 0x0801_FFFE {
        let whole = length / PAGE_SIZE;
        let part: u32 = if length % PAGE_SIZE != 0 {
            1
        } else {
            0
        };
        if whole + part > 0xFFFF {
            return Err(Error::Argument("Too many pages".to_string()));
        }
        Ok((whole + part) as u16)
    } else {
        Err(Error::Address(address))
    }
}

} // verus!
