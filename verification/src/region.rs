//! How much of a run of `limit` values of `elem_size` bytes, starting at
//! address `addr`, can be read: the pages that the run touches are asked
//! about one by one, from the first, and the run is cut at the start of the
//! first page that cannot be read.
//!
//! Asking the operating system about a page is left to the caller; these
//! functions say which page to ask about next and what the answer means.
use vstd::prelude::*;
use vstd::arithmetic::power2::{pow2, lemma_pow2_pos};
use vstd::bits::{low_bits_mask, lemma_usize_low_bits_mask_is_mod};

verus! {

/// What to do next while measuring a readable run.
#[derive(Debug, Clone, Copy, PartialEq, Eq, Structural)]
pub enum RegionStep {
    /// Ask whether the page that starts at this address can be read.
    Query(usize),
    /// The run can be read for this many values.
    Done(usize),
}

/// A page size that the mask arithmetic of the scan accepts: a power of two.
pub open spec fn valid_page_size(page_size: usize) -> bool {
    exists|k: nat| k < usize::BITS && page_size == pow2(k)
}

/// The inputs that the scan accepts: a non-empty run whose last byte has an
/// address, and a page size that is a power of two.
pub open spec fn valid_run(addr: usize, limit: usize, elem_size: usize, page_size: usize) -> bool {
    &&& valid_page_size(page_size)
    &&& elem_size > 0
    &&& limit > 0
    &&& limit * elem_size <= usize::MAX
    &&& addr + limit * elem_size - 1 <= usize::MAX
}

/// The address of the last byte of the run.
pub open spec fn last_byte(addr: usize, limit: usize, elem_size: usize) -> int {
    addr + limit * elem_size - 1
}

/// The start of the page that holds address `a`.
pub open spec fn page_start(a: int, page_size: usize) -> int {
    a - a % (page_size as int)
}

/// `a` less `b`, or zero where `b` is the larger.
pub open spec fn saturating_diff(a: int, b: int) -> int {
    if a > b { a - b } else { 0 }
}

proof fn lemma_page_size_positive(page_size: usize)
    requires
        valid_page_size(page_size),
    ensures
        page_size > 0,
{
    let k = choose|k: nat| k < usize::BITS && page_size == pow2(k);
    lemma_pow2_pos(k);
}

proof fn lemma_mask_is_page_start(a: usize, page_size: usize)
    requires
        valid_page_size(page_size),
    ensures
        a & !((page_size - 1) as usize) == a - a % page_size,
{
    let k = choose|k: nat| k < usize::BITS && page_size == pow2(k);
    lemma_pow2_pos(k);
    lemma_usize_low_bits_mask_is_mod(a, k);
    let m: usize = (page_size - 1) as usize;
    assert(a & !m == a - (a & m)) by (bit_vector);
}

fn page_of(a: usize, page_size: usize) -> (r: usize)
    requires
        valid_page_size(page_size),
    ensures
        r == page_start(a as int, page_size),
{
    proof {
        lemma_page_size_positive(page_size);
        lemma_mask_is_page_start(a, page_size);
    }
    a & !(page_size - 1)
}

/// The first step of the scan: ask about the page that holds `addr`.
pub fn readable_region_start(addr: usize, limit: usize, elem_size: usize, page_size: usize) -> (r:
    RegionStep)
    requires
        valid_run(addr, limit, elem_size, page_size),
    ensures
        r == RegionStep::Query(page_start(addr as int, page_size) as usize),
{
    RegionStep::Query(page_of(addr, page_size))
}

/// The step after the page at `page_addr`, one of the run's pages, was found
/// `readable` or not. An unreadable page ends the run at its start (at the
/// run's start, where the page begins before it); a readable one leads to
/// the next page, or, after the run's last page, to the whole run.
pub fn readable_region_next(
    addr: usize,
    limit: usize,
    elem_size: usize,
    page_size: usize,
    page_addr: usize,
    readable: bool,
) -> (r: RegionStep)
    requires
        valid_run(addr, limit, elem_size, page_size),
        page_start(addr as int, page_size) <= page_addr,
        page_addr <= page_start(last_byte(addr, limit, elem_size), page_size),
    ensures
        !readable ==> r == RegionStep::Done(
            (saturating_diff(page_addr as int, addr as int) / (elem_size as int)) as usize,
        ),
        readable && page_addr + page_size <= page_start(last_byte(addr, limit, elem_size), page_size)
            ==> r == RegionStep::Query((page_addr + page_size) as usize),
        readable && page_addr + page_size > page_start(last_byte(addr, limit, elem_size), page_size)
            ==> r == RegionStep::Done(limit),
        r matches RegionStep::Done(n) ==> n <= limit,
{
    proof {
        lemma_page_size_positive(page_size);
        assert(limit * elem_size >= 1) by (nonlinear_arith)
            requires
                limit > 0,
                elem_size > 0,
        ;
    }
    let last = addr + (limit * elem_size - 1);
    let last_page = page_of(last, page_size);
    if !readable {
        let diff: usize = if page_addr > addr {
            page_addr - addr
        } else {
            0
        };
        proof {
            assert(diff as int / elem_size as int <= limit) by (nonlinear_arith)
                requires
                    diff < limit * elem_size,
                    elem_size > 0,
            ;
        }
        return RegionStep::Done(diff / elem_size);
    }
    if page_addr < last_page && last_page - page_addr >= page_size {
        RegionStep::Query(page_addr + page_size)
    } else {
        RegionStep::Done(limit)
    }
}

} // verus!
