//! How many pages an image of a given length takes.

use vstd::prelude::*;
use vstd::arithmetic::div_mod::{lemma_fundamental_div_mod, lemma_fundamental_div_mod_converse};

verus! {

/// The size in bytes of a page of the boot environment's allocator.
pub const PAGE_SIZE: usize = 4096;

/// The number of pages to ask for, for `length` bytes: as many whole pages
/// as hold them, and one page where the length is zero.
pub open spec fn pages_for(length: nat, page_size: nat) -> nat
    recommends
        page_size > 0,
{
    let whole = if length % page_size == 0 {
        length / page_size
    } else {
        length / page_size + 1
    };
    if whole == 0 {
        1
    } else {
        whole
    }
}

/// The pages are enough for the bytes, and one page fewer would not be,
/// unless there is only the one.
pub proof fn lemma_pages_are_least(length: nat, page_size: nat)
    requires
        page_size > 0,
    ensures
        pages_for(length, page_size) >= 1,
        pages_for(length, page_size) * page_size >= length,
        pages_for(length, page_size) > 1 ==> (pages_for(length, page_size) - 1) * page_size
            < length,
        length == 0 ==> pages_for(length, page_size) == 1,
{
    let q = length as int / page_size as int;
    let r = length as int % page_size as int;
    lemma_fundamental_div_mod(length as int, page_size as int);
    assert(0 <= r < page_size) by (nonlinear_arith)
        requires
            r == length as int % page_size as int,
            page_size > 0,
    ;
    assert(q >= 0) by (nonlinear_arith)
        requires
            q == length as int / page_size as int,
            page_size > 0,
    ;
    assert((q + 1) * page_size == q * page_size + page_size) by (nonlinear_arith);
    assert((q - 1) * page_size == q * page_size - page_size) by (nonlinear_arith);
    assert(page_size * q == q * page_size) by (nonlinear_arith);
    if length == 0 {
        assert(q == 0) by (nonlinear_arith)
            requires
                page_size * q + r == 0,
                0 <= r,
                0 <= q,
                page_size > 0,
        ;
    }
    if q == 0 {
        assert(q * page_size == 0);
    }
}

/// On a length above zero the count is one more than the pages that the
/// bytes before the last one fill.
proof fn lemma_pages_by_last_byte(length: nat, page_size: nat)
    requires
        page_size > 0,
        length > 0,
    ensures
        pages_for(length, page_size) == (length - 1) / (page_size as int) + 1,
        (length - 1) / (page_size as int) <= length - 1,
{
    let p = page_size as int;
    let q = (length - 1) / p;
    let r = (length - 1) % p;
    lemma_fundamental_div_mod(length - 1, p);
    assert(0 <= r < p) by (nonlinear_arith)
        requires
            r == (length - 1) % p,
            p > 0,
    ;
    assert(0 <= q <= length - 1) by (nonlinear_arith)
        requires
            q == (length - 1) / p,
            p > 0,
            length - 1 >= 0,
    ;
    assert(p * q == q * p) by (nonlinear_arith);
    if r + 1 < p {
        lemma_fundamental_div_mod_converse(length as int, p, q, r + 1);
    } else {
        assert((q + 1) * p + 0 == q * p + p) by (nonlinear_arith);
        lemma_fundamental_div_mod_converse(length as int, p, q + 1, 0);
    }
}

/// The number of pages to ask for, for `length` bytes.
pub fn page_count(length: usize, page_size: usize) -> (pages: usize)
    requires
        page_size > 0,
    ensures
        pages == pages_for(length as nat, page_size as nat),
{
    if length == 0 {
        proof {
            lemma_pages_are_least(0, page_size as nat);
        }
        1
    } else {
        proof {
            lemma_pages_by_last_byte(length as nat, page_size as nat);
        }
        (length - 1) / page_size + 1
    }
}

/// The room that an image takes in memory.
#[derive(Clone, Copy, Debug, PartialEq, Eq)]
pub struct ImageExtent {
    /// The length of the image in bytes: that of its file.
    pub length: usize,
    /// The number of pages behind it.
    pub pages: usize,
    /// The size of those pages in bytes.
    pub bytes: usize,
}

impl ImageExtent {
    /// Whether the pages are those that the length calls for.
    pub open spec fn wf(self) -> bool {
        &&& self.pages == pages_for(self.length as nat, PAGE_SIZE as nat)
        &&& self.bytes == self.pages * PAGE_SIZE
        &&& self.length <= self.bytes
    }

    /// Whether the pages for `length` bytes can be addressed.
    pub open spec fn fits(length: nat) -> bool {
        pages_for(length, PAGE_SIZE as nat) * PAGE_SIZE <= usize::MAX
    }

    /// The room for an image of `length` bytes.
    pub open spec fn of(length: nat) -> ImageExtent {
        ImageExtent {
            length: length as usize,
            pages: pages_for(length, PAGE_SIZE as nat) as usize,
            bytes: (pages_for(length, PAGE_SIZE as nat) * PAGE_SIZE) as usize,
        }
    }

    /// The room for a file of `length` bytes, or `None` where its pages
    /// would not fit the address space.
    pub fn for_length(length: u64) -> (r: Option<ImageExtent>)
        ensures
            r == if Self::fits(length as nat) {
                Some(Self::of(length as nat))
            } else {
                None
            },
            r matches Some(x) ==> x.wf() && x.length == length,
    {
        proof {
            lemma_pages_are_least(length as nat, PAGE_SIZE as nat);
        }
        if length > usize::MAX as u64 {
            return None;
        }
        let len: usize = length as usize;
        let pages: usize = page_count(len, PAGE_SIZE);
        match pages.checked_mul(PAGE_SIZE) {
            Some(bytes) => Some(ImageExtent { length: len, pages, bytes }),
            None => None,
        }
    }
}

/// Where the pages for a length can be addressed, the room for it has the
/// pages that the length calls for.
pub proof fn lemma_extent_wf(length: nat)
    requires
        ImageExtent::fits(length),
    ensures
        ImageExtent::of(length).wf(),
        ImageExtent::of(length).length == length,
{
    lemma_pages_are_least(length, PAGE_SIZE as nat);
}

} // verus!
