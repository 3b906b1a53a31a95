//! Pages of longer lists.

use vstd::prelude::*;

use crate::numbers::parse_i64;
#[allow(unused_imports)]
use crate::numbers::{decimal, in_range, lemma_decimal_reads, signed_value};

verus! {

/// A number of a request, one at least; `other` stands for one that is missing
/// or cannot be read.
pub open spec fn number_of(text: Option<Seq<char>>, other: int) -> int {
    let n = match text {
        Some(s) => match in_range(signed_value(s), i64::MIN as int, i64::MAX as int) {
            Some(n) => n,
            None => other,
        },
        None => other,
    };
    if n >= 1 {
        n
    } else {
        1
    }
}

/// Reads a number of a request.
pub fn read_number(text: Option<&str>, other: i64) -> (r: i64)
    requires
        other >= 1,
    ensures
        r == number_of(
            match text {
                Some(s) => Some(s@),
                None => None,
            },
            other as int,
        ),
        r >= 1,
{
    let n = match text {
        Some(s) => match parse_i64(s) {
            Some(n) => n,
            None => other,
        },
        None => other,
    };
    if n >= 1 {
        n
    } else {
        1
    }
}

/// A number that is written out reads back; one that is missing, or is no
/// number, reads as the other one.
pub proof fn law_number_reads_back(n: nat, other: int)
    requires
        1 <= n <= i64::MAX,
        other >= 1,
    ensures
        number_of(Some(decimal(n)), other) == n,
        number_of(None, other) == other,
        number_of(Some(Seq::empty()), other) == other,
{
    lemma_decimal_reads(n);
    let s = decimal(n);
    assert('0' <= s[0] <= '9');
}

/// How many items stand before a page. One that is past every list counts as
/// the largest number.
pub open spec fn skip_of(page: int, limit: int) -> int {
    if (page - 1) * limit <= i64::MAX {
        (page - 1) * limit
    } else {
        i64::MAX as int
    }
}

/// How many items stand before a page.
pub fn skip_for(page: i64, limit: i64) -> (r: u64)
    requires
        page >= 1,
        limit >= 1,
    ensures
        r == skip_of(page as int, limit as int),
{
    let a: i128 = page as i128 - 1;
    let b: i128 = limit as i128;
    assert(0 <= a * b <= 0x7fff_ffff_ffff_ffff * 0x7fff_ffff_ffff_ffff) by (nonlinear_arith)
        requires
            0 <= a <= 0x7fff_ffff_ffff_ffff,
            0 <= b <= 0x7fff_ffff_ffff_ffff,
    ;
    let skip: i128 = a * b;
    if skip <= i64::MAX as i128 {
        skip as u64
    } else {
        i64::MAX as u64
    }
}

/// How many pages hold `total` items.
pub open spec fn pages_of(total: int, limit: int) -> int {
    (total + limit - 1) / limit
}

/// How many pages hold `total` items.
pub fn page_count(total: i64, limit: i64) -> (r: i64)
    requires
        total >= 0,
        limit >= 1,
    ensures
        r == pages_of(total as int, limit as int),
        0 <= r <= total,
{
    let sum: i128 = total as i128 + limit as i128 - 1;
    let pages: i128 = sum / limit as i128;
    assert(0 <= pages <= total) by (nonlinear_arith)
        requires
            pages == (sum as int) / (limit as int),
            sum == total + limit - 1,
            total >= 0,
            limit >= 1,
    ;
    pages as i64
}

/// A count as a total; one past the largest number counts as that.
pub open spec fn total_of(count: int) -> int {
    if count <= i64::MAX {
        count
    } else {
        i64::MAX as int
    }
}

/// A count as a total.
pub fn total_for(count: u64) -> (r: i64)
    ensures
        r == total_of(count as int),
        r >= 0,
{
    if count <= i64::MAX as u64 {
        count as i64
    } else {
        i64::MAX
    }
}

/// The items of a page.
pub open spec fn page_of<T>(items: Seq<T>, page: int, limit: int) -> Seq<T> {
    let from = if skip_of(page, limit) <= items.len() {
        skip_of(page, limit)
    } else {
        items.len() as int
    };
    let to = if from + limit <= items.len() {
        from + limit
    } else {
        items.len() as int
    };
    items.subrange(from, to)
}

/// Takes the items of a page.
pub fn take_page<T>(items: Vec<T>, page: i64, limit: i64) -> (r: Vec<T>)
    requires
        page >= 1,
        limit >= 1,
    ensures
        r@ == page_of(items@, page as int, limit as int),
{
    let mut items = items;
    let ghost all = items@;
    let skip = skip_for(page, limit);
    let from: usize = if skip <= items.len() as u64 {
        skip as usize
    } else {
        items.len()
    };
    let mut docs = items.split_off(from);
    if (limit as u64) < docs.len() as u64 {
        docs.truncate(limit as usize);
    }
    assert(docs@ =~= page_of(all, page as int, limit as int));
    docs
}

/// There is a next page exactly where items stand after this one.
pub proof fn law_next_page_has_items(total: int, page: int, limit: int)
    by (nonlinear_arith)
    requires
        total >= 0,
        page >= 1,
        limit >= 1,
    ensures
        (page < pages_of(total, limit)) == (page * limit < total),
{
}

/// A page that is not the last is full, and the items of a page and of the
/// next follow each other.
pub proof fn law_pages_follow<T>(items: Seq<T>, page: int, limit: int)
    requires
        page >= 1,
        limit >= 1,
        page * limit <= i64::MAX,
        items.len() <= i64::MAX,
        page < pages_of(items.len() as int, limit),
    ensures
        page_of(items, page, limit).len() == limit,
        page_of(items, page, limit) + page_of(items, page + 1, limit) == items.subrange(
            (page - 1) * limit,
            if (page + 1) * limit <= items.len() {
                (page + 1) * limit
            } else {
                items.len() as int
            },
        ),
{
    law_next_page_has_items(items.len() as int, page, limit);
    assert((page - 1) * limit == page * limit - limit) by (nonlinear_arith);
    assert((page + 1) * limit == page * limit + limit) by (nonlinear_arith);
    assert(0 <= (page - 1) * limit) by (nonlinear_arith)
        requires
            page >= 1,
            limit >= 1,
    ;
    assert(page_of(items, page, limit) + page_of(items, page + 1, limit) =~= items.subrange(
        (page - 1) * limit,
        if (page + 1) * limit <= items.len() {
            (page + 1) * limit
        } else {
            items.len() as int
        },
    ));
}

/// The items of the first `n` pages, one page after another.
pub open spec fn first_pages<T>(items: Seq<T>, limit: int, n: int) -> Seq<T>
    decreases n,
{
    if n <= 0 {
        Seq::empty()
    } else {
        first_pages(items, limit, n - 1) + page_of(items, n, limit)
    }
}

proof fn lemma_first_pages<T>(items: Seq<T>, limit: int, n: int)
    requires
        limit >= 1,
        n >= 0,
        items.len() <= i64::MAX,
    ensures
        first_pages(items, limit, n) == items.take(
            if n * limit <= items.len() {
                n * limit
            } else {
                items.len() as int
            },
        ),
    decreases n,
{
    if n > 0 {
        lemma_first_pages(items, limit, n - 1);
        assert(n * limit == (n - 1) * limit + limit) by (nonlinear_arith);
        assert(0 <= (n - 1) * limit) by (nonlinear_arith)
            requires
                n >= 1,
                limit >= 1,
        ;
    } else {
        assert(n * limit == 0) by (nonlinear_arith)
            requires
                n == 0,
        ;
    }
    assert(first_pages(items, limit, n) =~= items.take(
        if n * limit <= items.len() {
            n * limit
        } else {
            items.len() as int
        },
    ));
}

/// The pages together hold every item, once and in order, and the pages behind
/// the last hold none.
pub proof fn law_pages_hold_every_item_once<T>(items: Seq<T>, limit: int, page: int)
    requires
        limit >= 1,
        items.len() <= i64::MAX,
        page >= 1,
    ensures
        first_pages(items, limit, pages_of(items.len() as int, limit)) == items,
        page > pages_of(items.len() as int, limit) ==> page_of(items, page, limit).len() == 0,
{
    let total = items.len() as int;
    let n = pages_of(total, limit);
    assert(n >= 0 && n * limit >= total) by (nonlinear_arith)
        requires
            n == (total + limit - 1) / limit,
            total >= 0,
            limit >= 1,
    ;
    lemma_first_pages(items, limit, n);
    assert(items.take(total) =~= items);
    if page > n {
        assert((page - 1) * limit >= n * limit) by (nonlinear_arith)
            requires
                page - 1 >= n,
                limit >= 1,
        ;
    }
}

} // verus!
