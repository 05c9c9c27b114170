//! How pages of search results are cut.
//!
//! Two styles are used. A segment page is asked for by its number and its
//! size; the gateway bounds both and asks the service to skip the items of
//! the pages before it. A relay page is asked for by a count of items after
//! a cursor; the gateway bounds the count and asks for that many items
//! (some searches ask for one more). Where the service answers with one
//! item more than the count, another page follows and that extra item is
//! dropped. The page's info then names the cursors of its first and last
//! items.
use vstd::prelude::*;
use vstd::arithmetic::div_mod::{lemma_fundamental_div_mod, lemma_div_is_ordered_by_denominator, lemma_mod_pos_bound};

verus! {

/// The greater of two integers.
pub open spec fn max_int(a: int, b: int) -> int {
    if a >= b {
        a
    } else {
        b
    }
}

/// The smaller of two integers.
pub open spec fn min_int(a: int, b: int) -> int {
    if a <= b {
        a
    } else {
        b
    }
}

/// The page that is served for a requested page number: at least the
/// first.
pub open spec fn served_page(current_page: int) -> int {
    max_int(current_page, 1)
}

/// The page size that is served for a requested size: at least one item,
/// and no more than the gateway's records limit (where that limit is
/// positive).
pub open spec fn served_items_count(items_count: int, records_limit: int) -> int {
    max_int(1, min_int(items_count, records_limit))
}

/// The page that a segment-paged search asks a service for.
#[derive(Debug, Clone, Copy, PartialEq, Eq, Structural)]
pub struct PageSegment {
    /// The page served, counted from 1.
    pub current_page: i32,
    /// The number of items on a page.
    pub items_count: i32,
    /// The number of items on the pages before this one.
    pub skip: i32,
}

/// Bounds a requested page number and page size, and counts the items that
/// come before that page. `records_limit` is the gateway's configured
/// limit, taken as an `i32` as the service requests take it.
pub fn page_segment(current_page: i32, items_count: i32, records_limit: usize) -> (r: PageSegment)
    requires
        served_items_count(items_count as int, (records_limit as i32) as int) * (served_page(
            current_page as int,
        ) - 1) <= i32::MAX,
    ensures
        r.current_page == served_page(current_page as int),
        r.items_count == served_items_count(items_count as int, (records_limit as i32) as int),
        r.skip == r.items_count * (r.current_page - 1),
        r.current_page >= 1,
        r.items_count >= 1,
        r.skip >= 0,
{
    let current_page: i32 = if current_page >= 1 {
        current_page
    } else {
        1
    };
    let limit: i32 = records_limit as i32;
    let bounded: i32 = if items_count <= limit {
        items_count
    } else {
        limit
    };
    let items_count: i32 = if bounded >= 1 {
        bounded
    } else {
        1
    };
    assert(0 <= items_count * (current_page - 1)) by (nonlinear_arith)
        requires
            items_count >= 1,
            current_page >= 1,
    ;
    let skip: i32 = items_count * (current_page - 1);
    PageSegment { current_page, items_count, skip }
}

/// The number of pages reported for a search that found `total_count`
/// items, `items_count` to a page: one page at least, even for no item.
/// The count is taken as an `i32`, as the services' answers are read.
pub open spec fn total_pages_spec(total_count: i64, items_count: int) -> int {
    max_int(0, (total_count as i32) as int - 1) / items_count + 1
}

/// The number of pages of a search that found `total_count` items,
/// `items_count` to a page.
pub fn total_pages(total_count: i64, items_count: i32) -> (r: i32)
    requires
        items_count >= 1,
        (total_count as i32) > i32::MIN,
    ensures
        r == total_pages_spec(total_count, items_count as int),
        r >= 1,
{
    let count: i32 = total_count as i32;
    let before_last: i32 = if count - 1 >= 0 {
        count - 1
    } else {
        0
    };
    proof {
        lemma_div_is_ordered_by_denominator(before_last as int, 1, items_count as int);
        assert(before_last as int / 1 == before_last as int);
        assert(before_last as int / (items_count as int) >= 0) by (nonlinear_arith)
            requires
                before_last >= 0,
                items_count >= 1,
        ;
    }
    before_last / items_count + 1
}

/// The reported pages hold every item found, and no page is reported
/// beyond the one that holds the last item: for a count of items that fits
/// in an `i32`, the pages before the last hold fewer items than were found
/// (or than one, where none was), and all the pages together hold them all.
pub proof fn lemma_total_pages_cover(total_count: i64, items_count: int)
    requires
        items_count >= 1,
        0 <= total_count <= i32::MAX,
    ensures
        (total_pages_spec(total_count, items_count) - 1) * items_count < max_int(
            total_count as int,
            1,
        ),
        max_int(total_count as int, 1) <= total_pages_spec(total_count, items_count)
            * items_count,
{
    assert((total_count as i32) as int == total_count as int);
    let x = max_int(0, total_count as int - 1);
    let q = x / items_count;
    lemma_fundamental_div_mod(x, items_count);
    lemma_mod_pos_bound(x, items_count);
    assert(q * items_count <= x) by (nonlinear_arith)
        requires
            x == items_count * q + x % items_count,
            0 <= x % items_count,
    ;
    assert(x < (q + 1) * items_count) by (nonlinear_arith)
        requires
            x == items_count * q + x % items_count,
            x % items_count < items_count,
    ;
}

/// Consecutive segment pages follow one another: the items skipped
/// for a page are those skipped for the page before it and that page's
/// items.
pub proof fn lemma_segments_adjacent(items_count: int, current_page: int)
    requires
        current_page >= 1,
    ensures
        items_count * ((current_page + 1) - 1) == items_count * (current_page - 1) + items_count,
{
    assert(items_count * ((current_page + 1) - 1) == items_count * (current_page - 1)
        + items_count) by (nonlinear_arith);
}

/// The number of items that a relay page holds for a requested count: the
/// count requested (the records limit where none is), but no more than
/// the records limit.
pub open spec fn relay_count_spec(first: Option<i32>, records_limit: int) -> int {
    min_int(
        match first {
            Some(f) => f as int,
            None => records_limit,
        },
        records_limit,
    )
}

/// Bounds the number of items of a relay page.
pub fn relay_count(first: Option<i32>, records_limit: usize) -> (r: i32)
    ensures
        r == relay_count_spec(first, (records_limit as i32) as int),
{
    let limit: i32 = records_limit as i32;
    let wanted: i32 = match first {
        Some(f) => f,
        None => limit,
    };
    if wanted <= limit {
        wanted
    } else {
        limit
    }
}

/// Drops the extra item that a relay page was asked for: where a service
/// answered `first + 1` items, another page follows, and the last item is
/// not part of this page (an empty answer has nothing to drop). Returns
/// whether another page follows.
pub fn trim_relay_page<T>(edges: &mut Vec<T>, first: i32) -> (has_next_page: bool)
    requires
        first < i32::MAX,
    ensures
        has_next_page == ((old(edges)@.len() as i32) == first + 1),
        final(edges)@ == (if has_next_page && old(edges)@.len() > 0 {
            old(edges)@.drop_last()
        } else {
            old(edges)@
        }),
{
    let len: i32 = edges.len() as i32;
    let has_next_page: bool = len == first + 1;
    if has_next_page {
        edges.pop();
    }
    has_next_page
}

/// Page info of the relay specification for connections.
#[derive(Debug, Clone)]
pub struct PageInfo {
    /// Whether another page follows.
    pub has_next_page: bool,
    /// Whether a page comes before.
    pub has_previous_page: bool,
    /// The cursor of the page's first item.
    pub start_cursor: Option<String>,
    /// The cursor of the page's last item.
    pub end_cursor: Option<String>,
}

/// The page info of a relay page whose items have these cursors, in
/// order: the cursors of its first and last items (none for an empty
/// page), and whether another page follows. A page is always said to have
/// one before it.
pub fn relay_page_info(cursors: &Vec<String>, has_next_page: bool) -> (r: PageInfo)
    ensures
        r.has_next_page == has_next_page,
        r.has_previous_page,
        r.start_cursor == (if cursors@.len() > 0 {
            Some(cursors@[0])
        } else {
            None::<String>
        }),
        r.end_cursor == (if cursors@.len() > 0 {
            Some(cursors@.last())
        } else {
            None::<String>
        }),
{
    let n: usize = cursors.len();
    if n == 0 {
        PageInfo { has_next_page, has_previous_page: true, start_cursor: None, end_cursor: None }
    } else {
        PageInfo {
            has_next_page,
            has_previous_page: true,
            start_cursor: Some(cursors[0].clone()),
            end_cursor: Some(cursors[n - 1].clone()),
        }
    }
}

/// Where a relay search starts: at the raw id that the `after` cursor
/// names, or at the smallest id where there is no cursor.
pub fn search_offset(after_raw_id: Option<i32>) -> (r: i32)
    ensures
        r == (match after_raw_id {
            Some(id) => id,
            None => 0,
        }),
{
    match after_raw_id {
        Some(id) => id,
        None => 0,
    }
}

/// The edges of a relay page: each item with its cursor, in order.
pub open spec fn edges_of<T>(cursors: Seq<String>, items: Seq<T>) -> Seq<(String, T)> {
    Seq::new(items.len(), |i: int| (cursors[i], items[i]))
}

/// Pairs each item with the cursor at the same position, in order.
fn make_edges<T>(items: Vec<T>, cursors: &Vec<String>) -> (r: Vec<(String, T)>)
    requires
        cursors@.len() == items@.len(),
    ensures
        r@ == edges_of(cursors@, items@),
{
    let ghost orig = items@;
    let n: usize = items.len();
    let mut items = items;
    let mut edges: Vec<(String, T)> = Vec::new();
    let mut k: usize = 0;
    while items.len() > 0
        invariant
            orig.len() == n,
            cursors@.len() == n,
            0 <= k <= n,
            items@ == orig.skip(k as int),
            items@.len() == n - k,
            edges@ == edges_of(cursors@, orig.take(k as int)),
        decreases items@.len(),
    {
        let item: T = items.remove(0);
        assert(orig.skip(k as int).remove(0) =~= orig.skip(k + 1));
        edges.push((cursors[k].clone(), item));
        assert(edges@ =~= edges_of(cursors@, orig.take(k + 1)));
        k = k + 1;
    }
    assert(orig.take(k as int) =~= orig);
    edges
}

/// A page of a relay connection: its edges, each a cursor and an item, and
/// its page info.
#[derive(Debug, Clone)]
pub struct RelayPage<T> {
    /// The edges, in order.
    pub edges: Vec<(String, T)>,
    /// The page info.
    pub page_info: PageInfo,
}

/// The relay page that a search's answer makes, where the search asked for
/// `first` items and each item answered has the cursor at the same
/// position: the items become edges in order; where `first + 1` came back,
/// another page follows and the last edge is dropped; the page info names
/// the cursors of the first and last edges left.
pub fn relay_search_page<T>(items: Vec<T>, cursors: Vec<String>, first: i32) -> (r: RelayPage<T>)
    requires
        cursors@.len() == items@.len(),
        first < i32::MAX,
    ensures
        r.page_info.has_next_page == ((items@.len() as i32) == first + 1),
        r.edges@ == (if r.page_info.has_next_page && items@.len() > 0 {
            edges_of(cursors@, items@).drop_last()
        } else {
            edges_of(cursors@, items@)
        }),
        r.page_info.has_previous_page,
        r.page_info.start_cursor == (if r.edges@.len() > 0 {
            Some(r.edges@[0].0)
        } else {
            None::<String>
        }),
        r.page_info.end_cursor == (if r.edges@.len() > 0 {
            Some(r.edges@.last().0)
        } else {
            None::<String>
        }),
{
    let mut edges = make_edges(items, &cursors);
    let has_next_page: bool = trim_relay_page(&mut edges, first);
    let count: usize = edges.len();
    if count == 0 {
        RelayPage {
            edges,
            page_info: PageInfo { has_next_page, has_previous_page: true, start_cursor: None, end_cursor: None },
        }
    } else {
        let start_cursor = edges[0].0.clone();
        let end_cursor = edges[count - 1].0.clone();
        RelayPage {
            edges,
            page_info: PageInfo {
                has_next_page,
                has_previous_page: true,
                start_cursor: Some(start_cursor),
                end_cursor: Some(end_cursor),
            },
        }
    }
}

/// Page info of a page asked for by its number.
#[derive(Debug, Clone, Copy, PartialEq, Eq, Structural)]
pub struct PageInfoSegments {
    /// The page served.
    pub current_page: i32,
    /// How many items a page holds.
    pub page_items_count: i32,
    /// How many pages there are.
    pub total_pages: i32,
}

/// A page of a connection asked for by its number: its edges, each a
/// cursor and an item, and its page info.
#[derive(Debug, Clone)]
pub struct SegmentPage<T> {
    /// The edges, in order.
    pub edges: Vec<(String, T)>,
    /// The page info.
    pub page_info: PageInfoSegments,
}

/// The page that a segment-paged search's answer makes: the items answered
/// for `segment`, each with the cursor at the same position, become the
/// edges in order, and the page info gives the page served, its size and
/// the number of pages for the `total_count` items found.
pub fn segment_page<T>(items: Vec<T>, cursors: Vec<String>, segment: PageSegment, total_count: i64) -> (r:
    SegmentPage<T>)
    requires
        cursors@.len() == items@.len(),
        segment.items_count >= 1,
        (total_count as i32) > i32::MIN,
    ensures
        r.edges@ == edges_of(cursors@, items@),
        r.page_info == (PageInfoSegments {
            current_page: segment.current_page,
            page_items_count: segment.items_count,
            total_pages: total_pages_spec(total_count, segment.items_count as int) as i32,
        }),
{
    let edges = make_edges(items, &cursors);
    let total: i32 = total_pages(total_count, segment.items_count);
    SegmentPage {
        edges,
        page_info: PageInfoSegments {
            current_page: segment.current_page,
            page_items_count: segment.items_count,
            total_pages: total,
        },
    }
}

/// The offset of the first item after a cursor: the item after the one
/// the cursor names, or the first item where there is no cursor.
pub fn offset_after_cursor(cursor: Option<i32>) -> (r: i32)
    requires
        cursor matches Some(c) ==> c < i32::MAX,
    ensures
        r == (match cursor {
            Some(c) => c + 1,
            None => 0,
        }),
{
    match cursor {
        Some(c) => c + 1,
        None => 0,
    }
}

/// The first index of a slice: `offset` (an `i32` taken as a `usize`), or
/// the end where the items run out before it.
pub open spec fn slice_start(len: int, offset: i32) -> int {
    min_int((offset as usize) as int, len)
}

/// The end of a slice of at most `count` items (an `i32` taken as a
/// `usize`) from `start`.
pub open spec fn slice_end(len: int, start: int, count: i32) -> int {
    min_int(start + (count as usize) as int, len)
}

/// The items of one page, cut from all of them: skip `offset` items, then
/// take at most `count`.
pub fn page_slice<T>(items: Vec<T>, offset: i32, count: i32) -> (r: Vec<T>)
    ensures
        r@ == items@.subrange(
            slice_start(items@.len() as int, offset),
            slice_end(items@.len() as int, slice_start(items@.len() as int, offset), count),
        ),
{
    let len: usize = items.len();
    let skip: usize = offset as usize;
    let take: usize = count as usize;
    let start: usize = if skip <= len {
        skip
    } else {
        len
    };
    let mut items = items;
    let mut rest: Vec<T> = items.split_off(start);
    rest.truncate(take);
    rest
}

/// The orders of one page of a store's orders: the page's items start
/// after those of the pages before it, `items_count` to a page, and the
/// page holds at most `items_count` orders, and no more than the records
/// limit.
pub fn orders_page<T>(orders: Vec<T>, current_page: i32, items_count: i32, records_limit: usize) -> (r: Vec<T>)
    requires
        current_page > i32::MIN,
        i32::MIN <= items_count * (current_page - 1) <= i32::MAX,
    ensures
        r@ == orders@.subrange(
            slice_start(orders@.len() as int, (items_count * (current_page - 1)) as i32),
            slice_end(
                orders@.len() as int,
                slice_start(orders@.len() as int, (items_count * (current_page - 1)) as i32),
                min_int(items_count as int, (records_limit as i32) as int) as i32,
            ),
        ),
{
    let offset: i32 = items_count * (current_page - 1);
    let limit: i32 = records_limit as i32;
    let count: i32 = if items_count <= limit {
        items_count
    } else {
        limit
    };
    page_slice(orders, offset, count)
}

} // verus!
