//! Window arithmetic shared by every paginated read view, and the page
//! extraction built on it.

use vstd::prelude::*;
use crate::StarfundEscrow;

verus! {

/// The smaller of two integers.
pub open spec fn min_int(a: int, b: int) -> int {
    if a <= b { a } else { b }
}

/// The page size actually served: the requested `limit`, clamped to `ceiling`.
pub open spec fn effective_limit(limit: u32, ceiling: u32) -> int {
    min_int(limit as int, ceiling as int)
}

/// The half-open index window `[start, end)` that a read of `limit` items
/// from `start`, clamped to `ceiling`, selects from a collection of `len`
/// items; `None` when that window is empty.
pub open spec fn window(start: u32, limit: u32, ceiling: u32, len: u32) -> Option<(int, int)> {
    if len == 0 || start >= len || effective_limit(limit, ceiling) == 0 {
        None
    } else {
        Some((start as int, min_int(start + effective_limit(limit, ceiling), len as int)))
    }
}

/// The items of `items` that the window selects, in order.
pub open spec fn page_of<T>(items: Seq<T>, start: u32, limit: u32, ceiling: u32) -> Seq<T>
    recommends
        items.len() <= u32::MAX,
{
    match window(start, limit, ceiling, items.len() as u32) {
        None => Seq::empty(),
        Some((s, e)) => items.subrange(s, e),
    }
}

impl StarfundEscrow {
    /// Computes the `[start, end)` window of a paginated read over a
    /// collection of `len` items: at most `min(limit, ceiling)` items from
    /// `start`, never past `len`. Returns `None` when the collection is
    /// empty, `start` is past its end, or the clamped limit is zero.
    /// The end is computed with saturating arithmetic, so no input overflows.
    pub fn paginate_window(start: u32, limit: u32, ceiling: u32, len: u32) -> (r: Option<(u32, u32)>)
        ensures
            r is None <==> window(start, limit, ceiling, len) is None,
            r matches Some((s, e)) ==> window(start, limit, ceiling, len) == Some((s as int, e as int)),
            r is Some <==> (len > 0 && start < len && limit > 0 && ceiling > 0),
            r matches Some((s, e)) ==> (s == start && s < e && e <= len && e - s <= limit && e - s
                <= ceiling && (e == len || e - s == limit || e - s == ceiling)),
    {
        let effective = if limit < ceiling { limit } else { ceiling };
        if len == 0 || start >= len || effective == 0 {
            return None;
        }
        let end = start.saturating_add(effective);
        let end = if end < len { end } else { len };
        Some((start, end))
    }

    /// Returns the page of `items` that [`StarfundEscrow::paginate_window`]
    /// selects: a copy of `items[start..end]`, or an empty page when the
    /// window is empty.
    pub fn paginate<T: Clone>(items: &Vec<T>, start: u32, limit: u32, ceiling: u32) -> (page: Vec<T>)
        requires
            items.len() <= u32::MAX,
        ensures
            page.len() == page_of(items@, start, limit, ceiling).len(),
            forall|i: int|
                0 <= i < page.len() ==> cloned::<T>(
                    #[trigger] page_of(items@, start, limit, ceiling)[i],
                    page[i],
                ),
            (start >= items.len() || limit == 0 || ceiling == 0) ==> page.len() == 0,
            (start < items.len() && limit > 0 && ceiling > 0) ==> (0 < page.len() && page.len()
                <= limit && page.len() <= ceiling && start + page.len() <= items.len() && (start
                + page.len() == items.len() || page.len() == limit || page.len() == ceiling)),
            forall|i: int|
                0 <= i < page.len() ==> cloned::<T>(#[trigger] items@[start + i], page[i]),
    {
        let len = items.len() as u32;
        let mut page: Vec<T> = Vec::new();
        match Self::paginate_window(start, limit, ceiling, len) {
            None => {},
            Some((s, e)) => {
                let ghost expected = items@.subrange(s as int, e as int);
                let mut i: u32 = s;
                while i < e
                    invariant
                        s <= i <= e,
                        e <= items.len(),
                        expected == items@.subrange(s as int, e as int),
                        page.len() == i - s,
                        s == start,
                        forall|j: int| 0 <= j < page.len() ==> cloned::<T>(#[trigger] expected[j], page[j]),
                        forall|j: int| 0 <= j < page.len() ==> cloned::<T>(items@[s + j], #[trigger] page[j]),
                    decreases e - i,
                {
                    page.push(items[i as usize].clone());
                    i = i + 1;
                }
            },
        }
        page
    }
}

/// Every non-empty window starts where it was asked to, ends no later than
/// the collection, and holds at most `min(limit, ceiling)` items, hence never
/// more than `ceiling`.
pub proof fn lemma_window_within_bounds(start: u32, limit: u32, ceiling: u32, len: u32)
    ensures
        window(start, limit, ceiling, len) matches Some((s, e)) ==> {
            &&& s == start
            &&& s < e <= len
            &&& e - s <= effective_limit(limit, ceiling)
            &&& e - s <= ceiling
            &&& e - s <= limit
        },
{
}

/// A non-empty window is exactly the requested page clamped twice: it starts
/// at `start`, and its end is `start + min(limit, ceiling)` unless that passes
/// the end of the collection, in which case it is `len`. So a window holds
/// `min(limit, ceiling)` items whenever that many remain, and every
/// remaining item otherwise.
pub proof fn lemma_window_is_clamped_request(start: u32, limit: u32, ceiling: u32, len: u32)
    requires
        len > 0,
        start < len,
        limit > 0,
        ceiling > 0,
    ensures
        window(start, limit, ceiling, len) is Some,
        window(start, limit, ceiling, len).unwrap().0 == start,
        limit <= ceiling && start + limit <= len ==> window(start, limit, ceiling, len).unwrap().1
            == start + limit,
        ceiling <= limit && start + ceiling <= len ==> window(start, limit, ceiling, len).unwrap().1
            == start + ceiling,
        start + limit >= len && start + ceiling >= len ==> window(start, limit, ceiling, len).unwrap().1
            == len,
{
}

/// A page is the requested slice of the collection: item `i` of the page is
/// item `start + i` of the collection, the page is empty exactly when the
/// window is, and otherwise it runs from `start` for `min(limit, ceiling)`
/// items or to the end of the collection, whichever comes first. In
/// particular a page from 0 whose clamped limit covers the collection is the
/// whole collection.
pub proof fn lemma_page_is_requested_slice<T>(items: Seq<T>, start: u32, limit: u32, ceiling: u32)
    requires
        items.len() <= u32::MAX,
    ensures
        (start >= items.len() || limit == 0 || ceiling == 0) ==> page_of(items, start, limit,
            ceiling).len() == 0,
        (start < items.len() && limit > 0 && ceiling > 0) ==> ({
            let n = page_of(items, start, limit, ceiling).len();
            &&& 0 < n
            &&& n <= limit
            &&& n <= ceiling
            &&& start + n <= items.len()
            &&& (start + n == items.len() || n == limit || n == ceiling)
        }),
        forall|i: int|
            0 <= i < page_of(items, start, limit, ceiling).len() ==> #[trigger] page_of(
                items,
                start,
                limit,
                ceiling,
            )[i] == items[start + i],
        start == 0 && limit >= items.len() && ceiling >= items.len() ==> page_of(
            items,
            start,
            limit,
            ceiling,
        ) == items,
{
    if start == 0 && limit >= items.len() && ceiling >= items.len() {
        if items.len() > 0 {
            assert(page_of(items, start, limit, ceiling) =~= items);
        } else {
            assert(page_of(items, start, limit, ceiling) =~= items);
        }
    }
}

/// A window is empty exactly when the collection is empty, `start` lies past
/// its end, or the clamped limit is zero.
pub proof fn lemma_window_empty_iff(start: u32, limit: u32, ceiling: u32, len: u32)
    ensures
        window(start, limit, ceiling, len) is None <==> (len == 0 || start >= len || limit == 0
            || ceiling == 0),
{
}

/// Only the last page of a walk is short: a window that stops before the end
/// of the collection holds exactly `min(limit, ceiling)` items.
pub proof fn lemma_short_page_only_at_end(start: u32, limit: u32, ceiling: u32, len: u32)
    requires
        window(start, limit, ceiling, len) is Some,
        window(start, limit, ceiling, len).unwrap().1 < len,
    ensures
        ({
            let (s, e) = window(start, limit, ceiling, len).unwrap();
            e - s == effective_limit(limit, ceiling)
        }),
{
}

/// Continuing a walk from where a page ended yields the next page: it starts
/// at that end, so consecutive pages neither overlap nor skip an item, and
/// the two pages together are exactly the items between the first start and
/// the second end.
pub proof fn lemma_continuation_is_contiguous<T>(items: Seq<T>, start: u32, limit: u32, ceiling: u32)
    requires
        items.len() <= u32::MAX,
        window(start, limit, ceiling, items.len() as u32) is Some,
        window(start, limit, ceiling, items.len() as u32).unwrap().1 < items.len(),
    ensures
        ({
            let (s, e) = window(start, limit, ceiling, items.len() as u32).unwrap();
            let next = window(e as u32, limit, ceiling, items.len() as u32);
            &&& next is Some
            &&& next.unwrap().0 == e
            &&& page_of(items, start, limit, ceiling) + page_of(items, e as u32, limit, ceiling)
                == items.subrange(s, next.unwrap().1)
        }),
{
    let len = items.len() as u32;
    let (s, e) = window(start, limit, ceiling, len).unwrap();
    let (s2, e2) = window(e as u32, limit, ceiling, len).unwrap();
    assert(page_of(items, start, limit, ceiling) + page_of(items, e as u32, limit, ceiling)
        =~= items.subrange(s, e2));
}

} // verus!
