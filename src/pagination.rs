//! Pagination cursors: "up to `page_size` rows whose sequence id is greater
//! than `last_id`, ascending by sequence id".
//!
//! A table is modelled by the ascending sequence of its row ids; `page_of`
//! is the page that a cursor selects from it.
use vstd::prelude::*;

verus! {

/// The page size of a list request that names no cursor.
pub const DEFAULT_PAGE_SIZE: i64 = 10;

/// The largest page size served; larger requests are clamped to it.
pub const MAX_PAGE_SIZE: i64 = 1000;

#[derive(Debug, Clone, Copy, PartialEq, Eq)]
pub struct Pagination {
    pub last_id: Option<i32>,
    pub page_size: i64,
}

impl Default for Pagination {
    fn default() -> (r: Pagination)
        ensures
            r.last_id is None,
            r.page_size == DEFAULT_PAGE_SIZE,
    {
        Pagination { last_id: None, page_size: DEFAULT_PAGE_SIZE }
    }
}

/// A page size brought into `1 ..= MAX_PAGE_SIZE`.
pub open spec fn clamp_page_size(n: i64) -> i64 {
    if n < 1 {
        1
    } else if n > MAX_PAGE_SIZE {
        MAX_PAGE_SIZE
    } else {
        n
    }
}

impl Pagination {
    /// A cursor that a query can run with.
    pub open spec fn valid(self) -> bool {
        1 <= self.page_size <= MAX_PAGE_SIZE
    }

    /// The cursor that a list request runs with: the default cursor when
    /// none is given; otherwise the given one with its page size clamped
    /// into `1 ..= MAX_PAGE_SIZE`.
    pub fn resolve(maybe: Option<Pagination>) -> (r: Pagination)
        ensures
            r.valid(),
            maybe is None ==> r.last_id is None && r.page_size == DEFAULT_PAGE_SIZE,
            maybe matches Some(p) ==> r.last_id == p.last_id && r.page_size == clamp_page_size(
                p.page_size,
            ),
    {
        match maybe {
            None => Pagination::default(),
            Some(p) => {
                let size = if p.page_size < 1 {
                    1
                } else if p.page_size > MAX_PAGE_SIZE {
                    MAX_PAGE_SIZE
                } else {
                    p.page_size
                };
                Pagination { last_id: p.last_id, page_size: size }
            },
        }
    }
}

/// Strictly ascending: how storage orders the sequence ids of a table.
pub open spec fn ascending(ids: Seq<i32>) -> bool {
    forall|i: int, j: int| 0 <= i < j < ids.len() ==> ids[i] < ids[j]
}

/// The ids of `ids` that come after `last` (all of them when `last` is absent).
pub open spec fn rest_after(ids: Seq<i32>, last: Option<i32>) -> Seq<i32>
    decreases ids.len(),
{
    match last {
        None => ids,
        Some(l) => if ids.len() == 0 {
            ids
        } else if ids[0] <= l {
            rest_after(ids.drop_first(), last)
        } else {
            ids
        },
    }
}

/// The page that cursor `c` selects from a table whose ids are `ids`.
pub open spec fn page_of(ids: Seq<i32>, c: Pagination) -> Seq<i32> {
    let rest = rest_after(ids, c.last_id);
    if rest.len() <= c.page_size {
        rest
    } else {
        rest.take(c.page_size as int)
    }
}

/// The cursor that follows cursor `c` once `page` was returned for it:
/// none after a page shorter than the page size, else the same page size
/// after the last id of the page.
pub open spec fn next_cursor_of(c: Pagination, page: Seq<i32>) -> Option<Pagination> {
    if page.len() == 0 || page.len() < c.page_size {
        None
    } else {
        Some(Pagination { last_id: Some(page.last()), page_size: c.page_size })
    }
}

/// The cursor for the page after `page_ids`, or `None` at the end of the data.
pub fn next_cursor(c: &Pagination, page_ids: &Vec<i32>) -> (r: Option<Pagination>)
    ensures
        r == next_cursor_of(*c, page_ids@),
{
    let n = page_ids.len();
    if n == 0 || (n as i128) < (c.page_size as i128) {
        None
    } else {
        Some(Pagination { last_id: Some(page_ids[n - 1]), page_size: c.page_size })
    }
}

proof fn lemma_ascending_drop_first(ids: Seq<i32>)
    requires
        ascending(ids),
        ids.len() > 0,
    ensures
        ascending(ids.drop_first()),
{
    assert forall|i: int, j: int| 0 <= i < j < ids.drop_first().len() implies ids.drop_first()[i]
        < ids.drop_first()[j] by {
        assert(ids.drop_first()[i] == ids[i + 1]);
        assert(ids.drop_first()[j] == ids[j + 1]);
    }
}

/// The ids after a cursor form a suffix of the table, split at index `k`.
proof fn lemma_rest_after_suffix(ids: Seq<i32>, last: Option<i32>) -> (k: int)
    requires
        ascending(ids),
    ensures
        0 <= k <= ids.len(),
        rest_after(ids, last) == ids.subrange(k, ids.len() as int),
        forall|i: int| 0 <= i < k ==> last is Some && ids[i] <= last.unwrap(),
        forall|i: int| k <= i < ids.len() ==> last is None || ids[i] > last.unwrap(),
    decreases ids.len(),
{
    match last {
        None => {
            assert(ids.subrange(0, ids.len() as int) =~= ids);
            0
        },
        Some(l) => {
            if ids.len() == 0 {
                assert(ids.subrange(0, 0) =~= ids);
                0
            } else if ids[0] <= l {
                lemma_ascending_drop_first(ids);
                let k2 = lemma_rest_after_suffix(ids.drop_first(), last);
                assert(ids.drop_first().subrange(k2, ids.len() - 1) =~= ids.subrange(
                    k2 + 1,
                    ids.len() as int,
                ));
                assert forall|i: int| 0 <= i < k2 + 1 implies ids[i] <= l by {
                    if i > 0 {
                        assert(ids[i] == ids.drop_first()[i - 1]);
                    }
                }
                assert forall|i: int| k2 + 1 <= i < ids.len() implies ids[i] > l by {
                    assert(ids[i] == ids.drop_first()[i - 1]);
                }
                k2 + 1
            } else {
                assert(ids.subrange(0, ids.len() as int) =~= ids);
                assert forall|i: int| 0 <= i < ids.len() implies ids[i] > l by {
                    if i > 0 {
                        assert(ids[0] < ids[i]);
                    }
                }
                0
            }
        },
    }
}

/// After the id at index `j`, the table continues at index `j + 1`.
proof fn lemma_rest_after_member(ids: Seq<i32>, j: int)
    requires
        ascending(ids),
        0 <= j < ids.len(),
    ensures
        rest_after(ids, Some(ids[j])) == ids.subrange(j + 1, ids.len() as int),
{
    let k = lemma_rest_after_suffix(ids, Some(ids[j]));
    if k <= j {
        assert(ids[j] > ids[j]);
    }
    if k > j + 1 {
        assert(ids[j + 1] <= ids[j]);
        assert(ids[j] < ids[j + 1]);
    }
}

/// A page returned for a valid cursor holds at most `page_size` ids, in
/// strictly ascending order, each of them greater than the cursor's
/// `last_id` when it has one.
pub proof fn lemma_page_bounds(ids: Seq<i32>, c: Pagination)
    requires
        ascending(ids),
        c.valid(),
    ensures
        page_of(ids, c).len() <= c.page_size,
        ascending(page_of(ids, c)),
        c.last_id matches Some(l) ==> forall|i: int|
            0 <= i < page_of(ids, c).len() ==> #[trigger] page_of(ids, c)[i] > l,
{
    let k = lemma_rest_after_suffix(ids, c.last_id);
    let rest = rest_after(ids, c.last_id);
    let page = page_of(ids, c);
    assert(page =~= ids.subrange(k, k + page.len()));
    assert forall|i: int, j: int| 0 <= i < j < page.len() implies page[i] < page[j] by {
        assert(page[i] == ids[k + i]);
        assert(page[j] == ids[k + j]);
    }
    if let Some(l) = c.last_id {
        assert forall|i: int| 0 <= i < page.len() implies #[trigger] page[i] > l by {
            assert(page[i] == ids[k + i]);
        }
    }
}

/// The pages visited from `cursors[0]` on, one after the other.
pub open spec fn pages_concat(ids: Seq<i32>, cursors: Seq<Pagination>) -> Seq<i32>
    decreases cursors.len(),
{
    if cursors.len() == 0 {
        Seq::empty()
    } else {
        page_of(ids, cursors[0]) + pages_concat(ids, cursors.drop_first())
    }
}

/// `cursors` is a walk over the table: each cursor is the one that follows
/// its predecessor's page, and the last cursor's page ends the data.
pub open spec fn is_walk(ids: Seq<i32>, cursors: Seq<Pagination>) -> bool {
    &&& cursors.len() > 0
    &&& forall|i: int|
        0 <= i < cursors.len() - 1 ==> next_cursor_of(cursors[i], page_of(ids, cursors[i]))
            == Some(#[trigger] cursors[i + 1])
    &&& next_cursor_of(cursors.last(), page_of(ids, cursors.last())) is None
}

proof fn lemma_walk_covers_rest(ids: Seq<i32>, cursors: Seq<Pagination>)
    requires
        ascending(ids),
        cursors[0].valid(),
        is_walk(ids, cursors),
    ensures
        pages_concat(ids, cursors) == rest_after(ids, cursors[0].last_id),
    decreases cursors.len(),
{
    let c = cursors[0];
    let k = lemma_rest_after_suffix(ids, c.last_id);
    let rest = rest_after(ids, c.last_id);
    let page = page_of(ids, c);
    let tail = cursors.drop_first();
    if cursors.len() == 1 {
        assert(tail.len() == 0);
        assert(pages_concat(ids, tail) =~= Seq::<i32>::empty());
        assert(page.len() < c.page_size);
        assert(page + Seq::<i32>::empty() =~= page);
    } else {
        assert(next_cursor_of(cursors[0], page_of(ids, cursors[0])) == Some(cursors[1]));
        let c1 = cursors[1];
        assert(page.len() == c.page_size);
        assert(page =~= rest.take(c.page_size as int));
        let j = k + c.page_size - 1;
        assert(page.last() == ids[j]);
        lemma_rest_after_member(ids, j);
        assert(tail[0] == c1);
        assert forall|i: int| 0 <= i < tail.len() - 1 implies next_cursor_of(
            tail[i],
            page_of(ids, tail[i]),
        ) == Some(#[trigger] tail[i + 1]) by {
            assert(tail[i] == cursors[i + 1]);
            assert(tail[i + 1] == cursors[i + 2]);
        }
        assert(tail.last() == cursors.last());
        lemma_walk_covers_rest(ids, tail);
        assert(rest_after(ids, c1.last_id) =~= rest.skip(c.page_size as int));
        assert(page + rest.skip(c.page_size as int) =~= rest);
    }
}

/// Paging to exhaustion: starting from a cursor without `last_id` and
/// advancing by the last id of each page until a page comes back shorter
/// than the page size visits every row of the table exactly once, in
/// ascending order, with no gaps and no duplicates.
pub proof fn lemma_paging_exhausts(ids: Seq<i32>, cursors: Seq<Pagination>)
    requires
        ascending(ids),
        is_walk(ids, cursors),
        cursors[0].last_id is None,
        cursors[0].valid(),
    ensures
        pages_concat(ids, cursors) == ids,
{
    lemma_walk_covers_rest(ids, cursors);
}

/// The walk that paging from cursor `c` takes: `c`, then each following
/// cursor, until a page ends the data.
pub open spec fn walk_from(ids: Seq<i32>, c: Pagination) -> Seq<Pagination>
    decreases rest_after(ids, c.last_id).len(),
{
    if ascending(ids) && c.valid() {
        match next_cursor_of(c, page_of(ids, c)) {
            None => seq![c],
            Some(n) => {
                proof {
                    lemma_step_shrinks_rest(ids, c);
                }
                seq![c] + walk_from(ids, n)
            },
        }
    } else {
        seq![c]
    }
}

/// After a full page, fewer ids remain after the next cursor than after `c`.
pub proof fn lemma_step_shrinks_rest(ids: Seq<i32>, c: Pagination)
    requires
        ascending(ids),
        c.valid(),
        next_cursor_of(c, page_of(ids, c)) is Some,
    ensures
        rest_after(ids, next_cursor_of(c, page_of(ids, c)).unwrap().last_id).len() < rest_after(
            ids,
            c.last_id,
        ).len(),
{
    let k = lemma_rest_after_suffix(ids, c.last_id);
    let page = page_of(ids, c);
    assert(page.len() == c.page_size);
    let j = k + c.page_size - 1;
    assert(page[c.page_size - 1] == ids[j]);
    lemma_rest_after_member(ids, j);
}

proof fn lemma_walk_from_is_walk(ids: Seq<i32>, c: Pagination)
    requires
        ascending(ids),
        c.valid(),
    ensures
        is_walk(ids, walk_from(ids, c)),
        walk_from(ids, c)[0] == c,
        forall|i: int| 0 <= i < walk_from(ids, c).len() ==> (#[trigger] walk_from(ids, c)[i]).valid(),
    decreases rest_after(ids, c.last_id).len(),
{
    let w = walk_from(ids, c);
    match next_cursor_of(c, page_of(ids, c)) {
        None => {
            assert(w =~= seq![c]);
        },
        Some(n) => {
            lemma_step_shrinks_rest(ids, c);
            lemma_walk_from_is_walk(ids, n);
            let rest = walk_from(ids, n);
            assert(w =~= seq![c] + rest);
            assert(w[0] == c);
            assert forall|i: int| 0 <= i < w.len() implies (#[trigger] w[i]).valid() by {
                if i > 0 {
                    assert(w[i] == rest[i - 1]);
                }
            }
            assert forall|i: int| 0 <= i < w.len() - 1 implies next_cursor_of(
                w[i],
                page_of(ids, w[i]),
            ) == Some(#[trigger] w[i + 1]) by {
                if i > 0 {
                    let i1 = i - 1;
                    assert(w[i] == rest[i1]);
                    assert(w[i + 1] == rest[i1 + 1]);
                } else {
                    assert(w[1] == rest[0]);
                }
            }
            assert(w.last() == rest.last());
        },
    }
}

/// Paging from the first page ends: the walk that starts with a cursor
/// without `last_id` reaches a page that ends the data, and its pages,
/// one after the other, are the whole table.
pub proof fn lemma_paging_terminates(ids: Seq<i32>, page_size: i64)
    requires
        ascending(ids),
        1 <= page_size <= MAX_PAGE_SIZE,
    ensures
        is_walk(ids, walk_from(ids, Pagination { last_id: None, page_size })),
        pages_concat(ids, walk_from(ids, Pagination { last_id: None, page_size })) == ids,
{
    let c = Pagination { last_id: None, page_size };
    lemma_walk_from_is_walk(ids, c);
    lemma_paging_exhausts(ids, walk_from(ids, c));
}

} // verus!
