use vstd::prelude::*;

use crate::model::{payload_matches_type, unix_now, ContentType, EntryView, HistoryEntry};

verus! {

broadcast use vstd::seq_lib::group_seq_lib_default;

/// Why a store operation failed.
#[derive(Debug, Clone, Copy, PartialEq, Eq, Structural)]
pub enum StorageError {
    /// The store could not be opened.
    OpenFailure,
    /// A write could not be carried out.
    IoFailure,
    /// A row broke the schema: a payload that does not match its type, or a
    /// row identifier that is not fresh.
    ConstraintViolation,
}

/// How many rows a text search returns at most.
pub const SEARCH_LIMIT: usize = 50;

/// Seconds in a day.
pub const SECONDS_PER_DAY: i64 = 86400;

/// `a` comes before `b` in the store's order: created later, or created in
/// the same second and inserted later.
pub open spec fn more_recent(a: EntryView, b: EntryView) -> bool {
    a.created_at > b.created_at || (a.created_at == b.created_at && a.id > b.id)
}

/// Every row comes before the rows after it.
pub open spec fn recency_ordered(rows: Seq<EntryView>) -> bool {
    forall|i: int, j: int| 0 <= i < j < rows.len() ==> #[trigger] more_recent(rows[i], rows[j])
}

/// What holds of the rows of a store whose next identifier is `next_id`.
pub open spec fn store_invariant(rows: Seq<EntryView>, next_id: i64) -> bool {
    &&& 1 <= next_id
    &&& recency_ordered(rows)
    &&& forall|i: int|
        0 <= i < rows.len() ==> 1 <= #[trigger] rows[i].id < next_id && payload_matches_type(
            rows[i],
        )
    &&& forall|i: int, j: int| 0 <= i < j < rows.len() ==> #[trigger] rows[i].id != #[trigger] rows[j].id
}

/// The number of leading rows that come before `e`.
pub open spec fn insertion_point(rows: Seq<EntryView>, e: EntryView) -> int
    decreases rows.len(),
{
    if rows.len() == 0 || !more_recent(rows[0], e) {
        0
    } else {
        1 + insertion_point(rows.drop_first(), e)
    }
}

/// The rows with `e` placed in order among them.
pub open spec fn insert_in_order(rows: Seq<EntryView>, e: EntryView) -> Seq<EntryView> {
    rows.insert(insertion_point(rows, e), e)
}

/// The row that a text insert writes.
pub open spec fn text_row(id: i64, text: Seq<char>, now: i64) -> EntryView {
    EntryView {
        id,
        content_type: ContentType::Text,
        image_data: None,
        thumbnail: None,
        text_content: Some(text),
        created_at: now,
        file_size: vstd::utf8::encode_utf8(text).len() as i64,
    }
}

/// The row that an image insert writes.
pub open spec fn image_row(id: i64, image: Seq<u8>, thumbnail: Seq<u8>, now: i64) -> EntryView {
    EntryView {
        id,
        content_type: ContentType::Image,
        image_data: Some(image),
        thumbnail: Some(thumbnail),
        text_content: None,
        created_at: now,
        file_size: image.len() as i64,
    }
}

/// The second before which age-based cleanup removes rows.
pub open spec fn retention_cutoff(days: i64, now: i64) -> int {
    now - days * SECONDS_PER_DAY
}

/// The rows that age-based cleanup keeps.
pub open spec fn created_since(rows: Seq<EntryView>, cutoff: int) -> Seq<EntryView> {
    rows.filter(|e: EntryView| e.created_at >= cutoff)
}

/// The rows that age-based cleanup removes.
pub open spec fn created_before(rows: Seq<EntryView>, cutoff: int) -> Seq<EntryView> {
    rows.filter(|e: EntryView| e.created_at < cutoff)
}

/// The first `n` elements of `s`, or all of them when there are fewer.
pub open spec fn first_n<A>(s: Seq<A>, n: int) -> Seq<A> {
    if n < s.len() {
        s.take(n)
    } else {
        s
    }
}

/// The row with identifier `id`, if there is one.
pub open spec fn entry_with_id(rows: Seq<EntryView>, id: i64) -> Option<EntryView> {
    if exists|i: int| 0 <= i < rows.len() && rows[i].id == id {
        Some(rows[choose|i: int| 0 <= i < rows.len() && rows[i].id == id])
    } else {
        None
    }
}

/// `needle` occurs in `hay` as a contiguous run of characters.
pub open spec fn has_substring(hay: Seq<char>, needle: Seq<char>) -> bool {
    exists|i: int|
        0 <= i && i + needle.len() <= hay.len() && #[trigger] hay.subrange(i, i + needle.len())
            == needle
}

/// A text row whose text contains `query`.
pub open spec fn text_matches(e: EntryView, query: Seq<char>) -> bool {
    match e.text_content {
        Some(t) => has_substring(t, query),
        None => false,
    }
}

/// Which rows a removal takes away.
enum Doomed {
    /// Every row.
    All,
    /// The row with this identifier.
    WithId(i64),
    /// The rows of this type.
    OfType(ContentType),
    /// The rows created strictly before this second.
    CreatedBefore(i128),
}

spec fn doomed(d: Doomed, e: EntryView) -> bool {
    match d {
        Doomed::All => true,
        Doomed::WithId(id) => e.id == id,
        Doomed::OfType(ct) => e.content_type == ct,
        Doomed::CreatedBefore(t) => (e.created_at as int) < t,
    }
}

fn is_doomed(d: &Doomed, e: &HistoryEntry) -> (r: bool)
    ensures
        r == doomed(*d, e@),
{
    match d {
        Doomed::All => true,
        Doomed::WithId(id) => e.id == *id,
        Doomed::OfType(ct) => e.content_type == *ct,
        Doomed::CreatedBefore(t) => (e.created_at as i128) < *t,
    }
}

/// Keeping the elements that `p` accepts and those it rejects splits a
/// sequence without loss.
pub proof fn lemma_filter_split_len<A>(s: Seq<A>, p: spec_fn(A) -> bool, q: spec_fn(A) -> bool)
    requires
        forall|x: A| #[trigger] q(x) == !p(x),
    ensures
        s.filter(p).len() + s.filter(q).len() == s.len(),
    decreases s.len(),
{
    reveal(Seq::filter);
    if s.len() > 0 {
        lemma_filter_split_len(s.drop_last(), p, q);
        assert(q(s.last()) == !p(s.last()));
    }
}

/// Filtering keeps the order of what it keeps.
pub proof fn lemma_filter_keeps_order(s: Seq<EntryView>, p: spec_fn(EntryView) -> bool)
    requires
        recency_ordered(s),
    ensures
        recency_ordered(s.filter(p)),
        forall|i: int| 0 <= i < s.filter(p).len() ==> s.contains(#[trigger] s.filter(p)[i]),
    decreases s.len(),
{
    reveal(Seq::filter);
    if s.len() > 0 {
        let t = s.drop_last();
        assert(recency_ordered(t));
        lemma_filter_keeps_order(t, p);
        let f = t.filter(p);
        assert forall|i: int| 0 <= i < f.len() implies #[trigger] more_recent(f[i], s.last()) by {
            assert(t.contains(f[i]));
            let k = choose|k: int| 0 <= k < t.len() && t[k] == f[i];
            assert(more_recent(s[k], s[s.len() - 1]));
        }
        assert forall|i: int| 0 <= i < s.filter(p).len() implies s.contains(
            #[trigger] s.filter(p)[i],
        ) by {
            if i < f.len() {
                assert(t.contains(f[i]));
                let k = choose|k: int| 0 <= k < t.len() && t[k] == f[i];
                assert(s[k] == f[i]);
            } else {
                assert(s[s.len() - 1] == s.filter(p)[i]);
            }
        }
    }
}

/// Which rows a query returns.
enum Selector<'a> {
    /// The rows of this type.
    OfType(ContentType),
    /// The text rows whose text contains this query.
    TextContaining(&'a str),
}

spec fn selected(q: Selector, e: EntryView) -> bool {
    match q {
        Selector::OfType(ct) => e.content_type == ct,
        Selector::TextContaining(query) => text_matches(e, query@),
    }
}

fn is_selected(q: &Selector, e: &HistoryEntry) -> (r: bool)
    ensures
        r == selected(*q, e@),
{
    match q {
        Selector::OfType(ct) => e.content_type == *ct,
        Selector::TextContaining(query) => match &e.text_content {
            Some(t) => str_contains(t.as_str(), query),
            None => false,
        },
    }
}

/// The store does not deduplicate: inserting the same text twice, one insert
/// after the other, leaves two more rows than before, both holding that text
/// and with different identifiers.
pub proof fn lemma_same_text_twice_gives_two_rows(
    rows: Seq<EntryView>,
    next_id: i64,
    text: Seq<char>,
    first_at: i64,
    second_at: i64,
)
    requires
        store_invariant(rows, next_id),
        next_id < i64::MAX - 1,
    ensures
        ({
            let first = text_row(next_id, text, first_at);
            let second = text_row((next_id + 1) as i64, text, second_at);
            let after = insert_in_order(insert_in_order(rows, first), second);
            &&& after.len() == rows.len() + 2
            &&& after.contains(first)
            &&& after.contains(second)
            &&& first.id != second.id
            &&& first.text_content == Some(text)
            &&& second.text_content == Some(text)
        }),
{
    let first = text_row(next_id, text, first_at);
    let second = text_row((next_id + 1) as i64, text, second_at);
    lemma_insertion_point_bounds(rows, first);
    let once = insert_in_order(rows, first);
    lemma_insertion_point_bounds(once, second);
    let twice = insert_in_order(once, second);
    let p = insertion_point(rows, first);
    let q = insertion_point(once, second);
    assert(once[p] == first);
    assert(twice[q] == second);
    if q <= p {
        assert(twice[p + 1] == first);
    } else {
        assert(twice[p] == first);
    }
}

/// Where a row goes lies within the rows.
pub proof fn lemma_insertion_point_bounds(rows: Seq<EntryView>, e: EntryView)
    ensures
        0 <= insertion_point(rows, e) <= rows.len(),
    decreases rows.len(),
{
    if rows.len() > 0 && more_recent(rows[0], e) {
        lemma_insertion_point_bounds(rows.drop_first(), e);
    }
}

/// A text search returns only rows whose text contains the query, most
/// recent first (created later, or at the same second inserted later), and
/// as many of the matching rows as there are up to fifty.
pub proof fn lemma_search_results(rows: Seq<EntryView>, next_id: i64, query: Seq<char>)
    requires
        store_invariant(rows, next_id),
    ensures
        ({
            let matching = rows.filter(|e: EntryView| text_matches(e, query));
            let found = first_n(matching, SEARCH_LIMIT as int);
            &&& forall|i: int| 0 <= i < found.len() ==> text_matches(#[trigger] found[i], query)
            &&& forall|i: int| 0 <= i < found.len() ==> rows.contains(#[trigger] found[i])
            &&& forall|i: int, j: int|
                0 <= i < j < found.len() ==> #[trigger] found[i].created_at >= #[trigger] found[j].created_at
            &&& recency_ordered(found)
            &&& found.len() == if matching.len() > SEARCH_LIMIT { SEARCH_LIMIT as nat } else { matching.len() }
        }),
{
    let pred = |e: EntryView| text_matches(e, query);
    let matching = rows.filter(pred);
    lemma_filter_keeps_order(rows, pred);
    let found = first_n(matching, SEARCH_LIMIT as int);
    assert forall|i: int| 0 <= i < found.len() implies text_matches(#[trigger] found[i], query) by {
        assert(found[i] == matching[i]);
        assert(pred(matching[i]));
    }
    assert forall|i: int| 0 <= i < found.len() implies rows.contains(#[trigger] found[i]) by {
        assert(found[i] == matching[i]);
    }
    assert forall|i: int, j: int| 0 <= i < j < found.len() implies #[trigger] more_recent(found[i], found[j]) by {
        assert(found[i] == matching[i]);
        assert(found[j] == matching[j]);
    }
    assert forall|i: int, j: int|
        0 <= i < j < found.len() implies #[trigger] found[i].created_at >= #[trigger] found[j].created_at by {
        assert(more_recent(found[i], found[j]));
    }
}

/// Relies on `str::contains`: true when the pattern matches a sub-slice.
#[verifier::external_body]
fn str_contains(hay: &str, needle: &str) -> (r: bool)
    ensures
        r == has_substring(hay@, needle@),
{
    hay.contains(needle)
}

pub fn is_more_recent(a: &HistoryEntry, b: &HistoryEntry) -> (r: bool)
    ensures
        r == more_recent(a@, b@),
{
    a.created_at > b.created_at || (a.created_at == b.created_at && a.id > b.id)
}

/// The content store: history entries kept most recent first.
pub struct Database {
    rows: Vec<HistoryEntry>,
    next_id: i64,
}

impl View for Database {
    type V = Seq<EntryView>;

    closed spec fn view(&self) -> Seq<EntryView> {
        self.rows@.map_values(|e: HistoryEntry| e@)
    }
}

impl Database {
    /// The identifier that the next insert assigns.
    pub closed spec fn spec_next_id(&self) -> i64 {
        self.next_id
    }

    pub open spec fn well_formed(&self) -> bool {
        store_invariant(self@, self.spec_next_id())
    }

    /// An empty store.
    pub fn new_in_memory() -> (r: Result<Database, StorageError>)
        ensures
            r is Ok,
            r->Ok_0.well_formed(),
            r->Ok_0@ == Seq::<EntryView>::empty(),
            r->Ok_0.spec_next_id() == 1,
    {
        let db = Database { rows: Vec::new(), next_id: 1 };
        assert(db@ =~= Seq::<EntryView>::empty());
        Ok(db)
    }

    /// The number of rows.
    pub fn len(&self) -> (r: usize)
        ensures
            r == self@.len(),
    {
        self.rows.len()
    }

    /// The identifiers of the rows, in store order.
    pub fn ids(&self) -> (r: Vec<i64>)
        ensures
            r@ == self@.map_values(|e: EntryView| e.id),
    {
        let mut out: Vec<i64> = Vec::new();
        let n = self.rows.len();
        let mut i: usize = 0;
        while i < n
            invariant
                n == self.rows.len(),
                i <= n,
                out@.len() == i,
                forall|k: int| 0 <= k < i ==> out@[k] == #[trigger] self@[k].id,
            decreases n - i,
        {
            out.push(self.rows[i].id);
            i = i + 1;
        }
        assert(out@ =~= self@.map_values(|e: EntryView| e.id));
        out
    }

    /// Places a row with a fresh identifier among the rows, in order.
    fn place(&mut self, entry: HistoryEntry)
        requires
            old(self).well_formed(),
            old(self).spec_next_id() <= entry.id < i64::MAX,
            payload_matches_type(entry@),
        ensures
            final(self)@ == insert_in_order(old(self)@, entry@),
            final(self).spec_next_id() == entry.id + 1,
            final(self).well_formed(),
    {
        let ghost rows0 = self@;
        let n = self.rows.len();
        let mut p: usize = 0;
        assert(rows0.skip(0) =~= rows0);
        while p < n && is_more_recent(&self.rows[p], &entry)
            invariant
                n == self.rows.len(),
                rows0 == self@,
                self.rows@.len() == rows0.len(),
                p <= n,
                forall|k: int| 0 <= k < p ==> more_recent(rows0[k], entry@),
                insertion_point(rows0, entry@) == p + insertion_point(rows0.skip(p as int), entry@),
            decreases n - p,
        {
            assert(rows0.skip(p as int).drop_first() =~= rows0.skip(p + 1));
            p = p + 1;
        }
        assert(insertion_point(rows0, entry@) == p) by {
            if p < n {
                assert(rows0.skip(p as int)[0] == rows0[p as int]);
            }
        }
        let ghost e = entry@;
        let id = entry.id;
        self.rows.insert(p, entry);
        self.next_id = id + 1;
        assert(self@ =~= rows0.insert(p as int, e));
        let ghost rows1 = self@;
        assert forall|i: int, j: int| 0 <= i < j < rows1.len() implies #[trigger] more_recent(
            rows1[i],
            rows1[j],
        ) by {
            if j < p {
            } else if j == p {
            } else if i < p {
                assert(more_recent(rows0[i], e));
                assert(more_recent(e, rows0[j - 1])) by {
                    if j - 1 > p {
                        assert(more_recent(rows0[p as int], rows0[j - 1]));
                    }
                }
            } else if i == p {
                if j - 1 > p {
                    assert(more_recent(rows0[p as int], rows0[j - 1]));
                }
            } else {
                assert(more_recent(rows0[i - 1], rows0[j - 1]));
            }
        }
        assert forall|i: int, j: int| 0 <= i < j < rows1.len() implies #[trigger] rows1[i].id
            != #[trigger] rows1[j].id by {
            if i < p && j > p {
                assert(rows0[i].id != rows0[j - 1].id);
            } else if i > p {
                assert(rows0[i - 1].id != rows0[j - 1].id);
            }
        }
    }

    /// Removes the doomed rows and tells how many there were.
    fn remove_where(&mut self, d: Doomed) -> (r: usize)
        requires
            old(self).well_formed(),
        ensures
            final(self).well_formed(),
            final(self).spec_next_id() == old(self).spec_next_id(),
            final(self)@ == old(self)@.filter(|e: EntryView| !doomed(d, e)),
            r == old(self)@.filter(|e: EntryView| doomed(d, e)).len(),
    {
        let ghost old_view = self@;
        let ghost keep = |e: EntryView| !doomed(d, e);
        let mut old_rows: Vec<HistoryEntry> = Vec::new();
        std::mem::swap(&mut old_rows, &mut self.rows);
        let ghost src = old_rows@;
        let total = old_rows.len();
        let mut kept: Vec<HistoryEntry> = Vec::new();
        for row in it: old_rows.into_iter()
            invariant
                src.map_values(|e: HistoryEntry| e@) == old_view,
                it.seq() == src,
                keep == |e: EntryView| !doomed(d, e),
                kept@.map_values(|e: HistoryEntry| e@) == old_view.take(it.index() as int).filter(keep),
        {
            let ghost i = it.index();
            assert(row == src[i as int]);
            assert(row@ == old_view[i as int]);
            proof {
                assert(old_view.take(i + 1) =~= old_view.take(i as int).push(old_view[i as int]));
                old_view.take(i as int).lemma_filter_push(old_view[i as int], keep);
            }
            let ghost before = kept@;
            if !is_doomed(&d, &row) {
                kept.push(row);
                assert(kept@.map_values(|e: HistoryEntry| e@) =~= before.map_values(
                    |e: HistoryEntry| e@,
                ).push(old_view[i as int]));
            }
            assert(keep(old_view[i as int]) == !doomed(d, old_view[i as int]));
            assert(kept@.map_values(|e: HistoryEntry| e@) =~= old_view.take(i + 1).filter(keep));
        }
        assert(old_view.take(old_view.len() as int) =~= old_view);
        let removed = total - kept.len();
        self.rows = kept;
        proof {
            lemma_filter_split_len(old_view, keep, |e: EntryView| doomed(d, e));
            lemma_filter_keeps_order(old_view, keep);
            let f = old_view.filter(keep);
            assert forall|i: int| 0 <= i < f.len() implies 1 <= #[trigger] f[i].id < self.next_id
                && payload_matches_type(f[i]) by {
                assert(old_view.contains(f[i]));
            }
            assert forall|i: int, j: int| 0 <= i < j < f.len() implies #[trigger] f[i].id
                != #[trigger] f[j].id by {
                assert(more_recent(f[i], f[j]));
            }
        }
        removed
    }

    /// Copies of the first `limit` selected rows, in store order.
    fn select(&self, q: Selector, limit: usize) -> (r: Vec<HistoryEntry>)
        ensures
            r@.map_values(|e: HistoryEntry| e@) == first_n(
                self@.filter(|e: EntryView| selected(q, e)),
                limit as int,
            ),
    {
        let ghost v = self@;
        let ghost sel = |e: EntryView| selected(q, e);
        let mut out: Vec<HistoryEntry> = Vec::new();
        let n = self.rows.len();
        let mut i: usize = 0;
        assert(v.take(0).filter(sel) =~= Seq::<EntryView>::empty()) by {
            reveal(Seq::filter);
        }
        while i < n
            invariant
                n == self.rows.len(),
                v == self@,
                v.len() == n,
                i <= n,
                sel == |e: EntryView| selected(q, e),
                out@.map_values(|e: HistoryEntry| e@) == first_n(v.take(i as int).filter(sel), limit as int),
            decreases n - i,
        {
            let ghost before = out@;
            let ghost f = v.take(i as int).filter(sel);
            proof {
                assert(v.take(i + 1) =~= v.take(i as int).push(v[i as int]));
                v.take(i as int).lemma_filter_push(v[i as int], sel);
            }
            assert(self.rows@[i as int]@ == v[i as int]);
            if is_selected(&q, &self.rows[i]) {
                if out.len() < limit {
                    let copy = self.rows[i].duplicate();
                    out.push(copy);
                    assert(out@.map_values(|e: HistoryEntry| e@) =~= before.map_values(
                        |e: HistoryEntry| e@,
                    ).push(v[i as int]));
                    assert(first_n(f, limit as int) == f);
                    assert(first_n(f.push(v[i as int]), limit as int) == f.push(v[i as int]));
                } else {
                    assert(first_n(f.push(v[i as int]), limit as int) =~= first_n(f, limit as int));
                }
            }
            i = i + 1;
        }
        assert(v.take(n as int) =~= v);
        out
    }

    /// The `limit` most recent rows of one type, most recent first.
    pub fn get_recent_entries_by_type(&self, limit: usize, content_type: ContentType) -> (r: Result<
        Vec<HistoryEntry>,
        StorageError,
    >)
        ensures
            r is Ok,
            r->Ok_0@.map_values(|e: HistoryEntry| e@) == first_n(
                self@.filter(|e: EntryView| e.content_type == content_type),
                limit as int,
            ),
    {
        let out = self.select(Selector::OfType(content_type), limit);
        assert((|e: EntryView| selected(Selector::OfType(content_type), e)) =~= (|e: EntryView|
            e.content_type == content_type));
        Ok(out)
    }

    /// The text rows whose text contains `query`, most recent first, at most
    /// fifty of them.
    pub fn search_text(&self, query: &str) -> (r: Result<Vec<HistoryEntry>, StorageError>)
        ensures
            r is Ok,
            r->Ok_0@.map_values(|e: HistoryEntry| e@) == first_n(
                self@.filter(|e: EntryView| text_matches(e, query@)),
                SEARCH_LIMIT as int,
            ),
    {
        let out = self.select(Selector::TextContaining(query), SEARCH_LIMIT);
        assert((|e: EntryView| selected(Selector::TextContaining(query), e)) =~= (|e: EntryView|
            text_matches(e, query@)));
        Ok(out)
    }

    /// The row with identifier `id`, with its whole payload.
    pub fn get_entry(&self, id: i64) -> (r: Result<Option<HistoryEntry>, StorageError>)
        requires
            self.well_formed(),
        ensures
            r is Ok,
            match r->Ok_0 {
                Some(e) => entry_with_id(self@, id) == Some(e@),
                None => entry_with_id(self@, id) is None,
            },
    {
        let ghost v = self@;
        let n = self.rows.len();
        let mut i: usize = 0;
        while i < n
            invariant
                n == self.rows.len(),
                v == self@,
                v.len() == n,
                i <= n,
                self.well_formed(),
                forall|k: int| 0 <= k < i ==> v[k].id != id,
            decreases n - i,
        {
            assert(self.rows@[i as int]@ == v[i as int]);
            if self.rows[i].id == id {
                let found = self.rows[i].duplicate();
                proof {
                    let k = choose|k: int| 0 <= k < v.len() && v[k].id == id;
                    if k != i {
                        if k < i {
                            assert(v[k].id != v[i as int].id);
                        } else {
                            assert(v[i as int].id != v[k].id);
                        }
                    }
                }
                return Ok(Some(found));
            }
            i = i + 1;
        }
        Ok(None)
    }

    /// Removes the row with identifier `id`; nothing happens when there is none.
    pub fn delete_entry(&mut self, id: i64) -> (r: Result<(), StorageError>)
        requires
            old(self).well_formed(),
        ensures
            r is Ok,
            final(self).well_formed(),
            final(self).spec_next_id() == old(self).spec_next_id(),
            final(self)@ == old(self)@.filter(|e: EntryView| e.id != id),
    {
        self.remove_where(Doomed::WithId(id));
        assert((|e: EntryView| !doomed(Doomed::WithId(id), e)) =~= (|e: EntryView| e.id != id));
        Ok(())
    }

    /// Removes every row, or every row of one type, and tells how many went.
    pub fn clear_history(&mut self, content_type: Option<ContentType>) -> (r: Result<usize, StorageError>)
        requires
            old(self).well_formed(),
        ensures
            final(self).well_formed(),
            final(self).spec_next_id() == old(self).spec_next_id(),
            match content_type {
                Some(ct) => {
                    &&& final(self)@ == old(self)@.filter(|e: EntryView| e.content_type != ct)
                    &&& r == Ok::<usize, StorageError>(
                        old(self)@.filter(|e: EntryView| e.content_type == ct).len() as usize,
                    )
                },
                None => {
                    &&& final(self)@ == Seq::<EntryView>::empty()
                    &&& r == Ok::<usize, StorageError>(old(self)@.len() as usize)
                },
            },
    {
        let ghost v = self@;
        match content_type {
            Some(ct) => {
                let n = self.remove_where(Doomed::OfType(ct));
                assert((|e: EntryView| !doomed(Doomed::OfType(ct), e)) =~= (|e: EntryView|
                    e.content_type != ct));
                assert((|e: EntryView| doomed(Doomed::OfType(ct), e)) =~= (|e: EntryView|
                    e.content_type == ct));
                Ok(n)
            },
            None => {
                let n = self.remove_where(Doomed::All);
                proof {
                    lemma_filter_split_len(v, |e: EntryView| !doomed(Doomed::All, e), |e: EntryView| doomed(Doomed::All, e));
                    v.lemma_all_neg_filter_empty(|e: EntryView| !doomed(Doomed::All, e));
                }
                Ok(n)
            },
        }
    }

    /// Removes the rows created before `now - days * 86400` and tells how many
    /// went.
    pub fn cleanup_old_entries_at(&mut self, days: i64, now: i64) -> (r: Result<usize, StorageError>)
        requires
            old(self).well_formed(),
        ensures
            final(self).well_formed(),
            final(self).spec_next_id() == old(self).spec_next_id(),
            final(self)@ == created_since(old(self)@, retention_cutoff(days, now)),
            r == Ok::<usize, StorageError>(
                created_before(old(self)@, retention_cutoff(days, now)).len() as usize,
            ),
    {
        let span: i128 = (days as i128) * 86400;
        let cutoff: i128 = (now as i128) - span;
        let n = self.remove_where(Doomed::CreatedBefore(cutoff));
        assert((|e: EntryView| !doomed(Doomed::CreatedBefore(cutoff), e)) =~= (|e: EntryView|
            e.created_at >= retention_cutoff(days, now)));
        assert((|e: EntryView| doomed(Doomed::CreatedBefore(cutoff), e)) =~= (|e: EntryView|
            e.created_at < retention_cutoff(days, now)));
        Ok(n)
    }

    /// Removes the rows created more than `days` days ago, by the clock.
    pub fn cleanup_old_entries(&mut self, days: i64) -> (r: Result<usize, StorageError>)
        requires
            old(self).well_formed(),
        ensures
            final(self).well_formed(),
            final(self).spec_next_id() == old(self).spec_next_id(),
            exists|now: i64|
                final(self)@ == created_since(old(self)@, #[trigger] retention_cutoff(days, now))
                    && r == Ok::<usize, StorageError>(
                    created_before(old(self)@, retention_cutoff(days, now)).len() as usize,
                ),
    {
        let now = unix_now();
        self.cleanup_old_entries_at(days, now)
    }

    /// Keeps the `max` most recent rows and removes the rest.
    pub fn enforce_max_entries(&mut self, max: usize) -> (r: Result<(), StorageError>)
        requires
            old(self).well_formed(),
        ensures
            r is Ok,
            final(self).well_formed(),
            final(self).spec_next_id() == old(self).spec_next_id(),
            final(self)@ == first_n(old(self)@, max as int),
            final(self)@.len() == if old(self)@.len() > max { max as nat } else { old(self)@.len() },
            forall|k: int, d: int|
                0 <= k < final(self)@.len() && final(self)@.len() <= d < old(self)@.len()
                    ==> #[trigger] more_recent(final(self)@[k], #[trigger] old(self)@[d]),
    {
        let ghost v = self@;
        if self.rows.len() > max {
            self.rows.truncate(max);
            assert(self@ =~= v.take(max as int));
        }
        assert forall|k: int, d: int|
            0 <= k < self@.len() && self@.len() <= d < v.len() implies #[trigger] more_recent(
                self@[k],
                #[trigger] v[d],
            ) by {
            assert(self@[k] == v[k]);
        }
        Ok(())
    }

    /// Inserts an image entry created at `now`, with its encoded image and
    /// thumbnail.
    pub fn insert_image_at(&mut self, image: &[u8], thumbnail: &[u8], now: i64) -> (r: Result<
        i64,
        StorageError,
    >)
        requires
            old(self).well_formed(),
        ensures
            final(self).well_formed(),
            r is Err <==> old(self).spec_next_id() == i64::MAX || image@.len() > i64::MAX,
            r is Err ==> r->Err_0 == StorageError::IoFailure && final(self)@ == old(self)@
                && final(self).spec_next_id() == old(self).spec_next_id(),
            r is Ok ==> r->Ok_0 == old(self).spec_next_id() && final(self).spec_next_id()
                == r->Ok_0 + 1 && final(self)@ == insert_in_order(
                old(self)@,
                image_row(r->Ok_0, image@, thumbnail@, now),
            ),
    {
        let size = image.len();
        if self.next_id == i64::MAX || size as u64 > i64::MAX as u64 {
            return Err(StorageError::IoFailure);
        }
        let id = self.next_id;
        let entry = HistoryEntry {
            id,
            content_type: ContentType::Image,
            image_data: Some(vstd::slice::slice_to_vec(image)),
            thumbnail: Some(vstd::slice::slice_to_vec(thumbnail)),
            text_content: None,
            created_at: now,
            file_size: size as i64,
        };
        assert(entry@ == image_row(id, image@, thumbnail@, now));
        self.place(entry);
        Ok(id)
    }

    /// Inserts an image entry stamped with the current time.
    pub fn insert_image(&mut self, image: &[u8], thumbnail: &[u8]) -> (r: Result<i64, StorageError>)
        requires
            old(self).well_formed(),
        ensures
            final(self).well_formed(),
            r is Err <==> old(self).spec_next_id() == i64::MAX || image@.len() > i64::MAX,
            r is Err ==> r->Err_0 == StorageError::IoFailure && final(self)@ == old(self)@
                && final(self).spec_next_id() == old(self).spec_next_id(),
            r is Ok ==> r->Ok_0 == old(self).spec_next_id() && final(self).spec_next_id()
                == r->Ok_0 + 1 && exists|now: i64|
                final(self)@ == insert_in_order(
                    old(self)@,
                    #[trigger] image_row(r->Ok_0, image@, thumbnail@, now),
                ),
    {
        let now = unix_now();
        self.insert_image_at(image, thumbnail, now)
    }

    /// Inserts a text entry stamped with the current time.
    pub fn insert_text(&mut self, text: &str) -> (r: Result<i64, StorageError>)
        requires
            old(self).well_formed(),
        ensures
            final(self).well_formed(),
            r is Err <==> old(self).spec_next_id() == i64::MAX || vstd::utf8::encode_utf8(text@).len()
                > i64::MAX,
            r is Err ==> r->Err_0 == StorageError::IoFailure && final(self)@ == old(self)@
                && final(self).spec_next_id() == old(self).spec_next_id(),
            r is Ok ==> r->Ok_0 == old(self).spec_next_id() && final(self).spec_next_id()
                == r->Ok_0 + 1 && exists|now: i64|
                final(self)@ == insert_in_order(old(self)@, #[trigger] text_row(r->Ok_0, text@, now)),
    {
        let now = unix_now();
        self.insert_text_at(text, now)
    }

    /// Brings back a row kept elsewhere, such as a row read from disk.
    /// Rows come back in the order of their identifiers; a row whose payload
    /// does not match its type, or whose identifier is not fresh, is refused.
    pub fn restore_entry(&mut self, entry: HistoryEntry) -> (r: Result<(), StorageError>)
        requires
            old(self).well_formed(),
        ensures
            final(self).well_formed(),
            r is Err <==> !payload_matches_type(entry@) || entry.id < old(self).spec_next_id()
                || entry.id == i64::MAX,
            r is Err ==> r->Err_0 == StorageError::ConstraintViolation && final(self)@ == old(
                self,
            )@ && final(self).spec_next_id() == old(self).spec_next_id(),
            r is Ok ==> final(self)@ == insert_in_order(old(self)@, entry@)
                && final(self).spec_next_id() == entry.id + 1,
    {
        if !entry.has_valid_payload() || entry.id < self.next_id || entry.id == i64::MAX {
            return Err(StorageError::ConstraintViolation);
        }
        self.place(entry);
        Ok(())
    }

    /// Inserts a text entry created at `now`. Identical text already in the
    /// store makes no difference: every call that succeeds adds a row.
    pub fn insert_text_at(&mut self, text: &str, now: i64) -> (r: Result<i64, StorageError>)
        requires
            old(self).well_formed(),
        ensures
            final(self).well_formed(),
            r is Err <==> old(self).spec_next_id() == i64::MAX || vstd::utf8::encode_utf8(text@).len()
                > i64::MAX,
            r is Err ==> r->Err_0 == StorageError::IoFailure && final(self)@ == old(self)@
                && final(self).spec_next_id() == old(self).spec_next_id(),
            r is Ok ==> r->Ok_0 == old(self).spec_next_id() && final(self).spec_next_id()
                == r->Ok_0 + 1 && final(self)@ == insert_in_order(
                old(self)@,
                text_row(r->Ok_0, text@, now),
            ),
    {
        let size = text.as_bytes().len();
        if self.next_id == i64::MAX || size as u64 > i64::MAX as u64 {
            return Err(StorageError::IoFailure);
        }
        let id = self.next_id;
        let entry = HistoryEntry {
            id,
            content_type: ContentType::Text,
            image_data: None,
            thumbnail: None,
            text_content: Some(text.to_owned()),
            created_at: now,
            file_size: size as i64,
        };
        assert(entry@ == text_row(id, text@, now));
        self.place(entry);
        Ok(id)
    }
}

} // verus!
