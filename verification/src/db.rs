//! The destination of a run: one row per document, keyed by the document's
//! identifier, and the single watermark of the last complete run.
//!
//! [`Store`] holds both in memory and states the rule by which a fetched
//! document meets the row already stored for it. A relational store that is
//! written to with the same rule ends in the same rows.

use crate::models::{opt_instant, same_text, Document, ReaderResult};
use crate::timestamp::{Instant, Timestamp};
use vstd::prelude::*;

verus! {

/// The row that results where a fetched document meets the row stored under
/// its identifier. The identifier, the kind, the creation time, the parent
/// and the reader's address stay as stored; every other field is taken from
/// the fetched document.
pub open spec fn merged(stored: Document, fetched: Document) -> Document {
    Document {
        id: stored.id,
        category: stored.category,
        created_at: stored.created_at,
        parent_id: stored.parent_id,
        readwise_url: stored.readwise_url,
        ..fetched
    }
}

/// The row stored for a fetched document: the document itself where none was
/// stored under its identifier, and else the stored row merged with it.
pub open spec fn upserted(stored: Option<Document>, fetched: Document) -> Document {
    match stored {
        Some(row) => merged(row, fetched),
        None => fetched,
    }
}

/// The row a table holds under an identifier, if any.
pub open spec fn row_of(rows: Map<Seq<char>, Document>, id: Seq<char>) -> Option<Document> {
    if rows.contains_key(id) {
        Some(rows[id])
    } else {
        None
    }
}

/// The table after a document was saved to it.
pub open spec fn saved(rows: Map<Seq<char>, Document>, fetched: Document) -> Map<
    Seq<char>,
    Document,
> {
    rows.insert(fetched.id, upserted(row_of(rows, fetched.id), fetched))
}

/// Merges a fetched document into the row stored under its identifier.
pub fn merge(stored: ReaderResult, fetched: ReaderResult) -> (out: ReaderResult)
    ensures
        out@ == merged(stored@, fetched@),
{
    ReaderResult {
        id: stored.id,
        category: stored.category,
        created_at: stored.created_at,
        parent_id: stored.parent_id,
        readwise_url: stored.readwise_url,
        author: fetched.author,
        content: fetched.content,
        image_url: fetched.image_url,
        location: fetched.location,
        notes: fetched.notes,
        published_date: fetched.published_date,
        reading_progress: fetched.reading_progress,
        site_name: fetched.site_name,
        source: fetched.source,
        source_url: fetched.source_url,
        summary: fetched.summary,
        tags: fetched.tags,
        title: fetched.title,
        updated_at: fetched.updated_at,
        word_count: fetched.word_count,
    }
}

/// Saving a document twice leaves the table as saving it once does.
pub proof fn lemma_save_idempotent(rows: Map<Seq<char>, Document>, fetched: Document)
    ensures
        saved(saved(rows, fetched), fetched) == saved(rows, fetched),
{
    assert(saved(saved(rows, fetched), fetched) =~= saved(rows, fetched));
}

/// Saving a document touches the row under its identifier and no other.
pub proof fn lemma_save_leaves_others(
    rows: Map<Seq<char>, Document>,
    fetched: Document,
    id: Seq<char>,
)
    requires
        id != fetched.id,
    ensures
        row_of(saved(rows, fetched), id) == row_of(rows, id),
        row_of(saved(rows, fetched), fetched.id) == Some(
            upserted(row_of(rows, fetched.id), fetched),
        ),
{
}

/// Of two documents saved under one identifier the later one decides every
/// field that a fetch may change, the title among them, while the kind, the
/// creation time, the parent and the reader's address stay as the first save
/// left them.
pub proof fn lemma_last_write_wins(rows: Map<Seq<char>, Document>, first: Document, second: Document)
    requires
        first.id == second.id,
    ensures
        saved(saved(rows, first), second).contains_key(first.id),
        saved(saved(rows, first), second)[first.id] == merged(
            saved(rows, first)[first.id],
            second,
        ),
        saved(saved(rows, first), second)[first.id].title == second.title,
        saved(saved(rows, first), second)[first.id].created_at == saved(
            rows,
            first,
        )[first.id].created_at,
        saved(saved(rows, first), second)[first.id].category == saved(
            rows,
            first,
        )[first.id].category,
        !rows.contains_key(first.id) ==> saved(saved(rows, first), second)[first.id] == merged(
            first,
            second,
        ),
        saved(saved(rows, first), second).remove(first.id) == rows.remove(first.id),
{
    assert(saved(saved(rows, first), second).remove(first.id) =~= rows.remove(first.id));
}

/// Whether no two rows share an identifier.
spec fn distinct_ids(rows: Seq<ReaderResult>) -> bool {
    forall|i: int, j: int| 0 <= i < j < rows.len() ==> rows[i].id@ != rows[j].id@
}

/// Whether the row at `i` is stored under `id`.
spec fn holds(rows: Seq<ReaderResult>, id: Seq<char>, i: int) -> bool {
    0 <= i < rows.len() && rows[i].id@ == id
}

/// The table that a sequence of rows makes up.
spec fn table(rows: Seq<ReaderResult>) -> Map<Seq<char>, Document> {
    Map::new(
        |id: Seq<char>| exists|i: int| holds(rows, id, i),
        |id: Seq<char>| rows[choose|i: int| holds(rows, id, i)]@,
    )
}

/// In rows with distinct identifiers, the table holds each row under its own
/// identifier.
proof fn lemma_table_row(rows: Seq<ReaderResult>, i: int)
    requires
        distinct_ids(rows),
        0 <= i < rows.len(),
    ensures
        table(rows).contains_key(rows[i].id@),
        table(rows)[rows[i].id@] == rows[i]@,
{
    let id = rows[i].id@;
    assert(holds(rows, id, i));
    let k = choose|k: int| holds(rows, id, k);
    assert(k == i);
}

/// Replacing a row by one with the same identifier replaces its entry in
/// the table.
proof fn lemma_table_update(rows: Seq<ReaderResult>, i: int, row: ReaderResult)
    requires
        distinct_ids(rows),
        0 <= i < rows.len(),
        row.id@ == rows[i].id@,
    ensures
        distinct_ids(rows.update(i, row)),
        table(rows.update(i, row)) == table(rows).insert(row.id@, row@),
{
    let after = rows.update(i, row);
    assert(distinct_ids(after)) by {
        assert forall|a: int, b: int| 0 <= a < b < after.len() implies after[a].id@
            != after[b].id@ by {
            assert(after[a].id@ == rows[a].id@);
            assert(after[b].id@ == rows[b].id@);
        }
    }
    assert forall|id: Seq<char>| table(after).contains_key(id) <==> table(rows).insert(
        row.id@,
        row@,
    ).contains_key(id) by {
        if table(after).contains_key(id) {
            let k = choose|k: int| holds(after, id, k);
            assert(holds(rows, id, k));
        }
        if table(rows).contains_key(id) {
            let k = choose|k: int| holds(rows, id, k);
            assert(holds(after, id, k));
        }
        if id == row.id@ {
            assert(holds(after, id, i));
        }
    }
    assert forall|id: Seq<char>| table(after).contains_key(id) implies table(after)[id]
        == table(rows).insert(row.id@, row@)[id] by {
        let k = choose|k: int| holds(after, id, k);
        lemma_table_row(after, k);
        if k != i {
            assert(after[k] == rows[k]);
            lemma_table_row(rows, k);
        }
    }
    assert(table(after) =~= table(rows).insert(row.id@, row@));
}

/// Appending a row under an identifier that no row has adds its entry to
/// the table.
proof fn lemma_table_push(rows: Seq<ReaderResult>, row: ReaderResult)
    requires
        distinct_ids(rows),
        forall|i: int| 0 <= i < rows.len() ==> rows[i].id@ != row.id@,
    ensures
        distinct_ids(rows.push(row)),
        !table(rows).contains_key(row.id@),
        table(rows.push(row)) == table(rows).insert(row.id@, row@),
{
    let after = rows.push(row);
    let last = rows.len() as int;
    assert(distinct_ids(after));
    if table(rows).contains_key(row.id@) {
        let k = choose|k: int| holds(rows, row.id@, k);
        assert(false);
    }
    assert forall|id: Seq<char>| table(after).contains_key(id) <==> table(rows).insert(
        row.id@,
        row@,
    ).contains_key(id) by {
        if table(after).contains_key(id) {
            let k = choose|k: int| holds(after, id, k);
            if k != last {
                assert(holds(rows, id, k));
            }
        }
        if table(rows).contains_key(id) {
            let k = choose|k: int| holds(rows, id, k);
            assert(holds(after, id, k));
        }
        if id == row.id@ {
            assert(holds(after, id, last));
        }
    }
    assert forall|id: Seq<char>| table(after).contains_key(id) implies table(after)[id]
        == table(rows).insert(row.id@, row@)[id] by {
        let k = choose|k: int| holds(after, id, k);
        lemma_table_row(after, k);
        if k != last {
            assert(after[k] == rows[k]);
            lemma_table_row(rows, k);
        }
    }
    assert(table(after) =~= table(rows).insert(row.id@, row@));
}

/// The rows of the documents seen so far and the watermark of the last
/// complete run.
pub struct Store {
    rows: Vec<ReaderResult>,
    last_sync_at: Option<Timestamp>,
}

impl Store {
    #[verifier::type_invariant]
    spec fn well_formed(self) -> bool {
        distinct_ids(self.rows@)
    }

    /// The rows, each under the identifier of its document.
    pub closed spec fn rows(&self) -> Map<Seq<char>, Document> {
        table(self.rows@)
    }

    /// The watermark, absent until a run has completed.
    pub closed spec fn checkpoint(&self) -> Option<Instant> {
        opt_instant(self.last_sync_at)
    }

    /// A store without rows and without a watermark.
    pub fn new() -> (out: Store)
        ensures
            out.rows() == Map::<Seq<char>, Document>::empty(),
            out.checkpoint() is None,
    {
        let out = Store { rows: Vec::new(), last_sync_at: None };
        assert(out.rows() =~= Map::<Seq<char>, Document>::empty());
        out
    }

    /// The position of the row stored under `id`, if there is one.
    fn position(&self, id: &str) -> (out: Option<usize>)
        ensures
            match out {
                Some(i) => holds(self.rows@, id@, i as int),
                None => forall|i: int| 0 <= i < self.rows@.len() ==> self.rows@[i].id@ != id@,
            },
    {
        let mut i: usize = 0;
        while i < self.rows.len()
            invariant
                i <= self.rows@.len(),
                forall|j: int| 0 <= j < i ==> self.rows@[j].id@ != id@,
            decreases self.rows@.len() - i,
        {
            if same_text(self.rows[i].id.as_str(), id) {
                return Some(i);
            }
            i += 1;
        }
        None
    }

    /// The row stored under `id`, if there is one.
    pub fn get(&self, id: &str) -> (out: Option<&ReaderResult>)
        ensures
            out is Some <==> self.rows().contains_key(id@),
            out matches Some(row) ==> row@ == self.rows()[id@],
    {
        proof {
            use_type_invariant(self);
        }
        match self.position(id) {
            Some(i) => {
                proof {
                    lemma_table_row(self.rows@, i as int);
                }
                Some(&self.rows[i])
            },
            None => {
                proof {
                    if self.rows().contains_key(id@) {
                        let k = choose|k: int| holds(self.rows@, id@, k);
                        assert(false);
                    }
                }
                None
            },
        }
    }

    /// The number of rows.
    pub fn len(&self) -> (out: usize)
        ensures
            out == self.rows().dom().len(),
            self.rows().dom().finite(),
    {
        proof {
            use_type_invariant(self);
            lemma_table_size(self.rows@);
        }
        self.rows.len()
    }
}

/// Rows with distinct identifiers make up a table of as many entries.
proof fn lemma_table_size(rows: Seq<ReaderResult>)
    requires
        distinct_ids(rows),
    ensures
        table(rows).dom().finite(),
        table(rows).dom().len() == rows.len(),
    decreases rows.len(),
{
    if rows.len() == 0 {
        assert(table(rows).dom() =~= Set::<Seq<char>>::empty());
    } else {
        let front = rows.drop_last();
        let row = rows.last();
        assert(distinct_ids(front));
        lemma_table_size(front);
        lemma_table_push(front, row);
        assert(front.push(row) =~= rows);
    }
}

/// Saves one document: inserts it where no row is stored under its
/// identifier, and merges it into that row where one is. No other row and
/// not the watermark is touched.
pub fn save(store: &mut Store, result: ReaderResult)
    ensures
        final(store).rows() == saved(old(store).rows(), result@),
        final(store).checkpoint() == old(store).checkpoint(),
{
    proof {
        use_type_invariant(&*store);
    }
    let found = store.position(result.id.as_str());
    let ghost before = store.rows@;
    let mut rows: Vec<ReaderResult> = Vec::new();
    std::mem::swap(&mut store.rows, &mut rows);
    match found {
        Some(i) => {
            let stored = rows.remove(i);
            let row = merge(stored, result);
            rows.insert(i, row);
            proof {
                lemma_table_row(before, i as int);
                lemma_table_update(before, i as int, row);
                assert(rows@ =~= before.update(i as int, row));
            }
        },
        None => {
            proof {
                lemma_table_push(before, result);
            }
            rows.push(result);
        },
    }
    store.rows = rows;
}

/// Reads the watermark: absent until a run has completed.
pub fn load_checkpoint(store: &Store) -> (out: Option<Timestamp>)
    ensures
        opt_instant(out) == store.checkpoint(),
{
    store.last_sync_at
}

/// Writes the watermark, replacing whatever was stored. No row is touched.
pub fn save_checkpoint(store: &mut Store, ts: &Timestamp)
    ensures
        final(store).checkpoint() == Some(ts@),
        final(store).rows() == old(store).rows(),
{
    proof {
        use_type_invariant(&*store);
    }
    store.last_sync_at = Some(*ts);
}

} // verus!
