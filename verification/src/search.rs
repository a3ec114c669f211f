//! The search engine adapter: a fixed schema, document indexing with one
//! synchronous commit per add, and ranked top-k retrieval, all over a
//! tantivy inverted index.
//!
//! The index contents are modelled as a sequence of [`DocModel`] values,
//! named by the uninterpreted functions [`index_docs`] and [`searcher_docs`];
//! the trusted wrappers around tantivy state how each call moves or reads
//! that sequence, and everything else is verified against those contracts.

use tantivy::schema::{Value, FAST, STORED, STRING, TEXT};
use vstd::prelude::*;

verus! {

/// The unit of indexing and retrieval. `id` is caller-assigned and not
/// enforced unique: re-adding an id stores a duplicate entry, never an
/// update. `version` is present-or-absent; absent means the field is left
/// out of the index entry entirely.
#[derive(Debug)]
pub struct SearchableDocument {
    pub id: String,
    pub title: String,
    pub body: String,
    pub source: String,
    pub version: Option<String>,
}

/// The mathematical value of one document: its text fields as character
/// sequences.
pub struct DocModel {
    pub id: Seq<char>,
    pub title: Seq<char>,
    pub body: Seq<char>,
    pub source: Seq<char>,
    pub version: Option<Seq<char>>,
}

impl View for SearchableDocument {
    type V = DocModel;

    open spec fn view(&self) -> DocModel {
        DocModel {
            id: self.id@,
            title: self.title@,
            body: self.body@,
            source: self.source@,
            version: match self.version {
                Some(v) => Some(v@),
                None => None,
            },
        }
    }
}

impl Clone for SearchableDocument {
    /// A clone carries exactly the same field values.
    fn clone(&self) -> (r: Self)
        ensures
            r@ == self@,
    {
        SearchableDocument {
            id: self.id.clone(),
            title: self.title.clone(),
            body: self.body.clone(),
            source: self.source.clone(),
            version: match &self.version {
                Some(v) => Some(v.clone()),
                None => None,
            },
        }
    }
}

/// Why a document could not be added.
#[derive(Debug)]
pub enum IndexError {
    /// The writer memory budget was below [`MIN_WRITER_BUDGET`].
    BudgetTooSmall,
    /// The engine failed to write or commit; the cause as text.
    WriteFailed(String),
}

/// Why a query could not be answered.
#[derive(Debug)]
pub enum QueryError {
    /// The query text does not follow the engine's query grammar.
    ParseError(String),
    /// The engine failed while reading the index; the cause as text.
    SearchFailed(String),
}

/// Why the index store could not be opened or created.
#[derive(Debug)]
pub struct StoreInitError {
    pub message: String,
}

/// The cause text of an indexing error.
pub open spec fn index_error_text(e: IndexError) -> Seq<char> {
    match e {
        IndexError::BudgetTooSmall => "writer memory budget below the engine minimum"@,
        IndexError::WriteFailed(c) => c@,
    }
}

/// The cause text of a query error.
pub open spec fn query_error_text(e: QueryError) -> Seq<char> {
    match e {
        QueryError::ParseError(c) => c@,
        QueryError::SearchFailed(c) => c@,
    }
}

impl IndexError {
    /// The cause as human-readable text.
    pub fn describe(&self) -> (r: String)
        ensures
            r@ == index_error_text(*self),
    {
        match self {
            IndexError::BudgetTooSmall => String::from_str(
                "writer memory budget below the engine minimum",
            ),
            IndexError::WriteFailed(c) => c.clone(),
        }
    }
}

impl QueryError {
    /// The cause as human-readable text.
    pub fn describe(&self) -> (r: String)
        ensures
            r@ == query_error_text(*self),
    {
        match self {
            QueryError::ParseError(c) => c.clone(),
            QueryError::SearchFailed(c) => c.clone(),
        }
    }
}

/// The smallest writer memory budget (bytes) the engine accepts: tantivy's
/// minimum memory arena for a single-threaded writer.
pub const MIN_WRITER_BUDGET: usize = 15_000_000;

/// The writer memory budget (bytes) the RPC layer passes on every add.
pub const RPC_WRITER_BUDGET: usize = 50_000_000;

#[verifier::external_type_specification]
#[verifier::external_body]
pub struct ExIndex(tantivy::Index);

#[verifier::external_type_specification]
#[verifier::external_body]
pub struct ExSearcher(tantivy::Searcher);

#[verifier::external_type_specification]
#[verifier::external_body]
pub struct ExTantivyDocument(tantivy::TantivyDocument);

#[verifier::external_type_specification]
#[verifier::external_body]
pub struct ExSchema(tantivy::schema::Schema);

/// The committed documents of an index, in insertion order.
pub uninterp spec fn index_docs(i: tantivy::Index) -> Seq<DocModel>;

/// The committed documents a searcher snapshot observes, in insertion order.
pub uninterp spec fn searcher_docs(s: tantivy::Searcher) -> Seq<DocModel>;

/// The document a retrieved stored entry holds: its first stored text value
/// per field, an absent mandatory field read as the empty string, an absent
/// `version` read as `None`.
pub uninterp spec fn stored_doc(d: tantivy::TantivyDocument) -> DocModel;

/// Whether the engine's query grammar accepts `q` over the fixed schema's
/// two full-text fields.
pub uninterp spec fn query_parses(q: Seq<char>) -> bool;

/// Whether the query `q`, parsed over the two full-text fields, matches a
/// document with the given stored field values: a function of the query
/// text and the document alone, since every index of this library carries
/// the one fixed schema with its default tokenizers.
pub uninterp spec fn query_matches(q: Seq<char>, d: DocModel) -> bool;

/// How many of the committed documents match the query.
pub open spec fn matching_count(q: Seq<char>, docs: Seq<DocModel>) -> nat
    decreases docs.len(),
{
    if docs.len() == 0 {
        0
    } else {
        matching_count(q, docs.drop_last()) + (if query_matches(q, docs.last()) {
            1nat
        } else {
            0nat
        })
    }
}

/// The size of a top-k answer: every match, capped at the limit.
pub open spec fn capped_matches(q: Seq<char>, docs: Seq<DocModel>, limit: usize) -> nat {
    if matching_count(q, docs) < limit as nat {
        matching_count(q, docs)
    } else {
        limit as nat
    }
}

/// Whether an answer `out` misses no match: every committed document the
/// query matches appears in it.
pub open spec fn search_complete(q: Seq<char>, all: Seq<DocModel>, out: Seq<DocModel>) -> bool {
    forall|d: DocModel| all.contains(d) && #[trigger] query_matches(q, d) ==> out.contains(d)
}

/// The raw stored text values of one retrieved document, field by field,
/// before the degrade-to-default policy is applied.
pub struct RawHit {
    pub id: Option<String>,
    pub title: Option<String>,
    pub body: Option<String>,
    pub source: Option<String>,
    pub version: Option<String>,
}

/// The document a raw hit stands for: mandatory fields degrade to the empty
/// string when absent in storage, `version` stays absent.
pub open spec fn hit_doc(h: RawHit) -> DocModel {
    DocModel {
        id: match h.id {
            Some(s) => s@,
            None => Seq::empty(),
        },
        title: match h.title {
            Some(s) => s@,
            None => Seq::empty(),
        },
        body: match h.body {
            Some(s) => s@,
            None => Seq::empty(),
        },
        source: match h.source {
            Some(s) => s@,
            None => Seq::empty(),
        },
        version: match h.version {
            Some(s) => Some(s@),
            None => None,
        },
    }
}

/// Owns the physical inverted index; opened once and shared for the
/// service's lifetime.
pub struct SearchService {
    pub index: tantivy::Index,
}

impl SearchService {
    /// Relies on `tantivy::schema::SchemaBuilder`, `MmapDirectory::open` and
    /// `Index::open_or_create`: opens an existing compatible index under
    /// `index_path` (the directory must exist) or initialises a new empty
    /// one, against the fixed five-field schema.
    #[verifier::external_body]
    pub fn new(index_path: &str) -> (r: Result<SearchService, StoreInitError>) {
        let directory = tantivy::directory::MmapDirectory::open(std::path::Path::new(index_path))
            .map_err(|e| StoreInitError { message: e.to_string() })?;
        let index = tantivy::Index::open_or_create(directory, Self::fixed_schema())
            .map_err(|e| StoreInitError { message: e.to_string() })?;
        Ok(SearchService { index })
    }

    /// Relies on `tantivy::schema::SchemaBuilder`: the fixed five-field
    /// schema, `id`/`source`/`version` as stored exact-match tokens and
    /// `title`/`body` as stored full-text fields.
    #[verifier::external_body]
    fn fixed_schema() -> tantivy::schema::Schema {
        let mut b = tantivy::schema::Schema::builder();
        b.add_text_field("id", STRING | STORED);
        b.add_text_field("title", TEXT | STORED);
        b.add_text_field("body", TEXT | STORED);
        b.add_text_field("source", STRING | STORED | FAST);
        b.add_text_field("version", STRING | STORED | FAST);
        b.build()
    }

    /// Relies on `tantivy::schema::SchemaBuilder` and `Index::create_in_ram`:
    /// a freshly created in-memory index holds no documents.
    #[verifier::external_body]
    pub fn new_in_ram() -> (r: SearchService)
        ensures
            index_docs(r.index) == Seq::<DocModel>::empty(),
    {
        SearchService { index: tantivy::Index::create_in_ram(Self::fixed_schema()) }
    }

    /// Relies on `Index::schema`, `Schema::get_field` and
    /// `TantivyDocument::add_text`: builds the index entry for `d` against
    /// this index's own schema, every mandatory field copied verbatim and
    /// `version` included only when present, so the entry reads back as
    /// exactly `d`.
    #[verifier::external_body]
    fn entry_of(&self, d: &SearchableDocument) -> (r: Result<tantivy::TantivyDocument, String>)
        ensures
            r is Ok ==> stored_doc(r->Ok_0) == d@,
    {
        let schema = self.index.schema();
        let field = |n: &str| schema.get_field(n).map_err(|e| e.to_string());
        let mut doc = tantivy::TantivyDocument::default();
        doc.add_text(field("id")?, &d.id);
        doc.add_text(field("title")?, &d.title);
        doc.add_text(field("body")?, &d.body);
        doc.add_text(field("source")?, &d.source);
        if let Some(v) = &d.version {
            doc.add_text(field("version")?, v);
        }
        Ok(doc)
    }

    /// Relies on `Index::writer_with_num_threads` (one worker thread, so the
    /// budget is the per-thread arena), `IndexWriter::add_document` and
    /// `IndexWriter::commit`: a successful commit appends exactly the entry
    /// to the committed contents; a failed writer, add or commit leaves the
    /// committed contents unchanged.
    #[verifier::external_body]
    fn commit_entry(&mut self, entry: tantivy::TantivyDocument, budget: usize) -> (r: Result<
        (),
        String,
    >)
        requires
            MIN_WRITER_BUDGET <= budget,
        ensures
            r is Ok ==> index_docs(final(self).index) == index_docs(old(self).index).push(
                stored_doc(entry),
            ),
            r is Err ==> index_docs(final(self).index) == index_docs(old(self).index),
    {
        let mut w: tantivy::IndexWriter = self
            .index
            .writer_with_num_threads(1, budget)
            .map_err(|e| e.to_string())?;
        w.add_document(entry).map_err(|e| e.to_string())?;
        w.commit().map_err(|e| e.to_string())?;
        Ok(())
    }

    /// Relies on `Index::reader_builder` with `ReloadPolicy::Manual` and
    /// `IndexReader::searcher`: a fresh reader observes exactly the commits
    /// completed before it was built.
    #[verifier::external_body]
    fn fresh_searcher(&self) -> (r: Result<tantivy::Searcher, String>)
        ensures
            r is Ok ==> searcher_docs(r->Ok_0) == index_docs(self.index),
    {
        let reader: tantivy::IndexReader = self
            .index
            .reader_builder()
            .reload_policy(tantivy::ReloadPolicy::Manual)
            .try_into()
            .map_err(|e: tantivy::TantivyError| e.to_string())?;
        Ok(reader.searcher())
    }

    /// Relies on `QueryParser::for_index` over the two full-text fields,
    /// `QueryParser::parse_query`, `Searcher::search` with
    /// `TopDocs::with_limit` and `Searcher::doc`: a parse failure is
    /// reported as such, and a successful search hands back, from the
    /// searcher's snapshot, exactly the matching stored documents capped at
    /// `limit` — the top-k collector visits every match and keeps up to
    /// `limit` of them, so when the matches fit within the limit all of
    /// them return. Which matches are kept beyond the cap follows the
    /// engine's relevance scores and stays open here.
    #[verifier::external_body]
    fn top_docs(
        &self,
        searcher: &tantivy::Searcher,
        query_str: &str,
        limit: usize,
    ) -> (r: Result<Vec<tantivy::TantivyDocument>, QueryError>)
        requires
            1 <= limit,
        ensures
            (r matches Err(QueryError::ParseError(_))) ==> !query_parses(query_str@),
            r is Ok ==> query_parses(query_str@),
            r is Ok ==> r->Ok_0@.len() == capped_matches(
                query_str@,
                searcher_docs(*searcher),
                limit,
            ),
            r is Ok ==> forall|j: int|
                0 <= j < r->Ok_0@.len() ==> searcher_docs(*searcher).contains(
                    #[trigger] stored_doc(r->Ok_0@[j]),
                ) && query_matches(query_str@, stored_doc(r->Ok_0@[j])),
            r is Ok && matching_count(query_str@, searcher_docs(*searcher)) <= limit as nat
                ==> search_complete(
                query_str@,
                searcher_docs(*searcher),
                r->Ok_0@.map_values(|t: tantivy::TantivyDocument| stored_doc(t)),
            ),
    {
        let schema = self.index.schema();
        let err = |e: tantivy::TantivyError| QueryError::SearchFailed(e.to_string());
        let fields = vec![schema.get_field("title").map_err(err)?, schema.get_field("body").map_err(err)?];
        let parser = tantivy::query::QueryParser::for_index(&self.index, fields);
        let query = parser.parse_query(query_str).map_err(|e| QueryError::ParseError(e.to_string()))?;
        let top = searcher
            .search(&query, &tantivy::collector::TopDocs::with_limit(limit).order_by_score())
            .map_err(err)?;
        let mut out: Vec<tantivy::TantivyDocument> = Vec::new();
        for (_score, addr) in top {
            out.push(searcher.doc(addr).map_err(err)?);
        }
        Ok(out)
    }

    /// Relies on `Schema::get_field`, `TantivyDocument::get_first` and
    /// `Value::as_str`: reads back the first stored text value of each
    /// schema field of one retrieved document.
    #[verifier::external_body]
    fn hit_of_doc(&self, d: &tantivy::TantivyDocument) -> (h: RawHit)
        ensures
            hit_doc(h) == stored_doc(*d),
    {
        let schema = self.index.schema();
        let text = |name: &str| -> Option<String> {
            let field = schema.get_field(name).ok()?;
            d.get_first(field).and_then(|v| v.as_str()).map(String::from)
        };
        RawHit {
            id: text("id"),
            title: text("title"),
            body: text("body"),
            source: text("source"),
            version: text("version"),
        }
    }

    /// Builds the index entry for `doc_to_add` and commits it synchronously:
    /// on success the document is durably appended to the index contents,
    /// visible to every reader constructed afterwards. A budget below the
    /// engine's minimum is rejected up front; any engine failure surfaces as
    /// `WriteFailed` and leaves the committed contents unchanged.
    pub fn add_document(
        &mut self,
        doc_to_add: SearchableDocument,
        writer_mem_budget: usize,
    ) -> (r: Result<(), IndexError>)
        ensures
            writer_mem_budget < MIN_WRITER_BUDGET ==> (r matches Err(IndexError::BudgetTooSmall)),
            writer_mem_budget >= MIN_WRITER_BUDGET ==> !(r matches Err(
                IndexError::BudgetTooSmall,
            )),
            r is Ok ==> index_docs(final(self).index) == index_docs(old(self).index).push(
                doc_to_add@,
            ),
            r is Err ==> index_docs(final(self).index) == index_docs(old(self).index),
    {
        if writer_mem_budget < MIN_WRITER_BUDGET {
            return Err(IndexError::BudgetTooSmall);
        }
        let entry = match self.entry_of(&doc_to_add) {
            Ok(e) => e,
            Err(cause) => {
                return Err(IndexError::WriteFailed(cause));
            },
        };
        match self.commit_entry(entry, writer_mem_budget) {
            Ok(()) => Ok(()),
            Err(cause) => Err(IndexError::WriteFailed(cause)),
        }
    }

    /// Materialises one raw hit back into a typed document, degrading an
    /// absent mandatory field to the empty string and an absent `version`
    /// to `None`, so a single malformed stored entry never aborts retrieval.
    fn rehydrate(h: RawHit) -> (d: SearchableDocument)
        ensures
            d@ == hit_doc(h),
    {
        let RawHit { id, title, body, source, version } = h;
        SearchableDocument {
            id: match id {
                Some(s) => s,
                None => String::new(),
            },
            title: match title {
                Some(s) => s,
                None => String::new(),
            },
            body: match body {
                Some(s) => s,
                None => String::new(),
            },
            source: match source {
                Some(s) => s,
                None => String::new(),
            },
            version,
        }
    }

    /// Parses `query_str` against the two full-text fields and runs ranked
    /// top-k retrieval over a fresh reader of the current index generation.
    /// A successful search returns exactly the committed documents matching
    /// the query, capped at `limit`: each result is a matching element of
    /// the contents, the count is every match capped at the limit, and when
    /// the matches fit within the limit each of them is returned (beyond
    /// the cap, which matches return follows the engine's relevance
    /// scores). A limit of zero asks for nothing and gets an empty list; a
    /// query the grammar rejects fails with `ParseError` rather than
    /// degrading to a different query, and a query that does not parse
    /// never succeeds; on an empty index a successful search returns the
    /// empty list.
    pub fn search_documents(&self, query_str: &str, limit: usize) -> (r: Result<
        Vec<SearchableDocument>,
        QueryError,
    >)
        ensures
            limit == 0 ==> r is Ok,
            r is Ok ==> r->Ok_0@.len() <= limit,
            r is Ok ==> r->Ok_0@.len() == capped_matches(query_str@, index_docs(self.index), limit),
            r is Ok ==> forall|j: int|
                0 <= j < r->Ok_0@.len() ==> index_docs(self.index).contains(#[trigger] r->Ok_0@[j]@)
                    && query_matches(query_str@, r->Ok_0@[j]@),
            r is Ok && 1 <= limit && matching_count(query_str@, index_docs(self.index))
                <= limit as nat ==> search_complete(
                query_str@,
                index_docs(self.index),
                r->Ok_0@.map_values(|x: SearchableDocument| x@),
            ),
            (r matches Err(QueryError::ParseError(_))) ==> !query_parses(query_str@),
            !query_parses(query_str@) && limit >= 1 ==> r is Err,
            r is Ok && index_docs(self.index).len() == 0 ==> r->Ok_0@.len() == 0,
    {
        if limit == 0 {
            return Ok(Vec::new());
        }
        let searcher = match self.fresh_searcher() {
            Ok(s) => s,
            Err(cause) => {
                return Err(QueryError::SearchFailed(cause));
            },
        };
        let docs = match self.top_docs(&searcher, query_str, limit) {
            Ok(d) => d,
            Err(e) => {
                return Err(e);
            },
        };
        let mut results: Vec<SearchableDocument> = Vec::new();
        let n = docs.len();
        let mut i: usize = 0;
        while i < n
            invariant
                i <= n,
                n == docs@.len(),
                results@.len() == i,
                forall|j: int| 0 <= j < i ==> #[trigger] results@[j]@ == stored_doc(docs@[j]),
            decreases n - i,
        {
            let hit = self.hit_of_doc(&docs[i]);
            results.push(Self::rehydrate(hit));
            i = i + 1;
        }
        proof {
            assert forall|j: int| 0 <= j < results@.len() implies index_docs(self.index).contains(
                #[trigger] results@[j]@,
            ) && query_matches(query_str@, results@[j]@) by {
                assert(results@[j]@ == stored_doc(docs@[j]));
            }
            assert(results@.map_values(|x: SearchableDocument| x@) =~= docs@.map_values(
                |t: tantivy::TantivyDocument| stored_doc(t),
            ));
            if index_docs(self.index).len() == 0 && results@.len() > 0 {
                assert(index_docs(self.index).contains(results@[0]@));
            }
        }
        Ok(results)
    }
}

/// A document just added is an element of the new contents: an add followed
/// by a search over a reader refreshed after the commit draws from a
/// sequence that holds the document.
pub proof fn lemma_added_doc_is_contained(docs: Seq<DocModel>, d: DocModel)
    ensures
        docs.push(d).contains(d),
{
    assert(docs.push(d)[docs.len() as int] == d);
}

/// A document added without a version is held without one: the appended
/// entry's `version` is `None`, never an empty string standing in for it.
pub proof fn lemma_version_absence_kept(docs: Seq<DocModel>, d: DocModel)
    requires
        d.version is None,
    ensures
        docs.push(d).last().version is None,
{
}

/// A version left absent stays absent through retrieval: when the only
/// committed document a query matches carries no version, every document a
/// successful search returns carries none — never an empty string standing
/// in for it.
pub proof fn lemma_version_absent_in_results(
    q: Seq<char>,
    all: Seq<DocModel>,
    out: Seq<DocModel>,
    d: DocModel,
)
    requires
        d.version is None,
        forall|e: DocModel| all.contains(e) && #[trigger] query_matches(q, e) ==> e == d,
        forall|j: int|
            0 <= j < out.len() ==> all.contains(#[trigger] out[j]) && query_matches(q, out[j]),
    ensures
        forall|j: int| 0 <= j < out.len() ==> (#[trigger] out[j]).version is None,
{
}

/// Top-k sizing: with at least `limit` matching documents committed, a
/// successful search returns exactly `limit` results; with fewer, it
/// returns exactly as many as match.
pub proof fn lemma_search_fill(q: Seq<char>, docs: Seq<DocModel>, limit: usize)
    ensures
        matching_count(q, docs) >= limit as nat ==> capped_matches(q, docs, limit) == limit as nat,
        matching_count(q, docs) < limit as nat ==> capped_matches(q, docs, limit)
            == matching_count(q, docs),
{
}

/// Adding two documents with the same id keeps both entries: the index
/// stores duplicates, it never replaces.
pub proof fn lemma_duplicate_ids_both_kept(docs: Seq<DocModel>, d1: DocModel, d2: DocModel)
    requires
        d1.id == d2.id,
    ensures
        docs.push(d1).push(d2).contains(d1),
        docs.push(d1).push(d2).contains(d2),
{
    assert(docs.push(d1).push(d2)[docs.len() as int] == d1);
    assert(docs.push(d1).push(d2)[docs.len() as int + 1] == d2);
}

} // verus!
