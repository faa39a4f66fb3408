//! Knowledge retrieval records, provenance, and fixed-capacity stores.
//!
//! A store holds at most `N` valid records with distinct identifiers. A query
//! returns, in store order, the first records it admits, ranked from one,
//! and says whether more admitted records were left out.

use vstd::prelude::*;

use crate::text::same_text;
use crate::{CognitionError, CognitionResult, DataClass};

verus! {

/// Maximum namespace length.
pub const MAX_NAMESPACE_LEN: usize = 96;

/// Maximum record key length.
pub const MAX_RECORD_KEY_LEN: usize = 128;

/// Maximum record text length for this skeleton.
pub const MAX_RECORD_TEXT_LEN: usize = 2048;

/// Maximum provenance source length.
pub const MAX_PROVENANCE_SOURCE_LEN: usize = 160;

/// Maximum retrieval hits returned by one query.
pub const MAX_RETRIEVAL_HITS: usize = 16;

/// Knowledge record type.
#[derive(Clone, Copy, Debug, PartialEq, Eq, Structural)]
pub enum KnowledgeRecordKind {
    /// Typed fact suitable for deterministic lookup.
    Fact,
    /// Semantic text chunk suitable for vector-like retrieval.
    SemanticChunk,
    /// System instruction or policy note.
    Instruction,
    /// Corpus-derived example.
    CorpusExample,
}

impl KnowledgeRecordKind {
    /// Stable numeric code of each variant.
    #[verifier::allow_in_spec]
    pub fn code(self) -> u8
        returns
            match self {
                KnowledgeRecordKind::Fact => 1u8,
                KnowledgeRecordKind::SemanticChunk => 2u8,
                KnowledgeRecordKind::Instruction => 3u8,
                KnowledgeRecordKind::CorpusExample => 4u8,
            },
    {
        match self {
            KnowledgeRecordKind::Fact => 1,
            KnowledgeRecordKind::SemanticChunk => 2,
            KnowledgeRecordKind::Instruction => 3,
            KnowledgeRecordKind::CorpusExample => 4,
        }
    }

    /// The stable label of each kind, as characters.
    pub open spec fn label_text(self) -> Seq<char> {
        match self {
            KnowledgeRecordKind::Fact => "fact"@,
            KnowledgeRecordKind::SemanticChunk => "semantic_chunk"@,
            KnowledgeRecordKind::Instruction => "instruction"@,
            KnowledgeRecordKind::CorpusExample => "corpus_example"@,
        }
    }

    /// Stable record kind label.
    pub fn label(self) -> (label: &'static str)
        ensures
            label@ == self.label_text(),
    {
        match self {
            KnowledgeRecordKind::Fact => "fact",
            KnowledgeRecordKind::SemanticChunk => "semantic_chunk",
            KnowledgeRecordKind::Instruction => "instruction",
            KnowledgeRecordKind::CorpusExample => "corpus_example",
        }
    }
}

/// Source provenance for a knowledge record.
#[derive(Clone, Copy, Debug, PartialEq, Eq)]
pub struct Provenance<'a> {
    /// Human-readable source identifier.
    pub source: &'a str,
    /// License or policy label.
    pub license: &'a str,
    /// Stable content digest when available.
    pub digest: [u8; 32],
    /// Ingest sequence or snapshot generation.
    pub generation: u64,
}

impl<'a> Provenance<'a> {
    /// Creates provenance metadata at generation zero.
    pub fn new(source: &'a str, license: &'a str, digest: [u8; 32]) -> (provenance: Self)
        ensures
            provenance == (Provenance { source, license, digest, generation: 0 }),
    {
        Provenance { source, license, digest, generation: 0 }
    }

    /// Sets ingest generation.
    pub fn with_generation(self, generation: u64) -> (provenance: Self)
        ensures
            provenance == (Provenance { generation, ..self }),
    {
        let mut provenance = self;
        provenance.generation = generation;
        provenance
    }

    /// Validates provenance metadata.
    #[verifier::allow_in_spec]
    pub fn validate(self) -> CognitionResult<()>
        returns
            if self.source@.len() == 0 || self.license@.len() == 0 {
                Err(CognitionError::MissingField)
            } else if self.source.len() > MAX_PROVENANCE_SOURCE_LEN
                || self.license.len() > MAX_PROVENANCE_SOURCE_LEN {
                Err(CognitionError::FieldTooLong)
            } else {
                Ok(())
            },
    {
        if self.source.is_empty() || self.license.is_empty() {
            return Err(CognitionError::MissingField);
        }
        if self.source.len() > MAX_PROVENANCE_SOURCE_LEN || self.license.len() > MAX_PROVENANCE_SOURCE_LEN {
            return Err(CognitionError::FieldTooLong);
        }
        Ok(())
    }
}

/// A knowledge record visible to retrieval.
#[derive(Clone, Copy, Debug, PartialEq, Eq)]
pub struct KnowledgeRecord<'a> {
    /// Stable record identifier.
    pub id: u64,
    /// Namespace or memory scope.
    pub namespace: &'a str,
    /// Stable lookup key.
    pub key: &'a str,
    /// Record text or redacted summary.
    pub text: &'a str,
    /// Record kind.
    pub kind: KnowledgeRecordKind,
    /// Source provenance.
    pub provenance: Provenance<'a>,
    /// Confidence in basis points, 0..=10000.
    pub confidence_bps: u16,
    /// Embedding/vector dimensions when relevant.
    pub vector_dimensions: u16,
    /// Data sensitivity class.
    pub data_class: DataClass,
}

impl<'a> KnowledgeRecord<'a> {
    /// Creates a knowledge record with full confidence, no vector dimensions
    /// and operational data.
    pub fn new(
        id: u64,
        namespace: &'a str,
        key: &'a str,
        text: &'a str,
        kind: KnowledgeRecordKind,
        provenance: Provenance<'a>,
    ) -> (record: Self)
        ensures
            record == (KnowledgeRecord {
                id,
                namespace,
                key,
                text,
                kind,
                provenance,
                confidence_bps: 10_000,
                vector_dimensions: 0,
                data_class: DataClass::Operational,
            }),
    {
        KnowledgeRecord {
            id,
            namespace,
            key,
            text,
            kind,
            provenance,
            confidence_bps: 10_000,
            vector_dimensions: 0,
            data_class: DataClass::Operational,
        }
    }

    /// Sets confidence in basis points.
    pub fn with_confidence(self, confidence_bps: u16) -> (record: Self)
        ensures
            record == (KnowledgeRecord { confidence_bps, ..self }),
    {
        let mut record = self;
        record.confidence_bps = confidence_bps;
        record
    }

    /// Sets vector dimensions.
    pub fn with_vector_dimensions(self, vector_dimensions: u16) -> (record: Self)
        ensures
            record == (KnowledgeRecord { vector_dimensions, ..self }),
    {
        let mut record = self;
        record.vector_dimensions = vector_dimensions;
        record
    }

    /// Sets data classification.
    pub fn with_data_class(self, data_class: DataClass) -> (record: Self)
        ensures
            record == (KnowledgeRecord { data_class, ..self }),
    {
        let mut record = self;
        record.data_class = data_class;
        record
    }

    /// Validates required fields, limits, confidence, and provenance.
    #[verifier::allow_in_spec]
    pub fn validate(self) -> CognitionResult<()>
        returns
            if self.id == 0 || self.namespace@.len() == 0 || self.key@.len() == 0
                || self.text@.len() == 0 {
                Err(CognitionError::MissingField)
            } else if self.namespace.len() > MAX_NAMESPACE_LEN || self.key.len() > MAX_RECORD_KEY_LEN
                || self.text.len() > MAX_RECORD_TEXT_LEN {
                Err(CognitionError::FieldTooLong)
            } else if self.confidence_bps > 10_000 {
                Err(CognitionError::InvalidRetrieval)
            } else {
                self.provenance.validate()
            },
    {
        if self.id == 0 || self.namespace.is_empty() || self.key.is_empty() || self.text.is_empty() {
            return Err(CognitionError::MissingField);
        }
        if self.namespace.len() > MAX_NAMESPACE_LEN || self.key.len() > MAX_RECORD_KEY_LEN
            || self.text.len() > MAX_RECORD_TEXT_LEN {
            return Err(CognitionError::FieldTooLong);
        }
        if self.confidence_bps > 10_000 {
            return Err(CognitionError::InvalidRetrieval);
        }
        self.provenance.validate()
    }
}

/// Retrieval query over knowledge records.
#[derive(Clone, Copy, Debug, PartialEq, Eq)]
pub struct RetrievalQuery<'a> {
    /// Namespace or memory scope.
    pub namespace: &'a str,
    /// Query text or lookup key.
    pub query: &'a str,
    /// Maximum number of returned hits.
    pub top_k: usize,
    /// Minimum confidence in basis points.
    pub min_confidence_bps: u16,
    /// Highest data class allowed in returned records.
    pub max_data_class: DataClass,
    /// Include semantic chunks.
    pub include_semantic: bool,
    /// Include typed facts.
    pub include_facts: bool,
}

impl<'a> RetrievalQuery<'a> {
    /// Creates a retrieval query with safe defaults: four hits, no minimum
    /// confidence, operational data at most, facts and semantic records.
    pub fn new(namespace: &'a str, query: &'a str) -> (q: Self)
        ensures
            q == (RetrievalQuery {
                namespace,
                query,
                top_k: 4,
                min_confidence_bps: 0,
                max_data_class: DataClass::Operational,
                include_semantic: true,
                include_facts: true,
            }),
    {
        RetrievalQuery {
            namespace,
            query,
            top_k: 4,
            min_confidence_bps: 0,
            max_data_class: DataClass::Operational,
            include_semantic: true,
            include_facts: true,
        }
    }

    /// Sets the maximum hit count.
    pub fn with_top_k(self, top_k: usize) -> (q: Self)
        ensures
            q == (RetrievalQuery { top_k, ..self }),
    {
        let mut q = self;
        q.top_k = top_k;
        q
    }

    /// Sets minimum confidence.
    pub fn with_min_confidence(self, min_confidence_bps: u16) -> (q: Self)
        ensures
            q == (RetrievalQuery { min_confidence_bps, ..self }),
    {
        let mut q = self;
        q.min_confidence_bps = min_confidence_bps;
        q
    }

    /// Sets maximum returned data class.
    pub fn with_max_data_class(self, max_data_class: DataClass) -> (q: Self)
        ensures
            q == (RetrievalQuery { max_data_class, ..self }),
    {
        let mut q = self;
        q.max_data_class = max_data_class;
        q
    }

    /// Validates query limits and fields.
    #[verifier::allow_in_spec]
    pub fn validate(self) -> CognitionResult<()>
        returns
            if self.namespace@.len() == 0 || self.query@.len() == 0 {
                Err(CognitionError::MissingField)
            } else if self.namespace.len() > MAX_NAMESPACE_LEN || self.query.len() > MAX_RECORD_TEXT_LEN {
                Err(CognitionError::FieldTooLong)
            } else if self.top_k == 0 || self.top_k > MAX_RETRIEVAL_HITS || self.min_confidence_bps > 10_000 {
                Err(CognitionError::InvalidRetrieval)
            } else {
                Ok(())
            },
    {
        if self.namespace.is_empty() || self.query.is_empty() {
            return Err(CognitionError::MissingField);
        }
        if self.namespace.len() > MAX_NAMESPACE_LEN || self.query.len() > MAX_RECORD_TEXT_LEN {
            return Err(CognitionError::FieldTooLong);
        }
        if self.top_k == 0 || self.top_k > MAX_RETRIEVAL_HITS || self.min_confidence_bps > 10_000 {
            return Err(CognitionError::InvalidRetrieval);
        }
        Ok(())
    }
}

/// One retrieval hit with provenance and confidence.
#[derive(Clone, Copy, Debug, PartialEq, Eq)]
pub struct RetrievalHit<'a> {
    /// Retrieved record.
    pub record: KnowledgeRecord<'a>,
    /// Query score in basis points.
    pub score_bps: u16,
    /// One-based rank.
    pub rank: u16,
}

impl<'a> RetrievalHit<'a> {
    /// Creates a retrieval hit.
    pub fn new(record: KnowledgeRecord<'a>, score_bps: u16, rank: u16) -> (hit: Self)
        ensures
            hit == (RetrievalHit { record, score_bps, rank }),
    {
        RetrievalHit { record, score_bps, rank }
    }

    /// Validates score, rank, and record metadata.
    #[verifier::allow_in_spec]
    pub fn validate(self) -> CognitionResult<()>
        returns
            if self.score_bps > 10_000 || self.rank == 0 {
                Err(CognitionError::InvalidRetrieval)
            } else {
                self.record.validate()
            },
    {
        if self.score_bps > 10_000 || self.rank == 0 {
            return Err(CognitionError::InvalidRetrieval);
        }
        self.record.validate()
    }
}

/// What adding `hit` to a result holding `hits` with capacity `capacity`
/// answers.
pub open spec fn push_hit_outcome(hits: Seq<RetrievalHit<'_>>, capacity: nat, hit: RetrievalHit<'_>) -> CognitionResult<()> {
    if hit.validate() is Err {
        hit.validate()
    } else if hits.len() == capacity {
        Err(CognitionError::CapacityExceeded)
    } else {
        Ok(())
    }
}

/// Fixed-capacity retrieval result.
#[derive(Debug, PartialEq, Eq)]
pub struct RetrievalResult<'a, const N: usize> {
    hits: Vec<RetrievalHit<'a>>,
    truncated: bool,
}

impl<'a, const N: usize> Clone for RetrievalResult<'a, N> {
    /// A copy holding the same hits and the same truncation mark.
    fn clone(&self) -> (copy: Self)
        ensures
            copy@ == self@,
            copy.truncated_view() == self.truncated_view(),
    {
        let hits = self.hits.clone();
        assert(hits@ =~= self.hits@);
        RetrievalResult { hits, truncated: self.truncated }
    }
}

impl<'a, const N: usize> View for RetrievalResult<'a, N> {
    type V = Seq<RetrievalHit<'a>>;

    closed spec fn view(&self) -> Seq<RetrievalHit<'a>> {
        self.hits@
    }
}

impl<'a, const N: usize> RetrievalResult<'a, N> {
    /// Whether the result was marked as leaving matches out.
    pub closed spec fn truncated_view(&self) -> bool {
        self.truncated
    }

    /// The result holds at most `N` hits, each valid.
    pub open spec fn wf(&self) -> bool {
        &&& self@.len() <= N
        &&& forall|i: int| 0 <= i < self@.len() ==> (#[trigger] self@[i]).validate() is Ok
    }

    /// Creates an empty retrieval result.
    pub fn new() -> (result: Self)
        ensures
            result.wf(),
            result@ == Seq::<RetrievalHit<'a>>::empty(),
            !result.truncated_view(),
    {
        RetrievalResult { hits: Vec::new(), truncated: false }
    }

    /// Returns number of hits.
    pub fn len(&self) -> (n: usize)
        ensures
            n == self@.len(),
    {
        self.hits.len()
    }

    /// Returns `true` when no hits were returned.
    pub fn is_empty(&self) -> (empty: bool)
        ensures
            empty == (self@.len() == 0),
    {
        self.hits.len() == 0
    }

    /// Returns `true` when result capacity truncated matches.
    pub fn is_truncated(&self) -> (truncated: bool)
        ensures
            truncated == self.truncated_view(),
    {
        self.truncated
    }

    /// Adds a hit; a full result refuses it and is marked truncated.
    pub fn push(&mut self, hit: RetrievalHit<'a>) -> (r: CognitionResult<()>)
        requires
            old(self).wf(),
        ensures
            final(self).wf(),
            r == push_hit_outcome(old(self)@, N as nat, hit),
            r is Ok ==> final(self)@ == old(self)@.push(hit)
                && final(self).truncated_view() == old(self).truncated_view(),
            r is Err ==> final(self)@ == old(self)@,
            r is Err && hit.validate() is Err ==> final(self).truncated_view() == old(self).truncated_view(),
            r is Err && hit.validate() is Ok ==> final(self).truncated_view(),
    {
        hit.validate()?;
        if self.hits.len() == N {
            self.truncated = true;
            return Err(CognitionError::CapacityExceeded);
        }
        self.hits.push(hit);
        Ok(())
    }

    /// Marks the result truncated.
    pub fn mark_truncated(&mut self)
        ensures
            final(self)@ == old(self)@,
            final(self).truncated_view(),
    {
        self.truncated = true;
    }

    /// Returns a hit by zero-based index.
    pub fn hit(&self, index: usize) -> (h: Option<&RetrievalHit<'a>>)
        ensures
            index < self@.len() ==> h == Some(&self@[index as int]),
            index >= self@.len() ==> h is None,
    {
        if index < self.hits.len() {
            Some(&self.hits[index])
        } else {
            None
        }
    }

    /// The hits, in rank order.
    pub fn iter(&self) -> (hits: &[RetrievalHit<'a>])
        ensures
            hits@ == self@,
    {
        self.hits.as_slice()
    }
}

impl<'a, const N: usize> Default for RetrievalResult<'a, N> {
    fn default() -> (result: Self)
        ensures
            result.wf(),
            result@ == Seq::<RetrievalHit<'a>>::empty(),
            !result.truncated_view(),
    {
        Self::new()
    }
}

/// `true` when `query` admits `record`: same namespace, confidence at least
/// the minimum, data class no more sensitive than the maximum, and the
/// record's kind included (facts, or else semantic records).
pub open spec fn query_admits(query: RetrievalQuery<'_>, record: KnowledgeRecord<'_>) -> bool {
    &&& record.namespace@ == query.namespace@
    &&& record.confidence_bps >= query.min_confidence_bps
    &&& record.data_class.sensitivity() <= query.max_data_class.sensitivity()
    &&& if record.kind is Fact { query.include_facts } else { query.include_semantic }
}

/// The records of `records` that `query` admits, in order.
pub open spec fn admitted<'a>(records: Seq<KnowledgeRecord<'a>>, query: RetrievalQuery<'_>) -> Seq<KnowledgeRecord<'a>>
    decreases records.len(),
{
    if records.len() == 0 {
        Seq::empty()
    } else {
        let rest = admitted(records.drop_last(), query);
        if query_admits(query, records.last()) {
            rest.push(records.last())
        } else {
            rest
        }
    }
}

/// The first `n` of `matches` as hits ranked from one, each scored by its
/// record's confidence.
pub open spec fn ranked_hits<'a>(matches: Seq<KnowledgeRecord<'a>>, n: nat) -> Seq<RetrievalHit<'a>> {
    Seq::new(n, |i: int| RetrievalHit { record: matches[i], score_bps: matches[i].confidence_bps, rank: (i + 1) as u16 })
}

/// How many hits a query returns when `matched` records are admitted, with
/// `top_k` requested and room for `capacity`.
pub open spec fn hit_count(matched: nat, top_k: nat, capacity: nat) -> nat {
    if matched <= top_k && matched <= capacity {
        matched
    } else if top_k <= capacity {
        top_k
    } else {
        capacity
    }
}

/// The admitted records of a prefix are a prefix of the admitted records of
/// a longer prefix.
proof fn lemma_admitted_prefix<'a>(records: Seq<KnowledgeRecord<'a>>, query: RetrievalQuery<'_>, i: int, j: int)
    requires
        0 <= i <= j <= records.len(),
    ensures
        admitted(records.take(i), query).len() <= admitted(records.take(j), query).len(),
        admitted(records.take(j), query).take(admitted(records.take(i), query).len() as int)
            == admitted(records.take(i), query),
    decreases j - i,
{
    if i < j {
        lemma_admitted_prefix(records, query, i, j - 1);
        assert(records.take(j).drop_last() =~= records.take(j - 1));
        let a = admitted(records.take(j - 1), query);
        let b = admitted(records.take(j), query);
        let c = admitted(records.take(i), query);
        assert(b.take(c.len() as int) =~= a.take(c.len() as int));
    } else {
        let c = admitted(records.take(i), query);
        assert(c.take(c.len() as int) =~= c);
    }
}

/// Fixed-capacity host-mode knowledge store.
#[derive(Debug, PartialEq, Eq)]
pub struct KnowledgeStore<'a, const N: usize> {
    records: Vec<KnowledgeRecord<'a>>,
}

impl<'a, const N: usize> Clone for KnowledgeStore<'a, N> {
    /// A copy holding the same records in the same order.
    fn clone(&self) -> (copy: Self)
        ensures
            copy@ == self@,
    {
        let records = self.records.clone();
        assert(records@ =~= self.records@);
        KnowledgeStore { records }
    }
}

impl<'a, const N: usize> View for KnowledgeStore<'a, N> {
    type V = Seq<KnowledgeRecord<'a>>;

    closed spec fn view(&self) -> Seq<KnowledgeRecord<'a>> {
        self.records@
    }
}

/// `true` when some record in `records` has identifier `id`.
pub open spec fn has_record_id(records: Seq<KnowledgeRecord<'_>>, id: u64) -> bool {
    exists|i: int| 0 <= i < records.len() && (#[trigger] records[i]).id == id
}

/// No two records in `records` share an identifier.
pub open spec fn distinct_record_ids(records: Seq<KnowledgeRecord<'_>>) -> bool {
    forall|i: int, j: int|
        0 <= i < records.len() && 0 <= j < records.len() && i != j
            ==> (#[trigger] records[i]).id != (#[trigger] records[j]).id
}

/// What storing `record` into a store holding `records` with capacity
/// `capacity` answers.
pub open spec fn put_outcome(records: Seq<KnowledgeRecord<'_>>, capacity: nat, record: KnowledgeRecord<'_>) -> CognitionResult<()> {
    if record.validate() is Err {
        record.validate()
    } else if records.len() == capacity {
        Err(CognitionError::CapacityExceeded)
    } else if has_record_id(records, record.id) {
        Err(CognitionError::DuplicateRecord)
    } else {
        Ok(())
    }
}

impl<'a, const N: usize> KnowledgeStore<'a, N> {
    /// The store holds at most `N` records, each valid, with distinct ids.
    pub open spec fn wf(&self) -> bool {
        &&& self@.len() <= N
        &&& forall|i: int| 0 <= i < self@.len() ==> (#[trigger] self@[i]).validate() is Ok
        &&& distinct_record_ids(self@)
    }

    /// Creates an empty store.
    pub fn new() -> (store: Self)
        ensures
            store.wf(),
            store@ == Seq::<KnowledgeRecord<'a>>::empty(),
    {
        KnowledgeStore { records: Vec::new() }
    }

    /// Returns number of stored records.
    pub fn len(&self) -> (n: usize)
        ensures
            n == self@.len(),
    {
        self.records.len()
    }

    /// Returns `true` when the store is empty.
    pub fn is_empty(&self) -> (empty: bool)
        ensures
            empty == (self@.len() == 0),
    {
        self.records.len() == 0
    }

    /// Inserts a record.
    pub fn put(&mut self, record: KnowledgeRecord<'a>) -> (r: CognitionResult<()>)
        requires
            old(self).wf(),
        ensures
            final(self).wf(),
            r == put_outcome(old(self)@, N as nat, record),
            r is Ok ==> final(self)@ == old(self)@.push(record),
            r is Err ==> final(self)@ == old(self)@,
    {
        record.validate()?;
        if self.records.len() == N {
            return Err(CognitionError::CapacityExceeded);
        }
        if self.get(record.id).is_some() {
            return Err(CognitionError::DuplicateRecord);
        }
        self.records.push(record);
        proof {
            assert(self@ == old(self)@.push(record));
            assert(forall|i: int| 0 <= i < old(self)@.len() ==> (#[trigger] old(self)@[i]).id != record.id);
        }
        Ok(())
    }

    /// Gets a record by id.
    pub fn get(&self, id: u64) -> (found: Option<&KnowledgeRecord<'a>>)
        ensures
            found is None <==> !has_record_id(self@, id),
            found matches Some(rec) ==> exists|i: int|
                0 <= i < self@.len() && *rec == self@[i] && rec.id == id
                    && forall|j: int| 0 <= j < i ==> (#[trigger] self@[j]).id != id,
    {
        let mut index: usize = 0;
        while index < self.records.len()
            invariant
                index <= self@.len(),
                forall|j: int| 0 <= j < index ==> (#[trigger] self@[j]).id != id,
            decreases self@.len() - index,
        {
            if self.records[index].id == id {
                return Some(&self.records[index]);
            }
            index += 1;
        }
        None
    }

    /// Executes a deterministic host-mode retrieval query: the admitted
    /// records, in store order, ranked from one and scored by confidence, at
    /// most `top_k` of them and at most `OUT`; the result is marked truncated
    /// exactly when admitted records were left out.
    pub fn query<const OUT: usize>(&self, query: RetrievalQuery<'_>) -> (r: CognitionResult<RetrievalResult<'a, OUT>>)
        requires
            self.wf(),
        ensures
            r is Err <==> query.validate() is Err,
            r matches Err(e) ==> query.validate() == Err::<(), CognitionError>(e),
            r matches Ok(result) ==> {
                let matches = admitted(self@, query);
                let n = hit_count(matches.len(), query.top_k as nat, OUT as nat);
                &&& result.wf()
                &&& result@ == ranked_hits(matches, n)
                &&& result.truncated_view() == (matches.len() > n)
            },
    {
        query.validate()?;
        let mut result: RetrievalResult<'a, OUT> = RetrievalResult::new();
        let mut rank: u16 = 1;
        let mut index: usize = 0;
        let ghost all = admitted(self@, query);
        proof {
            assert(self@.take(self@.len() as int) =~= self@);
            assert(self@.take(0) =~= Seq::<KnowledgeRecord<'a>>::empty());
            assert(result@ =~= ranked_hits(admitted(self@.take(0), query), 0));
        }
        while index < self.records.len()
            invariant_except_break
                !result.truncated_view(),
                result@ == ranked_hits(admitted(self@.take(index as int), query), admitted(self@.take(index as int), query).len()),
                admitted(self@.take(index as int), query).len() <= query.top_k,
                admitted(self@.take(index as int), query).len() <= OUT,
                rank == admitted(self@.take(index as int), query).len() + 1,
            invariant
                self.wf(),
                query.validate() is Ok,
                all == admitted(self@, query),
                self@.take(self@.len() as int) == self@,
                index <= self@.len(),
                result.wf(),
            ensures
                result@ == ranked_hits(all, hit_count(all.len(), query.top_k as nat, OUT as nat)),
                result.truncated_view() == (all.len() > hit_count(all.len(), query.top_k as nat, OUT as nat)),
            decreases self@.len() - index,
        {
            let record = self.records[index];
            let ghost before = admitted(self@.take(index as int), query);
            proof {
                assert(self@.take(index + 1).drop_last() =~= self@.take(index as int));
                assert(self@.take(index + 1).last() == record);
                lemma_admitted_prefix(self@, query, index as int, index + 1);
                lemma_admitted_prefix(self@, query, index as int, self@.len() as int);
                lemma_admitted_prefix(self@, query, index + 1, self@.len() as int);
            }
            if !record_matches(record, query) {
                index += 1;
                continue;
            }
            if result.len() == query.top_k {
                proof {
                    assert(all.take(before.len() as int) == before);
                    assert(result@ =~= ranked_hits(all, before.len()));
                }
                result.mark_truncated();
                break;
            }
            let hit = RetrievalHit::new(record, record.confidence_bps, rank);
            if result.push(hit).is_err() {
                proof {
                    assert(all.take(before.len() as int) == before);
                    assert(result@ =~= ranked_hits(all, before.len()));
                }
                break;
            }
            proof {
                let after = admitted(self@.take(index + 1), query);
                assert(after == before.push(record));
                assert(result@ =~= ranked_hits(after, after.len()));
            }
            rank = rank.saturating_add(1);
            index += 1;
        }
        Ok(result)
    }

    /// The stored records, in insertion order.
    pub fn iter(&self) -> (records: &[KnowledgeRecord<'a>])
        ensures
            records@ == self@,
    {
        self.records.as_slice()
    }
}

impl<'a, const N: usize> Default for KnowledgeStore<'a, N> {
    fn default() -> (store: Self)
        ensures
            store.wf(),
            store@ == Seq::<KnowledgeRecord<'a>>::empty(),
    {
        Self::new()
    }
}

fn record_matches(record: KnowledgeRecord<'_>, query: RetrievalQuery<'_>) -> (admits: bool)
    ensures
        admits == query_admits(query, record),
{
    if !same_text(record.namespace, query.namespace) {
        return false;
    }
    if record.confidence_bps < query.min_confidence_bps {
        return false;
    }
    if data_class_rank(record.data_class) > data_class_rank(query.max_data_class) {
        return false;
    }
    match record.kind {
        KnowledgeRecordKind::Fact => query.include_facts,
        KnowledgeRecordKind::SemanticChunk
        | KnowledgeRecordKind::Instruction
        | KnowledgeRecordKind::CorpusExample => query.include_semantic,
    }
}

fn data_class_rank(data_class: DataClass) -> (rank: u8)
    ensures
        rank == data_class.sensitivity(),
{
    match data_class {
        DataClass::Public => 0,
        DataClass::Operational => 1,
        DataClass::Sensitive => 2,
        DataClass::Secret => 3,
    }
}

/// Every admitted record is admitted by the query and comes from the
/// records it was drawn from, and there are no more admitted records than
/// records.
proof fn lemma_admitted_members<'a>(records: Seq<KnowledgeRecord<'a>>, query: RetrievalQuery<'_>)
    ensures
        admitted(records, query).len() <= records.len(),
        forall|i: int| 0 <= i < admitted(records, query).len() ==> {
            &&& query_admits(query, #[trigger] admitted(records, query)[i])
            &&& records.contains(admitted(records, query)[i])
        },
    decreases records.len(),
{
    if records.len() > 0 {
        let init = records.drop_last();
        lemma_admitted_members(init, query);
        let rest = admitted(init, query);
        let all = admitted(records, query);
        assert forall|i: int| 0 <= i < all.len() implies {
            &&& query_admits(query, #[trigger] all[i])
            &&& records.contains(all[i])
        } by {
            if i < rest.len() {
                assert(all[i] == rest[i]);
                let k = choose|k: int| 0 <= k < init.len() && init[k] == rest[i];
                assert(records[k] == init[k]);
            } else {
                assert(all[i] == records.last());
                assert(records[records.len() - 1] == records.last());
            }
        }
    }
}

/// A record that a store accepts is afterwards the one record found under
/// its identifier, and storing it again is refused.
pub proof fn stored_record_is_found(records: Seq<KnowledgeRecord<'_>>, capacity: nat, record: KnowledgeRecord<'_>)
    requires
        put_outcome(records, capacity, record) is Ok,
    ensures
        has_record_id(records.push(record), record.id),
        forall|j: int| 0 <= j < records.len() ==> (#[trigger] records.push(record)[j]).id != record.id,
        put_outcome(records.push(record), capacity, record) is Err,
{
    let after = records.push(record);
    assert(after[records.len() as int] == record);
    assert forall|j: int| 0 <= j < records.len() implies (#[trigger] after[j]).id != record.id by {
        assert(after[j] == records[j]);
    }
}

/// Every hit a query returns carries a record of the store that the query
/// admits: same namespace, confidence at least the minimum, data class no
/// more sensitive than the query allows, a fact only when facts are
/// included and any other kind only when semantic records are; its score is
/// the record's confidence and its rank its one-based position.
pub proof fn query_hits_are_admitted<'a>(records: Seq<KnowledgeRecord<'a>>, query: RetrievalQuery<'_>, n: nat)
    requires
        n <= admitted(records, query).len(),
        n <= MAX_RETRIEVAL_HITS,
    ensures
        forall|i: int| 0 <= i < n ==> {
            let hit = #[trigger] ranked_hits(admitted(records, query), n)[i];
            &&& query_admits(query, hit.record)
            &&& records.contains(hit.record)
            &&& hit.record.namespace@ == query.namespace@
            &&& hit.record.data_class.sensitivity() <= query.max_data_class.sensitivity()
            &&& hit.record.confidence_bps >= query.min_confidence_bps
            &&& (hit.record.kind is Fact ==> query.include_facts)
            &&& (!(hit.record.kind is Fact) ==> query.include_semantic)
            &&& hit.score_bps == hit.record.confidence_bps
            &&& hit.rank as int == i + 1
        },
{
    lemma_admitted_members(records, query);
    let matches = admitted(records, query);
    assert forall|i: int| 0 <= i < n implies {
        let hit = #[trigger] ranked_hits(matches, n)[i];
        &&& query_admits(query, hit.record)
        &&& records.contains(hit.record)
        &&& hit.record.namespace@ == query.namespace@
        &&& hit.record.data_class.sensitivity() <= query.max_data_class.sensitivity()
        &&& hit.record.confidence_bps >= query.min_confidence_bps
        &&& (hit.record.kind is Fact ==> query.include_facts)
        &&& (!(hit.record.kind is Fact) ==> query.include_semantic)
        &&& hit.score_bps == hit.record.confidence_bps
        &&& hit.rank as int == i + 1
    } by {
        assert(ranked_hits(matches, n)[i].record == matches[i]);
    }
}

/// A query leaves out no record it should return: every stored record with
/// the query's namespace, enough confidence, a data class no more sensitive
/// than the query allows, and an included kind is among the admitted
/// records, so it is returned unless the hit limit was reached first.
pub proof fn query_misses_no_matching_record<'a>(records: Seq<KnowledgeRecord<'a>>, query: RetrievalQuery<'_>, i: int)
    requires
        0 <= i < records.len(),
        records[i].namespace@ == query.namespace@,
        records[i].confidence_bps >= query.min_confidence_bps,
        records[i].data_class.sensitivity() <= query.max_data_class.sensitivity(),
        records[i].kind is Fact ==> query.include_facts,
        !(records[i].kind is Fact) ==> query.include_semantic,
    ensures
        admitted(records, query).contains(records[i]),
    decreases records.len(),
{
    let init = records.drop_last();
    if i < records.len() - 1 {
        assert(init[i] == records[i]);
        query_misses_no_matching_record(init, query, i);
        let k = choose|k: int| 0 <= k < admitted(init, query).len() && admitted(init, query)[k] == records[i];
        if query_admits(query, records.last()) {
            assert(admitted(records, query)[k] == records[i]);
        } else {
            assert(admitted(records, query) == admitted(init, query));
        }
    } else {
        let all = admitted(records, query);
        assert(all[all.len() - 1] == records[i]);
    }
}

/// Storing accepts every valid record whose identifier is new while the
/// store has room, whatever its vector dimensions, and refuses a record only
/// for being invalid, for a full store, or for a taken identifier.
pub proof fn store_succeeds_exactly_when_room_and_fresh(
    records: Seq<KnowledgeRecord<'_>>,
    capacity: nat,
    record: KnowledgeRecord<'_>,
    vector_dimensions: u16,
)
    requires
        records.len() <= capacity,
    ensures
        put_outcome(records, capacity, record) is Ok
            <==> (record.validate() is Ok && records.len() < capacity && !has_record_id(records, record.id)),
        put_outcome(records, capacity, KnowledgeRecord { vector_dimensions, ..record })
            == put_outcome(records, capacity, record),
        (KnowledgeRecord { vector_dimensions, ..record }).validate() == record.validate(),
{
}

/// A query returns no more hits than it asked for, no more than the result
/// can hold, and no more than there are records; it is marked truncated
/// exactly when admitted records were left out.
pub proof fn query_respects_limits<'a>(records: Seq<KnowledgeRecord<'a>>, query: RetrievalQuery<'_>, capacity: nat)
    ensures
        hit_count(admitted(records, query).len(), query.top_k as nat, capacity) <= query.top_k,
        hit_count(admitted(records, query).len(), query.top_k as nat, capacity) <= capacity,
        hit_count(admitted(records, query).len(), query.top_k as nat, capacity) <= records.len(),
        (admitted(records, query).len() > hit_count(admitted(records, query).len(), query.top_k as nat, capacity))
            == (admitted(records, query).len() > query.top_k || admitted(records, query).len() > capacity),
{
    lemma_admitted_members(records, query);
}

/// Retrieval component descriptor.
#[derive(Clone, Debug, PartialEq, Eq)]
pub struct RetrievalDescriptor<'a> {
    /// Component name.
    pub name: &'a str,
    /// Component version marker.
    pub version: u32,
}

impl<'a> RetrievalDescriptor<'a> {
    /// Creates a retrieval component descriptor.
    pub fn new(name: &'a str, version: u32) -> (descriptor: Self)
        ensures
            descriptor == (RetrievalDescriptor { name, version }),
    {
        RetrievalDescriptor { name, version }
    }
}

} // verus!
