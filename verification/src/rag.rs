//! Retrieval-augmentation core: scoring stored documents against a query
//! embedding, ranking them by similarity, applying the relevance threshold
//! and the top-K cut, and merging the survivors into the system prompt.

use vstd::prelude::*;
use vstd::multiset::Multiset;
use vstd::string::StringExecFns;
use crate::embeddings::EmbedError;
use crate::model::KnowledgeDocument;
use crate::model::RetrievedDocument;
use crate::model::StoreError;
use crate::model::all_wf;
use crate::similarity::SCALE;
use crate::similarity::bounded_components;
use crate::similarity::cosine_similarity;
use crate::similarity::lemma_cosine_range;
use crate::similarity::lemma_cosine_self;
use crate::similarity::spec_cosine;
use crate::similarity::spec_norm_sq;
use crate::text::contains_substr;
use crate::text::lemma_contains_extend_left;
use crate::text::lemma_contains_extend_right;
use crate::text::lemma_contains_self;
use crate::text::spec_decimal;
use crate::text::u64_to_string;

verus! {

broadcast use vstd::seq_lib::group_to_multiset_ensures;

/// The fixed relevance threshold: documents scoring below 0.3 are never
/// returned, whatever their rank.
pub const MIN_SIMILARITY_MILLIONTHS: i128 = 300_000;

/// Retrieval failure: either the query could not be embedded or the store
/// could not be read.
#[derive(Debug)]
pub enum RetrievalError {
    EmbeddingFailed(EmbedError),
    StoreFailed(StoreError),
}

/// The projection of one stored document, scored against a query embedding.
pub open spec fn spec_scored(q: Seq<i64>, d: KnowledgeDocument) -> RetrievedDocument {
    RetrievedDocument {
        content: d.content,
        title: d.title,
        category: d.category,
        similarity_millionths: spec_cosine(q, d.embedding@) as i128,
    }
}

/// All stored documents scored against a query embedding, in store order.
pub open spec fn spec_scored_all(q: Seq<i64>, docs: Seq<KnowledgeDocument>) -> Seq<
    RetrievedDocument,
> {
    docs.map_values(|d: KnowledgeDocument| spec_scored(q, d))
}

/// Scores are non-increasing along the sequence.
pub open spec fn sorted_desc(s: Seq<RetrievedDocument>) -> bool {
    forall|i: int, j: int|
        0 <= i < j < s.len() ==> s[i].similarity_millionths >= s[j].similarity_millionths
}

/// How many entries score at least `min`.
pub open spec fn count_qualified(s: Seq<RetrievedDocument>, min: i128) -> int
    decreases s.len(),
{
    if s.len() == 0 {
        0
    } else {
        (if s[0].similarity_millionths >= min {
            1int
        } else {
            0int
        }) + count_qualified(s.drop_first(), min)
    }
}

/// The number of entries a retrieval returns: `top_k`, unless fewer qualify.
pub open spec fn spec_take_count(top_k: int, qualified: int) -> int {
    if top_k <= qualified {
        top_k
    } else {
        qualified
    }
}

proof fn lemma_count_nonneg(s: Seq<RetrievedDocument>, min: i128)
    ensures
        0 <= count_qualified(s, min) <= s.len(),
    decreases s.len(),
{
    if s.len() > 0 {
        lemma_count_nonneg(s.drop_first(), min);
    }
}

/// With the first `i` entries qualifying, at least `i` entries qualify.
proof fn lemma_count_at_least(s: Seq<RetrievedDocument>, min: i128, i: int)
    requires
        0 <= i <= s.len(),
        forall|j: int| 0 <= j < i ==> s[j].similarity_millionths >= min,
    ensures
        count_qualified(s, min) >= i,
    decreases s.len(),
{
    lemma_count_nonneg(s, min);
    if i > 0 && s.len() > 0 {
        assert(forall|j: int|
            0 <= j < i - 1 ==> s.drop_first()[j].similarity_millionths >= min);
        lemma_count_at_least(s.drop_first(), min, i - 1);
    }
}

/// In a sorted sequence whose first `i` entries qualify and whose entry `i`
/// (if any) does not, exactly `i` entries qualify.
proof fn lemma_count_exact(s: Seq<RetrievedDocument>, min: i128, i: int)
    requires
        sorted_desc(s),
        0 <= i <= s.len(),
        forall|j: int| 0 <= j < i ==> s[j].similarity_millionths >= min,
        i < s.len() ==> s[i].similarity_millionths < min,
    ensures
        count_qualified(s, min) == i,
    decreases s.len(),
{
    if s.len() == 0 {
    } else if i == 0 {
        assert(forall|j: int|
            0 <= j < s.drop_first().len() ==> s.drop_first()[j].similarity_millionths < min);
        lemma_count_exact(s.drop_first(), min, 0);
    } else {
        let t = s.drop_first();
        assert(forall|j: int| 0 <= j < i - 1 ==> t[j].similarity_millionths >= min);
        assert(i - 1 < t.len() ==> t[i - 1].similarity_millionths < min);
        assert(sorted_desc(t));
        lemma_count_exact(t, min, i - 1);
    }
}

/// Removing one entry removes its contribution to the count.
proof fn lemma_count_remove(s: Seq<RetrievedDocument>, min: i128, j: int)
    requires
        0 <= j < s.len(),
    ensures
        count_qualified(s, min) == count_qualified(s.remove(j), min) + (if s[j].similarity_millionths
            >= min {
            1int
        } else {
            0int
        }),
    decreases s.len(),
{
    if j == 0 {
        assert(s.remove(0) =~= s.drop_first());
    } else {
        lemma_count_remove(s.drop_first(), min, j - 1);
        assert(s.remove(j).drop_first() =~= s.drop_first().remove(j - 1));
        assert(s.remove(j)[0] == s[0]);
        assert(s.remove(j).len() > 0);
    }
}

/// How many entries qualify depends only on which entries there are, not on
/// their order: rearranging a sequence leaves the count unchanged.
pub proof fn lemma_count_permutation(s1: Seq<RetrievedDocument>, s2: Seq<RetrievedDocument>, min: i128)
    requires
        s1.to_multiset() == s2.to_multiset(),
    ensures
        count_qualified(s1, min) == count_qualified(s2, min),
    decreases s1.len(),
{
    if s1.len() == 0 {
        assert(s2.to_multiset().len() == 0);
        assert(s2.len() == 0);
    } else {
        let x = s1[0];
        assert(s1.contains(x));
        assert(s2.to_multiset().count(x) > 0);
        assert(s2.contains(x));
        let j = s2.index_of(x);
        assert(0 <= j < s2.len() && s2[j] == x);
        assert(s1.remove(0).to_multiset() =~= s1.to_multiset().remove(x));
        assert(s2.remove(j).to_multiset() =~= s2.to_multiset().remove(x));
        assert(s1.remove(0) =~= s1.drop_first());
        lemma_count_permutation(s1.drop_first(), s2.remove(j), min);
        lemma_count_remove(s2, min, j);
    }
}

/// A sole stored document whose embedding is exactly the query's non-zero
/// embedding scores 1.0, above the relevance threshold: a retrieval over
/// that store with any positive `top_k` therefore returns exactly one
/// entry, that document's projection.
pub proof fn lemma_identical_embedding_is_sole_result(e: Seq<i64>, d: KnowledgeDocument)
    requires
        d.embedding@ == e,
        spec_norm_sq(e) > 0,
    ensures
        spec_scored(e, d).similarity_millionths == SCALE as i128,
        spec_scored(e, d).title == d.title,
        count_qualified(spec_scored_all(e, seq![d]), MIN_SIMILARITY_MILLIONTHS) == 1,
{
    lemma_cosine_self(e);
    let scored = spec_scored_all(e, seq![d]);
    assert(scored.len() == 1);
    assert(scored[0] == spec_scored(e, d));
    assert(spec_scored(e, d).similarity_millionths == 1_000_000);
    assert(scored.drop_first() =~= Seq::<RetrievedDocument>::empty());
    assert(count_qualified(scored.drop_first(), MIN_SIMILARITY_MILLIONTHS) == 0);
    assert(count_qualified(scored, MIN_SIMILARITY_MILLIONTHS) == 1);
}

/// Scores every stored document against the query embedding, in store order.
pub fn score_documents(query: &Vec<i64>, docs: &Vec<KnowledgeDocument>) -> (r: Vec<
    RetrievedDocument,
>)
    requires
        bounded_components(query@),
        all_wf(docs@),
    ensures
        r@ == spec_scored_all(query@, docs@),
{
    let mut out: Vec<RetrievedDocument> = Vec::new();
    let n: usize = docs.len();
    let mut i: usize = 0;
    while i < n
        invariant
            n == docs@.len(),
            bounded_components(query@),
            all_wf(docs@),
            0 <= i <= n,
            out@ == spec_scored_all(query@, docs@.take(i as int)),
        decreases n - i,
    {
        let d = &docs[i];
        let score: i128 = cosine_similarity(query, &d.embedding);
        let rd = RetrievedDocument {
            content: d.content.clone(),
            title: d.title.clone(),
            category: d.category.clone(),
            similarity_millionths: score,
        };
        proof {
            assert(rd == spec_scored(query@, docs@[i as int]));
        }
        out.push(rd);
        proof {
            assert(out@ =~= spec_scored_all(query@, docs@.take(i as int + 1)));
        }
        i = i + 1;
    }
    proof {
        assert(docs@.take(n as int) =~= docs@);
    }
    out
}

/// Sorts scored documents by similarity, best first.  Entries with equal
/// scores may come out in any order.
pub fn sort_by_score(input: Vec<RetrievedDocument>) -> (r: Vec<RetrievedDocument>)
    ensures
        sorted_desc(r@),
        r@.to_multiset() == input@.to_multiset(),
{
    let mut rest = input;
    let mut out: Vec<RetrievedDocument> = Vec::new();
    proof {
        assert(out@.to_multiset().add(rest@.to_multiset()) =~= input@.to_multiset());
    }
    while rest.len() > 0
        invariant
            out@.to_multiset().add(rest@.to_multiset()) == input@.to_multiset(),
            sorted_desc(out@),
            forall|i: int, j: int|
                0 <= i < out@.len() && 0 <= j < rest@.len()
                    ==> out@[i].similarity_millionths >= rest@[j].similarity_millionths,
        decreases rest@.len(),
    {
        let mut m: usize = 0;
        let mut k: usize = 1;
        while k < rest.len()
            invariant
                rest@.len() > 0,
                0 <= m < rest@.len(),
                1 <= k <= rest@.len(),
                forall|j: int|
                    0 <= j < k ==> rest@[m as int].similarity_millionths
                        >= rest@[j].similarity_millionths,
            decreases rest@.len() - k,
        {
            if rest[k].similarity_millionths > rest[m].similarity_millionths {
                m = k;
            }
            k = k + 1;
        }
        let ghost old_rest = rest@;
        let ghost old_out = out@;
        let x = rest.remove(m);
        out.push(x);
        proof {
            assert(old_rest.contains(x));
            assert(old_rest.to_multiset().count(x) > 0);
            assert(out@.to_multiset() =~= old_out.to_multiset().insert(x));
            assert(rest@.to_multiset() =~= old_rest.to_multiset().remove(x));
            assert(out@.to_multiset().add(rest@.to_multiset()) =~= old_out.to_multiset().add(
                old_rest.to_multiset(),
            ));
            // every remaining entry scores no higher than x
            assert(forall|j: int|
                0 <= j < rest@.len() ==> x.similarity_millionths
                    >= rest@[j].similarity_millionths) by {
                assert(forall|j: int|
                    0 <= j < rest@.len() ==> rest@[j] == if j < m as int {
                        old_rest[j]
                    } else {
                        old_rest[j + 1]
                    });
            }
        }
    }
    proof {
        assert(rest@.to_multiset() =~= Multiset::<RetrievedDocument>::empty());
        assert(out@.to_multiset() =~= input@.to_multiset());
    }
    out
}

/// Keeps the leading entries that score at least `min_similarity`, up to
/// `top_k` of them.
pub fn select_top(ranked: Vec<RetrievedDocument>, top_k: usize, min_similarity: i128) -> (r: Vec<
    RetrievedDocument,
>)
    requires
        sorted_desc(ranked@),
    ensures
        r@.len() <= top_k,
        forall|i: int| 0 <= i < r@.len() ==> r@[i].similarity_millionths >= min_similarity,
        r@ == ranked@.take(r@.len() as int),
        r@.len() as int == spec_take_count(top_k as int, count_qualified(ranked@, min_similarity)),
{
    let mut out: Vec<RetrievedDocument> = Vec::new();
    let mut i: usize = 0;
    while i < ranked.len() && i < top_k && ranked[i].similarity_millionths >= min_similarity
        invariant
            sorted_desc(ranked@),
            0 <= i <= ranked@.len(),
            i <= top_k,
            out@ == ranked@.take(i as int),
            forall|j: int| 0 <= j < i ==> ranked@[j].similarity_millionths >= min_similarity,
        decreases ranked@.len() - i,
    {
        let d = &ranked[i];
        let rd = RetrievedDocument {
            content: d.content.clone(),
            title: d.title.clone(),
            category: d.category.clone(),
            similarity_millionths: d.similarity_millionths,
        };
        out.push(rd);
        proof {
            assert(rd == ranked@[i as int]);
            assert(out@ =~= ranked@.take(i as int + 1));
        }
        i = i + 1;
    }
    proof {
        lemma_count_at_least(ranked@, min_similarity, i as int);
        if i < ranked@.len() && ranked@[i as int].similarity_millionths < min_similarity {
            lemma_count_exact(ranked@, min_similarity, i as int);
        } else if i == ranked@.len() {
            lemma_count_exact(ranked@, min_similarity, i as int);
        }
    }
    out
}

/// The retrieval-augmentation orchestrator.  Holds the fixed relevance
/// threshold that retrieved documents must reach.
pub struct RagService {
    /// Minimum similarity score (in millionths) for a document to count as
    /// relevant.
    pub min_similarity_millionths: i128,
}

impl RagService {
    /// A service with the fixed 0.3 relevance threshold.
    pub fn new() -> (s: Self)
        ensures
            s.min_similarity_millionths == MIN_SIMILARITY_MILLIONTHS,
    {
        RagService { min_similarity_millionths: MIN_SIMILARITY_MILLIONTHS }
    }

    /// Ranks the stored documents against the embedded query and keeps the
    /// most relevant ones: an embedding or store failure is propagated;
    /// otherwise every stored document is scored, sorted best first, entries
    /// below the threshold are dropped, and the first `top_k` survivors are
    /// returned.
    pub fn retrieve_context(
        &self,
        query_embedding: Result<Vec<i64>, EmbedError>,
        documents: Result<Vec<KnowledgeDocument>, StoreError>,
        top_k: usize,
    ) -> (r: Result<Vec<RetrievedDocument>, RetrievalError>)
        requires
            query_embedding is Ok ==> bounded_components(query_embedding->Ok_0@),
            documents is Ok ==> all_wf(documents->Ok_0@),
        ensures
            r is Ok <==> (query_embedding is Ok && documents is Ok),
            query_embedding is Err ==> r == Err::<Vec<RetrievedDocument>, RetrievalError>(
                RetrievalError::EmbeddingFailed(query_embedding->Err_0),
            ),
            query_embedding is Ok && documents is Err ==> r == Err::<
                Vec<RetrievedDocument>,
                RetrievalError,
            >(RetrievalError::StoreFailed(documents->Err_0)),
            r is Ok ==> {
                let scored = spec_scored_all(query_embedding->Ok_0@, documents->Ok_0@);
                let out = r->Ok_0@;
                &&& out.len() <= top_k
                &&& (forall|i: int|
                    0 <= i < out.len() ==> out[i].similarity_millionths
                        >= self.min_similarity_millionths)
                &&& (forall|i: int|
                    0 <= i < out.len() ==> -(SCALE as int) <= (#[trigger] out[i]).similarity_millionths
                        as int <= SCALE as int)
                &&& sorted_desc(out)
                &&& out.len() as int == spec_take_count(
                    top_k as int,
                    count_qualified(scored, self.min_similarity_millionths),
                )
                &&& (forall|i: int|
                    0 <= i < out.len() ==> scored.to_multiset().count(out[i]) > 0)
                &&& (exists|s: Seq<RetrievedDocument>|
                    sorted_desc(s) && #[trigger] s.to_multiset() == scored.to_multiset() && out
                        == s.take(
                        spec_take_count(
                            top_k as int,
                            count_qualified(s, self.min_similarity_millionths),
                        ),
                    ))
            },
    {
        match query_embedding {
            Err(e) => Err(RetrievalError::EmbeddingFailed(e)),
            Ok(q) => match documents {
                Err(se) => Err(RetrievalError::StoreFailed(se)),
                Ok(docs) => {
                    let scored = score_documents(&q, &docs);
                    let ranked = sort_by_score(scored);
                    let ghost ranked_view = ranked@;
                    let out = select_top(ranked, top_k, self.min_similarity_millionths);
                    proof {
                        let min = self.min_similarity_millionths;
                        let scored_view = spec_scored_all(q@, docs@);
                        lemma_count_nonneg(ranked_view, min);
                        lemma_count_permutation(ranked_view, scored_view, min);
                        assert(out@.len() <= ranked_view.len());
                        assert forall|i: int| 0 <= i < out@.len() implies
                            scored_view.to_multiset().count(out@[i]) > 0 by {
                            assert(out@[i] == ranked_view.take(out@.len() as int)[i]);
                            assert(ranked_view.contains(ranked_view[i]));
                        }
                        assert forall|i: int| 0 <= i < out@.len() implies -(SCALE as int) <= (
                        #[trigger] out@[i]).similarity_millionths as int <= SCALE as int by {
                            assert(scored_view.contains(out@[i]));
                            let j = scored_view.index_of(out@[i]);
                            assert(scored_view[j] == spec_scored(q@, docs@[j]));
                            lemma_cosine_range(q@, docs@[j].embedding@);
                        }
                        assert(sorted_desc(ranked_view) && ranked_view.to_multiset()
                            == scored_view.to_multiset() && out@ == ranked_view.take(
                            spec_take_count(top_k as int, count_qualified(ranked_view, min)),
                        ));
                        assert(exists|s: Seq<RetrievedDocument>|
                            sorted_desc(s) && #[trigger] s.to_multiset() == scored_view.to_multiset()
                                && out@ == s.take(
                                spec_take_count(top_k as int, count_qualified(s, min)),
                            ));
                    }
                    Ok(out)
                },
            },
        }
    }
}

/// The fixed heading that introduces retrieved reference material.
pub open spec fn spec_header() -> Seq<char> {
    "\n\n## Reference Knowledge Base\nUse the following information to provide accurate, helpful responses when relevant:\n\n"@
}

/// The fixed closing instruction after the reference material.
pub open spec fn spec_footer() -> Seq<char> {
    "\n---\n\nRemember: Only reference this information if it's relevant to the user's question. Always prioritize empathetic listening."@
}

/// One reference entry: its 1-based position, category, title and content,
/// between explicit markers.
pub open spec fn spec_entry(position: int, d: RetrievedDocument) -> Seq<char> {
    "---\nDocument "@ + spec_decimal(position) + " ("@ + d.category@ + "): "@ + d.title@ + "\n"@
        + d.content@ + "\n"@
}

/// The first `n` reference entries, concatenated in order.
pub open spec fn spec_entries(ctx: Seq<RetrievedDocument>, n: int) -> Seq<char>
    decreases n,
{
    if n <= 0 {
        Seq::empty()
    } else {
        spec_entries(ctx, n - 1) + spec_entry(n, ctx[n - 1])
    }
}

/// The augmented prompt: the base prompt unchanged when there is no context,
/// else the base prompt followed by the delimited reference section.
pub open spec fn spec_augment(base: Seq<char>, ctx: Seq<RetrievedDocument>) -> Seq<char> {
    if ctx.len() == 0 {
        base
    } else {
        base + spec_header() + spec_entries(ctx, ctx.len() as int) + spec_footer()
    }
}

impl RagService {
    /// Merges retrieved context into the base prompt.  An empty context
    /// returns the base prompt unchanged; otherwise a delimited reference
    /// section lists every document with its 1-based position, category,
    /// title and content, followed by the closing instruction.
    pub fn augment_prompt(&self, base_prompt: &str, context: &Vec<RetrievedDocument>) -> (r:
        String)
        ensures
            r@ == spec_augment(base_prompt@, context@),
            context@.len() == 0 ==> r@ == base_prompt@,
    {
        if context.len() == 0 {
            return base_prompt.to_owned();
        }
        let mut s = base_prompt.to_owned();
        s.append(
            "\n\n## Reference Knowledge Base\nUse the following information to provide accurate, helpful responses when relevant:\n\n",
        );
        let n: usize = context.len();
        let mut i: usize = 0;
        proof {
            assert(s@ =~= base_prompt@ + spec_header() + spec_entries(context@, 0));
        }
        while i < n
            invariant
                n == context@.len(),
                0 <= i <= n,
                s@ == base_prompt@ + spec_header() + spec_entries(context@, i as int),
            decreases n - i,
        {
            let d = &context[i];
            s.append("---\nDocument ");
            let num = u64_to_string((i + 1) as u64);
            s.append(num.as_str());
            s.append(" (");
            s.append(d.category.as_str());
            s.append("): ");
            s.append(d.title.as_str());
            s.append("\n");
            s.append(d.content.as_str());
            s.append("\n");
            proof {
                assert(s@ =~= base_prompt@ + spec_header() + spec_entries(context@, i as int + 1));
            }
            i = i + 1;
        }
        s.append(
            "\n---\n\nRemember: Only reference this information if it's relevant to the user's question. Always prioritize empathetic listening.",
        );
        proof {
            assert(s@ =~= spec_augment(base_prompt@, context@));
        }
        s
    }
}

/// Each reference entry spells out its document's title.
proof fn lemma_entry_contains_title(position: int, d: RetrievedDocument)
    ensures
        contains_substr(spec_entry(position, d), d.title@),
{
    let a = "---\nDocument "@ + spec_decimal(position) + " ("@ + d.category@ + "): "@;
    let b = "\n"@ + d.content@ + "\n"@;
    lemma_contains_self(d.title@);
    lemma_contains_extend_left(a, d.title@, d.title@);
    lemma_contains_extend_right(a + d.title@, b, d.title@);
    assert(spec_entry(position, d) =~= (a + d.title@) + b);
}

/// The concatenated entries spell out every covered document's title.
proof fn lemma_entries_contain_titles(ctx: Seq<RetrievedDocument>, n: int, i: int)
    requires
        0 <= i < n <= ctx.len(),
    ensures
        contains_substr(spec_entries(ctx, n), ctx[i].title@),
    decreases n,
{
    if i == n - 1 {
        lemma_entry_contains_title(n, ctx[n - 1]);
        lemma_contains_extend_left(spec_entries(ctx, n - 1), spec_entry(n, ctx[n - 1]),
            ctx[i].title@);
    } else {
        lemma_entries_contain_titles(ctx, n - 1, i);
        lemma_contains_extend_right(spec_entries(ctx, n - 1), spec_entry(n, ctx[n - 1]),
            ctx[i].title@);
    }
}

/// The augmented prompt always starts with the base prompt, and spells out
/// the title of every document of the context.
pub proof fn lemma_augment_prompt_structure(base: Seq<char>, ctx: Seq<RetrievedDocument>)
    ensures
        spec_augment(base, ctx).len() >= base.len(),
        spec_augment(base, ctx).subrange(0, base.len() as int) == base,
        forall|i: int|
            0 <= i < ctx.len() ==> contains_substr(spec_augment(base, ctx), ctx[i].title@),
{
    if ctx.len() == 0 {
        assert(base.subrange(0, base.len() as int) =~= base);
    } else {
        let h = spec_header();
        let e = spec_entries(ctx, ctx.len() as int);
        let f = spec_footer();
        assert(spec_augment(base, ctx) == ((base + h) + e) + f);
        assert((((base + h) + e) + f).subrange(0, base.len() as int) =~= base);
        assert forall|i: int|
            0 <= i < ctx.len() implies contains_substr(spec_augment(base, ctx), ctx[i].title@) by {
            lemma_entries_contain_titles(ctx, ctx.len() as int, i);
            lemma_contains_extend_left(base + h, e, ctx[i].title@);
            lemma_contains_extend_right((base + h) + e, f, ctx[i].title@);
        }
    }
}

} // verus!
