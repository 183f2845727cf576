//! The pipeline's laws: what holds of every ingestion and every query,
//! proved over the same spec functions the executable contracts use.

use vstd::prelude::*;
use crate::text::{FileKind, kind_of_extension, is_blank};
use crate::ingest::{FilePlan, plan_of_extension, indexable};
use crate::json::{upsert_payload_of, escaped, embedding_field, lemma_escaping_lossless};
use crate::query::{RetrievedChunk, contexts_section, context_block, prompt_of, prompt_preamble};
use crate::messages::ChatMessage;

verus! {

/// A file whose extension is unsupported is left alone: the pipeline
/// plans neither extraction nor upsert for it.
pub proof fn lemma_unsupported_is_skipped(ext: Seq<char>)
    requires
        kind_of_extension(ext) == FileKind::Unsupported,
    ensures
        plan_of_extension(ext) == FilePlan::Skip,
{
}

/// A supported plain-text file is planned for a verbatim read, never for
/// extraction and never for skipping.
pub proof fn lemma_plain_text_is_read(ext: Seq<char>)
    requires
        kind_of_extension(ext) == FileKind::PlainText,
    ensures
        plan_of_extension(ext) == FilePlan::ReadAsText,
{
}

/// A document whose trimmed text is empty is not indexable: no embedding
/// is requested for it and nothing is upserted.
pub proof fn lemma_blank_is_not_indexed(text: Seq<char>)
    requires
        is_blank(text),
    ensures
        !indexable(text),
{
}

/// A document with any non-whitespace character is indexable.
pub proof fn lemma_non_blank_is_indexed(text: Seq<char>)
    requires
        !is_blank(text),
    ensures
        indexable(text),
{
}

/// For one identifier, path and embedding, the upsert payload determines
/// the stored text: encoding never conflates two different texts, so the
/// chunk a conformant store hands back carries the text that was stored.
pub proof fn lemma_payload_determines_text(
    id: Seq<char>,
    path: Seq<char>,
    a: Seq<char>,
    b: Seq<char>,
    emb: Option<Seq<char>>,
)
    requires
        upsert_payload_of(id, path, a, emb) == upsert_payload_of(id, path, b, emb),
    ensures
        a == b,
{
    let pre = "{\"id\":\""@ + escaped(id) + "\",\"path\":\""@ + escaped(path) + "\",\"text\":\""@;
    let suf = "\",\"embedding\":"@ + embedding_field(emb) + "}"@;
    let pa = upsert_payload_of(id, path, a, emb);
    let pb = upsert_payload_of(id, path, b, emb);
    assert(pa =~= pre + escaped(a) + suf);
    assert(pb =~= pre + escaped(b) + suf);
    assert(pa.len() == pre.len() + escaped(a).len() + suf.len());
    assert(pb.len() == pre.len() + escaped(b).len() + suf.len());
    assert(escaped(a).len() == escaped(b).len());
    assert forall|i: int| 0 <= i < escaped(a).len() implies escaped(a)[i] == escaped(b)[i] by {
        assert(escaped(a)[i] == (pre + escaped(a) + suf)[pre.len() + i]);
        assert(escaped(b)[i] == (pre + escaped(b) + suf)[pre.len() + i]);
    }
    assert(escaped(a) =~= escaped(b));
    lemma_escaping_lossless(a, b);
}

/// Whatever the vector store answers, a query never yields more sources
/// than the retrieval depth, and a failed store call yields none.
pub proof fn lemma_sources_bounded(ok: bool, s: Seq<char>)
    ensures
        crate::query::sources_of_response(ok, s).len() <= 3,
        !ok ==> crate::query::sources_of_response(ok, s).len() == 0,
{
}

/// `needle` stands in `hay` beginning at offset `k`.
pub open spec fn contains_at(hay: Seq<char>, needle: Seq<char>, k: int) -> bool {
    0 <= k && k + needle.len() <= hay.len() && hay.subrange(k, k + needle.len()) == needle
}

/// `needle` stands somewhere in `hay`.
pub open spec fn contains_seq(hay: Seq<char>, needle: Seq<char>) -> bool {
    exists|k: int| contains_at(hay, needle, k)
}

/// An occurrence survives surrounding text.
proof fn lemma_contains_at_embed(left: Seq<char>, hay: Seq<char>, right: Seq<char>, needle: Seq<char>, k: int)
    requires
        contains_at(hay, needle, k),
    ensures
        contains_at(left + hay + right, needle, left.len() + k),
{
    assert((left + hay + right).subrange(
        left.len() + k,
        left.len() + k + needle.len(),
    ) =~= hay.subrange(k, k + needle.len()));
}

/// Every retrieved text stands whole in the contexts section.
proof fn lemma_contexts_contain(cs: Seq<RetrievedChunk>, i: int)
    requires
        0 <= i < cs.len(),
    ensures
        contains_seq(contexts_section(cs), cs[i].text@),
    decreases cs.len(),
{
    let prefix = contexts_section(cs.drop_last());
    let text = cs.last().text@;
    if i == cs.len() - 1 {
        reveal_strlit("---\n");
        reveal_strlit("\n\n");
        assert(context_block(text).subrange(4, 4 + text.len() as int) =~= text);
        assert(contains_at(context_block(text), text, 4));
        lemma_contains_at_embed(prefix, context_block(text), Seq::empty(), text, 4);
        assert(prefix + context_block(text) + Seq::<char>::empty() =~= contexts_section(cs));
    } else {
        lemma_contexts_contain(cs.drop_last(), i);
        let k = choose|k: int| contains_at(prefix, cs.drop_last()[i].text@, k);
        lemma_contains_at_embed(Seq::empty(), prefix, context_block(text), cs[i].text@, k);
        assert(Seq::<char>::empty() + prefix + context_block(text) =~= contexts_section(cs));
    }
}

/// Every retrieved context stands whole in the prompt handed to the
/// generative model: what was retrieved for a query is what the model is
/// shown.
pub proof fn lemma_prompt_contains_each_context(
    cs: Seq<RetrievedChunk>,
    history: Seq<ChatMessage>,
    query: Seq<char>,
    i: int,
)
    requires
        0 <= i < cs.len(),
    ensures
        contains_seq(prompt_of(cs, history, query), cs[i].text@),
{
    lemma_contexts_contain(cs, i);
    let k = choose|k: int| contains_at(contexts_section(cs), cs[i].text@, k);
    let rest = "\nConversation:\n"@ + crate::messages::history_section(history) + "\nUser: "@
        + query + "\nAssistant:"@;
    lemma_contains_at_embed(prompt_preamble(), contexts_section(cs), rest, cs[i].text@, k);
    assert(prompt_preamble() + contexts_section(cs) + rest =~= prompt_of(cs, history, query));
}

/// The query itself stands whole in the prompt, after the `User:` cue.
pub proof fn lemma_prompt_contains_query(
    cs: Seq<RetrievedChunk>,
    history: Seq<ChatMessage>,
    query: Seq<char>,
)
    ensures
        contains_seq(prompt_of(cs, history, query), query),
{
    let left = prompt_preamble() + contexts_section(cs) + "\nConversation:\n"@
        + crate::messages::history_section(history) + "\nUser: "@;
    assert(prompt_of(cs, history, query).subrange(
        left.len() as int,
        left.len() + query.len() as int,
    ) =~= query);
    assert(contains_at(prompt_of(cs, history, query), query, left.len() as int));
}

} // verus!
