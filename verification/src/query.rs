//! The retrieval-and-synthesis engine: what is retrieved for a query,
//! how the prompt is assembled, and how the response is formed so that a
//! query always ends in a displayable result.

use vstd::prelude::*;
use crate::json::{embedding_text_of, extract_embedding_json};
use crate::messages::{ChatMessage, history_section, history_onto};

verus! {

/// How many chunks a query retrieves at most.
pub const TOP_K: usize = 3;

/// One stored chunk as the vector store returns it: its text, its source
/// path, and the similarity score as the JSON number text the store
/// wrote.
pub struct RetrievedChunk {
    pub text: String,
    pub path: String,
    pub score_text: String,
}

/// A retrieved chunk as a triple of its fields' views.
pub open spec fn chunk_view(c: RetrievedChunk) -> (Seq<char>, Seq<char>, Seq<char>) {
    (c.text@, c.path@, c.score_text@)
}

/// One record as the store's response carries it: a field the record
/// lacks, or gives with another type, is absent.
pub struct RawRecord {
    pub text: Option<String>,
    pub path: Option<String>,
    pub score_text: Option<String>,
}

/// A raw record as a triple of its fields' views.
pub open spec fn raw_record_view(r: RawRecord) -> (
    Option<Seq<char>>,
    Option<Seq<char>>,
    Option<Seq<char>>,
) {
    (r.text.deep_view(), r.path.deep_view(), r.score_text.deep_view())
}

/// The `(text, path, score)` records that a vector-store query response
/// carries, in the store's order, each field where the record gives it:
/// the whole absent when the response is not a JSON object with a
/// `results` array. A function of the response text alone.
pub uninterp spec fn query_results_of(s: Seq<char>) -> Option<
    Seq<(Option<Seq<char>>, Option<Seq<char>>, Option<Seq<char>>)>,
>;

/// Relies on serde_json: `from_str` parses the response, `Value::get`
/// and `Value::as_array` select the `results` array, `Value::as_str`
/// reads each record's `text` and `path` where they are strings, and the
/// `Display` of `Value` writes each record's `score` back as JSON text;
/// all deterministic in the response text alone.
#[verifier::external_body]
pub(crate) fn parse_query_results(s: &str) -> (r: Option<Vec<RawRecord>>)
    ensures
        r is Some <==> query_results_of(s@) is Some,
        r matches Some(v) ==> (query_results_of(s@) matches Some(q) && v@.len() == q.len()
            && forall|i: int|
            0 <= i < q.len() ==> #[trigger] raw_record_view(v@[i]) == q[i]),
{
    let v: serde_json::Value = serde_json::from_str(s).ok()?;
    let items = v.get("results")?.as_array()?;
    let mut out = Vec::new();
    for it in items {
        let text = it.get("text").and_then(|t| t.as_str()).map(String::from);
        let path = it.get("path").and_then(|p| p.as_str()).map(String::from);
        let score_text = it.get("score").map(|x| x.to_string());
        out.push(RawRecord { text, path, score_text });
    }
    Some(out)
}

/// The source shown for a raw record: an absent text or path becomes the
/// empty string, an absent score the JSON `null`.
pub open spec fn defaulted(
    t: (Option<Seq<char>>, Option<Seq<char>>, Option<Seq<char>>),
) -> (Seq<char>, Seq<char>, Seq<char>) {
    (
        match t.0 {
            Some(x) => x,
            None => Seq::<char>::empty(),
        },
        match t.1 {
            Some(x) => x,
            None => Seq::<char>::empty(),
        },
        match t.2 {
            Some(x) => x,
            None => "null"@,
        },
    )
}

/// Fill a raw record's absent fields with the defaults.
fn defaulted_chunk(r: &RawRecord) -> (c: RetrievedChunk)
    ensures
        chunk_view(c) == defaulted(raw_record_view(*r)),
{
    RetrievedChunk {
        text: match &r.text {
            Some(t) => t.clone(),
            None => String::new(),
        },
        path: match &r.path {
            Some(p) => p.clone(),
            None => String::new(),
        },
        score_text: match &r.score_text {
            Some(s) => s.clone(),
            None => String::from_str("null"),
        },
    }
}

/// The query embedding taken from the inference response: absent when
/// the embed call failed or the response carried none. Retrieval is then
/// skipped rather than failing the request.
pub fn query_embedding(embed_exit_ok: bool, embed_stdout: &str) -> (r: Option<String>)
    ensures
        r is Some <==> embed_exit_ok && embedding_text_of(embed_stdout@) is Some,
        r matches Some(e) ==> e@ == embedding_text_of(embed_stdout@)->0,
{
    if !embed_exit_ok {
        return None;
    }
    extract_embedding_json(embed_stdout)
}

/// The records a store response yields, with absent fields defaulted,
/// cut to the retrieval depth.
pub open spec fn sources_of_response(ok: bool, s: Seq<char>) -> Seq<
    (Seq<char>, Seq<char>, Seq<char>),
> {
    if !ok {
        Seq::empty()
    } else {
        match query_results_of(s) {
            None => Seq::empty(),
            Some(q) => {
                let d = q.map(
                    |i: int, t: (Option<Seq<char>>, Option<Seq<char>>, Option<Seq<char>>)|
                        defaulted(t),
                );
                if d.len() <= 3 {
                    d
                } else {
                    d.take(3)
                }
            },
        }
    }
}

/// The sources of a query, from the store's response: empty when the
/// store call failed or its response did not parse, and never more than
/// the retrieval depth, in the store's own order.
pub fn sources_from_response(store_exit_ok: bool, stdout: &str) -> (r: Vec<RetrievedChunk>)
    ensures
        r@.len() <= 3,
        r@.map(|i: int, c: RetrievedChunk| chunk_view(c)) == sources_of_response(
            store_exit_ok,
            stdout@,
        ),
{
    let mut found: Vec<RetrievedChunk> = Vec::new();
    if store_exit_ok {
        match parse_query_results(stdout) {
            Some(raw) => {
                let n = raw.len();
                let mut i: usize = 0;
                while i < n && i < TOP_K
                    invariant
                        n == raw@.len(),
                        i <= n,
                        i <= 3,
                        found@.len() == i,
                        forall|j: int|
                            0 <= j < i ==> chunk_view(#[trigger] found@[j]) == defaulted(
                                raw_record_view(raw@[j]),
                            ),
                    decreases n - i,
                {
                    found.push(defaulted_chunk(&raw[i]));
                    i += 1;
                }
            },
            None => (),
        }
    }
    proof {
        assert(found@.map(|i: int, c: RetrievedChunk| chunk_view(c)) =~= sources_of_response(
            store_exit_ok,
            stdout@,
        ));
    }
    found
}

/// The fixed system preamble of every prompt.
pub open spec fn prompt_preamble() -> Seq<char> {
    "You are LocalRAG Pro, a helpful assistant. Use the provided context to answer the question.\n\nCONTEXT:\n"@
}

/// One retrieved text as a delimited context block.
pub open spec fn context_block(text: Seq<char>) -> Seq<char> {
    "---\n"@ + text + "\n\n"@
}

/// All retrieved texts as context blocks, in retrieval order.
pub open spec fn contexts_section(cs: Seq<RetrievedChunk>) -> Seq<char>
    decreases cs.len(),
{
    if cs.len() == 0 {
        Seq::<char>::empty()
    } else {
        contexts_section(cs.drop_last()) + context_block(cs.last().text@)
    }
}

/// The whole prompt: preamble, context blocks, the conversation in
/// original order, the new query, and the generation cue.
pub open spec fn prompt_of(
    cs: Seq<RetrievedChunk>,
    history: Seq<ChatMessage>,
    query: Seq<char>,
) -> Seq<char> {
    prompt_preamble() + contexts_section(cs) + "\nConversation:\n"@ + history_section(history)
        + "\nUser: "@ + query + "\nAssistant:"@
}

/// Assemble the prompt for a query from the retrieved contexts and the
/// conversation history.
pub fn build_prompt(contexts: &Vec<RetrievedChunk>, history: &Vec<ChatMessage>, query: &str) -> (r:
    String)
    ensures
        r@ == prompt_of(contexts@, history@, query@),
{
    let mut out = String::from_str(
        "You are LocalRAG Pro, a helpful assistant. Use the provided context to answer the question.\n\nCONTEXT:\n",
    );
    let ghost pre = out@;
    let n = contexts.len();
    let mut i: usize = 0;
    proof {
        assert(contexts@.take(0) =~= Seq::<RetrievedChunk>::empty());
    }
    while i < n
        invariant
            i <= n,
            n == contexts@.len(),
            out@ == pre + contexts_section(contexts@.take(i as int)),
        decreases n - i,
    {
        out.append("---\n");
        out.append(contexts[i].text.as_str());
        out.append("\n\n");
        proof {
            assert(contexts@.take(i as int + 1).drop_last() =~= contexts@.take(i as int));
            assert(contexts@.take(i as int + 1).last() == contexts@[i as int]);
        }
        i += 1;
    }
    proof {
        assert(contexts@.take(n as int) =~= contexts@);
    }
    out.append("\nConversation:\n");
    let mut out = history_onto(out, history);
    out.append("\nUser: ");
    out.append(query);
    out.append("\nAssistant:");
    out
}

/// What a query returns: a displayable answer, always, and the retrieved
/// sources for citation.
pub struct QueryResponse {
    pub answer: String,
    pub sources: Vec<RetrievedChunk>,
}

/// The marked failure text shown when generation failed.
pub open spec fn generation_failure_text(detail: Seq<char>) -> Seq<char> {
    "(failed to generate answer): "@ + detail
}

/// The final response of a query: the generated text when generation
/// succeeded, and otherwise a non-empty marked failure string carrying
/// the detail — never an error. The sources are returned as retrieved.
pub fn assemble_response(
    gen_exit_ok: bool,
    gen_stdout: String,
    gen_stderr: &str,
    sources: Vec<RetrievedChunk>,
) -> (r: QueryResponse)
    ensures
        gen_exit_ok ==> r.answer@ == gen_stdout@,
        !gen_exit_ok ==> r.answer@ == generation_failure_text(gen_stderr@),
        !gen_exit_ok ==> r.answer@.len() > 0,
        r.sources@ == sources@,
{
    let answer = build_answer(gen_exit_ok, gen_stdout, gen_stderr);
    QueryResponse { answer, sources }
}

/// The response of a query whose embedding failed or was absent:
/// retrieval is skipped, so the sources are empty, and the query still
/// ends in a displayable answer — the generated text, or the non-empty
/// marked failure text.
pub fn respond_without_retrieval(gen_exit_ok: bool, gen_stdout: String, gen_stderr: &str) -> (r:
    QueryResponse)
    ensures
        r.sources@.len() == 0,
        gen_exit_ok ==> r.answer@ == gen_stdout@,
        !gen_exit_ok ==> r.answer@ == generation_failure_text(gen_stderr@),
        !gen_exit_ok ==> r.answer@.len() > 0,
{
    assemble_response(gen_exit_ok, gen_stdout, gen_stderr, Vec::new())
}

fn build_answer(gen_exit_ok: bool, gen_stdout: String, gen_stderr: &str) -> (answer: String)
    ensures
        gen_exit_ok ==> answer@ == gen_stdout@,
        !gen_exit_ok ==> answer@ == generation_failure_text(gen_stderr@),
        !gen_exit_ok ==> answer@.len() > 0,
{
    if gen_exit_ok {
        gen_stdout
    } else {
        let mut a = String::from_str("(failed to generate answer): ");
        a.append(gen_stderr);
        proof {
            reveal_strlit("(failed to generate answer): ");
        }
        a
    }
}

} // verus!
