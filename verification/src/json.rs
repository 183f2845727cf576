//! The wire format the core writes to and reads from its collaborators:
//! verified construction of the JSON request payloads, and trusted
//! parsing of the JSON responses.

use vstd::prelude::*;

verus! {

/// The lower-case hexadecimal digit for a value below sixteen.
pub open spec fn hex_char(n: int) -> char {
    if n == 0 { '0' } else if n == 1 { '1' } else if n == 2 { '2' } else if n == 3 { '3' }
    else if n == 4 { '4' } else if n == 5 { '5' } else if n == 6 { '6' } else if n == 7 { '7' }
    else if n == 8 { '8' } else if n == 9 { '9' } else if n == 10 { 'a' } else if n == 11 { 'b' }
    else if n == 12 { 'c' } else if n == 13 { 'd' } else if n == 14 { 'e' } else { 'f' }
}

fn hex_char_of(n: u32) -> (r: char)
    requires
        n < 16,
    ensures
        r == hex_char(n as int),
{
    if n == 0 { '0' } else if n == 1 { '1' } else if n == 2 { '2' } else if n == 3 { '3' }
    else if n == 4 { '4' } else if n == 5 { '5' } else if n == 6 { '6' } else if n == 7 { '7' }
    else if n == 8 { '8' } else if n == 9 { '9' } else if n == 10 { 'a' } else if n == 11 { 'b' }
    else if n == 12 { 'c' } else if n == 13 { 'd' } else if n == 14 { 'e' } else { 'f' }
}

/// How one character is written inside a JSON string literal: quote and
/// backslash get a backslash escape, control characters a `\u00xx`
/// escape, every other character stands as itself.
pub open spec fn escaped_char(c: char) -> Seq<char> {
    if c == '"' {
        "\\\""@
    } else if c == '\\' {
        "\\\\"@
    } else if (c as u32) < 32 {
        "\\u00"@ + seq![hex_char(c as u32 as int / 16), hex_char(c as u32 as int % 16)]
    } else {
        seq![c]
    }
}

/// A text written inside a JSON string literal, character by character.
pub open spec fn escaped(s: Seq<char>) -> Seq<char>
    decreases s.len(),
{
    if s.len() == 0 {
        Seq::<char>::empty()
    } else {
        escaped(s.drop_last()) + escaped_char(s.last())
    }
}

/// Relies on `String::push`: appends the one character to the string.
pub assume_specification[ String::push ](s: &mut String, c: char)
    ensures
        final(s)@ == old(s)@ + seq![c],
;

/// Append a text onto `base` in JSON string-literal escaping.
pub fn escape_onto(base: String, s: &str) -> (r: String)
    ensures
        r@ == base@ + escaped(s@),
{
    let ghost b0 = base@;
    let mut out = base;
    let n = s.unicode_len();
    let mut i: usize = 0;
    proof {
        assert(s@.take(0) =~= Seq::<char>::empty());
    }
    while i < n
        invariant
            i <= n,
            n == s@.len(),
            out@ == b0 + escaped(s@.take(i as int)),
        decreases n - i,
    {
        let c = s.get_char(i);
        let u = c as u32;
        if c == '"' {
            out.append("\\\"");
        } else if c == '\\' {
            out.append("\\\\");
        } else if u < 32 {
            out.append("\\u00");
            out.push(hex_char_of(u / 16));
            out.push(hex_char_of(u % 16));
            proof {
                assert(seq![hex_char(u as int / 16)] + seq![hex_char(u as int % 16)]
                    =~= seq![hex_char(c as u32 as int / 16), hex_char(c as u32 as int % 16)]);
            }
        } else {
            out.push(c);
        }
        proof {
            assert(s@.take(i as int + 1).drop_last() =~= s@.take(i as int));
            assert(s@.take(i as int + 1).last() == s@[i as int]);
        }
        i += 1;
    }
    proof {
        assert(s@.take(n as int) =~= s@);
    }
    out
}

/// The escaping, written from the front; equal to [`escaped`], and the
/// shape the injectivity proof walks.
pub open spec fn escaped_from_front(s: Seq<char>) -> Seq<char>
    decreases s.len(),
{
    if s.len() == 0 {
        Seq::<char>::empty()
    } else {
        escaped_char(s.first()) + escaped_from_front(s.drop_first())
    }
}

/// How long one character's escape is.
proof fn lemma_escaped_char_len(c: char)
    ensures
        escaped_char(c).len() == (if c == '"' || c == '\\' {
            2int
        } else if (c as u32) < 32 {
            6int
        } else {
            1int
        }),
        escaped_char(c).len() >= 1,
{
    reveal_strlit("\\\"");
    reveal_strlit("\\\\");
    reveal_strlit("\\u00");
}

/// Escaping distributes over concatenation.
proof fn lemma_escaped_from_front_concat(a: Seq<char>, b: Seq<char>)
    ensures
        escaped_from_front(a + b) == escaped_from_front(a) + escaped_from_front(b),
    decreases a.len(),
{
    if a.len() == 0 {
        assert(a + b =~= b);
        assert(escaped_from_front(a) + escaped_from_front(b) =~= escaped_from_front(b));
    } else {
        assert((a + b).first() == a.first());
        assert((a + b).drop_first() =~= a.drop_first() + b);
        lemma_escaped_from_front_concat(a.drop_first(), b);
        assert(escaped_char(a.first()) + (escaped_from_front(a.drop_first()) + escaped_from_front(
            b,
        )) =~= (escaped_char(a.first()) + escaped_from_front(a.drop_first())) + escaped_from_front(
            b,
        ));
    }
}

/// The two spellings of the escaping agree.
proof fn lemma_escaped_is_from_front(s: Seq<char>)
    ensures
        escaped(s) == escaped_from_front(s),
    decreases s.len(),
{
    if s.len() > 0 {
        lemma_escaped_is_from_front(s.drop_last());
        assert(s =~= s.drop_last() + seq![s.last()]);
        lemma_escaped_from_front_concat(s.drop_last(), seq![s.last()]);
        let single = seq![s.last()];
        assert(single.first() == s.last());
        assert(single.drop_first() =~= Seq::<char>::empty());
        assert(escaped_from_front(single) == escaped_char(single.first()) + escaped_from_front(
            single.drop_first(),
        ));
        assert(escaped_char(s.last()) + Seq::<char>::empty() =~= escaped_char(s.last()));
    }
}

/// The lower-case hexadecimal digits name their values uniquely.
proof fn lemma_hex_char_injective(m: int, n: int)
    requires
        0 <= m < 16,
        0 <= n < 16,
        hex_char(m) == hex_char(n),
    ensures
        m == n,
{
}

/// Two escape streams that agree force their first characters, and all
/// that follows, to agree.
proof fn lemma_first_escape_determined(a0: char, b0: char, u: Seq<char>, v: Seq<char>)
    requires
        escaped_char(a0) + u == escaped_char(b0) + v,
    ensures
        a0 == b0,
        u == v,
{
    reveal_strlit("\\\"");
    reveal_strlit("\\\\");
    reveal_strlit("\\u00");
    let x = escaped_char(a0) + u;
    let y = escaped_char(b0) + v;
    lemma_escaped_char_len(a0);
    lemma_escaped_char_len(b0);
    // An escape begins with a backslash; a character that stands as
    // itself is never a backslash. So both sides are escapes, or neither.
    assert(x[0] == y[0]);
    if a0 == '"' || a0 == '\\' || (a0 as u32) < 32 {
        assert(y[0] == '\\');
        assert(!(b0 != '"' && b0 != '\\' && (b0 as u32) >= 32));
        // The second character tells the three escape forms apart.
        assert(x[1] == y[1]);
        if a0 == '"' {
            assert(b0 == '"');
        } else if a0 == '\\' {
            assert(b0 == '\\');
        } else {
            assert(x[1] == 'u');
            assert(b0 != '"' && b0 != '\\' && (b0 as u32) < 32);
            assert(x[4] == y[4] && x[5] == y[5]);
            lemma_hex_char_injective(a0 as u32 as int / 16, b0 as u32 as int / 16);
            lemma_hex_char_injective(a0 as u32 as int % 16, b0 as u32 as int % 16);
            assert(a0 as u32 == b0 as u32);
            assert(a0 == b0);
        }
    } else {
        assert(x[0] == a0);
        if b0 == '"' || b0 == '\\' || (b0 as u32) < 32 {
            assert(y[0] == '\\');
            assert(false);
        }
        assert(y[0] == b0);
    }
    assert(a0 == b0);
    let k = escaped_char(a0).len() as int;
    assert(x.len() == escaped_char(a0).len() + u.len());
    assert(y.len() == escaped_char(b0).len() + v.len());
    assert(u.len() == v.len());
    assert forall|i: int| 0 <= i < u.len() implies u[i] == v[i] by {
        assert(u[i] == x[k + i]);
        assert(y[k + i] == v[i]);
    }
    assert(u =~= v);
}

/// The escaping is lossless: two different texts never escape alike, so
/// the text field of an upsert payload determines the stored text
/// exactly.
pub proof fn lemma_escaping_lossless(a: Seq<char>, b: Seq<char>)
    requires
        escaped(a) == escaped(b),
    ensures
        a == b,
    decreases a.len(),
{
    lemma_escaped_is_from_front(a);
    lemma_escaped_is_from_front(b);
    if a.len() == 0 {
        if b.len() > 0 {
            lemma_escaped_char_len(b.first());
            assert(escaped_from_front(b) == escaped_char(b.first()) + escaped_from_front(
                b.drop_first(),
            ));
            assert(false);
        }
        assert(a =~= b);
    } else if b.len() == 0 {
        lemma_escaped_char_len(a.first());
        assert(escaped_from_front(a) == escaped_char(a.first()) + escaped_from_front(
            a.drop_first(),
        ));
        assert(escaped_from_front(a).len() == escaped_char(a.first()).len() + escaped_from_front(
            a.drop_first(),
        ).len());
        assert(escaped(b).len() == 0);
        assert(false);
    } else {
        lemma_first_escape_determined(
            a.first(),
            b.first(),
            escaped_from_front(a.drop_first()),
            escaped_from_front(b.drop_first()),
        );
        lemma_escaped_is_from_front(a.drop_first());
        lemma_escaped_is_from_front(b.drop_first());
        lemma_escaping_lossless(a.drop_first(), b.drop_first());
        assert forall|i: int| 0 <= i < a.len() implies a[i] == b[i] by {
            if i == 0 {
                assert(a[0] == a.first() && b[0] == b.first());
            } else {
                assert(a[i] == a.drop_first()[i - 1]);
                assert(b[i] == b.drop_first()[i - 1]);
            }
        }
        assert(a =~= b);
    }
}

/// The JSON text of the embedding field: the array itself, or `null`
/// when the embedding is absent.
pub open spec fn embedding_field(emb: Option<Seq<char>>) -> Seq<char> {
    match emb {
        Some(e) => e,
        None => "null"@,
    }
}

/// The upsert request the core writes to the vector store: a JSON object
/// with the chunk's id, path, text, and its embedding or `null`.
pub open spec fn upsert_payload_of(
    id: Seq<char>,
    path: Seq<char>,
    text: Seq<char>,
    emb: Option<Seq<char>>,
) -> Seq<char> {
    "{\"id\":\""@ + escaped(id) + "\",\"path\":\""@ + escaped(path) + "\",\"text\":\""@
        + escaped(text) + "\",\"embedding\":"@ + embedding_field(emb) + "}"@
}

/// Build the upsert request payload. `embedding` is the JSON text of the
/// embedding array, where one was obtained.
pub fn upsert_payload(id: &str, path: &str, text: &str, embedding: &Option<String>) -> (r: String)
    ensures
        r@ == upsert_payload_of(id@, path@, text@, embedding.deep_view()),
{
    let mut out = String::new();
    out.append("{\"id\":\"");
    let mut out = escape_onto(out, id);
    out.append("\",\"path\":\"");
    let mut out = escape_onto(out, path);
    out.append("\",\"text\":\"");
    let mut out = escape_onto(out, text);
    out.append("\",\"embedding\":");
    match embedding {
        Some(e) => out.append(e.as_str()),
        None => out.append("null"),
    }
    out.append("}");
    out
}

/// The query request the core writes to the vector store: the query
/// embedding and the fixed retrieval depth.
pub open spec fn query_payload_of(emb: Seq<char>) -> Seq<char> {
    "{\"embedding\":"@ + emb + ",\"topK\":3}"@
}

/// Build the nearest-neighbour query payload from the JSON text of the
/// query embedding.
pub fn query_payload(embedding: &str) -> (r: String)
    ensures
        r@ == query_payload_of(embedding@),
{
    let mut out = String::new();
    out.append("{\"embedding\":");
    out.append(embedding);
    out.append(",\"topK\":3}");
    out
}

/// The embedding array, as compact JSON text, that an inference response
/// carries: absent when the response is not a JSON object with an
/// `embedding` array field. A function of the response text alone.
pub uninterp spec fn embedding_text_of(s: Seq<char>) -> Option<Seq<char>>;

/// Relies on serde_json: `from_str` parses the response, `Value::get`
/// and `Value::as_array` select the `embedding` array field, and
/// `to_string` writes that array back as compact JSON; all four are
/// deterministic in the response text alone.
#[verifier::external_body]
pub(crate) fn extract_embedding_json(s: &str) -> (r: Option<String>)
    ensures
        r is Some <==> embedding_text_of(s@) is Some,
        r is Some ==> r->0@ == embedding_text_of(s@)->0,
{
    let v: serde_json::Value = serde_json::from_str(s).ok()?;
    let arr = v.get("embedding")?.as_array()?;
    serde_json::to_string(arr).ok()
}

} // verus!
