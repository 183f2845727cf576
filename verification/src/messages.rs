//! Conversation messages, and the two renderings the core makes of them:
//! the `role: content` lines of a prompt, and the markdown form of an
//! exported transcript.

use vstd::prelude::*;

verus! {

/// Who wrote a message.
#[derive(PartialEq, Eq, Structural, Clone, Copy, Debug)]
pub enum Role {
    User,
    Assistant,
    System,
}

/// The word a role is written as.
pub open spec fn role_label(r: Role) -> Seq<char> {
    match r {
        Role::User => "user"@,
        Role::Assistant => "assistant"@,
        Role::System => "system"@,
    }
}

/// The word a role is written as.
pub fn role_text(r: &Role) -> (t: &'static str)
    ensures
        t@ == role_label(*r),
{
    match r {
        Role::User => "user",
        Role::Assistant => "assistant",
        Role::System => "system",
    }
}

/// One message of a conversation; immutable once created, ordered by its
/// place in the history.
pub struct ChatMessage {
    pub id: String,
    pub role: Role,
    pub content: String,
    pub timestamp: Option<String>,
}

/// One message as a line of the prompt's conversation section.
pub open spec fn history_line(m: ChatMessage) -> Seq<char> {
    role_label(m.role) + ": "@ + m.content@ + "\n"@
}

/// The whole history as prompt lines, in original order.
pub open spec fn history_section(ms: Seq<ChatMessage>) -> Seq<char>
    decreases ms.len(),
{
    if ms.len() == 0 {
        Seq::<char>::empty()
    } else {
        history_section(ms.drop_last()) + history_line(ms.last())
    }
}

/// Append the history's prompt lines onto `base`.
pub fn history_onto(base: String, ms: &Vec<ChatMessage>) -> (r: String)
    ensures
        r@ == base@ + history_section(ms@),
{
    let ghost b0 = base@;
    let mut out = base;
    let n = ms.len();
    let mut i: usize = 0;
    proof {
        assert(ms@.take(0) =~= Seq::<ChatMessage>::empty());
    }
    while i < n
        invariant
            i <= n,
            n == ms@.len(),
            out@ == b0 + history_section(ms@.take(i as int)),
        decreases n - i,
    {
        let m = &ms[i];
        out.append(role_text(&m.role));
        out.append(": ");
        out.append(m.content.as_str());
        out.append("\n");
        proof {
            assert(ms@.take(i as int + 1).drop_last() =~= ms@.take(i as int));
            assert(ms@.take(i as int + 1).last() == ms@[i as int]);
        }
        i += 1;
    }
    proof {
        assert(ms@.take(n as int) =~= ms@);
    }
    out
}

/// The timestamp written in an export: the message's own, or nothing.
pub open spec fn timestamp_label(t: Option<String>) -> Seq<char> {
    match t {
        Some(s) => s@,
        None => Seq::<char>::empty(),
    }
}

/// One message in the markdown export.
pub open spec fn message_markdown(m: ChatMessage) -> Seq<char> {
    "**"@ + role_label(m.role) + "** ("@ + timestamp_label(m.timestamp) + ")\n\n"@ + m.content@
        + "\n\n"@
}

/// A whole transcript in the markdown export, in original order.
pub open spec fn transcript_markdown(ms: Seq<ChatMessage>) -> Seq<char>
    decreases ms.len(),
{
    if ms.len() == 0 {
        Seq::<char>::empty()
    } else {
        transcript_markdown(ms.drop_last()) + message_markdown(ms.last())
    }
}

/// Render a transcript for the markdown export.
pub fn render_transcript_markdown(ms: &Vec<ChatMessage>) -> (r: String)
    ensures
        r@ == transcript_markdown(ms@),
{
    let mut out = String::new();
    let n = ms.len();
    let mut i: usize = 0;
    proof {
        assert(ms@.take(0) =~= Seq::<ChatMessage>::empty());
    }
    while i < n
        invariant
            i <= n,
            n == ms@.len(),
            out@ == transcript_markdown(ms@.take(i as int)),
        decreases n - i,
    {
        let m = &ms[i];
        out.append("**");
        out.append(role_text(&m.role));
        out.append("** (");
        match &m.timestamp {
            Some(t) => out.append(t.as_str()),
            None => (),
        }
        out.append(")\n\n");
        out.append(m.content.as_str());
        out.append("\n\n");
        proof {
            assert(ms@.take(i as int + 1).drop_last() =~= ms@.take(i as int));
            assert(ms@.take(i as int + 1).last() == ms@[i as int]);
        }
        i += 1;
    }
    proof {
        assert(ms@.take(n as int) =~= ms@);
    }
    out
}

} // verus!
