//! Text-level decisions of the ingestion pipeline: which files are
//! supported, and which extracted documents are blank.

use vstd::prelude::*;

verus! {

/// Whitespace for the purpose of deciding that extracted text is blank:
/// the Unicode `White_Space` set, the same characters that trimming a
/// string removes.
pub open spec fn is_space(c: char) -> bool {
    let u = c as u32;
    ||| u == 0x20
    ||| 0x9 <= u && u <= 0xd
    ||| u == 0x85
    ||| u == 0xa0
    ||| u == 0x1680
    ||| 0x2000 <= u && u <= 0x200a
    ||| u == 0x2028
    ||| u == 0x2029
    ||| u == 0x202f
    ||| u == 0x205f
    ||| u == 0x3000
}

/// A text is blank when every character is whitespace.
pub open spec fn is_blank(s: Seq<char>) -> bool {
    forall|i: int| 0 <= i < s.len() ==> is_space(#[trigger] s[i])
}

/// Whether the trimmed text is empty, i.e. the text holds no
/// non-whitespace character.
pub fn is_blank_text(s: &str) -> (r: bool)
    ensures
        r == is_blank(s@),
{
    let n = s.unicode_len();
    let mut i: usize = 0;
    while i < n
        invariant
            i <= n,
            n == s@.len(),
            forall|j: int| 0 <= j < i ==> is_space(#[trigger] s@[j]),
        decreases n - i,
    {
        let c = s.get_char(i);
        let u = c as u32;
        let space = u == 0x20 || (0x9 <= u && u <= 0xd) || u == 0x85 || u == 0xa0 || u == 0x1680
            || (0x2000 <= u && u <= 0x200a) || u == 0x2028 || u == 0x2029 || u == 0x202f
            || u == 0x205f || u == 0x3000;
        if !space {
            assert(!is_space(s@[i as int]));
            return false;
        }
        i += 1;
    }
    true
}

/// The ASCII-lowercased scalar value of a character.
pub open spec fn lower_scalar(c: char) -> u32 {
    if 65 <= c as u32 && c as u32 <= 90 {
        (c as u32 + 32) as u32
    } else {
        c as u32
    }
}

/// The extension, lowered letter by letter, spells the target word.
pub open spec fn lowered_is(ext: Seq<char>, target: Seq<char>) -> bool {
    &&& ext.len() == target.len()
    &&& forall|i: int| 0 <= i < ext.len() ==> lower_scalar(#[trigger] ext[i]) == target[i] as u32
}

/// Case-insensitive comparison of an extension against a lower-case word.
pub fn extension_matches(ext: &str, target: &str) -> (r: bool)
    ensures
        r == lowered_is(ext@, target@),
{
    let n = ext.unicode_len();
    let m = target.unicode_len();
    if n != m {
        return false;
    }
    let mut i: usize = 0;
    while i < n
        invariant
            i <= n,
            n == ext@.len(),
            n == target@.len(),
            forall|j: int| 0 <= j < i ==> lower_scalar(#[trigger] ext@[j]) == target@[j] as u32,
        decreases n - i,
    {
        let c = ext.get_char(i) as u32;
        let low: u32 = if 65 <= c && c <= 90 {
            c + 32
        } else {
            c
        };
        if low != target.get_char(i) as u32 {
            return false;
        }
        i += 1;
    }
    true
}

/// How the pipeline treats a file, decided by its extension.
#[derive(PartialEq, Eq, Structural, Clone, Copy, Debug)]
pub enum FileKind {
    /// Read the file verbatim as UTF-8.
    PlainText,
    /// Run the layout-preserving extraction utility.
    Pdf,
    /// Skip the file silently.
    Unsupported,
}

/// The kind a given extension selects.
pub open spec fn kind_of_extension(ext: Seq<char>) -> FileKind {
    if lowered_is(ext, "txt"@) || lowered_is(ext, "md"@) || lowered_is(ext, "rs"@)
        || lowered_is(ext, "js"@) || lowered_is(ext, "ts"@) || lowered_is(ext, "py"@)
        || lowered_is(ext, "java"@) {
        FileKind::PlainText
    } else if lowered_is(ext, "pdf"@) {
        FileKind::Pdf
    } else {
        FileKind::Unsupported
    }
}

/// Classify a file extension, case-insensitively.
pub fn classify_extension(ext: &str) -> (r: FileKind)
    ensures
        r == kind_of_extension(ext@),
{
    if extension_matches(ext, "txt") || extension_matches(ext, "md")
        || extension_matches(ext, "rs") || extension_matches(ext, "js")
        || extension_matches(ext, "ts") || extension_matches(ext, "py")
        || extension_matches(ext, "java") {
        FileKind::PlainText
    } else if extension_matches(ext, "pdf") {
        FileKind::Pdf
    } else {
        FileKind::Unsupported
    }
}

} // verus!
