//! PEM armor: a labelled frame around base64 text, wrapped at 64 columns with
//! CRLF line ends. Writing and reading are done by the `pem` crate; this
//! module states what is written and names what is read.

use crate::codec;
use vstd::prelude::*;

verus! {

/// The number of symbols on a full line of the body.
pub open spec fn line_width() -> int {
    64
}

pub open spec fn dashes() -> Seq<char> {
    seq!['-', '-', '-', '-', '-']
}

pub open spec fn line_end() -> Seq<char> {
    seq!['\r', '\n']
}

/// The line that opens a block labelled `tag`.
pub open spec fn begin_line(tag: Seq<char>) -> Seq<char> {
    dashes() + seq!['B', 'E', 'G', 'I', 'N', ' '] + tag + dashes() + line_end()
}

/// The line that closes a block labelled `tag`.
pub open spec fn end_line(tag: Seq<char>) -> Seq<char> {
    dashes() + seq!['E', 'N', 'D', ' '] + tag + dashes() + line_end()
}

/// `text` cut into lines of `line_width()` symbols, the last one possibly
/// shorter, each followed by a line end. Empty text gives no line at all.
pub open spec fn wrapped(text: Seq<char>) -> Seq<char>
    decreases text.len(),
{
    if text.len() == 0 {
        Seq::empty()
    } else if text.len() <= line_width() {
        text + line_end()
    } else {
        text.take(line_width()) + line_end() + wrapped(text.skip(line_width()))
    }
}

/// The armored text of `contents` under the label `tag`.
pub open spec fn armor(tag: Seq<char>, contents: Seq<u8>) -> Seq<char> {
    begin_line(tag) + wrapped(codec::encode(contents)) + end_line(tag)
}

/// A label that frames unambiguously: not empty and free of dashes.
pub open spec fn is_label(tag: Seq<char>) -> bool {
    &&& tag.len() > 0
    &&& forall|i: int| 0 <= i < tag.len() ==> tag[i] != '-'
}

/// Whether `text` is the armor of some contents under some label.
pub open spec fn is_armored(text: Seq<char>) -> bool {
    exists|tag: Seq<char>, contents: Seq<u8>| is_label(tag) && #[trigger] armor(tag, contents) == text
}

/// Whether every armoring that yields `text` was made from `contents`.
pub open spec fn reads_as(text: Seq<char>, contents: Seq<u8>) -> bool {
    forall|tag: Seq<char>, other: Seq<u8>|
        is_label(tag) && #[trigger] armor(tag, other) == text ==> other == contents
}

/// Wrapping adds one line end for every line begun.
pub proof fn lemma_wrapped_len(text: Seq<char>)
    ensures
        wrapped(text).len() == text.len() + 2 * ((text.len() + 63) / 64),
    decreases text.len(),
{
    if text.len() > line_width() {
        lemma_wrapped_len(text.skip(line_width()));
    }
}

/// Two texts that wrap to the same lines are the same text.
pub proof fn lemma_wrapped_injective(a: Seq<char>, b: Seq<char>)
    requires
        wrapped(a) == wrapped(b),
    ensures
        a == b,
    decreases a.len(),
{
    lemma_wrapped_len(a);
    lemma_wrapped_len(b);
    assert(a.len() == b.len());
    if a.len() == 0 {
        assert(a =~= b);
    } else if a.len() <= line_width() {
        assert(a =~= wrapped(a).take(a.len() as int));
        assert(b =~= wrapped(b).take(b.len() as int));
    } else {
        let w = line_width();
        lemma_wrapped_len(a.skip(w));
        lemma_wrapped_len(b.skip(w));
        assert(a.take(w) =~= wrapped(a).take(w));
        assert(b.take(w) =~= wrapped(b).take(w));
        assert(wrapped(a.skip(w)) =~= wrapped(a).skip(w + 2));
        assert(wrapped(b.skip(w)) =~= wrapped(b).skip(w + 2));
        lemma_wrapped_injective(a.skip(w), b.skip(w));
        assert(a =~= a.take(w) + a.skip(w));
        assert(b =~= b.take(w) + b.skip(w));
    }
}

/// Where the label and the body lie in an armored text.
proof fn lemma_armor_layout(tag: Seq<char>, contents: Seq<u8>)
    ensures
        forall|i: int| 0 <= i < tag.len() ==> armor(tag, contents)[11 + i] == tag[i],
        armor(tag, contents)[11 + tag.len() as int] == '-',
        armor(tag, contents).len() == 2 * tag.len() + 34 + wrapped(codec::encode(contents)).len(),
        armor(tag, contents).subrange(
            tag.len() as int + 18,
            armor(tag, contents).len() as int - (tag.len() as int + 16),
        ) == wrapped(codec::encode(contents)),
{
    let n = tag.len() as int;
    let body = wrapped(codec::encode(contents));
    let head = begin_line(tag);
    let text = armor(tag, contents);
    assert(head.len() == n + 18);
    assert(end_line(tag).len() == n + 16);
    assert forall|i: int| 0 <= i < n implies text[11 + i] == tag[i] by {
        assert(text[11 + i] == head[11 + i]);
    }
    assert(text[11 + n] == head[11 + n]);
    assert(text.subrange(n + 18, text.len() as int - (n + 16)) =~= body);
}

/// An armored text has one reading: it gives away its label and its
/// contents.
pub proof fn lemma_armor_unambiguous(
    tag: Seq<char>,
    contents: Seq<u8>,
    other_tag: Seq<char>,
    other_contents: Seq<u8>,
)
    requires
        is_label(tag),
        is_label(other_tag),
        armor(tag, contents) == armor(other_tag, other_contents),
    ensures
        tag == other_tag,
        contents == other_contents,
{
    lemma_armor_layout(tag, contents);
    lemma_armor_layout(other_tag, other_contents);
    let text = armor(tag, contents);
    let n = tag.len() as int;
    let m = other_tag.len() as int;
    if n < m {
        assert(text[11 + n] == other_tag[n]);
    }
    if m < n {
        assert(text[11 + m] == tag[m]);
    }
    assert(tag =~= other_tag) by {
        assert forall|i: int| 0 <= i < n implies tag[i] == other_tag[i] by {
            assert(text[11 + i] == tag[i]);
        }
    }
    lemma_wrapped_injective(codec::encode(contents), codec::encode(other_contents));
    codec::lemma_encode_injective(contents, other_contents);
}

/// What `pem::parse` finds in `text`: the contents of its first block, or
/// nothing where it reports an error.
pub uninterp spec fn parsed_contents(text: Seq<char>) -> Option<Seq<u8>>;

/// The error with which `pem` refuses a text.
#[verifier::external_type_specification]
#[verifier::external_body]
pub struct ExPemError(pem::PemError);

/// `pem::encode` on a block without headers. It writes the opening line, the
/// base64 of the contents in lines of 64 symbols, and the closing line, every
/// line ended by CRLF.
#[verifier::external_body]
pub(crate) fn encode_block(tag: &str, contents: Vec<u8>) -> (text: String)
    ensures
        text@ == armor(tag@, contents@),
{
    pem::encode(&pem::Pem::new(tag, contents))
}

/// `pem::parse`, keeping the contents of the block it found. The result is
/// named by `parsed_contents`. One fact about it is claimed besides: a text
/// that `pem::encode` wrote under a dash-free, non-empty label parses, and
/// parses back to the contents it was written from. `pem` holds itself to
/// that round trip in its own test suite; here it is believed, not proved.
#[verifier::external_body]
pub(crate) fn parse_block(text: &str) -> (r: Result<Vec<u8>, pem::PemError>)
    ensures
        r matches Ok(bytes) ==> parsed_contents(text@) == Some(bytes@) && reads_as(text@, bytes@),
        r is Err ==> parsed_contents(text@) is None && !is_armored(text@),
{
    match pem::parse(text) {
        Ok(block) => Ok(block.into_contents()),
        Err(e) => Err(e),
    }
}

} // verus!
