//! Bounded reads of a file's head: what is kept of the bytes read, how they
//! are decoded, and when the truncation message is appended.
use vstd::prelude::*;
use vstd::utf8::*;

verus! {

/// The text that lossy UTF-8 decoding makes of `bytes`.
pub uninterp spec fn lossy_text(bytes: Seq<u8>) -> Seq<char>;

/// The first `limit` bytes of `content`, or all of it when it is no longer.
pub open spec fn head_bytes(content: Seq<u8>, limit: nat) -> Seq<u8> {
    if content.len() <= limit {
        content
    } else {
        content.take(limit as int)
    }
}

/// Whether a read of `limit` bytes leaves part of `content` out.
pub open spec fn is_truncated(content: Seq<u8>, limit: nat) -> bool {
    content.len() > limit
}

/// The head of `content` decoded as text.
pub open spec fn head_string(content: Seq<u8>, limit: nat) -> Seq<char> {
    lossy_text(head_bytes(content, limit))
}

/// The head of `content` decoded as text, followed by `message` when
/// something was left out.
pub open spec fn head_string_with_message(content: Seq<u8>, limit: nat, message: Seq<char>) -> Seq<
    char,
> {
    if is_truncated(content, limit) {
        head_string(content, limit) + message
    } else {
        head_string(content, limit)
    }
}

/// Relies on `String::from_utf8_lossy`: the text depends on the bytes alone,
/// and bytes that are valid UTF-8 decode exactly, with no replacement.
#[verifier::external_body]
fn decode_lossy(bytes: &[u8]) -> (r: String)
    ensures
        r@ == lossy_text(bytes@),
        valid_utf8(bytes@) ==> r@ == decode_utf8(bytes@),
{
    String::from_utf8_lossy(bytes).into_owned()
}

/// How many bytes to read so that `head_to_string_with_message` can tell
/// whether a file is longer than `limit`: one more than `limit`, unless no
/// length can exceed it.
pub fn probe_length(limit: usize) -> (r: usize)
    ensures
        r == if limit < usize::MAX {
            limit + 1
        } else {
            limit as int
        },
{
    if limit < usize::MAX {
        limit + 1
    } else {
        limit
    }
}

/// The first `min(limit, content.len())` bytes of `content`, unchanged.
pub fn take_head(content: &[u8], limit: usize) -> (r: Vec<u8>)
    ensures
        r@ == head_bytes(content@, limit as nat),
{
    let n: usize = if content.len() <= limit {
        content.len()
    } else {
        limit
    };
    let mut r: Vec<u8> = Vec::with_capacity(n);
    let mut i: usize = 0;
    while i < n
        invariant
            n <= content@.len(),
            i <= n,
            r@ == content@.take(i as int),
        decreases n - i,
    {
        r.push(content[i]);
        i = i + 1;
        assert(r@ =~= content@.take(i as int));
    }
    assert(content@.take(content@.len() as int) =~= content@);
    r
}

/// The head of `content` (at most `limit` bytes) decoded as UTF-8, each
/// invalid sequence replaced by U+FFFD. Where the kept bytes are valid UTF-8,
/// a character cut at the limit is never among them, and they decode exactly.
pub fn head_to_string(content: &[u8], limit: usize) -> (r: String)
    ensures
        r@ == head_string(content@, limit as nat),
        valid_utf8(head_bytes(content@, limit as nat)) ==> r@ == decode_utf8(
            head_bytes(content@, limit as nat),
        ),
{
    let head = take_head(content, limit);
    decode_lossy(head.as_slice())
}

/// As `head_to_string`, followed by `truncation_message` when `content` is
/// longer than `limit`; when it is not, the whole content is decoded and the
/// message is left out.
pub fn head_to_string_with_message(content: &[u8], limit: usize, truncation_message: &str) -> (r:
    String)
    ensures
        r@ == head_string_with_message(content@, limit as nat, truncation_message@),
        valid_utf8(head_bytes(content@, limit as nat)) ==> r@ == if is_truncated(
            content@,
            limit as nat,
        ) {
            decode_utf8(head_bytes(content@, limit as nat)) + truncation_message@
        } else {
            decode_utf8(head_bytes(content@, limit as nat))
        },
{
    let mut r = head_to_string(content, limit);
    if content.len() > limit {
        r.append(truncation_message);
    }
    r
}

/// A read of `probe_length(limit)` bytes is enough: the head it keeps and
/// whether it was cut are the same as for the whole content.
pub proof fn lemma_probe_suffices(content: Seq<u8>, limit: nat)
    ensures
        head_bytes(head_bytes(content, limit + 1), limit) == head_bytes(content, limit),
        is_truncated(head_bytes(content, limit + 1), limit) == is_truncated(content, limit),
{
    let probe = head_bytes(content, limit + 1);
    if content.len() > limit + 1 {
        assert(probe.take(limit as int) =~= content.take(limit as int));
    }
}

/// A head read returns the whole content when it is no longer than the
/// limit, and otherwise exactly `limit` bytes, the content's first ones.
pub proof fn lemma_head_bytes(content: Seq<u8>, limit: nat)
    ensures
        content.len() <= limit ==> head_bytes(content, limit) == content,
        content.len() > limit ==> head_bytes(content, limit).len() == limit && forall|i: int|
            0 <= i < limit ==> #[trigger] head_bytes(content, limit)[i] == content[i],
{
}

/// Decoded heads are well-formed text: encoding them again gives valid
/// UTF-8, wherever the limit fell in the source bytes.
pub proof fn lemma_head_string_is_valid_utf8(content: Seq<u8>, limit: nat)
    ensures
        valid_utf8(encode_utf8(head_string(content, limit))),
{
    encode_utf8_valid_utf8(head_string(content, limit));
}

/// The truncation message appears exactly when the content is longer than
/// the limit, after the decoded head; otherwise the whole content is decoded.
pub proof fn lemma_message_only_when_truncated(content: Seq<u8>, limit: nat, message: Seq<char>)
    ensures
        content.len() > limit ==> head_string_with_message(content, limit, message) == head_string(
            content,
            limit,
        ) + message,
        content.len() <= limit ==> head_string_with_message(content, limit, message) == lossy_text(
            content,
        ),
{
}

} // verus!
