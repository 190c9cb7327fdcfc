//! The signature that a generated file carries in its docblock.

use vstd::prelude::*;
use vstd::utf8::encode_utf8;
use crate::replace::{
    apart, begins_not_in, contains_text, ends_not_in, lemma_replace_at, lemma_replace_nothing,
    lemma_replaced_is_gone, lemma_replacement_occurs, no_self_overlap, replace_all,
};

verus! {

/// The placeholder that signing replaces.
pub open spec fn placeholder() -> Seq<char> {
    "<<SignedSource::*O*zOeWoEQle#+L!plEphiEmie\x40IsG>>"@
}

/// What an unsigned file holds in the place of its signature.
pub open spec fn token() -> Seq<char> {
    "\x40generated "@ + placeholder()
}

/// The lower-case hexadecimal MD5 digest of a text's UTF-8 bytes.
pub uninterp spec fn source_digest(text: Seq<char>) -> Seq<char>;

/// The digits that a digest is written in.
pub open spec fn is_hex_digit(c: char) -> bool {
    '0' <= c <= '9' || 'a' <= c <= 'f'
}

/// The shape of a digest.
pub open spec fn is_digest(digest: Seq<char>) -> bool {
    &&& digest.len() == 32
    &&& forall|i: int| 0 <= i < digest.len() ==> is_hex_digit(#[trigger] digest[i])
}

/// The signature made of a digest.
pub open spec fn signature(digest: Seq<char>) -> Seq<char> {
    "SignedSource<<"@ + digest + ">>"@
}

/// `text` with the signature made of `digest` in every place that is held for it.
pub open spec fn signed_with(text: Seq<char>, digest: Seq<char>) -> Seq<char> {
    replace_all(text, placeholder(), signature(digest))
}

/// `result` is `text`, signed with a well-formed digest.
pub open spec fn is_signed_with(text: Seq<char>, digest: Seq<char>, result: Seq<char>) -> bool {
    &&& is_digest(digest)
    &&& result == signed_with(text, digest)
}

/// `text`, signed with its own digest.
pub open spec fn signed(text: Seq<char>) -> Seq<char> {
    signed_with(text, source_digest(text))
}

/// `bytes` are those of `text`, signed with its own digest.
pub open spec fn is_signed_file(text: Seq<char>, bytes: Seq<u8>) -> bool {
    &&& is_digest(source_digest(text))
    &&& bytes == encode_utf8(signed(text))
}

/// The constant `signedsource::SIGNING_TOKEN`. Claimed of it: the characters that it
/// holds.
#[verifier::external_body]
pub(crate) fn signing_token() -> (result: &'static str)
    ensures
        result@ == "\x40generated <<SignedSource::*O*zOeWoEQle#+L!plEphiEmie\x40IsG>>"@,
{
    signedsource::SIGNING_TOKEN
}

/// Calls `signedsource::sign_file`, which panics on a text without the placeholder.
/// Claimed of it: the result is the text with every placeholder replaced by the
/// signature that is made of the text's digest, and a digest is 32 hexadecimal digits.
#[verifier::external_body]
pub(crate) fn sign_file(data: &str) -> (result: String)
    requires
        contains_text(data@, placeholder()),
    ensures
        is_signed_with(data@, source_digest(data@), result@),
{
    signedsource::sign_file(data)
}

/// Signs a file and gives its bytes.
pub(crate) fn signed_bytes(content: String) -> (result: Vec<u8>)
    requires
        contains_text(content@, placeholder()),
    ensures
        is_signed_file(content@, result@),
{
    let signed_content: String = sign_file(content.as_str());
    signed_content.as_str().as_bytes_vec()
}

/// The characters of the signing token.
pub(crate) proof fn lemma_token()
    ensures
        "\x40generated <<SignedSource::*O*zOeWoEQle#+L!plEphiEmie\x40IsG>>"@ == token(),
{
    reveal_strlit("\x40generated <<SignedSource::*O*zOeWoEQle#+L!plEphiEmie\x40IsG>>");
    reveal_strlit("<<SignedSource::*O*zOeWoEQle#+L!plEphiEmie\x40IsG>>");
    reveal_strlit("\x40generated ");
    assert("\x40generated <<SignedSource::*O*zOeWoEQle#+L!plEphiEmie\x40IsG>>"@ =~= token());
}

/// What the characters of the placeholder are, as far as replacing it depends on them.
proof fn lemma_placeholder_shape()
    ensures
        placeholder().len() > 0,
        no_self_overlap(placeholder()),
{
    reveal_strlit("<<SignedSource::*O*zOeWoEQle#+L!plEphiEmie\x40IsG>>");
    let word = placeholder();
    let n = word.len() as int;
    assert forall|shift: int| 0 < shift < n implies word.skip(shift) != #[trigger] word.take(
        n - shift,
    ) by {
        let head = word.take(n - shift);
        let tail = word.skip(shift);
        assert(tail[n - shift - 1] == '>');
        assert(head[n - shift - 1] == word[n - shift - 1]);
        assert(tail[0] == word[shift]);
        if shift == 1 {
            assert(tail[1] == word[2]);
            assert(head[1] == word[1]);
        }
    }
}

/// No placeholder can share a character with a signature.
proof fn lemma_signature_apart(digest: Seq<char>)
    requires
        is_digest(digest),
    ensures
        apart(placeholder(), signature(digest)),
{
    reveal_strlit("<<SignedSource::*O*zOeWoEQle#+L!plEphiEmie\x40IsG>>");
    reveal_strlit("SignedSource<<");
    reveal_strlit(">>");
    let word = placeholder();
    let by = signature(digest);
    assert forall|p: int| 0 <= p < by.len() implies #[trigger] begins_not_in(word, by, p) by {
        if p == 12 {
            assert(is_hex_digit(digest[0]));
            assert(by[p + 2] != word[2]);
        } else {
            if 14 <= p < 46 {
                assert(is_hex_digit(digest[p - 14]));
            }
            if p == 13 {
                assert(is_hex_digit(digest[0]));
                assert(by[p + 1] != word[1]);
            } else {
                assert(by[p + 0] != word[0]);
            }
        }
    }
    assert forall|d: int| 0 < d < word.len() implies #[trigger] ends_not_in(word, by, d) by {
        if d == 2 {
            assert(word[d + 12] != by[12]);
        } else if d == 8 {
            assert(word[d + 1] != by[1]);
        } else {
            assert(word[d + 0] != by[0]);
        }
    }
}

/// A signed text holds no placeholder any more.
pub proof fn lemma_signed_holds_no_placeholder(text: Seq<char>, digest: Seq<char>)
    requires
        is_digest(digest),
    ensures
        !contains_text(signed_with(text, digest), placeholder()),
{
    lemma_placeholder_shape();
    lemma_signature_apart(digest);
    lemma_replaced_is_gone(text, placeholder(), signature(digest));
}

/// A text that holds a placeholder holds the signature once it is signed.
pub proof fn lemma_signed_holds_signature(text: Seq<char>, digest: Seq<char>)
    requires
        contains_text(text, placeholder()),
    ensures
        contains_text(signed_with(text, digest), signature(digest)),
{
    lemma_placeholder_shape();
    lemma_replacement_occurs(text, placeholder(), signature(digest));
}

/// Signing puts the signature in the place of a placeholder, and treats what stands
/// before it and behind it as if it stood alone.
pub proof fn lemma_signed_around_placeholder(
    before: Seq<char>,
    after: Seq<char>,
    digest: Seq<char>,
)
    ensures
        signed_with(before + placeholder() + after, digest) == signed_with(before, digest)
            + signature(digest) + signed_with(after, digest),
{
    lemma_placeholder_shape();
    lemma_replace_at(before, after, placeholder(), signature(digest));
}

/// Signing changes nothing but placeholders.
pub proof fn lemma_signed_without_placeholder(text: Seq<char>, digest: Seq<char>)
    requires
        !contains_text(text, placeholder()),
    ensures
        signed_with(text, digest) == text,
{
    lemma_replace_nothing(text, placeholder(), signature(digest));
}

} // verus!
