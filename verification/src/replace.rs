//! Words in a text, and their replacement.

use vstd::prelude::*;

verus! {

/// `word` stands in `text` at position `i`.
pub open spec fn occurs_at(text: Seq<char>, word: Seq<char>, i: int) -> bool {
    &&& 0 <= i
    &&& i + word.len() <= text.len()
    &&& text.subrange(i, i + word.len()) == word
}

/// `word` stands somewhere in `text`.
pub open spec fn contains_text(text: Seq<char>, word: Seq<char>) -> bool {
    exists|i: int| occurs_at(text, word, i)
}

/// `text` with every occurrence of `word` replaced by `by`, where the text is read
/// from left to right and no two replaced occurrences overlap.
pub open spec fn replace_all(text: Seq<char>, word: Seq<char>, by: Seq<char>) -> Seq<char>
    decreases text.len(),
{
    if word.len() == 0 || text.len() < word.len() {
        text
    } else if occurs_at(text, word, 0) {
        by + replace_all(text.skip(word.len() as int), word, by)
    } else {
        text.take(1) + replace_all(text.skip(1), word, by)
    }
}

/// No proper part at the end of `word` is also a part at its beginning, so no two
/// occurrences of `word` overlap.
pub open spec fn no_self_overlap(word: Seq<char>) -> bool {
    forall|shift: int|
        0 < shift < word.len() ==> word.skip(shift) != #[trigger] word.take(word.len() - shift)
}

/// `word` cannot begin at position `p` of `by`, whatever follows `by`.
pub open spec fn begins_not_in(word: Seq<char>, by: Seq<char>, p: int) -> bool {
    exists|j: int| 0 <= j < word.len() && p + j < by.len() && by[p + j] != #[trigger] word[j]
}

/// `by` cannot begin at position `d` of `word`, whatever follows `word`.
pub open spec fn ends_not_in(word: Seq<char>, by: Seq<char>, d: int) -> bool {
    exists|j: int| 0 <= j < by.len() && d + j < word.len() && word[d + j] != #[trigger] by[j]
}

/// No occurrence of `word` can share a character with `by`.
pub open spec fn apart(word: Seq<char>, by: Seq<char>) -> bool {
    &&& forall|p: int| 0 <= p < by.len() ==> #[trigger] begins_not_in(word, by, p)
    &&& forall|d: int| 0 < d < word.len() ==> #[trigger] ends_not_in(word, by, d)
}

/// What a text holds it still holds when more is appended.
pub broadcast proof fn lemma_contains_in_front(front: Seq<char>, more: Seq<char>, word: Seq<char>)
    requires
        contains_text(front, word),
    ensures
        #[trigger] contains_text(front + more, word),
{
    let i = choose|i: int| occurs_at(front, word, i);
    assert((front + more).subrange(i, i + word.len()) =~= front.subrange(i, i + word.len()));
    assert(occurs_at(front + more, word, i));
}

/// Text that does not hold the word is left as it is.
pub proof fn lemma_replace_nothing(text: Seq<char>, word: Seq<char>, by: Seq<char>)
    requires
        !contains_text(text, word),
    ensures
        replace_all(text, word, by) == text,
    decreases text.len(),
{
    if word.len() > 0 && text.len() >= word.len() {
        let rest = text.skip(1);
        assert(!occurs_at(text, word, 0));
        assert forall|i: int| !occurs_at(rest, word, i) by {
            if occurs_at(rest, word, i) {
                assert(text.subrange(i + 1, i + 1 + word.len()) =~= rest.subrange(
                    i,
                    i + word.len(),
                ));
                assert(occurs_at(text, word, i + 1));
            }
        }
        lemma_replace_nothing(rest, word, by);
        assert(text.take(1) + rest =~= text);
    }
}

/// An occurrence of a word that does not overlap itself is replaced, and what stands
/// before it and behind it is treated as if it stood alone.
pub proof fn lemma_replace_at(before: Seq<char>, after: Seq<char>, word: Seq<char>, by: Seq<char>)
    requires
        word.len() > 0,
        no_self_overlap(word),
    ensures
        replace_all(before + word + after, word, by) == replace_all(before, word, by) + by
            + replace_all(after, word, by),
    decreases before.len(),
{
    let text = before + word + after;
    let n = word.len() as int;
    if before.len() == 0 {
        assert(text.subrange(0, n) =~= word);
        assert(text.skip(n) =~= after);
        assert(replace_all(before, word, by) =~= before);
        assert(before + by + replace_all(after, word, by) =~= by + replace_all(after, word, by));
    } else if occurs_at(text, word, 0) {
        if before.len() < n {
            let shift = before.len() as int;
            assert(word.skip(shift) =~= word.take(n - shift)) by {
                assert forall|k: int| 0 <= k < n - shift implies word.skip(shift)[k] == word.take(
                    n - shift,
                )[k] by {
                    assert(text.subrange(0, n)[shift + k] == text[shift + k]);
                }
            }
            assert(false);
        }
        let rest = before.skip(n);
        assert(before.subrange(0, n) =~= text.subrange(0, n));
        assert(text.skip(n) =~= rest + word + after);
        lemma_replace_at(rest, after, word, by);
        assert(by + (replace_all(rest, word, by) + by + replace_all(after, word, by)) =~= by
            + replace_all(rest, word, by) + by + replace_all(after, word, by));
    } else {
        let rest = before.skip(1);
        assert(text.skip(1) =~= rest + word + after);
        assert(text.take(1) =~= before.take(1));
        lemma_replace_at(rest, after, word, by);
        assert(before.take(1) + (replace_all(rest, word, by) + by + replace_all(after, word, by))
            =~= before.take(1) + replace_all(rest, word, by) + by + replace_all(after, word, by));
        if before.len() < n {
            assert(replace_all(before, word, by) =~= before);
            assert(replace_all(rest, word, by) =~= rest);
            assert(before.take(1) + rest =~= before);
        } else {
            assert(before.subrange(0, n) =~= text.subrange(0, n));
        }
    }
}

/// A tail in which the word cannot end stays as it is.
pub proof fn lemma_replace_keeps_tail(
    text: Seq<char>,
    tail: Seq<char>,
    word: Seq<char>,
    by: Seq<char>,
)
    requires
        word.len() > 0,
        forall|k: int| 0 <= k < tail.len() ==> #[trigger] tail[k] != word.last(),
    ensures
        replace_all(text + tail, word, by) == replace_all(text, word, by) + tail,
    decreases text.len(),
{
    let whole = text + tail;
    let n = word.len() as int;
    if occurs_at(whole, word, 0) {
        assert(whole.subrange(0, n)[n - 1] == word.last());
        if text.len() < n {
            assert(tail[n - 1 - text.len()] == word.last());
        }
        assert(text.subrange(0, n) =~= whole.subrange(0, n));
        assert(whole.skip(n) =~= text.skip(n) + tail);
        lemma_replace_keeps_tail(text.skip(n), tail, word, by);
        assert(by + (replace_all(text.skip(n), word, by) + tail) =~= by + replace_all(
            text.skip(n),
            word,
            by,
        ) + tail);
    } else if text.len() == 0 {
        assert(whole =~= tail);
        assert forall|i: int| !occurs_at(whole, word, i) by {
            if occurs_at(whole, word, i) {
                assert(whole.subrange(i, i + n)[n - 1] == tail[i + n - 1]);
            }
        }
        lemma_replace_nothing(whole, word, by);
        assert(replace_all(text, word, by) + tail =~= tail);
    } else {
        let rest = text.skip(1);
        assert(whole.skip(1) =~= rest + tail);
        assert(whole.take(1) =~= text.take(1));
        lemma_replace_keeps_tail(rest, tail, word, by);
        assert(text.take(1) + (replace_all(rest, word, by) + tail) =~= text.take(1) + replace_all(
            rest,
            word,
            by,
        ) + tail);
        if text.len() < n {
            assert(replace_all(text, word, by) == text);
            assert(replace_all(rest, word, by) == rest);
            assert(text.take(1) + rest =~= text);
        } else {
            assert(text.subrange(0, n) =~= whole.subrange(0, n));
        }
    }
}

/// The replaced text is the same as the text up to the first replacement.
proof fn lemma_replace_prefix(text: Seq<char>, word: Seq<char>, by: Seq<char>) -> (q: int)
    requires
        word.len() > 0,
        contains_text(text, word),
    ensures
        occurs_at(replace_all(text, word, by), by, q),
        q <= text.len(),
        replace_all(text, word, by).take(q) == text.take(q),
    decreases text.len(),
{
    let result = replace_all(text, word, by);
    if occurs_at(text, word, 0) {
        assert(result.subrange(0, by.len() as int) =~= by);
        assert(result.take(0) =~= text.take(0));
        0
    } else {
        let i = choose|i: int| occurs_at(text, word, i);
        let rest = text.skip(1);
        assert(rest.subrange(i - 1, i - 1 + word.len()) =~= text.subrange(i, i + word.len()));
        assert(occurs_at(rest, word, i - 1));
        let q = lemma_replace_prefix(rest, word, by);
        let inner = replace_all(rest, word, by);
        assert(result == text.take(1) + inner);
        assert(result.subrange(q + 1, q + 1 + by.len()) =~= inner.subrange(q, q + by.len()));
        assert forall|k: int| 0 <= k < q + 1 implies result[k] == text[k] by {
            if k > 0 {
                assert(inner.take(q)[k - 1] == rest.take(q)[k - 1]);
            }
        }
        assert(result.take(q + 1) =~= text.take(q + 1));
        q + 1
    }
}

/// Where the word is there, what replaces it is there afterwards.
pub proof fn lemma_replacement_occurs(text: Seq<char>, word: Seq<char>, by: Seq<char>)
    requires
        word.len() > 0,
        contains_text(text, word),
    ensures
        contains_text(replace_all(text, word, by), by),
{
    let q = lemma_replace_prefix(text, word, by);
}

/// No occurrence of the word is left where none can share a character with what
/// replaces it.
pub proof fn lemma_replaced_is_gone(text: Seq<char>, word: Seq<char>, by: Seq<char>)
    requires
        word.len() > 0,
        apart(word, by),
    ensures
        !contains_text(replace_all(text, word, by), word),
    decreases text.len(),
{
    let result = replace_all(text, word, by);
    let n = word.len() as int;
    assert forall|i: int| !occurs_at(result, word, i) by {
        if occurs_at(result, word, i) {
            assert forall|k: int| 0 <= k < n implies result[i + k] == word[k] by {
                assert(result.subrange(i, i + n)[k] == result[i + k]);
            }
            if text.len() < n {
                assert(result == text);
            } else if occurs_at(text, word, 0) {
                let inner = replace_all(text.skip(n), word, by);
                assert(result == by + inner);
                if i < by.len() {
                    assert(begins_not_in(word, by, i));
                    let j = choose|j: int|
                        0 <= j < word.len() && i + j < by.len() && by[i + j] != #[trigger] word[j];
                    assert(result[i + j] == word[j]);
                } else {
                    lemma_replaced_is_gone(text.skip(n), word, by);
                    assert(inner.subrange(i - by.len(), i - by.len() + n) =~= result.subrange(
                        i,
                        i + n,
                    ));
                    assert(occurs_at(inner, word, i - by.len()));
                }
            } else {
                let rest = text.skip(1);
                let inner = replace_all(rest, word, by);
                assert(result == text.take(1) + inner);
                if i > 0 {
                    lemma_replaced_is_gone(rest, word, by);
                    assert(inner.subrange(i - 1, i - 1 + n) =~= result.subrange(i, i + n));
                    assert(occurs_at(inner, word, i - 1));
                } else if contains_text(rest, word) {
                    let q = lemma_replace_prefix(rest, word, by);
                    if q + 1 >= n {
                        assert forall|k: int| 0 <= k < n implies text[k] == word[k] by {
                            assert(result[0 + k] == word[k]);
                            if k > 0 {
                                assert(inner.take(q)[k - 1] == rest.take(q)[k - 1]);
                            }
                        }
                        assert(text.subrange(0, n) =~= word);
                    } else {
                        let d = q + 1;
                        assert(ends_not_in(word, by, d));
                        let j = choose|j: int|
                            0 <= j < by.len() && d + j < word.len() && word[d + j]
                                != #[trigger] by[j];
                        assert(result[0 + (d + j)] == word[d + j]);
                        assert(inner.subrange(q, q + by.len())[j] == by[j]);
                    }
                } else {
                    lemma_replace_nothing(rest, word, by);
                    assert(text.take(1) + rest =~= text);
                }
            }
        }
    }
}

} // verus!
