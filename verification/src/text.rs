//! Text as a sequence of characters: the pieces that artifact text is made of,
//! and the functions that append them.

use vstd::prelude::*;

verus! {

/// The error of `std::fmt::Write`.
#[verifier::external_type_specification]
#[verifier::external_body]
pub struct ExFmtError(std::fmt::Error);

/// `text` where `condition` holds, and nothing where it does not.
pub open spec fn text_if(condition: bool, text: Seq<char>) -> Seq<char> {
    if condition {
        text
    } else {
        Seq::empty()
    }
}

/// Every item in order, each with `before` in front of it and `after` behind it.
pub open spec fn each(before: Seq<char>, items: Seq<Seq<char>>, after: Seq<char>) -> Seq<char>
    decreases items.len(),
{
    if items.len() == 0 {
        Seq::empty()
    } else {
        each(before, items.drop_last(), after) + before + items.last() + after
    }
}

/// The item, if there is one, with `before` in front of it and `after` behind it.
pub open spec fn optional(before: Seq<char>, item: Option<String>, after: Seq<char>) -> Seq<char> {
    match item {
        Some(item) => before + item@ + after,
        None => Seq::empty(),
    }
}

/// What the string holds, if there is one.
pub open spec fn text_of(string: Option<String>) -> Option<Seq<char>> {
    match string {
        Some(string) => Some(string@),
        None => None,
    }
}

/// What each of the strings holds.
pub open spec fn texts(strings: Seq<String>) -> Seq<Seq<char>> {
    strings.map_values(|string: String| string@)
}

/// Concatenation is associative.
pub broadcast proof fn lemma_concat_associative(a: Seq<char>, b: Seq<char>, c: Seq<char>)
    ensures
        #[trigger] ((a + b) + c) == a + (b + c),
{
    assert(((a + b) + c) =~= a + (b + c));
}

/// To append nothing changes nothing.
pub broadcast proof fn lemma_concat_empty(a: Seq<char>)
    ensures
        #[trigger] (a + Seq::<char>::empty()) == a,
{
    assert((a + Seq::<char>::empty()) =~= a);
}

/// To put nothing in front changes nothing.
pub broadcast proof fn lemma_empty_concat(a: Seq<char>)
    ensures
        #[trigger] (Seq::<char>::empty() + a) == a,
{
    assert((Seq::<char>::empty() + a) =~= a);
}

/// The empty literal holds nothing.
pub proof fn lemma_empty_literal()
    ensures
        ""@ == Seq::<char>::empty(),
{
    reveal_strlit("");
    assert(""@ =~= Seq::<char>::empty());
}

/// One more item adds its own text behind that of the items before it.
pub proof fn lemma_each_push(
    before: Seq<char>,
    items: Seq<Seq<char>>,
    item: Seq<char>,
    after: Seq<char>,
)
    ensures
        each(before, items.push(item), after) == each(before, items, after) + before + item + after,
{
    assert(items.push(item).drop_last() =~= items);
}

/// Appends `text` where `condition` holds.
pub fn append_if(content: &mut String, condition: bool, text: &str)
    ensures
        final(content)@ == old(content)@ + text_if(condition, text@),
{
    broadcast use lemma_concat_empty;

    if condition {
        content.append(text);
    }
}

/// Appends the item, if there is one, with `before` in front of it and `after` behind it.
pub fn append_optional(content: &mut String, before: &str, item: &Option<String>, after: &str)
    ensures
        final(content)@ == old(content)@ + optional(before@, *item, after@),
{
    broadcast use {lemma_concat_associative, lemma_concat_empty};

    if let Some(item) = item {
        content.append(before);
        content.append(item.as_str());
        content.append(after);
    }
}

/// Appends every item, each with `before` in front of it and `after` behind it.
pub fn append_each(content: &mut String, before: &str, items: &Vec<String>, after: &str)
    ensures
        final(content)@ == old(content)@ + each(before@, texts(items@), after@),
{
    broadcast use {lemma_concat_associative, lemma_concat_empty};

    let mut i: usize = 0;
    assert(texts(items@.take(0)) =~= Seq::empty());
    while i < items.len()
        invariant
            i <= items.len(),
            content@ == old(content)@ + each(before@, texts(items@.take(i as int)), after@),
        decreases items.len() - i,
    {
        content.append(before);
        content.append(items[i].as_str());
        content.append(after);
        proof {
            assert(texts(items@.take(i + 1)) =~= texts(items@.take(i as int)).push(items@[i as int]@));
            lemma_each_push(before@, texts(items@.take(i as int)), items@[i as int]@, after@);
        }
        i = i + 1;
    }
    assert(items@.take(items@.len() as int) =~= items@);
}

} // verus!
