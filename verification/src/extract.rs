//! Rules that the site parsers share: how the text of matched elements
//! becomes fields of a product.

use vstd::prelude::*;
use vstd::string::*;
use crate::models::{SpecEntry, SpecGroup};
use crate::text::{replace_text, replaced, trim, trimmed};

verus! {

/// Why a page could not be read.
#[derive(Debug, Clone, Copy, PartialEq, Eq)]
pub enum ExtractError {
    /// The pattern for the product id does not compile.
    BadPattern,
    /// One of the selectors is not accepted.
    BadSelector,
}

/// What stands for a text that the page does not have.
pub open spec fn not_found() -> Seq<char> {
    "Not Found"@
}

/// What stands for a product id that the address does not have.
pub open spec fn id_not_found() -> Seq<char> {
    "ID Not Found"@
}

/// The first of the texts.
pub open spec fn first(texts: Seq<Seq<char>>) -> Option<Seq<char>> {
    if texts.len() > 0 {
        Some(texts[0])
    } else {
        None
    }
}

/// The first of the texts, trimmed.
pub open spec fn first_trimmed(texts: Seq<Seq<char>>) -> Option<Seq<char>> {
    if texts.len() > 0 {
        Some(trim(texts[0]))
    } else {
        None
    }
}

/// The text, or what stands for a missing one.
pub open spec fn or_not_found(text: Option<Seq<char>>) -> Seq<char> {
    match text {
        Some(text) => text,
        None => not_found(),
    }
}

/// The texts trimmed, without those that are empty then.
pub open spec fn trimmed_nonempty(texts: Seq<Seq<char>>) -> Seq<Seq<char>>
    decreases texts.len(),
{
    if texts.len() == 0 {
        Seq::empty()
    } else {
        let rest = trimmed_nonempty(texts.drop_last());
        let last = trim(texts.last());
        if last.len() > 0 {
            rest.push(last)
        } else {
            rest
        }
    }
}

/// The sources that are present, each with `from` replaced by `to`.
pub open spec fn rewritten(sources: Seq<Option<Seq<char>>>, from: Seq<char>, to: Seq<char>) -> Seq<
    Seq<char>,
>
    decreases sources.len(),
{
    if sources.len() == 0 {
        Seq::empty()
    } else {
        let rest = rewritten(sources.drop_last(), from, to);
        match sources.last() {
            Some(source) => rest.push(replaced(source, from, to)),
            None => rest,
        }
    }
}

/// Index of the entry with this key that was put last.
pub open spec fn key_index<V>(entries: Seq<(Seq<char>, V)>, key: Seq<char>) -> Option<int>
    decreases entries.len(),
{
    if entries.len() == 0 {
        None
    } else if entries.last().0 == key {
        Some(entries.len() - 1)
    } else {
        key_index(entries.drop_last(), key)
    }
}

/// The table with `value` under `key`: in the place of the entry that had
/// the key, or at the end if none had it.
pub open spec fn put<V>(entries: Seq<(Seq<char>, V)>, key: Seq<char>, value: V) -> Seq<
    (Seq<char>, V),
> {
    match key_index(entries, key) {
        Some(index) => entries.update(index, (key, value)),
        None => entries.push((key, value)),
    }
}

/// No key occurs twice.
pub open spec fn keys_unique<V>(entries: Seq<(Seq<char>, V)>) -> bool {
    forall|i: int, j: int|
        0 <= i < j < entries.len() ==> (#[trigger] entries[i]).0 != (#[trigger] entries[j]).0
}

/// An index that `key_index` gives holds the key, and without one no entry does.
pub proof fn lemma_key_index<V>(entries: Seq<(Seq<char>, V)>, key: Seq<char>)
    ensures
        match key_index(entries, key) {
            Some(index) => 0 <= index < entries.len() && entries[index].0 == key,
            None => forall|i: int| 0 <= i < entries.len() ==> (#[trigger] entries[i]).0 != key,
        },
    decreases entries.len(),
{
    if entries.len() > 0 && entries.last().0 != key {
        lemma_key_index(entries.drop_last(), key);
        match key_index(entries.drop_last(), key) {
            Some(index) => {},
            None => {
                assert forall|i: int| 0 <= i < entries.len() implies (#[trigger] entries[i]).0
                    != key by {
                    if i < entries.len() - 1 {
                        assert(entries.drop_last()[i] == entries[i]);
                    }
                }
            },
        }
    }
}

/// A table with unique keys keeps them unique when an entry is put, and
/// the key then leads to the value.
pub proof fn lemma_put_keeps_keys_unique<V>(entries: Seq<(Seq<char>, V)>, key: Seq<char>, value: V)
    requires
        keys_unique(entries),
    ensures
        keys_unique(put(entries, key, value)),
        key_index(put(entries, key, value), key) matches Some(index) && put(
            entries,
            key,
            value,
        )[index].1 == value,
{
    lemma_key_index(entries, key);
    let after = put(entries, key, value);
    lemma_key_index(after, key);
    match key_index(entries, key) {
        Some(index) => {
            assert(after[index].0 == key);
        },
        None => {
            assert(after[entries.len() as int].0 == key);
        },
    }
    let found = key_index(after, key)->0;
    assert(after[found].1 == value) by {
        match key_index(entries, key) {
            Some(index) => {
                if found != index {
                    if found < index {
                        assert(after[found].0 != after[index].0);
                    } else {
                        assert(after[index].0 != after[found].0);
                    }
                }
            },
            None => {
                if found != entries.len() {
                    assert(entries[found].0 != key);
                }
            },
        }
    }
}

/// The first of the texts, trimmed, or what stands for a missing text.
pub fn first_trimmed_or_not_found(texts: &Vec<String>) -> (text: String)
    ensures
        text@ == or_not_found(first_trimmed(texts.deep_view())),
{
    if texts.len() > 0 {
        trimmed(texts[0].as_str())
    } else {
        String::from_str("Not Found")
    }
}

/// The first of the texts, trimmed.
pub fn first_trimmed_text(texts: &Vec<String>) -> (text: Option<String>)
    ensures
        text.deep_view() == first_trimmed(texts.deep_view()),
{
    if texts.len() > 0 {
        Some(trimmed(texts[0].as_str()))
    } else {
        None
    }
}

/// The first of the texts.
pub fn first_text(texts: &Vec<String>) -> (text: Option<String>)
    ensures
        text.deep_view() == first(texts.deep_view()),
{
    if texts.len() > 0 {
        Some(texts[0].clone())
    } else {
        None
    }
}

/// Trims the texts and drops those that are empty then.
pub fn trim_and_drop_empty(texts: &Vec<String>) -> (kept: Vec<String>)
    ensures
        kept.deep_view() == trimmed_nonempty(texts.deep_view()),
{
    let mut kept: Vec<String> = Vec::new();
    let mut i: usize = 0;
    assert(texts.deep_view().take(0) =~= Seq::empty());
    assert(kept.deep_view() =~= Seq::empty());
    while i < texts.len()
        invariant
            i <= texts.len(),
            kept.deep_view() == trimmed_nonempty(texts.deep_view().take(i as int)),
        decreases texts.len() - i,
    {
        let text = trimmed(texts[i].as_str());
        let ghost before = kept.deep_view();
        assert(texts.deep_view().take(i + 1).drop_last() =~= texts.deep_view().take(i as int));
        assert(texts.deep_view().take(i + 1).last() == texts[i as int]@);
        if !text.as_str().is_empty() {
            kept.push(text);
            assert(kept.deep_view() =~= before.push(text@));
        }
        i += 1;
    }
    assert(texts.deep_view().take(texts.len() as int) =~= texts.deep_view());
    kept
}

/// Keeps the sources that are present and replaces `from` by `to` in each.
pub fn rewrite_sources(sources: &Vec<Option<String>>, from: &str, to: &str) -> (images: Vec<String>)
    ensures
        images.deep_view() == rewritten(sources.deep_view(), from@, to@),
{
    let mut images: Vec<String> = Vec::new();
    let mut i: usize = 0;
    assert(sources.deep_view().take(0) =~= Seq::empty());
    assert(images.deep_view() =~= Seq::empty());
    while i < sources.len()
        invariant
            i <= sources.len(),
            images.deep_view() == rewritten(sources.deep_view().take(i as int), from@, to@),
        decreases sources.len() - i,
    {
        let ghost before = images.deep_view();
        assert(sources.deep_view().take(i + 1).drop_last() =~= sources.deep_view().take(i as int));
        assert(sources.deep_view().take(i + 1).last() == sources[i as int].deep_view());
        match &sources[i] {
            Some(source) => {
                let image = replace_text(source.as_str(), from, to);
                images.push(image);
                assert(images.deep_view() =~= before.push(image@));
            },
            None => {},
        }
        i += 1;
    }
    assert(sources.deep_view().take(sources.len() as int) =~= sources.deep_view());
    images
}

/// Puts `value` under `key`: a later value takes the place of an earlier one.
pub fn put_entry(entries: &mut Vec<SpecEntry>, key: String, value: String)
    ensures
        final(entries).deep_view() == put(old(entries).deep_view(), key@, value@),
{
    let ghost table = entries.deep_view();
    let mut i: usize = entries.len();
    assert(table.take(i as int) =~= table);
    while i > 0
        invariant
            i <= entries.len(),
            table == entries.deep_view(),
            table == old(entries).deep_view(),
            key_index(table, key@) == key_index(table.take(i as int), key@),
        decreases i,
    {
        i -= 1;
        assert(table.take(i + 1).drop_last() =~= table.take(i as int));
        assert(table.take(i + 1).last() == table[i as int]);
        if entries[i].key == key {
            entries.set(i, SpecEntry { key, value });
            assert(entries.deep_view() =~= put(table, key@, value@));
            return ;
        }
    }
    assert(table.take(0) =~= Seq::empty());
    entries.push(SpecEntry { key, value });
    assert(entries.deep_view() =~= put(table, key@, value@));
}

/// Puts a group of entries under `title`: a later group takes the place of
/// an earlier one with the same title.
pub fn put_group(groups: &mut Vec<SpecGroup>, title: String, entries: Vec<SpecEntry>)
    ensures
        final(groups).deep_view() == put(old(groups).deep_view(), title@, entries.deep_view()),
{
    let ghost table = groups.deep_view();
    let mut i: usize = groups.len();
    assert(table.take(i as int) =~= table);
    while i > 0
        invariant
            i <= groups.len(),
            table == groups.deep_view(),
            table == old(groups).deep_view(),
            key_index(table, title@) == key_index(table.take(i as int), title@),
        decreases i,
    {
        i -= 1;
        assert(table.take(i + 1).drop_last() =~= table.take(i as int));
        assert(table.take(i + 1).last() == table[i as int]);
        if groups[i].title == title {
            groups.set(i, SpecGroup { title, entries });
            assert(groups.deep_view() =~= put(table, title@, entries.deep_view()));
            return ;
        }
    }
    assert(table.take(0) =~= Seq::empty());
    groups.push(SpecGroup { title, entries });
    assert(groups.deep_view() =~= put(table, title@, entries.deep_view()));
}

} // verus!
