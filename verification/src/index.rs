//! The completion index: an immutable-after-build prefix index over the
//! registered command names and the configured literal completion phrases
//! (each phrase joined by single spaces).  The index is a byte trie from an
//! outside crate; its contents are modelled here as the set of character
//! sequences of the strings pushed into it, and every method the engine
//! calls is wrapped with a contract over that set.

use vstd::prelude::*;

use crate::command_table::CommandTable;
use crate::text::{is_prefix, join_words, lex_lt, lines_view};

verus! {

#[verifier::external_type_specification]
#[verifier::external_body]
#[verifier::reject_recursive_types(Label)]
pub struct ExTrie<Label>(trie_rs::Trie<Label>);

#[verifier::external_type_specification]
#[verifier::external_body]
#[verifier::reject_recursive_types(Label)]
pub struct ExTrieBuilder<Label>(trie_rs::TrieBuilder<Label>);

/// The entries of a byte trie, as the character sequences of the strings
/// that were pushed into it (every entry enters through `builder_push`, so
/// all of them are UTF-8).
pub uninterp spec fn trie_entries(t: trie_rs::Trie<u8>) -> Set<Seq<char>>;

/// The entries pushed into a trie builder so far, as character sequences.
pub uninterp spec fn builder_entries(b: trie_rs::TrieBuilder<u8>) -> Set<Seq<char>>;

/// Relies on `trie_rs::TrieBuilder::new`: a fresh builder holds no entries.
#[verifier::external_body]
fn builder_new() -> (r: trie_rs::TrieBuilder<u8>)
    ensures
        builder_entries(r) == Set::<Seq<char>>::empty(),
{
    trie_rs::TrieBuilder::new()
}

/// Relies on `trie_rs::TrieBuilder::push`: it records the entry's bytes.
/// Pushing an empty entry would panic inside the builder, so that input is
/// excluded.
#[verifier::external_body]
fn builder_push(b: &mut trie_rs::TrieBuilder<u8>, entry: &str)
    requires
        entry@.len() > 0,
    ensures
        builder_entries(*final(b)) == builder_entries(*old(b)).insert(entry@),
{
    b.push(entry.as_bytes());
}

/// Relies on `trie_rs::TrieBuilder::build`: the built trie holds exactly
/// the pushed entries.
#[verifier::external_body]
fn builder_build(b: trie_rs::TrieBuilder<u8>) -> (r: trie_rs::Trie<u8>)
    ensures
        trie_entries(r) == builder_entries(b),
{
    b.build()
}

/// The entries of the index that have `q` as a prefix: the candidates the
/// completion overlay offers for a normalized buffer `q`.
pub open spec fn matches_of(entries: Set<Seq<char>>, q: Seq<char>) -> Set<Seq<char>> {
    Set::new(|e: Seq<char>| entries.contains(e) && is_prefix(q, e))
}

/// Relies on `trie_rs::Trie::predictive_search`: it yields every entry
/// that has the query as a prefix, in lexicographic order (its iterator
/// walks children in sorted label order, and UTF-8 byte order coincides
/// with scalar-value order).  Entries that fail UTF-8 decoding would come
/// back empty, but every entry was pushed as a string.
#[verifier::external_body]
fn trie_search(t: &trie_rs::Trie<u8>, query: &str) -> (r: Vec<String>)
    ensures
        forall|i: int|
            0 <= i < r@.len() ==> matches_of(trie_entries(*t), query@).contains(
                #[trigger] r@[i]@,
            ),
        forall|e: Seq<char>|
            matches_of(trie_entries(*t), query@).contains(e) ==> lines_view(r@).contains(e),
        forall|i: int, j: int| 0 <= i < j < r@.len() ==> lex_lt(r@[i]@, r@[j]@),
{
    t.predictive_search::<Vec<u8>, _>(query.as_bytes())
        .map(|entry: Vec<u8>| String::from_utf8(entry).unwrap_or_default())
        .collect()
}

/// The character sequence a completion phrase contributes to the index:
/// its words joined by single spaces.
pub open spec fn phrase_text(p: Vec<String>) -> Seq<char> {
    crate::text::join_spaces(lines_view(p@))
}

/// What the index holds once built: every non-empty registered command
/// name, plus every non-empty joined completion phrase.  (The trie cannot
/// hold an empty entry, and an empty entry could never be offered anyway.)
pub open spec fn index_entries(commands: Set<Seq<char>>, phrases: Seq<Vec<String>>) -> Set<
    Seq<char>,
> {
    Set::new(
        |e: Seq<char>|
            e.len() > 0 && (commands.contains(e) || exists|j: int|
                0 <= j < phrases.len() && phrase_text(#[trigger] phrases[j]) == e),
    )
}

/// An ordered prediction list: at most `n` entries, each an index entry
/// with the query as prefix, lexicographically sorted, and nothing is left
/// out unless the list is full and everything left out sorts after it.
pub open spec fn is_prediction_list(
    entries: Set<Seq<char>>,
    q: Seq<char>,
    n: int,
    r: Seq<Seq<char>>,
) -> bool {
    &&& r.len() <= n
    &&& forall|i: int| 0 <= i < r.len() ==> matches_of(entries, q).contains(#[trigger] r[i])
    &&& forall|i: int, j: int| 0 <= i < j < r.len() ==> lex_lt(r[i], r[j])
    &&& forall|e: Seq<char>|
        matches_of(entries, q).contains(e) && !r.contains(e) ==> r.len() == n && (n > 0 ==> lex_lt(
            r[n - 1],
            e,
        ))
}

/// The prefix index, built once after command registration completes and
/// read-only afterwards.
pub struct CompletionIndex {
    pub trie: trie_rs::Trie<u8>,
}

impl View for CompletionIndex {
    type V = Set<Seq<char>>;

    open spec fn view(&self) -> Set<Seq<char>> {
        trie_entries(self.trie)
    }
}

impl CompletionIndex {
    /// Builds the index from the registered command names and the
    /// configured completion phrases.
    pub fn build(table: &CommandTable, phrases: &Vec<Vec<String>>) -> (r: CompletionIndex)
        ensures
            r@ == index_entries(table@, phrases@),
    {
        let mut b = builder_new();
        let ghost names = table.names@;
        let mut i: usize = 0;
        while i < table.names.len()
            invariant
                names == table.names@,
                i <= names.len(),
                builder_entries(b) =~= Set::new(
                    |e: Seq<char>|
                        e.len() > 0 && exists|k: int| 0 <= k < i && names[k]@ == e,
                ),
            decreases names.len() - i,
        {
            let ghost before = builder_entries(b);
            let name = &table.names[i];
            if !name.as_str().is_empty() {
                builder_push(&mut b, name.as_str());
            }
            proof {
                let target = Set::new(
                    |e: Seq<char>|
                        e.len() > 0 && exists|k: int| 0 <= k < i + 1 && names[k]@ == e,
                );
                assert forall|e: Seq<char>| builder_entries(b).contains(e) implies target.contains(
                    e,
                ) by {
                    if before.contains(e) {
                        let k = choose|k: int| 0 <= k < i && names[k]@ == e;
                        assert(0 <= k < i + 1 && names[k]@ == e);
                    } else {
                        assert(names[i as int]@ == e);
                    }
                }
                assert forall|e: Seq<char>| target.contains(e) implies builder_entries(b).contains(
                    e,
                ) by {
                    let k = choose|k: int| 0 <= k < i + 1 && names[k]@ == e;
                    if k < i {
                        assert(before.contains(e));
                    }
                }
                assert(builder_entries(b) =~= target);
            }
            i = i + 1;
        }
        let ghost after_names = builder_entries(b);
        let mut j: usize = 0;
        while j < phrases.len()
            invariant
                j <= phrases@.len(),
                builder_entries(b) =~= Set::new(
                    |e: Seq<char>|
                        after_names.contains(e) || (e.len() > 0 && exists|k: int|
                            0 <= k < j && phrase_text(#[trigger] phrases@[k]) == e),
                ),
            decreases phrases@.len() - j,
        {
            let ghost before = builder_entries(b);
            let joined = join_words(&phrases[j]);
            if !joined.as_str().is_empty() {
                builder_push(&mut b, joined.as_str());
            }
            proof {
                let target = Set::new(
                    |e: Seq<char>|
                        after_names.contains(e) || (e.len() > 0 && exists|k: int|
                            0 <= k < j + 1 && phrase_text(#[trigger] phrases@[k]) == e),
                );
                assert forall|e: Seq<char>| builder_entries(b).contains(e) implies target.contains(
                    e,
                ) by {
                    if !before.contains(e) {
                        assert(phrase_text(phrases@[j as int]) == e);
                    } else if !after_names.contains(e) {
                        let k = choose|k: int|
                            0 <= k < j && phrase_text(#[trigger] phrases@[k]) == e;
                        assert(0 <= k < j + 1 && phrase_text(phrases@[k]) == e);
                    }
                }
                assert forall|e: Seq<char>| target.contains(e) implies builder_entries(b).contains(
                    e,
                ) by {
                    if !after_names.contains(e) {
                        let k = choose|k: int|
                            0 <= k < j + 1 && phrase_text(#[trigger] phrases@[k]) == e;
                        if k < j {
                            assert(before.contains(e));
                        } else {
                            assert(phrase_text(phrases@[j as int]) == e);
                        }
                    }
                }
                assert(builder_entries(b) =~= target);
            }
            j = j + 1;
        }
        let r = CompletionIndex { trie: builder_build(b) };
        proof {
            let target = index_entries(table@, phrases@);
            assert forall|e: Seq<char>| r@.contains(e) implies target.contains(e) by {
                if after_names.contains(e) {
                    let k = choose|k: int| 0 <= k < names.len() && names[k]@ == e;
                    assert(table@.contains(e));
                }
            }
            assert forall|e: Seq<char>| target.contains(e) implies r@.contains(e) by {
                if table@.contains(e) {
                    let k = choose|k: int| 0 <= k < names.len() && names[k]@ == e;
                    assert(after_names.contains(e));
                }
            }
            assert(r@ =~= target);
        }
        r
    }

    /// The lexicographically first `limit` index entries that extend the
    /// query: exactly what the suggestion overlay shows.
    pub fn search(&self, query: &String, limit: usize) -> (r: Vec<String>)
        ensures
            is_prediction_list(self@, query@, limit as int, lines_view(r@)),
    {
        let mut r = trie_search(&self.trie, query.as_str());
        let ghost full = lines_view(r@);
        r.truncate(limit);
        proof {
            let rv = lines_view(r@);
            if limit <= full.len() {
                assert(rv =~= full.subrange(0, limit as int));
            } else {
                assert(rv =~= full);
            }
            let ms = matches_of(self@, query@);
            assert forall|e: Seq<char>| ms.contains(e) && !rv.contains(e) implies rv.len()
                == limit && (limit > 0 ==> lex_lt(rv[limit - 1], e)) by {
                assert(full.contains(e));
                let k = choose|k: int| 0 <= k < full.len() && full[k] == e;
                if k < rv.len() {
                    assert(rv[k] == e);
                    assert(rv.contains(e));
                }
                assert(rv.len() == limit);
                if limit > 0 {
                    assert(lex_lt(full[limit - 1], full[k]));
                }
            }
        }
        r
    }
}

} // verus!
