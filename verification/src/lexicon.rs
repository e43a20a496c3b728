//! The lexicon: an immutable mapping from lowercase words to signed integer
//! sentiment weights.  A lexicon can be built from explicit entries or parsed
//! from a JSON object; a later entry for the same word overrides an earlier
//! one.

use vstd::prelude::*;

verus! {

/// What serde_json's parser yields on a given text when the text is a JSON
/// object whose values are 64-bit integers: the word/weight pairs in the
/// order the parser hands them out, or nothing when the text has any other
/// shape.
pub uninterp spec fn json_lexicon(s: Seq<char>) -> Option<Seq<(Seq<char>, int)>>;

/// The views of a sequence of word/weight pairs.
pub open spec fn entries_view(es: Seq<(String, i64)>) -> Seq<(Seq<char>, int)> {
    es.map_values(|e: (String, i64)| (e.0@, e.1 as int))
}

/// The mapping described by a sequence of word/weight pairs; a later entry
/// for the same word overrides an earlier one.
pub open spec fn map_of(es: Seq<(Seq<char>, int)>) -> Map<Seq<char>, int>
    decreases es.len(),
{
    if es.len() == 0 {
        Map::empty()
    } else {
        map_of(es.drop_last()).insert(es.last().0, es.last().1)
    }
}

/// Relies on serde_json::from_str, deserializing into a
/// std::collections::BTreeMap<String, i64>: the text parses exactly when it
/// is a JSON object whose values fit a 64-bit signed integer, and the entries
/// come out as word/weight pairs.
#[verifier::external_body]
fn parse_entries(json: &str) -> (r: Option<Vec<(String, i64)>>)
    ensures
        (r is Some) == (json_lexicon(json@) is Some),
        r is Some ==> entries_view((r->0)@) == json_lexicon(json@)->0,
{
    match serde_json::from_str::<std::collections::BTreeMap<String, i64>>(json) {
        Ok(m) => Some(m.into_iter().collect()),
        Err(_) => None,
    }
}

/// The mapping of the bundled word list: what parsing the bundled JSON
/// yields, or the empty mapping should that text not parse as a lexicon.
pub open spec fn bundled_map() -> Map<Seq<char>, int> {
    match json_lexicon(crate::afinn::AFINN_JSON@) {
        Some(es) => map_of(es),
        None => Map::empty(),
    }
}

/// An immutable word-to-weight mapping.  Its abstract value is the mapping
/// from word views to mathematical integer weights.
pub struct Lexicon {
    entries: Vec<(String, i64)>,
}

impl View for Lexicon {
    type V = Map<Seq<char>, int>;

    closed spec fn view(&self) -> Map<Seq<char>, int> {
        map_of(entries_view(self.entries@))
    }
}

/// A mapping at a key is untouched by entries whose word differs from it:
/// the mapping of `es` agrees at `k` with the mapping of `es.take(j)` when no
/// entry from position `j` on carries the word `k`.
proof fn lemma_map_of_unmatched_suffix(es: Seq<(Seq<char>, int)>, k: Seq<char>, j: int)
    requires
        0 <= j <= es.len(),
        forall|l: int| j <= l < es.len() ==> (#[trigger] es[l]).0 != k,
    ensures
        map_of(es).dom().contains(k) <==> map_of(es.take(j)).dom().contains(k),
        map_of(es).dom().contains(k) ==> map_of(es)[k] == map_of(es.take(j))[k],
    decreases es.len() - j,
{
    if j == es.len() {
        assert(es.take(j) =~= es);
    } else {
        lemma_map_of_unmatched_suffix(es, k, j + 1);
        assert(es.take(j + 1).drop_last() =~= es.take(j));
        assert(es.take(j + 1).last() == es[j]);
    }
}

impl Lexicon {
    /// Builds a lexicon from explicit word/weight entries; a later entry for
    /// the same word overrides an earlier one.
    pub fn from_entries(entries: Vec<(String, i64)>) -> (lex: Lexicon)
        ensures
            lex@ == map_of(entries_view(entries@)),
    {
        Lexicon { entries }
    }

    /// Parses a lexicon from a JSON object of words to integer weights.
    /// Returns the lexicon exactly when the text has that shape, and nothing
    /// otherwise: a malformed data source is surfaced, never folded into an
    /// empty lexicon.
    pub fn from_json(json: &str) -> (r: Option<Lexicon>)
        ensures
            (r is Some) == (json_lexicon(json@) is Some),
            r is Some ==> (r->0)@ == map_of(json_lexicon(json@)->0),
    {
        match parse_entries(json) {
            Some(v) => Some(Lexicon { entries: v }),
            None => None,
        }
    }

    /// Loads the bundled word list.  Nothing comes back only when the
    /// bundled text does not parse as a lexicon: a load failure is a hard
    /// error that this result surfaces, never a silent empty lexicon.
    pub fn bundled() -> (r: Option<Lexicon>)
        ensures
            (r is Some) == (json_lexicon(crate::afinn::AFINN_JSON@) is Some),
            r is Some ==> (r->0)@ == bundled_map(),
    {
        Lexicon::from_json(crate::afinn::AFINN_JSON)
    }

    /// Looks the word up: its weight when the word is present, nothing when
    /// it is absent.  Absence is normal control flow, not a failure.
    pub fn lookup(&self, word: &String) -> (r: Option<i64>)
        ensures
            match r {
                Some(w) => self@.dom().contains(word@) && self@[word@] == w as int,
                None => !self@.dom().contains(word@),
            },
    {
        let ghost es = entries_view(self.entries@);
        let mut i: usize = self.entries.len();
        while i > 0
            invariant
                i <= self.entries@.len(),
                es == entries_view(self.entries@),
                forall|l: int| i <= l < es.len() ==> (#[trigger] es[l]).0 != word@,
            decreases i,
        {
            i = i - 1;
            if self.entries[i].0 == *word {
                proof {
                    assert(es[i as int].0 == word@);
                    lemma_map_of_unmatched_suffix(es, word@, i as int + 1);
                    assert(es.take(i as int + 1).drop_last() =~= es.take(i as int));
                    assert(es.take(i as int + 1).last() == es[i as int]);
                }
                return Some(self.entries[i].1);
            }
            proof {
                assert(es[i as int].0 != word@);
            }
        }
        proof {
            lemma_map_of_unmatched_suffix(es, word@, 0);
            assert(es.take(0) =~= Seq::<(Seq<char>, int)>::empty());
        }
        None
    }
}

} // verus!
