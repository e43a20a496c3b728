//! The sentiment aggregator and the combined analysis.  One pass scans a
//! token sequence against a lexicon for a single polarity, accumulating the
//! score and the matched words; the combined analysis joins both polarities
//! over the same tokens.

use vstd::prelude::*;

use crate::lexicon::Lexicon;
use crate::tokenizer::seq_views;
use crate::tokenizer::spec_tokenize;

verus! {

/// The weight a mapping gives a token: its entry when the token is present,
/// zero when it is absent.
pub open spec fn weight_of(m: Map<Seq<char>, int>, t: Seq<char>) -> int {
    if m.dom().contains(t) {
        m[t]
    } else {
        0
    }
}

/// Whether a token matches a polarity: a strictly negative weight for the
/// negative pass, a strictly positive weight for the positive pass.  A zero
/// weight, and an absent token, match neither.
pub open spec fn matches_polarity(m: Map<Seq<char>, int>, t: Seq<char>, negative: bool) -> bool {
    if negative {
        weight_of(m, t) < 0
    } else {
        weight_of(m, t) > 0
    }
}

/// The matched words of one polarity pass: the tokens whose weight has the
/// matching sign, in the order encountered, duplicates kept.
pub open spec fn spec_words(m: Map<Seq<char>, int>, ts: Seq<Seq<char>>, negative: bool) -> Seq<
    Seq<char>,
> {
    ts.filter(|t: Seq<char>| matches_polarity(m, t, negative))
}

/// The absolute value of a weight.
pub open spec fn abs_of(w: int) -> int {
    if w < 0 {
        -w
    } else {
        w
    }
}

/// The score of one polarity pass: the sum of the absolute weights of the
/// matching tokens.
pub open spec fn spec_score(m: Map<Seq<char>, int>, ts: Seq<Seq<char>>, negative: bool) -> int
    decreases ts.len(),
{
    if ts.len() == 0 {
        0
    } else {
        spec_score(m, ts.drop_last(), negative) + (if matches_polarity(m, ts.last(), negative) {
            abs_of(weight_of(m, ts.last()))
        } else {
            0
        })
    }
}

/// The outcome of one polarity pass over a text.
pub struct Sentiment {
    /// The polarity score: the sum of the absolute weights of the matched
    /// words.  Never negative.
    pub score: u128,
    /// How many tokens the text produced, matching or not, empty tokens
    /// counted too.  The comparative score of a pass is `score` divided by
    /// this count; the division is left to the caller, since with no tokens
    /// it has no defined value.
    pub tokens: usize,
    /// The matched words, in the order encountered, duplicates kept.
    pub words: Vec<String>,
}

/// The abstract value of a `Sentiment`.
#[verifier::ext_equal]
pub ghost struct SentimentView {
    pub score: int,
    pub tokens: int,
    pub words: Seq<Seq<char>>,
}

impl View for Sentiment {
    type V = SentimentView;

    open spec fn view(&self) -> SentimentView {
        SentimentView {
            score: self.score as int,
            tokens: self.tokens as int,
            words: seq_views(self.words@),
        }
    }
}

/// The outcome of a combined analysis of a text.
pub struct Analysis {
    /// The overall score: the positivity score minus the negativity score.
    /// Signed, unlike the two polarity scores.
    pub score: i128,
    /// The positive polarity pass.
    pub positive: Sentiment,
    /// The negative polarity pass.
    pub negative: Sentiment,
}

/// The abstract value of an `Analysis`.
#[verifier::ext_equal]
pub ghost struct AnalysisView {
    pub score: int,
    pub positive: SentimentView,
    pub negative: SentimentView,
}

impl View for Analysis {
    type V = AnalysisView;

    open spec fn view(&self) -> AnalysisView {
        AnalysisView { score: self.score as int, positive: self.positive@, negative: self.negative@ }
    }
}

/// What one polarity pass over a text yields under a given lexicon mapping.
pub open spec fn spec_sentiment(m: Map<Seq<char>, int>, text: Seq<char>, negative: bool) -> SentimentView {
    SentimentView {
        score: spec_score(m, spec_tokenize(text), negative),
        tokens: spec_tokenize(text).len() as int,
        words: spec_words(m, spec_tokenize(text), negative),
    }
}

/// What the combined analysis of a text yields under a given lexicon mapping.
pub open spec fn spec_analysis(m: Map<Seq<char>, int>, text: Seq<char>) -> AnalysisView {
    AnalysisView {
        score: spec_sentiment(m, text, false).score - spec_sentiment(m, text, true).score,
        positive: spec_sentiment(m, text, false),
        negative: spec_sentiment(m, text, true),
    }
}

/// Law: the matched words of the negative pass all carry strictly negative
/// weights, those of the positive pass strictly positive ones, and the two
/// word lists share no word.
pub proof fn lemma_polarity_words(m: Map<Seq<char>, int>, ts: Seq<Seq<char>>)
    ensures
        forall|i: int|
            0 <= i < spec_words(m, ts, true).len() ==> weight_of(
                m,
                #[trigger] spec_words(m, ts, true)[i],
            ) < 0,
        forall|i: int|
            0 <= i < spec_words(m, ts, false).len() ==> weight_of(
                m,
                #[trigger] spec_words(m, ts, false)[i],
            ) > 0,
        forall|w: Seq<char>|
            !(#[trigger] spec_words(m, ts, true).contains(w) && spec_words(m, ts, false).contains(
                w,
            )),
{
    broadcast use vstd::seq_lib::group_filter_ensures;

    assert forall|w: Seq<char>|
        !(#[trigger] spec_words(m, ts, true).contains(w) && spec_words(m, ts, false).contains(
            w,
        )) by {
        if spec_words(m, ts, true).contains(w) && spec_words(m, ts, false).contains(w) {
            let i = choose|i: int|
                0 <= i < spec_words(m, ts, true).len() && spec_words(m, ts, true)[i] == w;
            let j = choose|j: int|
                0 <= j < spec_words(m, ts, false).len() && spec_words(m, ts, false)[j] == w;
            assert(matches_polarity(m, spec_words(m, ts, true)[i], true));
            assert(matches_polarity(m, spec_words(m, ts, false)[j], false));
        }
    }
}

/// The sum of the absolute weights of a word list.
pub open spec fn abs_weight_sum(m: Map<Seq<char>, int>, ws: Seq<Seq<char>>) -> int
    decreases ws.len(),
{
    if ws.len() == 0 {
        0
    } else {
        abs_weight_sum(m, ws.drop_last()) + abs_of(weight_of(m, ws.last()))
    }
}

/// Law: a polarity score is never negative, and it equals the sum of the
/// absolute weights of exactly the matched words.
pub proof fn lemma_score_is_abs_sum(m: Map<Seq<char>, int>, ts: Seq<Seq<char>>, negative: bool)
    ensures
        spec_score(m, ts, negative) >= 0,
        spec_score(m, ts, negative) == abs_weight_sum(m, spec_words(m, ts, negative)),
    decreases ts.len(),
{
    reveal(Seq::filter);
    if ts.len() == 0 {
    } else {
        lemma_score_is_abs_sum(m, ts.drop_last(), negative);
        let words = spec_words(m, ts, negative);
        let sub = spec_words(m, ts.drop_last(), negative);
        if matches_polarity(m, ts.last(), negative) {
            assert(words == sub.push(ts.last()));
            assert(words.drop_last() =~= sub);
            assert(words.last() == ts.last());
        }
    }
}

/// Law: the combined score decomposes into the positivity score minus the
/// negativity score; the three results all derive from the same weight sums
/// over the same tokens.
pub proof fn lemma_analysis_score_decomposes(
    m: Map<Seq<char>, int>,
    text: Seq<char>,
    combined: AnalysisView,
    positive: SentimentView,
    negative: SentimentView,
)
    requires
        combined == spec_analysis(m, text),
        positive == spec_sentiment(m, text, false),
        negative == spec_sentiment(m, text, true),
    ensures
        combined.score == positive.score - negative.score,
{
}

/// Law: analysis is a pure function of the text and the lexicon: two results
/// that meet the analysis contract for the same text and mapping are equal.
pub proof fn lemma_analysis_deterministic(
    m: Map<Seq<char>, int>,
    text: Seq<char>,
    first: AnalysisView,
    second: AnalysisView,
)
    requires
        first == spec_analysis(m, text),
        second == spec_analysis(m, text),
    ensures
        first == second,
{
}

/// Scans a token sequence against a lexicon for one polarity.  Each token is
/// looked up; a token whose weight has the matching sign adds the weight's
/// absolute value to the score and is appended to the matched words; absent
/// tokens, zero weights, and weights of the other sign contribute nothing.
pub fn scan(lex: &Lexicon, tokens: &Vec<String>, negative: bool) -> (s: Sentiment)
    ensures
        s@.score == spec_score(lex@, seq_views(tokens@), negative),
        s@.tokens == tokens@.len(),
        s@.words == spec_words(lex@, seq_views(tokens@), negative),
        s@.score <= tokens@.len() * 0x8000_0000_0000_0000,
{
    let ghost ts = seq_views(tokens@);
    let n = tokens.len();
    let mut score: u128 = 0;
    let mut words: Vec<String> = Vec::new();
    let mut i: usize = 0;
    proof {
        assert(ts.take(0) =~= Seq::<Seq<char>>::empty());
        assert(seq_views(words@) =~= Seq::<Seq<char>>::empty());
        reveal(Seq::filter);
    }
    while i < n
        invariant
            i <= n,
            n == tokens@.len(),
            ts == seq_views(tokens@),
            score == spec_score(lex@, ts.take(i as int), negative),
            score <= i * 0x8000_0000_0000_0000,
            seq_views(words@) == spec_words(lex@, ts.take(i as int), negative),
        decreases n - i,
    {
        let ghost old_words = words@;
        proof {
            reveal(Seq::filter);
            assert(ts.take(i as int + 1).drop_last() =~= ts.take(i as int));
            assert(ts.take(i as int + 1).last() == tokens@[i as int]@);
        }
        let mut matched = false;
        let mut magnitude: u128 = 0;
        match lex.lookup(&tokens[i]) {
            Some(w) => {
                if negative && w < 0 {
                    matched = true;
                    magnitude = (-(w as i128)) as u128;
                } else if !negative && w > 0 {
                    matched = true;
                    magnitude = w as u128;
                }
            },
            None => {},
        }
        if matched {
            score = score + magnitude;
            words.push(tokens[i].clone());
            proof {
                assert(seq_views(words@) =~= seq_views(old_words).push(tokens@[i as int]@));
            }
        }
        i = i + 1;
    }
    proof {
        assert(ts.take(n as int) =~= ts);
    }
    Sentiment { score, tokens: n, words }
}

} // verus!
