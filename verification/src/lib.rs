//! Lexicon-based sentiment scoring: text is tokenized, each token is looked
//! up in a word-to-weight lexicon, and the matched weights are aggregated
//! into positive, negative, and combined scores.

use vstd::prelude::*;

pub mod afinn;
pub mod analysis;
pub mod lexicon;
pub mod tokenizer;

pub use analysis::Analysis;
pub use analysis::Sentiment;
pub use lexicon::Lexicon;
pub use tokenizer::tokenize_with_no_punctuation;

use analysis::scan;
use analysis::spec_analysis;
use analysis::spec_sentiment;
use lexicon::bundled_map;
use tokenizer::lemma_token_count;
use tokenizer::spec_tokenize;

verus! {

/// The bundled lexicon, or an empty one should the bundled text not parse;
/// `Lexicon::bundled` lets a caller observe a load failure directly.
fn bundled_or_empty() -> (lex: Lexicon)
    ensures
        lex@ == bundled_map(),
{
    match Lexicon::bundled() {
        Some(l) => l,
        None => {
            let lex = Lexicon::from_entries(Vec::new());
            proof {
                assert(lexicon::entries_view(Seq::<(String, i64)>::empty())
                    =~= Seq::<(Seq<char>, int)>::empty());
            }
            lex
        },
    }
}

/// Calculates the negativity of a sentence: the tokens whose bundled-lexicon
/// weight is strictly negative, with the sum of those weights' absolute
/// values as the score.
pub fn negativity(phrase: String) -> (r: Sentiment)
    ensures
        r@ == spec_sentiment(bundled_map(), phrase@, true),
{
    let lex = bundled_or_empty();
    let tokens = tokenize_with_no_punctuation(phrase.as_str());
    let s = scan(&lex, &tokens, true);
    proof {
        assert(s@ =~= spec_sentiment(bundled_map(), phrase@, true));
    }
    s
}

/// Calculates the positivity of a sentence: the tokens whose bundled-lexicon
/// weight is strictly positive, with the sum of those weights as the score.
pub fn positivity(phrase: String) -> (r: Sentiment)
    ensures
        r@ == spec_sentiment(bundled_map(), phrase@, false),
{
    let lex = bundled_or_empty();
    let tokens = tokenize_with_no_punctuation(phrase.as_str());
    let s = scan(&lex, &tokens, false);
    proof {
        assert(s@ =~= spec_sentiment(bundled_map(), phrase@, false));
    }
    s
}

/// Calculates the overall sentiment of a sentence: both polarity passes over
/// the same tokens, with the positivity score minus the negativity score as
/// the combined score.
pub fn analyze(phrase: String) -> (r: Analysis)
    ensures
        r@ == spec_analysis(bundled_map(), phrase@),
{
    let lex = bundled_or_empty();
    let tokens = tokenize_with_no_punctuation(phrase.as_str());
    let pos = scan(&lex, &tokens, false);
    let neg = scan(&lex, &tokens, true);
    proof {
        lemma_token_count(phrase@);
        assert(tokens@.len() == spec_tokenize(phrase@).len());
        assert(2 * tokens@.len() <= usize::MAX + 3);
        assert(tokens@.len() * 0x8000_0000_0000_0000 <= 0x8000_0000_0000_0002u128
            * 0x8000_0000_0000_0000) by (nonlinear_arith)
            requires
                tokens@.len() <= 0x8000_0000_0000_0002u128,
        ;
    }
    let score: i128 = (pos.score as i128) - (neg.score as i128);
    let r = Analysis { score, positive: pos, negative: neg };
    proof {
        assert(r@ =~= spec_analysis(bundled_map(), phrase@));
    }
    r
}

} // verus!
