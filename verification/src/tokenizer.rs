//! Tokenization: every character that is not an ASCII letter, ASCII digit,
//! space, or hyphen is turned into a space, runs of two or more spaces are
//! collapsed into one, the text is lowercased, and the result is split on
//! single spaces.  Splitting the empty string yields one empty token.

use vstd::prelude::*;

verus! {

/// A character that can appear inside a token: an ASCII letter, an ASCII
/// digit, or a hyphen.  Every other character acts as a separator.
pub open spec fn is_token_char(c: char) -> bool {
    ('a' <= c && c <= 'z') || ('A' <= c && c <= 'Z') || ('0' <= c && c <= '9') || c == '-'
}

/// A character that can appear in a finished token: lowercase letter, digit,
/// or hyphen.
pub open spec fn is_lower_token_char(c: char) -> bool {
    ('a' <= c && c <= 'z') || ('0' <= c && c <= '9') || c == '-'
}

/// ASCII lowercasing of a single character; characters outside 'A'..='Z' are
/// unchanged.
pub open spec fn lower_char(c: char) -> char {
    if 'A' <= c && c <= 'Z' {
        ((c as u32) + 32) as char
    } else {
        c
    }
}

/// One normalization step: token characters are lowercased and kept, every
/// other character (spaces included) becomes a space.
pub open spec fn norm_char(c: char) -> char {
    if is_token_char(c) {
        lower_char(c)
    } else {
        ' '
    }
}

/// Pointwise normalization of a whole text.
pub open spec fn normalize(s: Seq<char>) -> Seq<char> {
    s.map_values(|c: char| norm_char(c))
}

/// Collapses every run of two or more spaces into a single space; a lone
/// space, leading or trailing ones included, is kept as it is.
pub open spec fn collapse_spaces(s: Seq<char>) -> Seq<char>
    decreases s.len(),
{
    if s.len() == 0 {
        s
    } else if s.len() >= 2 && s[0] == ' ' && s[1] == ' ' {
        collapse_spaces(s.drop_first())
    } else {
        seq![s[0]] + collapse_spaces(s.drop_first())
    }
}

/// Splits on single spaces, keeping empty pieces: the empty string splits
/// into one empty token, and every space adds one more piece.
pub open spec fn split_spaces(s: Seq<char>) -> Seq<Seq<char>>
    decreases s.len(),
{
    if s.len() == 0 {
        seq![Seq::<char>::empty()]
    } else if s[0] == ' ' {
        seq![Seq::<char>::empty()] + split_spaces(s.drop_first())
    } else {
        let rest = split_spaces(s.drop_first());
        seq![seq![s[0]] + rest[0]] + rest.drop_first()
    }
}

/// The number of spaces in a text.
pub open spec fn count_spaces(s: Seq<char>) -> int
    decreases s.len(),
{
    if s.len() == 0 {
        0
    } else {
        (if s[0] == ' ' {
            1int
        } else {
            0int
        }) + count_spaces(s.drop_first())
    }
}

/// The token sequence of a text: normalize, collapse space runs, split.
pub open spec fn spec_tokenize(text: Seq<char>) -> Seq<Seq<char>> {
    split_spaces(collapse_spaces(normalize(text)))
}

/// The views of a sequence of strings.
pub open spec fn seq_views(ts: Seq<String>) -> Seq<Seq<char>> {
    ts.map_values(|t: String| t@)
}

/// Splitting always yields one piece more than there are spaces; in
/// particular it never yields an empty sequence.
pub proof fn lemma_split_spaces_len(s: Seq<char>)
    ensures
        split_spaces(s).len() == count_spaces(s) + 1,
    decreases s.len(),
{
    if s.len() != 0 {
        lemma_split_spaces_len(s.drop_first());
    }
}

/// Every character of a collapsed text occurs in the original text.
pub proof fn lemma_collapse_spaces_chars(s: Seq<char>)
    ensures
        forall|j: int|
            0 <= j < collapse_spaces(s).len() ==> s.contains(#[trigger] collapse_spaces(s)[j]),
    decreases s.len(),
{
    if s.len() == 0 {
    } else {
        lemma_collapse_spaces_chars(s.drop_first());
        assert forall|j: int|
            0 <= j < collapse_spaces(s).len() implies s.contains(
            #[trigger] collapse_spaces(s)[j],
        ) by {
            if s.len() >= 2 && s[0] == ' ' && s[1] == ' ' {
                let c = collapse_spaces(s)[j];
                assert(c == collapse_spaces(s.drop_first())[j]);
                assert(s.drop_first().contains(c));
                let k = choose|k: int| 0 <= k < s.drop_first().len() && s.drop_first()[k] == c;
                assert(s[k + 1] == c);
            } else {
                if j == 0 {
                    assert(s[0] == collapse_spaces(s)[j]);
                } else {
                    let c = collapse_spaces(s)[j];
                    assert(c == collapse_spaces(s.drop_first())[j - 1]);
                    assert(s.drop_first().contains(c));
                    let k = choose|k: int|
                        0 <= k < s.drop_first().len() && s.drop_first()[k] == c;
                    assert(s[k + 1] == c);
                }
            }
        }
    }
}

/// Collapsing never lengthens a text.
pub proof fn lemma_collapse_spaces_len(s: Seq<char>)
    ensures
        collapse_spaces(s).len() <= s.len(),
    decreases s.len(),
{
    if s.len() != 0 {
        lemma_collapse_spaces_len(s.drop_first());
    }
}

/// A collapsed text is empty only when its input is, and it starts with a
/// space exactly when its input does.
pub proof fn lemma_collapse_spaces_first(s: Seq<char>)
    ensures
        s.len() > 0 ==> collapse_spaces(s).len() > 0,
        s.len() > 0 ==> ((collapse_spaces(s)[0] == ' ') <==> (s[0] == ' ')),
    decreases s.len(),
{
    if s.len() != 0 {
        lemma_collapse_spaces_first(s.drop_first());
    }
}

/// No two adjacent characters of a text are both spaces.
pub open spec fn no_adjacent_spaces(s: Seq<char>) -> bool {
    forall|j: int| 0 <= j < s.len() - 1 ==> !(#[trigger] s[j] == ' ' && s[j + 1] == ' ')
}

/// A collapsed text has no two adjacent spaces.
pub proof fn lemma_collapse_spaces_no_adjacent(s: Seq<char>)
    ensures
        no_adjacent_spaces(collapse_spaces(s)),
    decreases s.len(),
{
    if s.len() == 0 {
    } else if s.len() >= 2 && s[0] == ' ' && s[1] == ' ' {
        lemma_collapse_spaces_no_adjacent(s.drop_first());
    } else {
        lemma_collapse_spaces_no_adjacent(s.drop_first());
        lemma_collapse_spaces_first(s.drop_first());
        let out = collapse_spaces(s);
        let rest = collapse_spaces(s.drop_first());
        assert forall|j: int| 0 <= j < out.len() - 1 implies !(#[trigger] out[j] == ' ' && out[j
            + 1] == ' ') by {
            if j == 0 {
                if out[0] == ' ' && out[1] == ' ' {
                    assert(out[1] == rest[0]);
                    assert(s.drop_first()[0] == ' ');
                    assert(s[0] == ' ' && s[1] == ' ');
                }
            } else {
                assert(out[j] == rest[j - 1] && out[j + 1] == rest[j]);
            }
        }
    }
}

/// Under no-adjacent-spaces, at most every other character is a space.
pub proof fn lemma_count_spaces_bound(s: Seq<char>)
    requires
        no_adjacent_spaces(s),
    ensures
        2 * count_spaces(s) <= s.len() + 1,
    decreases s.len(),
{
    if s.len() == 0 {
    } else if s[0] != ' ' {
        assert(no_adjacent_spaces(s.drop_first())) by {
            assert forall|j: int|
                0 <= j < s.drop_first().len() - 1 implies !(#[trigger] s.drop_first()[j] == ' '
                && s.drop_first()[j + 1] == ' ') by {
                assert(s[j + 1] == s.drop_first()[j] && s[j + 2] == s.drop_first()[j + 1]);
            }
        }
        lemma_count_spaces_bound(s.drop_first());
    } else if s.len() == 1 {
        assert(count_spaces(s) == 1 + count_spaces(s.drop_first()));
    } else {
        let t = s.drop_first().drop_first();
        assert(s[1] != ' ');
        assert(no_adjacent_spaces(t)) by {
            assert forall|j: int|
                0 <= j < t.len() - 1 implies !(#[trigger] t[j] == ' ' && t[j + 1] == ' ') by {
                assert(s[j + 2] == t[j] && s[j + 3] == t[j + 1]);
            }
        }
        lemma_count_spaces_bound(t);
        assert(count_spaces(s) == 1 + count_spaces(s.drop_first()));
        assert(count_spaces(s.drop_first()) == count_spaces(t));
    }
}

/// Every character of every token occurs in the split text, and no token
/// contains a space.
pub proof fn lemma_split_spaces_chars(s: Seq<char>)
    ensures
        forall|i: int, j: int|
            0 <= i < split_spaces(s).len() && 0 <= j < split_spaces(s)[i].len() ==> s.contains(
                #[trigger] split_spaces(s)[i][j],
            ) && split_spaces(s)[i][j] != ' ',
    decreases s.len(),
{
    if s.len() == 0 {
    } else {
        lemma_split_spaces_chars(s.drop_first());
        lemma_split_spaces_len(s.drop_first());
        let out = split_spaces(s);
        let rest = split_spaces(s.drop_first());
        assert forall|i: int, j: int|
            0 <= i < out.len() && 0 <= j < out[i].len() implies s.contains(#[trigger] out[i][j])
            && out[i][j] != ' ' by {
            if s[0] == ' ' {
                if i > 0 {
                    assert(out[i] == rest[i - 1]);
                    lemma_char_in_drop_first(s, rest[i - 1][j]);
                }
            } else {
                if i == 0 {
                    if j == 0 {
                        assert(out[0][0] == s[0]);
                    } else {
                        assert(out[0][j] == rest[0][j - 1]);
                        lemma_char_in_drop_first(s, rest[0][j - 1]);
                    }
                } else {
                    assert(out[i] == rest[i]);
                    lemma_char_in_drop_first(s, rest[i][j]);
                }
            }
        }
    }
}

/// A character contained in the tail of a text is contained in the text.
proof fn lemma_char_in_drop_first(s: Seq<char>, c: char)
    requires
        s.len() > 0,
        s.drop_first().contains(c),
    ensures
        s.contains(c),
{
    let k = choose|k: int| 0 <= k < s.drop_first().len() && s.drop_first()[k] == c;
    assert(s[k + 1] == c);
}

/// Every character of every token is a lowercase ASCII letter, an ASCII
/// digit, or a hyphen: no punctuation, no uppercase, and no space survives
/// tokenization.
pub proof fn lemma_tokens_well_formed(text: Seq<char>)
    ensures
        forall|i: int, j: int|
            0 <= i < spec_tokenize(text).len() && 0 <= j < spec_tokenize(text)[i].len()
                ==> is_lower_token_char(#[trigger] spec_tokenize(text)[i][j]),
{
    let cleaned = normalize(text);
    let collapsed = collapse_spaces(cleaned);
    lemma_collapse_spaces_chars(cleaned);
    lemma_split_spaces_chars(collapsed);
    assert forall|i: int, j: int|
        0 <= i < spec_tokenize(text).len() && 0 <= j < spec_tokenize(text)[i].len()
        implies is_lower_token_char(#[trigger] spec_tokenize(text)[i][j]) by {
        let c = spec_tokenize(text)[i][j];
        assert(collapsed.contains(c) && c != ' ');
        let k = choose|k: int| 0 <= k < collapsed.len() && collapsed[k] == c;
        assert(cleaned.contains(c));
        let l = choose|l: int| 0 <= l < cleaned.len() && cleaned[l] == c;
        assert(c == norm_char(text[l]));
    }
}

/// Relies on std's String::push: appends the character to the string.
#[verifier::external_body]
fn push_char(s: &mut String, c: char)
    ensures
        final(s)@ == old(s)@.push(c),
{
    s.push(c)
}

/// One executable normalization step, mirroring `norm_char`.
fn norm_char_exec(c: char) -> (r: char)
    ensures
        r == norm_char(c),
{
    if ('a' <= c && c <= 'z') || ('0' <= c && c <= '9') || c == '-' {
        c
    } else if 'A' <= c && c <= 'Z' {
        (((c as u32) + 32) as u8) as char
    } else {
        ' '
    }
}

/// Tokenizes a text: punctuation becomes spaces, space runs collapse to a
/// single space, the text is lowercased and split on spaces.  Splitting keeps
/// empty pieces, so the result always holds at least one token.
pub fn tokenize_with_no_punctuation(phrase: &str) -> (tokens: Vec<String>)
    ensures
        seq_views(tokens@) == spec_tokenize(phrase@),
        tokens@.len() >= 1,
        phrase@.len() <= usize::MAX,
{
    let n = phrase.unicode_len();
    let mut cleaned: Vec<char> = Vec::new();
    let mut i: usize = 0;
    while i < n
        invariant
            i <= n,
            n == phrase@.len(),
            cleaned@ == normalize(phrase@).take(i as int),
        decreases n - i,
    {
        let c = phrase.get_char(i);
        cleaned.push(norm_char_exec(c));
        proof {
            assert(cleaned@ =~= normalize(phrase@).take(i as int + 1));
        }
        i = i + 1;
    }
    proof {
        assert(cleaned@ =~= normalize(phrase@));
    }

    let m = cleaned.len();
    let mut collapsed: Vec<char> = Vec::new();
    i = 0;
    while i < m
        invariant
            i <= m,
            m == cleaned@.len(),
            collapsed@ + collapse_spaces(cleaned@.skip(i as int)) == collapse_spaces(cleaned@),
        decreases m - i,
    {
        let ghost pre = cleaned@.skip(i as int);
        proof {
            assert(pre.drop_first() =~= cleaned@.skip(i as int + 1));
        }
        if cleaned[i] == ' ' && i + 1 < m && cleaned[i + 1] == ' ' {
            proof {
                assert(collapse_spaces(pre) == collapse_spaces(cleaned@.skip(i as int + 1)));
            }
        } else {
            collapsed.push(cleaned[i]);
            proof {
                assert(collapse_spaces(pre) == seq![pre[0]] + collapse_spaces(
                    cleaned@.skip(i as int + 1),
                ));
                assert(collapsed@ + collapse_spaces(cleaned@.skip(i as int + 1))
                    =~= collapse_spaces(cleaned@));
            }
        }
        i = i + 1;
    }
    proof {
        assert(cleaned@.skip(m as int) =~= Seq::<char>::empty());
        assert(collapsed@ + collapse_spaces(cleaned@.skip(m as int)) =~= collapsed@);
    }

    let k = collapsed.len();
    let mut tokens: Vec<String> = Vec::new();
    let mut cur = String::new();
    i = 0;
    proof {
        lemma_split_spaces_len(collapsed@);
        assert(collapsed@.skip(0) =~= collapsed@);
        let ss = split_spaces(collapsed@);
        assert(prepend_first(cur@, ss) =~= ss);
        assert(seq_views(tokens@) + prepend_first(cur@, ss) =~= ss);
    }
    while i < k
        invariant
            i <= k,
            k == collapsed@.len(),
            split_spaces(collapsed@) == seq_views(tokens@) + prepend_first(
                cur@,
                split_spaces(collapsed@.skip(i as int)),
            ),
        decreases k - i,
    {
        let ghost pre = collapsed@.skip(i as int);
        let ghost old_tokens = tokens@;
        let ghost old_cur = cur@;
        proof {
            assert(pre.drop_first() =~= collapsed@.skip(i as int + 1));
            lemma_split_spaces_len(collapsed@.skip(i as int + 1));
        }
        let c = collapsed[i];
        if c == ' ' {
            tokens.push(cur);
            cur = String::new();
            proof {
                assert(split_spaces(pre) == seq![Seq::<char>::empty()] + split_spaces(
                    collapsed@.skip(i as int + 1),
                ));
                assert(seq_views(tokens@) =~= seq_views(old_tokens).push(old_cur));
                assert(seq_views(old_tokens) + prepend_first(old_cur, split_spaces(pre))
                    =~= seq_views(tokens@) + prepend_first(
                    cur@,
                    split_spaces(collapsed@.skip(i as int + 1)),
                ));
            }
        } else {
            push_char(&mut cur, c);
            proof {
                let rest = split_spaces(collapsed@.skip(i as int + 1));
                assert(split_spaces(pre) == seq![seq![pre[0]] + rest[0]] + rest.drop_first());
                assert(old_cur + (seq![pre[0]] + rest[0]) =~= cur@ + rest[0]);
                assert(seq_views(old_tokens) + prepend_first(old_cur, split_spaces(pre))
                    =~= seq_views(tokens@) + prepend_first(cur@, rest));
            }
        }
        i = i + 1;
    }
    let ghost old_tokens = tokens@;
    let ghost old_cur = cur@;
    tokens.push(cur);
    proof {
        assert(collapsed@.skip(k as int) =~= Seq::<char>::empty());
        assert(seq_views(tokens@) =~= seq_views(old_tokens).push(old_cur));
        assert(seq_views(old_tokens) + prepend_first(
            old_cur,
            split_spaces(collapsed@.skip(k as int)),
        ) =~= seq_views(tokens@));
        assert(seq_views(tokens@) == spec_tokenize(phrase@));
    }
    tokens
}

/// The first piece of a split extended to the left with a pending prefix.
pub open spec fn prepend_first(p: Seq<char>, ts: Seq<Seq<char>>) -> Seq<Seq<char>> {
    seq![p + ts[0]] + ts.drop_first()
}

/// Twice the number of tokens never exceeds the text length plus three: the
/// collapsed text has no adjacent spaces, so at most every other character
/// splits.
pub proof fn lemma_token_count(text: Seq<char>)
    ensures
        2 * spec_tokenize(text).len() <= text.len() + 3,
{
    let cleaned = normalize(text);
    let collapsed = collapse_spaces(cleaned);
    lemma_collapse_spaces_no_adjacent(cleaned);
    lemma_count_spaces_bound(collapsed);
    lemma_collapse_spaces_len(cleaned);
    lemma_split_spaces_len(collapsed);
}

} // verus!
