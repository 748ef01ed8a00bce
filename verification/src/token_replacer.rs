//! Replaces the tokens found in content with their values.

use vstd::prelude::*;
use crate::str_map::{StrMap, pairs_view, lemma_pairs_to_map_unique};
use crate::template_variable_expander::ExpandedValue;
use crate::shared_models::StringTokenReplacer;

verus! {

/// Content that may hold tokens.
#[derive(Debug, Clone, PartialEq)]
pub struct ContentWithTokens {
    pub value: String,
}

/// Content with its tokens replaced.
#[derive(Debug, Clone, PartialEq)]
pub struct ContentTokensReplaced {
    pub value: String,
}

impl ContentWithTokens {
    pub fn new(value: &str) -> (r: Self)
        ensures
            r.value@ == value@,
    {
        ContentWithTokens { value: value.to_string() }
    }
}

impl ContentTokensReplaced {
    /// The replaced content.
    pub fn as_ref(&self) -> (r: &str)
        ensures
            r@ == self.value@,
    {
        self.value.as_str()
    }
}

/// Replaces the tokens in content.
pub trait TokenReplacer {
    fn replace_content_token(&self, content_with_token: ContentWithTokens) -> ContentTokensReplaced;
}

/// What `aho_corasick` gives when it replaces, in `haystack`, every match of
/// the patterns found leftmost first, the longest at a position, by the
/// replacement of the same index.
pub uninterp spec fn leftmost_longest_replaced(
    patterns: Seq<Seq<char>>,
    replacements: Seq<Seq<char>>,
    haystack: Seq<char>,
) -> Seq<char>;

/// The views of a list of strings.
pub open spec fn views(s: Seq<String>) -> Seq<Seq<char>> {
    s.map_values(|x: String| x@)
}

/// Builds an automaton of `patterns` with `aho_corasick`'s
/// `AhoCorasickBuilder` set to `MatchKind::LeftmostLongest`, and replaces all
/// matches in `haystack` with `AhoCorasick::replace_all`. The result is named
/// by `leftmost_longest_replaced`; the source of `replace_all_with` copies the
/// haystack unchanged where nothing matches, so with no patterns the result is
/// the haystack. `replace_all` panics unless there is one replacement per
/// pattern, and an empty pattern matches at every byte, so that slicing a
/// haystack between two such matches inside a character panics; the
/// precondition rules out both.
#[verifier::external_body]
fn replace_all_leftmost_longest(patterns: &Vec<String>, replacements: &Vec<String>, haystack: &str) -> (r: String)
    requires
        patterns.len() == replacements.len(),
        forall|i: int| 0 <= i < patterns.len() ==> #[trigger] patterns@[i]@.len() > 0,
    ensures
        r@ == leftmost_longest_replaced(views(patterns@), views(replacements@), haystack@),
        patterns.len() == 0 ==> r@ == haystack@,
{
    aho_corasick::AhoCorasickBuilder::new()
        .match_kind(aho_corasick::MatchKind::LeftmostLongest)
        .build(patterns)
        .replace_all(haystack, replacements)
}

/// Replaces tokens by their values, all in one pass, preferring the longest
/// token where several start at the same place.
#[derive(Debug)]
pub struct AhoCorasickTokenReplacer {
    patterns: Vec<String>,
    replacements: Vec<String>,
}

impl AhoCorasickTokenReplacer {
    /// The tokens searched for.
    pub closed spec fn patterns(&self) -> Seq<Seq<char>> {
        views(self.patterns@)
    }

    /// The value of each token, by the token's index.
    pub closed spec fn replacements(&self) -> Seq<Seq<char>> {
        views(self.replacements@)
    }

    #[verifier::type_invariant]
    closed spec fn wf(&self) -> bool {
        &&& self.patterns@.len() == self.replacements@.len()
        &&& forall|i: int| 0 <= i < self.patterns@.len() ==> #[trigger] self.patterns@[i]@.len() > 0
    }

    /// A replacer for the given tokens and values: each token once, with its
    /// value. No token may be empty.
    pub fn new(expanded_variables: StrMap<ExpandedValue>) -> (r: Self)
        requires
            forall|k: Seq<char>| #[trigger] expanded_variables@.dom().contains(k) ==> k.len() > 0,
        ensures
            r.patterns().len() == r.replacements().len(),
            r.patterns().no_duplicates(),
            r.patterns().to_set() == expanded_variables@.dom(),
            forall|i: int| 0 <= i < r.patterns().len() ==> #[trigger] r.patterns()[i].len() > 0,
            forall|i: int| 0 <= i < r.patterns().len() ==> #[trigger] expanded_variables@[r.patterns()[i]] == r.replacements()[i],
    {
        let entries = expanded_variables.entries();
        let ghost input = pairs_view(entries@);
        proof {
            lemma_pairs_to_map_unique(input);
            assert forall|j: int| 0 <= j < input.len() implies #[trigger] input[j].0.len() > 0 by {
                assert(expanded_variables@.dom().contains(input[j].0));
            }
        }
        let mut token_keys: Vec<String> = Vec::new();
        let mut token_values: Vec<String> = Vec::new();
        let n = entries.len();
        let mut i: usize = 0;
        while i < n
            invariant
                n == entries@.len(),
                input == pairs_view(entries@),
                0 <= i <= n,
                token_keys@.len() == i,
                token_values@.len() == i,
                forall|j: int| 0 <= j < i ==> #[trigger] token_keys@[j]@ == input[j].0 && token_values@[j]@ == input[j].1,
                forall|j: int| 0 <= j < i ==> #[trigger] token_keys@[j]@.len() > 0,
                forall|j: int| 0 <= j < n ==> #[trigger] input[j].0.len() > 0,
            decreases n - i,
        {
            let (k, v) = &entries[i];
            token_keys.push(k.clone());
            token_values.push(v.value.clone());
            assert(input[i as int] == (k@, v@));
            assert(input[i as int].0.len() > 0);
            assert(token_keys@[i as int]@ == k@);
            i = i + 1;
        }
        let r = AhoCorasickTokenReplacer { patterns: token_keys, replacements: token_values };
        proof {
            lemma_pairs_to_map_unique(input);
            let p = r.patterns();
            assert forall|a: int, b: int| 0 <= a < p.len() && 0 <= b < p.len() && a != b implies p[a] != p[b] by {
                assert(p[a] == input[a].0);
                assert(p[b] == input[b].0);
                if a < b {
                    assert(input[a].0 != input[b].0);
                } else {
                    assert(input[b].0 != input[a].0);
                }
            }
            assert forall|k: Seq<char>| p.to_set().contains(k) <==> expanded_variables@.dom().contains(k) by {
                if p.to_set().contains(k) {
                    let j = choose|j: int| 0 <= j < p.len() && p[j] == k;
                    assert(input[j].0 == k);
                }
                if expanded_variables@.dom().contains(k) {
                    let j = choose|j: int| 0 <= j < input.len() && #[trigger] input[j].0 == k;
                    assert(p[j] == k);
                }
            }
            assert(p.to_set() =~= expanded_variables@.dom());
            assert forall|j: int| 0 <= j < p.len() implies #[trigger] expanded_variables@[p[j]] == r.replacements()[j] by {
                assert(p[j] == input[j].0);
                assert(r.replacements()[j] == input[j].1);
            }
        }
        r
    }
}

impl StringTokenReplacer for AhoCorasickTokenReplacer {
    /// Every token found replaced by its value, the longest one where
    /// several start at the same place.
    open spec fn replaces(&self, input: Seq<char>, output: Seq<char>) -> bool {
        output == leftmost_longest_replaced(self.patterns(), self.replacements(), input)
    }

    fn replace(&self, input: &str) -> (r: String) {
        proof {
            use_type_invariant(self);
        }
        replace_all_leftmost_longest(&self.patterns, &self.replacements, input)
    }
}

impl TokenReplacer for AhoCorasickTokenReplacer {
    /// The content with every token found replaced by its value.
    fn replace_content_token(&self, content_with_token: ContentWithTokens) -> (r: ContentTokensReplaced)
        ensures
            r.value@ == leftmost_longest_replaced(self.patterns(), self.replacements(), content_with_token.value@),
            self.patterns().len() == 0 ==> r.value@ == content_with_token.value@,
    {
        proof {
            use_type_invariant(self);
        }
        ContentTokensReplaced {
            value: replace_all_leftmost_longest(&self.patterns, &self.replacements, content_with_token.value.as_str()),
        }
    }
}

} // verus!
