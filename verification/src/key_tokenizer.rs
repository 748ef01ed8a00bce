//! Surrounds the keys of expanded values with a token delimiter, so they can
//! be found in file names and contents.

use vstd::prelude::*;
use crate::str_map::{StrMap, pairs_to_map, pairs_view, keys_unique, lemma_pairs_to_map_push, lemma_pairs_to_map_unique};
use crate::template_variable_expander::ExpandedValue;

verus! {

/// A key surrounded by the token delimiter.
#[derive(Debug, Clone, PartialEq)]
pub struct TokenizedExpandedKey {
    pub value: String,
}

impl View for TokenizedExpandedKey {
    type V = Seq<char>;

    open spec fn view(&self) -> Seq<char> {
        self.value@
    }
}

impl TokenizedExpandedKey {
    pub fn new(value: &str) -> (r: Self)
        ensures
            r@ == value@,
    {
        TokenizedExpandedKey { value: value.to_string() }
    }
}

/// Surrounds the keys of expanded values with a token.
pub trait KeyTokenizer {
    fn tokenize_keys(&self, expanded_variables: StrMap<ExpandedValue>) -> StrMap<ExpandedValue>;
}

/// A key surrounded by the token on both sides.
pub open spec fn tokenized(token: Seq<char>, key: Seq<char>) -> Seq<char> {
    token + key + token
}

/// Pairs with their keys surrounded by the token.
pub open spec fn tokenize_pairs(token: Seq<char>, s: Seq<(Seq<char>, Seq<char>)>) -> Seq<(Seq<char>, Seq<char>)> {
    s.map_values(|p: (Seq<char>, Seq<char>)| (tokenized(token, p.0), p.1))
}

/// Surrounding keys with a token keeps distinct keys distinct.
pub proof fn lemma_tokenized_injective(token: Seq<char>, a: Seq<char>, b: Seq<char>)
    requires
        tokenized(token, a) == tokenized(token, b),
    ensures
        a == b,
{
    let ta = tokenized(token, a);
    let tb = tokenized(token, b);
    assert(ta.len() == tb.len());
    assert(a =~= ta.subrange(token.len() as int, (token.len() + a.len()) as int));
    assert(b =~= tb.subrange(token.len() as int, (token.len() + b.len()) as int));
}

/// A tokenizer with a given delimiter.
pub struct DefaultKeyTokenizer {
    token: String,
}

impl DefaultKeyTokenizer {
    pub fn new(token: &str) -> (r: Self)
        ensures
            r.token()@ == token@,
    {
        DefaultKeyTokenizer { token: token.to_string() }
    }

    /// The delimiter.
    pub closed spec fn token(&self) -> String {
        self.token
    }
}

impl KeyTokenizer for DefaultKeyTokenizer {
    /// The same values, each under its key surrounded by the token.
    fn tokenize_keys(&self, expanded_variables: StrMap<ExpandedValue>) -> (r: StrMap<ExpandedValue>)
        ensures
            forall|k: Seq<char>|
                r@.dom().contains(k) <==> exists|k0: Seq<char>|
                    expanded_variables@.dom().contains(k0) && k == #[trigger] tokenized(self.token()@, k0),
            forall|k0: Seq<char>| #[trigger] expanded_variables@.dom().contains(k0)
                ==> r@[tokenized(self.token()@, k0)] == expanded_variables@[k0],
            r@.dom().len() == expanded_variables@.dom().len(),
    {
        let t = &self.token;
        let entries = expanded_variables.entries();
        let ghost input = pairs_view(entries@);
        let ghost tv = t@;
        let mut result: StrMap<ExpandedValue> = StrMap::new();
        let n = entries.len();
        let mut i: usize = 0;
        while i < n
            invariant
                n == entries@.len(),
                input == pairs_view(entries@),
                tv == t@,
                0 <= i <= n,
                result@ == pairs_to_map(tokenize_pairs(tv, input.take(i as int))),
            decreases n - i,
        {
            let (k, v) = &entries[i];
            let mut key = t.clone();
            key.append(k.as_str());
            key.append(t.as_str());
            let value = ExpandedValue::new(v.value.clone());
            let ghost pair = (key@, value@);
            result.insert(key, value);
            proof {
                assert(input[i as int] == (k@, v@));
                assert(tokenize_pairs(tv, input.take(i + 1)) =~= tokenize_pairs(tv, input.take(i as int)).push(pair));
                lemma_pairs_to_map_push(tokenize_pairs(tv, input.take(i as int)), pair);
            }
            i = i + 1;
        }
        proof {
            assert(input.take(n as int) =~= input);
            let tp = tokenize_pairs(tv, input);
            assert(keys_unique(tp)) by {
                assert forall|a: int, b: int| 0 <= a < b < tp.len() implies #[trigger] tp[a].0 != #[trigger] tp[b].0 by {
                    if tp[a].0 == tp[b].0 {
                        lemma_tokenized_injective(tv, input[a].0, input[b].0);
                    }
                }
            }
            lemma_pairs_to_map_unique(tp);
            lemma_pairs_to_map_unique(input);
            crate::str_map::lemma_unique_pairs_dom_len(tp);
            crate::str_map::lemma_unique_pairs_dom_len(input);
            assert forall|k: Seq<char>| result@.dom().contains(k) implies exists|k0: Seq<char>|
                expanded_variables@.dom().contains(k0) && k == #[trigger] tokenized(tv, k0) by {
                let j = choose|j: int| 0 <= j < tp.len() && #[trigger] tp[j].0 == k;
                assert(tp[j].0 == tokenized(tv, input[j].0));
                assert(expanded_variables@.dom().contains(input[j].0));
                assert(k == tokenized(tv, input[j].0));
            }
            assert forall|k: Seq<char>| (exists|k0: Seq<char>|
                expanded_variables@.dom().contains(k0) && k == #[trigger] tokenized(tv, k0)) implies result@.dom().contains(k) by {
                let k0 = choose|k0: Seq<char>| expanded_variables@.dom().contains(k0) && k == #[trigger] tokenized(tv, k0);
                let j = choose|j: int| 0 <= j < input.len() && #[trigger] input[j].0 == k0;
                assert(tp[j].0 == k);
            }
            assert forall|k0: Seq<char>| #[trigger] expanded_variables@.dom().contains(k0)
                implies result@[tokenized(tv, k0)] == expanded_variables@[k0] by {
                let j = choose|j: int| 0 <= j < input.len() && #[trigger] input[j].0 == k0;
                assert(tp[j].0 == tokenized(tv, k0));
                assert(result@[tp[j].0] == tp[j].1);
            }
            assert(tv == self.token()@);
            assert(forall|k: Seq<char>|
                result@.dom().contains(k) ==> exists|k0: Seq<char>|
                    expanded_variables@.dom().contains(k0) && k == #[trigger] tokenized(tv, k0));
            assert(forall|k: Seq<char>|
                result@.dom().contains(k) <== exists|k0: Seq<char>|
                    expanded_variables@.dom().contains(k0) && k == #[trigger] tokenized(tv, k0));
        }
        result
    }
}

/// Law: tokenizing keeps one value per key, and each is found again under its
/// tokenized key.
pub proof fn law_tokenized_lookup(
    token: Seq<char>,
    before: Map<Seq<char>, Seq<char>>,
    after: Map<Seq<char>, Seq<char>>,
    k0: Seq<char>,
)
    requires
        forall|k0: Seq<char>| #[trigger] before.dom().contains(k0) ==> after[tokenized(token, k0)] == before[k0],
        forall|k: Seq<char>| after.dom().contains(k) <==> exists|k1: Seq<char>|
            before.dom().contains(k1) && k == #[trigger] tokenized(token, k1),
    ensures
        after.dom().contains(tokenized(token, k0)) <==> before.dom().contains(k0),
        before.dom().contains(k0) ==> after[tokenized(token, k0)] == before[k0],
{
    if after.dom().contains(tokenized(token, k0)) {
        let k1 = choose|k1: Seq<char>| before.dom().contains(k1) && tokenized(token, k0) == #[trigger] tokenized(token, k1);
        lemma_tokenized_injective(token, k0, k1);
    }
}

} // verus!
