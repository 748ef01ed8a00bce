use vstd::prelude::*;
use crate::text::{join, seq_join};

verus! {

/// The files and directories left out of processing, each named once.
#[derive(Debug, PartialEq)]
pub struct IgnoredFiles {
    ignores: Vec<String>,
}

/// The views of a list of strings.
pub open spec fn strings_view(s: Seq<String>) -> Seq<Seq<char>> {
    s.map_values(|x: String| x@)
}

impl View for IgnoredFiles {
    type V = Set<Seq<char>>;

    open spec fn view(&self) -> Set<Seq<char>> {
        self.names().to_set()
    }
}

impl IgnoredFiles {
    /// The names ignored, in the order they were first given.
    pub closed spec fn names(&self) -> Seq<Seq<char>> {
        strings_view(self.ignores@)
    }

    #[verifier::type_invariant]
    closed spec fn wf(&self) -> bool {
        self.names().no_duplicates()
    }

    /// The name of the variable prompt file of a configuration's defaults.
    pub const DOT_VARIABLES_DOT_PROMPT: &'static str = ".variables.prompt";

    /// The name of git's directory, which is always ignored.
    pub const DOT_GIT: &'static str = ".git";

    /// The names always ignored.
    pub fn default_ignores() -> (r: Vec<String>)
        ensures
            strings_view(r@) == seq![".git"@],
    {
        let mut r = Vec::new();
        r.push(Self::DOT_GIT.to_string());
        assert(strings_view(r@) =~= seq![".git"@]);
        r
    }

    /// The given names, each once: a name given again is left out.
    pub fn from(values: Vec<String>) -> (r: Self)
        ensures
            r@ == strings_view(values@).to_set(),
            r.names().no_duplicates(),
    {
        let ghost all = strings_view(values@);
        let mut kept: Vec<String> = Vec::new();
        let n = values.len();
        let mut i: usize = 0;
        while i < n
            invariant
                n == values@.len(),
                all == strings_view(values@),
                0 <= i <= n,
                strings_view(kept@).no_duplicates(),
                strings_view(kept@).to_set() == all.take(i as int).to_set(),
            decreases n - i,
        {
            let v = &values[i];
            let ghost before = strings_view(kept@);
            let m = kept.len();
            let mut j: usize = 0;
            let mut found = false;
            while j < m
                invariant
                    m == kept@.len(),
                    before == strings_view(kept@),
                    0 <= j <= m,
                    !found ==> forall|l: int| 0 <= l < j ==> #[trigger] before[l] != v@,
                    found ==> before.contains(v@),
                decreases m - j,
            {
                if kept[j] == *v {
                    found = true;
                    assert(before[j as int] == v@);
                }
                j = j + 1;
            }
            proof {
                assert(all.take(i + 1) =~= all.take(i as int).push(v@));
                all.take(i as int).lemma_push_to_set_commute(v@);
            }
            if !found {
                kept.push(v.clone());
                proof {
                    assert(strings_view(kept@) =~= before.push(v@));
                    before.lemma_push_to_set_commute(v@);
                }
            } else {
                assert(all.take(i + 1).to_set() =~= all.take(i as int).to_set());
            }
            i = i + 1;
        }
        assert(all.take(n as int) =~= all);
        IgnoredFiles { ignores: kept }
    }

    /// The names ignored, each once.
    pub fn ignores(&self) -> (r: &Vec<String>)
        ensures
            strings_view(r@) == self.names(),
            self.names().no_duplicates(),
    {
        proof {
            use_type_invariant(self);
        }
        &self.ignores
    }

    /// Whether the name is ignored.
    pub fn is_ignored(&self, name: &String) -> (r: bool)
        ensures
            r == self@.contains(name@),
    {
        let n = self.ignores.len();
        let mut i: usize = 0;
        while i < n
            invariant
                n == self.ignores@.len(),
                0 <= i <= n,
                forall|j: int| 0 <= j < i ==> #[trigger] self.ignores@[j]@ != name@,
            decreases n - i,
        {
            if self.ignores[i] == *name {
                assert(self.names()[i as int] == name@);
                return true;
            }
            i = i + 1;
        }
        proof {
            if self.names().contains(name@) {
                let j = choose|j: int| 0 <= j < self.names().len() && self.names()[j] == name@;
                assert(self.ignores@[j]@ == name@);
            }
        }
        false
    }

    /// The names ignored, separated by commas.
    pub fn to_string(&self) -> (r: String)
        ensures
            r@ == seq_join(self.names(), ","@),
    {
        join(&self.ignores, ",")
    }
}

impl Clone for IgnoredFiles {
    fn clone(&self) -> (r: Self)
        ensures
            r.names() == self.names(),
    {
        proof {
            use_type_invariant(self);
        }
        let ignores = self.ignores.clone();
        assert(ignores@ =~= self.ignores@) by {
            assert forall|i: int| 0 <= i < ignores@.len() implies ignores@[i] == self.ignores@[i] by {
                assert(cloned::<String>(self.ignores[i], ignores[i]));
            }
        }
        IgnoredFiles { ignores }
    }
}

impl Default for IgnoredFiles {
    /// Ignores only git's directory.
    fn default() -> (r: Self)
        ensures
            r@ == set![".git"@],
    {
        let r = IgnoredFiles::from(IgnoredFiles::default_ignores());
        assert(seq![".git"@].to_set() =~= set![".git"@]) by {
            assert(seq![".git"@][0] == ".git"@);
        }
        r
    }
}

} // verus!
