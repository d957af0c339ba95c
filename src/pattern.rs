//! Glob patterns over directory basenames, compiled once and matched many times.

use vstd::prelude::*;

use crate::text::view_strings;

verus! {

#[verifier::external_type_specification]
#[verifier::external_body]
pub struct ExGlobPattern(glob::Pattern);

/// Whether glob accepts `p` as a pattern.
pub uninterp spec fn glob_valid(p: Seq<char>) -> bool;

/// Whether the glob pattern `p` matches the whole of `name`, with glob's default options.
pub uninterp spec fn glob_matches(p: Seq<char>, name: Seq<char>) -> bool;

/// A glob pattern together with the text that it was compiled from.
pub struct NamePattern {
    text: String,
    compiled: glob::Pattern,
}

impl View for NamePattern {
    type V = Seq<char>;

    closed spec fn view(&self) -> Seq<char> {
        self.text@
    }
}

/// Relies on glob::Pattern::new: whether a pattern compiles depends on its text alone.
#[verifier::external_body]
fn compile_glob(text: String) -> (r: Option<NamePattern>)
    ensures
        r is Some <==> glob_valid(text@),
        r matches Some(p) ==> p@ == text@,
{
    match glob::Pattern::new(&text) {
        Ok(compiled) => Some(NamePattern { text, compiled }),
        Err(_) => None,
    }
}

/// Relies on glob::Pattern::matches: the answer depends on the pattern's text and the name.
#[verifier::external_body]
fn glob_match(p: &NamePattern, name: &str) -> (r: bool)
    ensures
        r == glob_matches(p@, name@),
{
    p.compiled.matches(name)
}

/// The patterns of a list that glob accepts, in order.
pub open spec fn valid_only(ps: Seq<Seq<char>>) -> Seq<Seq<char>>
    decreases ps.len(),
{
    if ps.len() == 0 {
        seq![]
    } else if glob_valid(ps.last()) {
        valid_only(ps.drop_last()).push(ps.last())
    } else {
        valid_only(ps.drop_last())
    }
}

/// The patterns of a list that glob refuses, in order.
pub open spec fn invalid_only(ps: Seq<Seq<char>>) -> Seq<Seq<char>>
    decreases ps.len(),
{
    if ps.len() == 0 {
        seq![]
    } else if glob_valid(ps.last()) {
        invalid_only(ps.drop_last())
    } else {
        invalid_only(ps.drop_last()).push(ps.last())
    }
}

/// Whether some pattern of the list matches `name`.
pub open spec fn any_match(ps: Seq<Seq<char>>, name: Seq<char>) -> bool {
    exists|i: int| 0 <= i < ps.len() && #[trigger] glob_matches(ps[i], name)
}

/// A compiled list of glob patterns; the texts that did not compile are kept aside.
pub struct PatternSet {
    patterns: Vec<NamePattern>,
    rejected: Vec<String>,
}

impl View for PatternSet {
    type V = Seq<Seq<char>>;

    closed spec fn view(&self) -> Seq<Seq<char>> {
        self.patterns@.map_values(|p: NamePattern| p@)
    }
}

impl PatternSet {
    /// The texts that did not compile.
    pub closed spec fn rejected_view(&self) -> Seq<Seq<char>> {
        view_strings(self.rejected@)
    }

    /// Compiles each pattern of the list. A pattern that glob refuses is set aside and
    /// the others are still compiled.
    pub fn compile(raw: &Vec<String>) -> (r: PatternSet)
        ensures
            r@ == valid_only(view_strings(raw@)),
            r.rejected_view() == invalid_only(view_strings(raw@)),
    {
        let mut patterns: Vec<NamePattern> = Vec::new();
        let mut rejected: Vec<String> = Vec::new();
        let mut i: usize = 0;
        while i < raw.len()
            invariant
                i <= raw@.len(),
                patterns@.map_values(|p: NamePattern| p@) == valid_only(
                    view_strings(raw@.take(i as int)),
                ),
                view_strings(rejected@) == invalid_only(view_strings(raw@.take(i as int))),
            decreases raw@.len() - i,
        {
            let ghost prefix = view_strings(raw@.take(i as int + 1));
            assert(prefix.drop_last() =~= view_strings(raw@.take(i as int)));
            assert(prefix.last() == raw@[i as int]@);
            let text = raw[i].clone();
            let ghost pbefore = patterns@;
            let ghost rbefore = rejected@;
            match compile_glob(text) {
                Some(p) => {
                    patterns.push(p);
                    assert(patterns@.map_values(|p: NamePattern| p@) =~= pbefore.map_values(
                        |p: NamePattern| p@,
                    ).push(raw@[i as int]@));
                },
                None => {
                    rejected.push(raw[i].clone());
                    assert(view_strings(rejected@) =~= view_strings(rbefore).push(
                        raw@[i as int]@,
                    ));
                },
            }
            i = i + 1;
        }
        assert(raw@.take(raw@.len() as int) =~= raw@);
        PatternSet { patterns, rejected }
    }

    /// The texts that did not compile, for diagnostics.
    pub fn rejected(&self) -> (r: &Vec<String>)
        ensures
            view_strings(r@) == self.rejected_view(),
    {
        &self.rejected
    }

    /// The number of compiled patterns.
    pub fn len(&self) -> (r: usize)
        ensures
            r == self@.len(),
    {
        self.patterns.len()
    }

    /// Whether some pattern of the set matches the whole of `name`.
    pub fn matches_any(&self, name: &str) -> (r: bool)
        ensures
            r == any_match(self@, name@),
    {
        let mut i: usize = 0;
        while i < self.patterns.len()
            invariant
                i <= self@.len(),
                self@.len() == self.patterns@.len(),
                forall|j: int| 0 <= j < i ==> !glob_matches(#[trigger] self@[j], name@),
            decreases self.patterns@.len() - i,
        {
            if glob_match(&self.patterns[i], name) {
                assert(glob_matches(self@[i as int], name@));
                return true;
            }
            i = i + 1;
        }
        false
    }
}

} // verus!
