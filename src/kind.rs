//! Project kinds and the directory-name patterns that each one cleans by default.

use vstd::prelude::*;

use vstd::seq_lib::{lemma_seq_concat_contains_all_elements, lemma_seq_contains_after_push};

use crate::text::{str_eq, view_strs};

verus! {

/// A project type, language or IDE family whose leftover directories can be cleaned.
#[derive(Debug, Clone, Copy, PartialEq, Eq, Structural)]
pub enum ProjectKind {
    /// Every other kind's defaults together.
    All,
    /// JetBrains, VSCode, Visual Studio, Xcode and other IDE leftovers.
    Ide,
    /// Rust projects.
    Rust,
    /// Python projects.
    Python,
    /// Java projects (Maven, Gradle).
    Java,
    /// Node.js, JavaScript and TypeScript projects.
    Node,
    /// Go projects.
    Go,
    /// C# and .NET projects.
    CSharp,
    /// C and C++ projects.
    Cpp,
    /// PHP projects.
    Php,
    /// Ruby projects.
    Ruby,
}

/// The lower-case name of a kind, as used on the command line and as a config-file key.
pub open spec fn kind_name(k: ProjectKind) -> Seq<char> {
    match k {
        ProjectKind::All => "all"@,
        ProjectKind::Ide => "ide"@,
        ProjectKind::Rust => "rust"@,
        ProjectKind::Python => "python"@,
        ProjectKind::Java => "java"@,
        ProjectKind::Node => "node"@,
        ProjectKind::Go => "go"@,
        ProjectKind::CSharp => "csharp"@,
        ProjectKind::Cpp => "cpp"@,
        ProjectKind::Php => "php"@,
        ProjectKind::Ruby => "ruby"@,
    }
}

/// The patterns that a single kind lists itself; the aggregate kind lists none of its own.
pub open spec fn own_patterns(k: ProjectKind) -> Seq<Seq<char>> {
    match k {
        ProjectKind::All => seq![],
        ProjectKind::Ide => seq![
            ".idea"@, ".vs"@, ".vscode"@, ".DS_Store"@, ".history"@, ".classpath"@,
            ".project"@, ".settings"@, "xcuserdata"@, "*.iml"@,
        ],
        ProjectKind::Rust => seq!["target"@, "out"@, "build"@],
        ProjectKind::Python => seq![
            "__pycache__"@, ".venv"@, "venv"@, "env"@, ".mypy_cache"@, ".pytest_cache"@,
        ],
        ProjectKind::Java => seq![
            "build"@, "out"@, "target"@, "bin"@, "classes"@, "generated-sources"@,
            "generated-test-sources"@,
        ],
        ProjectKind::Node => seq![
            "node_modules"@, "dist"@, "build"@, ".next"@, ".nuxt"@, ".angular"@,
            ".svelte-kit"@, "coverage"@,
        ],
        ProjectKind::Go => seq!["bin"@, "pkg"@, "out"@],
        ProjectKind::CSharp => seq!["bin"@, "obj"@, "out"@],
        ProjectKind::Cpp => seq![
            "build"@, "out"@, "bin"@, "CMakeFiles"@, "cmake-build-*"@, "Makefile"@, "*.o"@,
            "*.obj"@,
        ],
        ProjectKind::Php => seq!["vendor"@, "out"@, "build"@, "cache"@],
        ProjectKind::Ruby => seq![".bundle"@, "vendor"@, "log"@, "tmp"@, "coverage"@],
    }
}

/// Every kind but the aggregate, in declaration order.
pub open spec fn single_kinds() -> Seq<ProjectKind> {
    seq![
        ProjectKind::Ide,
        ProjectKind::Rust,
        ProjectKind::Python,
        ProjectKind::Java,
        ProjectKind::Node,
        ProjectKind::Go,
        ProjectKind::CSharp,
        ProjectKind::Cpp,
        ProjectKind::Php,
        ProjectKind::Ruby,
    ]
}

/// The own patterns of the given kinds, one list after the other.
pub open spec fn patterns_of_kinds(ks: Seq<ProjectKind>) -> Seq<Seq<char>>
    decreases ks.len(),
{
    if ks.len() == 0 {
        seq![]
    } else {
        patterns_of_kinds(ks.drop_last()) + own_patterns(ks.last())
    }
}

/// The sequence with every element after its first occurrence removed.
pub open spec fn dedup<A>(s: Seq<A>) -> Seq<A>
    decreases s.len(),
{
    if s.len() == 0 {
        seq![]
    } else {
        let d = dedup(s.drop_last());
        if d.contains(s.last()) {
            d
        } else {
            d.push(s.last())
        }
    }
}

/// The default patterns of a kind: its own list, or for the aggregate the union of all
/// single kinds' lists without repetitions, in order of first appearance.
pub open spec fn kind_patterns(k: ProjectKind) -> Seq<Seq<char>> {
    if k == ProjectKind::All {
        dedup(patterns_of_kinds(single_kinds()))
    } else {
        own_patterns(k)
    }
}

impl ProjectKind {
    /// The lower-case name of this kind.
    pub fn as_str(&self) -> (r: &'static str)
        ensures
            r@ == kind_name(*self),
    {
        match self {
            ProjectKind::All => "all",
            ProjectKind::Ide => "ide",
            ProjectKind::Rust => "rust",
            ProjectKind::Python => "python",
            ProjectKind::Java => "java",
            ProjectKind::Node => "node",
            ProjectKind::Go => "go",
            ProjectKind::CSharp => "csharp",
            ProjectKind::Cpp => "cpp",
            ProjectKind::Php => "php",
            ProjectKind::Ruby => "ruby",
        }
    }
}

/// The patterns that one kind lists itself.
fn own_dirs(kind: ProjectKind) -> (r: Vec<&'static str>)
    ensures
        view_strs(r@) == own_patterns(kind),
{
    let r = match kind {
        ProjectKind::All => vec![],
        ProjectKind::Ide => vec![
            ".idea",
            ".vs",
            ".vscode",
            ".DS_Store",
            ".history",
            ".classpath",
            ".project",
            ".settings",
            "xcuserdata",
            "*.iml",
        ],
        ProjectKind::Rust => vec!["target", "out", "build"],
        ProjectKind::Python => vec![
            "__pycache__",
            ".venv",
            "venv",
            "env",
            ".mypy_cache",
            ".pytest_cache",
        ],
        ProjectKind::Java => vec![
            "build",
            "out",
            "target",
            "bin",
            "classes",
            "generated-sources",
            "generated-test-sources",
        ],
        ProjectKind::Node => vec![
            "node_modules",
            "dist",
            "build",
            ".next",
            ".nuxt",
            ".angular",
            ".svelte-kit",
            "coverage",
        ],
        ProjectKind::Go => vec!["bin", "pkg", "out"],
        ProjectKind::CSharp => vec!["bin", "obj", "out"],
        ProjectKind::Cpp => vec![
            "build",
            "out",
            "bin",
            "CMakeFiles",
            "cmake-build-*",
            "Makefile",
            "*.o",
            "*.obj",
        ],
        ProjectKind::Php => vec!["vendor", "out", "build", "cache"],
        ProjectKind::Ruby => vec![".bundle", "vendor", "log", "tmp", "coverage"],
    };
    assert(view_strs(r@) =~= own_patterns(kind));
    r
}

proof fn lemma_view_strs_concat(a: Seq<&str>, b: Seq<&str>)
    ensures
        view_strs(a + b) == view_strs(a) + view_strs(b),
{
    assert(view_strs(a + b) =~= view_strs(a) + view_strs(b));
}

/// Whether a list of string slices holds one with the characters of `s`.
fn contains_str(v: &Vec<&'static str>, s: &str) -> (r: bool)
    ensures
        r == view_strs(v@).contains(s@),
{
    let mut i: usize = 0;
    while i < v.len()
        invariant
            i <= v@.len(),
            forall|j: int| 0 <= j < i ==> v@[j]@ != s@,
        decreases v@.len() - i,
    {
        if str_eq(v[i], s) {
            assert(view_strs(v@)[i as int] == s@);
            return true;
        }
        i = i + 1;
    }
    assert(!view_strs(v@).contains(s@)) by {
        if view_strs(v@).contains(s@) {
            let j = choose|j: int| 0 <= j < view_strs(v@).len() && view_strs(v@)[j] == s@;
            assert(v@[j]@ == s@);
        }
    }
    false
}

/// The list without repetitions, each item kept at its first occurrence.
fn dedup_strs(items: &Vec<&'static str>) -> (r: Vec<&'static str>)
    ensures
        view_strs(r@) == dedup(view_strs(items@)),
{
    let mut r: Vec<&'static str> = Vec::new();
    let mut i: usize = 0;
    while i < items.len()
        invariant
            i <= items@.len(),
            view_strs(r@) == dedup(view_strs(items@).take(i as int)),
        decreases items@.len() - i,
    {
        let ghost before = r@;
        let item = items[i];
        let ghost prefix = view_strs(items@).take(i as int + 1);
        assert(prefix.drop_last() =~= view_strs(items@).take(i as int));
        assert(prefix.last() == item@);
        if !contains_str(&r, item) {
            r.push(item);
            assert(view_strs(r@) =~= view_strs(before).push(item@));
        }
        i = i + 1;
    }
    assert(view_strs(items@).take(items@.len() as int) =~= view_strs(items@));
    r
}

/// The single kinds, in the order of `single_kinds`.
fn single_kind_list() -> (r: Vec<ProjectKind>)
    ensures
        r@ == single_kinds(),
{
    let r = vec![
        ProjectKind::Ide,
        ProjectKind::Rust,
        ProjectKind::Python,
        ProjectKind::Java,
        ProjectKind::Node,
        ProjectKind::Go,
        ProjectKind::CSharp,
        ProjectKind::Cpp,
        ProjectKind::Php,
        ProjectKind::Ruby,
    ];
    assert(r@ =~= single_kinds());
    r
}

/// Returns the default list of directory-name patterns for a project kind.
///
/// For `All` it is every single kind's list joined together, each pattern once, in order
/// of first appearance.
pub fn default_dirs_for_kind(kind: &ProjectKind) -> (r: Vec<&'static str>)
    ensures
        view_strs(r@) == kind_patterns(*kind),
{
    if *kind != ProjectKind::All {
        return own_dirs(*kind);
    }
    let kinds = single_kind_list();
    let mut joined: Vec<&'static str> = Vec::new();
    let mut i: usize = 0;
    while i < kinds.len()
        invariant
            kinds@ == single_kinds(),
            i <= kinds@.len(),
            view_strs(joined@) == patterns_of_kinds(kinds@.take(i as int)),
        decreases kinds@.len() - i,
    {
        let ghost before = joined@;
        let mut more = own_dirs(kinds[i]);
        let ghost added = more@;
        joined.append(&mut more);
        proof {
            lemma_view_strs_concat(before, added);
            let t = kinds@.take(i as int + 1);
            assert(t.drop_last() =~= kinds@.take(i as int));
            assert(t.last() == kinds@[i as int]);
        }
        i = i + 1;
    }
    assert(kinds@.take(kinds@.len() as int) =~= kinds@);
    dedup_strs(&joined)
}

/// Removing repetitions keeps exactly the elements that were there.
pub proof fn lemma_dedup_contains<A>(s: Seq<A>, x: A)
    ensures
        dedup(s).contains(x) <==> s.contains(x),
    decreases s.len(),
{
    if s.len() > 0 {
        lemma_dedup_contains(s.drop_last(), x);
        assert(s =~= s.drop_last().push(s.last()));
        lemma_seq_contains_after_push(s.drop_last(), s.last(), x);
        lemma_seq_contains_after_push(dedup(s.drop_last()), s.last(), x);
    }
}

/// A sequence with its repetitions removed holds each element once.
pub proof fn lemma_dedup_no_duplicates<A>(s: Seq<A>)
    ensures
        dedup(s).no_duplicates(),
    decreases s.len(),
{
    if s.len() > 0 {
        lemma_dedup_no_duplicates(s.drop_last());
    }
}

proof fn lemma_patterns_of_kinds_contains(ks: Seq<ProjectKind>, p: Seq<char>)
    ensures
        patterns_of_kinds(ks).contains(p) <==> exists|i: int|
            0 <= i < ks.len() && #[trigger] own_patterns(ks[i]).contains(p),
    decreases ks.len(),
{
    if ks.len() > 0 {
        let init = ks.drop_last();
        lemma_patterns_of_kinds_contains(init, p);
        lemma_seq_concat_contains_all_elements(patterns_of_kinds(init), own_patterns(ks.last()), p);
        if patterns_of_kinds(init).contains(p) {
            let i = choose|i: int| 0 <= i < init.len() && #[trigger] own_patterns(init[i]).contains(p);
            assert(own_patterns(ks[i]).contains(p));
        }
        if own_patterns(ks.last()).contains(p) {
            assert(own_patterns(ks[ks.len() - 1]).contains(p));
        }
        if exists|i: int| 0 <= i < ks.len() && #[trigger] own_patterns(ks[i]).contains(p) {
            let i = choose|i: int| 0 <= i < ks.len() && #[trigger] own_patterns(ks[i]).contains(p);
            if i < ks.len() - 1 {
                assert(own_patterns(init[i]).contains(p));
            }
        }
    }
}

proof fn lemma_single_kind_listed(k: ProjectKind)
    requires
        k != ProjectKind::All,
    ensures
        exists|i: int| 0 <= i < single_kinds().len() && single_kinds()[i] == k,
{
    let ks = single_kinds();
    match k {
        ProjectKind::All => {},
        ProjectKind::Ide => assert(ks[0] == k),
        ProjectKind::Rust => assert(ks[1] == k),
        ProjectKind::Python => assert(ks[2] == k),
        ProjectKind::Java => assert(ks[3] == k),
        ProjectKind::Node => assert(ks[4] == k),
        ProjectKind::Go => assert(ks[5] == k),
        ProjectKind::CSharp => assert(ks[6] == k),
        ProjectKind::Cpp => assert(ks[7] == k),
        ProjectKind::Php => assert(ks[8] == k),
        ProjectKind::Ruby => assert(ks[9] == k),
    }
}

/// The aggregate kind's patterns are the set union of every other kind's patterns, and
/// each of them appears in its list exactly once.
pub proof fn lemma_all_is_union_of_kinds(p: Seq<char>)
    ensures
        kind_patterns(ProjectKind::All).contains(p) <==> exists|k: ProjectKind|
            k != ProjectKind::All && #[trigger] kind_patterns(k).contains(p),
        kind_patterns(ProjectKind::All).no_duplicates(),
{
    let ks = single_kinds();
    lemma_dedup_contains(patterns_of_kinds(ks), p);
    lemma_dedup_no_duplicates(patterns_of_kinds(ks));
    lemma_patterns_of_kinds_contains(ks, p);
    if patterns_of_kinds(ks).contains(p) {
        let i = choose|i: int| 0 <= i < ks.len() && #[trigger] own_patterns(ks[i]).contains(p);
        assert(ks[i] != ProjectKind::All);
        assert(kind_patterns(ks[i]).contains(p));
    }
    if exists|k: ProjectKind| k != ProjectKind::All && #[trigger] kind_patterns(k).contains(p) {
        let k = choose|k: ProjectKind| k != ProjectKind::All && #[trigger] kind_patterns(k).contains(p);
        lemma_single_kind_listed(k);
        let i = choose|i: int| 0 <= i < single_kinds().len() && single_kinds()[i] == k;
        assert(own_patterns(ks[i]).contains(p));
    }
}

/// Every kind's default list holds at least one pattern.
pub proof fn lemma_kind_patterns_nonempty(k: ProjectKind)
    ensures
        kind_patterns(k).len() > 0,
{
    if k == ProjectKind::All {
        let ks = single_kinds();
        let first = own_patterns(ProjectKind::Ide)[0];
        assert(own_patterns(ks[0]).contains(first));
        lemma_patterns_of_kinds_contains(ks, first);
        lemma_dedup_contains(patterns_of_kinds(ks), first);
    } else {
        assert(own_patterns(k).len() > 0);
    }
}

} // verus!
