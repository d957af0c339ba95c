//! Small operations on strings, stated over their character sequences.

use vstd::prelude::*;
use vstd::string::*;

verus! {

/// The character sequences of a sequence of string slices.
pub open spec fn view_strs(v: Seq<&str>) -> Seq<Seq<char>> {
    v.map_values(|s: &str| s@)
}

/// The character sequences of a sequence of owned strings.
pub open spec fn view_strings(v: Seq<String>) -> Seq<Seq<char>> {
    v.map_values(|s: String| s@)
}

/// Whether two string slices hold the same characters.
pub fn str_eq(a: &str, b: &str) -> (r: bool)
    ensures
        r == (a@ == b@),
{
    let n = a.unicode_len();
    if n != b.unicode_len() {
        return false;
    }
    let mut i: usize = 0;
    while i < n
        invariant
            n == a@.len(),
            n == b@.len(),
            i <= n,
            forall|j: int| 0 <= j < i ==> a@[j] == b@[j],
        decreases n - i,
    {
        if a.get_char(i) != b.get_char(i) {
            return false;
        }
        i = i + 1;
    }
    assert(a@ =~= b@);
    true
}

/// The pieces of `s` between occurrences of `sep`, empty pieces included: one more piece
/// than there are separators.
pub open spec fn split_fields(s: Seq<char>, sep: char) -> Seq<Seq<char>>
    decreases s.len(),
{
    if s.len() == 0 {
        seq![seq![]]
    } else {
        let fields = split_fields(s.drop_last(), sep);
        if s.last() == sep {
            fields.push(seq![])
        } else {
            fields.update(fields.len() - 1, fields.last().push(s.last()))
        }
    }
}

/// The non-empty strings of a sequence, in order.
pub open spec fn drop_empty(fs: Seq<Seq<char>>) -> Seq<Seq<char>>
    decreases fs.len(),
{
    if fs.len() == 0 {
        seq![]
    } else {
        let kept = drop_empty(fs.drop_last());
        if fs.last().len() == 0 {
            kept
        } else {
            kept.push(fs.last())
        }
    }
}

/// The items of a comma-separated list: the pieces between commas, empty ones left out,
/// nothing trimmed.
pub open spec fn list_items(s: Seq<char>) -> Seq<Seq<char>> {
    drop_empty(split_fields(s, ','))
}

proof fn lemma_split_fields_nonempty(s: Seq<char>, sep: char)
    ensures
        split_fields(s, sep).len() >= 1,
    decreases s.len(),
{
    if s.len() > 0 {
        lemma_split_fields_nonempty(s.drop_last(), sep);
    }
}

/// Splits a comma-separated list into its non-empty items, each kept verbatim.
pub fn split_list(s: &str) -> (r: Vec<String>)
    ensures
        view_strings(r@) == list_items(s@),
{
    let n = s.unicode_len();
    let mut r: Vec<String> = Vec::new();
    let mut start: usize = 0;
    let mut i: usize = 0;
    proof {
        assert(s@.take(0) =~= Seq::<char>::empty());
    }
    while i < n
        invariant
            n == s@.len(),
            start <= i <= n,
            split_fields(s@.take(i as int), ',').len() >= 1,
            split_fields(s@.take(i as int), ',').last() == s@.subrange(start as int, i as int),
            view_strings(r@) == drop_empty(split_fields(s@.take(i as int), ',').drop_last()),
        decreases n - i,
    {
        let ghost prev = split_fields(s@.take(i as int), ',');
        let ghost next = s@.take(i as int + 1);
        proof {
            assert(next.drop_last() =~= s@.take(i as int));
            assert(next.last() == s@[i as int]);
        }
        let c = s.get_char(i);
        if c == ',' {
            if start < i {
                let piece = String::from_str(s.substring_char(start, i));
                let ghost before = r@;
                r.push(piece);
                assert(view_strings(r@) =~= view_strings(before).push(prev.last()));
            }
            assert(split_fields(next, ',').drop_last() =~= prev);
            start = i + 1;
        } else {
            assert(split_fields(next, ',').drop_last() =~= prev.drop_last());
            assert(s@.subrange(start as int, i as int + 1) =~= prev.last().push(c));
        }
        i = i + 1;
        proof {
            lemma_split_fields_nonempty(next, ',');
        }
    }
    let ghost fields = split_fields(s@.take(n as int), ',');
    let ghost before = r@;
    if start < n {
        let piece = String::from_str(s.substring_char(start, n));
        r.push(piece);
        assert(view_strings(r@) =~= view_strings(before).push(fields.last()));
    }
    assert(fields.drop_last().push(fields.last()) =~= fields);
    assert(s@.take(n as int) =~= s@);
    r
}

/// The characters of `s` with leading and trailing whitespace removed, as std trims them.
pub uninterp spec fn trimmed(s: Seq<char>) -> Seq<char>;

/// The characters of `s` in lower case, as std lower-cases them.
pub uninterp spec fn lowercased(s: Seq<char>) -> Seq<char>;

/// Relies on str::trim: the result depends on the characters alone.
#[verifier::external_body]
pub(crate) fn trim(s: &str) -> (r: &str)
    ensures
        r@ == trimmed(s@),
{
    s.trim()
}

/// Relies on str::to_lowercase: the result depends on the characters alone.
#[verifier::external_body]
pub(crate) fn to_lowercase(s: &str) -> (r: String)
    ensures
        r@ == lowercased(s@),
{
    s.to_lowercase()
}

} // verus!
