//! Small verified operations on character sequences.
use vstd::prelude::*;
use vstd::string::StrSliceExecFns;

verus! {

/// `p` is a prefix of `s`.
pub open spec fn has_prefix(s: Seq<char>, p: Seq<char>) -> bool {
    p.len() <= s.len() && s.subrange(0, p.len() as int) == p
}

/// `s` with every hyphen turned into an underscore.
pub open spec fn dashes_to_underscores(s: Seq<char>) -> Seq<char> {
    s.map_values(|c: char| if c == '-' { '_' } else { c })
}

/// The character sequences of a list of strings.
pub open spec fn strings_view(v: Seq<String>) -> Seq<Seq<char>> {
    v.map_values(|s: String| s@)
}

/// Whether `s` starts with `p`.
pub fn starts_with(s: &str, p: &str) -> (r: bool)
    ensures
        r == has_prefix(s@, p@),
{
    let n = p.unicode_len();
    let m = s.unicode_len();
    if n > m {
        return false;
    }
    let mut i: usize = 0;
    while i < n
        invariant
            n == p@.len(),
            m == s@.len(),
            n <= m,
            i <= n,
            forall|j: int| 0 <= j < i ==> s@[j] == p@[j],
        decreases n - i,
    {
        if s.get_char(i) != p.get_char(i) {
            assert(s@.subrange(0, n as int)[i as int] != p@[i as int]);
            return false;
        }
        i = i + 1;
    }
    assert(s@.subrange(0, n as int) =~= p@);
    true
}

/// Copies `s`, writing an underscore in place of each hyphen.
pub fn replace_dashes(s: &str) -> (r: String)
    ensures
        r@ == dashes_to_underscores(s@),
{
    let m = s.unicode_len();
    let mut out = String::new();
    let mut i: usize = 0;
    while i < m
        invariant
            m == s@.len(),
            i <= m,
            out@ == dashes_to_underscores(s@.subrange(0, i as int)),
        decreases m - i,
    {
        let c = s.get_char(i);
        let ghost before = out@;
        if c == '-' {
            proof {
                reveal_strlit("_");
            }
            out.append("_");
        } else {
            out.append(s.substring_char(i, i + 1));
        }
        assert(dashes_to_underscores(s@.subrange(0, i + 1)) =~= before.push(
            if c == '-' { '_' } else { c },
        ));
        assert(out@ =~= before.push(if c == '-' { '_' } else { c }));
        i = i + 1;
    }
    assert(s@.subrange(0, m as int) =~= s@);
    out
}

/// `p` occurs in `s` at position `i`.
pub open spec fn occurs_at(s: Seq<char>, p: Seq<char>, i: int) -> bool {
    0 <= i && i + p.len() <= s.len() && s.subrange(i, i + p.len()) == p
}

/// `p` occurs somewhere in `s`.
pub open spec fn contains_spec(s: Seq<char>, p: Seq<char>) -> bool {
    exists|i: int| occurs_at(s, p, i)
}

fn matches_at(s: &str, p: &str, i: usize) -> (r: bool)
    requires
        i + p@.len() <= s@.len(),
    ensures
        r == occurs_at(s@, p@, i as int),
{
    let n = p.unicode_len();
    let m = s.unicode_len();
    let mut j: usize = 0;
    while j < n
        invariant
            n == p@.len(),
            m == s@.len(),
            i + n <= s@.len(),
            j <= n,
            forall|k: int| 0 <= k < j ==> s@[i + k] == p@[k],
        decreases n - j,
    {
        if s.get_char(i + j) != p.get_char(j) {
            assert(s@.subrange(i as int, i + n)[j as int] != p@[j as int]);
            return false;
        }
        j = j + 1;
    }
    assert(s@.subrange(i as int, i + n) =~= p@);
    true
}

/// Whether `p` occurs in `s`.
pub fn contains(s: &str, p: &str) -> (r: bool)
    ensures
        r == contains_spec(s@, p@),
{
    let n = p.unicode_len();
    let m = s.unicode_len();
    if n > m {
        assert(forall|i: int| !occurs_at(s@, p@, i));
        return false;
    }
    if n == 0 {
        assert(s@.subrange(0, 0) =~= p@);
        assert(occurs_at(s@, p@, 0));
        return true;
    }
    let mut i: usize = 0;
    while i <= m - n
        invariant
            n == p@.len(),
            m == s@.len(),
            0 < n <= m,
            i <= m - n + 1,
            forall|k: int| 0 <= k < i ==> !occurs_at(s@, p@, k),
        decreases m - n + 1 - i,
    {
        if matches_at(s, p, i) {
            return true;
        }
        i = i + 1;
    }
    assert(forall|k: int| !occurs_at(s@, p@, k));
    false
}

/// The items of `items` with `sep` between each two.
pub open spec fn join_spec(items: Seq<Seq<char>>, sep: Seq<char>) -> Seq<char>
    decreases items.len(),
{
    if items.len() == 0 {
        Seq::empty()
    } else if items.len() == 1 {
        items[0]
    } else {
        join_spec(items.drop_last(), sep) + sep + items.last()
    }
}

/// Joins `items` with `sep` between each two.
pub fn join(items: &Vec<String>, sep: &str) -> (r: String)
    ensures
        r@ == join_spec(strings_view(items@), sep@),
{
    let ghost all = strings_view(items@);
    let mut out = String::new();
    let mut i: usize = 0;
    while i < items.len()
        invariant
            all == strings_view(items@),
            i <= items@.len(),
            out@ == join_spec(all.subrange(0, i as int), sep@),
        decreases items@.len() - i,
    {
        assert(all.subrange(0, i + 1).drop_last() =~= all.subrange(0, i as int));
        if i > 0 {
            out.append(sep);
        } else {
            assert(out@ =~= Seq::<char>::empty());
        }
        out.append(items[i].as_str());
        i = i + 1;
    }
    assert(all.subrange(0, items@.len() as int) =~= all);
    out
}

/// Case folding as `str::to_lowercase` performs it; it depends on the
/// characters alone.
pub uninterp spec fn lower_of(s: Seq<char>) -> Seq<char>;

/// Relies on `str::to_lowercase`: the full Unicode lowercase mapping of `s`,
/// a function of its characters.
#[verifier::external_body]
pub(crate) fn lowercase(s: &str) -> (r: String)
    ensures
        r@ == lower_of(s@),
{
    s.to_lowercase()
}

} // verus!
