//! Small operations on text, stated over its characters.

use vstd::prelude::*;

verus! {

/// The characters of `s`, in order.
pub fn chars_of(s: &str) -> (v: Vec<char>)
    ensures
        v@ == s@,
{
    let mut v: Vec<char> = Vec::new();
    for c in it: s.chars()
        invariant
            v@ == s@.take(it.index() as int),
            it.seq() == s@,
    {
        v.push(c);
    }
    v
}

/// Whether `a` and `b` hold the same characters.
pub fn same_text(a: &str, b: &str) -> (same: bool)
    ensures
        same == (a@ == b@),
{
    let x = chars_of(a);
    let y = chars_of(b);
    if x.len() != y.len() {
        return false;
    }
    let mut i: usize = 0;
    while i < x.len()
        invariant
            i <= x.len(),
            x.len() == y.len(),
            x@ == a@,
            y@ == b@,
            forall|j: int| 0 <= j < i ==> x@[j] == y@[j],
        decreases x.len() - i,
    {
        if x[i] != y[i] {
            return false;
        }
        i += 1;
    }
    assert(x@ =~= y@);
    true
}

/// Whether `text` begins with `prefix`, character by character.
pub fn starts_with(text: &str, prefix: &str) -> (yes: bool)
    ensures
        yes == prefix@.is_prefix_of(text@),
{
    let t = chars_of(text);
    let p = chars_of(prefix);
    if p.len() > t.len() {
        return false;
    }
    let mut i: usize = 0;
    while i < p.len()
        invariant
            i <= p.len() <= t.len(),
            t@ == text@,
            p@ == prefix@,
            forall|j: int| 0 <= j < i ==> t@[j] == p@[j],
        decreases p.len() - i,
    {
        if t[i] != p[i] {
            assert(t@.subrange(0, p@.len() as int)[i as int] != p@[i as int]);
            return false;
        }
        i += 1;
    }
    assert(t@.subrange(0, p@.len() as int) == p@);
    true
}

/// Whether `text` ends with `suffix`, character by character.
pub fn ends_with(text: &str, suffix: &str) -> (yes: bool)
    ensures
        yes == suffix@.is_suffix_of(text@),
{
    let t = chars_of(text);
    let s = chars_of(suffix);
    if s.len() > t.len() {
        return false;
    }
    let shift = t.len() - s.len();
    let mut i: usize = 0;
    while i < s.len()
        invariant
            i <= s.len() <= t.len(),
            shift == t.len() - s.len(),
            t@ == text@,
            s@ == suffix@,
            forall|j: int| 0 <= j < i ==> t@[shift + j] == s@[j],
        decreases s.len() - i,
    {
        if t[shift + i] != s[i] {
            assert(t@.subrange(shift as int, t@.len() as int)[i as int] != s@[i as int]);
            return false;
        }
        i += 1;
    }
    assert(t@.subrange(shift as int, t@.len() as int) == s@);
    true
}

/// Whether some element of `list` is `wanted`.
pub fn contains_text(list: &Vec<String>, wanted: &str) -> (found: bool)
    ensures
        found == exists|i: int| 0 <= i < list.len() && list[i]@ == wanted@,
{
    let mut i: usize = 0;
    while i < list.len()
        invariant
            i <= list.len(),
            forall|j: int| 0 <= j < i ==> list[j]@ != wanted@,
        decreases list.len() - i,
    {
        if same_text(list[i].as_str(), wanted) {
            return true;
        }
        i += 1;
    }
    false
}

/// `list.push(x)` holds `y` exactly when `list` does or `x` is `y`.
pub proof fn lemma_contains_push<A>(list: Seq<A>, x: A, y: A)
    ensures
        list.push(x).contains(y) <==> list.contains(y) || x == y,
{
    let grown = list.push(x);
    if list.contains(y) {
        let i = choose|i: int| 0 <= i < list.len() && list[i] == y;
        assert(grown[i] == y);
    }
    if x == y {
        assert(grown[list.len() as int] == y);
    }
    if grown.contains(y) {
        let i = choose|i: int| 0 <= i < grown.len() && grown[i] == y;
        if i < list.len() {
            assert(list[i] == y);
        }
    }
}

/// `a + b` holds `x` exactly when one of the two does.
pub proof fn lemma_contains_concat<A>(a: Seq<A>, b: Seq<A>, x: A)
    ensures
        (a + b).contains(x) <==> a.contains(x) || b.contains(x),
{
    let whole = a + b;
    if a.contains(x) {
        let i = choose|i: int| 0 <= i < a.len() && a[i] == x;
        assert(whole[i] == x);
    }
    if b.contains(x) {
        let i = choose|i: int| 0 <= i < b.len() && b[i] == x;
        assert(whole[a.len() + i] == x);
    }
    if whole.contains(x) {
        let i = choose|i: int| 0 <= i < whole.len() && whole[i] == x;
        if i < a.len() {
            assert(a[i] == x);
        } else {
            assert(b[i - a.len()] == x);
        }
    }
}

} // verus!
