//! A lexical model of slash-separated paths.
//!
//! A path is a sequence of characters. Everything here is decided from the
//! text alone: nothing consults a filesystem.

use crate::text::{chars_of, lemma_contains_concat, lemma_contains_push};
use vstd::prelude::*;
use vstd::string::StrSliceExecFns;
use vstd::string::StringExecFns;

verus! {

/// The empty segment.
pub open spec fn empty_segment() -> Seq<char> {
    Seq::<char>::empty()
}

/// The segment `.`, which names the current directory.
pub open spec fn dot() -> Seq<char> {
    seq!['.']
}

/// The segment `..`, which names the parent directory.
pub open spec fn dotdot() -> Seq<char> {
    seq!['.', '.']
}

/// The pieces of `s` between separators, empty pieces included. A text with
/// `n` separators has `n + 1` segments.
pub open spec fn segments(s: Seq<char>) -> Seq<Seq<char>>
    decreases s.len(),
{
    if s.len() == 0 {
        seq![empty_segment()]
    } else {
        let before = segments(s.drop_last());
        if s.last() == '/' {
            before.push(empty_segment())
        } else {
            before.drop_last().push(before.last().push(s.last()))
        }
    }
}

/// A path is rooted when it begins with a separator.
pub open spec fn is_rooted(s: Seq<char>) -> bool {
    s.len() > 0 && s[0] == '/'
}

/// A segment that names something: neither empty nor `.`.
pub open spec fn is_name(segment: Seq<char>) -> bool {
    segment.len() > 0 && segment != dot()
}

/// Whether `segment` holds no separator.
pub open spec fn separator_free(segment: Seq<char>) -> bool {
    forall|i: int| 0 <= i < segment.len() ==> segment[i] != '/'
}

/// Whether every element of `list` is a name that holds no separator.
pub open spec fn all_names(list: Seq<Seq<char>>) -> bool {
    forall|i: int| 0 <= i < list.len() ==> is_name(#[trigger] list[i]) && separator_free(list[i])
}

/// The segments of `list` that name something, in order.
pub open spec fn only_names(list: Seq<Seq<char>>) -> Seq<Seq<char>>
    decreases list.len(),
{
    if list.len() == 0 {
        Seq::<Seq<char>>::empty()
    } else if is_name(list.last()) {
        only_names(list.drop_last()).push(list.last())
    } else {
        only_names(list.drop_last())
    }
}

/// The names of a path: its segments without the empty ones and without `.`.
/// Repeated separators, a trailing separator and `.` leave them unchanged.
pub open spec fn names(s: Seq<char>) -> Seq<Seq<char>> {
    only_names(segments(s))
}

/// Whether some segment of `s` is `..`.
pub open spec fn has_parent_segment(s: Seq<char>) -> bool {
    segments(s).contains(dotdot())
}

/// `list` written out with one separator between neighbours.
pub open spec fn join_names(list: Seq<Seq<char>>) -> Seq<char>
    decreases list.len(),
{
    if list.len() == 0 {
        Seq::<char>::empty()
    } else if list.len() == 1 {
        list[0]
    } else {
        join_names(list.drop_last()) + seq!['/'] + list.last()
    }
}

/// What is left of `list` once each `..` has taken away the name before it.
/// A `..` with no name before it is dropped under a root and kept
/// otherwise.
pub open spec fn resolve(list: Seq<Seq<char>>, rooted: bool) -> Seq<Seq<char>>
    decreases list.len(),
{
    if list.len() == 0 {
        Seq::<Seq<char>>::empty()
    } else {
        let before = resolve(list.drop_last(), rooted);
        if list.last() != dotdot() {
            before.push(list.last())
        } else if before.len() > 0 && before.last() != dotdot() {
            before.drop_last()
        } else if rooted {
            before
        } else {
            before.push(dotdot())
        }
    }
}

/// Whether each `..` in `list` stands where resolving leaves one: not under
/// a root, and only at the start or after another `..`.
pub open spec fn settled(list: Seq<Seq<char>>, rooted: bool) -> bool {
    forall|i: int|
        0 <= i < list.len() && #[trigger] list[i] == dotdot() ==> !rooted && (i == 0 || list[i - 1]
            == dotdot())
}

/// The text of a path with the given names: under a root they follow the
/// leading separator; without one an empty list is written `.`.
pub open spec fn render(rooted: bool, list: Seq<Seq<char>>) -> Seq<char> {
    if rooted {
        seq!['/'] + join_names(list)
    } else if list.len() == 0 {
        dot()
    } else {
        join_names(list)
    }
}

/// The normal form of a path: single separators, no `.`, and `..` only
/// where a path without a root begins.
pub open spec fn normalized(s: Seq<char>) -> Seq<char> {
    render(is_rooted(s), resolve(names(s), is_rooted(s)))
}

/// `s` without its leading separator, if it has one.
pub open spec fn without_root(s: Seq<char>) -> Seq<char> {
    if is_rooted(s) {
        s.drop_first()
    } else {
        s
    }
}

/// Whether a separator has to be written after `base` before more is
/// appended.
pub open spec fn wants_separator(base: Seq<char>) -> bool {
    base.len() > 0 && base.last() != '/'
}

/// `rel` adjoined to `base`. A rooted `rel` replaces `base`.
pub open spec fn joined(base: Seq<char>, rel: Seq<char>) -> Seq<char> {
    if is_rooted(rel) {
        rel
    } else if wants_separator(base) {
        base + seq!['/'] + rel
    } else {
        base + rel
    }
}

/// Whether `path` begins with a separator.
pub fn is_absolute(path: &str) -> (rooted: bool)
    ensures
        rooted == is_rooted(path@),
{
    path.unicode_len() > 0 && path.get_char(0) == '/'
}

/// Whether the characters `v[from..to]` spell `..`.
fn spells_dotdot(v: &Vec<char>, from: usize, to: usize) -> (yes: bool)
    requires
        from <= to <= v.len(),
    ensures
        yes == (v@.subrange(from as int, to as int) == dotdot()),
{
    let yes = to - from == 2 && v[from] == '.' && v[from + 1] == '.';
    proof {
        let piece = v@.subrange(from as int, to as int);
        if yes {
            assert(piece =~= dotdot());
        } else if piece == dotdot() {
            assert(piece.len() == 2);
        }
    }
    yes
}

/// Whether some segment of `path` is `..`.
pub fn contains_parent_segment(path: &str) -> (found: bool)
    ensures
        found == has_parent_segment(path@),
{
    let v = chars_of(path);
    let n = v.len();
    let mut start: usize = 0;
    let mut found = false;
    let mut i: usize = 0;
    while i < n
        invariant
            n == v.len(),
            start <= i <= n,
            segments(v@.take(i as int)).last() == v@.subrange(start as int, i as int),
            found == segments(v@.take(i as int)).drop_last().contains(dotdot()),
        decreases n - i,
    {
        let ghost before = segments(v@.take(i as int));
        proof {
            lemma_segments_nonempty(v@.take(i as int));
            lemma_segments_push(v@.take(i as int), v@[i as int]);
            assert(v@.take(i + 1) == v@.take(i as int).push(v@[i as int]));
        }
        if v[i] == '/' {
            if spells_dotdot(&v, start, i) {
                found = true;
            }
            start = i + 1;
            proof {
                let after = before.push(empty_segment());
                assert(after.drop_last() == before);
                assert(before == before.drop_last().push(before.last()));
                lemma_contains_push(before.drop_last(), before.last(), dotdot());
            }
        } else {
            proof {
                let grown = before.last().push(v@[i as int]);
                assert(before.drop_last().push(grown).drop_last() == before.drop_last());
            }
        }
        i += 1;
    }
    let last = spells_dotdot(&v, start, n);
    proof {
        let all = segments(v@.take(n as int));
        assert(v@.take(n as int) == v@);
        lemma_segments_nonempty(v@);
        assert(all == all.drop_last().push(all.last()));
        lemma_contains_push(all.drop_last(), all.last(), dotdot());
    }
    found || last
}

/// `path` without its leading separator, if it has one.
pub fn strip_root(path: &str) -> (rest: &str)
    ensures
        rest@ == without_root(path@),
{
    if is_absolute(path) {
        path.substring_char(1, path.unicode_len())
    } else {
        path
    }
}

/// `rel` adjoined to `base`, with a separator between them where `base`
/// does not end in one. A rooted `rel` replaces `base`.
pub fn join(base: &str, rel: &str) -> (path: String)
    ensures
        path@ == joined(base@, rel@),
{
    if is_absolute(rel) {
        return rel.to_owned();
    }
    let mut path = base.to_owned();
    let n = base.unicode_len();
    if n > 0 && base.get_char(n - 1) != '/' {
        proof {
            reveal_strlit("/");
        }
        path.append("/");
    }
    path.append(rel);
    path
}

/// Every text has at least one segment.
pub proof fn lemma_segments_nonempty(s: Seq<char>)
    ensures
        segments(s).len() >= 1,
    decreases s.len(),
{
    if s.len() > 0 {
        lemma_segments_nonempty(s.drop_last());
    }
}

/// Appending one character either opens a new segment or extends the last.
pub proof fn lemma_segments_push(s: Seq<char>, c: char)
    ensures
        c == '/' ==> segments(s.push(c)) == segments(s).push(empty_segment()),
        c != '/' ==> segments(s.push(c)) == segments(s).drop_last().push(
            segments(s).last().push(c),
        ),
{
    assert(s.push(c).drop_last() == s);
}

/// No segment holds a separator.
pub proof fn lemma_segments_separator_free(s: Seq<char>)
    ensures
        forall|i: int| 0 <= i < segments(s).len() ==> separator_free(#[trigger] segments(s)[i]),
    decreases s.len(),
{
    if s.len() > 0 {
        lemma_segments_separator_free(s.drop_last());
        lemma_segments_nonempty(s.drop_last());
    }
}

/// A text without separators is its own single segment.
pub proof fn lemma_segments_single(s: Seq<char>)
    requires
        separator_free(s),
    ensures
        segments(s) == seq![s],
    decreases s.len(),
{
    if s.len() == 0 {
        assert(s == empty_segment());
    } else {
        let front = s.drop_last();
        lemma_segments_single(front);
        assert(front.push(s.last()) == s);
    }
}

/// A separator between two texts keeps their segments apart.
pub proof fn lemma_segments_concat(a: Seq<char>, b: Seq<char>)
    ensures
        segments(a + seq!['/'] + b) == segments(a) + segments(b),
    decreases b.len(),
{
    let whole = a + seq!['/'] + b;
    if b.len() == 0 {
        assert(whole == a.push('/'));
        lemma_segments_push(a, '/');
    } else {
        let front = b.drop_last();
        lemma_segments_concat(a, front);
        lemma_segments_nonempty(front);
        assert(whole.drop_last() == a + seq!['/'] + front);
        let left = segments(a);
        let right = segments(front);
        if b.last() != '/' {
            assert((left + right.drop_last()).push(right.last().push(b.last())) == left
                + right.drop_last().push(right.last().push(b.last())));
        }
    }
}

/// Writing names out and reading the segments back gives the names again.
pub proof fn lemma_segments_of_join(list: Seq<Seq<char>>)
    requires
        list.len() >= 1,
        forall|i: int| 0 <= i < list.len() ==> separator_free(#[trigger] list[i]),
    ensures
        segments(join_names(list)) == list,
    decreases list.len(),
{
    if list.len() == 1 {
        lemma_segments_single(list[0]);
    } else {
        let front = list.drop_last();
        lemma_segments_of_join(front);
        lemma_segments_concat(join_names(front), list.last());
        lemma_segments_single(list.last());
    }
}

/// Names written out begin with the first character of the first name.
pub proof fn lemma_join_names_first(list: Seq<Seq<char>>)
    requires
        list.len() >= 1,
        list[0].len() > 0,
    ensures
        join_names(list).len() > 0,
        join_names(list)[0] == list[0][0],
    decreases list.len(),
{
    if list.len() > 1 {
        lemma_join_names_first(list.drop_last());
    }
}

/// The names of two lists, one after the other, are the names of the lists
/// put together.
pub proof fn lemma_only_names_concat(a: Seq<Seq<char>>, b: Seq<Seq<char>>)
    ensures
        only_names(a + b) == only_names(a) + only_names(b),
    decreases b.len(),
{
    if b.len() > 0 {
        lemma_only_names_concat(a, b.drop_last());
        assert((a + b).drop_last() == a + b.drop_last());
    }
}

/// A list of names is left as it is.
pub proof fn lemma_only_names_fixed(list: Seq<Seq<char>>)
    requires
        forall|i: int| 0 <= i < list.len() ==> is_name(#[trigger] list[i]),
    ensures
        only_names(list) == list,
    decreases list.len(),
{
    if list.len() > 0 {
        lemma_only_names_fixed(list.drop_last());
    }
}

/// A single segment is kept if it is a name and dropped if it is not.
pub proof fn lemma_only_names_one(segment: Seq<char>)
    ensures
        only_names(seq![segment]) == if is_name(segment) {
            seq![segment]
        } else {
            Seq::<Seq<char>>::empty()
        },
{
    reveal_with_fuel(only_names, 2);
}

/// Every element of the result is a name that occurs in `list`.
pub proof fn lemma_only_names_sound(list: Seq<Seq<char>>)
    ensures
        forall|i: int|
            0 <= i < only_names(list).len() ==> is_name(#[trigger] only_names(list)[i])
                && list.contains(only_names(list)[i]),
    decreases list.len(),
{
    if list.len() > 0 {
        let front = list.drop_last();
        lemma_only_names_sound(front);
        assert forall|i: int| 0 <= i < only_names(list).len() implies is_name(
            #[trigger] only_names(list)[i],
        ) && list.contains(only_names(list)[i]) by {
            if i < only_names(front).len() {
                let j = choose|j: int| 0 <= j < front.len() && front[j] == only_names(front)[i];
            }
        }
    }
}

/// The names of a path are names, and none of them holds a separator.
pub proof fn lemma_names_are_names(s: Seq<char>)
    ensures
        all_names(names(s)),
{
    lemma_only_names_sound(segments(s));
    lemma_segments_separator_free(s);
    assert forall|i: int| 0 <= i < names(s).len() implies is_name(#[trigger] names(s)[i])
        && separator_free(names(s)[i]) by {
        let x = names(s)[i];
        let j = choose|j: int| 0 <= j < segments(s).len() && segments(s)[j] == x;
    }
}

/// The names on both sides of a separator are the names of the whole.
pub proof fn lemma_names_concat(a: Seq<char>, b: Seq<char>)
    ensures
        names(a + seq!['/'] + b) == names(a) + names(b),
{
    lemma_segments_concat(a, b);
    lemma_only_names_concat(segments(a), segments(b));
}

/// Resolving `..` adds nothing that was not a name before.
pub proof fn lemma_resolve_keeps_names(list: Seq<Seq<char>>, rooted: bool)
    requires
        all_names(list),
    ensures
        all_names(resolve(list, rooted)),
    decreases list.len(),
{
    if list.len() > 0 {
        lemma_resolve_keeps_names(list.drop_last(), rooted);
    }
}

/// What resolving leaves is settled.
pub proof fn lemma_resolve_settles(list: Seq<Seq<char>>, rooted: bool)
    ensures
        settled(resolve(list, rooted), rooted),
    decreases list.len(),
{
    if list.len() > 0 {
        lemma_resolve_settles(list.drop_last(), rooted);
    }
}

/// Resolving changes nothing in a list that is settled. A list without any
/// `..` is settled.
pub proof fn lemma_resolve_settled(list: Seq<Seq<char>>, rooted: bool)
    requires
        settled(list, rooted),
    ensures
        resolve(list, rooted) == list,
    decreases list.len(),
{
    if list.len() > 0 {
        let front = list.drop_last();
        assert(settled(front, rooted)) by {
            assert forall|i: int| 0 <= i < front.len() && #[trigger] front[i]
                == dotdot() implies !rooted && (i == 0 || front[i - 1] == dotdot()) by {
                assert(list[i] == dotdot());
            }
        }
        lemma_resolve_settled(front, rooted);
    }
}

/// The text of a path gives back what it was written from: its root, its
/// names, and a `..` exactly where one was among the names.
pub proof fn lemma_render_reads_back(rooted: bool, list: Seq<Seq<char>>)
    requires
        all_names(list),
    ensures
        is_rooted(render(rooted, list)) == rooted,
        !is_rooted(without_root(render(rooted, list))),
        names(render(rooted, list)) == list,
        has_parent_segment(render(rooted, list)) == list.contains(dotdot()),
        render(rooted, list).len() > 0,
{
    let body = join_names(list);
    let none = empty_segment();
    if list.len() > 0 {
        lemma_join_names_first(list);
        lemma_segments_of_join(list);
        lemma_only_names_fixed(list);
    }
    if rooted {
        lemma_segments_concat(none, body);
        lemma_names_concat(none, body);
        lemma_contains_concat(segments(none), segments(body), dotdot());
        lemma_only_names_one(none);
        assert(segments(none).contains(dotdot()) ==> false) by {
            if segments(none).contains(dotdot()) {
                let i = choose|i: int|
                    0 <= i < segments(none).len() && segments(none)[i] == dotdot();
            }
        }
    } else if list.len() == 0 {
        lemma_segments_single(dot());
        lemma_only_names_one(dot());
        if seq![dot()].contains(dotdot()) {
            let i = choose|i: int| 0 <= i < seq![dot()].len() && seq![dot()][i] == dotdot();
        }
    }
}

/// Adjoining a path without a root keeps the base in front and appends the
/// names of the path to those of the base.
pub proof fn lemma_names_of_joined(base: Seq<char>, rel: Seq<char>)
    requires
        !is_rooted(rel),
    ensures
        names(joined(base, rel)) == names(base) + names(rel),
        base.is_prefix_of(joined(base, rel)),
{
    let none = empty_segment();
    assert(names(none) == Seq::<Seq<char>>::empty()) by {
        lemma_only_names_one(none);
    }
    if wants_separator(base) {
        lemma_names_concat(base, rel);
    } else if base.len() > 0 {
        let front = base.drop_last();
        assert(base == front + seq!['/'] + none);
        lemma_names_concat(front, none);
        lemma_names_concat(front, rel);
    }
}

/// A normal form has the root and the names that it was written from; its
/// names are settled, and once its root is removed it has none.
pub proof fn lemma_normalized_shape(s: Seq<char>)
    ensures
        all_names(names(normalized(s))),
        settled(names(normalized(s)), is_rooted(s)),
        names(normalized(s)) == resolve(names(s), is_rooted(s)),
        is_rooted(normalized(s)) == is_rooted(s),
        !is_rooted(without_root(normalized(s))),
        has_parent_segment(normalized(s)) == names(normalized(s)).contains(dotdot()),
        normalized(s).len() > 0,
{
    let rooted = is_rooted(s);
    lemma_names_are_names(s);
    lemma_resolve_keeps_names(names(s), rooted);
    lemma_resolve_settles(names(s), rooted);
    lemma_render_reads_back(rooted, resolve(names(s), rooted));
}

/// Normalizing is idempotent: a normal form is its own normal form.
pub proof fn lemma_normalized_idempotent(s: Seq<char>)
    ensures
        normalized(normalized(s)) == normalized(s),
{
    lemma_normalized_shape(s);
    lemma_resolve_settled(names(normalized(s)), is_rooted(s));
}

} // verus!
