//! Paths on the remote side: texts whose components are separated by `/`.

use vstd::prelude::*;
use crate::utils::text::{append, slice_of};

verus! {

/// A path is absolute where it begins with a slash.
pub open spec fn is_absolute(p: Seq<char>) -> bool {
    p.len() > 0 && p[0] == '/'
}

/// Tells whether `p` is absolute.
pub fn absolute(p: &Vec<char>) -> (r: bool)
    ensures
        r == is_absolute(p@),
{
    p.len() > 0 && p[0] == '/'
}

/// `p` without the slashes at its end.
pub open spec fn strip_slashes(p: Seq<char>) -> Seq<char>
    decreases p.len(),
{
    if p.len() > 0 && p.last() == '/' {
        strip_slashes(p.drop_last())
    } else {
        p
    }
}

/// The position of the last `c` in `s`, or -1 where it holds none.
pub open spec fn last_index(s: Seq<char>, c: char) -> int
    decreases s.len(),
{
    if s.len() == 0 {
        -1
    } else if s.last() == c {
        s.len() - 1
    } else {
        last_index(s.drop_last(), c)
    }
}

/// `base` with `p` behind it. An absolute `p` stands alone; otherwise one
/// slash separates the two, unless `base` is empty or ends in one.
pub open spec fn join(base: Seq<char>, p: Seq<char>) -> Seq<char> {
    if is_absolute(p) {
        p
    } else if base.len() == 0 || base.last() == '/' {
        base + p
    } else {
        base + seq!['/'] + p
    }
}

/// The final component of `p`: what follows the last slash once the slashes
/// at the end are dropped. There is none where that is empty, `.` or `..`.
pub open spec fn file_name(p: Seq<char>) -> Option<Seq<char>> {
    let q = strip_slashes(p);
    let name = q.skip(last_index(q, '/') + 1);
    if name.len() == 0 || name == seq!['.'] || name == seq!['.', '.'] {
        None
    } else {
        Some(name)
    }
}

/// The final component of `p`, or the empty text where it has none.
pub open spec fn file_name_or_empty(p: Seq<char>) -> Seq<char> {
    match file_name(p) {
        Some(name) => name,
        None => Seq::empty(),
    }
}

/// The extension of the final component of `p`: what follows its last dot.
/// There is none without a final component, without a dot in it, or where
/// its only dot is its first character.
pub open spec fn extension(p: Seq<char>) -> Option<Seq<char>> {
    match file_name(p) {
        None => None,
        Some(name) => {
            let dot = last_index(name, '.');
            if dot <= 0 {
                None
            } else {
                Some(name.skip(dot + 1))
            }
        },
    }
}

/// `p` without its final component, and without the slashes before it, but
/// for the root, which stays `/`. A path with no slash in it has the empty
/// parent; the empty path and the root have none.
pub open spec fn parent(p: Seq<char>) -> Option<Seq<char>> {
    let q = strip_slashes(p);
    if q.len() == 0 {
        None
    } else {
        let cut = last_index(q, '/');
        if cut < 0 {
            Some(Seq::empty())
        } else {
            let dir = strip_slashes(q.take(cut));
            if dir.len() == 0 {
                Some(seq!['/'])
            } else {
                Some(dir)
            }
        }
    }
}

/// Dropping a run of slashes at the end leaves what `strip_slashes` gives.
proof fn lemma_strip_slashes_take(p: Seq<char>, j: int)
    requires
        0 <= j <= p.len(),
        forall|k: int| j <= k < p.len() ==> p[k] == '/',
    ensures
        strip_slashes(p) == strip_slashes(p.take(j)),
    decreases p.len() - j,
{
    if j < p.len() {
        lemma_strip_slashes_take(p.drop_last(), j);
        assert(p.drop_last().take(j) =~= p.take(j));
    } else {
        assert(p.take(j) =~= p);
    }
}

/// `last_index` is the one position that holds `c` with no `c` behind it.
proof fn lemma_last_index(s: Seq<char>, c: char, i: int)
    requires
        -1 <= i < s.len(),
        forall|k: int| i < k < s.len() ==> s[k] != c,
        i >= 0 ==> s[i] == c,
    ensures
        last_index(s, c) == i,
    decreases s.len(),
{
    if s.len() == 0 {
    } else if s.last() == c {
    } else {
        lemma_last_index(s.drop_last(), c, i);
    }
}

/// Text without `c` behind a text does not move the last `c`.
proof fn lemma_last_index_before(a: Seq<char>, b: Seq<char>, c: char)
    requires
        forall|k: int| 0 <= k < b.len() ==> b[k] != c,
    ensures
        last_index(a + b, c) == last_index(a, c),
    decreases b.len(),
{
    if b.len() == 0 {
        assert(a + b =~= a);
    } else {
        let s = a + b;
        assert(s.last() == b.last());
        assert(s.drop_last() =~= a + b.drop_last());
        lemma_last_index_before(a, b.drop_last(), c);
    }
}

/// A name without a slash in it, other than `.` and `..`, is the final
/// component of what it is joined to.
pub proof fn lemma_joined_name(base: Seq<char>, name: Seq<char>)
    requires
        name.len() > 0,
        forall|k: int| 0 <= k < name.len() ==> name[k] != '/',
        name != seq!['.'],
        name != seq!['.', '.'],
    ensures
        file_name(join(base, name)) == Some(name),
{
    let joined = join(base, name);
    let head = if base.len() == 0 || base.last() == '/' {
        base
    } else {
        base + seq!['/']
    };
    assert(!is_absolute(name));
    assert(joined =~= head + name);
    assert(joined.last() == name.last());
    assert(strip_slashes(joined) == joined);
    lemma_last_index_before(head, name, '/');
    if head.len() == 0 {
        assert(last_index(head, '/') == -1);
    } else {
        assert(head.last() == '/');
        assert(last_index(head, '/') == head.len() - 1);
    }
    assert(joined.skip(last_index(joined, '/') + 1) =~= name);
}

/// The length of `v[..to]` once the slashes at its end are dropped.
pub(crate) fn stripped_len(v: &Vec<char>, to: usize) -> (r: usize)
    requires
        to <= v.len(),
    ensures
        r <= to,
        v@.take(r as int) == strip_slashes(v@.take(to as int)),
{
    let mut end: usize = to;
    while end > 0 && v[end - 1] == '/'
        invariant
            end <= to <= v.len(),
            forall|k: int| end <= k < to ==> v@[k] == '/',
        decreases end,
    {
        end -= 1;
    }
    proof {
        let whole = v@.take(to as int);
        lemma_strip_slashes_take(whole, end as int);
        assert(whole.take(end as int) =~= v@.take(end as int));
        let kept = v@.take(end as int);
        assert(strip_slashes(kept) == kept);
    }
    end
}

/// The position just behind the last `c` in `v[..to]`; 0 where there is none.
pub(crate) fn after_last(v: &Vec<char>, to: usize, c: char) -> (r: usize)
    requires
        to <= v.len(),
    ensures
        r <= to,
        r as int == last_index(v@.take(to as int), c) + 1,
{
    let mut i: usize = to;
    while i > 0 && v[i - 1] != c
        invariant
            i <= to <= v.len(),
            forall|k: int| i <= k < to ==> v@[k] != c,
        decreases i,
    {
        i -= 1;
    }
    proof {
        lemma_last_index(v@.take(to as int), c, i - 1);
    }
    i
}

/// Joins `p` to `base`.
pub fn join_paths(base: &Vec<char>, p: &Vec<char>) -> (r: Vec<char>)
    ensures
        r@ == join(base@, p@),
{
    let mut r: Vec<char> = Vec::new();
    if absolute(p) {
        append(&mut r, p);
        assert(r@ =~= p@);
    } else if base.len() == 0 || base[base.len() - 1] == '/' {
        append(&mut r, base);
        append(&mut r, p);
        assert(r@ =~= base@ + p@);
    } else {
        append(&mut r, base);
        r.push('/');
        append(&mut r, p);
        assert(r@ =~= base@ + seq!['/'] + p@);
    }
    r
}

/// The final component of `p`, if it has one.
pub fn final_component(p: &Vec<char>) -> (r: Option<Vec<char>>)
    ensures
        r is Some == file_name(p@) is Some,
        r is Some ==> r->0@ == file_name(p@)->0,
{
    assert(p@.take(p.len() as int) =~= p@);
    let end: usize = stripped_len(p, p.len());
    let start: usize = after_last(p, end, '/');
    let name = slice_of(p, start, end);
    proof {
        let q = strip_slashes(p@);
        assert(q == p@.take(end as int));
        assert(name@ =~= q.skip(last_index(q, '/') + 1));
    }
    if name.len() == 0 {
        return None;
    }
    if name.len() == 1 && name[0] == '.' {
        assert(name@ =~= seq!['.']);
        return None;
    }
    if name.len() == 2 && name[0] == '.' && name[1] == '.' {
        assert(name@ =~= seq!['.', '.']);
        return None;
    }
    proof {
        if name@ == seq!['.'] {
            assert(seq!['.'].len() == 1);
            assert(seq!['.'][0] == '.');
        }
        if name@ == seq!['.', '.'] {
            assert(seq!['.', '.'].len() == 2);
            assert(seq!['.', '.'][0] == '.');
            assert(seq!['.', '.'][1] == '.');
        }
    }
    Some(name)
}

/// The extension of the final component of `p`, if it has one.
pub fn extension_of(p: &Vec<char>) -> (r: Option<Vec<char>>)
    ensures
        r is Some == extension(p@) is Some,
        r is Some ==> r->0@ == extension(p@)->0,
{
    match final_component(p) {
        None => None,
        Some(name) => {
            assert(name@.take(name.len() as int) =~= name@);
            let behind: usize = after_last(&name, name.len(), '.');
            if behind <= 1 {
                None
            } else {
                Some(slice_of(&name, behind, name.len()))
            }
        },
    }
}

/// The parent of `p`, if it has one.
pub fn parent_of(p: &Vec<char>) -> (r: Option<Vec<char>>)
    ensures
        r is Some == parent(p@) is Some,
        r is Some ==> r->0@ == parent(p@)->0,
{
    assert(p@.take(p.len() as int) =~= p@);
    let end: usize = stripped_len(p, p.len());
    if end == 0 {
        return None;
    }
    let behind: usize = after_last(p, end, '/');
    if behind == 0 {
        return Some(Vec::new());
    }
    let ghost q = strip_slashes(p@);
    let cut: usize = behind - 1;
    assert(q.take(cut as int) =~= p@.take(cut as int));
    let dir_end: usize = stripped_len(p, cut);
    if dir_end == 0 {
        let mut root: Vec<char> = Vec::new();
        root.push('/');
        assert(root@ =~= seq!['/']);
        Some(root)
    } else {
        let dir = slice_of(p, 0, dir_end);
        assert(dir@ =~= p@.take(dir_end as int));
        Some(dir)
    }
}

} // verus!
