//! Paths as text: their segments, and what is left of one under another.

use vstd::prelude::*;

use crate::text::{concat2, same};

verus! {

/// A segment that says something: neither empty nor a single dot.
pub open spec fn kept(done: Seq<Seq<char>>, segment: Seq<char>) -> Seq<Seq<char>> {
    if segment.len() == 0 || segment == "."@ {
        done
    } else {
        done.push(segment)
    }
}

/// The segments closed by a slash so far, and the one still open.
pub open spec fn scan(s: Seq<char>) -> (Seq<Seq<char>>, Seq<char>)
    decreases s.len(),
{
    if s.len() == 0 {
        (Seq::empty(), Seq::empty())
    } else {
        let (done, open) = scan(s.drop_last());
        if s.last() == '/' {
            (kept(done, open), Seq::empty())
        } else {
            (done, open.push(s.last()))
        }
    }
}

/// The segments of a path, in order. Empty segments and single dots say nothing.
pub open spec fn segments(s: Seq<char>) -> Seq<Seq<char>> {
    kept(scan(s).0, scan(s).1)
}

/// Segments joined by slashes.
pub open spec fn joined(parts: Seq<Seq<char>>) -> Seq<char>
    decreases parts.len(),
{
    if parts.len() == 0 {
        Seq::empty()
    } else if parts.len() == 1 {
        parts[0]
    } else {
        joined(parts.drop_last()) + "/"@ + parts.last()
    }
}

/// A path that starts at the root.
pub open spec fn absolute(s: Seq<char>) -> bool {
    s.len() > 0 && s[0] == '/'
}

/// A path that starts with a single dot as its first segment.
pub open spec fn dotted(s: Seq<char>) -> bool {
    s.len() > 0 && s[0] == '.' && (s.len() == 1 || s[1] == '/')
}

/// What a path starts at: the root, the current directory where it is named, or nothing.
pub open spec fn start(s: Seq<char>) -> Seq<Seq<char>> {
    if absolute(s) {
        seq!["/"@]
    } else if dotted(s) {
        seq!["."@]
    } else {
        Seq::empty()
    }
}

/// The components of a path: what it starts at, and its segments. Only an empty path has none.
pub open spec fn components(s: Seq<char>) -> Seq<Seq<char>> {
    start(s) + segments(s)
}

/// What is left of `path` under `root`, where `path` lies there: the components of `path` that
/// come after those of `root`. Everything lies under an empty root, and all of it is left.
pub open spec fn under(path: Seq<char>, root: Seq<char>) -> Option<Seq<char>> {
    let p = components(path);
    let r = components(root);
    if r.len() <= p.len() && p.take(r.len() as int) == r {
        Some(
            if r.len() == 0 && absolute(path) {
                "/"@ + joined(segments(path))
            } else {
                joined(p.skip(r.len() as int))
            },
        )
    } else {
        None
    }
}

/// Whether a path starts at the root.
pub fn is_absolute(s: &str) -> (r: bool)
    ensures
        r == absolute(s@),
{
    s.unicode_len() > 0 && s.get_char(0) == '/'
}

/// The characters of each of `parts`.
pub open spec fn chars(parts: Seq<String>) -> Seq<Seq<char>> {
    Seq::new(parts.len(), |i: int| parts[i]@)
}

fn keep(done: &mut Vec<String>, segment: String)
    ensures
        chars(final(done)@) == kept(chars(old(done)@), segment@),
{
    let ghost before = done@;
    if segment.as_str().unicode_len() != 0 && !same(segment.as_str(), ".") {
        done.push(segment);
        proof {
            assert(chars(done@) =~= chars(before).push(segment@));
        }
    }
}

fn split(s: &str) -> (r: Vec<String>)
    ensures
        chars(r@) == segments(s@),
{
    let n: usize = s.unicode_len();
    let mut done: Vec<String> = Vec::new();
    let mut open = String::new();
    let mut i: usize = 0;
    proof {
        assert(chars(done@) =~= Seq::empty());
        assert(s@.take(0) =~= Seq::empty());
    }
    while i < n
        invariant
            i <= n,
            n == s@.len(),
            chars(done@) == scan(s@.take(i as int)).0,
            open@ == scan(s@.take(i as int)).1,
        decreases n - i,
    {
        proof {
            assert(s@.take(i + 1).drop_last() =~= s@.take(i as int));
            assert(s@.take(i + 1).last() == s@[i as int]);
        }
        let c = s.get_char(i);
        if c == '/' {
            keep(&mut done, open);
            open = String::new();
        } else {
            open.push(c);
        }
        i = i + 1;
    }
    proof {
        assert(s@.take(i as int) =~= s@);
    }
    keep(&mut done, open);
    done
}

fn split_components(s: &str) -> (r: Vec<String>)
    ensures
        chars(r@) == components(s@),
{
    let mut parts: Vec<String> = Vec::new();
    if is_absolute(s) {
        parts.push("/".to_owned());
    } else if s.unicode_len() > 0 && s.get_char(0) == '.' && (s.unicode_len() == 1 || s.get_char(1)
        == '/') {
        parts.push(".".to_owned());
    }
    let ghost head = parts@;
    proof {
        assert(chars(head) =~= start(s@));
    }
    let mut rest = split(s);
    let ghost tail = rest@;
    parts.append(&mut rest);
    proof {
        assert(chars(parts@) =~= chars(head) + chars(tail));
    }
    parts
}

fn join_from(parts: &Vec<String>, from: usize) -> (r: String)
    requires
        from <= parts.len(),
    ensures
        r@ == joined(chars(parts@).skip(from as int)),
{
    let mut out = String::new();
    let mut i: usize = from;
    let ghost rest = chars(parts@).skip(from as int);
    proof {
        assert(rest.take(0) =~= Seq::empty());
    }
    while i < parts.len()
        invariant
            from <= i <= parts.len(),
            rest == chars(parts@).skip(from as int),
            out@ == joined(rest.take(i - from)),
        decreases parts.len() - i,
    {
        proof {
            let next = rest.take(i - from + 1);
            assert(next.drop_last() =~= rest.take(i - from));
            assert(next.last() == parts@[i as int]@);
        }
        if i > from {
            out.append("/");
        }
        out.append(parts[i].as_str());
        proof {
            assert(out@ =~= joined(rest.take(i - from + 1)));
        }
        i = i + 1;
    }
    proof {
        assert(rest.take(i - from) =~= rest);
    }
    out
}

/// What is left of `path` under `root`, where `path` lies there. Nothing is made of dots that
/// go up: they are segments like any other.
pub fn strip_root(path: &str, root: &str) -> (r: Option<String>)
    ensures
        r.deep_view() == under(path@, root@),
{
    let p = split_components(path);
    let q = split_components(root);
    if q.len() > p.len() {
        return None;
    }
    let mut i: usize = 0;
    while i < q.len()
        invariant
            i <= q.len() <= p.len(),
            chars(p@) == components(path@),
            chars(q@) == components(root@),
            forall|j: int| 0 <= j < i ==> (#[trigger] chars(p@)[j]) == chars(q@)[j],
        decreases q.len() - i,
    {
        if !same(p[i].as_str(), q[i].as_str()) {
            proof {
                assert(chars(p@).take(q.len() as int)[i as int] != chars(q@)[i as int]);
            }
            return None;
        }
        i = i + 1;
    }
    proof {
        assert(chars(p@).take(q.len() as int) =~= chars(q@));
    }
    if q.len() == 0 && is_absolute(path) {
        let rest = join_from(&p, 1);
        proof {
            assert(chars(p@).skip(1) =~= segments(path@));
        }
        return Some(concat2("/", rest.as_str()));
    }
    Some(join_from(&p, q.len()))
}

/// A slash between two paths splits their segments.
pub proof fn lemma_segments_of_joined(a: Seq<char>, b: Seq<char>)
    ensures
        scan(a + "/"@ + b).0 == segments(a) + scan(b).0,
        scan(a + "/"@ + b).1 == scan(b).1,
        segments(a + "/"@ + b) == segments(a) + segments(b),
    decreases b.len(),
{
    reveal_strlit("/");
    let whole = a + "/"@ + b;
    if b.len() == 0 {
        assert(whole.drop_last() =~= a);
        assert(whole.last() == '/');
        assert(segments(a) + Seq::<Seq<char>>::empty() =~= segments(a));
    } else {
        lemma_segments_of_joined(a, b.drop_last());
        assert(whole.drop_last() =~= a + "/"@ + b.drop_last());
        assert(whole.last() == b.last());
        let (done, open) = scan(b.drop_last());
        assert(kept(segments(a) + done, open) =~= segments(a) + kept(done, open));
    }
    let (done, open) = scan(b);
    assert(kept(segments(a) + done, open) =~= segments(a) + kept(done, open));
}

/// A path that is not empty has a component.
proof fn lemma_has_component(s: Seq<char>)
    requires
        s.len() > 0,
    ensures
        components(s).len() > 0,
{
    if start(s).len() == 0 {
        lemma_first_segment(s);
    }
}

/// A path that starts at neither the root nor a dot starts with a segment.
proof fn lemma_first_segment(s: Seq<char>)
    requires
        s.len() > 0,
        s[0] != '/',
        !dotted(s),
    ensures
        segments(s).len() > 0,
    decreases s.len(),
{
    reveal_strlit(".");
    reveal_with_fuel(scan, 3);
    let before = s.drop_last();
    let (done, open) = scan(before);
    if s.len() == 1 {
        assert(before =~= Seq::empty());
        assert(scan(s).1 =~= seq![s[0]]);
        assert(scan(s).1[0] == s[0]);
        assert("."@[0] == '.');
    } else if dotted(before) {
        if s.len() > 2 {
            assert(before[1] == s[1]);
        }
        assert(before.drop_last() =~= Seq::empty());
        assert(open =~= seq!['.']);
        assert(scan(s).1.len() == 2);
    } else {
        lemma_first_segment(before);
        if s.last() != '/' {
            assert(scan(s).1 == open.push(s.last()));
            assert(open.len() == 0 ==> done.len() > 0);
        }
    }
}

/// A path put under a root is what is left of the whole under that root. An empty root is none
/// that a path can be put under: with a slash before it, the path starts at the root of all.
pub proof fn law_what_is_joined_is_left(root: Seq<char>, path: Seq<char>)
    requires
        root.len() > 0,
    ensures
        under(root + "/"@ + path, root) == Some(joined(segments(path))),
{
    reveal_strlit("/");
    let whole = root + "/"@ + path;
    lemma_segments_of_joined(root, path);
    lemma_has_component(root);
    assert(whole[0] == root[0]);
    if root.len() > 1 {
        assert(whole[1] == root[1]);
    } else {
        assert(whole[1] == '/');
    }
    assert(start(whole) == start(root));
    let r = components(root);
    assert(components(whole) =~= r + segments(path));
    assert((r + segments(path)).take(r.len() as int) =~= r);
    assert((r + segments(path)).skip(r.len() as int) =~= segments(path));
}

/// Everything lies under an empty root, and keeps what it starts at.
pub proof fn law_everything_lies_under_an_empty_root(path: Seq<char>)
    ensures
        under(path, Seq::empty()) == Some(
            if absolute(path) {
                "/"@ + joined(segments(path))
            } else {
                joined(components(path))
            },
        ),
{
    let r = components(Seq::empty());
    assert(r =~= Seq::empty());
    assert(components(path).take(0) =~= r);
    assert(components(path).skip(0) =~= components(path));
}

/// Text that is one segment of a path: not empty, no single dot, and without a slash.
pub open spec fn one_segment(s: Seq<char>) -> bool {
    s.len() > 0 && !s.contains('/') && s != seq!['.']
}

/// Text without a slash belongs to the segment that is open.
proof fn lemma_open_segment(s: Seq<char>)
    requires
        !s.contains('/'),
    ensures
        scan(s).0 == Seq::<Seq<char>>::empty(),
        scan(s).1 == s,
    decreases s.len(),
{
    if s.len() > 0 {
        let less = s.drop_last();
        assert forall|i: int| 0 <= i < less.len() implies less[i] != '/' by {
            assert(s[i] == less[i]);
            assert(s.contains(s[i]));
        }
        assert(s.contains(s[s.len() - 1]));
        lemma_open_segment(less);
        assert(scan(s).1 =~= s);
    } else {
        assert(scan(s).1 =~= s);
    }
}

/// A path is the segments between its slashes: one segment is one, a slash puts what is before
/// it ahead of what is behind it, and nothing and a single dot are none.
pub proof fn law_a_path_is_its_segments(a: Seq<char>, b: Seq<char>)
    ensures
        one_segment(a) ==> segments(a) == seq![a],
        segments(a + seq!['/'] + b) == segments(a) + segments(b),
        segments(Seq::empty()).len() == 0,
        segments(seq!['.']).len() == 0,
{
    reveal_strlit(".");
    reveal_strlit("/");
    assert("."@ =~= seq!['.']);
    assert("/"@ =~= seq!['/']);
    lemma_segments_of_joined(a, b);
    if one_segment(a) {
        lemma_open_segment(a);
        assert(segments(a) =~= seq![a]);
    }
    let dot = seq!['.'];
    assert forall|i: int| 0 <= i < dot.len() implies dot[i] != '/' by {}
    lemma_open_segment(dot);
}

/// A path lies under a root exactly where its components start with those of the root, and what
/// is left of it are the others, with a slash between them. So a name that merely starts like
/// the root's does not lie under it.
pub proof fn law_only_whole_components_lie_under(x: Seq<char>, y: Seq<char>)
    requires
        one_segment(x),
        one_segment(y),
    ensures
        under(seq!['/'] + x + seq!['/'] + y, seq!['/'] + x) == Some(y),
        x != y ==> under(seq!['/'] + y, seq!['/'] + x) is None,
        under(seq!['/'] + x, seq!['/'] + x) == Some(Seq::<char>::empty()),
        under(seq!['/'] + x, seq!['/']) == Some(x),
        under(seq!['/'], seq!['/'] + x) is None,
{
    reveal_strlit("/");
    assert("/"@ =~= seq!['/']);
    let slash = seq!['/'];
    let nothing = Seq::<char>::empty();
    law_a_path_is_its_segments(x, y);
    law_a_path_is_its_segments(y, x);
    law_a_path_is_its_segments(nothing, x);
    law_a_path_is_its_segments(nothing, y);
    law_a_path_is_its_segments(nothing, nothing);
    assert(nothing + slash + x =~= slash + x);
    assert(nothing + slash + y =~= slash + y);
    assert(nothing + slash + nothing =~= slash);
    law_a_path_is_its_segments(slash + x, y);
    let cx = components(slash + x);
    let cy = components(slash + y);
    let cr = components(slash);
    let cxy = components(slash + x + slash + y);
    assert(segments(nothing) + seq![x] =~= seq![x]);
    assert(segments(nothing) + seq![y] =~= seq![y]);
    assert(segments(nothing) + segments(nothing) =~= Seq::empty());
    assert(cx =~= seq!["/"@, x]);
    assert(cy =~= seq!["/"@, y]);
    assert(cr =~= seq!["/"@]);
    assert((slash + x + slash + y)[0] == '/');
    assert(cxy =~= seq!["/"@, x, y]);
    assert(cxy.take(2) =~= cx);
    assert(cxy.skip(2) =~= seq![y]);
    assert(cx.take(2) =~= cx);
    assert(cx.skip(2) =~= Seq::empty());
    assert(cx.take(1) =~= cr);
    assert(cx.skip(1) =~= seq![x]);
    if x != y {
        assert(cy.take(2) =~= cy);
        assert(cy[1] == y && cx[1] == x);
    }
}

} // verus!
