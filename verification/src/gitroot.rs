//! What git says about a worktree.

use vstd::prelude::*;

use crate::paths::is_absolute;
use crate::text::{concat2, concat3, is_blank, same, trim};

verus! {

/// How a worktree relates to its repository.
#[derive(Debug, Clone, Copy, PartialEq, Eq, Structural)]
pub enum WorktreeKind {
    Main,
    Linked,
    NonGit,
}

/// The end of a line that was closed by a line feed: a carriage return before it belongs to
/// the line ending.
pub open spec fn closed_line(line: Seq<char>) -> Seq<char> {
    if line.len() > 0 && line.last() == '\r' {
        line.drop_last()
    } else {
        line
    }
}

/// The lines closed so far, and the text since.
pub open spec fn line_scan(s: Seq<char>) -> (Seq<Seq<char>>, Seq<char>)
    decreases s.len(),
{
    if s.len() == 0 {
        (Seq::empty(), Seq::empty())
    } else {
        let (done, open) = line_scan(s.drop_last());
        if s.last() == '\n' {
            (done.push(closed_line(open)), Seq::empty())
        } else {
            (done, open.push(s.last()))
        }
    }
}

/// The lines of a text. The last one needs no line feed.
pub open spec fn lines(s: Seq<char>) -> Seq<Seq<char>> {
    let (done, open) = line_scan(s);
    if open.len() > 0 {
        done.push(open)
    } else {
        done
    }
}

/// The three lines of a text that has exactly three, none of them empty.
pub open spec fn three(s: Seq<char>) -> Option<(Seq<char>, Seq<char>, Seq<char>)> {
    let all = lines(s);
    if all.len() == 3 && all[0].len() > 0 && all[1].len() > 0 && all[2].len() > 0 {
        Some((all[0], all[1], all[2]))
    } else {
        None
    }
}

fn close_line(open: String) -> (r: String)
    ensures
        r@ == closed_line(open@),
{
    let n: usize = open.as_str().unicode_len();
    if n > 0 && open.as_str().get_char(n - 1) == '\r' {
        let r = open.as_str().substring_char(0, n - 1).to_owned();
        proof {
            assert(r@ =~= open@.drop_last());
        }
        r
    } else {
        open
    }
}

fn split_lines(s: &str) -> (r: Vec<String>)
    ensures
        crate::paths::chars(r@) == lines(s@),
{
    let n: usize = s.unicode_len();
    let mut done: Vec<String> = Vec::new();
    let mut open = String::new();
    let mut i: usize = 0;
    proof {
        assert(crate::paths::chars(done@) =~= Seq::empty());
        assert(s@.take(0) =~= Seq::empty());
    }
    while i < n
        invariant
            i <= n,
            n == s@.len(),
            crate::paths::chars(done@) == line_scan(s@.take(i as int)).0,
            open@ == line_scan(s@.take(i as int)).1,
        decreases n - i,
    {
        proof {
            assert(s@.take(i + 1).drop_last() =~= s@.take(i as int));
            assert(s@.take(i + 1).last() == s@[i as int]);
        }
        let c = s.get_char(i);
        if c == '\n' {
            let ghost before = crate::paths::chars(done@);
            let line = close_line(open);
            let ghost closed = line@;
            done.push(line);
            open = String::new();
            proof {
                assert(crate::paths::chars(done@) =~= before.push(closed));
            }
        } else {
            open.push(c);
        }
        i = i + 1;
    }
    proof {
        assert(s@.take(i as int) =~= s@);
    }
    if open.as_str().unicode_len() > 0 {
        let ghost before = crate::paths::chars(done@);
        let ghost last = open@;
        done.push(open);
        proof {
            assert(crate::paths::chars(done@) =~= before.push(last));
        }
    }
    done
}

/// Splits the output of `git rev-parse` into its three fields, where it has exactly three
/// lines and none of them is empty.
pub fn three_lines(stdout: &str) -> (r: Option<(String, String, String)>)
    ensures
        three(stdout@) == (match r {
            Some((a, b, c)) => Some((a@, b@, c@)),
            None => None,
        }),
{
    let all = split_lines(stdout);
    if all.len() != 3 {
        return None;
    }
    proof {
        assert(crate::paths::chars(all@)[0] == all@[0]@);
        assert(crate::paths::chars(all@)[1] == all@[1]@);
        assert(crate::paths::chars(all@)[2] == all@[2]@);
    }
    if all[0].as_str().unicode_len() == 0 || all[1].as_str().unicode_len() == 0
        || all[2].as_str().unicode_len() == 0 {
        return None;
    }
    Some((all[0].clone(), all[1].clone(), all[2].clone()))
}

/// A path as git reported it, against `base` where it is relative.
pub open spec fn against(base: Seq<char>, path: Seq<char>) -> Seq<char> {
    if crate::paths::absolute(path) || base.len() == 0 {
        path
    } else if base.last() == '/' {
        base + path
    } else {
        base + "/"@ + path
    }
}

/// A path as git reported it, against `base` where it is relative.
pub fn resolve_against(base: &str, maybe_relative: &str) -> (r: String)
    ensures
        r@ == against(base@, maybe_relative@),
{
    let n: usize = base.unicode_len();
    if is_absolute(maybe_relative) || n == 0 {
        return maybe_relative.to_owned();
    }
    if base.get_char(n - 1) == '/' {
        concat2(base, maybe_relative)
    } else {
        concat3(base, "/", maybe_relative)
    }
}

/// A worktree is the main one exactly when its own directory is the common one.
pub open spec fn kind_by(git_dir: Seq<char>, common_dir: Seq<char>) -> WorktreeKind {
    if git_dir == common_dir {
        WorktreeKind::Main
    } else {
        WorktreeKind::Linked
    }
}

/// A worktree is the main one exactly when its own directory is the common one.
pub fn classify(git_dir: &str, common_dir: &str) -> (r: WorktreeKind)
    ensures
        r == kind_by(git_dir@, common_dir@),
{
    if same(git_dir, common_dir) {
        WorktreeKind::Main
    } else {
        WorktreeKind::Linked
    }
}

/// What git says about a path.
#[derive(Debug, PartialEq, Eq)]
pub struct GitFacts<S = String> {
    pub toplevel: S,
    pub kind: WorktreeKind,
    pub common_dir: Option<S>,
}

impl View for GitFacts<String> {
    type V = GitFacts<Seq<char>>;

    open spec fn view(&self) -> GitFacts<Seq<char>> {
        GitFacts {
            toplevel: self.toplevel@,
            kind: self.kind,
            common_dir: self.common_dir.deep_view(),
        }
    }
}

/// The fields of a git output, where it has them.
pub open spec fn fields(stdout: Option<Seq<char>>) -> Option<(Seq<char>, Seq<char>, Seq<char>)> {
    match stdout {
        Some(text) => three(text),
        None => None,
    }
}

/// What git says about `path`, given the output of a current git and, where that has no
/// three fields, the output of the call that an older git understands. Outside of a
/// repository it is the path itself.
pub open spec fn facts_of(
    path: Seq<char>,
    current: Option<Seq<char>>,
    older: Option<Seq<char>>,
) -> GitFacts<Seq<char>> {
    let found = match fields(current) {
        Some(f) => Some(f),
        None => fields(older),
    };
    match found {
        Some((toplevel, git_dir, common_dir)) => GitFacts {
            toplevel,
            kind: kind_by(against(path, git_dir), against(path, common_dir)),
            common_dir: Some(against(path, common_dir)),
        },
        None => GitFacts { toplevel: path, kind: WorktreeKind::NonGit, common_dir: None },
    }
}

fn output_fields(stdout: &Option<String>) -> (r: Option<(String, String, String)>)
    ensures
        fields(stdout.deep_view()) == (match r {
            Some((a, b, c)) => Some((a@, b@, c@)),
            None => None,
        }),
{
    match stdout {
        Some(text) => three_lines(text.as_str()),
        None => None,
    }
}

/// Whether the call that an older git understands has to be made.
pub fn needs_older_call(current: &Option<String>) -> (r: bool)
    ensures
        r <==> fields(current.deep_view()) is None,
{
    output_fields(current).is_none()
}

/// What git says about `path`.
pub fn git_facts(path: &str, current: &Option<String>, older: &Option<String>) -> (r: GitFacts)
    ensures
        r@ == facts_of(path@, current.deep_view(), older.deep_view()),
{
    let found = match output_fields(current) {
        Some(f) => Some(f),
        None => output_fields(older),
    };
    match found {
        Some((toplevel, git_dir, common_dir)) => {
            let git_dir = resolve_against(path, git_dir.as_str());
            let common_dir = resolve_against(path, common_dir.as_str());
            let kind = classify(git_dir.as_str(), common_dir.as_str());
            GitFacts { toplevel, kind, common_dir: Some(common_dir) }
        },
        None => GitFacts {
            toplevel: path.to_owned(),
            kind: WorktreeKind::NonGit,
            common_dir: None,
        },
    }
}

/// Whether a worktree of this kind may have a remote.
pub open spec fn may_have_remote(kind: WorktreeKind) -> bool {
    kind != WorktreeKind::NonGit
}

/// Whether a worktree of this kind may have a remote.
pub fn has_remote(kind: WorktreeKind) -> (r: bool)
    ensures
        r <==> may_have_remote(kind),
{
    kind != WorktreeKind::NonGit
}

/// Whether `url` is the url that git reported, without the white space around it, where there is
/// one.
pub open spec fn reports_url(stdout: Option<Seq<char>>, url: Option<Seq<char>>) -> bool {
    match stdout {
        Some(text) => (url is None <==> crate::text::blank(text)) && (url matches Some(u)
            ==> crate::text::is_trimmed(text, u)),
        None => url is None,
    }
}

/// The url that git reported.
pub fn remote_origin_url(stdout: &Option<String>) -> (r: Option<String>)
    ensures
        reports_url(stdout.deep_view(), r.deep_view()),
{
    match stdout {
        Some(text) => {
            if is_blank(text.as_str()) {
                return None;
            }
            Some(trim(text.as_str()).to_owned())
        },
        None => None,
    }
}

/// A path in the form in which it is compared, the form in which it is shown, and its
/// fingerprint.
#[derive(Debug, PartialEq, Eq)]
pub struct CanonicalPath {
    pub canonical: String,
    pub display: String,
    pub fingerprint: String,
}

/// What a request's root is resolved by.
#[derive(Debug, PartialEq, Eq)]
pub struct WorktreeRootFacts {
    pub observed_canonical_path: String,
    pub display_path: String,
    pub path_fingerprint: String,
    pub kind: WorktreeKind,
    pub common_dir_fingerprint: Option<String>,
    pub remote_fingerprint: Option<String>,
}

/// The facts about a root, put together. A root that cannot be found has none, and a root
/// outside of git has no remote.
pub open spec fn root_facts(
    kind: WorktreeKind,
    toplevel: Option<CanonicalPath>,
    common_dir_fingerprint: Option<String>,
    remote_fingerprint: Option<String>,
) -> Option<WorktreeRootFacts> {
    match toplevel {
        None => None,
        Some(path) => Some(
            WorktreeRootFacts {
                observed_canonical_path: path.canonical,
                display_path: path.display,
                path_fingerprint: path.fingerprint,
                kind,
                common_dir_fingerprint,
                remote_fingerprint: if may_have_remote(kind) {
                    remote_fingerprint
                } else {
                    None
                },
            },
        ),
    }
}

/// Puts the facts about a root together.
pub fn probe(
    kind: WorktreeKind,
    toplevel: Option<CanonicalPath>,
    common_dir_fingerprint: Option<String>,
    remote_fingerprint: Option<String>,
) -> (r: Option<WorktreeRootFacts>)
    ensures
        r == root_facts(kind, toplevel, common_dir_fingerprint, remote_fingerprint),
{
    match toplevel {
        None => None,
        Some(path) => Some(
            WorktreeRootFacts {
                observed_canonical_path: path.canonical,
                display_path: path.display,
                path_fingerprint: path.fingerprint,
                kind,
                common_dir_fingerprint,
                remote_fingerprint: if has_remote(kind) {
                    remote_fingerprint
                } else {
                    None
                },
            },
        ),
    }
}

/// The root of a request: what was found of it, and the hint as it came. A root that was
/// not given, or not found, is no failure.
#[derive(Debug, PartialEq, Eq)]
pub struct RequestRoot {
    pub worktree_root: Option<WorktreeRootFacts>,
    pub repo_hint: Option<String>,
}

/// The root of a request. `found` is what probing the given root came to.
pub open spec fn root_of(
    given: bool,
    found: Option<WorktreeRootFacts>,
    repo_hint: Option<String>,
) -> RequestRoot {
    RequestRoot {
        worktree_root: if given {
            found
        } else {
            None
        },
        repo_hint,
    }
}

/// The root of a request. `found` is what probing the given root came to.
pub fn request_root(
    given: bool,
    found: Option<WorktreeRootFacts>,
    repo_hint: Option<String>,
) -> (r: RequestRoot)
    ensures
        r == root_of(given, found, repo_hint),
{
    RequestRoot {
        worktree_root: if given {
            found
        } else {
            None
        },
        repo_hint,
    }
}

/// Text without a line feed belongs to the line that is open.
proof fn lemma_open_line(s: Seq<char>, a: Seq<char>)
    requires
        !a.contains('\n'),
    ensures
        line_scan(s + a) == (line_scan(s).0, line_scan(s).1 + a),
    decreases a.len(),
{
    if a.len() == 0 {
        assert(s + a =~= s);
        assert(line_scan(s).1 + a =~= line_scan(s).1);
    } else {
        let less = a.drop_last();
        assert forall|i: int| 0 <= i < less.len() implies less[i] != '\n' by {
            assert(a[i] == less[i]);
            assert(a.contains(a[i]));
        }
        assert(a.contains(a[a.len() - 1]));
        lemma_open_line(s, less);
        assert((s + a).drop_last() =~= s + less);
        assert((line_scan(s).1 + less).push(a.last()) =~= line_scan(s).1 + a);
    }
}

/// A line feed closes the line that is open.
proof fn lemma_line_closed(s: Seq<char>)
    ensures
        line_scan(s.push('\n')) == (
            line_scan(s).0.push(closed_line(line_scan(s).1)),
            Seq::<char>::empty(),
        ),
{
    assert(s.push('\n').drop_last() =~= s);
}

/// One line after others that are closed.
proof fn lemma_one_more_line(s: Seq<char>, a: Seq<char>)
    requires
        !a.contains('\n'),
        line_scan(s).1.len() == 0,
    ensures
        line_scan(s + a) == (line_scan(s).0, a),
        line_scan(s + a.push('\n')) == (
            line_scan(s).0.push(closed_line(a)),
            Seq::<char>::empty(),
        ),
{
    lemma_open_line(s, a);
    assert(line_scan(s).1 + a =~= a);
    lemma_line_closed(s + a);
    assert(s + a.push('\n') =~= (s + a).push('\n'));
}

/// Whether a text is one line that is not empty, as git writes one.
pub open spec fn one_line(a: Seq<char>) -> bool {
    a.len() > 0 && !a.contains('\n') && a.last() != '\r'
}

/// Output of three lines, none of them empty, is read as these three, in their order, with or
/// without a line feed behind the last, and whether or not carriage returns stand before the
/// line feeds. Output of fewer lines or of more is not read at all.
pub proof fn law_three_lines_are_read(a: Seq<char>, b: Seq<char>, c: Seq<char>, d: Seq<char>)
    requires
        one_line(a),
        one_line(b),
        one_line(c),
        one_line(d),
    ensures
        three(a.push('\n') + b.push('\n') + c.push('\n')) == Some((a, b, c)),
        three(a.push('\n') + b.push('\n') + c) == Some((a, b, c)),
        three(
            a.push('\r').push('\n') + b.push('\r').push('\n') + c.push('\r').push('\n'),
        ) == Some((a, b, c)),
        three(Seq::<char>::empty()) is None,
        three(a.push('\n')) is None,
        three(a.push('\n') + b.push('\n')) is None,
        three(a.push('\n') + b.push('\n') + seq!['\n']) is None,
        three(a.push('\n') + seq!['\n'] + c.push('\n')) is None,
        three(seq!['\n'] + b.push('\n') + c.push('\n')) is None,
        three(a.push('\n') + b.push('\n') + c.push('\n') + d.push('\n')) is None,
{
    let zero = Seq::<char>::empty();
    let gap = seq!['\n'];
    assert(gap =~= zero.push('\n'));
    assert(!zero.contains('\n'));
    assert(zero + a.push('\n') =~= a.push('\n'));
    assert(zero + gap =~= gap);
    assert(closed_line(zero) =~= zero);
    lemma_one_more_line(zero, a);
    lemma_one_more_line(zero, zero);
    let one = a.push('\n');
    lemma_one_more_line(one, b);
    lemma_one_more_line(one, zero);
    lemma_one_more_line(gap, b);
    let two = one + b.push('\n');
    lemma_one_more_line(two, c);
    lemma_one_more_line(two, zero);
    lemma_one_more_line(one + gap, c);
    lemma_one_more_line(gap + b.push('\n'), c);
    lemma_one_more_line(two + c.push('\n'), d);
    let x = a.push('\r');
    let y = b.push('\r');
    let z = c.push('\r');
    assert(x.drop_last() =~= a && y.drop_last() =~= b && z.drop_last() =~= c);
    lemma_no_feed(a);
    lemma_no_feed(b);
    lemma_no_feed(c);
    assert(zero + x.push('\n') =~= x.push('\n'));
    lemma_one_more_line(zero, x);
    lemma_one_more_line(x.push('\n'), y);
    lemma_one_more_line(x.push('\n') + y.push('\n'), z);
}

proof fn lemma_no_feed(a: Seq<char>)
    requires
        !a.contains('\n'),
    ensures
        !a.push('\r').contains('\n'),
{
    assert forall|i: int| 0 <= i < a.push('\r').len() implies a.push('\r')[i] != '\n' by {
        if i < a.len() {
            assert(a.push('\r')[i] == a[i]);
            assert(a.contains(a[i]));
        }
    }
}

/// Inside a repository the root is what git gave as the first field, whatever path was asked
/// about and whatever an older git would say. The common directory is the third field, taken
/// from the path where it is relative, and the worktree is the main one exactly where the second
/// field is the same directory.
pub proof fn law_git_names_the_root(
    path: Seq<char>,
    top: Seq<char>,
    own: Seq<char>,
    common: Seq<char>,
    older: Option<Seq<char>>,
)
    requires
        one_line(top),
        one_line(own),
        one_line(common),
    ensures
        ({
            let text = top.push('\n') + own.push('\n') + common.push('\n');
            let facts = facts_of(path, Some(text), older);
            &&& facts.toplevel == top
            &&& facts.common_dir == Some(against(path, common))
            &&& facts.kind is Main <==> against(path, own) == against(path, common)
            &&& facts.kind is Linked <==> against(path, own) != against(path, common)
        }),
{
    law_three_lines_are_read(top, own, common, top);
}

/// What an older git says counts exactly where a current one has no three fields. Where neither
/// has them, the path itself is the root, outside of any repository.
pub proof fn law_an_older_git_is_asked_second(
    path: Seq<char>,
    current: Option<Seq<char>>,
    top: Seq<char>,
    own: Seq<char>,
    common: Seq<char>,
    other: Option<Seq<char>>,
)
    requires
        one_line(top),
        one_line(own),
        one_line(common),
        current matches Some(text) ==> three(text) is None,
        other matches Some(text) ==> three(text) is None,
    ensures
        ({
            let text = top.push('\n') + own.push('\n') + common.push('\n');
            let facts = facts_of(path, current, Some(text));
            &&& facts.toplevel == top
            &&& facts == facts_of(path, Some(text), None)
        }),
        ({
            let facts = facts_of(path, current, other);
            &&& facts.toplevel == path
            &&& facts.kind is NonGit
            &&& facts.common_dir is None
        }),
{
    law_three_lines_are_read(top, own, common, top);
}

/// An absolute path stands for itself. A relative one is taken from the base: it starts with the
/// base, ends with the path, and has one slash more only where the base does not end with one.
pub proof fn law_a_relative_path_is_taken_from_the_base(base: Seq<char>, path: Seq<char>)
    requires
        base.len() > 0,
    ensures
        path.len() > 0 && path[0] == '/' ==> against(base, path) == path,
        !(path.len() > 0 && path[0] == '/') ==> {
            let whole = against(base, path);
            &&& whole.take(base.len() as int) == base
            &&& whole.skip(whole.len() - path.len()) == path
            &&& base.last() == '/' ==> whole.len() == base.len() + path.len()
            &&& base.last() != '/' ==> whole.len() == base.len() + 1 + path.len()
                && whole[base.len() as int] == '/'
        },
{
    reveal_strlit("/");
    assert("/"@.len() == 1 && "/"@[0] == '/');
    let whole = against(base, path);
    if !(path.len() > 0 && path[0] == '/') {
        assert(whole.take(base.len() as int) =~= base);
        assert(whole.skip(whole.len() - path.len()) =~= path);
    }
}

/// A worktree has a remote only inside a repository, and everything else about its root is kept
/// as it was found. A root that was not found has no facts.
pub proof fn law_a_root_keeps_what_was_found(
    kind: WorktreeKind,
    toplevel: CanonicalPath,
    common_dir_fingerprint: Option<String>,
    remote_fingerprint: Option<String>,
)
    ensures
        root_facts(kind, None, common_dir_fingerprint, remote_fingerprint) is None,
        root_facts(
            kind,
            Some(toplevel),
            common_dir_fingerprint,
            remote_fingerprint,
        ) matches Some(facts) && {
            &&& facts.observed_canonical_path == toplevel.canonical
            &&& facts.display_path == toplevel.display
            &&& facts.path_fingerprint == toplevel.fingerprint
            &&& facts.kind == kind
            &&& facts.common_dir_fingerprint == common_dir_fingerprint
            &&& kind is NonGit ==> facts.remote_fingerprint is None
            &&& kind is Main || kind is Linked ==> facts.remote_fingerprint == remote_fingerprint
        },
{
}

/// A root that was not given is not made up, and one that was given is what was found of it. The
/// hint comes through either way.
pub proof fn law_a_root_is_never_made_up(
    found: Option<WorktreeRootFacts>,
    repo_hint: Option<String>,
)
    ensures
        root_of(false, found, repo_hint).worktree_root is None,
        root_of(true, found, repo_hint).worktree_root == found,
        root_of(true, found, repo_hint).repo_hint == repo_hint,
        root_of(false, found, repo_hint).repo_hint == repo_hint,
{
}

/// A worktree is the main one exactly where its own directory is the common one, and a linked one
/// everywhere else. Only git has remotes.
pub proof fn law_a_worktree_is_main_by_its_directory(git_dir: Seq<char>, common_dir: Seq<char>)
    ensures
        kind_by(git_dir, common_dir) is Main <==> git_dir == common_dir,
        kind_by(git_dir, common_dir) is Linked <==> git_dir != common_dir,
        may_have_remote(kind_by(git_dir, common_dir)),
        !may_have_remote(WorktreeKind::NonGit),
{
}

/// A url stands in what git said between white space only, and there is none where git said
/// nothing else.
pub proof fn law_a_url_is_what_git_said(text: Seq<char>, url: Option<Seq<char>>)
    requires
        reports_url(Some(text), url),
    ensures
        url is None <==> crate::text::blank(text),
        url matches Some(u) ==> u.len() > 0 && exists|before: Seq<char>, after: Seq<char>| #[trigger]
            (before + u + after) == text && crate::text::blank(before) && crate::text::blank(after),
        reports_url(None, url) ==> url is None,
{
    if let Some(u) = url {
        let (i, j) = choose|i: int, j: int|
            0 <= i <= j <= text.len() && u == text.subrange(i, j) && crate::text::blank(
                text.take(i),
            ) && crate::text::blank(text.skip(j));
        assert(text.take(i) + u + text.skip(j) =~= text);
        if u.len() == 0 {
            assert(text =~= text.take(i) + text.skip(j));
        }
    }
}

} // verus!
