//! The three tools that read the code index: what they are asked, and where a path leads.

use vstd::prelude::*;

use crate::failure::Failure;
use crate::json::{JsonMap, JsonView};
use crate::mcp::arguments::{optional_enum, optional_limit, optional_string};
use crate::mcp::tools::{
    reject_unknown_keys, require_string, DEFAULT_SEARCH_LIMIT, MAX_SEARCH_LIMIT,
};
use crate::paths::{is_absolute, strip_root};
use crate::text::concat3;
use crate::vocabulary::SearchMode;

verus! {

/// A code search.
#[derive(Debug, PartialEq, Eq)]
pub struct SearchCode<S = String> {
    pub query: S,
    pub mode: SearchMode,
    pub limit: usize,
    pub name_pattern: Option<S>,
}

impl View for SearchCode<String> {
    type V = SearchCode<Seq<char>>;

    open spec fn view(&self) -> SearchCode<Seq<char>> {
        SearchCode {
            query: self.query@,
            mode: self.mode,
            limit: self.limit,
            name_pattern: self.name_pattern.deep_view(),
        }
    }
}

/// The search that arguments ask for, or what is wrong with them.
pub open spec fn search_code_in(args: Seq<(Seq<char>, JsonView)>) -> Result<
    SearchCode<Seq<char>>,
    Seq<char>,
> {
    let known = ["query", "mode", "limit", "name_pattern"]@;
    match crate::mcp::tools::first_unknown(args, known) {
        Some(key) => Err("unknown argument: "@ + key),
        None => match crate::mcp::tools::required_string(args, "query"@) {
            Err(message) => Err(message),
            Ok(query) => match crate::mcp::arguments::optional_name::<SearchMode>(
                args,
                "mode"@,
                "hybrid/lexical/code/semantic"@,
            ) {
                Err(message) => Err(message),
                Ok(mode) => match crate::mcp::arguments::limit_in(
                    args,
                    DEFAULT_SEARCH_LIMIT,
                    MAX_SEARCH_LIMIT,
                ) {
                    Err(message) => Err(message),
                    Ok(limit) => match crate::mcp::arguments::optional_text(
                        args,
                        "name_pattern"@,
                    ) {
                        Err(message) => Err(message),
                        Ok(name_pattern) => Ok(
                            SearchCode {
                                query,
                                mode: match mode {
                                    Some(m) => m,
                                    None => SearchMode::Hybrid,
                                },
                                limit: limit as usize,
                                name_pattern,
                            },
                        ),
                    },
                },
            },
        },
    }
}

/// Reads the arguments of `search_code`.
pub fn parse_search_code(args: &JsonMap) -> (r: Result<SearchCode, String>)
    ensures
        match r {
            Ok(search) => search_code_in(args@) == Ok::<SearchCode<Seq<char>>, Seq<char>>(search@),
            Err(message) => search_code_in(args@) == Err::<SearchCode<Seq<char>>, Seq<char>>(
                message@,
            ),
        },
{
    reject_unknown_keys(args, &["query", "mode", "limit", "name_pattern"])?;
    let query = require_string(args, "query")?;
    let mode = optional_enum::<SearchMode>(args, "mode", "hybrid/lexical/code/semantic")?;
    let limit: i64 = optional_limit(args, DEFAULT_SEARCH_LIMIT, MAX_SEARCH_LIMIT)?;
    let name_pattern = optional_string(args, "name_pattern")?;
    let mode = match mode {
        Some(m) => m,
        None => SearchMode::Hybrid,
    };
    Ok(SearchCode { query, mode, limit: limit as usize, name_pattern })
}

/// The path that the arguments of `get_file_context` name, or what is wrong with them.
pub open spec fn file_context_in(args: Seq<(Seq<char>, JsonView)>) -> Result<
    Seq<char>,
    Seq<char>,
> {
    let known = ["path"]@;
    match crate::mcp::tools::first_unknown(args, known) {
        Some(key) => Err("unknown argument: "@ + key),
        None => crate::mcp::tools::required_string(args, "path"@),
    }
}

/// Reads the arguments of `get_file_context`.
pub fn parse_get_file_context(args: &JsonMap) -> (r: Result<String, String>)
    ensures
        match r {
            Ok(path) => file_context_in(args@) == Ok::<Seq<char>, Seq<char>>(path@),
            Err(message) => file_context_in(args@) == Err::<Seq<char>, Seq<char>>(message@),
        },
{
    reject_unknown_keys(args, &["path"])?;
    require_string(args, "path")
}

/// What is wrong with the arguments of a tool that takes none.
pub open spec fn any_argument(args: Seq<(Seq<char>, JsonView)>) -> Option<Seq<char>> {
    if args.len() == 0 {
        None
    } else {
        Some("unknown argument: "@ + args[0].0)
    }
}

/// Reads the arguments of a tool that takes none.
pub fn parse_no_arguments(args: &JsonMap) -> (r: Result<(), String>)
    ensures
        match r {
            Ok(_) => any_argument(args@) is None,
            Err(message) => any_argument(args@) == Some(message@),
        },
{
    let none: [&str; 0] = [];
    reject_unknown_keys(args, &none)
}

/// Where a path of a caller leads, as far as its text tells.
#[derive(Debug, PartialEq, Eq)]
pub enum PathPlan<S = String> {
    /// A relative path is normalized as it stands.
    Relative,
    /// An absolute path is resolved, and then looked for under the worktree's root.
    Resolve { root: S },
    /// The path leads nowhere.
    Refused(Failure<S>),
}

impl View for PathPlan<String> {
    type V = PathPlan<Seq<char>>;

    open spec fn view(&self) -> PathPlan<Seq<char>> {
        match *self {
            PathPlan::Relative => PathPlan::Relative,
            PathPlan::Resolve { root } => PathPlan::Resolve { root: root@ },
            PathPlan::Refused(failure) => PathPlan::Refused(failure@),
        }
    }
}

/// Where `raw` leads for a request whose worktree has the root `root`. An absolute path
/// that cannot be placed is answered like a file that is not indexed.
pub open spec fn path_plan(raw: Seq<char>, root: Option<Seq<char>>) -> PathPlan<Seq<char>> {
    if !crate::paths::absolute(raw) {
        PathPlan::Relative
    } else {
        match root {
            Some(r) => PathPlan::Resolve { root: r },
            None => PathPlan::Refused(
                Failure::PathNotIndexed {
                    path: raw,
                    reason: "no worktree context for this request"@,
                },
            ),
        }
    }
}

/// Where `raw` leads for a request whose worktree has the root `root`.
pub fn plan_path(raw: &str, root: &Option<String>) -> (r: PathPlan)
    ensures
        r@ == path_plan(raw@, root.deep_view()),
{
    if !is_absolute(raw) {
        return PathPlan::Relative;
    }
    match root {
        Some(r) => PathPlan::Resolve { root: r.clone() },
        None => PathPlan::Refused(
            Failure::PathNotIndexed {
                path: raw.to_owned(),
                reason: "no worktree context for this request".to_owned(),
            },
        ),
    }
}

/// An absolute path after its directory was resolved: the resolved directory and the file
/// name, or the path's own text where either is missing. The file itself need not exist.
pub open spec fn resolved_input(
    directory: Option<Seq<char>>,
    file_name: Option<Seq<char>>,
    as_written: Seq<char>,
) -> Seq<char> {
    match (directory, file_name) {
        (Some(d), Some(f)) => d + "/"@ + f,
        _ => as_written,
    }
}

/// An absolute path after its directory was resolved.
pub fn normalize_absolute_input(
    directory: &Option<String>,
    file_name: &Option<String>,
    as_written: &str,
) -> (r: String)
    ensures
        r@ == resolved_input(directory.deep_view(), file_name.deep_view(), as_written@),
{
    match (directory, file_name) {
        (Some(d), Some(f)) => concat3(d.as_str(), "/", f.as_str()),
        _ => as_written.to_owned(),
    }
}

/// The part of a resolved path under the worktree's root, or the failure that answers a
/// path outside of it.
pub open spec fn relative_part(raw: Seq<char>, resolved: Seq<char>, root: Seq<char>) -> Result<
    Seq<char>,
    Failure<Seq<char>>,
> {
    match crate::paths::under(resolved, root) {
        Some(relative) => Ok(relative),
        None => Err(
            Failure::PathNotIndexed {
                path: raw,
                reason: "path is outside the request's worktree root"@,
            },
        ),
    }
}

/// The part of a resolved path under the worktree's root.
pub fn normalized_relative_path(raw: &str, resolved: &str, root: &str) -> (r: Result<
    String,
    Failure,
>)
    ensures
        match r {
            Ok(relative) => relative_part(raw@, resolved@, root@) == Ok::<
                Seq<char>,
                Failure<Seq<char>>,
            >(relative@),
            Err(failure) => relative_part(raw@, resolved@, root@) == Err::<
                Seq<char>,
                Failure<Seq<char>>,
            >(failure@),
        },
{
    match strip_root(resolved, root) {
        Some(relative) => Ok(relative),
        None => Err(
            Failure::PathNotIndexed {
                path: raw.to_owned(),
                reason: "path is outside the request's worktree root".to_owned(),
            },
        ),
    }
}

/// A code search asks for what its arguments say: the query and the pattern as they stand, the
/// mode by its name, and the limit. Left out, the mode is hybrid, the limit ten and the pattern
/// none. No argument is taken that is not one of these.
pub proof fn law_a_search_is_what_its_arguments_say(
    args: Seq<(Seq<char>, JsonView)>,
    search: SearchCode<Seq<char>>,
)
    requires
        search_code_in(args) == Ok::<SearchCode<Seq<char>>, Seq<char>>(search),
    ensures
        crate::json::lookup(args, "query"@) == Some(JsonView::Str(search.query)),
        search.query.len() > 0,
        crate::json::lookup(args, "mode"@) is None ==> search.mode is Hybrid,
        crate::json::lookup(args, "mode"@) matches Some(v) ==> v == JsonView::Str(
            search.mode.name(),
        ),
        crate::json::lookup(args, "limit"@) is None ==> search.limit == 10,
        crate::json::lookup(args, "limit"@) matches Some(v) ==> v == JsonView::integer(
            search.limit as int,
        ),
        1 <= search.limit <= 50,
        crate::json::lookup(args, "name_pattern"@) is None ==> search.name_pattern is None,
        crate::json::lookup(args, "name_pattern"@) matches Some(v) ==> (
        search.name_pattern matches Some(p) && v == JsonView::Str(p)),
        forall|i: int|
            0 <= i < args.len() ==> ((#[trigger] args[i]).0 == "query"@ || args[i].0 == "mode"@
                || args[i].0 == "limit"@ || args[i].0 == "name_pattern"@),
{
    let known = ["query", "mode", "limit", "name_pattern"]@;
    crate::mcp::tools::law_no_unknown_argument(args, known);
    assert forall|i: int| 0 <= i < args.len() implies ((#[trigger] args[i]).0 == "query"@
        || args[i].0 == "mode"@ || args[i].0 == "limit"@ || args[i].0 == "name_pattern"@) by {
        assert(crate::mcp::tools::is_known(known, args[i].0));
    }
    if let Some(JsonView::Str(s)) = crate::json::lookup(args, "mode"@) {
        crate::vocabulary::law_search_mode_names(search.mode, s);
    }
}

/// A search whose arguments are in order is not refused: a query that is not empty, and each of
/// the others left out or as it may be.
pub proof fn law_a_good_search_is_granted(args: Seq<(Seq<char>, JsonView)>, query: Seq<char>)
    requires
        forall|i: int|
            0 <= i < args.len() ==> ((#[trigger] args[i]).0 == "query"@ || args[i].0 == "mode"@
                || args[i].0 == "limit"@ || args[i].0 == "name_pattern"@),
        crate::json::lookup(args, "query"@) == Some(JsonView::Str(query)),
        query.len() > 0,
        crate::json::lookup(args, "mode"@) matches Some(v) ==> (v matches JsonView::Str(s)
            && <SearchMode as crate::vocabulary::Named>::named(s) is Some),
        crate::json::lookup(args, "limit"@) matches Some(v) ==> (v matches JsonView::Num(
            crate::json::NumberView::Int(i),
        ) && 1 <= i <= 50),
        crate::json::lookup(args, "name_pattern"@) matches Some(v) ==> v is Str,
    ensures
        search_code_in(args) is Ok,
{
    let known = ["query", "mode", "limit", "name_pattern"]@;
    crate::mcp::tools::law_no_unknown_argument(args, known);
    assert forall|i: int| 0 <= i < args.len() implies crate::mcp::tools::is_known(
        known,
        (#[trigger] args[i]).0,
    ) by {
        assert(known[0]@ == "query"@ && known[1]@ == "mode"@ && known[2]@ == "limit"@ && known[3]@
            == "name_pattern"@);
    }
}

/// A file's context is asked for by its path, as it stands and not empty, and by nothing else.
/// A tool that takes no arguments takes none.
pub proof fn law_a_file_is_asked_for_by_its_path(
    args: Seq<(Seq<char>, JsonView)>,
    path: Seq<char>,
)
    ensures
        file_context_in(args) == Ok::<Seq<char>, Seq<char>>(path) ==> crate::json::lookup(
            args,
            "path"@,
        ) == Some(JsonView::Str(path)) && path.len() > 0,
        args == seq![("path"@, JsonView::Str(path))] && path.len() > 0 ==> file_context_in(args)
            == Ok::<Seq<char>, Seq<char>>(path),
        any_argument(args) is None <==> args.len() == 0,
{
    if args == seq![("path"@, JsonView::Str(path))] {
        let known = ["path"]@;
        assert(known[0]@ == "path"@);
        assert(crate::mcp::tools::is_known(known, args[0].0));
        crate::mcp::tools::law_no_unknown_argument(args, known);
    }
}

/// A relative path is taken as it stands, whatever the worktree. An absolute one is placed under
/// the worktree's root, and without one it is not indexed, which names the path.
pub proof fn law_where_a_path_leads(raw: Seq<char>, root: Option<Seq<char>>)
    ensures
        ({
            let plan = path_plan(raw, root);
            let absolute = raw.len() > 0 && raw[0] == '/';
            &&& !absolute <==> plan is Relative
            &&& absolute ==> (root matches Some(r) ==> plan == (PathPlan::Resolve { root: r }))
            &&& absolute && root is None ==> (plan matches PathPlan::Refused(failure)
                && (failure matches Failure::PathNotIndexed { path, .. } && path == raw))
        }),
{
}

/// A path is resolved through its directory where that is known, and otherwise kept as it was
/// written. What lies under the root is what is left of it there, and anything else is not
/// indexed, under the name by which it was asked for.
pub proof fn law_a_path_is_kept_or_placed(
    directory: Seq<char>,
    file_name: Seq<char>,
    as_written: Seq<char>,
    raw: Seq<char>,
    resolved: Seq<char>,
    root: Seq<char>,
    other: Option<Seq<char>>,
)
    ensures
        resolved_input(Some(directory), Some(file_name), as_written) == directory + "/"@
            + file_name,
        resolved_input(None, other, as_written) == as_written,
        resolved_input(other, None, as_written) == as_written,
        crate::paths::under(resolved, root) matches Some(left) ==> relative_part(
            raw,
            resolved,
            root,
        ) == Ok::<Seq<char>, Failure<Seq<char>>>(left),
        crate::paths::under(resolved, root) is None ==> (relative_part(
            raw,
            resolved,
            root,
        ) matches Err(failure) && (failure matches Failure::PathNotIndexed { path, .. } && path
            == raw)),
{
}

} // verus!
