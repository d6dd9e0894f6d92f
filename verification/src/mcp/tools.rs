//! `tools/call` and its arguments.

use vstd::prelude::*;

use crate::json::{Json, JsonMap, JsonView};
use crate::text::{concat2, same};

verus! {

/// How many hits `search_code` returns where the caller does not say.
pub const DEFAULT_SEARCH_LIMIT: i64 = 10;

/// How many hits `search_code` returns at most.
pub const MAX_SEARCH_LIMIT: i64 = 50;

/// How many entries `recall` returns where the caller does not say.
pub const DEFAULT_RECALL_LIMIT: i64 = 10;

/// How many entries `recall` returns at most.
pub const MAX_RECALL_LIMIT: i64 = 50;

/// How many rows a listing returns where the caller does not say. Listings page through
/// everything, so their window is wider than that of the ranked answers.
pub const DEFAULT_LIST_LIMIT: i64 = 20;

/// How many rows a listing returns at most.
pub const MAX_LIST_LIMIT: i64 = 100;

/// A call of a tool: its name, and its arguments before they are checked.
#[derive(Debug, PartialEq, Eq)]
pub struct ToolCall {
    pub name: String,
    pub arguments: JsonMap,
}

/// The call that the parameters of `tools/call` name, or why they name none. A call
/// without arguments has an empty object of them.
pub open spec fn tool_call_in(params: Option<JsonView>) -> Result<
    (Seq<char>, Seq<(Seq<char>, JsonView)>),
    Seq<char>,
> {
    match params {
        Some(JsonView::Obj(object)) => match crate::json::lookup(object, "name"@) {
            Some(JsonView::Str(name)) => match crate::json::lookup(object, "arguments"@) {
                None => Ok((name, crate::json::nothing())),
                Some(JsonView::Obj(arguments)) => Ok((name, arguments)),
                Some(_) => Err("params.arguments must be an object"@),
            },
            Some(_) => Err("params.name must be a string"@),
            None => Err("params.name is required"@),
        },
        _ => Err("params must be an object"@),
    }
}

/// Reads the parameters of `tools/call`.
pub fn parse_tool_call(params: Option<&Json>) -> (r: Result<ToolCall, String>)
    ensures
        ({
            let expected = tool_call_in(
                match params {
                    Some(v) => Some(v@),
                    None => None,
                },
            );
            match r {
                Ok(call) => expected == Ok::<_, Seq<char>>((call.name@, call.arguments@)),
                Err(message) => expected == Err::<
                    (Seq<char>, Seq<(Seq<char>, JsonView)>),
                    Seq<char>,
                >(message@),
            }
        }),
{
    broadcast use crate::json::lemma_view;

    let map = match params {
        Some(Json::Obj(map)) => map,
        _ => {
            return Err("params must be an object".to_owned());
        },
    };
    let name = match map.get("name") {
        Some(Json::Str(s)) => s.clone(),
        Some(_) => {
            return Err("params.name must be a string".to_owned());
        },
        None => {
            return Err("params.name is required".to_owned());
        },
    };
    let arguments = match map.get("arguments") {
        None => JsonMap::new(),
        Some(Json::Obj(args)) => args.clone(),
        Some(_) => {
            return Err("params.arguments must be an object".to_owned());
        },
    };
    Ok(ToolCall { name, arguments })
}

/// What is wrong with the parameters of `tools/list`. The whole catalog is one page, so a
/// cursor cannot come from this server.
pub open spec fn list_params_fault(params: Option<JsonView>) -> Option<Seq<char>> {
    match params {
        None => None,
        Some(JsonView::Obj(object)) => if crate::json::lookup(object, "cursor"@) is Some {
            Some("cursor is not supported"@)
        } else {
            None
        },
        Some(_) => Some("params must be an object"@),
    }
}

/// Checks the parameters of `tools/list`.
pub fn list_params_ok(params: Option<&Json>) -> (r: Result<(), String>)
    ensures
        ({
            let fault = list_params_fault(
                match params {
                    Some(v) => Some(v@),
                    None => None,
                },
            );
            match r {
                Ok(_) => fault is None,
                Err(message) => fault == Some(message@),
            }
        }),
{
    broadcast use crate::json::lemma_view;

    match params {
        None => Ok(()),
        Some(Json::Obj(map)) => if map.contains_key("cursor") {
            Err("cursor is not supported".to_owned())
        } else {
            Ok(())
        },
        Some(_) => Err("params must be an object".to_owned()),
    }
}

/// A required string argument that must not be empty.
pub open spec fn required_string(args: Seq<(Seq<char>, JsonView)>, key: Seq<char>) -> Result<
    Seq<char>,
    Seq<char>,
> {
    match crate::json::lookup(args, key) {
        Some(JsonView::Str(s)) => if s.len() > 0 {
            Ok(s)
        } else {
            Err(key + " must not be empty"@)
        },
        Some(_) => Err(key + " must be a string"@),
        None => Err(key + " is required"@),
    }
}

/// Reads a required string argument that must not be empty.
pub fn require_string(args: &JsonMap, key: &str) -> (r: Result<String, String>)
    ensures
        match r {
            Ok(s) => required_string(args@, key@) == Ok::<Seq<char>, Seq<char>>(s@),
            Err(message) => required_string(args@, key@) == Err::<Seq<char>, Seq<char>>(message@),
        },
{
    broadcast use crate::json::lemma_view;

    match args.get(key) {
        Some(Json::Str(s)) => if s.as_str().unicode_len() > 0 {
            Ok(s.clone())
        } else {
            Err(concat2(key, " must not be empty"))
        },
        Some(_) => Err(concat2(key, " must be a string")),
        None => Err(concat2(key, " is required")),
    }
}

/// Whether `key` is one of `known`.
pub open spec fn is_known(known: Seq<&str>, key: Seq<char>) -> bool {
    exists|i: int| 0 <= i < known.len() && (#[trigger] known[i])@ == key
}

/// The first argument, in the order of the arguments, that is not known.
pub open spec fn first_unknown(args: Seq<(Seq<char>, JsonView)>, known: Seq<&str>) -> Option<
    Seq<char>,
>
    decreases args.len(),
{
    if args.len() == 0 {
        None
    } else if is_known(known, args[0].0) {
        first_unknown(args.drop_first(), known)
    } else {
        Some(args[0].0)
    }
}

/// Whether `key` is one of `known`.
fn knows(known: &[&str], key: &str) -> (r: bool)
    ensures
        r == is_known(known@, key@),
{
    let mut i: usize = 0;
    while i < known.len()
        invariant
            i <= known.len(),
            forall|j: int| 0 <= j < i ==> (#[trigger] known@[j])@ != key@,
        decreases known.len() - i,
    {
        if same(known[i], key) {
            proof {
                assert(known@[i as int]@ == key@);
            }
            return true;
        }
        i = i + 1;
    }
    false
}

/// The first argument that is not known, for callers that word the refusal themselves.
pub(crate) fn find_unknown<'a>(args: &'a JsonMap, known: &[&str]) -> (r: Option<&'a str>)
    ensures
        first_unknown(args@, known@) == (match r {
            Some(key) => Some(key@),
            None => None,
        }),
{
    let mut i: usize = 0;
    proof {
        assert(args@.subrange(0, args@.len() as int) =~= args@);
    }
    while i < args.entries.len()
        invariant
            i <= args.entries.len(),
            first_unknown(args@, known@) == first_unknown(
                args@.subrange(i as int, args@.len() as int),
                known@,
            ),
        decreases args.entries.len() - i,
    {
        proof {
            let rest = args@.subrange(i as int, args@.len() as int);
            assert(rest[0].0 == args.entries@[i as int].0@);
            assert(rest.drop_first() =~= args@.subrange(i + 1, args@.len() as int));
        }
        if !knows(known, args.entries[i].0.as_str()) {
            return Some(args.entries[i].0.as_str());
        }
        i = i + 1;
    }
    None
}

/// Refuses a call with an argument that is not in `known`.
pub fn reject_unknown_keys(args: &JsonMap, known: &[&str]) -> (r: Result<(), String>)
    ensures
        match r {
            Ok(_) => first_unknown(args@, known@) is None,
            Err(message) => first_unknown(args@, known@) matches Some(key) && message@
                == "unknown argument: "@ + key,
        },
{
    match find_unknown(args, known) {
        Some(key) => Err(concat2("unknown argument: ", key)),
        None => Ok(()),
    }
}

/// No argument is unknown exactly when every argument is known.
pub proof fn law_no_unknown_argument(args: Seq<(Seq<char>, JsonView)>, known: Seq<&str>)
    ensures
        first_unknown(args, known) is None <==> (forall|i: int|
            0 <= i < args.len() ==> is_known(known, (#[trigger] args[i]).0)),
    decreases args.len(),
{
    if args.len() > 0 {
        let rest = args.drop_first();
        law_no_unknown_argument(rest, known);
        if is_known(known, args[0].0) {
            if first_unknown(rest, known) is None {
                assert forall|i: int| 0 <= i < args.len() implies is_known(
                    known,
                    (#[trigger] args[i]).0,
                ) by {
                    if i > 0 {
                        assert(args[i] == rest[i - 1]);
                    }
                }
            } else {
                let k = choose|i: int|
                    0 <= i < rest.len() && !is_known(known, (#[trigger] rest[i]).0);
                assert(args[k + 1] == rest[k]);
            }
        } else {
            assert(!is_known(known, args[0].0));
        }
    }
}

/// A call is the tool that its parameters name, with the arguments that they hold, or none where
/// they hold none.
pub proof fn law_a_call_is_what_its_parameters_say(object: Seq<(Seq<char>, JsonView)>)
    ensures
        ({
            let name = crate::json::lookup(object, "name"@);
            let arguments = crate::json::lookup(object, "arguments"@);
            let call = tool_call_in(Some(JsonView::Obj(object)));
            &&& name matches Some(JsonView::Str(n)) ==> {
                &&& arguments is None ==> call == Ok::<_, Seq<char>>(
                    (n, Seq::<(Seq<char>, JsonView)>::empty()),
                )
                &&& arguments matches Some(JsonView::Obj(a)) ==> call == Ok::<_, Seq<char>>((n, a))
                &&& arguments is Some && !(arguments->Some_0 is Obj) ==> call is Err
            }
            &&& name is None || !(name->Some_0 is Str) ==> call is Err
        }),
        tool_call_in(None) is Err,
{
}

/// A listing is refused for a cursor, whatever it is, and for parameters that are no object, and
/// for nothing else.
pub proof fn law_a_listing_takes_no_cursor(params: Option<JsonView>)
    ensures
        params is None ==> list_params_fault(params) is None,
        params matches Some(JsonView::Obj(object)) ==> (list_params_fault(params) is None
            <==> crate::json::lookup(object, "cursor"@) is None),
        params matches Some(value) ==> (!(value is Obj) ==> list_params_fault(params) is Some),
{
}

/// A text that must be there is read as it stands, unless it is empty.
pub proof fn law_a_required_text_is_read_as_it_stands(
    args: Seq<(Seq<char>, JsonView)>,
    key: Seq<char>,
)
    ensures
        ({
            let given = crate::json::lookup(args, key);
            let read = required_string(args, key);
            &&& given matches Some(JsonView::Str(s)) ==> (s.len() > 0 ==> read == Ok::<
                Seq<char>,
                Seq<char>,
            >(s))
            &&& given matches Some(JsonView::Str(s)) ==> (s.len() == 0 ==> read is Err)
            &&& given is None ==> read is Err
            &&& given is Some && !(given->Some_0 is Str) ==> read is Err
        }),
{
}

/// The argument that is complained of is the first one that is not known.
pub proof fn law_the_first_unknown_argument_is_named(
    args: Seq<(Seq<char>, JsonView)>,
    known: Seq<&str>,
    k: int,
)
    requires
        0 <= k < args.len(),
        !is_known(known, args[k].0),
        forall|i: int| 0 <= i < k ==> is_known(known, (#[trigger] args[i]).0),
    ensures
        first_unknown(args, known) == Some(args[k].0),
    decreases args.len(),
{
    if k > 0 {
        let rest = args.drop_first();
        assert(is_known(known, args[0].0));
        assert forall|i: int| 0 <= i < k - 1 implies is_known(known, (#[trigger] rest[i]).0) by {
            assert(rest[i] == args[i + 1]);
        }
        law_the_first_unknown_argument_is_named(rest, known, k - 1);
    }
}

/// How many answers a tool gives where it is not told, and at most.
pub proof fn law_the_windows_of_the_tools()
    ensures
        DEFAULT_SEARCH_LIMIT == 10 && MAX_SEARCH_LIMIT == 50,
        DEFAULT_RECALL_LIMIT == 10 && MAX_RECALL_LIMIT == 50,
        DEFAULT_LIST_LIMIT == 20 && MAX_LIST_LIMIT == 100,
{
}

} // verus!
