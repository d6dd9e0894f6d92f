//! Reading the arguments of a tool call, one kind of argument per function.

use vstd::prelude::*;

use crate::json::{Json, JsonMap, JsonView, Number, NumberView};
use crate::text::{concat2, concat5, debug_quoted, decimal_i64};
use crate::vocabulary::Named;

verus! {

/// What is said of a name that is not in a vocabulary.
pub open spec fn not_one_of(key: Seq<char>, allowed: Seq<char>, got: Seq<char>) -> Seq<char> {
    key + " must be one of "@ + allowed + ", got "@ + crate::text::debug_text(got)
}

/// An argument that may be left out and otherwise names a value.
pub open spec fn optional_name<T: Named>(
    args: Seq<(Seq<char>, JsonView)>,
    key: Seq<char>,
    allowed: Seq<char>,
) -> Result<Option<T>, Seq<char>> {
    match crate::json::lookup(args, key) {
        None => Ok(None),
        Some(JsonView::Str(s)) => match T::named(s) {
            Some(value) => Ok(Some(value)),
            None => Err(not_one_of(key, allowed, s)),
        },
        Some(_) => Err(key + " must be a string"@),
    }
}

/// Reads an argument that may be left out and otherwise names a value.
pub fn optional_enum<T: Named>(args: &JsonMap, key: &str, allowed: &str) -> (r: Result<
    Option<T>,
    String,
>)
    ensures
        match r {
            Ok(value) => optional_name::<T>(args@, key@, allowed@) == Ok::<
                Option<T>,
                Seq<char>,
            >(value),
            Err(message) => optional_name::<T>(args@, key@, allowed@) == Err::<
                Option<T>,
                Seq<char>,
            >(message@),
        },
{
    broadcast use crate::json::lemma_view;

    match args.get(key) {
        None => Ok(None),
        Some(Json::Str(s)) => match T::from_text(s.as_str()) {
            Some(value) => Ok(Some(value)),
            None => {
                let got = debug_quoted(s.as_str());
                Err(concat5(key, " must be one of ", allowed, ", got ", got.as_str()))
            },
        },
        Some(_) => Err(concat2(key, " must be a string")),
    }
}

/// An argument that must be there and name a value.
pub open spec fn required_name<T: Named>(
    args: Seq<(Seq<char>, JsonView)>,
    key: Seq<char>,
    allowed: Seq<char>,
) -> Result<T, Seq<char>> {
    match crate::json::lookup(args, key) {
        Some(JsonView::Str(s)) => match T::named(s) {
            Some(value) => Ok(value),
            None => Err(not_one_of(key, allowed, s)),
        },
        Some(_) => Err(key + " must be a string"@),
        None => Err(key + " is required"@),
    }
}

/// Reads an argument that must be there and name a value.
pub fn require_enum<T: Named>(args: &JsonMap, key: &str, allowed: &str) -> (r: Result<T, String>)
    ensures
        match r {
            Ok(value) => required_name::<T>(args@, key@, allowed@) == Ok::<T, Seq<char>>(value),
            Err(message) => required_name::<T>(args@, key@, allowed@) == Err::<T, Seq<char>>(
                message@,
            ),
        },
{
    broadcast use crate::json::lemma_view;

    match args.get(key) {
        Some(Json::Str(s)) => match T::from_text(s.as_str()) {
            Some(value) => Ok(value),
            None => {
                let got = debug_quoted(s.as_str());
                Err(concat5(key, " must be one of ", allowed, ", got ", got.as_str()))
            },
        },
        Some(_) => Err(concat2(key, " must be a string")),
        None => Err(concat2(key, " is required")),
    }
}

/// An argument that must be there and be an integer.
pub open spec fn required_integer(args: Seq<(Seq<char>, JsonView)>, key: Seq<char>) -> Result<
    i64,
    Seq<char>,
> {
    match crate::json::lookup(args, key) {
        Some(JsonView::Num(n)) => match crate::json::int_of(n) {
            Some(i) => Ok(i),
            None => Err(key + " must be an integer"@),
        },
        Some(_) => Err(key + " must be an integer"@),
        None => Err(key + " is required"@),
    }
}

/// Reads an argument that must be there and be an integer.
pub fn require_i64(args: &JsonMap, key: &str) -> (r: Result<i64, String>)
    ensures
        match r {
            Ok(i) => required_integer(args@, key@) == Ok::<i64, Seq<char>>(i),
            Err(message) => required_integer(args@, key@) == Err::<i64, Seq<char>>(message@),
        },
{
    broadcast use crate::json::lemma_view;

    match args.get(key) {
        Some(Json::Num(n)) => match n.as_i64() {
            Some(i) => Ok(i),
            None => Err(concat2(key, " must be an integer")),
        },
        Some(_) => Err(concat2(key, " must be an integer")),
        None => Err(concat2(key, " is required")),
    }
}

/// The `limit` argument: from one up to `max`, or `default` where it is left out.
pub open spec fn limit_in(args: Seq<(Seq<char>, JsonView)>, default: i64, max: i64) -> Result<
    i64,
    Seq<char>,
> {
    match crate::json::lookup(args, "limit"@) {
        None => Ok(default),
        Some(JsonView::Num(n)) => match crate::json::int_of(n) {
            Some(i) => if 1 <= i <= max {
                Ok(i)
            } else {
                Err("limit must be an integer between 1 and "@ + crate::text::decimal(max as int))
            },
            None => Err(
                "limit must be an integer between 1 and "@ + crate::text::decimal(max as int),
            ),
        },
        Some(_) => Err("limit must be an integer"@),
    }
}

/// Reads the `limit` argument.
pub fn optional_limit(args: &JsonMap, default: i64, max: i64) -> (r: Result<i64, String>)
    ensures
        match r {
            Ok(i) => limit_in(args@, default, max) == Ok::<i64, Seq<char>>(i),
            Err(message) => limit_in(args@, default, max) == Err::<i64, Seq<char>>(message@),
        },
{
    broadcast use crate::json::lemma_view;

    match args.get("limit") {
        None => Ok(default),
        Some(Json::Num(n)) => {
            if let Some(i) = n.as_i64() {
                if 1 <= i && i <= max {
                    return Ok(i);
                }
            }
            let bound = decimal_i64(max);
            Err(concat2("limit must be an integer between 1 and ", bound.as_str()))
        },
        Some(_) => Err("limit must be an integer".to_owned()),
    }
}

/// A limit that was read lies within its bounds.
pub proof fn law_limit_is_within_bounds(
    args: Seq<(Seq<char>, JsonView)>,
    default: i64,
    max: i64,
)
    requires
        1 <= default <= max,
    ensures
        limit_in(args, default, max) matches Ok(limit) ==> 1 <= limit <= max,
{
}

/// The `offset` argument: not negative, or zero where it is left out.
pub open spec fn offset_in(args: Seq<(Seq<char>, JsonView)>) -> Result<i64, Seq<char>> {
    match crate::json::lookup(args, "offset"@) {
        None => Ok(0),
        Some(JsonView::Num(n)) => match crate::json::int_of(n) {
            Some(i) => if i >= 0 {
                Ok(i)
            } else {
                Err("offset must be a non-negative integer"@)
            },
            None => Err("offset must be a non-negative integer"@),
        },
        Some(_) => Err("offset must be an integer"@),
    }
}

/// Reads the `offset` argument.
pub fn optional_offset(args: &JsonMap) -> (r: Result<i64, String>)
    ensures
        match r {
            Ok(i) => offset_in(args@) == Ok::<i64, Seq<char>>(i),
            Err(message) => offset_in(args@) == Err::<i64, Seq<char>>(message@),
        },
{
    broadcast use crate::json::lemma_view;

    match args.get("offset") {
        None => Ok(0),
        Some(Json::Num(n)) => {
            if let Some(i) = n.as_i64() {
                if i >= 0 {
                    return Ok(i);
                }
            }
            Err("offset must be a non-negative integer".to_owned())
        },
        Some(_) => Err("offset must be an integer".to_owned()),
    }
}

/// A string argument that may be left out, and may be empty.
pub open spec fn optional_text(args: Seq<(Seq<char>, JsonView)>, key: Seq<char>) -> Result<
    Option<Seq<char>>,
    Seq<char>,
> {
    match crate::json::lookup(args, key) {
        None => Ok(None),
        Some(JsonView::Str(s)) => Ok(Some(s)),
        Some(_) => Err(key + " must be a string"@),
    }
}

/// Reads a string argument that may be left out, and may be empty.
pub fn optional_string(args: &JsonMap, key: &str) -> (r: Result<Option<String>, String>)
    ensures
        match r {
            Ok(s) => optional_text(args@, key@) == Ok::<Option<Seq<char>>, Seq<char>>(
                s.deep_view(),
            ),
            Err(message) => optional_text(args@, key@) == Err::<Option<Seq<char>>, Seq<char>>(
                message@,
            ),
        },
{
    broadcast use crate::json::lemma_view;

    match args.get(key) {
        None => Ok(None),
        Some(Json::Str(s)) => Ok(Some(s.clone())),
        Some(_) => Err(concat2(key, " must be a string")),
    }
}

/// A flag that may be left out, and is then off.
pub open spec fn flag_in(args: Seq<(Seq<char>, JsonView)>, key: Seq<char>) -> Result<
    bool,
    Seq<char>,
> {
    match crate::json::lookup(args, key) {
        None => Ok(false),
        Some(JsonView::Bool(b)) => Ok(b),
        Some(_) => Err(key + " must be a boolean"@),
    }
}

/// Reads a flag that may be left out, and is then off.
pub fn optional_flag(args: &JsonMap, key: &str) -> (r: Result<bool, String>)
    ensures
        match r {
            Ok(b) => flag_in(args@, key@) == Ok::<bool, Seq<char>>(b),
            Err(message) => flag_in(args@, key@) == Err::<bool, Seq<char>>(message@),
        },
{
    broadcast use crate::json::lemma_view;

    match args.get(key) {
        None => Ok(false),
        Some(Json::Bool(b)) => Ok(*b),
        Some(_) => Err(concat2(key, " must be a boolean")),
    }
}

/// Whether a number lies between zero and one, both included. Of a double, the bits tell:
/// those of the doubles from zero on grow with the value, and those of one are
/// `0x3ff0_0000_0000_0000`; negative zero counts as zero.
pub open spec fn is_fraction(n: NumberView) -> bool {
    match n {
        NumberView::Int(i) => 0 <= i <= 1,
        NumberView::Float { bits, text } => bits <= 0x3ff0_0000_0000_0000 || bits
            == 0x8000_0000_0000_0000,
    }
}

/// Whether a number lies between zero and one, both included.
pub fn within_unit(n: &Number) -> (r: bool)
    ensures
        r == is_fraction(n@),
{
    match n {
        Number::PosInt(u) => *u <= 1,
        Number::NegInt(i) => 0 <= *i && *i <= 1,
        Number::Float { bits, text: _ } => *bits <= 0x3ff0_0000_0000_0000 || *bits
            == 0x8000_0000_0000_0000,
    }
}

/// An argument that may be left out is nothing where it is, the value that it names where it
/// names one, and a fault where it names none or is no string.
pub proof fn law_an_optional_name_is_the_value_named<T: Named>(
    args: Seq<(Seq<char>, JsonView)>,
    key: Seq<char>,
    allowed: Seq<char>,
)
    ensures
        ({
            let given = crate::json::lookup(args, key);
            let read = optional_name::<T>(args, key, allowed);
            &&& given is None ==> read == Ok::<Option<T>, Seq<char>>(None)
            &&& given matches Some(JsonView::Str(s)) ==> (T::named(s) matches Some(v) ==> read
                == Ok::<Option<T>, Seq<char>>(Some(v)))
            &&& given matches Some(JsonView::Str(s)) ==> (T::named(s) is None ==> read is Err)
            &&& given is Some && !(given->Some_0 is Str) ==> read is Err
        }),
{
}

/// An argument that must be there is the value that it names, and a fault where it is left out,
/// names none or is no string.
pub proof fn law_a_required_name_is_the_value_named<T: Named>(
    args: Seq<(Seq<char>, JsonView)>,
    key: Seq<char>,
    allowed: Seq<char>,
)
    ensures
        ({
            let given = crate::json::lookup(args, key);
            let read = required_name::<T>(args, key, allowed);
            &&& given is None ==> read is Err
            &&& given matches Some(JsonView::Str(s)) ==> (T::named(s) matches Some(v) ==> read
                == Ok::<T, Seq<char>>(v))
            &&& given matches Some(JsonView::Str(s)) ==> (T::named(s) is None ==> read is Err)
            &&& given is Some && !(given->Some_0 is Str) ==> read is Err
        }),
{
}

/// An integer that must be there is read as it stands, and anything else is a fault.
pub proof fn law_a_required_integer_is_read_as_it_stands(
    args: Seq<(Seq<char>, JsonView)>,
    key: Seq<char>,
    i: int,
)
    ensures
        ({
            let given = crate::json::lookup(args, key);
            let read = required_integer(args, key);
            &&& given == Some(JsonView::integer(i)) && i64::MIN <= i <= i64::MAX ==> (
            read matches Ok(n) && n == i)
            &&& given == Some(JsonView::integer(i)) && !(i64::MIN <= i <= i64::MAX) ==> read
                is Err
            &&& given is None ==> read is Err
            &&& given is Some && !(given->Some_0 is Num) ==> read is Err
            &&& given matches Some(JsonView::Num(NumberView::Float { .. })) ==> read is Err
        }),
{
}

/// A limit that is left out is the default, and one that is given is taken as it is: from one
/// up to the largest, both of them included. Anything else is refused.
pub proof fn law_a_limit_is_taken_as_it_is(
    args: Seq<(Seq<char>, JsonView)>,
    default: i64,
    max: i64,
    i: int,
)
    ensures
        ({
            let given = crate::json::lookup(args, "limit"@);
            let read = limit_in(args, default, max);
            &&& given is None ==> read == Ok::<i64, Seq<char>>(default)
            &&& given == Some(JsonView::integer(i)) && 1 <= i <= max ==> (read matches Ok(n) && n
                == i)
            &&& given == Some(JsonView::integer(i)) && !(1 <= i <= max) ==> read is Err
            &&& given is Some && !(given->Some_0 is Num) ==> read is Err
            &&& given matches Some(JsonView::Num(NumberView::Float { .. })) ==> read is Err
        }),
{
}

/// An offset that is left out is zero, and one that is given is taken as it is, unless it is
/// negative.
pub proof fn law_an_offset_is_taken_as_it_is(args: Seq<(Seq<char>, JsonView)>, i: int)
    ensures
        ({
            let given = crate::json::lookup(args, "offset"@);
            let read = offset_in(args);
            &&& given is None ==> read == Ok::<i64, Seq<char>>(0)
            &&& given == Some(JsonView::integer(i)) && 0 <= i <= i64::MAX ==> (read matches Ok(n)
                && n == i)
            &&& given == Some(JsonView::integer(i)) && !(0 <= i <= i64::MAX) ==> read is Err
            &&& given is Some && !(given->Some_0 is Num) ==> read is Err
            &&& given matches Some(JsonView::Num(NumberView::Float { .. })) ==> read is Err
        }),
{
}

/// A text that may be left out is read as it stands, though it be empty, and a flag likewise; a
/// flag that is left out is off. Anything of another type is a fault.
pub proof fn law_texts_and_flags_are_read_as_they_stand(
    args: Seq<(Seq<char>, JsonView)>,
    key: Seq<char>,
)
    ensures
        ({
            let given = crate::json::lookup(args, key);
            let text = optional_text(args, key);
            let flag = flag_in(args, key);
            &&& given is None ==> text == Ok::<Option<Seq<char>>, Seq<char>>(None)
            &&& given matches Some(JsonView::Str(s)) ==> text == Ok::<
                Option<Seq<char>>,
                Seq<char>,
            >(Some(s))
            &&& given is Some && !(given->Some_0 is Str) ==> text is Err
            &&& given is None ==> flag == Ok::<bool, Seq<char>>(false)
            &&& given matches Some(JsonView::Bool(b)) ==> flag == Ok::<bool, Seq<char>>(b)
            &&& given is Some && !(given->Some_0 is Bool) ==> flag is Err
        }),
{
}

/// Of the integers zero and one are fractions, and no other.
pub proof fn law_zero_and_one_are_fractions(i: int)
    ensures
        is_fraction(NumberView::Int(i)) <==> i == 0 || i == 1,
{
}

} // verus!
