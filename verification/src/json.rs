//! JSON values as the daemon reads and writes them.

use vstd::prelude::*;

use crate::text::{concat3, decimal_i64, decimal_u64, same};

verus! {

/// A JSON number. Integers keep their value; any other number keeps the bits of its
/// double and the text it is written with.
#[derive(Debug, PartialEq, Eq)]
pub enum Number {
    PosInt(u64),
    NegInt(i64),
    Float { bits: u64, text: String },
}

/// A JSON value. The members of an object are kept in the order in which they are written.
#[derive(Debug, PartialEq, Eq)]
pub enum Json {
    Null,
    Bool(bool),
    Num(Number),
    Str(String),
    Arr(Vec<Json>),
    Obj(JsonMap),
}

/// The members of a JSON object, in order.
#[derive(Debug, PartialEq, Eq)]
pub struct JsonMap {
    pub entries: Vec<(String, Json)>,
}

/// The items of a JSON array, in order.
#[derive(Debug, PartialEq, Eq)]
pub struct JsonList {
    pub items: Vec<Json>,
}

/// What a [`Number`] stands for.
pub enum NumberView {
    Int(int),
    Float { bits: u64, text: Seq<char> },
}

/// What a [`Json`] stands for.
pub enum JsonView {
    Null,
    Bool(bool),
    Num(NumberView),
    Str(Seq<char>),
    Arr(Seq<JsonView>),
    Obj(Seq<(Seq<char>, JsonView)>),
}

impl View for Number {
    type V = NumberView;

    open spec fn view(&self) -> NumberView {
        match *self {
            Number::PosInt(n) => NumberView::Int(n as int),
            Number::NegInt(n) => NumberView::Int(n as int),
            Number::Float { bits, text } => NumberView::Float { bits, text: text@ },
        }
    }
}

impl Json {
    /// The value without its representation.
    pub open spec fn model(self) -> JsonView
        decreases self,
    {
        match self {
            Json::Null => JsonView::Null,
            Json::Bool(b) => JsonView::Bool(b),
            Json::Num(n) => JsonView::Num(n@),
            Json::Str(s) => JsonView::Str(s@),
            Json::Arr(items) => JsonView::Arr(
                Seq::new(
                    items@.len(),
                    |i: int|
                        if 0 <= i < items@.len() {
                            items@[i].model()
                        } else {
                            JsonView::Null
                        },
                ),
            ),
            Json::Obj(map) => JsonView::Obj(
                Seq::new(
                    map.entries@.len(),
                    |i: int|
                        if 0 <= i < map.entries@.len() {
                            (map.entries@[i].0@, map.entries@[i].1.model())
                        } else {
                            (Seq::empty(), JsonView::Null)
                        },
                ),
            ),
        }
    }
}

impl View for Json {
    type V = JsonView;

    open spec fn view(&self) -> JsonView {
        self.model()
    }
}

impl DeepView for Json {
    type V = JsonView;

    open spec fn deep_view(&self) -> JsonView {
        self.model()
    }
}

impl JsonView {
    /// An integer.
    pub open spec fn integer(n: int) -> JsonView {
        JsonView::Num(NumberView::Int(n))
    }

    /// A string, or null.
    pub open spec fn opt_text(s: Option<Seq<char>>) -> JsonView {
        match s {
            Some(text) => JsonView::Str(text),
            None => JsonView::Null,
        }
    }

    /// An integer, or null.
    pub open spec fn opt_int(n: Option<i64>) -> JsonView {
        match n {
            Some(i) => JsonView::integer(i as int),
            None => JsonView::Null,
        }
    }
}

/// One more member where there is a value for it.
pub open spec fn push_some(
    object: Seq<(Seq<char>, JsonView)>,
    key: Seq<char>,
    value: Option<JsonView>,
) -> Seq<(Seq<char>, JsonView)> {
    match value {
        Some(v) => object.push((key, v)),
        None => object,
    }
}

/// An object without members, to which specifications add one member after the other.
pub open spec fn nothing() -> Seq<(Seq<char>, JsonView)> {
    Seq::empty()
}

/// The members `entries` stand for.
pub open spec fn members(entries: Seq<(String, Json)>) -> Seq<(Seq<char>, JsonView)> {
    Seq::new(entries.len(), |i: int| (entries[i].0@, entries[i].1@))
}

/// Strings as JSON values.
pub open spec fn string_values(items: Seq<String>) -> Seq<JsonView> {
    Seq::new(items.len(), |i: int| JsonView::Str(items[i]@))
}

/// The values `items` stand for.
pub open spec fn values(items: Seq<Json>) -> Seq<JsonView> {
    Seq::new(items.len(), |i: int| items[i]@)
}

impl View for JsonMap {
    type V = Seq<(Seq<char>, JsonView)>;

    open spec fn view(&self) -> Seq<(Seq<char>, JsonView)> {
        members(self.entries@)
    }
}

/// An array stands for the values of its items, an object for its members.
pub broadcast proof fn lemma_view(j: Json)
    ensures
        #[trigger] j.view() == (match j {
            Json::Null => JsonView::Null,
            Json::Bool(b) => JsonView::Bool(b),
            Json::Num(n) => JsonView::Num(n@),
            Json::Str(s) => JsonView::Str(s@),
            Json::Arr(items) => JsonView::Arr(values(items@)),
            Json::Obj(map) => JsonView::Obj(map@),
        }),
{
    match j {
        Json::Arr(items) => {
            assert(j@->Arr_0 =~= values(items@));
        },
        Json::Obj(map) => {
            assert(j@->Obj_0 =~= map@);
        },
        _ => {},
    }
}

impl Clone for Number {
    fn clone(&self) -> (r: Self)
        ensures
            r@ == self@,
    {
        match self {
            Number::PosInt(n) => Number::PosInt(*n),
            Number::NegInt(n) => Number::NegInt(*n),
            Number::Float { bits, text } => Number::Float { bits: *bits, text: text.clone() },
        }
    }
}

fn clone_items(items: &Vec<Json>) -> (r: Vec<Json>)
    ensures
        values(r@) == values(items@),
    decreases items,
{
    let mut r: Vec<Json> = Vec::new();
    let mut i: usize = 0;
    while i < items.len()
        invariant
            i <= items.len(),
            r.len() == i,
            forall|j: int| 0 <= j < i ==> (#[trigger] r@[j])@ == items@[j]@,
        decreases items.len() - i,
    {
        let item = items[i].clone();
        r.push(item);
        i = i + 1;
    }
    proof {
        assert(values(r@) =~= values(items@));
    }
    r
}

fn clone_entries(entries: &Vec<(String, Json)>) -> (r: Vec<(String, Json)>)
    ensures
        members(r@) == members(entries@),
    decreases entries,
{
    let mut r: Vec<(String, Json)> = Vec::new();
    let mut i: usize = 0;
    while i < entries.len()
        invariant
            i <= entries.len(),
            r.len() == i,
            forall|j: int|
                0 <= j < i ==> (#[trigger] r@[j]).0@ == entries@[j].0@ && r@[j].1@
                    == entries@[j].1@,
        decreases entries.len() - i,
    {
        let key = entries[i].0.clone();
        let value = entries[i].1.clone();
        r.push((key, value));
        i = i + 1;
    }
    proof {
        assert(members(r@) =~= members(entries@));
    }
    r
}

impl Clone for Json {
    fn clone(&self) -> (r: Self)
        ensures
            r@ == self@,
        decreases self,
    {
        broadcast use lemma_view;

        match self {
            Json::Null => Json::Null,
            Json::Bool(b) => Json::Bool(*b),
            Json::Num(n) => Json::Num(n.clone()),
            Json::Str(s) => Json::Str(s.clone()),
            Json::Arr(items) => {
                let copy = clone_items(items);
                Json::Arr(copy)
            },
            Json::Obj(map) => {
                let copy = JsonMap { entries: clone_entries(&map.entries) };
                Json::Obj(copy)
            },
        }
    }
}

impl Clone for JsonMap {
    fn clone(&self) -> (r: Self)
        ensures
            r@ == self@,
    {
        JsonMap { entries: clone_entries(&self.entries) }
    }
}

/// The value of the first member called `key`.
pub open spec fn lookup(object: Seq<(Seq<char>, JsonView)>, key: Seq<char>) -> Option<JsonView>
    decreases object.len(),
{
    if object.len() == 0 {
        None
    } else if object[0].0 == key {
        Some(object[0].1)
    } else {
        lookup(object.drop_first(), key)
    }
}

/// A member that is added last is found where no other member has its name.
pub proof fn lemma_lookup_push(
    object: Seq<(Seq<char>, JsonView)>,
    member: (Seq<char>, JsonView),
    key: Seq<char>,
)
    ensures
        lookup(object.push(member), key) == (match lookup(object, key) {
            Some(value) => Some(value),
            None => if member.0 == key {
                Some(member.1)
            } else {
                None
            },
        }),
    decreases object.len(),
{
    let all = object.push(member);
    if object.len() == 0 {
        assert(all.drop_first() =~= Seq::empty());
        assert(lookup(all.drop_first(), key) is None);
    } else {
        lemma_lookup_push(object.drop_first(), member, key);
        assert(all.drop_first() =~= object.drop_first().push(member));
        assert(all[0] == object[0]);
    }
}

/// No member before `i` is called `key`, so the search goes on from there.
proof fn lemma_lookup_skip(object: Seq<(Seq<char>, JsonView)>, key: Seq<char>, i: int)
    requires
        0 <= i <= object.len(),
        forall|j: int| 0 <= j < i ==> (#[trigger] object[j]).0 != key,
    ensures
        lookup(object, key) == lookup(object.subrange(i, object.len() as int), key),
    decreases i,
{
    if i == 0 {
        assert(object.subrange(0, object.len() as int) =~= object);
    } else {
        let rest = object.drop_first();
        assert forall|j: int| 0 <= j < i - 1 implies (#[trigger] rest[j]).0 != key by {
            assert(rest[j] == object[j + 1]);
        }
        lemma_lookup_skip(rest, key, i - 1);
        assert(rest.subrange(i - 1, rest.len() as int) =~= object.subrange(
            i,
            object.len() as int,
        ));
        assert(object[0].0 != key);
    }
}

impl JsonMap {
    /// An object without members.
    pub fn new() -> (r: Self)
        ensures
            r@ == nothing(),
    {
        let r = JsonMap { entries: Vec::new() };
        proof {
            assert(r@ =~= Seq::empty());
        }
        r
    }

    /// How many members the object has.
    pub fn len(&self) -> (n: usize)
        ensures
            n == self@.len(),
    {
        self.entries.len()
    }

    /// Whether the object has no member.
    pub fn is_empty(&self) -> (r: bool)
        ensures
            r == (self@.len() == 0),
    {
        self.entries.len() == 0
    }

    /// The value of the member called `key`.
    pub fn get(&self, key: &str) -> (r: Option<&Json>)
        ensures
            match r {
                Some(v) => lookup(self@, key@) == Some(v@),
                None => lookup(self@, key@) is None,
            },
    {
        let mut i: usize = 0;
        while i < self.entries.len()
            invariant
                i <= self.entries.len(),
                forall|j: int| 0 <= j < i ==> (#[trigger] self@[j]).0 != key@,
            decreases self.entries.len() - i,
        {
            if same(self.entries[i].0.as_str(), key) {
                proof {
                    lemma_lookup_skip(self@, key@, i as int);
                    assert(self@[i as int].0 == key@);
                }
                return Some(&self.entries[i].1);
            }
            i = i + 1;
        }
        proof {
            lemma_lookup_skip(self@, key@, i as int);
        }
        None
    }

    /// Whether a member is called `key`.
    pub fn contains_key(&self, key: &str) -> (r: bool)
        ensures
            r == (lookup(self@, key@) is Some),
    {
        self.get(key).is_some()
    }

    /// The object with one more member at the end.
    pub fn with(self, key: &str, value: Json) -> (r: JsonMap)
        ensures
            r@ == self@.push((key@, value@)),
    {
        let mut r = self;
        r.push(key, value);
        r
    }

    /// The object with one more member at the end where there is a value for it.
    pub fn with_some(self, key: &str, value: Option<Json>) -> (r: JsonMap)
        ensures
            r@ == push_some(self@, key@, value.deep_view()),
    {
        match value {
            Some(v) => self.with(key, v),
            None => self,
        }
    }

    /// The object as a value.
    pub fn json(self) -> (r: Json)
        ensures
            r@ == JsonView::Obj(self@),
    {
        broadcast use lemma_view;

        Json::Obj(self)
    }

    /// Adds a member at the end.
    pub fn push(&mut self, key: &str, value: Json)
        ensures
            final(self)@ == old(self)@.push((key@, value@)),
    {
        let ghost before = self@;
        self.entries.push((key.to_owned(), value));
        proof {
            assert(self@ =~= before.push((key@, value@)));
        }
    }

    /// Gives the member called `key` a new value, adding it at the end where there is none.
    pub fn insert(&mut self, key: &str, value: Json)
        ensures
            final(self)@ == with_member(old(self)@, key@, value@),
    {
        let ghost before = self@;
        let mut i: usize = 0;
        while i < self.entries.len()
            invariant
                i <= self.entries.len(),
                self@ == before,
                before == old(self)@,
                forall|j: int| 0 <= j < i ==> (#[trigger] before[j]).0 != key@,
            decreases self.entries.len() - i,
        {
            if same(self.entries[i].0.as_str(), key) {
                proof {
                    assert(before[i as int].0 == key@);
                    lemma_position(before, key@, i as int);
                }
                let name = self.entries[i].0.clone();
                self.entries.set(i, (name, value));
                proof {
                    assert(self@ =~= before.update(i as int, (key@, value@)));
                }
                return ;
            }
            i = i + 1;
        }
        proof {
            lemma_no_position(before, key@);
        }
        self.push(key, value);
    }
}

/// Where the first member called `key` stands; past the end if there is none.
pub open spec fn position(object: Seq<(Seq<char>, JsonView)>, key: Seq<char>) -> int
    decreases object.len(),
{
    if object.len() == 0 {
        0
    } else if object[0].0 == key {
        0
    } else {
        1 + position(object.drop_first(), key)
    }
}

proof fn lemma_position_in_range(object: Seq<(Seq<char>, JsonView)>, key: Seq<char>)
    ensures
        0 <= position(object, key) <= object.len(),
    decreases object.len(),
{
    if object.len() > 0 && object[0].0 != key {
        lemma_position_in_range(object.drop_first(), key);
    }
}

proof fn lemma_position(object: Seq<(Seq<char>, JsonView)>, key: Seq<char>, i: int)
    requires
        0 <= i < object.len(),
        object[i].0 == key,
        forall|j: int| 0 <= j < i ==> (#[trigger] object[j]).0 != key,
    ensures
        position(object, key) == i,
    decreases i,
{
    if i > 0 {
        let rest = object.drop_first();
        assert forall|j: int| 0 <= j < i - 1 implies (#[trigger] rest[j]).0 != key by {
            assert(rest[j] == object[j + 1]);
        }
        assert(object[0].0 != key);
        lemma_position(rest, key, i - 1);
    }
}

proof fn lemma_no_position(object: Seq<(Seq<char>, JsonView)>, key: Seq<char>)
    requires
        forall|j: int| 0 <= j < object.len() ==> (#[trigger] object[j]).0 != key,
    ensures
        position(object, key) == object.len(),
    decreases object.len(),
{
    if object.len() > 0 {
        let rest = object.drop_first();
        assert forall|j: int| 0 <= j < rest.len() implies (#[trigger] rest[j]).0 != key by {
            assert(rest[j] == object[j + 1]);
        }
        assert(object[0].0 != key);
        lemma_no_position(rest, key);
    }
}

/// The object in which `key` has `value`: in place where the key is known, else at the end.
pub open spec fn with_member(
    object: Seq<(Seq<char>, JsonView)>,
    key: Seq<char>,
    value: JsonView,
) -> Seq<(Seq<char>, JsonView)> {
    if position(object, key) < object.len() {
        object.update(position(object, key), (key, value))
    } else {
        object.push((key, value))
    }
}

/// An inserted member is read back, and no other member changes.
pub proof fn law_insert_then_get(
    object: Seq<(Seq<char>, JsonView)>,
    key: Seq<char>,
    value: JsonView,
    other: Seq<char>,
)
    ensures
        lookup(with_member(object, key, value), key) == Some(value),
        other != key ==> lookup(with_member(object, key, value), other) == lookup(object, other),
    decreases object.len(),
{
    let after = with_member(object, key, value);
    if object.len() == 0 {
        assert(after =~= seq![(key, value)]);
        assert(after.drop_first() =~= Seq::empty());
        assert(lookup(after.drop_first(), other) is None);
    } else if object[0].0 == key {
        assert(after =~= object.update(0, (key, value)));
        assert(after.drop_first() =~= object.drop_first());
    } else {
        let rest = object.drop_first();
        lemma_position_in_range(rest, key);
        law_insert_then_get(rest, key, value, other);
        assert(after[0] == object[0]);
        assert(after.drop_first() =~= with_member(rest, key, value));
    }
}

impl View for JsonList {
    type V = Seq<JsonView>;

    open spec fn view(&self) -> Seq<JsonView> {
        values(self.items@)
    }
}

impl JsonList {
    /// An array without items.
    pub fn new() -> (r: Self)
        ensures
            r@ == Seq::<JsonView>::empty(),
    {
        let r = JsonList { items: Vec::new() };
        proof {
            assert(r@ =~= Seq::empty());
        }
        r
    }

    /// The array with one more item at the end.
    pub fn with(self, item: Json) -> (r: JsonList)
        ensures
            r@ == self@.push(item@),
    {
        let mut items = self.items;
        items.push(item);
        let r = JsonList { items };
        proof {
            assert(r@ =~= self@.push(item@));
        }
        r
    }

    /// The array with one more string at the end.
    pub fn with_str(self, item: &str) -> (r: JsonList)
        ensures
            r@ == self@.push(JsonView::Str(item@)),
    {
        self.with(Json::string(item))
    }

    /// The array as a value.
    pub fn json(self) -> (r: Json)
        ensures
            r@ == JsonView::Arr(self@),
    {
        broadcast use lemma_view;

        Json::Arr(self.items)
    }
}

/// Text parsed as JSON by serde_json: the value, or nothing where it refuses the text.
pub uninterp spec fn parsed_json(text: Seq<char>) -> Option<JsonView>;

/// What a serde_json value holds: its members and items, each string, number and flag.
pub uninterp spec fn contents(value: serde_json::Value) -> JsonView;

/// The lower-case hexadecimal digit of a number under 16.
pub open spec fn hex_digit(n: int) -> char {
    if n < 10 {
        ('0' as int + n) as char
    } else {
        ('a' as int + (n - 10)) as char
    }
}

/// How a character is written inside a JSON string. Only the quote, the backslash and the
/// control characters below the space are escaped, those that have a letter of their own by
/// that letter.
pub open spec fn escaped(c: char) -> Seq<char> {
    let n = c as int;
    if c == '"' || c == '\\' {
        seq!['\\', c]
    } else if n == 0x8 {
        seq!['\\', 'b']
    } else if n == 0x9 {
        seq!['\\', 't']
    } else if n == 0xa {
        seq!['\\', 'n']
    } else if n == 0xc {
        seq!['\\', 'f']
    } else if n == 0xd {
        seq!['\\', 'r']
    } else if n < 0x20 {
        seq!['\\', 'u', '0', '0', hex_digit(n / 16), hex_digit(n % 16)]
    } else {
        seq![c]
    }
}

/// How the characters of a JSON string are written, one after the other.
pub open spec fn escaped_text(s: Seq<char>) -> Seq<char>
    decreases s.len(),
{
    if s.len() == 0 {
        Seq::empty()
    } else {
        escaped_text(s.drop_last()) + escaped(s.last())
    }
}

/// A string as JSON: in double quotes, escaped.
pub open spec fn quoted(s: Seq<char>) -> Seq<char> {
    seq!['"'] + escaped_text(s) + seq!['"']
}

/// A parsed JSON document of serde_json.
#[verifier::external_type_specification]
#[verifier::external_body]
pub struct ExValue(serde_json::Value);

/// `serde_json::from_str`: whether it succeeds, and the document it then returns, depend on the
/// text alone. Which texts it takes is not stated. It refuses what is not JSON, and JSON that
/// is nested too deep or holds a number out of range.
#[verifier::external_body]
fn parse_document(text: &str) -> (r: Option<serde_json::Value>)
    ensures
        match r {
            Some(v) => parsed_json(text@) == Some(contents(v)),
            None => parsed_json(text@) is None,
        },
{
    serde_json::from_str(text).ok()
}

/// A serde_json value, opened one level deep.
enum Shape {
    Null,
    Bool(bool),
    Num(Number),
    Str(String),
    Arr(Vec<serde_json::Value>),
    Obj(Vec<(String, serde_json::Value)>),
}

/// What the items of an array hold.
spec fn item_contents(items: Seq<serde_json::Value>) -> Seq<JsonView> {
    Seq::new(items.len(), |i: int| contents(items[i]))
}

/// What the members of an object hold.
spec fn member_contents(entries: Seq<(String, serde_json::Value)>) -> Seq<(Seq<char>, JsonView)> {
    Seq::new(entries.len(), |i: int| (entries[i].0@, contents(entries[i].1)))
}

/// The variants of `serde_json::Value`, one for one. `as_u64`, `as_i64` and `as_f64` tell the
/// numbers apart, and an object hands out its members in its own order.
#[verifier::external_body]
fn open_value(value: serde_json::Value) -> (r: Shape)
    ensures
        contents(value) == (match r {
            Shape::Null => JsonView::Null,
            Shape::Bool(b) => JsonView::Bool(b),
            Shape::Num(n) => JsonView::Num(n@),
            Shape::Str(s) => JsonView::Str(s@),
            Shape::Arr(items) => JsonView::Arr(item_contents(items@)),
            Shape::Obj(entries) => JsonView::Obj(member_contents(entries@)),
        }),
{
    match value {
        serde_json::Value::Null => Shape::Null,
        serde_json::Value::Bool(b) => Shape::Bool(b),
        serde_json::Value::Number(n) => Shape::Num(match (n.as_u64(), n.as_i64()) {
            (Some(u), _) => Number::PosInt(u),
            (_, Some(i)) => Number::NegInt(i),
            _ => Number::Float { bits: n.as_f64().unwrap_or_default().to_bits(), text: n.to_string() },
        }),
        serde_json::Value::String(s) => Shape::Str(s),
        serde_json::Value::Array(v) => Shape::Arr(v),
        serde_json::Value::Object(m) => Shape::Obj(m.into_iter().collect()),
    }
}

/// A serde_json value, taken apart.
fn take_apart(value: serde_json::Value) -> (r: Json)
    ensures
        r@ == contents(value),
    decreases contents(value),
{
    broadcast use lemma_view;

    let ghost whole = contents(value);
    match open_value(value) {
        Shape::Null => Json::Null,
        Shape::Bool(b) => Json::Bool(b),
        Shape::Num(n) => Json::Num(n),
        Shape::Str(s) => Json::Str(s),
        Shape::Arr(items) => {
            let ghost all = items@;
            let mut out: Vec<Json> = Vec::new();
            for item in it: items
                invariant
                    it.seq() == all,
                    whole == contents(value),
                    whole == JsonView::Arr(item_contents(all)),
                    out@.len() == it.index(),
                    forall|j: int| 0 <= j < out@.len() ==> (#[trigger] out@[j])@ == contents(all[j]),
            {
                proof {
                    let parts = item_contents(all);
                    assert(parts[it.index()] == contents(item));
                    assert(decreases_to!(whole => whole->Arr_0[it.index()]));
                }
                let part = take_apart(item);
                out.push(part);
            }
            proof {
                assert(values(out@) =~= item_contents(all));
            }
            Json::Arr(out)
        },
        Shape::Obj(entries) => {
            let ghost all = entries@;
            let mut out: Vec<(String, Json)> = Vec::new();
            for entry in it: entries
                invariant
                    it.seq() == all,
                    whole == contents(value),
                    whole == JsonView::Obj(member_contents(all)),
                    out@.len() == it.index(),
                    forall|j: int|
                        0 <= j < out@.len() ==> (#[trigger] out@[j]).0@ == all[j].0@ && out@[j].1@
                            == contents(all[j].1),
            {
                proof {
                    let parts = member_contents(all);
                    assert(parts[it.index()].1 == contents(entry.1));
                    assert(decreases_to!(whole => whole->Obj_0[it.index()].1));
                }
                let part = take_apart(entry.1);
                out.push((entry.0, part));
            }
            proof {
                assert(members(out@) =~= member_contents(all));
            }
            Json::Obj(JsonMap { entries: out })
        },
    }
}

/// `serde_json::to_string` on a string, which never fails: the string in double quotes, with
/// the quote, the backslash and the control characters below the space escaped.
#[verifier::external_body]
fn quote(s: &str) -> (r: String)
    ensures
        r@ == quoted(s@),
{
    serde_json::to_string(s).unwrap_or_default()
}

/// Reads JSON text.
pub fn parse_json(text: &str) -> (r: Option<Json>)
    ensures
        match r {
            Some(v) => parsed_json(text@) == Some(v@),
            None => parsed_json(text@) is None,
        },
{
    match parse_document(text) {
        Some(document) => Some(take_apart(document)),
        None => None,
    }
}

/// How a number is written.
pub open spec fn number_text(n: NumberView) -> Seq<char> {
    match n {
        NumberView::Int(i) => crate::text::decimal(i),
        NumberView::Float { bits, text } => text,
    }
}

/// The compact text of a value: no white space, members and items in order.
pub open spec fn json_text(v: JsonView) -> Seq<char>
    decreases v,
{
    match v {
        JsonView::Null => "null"@,
        JsonView::Bool(b) => if b {
            "true"@
        } else {
            "false"@
        },
        JsonView::Num(n) => number_text(n),
        JsonView::Str(s) => quoted(s),
        JsonView::Arr(items) => "["@ + items_text(items) + "]"@,
        JsonView::Obj(object) => "{"@ + members_text(object) + "}"@,
    }
}

/// The texts of `items`, with commas between them.
pub open spec fn items_text(items: Seq<JsonView>) -> Seq<char>
    decreases items,
{
    if items.len() == 0 {
        Seq::empty()
    } else if items.len() == 1 {
        json_text(items[0])
    } else {
        items_text(items.subrange(0, items.len() - 1)) + ","@ + json_text(items[items.len() - 1])
    }
}

/// The members of an object as `"key":value`, with commas between them.
pub open spec fn members_text(object: Seq<(Seq<char>, JsonView)>) -> Seq<char>
    decreases object,
{
    if object.len() == 0 {
        Seq::empty()
    } else if object.len() == 1 {
        quoted(object[0].0) + ":"@ + json_text(object[0].1)
    } else {
        members_text(object.subrange(0, object.len() - 1)) + ","@ + quoted(
            object[object.len() - 1].0,
        ) + ":"@ + json_text(object[object.len() - 1].1)
    }
}

fn write_items(items: &Vec<Json>) -> (r: String)
    ensures
        r@ == items_text(values(items@)),
    decreases items,
{
    let mut out = String::new();
    let mut i: usize = 0;
    while i < items.len()
        invariant
            i <= items.len(),
            out@ == items_text(values(items@).subrange(0, i as int)),
        decreases items.len() - i,
    {
        if i > 0 {
            out.append(",");
        }
        let piece = items[i].to_text();
        out.append(piece.as_str());
        proof {
            let all = values(items@).subrange(0, i + 1);
            assert(all.subrange(0, all.len() - 1) =~= values(items@).subrange(0, i as int));
            assert(all[all.len() - 1] == items@[i as int]@);
            assert(out@ =~= items_text(all));
        }
        i = i + 1;
    }
    proof {
        assert(values(items@).subrange(0, i as int) =~= values(items@));
    }
    out
}

fn write_members(entries: &Vec<(String, Json)>) -> (r: String)
    ensures
        r@ == members_text(members(entries@)),
    decreases entries,
{
    let mut out = String::new();
    let mut i: usize = 0;
    while i < entries.len()
        invariant
            i <= entries.len(),
            out@ == members_text(members(entries@).subrange(0, i as int)),
        decreases entries.len() - i,
    {
        if i > 0 {
            out.append(",");
        }
        let key = quote(entries[i].0.as_str());
        let value = entries[i].1.to_text();
        out.append(key.as_str());
        out.append(":");
        out.append(value.as_str());
        proof {
            let all = members(entries@).subrange(0, i + 1);
            assert(all.subrange(0, all.len() - 1) =~= members(entries@).subrange(0, i as int));
            assert(all[all.len() - 1] == (entries@[i as int].0@, entries@[i as int].1@));
            assert(out@ =~= members_text(all));
        }
        i = i + 1;
    }
    proof {
        assert(members(entries@).subrange(0, i as int) =~= members(entries@));
    }
    out
}

impl Json {
    /// The compact text of the value.
    pub fn to_text(&self) -> (r: String)
        ensures
            r@ == json_text(self@),
        decreases self,
    {
        broadcast use lemma_view;

        match self {
            Json::Null => "null".to_owned(),
            Json::Bool(b) => if *b {
                "true".to_owned()
            } else {
                "false".to_owned()
            },
            Json::Num(n) => match n {
                Number::PosInt(u) => decimal_u64(*u),
                Number::NegInt(i) => decimal_i64(*i),
                Number::Float { bits: _, text } => text.clone(),
            },
            Json::Str(s) => quote(s.as_str()),
            Json::Arr(items) => {
                let inner = write_items(items);
                concat3("[", inner.as_str(), "]")
            },
            Json::Obj(map) => {
                let inner = write_members(&map.entries);
                concat3("{", inner.as_str(), "}")
            },
        }
    }

    /// A string value.
    pub fn string(s: &str) -> (r: Json)
        ensures
            r@ == JsonView::Str(s@),
    {
        broadcast use lemma_view;

        Json::Str(s.to_owned())
    }

    /// An integer value.
    pub fn integer(n: i64) -> (r: Json)
        ensures
            r@ == JsonView::integer(n as int),
    {
        broadcast use lemma_view;

        if n >= 0 {
            Json::Num(Number::PosInt(n as u64))
        } else {
            Json::Num(Number::NegInt(n))
        }
    }

    /// A flag.
    pub fn boolean(b: bool) -> (r: Json)
        ensures
            r@ == JsonView::Bool(b),
    {
        broadcast use lemma_view;

        Json::Bool(b)
    }

    /// A count.
    pub fn unsigned(n: u64) -> (r: Json)
        ensures
            r@ == JsonView::integer(n as int),
    {
        broadcast use lemma_view;

        Json::Num(Number::PosInt(n))
    }

    /// A number.
    pub fn number(n: &Number) -> (r: Json)
        ensures
            r@ == JsonView::Num(n@),
    {
        broadcast use lemma_view;

        Json::Num(n.clone())
    }

    /// An array of values.
    pub fn array(items: Vec<Json>) -> (r: Json)
        ensures
            r@ == JsonView::Arr(values(items@)),
    {
        broadcast use lemma_view;

        Json::Arr(items)
    }

    /// An array of strings.
    pub fn strings(items: &Vec<String>) -> (r: Json)
        ensures
            r@ == JsonView::Arr(string_values(items@)),
    {
        let mut out: Vec<Json> = Vec::new();
        let mut i: usize = 0;
        while i < items.len()
            invariant
                i <= items.len(),
                out.len() == i,
                forall|j: int| 0 <= j < i ==> (#[trigger] out@[j])@ == JsonView::Str(items@[j]@),
            decreases items.len() - i,
        {
            out.push(Json::string(items[i].as_str()));
            i = i + 1;
        }
        proof {
            assert(values(out@) =~= string_values(items@));
        }
        Json::array(out)
    }

    /// A string, or null.
    pub fn opt_string(s: &Option<String>) -> (r: Json)
        ensures
            r@ == JsonView::opt_text(s.deep_view()),
    {
        broadcast use lemma_view;

        match s {
            Some(text) => Json::Str(text.clone()),
            None => Json::Null,
        }
    }

    /// An integer, or null.
    pub fn opt_int(n: Option<i64>) -> (r: Json)
        ensures
            r@ == JsonView::opt_int(n),
    {
        broadcast use lemma_view;

        match n {
            Some(i) => Json::integer(i),
            None => Json::Null,
        }
    }
}

impl Number {
    /// The number as an `i64`, where it is an integer in that range.
    pub fn as_i64(&self) -> (r: Option<i64>)
        ensures
            r == int_of(self@),
    {
        match self {
            Number::PosInt(u) => if *u <= 9223372036854775807 {
                Some(*u as i64)
            } else {
                None
            },
            Number::NegInt(i) => Some(*i),
            Number::Float { bits: _, text: _ } => None,
        }
    }
}

/// The `i64` a number stands for, where it is one.
pub open spec fn int_of(n: NumberView) -> Option<i64> {
    match n {
        NumberView::Int(i) => if i64::MIN <= i <= i64::MAX {
            Some(i as i64)
        } else {
            None
        },
        NumberView::Float { bits, text } => None,
    }
}

/// Whether a value is an object with a member of this name and value.
pub open spec fn has_member(value: JsonView, key: Seq<char>, member: JsonView) -> bool {
    value matches JsonView::Obj(object) && exists|i: int|
        0 <= i < object.len() && #[trigger] object[i] == (key, member)
}

/// Every member of an object is one of its members.
pub proof fn lemma_member(object: Seq<(Seq<char>, JsonView)>, i: int)
    requires
        0 <= i < object.len(),
    ensures
        has_member(JsonView::Obj(object), object[i].0, object[i].1),
{
    let member = object[i];
    assert(JsonView::Obj(object)->Obj_0[i] == (member.0, member.1));
}

/// A name gives the first member that has it, and nothing where no member does.
pub proof fn law_a_name_gives_its_first_member(
    object: Seq<(Seq<char>, JsonView)>,
    key: Seq<char>,
    i: int,
)
    ensures
        0 <= i < object.len() && object[i].0 == key && (forall|j: int|
            0 <= j < i ==> (#[trigger] object[j]).0 != key) ==> lookup(object, key) == Some(
            object[i].1,
        ),
        (forall|j: int| 0 <= j < object.len() ==> (#[trigger] object[j]).0 != key) ==> lookup(
            object,
            key,
        ) is None,
{
    if 0 <= i < object.len() && object[i].0 == key && (forall|j: int|
        0 <= j < i ==> (#[trigger] object[j]).0 != key) {
        lemma_lookup_skip(object, key, i);
        assert(object.subrange(i, object.len() as int)[0] == object[i]);
    }
    if forall|j: int| 0 <= j < object.len() ==> (#[trigger] object[j]).0 != key {
        lemma_lookup_skip(object, key, object.len() as int);
        assert(object.subrange(object.len() as int, object.len() as int).len() == 0);
    }
}

/// A number is an integer of this size where it is one, and nothing else is.
pub proof fn law_an_integer_is_itself(i: int, bits: u64, text: Seq<char>)
    ensures
        i64::MIN <= i <= i64::MAX ==> (int_of(NumberView::Int(i)) matches Some(n) && n == i),
        !(i64::MIN <= i <= i64::MAX) ==> int_of(NumberView::Int(i)) is None,
        int_of(NumberView::Float { bits, text }) is None,
{
}

/// Whether a character can stand in a JSON string as it is.
pub open spec fn plain(c: char) -> bool {
    c >= ' ' && c != '"' && c != '\\'
}

proof fn lemma_hex_digit(n: int)
    requires
        0 <= n < 16,
    ensures
        '0' <= hex_digit(n) <= '9' || 'a' <= hex_digit(n) <= 'f',
{
}

/// A character that can stand in a string as it is does. Any other starts with a backslash and
/// goes on with characters that can, or with the character itself where that is the quote or the
/// backslash.
pub proof fn law_only_what_must_be_is_escaped(c: char)
    ensures
        plain(c) ==> escaped(c) == seq![c],
        !plain(c) ==> escaped(c).len() >= 2 && escaped(c)[0] == '\\',
        c == '"' || c == '\\' ==> escaped(c) == seq!['\\', c],
        c == '\n' ==> escaped(c) == seq!['\\', 'n'],
        c == '\r' ==> escaped(c) == seq!['\\', 'r'],
        c == '\t' ==> escaped(c) == seq!['\\', 't'],
        c < ' ' ==> forall|i: int|
            1 <= i < escaped(c).len() ==> plain(#[trigger] escaped(c)[i]),
        forall|i: int| 0 <= i < escaped(c).len() ==> (#[trigger] escaped(c)[i]) >= ' ',
{
    let n = c as int;
    if n < 0x20 {
        lemma_hex_digit(n / 16);
        lemma_hex_digit(n % 16);
    }
}

/// A string is written on one line, whatever it holds: no character below the space is left.
pub proof fn law_a_string_is_written_on_one_line(s: Seq<char>)
    ensures
        forall|i: int| 0 <= i < quoted(s).len() ==> (#[trigger] quoted(s)[i]) >= ' ',
{
    lemma_no_control(s);
}

proof fn lemma_no_control(s: Seq<char>)
    ensures
        forall|i: int| 0 <= i < escaped_text(s).len() ==> (#[trigger] escaped_text(s)[i]) >= ' ',
    decreases s.len(),
{
    if s.len() > 0 {
        lemma_no_control(s.drop_last());
        law_only_what_must_be_is_escaped(s.last());
        let head = escaped_text(s.drop_last());
        let tail = escaped(s.last());
        assert forall|i: int| 0 <= i < escaped_text(s).len() implies (#[trigger] escaped_text(
            s,
        )[i]) >= ' ' by {
            if i < head.len() {
                assert(escaped_text(s)[i] == head[i]);
            } else {
                assert(escaped_text(s)[i] == tail[i - head.len()]);
            }
        }
    }
}

/// A string is written character by character, in their order, between two quotes.
pub proof fn law_a_string_is_written_in_order(a: Seq<char>, b: Seq<char>)
    ensures
        escaped_text(a + b) == escaped_text(a) + escaped_text(b),
        quoted(a) == seq!['"'] + escaped_text(a) + seq!['"'],
    decreases b.len(),
{
    if b.len() == 0 {
        assert(a + b =~= a);
        assert(escaped_text(a) + escaped_text(b) =~= escaped_text(a));
    } else {
        law_a_string_is_written_in_order(a, b.drop_last());
        assert((a + b).drop_last() =~= a + b.drop_last());
        assert(escaped_text(a) + escaped_text(b.drop_last()) + escaped(b.last())
            =~= escaped_text(a) + escaped_text(b));
    }
}

/// How the values are written: the three that have names by these, numbers in decimal, arrays
/// and objects in brackets and braces, with a comma between two items or members, and a colon
/// between a member's name and its value.
pub proof fn law_how_values_are_written(
    items: Seq<JsonView>,
    item: JsonView,
    object: Seq<(Seq<char>, JsonView)>,
    key: Seq<char>,
    i: int,
)
    ensures
        json_text(JsonView::Null) == "null"@,
        json_text(JsonView::Bool(true)) == "true"@,
        json_text(JsonView::Bool(false)) == "false"@,
        json_text(JsonView::integer(i)) == crate::text::decimal(i),
        json_text(JsonView::Arr(items)) == "["@ + items_text(items) + "]"@,
        json_text(JsonView::Obj(object)) == "{"@ + members_text(object) + "}"@,
        items.len() > 0 ==> items_text(items.push(item)) == items_text(items) + ","@ + json_text(
            item,
        ),
        items.len() == 0 ==> items_text(items.push(item)) == json_text(item),
        object.len() > 0 ==> members_text(object.push((key, item))) == members_text(object)
            + ","@ + quoted(key) + ":"@ + json_text(item),
        object.len() == 0 ==> members_text(object.push((key, item))) == quoted(key) + ":"@
            + json_text(item),
        items_text(Seq::empty()).len() == 0,
        members_text(Seq::empty()).len() == 0,
{
    let more = items.push(item);
    assert(more.subrange(0, more.len() - 1) =~= items);
    let wider = object.push((key, item));
    assert(wider.subrange(0, wider.len() - 1) =~= object);
    assert(wider[wider.len() - 1] == (key, item));
}

/// A control character without a letter of its own is written by its number, in two hexadecimal
/// digits behind two zeros.
pub proof fn law_a_control_character_is_written_by_its_number(c: char)
    requires
        c < ' ',
        c != '\u{8}' && c != '\t' && c != '\n' && c != '\u{c}' && c != '\r',
    ensures
        ({
            let n = c as int;
            let e = escaped(c);
            &&& e.len() == 6
            &&& e[0] == '\\' && e[1] == 'u' && e[2] == '0' && e[3] == '0'
            &&& e[4] == if n < 16 {
                '0'
            } else {
                '1'
            }
            &&& n % 16 < 10 ==> e[5] as int == '0' as int + n % 16
            &&& n % 16 >= 10 ==> e[5] as int == 'a' as int + n % 16 - 10
        }),
        escaped('\u{8}') == seq!['\\', 'b'],
        escaped('\u{c}') == seq!['\\', 'f'],
{
}

} // verus!
