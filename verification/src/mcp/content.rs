//! The result of a tool call: one piece of text, and whether the call failed.

use vstd::prelude::*;

use crate::json::{Json, JsonMap, JsonView};

verus! {

/// One piece of content.
#[derive(Debug, PartialEq, Eq)]
pub enum Content {
    Text { text: String },
}

/// What a tool call returns. A failed operation is still a result: `is_error` says so,
/// and the text holds the error.
#[derive(Debug, PartialEq, Eq)]
pub struct CallToolResult {
    pub content: Vec<Content>,
    pub is_error: bool,
}

impl CallToolResult {
    /// The one text of the result is `text`.
    pub open spec fn holds(self, text: Seq<char>) -> bool {
        &&& self.content@.len() == 1
        &&& self.content@[0]->text@ == text
    }
}

/// A successful result: the value's compact text.
pub fn ok(value: &Json) -> (r: CallToolResult)
    ensures
        r.holds(crate::json::json_text(value@)),
        !r.is_error,
{
    let text = value.to_text();
    CallToolResult { content: vec![Content::Text { text }], is_error: false }
}

/// A failed operation: the compact text of its error envelope.
pub fn err(envelope: &Json) -> (r: CallToolResult)
    ensures
        r.holds(crate::json::json_text(envelope@)),
        r.is_error,
{
    let text = envelope.to_text();
    CallToolResult { content: vec![Content::Text { text }], is_error: true }
}

/// One piece of content: its type first where it is written on its own, its members in the
/// order of their keys inside a response.
pub open spec fn piece_value(text: Seq<char>, in_response: bool) -> JsonView {
    if in_response {
        JsonView::Obj(
            crate::json::nothing().push(("text"@, JsonView::Str(text))).push(
                ("type"@, JsonView::Str("text"@)),
            ),
        )
    } else {
        JsonView::Obj(
            crate::json::nothing().push(("type"@, JsonView::Str("text"@))).push(
                ("text"@, JsonView::Str(text)),
            ),
        )
    }
}

/// A result as a value: its pieces of content, then whether the call failed.
pub open spec fn result_value(
    content: Seq<Content>,
    is_error: bool,
    in_response: bool,
) -> JsonView {
    JsonView::Obj(
        crate::json::nothing().push(
            (
                "content"@,
                JsonView::Arr(
                    Seq::new(
                        content.len(),
                        |i: int| piece_value(content[i]->text@, in_response),
                    ),
                ),
            ),
        ).push(("isError"@, JsonView::Bool(is_error))),
    )
}

fn piece(text: &str, in_response: bool) -> (r: Json)
    ensures
        r@ == piece_value(text@, in_response),
{
    if in_response {
        JsonMap::new().with("text", Json::string(text)).with("type", Json::string("text")).json()
    } else {
        JsonMap::new().with("type", Json::string("text")).with("text", Json::string(text)).json()
    }
}

impl CallToolResult {
    fn as_json(&self, in_response: bool) -> (r: Json)
        ensures
            r@ == result_value(self.content@, self.is_error, in_response),
    {
        let mut pieces: Vec<Json> = Vec::new();
        let mut i: usize = 0;
        while i < self.content.len()
            invariant
                i <= self.content.len(),
                pieces.len() == i,
                forall|j: int|
                    0 <= j < i ==> (#[trigger] pieces@[j])@ == piece_value(
                        self.content@[j]->text@,
                        in_response,
                    ),
            decreases self.content.len() - i,
        {
            let Content::Text { text } = &self.content[i];
            pieces.push(piece(text.as_str(), in_response));
            i = i + 1;
        }
        proof {
            assert(crate::json::values(pieces@) =~= Seq::new(
                self.content@.len(),
                |i: int| piece_value(self.content@[i]->text@, in_response),
            ));
        }
        JsonMap::new().with("content", Json::array(pieces)).with(
            "isError",
            Json::boolean(self.is_error),
        ).json()
    }

    /// The result written on its own: its members in the order of their declaration.
    pub fn to_text(&self) -> (r: String)
        ensures
            r@ == crate::json::json_text(result_value(self.content@, self.is_error, false)),
    {
        self.as_json(false).to_text()
    }

    /// The result as it stands in a response.
    pub fn to_value(&self) -> (r: Json)
        ensures
            r@ == result_value(self.content@, self.is_error, true),
    {
        self.as_json(true)
    }
}

/// A piece of content says that it is text, and which, in whatever order it is written.
pub proof fn law_a_piece_is_its_text(text: Seq<char>, in_response: bool)
    ensures
        ({
            let value = piece_value(text, in_response);
            &&& crate::json::has_member(value, "type"@, JsonView::Str("text"@))
            &&& crate::json::has_member(value, "text"@, JsonView::Str(text))
            &&& (value->Obj_0).len() == 2
        }),
{
    let o = piece_value(text, in_response)->Obj_0;
    crate::json::lemma_member(o, 0);
    crate::json::lemma_member(o, 1);
}

/// A result holds all its pieces, in their order, and says whether the call failed.
pub proof fn law_a_result_says_whether_it_failed(
    content: Seq<Content>,
    is_error: bool,
    in_response: bool,
)
    ensures
        ({
            let value = result_value(content, is_error, in_response);
            let pieces = (value->Obj_0)[0].1->Arr_0;
            &&& crate::json::has_member(value, "content"@, JsonView::Arr(pieces))
            &&& pieces.len() == content.len()
            &&& forall|i: int|
                0 <= i < content.len() ==> #[trigger] pieces[i] == piece_value(
                    content[i]->text@,
                    in_response,
                )
            &&& crate::json::has_member(value, "isError"@, JsonView::Bool(is_error))
            &&& (value->Obj_0).len() == 2
        }),
{
    let o = result_value(content, is_error, in_response)->Obj_0;
    crate::json::lemma_member(o, 0);
    crate::json::lemma_member(o, 1);
}

} // verus!
