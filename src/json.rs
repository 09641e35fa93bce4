use vstd::prelude::*;

verus! {

/// What a JSON pointer names in a document, as far as a weather answer is read.
pub enum JsonLeaf {
    /// A number: its value when it is an unsigned integer, and its text.
    Number { unsigned: Option<u64>, text: String },
    /// A string, unquoted and unescaped.
    Text(String),
    /// `null`, a boolean, an array or an object.
    Other,
}

/// The plain-value form of a `JsonLeaf`.
pub ghost enum LeafView {
    Number { unsigned: Option<u64>, text: Seq<char> },
    Text(Seq<char>),
    Other,
}

impl View for JsonLeaf {
    type V = LeafView;

    open spec fn view(&self) -> LeafView {
        match self {
            JsonLeaf::Number { unsigned, text } => LeafView::Number { unsigned: *unsigned, text: text@ },
            JsonLeaf::Text(s) => LeafView::Text(s@),
            JsonLeaf::Other => LeafView::Other,
        }
    }
}

pub open spec fn leaf_view(l: Option<JsonLeaf>) -> Option<LeafView> {
    match l {
        Some(v) => Some(v@),
        None => None,
    }
}

/// What the JSON pointer `pointer` names in the JSON text `text`; `None` when
/// the text is no JSON document or the pointer names nothing in it.
pub uninterp spec fn json_leaf_at(text: Seq<char>, pointer: Seq<char>) -> Option<LeafView>;

/// Relies on serde_json::from_str to parse the text, Value::pointer to look
/// the pointer up, and Number::as_u64 and Number's Display for a number.
#[verifier::external_body]
pub(crate) fn leaf_at(text: &str, pointer: &str) -> (r: Option<JsonLeaf>)
    ensures
        leaf_view(r) == json_leaf_at(text@, pointer@),
{
    let doc = serde_json::from_str::<serde_json::Value>(text).ok()?;
    match doc.pointer(pointer)? {
        serde_json::Value::Number(n) => Some(JsonLeaf::Number { unsigned: n.as_u64(), text: n.to_string() }),
        serde_json::Value::String(s) => Some(JsonLeaf::Text(s.clone())),
        serde_json::Value::Null
        | serde_json::Value::Bool(_)
        | serde_json::Value::Array(_)
        | serde_json::Value::Object(_) => Some(JsonLeaf::Other),
    }
}

/// The text of a number, if the leaf is one.
pub open spec fn number_text(l: Option<LeafView>) -> Option<Seq<char>> {
    match l {
        Some(LeafView::Number { text, .. }) => Some(text),
        _ => None,
    }
}

/// A percentage: an unsigned integer no greater than 100.
pub open spec fn percentage(l: Option<LeafView>) -> Option<u8> {
    match l {
        Some(LeafView::Number { unsigned: Some(u), .. }) => if u <= 100 {
            Some(u as u8)
        } else {
            None
        },
        _ => None,
    }
}

/// The content of a string leaf; empty for anything else.
pub open spec fn text_or_empty(l: Option<LeafView>) -> Seq<char> {
    match l {
        Some(LeafView::Text(s)) => s,
        _ => Seq::empty(),
    }
}

/// The text of a number leaf.
pub fn number_of(l: Option<JsonLeaf>) -> (r: Option<String>)
    ensures
        r matches Some(s) ==> number_text(leaf_view(l)) == Some(s@),
        r is None ==> number_text(leaf_view(l)) is None,
{
    match l {
        Some(JsonLeaf::Number { text, .. }) => Some(text),
        _ => None,
    }
}

/// The value of a percentage leaf.
pub fn percentage_of(l: &Option<JsonLeaf>) -> (r: Option<u8>)
    ensures
        r == percentage(leaf_view(*l)),
{
    match l {
        Some(JsonLeaf::Number { unsigned: Some(u), .. }) => if *u <= 100 {
            Some(*u as u8)
        } else {
            None
        },
        _ => None,
    }
}

/// The content of a string leaf, or the empty string.
pub fn text_of(l: Option<JsonLeaf>) -> (r: String)
    ensures
        r@ == text_or_empty(leaf_view(l)),
{
    match l {
        Some(JsonLeaf::Text(s)) => s,
        _ => String::new(),
    }
}

} // verus!
