//! JSON documents as trees of plain values.
//!
//! Reading JSON text and writing it is left to `serde_json`; what this module
//! holds is the tree that comes out, and the questions the rest of the crate
//! asks of it.

use crate::text::{chars_of, first_index, parse_signed, str_eq};
use vstd::prelude::*;

verus! {

/// A JSON document.
///
/// A number is kept as the text that writes it. The members of an object
/// stand in the order in which they were given.
#[derive(Debug, PartialEq, Eq)]
pub enum JsonValue {
    Null,
    Bool(bool),
    Number(String),
    String(String),
    Array(Vec<JsonValue>),
    Object(Vec<JsonMember>),
}

/// A member of a JSON object.
#[derive(Debug, PartialEq, Eq)]
pub struct JsonMember {
    pub name: String,
    pub value: JsonValue,
}

/// The mathematical value of a JSON document.
pub enum JsonView {
    Null,
    Bool(bool),
    Number(Seq<char>),
    String(Seq<char>),
    Array(Seq<JsonView>),
    Object(Seq<(Seq<char>, JsonView)>),
}

/// The mathematical value of a member: its name and the value under it.
pub open spec fn member_view(member: JsonMember) -> (Seq<char>, JsonView)
    decreases member,
{
    (member.name@, json_view(member.value))
}

/// The mathematical value of a document.
pub open spec fn json_view(value: JsonValue) -> JsonView
    decreases value,
{
    match value {
        JsonValue::Null => JsonView::Null,
        JsonValue::Bool(b) => JsonView::Bool(b),
        JsonValue::Number(n) => JsonView::Number(n@),
        JsonValue::String(s) => JsonView::String(s@),
        JsonValue::Array(items) => JsonView::Array(
            Seq::new(
                items@.len(),
                |i: int|
                    if 0 <= i < items@.len() {
                        json_view(items@[i])
                    } else {
                        JsonView::Null
                    },
            ),
        ),
        JsonValue::Object(members) => JsonView::Object(
            Seq::new(
                members@.len(),
                |i: int|
                    if 0 <= i < members@.len() {
                        member_view(members@[i])
                    } else {
                        (Seq::empty(), JsonView::Null)
                    },
            ),
        ),
    }
}

impl View for JsonMember {
    type V = (Seq<char>, JsonView);

    open spec fn view(&self) -> (Seq<char>, JsonView) {
        member_view(*self)
    }
}

impl View for JsonValue {
    type V = JsonView;

    open spec fn view(&self) -> JsonView {
        json_view(*self)
    }
}

impl JsonView {
    /// The names of the members of an object; empty for any other value.
    pub open spec fn keys(self) -> Seq<Seq<char>> {
        match self {
            JsonView::Object(members) => members.map_values(|m: (Seq<char>, JsonView)| m.0),
            _ => Seq::empty(),
        }
    }

    /// The first member of an object that is named `key`.
    pub open spec fn member(self, key: Seq<char>) -> Option<JsonView> {
        match self {
            JsonView::Object(members) => match first_index(self.keys(), key) {
                Some(i) => Some(members[i].1),
                None => None,
            },
            _ => None,
        }
    }
}

/// The integer that the text of a JSON number writes, if it writes one that
/// fits 64 bits: an optional `-`, then digits without a leading zero; `0`
/// stands alone and takes no sign.
pub open spec fn integer_of(text: Seq<char>) -> Option<int> {
    let digits = if text.len() > 0 && text[0] == '-' {
        text.skip(1)
    } else {
        text
    };
    if text.len() > 0 && text[0] != '+' && digits.len() > 0 && (digits[0] != '0' || text.len()
        == 1) {
        parse_signed(text, i64::MIN as int, i64::MAX as int)
    } else {
        None
    }
}

impl JsonView {
    /// The text of a string; nothing for any other value.
    pub open spec fn text(self) -> Option<Seq<char>> {
        match self {
            JsonView::String(s) => Some(s),
            _ => None,
        }
    }

    /// The integer of a number that is one and fits 64 bits; nothing for any
    /// other value.
    pub open spec fn integer(self) -> Option<int> {
        match self {
            JsonView::Number(n) => integer_of(n),
            _ => None,
        }
    }

    /// The items of an array; nothing for any other value.
    pub open spec fn items(self) -> Option<Seq<JsonView>> {
        match self {
            JsonView::Array(items) => Some(items),
            _ => None,
        }
    }
}

impl Clone for JsonValue {
    #[verifier::loop_isolation(false)]
    fn clone(&self) -> (r: JsonValue)
        ensures
            r@ == self@,
        decreases self,
    {
        match self {
            JsonValue::Null => JsonValue::Null,
            JsonValue::Bool(b) => JsonValue::Bool(*b),
            JsonValue::Number(n) => JsonValue::Number(n.clone()),
            JsonValue::String(s) => JsonValue::String(s.clone()),
            JsonValue::Array(items) => {
                let mut out: Vec<JsonValue> = Vec::new();
                let mut i: usize = 0;
                while i < items.len()
                    invariant
                        i <= items@.len(),
                        out@.len() == i,
                        forall|j: int| 0 <= j < i ==> out@[j]@ == items@[j]@,
                    decreases items.len() - i,
                {
                    out.push(items[i].clone());
                    i += 1;
                }
                let r = JsonValue::Array(out);
                assert(r@->Array_0 =~= self@->Array_0);
                r
            },
            JsonValue::Object(members) => {
                let mut out: Vec<JsonMember> = Vec::new();
                let mut i: usize = 0;
                while i < members.len()
                    invariant
                        i <= members@.len(),
                        out@.len() == i,
                        forall|j: int|
                            0 <= j < i ==> out@[j]@ == members@[j]@,
                    decreases members.len() - i,
                {
                    let member = JsonMember {
                        name: members[i].name.clone(),
                        value: members[i].value.clone(),
                    };
                    out.push(member);
                    i += 1;
                }
                let r = JsonValue::Object(out);
                assert(r@->Object_0 =~= self@->Object_0);
                r
            },
        }
    }
}

impl JsonValue {
    /// The view of an object holds the views of its members, in their order.
    pub proof fn lemma_object_view(members: Vec<JsonMember>)
        ensures
            JsonValue::Object(members)@ is Object,
            JsonValue::Object(members)@->Object_0.len() == members@.len(),
            forall|j: int|
                0 <= j < members@.len() ==> (#[trigger] JsonValue::Object(
                    members,
                )@->Object_0[j]) == members@[j]@,
    {
    }

    /// The view of an array holds the views of its items, in their order.
    pub proof fn lemma_array_view(items: Vec<JsonValue>)
        ensures
            JsonValue::Array(items)@ is Array,
            JsonValue::Array(items)@->Array_0.len() == items@.len(),
            forall|j: int|
                0 <= j < items@.len() ==> (#[trigger] JsonValue::Array(items)@->Array_0[j])
                    == items@[j]@,
    {
    }

    /// Whether the document is `null`.
    pub fn is_null(&self) -> (b: bool)
        ensures
            b == (self@ is Null),
    {
        match self {
            JsonValue::Null => true,
            _ => false,
        }
    }

    /// Whether the document is an object.
    pub fn is_object(&self) -> (b: bool)
        ensures
            b == (self@ is Object),
    {
        match self {
            JsonValue::Object(_) => true,
            _ => false,
        }
    }

    /// The text of a string document.
    pub fn as_str(&self) -> (r: Option<&str>)
        ensures
            match r {
                Some(s) => self@ == JsonView::String(s@),
                None => !(self@ is String),
            },
    {
        match self {
            JsonValue::String(s) => Some(s.as_str()),
            _ => None,
        }
    }

    /// The items of an array document.
    pub fn as_array(&self) -> (r: Option<&Vec<JsonValue>>)
        ensures
            match r {
                Some(items) => self == JsonValue::Array(*items),
                None => !(self@ is Array),
            },
    {
        match self {
            JsonValue::Array(items) => Some(items),
            _ => None,
        }
    }

    /// The first member of an object document that is named `key`.
    #[verifier::loop_isolation(false)]
    pub fn get(&self, key: &str) -> (r: Option<&JsonValue>)
        ensures
            match r {
                Some(v) => self@.member(key@) == Some(v@),
                None => self@.member(key@) is None,
            },
    {
        match self {
            JsonValue::Object(members) => {
                let ghost keys = self@.keys();
                proof {
                    JsonValue::lemma_object_view(*members);
                }
                let mut i: usize = 0;
                while i < members.len()
                    invariant
                        forall|j: int| 0 <= j < i && j < keys.len() ==> keys[j] != key@,
                    decreases members.len() - i,
                {
                    if str_eq(members[i].name.as_str(), key) {
                        proof {
                            crate::text::lemma_first_index_from_is(keys, key@, 0, i as int);
                        }
                        return Some(&members[i].value);
                    }
                    i += 1;
                }
                proof {
                    crate::text::lemma_first_index_from_none(keys, key@, 0);
                }
                None
            },
            _ => None,
        }
    }

    /// The integer of a number document that is one and fits 64 bits.
    pub fn as_i64(&self) -> (r: Option<i64>)
        ensures
            match r {
                Some(n) => self@.integer() == Some(n as int),
                None => self@.integer() is None,
            },
    {
        match self {
            JsonValue::Number(text) => {
                let chars = chars_of(text.as_str());
                let n = chars.len();
                if n == 0 || chars[0] == '+' {
                    return None;
                }
                let first: usize = if chars[0] == '-' {
                    1
                } else {
                    0
                };
                if first >= n {
                    return None;
                }
                if chars[first] == '0' && n != 1 {
                    return None;
                }
                crate::text::parse_i64(chars.as_slice())
            },
            _ => None,
        }
    }

    /// The number of items of an array document.
    pub fn array_len(&self) -> (r: Option<usize>)
        ensures
            match r {
                Some(n) => self@.items() matches Some(items) && items.len() == n,
                None => self@.items() is None,
            },
    {
        match self {
            JsonValue::Array(items) => {
                proof {
                    JsonValue::lemma_array_view(*items);
                }
                Some(items.len())
            },
            _ => None,
        }
    }

    /// The item of an array document at `index`.
    pub fn item(&self, index: usize) -> (r: Option<&JsonValue>)
        ensures
            match r {
                Some(v) => self@.items() matches Some(items) && index < items.len()
                    && items[index as int] == v@,
                None => match self@.items() {
                    Some(items) => index >= items.len(),
                    None => true,
                },
            },
    {
        match self {
            JsonValue::Array(items) => {
                proof {
                    JsonValue::lemma_array_view(*items);
                }
                if index < items.len() {
                    Some(&items[index])
                } else {
                    None
                }
            },
            _ => None,
        }
    }

    /// Reads a document out of JSON text; on failure the error is the message
    /// of the reader.
    pub fn from_text(text: &str) -> (r: Result<JsonValue, String>)
        ensures
            match r {
                Ok(v) => crate::bridge::json_document(text@) == Ok::<JsonView, Seq<char>>(v@),
                Err(e) => crate::bridge::json_document(text@) == Err::<JsonView, Seq<char>>(e@),
            },
    {
        crate::bridge::json_parse(text)
    }

    /// The document as compact JSON text.
    pub fn to_text(&self) -> (s: String)
        ensures
            s@ == crate::bridge::json_text_of(self@),
    {
        crate::bridge::json_text(self)
    }
}

} // verus!
