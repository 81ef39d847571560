//! JSON documents, as far as status pages need them.

use crate::patterns;
use crate::text::{self, copy_opt, same};
use vstd::prelude::*;

verus! {

/// One member of a JSON object.
#[derive(Debug, Clone)]
pub struct JsonField {
    pub name: String,
    /// The value, if it is a string.
    pub text: Option<String>,
    /// The value in digits, if it is a number.
    pub number: Option<String>,
    /// The value, if it is a whole number that is not negative.
    pub whole: Option<u64>,
}

/// What a [`JsonField`] holds.
pub struct JsonFieldView {
    pub name: Seq<char>,
    pub text: Option<Seq<char>>,
    pub number: Option<Seq<char>>,
    pub whole: Option<u64>,
}

impl View for JsonField {
    type V = JsonFieldView;

    open spec fn view(&self) -> JsonFieldView {
        JsonFieldView {
            name: self.name@,
            text: text::text_opt(self.text),
            number: text::text_opt(self.number),
            whole: self.whole,
        }
    }
}

/// What a list of members holds.
pub open spec fn field_views(fields: Seq<JsonField>) -> Seq<JsonFieldView> {
    Seq::new(fields.len(), |i: int| fields[i]@)
}

/// What the members of a document hold, if it could be read.
pub open spec fn document_view(d: Option<Vec<JsonField>>) -> Option<Seq<JsonFieldView>> {
    match d {
        Some(fields) => Some(field_views(fields@)),
        None => None,
    }
}

/// The members of a JSON document, as `serde_json` reads it.
pub uninterp spec fn json_members(text: Seq<char>) -> Option<Seq<JsonFieldView>>;

/// A string member of each element of a JSON array, as `serde_json` reads it.
pub uninterp spec fn json_column(text: Seq<char>, member: Seq<char>) -> Option<
    Seq<Option<Seq<char>>>,
>;

/// The string at a place in a JSON document, as `serde_json` reads it.
pub uninterp spec fn json_text_at(text: Seq<char>, pointer: Seq<char>) -> Option<Seq<char>>;

/// `serde_json::from_str`, then `Value::as_object`: the members of the top-level object with
/// their string, number and unsigned values, in the order in which the crate walks them;
/// none for a document of another kind, and `None` for text that is no JSON, as empty text
/// is not. The rest of the grammar is left to the crate: the result is only named.
#[verifier::external_body]
pub(crate) fn read_members(text: &str) -> (r: Option<Vec<JsonField>>)
    ensures
        document_view(r) == json_members(text@),
        text@.len() == 0 ==> r is None,
{
    let v: serde_json::Value = serde_json::from_str(text).ok()?;
    Some(v.as_object().map(|o| o.iter().map(|(k, x)| JsonField {
        name: k.clone(),
        text: x.as_str().map(|s| s.to_string()),
        number: x.as_number().map(|n| n.to_string()),
        whole: x.as_u64(),
    }).collect()).unwrap_or_default())
}

/// The texts of a column.
pub open spec fn column_view(c: Option<Vec<Option<String>>>) -> Option<Seq<Option<Seq<char>>>> {
    match c {
        Some(list) => Some(patterns::group_texts(list@)),
        None => None,
    }
}

/// `serde_json::from_str`, then `Value::as_array` and on each element `Value::get` and
/// `Value::as_str`: one entry for each element of a top-level array, `None` where it has no
/// such string member. `None` for text that is no JSON array. The result is only named.
#[verifier::external_body]
pub(crate) fn read_column(text: &str, member: &str) -> (r: Option<Vec<Option<String>>>)
    ensures
        column_view(r) == json_column(text@, member@),
{
    let v: serde_json::Value = serde_json::from_str(text).ok()?;
    let list = v.as_array()?;
    Some(list.iter().map(
        |x| x.get(member).and_then(|s| s.as_str()).map(|s| s.to_string()),
    ).collect())
}

/// `serde_json::from_str`, then `Value::pointer` and `Value::as_str`: the string at a place
/// in a document. `None` for text that is no JSON, and without a string there. The result is
/// only named.
#[verifier::external_body]
pub(crate) fn read_text_at(text: &str, pointer: &str) -> (r: Option<String>)
    ensures
        text::text_opt(r) == json_text_at(text@, pointer@),
{
    let v: serde_json::Value = serde_json::from_str(text).ok()?;
    v.pointer(pointer).and_then(|x| x.as_str()).map(|s| s.to_string())
}

/// The member of a name.
pub open spec fn member_named(fields: Seq<JsonFieldView>, name: Seq<char>) -> Option<JsonFieldView>
    decreases fields.len(),
{
    if fields.len() == 0 {
        None
    } else if fields[0].name == name {
        Some(fields[0])
    } else {
        member_named(fields.drop_first(), name)
    }
}

/// The string value of a member.
pub open spec fn member_text(fields: Seq<JsonFieldView>, name: Seq<char>) -> Option<Seq<char>> {
    match member_named(fields, name) {
        Some(f) => f.text,
        None => None,
    }
}

/// The unsigned value of a member.
pub open spec fn member_whole(fields: Seq<JsonFieldView>, name: Seq<char>) -> Option<u64> {
    match member_named(fields, name) {
        Some(f) => f.whole,
        None => None,
    }
}

fn find_member(fields: &Vec<JsonField>, name: &str) -> (r: Option<usize>)
    ensures
        r matches Some(i) ==> i < fields@.len() && member_named(field_views(fields@), name@)
            == Some(fields@[i as int]@),
        r is None ==> member_named(field_views(fields@), name@) is None,
{
    let ghost all = field_views(fields@);
    let mut i: usize = 0;
    assert(all.skip(0) =~= all);
    while i < fields.len()
        invariant
            i <= fields@.len(),
            all == field_views(fields@),
            member_named(all, name@) == member_named(all.skip(i as int), name@),
        decreases fields@.len() - i,
    {
        assert(all.skip(i as int).drop_first() =~= all.skip(i + 1));
        assert(all.skip(i as int)[0] == fields@[i as int]@);
        if same(&fields[i].name, name) {
            return Some(i);
        }
        i += 1;
    }
    None
}

pub fn text_member(fields: &Vec<JsonField>, name: &str) -> (r: Option<String>)
    ensures
        text::text_opt(r) == member_text(field_views(fields@), name@),
{
    match find_member(fields, name) {
        Some(i) => copy_opt(&fields[i].text),
        None => None,
    }
}

pub fn whole_member(fields: &Vec<JsonField>, name: &str) -> (r: Option<u64>)
    ensures
        r == member_whole(field_views(fields@), name@),
{
    match find_member(fields, name) {
        Some(i) => fields[i].whole,
        None => None,
    }
}

/// The member of a name is the first that has it.
pub proof fn law_first_member(fields: Seq<JsonFieldView>, name: Seq<char>, i: int)
    requires
        0 <= i < fields.len(),
        fields[i].name == name,
        forall|j: int| 0 <= j < i ==> (#[trigger] fields[j]).name != name,
    ensures
        member_text(fields, name) == fields[i].text,
        member_whole(fields, name) == fields[i].whole,
    decreases i,
{
    if i > 0 {
        assert(fields[0].name != name);
        let rest = fields.drop_first();
        assert(forall|j: int| 0 <= j < rest.len() ==> #[trigger] rest[j] == fields[j + 1]);
        law_first_member(rest, name, i - 1);
    }
}

/// A name that no member has gives nothing.
pub proof fn law_no_member(fields: Seq<JsonFieldView>, name: Seq<char>)
    requires
        forall|j: int| 0 <= j < fields.len() ==> (#[trigger] fields[j]).name != name,
    ensures
        member_text(fields, name) is None,
        member_whole(fields, name) is None,
    decreases fields.len(),
{
    if fields.len() > 0 {
        assert(fields[0].name != name);
        let rest = fields.drop_first();
        assert(forall|j: int| 0 <= j < rest.len() ==> #[trigger] rest[j] == fields[j + 1]);
        law_no_member(rest, name);
    }
}

} // verus!
