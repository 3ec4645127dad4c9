//! JSON texts that are logged or kept beside objects.
use vstd::prelude::*;
use vstd::string::*;

use crate::text::{opt_text, views};

verus! {

/// A JSON value in an object.
#[derive(Debug)]
pub enum JsonLeaf {
    Text(String),
    Number(u64),
    Signed(i64),
    Flag(bool),
    Numbers(Vec<u32>),
    Texts(Vec<String>),
    /// A value that is JSON text already.
    Json(String),
    Nothing,
}

pub ghost enum LeafView {
    Text(Seq<char>),
    Number(u64),
    Signed(i64),
    Flag(bool),
    Numbers(Seq<u32>),
    Texts(Seq<Seq<char>>),
    Json(Seq<char>),
    Nothing,
}

impl View for JsonLeaf {
    type V = LeafView;

    open spec fn view(&self) -> LeafView {
        match self {
            JsonLeaf::Text(s) => LeafView::Text(s@),
            JsonLeaf::Number(n) => LeafView::Number(*n),
            JsonLeaf::Signed(n) => LeafView::Signed(*n),
            JsonLeaf::Flag(b) => LeafView::Flag(*b),
            JsonLeaf::Numbers(v) => LeafView::Numbers(v@),
            JsonLeaf::Texts(v) => LeafView::Texts(views(v@)),
            JsonLeaf::Json(t) => LeafView::Json(t@),
            JsonLeaf::Nothing => LeafView::Nothing,
        }
    }
}

/// A named JSON value. In an object with a group, the field stands in the
/// inner object of that name.
#[derive(Debug)]
pub struct JsonField {
    pub group: Option<String>,
    pub name: String,
    pub value: JsonLeaf,
}

pub ghost struct FieldView {
    pub group: Option<Seq<char>>,
    pub name: Seq<char>,
    pub value: LeafView,
}

impl View for JsonField {
    type V = FieldView;

    open spec fn view(&self) -> FieldView {
        FieldView {
            group: match self.group {
                Some(g) => Some(g@),
                None => None,
            },
            name: self.name@,
            value: self.value@,
        }
    }
}

/// The views of a list of fields.
pub open spec fn field_views(fields: Seq<JsonField>) -> Seq<FieldView> {
    fields.map_values(|f: JsonField| f@)
}

/// No field has the name of a group.
pub open spec fn no_clash(fields: Seq<FieldView>) -> bool {
    forall|i: int, j: int|
        #![trigger fields[i], fields[j]]
        0 <= i < fields.len() && 0 <= j < fields.len() && fields[i].group is None
            ==> fields[j].group != Some(fields[i].name)
}

/// The compact JSON text of an object with these fields.
pub uninterp spec fn json_object(fields: Seq<FieldView>) -> Seq<char>;

/// No two fields share both group and name.
pub open spec fn distinct_fields(fields: Seq<FieldView>) -> bool {
    forall|i: int, j: int|
        #![trigger fields[i], fields[j]]
        0 <= i < j < fields.len() ==> fields[i].group != fields[j].group || fields[i].name
            != fields[j].name
}

/// A name that does not start with a dollar sign. Of the others `serde_json`
/// keeps some for itself: an object that starts with one is not read as an object.
pub open spec fn ordinary(name: Seq<char>) -> bool {
    name.len() == 0 || name[0] != '$'
}

/// A field with an ordinary name, in a group with one, that holds no JSON text
/// from elsewhere, which may be nested too deep to be read inside another value.
pub open spec fn plain_field(f: FieldView) -> bool {
    &&& ordinary(f.name)
    &&& f.group matches Some(g) ==> ordinary(g)
    &&& !(f.value is Json)
}

/// Every field is plain.
pub open spec fn plain(fields: Seq<FieldView>) -> bool {
    forall|i: int| 0 <= i < fields.len() ==> plain_field(#[trigger] fields[i])
}

/// A member of a JSON object reads as the value that was written.
pub open spec fn leaf_reads(m: Option<Seq<char>>, v: LeafView) -> bool {
    m matches Some(t) && match v {
        LeafView::Text(s) => json_string(t) == Some(s),
        LeafView::Number(n) => json_number(t) == Some(n),
        LeafView::Numbers(ns) => json_elements(t) matches Some(e) && e.len() == ns.len() && (forall|
            k: int,
        |
            0 <= k < ns.len() ==> json_number(#[trigger] e[k]) == Some(ns[k] as u64)),
        _ => true,
    }
}

/// A field of a JSON object reads as it was written.
pub open spec fn field_reads(text: Seq<char>, f: FieldView) -> bool {
    match f.group {
        None => leaf_reads(json_member(text, f.name), f.value),
        Some(g) => json_member(text, g) matches Some(inner) && leaf_reads(
            json_member(inner, f.name),
            f.value,
        ),
    }
}

/// `serde_json::Value::to_string` of an object with these fields: a function
/// of the fields alone. An inner object and another value cannot share a name.
/// Where the fields are plain and no two share a name, each field reads back as
/// it was written.
#[verifier::external_body]
pub(crate) fn json_text(fields: &Vec<JsonField>) -> (s: String)
    requires
        no_clash(field_views(fields@)),
    ensures
        s@ == json_object(field_views(fields@)),
        plain(field_views(fields@)) && distinct_fields(field_views(fields@)) ==> forall|i: int|
            0 <= i < fields@.len() ==> #[trigger] field_reads(s@, field_views(fields@)[i]),
{
    let mut object = serde_json::Value::Object(serde_json::Map::new());
    for f in fields {
        let holder = if let Some(g) = &f.group { &mut object[g] } else { &mut object };
        holder[&f.name] = match &f.value {
            JsonLeaf::Text(s) => s.as_str().into(),
            &JsonLeaf::Number(n) => n.into(),
            &JsonLeaf::Signed(n) => n.into(),
            &JsonLeaf::Flag(b) => b.into(),
            JsonLeaf::Numbers(v) => v.as_slice().into(),
            JsonLeaf::Texts(v) => v.as_slice().into(),
            JsonLeaf::Json(t) => serde_json::from_str(t).unwrap_or_default(),
            JsonLeaf::Nothing => ().into(),
        };
    }
    object.to_string()
}

/// A field with a text.
pub fn text_field(name: &str, value: &str) -> (f: JsonField)
    ensures
        f@ == text_view(name@, value@),
{
    JsonField { group: None, name: name.to_owned(), value: JsonLeaf::Text(value.to_owned()) }
}

pub open spec fn text_view(name: Seq<char>, value: Seq<char>) -> FieldView {
    FieldView { group: None, name, value: LeafView::Text(value) }
}

/// A field with a number.
pub fn number_field(name: &str, value: u64) -> (f: JsonField)
    ensures
        f@ == number_view(name@, value),
{
    JsonField { group: None, name: name.to_owned(), value: JsonLeaf::Number(value) }
}

pub open spec fn number_view(name: Seq<char>, value: u64) -> FieldView {
    FieldView { group: None, name, value: LeafView::Number(value) }
}

/// A field with a number that may be negative.
pub fn signed_field(name: &str, value: i64) -> (f: JsonField)
    ensures
        f@ == signed_view(name@, value),
{
    JsonField { group: None, name: name.to_owned(), value: JsonLeaf::Signed(value) }
}

pub open spec fn signed_view(name: Seq<char>, value: i64) -> FieldView {
    FieldView { group: None, name, value: LeafView::Signed(value) }
}

/// A field with a truth value.
pub fn flag_field(name: &str, value: bool) -> (f: JsonField)
    ensures
        f@ == flag_view(name@, value),
{
    JsonField { group: None, name: name.to_owned(), value: JsonLeaf::Flag(value) }
}

pub open spec fn flag_view(name: Seq<char>, value: bool) -> FieldView {
    FieldView { group: None, name, value: LeafView::Flag(value) }
}

/// A field with a text, or with nothing.
pub fn opt_field(name: &str, value: &Option<String>) -> (f: JsonField)
    ensures
        f@ == opt_view(name@, opt_text(*value)),
{
    JsonField {
        group: None,
        name: name.to_owned(),
        value: match value {
            Some(t) => JsonLeaf::Text(t.clone()),
            None => JsonLeaf::Nothing,
        },
    }
}

pub open spec fn opt_view(name: Seq<char>, value: Option<Seq<char>>) -> FieldView {
    FieldView {
        group: None,
        name,
        value: match value {
            Some(t) => LeafView::Text(t),
            None => LeafView::Nothing,
        },
    }
}

/// A field with a value that is JSON text already.
pub fn json_field(name: &str, value: String) -> (f: JsonField)
    ensures
        f@ == json_view(name@, value@),
{
    JsonField { group: None, name: name.to_owned(), value: JsonLeaf::Json(value) }
}

pub open spec fn json_view(name: Seq<char>, value: Seq<char>) -> FieldView {
    FieldView { group: None, name, value: LeafView::Json(value) }
}

/// No field stands in an inner object.
pub open spec fn flat(fields: Seq<FieldView>) -> bool {
    forall|i: int| 0 <= i < fields.len() ==> (#[trigger] fields[i]).group is None
}

/// The JSON text of an object without inner objects.
pub fn object_of(fields: &Vec<JsonField>) -> (s: String)
    requires
        flat(field_views(fields@)),
    ensures
        s@ == json_object(field_views(fields@)),
        plain(field_views(fields@)) ==> object_text(s@),
{
    json_text(fields)
}

/// The JSON text of an object with one field.
pub fn object1(a: JsonField) -> (s: String)
    requires
        a@.group is None,
    ensures
        s@ == json_object(seq![a@]),
{
    let mut v: Vec<JsonField> = Vec::new();
    v.push(a);
    assert(field_views(v@) =~= seq![a@]);
    json_text(&v)
}

/// The JSON text of an object with two fields.
pub fn object2(a: JsonField, b: JsonField) -> (s: String)
    requires
        a@.group is None,
        b@.group is None,
    ensures
        s@ == json_object(seq![a@, b@]),
        plain_field(a@) && plain_field(b@) && a@.name != b@.name ==> field_reads(s@, a@)
            && field_reads(s@, b@),
        plain_field(a@) && plain_field(b@) ==> object_text(s@),
{
    let mut v: Vec<JsonField> = Vec::new();
    v.push(a);
    v.push(b);
    let ghost all = field_views(v@);
    assert(all =~= seq![a@, b@]);
    let s = json_text(&v);
    assert(all[0] == a@ && all[1] == b@);
    assert(a@.name != b@.name ==> distinct_fields(all));
    assert(plain_field(a@) && plain_field(b@) ==> plain(all));
    s
}

/// The JSON text of an object with three fields.
pub fn object3(a: JsonField, b: JsonField, c: JsonField) -> (s: String)
    requires
        a@.group is None,
        b@.group is None,
        c@.group is None,
    ensures
        s@ == json_object(seq![a@, b@, c@]),
{
    let mut v: Vec<JsonField> = Vec::new();
    v.push(a);
    v.push(b);
    v.push(c);
    assert(field_views(v@) =~= seq![a@, b@, c@]);
    json_text(&v)
}

/// The JSON text of an object without fields.
pub fn object0() -> (s: String)
    ensures
        s@ == json_object(Seq::empty()),
{
    let v: Vec<JsonField> = Vec::new();
    assert(field_views(v@) =~= Seq::<FieldView>::empty());
    json_text(&v)
}

// ---------------------------------------------------------------------------
// Reading
// ---------------------------------------------------------------------------

/// The JSON text of a member of the object in a JSON text.
pub uninterp spec fn json_member(text: Seq<char>, name: Seq<char>) -> Option<Seq<char>>;

/// The text that a JSON text holds, where it holds a string.
pub uninterp spec fn json_string(text: Seq<char>) -> Option<Seq<char>>;

/// The number that a JSON text holds, where it holds one that fits.
pub uninterp spec fn json_number(text: Seq<char>) -> Option<u64>;

/// The JSON texts of the elements, where a JSON text holds an array.
pub uninterp spec fn json_elements(text: Seq<char>) -> Option<Seq<Seq<char>>>;

/// The JSON texts of the items of the list that a JSON text holds, or what is
/// wrong with the text.
pub uninterp spec fn json_list(text: Seq<char>) -> Result<Seq<Seq<char>>, Seq<char>>;

/// The text under a name in the object that JSON bytes hold.
pub uninterp spec fn json_bytes_string(bytes: Seq<u8>, name: Seq<char>) -> Option<Seq<char>>;

/// `serde_json::Value::get` on the value in a JSON text; `None` where the text
/// is not JSON or has no such member.
#[verifier::external_body]
pub(crate) fn member(text: &str, name: &str) -> (r: Option<String>)
    ensures
        opt_text(r) == json_member(text@, name@),
{
    let value: serde_json::Value = serde_json::from_str(text).ok()?;
    value.get(name).map(|v| v.to_string())
}

/// `serde_json::Value::as_str` on the value in a JSON text.
#[verifier::external_body]
pub(crate) fn as_text(text: &str) -> (r: Option<String>)
    ensures
        opt_text(r) == json_string(text@),
{
    let value: serde_json::Value = serde_json::from_str(text).ok()?;
    value.as_str().map(|s| s.to_string())
}

/// `serde_json::Value::as_u64` on the value in a JSON text.
#[verifier::external_body]
pub(crate) fn as_number(text: &str) -> (r: Option<u64>)
    ensures
        r == json_number(text@),
{
    let value: serde_json::Value = serde_json::from_str(text).ok()?;
    value.as_u64()
}

/// `serde_json::Value::as_array` on the value in a JSON text, each element as JSON text.
#[verifier::external_body]
pub(crate) fn elements(text: &str) -> (r: Option<Vec<String>>)
    ensures
        match r {
            Some(v) => json_elements(text@) == Some(views(v@)),
            None => json_elements(text@) is None,
        },
{
    let value: serde_json::Value = serde_json::from_str(text).ok()?;
    value.as_array().map(|a| a.iter().map(|v| v.to_string()).collect())
}

/// `serde_json::from_str` into a value and `serde_json::from_value` into a list
/// of values, each as JSON text; where one fails, the text of its error.
#[verifier::external_body]
pub(crate) fn list_items(text: &str) -> (r: Result<Vec<String>, String>)
    ensures
        match r {
            Ok(v) => json_list(text@) == Ok::<Seq<Seq<char>>, Seq<char>>(views(v@)),
            Err(e) => json_list(text@) == Err::<Seq<Seq<char>>, Seq<char>>(e@),
        },
{
    let value: serde_json::Value = serde_json::from_str(text).map_err(|e| e.to_string())?;
    let list: Vec<serde_json::Value> =
        serde_json::from_value(value).map_err(|e| e.to_string())?;
    Ok(list.iter().map(|v| v.to_string()).collect())
}

/// `serde_json::from_slice`, then `Value::get` and `Value::as_str`.
#[verifier::external_body]
pub(crate) fn bytes_text(bytes: &[u8], name: &str) -> (r: Option<String>)
    ensures
        opt_text(r) == json_bytes_string(bytes@, name@),
{
    let value: serde_json::Value = serde_json::from_slice(bytes).ok()?;
    value.get(name).and_then(|v| v.as_str()).map(|s| s.to_string())
}

/// The text of a member of a JSON object, or a stand-in.
pub open spec fn member_text(object: Seq<char>, name: Seq<char>, stand_in: Seq<char>) -> Seq<char> {
    match json_member(object, name) {
        None => stand_in,
        Some(v) => match json_string(v) {
            None => stand_in,
            Some(t) => t,
        },
    }
}

/// The text of a member of a JSON object, or a stand-in.
pub fn text_member(object: &str, name: &str, stand_in: &str) -> (s: String)
    ensures
        s@ == member_text(object@, name@, stand_in@),
{
    match member(object, name) {
        None => stand_in.to_owned(),
        Some(v) => match as_text(v.as_str()) {
            None => stand_in.to_owned(),
            Some(t) => t,
        },
    }
}

/// A text that is the JSON text of an object with plain fields.
pub open spec fn object_text(t: Seq<char>) -> bool {
    exists|f: Seq<FieldView>| no_clash(f) && plain(f) && t == #[trigger] json_object(f)
}

/// A JSON text holds the list of these items.
pub open spec fn lists(text: Seq<char>, items: Seq<Seq<char>>) -> bool {
    json_list(text) == Ok::<Seq<Seq<char>>, Seq<char>>(items)
}

/// The JSON text of an array with these elements.
pub uninterp spec fn json_array(elements: Seq<Seq<char>>) -> Seq<char>;

/// `serde_json::Value::to_string` of an array of objects with plain fields: a
/// function of their JSON texts alone, from which those texts are read back.
#[verifier::external_body]
pub(crate) fn array_text(objects: &Vec<String>) -> (s: String)
    requires
        forall|i: int| 0 <= i < objects@.len() ==> object_text((#[trigger] objects@[i])@),
    ensures
        s@ == json_array(views(objects@)),
        lists(s@, views(objects@)),
{
    let values = objects.iter().map(|o| serde_json::from_str(o).unwrap_or_default());
    serde_json::Value::Array(values.collect()).to_string()
}

} // verus!
