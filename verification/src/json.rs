//! JSON values: flat objects are written and read here, other values are carried through.
use crate::form::lookup;
use crate::text::decimal;
use serde::Serializer;
use vstd::prelude::*;
use vstd::utf8::encode_utf8;

verus! {

/// Declares `serde_json::Value`, which is carried as it came.
#[verifier::external_type_specification]
#[verifier::external_body]
pub struct ExValue(serde_json::Value);

/// Declares `serde_json::Map`, which is carried as it came.
#[verifier::external_type_specification]
#[verifier::external_body]
#[verifier::reject_recursive_types(K)]
#[verifier::reject_recursive_types(V)]
pub struct ExJsonMap<K, V>(serde_json::Map<K, V>);

/// What a JSON value holds, as its compact rendering.
pub uninterp spec fn json_text(v: serde_json::Value) -> Seq<char>;

/// A text as a JSON string, in quotes and with what needs it escaped.
pub uninterp spec fn json_string(s: Seq<char>) -> Seq<char>;

/// The compact rendering of the object that has these fields, in the order that
/// `serde_json::Map` keeps.
pub uninterp spec fn json_object_text(fields: Seq<(Seq<char>, FieldView)>) -> Seq<char>;

/// The fields of the object that these bytes spell, in the order that `serde_json::Map` keeps;
/// nothing where they spell no object. A field that is neither null, a text nor an unsigned
/// number is there without its value.
pub uninterp spec fn json_fields(bytes: Seq<u8>) -> Option<Seq<(Seq<char>, Option<FieldView>)>>;

/// The text, the text that may be null and the unsigned number of the array that these bytes spell;
/// nothing where they spell no such array.
pub uninterp spec fn json_triple(bytes: Seq<u8>) -> Option<(Seq<char>, Option<Seq<char>>, u64)>;

/// The two texts of the array that these bytes spell; nothing where they spell no such array.
pub uninterp spec fn json_pair(bytes: Seq<u8>) -> Option<(Seq<char>, Seq<char>)>;

/// A field of a flat JSON object.
#[derive(Clone, Debug, PartialEq)]
pub enum Field {
    Null,
    Text(String),
    Unsigned(u64),
    Texts(Vec<String>),
}

/// What a field holds.
pub enum FieldView {
    Null,
    Text(Seq<char>),
    Unsigned(u64),
    Texts(Seq<Seq<char>>),
}

impl View for Field {
    type V = FieldView;

    open spec fn view(&self) -> FieldView {
        match self {
            Field::Null => FieldView::Null,
            Field::Text(s) => FieldView::Text(s@),
            Field::Unsigned(n) => FieldView::Unsigned(*n),
            Field::Texts(v) => FieldView::Texts(v.deep_view()),
        }
    }
}

impl DeepView for Field {
    type V = FieldView;

    open spec fn deep_view(&self) -> FieldView {
        self.view()
    }
}

/// No key occurs twice.
pub open spec fn distinct_keys<T>(fields: Seq<(Seq<char>, T)>) -> bool {
    forall|i: int, j: int| 0 <= i < j < fields.len() ==> #[trigger] fields[i].0 != #[trigger] fields[j].0
}

/// These texts with commas between them.
pub open spec fn list_text(items: Seq<Seq<char>>) -> Seq<char>
    decreases items.len(),
{
    if items.len() == 0 {
        Seq::empty()
    } else if items.len() == 1 {
        items[0]
    } else {
        list_text(items.drop_last()) + ","@ + items.last()
    }
}

/// A field in JSON.
pub open spec fn field_text(field: FieldView) -> Seq<char> {
    match field {
        FieldView::Null => "null"@,
        FieldView::Text(s) => json_string(s),
        FieldView::Unsigned(n) => decimal(n as nat),
        FieldView::Texts(v) => "["@ + list_text(Seq::new(v.len(), |i: int| json_string(v[i])))
            + "]"@,
    }
}

/// The compact object of these fields, in their order.
pub open spec fn members_text(fields: Seq<(Seq<char>, FieldView)>) -> Seq<char> {
    "{"@ + list_text(
        Seq::new(
            fields.len(),
            |i: int| json_string(fields[i].0) + ":"@ + field_text(fields[i].1),
        ),
    ) + "}"@
}

/// What reading back finds of a field that was written.
pub open spec fn read_back(written: Option<FieldView>) -> Option<Option<FieldView>> {
    match written {
        None => None,
        Some(FieldView::Texts(_)) => Some(None),
        Some(f) => Some(Some(f)),
    }
}

/// These bytes spell an object whose fields are those of `fields`.
pub open spec fn spells(bytes: Seq<u8>, fields: Seq<(Seq<char>, FieldView)>) -> bool {
    &&& json_fields(bytes) is Some
    &&& forall|k: Seq<char>| #[trigger]
        lookup(json_fields(bytes)->0, k) == read_back(lookup(fields, k))
}

/// Makes a `serde_json::Value` of each field with `serde_json::Value::from`, and collects them into
/// a `serde_json::Map`. Claimed: the rendering of the object is a function of the fields, and it
/// spells an object with these fields.
#[verifier::external_body]
pub(crate) fn object_value(fields: &Vec<(String, Field)>) -> (v: serde_json::Value)
    requires
        distinct_keys(fields.deep_view()),
    ensures
        json_text(v) == json_object_text(fields.deep_view()),
        spells(encode_utf8(json_text(v)), fields.deep_view()),
{
    serde_json::Value::Object(fields.iter().map(|(k, f)| (k.clone(), match f {
        Field::Null => serde_json::Value::Null,
        Field::Text(s) => serde_json::Value::from(s.as_str()),
        Field::Unsigned(n) => serde_json::Value::from(*n),
        Field::Texts(v) => serde_json::Value::from(v.as_slice()),
    })).collect())
}

/// Writes the fields one after another with `collect_map` of `serde_json::Serializer`. Claimed: the
/// text is the compact object of the fields, in their order, and it spells an object with these
/// fields.
#[verifier::external_body]
pub(crate) fn write_object(fields: &Vec<(String, Field)>) -> (r: String)
    requires
        distinct_keys(fields.deep_view()),
    ensures
        r@ == members_text(fields.deep_view()),
        spells(encode_utf8(r@), fields.deep_view()),
{
    let mut out: Vec<u8> = Vec::new();
    serde_json::Serializer::new(&mut out).collect_map(fields.iter().map(|(k, f)| (k, match f {
        Field::Null => serde_json::Value::Null,
        Field::Text(s) => serde_json::Value::from(s.as_str()),
        Field::Unsigned(n) => serde_json::Value::from(*n),
        Field::Texts(v) => serde_json::Value::from(v.as_slice()),
    }))).expect("a vector takes all bytes");
    String::from_utf8(out).expect("JSON is UTF-8")
}

/// Calls `serde_json::Value`'s `to_string`. Claimed: it gives the compact rendering.
#[verifier::external_body]
pub(crate) fn value_text(v: &serde_json::Value) -> (r: String)
    ensures
        r@ == json_text(*v),
{
    v.to_string()
}

/// Calls `serde_json::from_slice` for an object and takes its fields out, variant by variant.
/// Claimed: what comes out is a function of the bytes.
#[verifier::external_body]
pub(crate) fn parse_object(bytes: &[u8]) -> (r: Option<Vec<(String, Option<Field>)>>)
    ensures
        r.deep_view() == json_fields(bytes@),
{
    let map = serde_json::from_slice::<serde_json::Map<String, serde_json::Value>>(bytes).ok()?;
    Some(map.into_iter().map(|(k, v)| (k, match v {
        serde_json::Value::Null => Some(Field::Null),
        serde_json::Value::String(s) => Some(Field::Text(s)),
        serde_json::Value::Number(n) => n.as_u64().map(Field::Unsigned),
        _ => None,
    })).collect())
}

/// Calls `serde_json::from_slice` for a tuple of a text, a text that may be null and an unsigned
/// number. Claimed: the outcome is a function of the bytes.
#[verifier::external_body]
pub(crate) fn parse_triple(bytes: &[u8]) -> (r: Option<(String, Option<String>, u64)>)
    ensures
        r.deep_view() == json_triple(bytes@),
{
    serde_json::from_slice::<(String, Option<String>, u64)>(bytes).ok()
}

/// Calls `serde_json::from_slice` for a tuple of two texts. Claimed: the outcome is a function of
/// the bytes.
#[verifier::external_body]
pub(crate) fn parse_pair(bytes: &[u8]) -> (r: Option<(String, String)>)
    ensures
        r.deep_view() == json_pair(bytes@),
{
    serde_json::from_slice::<(String, String)>(bytes).ok()
}

} // verus!
