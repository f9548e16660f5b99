use vstd::prelude::*;

verus! {

/// A JSON value as plain data. Numbers keep no value: nothing here reads
/// one. Object members keep the order in which the parser handed them out.
#[derive(Debug)]
pub enum Json {
    Null,
    Bool(bool),
    Number,
    Str(String),
    Array(Vec<Json>),
    Object(Vec<(String, Json)>),
}

/// A JSON value, as serde_json holds it.
#[verifier::external_type_specification]
#[verifier::external_body]
pub struct ExJsonValue(serde_json::Value);

/// The JSON value that `text` holds, or `None` when it is not JSON.
pub uninterp spec fn json_of_text(text: Seq<char>) -> Option<Json>;

/// The first member of an object named `name`.
pub open spec fn member(fields: Seq<(String, Json)>, name: Seq<char>) -> Option<Json>
    decreases fields.len(),
{
    if fields.len() == 0 {
        None
    } else if fields[0].0@ == name {
        Some(fields[0].1)
    } else {
        member(fields.drop_first(), name)
    }
}

/// The member `name` of `j` when `j` is an object.
pub open spec fn field(j: Json, name: Seq<char>) -> Option<Json> {
    match j {
        Json::Object(fields) => member(fields@, name),
        _ => None,
    }
}

/// The text of `j` when it is a string.
pub open spec fn text_of(j: Json) -> Option<Seq<char>> {
    match j {
        Json::Str(s) => Some(s@),
        _ => None,
    }
}

/// Every item is a string.
pub open spec fn all_texts(items: Seq<Json>) -> bool {
    forall|i: int| 0 <= i < items.len() ==> (#[trigger] items[i]) is Str
}

/// The texts of a list of strings.
pub open spec fn texts(items: Seq<Json>) -> Seq<Seq<char>> {
    items.map_values(
        |x: Json|
            match x {
                Json::Str(s) => s@,
                _ => Seq::empty(),
            },
    )
}

/// The texts of `j` when it is an array of strings.
pub open spec fn text_list_of(j: Json) -> Option<Seq<Seq<char>>> {
    match j {
        Json::Array(items) => if all_texts(items@) {
            Some(texts(items@))
        } else {
            None
        },
        _ => None,
    }
}

/// The contents of a list of strings, as texts.
pub open spec fn string_views(v: Seq<String>) -> Seq<Seq<char>> {
    v.map_values(|s: String| s@)
}

/// Relies on the variants of `serde_json::Value`: the same value, item for
/// item and member for member in the map's order, with numbers reduced to
/// their kind.
#[verifier::external_body]
pub(crate) fn json_of(v: serde_json::Value) -> (r: Json) {
    match v {
        serde_json::Value::Null => Json::Null,
        serde_json::Value::Bool(b) => Json::Bool(b),
        serde_json::Value::Number(_) => Json::Number,
        serde_json::Value::String(s) => Json::Str(s),
        serde_json::Value::Array(items) => Json::Array(items.into_iter().map(json_of).collect()),
        serde_json::Value::Object(fields) => Json::Object(
            fields.into_iter().map(|(k, x)| (k, json_of(x))).collect(),
        ),
    }
}

/// Relies on `serde_json::from_str` into `serde_json::Value`, converted by
/// `json_of`: the JSON value that `text` holds; `None` when it is not JSON.
#[verifier::external_body]
pub(crate) fn parse_json(text: &str) -> (r: Option<Json>)
    ensures
        match r {
            Some(j) => json_of_text(text@) == Some(j),
            None => json_of_text(text@) is None,
        },
{
    serde_json::from_str::<serde_json::Value>(text).ok().map(json_of)
}

/// The first member named `name` of the object `j`; `None` when `j` is not
/// an object or has no such member.
pub fn get_field<'a>(j: &'a Json, name: &str) -> (r: Option<&'a Json>)
    ensures
        match r {
            Some(x) => field(*j, name@) == Some(*x),
            None => field(*j, name@) is None,
        },
{
    let fields = match j {
        Json::Object(fields) => fields,
        _ => return None,
    };
    let wanted = name.to_owned();
    let mut i: usize = 0;
    assert(fields@.skip(0) =~= fields@);
    while i < fields.len()
        invariant
            i <= fields.len(),
            *j == Json::Object(*fields),
            wanted@ == name@,
            member(fields@, name@) == member(fields@.skip(i as int), name@),
        decreases fields.len() - i,
    {
        assert(fields@.skip(i as int).drop_first() =~= fields@.skip(i + 1));
        assert(fields@.skip(i as int)[0] == fields@[i as int]);
        if fields[i].0 == wanted {
            return Some(&fields[i].1);
        }
        i += 1;
    }
    None
}

/// The text of `j` when it is a string.
pub fn get_text(j: &Json) -> (r: Option<String>)
    ensures
        match r {
            Some(s) => text_of(*j) == Some(s@),
            None => text_of(*j) is None,
        },
{
    match j {
        Json::Str(s) => Some(s.clone()),
        _ => None,
    }
}

/// The texts of `j` when it is an array of strings, in order.
pub fn get_text_list(j: &Json) -> (r: Option<Vec<String>>)
    ensures
        match r {
            Some(v) => text_list_of(*j) == Some(string_views(v@)),
            None => text_list_of(*j) is None,
        },
{
    let items = match j {
        Json::Array(items) => items,
        _ => return None,
    };
    let mut out: Vec<String> = Vec::new();
    let mut i: usize = 0;
    while i < items.len()
        invariant
            i <= items.len(),
            *j == Json::Array(*items),
            out@.len() == i,
            forall|k: int| 0 <= k < i ==> (#[trigger] items@[k]) is Str,
            forall|k: int| 0 <= k < i ==> (#[trigger] out@[k])@ == texts(items@)[k],
        decreases items.len() - i,
    {
        match &items[i] {
            Json::Str(s) => out.push(s.clone()),
            _ => {
                assert(!all_texts(items@)) by {
                    assert(!(items@[i as int] is Str));
                }
                return None;
            },
        }
        i += 1;
    }
    assert(string_views(out@) =~= texts(items@));
    Some(out)
}

} // verus!
