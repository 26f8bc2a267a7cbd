use vstd::prelude::*;

verus! {

/// A JSON value as this crate models it: numbers are held as `i64`
/// (the endpoints in scope only ever carry integer numbers; any other
/// number parses to `Null`), objects as ordered field lists.
#[derive(Debug)]
pub enum JsonVal {
    Null,
    Bool(bool),
    Int(i64),
    Str(String),
    Arr(Vec<JsonVal>),
    Obj(Vec<(String, JsonVal)>),
}

/// The value of the first field whose name has the characters of `k`, if any.
pub open spec fn obj_get(fields: Seq<(String, JsonVal)>, k: Seq<char>) -> Option<JsonVal>
    decreases fields.len(),
{
    if fields.len() == 0 {
        None
    } else if fields[0].0@ == k {
        Some(fields[0].1)
    } else {
        obj_get(fields.drop_first(), k)
    }
}

/// Borrow the value of the first field named `k`, or `None` if no field
/// carries that name.
pub fn obj_find<'a>(fields: &'a Vec<(String, JsonVal)>, k: &String) -> (r: Option<&'a JsonVal>)
    ensures
        match r {
            Some(v) => obj_get(fields@, k@) == Some(*v),
            None => obj_get(fields@, k@) is None,
        },
{
    let mut i: usize = 0;
    assert(fields@.skip(0) =~= fields@);
    while i < fields.len()
        invariant
            i <= fields@.len(),
            obj_get(fields@, k@) == obj_get(fields@.skip(i as int), k@),
        decreases fields@.len() - i,
    {
        let p = &fields[i];
        if p.0 == *k {
            assert(fields@.skip(i as int)[0] == fields@[i as int]);
            return Some(&p.1);
        }
        assert(fields@.skip(i as int).drop_first() =~= fields@.skip(i as int + 1));
        i = i + 1;
    }
    None
}

#[verifier::external_type_specification]
#[verifier::external_body]
pub struct ExValue(serde_json::Value);

/// What `serde_json` parses the given text into, translated into this
/// crate's `JsonVal` model; `None` where the text is not valid JSON.
pub uninterp spec fn json_parse(s: Seq<char>) -> Option<JsonVal>;

/// Relies on serde_json::from_str: whether a text parses, and to what
/// value, is a function of the text alone.
#[verifier::external_body]
pub(crate) fn parse_json(s: &str) -> (r: Option<JsonVal>)
    ensures
        r == json_parse(s@),
{
    match serde_json::from_str::<serde_json::Value>(s) {
        Ok(v) => Some(of_value(v)),
        Err(_) => None,
    }
}

/// Relies on serde_json::Value: each variant is moved field-for-field into
/// the matching `JsonVal` variant; a number that does not fit `i64`
/// becomes `Null`.
#[verifier::external_body]
fn of_value(v: serde_json::Value) -> JsonVal {
    match v {
        serde_json::Value::Null => JsonVal::Null,
        serde_json::Value::Bool(b) => JsonVal::Bool(b),
        serde_json::Value::Number(n) => match n.as_i64() {
            Some(i) => JsonVal::Int(i),
            None => JsonVal::Null,
        },
        serde_json::Value::String(s) => JsonVal::Str(s),
        serde_json::Value::Array(a) => JsonVal::Arr(a.into_iter().map(of_value).collect()),
        serde_json::Value::Object(m) => {
            JsonVal::Obj(m.into_iter().map(|(k, w)| (k, of_value(w))).collect())
        },
    }
}

} // verus!
