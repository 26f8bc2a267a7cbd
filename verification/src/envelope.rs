use vstd::prelude::*;
use crate::error::ApiError;
use crate::json::{JsonVal, obj_get, obj_find, parse_json, json_parse};

verus! {

/// The pagination cursors that may accompany a list response. Each is a
/// ready-made relative URL handed out by the server.
#[derive(Debug)]
pub struct Pagination {
    pub future_url: Option<String>,
    pub newer_url: Option<String>,
    pub older_url: Option<String>,
}

/// A decoded response envelope: the elements of the `Response` array and
/// the optional pagination block that sits beside it.
#[derive(Debug)]
pub struct Envelope {
    pub items: Vec<JsonVal>,
    pub pagination: Option<Pagination>,
}

/// An optional string field is well-formed when it is absent, `Null`, or
/// a string; any other shape is a decode error.
pub open spec fn opt_str_field_ok(fields: Seq<(String, JsonVal)>, k: Seq<char>) -> bool {
    match obj_get(fields, k) {
        None => true,
        Some(v) => v is Null || v is Str,
    }
}

/// `r` is the decoded form of the optional string field `k`: `None` for an
/// absent or `Null` field, the string's characters otherwise.
pub open spec fn opt_str_field_is(
    fields: Seq<(String, JsonVal)>,
    k: Seq<char>,
    r: Option<String>,
) -> bool {
    match obj_get(fields, k) {
        None => r is None,
        Some(v) => match v {
            JsonVal::Null => r is None,
            JsonVal::Str(s) => r matches Some(t) && t@ == s@,
            _ => false,
        },
    }
}

pub open spec fn pagination_decodable(v: JsonVal) -> bool {
    &&& v matches JsonVal::Obj(fs)
    &&& opt_str_field_ok(fs@, "future_url"@)
    &&& opt_str_field_ok(fs@, "newer_url"@)
    &&& opt_str_field_ok(fs@, "older_url"@)
}

pub open spec fn is_pagination_of(v: JsonVal, p: Pagination) -> bool {
    &&& v matches JsonVal::Obj(fs)
    &&& opt_str_field_is(fs@, "future_url"@, p.future_url)
    &&& opt_str_field_is(fs@, "newer_url"@, p.newer_url)
    &&& opt_str_field_is(fs@, "older_url"@, p.older_url)
}

/// A fresh `String` holding the characters of `s`.
pub fn key(s: &str) -> (r: String)
    ensures
        r@ == s@,
{
    String::from_str(s)
}

fn opt_str_field(fields: &Vec<(String, JsonVal)>, k: &String) -> (r: Result<
    Option<String>,
    ApiError,
>)
    ensures
        r is Ok <==> opt_str_field_ok(fields@, k@),
        r matches Ok(o) ==> opt_str_field_is(fields@, k@, o),
        r matches Err(e) ==> e == ApiError::Decode,
{
    match obj_find(fields, k) {
        None => Ok(None),
        Some(v) => match v {
            JsonVal::Null => Ok(None),
            JsonVal::Str(s) => Ok(Some(s.clone())),
            _ => Err(ApiError::Decode),
        },
    }
}

/// Decode a pagination block: three optional cursor URLs.
pub fn decode_pagination(v: &JsonVal) -> (r: Result<Pagination, ApiError>)
    ensures
        r is Ok <==> pagination_decodable(*v),
        r matches Ok(p) ==> is_pagination_of(*v, p),
        r matches Err(e) ==> e == ApiError::Decode,
{
    match v {
        JsonVal::Obj(fs) => {
            let future_url = match opt_str_field(fs, &key("future_url")) {
                Ok(x) => x,
                Err(e) => { return Err(e); },
            };
            let newer_url = match opt_str_field(fs, &key("newer_url")) {
                Ok(x) => x,
                Err(e) => { return Err(e); },
            };
            let older_url = match opt_str_field(fs, &key("older_url")) {
                Ok(x) => x,
                Err(e) => { return Err(e); },
            };
            Ok(Pagination { future_url, newer_url, older_url })
        },
        _ => Err(ApiError::Decode),
    }
}

/// The envelope is an object whose `Response` field is an array and whose
/// `Pagination` field, if present, is `Null` or a well-formed block.
pub open spec fn envelope_decodable(v: JsonVal) -> bool {
    &&& v matches JsonVal::Obj(fs)
    &&& obj_get(fs@, "Response"@) matches Some(JsonVal::Arr(_))
    &&& match obj_get(fs@, "Pagination"@) {
        None => true,
        Some(p) => p is Null || pagination_decodable(p),
    }
}

/// The elements of the `Response` array (empty where the envelope is not
/// well-formed; only used together with `envelope_decodable`).
pub open spec fn envelope_items(v: JsonVal) -> Seq<JsonVal> {
    match v {
        JsonVal::Obj(fs) => match obj_get(fs@, "Response"@) {
            Some(w) => match w {
                JsonVal::Arr(a) => a@,
                _ => Seq::empty(),
            },
            None => Seq::empty(),
        },
        _ => Seq::empty(),
    }
}

/// `pg` is the decoded pagination of the envelope: `None` for an absent or
/// `Null` field, the decoded block otherwise.
pub open spec fn envelope_pagination_is(v: JsonVal, pg: Option<Pagination>) -> bool {
    match v {
        JsonVal::Obj(fs) => match obj_get(fs@, "Pagination"@) {
            None => pg is None,
            Some(p) => match p {
                JsonVal::Null => pg is None,
                _ => pg matches Some(q) && is_pagination_of(p, q),
            },
        },
        _ => false,
    }
}

/// Find the first index whose field name has the characters of `k`.
fn find_key(fields: &Vec<(String, JsonVal)>, k: &String) -> (r: Option<usize>)
    ensures
        match r {
            Some(i) => i < fields@.len() && fields@[i as int].0@ == k@ && obj_get(fields@, k@)
                == Some(fields@[i as int].1),
            None => obj_get(fields@, k@) is None,
        },
{
    let mut i: usize = 0;
    assert(fields@.skip(0) =~= fields@);
    while i < fields.len()
        invariant
            i <= fields@.len(),
            obj_get(fields@, k@) == obj_get(fields@.skip(i as int), k@),
        decreases fields@.len() - i,
    {
        let p = &fields[i];
        if p.0 == *k {
            assert(fields@.skip(i as int)[0] == fields@[i as int]);
            return Some(i);
        }
        assert(fields@.skip(i as int).drop_first() =~= fields@.skip(i as int + 1));
        i = i + 1;
    }
    None
}

/// Decode a response envelope: require the `Response` array, and decode the
/// sibling `Pagination` field when it is present and not `Null`.
pub fn decode_envelope(v: JsonVal) -> (r: Result<Envelope, ApiError>)
    ensures
        r is Ok <==> envelope_decodable(v),
        r matches Ok(env) ==> env.items@ == envelope_items(v) && envelope_pagination_is(
            v,
            env.pagination,
        ),
        r matches Err(e) ==> e == ApiError::Decode,
{
    match v {
        JsonVal::Obj(mut fs) => {
            let pagination: Option<Pagination> = match obj_find(&fs, &key("Pagination")) {
                None => None,
                Some(p) => match p {
                    JsonVal::Null => None,
                    _ => match decode_pagination(p) {
                        Ok(q) => Some(q),
                        Err(e) => { return Err(e); },
                    },
                },
            };
            match find_key(&fs, &key("Response")) {
                None => Err(ApiError::Decode),
                Some(i) => {
                    let pair = fs.remove(i);
                    match pair.1 {
                        JsonVal::Arr(items) => Ok(Envelope { items, pagination }),
                        _ => Err(ApiError::Decode),
                    }
                },
            }
        },
        _ => Err(ApiError::Decode),
    }
}

/// The sole key/value pair of a single-key object, where the value is
/// exactly that.
pub open spec fn single_pair(v: JsonVal) -> Option<(String, JsonVal)> {
    match v {
        JsonVal::Obj(fs) => if fs@.len() == 1 {
            Some(fs@[0])
        } else {
            None
        },
        _ => None,
    }
}

/// The flattened shape demands a non-empty array in which every element is
/// an object holding exactly one key.
pub open spec fn flatten_ok(items: Seq<JsonVal>) -> bool {
    items.len() > 0 && forall|i: int|
        0 <= i < items.len() ==> single_pair(#[trigger] items[i]) is Some
}

/// The key/value pairs taken from the single-key objects, in array order.
/// An element that is not a single-key object contributes nothing; decoding
/// rejects such arrays, so that case never carries meaning.
pub open spec fn flattened_pairs(items: Seq<JsonVal>) -> Seq<(String, JsonVal)>
    decreases items.len(),
{
    if items.len() == 0 {
        Seq::empty()
    } else {
        match single_pair(items[0]) {
            Some(p) => seq![p] + flattened_pairs(items.drop_first()),
            None => flattened_pairs(items.drop_first()),
        }
    }
}

/// The value of the last field whose name has the characters of `k`, if
/// any: the lookup that matches merging the pairs into one mapping, where
/// a later insertion wins.
pub open spec fn obj_get_last(fields: Seq<(String, JsonVal)>, k: Seq<char>) -> Option<JsonVal>
    decreases fields.len(),
{
    if fields.len() == 0 {
        None
    } else if fields.last().0@ == k {
        Some(fields.last().1)
    } else {
        obj_get_last(fields.drop_last(), k)
    }
}

/// Looking a key up in a concatenation: the right pairs win.
pub proof fn lemma_obj_get_last_concat(
    a: Seq<(String, JsonVal)>,
    b: Seq<(String, JsonVal)>,
    k: Seq<char>,
)
    ensures
        obj_get_last(a + b, k) == match obj_get_last(b, k) {
            Some(v) => Some(v),
            None => obj_get_last(a, k),
        },
    decreases b.len(),
{
    if b.len() == 0 {
        assert(a + b =~= a);
    } else {
        assert((a + b).drop_last() =~= a + b.drop_last());
        assert((a + b).last() == b.last());
        lemma_obj_get_last_concat(a, b.drop_last(), k);
    }
}

/// Taking one more element adds that element's pair (if it has one) to the
/// flattened pairs.
proof fn lemma_flattened_pairs_take_step(s: Seq<JsonVal>, i: int)
    requires
        0 <= i < s.len(),
    ensures
        single_pair(s[i]) matches Some(p) ==> flattened_pairs(s.take(i + 1)) == flattened_pairs(
            s.take(i),
        ) + seq![p],
        single_pair(s[i]) is None ==> flattened_pairs(s.take(i + 1)) == flattened_pairs(s.take(i)),
    decreases i,
{
    if i == 0 {
        assert(s.take(1)[0] == s[0]);
        assert(s.take(1).drop_first() =~= Seq::<JsonVal>::empty());
        assert(s.take(0) =~= Seq::<JsonVal>::empty());
        match single_pair(s[0]) {
            Some(p) => {
                assert(flattened_pairs(s.take(1)) =~= flattened_pairs(s.take(0)) + seq![p]);
            },
            None => {
                assert(flattened_pairs(s.take(1)) =~= flattened_pairs(s.take(0)));
            },
        }
    } else {
        lemma_flattened_pairs_take_step(s.drop_first(), i - 1);
        assert(s.take(i + 1).drop_first() =~= s.drop_first().take(i));
        assert(s.take(i).drop_first() =~= s.drop_first().take(i - 1));
        assert(s.take(i + 1)[0] == s[0]);
        assert(s.take(i)[0] == s[0]);
        assert(s.drop_first()[i - 1] == s[i]);
        match single_pair(s[i]) {
            Some(p) => {
                assert(flattened_pairs(s.take(i + 1)) =~= flattened_pairs(s.take(i)) + seq![p]);
            },
            None => {
                assert(flattened_pairs(s.take(i + 1)) =~= flattened_pairs(s.take(i)));
            },
        }
    }
}

/// The merged mapping that flattened decoding builds from the pairs, a
/// later pair winning over an earlier one with the same key.
pub open spec fn pairs_to_map(ps: Seq<(String, JsonVal)>) -> Map<Seq<char>, JsonVal>
    decreases ps.len(),
{
    if ps.len() == 0 {
        Map::empty()
    } else {
        pairs_to_map(ps.drop_last()).insert(ps.last().0@, ps.last().1)
    }
}

/// No two pairs carry the same key.
pub open spec fn distinct_keys(ps: Seq<(String, JsonVal)>) -> bool {
    forall|i: int, j: int| 0 <= i < j < ps.len() ==> ps[i].0@ != ps[j].0@
}

/// Merging distinct-keyed pairs loses nothing and invents nothing: the
/// merged mapping holds exactly one entry per pair, each key bound to its
/// pair's value.
pub proof fn lemma_flattened_merge_exact(ps: Seq<(String, JsonVal)>)
    requires
        distinct_keys(ps),
    ensures
        forall|i: int|
            0 <= i < ps.len() ==> pairs_to_map(ps).contains_key(#[trigger] ps[i].0@)
                && pairs_to_map(ps)[ps[i].0@] == ps[i].1,
        forall|k: Seq<char>| #[trigger]
            pairs_to_map(ps).contains_key(k) ==> exists|i: int|
                0 <= i < ps.len() && #[trigger] ps[i].0@ == k,
    decreases ps.len(),
{
    if ps.len() > 0 {
        let prefix = ps.drop_last();
        assert(forall|i: int| 0 <= i < prefix.len() ==> prefix[i] == ps[i]);
        lemma_flattened_merge_exact(prefix);
        let m = pairs_to_map(ps);
        assert(m == pairs_to_map(prefix).insert(ps.last().0@, ps.last().1));
        assert forall|i: int|
            0 <= i < ps.len() implies m.contains_key(#[trigger] ps[i].0@) && m[ps[i].0@]
            == ps[i].1 by {
            if i < ps.len() - 1 {
                assert(ps[i].0@ != ps.last().0@);
            } else {
                assert(ps[i] == ps.last());
            }
        }
        assert forall|k: Seq<char>| #[trigger] m.contains_key(k) implies exists|i: int|
            0 <= i < ps.len() && #[trigger] ps[i].0@ == k by {
            if k == ps.last().0@ {
                assert(ps[ps.len() - 1].0@ == k);
            } else {
                assert(pairs_to_map(prefix).contains_key(k));
            }
        }
    }
}

/// The merged mapping does not depend on array order: two flattened arrays
/// holding the same pairs, each with distinct keys, merge to the same
/// mapping.
pub proof fn lemma_flattened_merge_order_independent(
    ps1: Seq<(String, JsonVal)>,
    ps2: Seq<(String, JsonVal)>,
)
    requires
        ps1.to_multiset() == ps2.to_multiset(),
        distinct_keys(ps1),
        distinct_keys(ps2),
    ensures
        pairs_to_map(ps1) == pairs_to_map(ps2),
{
    broadcast use vstd::seq_lib::group_to_multiset_ensures;

    lemma_flattened_merge_exact(ps1);
    lemma_flattened_merge_exact(ps2);
    let m1 = pairs_to_map(ps1);
    let m2 = pairs_to_map(ps2);
    assert forall|k: Seq<char>| #[trigger]
        m1.contains_key(k) implies m2.contains_key(k) && m2[k] == m1[k] by {
        let i = choose|i: int| 0 <= i < ps1.len() && #[trigger] ps1[i].0@ == k;
        assert(ps1.contains(ps1[i]));
        assert(ps2.to_multiset().count(ps1[i]) > 0);
        assert(ps2.contains(ps1[i]));
        let j = choose|j: int| 0 <= j < ps2.len() && ps2[j] == ps1[i];
        assert(ps2[j].0@ == k);
        assert(m2[k] == ps2[j].1);
        assert(m1[k] == ps1[i].1);
    }
    assert forall|k: Seq<char>| #[trigger] m2.contains_key(k) implies m1.contains_key(k) by {
        let j = choose|j: int| 0 <= j < ps2.len() && #[trigger] ps2[j].0@ == k;
        assert(ps2.contains(ps2[j]));
        assert(ps1.to_multiset().count(ps2[j]) > 0);
        assert(ps1.contains(ps2[j]));
        let i = choose|i: int| 0 <= i < ps1.len() && ps1[i] == ps2[j];
        assert(ps1[i].0@ == k);
    }
    assert(m1 =~= m2);
}

proof fn lemma_obj_get_last_is_map_binding(ps: Seq<(String, JsonVal)>, k: Seq<char>)
    ensures
        match obj_get_last(ps, k) {
            Some(v) => pairs_to_map(ps).contains_key(k) && pairs_to_map(ps)[k] == v,
            None => !pairs_to_map(ps).contains_key(k),
        },
    decreases ps.len(),
{
    if ps.len() > 0 {
        lemma_obj_get_last_is_map_binding(ps.drop_last(), k);
    }
}

/// The lookup the decoders execute agrees with the merged mapping on every
/// input: looking a key up among the flattened pairs (the last matching
/// pair wins) finds exactly the binding the merged mapping holds for that
/// key, and fails exactly where the mapping holds none.
pub proof fn lemma_flat_lookup_is_merged_binding(items: Seq<JsonVal>, k: Seq<char>)
    ensures
        match obj_get_last(flattened_pairs(items), k) {
            Some(v) => pairs_to_map(flattened_pairs(items)).contains_key(k) && pairs_to_map(
                flattened_pairs(items),
            )[k] == v,
            None => !pairs_to_map(flattened_pairs(items)).contains_key(k),
        },
{
    lemma_obj_get_last_is_map_binding(flattened_pairs(items), k);
}

/// Check that every element is a single-key object and the array is not empty.
pub fn check_flattened(items: &Vec<JsonVal>) -> (r: bool)
    ensures
        r == flatten_ok(items@),
{
    if items.len() == 0 {
        return false;
    }
    let mut i: usize = 0;
    while i < items.len()
        invariant
            i <= items@.len(),
            items@.len() > 0,
            forall|j: int| 0 <= j < i ==> single_pair(#[trigger] items@[j]) is Some,
        decreases items@.len() - i,
    {
        let ok = match &items[i] {
            JsonVal::Obj(fs) => fs.len() == 1,
            _ => false,
        };
        if !ok {
            assert(single_pair(items@[i as int]) is None);
            return false;
        }
        i = i + 1;
    }
    true
}

/// Borrow the value merged under `k` from a flattened array: the value of
/// the first single-key element whose key has the characters of `k`.
pub fn flat_find<'a>(items: &'a Vec<JsonVal>, k: &String) -> (r: Option<&'a JsonVal>)
    ensures
        match r {
            Some(v) => obj_get_last(flattened_pairs(items@), k@) == Some(*v),
            None => obj_get_last(flattened_pairs(items@), k@) is None,
        },
{
    let ghost all = items@;
    let mut i: usize = items.len();
    assert(all.take(all.len() as int) =~= all);
    while i > 0
        invariant
            i <= all.len(),
            all == items@,
            obj_get_last(flattened_pairs(all), k@) == obj_get_last(
                flattened_pairs(all.take(i as int)),
                k@,
            ),
        decreases i,
    {
        i = i - 1;
        let p = &items[i];
        proof {
            lemma_flattened_pairs_take_step(all, i as int);
        }
        match p {
            JsonVal::Obj(fs) => {
                if fs.len() == 1 {
                    let q = &fs[0];
                    proof {
                        assert(single_pair(all[i as int]) == Some(fs@[0]));
                        lemma_obj_get_last_concat(
                            flattened_pairs(all.take(i as int)),
                            seq![fs@[0]],
                            k@,
                        );
                        assert(seq![fs@[0]].last() == fs@[0]);
                        assert(seq![fs@[0]].drop_last() =~= Seq::<(String, JsonVal)>::empty());
                    }
                    if q.0 == *k {
                        proof {
                            assert(obj_get_last(seq![fs@[0]], k@) == Some(fs@[0].1));
                        }
                        return Some(&q.1);
                    }
                    proof {
                        assert(fs@[0].0@ != k@);
                        assert(obj_get_last(Seq::<(String, JsonVal)>::empty(), k@) is None);
                        assert(obj_get_last(seq![fs@[0]], k@) is None);
                        assert(obj_get_last(flattened_pairs(all.take(i as int + 1)), k@)
                            == obj_get_last(flattened_pairs(all.take(i as int)), k@));
                    }
                } else {
                    assert(single_pair(all[i as int]) is None);
                    assert(flattened_pairs(all.take(i as int + 1)) == flattened_pairs(
                        all.take(i as int),
                    ));
                }
            },
            _ => {
                assert(single_pair(all[i as int]) is None);
                assert(flattened_pairs(all.take(i as int + 1)) == flattened_pairs(
                    all.take(i as int),
                ));
            },
        }
    }
    proof {
        assert(all.take(0) =~= Seq::<JsonVal>::empty());
    }
    None
}

/// Decode a flattened response whole: require the envelope and the
/// single-key shape of every element, and hand the elements back together
/// with the optional pagination cursor beside them.
pub fn decode_flattened(body: &str) -> (r: Result<Envelope, ApiError>)
    ensures
        r is Ok <==> (json_parse(body@) matches Some(v) && envelope_decodable(v) && flatten_ok(
            envelope_items(v),
        )),
        r matches Ok(env) ==> (json_parse(body@) matches Some(v2) && env.items@ == envelope_items(
            v2,
        ) && envelope_pagination_is(v2, env.pagination) && flatten_ok(env.items@)),
        r matches Err(e) ==> e == ApiError::Decode,
{
    let v = match parse_json(body) {
        Some(v) => v,
        None => { return Err(ApiError::Decode); },
    };
    let env = match decode_envelope(v) {
        Ok(env) => env,
        Err(e) => { return Err(e); },
    };
    if !check_flattened(&env.items) {
        return Err(ApiError::Decode);
    }
    Ok(env)
}

} // verus!
