//! A small JSON document model.
//!
//! Request bodies are built as `Json` values by verified encoders and the
//! unverified shell renders incoming response bodies back into `Json`
//! values, so that all encoding and decoding logic is verified against the
//! mathematical model `JsonV`.

use vstd::prelude::*;

verus! {

broadcast use vstd::std_specs::vec::group_vec_axioms, vstd::seq::group_seq_axioms;

/// Mathematical model of a JSON document: strings are character sequences,
/// arrays and objects are sequences.  Object members keep their order; a
/// lookup takes the first binding of a key.
pub enum JsonV {
    Null,
    Bool(bool),
    UInt(u64),
    Int(i64),
    Str(Seq<char>),
    Arr(Seq<JsonV>),
    Obj(Seq<(Seq<char>, JsonV)>),
}

/// A JSON document.  Numbers are integers: the remote API transmits sizes,
/// counts, ports and timestamps, none of which are fractional.
#[derive(Debug)]
pub enum Json {
    Null,
    Bool(bool),
    UInt(u64),
    Int(i64),
    Str(String),
    Arr(Vec<Json>),
    Obj(Vec<(String, Json)>),
}

impl DeepView for Json {
    type V = JsonV;

    open spec fn deep_view(&self) -> JsonV
        decreases self,
    {
        match *self {
            Json::Null => JsonV::Null,
            Json::Bool(b) => JsonV::Bool(b),
            Json::UInt(n) => JsonV::UInt(n),
            Json::Int(n) => JsonV::Int(n),
            Json::Str(s) => JsonV::Str(s@),
            Json::Arr(items) => JsonV::Arr(json_seq_view(items@)),
            Json::Obj(pairs) => JsonV::Obj(json_pairs_view(pairs@)),
        }
    }
}

/// Elementwise model of a sequence of documents.
pub open spec fn json_seq_view(items: Seq<Json>) -> Seq<JsonV>
    decreases items,
{
    Seq::new(items.len(), |i: int| if 0 <= i < items.len() {
        items[i].deep_view()
    } else {
        JsonV::Null
    })
}

/// Elementwise model of a member list.
pub open spec fn json_pairs_view(pairs: Seq<(String, Json)>) -> Seq<(Seq<char>, JsonV)>
    decreases pairs,
{
    Seq::new(pairs.len(), |i: int| if 0 <= i < pairs.len() {
        (pairs[i].0@, pairs[i].1.deep_view())
    } else {
        (Seq::<char>::empty(), JsonV::Null)
    })
}

impl Clone for Json {
    /// An equal document.
    fn clone(&self) -> (res: Self)
        ensures
            res.deep_view() == self.deep_view(),
        decreases self,
    {
        match self {
            Json::Null => Json::Null,
            Json::Bool(b) => Json::Bool(*b),
            Json::UInt(n) => Json::UInt(*n),
            Json::Int(n) => Json::Int(*n),
            Json::Str(s) => Json::Str(s.clone()),
            Json::Arr(items) => {
                let mut out: Vec<Json> = Vec::new();
                let n = items.len();
                for i in 0..n
                    invariant
                        *self == Json::Arr(*items),
                        n == items.len(),
                        out@.len() == i,
                        forall|p: int| 0 <= p < i
                            ==> (#[trigger] out@[p]).deep_view() == items@[p].deep_view(),
                {
                    proof {
                        assert(decreases_to!(*self => self->Arr_0));
                        assert(self->Arr_0 == *items);
                        assert(decreases_to!(*items => items[i as int]));
                        assert(decreases_to!(*self => items[i as int]));
                    }
                    let e = items[i].clone();
                    out.push(e);
                }
                let r = Json::Arr(out);
                proof {
                    assert(json_seq_view(out@) =~= json_seq_view(items@));
                }
                r
            },
            Json::Obj(pairs) => {
                let mut out: Vec<(String, Json)> = Vec::new();
                let n = pairs.len();
                for i in 0..n
                    invariant
                        *self == Json::Obj(*pairs),
                        n == pairs.len(),
                        out@.len() == i,
                        forall|p: int| 0 <= p < i
                            ==> (#[trigger] out@[p]).0@ == pairs@[p].0@
                                && out@[p].1.deep_view() == pairs@[p].1.deep_view(),
                {
                    proof {
                        assert(decreases_to!(*self => self->Obj_0));
                        assert(self->Obj_0 == *pairs);
                        assert(decreases_to!(*pairs => pairs[i as int]));
                        assert(decreases_to!(pairs[i as int] => pairs[i as int].1));
                        assert(decreases_to!(*self => pairs[i as int].1));
                    }
                    let v = pairs[i].1.clone();
                    out.push((pairs[i].0.clone(), v));
                }
                let r = Json::Obj(out);
                proof {
                    assert(json_pairs_view(out@) =~= json_pairs_view(pairs@));
                }
                r
            },
        }
    }
}

/// First binding of `key` among the members of an object, if any.
pub open spec fn json_lookup(pairs: Seq<(Seq<char>, JsonV)>, key: Seq<char>) -> Option<JsonV>
    decreases pairs.len(),
{
    if pairs.len() == 0 {
        None
    } else if pairs[0].0 == key {
        Some(pairs[0].1)
    } else {
        json_lookup(pairs.drop_first(), key)
    }
}

/// Binding of `key` in `j`, where `j` must model an object.
pub open spec fn json_member(j: JsonV, key: Seq<char>) -> Option<JsonV> {
    match j {
        JsonV::Obj(pairs) => json_lookup(pairs, key),
        _ => None,
    }
}

/// Appending a member does not shadow earlier bindings.
pub broadcast proof fn lemma_lookup_push(
    pairs: Seq<(Seq<char>, JsonV)>,
    key: Seq<char>,
    v: JsonV,
    q: Seq<char>,
)
    ensures
        #[trigger] json_lookup(pairs.push((key, v)), q) == (if json_lookup(pairs, q) is Some {
            json_lookup(pairs, q)
        } else if key == q {
            Some(v)
        } else {
            None
        }),
    decreases pairs.len(),
{
    if pairs.len() == 0 {
        assert(pairs.push((key, v)).drop_first() =~= Seq::empty());
        assert(pairs =~= Seq::empty());
    } else {
        assert(pairs.push((key, v)).drop_first() =~= pairs.drop_first().push((key, v)));
        lemma_lookup_push(pairs.drop_first(), key, v, q);
    }
}

/// A lookup in a concatenation resolves in the first part that binds the key.
pub broadcast proof fn lemma_lookup_append(
    xs: Seq<(Seq<char>, JsonV)>,
    ys: Seq<(Seq<char>, JsonV)>,
    q: Seq<char>,
)
    ensures
        #[trigger] json_lookup(xs + ys, q) == (if json_lookup(xs, q) is Some {
            json_lookup(xs, q)
        } else {
            json_lookup(ys, q)
        }),
    decreases xs.len(),
{
    if xs.len() == 0 {
        assert(xs + ys =~= ys);
    } else {
        assert((xs + ys).drop_first() =~= xs.drop_first() + ys);
        lemma_lookup_append(xs.drop_first(), ys, q);
    }
}

/// The model of a concatenated member list is the concatenation of the models.
pub broadcast proof fn lemma_pairs_view_append(xs: Seq<(String, Json)>, ys: Seq<(String, Json)>)
    ensures
        #[trigger] json_pairs_view(xs + ys) == json_pairs_view(xs) + json_pairs_view(ys),
{
    assert(json_pairs_view(xs + ys) =~= json_pairs_view(xs) + json_pairs_view(ys));
}

/// A member list with an optional trailing binding.
pub open spec fn opt_member(
    pairs: Seq<(Seq<char>, JsonV)>,
    key: Seq<char>,
    v: Option<JsonV>,
) -> Seq<(Seq<char>, JsonV)> {
    match v {
        None => pairs,
        Some(x) => pairs.push((key, x)),
    }
}

// Field readers over the model.  The outer `Option` reports whether the field
// is well-formed (`None` is a decode failure); the inner value is the field,
// where an absent or null member reads as an absent optional field.

pub open spec fn jv_opt_uint(j: JsonV, key: Seq<char>) -> Option<Option<u64>> {
    match json_member(j, key) {
        None => Some(None),
        Some(JsonV::Null) => Some(None),
        Some(JsonV::UInt(n)) => Some(Some(n)),
        Some(_) => None,
    }
}

pub open spec fn jv_opt_u32(j: JsonV, key: Seq<char>) -> Option<Option<u32>> {
    match jv_opt_uint(j, key) {
        None => None,
        Some(None) => Some(None),
        Some(Some(n)) => if n <= u32::MAX { Some(Some(n as u32)) } else { None },
    }
}

pub open spec fn jv_opt_u16(j: JsonV, key: Seq<char>) -> Option<Option<u16>> {
    match jv_opt_uint(j, key) {
        None => None,
        Some(None) => Some(None),
        Some(Some(n)) => if n <= u16::MAX { Some(Some(n as u16)) } else { None },
    }
}

pub open spec fn jv_opt_i32(j: JsonV, key: Seq<char>) -> Option<Option<i32>> {
    match json_member(j, key) {
        None => Some(None),
        Some(JsonV::Null) => Some(None),
        Some(JsonV::UInt(n)) => if n <= i32::MAX { Some(Some(n as i32)) } else { None },
        Some(JsonV::Int(n)) => if i32::MIN <= n <= i32::MAX { Some(Some(n as i32)) } else { None },
        Some(_) => None,
    }
}

pub open spec fn jv_opt_bool(j: JsonV, key: Seq<char>) -> Option<Option<bool>> {
    match json_member(j, key) {
        None => Some(None),
        Some(JsonV::Null) => Some(None),
        Some(JsonV::Bool(b)) => Some(Some(b)),
        Some(_) => None,
    }
}

pub open spec fn jv_opt_str(j: JsonV, key: Seq<char>) -> Option<Option<Seq<char>>> {
    match json_member(j, key) {
        None => Some(None),
        Some(JsonV::Null) => Some(None),
        Some(JsonV::Str(s)) => Some(Some(s)),
        Some(_) => None,
    }
}

/// An optional member kept as a raw document.
pub open spec fn jv_opt_json(j: JsonV, key: Seq<char>) -> Option<Option<JsonV>> {
    match json_member(j, key) {
        None => Some(None),
        Some(JsonV::Null) => Some(None),
        Some(v) => Some(Some(v)),
    }
}

pub open spec fn jv_req_str(j: JsonV, key: Seq<char>) -> Option<Seq<char>> {
    match json_member(j, key) {
        Some(JsonV::Str(s)) => Some(s),
        _ => None,
    }
}

pub open spec fn jv_req_uint(j: JsonV, key: Seq<char>) -> Option<u64> {
    match json_member(j, key) {
        Some(JsonV::UInt(n)) => Some(n),
        _ => None,
    }
}

pub open spec fn jv_req_u16(j: JsonV, key: Seq<char>) -> Option<u16> {
    match jv_req_uint(j, key) {
        None => None,
        Some(n) => if n <= u16::MAX { Some(n as u16) } else { None },
    }
}

/// Every element is a string.
pub open spec fn jv_str_seq(items: Seq<JsonV>) -> Option<Seq<Seq<char>>> {
    if forall|k: int| 0 <= k < items.len() ==> (#[trigger] items[k]) is Str {
        Some(Seq::new(items.len(), |k: int| items[k]->Str_0))
    } else {
        None
    }
}

pub open spec fn jv_opt_str_arr(j: JsonV, key: Seq<char>) -> Option<Option<Seq<Seq<char>>>> {
    match json_member(j, key) {
        None => Some(None),
        Some(JsonV::Null) => Some(None),
        Some(JsonV::Arr(items)) => match jv_str_seq(items) {
            None => None,
            Some(strs) => Some(Some(strs)),
        },
        Some(_) => None,
    }
}

/// Every member value is a string.
pub open spec fn jv_str_pairs(
    pairs: Seq<(Seq<char>, JsonV)>,
) -> Option<Seq<(Seq<char>, Seq<char>)>> {
    if forall|k: int| 0 <= k < pairs.len() ==> (#[trigger] pairs[k]).1 is Str {
        Some(Seq::new(pairs.len(), |k: int| (pairs[k].0, pairs[k].1->Str_0)))
    } else {
        None
    }
}

pub open spec fn jv_req_str_arr(j: JsonV, key: Seq<char>) -> Option<Seq<Seq<char>>> {
    match json_member(j, key) {
        Some(JsonV::Arr(items)) => jv_str_seq(items),
        _ => None,
    }
}

/// A sequence of strings as a JSON array model.
pub open spec fn str_seq_jv(items: Seq<Seq<char>>) -> Seq<JsonV> {
    Seq::new(items.len(), |i: int| JsonV::Str(items[i]))
}

/// String pairs as a JSON object model.
pub open spec fn str_pairs_jv(pairs: Seq<(Seq<char>, Seq<char>)>) -> Seq<(Seq<char>, JsonV)> {
    Seq::new(pairs.len(), |i: int| (pairs[i].0, JsonV::Str(pairs[i].1)))
}

/// An object member whose value is itself an object of string values.
pub open spec fn jv_opt_str_map(
    j: JsonV,
    key: Seq<char>,
) -> Option<Option<Seq<(Seq<char>, Seq<char>)>>> {
    match json_member(j, key) {
        None => Some(None),
        Some(JsonV::Null) => Some(None),
        Some(JsonV::Obj(pairs)) => match jv_str_pairs(pairs) {
            None => None,
            Some(m) => Some(Some(m)),
        },
        Some(_) => None,
    }
}

impl Json {
    /// Looks a key up in an object; `None` on any other document.
    pub fn get<'a>(&'a self, key: &String) -> (r: Option<&'a Json>)
        ensures
            match r {
                Some(v) => json_member(self.deep_view(), key@) == Some(v.deep_view()),
                None => json_member(self.deep_view(), key@) is None,
            },
    {
        match self {
            Json::Obj(pairs) => {
                let ghost all = json_pairs_view(pairs@);
                proof {
                    assert(all.skip(0) =~= all);
                }
                let n = pairs.len();
                for i in 0..n
                    invariant
                        n == pairs.len(),
                        all.len() == n,
                        self.deep_view() == JsonV::Obj(all),
                        forall|k: int| 0 <= k < n
                            ==> all[k] == (#[trigger] pairs@[k].0@, pairs@[k].1.deep_view()),
                        json_lookup(all, key@) == json_lookup(all.skip(i as int), key@),
                {
                    proof {
                        assert(all.skip(i as int)[0] == all[i as int]);
                        assert(all.skip(i as int).drop_first() =~= all.skip(i + 1));
                    }
                    if pairs[i].0 == *key {
                        return Some(&pairs[i].1);
                    }
                }
                proof {
                    assert(all.skip(n as int) =~= Seq::empty());
                }
                None
            },
            _ => None,
        }
    }

    /// Reads an optional member as a raw document.
    pub fn opt_json(&self, key: &str) -> (r: Option<Option<Json>>)
        ensures
            r.deep_view() == jv_opt_json(self.deep_view(), key@),
    {
        let k = key.to_owned();
        match self.get(&k) {
            None => Some(None),
            Some(Json::Null) => Some(None),
            Some(v) => Some(Some(v.clone())),
        }
    }

    /// Reads an optional unsigned integer member.
    pub fn opt_uint(&self, key: &str) -> (r: Option<Option<u64>>)
        ensures
            r == jv_opt_uint(self.deep_view(), key@),
    {
        let k = key.to_owned();
        match self.get(&k) {
            None => Some(None),
            Some(Json::Null) => Some(None),
            Some(Json::UInt(n)) => Some(Some(*n)),
            Some(_) => None,
        }
    }

    /// Reads an optional unsigned integer member that must fit in 32 bits.
    pub fn opt_u32(&self, key: &str) -> (r: Option<Option<u32>>)
        ensures
            r == jv_opt_u32(self.deep_view(), key@),
    {
        match self.opt_uint(key) {
            None => None,
            Some(None) => Some(None),
            Some(Some(n)) => if n <= u32::MAX as u64 {
                Some(Some(n as u32))
            } else {
                None
            },
        }
    }

    /// Reads an optional unsigned integer member that must fit in 16 bits.
    pub fn opt_u16(&self, key: &str) -> (r: Option<Option<u16>>)
        ensures
            r == jv_opt_u16(self.deep_view(), key@),
    {
        match self.opt_uint(key) {
            None => None,
            Some(None) => Some(None),
            Some(Some(n)) => if n <= u16::MAX as u64 {
                Some(Some(n as u16))
            } else {
                None
            },
        }
    }

    /// Reads an optional signed integer member that must fit in 32 bits.
    pub fn opt_i32(&self, key: &str) -> (r: Option<Option<i32>>)
        ensures
            r == jv_opt_i32(self.deep_view(), key@),
    {
        let k = key.to_owned();
        match self.get(&k) {
            None => Some(None),
            Some(Json::Null) => Some(None),
            Some(Json::UInt(n)) => if *n <= i32::MAX as u64 {
                Some(Some(*n as i32))
            } else {
                None
            },
            Some(Json::Int(n)) => if i32::MIN as i64 <= *n && *n <= i32::MAX as i64 {
                Some(Some(*n as i32))
            } else {
                None
            },
            Some(_) => None,
        }
    }

    /// Reads an optional boolean member.
    pub fn opt_bool(&self, key: &str) -> (r: Option<Option<bool>>)
        ensures
            r == jv_opt_bool(self.deep_view(), key@),
    {
        let k = key.to_owned();
        match self.get(&k) {
            None => Some(None),
            Some(Json::Null) => Some(None),
            Some(Json::Bool(b)) => Some(Some(*b)),
            Some(_) => None,
        }
    }

    /// Reads an optional string member.
    pub fn opt_str(&self, key: &str) -> (r: Option<Option<String>>)
        ensures
            r.deep_view() == jv_opt_str(self.deep_view(), key@),
    {
        let k = key.to_owned();
        match self.get(&k) {
            None => Some(None),
            Some(Json::Null) => Some(None),
            Some(Json::Str(s)) => Some(Some(s.clone())),
            Some(_) => None,
        }
    }

    /// Reads a required string member.
    pub fn req_str(&self, key: &str) -> (r: Option<String>)
        ensures
            r.deep_view() == jv_req_str(self.deep_view(), key@),
    {
        let k = key.to_owned();
        match self.get(&k) {
            Some(Json::Str(s)) => Some(s.clone()),
            _ => None,
        }
    }

    /// Reads a required unsigned integer member.
    pub fn req_uint(&self, key: &str) -> (r: Option<u64>)
        ensures
            r == jv_req_uint(self.deep_view(), key@),
    {
        let k = key.to_owned();
        match self.get(&k) {
            Some(Json::UInt(n)) => Some(*n),
            _ => None,
        }
    }

    /// Reads a required unsigned integer member that must fit in 16 bits.
    pub fn req_u16(&self, key: &str) -> (r: Option<u16>)
        ensures
            r == jv_req_u16(self.deep_view(), key@),
    {
        match self.req_uint(key) {
            None => None,
            Some(n) => if n <= u16::MAX as u64 {
                Some(n as u16)
            } else {
                None
            },
        }
    }

    /// Reads an optional member that must be an array of strings.
    pub fn opt_str_arr(&self, key: &str) -> (r: Option<Option<Vec<String>>>)
        ensures
            r.deep_view() == jv_opt_str_arr(self.deep_view(), key@),
    {
        let k = key.to_owned();
        match self.get(&k) {
            None => Some(None),
            Some(Json::Null) => Some(None),
            Some(v) => match v {
                Json::Arr(items) => {
                    let ghost iv = json_seq_view(items@);
                    let mut out: Vec<String> = Vec::new();
                    let n = items.len();
                    for i in 0..n
                        invariant
                            n == items.len(),
                            iv == json_seq_view(items@),
                            json_member(self.deep_view(), key@) == Some(JsonV::Arr(iv)),
                            iv.len() == n,
                            out@.len() == i,
                            forall|p: int| 0 <= p < i ==> (#[trigger] iv[p]) is Str,
                            forall|p: int| 0 <= p < i ==> (#[trigger] out@[p])@ == iv[p]->Str_0,
                    {
                        match &items[i] {
                            Json::Str(s) => { out.push(s.clone()); },
                            _ => {
                                proof {
                                    assert(!(iv[i as int] is Str));
                                }
                                return None;
                            },
                        }
                    }
                    proof {
                        assert(out.deep_view() =~= jv_str_seq(iv)->0);
                    }
                    Some(Some(out))
                },
                _ => None,
            },
        }
    }

    /// Reads a required member that must be an array of strings.
    pub fn req_str_arr(&self, key: &str) -> (r: Option<Vec<String>>)
        ensures
            r.deep_view() == jv_req_str_arr(self.deep_view(), key@),
    {
        match self.opt_str_arr(key) {
            Some(Some(v)) => Some(v),
            _ => None,
        }
    }

    /// Builds an array of strings.
    pub fn from_strings(items: &Vec<String>) -> (j: Json)
        ensures
            j.deep_view() == JsonV::Arr(str_seq_jv(items.deep_view())),
    {
        let mut out: Vec<Json> = Vec::new();
        let n = items.len();
        for i in 0..n
            invariant
                n == items.len(),
                out@.len() == i,
                forall|p: int| 0 <= p < i
                    ==> (#[trigger] out@[p]) == Json::Str(items@[p]),
        {
            out.push(Json::Str(items[i].clone()));
        }
        let j = Json::Arr(out);
        proof {
            let ghost ov = out@;
            assert(json_seq_view(ov).len() == str_seq_jv(items.deep_view()).len());
            assert(json_seq_view(ov) =~= str_seq_jv(items.deep_view()));
        }
        j
    }

    /// Builds an object of string values.
    pub fn from_string_pairs(pairs: &Vec<(String, String)>) -> (j: Json)
        ensures
            j.deep_view() == JsonV::Obj(str_pairs_jv(pairs.deep_view())),
    {
        let mut out: Vec<(String, Json)> = Vec::new();
        let n = pairs.len();
        for i in 0..n
            invariant
                n == pairs.len(),
                out@.len() == i,
                forall|p: int| 0 <= p < i
                    ==> (#[trigger] out@[p]).0 == pairs@[p].0
                        && out@[p].1 == Json::Str(pairs@[p].1),
        {
            out.push((pairs[i].0.clone(), Json::Str(pairs[i].1.clone())));
        }
        let j = Json::Obj(out);
        proof {
            let ghost ov = out@;
            assert(json_pairs_view(ov).len() == str_pairs_jv(pairs.deep_view()).len());
            assert(json_pairs_view(ov) =~= str_pairs_jv(pairs.deep_view()));
        }
        j
    }

    /// Reads an optional member that must be an object of string values.
    pub fn opt_str_map(&self, key: &str) -> (r: Option<Option<Vec<(String, String)>>>)
        ensures
            r.deep_view() == jv_opt_str_map(self.deep_view(), key@),
    {
        let k = key.to_owned();
        match self.get(&k) {
            None => Some(None),
            Some(Json::Null) => Some(None),
            Some(v) => match v {
                Json::Obj(pairs) => {
                    let ghost pv = json_pairs_view(pairs@);
                    let mut out: Vec<(String, String)> = Vec::new();
                    let n = pairs.len();
                    for i in 0..n
                        invariant
                            n == pairs.len(),
                            pv == json_pairs_view(pairs@),
                            json_member(self.deep_view(), key@) == Some(JsonV::Obj(pv)),
                            pv.len() == n,
                            out@.len() == i,
                            forall|p: int| 0 <= p < i ==> (#[trigger] pv[p]).1 is Str,
                            forall|p: int| 0 <= p < i
                                ==> (#[trigger] out@[p]).0@ == pv[p].0
                                    && out@[p].1@ == pv[p].1->Str_0,
                    {
                        match &pairs[i].1 {
                            Json::Str(s) => { out.push((pairs[i].0.clone(), s.clone())); },
                            _ => {
                                proof {
                                    assert(!(pv[i as int].1 is Str));
                                }
                                return None;
                            },
                        }
                    }
                    proof {
                        assert(out.deep_view() =~= jv_str_pairs(pv)->0);
                    }
                    Some(Some(out))
                },
                _ => None,
            },
        }
    }
}

} // verus!
