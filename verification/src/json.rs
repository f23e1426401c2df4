//! A plain model of JSON values.
//!
//! The gateway speaks JSON. This module gives the crate its own value tree,
//! [`JsonValue`], together with its mathematical model [`JVal`]: strings
//! become character sequences, arrays and objects become sequences. All
//! encoders and decoders in the crate are stated over [`JVal`].
//!
//! An object is an ordered list of key/value pairs; a lookup takes the first
//! pair with the given key. Numbers are integers: the gateway's ids, times
//! and codes are all integral, so the tree carries a signed and an unsigned
//! variant and the model joins them as one mathematical integer.

use vstd::prelude::*;

verus! {

/// Mathematical model of a JSON value.
#[verifier::ext_equal]
pub enum JVal {
    Null,
    Bool(bool),
    Int(int),
    Str(Seq<char>),
    Arr(Seq<JVal>),
    Obj(Seq<(Seq<char>, JVal)>),
}

/// A JSON value tree with integral numbers.
#[derive(Debug, PartialEq)]
pub enum JsonValue {
    Null,
    Bool(bool),
    Int(i64),
    UInt(u64),
    Str(String),
    Arr(Vec<JsonValue>),
    Obj(Vec<(String, JsonValue)>),
}

/// The model of a [`JsonValue`].
pub open spec fn jval_of(v: JsonValue) -> JVal
    decreases v,
{
    match v {
        JsonValue::Null => JVal::Null,
        JsonValue::Bool(b) => JVal::Bool(b),
        JsonValue::Int(n) => JVal::Int(n as int),
        JsonValue::UInt(n) => JVal::Int(n as int),
        JsonValue::Str(s) => JVal::Str(s@),
        JsonValue::Arr(items) => JVal::Arr(jseq_of(items@)),
        JsonValue::Obj(fields) => JVal::Obj(jobj_of(fields@)),
    }
}

/// The model of a sequence of JSON values, elementwise.
pub open spec fn jseq_of(s: Seq<JsonValue>) -> Seq<JVal>
    decreases s,
{
    if s.len() == 0 {
        Seq::empty()
    } else {
        seq![jval_of(s[0])] + jseq_of(s.subrange(1, s.len() as int))
    }
}

/// The model of an object's fields, elementwise.
pub open spec fn jobj_of(s: Seq<(String, JsonValue)>) -> Seq<(Seq<char>, JVal)>
    decreases s,
{
    if s.len() == 0 {
        Seq::empty()
    } else {
        seq![(s[0].0@, jval_of(s[0].1))] + jobj_of(s.subrange(1, s.len() as int))
    }
}

impl View for JsonValue {
    type V = JVal;

    open spec fn view(&self) -> JVal {
        jval_of(*self)
    }
}

/// The model of a value sequence has the same length and models each element.
pub proof fn lemma_jseq_of(s: Seq<JsonValue>)
    ensures
        jseq_of(s).len() == s.len(),
        forall|i: int| 0 <= i < s.len() ==> jseq_of(s)[i] == jval_of(#[trigger] s[i]),
    decreases s,
{
    if s.len() > 0 {
        let sub = s.subrange(1, s.len() as int);
        lemma_jseq_of(sub);
        assert forall|i: int| 0 <= i < s.len() implies jseq_of(s)[i] == jval_of(#[trigger] s[i]) by {
            if i > 0 {
                assert(sub[i - 1] == s[i]);
                assert(jseq_of(s)[i] == jseq_of(sub)[i - 1]);
            }
        }
    }
}

/// The model of a field list has the same length and models each pair.
pub proof fn lemma_jobj_of(s: Seq<(String, JsonValue)>)
    ensures
        jobj_of(s).len() == s.len(),
        forall|i: int| 0 <= i < s.len() ==> jobj_of(s)[i] == ((#[trigger] s[i]).0@, jval_of(s[i].1)),
    decreases s,
{
    if s.len() > 0 {
        let sub = s.subrange(1, s.len() as int);
        lemma_jobj_of(sub);
        assert forall|i: int| 0 <= i < s.len() implies jobj_of(s)[i] == ((#[trigger] s[i]).0@, jval_of(
            s[i].1,
        )) by {
            if i > 0 {
                assert(sub[i - 1] == s[i]);
                assert(jobj_of(s)[i] == jobj_of(sub)[i - 1]);
            }
        }
    }
}

/// Looks a key up in a modelled object: the first pair with that key wins.
pub open spec fn obj_get(fields: Seq<(Seq<char>, JVal)>, key: Seq<char>) -> Option<JVal>
    decreases fields,
{
    if fields.len() == 0 {
        None
    } else if fields[0].0 == key {
        Some(fields[0].1)
    } else {
        obj_get(fields.subrange(1, fields.len() as int), key)
    }
}

/// The unsigned integer a modelled value holds, if it holds one that fits.
pub open spec fn jval_as_u64(v: JVal) -> Option<u64> {
    match v {
        JVal::Int(n) => if 0 <= n <= u64::MAX as int {
            Some(n as u64)
        } else {
            None
        },
        _ => None,
    }
}

/// The signed integer a modelled value holds, if it holds one that fits.
pub open spec fn jval_as_i64(v: JVal) -> Option<i64> {
    match v {
        JVal::Int(n) => if i64::MIN as int <= n <= i64::MAX as int {
            Some(n as i64)
        } else {
            None
        },
        _ => None,
    }
}

impl Clone for JsonValue {
    /// A deep copy: a tree with the very same model.
    fn clone(&self) -> (res: Self)
        ensures
            res@ == self@,
        decreases *self,
    {
        match self {
            JsonValue::Null => JsonValue::Null,
            JsonValue::Bool(b) => JsonValue::Bool(*b),
            JsonValue::Int(n) => JsonValue::Int(*n),
            JsonValue::UInt(n) => JsonValue::UInt(*n),
            JsonValue::Str(s) => JsonValue::Str(s.clone()),
            JsonValue::Arr(items) => {
                let mut out: Vec<JsonValue> = Vec::new();
                let mut i: usize = 0;
                while i < items.len()
                    invariant
                        0 <= i <= items@.len(),
                        out@.len() == i,
                        *self == JsonValue::Arr(*items),
                        forall|j: int| 0 <= j < i ==> jval_of(#[trigger] out@[j]) == jval_of(
                            items@[j],
                        ),
                    decreases items@.len() - i,
                {
                    proof {
                        assert(decreases_to!(*self => self->Arr_0));
                        assert(decreases_to!(self->Arr_0 => self->Arr_0@));
                        assert(decreases_to!(self->Arr_0@ => self->Arr_0@[i as int]));
                        assert(self->Arr_0@[i as int] == items@[i as int]);
                    }
                    out.push(items[i].clone());
                    i = i + 1;
                }
                proof {
                    lemma_jseq_of(out@);
                    lemma_jseq_of(items@);
                    assert forall|j: int| 0 <= j < out@.len() implies jseq_of(out@)[j] == jseq_of(
                        items@,
                    )[j] by {
                        assert(jval_of(out@[j]) == jval_of(items@[j]));
                    }
                    assert(jseq_of(out@) =~= jseq_of(items@));
                }
                JsonValue::Arr(out)
            },
            JsonValue::Obj(fields) => {
                let mut out: Vec<(String, JsonValue)> = Vec::new();
                let mut i: usize = 0;
                while i < fields.len()
                    invariant
                        0 <= i <= fields@.len(),
                        out@.len() == i,
                        *self == JsonValue::Obj(*fields),
                        forall|j: int| 0 <= j < i ==> (#[trigger] out@[j]).0@ == fields@[j].0@
                            && jval_of(out@[j].1) == jval_of(fields@[j].1),
                    decreases fields@.len() - i,
                {
                    proof {
                        assert(decreases_to!(*self => self->Obj_0));
                        assert(decreases_to!(self->Obj_0 => self->Obj_0@));
                        assert(decreases_to!(self->Obj_0@ => self->Obj_0@[i as int]));
                        assert(decreases_to!(self->Obj_0@[i as int] => self->Obj_0@[i as int].1));
                        assert(self->Obj_0@[i as int].1 == fields@[i as int].1);
                    }
                    let key = fields[i].0.clone();
                    let val = fields[i].1.clone();
                    out.push((key, val));
                    i = i + 1;
                }
                proof {
                    lemma_jobj_of(out@);
                    lemma_jobj_of(fields@);
                    assert forall|j: int| 0 <= j < out@.len() implies jobj_of(out@)[j] == jobj_of(
                        fields@,
                    )[j] by {
                        assert(jobj_of(out@)[j] == (out@[j].0@, jval_of(out@[j].1)));
                        assert(jobj_of(fields@)[j] == (fields@[j].0@, jval_of(fields@[j].1)));
                    }
                    assert(jobj_of(out@) =~= jobj_of(fields@));
                }
                JsonValue::Obj(out)
            },
        }
    }
}

/// True string equality: the same characters.
pub fn string_eq_str(s: &String, t: &str) -> (r: bool)
    ensures
        r == (s@ == t@),
{
    let owned: String = t.to_owned();
    *s == owned
}

impl JsonValue {
    /// The unsigned integer this value holds, if any.
    pub fn as_u64(&self) -> (r: Option<u64>)
        ensures
            r == jval_as_u64(self@),
    {
        match self {
            JsonValue::Int(n) => if *n >= 0 {
                Some(*n as u64)
            } else {
                None
            },
            JsonValue::UInt(n) => Some(*n),
            _ => None,
        }
    }

    /// The signed integer this value holds, if any.
    pub fn as_i64(&self) -> (r: Option<i64>)
        ensures
            r == jval_as_i64(self@),
    {
        match self {
            JsonValue::Int(n) => Some(*n),
            JsonValue::UInt(n) => if *n <= i64::MAX as u64 {
                Some(*n as i64)
            } else {
                None
            },
            _ => None,
        }
    }

    /// The boolean this value holds, if any.
    pub fn as_bool(&self) -> (r: Option<bool>)
        ensures
            match r {
                Some(b) => self@ == JVal::Bool(b),
                None => !(self@ is Bool),
            },
    {
        match self {
            JsonValue::Bool(b) => Some(*b),
            _ => None,
        }
    }

    /// The string this value holds, if any.
    pub fn as_str(&self) -> (r: Option<&String>)
        ensures
            match r {
                Some(s) => self@ == JVal::Str(s@),
                None => !(self@ is Str),
            },
    {
        match self {
            JsonValue::Str(s) => Some(s),
            _ => None,
        }
    }

    /// The element list this value holds, if it is an array.
    pub fn as_arr(&self) -> (r: Option<&Vec<JsonValue>>)
        ensures
            match r {
                Some(items) => self@ == JVal::Arr(jseq_of(items@)),
                None => !(self@ is Arr),
            },
    {
        match self {
            JsonValue::Arr(items) => Some(items),
            _ => None,
        }
    }

    /// The field list this value holds, if it is an object.
    pub fn as_obj(&self) -> (r: Option<&Vec<(String, JsonValue)>>)
        ensures
            match r {
                Some(fields) => self@ == JVal::Obj(jobj_of(fields@)),
                None => !(self@ is Obj),
            },
    {
        match self {
            JsonValue::Obj(fields) => Some(fields),
            _ => None,
        }
    }
}

/// The value under the first occurrence of a key, as [`obj_get`] gives it.
pub fn get_field<'a>(fields: &'a Vec<(String, JsonValue)>, key: &str) -> (r: Option<
    &'a JsonValue,
>)
    ensures
        match r {
            Some(v) => obj_get(jobj_of(fields@), key@) == Some(jval_of(*v)),
            None => obj_get(jobj_of(fields@), key@) is None,
        },
{
    proof {
        lemma_jobj_of(fields@);
    }
    let ghost m = jobj_of(fields@);
    proof {
        assert(m.subrange(0, m.len() as int) =~= m);
    }
    let mut i: usize = 0;
    while i < fields.len()
        invariant
            0 <= i <= fields.len(),
            m == jobj_of(fields@),
            m.len() == fields@.len(),
            forall|j: int| 0 <= j < fields@.len() ==> m[j] == ((#[trigger] fields@[j]).0@, jval_of(
                fields@[j].1,
            )),
            obj_get(m.subrange(i as int, m.len() as int), key@) == obj_get(m, key@),
        decreases fields.len() - i,
    {
        proof {
            assert(m.subrange(i as int, m.len() as int)[0] == m[i as int]);
        }
        if string_eq_str(&fields[i].0, key) {
            return Some(&fields[i].1);
        }
        proof {
            assert(m.subrange(i as int, m.len() as int).subrange(
                1,
                m.subrange(i as int, m.len() as int).len() as int,
            ) =~= m.subrange(i as int + 1, m.len() as int));
        }
        i = i + 1;
    }
    proof {
        assert(m.subrange(i as int, m.len() as int) =~= Seq::empty());
    }
    None
}

/// The unsigned field under a key, if present and integral and in range.
pub open spec fn spec_field_u64(o: Seq<(Seq<char>, JVal)>, k: Seq<char>) -> Option<u64> {
    match obj_get(o, k) {
        Some(v) => jval_as_u64(v),
        None => None,
    }
}

/// The signed field under a key, if present and integral and in range.
pub open spec fn spec_field_i64(o: Seq<(Seq<char>, JVal)>, k: Seq<char>) -> Option<i64> {
    match obj_get(o, k) {
        Some(v) => jval_as_i64(v),
        None => None,
    }
}

/// As [`spec_field_u64`], narrowed to 32 bits.
pub open spec fn spec_field_u32(o: Seq<(Seq<char>, JVal)>, k: Seq<char>) -> Option<u32> {
    match spec_field_u64(o, k) {
        Some(n) => if n <= u32::MAX as u64 {
            Some(n as u32)
        } else {
            None
        },
        None => None,
    }
}

/// As [`spec_field_u64`], narrowed to 16 bits.
pub open spec fn spec_field_u16(o: Seq<(Seq<char>, JVal)>, k: Seq<char>) -> Option<u16> {
    match spec_field_u64(o, k) {
        Some(n) => if n <= u16::MAX as u64 {
            Some(n as u16)
        } else {
            None
        },
        None => None,
    }
}

/// As [`spec_field_i64`], narrowed to 32 bits.
pub open spec fn spec_field_i32(o: Seq<(Seq<char>, JVal)>, k: Seq<char>) -> Option<i32> {
    match spec_field_i64(o, k) {
        Some(n) => if i32::MIN as i64 <= n <= i32::MAX as i64 {
            Some(n as i32)
        } else {
            None
        },
        None => None,
    }
}

/// The boolean field under a key, if present and boolean.
pub open spec fn spec_field_bool(o: Seq<(Seq<char>, JVal)>, k: Seq<char>) -> Option<bool> {
    match obj_get(o, k) {
        Some(JVal::Bool(b)) => Some(b),
        _ => None,
    }
}

/// The string field under a key, if present and a string.
pub open spec fn spec_field_str(o: Seq<(Seq<char>, JVal)>, k: Seq<char>) -> Option<Seq<char>> {
    match obj_get(o, k) {
        Some(JVal::Str(s)) => Some(s),
        _ => None,
    }
}

/// An optional string field: an absent or null field reads as nothing,
/// a string reads as itself, and any other shape is an error.
pub open spec fn spec_field_opt_str(o: Seq<(Seq<char>, JVal)>, k: Seq<char>) -> Option<
    Option<Seq<char>>,
> {
    match obj_get(o, k) {
        None => Some(None),
        Some(JVal::Null) => Some(None),
        Some(JVal::Str(s)) => Some(Some(s)),
        Some(_) => None,
    }
}

/// An optional 32-bit integer field: an absent or null field reads as
/// nothing, an integer in range reads as itself, any other shape is an
/// error.
pub open spec fn spec_field_opt_i32(o: Seq<(Seq<char>, JVal)>, k: Seq<char>) -> Option<
    Option<i32>,
> {
    match obj_get(o, k) {
        None => Some(None),
        Some(JVal::Null) => Some(None),
        Some(JVal::Int(n)) => if i32::MIN as int <= n <= i32::MAX as int {
            Some(Some(n as i32))
        } else {
            None
        },
        Some(_) => None,
    }
}

/// Reads an optional 32-bit integer field, as [`spec_field_opt_i32`] reads it.
pub fn field_opt_i32(fields: &Vec<(String, JsonValue)>, key: &str) -> (r: Option<Option<i32>>)
    ensures
        r == spec_field_opt_i32(jobj_of(fields@), key@),
{
    match get_field(fields, key) {
        None => Some(None),
        Some(v) => match v {
            JsonValue::Null => Some(None),
            JsonValue::Int(n) => if i32::MIN as i64 <= *n && *n <= i32::MAX as i64 {
                Some(Some(*n as i32))
            } else {
                None
            },
            JsonValue::UInt(n) => if *n <= i32::MAX as u64 {
                Some(Some(*n as i32))
            } else {
                None
            },
            _ => None,
        },
    }
}

/// Reads an unsigned integer field.
pub fn field_u64(fields: &Vec<(String, JsonValue)>, key: &str) -> (r: Option<u64>)
    ensures
        r == spec_field_u64(jobj_of(fields@), key@),
{
    match get_field(fields, key) {
        Some(v) => v.as_u64(),
        None => None,
    }
}

/// Reads a signed integer field.
pub fn field_i64(fields: &Vec<(String, JsonValue)>, key: &str) -> (r: Option<i64>)
    ensures
        r == spec_field_i64(jobj_of(fields@), key@),
{
    match get_field(fields, key) {
        Some(v) => v.as_i64(),
        None => None,
    }
}

/// Reads an unsigned 32-bit field.
pub fn field_u32(fields: &Vec<(String, JsonValue)>, key: &str) -> (r: Option<u32>)
    ensures
        r == spec_field_u32(jobj_of(fields@), key@),
{
    match field_u64(fields, key) {
        Some(n) => if n <= u32::MAX as u64 {
            Some(n as u32)
        } else {
            None
        },
        None => None,
    }
}

/// Reads an unsigned 16-bit field.
pub fn field_u16(fields: &Vec<(String, JsonValue)>, key: &str) -> (r: Option<u16>)
    ensures
        r == spec_field_u16(jobj_of(fields@), key@),
{
    match field_u64(fields, key) {
        Some(n) => if n <= u16::MAX as u64 {
            Some(n as u16)
        } else {
            None
        },
        None => None,
    }
}

/// Reads a signed 32-bit field.
pub fn field_i32(fields: &Vec<(String, JsonValue)>, key: &str) -> (r: Option<i32>)
    ensures
        r == spec_field_i32(jobj_of(fields@), key@),
{
    match field_i64(fields, key) {
        Some(n) => if i32::MIN as i64 <= n && n <= i32::MAX as i64 {
            Some(n as i32)
        } else {
            None
        },
        None => None,
    }
}

/// Reads a boolean field.
pub fn field_bool(fields: &Vec<(String, JsonValue)>, key: &str) -> (r: Option<bool>)
    ensures
        r == spec_field_bool(jobj_of(fields@), key@),
{
    match get_field(fields, key) {
        Some(v) => v.as_bool(),
        None => None,
    }
}

/// Reads a string field, copying it out.
pub fn field_string(fields: &Vec<(String, JsonValue)>, key: &str) -> (r: Option<String>)
    ensures
        match r {
            Some(s) => spec_field_str(jobj_of(fields@), key@) == Some(s@),
            None => spec_field_str(jobj_of(fields@), key@) is None,
        },
{
    match get_field(fields, key) {
        Some(v) => match v.as_str() {
            Some(s) => Some(s.clone()),
            None => None,
        },
        None => None,
    }
}

/// Reads an optional string field, as [`spec_field_opt_str`] reads it.
pub fn field_opt_string(fields: &Vec<(String, JsonValue)>, key: &str) -> (r: Option<
    Option<String>,
>)
    ensures
        match r {
            Some(Some(s)) => spec_field_opt_str(jobj_of(fields@), key@) == Some(Some(s@)),
            Some(None) => spec_field_opt_str(jobj_of(fields@), key@) == Some(
                None::<Seq<char>>,
            ),
            None => spec_field_opt_str(jobj_of(fields@), key@) is None,
        },
{
    match get_field(fields, key) {
        None => Some(None),
        Some(v) => match v {
            JsonValue::Null => Some(None),
            JsonValue::Str(s) => Some(Some(s.clone())),
            _ => None,
        },
    }
}

} // verus!
