//! The JSON-like wire value model.
//!
//! Every outbound message carries its parameters as one of these values. The
//! executable type `Json` is what callers build and what is handed to the
//! transport; its mathematical model `JVal` (sequences of characters, of
//! elements, and of key/value entries) is what all contracts speak of.

use crate::errors::EncodeError;
use vstd::prelude::*;

verus! {

/// Mathematical model of a wire value, used in specifications only.
#[verifier::ext_equal]
pub enum JVal {
    Null,
    Bool(bool),
    UInt(u64),
    Str(Seq<char>),
    Arr(Seq<JVal>),
    Obj(Seq<(Seq<char>, JVal)>),
}

/// A wire value: the parameter payload of an outbound message.
///
/// Objects keep their entries as a sequence of key/value pairs, in insertion
/// order; the remote side treats object shapes as order-insensitive, so the
/// order is only a construction detail.
#[derive(Debug, PartialEq, Eq)]
pub enum Json {
    Null,
    Bool(bool),
    UInt(u64),
    Str(String),
    Arr(Vec<Json>),
    Obj(Vec<(String, Json)>),
}

/// The model of an executable wire value.
pub open spec fn jval_of(j: Json) -> JVal
    decreases j,
{
    match j {
        Json::Null => JVal::Null,
        Json::Bool(b) => JVal::Bool(b),
        Json::UInt(n) => JVal::UInt(n),
        Json::Str(s) => JVal::Str(s@),
        Json::Arr(v) => JVal::Arr(
            Seq::new(
                v@.len(),
                |i: int|
                    if 0 <= i < v@.len() {
                        jval_of(v@[i])
                    } else {
                        JVal::Null
                    },
            ),
        ),
        Json::Obj(v) => JVal::Obj(
            Seq::new(
                v@.len(),
                |i: int|
                    if 0 <= i < v@.len() {
                        (v@[i].0@, jval_of(v@[i].1))
                    } else {
                        (Seq::empty(), JVal::Null)
                    },
            ),
        ),
    }
}

impl View for Json {
    type V = JVal;

    open spec fn view(&self) -> JVal {
        jval_of(*self)
    }
}

/// The value under the first entry with the given key, if any.
pub open spec fn obj_entry(entries: Seq<(Seq<char>, JVal)>, key: Seq<char>) -> Option<JVal>
    decreases entries.len(),
{
    if entries.len() == 0 {
        None
    } else if entries[0].0 == key {
        Some(entries[0].1)
    } else {
        obj_entry(entries.skip(1), key)
    }
}

/// The capability of converting to the wire value model.
///
/// The envelope layer is generic over this capability only to defer the
/// conversion: a conversion that fails is reported before any message is
/// built or sent.
pub trait ToWire: Sized {
    /// Whether this value converts to a wire value.
    spec fn encodes(&self) -> bool;

    /// The wire value it converts to, meaningful when `encodes()` holds.
    spec fn encoding(&self) -> JVal;

    /// Convert to a wire value, or report why the conversion failed.
    fn encode(self) -> (r: Result<Json, EncodeError>)
        ensures
            r is Ok <==> self.encodes(),
            r matches Ok(v) ==> v@ == self.encoding(),
    ;
}

/// A wire value converts to itself.
impl ToWire for Json {
    open spec fn encodes(&self) -> bool {
        true
    }

    open spec fn encoding(&self) -> JVal {
        jval_of(*self)
    }

    fn encode(self) -> (r: Result<Json, EncodeError>) {
        Ok(self)
    }
}

/// The outcome of a conversion performed elsewhere (for example by an
/// unverified serializer at the crate's boundary) passes through unchanged:
/// a carried failure is reported as a serialization failure before any
/// message is built.
impl ToWire for Result<Json, EncodeError> {
    open spec fn encodes(&self) -> bool {
        self is Ok
    }

    open spec fn encoding(&self) -> JVal {
        jval_of(self->Ok_0)
    }

    fn encode(self) -> (r: Result<Json, EncodeError>) {
        self
    }
}

impl Json {
    /// A structurally identical copy of this wire value.
    #[verifier::loop_isolation(false)]
    pub fn deep_clone(&self) -> (r: Json)
        ensures
            r@ == self@,
        decreases *self,
    {
        match self {
            Json::Null => Json::Null,
            Json::Bool(b) => Json::Bool(*b),
            Json::UInt(n) => Json::UInt(*n),
            Json::Str(s) => Json::Str(s.clone()),
            Json::Arr(v) => {
                let mut out: Vec<Json> = Vec::new();
                let mut i: usize = 0;
                while i < v.len()
                    invariant
                        i <= v.len(),
                        out@.len() == i as int,
                        forall|k: int| 0 <= k < i ==> (#[trigger] out@[k])@ == v@[k]@,
                    decreases v@.len() - i,
                {
                    proof {
                        assert(decreases_to!(*self => (*self)->Arr_0));
                        assert((*self)->Arr_0 == *v);
                        assert(decreases_to!(*v => v@[i as int]));
                        assert(decreases_to!(*self => v@[i as int]));
                    }
                    let c = v[i].deep_clone();
                    out.push(c);
                    i = i + 1;
                }
                let r = Json::Arr(out);
                proof {
                    let a = jval_of(r)->Arr_0;
                    let b = jval_of(*self)->Arr_0;
                    assert forall|k: int| 0 <= k < a.len() implies a[k] == b[k] by {
                        assert(out@[k]@ == v@[k]@);
                    }
                    assert(a =~= b);
                    assert(jval_of(r) == JVal::Arr(a));
                    assert(jval_of(*self) == JVal::Arr(b));
                }
                r
            },
            Json::Obj(v) => {
                let mut out: Vec<(String, Json)> = Vec::new();
                let mut i: usize = 0;
                while i < v.len()
                    invariant
                        i <= v.len(),
                        out@.len() == i as int,
                        forall|k: int|
                            0 <= k < i ==> (#[trigger] out@[k]).0@ == v@[k].0@ && out@[k].1@
                                == v@[k].1@,
                    decreases v@.len() - i,
                {
                    proof {
                        assert(decreases_to!(*self => (*self)->Obj_0));
                        assert((*self)->Obj_0 == *v);
                        assert(decreases_to!(*v => v@[i as int]));
                        assert(decreases_to!(v@[i as int] => v@[i as int].1));
                        assert(decreases_to!(*self => v@[i as int].1));
                    }
                    let key = v[i].0.clone();
                    let val = v[i].1.deep_clone();
                    out.push((key, val));
                    i = i + 1;
                }
                let r = Json::Obj(out);
                proof {
                    let a = jval_of(r)->Obj_0;
                    let b = jval_of(*self)->Obj_0;
                    assert forall|k: int| 0 <= k < a.len() implies a[k] == b[k] by {
                        assert(out@[k].0@ == v@[k].0@ && out@[k].1@ == v@[k].1@);
                    }
                    assert(a =~= b);
                    assert(jval_of(r) == JVal::Obj(a));
                    assert(jval_of(*self) == JVal::Obj(b));
                }
                r
            },
        }
    }

    /// A string wire value with the given text.
    pub fn str_of(s: &str) -> (r: Json)
        ensures
            r@ == JVal::Str(s@),
    {
        Json::Str(s.to_owned())
    }

    /// An empty array wire value.
    pub fn arr0() -> (r: Json)
        ensures
            r@ == JVal::Arr(Seq::<JVal>::empty()),
    {
        let v: Vec<Json> = Vec::new();
        let r = Json::Arr(v);
        proof {
            assert(jval_of(r)->Arr_0 =~~= Seq::<JVal>::empty());
            assert(jval_of(r) == JVal::Arr(jval_of(r)->Arr_0));
        }
        r
    }

    /// A two-element array wire value.
    pub fn arr2(a: Json, b: Json) -> (r: Json)
        ensures
            r@ == JVal::Arr(seq![a@, b@]),
    {
        let mut v: Vec<Json> = Vec::new();
        v.push(a);
        v.push(b);
        let r = Json::Arr(v);
        proof {
            assert(jval_of(r)->Arr_0 =~~= seq![a@, b@]);
            assert(jval_of(r) == JVal::Arr(jval_of(r)->Arr_0));
        }
        r
    }

    /// A three-element array wire value.
    pub fn arr3(a: Json, b: Json, c: Json) -> (r: Json)
        ensures
            r@ == JVal::Arr(seq![a@, b@, c@]),
    {
        let mut v: Vec<Json> = Vec::new();
        v.push(a);
        v.push(b);
        v.push(c);
        let r = Json::Arr(v);
        proof {
            assert(jval_of(r)->Arr_0 =~~= seq![a@, b@, c@]);
            assert(jval_of(r) == JVal::Arr(jval_of(r)->Arr_0));
        }
        r
    }

    /// A four-element array wire value.
    pub fn arr4(a: Json, b: Json, c: Json, d: Json) -> (r: Json)
        ensures
            r@ == JVal::Arr(seq![a@, b@, c@, d@]),
    {
        let mut v: Vec<Json> = Vec::new();
        v.push(a);
        v.push(b);
        v.push(c);
        v.push(d);
        let r = Json::Arr(v);
        proof {
            assert(jval_of(r)->Arr_0 =~~= seq![a@, b@, c@, d@]);
            assert(jval_of(r) == JVal::Arr(jval_of(r)->Arr_0));
        }
        r
    }

    /// An empty object wire value.
    pub fn obj0() -> (r: Json)
        ensures
            r@ == JVal::Obj(Seq::<(Seq<char>, JVal)>::empty()),
    {
        let v: Vec<(String, Json)> = Vec::new();
        let r = Json::Obj(v);
        proof {
            assert(jval_of(r)->Obj_0 =~~= Seq::<(Seq<char>, JVal)>::empty());
            assert(jval_of(r) == JVal::Obj(jval_of(r)->Obj_0));
        }
        r
    }

    /// A one-entry object wire value.
    pub fn obj1(k: &str, a: Json) -> (r: Json)
        ensures
            r@ == JVal::Obj(seq![(k@, a@)]),
    {
        let mut v: Vec<(String, Json)> = Vec::new();
        v.push((k.to_owned(), a));
        let r = Json::Obj(v);
        proof {
            assert(jval_of(r)->Obj_0 =~~= seq![(k@, a@)]);
            assert(jval_of(r) == JVal::Obj(jval_of(r)->Obj_0));
        }
        r
    }

    /// A two-entry object wire value.
    pub fn obj2(k1: &str, a: Json, k2: &str, b: Json) -> (r: Json)
        ensures
            r@ == JVal::Obj(seq![(k1@, a@), (k2@, b@)]),
    {
        let mut v: Vec<(String, Json)> = Vec::new();
        v.push((k1.to_owned(), a));
        v.push((k2.to_owned(), b));
        let r = Json::Obj(v);
        proof {
            assert(jval_of(r)->Obj_0 =~~= seq![(k1@, a@), (k2@, b@)]);
            assert(jval_of(r) == JVal::Obj(jval_of(r)->Obj_0));
        }
        r
    }

    /// A three-entry object wire value.
    pub fn obj3(k1: &str, a: Json, k2: &str, b: Json, k3: &str, c: Json) -> (r: Json)
        ensures
            r@ == JVal::Obj(seq![(k1@, a@), (k2@, b@), (k3@, c@)]),
    {
        let mut v: Vec<(String, Json)> = Vec::new();
        v.push((k1.to_owned(), a));
        v.push((k2.to_owned(), b));
        v.push((k3.to_owned(), c));
        let r = Json::Obj(v);
        proof {
            assert(jval_of(r)->Obj_0 =~~= seq![(k1@, a@), (k2@, b@), (k3@, c@)]);
            assert(jval_of(r) == JVal::Obj(jval_of(r)->Obj_0));
        }
        r
    }

    /// A four-entry object wire value.
    pub fn obj4(k1: &str, a: Json, k2: &str, b: Json, k3: &str, c: Json, k4: &str, d: Json) -> (r:
        Json)
        ensures
            r@ == JVal::Obj(seq![(k1@, a@), (k2@, b@), (k3@, c@), (k4@, d@)]),
    {
        let mut v: Vec<(String, Json)> = Vec::new();
        v.push((k1.to_owned(), a));
        v.push((k2.to_owned(), b));
        v.push((k3.to_owned(), c));
        v.push((k4.to_owned(), d));
        let r = Json::Obj(v);
        proof {
            assert(jval_of(r)->Obj_0 =~~= seq![(k1@, a@), (k2@, b@), (k3@, c@), (k4@, d@)]);
            assert(jval_of(r) == JVal::Obj(jval_of(r)->Obj_0));
        }
        r
    }
}

/// Relies on `String::from` for `char`: the returned string holds exactly
/// that character.
#[verifier::external_body]
pub(crate) fn string_of_char(ch: char) -> (s: String)
    ensures
        s@ == seq![ch],
{
    String::from(ch)
}

} // verus!
