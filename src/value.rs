use vstd::prelude::*;

verus! {

broadcast use vstd::std_specs::vec::axiom_vec_index_decreases;

/// The tag of a value: which variant it is, without its contents.
#[derive(Clone, Copy, Debug, PartialEq, Eq, Structural)]
pub enum Tag {
    Null,
    Boolean,
    Integer,
    Float,
    Bytes,
    Timestamp,
    Regex,
    Array,
    Object,
}

/// A dynamically typed value. A float is held as its IEEE-754 bit pattern,
/// a timestamp as nanoseconds since the Unix epoch, a regex as its pattern.
/// An object's fields keep their order of insertion, and its keys are unique
/// (see `wf`).
#[derive(Debug, PartialEq)]
pub enum Value {
    Null,
    Boolean(bool),
    Integer(i64),
    Float(u64),
    Bytes(Vec<u8>),
    Timestamp(i64),
    Regex(String),
    Array(Vec<Value>),
    Object(Vec<(String, Value)>),
}

/// The mathematical model of a `Value`.
pub enum Data {
    Null,
    Boolean(bool),
    Integer(int),
    Float(u64),
    Bytes(Seq<u8>),
    Timestamp(int),
    Regex(Seq<char>),
    Array(Seq<Data>),
    Object(Seq<(Seq<char>, Data)>),
}

impl Value {
    pub open spec fn view(&self) -> Data
        decreases *self,
    {
        match *self {
            Value::Null => Data::Null,
            Value::Boolean(b) => Data::Boolean(b),
            Value::Integer(i) => Data::Integer(i as int),
            Value::Float(f) => Data::Float(f),
            Value::Bytes(b) => Data::Bytes(b@),
            Value::Timestamp(t) => Data::Timestamp(t as int),
            Value::Regex(r) => Data::Regex(r@),
            Value::Array(items) => Data::Array(
                Seq::new(items@.len(), |i: int|
                    if 0 <= i < items@.len() { items@[i].view() } else { Data::Null },
                ),
            ),
            Value::Object(fields) => Data::Object(
                Seq::new(fields@.len(), |i: int|
                    if 0 <= i < fields@.len() {
                        (fields@[i].0@, fields@[i].1.view())
                    } else {
                        (Seq::empty(), Data::Null)
                    },
                ),
            ),
        }
    }
}


impl Tag {
    /// The name under which a tag is reported to users; bytes read as a string.
    pub open spec fn spec_name(self) -> Seq<char> {
        match self {
            Tag::Null => "null"@,
            Tag::Boolean => "boolean"@,
            Tag::Integer => "integer"@,
            Tag::Float => "float"@,
            Tag::Bytes => "string"@,
            Tag::Timestamp => "timestamp"@,
            Tag::Regex => "regex"@,
            Tag::Array => "array"@,
            Tag::Object => "object"@,
        }
    }

    pub fn name(self) -> (r: &'static str)
        ensures
            r@ == self.spec_name(),
    {
        match self {
            Tag::Null => "null",
            Tag::Boolean => "boolean",
            Tag::Integer => "integer",
            Tag::Float => "float",
            Tag::Bytes => "string",
            Tag::Timestamp => "timestamp",
            Tag::Regex => "regex",
            Tag::Array => "array",
            Tag::Object => "object",
        }
    }
}

impl Data {
    /// Whether the value is a proper tree of values: in every object it
    /// holds, each key stands once.
    pub open spec fn wf(self) -> bool
        decreases self,
    {
        match self {
            Data::Array(items) => forall|i: int|
                0 <= i < items.len() ==> (#[trigger] items[i]).wf(),
            Data::Object(fields) => {
                &&& forall|i: int, j: int|
                    0 <= i < j < fields.len() ==> (#[trigger] fields[i]).0 != (#[trigger] fields[j]).0
                &&& forall|i: int| 0 <= i < fields.len() ==> (#[trigger] fields[i]).1.wf()
            },
            _ => true,
        }
    }

    pub open spec fn tag(self) -> Tag {
        match self {
            Data::Null => Tag::Null,
            Data::Boolean(_) => Tag::Boolean,
            Data::Integer(_) => Tag::Integer,
            Data::Float(_) => Tag::Float,
            Data::Bytes(_) => Tag::Bytes,
            Data::Timestamp(_) => Tag::Timestamp,
            Data::Regex(_) => Tag::Regex,
            Data::Array(_) => Tag::Array,
            Data::Object(_) => Tag::Object,
        }
    }
}

impl Value {
    pub fn tag(&self) -> (r: Tag)
        ensures
            r == self@.tag(),
    {
        match self {
            Value::Null => Tag::Null,
            Value::Boolean(_) => Tag::Boolean,
            Value::Integer(_) => Tag::Integer,
            Value::Float(_) => Tag::Float,
            Value::Bytes(_) => Tag::Bytes,
            Value::Timestamp(_) => Tag::Timestamp,
            Value::Regex(_) => Tag::Regex,
            Value::Array(_) => Tag::Array,
            Value::Object(_) => Tag::Object,
        }
    }

    /// A fresh deep copy, sharing nothing with `self`.
    pub fn duplicate(&self) -> (r: Value)
        ensures
            r@ == self@,
        decreases self,
    {
        match self {
            Value::Null => Value::Null,
            Value::Boolean(b) => Value::Boolean(*b),
            Value::Integer(i) => Value::Integer(*i),
            Value::Float(f) => Value::Float(*f),
            Value::Bytes(b) => {
                let mut out: Vec<u8> = Vec::new();
                let mut i: usize = 0;
                while i < b.len()
                    invariant
                        i <= b@.len(),
                        out@ == b@.subrange(0, i as int),
                    decreases b@.len() - i,
                {
                    out.push(b[i]);
                    i = i + 1;
                    proof {
                        assert(out@ =~= b@.subrange(0, i as int));
                    }
                }
                proof {
                    assert(out@ =~= b@);
                }
                Value::Bytes(out)
            },
            Value::Timestamp(t) => Value::Timestamp(*t),
            Value::Regex(r) => Value::Regex(r.clone()),
            Value::Array(items) => {
                let mut out: Vec<Value> = Vec::new();
                let mut i: usize = 0;
                while i < items.len()
                    invariant
                        i <= items@.len(),
                        *self == Value::Array(*items),
                        out@.len() == i,
                        forall|j: int| 0 <= j < i ==> (#[trigger] out@[j])@ == items@[j]@,
                    decreases items@.len() - i,
                {
                    proof {
                        assert(decreases_to!(*self => self->Array_0));
                        assert(decreases_to!(*items => items@[i as int]));
                        assert(decreases_to!(*self => items@[i as int]));
                    }
                    let item = items[i].duplicate();
                    out.push(item);
                    i = i + 1;
                }
                let r = Value::Array(out);
                proof {
                    assert(r@ == self@) by {
                        if let Data::Array(a) = r@ {
                            if let Data::Array(b) = self@ {
                                assert(a =~= b);
                            }
                        }
                    }
                }
                r
            },
            Value::Object(fields) => {
                let mut out: Vec<(String, Value)> = Vec::new();
                let mut i: usize = 0;
                while i < fields.len()
                    invariant
                        i <= fields@.len(),
                        *self == Value::Object(*fields),
                        out@.len() == i,
                        forall|j: int|
                            0 <= j < i ==> (#[trigger] out@[j]).0@ == fields@[j].0@
                                && out@[j].1@ == fields@[j].1@,
                    decreases fields@.len() - i,
                {
                    let key = fields[i].0.clone();
                    proof {
                        assert(decreases_to!(*self => self->Object_0));
                        assert(decreases_to!(*fields => fields@[i as int]));
                        assert(decreases_to!(fields@[i as int] => fields@[i as int].1));
                        assert(decreases_to!(*self => fields@[i as int].1));
                    }
                    let item = fields[i].1.duplicate();
                    out.push((key, item));
                    i = i + 1;
                }
                let r = Value::Object(out);
                proof {
                    assert(r@ == self@) by {
                        if let Data::Object(a) = r@ {
                            if let Data::Object(b) = self@ {
                                assert(a =~= b);
                            }
                        }
                    }
                }
                r
            },
        }
    }
}

} // verus!
