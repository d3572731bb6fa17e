use vstd::prelude::*;

use crate::env::ExternalEnv;
use crate::error::{call_error, call_error_message, RuntimeError, Span};
use crate::kind::{Kind, TypeDef};
use crate::object::{object_resolve, ObjectFn};
use crate::value::{Data, Tag, Value};

verus! {

/// The outcome of evaluating an expression.
pub type Resolved = Result<Value, RuntimeError>;

pub open spec fn resolved_view(r: Resolved) -> Result<Data, Seq<char>> {
    match r {
        Ok(v) => Ok(v@),
        Err(e) => Err(e@),
    }
}

/// The per-evaluation state: the record being transformed.
#[derive(Debug)]
pub struct Context {
    pub record: Value,
}

/// A compiled expression. Each node owns its children.
#[derive(Debug)]
pub enum Expr {
    /// A constant value.
    Literal(Value),
    /// The field of that name of the current record; null where it has none.
    Query(String),
    /// A call of a built-in function.
    Call(Box<FunctionCall>),
}

/// A compiled call site: where it stands and the built-in's node.
#[derive(Debug)]
pub struct FunctionCall {
    pub span: Span,
    pub body: CallBody,
}

/// The compiled node of each built-in.
#[derive(Debug)]
pub enum CallBody {
    Object(ObjectFn),
}

/// The value of the field `key` of an object's fields: the first one of that
/// name, or null where there is none.
pub open spec fn field_of(fields: Seq<(Seq<char>, Data)>, key: Seq<char>) -> Data
    decreases fields.len(),
{
    if fields.len() == 0 {
        Data::Null
    } else if fields[0].0 == key {
        fields[0].1
    } else {
        field_of(fields.drop_first(), key)
    }
}

/// The value of the field `key` of a record; null where the record is no
/// object or lacks the field.
pub open spec fn lookup(record: Data, key: Seq<char>) -> Data {
    match record {
        Data::Object(fields) => field_of(fields, key),
        _ => Data::Null,
    }
}

impl CallBody {
    pub open spec fn spec_identifier(&self) -> Seq<char> {
        match self {
            CallBody::Object(_) => "object"@,
        }
    }

    pub fn identifier(&self) -> (r: &'static str)
        ensures
            r@ == self.spec_identifier(),
    {
        match self {
            CallBody::Object(_) => "object",
        }
    }

    /// Evaluates the built-in's node; an error comes out as the built-in
    /// raised it, with no frame.
    pub fn resolve(&self, ctx: &mut Context) -> (r: Resolved)
        ensures
            *final(ctx) == *old(ctx),
            resolved_view(r) == eval_body(*self, old(ctx).record@),
        decreases self,
    {
        match self {
            CallBody::Object(f) => f.resolve(ctx),
        }
    }

    /// The static type of the built-in's node under `env`.
    pub fn type_def(&self, env: &ExternalEnv) -> (r: TypeDef)
        ensures
            r == type_of_body(*self, *env),
        decreases self,
    {
        match self {
            CallBody::Object(f) => f.type_def(env),
        }
    }
}

/// What a built-in's node gives against `record`, before the call frames
/// its error.
pub open spec fn eval_body(b: CallBody, record: Data) -> Result<Data, Seq<char>> {
    match b {
        CallBody::Object(f) => object_resolve(eval(f.value, record)),
    }
}

/// What evaluating `e` against `record` gives.
pub open spec fn eval(e: Expr, record: Data) -> Result<Data, Seq<char>>
    decreases e,
{
    match e {
        Expr::Literal(v) => Ok(v@),
        Expr::Query(k) => Ok(lookup(record, k@)),
        Expr::Call(c) => {
            let inner = match c.body {
                CallBody::Object(f) => object_resolve(eval(f.value, record)),
            };
            match inner {
                Ok(v) => Ok(v),
                Err(m) => Err(call_error(c.body.spec_identifier(), c.span, m)),
            }
        },
    }
}

/// The static type of a built-in's node under `env`: an object, fallible
/// where its argument is, or where the argument may be something else.
pub open spec fn type_of_body(b: CallBody, env: ExternalEnv) -> TypeDef {
    match b {
        CallBody::Object(f) => {
            let arg = type_of(f.value, env);
            TypeDef {
                kind: Kind::spec_of_tag(Tag::Object),
                fallible: arg.fallible || !arg.kind.spec_is_subset(Kind::spec_of_tag(Tag::Object)),
            }
        },
    }
}

/// Whether every constant that `e` holds is well formed.
pub open spec fn literals_wf(e: Expr) -> bool
    decreases e,
{
    match e {
        Expr::Literal(v) => v@.wf(),
        Expr::Query(_) => true,
        Expr::Call(c) => match c.body {
            CallBody::Object(f) => literals_wf(f.value),
        },
    }
}

/// The static type of `e` under `env`.
pub open spec fn type_of(e: Expr, env: ExternalEnv) -> TypeDef
    decreases e,
{
    match e {
        Expr::Literal(v) => TypeDef { kind: Kind::spec_of_tag(v@.tag()), fallible: false },
        Expr::Query(k) => TypeDef { kind: env.spec_kind_of(k@), fallible: false },
        Expr::Call(c) => match c.body {
            CallBody::Object(f) => {
                let arg = type_of(f.value, env);
                TypeDef {
                    kind: Kind::spec_of_tag(Tag::Object),
                    fallible: arg.fallible || !arg.kind.spec_is_subset(
                        Kind::spec_of_tag(Tag::Object),
                    ),
                }
            },
        },
    }
}

impl Context {
    /// A fresh copy of the field `key` of the record.
    pub fn get(&self, key: &String) -> (r: Value)
        ensures
            r@ == lookup(self.record@, key@),
    {
        match &self.record {
            Value::Object(fields) => {
                let ghost model = self.record@;
                let ghost s = model->Object_0;
                proof {
                    assert(s.subrange(0, s.len() as int) =~= s);
                }
                let mut i: usize = 0;
                while i < fields.len()
                    invariant
                        i <= fields@.len(),
                        lookup(self.record@, key@) == field_of(s, key@),
                        s.len() == fields@.len(),
                        forall|j: int|
                            0 <= j < s.len() ==> (#[trigger] s[j]) == (
                            fields@[j].0@,
                            fields@[j].1@,
                        ),
                        field_of(s, key@) == field_of(s.subrange(i as int, s.len() as int), key@),
                    decreases fields@.len() - i,
                {
                    proof {
                        let rest = s.subrange(i as int, s.len() as int);
                        assert(rest.drop_first() =~= s.subrange(i + 1, s.len() as int));
                        assert(rest[0] == s[i as int]);
                    }
                    if fields[i].0 == *key {
                        return fields[i].1.duplicate();
                    }
                    i = i + 1;
                }
                Value::Null
            },
            _ => Value::Null,
        }
    }
}

impl Expr {
    /// Evaluates the expression against the context's record.
    pub fn resolve(&self, ctx: &mut Context) -> (r: Resolved)
        ensures
            *final(ctx) == *old(ctx),
            resolved_view(r) == eval(*self, old(ctx).record@),
        decreases self,
    {
        match self {
            Expr::Literal(v) => Ok(v.duplicate()),
            Expr::Query(k) => Ok(ctx.get(k)),
            Expr::Call(c) => c.resolve(ctx),
        }
    }

    /// The static type of the expression under `env`.
    pub fn type_def(&self, env: &ExternalEnv) -> (r: TypeDef)
        ensures
            r == type_of(*self, *env),
        decreases self,
    {
        match self {
            Expr::Literal(v) => TypeDef::infallible(Kind::of_tag(v.tag())),
            Expr::Query(k) => TypeDef::infallible(env.kind_of(k)),
            Expr::Call(c) => c.type_def(env),
        }
    }
}

impl FunctionCall {
    /// Evaluates the built-in's node, framing any error with the function's
    /// name and the call's place.
    pub fn resolve(&self, ctx: &mut Context) -> (r: Resolved)
        ensures
            *final(ctx) == *old(ctx),
            resolved_view(r) == eval(Expr::Call(Box::new(*self)), old(ctx).record@),
        decreases self,
    {
        match self.body.resolve(ctx) {
            Ok(v) => Ok(v),
            Err(e) => Err(
                RuntimeError {
                    message: call_error_message(self.body.identifier(), self.span, e.message.as_str()),
                },
            ),
        }
    }

    pub fn type_def(&self, env: &ExternalEnv) -> (r: TypeDef)
        ensures
            r == type_of(Expr::Call(Box::new(*self)), *env),
        decreases self,
    {
        self.body.type_def(env)
    }
}

} // verus!
