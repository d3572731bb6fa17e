use vstd::prelude::*;

use crate::env::ExternalEnv;
use crate::error::RuntimeError;
use crate::expression::{
    eval, resolved_view, type_of, CallBody, Context, Expr, Resolved,
};
use crate::function::{ArgumentList, CompileError, Example, NativeEntry, Parameter, Symbol};
use crate::kind::{Kind, TypeDef};
use crate::value::{Data, Tag, Value};

verus! {

/// What the `object` built-in gives for a value: the value itself where it
/// is an object, an error naming its kind otherwise.
pub open spec fn spec_object(v: Data) -> Result<Data, Seq<char>> {
    if v.tag() == Tag::Object {
        Ok(v)
    } else {
        Err("expected object, got "@ + v.tag().spec_name())
    }
}

/// `object` applied to the outcome of its argument: an error of the argument
/// passes through.
pub open spec fn object_resolve(arg: Result<Data, Seq<char>>) -> Result<Data, Seq<char>> {
    match arg {
        Ok(v) => spec_object(v),
        Err(m) => Err(m),
    }
}

/// Checks that `value` is an object, handing it back unchanged if so.
pub fn object(value: Value) -> (r: Resolved)
    ensures
        resolved_view(r) == spec_object(value@),
        r is Ok ==> r == Ok::<Value, RuntimeError>(value),
{
    let tag = value.tag();
    match tag {
        Tag::Object => Ok(value),
        _ => {
            let mut message = String::from_str("expected object, got ");
            message.append(tag.name());
            Err(RuntimeError { message })
        },
    }
}

/// The `object` built-in: it checks that its one argument is an object.
#[derive(Clone, Copy, Debug)]
pub struct Object;

/// The parameters of `object`: one required `value` of any kind.
pub open spec fn object_parameters() -> Seq<Parameter> {
    seq![Parameter { keyword: "value", kind: Kind::spec_any(), required: true }]
}

/// The node of `object` built over the expression of its argument.
pub open spec fn object_compiled(arg: Expr) -> CallBody {
    CallBody::Object(ObjectFn { value: arg })
}

impl Object {
    pub fn identifier(&self) -> (r: &'static str)
        ensures
            r@ == "object"@,
    {
        "object"
    }

    pub fn parameters(&self) -> (r: Vec<Parameter>)
        ensures
            r@ == object_parameters(),
    {
        let r = vec![Parameter { keyword: "value", kind: Kind::any(), required: true }];
        proof {
            assert(r@ =~= object_parameters());
        }
        r
    }

    pub fn examples(&self) -> (r: Vec<Example>)
        ensures
            r@.len() == 2,
            r@[0].title@ == "valid"@,
            r@[1].title@ == "invalid"@,
            r@[0].source@ == "object({\"foo\": \"bar\"})"@,
            r@[0].result == Ok::<&'static str, &'static str>("{\"foo\": \"bar\"}"),
            r@[1].source@ == "object!(true)"@,
            r@[1].result == Err::<&'static str, &'static str>(
                "function call error for \"object\" at (0:13): expected object, got boolean",
            ),
    {
        vec![
            Example {
                title: "valid",
                source: "object({\"foo\": \"bar\"})",
                result: Ok("{\"foo\": \"bar\"}"),
            },
            Example {
                title: "invalid",
                source: "object!(true)",
                result: Err(
                    "function call error for \"object\" at (0:13): expected object, got boolean",
                ),
            },
        ]
    }

    /// Builds, from the bound arguments, the node that evaluates the
    /// argument and checks at run time that it is an object. It reads no
    /// static fact of `_env`; the caller frames the node as a call.
    pub fn compile(&self, _env: &ExternalEnv, arguments: ArgumentList) -> (r: Result<
        CallBody,
        CompileError,
    >)
        requires
            arguments.values@.len() == 1,
            arguments.values@[0] is Some,
        ensures
            r == Ok::<CallBody, CompileError>(object_compiled(arguments.values@[0]->Some_0)),
    {
        let mut arguments = arguments;
        let value = arguments.required(0);
        Ok(CallBody::Object(ObjectFn { value }))
    }

    /// The native entry point of `object`.
    pub fn symbol(&self) -> (r: Option<Symbol>)
        ensures
            r matches Some(sym) && sym.name@ == "vrl_fn_object"@ && sym.entry == NativeEntry::Object,
    {
        Some(Symbol { name: "vrl_fn_object", entry: NativeEntry::Object })
    }
}

/// The compiled node of a call of `object`.
#[derive(Debug)]
pub struct ObjectFn {
    pub value: Expr,
}

impl ObjectFn {
    pub fn resolve(&self, ctx: &mut Context) -> (r: Resolved)
        ensures
            *final(ctx) == *old(ctx),
            resolved_view(r) == object_resolve(eval(self.value, old(ctx).record@)),
        decreases self,
    {
        match self.value.resolve(ctx) {
            Ok(v) => object(v),
            Err(e) => Err(e),
        }
    }

    pub fn type_def(&self, env: &ExternalEnv) -> (r: TypeDef)
        ensures
            r.kind == Kind::spec_of_tag(Tag::Object),
            r.fallible == (type_of(self.value, *env).fallible || !type_of(
                self.value,
                *env,
            ).kind.spec_is_subset(
                Kind::spec_of_tag(Tag::Object),
            )),
        decreases self,
    {
        let object_kind = Kind::object();
        self.value.type_def(env).fallible_unless(&object_kind).restrict_object()
    }
}

/// The native entry point of `object`. It takes the value out of `value`,
/// leaving null behind whatever the outcome, and writes to `result` what
/// `object` gives for it.
pub fn vrl_fn_object(value: &mut Value, result: &mut Resolved)
    ensures
        *final(value) == Value::Null,
        resolved_view(*final(result)) == spec_object(old(value)@),
{
    let mut moved = Value::Null;
    std::mem::swap(value, &mut moved);
    *result = object(moved);
}

} // verus!
