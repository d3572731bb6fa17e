use vstd::prelude::*;

use crate::env::ExternalEnv;
use crate::error::Span;
use crate::expression::{eval, eval_body, field_of, literals_wf, lookup, type_of, CallBody, Expr};
use crate::function::{
    argument_error, bind_error, compiled, keyword_mismatch, missing_error, Argument, NativeEntry,
};
use crate::kind::{Kind, TypeDef};
use crate::object::{object_compiled, object_parameters};
use crate::value::{Data, Tag, Value};

verus! {

/// The static type of an expression bounds what it evaluates to: against
/// every record that the environment admits, whatever value it gives has a
/// tag its kind admits, and an expression typed infallible evaluates
/// without error.
pub proof fn type_def_is_sound(e: Expr, env: ExternalEnv, record: Data)
    requires
        env.admits(record),
    ensures
        eval(e, record) matches Ok(v) ==> type_of(e, env).kind.contains(v.tag()),
        !type_of(e, env).fallible ==> eval(e, record) is Ok,
    decreases e,
{
    match e {
        Expr::Literal(v) => {},
        Expr::Query(k) => {
            assert(env.spec_kind_of(k@).contains(lookup(record, k@).tag()));
        },
        Expr::Call(c) => match c.body {
            CallBody::Object(f) => {
                type_def_is_sound(f.value, env, record);
                let object_kind = Kind::spec_of_tag(Tag::Object);
                if !type_of(e, env).fallible {
                    assert(!type_of(f.value, env).fallible);
                    assert(type_of(f.value, env).kind.spec_is_subset(object_kind));
                    let v = eval(f.value, record)->Ok_0;
                    assert(type_of(f.value, env).kind.contains(v.tag()));
                    assert(object_kind.contains(v.tag()));
                }
            },
        },
    }
}

/// A call of `object` whose argument is statically an object and cannot
/// fail compiles, even where it does not handle errors, and its node is
/// infallible.
pub proof fn object_call_on_object_is_infallible(env: ExternalEnv, span: Span, arg: Expr)
    requires
        type_of(arg, env) == (TypeDef { kind: Kind::spec_of_tag(Tag::Object), fallible: false }),
    ensures
        compiled(env, "object"@, span, false, seq![Argument { keyword: None, value: arg }]) matches Ok(e)
            && !type_of(e, env).fallible && type_of(e, env).kind == Kind::spec_of_tag(Tag::Object),
{
    let args = seq![Argument { keyword: None, value: arg }];
    assert(Kind::spec_of_tag(Tag::Object).contains(Tag::Object));
    assert(type_of(args[0].value, env).kind.spec_intersects(Kind::spec_of_tag(Tag::Object)));
    let params = object_parameters();
    assert(params[0].kind.contains(Tag::Object));
    assert(type_of(args[0].value, env).kind.spec_intersects(params[0].kind));
    assert(!keyword_mismatch(params[0], args[0]));
    assert(argument_error(params, args, env, 1, span) is None);
    assert(argument_error(params, args, env, 0, span) is None);
    assert(missing_error(params, 1, span) is None);
    assert(bind_error(params, args, env, span) is None);
}

/// The native entry point of `object` gives, for every input value, what
/// the node that `object` compiles to gives when its argument evaluates to
/// that value, error text included.
pub proof fn native_object_matches_interpreted(v: Value, record: Data)
    ensures
        NativeEntry::Object.spec_call(v@) == eval_body(object_compiled(Expr::Literal(v)), record),
{
}

proof fn field_of_keeps_wf(fields: Seq<(Seq<char>, Data)>, key: Seq<char>)
    requires
        forall|i: int| 0 <= i < fields.len() ==> (#[trigger] fields[i]).1.wf(),
    ensures
        field_of(fields, key).wf(),
    decreases fields.len(),
{
    if fields.len() > 0 && fields[0].0 != key {
        let rest = fields.drop_first();
        assert forall|i: int| 0 <= i < rest.len() implies (#[trigger] rest[i]).1.wf() by {
            assert(rest[i] == fields[i + 1]);
        }
        field_of_keeps_wf(rest, key);
    }
}

/// Evaluation yields trees whose objects have unique keys, wherever the
/// record and the expression's constants have them.
pub proof fn evaluation_keeps_values_well_formed(e: Expr, record: Data)
    requires
        record.wf(),
        literals_wf(e),
    ensures
        eval(e, record) matches Ok(v) ==> v.wf(),
    decreases e,
{
    match e {
        Expr::Literal(v) => {},
        Expr::Query(k) => {
            if let Data::Object(fields) = record {
                field_of_keeps_wf(fields, k@);
            }
        },
        Expr::Call(c) => match c.body {
            CallBody::Object(f) => {
                evaluation_keeps_values_well_formed(f.value, record);
            },
        },
    }
}

} // verus!
