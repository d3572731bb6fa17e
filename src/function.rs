use vstd::prelude::*;

use crate::env::ExternalEnv;
use crate::error::Span;
use crate::expression::{resolved_view, type_of, Expr, FunctionCall, Resolved};
use crate::kind::Kind;
use crate::object::{object_compiled, object_parameters, spec_object, vrl_fn_object, Object};
use crate::value::{Data, Value};

verus! {

/// A parameter of a built-in: its keyword, the kind of value it takes, and
/// whether a call must supply it.
#[derive(Clone, Copy, Debug)]
pub struct Parameter {
    pub keyword: &'static str,
    pub kind: Kind,
    pub required: bool,
}

/// A documented use of a built-in: its source, and the value it prints or
/// the text of the error it raises.
#[derive(Clone, Copy, Debug)]
pub struct Example {
    pub title: &'static str,
    pub source: &'static str,
    pub result: Result<&'static str, &'static str>,
}

/// An argument as written at a call site: its keyword, if it was named, and
/// its compiled expression.
#[derive(Debug)]
pub struct Argument {
    pub keyword: Option<String>,
    pub value: Expr,
}

/// The arguments of a call bound to the built-in's parameters: one slot per
/// parameter, in the parameters' order, empty where the call left an
/// optional parameter out.
#[derive(Debug)]
pub struct ArgumentList {
    pub values: Vec<Option<Expr>>,
}

/// An error that stops the compilation of a program.
#[derive(Clone, Copy, Debug, PartialEq, Eq, Structural)]
pub enum CompileError {
    /// No built-in has that identifier.
    UnknownFunction { span: Span },
    /// The call gives more arguments than the built-in has parameters.
    TooManyArguments { span: Span },
    /// The argument at `index` names a keyword other than its parameter's.
    UnexpectedKeyword { index: usize, span: Span },
    /// The call leaves out the required parameter at `index`.
    MissingArgument { index: usize, span: Span },
    /// No value of the argument's static kind is of the kind expected.
    KindMismatch { index: usize, expected: Kind, found: Kind, span: Span },
    /// The call may fail at run time and is not written in the form that
    /// handles its error.
    UnhandledFallible { span: Span },
}

/// Whether an argument names a keyword other than that of its parameter.
pub open spec fn keyword_mismatch(p: Parameter, a: Argument) -> bool {
    match a.keyword {
        Some(k) => k@ != p.keyword@,
        None => false,
    }
}

/// The first error among the arguments from `i` on, under `env`.
pub open spec fn argument_error(
    params: Seq<Parameter>,
    args: Seq<Argument>,
    env: ExternalEnv,
    i: int,
    span: Span,
) -> Option<CompileError>
    decreases args.len() - i,
{
    if i < 0 || i >= args.len() {
        None
    } else if keyword_mismatch(params[i], args[i]) {
        Some(CompileError::UnexpectedKeyword { index: i as usize, span })
    } else if !type_of(args[i].value, env).kind.spec_intersects(params[i].kind) {
        Some(
            CompileError::KindMismatch {
                index: i as usize,
                expected: params[i].kind,
                found: type_of(args[i].value, env).kind,
                span,
            },
        )
    } else {
        argument_error(params, args, env, i + 1, span)
    }
}

/// The first required parameter from `i` on, reported as missing.
pub open spec fn missing_error(params: Seq<Parameter>, i: int, span: Span) -> Option<CompileError>
    decreases params.len() - i,
{
    if i < 0 || i >= params.len() {
        None
    } else if params[i].required {
        Some(CompileError::MissingArgument { index: i as usize, span })
    } else {
        missing_error(params, i + 1, span)
    }
}

/// The error, if any, of binding `args` by position to `params`, under
/// `env`.
pub open spec fn bind_error(
    params: Seq<Parameter>,
    args: Seq<Argument>,
    env: ExternalEnv,
    span: Span,
) -> Option<CompileError> {
    if args.len() > params.len() {
        Some(CompileError::TooManyArguments { span })
    } else {
        match argument_error(params, args, env, 0, span) {
            Some(e) => Some(e),
            None => missing_error(params, args.len() as int, span),
        }
    }
}

/// Whether two texts are equal, character for character.
pub fn same_text(a: &str, b: &str) -> (r: bool)
    ensures
        r == (a@ == b@),
{
    let n = a.unicode_len();
    if n != b.unicode_len() {
        return false;
    }
    let mut i: usize = 0;
    while i < n
        invariant
            n == a@.len(),
            n == b@.len(),
            i <= n,
            forall|j: int| 0 <= j < i ==> a@[j] == b@[j],
        decreases n - i,
    {
        if a.get_char(i) != b.get_char(i) {
            return false;
        }
        i = i + 1;
    }
    proof {
        assert(a@ =~= b@);
    }
    true
}

impl ArgumentList {
    /// Binds the arguments of a call, by position, to `params`. A named
    /// argument must carry its parameter's keyword, its static kind must meet
    /// the parameter's, and every required parameter must be given.
    pub fn bind(
        params: &Vec<Parameter>,
        args: Vec<Argument>,
        env: &ExternalEnv,
        span: Span,
    ) -> (r: Result<ArgumentList, CompileError>)
        ensures
            r is Err <==> bind_error(params@, args@, *env, span) is Some,
            r matches Err(e) ==> bind_error(params@, args@, *env, span) == Some(e),
            r matches Ok(list) ==> {
                &&& list.values@.len() == params@.len()
                &&& forall|i: int|
                    0 <= i < args@.len() ==> #[trigger] list.values@[i] == Some(args@[i].value)
                &&& forall|i: int| args@.len() <= i < params@.len() ==> #[trigger] list.values@[i] is None
            },
    {
        if args.len() > params.len() {
            return Err(CompileError::TooManyArguments { span });
        }
        let mut i: usize = 0;
        while i < args.len()
            invariant
                args@.len() <= params@.len(),
                i <= args@.len(),
                argument_error(params@, args@, *env, 0, span) == argument_error(
                    params@,
                    args@,
                    *env,
                    i as int,
                    span,
                ),
            decreases args@.len() - i,
        {
            let wrong_keyword = match &args[i].keyword {
                Some(k) => !same_text(k.as_str(), params[i].keyword),
                None => false,
            };
            if wrong_keyword {
                return Err(CompileError::UnexpectedKeyword { index: i, span });
            }
            let found = args[i].value.type_def(env).kind;
            if !found.intersects(&params[i].kind) {
                return Err(
                    CompileError::KindMismatch { index: i, expected: params[i].kind, found, span },
                );
            }
            i = i + 1;
        }
        let mut j: usize = args.len();
        while j < params.len()
            invariant
                args@.len() <= j <= params@.len(),
                argument_error(params@, args@, *env, 0, span) is None,
                missing_error(params@, args@.len() as int, span) == missing_error(
                    params@,
                    j as int,
                    span,
                ),
            decreases params@.len() - j,
        {
            if params[j].required {
                return Err(CompileError::MissingArgument { index: j, span });
            }
            j = j + 1;
        }
        let ghost given = args@;
        let mut rest = args;
        let mut values: Vec<Option<Expr>> = Vec::new();
        while rest.len() > 0
            invariant
                values@.len() + rest@.len() == given.len(),
                rest@ == given.subrange(values@.len() as int, given.len() as int),
                forall|k: int| 0 <= k < values@.len() ==> #[trigger] values@[k] == Some(given[k].value),
            decreases rest@.len(),
        {
            let a = rest.remove(0);
            proof {
                assert(a == given[values@.len() as int]);
            }
            values.push(Some(a.value));
            proof {
                assert(rest@ =~= given.subrange(values@.len() as int, given.len() as int));
            }
        }
        while values.len() < params.len()
            invariant
                given.len() <= values@.len() <= params@.len(),
                forall|k: int| 0 <= k < given.len() ==> #[trigger] values@[k] == Some(given[k].value),
                forall|k: int| given.len() <= k < values@.len() ==> #[trigger] values@[k] is None,
            decreases params@.len() - values@.len(),
        {
            values.push(None);
        }
        Ok(ArgumentList { values })
    }

    /// Takes the expression bound to the parameter at `index`, leaving the
    /// slot empty.
    pub fn required(&mut self, index: usize) -> (r: Expr)
        requires
            index < old(self).values@.len(),
            old(self).values@[index as int] is Some,
        ensures
            r == old(self).values@[index as int]->Some_0,
            final(self).values@ == old(self).values@.update(index as int, None),
    {
        let slot = self.values.remove(index);
        self.values.insert(index, None);
        proof {
            assert(self.values@ =~= old(self).values@.update(index as int, None));
        }
        match slot {
            Some(e) => e,
            None => {
                proof {
                    assert(false);
                }
                Expr::Literal(Value::Null)
            },
        }
    }
}

/// A native entry point: it computes what the interpreted node computes,
/// without going through the evaluator.
#[derive(Clone, Copy, Debug, PartialEq, Eq, Structural)]
pub enum NativeEntry {
    Object,
}

/// A native entry point with the name it is exported under.
#[derive(Clone, Copy, Debug)]
pub struct Symbol {
    pub name: &'static str,
    pub entry: NativeEntry,
}

impl NativeEntry {
    /// What the entry point writes for an input value.
    pub open spec fn spec_call(self, v: Data) -> Result<Data, Seq<char>> {
        match self {
            NativeEntry::Object => spec_object(v),
        }
    }

    /// Takes the value out of `value`, leaving null behind, and writes the
    /// outcome to `result`.
    pub fn call(&self, value: &mut Value, result: &mut Resolved)
        ensures
            *final(value) == Value::Null,
            resolved_view(*final(result)) == self.spec_call(old(value)@),
    {
        match self {
            NativeEntry::Object => vrl_fn_object(value, result),
        }
    }
}

/// The registry of built-in functions.
#[derive(Clone, Copy, Debug)]
pub enum Builtin {
    Object(Object),
}

/// What compiling a call of `identifier` on `args` at `span` gives;
/// `handled` tells whether the call is written in the form that handles its
/// error.
pub open spec fn compiled(
    env: ExternalEnv,
    identifier: Seq<char>,
    span: Span,
    handled: bool,
    args: Seq<Argument>,
) -> Result<Expr, CompileError> {
    if identifier != "object"@ {
        Err(CompileError::UnknownFunction { span })
    } else {
        match bind_error(object_parameters(), args, env, span) {
            Some(e) => Err(e),
            None => {
                let e = Expr::Call(Box::new(FunctionCall { span, body: object_compiled(args[0].value) }));
                if type_of(e, env).fallible && !handled {
                    Err(CompileError::UnhandledFallible { span })
                } else {
                    Ok(e)
                }
            },
        }
    }
}

impl Builtin {
    /// The built-in registered under `identifier`, if any.
    pub fn lookup(identifier: &str) -> (r: Option<Builtin>)
        ensures
            r is Some <==> identifier@ == "object"@,
            r is Some ==> r == Some(Builtin::Object(Object)),
    {
        if same_text(identifier, "object") {
            Some(Builtin::Object(Object))
        } else {
            None
        }
    }

    pub fn identifier(&self) -> (r: &'static str)
        ensures
            r@ == "object"@,
    {
        match self {
            Builtin::Object(f) => f.identifier(),
        }
    }

    pub fn parameters(&self) -> (r: Vec<Parameter>)
        ensures
            r@ == object_parameters(),
    {
        match self {
            Builtin::Object(f) => f.parameters(),
        }
    }

    pub fn symbol(&self) -> (r: Option<Symbol>)
        ensures
            r matches Some(sym) && sym.name@ == "vrl_fn_object"@ && sym.entry == NativeEntry::Object,
    {
        match self {
            Builtin::Object(f) => f.symbol(),
        }
    }
}

/// Compiles a call site: looks the identifier up, binds the arguments to the
/// built-in's parameters and lets the built-in build its node. A node that
/// may fail at run time is accepted only where `handled` says the call
/// handles its error. Static facts about the records come from `env`.
pub fn compile_call(
    env: &ExternalEnv,
    identifier: &str,
    span: Span,
    handled: bool,
    args: Vec<Argument>,
) -> (r: Result<Expr, CompileError>)
    ensures
        r == compiled(*env, identifier@, span, handled, args@),
{
    let ghost given = args@;
    match Builtin::lookup(identifier) {
        None => Err(CompileError::UnknownFunction { span }),
        Some(Builtin::Object(f)) => {
            let params = f.parameters();
            match ArgumentList::bind(&params, args, env, span) {
                Err(e) => Err(e),
                Ok(list) => {
                    proof {
                        assert(given.len() == 1) by {
                            if given.len() == 0 {
                                assert(missing_error(params@, 0, span) is Some);
                            }
                        }
                        assert(list.values@[0] == Some(given[0].value));
                    }
                    let node = f.compile(env, list);
                    match node {
                        Ok(body) => {
                            let e = Expr::Call(Box::new(FunctionCall { span, body }));
                            if e.type_def(env).fallible && !handled {
                                Err(CompileError::UnhandledFallible { span })
                            } else {
                                Ok(e)
                            }
                        },
                        Err(err) => Err(err),
                    }
                },
            }
        },
    }
}

} // verus!
