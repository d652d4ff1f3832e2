//! The typing of pipelines.
//!
//! A pipeline `a |> b |> c` is rewritten while it is typed: each stage but
//! the last is bound to the variable `_pipe`, and each stage after the first
//! becomes a call that takes `_pipe` as an argument.

use crate::ast::{
    CallArg, CAPTURE_VARIABLE, FunctionLiteralKind, ImplicitCallArgOrigin, PIPE_VARIABLE,
    Publicity, SrcSpan, TypedExpr, TypedPipelineAssignment, UntypedExpr, UntypedStatement,
};
use crate::type_::typer::{Exchange, ExprTyper};
use crate::type_::{
    CallKind, convert_unify_error, Deprecation, Engine, Error, flip_unify_error, fn_,
    PanicPosition, Scope, share, Type, type_view, type_views, TypeView, UnifyError,
    UnifyErrorSituation,
    ValueConstructor, ValueConstructorVariant, VariableOrigin, Warning,
};
use vec1::Vec1;
use vstd::prelude::*;

verus! {

/// `vec1::Vec1`: a vector that is never empty. Nothing is known of one but
/// what the functions below say of its elements.
#[verifier::external_type_specification]
#[verifier::external_body]
#[verifier::reject_recursive_types(I)]
pub struct ExVec1<I>(Vec1<I>);

/// The stages that a pipeline holds, in their order.
pub uninterp spec fn stages(expressions: Vec1<UntypedExpr>) -> Seq<UntypedExpr>;

/// `Vec1::into_vec`: the elements in their order. There is at least one.
#[verifier::external_body]
pub(crate) fn into_stages(expressions: Vec1<UntypedExpr>) -> (r: Vec<UntypedExpr>)
    ensures
        r@ == stages(expressions),
        r.len() >= 1,
{
    expressions.into_vec()
}

/// `Vec1::len`: the number of elements, which is one at least.
#[verifier::external_body]
pub(crate) fn count_stages(expressions: &Vec1<UntypedExpr>) -> (r: usize)
    ensures
        r == stages(*expressions).len(),
        r >= 1,
{
    expressions.len()
}

/// What was asked of the engine after the record `before`, where `after` is
/// that record grown.
pub open spec fn asked_since(before: Seq<Exchange>, after: Seq<Exchange>) -> Option<Seq<Exchange>> {
    if before.len() <= after.len() && after.subrange(0, before.len() as int) == before {
        Some(after.skip(before.len() as int))
    } else {
        None
    }
}

/// What is asked in two runs, one after the other, is what is asked in the
/// first and in the second.
pub proof fn asked_on(first: Seq<Exchange>, second: Seq<Exchange>, last: Seq<Exchange>)
    requires
        asked_since(first, second) is Some,
        asked_since(second, last) is Some,
    ensures
        asked_since(first, last) == Some(
            asked_since(first, second).unwrap() + asked_since(second, last).unwrap(),
        ),
{
    assert(last.subrange(0, first.len() as int) =~= second.subrange(0, first.len() as int)) by {
        assert(second =~= last.subrange(0, second.len() as int));
    }
    assert(last.skip(first.len() as int) =~= second.skip(first.len() as int) + last.skip(
        second.len() as int,
    )) by {
        assert(second =~= last.subrange(0, second.len() as int));
    }
}

/// A record that has grown by one step: that step is what was asked.
pub proof fn asked_one(before: Seq<Exchange>, step: Exchange)
    ensures
        asked_since(before, before.push(step)) == Some(seq![step]),
        asked_since(before, before) == Some(Seq::<Exchange>::empty()),
{
    assert(before.push(step).subrange(0, before.len() as int) =~= before);
    assert(before.push(step).skip(before.len() as int) =~= seq![step]);
    assert(before.subrange(0, before.len() as int) =~= before);
    assert(before.skip(before.len() as int) =~= Seq::<Exchange>::empty());
}

/// The arguments handed over, where the exchange asks for the typing of a
/// call, written as one, of the typed callee `fun` at `location`.
pub open spec fn call_asked(exchange: Exchange, fun: TypedExpr, location: SrcSpan) -> Option<
    Seq<CallArg<UntypedExpr>>,
> {
    match exchange {
        Exchange::InferCallWithKnownFun { fun: callee, args, location: at, kind, .. } => if callee
            == fun && at == location && kind == CallKind::Function {
            Some(args)
        } else {
            None
        },
        _ => None,
    }
}

/// The call at `location` that the answer of the exchange gives, where the
/// exchange asks for the typing of a call.
pub open spec fn call_answered(exchange: Exchange, location: SrcSpan) -> Option<TypedExpr> {
    match exchange {
        Exchange::InferCall { answer, .. } | Exchange::InferCallWithKnownFun { answer, .. } => Some(
            TypedExpr::Call {
                location,
                type_: answer.2,
                fun: Box::new(answer.0),
                args: answer.1,
            },
        ),
        _ => None,
    }
}

/// The variables in scope when a question about an expression or a call was
/// put to the engine.
pub open spec fn seen(exchange: Exchange) -> Option<Scope> {
    match exchange {
        Exchange::Infer { scope, .. } => Some(scope),
        Exchange::InferCall { scope, .. } => Some(scope),
        Exchange::InferCallWithKnownFun { scope, .. } => Some(scope),
        _ => None,
    }
}

/// The first of the steps is a question put with the given variables in
/// scope.
pub open spec fn begun_in(asked: Seq<Exchange>, scope: Scope) -> bool {
    asked.len() >= 1 && seen(asked[0]) == Some(scope)
}

/// The typed form of an expression that a pipeline needs typed, with the
/// number of steps that it took. The engine is asked for the expression.
/// Where it has an error for an answer, the error is reported, and a
/// placeholder at `place`, of a type that the engine is asked for, stands
/// for the expression.
pub open spec fn stage_typed(asked: Seq<Exchange>, function: UntypedExpr, place: SrcSpan) -> Option<
    (TypedExpr, int),
> {
    if asked.len() < 1 {
        None
    } else {
        match asked[0] {
            Exchange::Infer { expr, answer, .. } => if expr != function {
                None
            } else {
                match answer {
                    Ok(typed) => Some((typed, 1)),
                    Err(error) => if asked.len() < 3 {
                        None
                    } else {
                        match (asked[1], asked[2]) {
                            (
                                Exchange::Report { error: told },
                                Exchange::NewUnboundVar { answer: variable },
                            ) => if told == error {
                                Some((TypedExpr::Invalid { location: place, type_: variable }, 3))
                            } else {
                                None
                            },
                            _ => None,
                        }
                    },
                }
            },
            _ => None,
        }
    }
}

/// Whether the engine could unify `t1` and `t2`, where that is the one thing
/// asked of it between the records `before` and `after`.
pub open spec fn asked_to_unify(
    before: Seq<Exchange>,
    after: Seq<Exchange>,
    t1: TypeView,
    t2: TypeView,
) -> Option<bool> {
    if after.len() == before.len() + 1 && after.drop_last() == before {
        match after.last() {
            Exchange::Unify { t1: first, t2: second, answer } => if first == t1 && second == t2 {
                Some(answer is Ok)
            } else {
                None
            },
            _ => None,
        }
    } else {
        None
    }
}

/// Ask the engine for the typed form of an expression. Where it has none,
/// its error is reported and a placeholder at `place`, of a type that the
/// engine is asked for, is handed back in its stead, so that the typing can
/// go on.
pub fn typed_or_placeholder<E: Engine>(
    expr_typer: &mut ExprTyper<E>,
    expr: UntypedExpr,
    place: SrcSpan,
) -> (r: TypedExpr)
    ensures
        asked_since(old(expr_typer).asked(), final(expr_typer).asked()) matches Some(asked)
            && stage_typed(asked, expr, place) == Some((r, asked.len() as int)) && begun_in(
            asked,
            *old(expr_typer).environment.scope,
        ),
        final(expr_typer).already_warned_for_unreachable_code == old(
            expr_typer,
        ).already_warned_for_unreachable_code,
{
    let ghost before = expr_typer.asked();
    let r = match expr_typer.infer(expr) {
        Ok(typed) => typed,
        Err(error) => {
            expr_typer.report(error);
            TypedExpr::Invalid { location: place, type_: expr_typer.new_unbound_var() }
        },
    };
    proof {
        let after = expr_typer.asked();
        let start = before.len() as int;
        assert(after.subrange(0, start) =~= before);
        let asked = after.skip(start);
        assert(asked[0] == after[start]);
        if asked.len() == 3 {
            assert(asked[1] == after[start + 1]);
            assert(asked[2] == after[start + 2]);
        }
    }
    r
}

/// A call stage `f(x)` is taken for `f(x)(value)`, and not for
/// `f(value, x)`, where `f` is a function of as many arguments as the stage
/// writes.
pub fn applies_to_call(callee: &Type, explicit: usize) -> (r: bool)
    ensures
        r == (*callee matches Type::Fn { args, .. } && args.len() == explicit),
{
    match callee {
        Type::Fn { args, .. } => args.len() == explicit,
        _ => false,
    }
}

/// The first parameter types of the two function types that an error is
/// about, where it is about two function types with as many parameters,
/// and at least one.
pub open spec fn first_arguments(error: UnifyError) -> Option<(Type, Type)> {
    match error {
        UnifyError::CouldNotUnify {
            expected: Type::Fn { args: a, .. },
            given: Type::Fn { args: b, .. },
            ..
        } => if a.len() == b.len() && a.len() > 0 {
            Some((a[0], b[0]))
        } else {
            None
        },
        _ => None,
    }
}

/// A copy of the two types that `first_arguments` names.
pub fn first_arguments_of(error: &UnifyError) -> (r: Option<(Type, Type)>)
    ensures
        match first_arguments(*error) {
            Some((a, b)) => r matches Some((x, y)) && x@ == a@ && y@ == b@,
            None => r is None,
        },
{
    match error {
        UnifyError::CouldNotUnify { expected, given, .. } => match expected {
            Type::Fn { args: a, .. } => match given {
                Type::Fn { args: b, .. } => {
                    if a.len() == b.len() && a.len() > 0 {
                        Some((a[0].clone(), b[0].clone()))
                    } else {
                        None
                    }
                },
                _ => None,
            },
            _ => None,
        },
        _ => None,
    }
}

/// The error to report where a stage cannot be a function of the value on
/// its left. It is a pipe mismatch where the first parameter is at fault;
/// else it is the mismatch as the stage sees it, with what was expected
/// and what was given in each other's place.
pub open spec fn reported(error: UnifyError, mismatch: bool, location: SrcSpan) -> Error {
    if mismatch {
        match error {
            UnifyError::CouldNotUnify { expected, given, .. } => Error::CouldNotUnify {
                location,
                expected,
                given,
                situation: Some(UnifyErrorSituation::PipeTypeMismatch),
            },
            UnifyError::RecursiveType => Error::RecursiveType { location },
        }
    } else {
        match error {
            UnifyError::CouldNotUnify { expected, given, situation } => Error::CouldNotUnify {
                location,
                expected: given,
                given: expected,
                situation,
            },
            UnifyError::RecursiveType => Error::RecursiveType { location },
        }
    }
}

/// The error `reported` for a failed unification.
pub fn pipe_error(error: UnifyError, mismatch: bool, location: SrcSpan) -> (r: Error)
    ensures
        r == reported(error, mismatch, location),
{
    if mismatch {
        convert_unify_error(error, location).with_unify_error_situation(
            UnifyErrorSituation::PipeTypeMismatch,
        )
    } else {
        convert_unify_error(flip_unify_error(error), location)
    }
}

/// An argument is the hole of a function capture: the variable `_capture`.
pub open spec fn capture_hole(arg: CallArg<UntypedExpr>) -> bool {
    arg.value matches UntypedExpr::Var { name, .. } && name@ == CAPTURE_VARIABLE@
}

/// Whether an argument is the hole of a function capture.
pub fn is_capture_hole(arg: &CallArg<UntypedExpr>) -> (r: bool)
    ensures
        r == capture_hole(*arg),
{
    match &arg.value {
        UntypedExpr::Var { name, .. } => {
            let hole = String::from_str(CAPTURE_VARIABLE);
            *name == hole
        },
        _ => false,
    }
}

/// Where a stage is a capture that only puts the value on its left into the
/// first place of a call, without a label: `a |> f(_, b)`. That is what a
/// pipe does by itself.
pub open spec fn redundant_capture(call: UntypedExpr) -> Option<SrcSpan> {
    match call {
        UntypedExpr::Fn { kind, body, .. } => if kind == FunctionLiteralKind::Capture && body.len()
            > 0 {
            match body[0] {
                UntypedStatement::Expression(UntypedExpr::Call { arguments, .. }) => if arguments.len()
                    > 0 && capture_hole(arguments[0]) && arguments[0].label is None {
                    Some(arguments[0].location)
                } else {
                    None
                },
                _ => None,
            }
        } else {
            None
        },
        _ => None,
    }
}

/// Where a stage is a capture that a pipe makes redundant.
pub fn redundant_capture_of(call: &UntypedExpr) -> (r: Option<SrcSpan>)
    ensures
        r == redundant_capture(*call),
{
    match call {
        UntypedExpr::Fn { kind, body, .. } => {
            if kind.is_capture() && body.len() > 0 {
                match &body[0] {
                    UntypedStatement::Expression(UntypedExpr::Call { arguments, .. }) => {
                        if arguments.len() > 0 && is_capture_hole(&arguments[0])
                            && arguments[0].label.is_none() {
                            Some(arguments[0].location)
                        } else {
                            None
                        }
                    },
                    _ => None,
                }
            } else {
                None
            }
        },
        _ => None,
    }
}

/// The call of a typed callee with typed arguments.
pub fn call_of(
    location: SrcSpan,
    inferred: (TypedExpr, Vec<CallArg<TypedExpr>>, Type),
) -> (r: TypedExpr)
    ensures
        r == (TypedExpr::Call {
            location,
            type_: inferred.2,
            fun: Box::new(inferred.0),
            args: inferred.1,
        }),
{
    let (fun, args, type_) = inferred;
    TypedExpr::Call { location, type_, args, fun: Box::new(fun) }
}

/// The expression is the pipeline's variable as it stands behind the stage
/// `previous`: at the place of that stage, and of its type.
pub open spec fn variable_behind(expr: TypedExpr, previous: TypedExpr) -> bool {
    match expr {
        TypedExpr::Var { location, name, constructor } => {
            &&& location == previous.span()
            &&& name@ == PIPE_VARIABLE@
            &&& constructor.publicity == Publicity::Public
            &&& constructor.deprecation == Deprecation::NotDeprecated
            &&& constructor.type_@ == previous.typ()@
            &&& constructor.variant == (ValueConstructorVariant::LocalVariable {
                location: previous.span(),
                origin: VariableOrigin::Generated,
            })
        },
        _ => false,
    }
}

/// The argument hands the value of the stage `previous` on: it is the
/// pipeline's variable, written by the pipe and not by the programmer.
pub open spec fn hands_on(arg: CallArg<TypedExpr>, previous: TypedExpr) -> bool {
    &&& arg.label is None
    &&& arg.location == previous.span()
    &&& arg.implicit == Some(ImplicitCallArgOrigin::Pipe)
    &&& variable_behind(arg.value, previous)
}

/// A stage after the first, rewritten. It is a call: at the place of the
/// stage where the stage is a function literal or a call, and else a call of
/// the stage itself whose only argument hands the value of the stage before
/// it on.
pub open spec fn piped(stage: UntypedExpr, previous: TypedExpr, rewritten: TypedExpr) -> bool {
    match rewritten {
        TypedExpr::Call { location, fun, args, .. } => match stage {
            UntypedExpr::Fn { location: at, .. } => location == at,
            UntypedExpr::Call { location: at, .. } => location == at,
            _ => location == fun.span() && args.len() == 1 && hands_on(args[0], previous),
        },
        _ => false,
    }
}

/// The `i`-th stage of a typed pipeline: what the `i`-th assignment binds,
/// or, behind the assignments, the last expression.
pub open spec fn typed_stage(
    assignments: Seq<TypedPipelineAssignment>,
    finally: TypedExpr,
    i: int,
) -> TypedExpr {
    if i < assignments.len() {
        assignments[i].value
    } else {
        finally
    }
}

/// The assignment binds a stage to the pipeline's variable, at the place of
/// the stage.
pub open spec fn bound_stage(assignment: TypedPipelineAssignment) -> bool {
    assignment.name@ == PIPE_VARIABLE@ && assignment.location == assignment.value.span()
}

/// The stages from the `from`-th on are rewritten in the typed stages from
/// the `base + from`-th on.
pub open spec fn piped_from(
    stages: Seq<UntypedExpr>,
    from: int,
    to: int,
    base: int,
    assignments: Seq<TypedPipelineAssignment>,
    finally: TypedExpr,
) -> bool {
    forall|i: int|
        from <= i < to ==> piped(
            #[trigger] stages[i],
            typed_stage(assignments, finally, base + i - 1),
            typed_stage(assignments, finally, base + i),
        )
}

/// A pipeline of the given stages in its typed form: all stages but the last
/// bound to the pipeline's variable, and the last; each stage after the first
/// rewritten into a call. The pipeline begins where its first stage was found
/// to begin, and ends where its last stage ends.
pub open spec fn desugared(pipeline: TypedExpr, stages: Seq<UntypedExpr>) -> bool {
    match pipeline {
        TypedExpr::Pipeline { location, assignments, finally } => {
            &&& assignments.len() + 1 == stages.len()
            &&& assignments.len() > 0 ==> location.start == assignments[0].value.span().start
            &&& location.end == stages.last().span().end
            &&& forall|i: int| 0 <= i < assignments.len() ==> bound_stage(#[trigger] assignments[i])
            &&& piped_from(stages, 1, stages.len() as int, 0, assignments@, *finally)
        },
        _ => false,
    }
}

/// The value that reaches a stage: its type, and the place of the stage
/// that gave it.
pub struct Carried {
    pub type_: TypeView,
    pub location: SrcSpan,
}

/// The value that the typed stage `previous` hands to the stage behind it.
pub open spec fn value_of(previous: TypedExpr) -> Carried {
    Carried { type_: previous.typ()@, location: previous.span() }
}

/// The innermost variable in scope is the pipeline's, and holds the value.
pub open spec fn carries(scope: Scope, value: Carried) -> bool {
    &&& scope matches Scope::Bound { name, value: bound, .. }
    &&& name@ == PIPE_VARIABLE@
    &&& bound.publicity == Publicity::Private
    &&& bound.deprecation == Deprecation::NotDeprecated
    &&& bound.type_@ == value.type_
    &&& bound.variant == (ValueConstructorVariant::LocalVariable {
        location: value.location,
        origin: VariableOrigin::Generated,
    })
}

/// The `at`-th of the steps is a question put while the pipeline's variable
/// was in scope and held the value.
pub open spec fn asked_with(asked: Seq<Exchange>, at: int, value: Carried) -> bool {
    &&& 0 <= at < asked.len()
    &&& seen(asked[at]) matches Some(scope)
    &&& carries(scope, value)
}

/// The argument hands the pipeline's variable to a call, untyped.
pub open spec fn untyped_argument_of(value: Carried, arg: CallArg<UntypedExpr>) -> bool {
    &&& arg.label is None
    &&& arg.location == value.location
    &&& arg.implicit == Some(ImplicitCallArgOrigin::Pipe)
    &&& arg.value matches UntypedExpr::Var { location, name }
    &&& location == value.location
    &&& name@ == PIPE_VARIABLE@
}

/// The argument hands the pipeline's variable to a call, typed: the variable
/// has the type of the value that it holds.
pub open spec fn typed_argument_of(value: Carried, arg: CallArg<TypedExpr>) -> bool {
    &&& arg.label is None
    &&& arg.location == value.location
    &&& arg.implicit == Some(ImplicitCallArgOrigin::Pipe)
    &&& arg.value matches TypedExpr::Var { location, name, constructor }
    &&& location == value.location
    &&& name@ == PIPE_VARIABLE@
    &&& constructor.publicity == Publicity::Public
    &&& constructor.deprecation == Deprecation::NotDeprecated
    &&& constructor.type_@ == value.type_
    &&& constructor.variant == (ValueConstructorVariant::LocalVariable {
        location: value.location,
        origin: VariableOrigin::Generated,
    })
}

/// `a |> fn(x) { .. }` is typed as the call of the function literal with
/// `a`: the engine is asked once, for the call of the literal with the
/// pipeline's variable alone. The answer is the result `r`.
pub open spec fn applied_literal(
    value: Carried,
    asked: Seq<Exchange>,
    literal: UntypedExpr,
    location: SrcSpan,
    r: TypedExpr,
) -> bool {
    &&& asked.len() == 1
    &&& asked[0] matches Exchange::InferCall { fun, args, location: at, kind, .. }
    &&& fun == literal
    &&& at == location
    &&& kind == CallKind::Function
    &&& args.len() == 1
    &&& untyped_argument_of(value, args[0])
    &&& call_answered(asked[0], location) == Some(r)
}

/// `a |> b(..c)` is typed as `b(..c)(a)`: the engine is asked for the call
/// of `function` with the arguments as they are written, and for the call
/// of what that gives with the pipeline's variable alone. The answer to the
/// second is the result `r`.
pub open spec fn applied_to_call(
    value: Carried,
    asked: Seq<Exchange>,
    function: TypedExpr,
    args: Seq<CallArg<UntypedExpr>>,
    location: SrcSpan,
    r: TypedExpr,
) -> bool {
    &&& asked.len() == 2
    &&& call_asked(asked[0], function, location) == Some(args)
    &&& call_answered(asked[0], location) matches Some(inner)
    &&& call_asked(asked[1], inner, location) matches Some(handed)
    &&& handed.len() == 1
    &&& untyped_argument_of(value, handed[0])
    &&& call_answered(asked[1], location) == Some(r)
}

/// `a |> b(c)` is typed as `b(a, c)`: the engine is asked once, for the call
/// of `function` with the pipeline's variable in front of the arguments as
/// they are written. The answer is the result `r`.
pub open spec fn inserted(
    value: Carried,
    asked: Seq<Exchange>,
    function: TypedExpr,
    arguments: Seq<CallArg<UntypedExpr>>,
    location: SrcSpan,
    r: TypedExpr,
) -> bool {
    &&& asked.len() == 1
    &&& call_asked(asked[0], function, location) matches Some(handed)
    &&& handed.len() == arguments.len() + 1
    &&& untyped_argument_of(value, handed[0])
    &&& handed.drop_first() == arguments
    &&& call_answered(asked[0], location) == Some(r)
}

/// `a |> b` is typed as `b(a)`. The result is the typed stage and the type
/// of the call. After the stage is typed, the engine is asked for a type
/// variable, which is the type of the call, and asked to unify the type of
/// the stage with that of the functions from the type of the value on the
/// left to that variable. Where it cannot, the error is `reported`: as a
/// pipe mismatch where the engine, asked once more, cannot unify the first
/// arguments that the error holds.
pub open spec fn applied_plain(
    value: Carried,
    asked: Seq<Exchange>,
    function: UntypedExpr,
) -> Option<(TypedExpr, Type)> {
    match stage_typed(asked, function, function.span()) {
        Some((typed, from)) => if asked.len() < from + 2 {
            None
        } else {
            match (asked[from], asked[from + 1]) {
                (
                    Exchange::NewUnboundVar { answer: returned },
                    Exchange::Unify { t1, t2, answer },
                ) => if t1 != typed.typ()@ || t2 != (TypeView::Fn {
                    args: seq![value.type_],
                    retrn: Box::new(returned@),
                }) {
                    None
                } else {
                    match answer {
                        Ok(_) => if asked.len() == from + 2 {
                            Some((typed, returned))
                        } else {
                            None
                        },
                        Err(error) => match first_arguments(error) {
                            Some((a, b)) => match asked_to_unify(
                                asked.take(from + 2),
                                asked.take(from + 3),
                                a@,
                                b@,
                            ) {
                                Some(unified) => if asked.len() == from + 4 && asked[from + 3]
                                    == (Exchange::Report {
                                    error: reported(error, !unified, typed.span()),
                                }) {
                                    Some((typed, returned))
                                } else {
                                    None
                                },
                                None => None,
                            },
                            None => if asked.len() == from + 3 && asked[from + 2]
                                == (Exchange::Report {
                                error: reported(error, false, typed.span()),
                            }) {
                                Some((typed, returned))
                            } else {
                                None
                            },
                        },
                    }
                },
                _ => None,
            }
        },
        None => None,
    }
}

/// The call of the typed stage with the pipeline's variable alone, at the
/// place of the stage and of the type `returned`.
pub open spec fn called_with(
    value: Carried,
    typed: TypedExpr,
    returned: Type,
    r: TypedExpr,
) -> bool {
    &&& r matches TypedExpr::Call { location, type_, fun, args }
    &&& location == typed.span()
    &&& type_ == returned
    &&& *fun == typed
    &&& args.len() == 1
    &&& typed_argument_of(value, args[0])
}

/// A stage after the first, typed: `asked` is all that is asked and
/// reported for it, and `r` is what it is rewritten into. A function
/// literal is called with the value on its left. Of a call the callee is
/// typed first; where that is a function of as many arguments as the call
/// writes, what the call gives is called with the value, and else the value
/// is the first argument of the call. Any other stage is called with the
/// value.
pub open spec fn staged(
    value: Carried,
    asked: Seq<Exchange>,
    stage: UntypedExpr,
    r: TypedExpr,
) -> bool {
    match stage {
        UntypedExpr::Fn { location, .. } => applied_literal(value, asked, stage, location, r),
        UntypedExpr::Call { fun, arguments, location } => match stage_typed(
            asked,
            *fun,
            location,
        ) {
            Some((callee, from)) => if from > asked.len() {
                false
            } else if callee.typ()@ matches TypeView::Fn { args, .. } && args.len()
                == arguments.len() {
                applied_to_call(value, asked.skip(from), callee, arguments@, location, r)
            } else {
                inserted(value, asked.skip(from), callee, arguments@, location, r)
            },
            None => false,
        },
        _ => applied_plain(value, asked, stage) matches Some((typed, returned)) && called_with(
            value,
            typed,
            returned,
            r,
        ),
    }
}

/// The number of warnings at the head of the steps for a stage. A stage that
/// follows an expression that panics is warned of as code that cannot be
/// reached, unless that was said of this body before; a stage that is a
/// redundant capture is warned of as one.
pub open spec fn warnings_of(asked: Seq<Exchange>, stage: UntypedExpr) -> Option<int> {
    let first: int = if asked.len() > 0 && asked[0] == (Exchange::Warn {
        warning: Warning::UnreachableCodeAfterPanic {
            location: stage.span(),
            panic_position: PanicPosition::PreviousExpression,
        },
    }) {
        1
    } else {
        0
    };
    match redundant_capture(stage) {
        Some(location) => if asked.len() > first && asked[first] == (Exchange::Warn {
            warning: Warning::RedundantPipeFunctionCapture { location },
        }) {
            Some(first + 1)
        } else {
            None
        },
        None => Some(first),
    }
}

/// All the steps for a stage after the first: the warnings about it, and
/// what is asked and reported while it is `staged`. When the first question
/// is put, the pipeline's variable is in scope and holds the value.
pub open spec fn stage_run(
    value: Carried,
    asked: Seq<Exchange>,
    stage: UntypedExpr,
    r: TypedExpr,
) -> bool {
    &&& warnings_of(asked, stage) matches Some(warned)
    &&& warned <= asked.len()
    &&& staged(value, asked.skip(warned), stage, r)
    &&& asked_with(asked, warned, value)
}

/// The stages are typed one after the other: the steps `asked` are cut at
/// `cuts` into one run for each stage, and each run is the `stage_run` of
/// its stage, with the value of the typed stage before it on its left. The
/// first of the stages is the `base`-th of the typed pipeline.
pub open spec fn piped_through(
    stages: Seq<UntypedExpr>,
    asked: Seq<Exchange>,
    cuts: Seq<int>,
    base: int,
    assignments: Seq<TypedPipelineAssignment>,
    finally: TypedExpr,
) -> bool {
    &&& cuts.len() == stages.len() + 1
    &&& cuts[0] == 0
    &&& cuts.last() == asked.len()
    &&& forall|i: int| 0 <= i < stages.len() ==> 0 <= #[trigger] cuts[i] <= cuts[i + 1]
    &&& forall|i: int|
        0 <= i < stages.len() ==> stage_run(
            value_of(typed_stage(assignments, finally, base + i - 1)),
            asked.subrange(cuts[i], cuts[i + 1]),
            #[trigger] stages[i],
            typed_stage(assignments, finally, base + i),
        )
}

/// The stages are `piped_through` the steps, cut into one run for each.
pub open spec fn piped_on(
    stages: Seq<UntypedExpr>,
    asked: Seq<Exchange>,
    base: int,
    assignments: Seq<TypedPipelineAssignment>,
    finally: TypedExpr,
) -> bool {
    exists|cuts: Seq<int>| #[trigger]
        piped_through(stages, asked, cuts, base, assignments, finally)
}

/// The typing of an expression by some steps is its typing by those steps
/// with any steps behind them.
pub proof fn stage_typed_on(
    head: Seq<Exchange>,
    tail: Seq<Exchange>,
    function: UntypedExpr,
    place: SrcSpan,
)
    requires
        stage_typed(head, function, place) is Some,
    ensures
        stage_typed(head + tail, function, place) == stage_typed(head, function, place),
{
    let asked = head + tail;
    assert(asked[0] == head[0]);
    if head.len() >= 3 {
        assert(asked[1] == head[1]);
        assert(asked[2] == head[2]);
    }
}

/// A pipeline is typed stage by stage: the engine is asked for the first
/// stage, which is replaced by a placeholder at its place where it cannot
/// be typed; the stages behind it are `piped_through`.
pub open spec fn walked(
    stages: Seq<UntypedExpr>,
    asked: Seq<Exchange>,
    assignments: Seq<TypedPipelineAssignment>,
    finally: TypedExpr,
) -> bool {
    &&& stages.len() >= 1
    &&& stage_typed(asked, stages[0], stages[0].span()) matches Some((first, from))
    &&& first == typed_stage(assignments, finally, 0)
    &&& from <= asked.len()
    &&& piped_on(stages.skip(1), asked.skip(from), 1, assignments, finally)
}

/// A pipeline whose first stage is typed by the steps `head` and whose other
/// stages are typed by the steps `tail` is typed by the two, one after the
/// other.
pub proof fn walked_on(
    stages: Seq<UntypedExpr>,
    head: Seq<Exchange>,
    tail: Seq<Exchange>,
    assignments: Seq<TypedPipelineAssignment>,
    finally: TypedExpr,
)
    requires
        stages.len() >= 1,
        stage_typed(head, stages[0], stages[0].span()) == Some(
            (typed_stage(assignments, finally, 0), head.len() as int),
        ),
        piped_on(stages.skip(1), tail, 1, assignments, finally),
    ensures
        walked(stages, head + tail, assignments, finally),
{
    stage_typed_on(head, tail, stages[0], stages[0].span());
    assert((head + tail).skip(head.len() as int) =~= tail);
}

/// The typed pipeline is what the steps `asked` give for the stages.
pub open spec fn typed_through(
    pipeline: TypedExpr,
    stages: Seq<UntypedExpr>,
    asked: Seq<Exchange>,
) -> bool {
    pipeline matches TypedExpr::Pipeline { assignments, finally, .. } && walked(
        stages,
        asked,
        assignments@,
        *finally,
    )
}

/// The typing of one pipeline.
#[derive(Debug)]
pub struct PipeTyper {
    /// The number of stages.
    pub size: usize,
    /// The type of the value that reaches the next stage.
    pub argument_type: Type,
    pub argument_location: SrcSpan,
    /// The whole pipeline.
    pub location: SrcSpan,
    /// The stages typed so far, each bound to the pipeline's variable.
    pub assignments: Vec<TypedPipelineAssignment>,
}

impl PipeTyper {
    /// The value that reaches the next stage.
    pub open spec fn value(self) -> Carried {
        Carried { type_: self.argument_type@, location: self.argument_location }
    }

    /// The expression is the pipeline's variable, untyped.
    pub open spec fn untyped_variable(self, expr: UntypedExpr) -> bool {
        expr matches UntypedExpr::Var { location, name } && location == self.argument_location
            && name@ == PIPE_VARIABLE@
    }

    /// The argument hands the pipeline's variable to a call, untyped.
    pub open spec fn untyped_argument(self, arg: CallArg<UntypedExpr>) -> bool {
        untyped_argument_of(self.value(), arg)
    }

    /// The expression is the pipeline's variable with the type of the value
    /// that it holds now.
    pub open spec fn typed_variable(self, expr: TypedExpr) -> bool {
        &&& expr matches TypedExpr::Var { location, name, constructor }
        &&& location == self.argument_location
        &&& name@ == PIPE_VARIABLE@
        &&& constructor.publicity == Publicity::Public
        &&& constructor.deprecation == Deprecation::NotDeprecated
        &&& constructor.type_@ == self.argument_type@
        &&& constructor.variant == (ValueConstructorVariant::LocalVariable {
            location: self.argument_location,
            origin: VariableOrigin::Generated,
        })
    }

    /// The argument hands the pipeline's variable to a call, typed.
    pub open spec fn typed_argument(self, arg: CallArg<TypedExpr>) -> bool {
        typed_argument_of(self.value(), arg)
    }

    /// The assignment binds a stage to the pipeline's variable.
    pub open spec fn binds(assignment: TypedPipelineAssignment, expression: TypedExpr) -> bool {
        &&& assignment.location == expression.span()
        &&& assignment.name@ == PIPE_VARIABLE@
        &&& assignment.value == expression
    }

    /// The value that reaches the next stage is that of the stage typed
    /// last.
    pub open spec fn follows(self, previous: TypedExpr) -> bool {
        self.value() == value_of(previous)
    }

    /// The scope with the pipeline's variable bound to a value of the given
    /// type, in front of the scope `rest`.
    pub open spec fn bound(scope: Scope, location: SrcSpan, type_: Type, rest: Scope) -> bool {
        &&& scope matches Scope::Bound { name, value, rest: behind }
        &&& name@ == PIPE_VARIABLE@
        &&& value.publicity == Publicity::Private
        &&& value.deprecation == Deprecation::NotDeprecated
        &&& value.type_@ == type_@
        &&& value.variant == (ValueConstructorVariant::LocalVariable {
            location,
            origin: VariableOrigin::Generated,
        })
        &&& *behind == rest
    }

    /// Type a pipeline and rewrite it into assignments to the pipeline's
    /// variable and a last expression. The variable is in scope while the
    /// stages are typed; afterwards the scope is what it was before.
    pub fn infer<E: Engine>(expr_typer: &mut ExprTyper<E>, expressions: Vec1<UntypedExpr>) -> (r:
        TypedExpr)
        requires
            stages(expressions).len() >= 2,
        ensures
            desugared(r, stages(expressions)),
            asked_since(old(expr_typer).asked(), final(expr_typer).asked()) matches Some(asked)
                && typed_through(r, stages(expressions), asked),
            final(expr_typer).environment.scope == old(expr_typer).environment.scope,
            old(expr_typer).environment.scope.find(PIPE_VARIABLE@) is None
                ==> final(expr_typer).environment.scope.find(PIPE_VARIABLE@) is None,
    {
        // The scope is reset as pipelines are rewritten into a series of
        // assignments, and these variables must not leak out of the pipeline.
        let scope = share(&expr_typer.environment.scope);
        let result = PipeTyper::run(expr_typer, expressions);
        expr_typer.environment.scope = scope;
        result
    }

    /// Type a pipeline of one stage or more, if it has two at least.
    pub fn try_infer<E: Engine>(
        expr_typer: &mut ExprTyper<E>,
        expressions: Vec1<UntypedExpr>,
    ) -> (r: Option<TypedExpr>)
        ensures
            stages(expressions).len() >= 2 <==> r is Some,
            r matches Some(pipeline) ==> desugared(pipeline, stages(expressions)),
            asked_since(old(expr_typer).asked(), final(expr_typer).asked()) matches Some(asked)
                && match r {
                Some(pipeline) => typed_through(pipeline, stages(expressions), asked),
                None => asked.len() == 0,
            },
            final(expr_typer).environment.scope == old(expr_typer).environment.scope,
    {
        proof {
            asked_one(expr_typer.asked(), arbitrary());
        }
        if count_stages(&expressions) >= 2 {
            Some(PipeTyper::infer(expr_typer, expressions))
        } else {
            None
        }
    }

    /// As `infer`, but the pipeline's variable stays in scope.
    pub fn run<E: Engine>(expr_typer: &mut ExprTyper<E>, expressions: Vec1<UntypedExpr>) -> (r:
        TypedExpr)
        requires
            stages(expressions).len() >= 2,
        ensures
            desugared(r, stages(expressions)),
            asked_since(old(expr_typer).asked(), final(expr_typer).asked()) matches Some(asked)
                && typed_through(r, stages(expressions), asked),
    {
        let ghost entry = expr_typer.asked();
        let mut expressions = into_stages(expressions);
        let ghost all = expressions@;
        let size: usize = expressions.len();
        let end: u32 = expressions[size - 1].location().end;
        let first = expressions.remove(0);
        let first_location = first.location();
        let first = typed_or_placeholder(expr_typer, first, first_location);
        let ghost first_typed = first;
        let ghost typed_at = expr_typer.asked();
        let mut typer = PipeTyper {
            size,
            argument_type: first.type_(),
            argument_location: first.location(),
            location: SrcSpan { start: first.location().start, end },
            assignments: Vec::with_capacity(size),
        };
        // No need to update the argument as it was set above
        typer.push_assignment_no_update(expr_typer, first);
        // Perform the type checking
        let ghost rest = expressions@;
        let pipeline = typer.infer_expressions(expr_typer, expressions);
        let ghost typed = pipeline;
        proof {
            match typed {
                TypedExpr::Pipeline { assignments, finally, .. } => {
                    let after = expr_typer.asked();
                    asked_on(entry, typed_at, after);
                    assert(all.skip(1) =~= rest);
                    assert(assignments[0].value == first_typed);
                    walked_on(
                        all,
                        asked_since(entry, typed_at).unwrap(),
                        asked_since(typed_at, after).unwrap(),
                        assignments@,
                        *finally,
                    );
                    assert forall|i: int| 1 <= i < all.len() implies piped(
                        #[trigger] all[i],
                        typed_stage(assignments@, *finally, 0 + i - 1),
                        typed_stage(assignments@, *finally, 0 + i),
                    ) by {
                        assert(all[i] == expressions@[i - 1]);
                    }
                },
                _ => {},
            }
        }
        pipeline
    }

    /// Type the stages after the first and hand back the pipeline.
    pub fn infer_expressions<E: Engine>(
        &mut self,
        expr_typer: &mut ExprTyper<E>,
        expressions: Vec<UntypedExpr>,
    ) -> (r: TypedExpr)
        requires
            expressions.len() >= 1,
            old(self).size == expressions.len() + 1,
            old(self).assignments.len() >= 1,
            old(self).follows(old(self).assignments@.last().value),
            carries(*old(expr_typer).environment.scope, old(self).value()),
            forall|i: int|
                0 <= i < old(self).assignments.len() ==> bound_stage(
                    #[trigger] old(self).assignments[i],
                ),
        ensures
            r matches TypedExpr::Pipeline { assignments, location, finally } && location == old(
                self,
            ).location && assignments.len() == old(self).assignments.len() + expressions.len() - 1
                && (forall|i: int|
                0 <= i < old(self).assignments.len() ==> assignments[i] == old(
                    self,
                ).assignments[i]) && (forall|i: int|
                0 <= i < assignments.len() ==> bound_stage(#[trigger] assignments[i]))
                && piped_from(
                expressions@,
                0,
                expressions.len() as int,
                old(self).assignments.len() as int,
                assignments@,
                *finally,
            ),
            asked_since(old(expr_typer).asked(), final(expr_typer).asked()) matches Some(asked)
                && r matches TypedExpr::Pipeline { assignments, finally, .. } && piped_on(
                expressions@,
                asked,
                old(self).assignments.len() as int,
                assignments@,
                *finally,
            ),
            final(self).assignments.len() == 0,
    {
        let finally = self.infer_each_expression(expr_typer, expressions);
        let mut assignments: Vec<TypedPipelineAssignment> = Vec::new();
        std::mem::swap(&mut self.assignments, &mut assignments);
        TypedExpr::Pipeline { assignments, location: self.location, finally: Box::new(finally) }
    }

    /// Type the stages after the first, one after the other. Each but the
    /// last is bound to the pipeline's variable; the last is handed back.
    #[verifier::rlimit(40)]
    pub fn infer_each_expression<E: Engine>(
        &mut self,
        expr_typer: &mut ExprTyper<E>,
        expressions: Vec<UntypedExpr>,
    ) -> (r: TypedExpr)
        requires
            expressions.len() >= 1,
            old(self).size == expressions.len() + 1,
            old(self).assignments.len() >= 1,
            old(self).follows(old(self).assignments@.last().value),
            carries(*old(expr_typer).environment.scope, old(self).value()),
            forall|i: int|
                0 <= i < old(self).assignments.len() ==> bound_stage(
                    #[trigger] old(self).assignments[i],
                ),
        ensures
            final(self).size == old(self).size,
            final(self).location == old(self).location,
            final(self).assignments.len() == old(self).assignments.len() + expressions.len() - 1,
            forall|i: int|
                0 <= i < old(self).assignments.len() ==> final(self).assignments[i] == old(
                    self,
                ).assignments[i],
            forall|i: int|
                0 <= i < final(self).assignments.len() ==> bound_stage(
                    #[trigger] final(self).assignments[i],
                ),
            piped_from(
                expressions@,
                0,
                expressions.len() as int,
                old(self).assignments.len() as int,
                final(self).assignments@,
                r,
            ),
            asked_since(old(expr_typer).asked(), final(expr_typer).asked()) matches Some(asked)
                && piped_on(
                expressions@,
                asked,
                old(self).assignments.len() as int,
                final(self).assignments@,
                r,
            ),
    {
        let mut finally: Option<TypedExpr> = None;
        let ghost stages = expressions@;
        let ghost count = expressions.len();
        let ghost base = self.assignments.len() as int;
        let ghost mut previous = self.assignments@.last().value;
        let ghost entry = expr_typer.asked();
        let ghost mut cuts: Seq<int> = seq![0int];
        proof {
            asked_one(entry, arbitrary());
        }
        let mut i: usize = 0;
        for call in iter: expressions.into_iter()
            invariant
                iter.seq() == stages,
                stages.len() == count,
                count >= 1,
                i == iter.index(),
                count + 1 == self.size,
                base == old(self).assignments.len(),
                base >= 1,
                self.size == old(self).size,
                self.location == old(self).location,
                finally is Some <==> i == count,
                self.assignments.len() == base + (if i == count {
                    i - 1
                } else {
                    i as int
                }),
                forall|k: int|
                    0 <= k < base ==> self.assignments[k] == old(self).assignments[k],
                forall|k: int|
                    0 <= k < self.assignments.len() ==> bound_stage(
                        #[trigger] self.assignments[k],
                    ),
                i < count ==> previous == self.assignments@.last().value,
                i < count ==> self.follows(previous),
                finally matches Some(last) ==> piped_from(
                    stages,
                    0,
                    i as int,
                    base,
                    self.assignments@,
                    last,
                ),
                finally is None ==> piped_from(
                    stages,
                    0,
                    i as int,
                    base,
                    self.assignments@,
                    previous,
                ),
                entry == old(expr_typer).asked(),
                asked_since(entry, expr_typer.asked()) is Some,
                i < count ==> carries(*expr_typer.environment.scope, self.value()),
                forall|k: int|
                    0 <= k < cuts.len() ==> 0 <= #[trigger] cuts[k] <= expr_typer.asked().len()
                        - entry.len(),
                finally matches Some(last) ==> piped_through(
                    stages.take(i as int),
                    asked_since(entry, expr_typer.asked()).unwrap(),
                    cuts,
                    base,
                    self.assignments@,
                    last,
                ),
                finally is None ==> piped_through(
                    stages.take(i as int),
                    asked_since(entry, expr_typer.asked()).unwrap(),
                    cuts,
                    base,
                    self.assignments@,
                    previous,
                ),
        {
            let ghost stage = call;
            let ghost before = self.assignments@;
            let ghost value = self.value();
            let ghost asked_before = expr_typer.asked();
            let ghost run_before = asked_since(entry, asked_before).unwrap();

            let call = self.infer_stage(expr_typer, call);
            let ghost rewritten = call;
            let ghost asked_after = expr_typer.asked();
            let ghost run_after = asked_since(entry, asked_after).unwrap();
            let ghost cuts_before = cuts;
            proof {
                asked_on(entry, asked_before, asked_after);
                cuts = cuts.push(run_after.len() as int);
                assert(run_after.subrange(cuts[i as int], cuts[i + 1]) =~= asked_since(
                    asked_before,
                    asked_after,
                ).unwrap());
                assert forall|k: int| 0 <= k < i implies run_after.subrange(
                    #[trigger] cuts[k],
                    cuts[k + 1],
                ) == run_before.subrange(cuts_before[k], cuts_before[k + 1]) by {
                    assert(cuts[k] == cuts_before[k]);
                    assert(cuts[k + 1] == cuts_before[k + 1]);
                    assert(run_after.subrange(cuts[k], cuts[k + 1]) =~= run_before.subrange(
                        cuts[k],
                        cuts[k + 1],
                    ));
                }
                assert(stage_run(value_of(previous), run_after.subrange(
                    cuts[i as int],
                    cuts[i + 1],
                ), stage, rewritten));
            }
            assert(stage == stages[i as int]);
            assert(piped(stage, previous, rewritten));

            if i + 2 == self.size {
                finally = Some(call);
                assert forall|k: int| 0 <= k < i + 1 implies piped(
                    #[trigger] stages[k],
                    typed_stage(self.assignments@, rewritten, base + k - 1),
                    typed_stage(self.assignments@, rewritten, base + k),
                ) by {
                    if k < i {
                        assert(piped(
                            stages[k],
                            typed_stage(before, previous, base + k - 1),
                            typed_stage(before, previous, base + k),
                        ));
                    }
                }
                assert forall|k: int| 0 <= k < i + 1 implies stage_run(
                    value_of(typed_stage(self.assignments@, rewritten, base + k - 1)),
                    run_after.subrange(cuts[k], cuts[k + 1]),
                    #[trigger] stages.take(i + 1)[k],
                    typed_stage(self.assignments@, rewritten, base + k),
                ) by {
                    if k < i {
                        assert(stage_run(
                            value_of(typed_stage(before, previous, base + k - 1)),
                            run_before.subrange(cuts_before[k], cuts_before[k + 1]),
                            stages.take(i as int)[k],
                            typed_stage(before, previous, base + k),
                        ));
                    }
                }
            } else {
                self.push_assignment(expr_typer, call);
                let ghost after = self.assignments@;
                assert(after.drop_last() == before);
                assert forall|k: int| 0 <= k < after.len() implies bound_stage(
                    #[trigger] after[k],
                ) by {
                    if k < before.len() {
                        assert(after.drop_last()[k] == before[k]);
                        assert(bound_stage(before[k]));
                    }
                }
                assert forall|k: int| 0 <= k < base implies after[k] == old(
                    self,
                ).assignments[k] by {
                    assert(after.drop_last()[k] == before[k]);
                }
                assert forall|k: int| 0 <= k < i + 1 implies piped(
                    #[trigger] stages[k],
                    typed_stage(after, rewritten, base + k - 1),
                    typed_stage(after, rewritten, base + k),
                ) by {
                    if k < i {
                        assert(piped(
                            stages[k],
                            typed_stage(before, previous, base + k - 1),
                            typed_stage(before, previous, base + k),
                        ));
                        assert(after.drop_last()[base + k - 1] == before[base + k - 1]);
                        if base + k < before.len() {
                            assert(after.drop_last()[base + k] == before[base + k]);
                        }
                    } else {
                        assert(after.drop_last()[base + k - 1] == before[base + k - 1]);
                    }
                }
                assert forall|k: int| 0 <= k < i + 1 implies stage_run(
                    value_of(typed_stage(after, rewritten, base + k - 1)),
                    run_after.subrange(cuts[k], cuts[k + 1]),
                    #[trigger] stages.take(i + 1)[k],
                    typed_stage(after, rewritten, base + k),
                ) by {
                    if k < i {
                        assert(stage_run(
                            value_of(typed_stage(before, previous, base + k - 1)),
                            run_before.subrange(cuts_before[k], cuts_before[k + 1]),
                            stages.take(i as int)[k],
                            typed_stage(before, previous, base + k),
                        ));
                        assert(after.drop_last()[base + k - 1] == before[base + k - 1]);
                        if base + k < before.len() {
                            assert(after.drop_last()[base + k] == before[base + k]);
                        }
                    } else {
                        assert(after.drop_last()[base + k - 1] == before[base + k - 1]);
                    }
                }
                proof {
                    previous = rewritten;
                }
            }
            i += 1;
        }
        proof {
            assert(stages.take(count as int) =~= stages);
        }
        finally.unwrap()
    }

    /// Type one stage after the first: warn of what there is to warn of, and
    /// rewrite the stage into a call of the value on its left.
    pub fn infer_stage<E: Engine>(
        &mut self,
        expr_typer: &mut ExprTyper<E>,
        call: UntypedExpr,
    ) -> (r: TypedExpr)
        requires
            carries(*old(expr_typer).environment.scope, old(self).value()),
        ensures
            asked_since(old(expr_typer).asked(), final(expr_typer).asked()) matches Some(asked)
                && stage_run(old(self).value(), asked, call, r),
            *final(self) == *old(self),
    {
        let ghost entry = expr_typer.asked();
        if expr_typer.previous_panics {
            expr_typer.warn_for_unreachable_code(
                call.location(),
                PanicPosition::PreviousExpression,
            );
        }
        let ghost first = expr_typer.asked();
        self.warn_if_call_first_argument_is_hole(expr_typer, &call);
        let ghost second = expr_typer.asked();
        let ghost stage = call;
        let r = self.rewrite_stage(expr_typer, call);
        proof {
            let last = expr_typer.asked();
            if first.len() > entry.len() {
                asked_one(entry, first.last());
            } else {
                asked_one(entry, arbitrary());
            }
            if second.len() > first.len() {
                asked_one(first, second.last());
            } else {
                asked_one(first, arbitrary());
            }
            asked_on(entry, first, second);
            asked_on(entry, second, last);
            let warnings = asked_since(entry, second).unwrap();
            let core = asked_since(second, last).unwrap();
            let asked = asked_since(entry, last).unwrap();
            assert(asked =~= warnings + core);
            assert(core.len() >= 1 && !(core[0] is Warn));
            assert(asked.skip(warnings.len() as int) =~= core);
            assert(warnings_of(asked, stage) == Some(warnings.len() as int));
        }
        r
    }

    /// Rewrite one stage after the first into a call of the value on its
    /// left.
    pub fn rewrite_stage<E: Engine>(
        &mut self,
        expr_typer: &mut ExprTyper<E>,
        call: UntypedExpr,
    ) -> (r: TypedExpr)
        ensures
            asked_since(old(expr_typer).asked(), final(expr_typer).asked()) matches Some(asked)
                && staged(old(self).value(), asked, call, r) && begun_in(
                asked,
                *old(expr_typer).environment.scope,
            ),
            *final(self) == *old(self),
    {
        let ghost before = expr_typer.asked();
        match call {
            UntypedExpr::Fn { location, kind, arguments, body } => {
                let func = UntypedExpr::Fn { location, kind, arguments, body };
                let mut args: Vec<CallArg<UntypedExpr>> = Vec::new();
                args.push(self.untyped_left_hand_value_variable_call_argument());
                let inferred = expr_typer.do_infer_call(
                    func,
                    args,
                    location,
                    CallKind::Function,
                );
                proof {
                    asked_one(before, expr_typer.asked().last());
                }
                call_of(location, inferred)
            },
            // left |> right(..args)
            //         ^^^^^ This is `fun`
            UntypedExpr::Call { fun, arguments, location } => {
                let ghost written = *fun;
                let fun = typed_or_placeholder(expr_typer, *fun, location);
                let ghost typed_at = expr_typer.asked();
                let ghost callee = fun;
                let ghost written_arguments = arguments@;
                let callee_type = fun.type_();
                let applies = applies_to_call(&callee_type, arguments.len());
                assert(applies == (callee.typ()@ matches TypeView::Fn { args, .. } && args.len()
                    == written_arguments.len())) by {
                    reveal_with_fuel(type_view, 2);
                    reveal_with_fuel(type_views, 2);
                }
                let r = if applies {
                    // Rewrite as right(..args)(left)
                    self.infer_apply_to_call_pipe(expr_typer, fun, arguments, location)
                } else {
                    // Rewrite as right(left, ..args)
                    self.infer_insert_pipe(expr_typer, fun, arguments, location)
                };
                proof {
                    let after = expr_typer.asked();
                    asked_on(before, typed_at, after);
                    let first = asked_since(before, typed_at).unwrap();
                    let asked = asked_since(before, after).unwrap();
                    assert forall|k: int| 0 <= k < first.len() implies asked[k] == first[k] by {}
                    assert(stage_typed(asked, written, location) == stage_typed(
                        first,
                        written,
                        location,
                    ));
                    let second = asked_since(typed_at, after).unwrap();
                    assert(asked.skip(first.len() as int) =~= second);
                    assert(stage_typed(asked, written, location) == Some(
                        (callee, first.len() as int),
                    ));
                    assert(call == (UntypedExpr::Call {
                        fun: Box::new(written),
                        arguments,
                        location,
                    }));
                    assert(staged(self.value(), asked, call, r));
                }
                r
            },
            // right(left)
            other => self.infer_apply_pipe(expr_typer, other),
        }
    }

    /// An argument that refers to the value on the left hand side of the
    /// pipe, typed.
    pub fn typed_left_hand_value_variable_call_argument(&self) -> (r: CallArg<TypedExpr>)
        ensures
            self.typed_argument(r),
    {
        CallArg {
            label: None,
            location: self.argument_location,
            value: self.typed_left_hand_value_variable(),
            // This argument is given implicitly by the pipe, not explicitly by
            // the programmer.
            implicit: Some(ImplicitCallArgOrigin::Pipe),
        }
    }

    /// An argument that refers to the value on the left hand side of the
    /// pipe, untyped.
    pub fn untyped_left_hand_value_variable_call_argument(&self) -> (r: CallArg<UntypedExpr>)
        ensures
            self.untyped_argument(r),
    {
        CallArg {
            label: None,
            location: self.argument_location,
            value: self.untyped_left_hand_value_variable(),
            // This argument is given implicitly by the pipe, not explicitly by
            // the programmer.
            implicit: Some(ImplicitCallArgOrigin::Pipe),
        }
    }

    /// A variable that refers to the value on the left hand side of the
    /// pipe, typed.
    pub fn typed_left_hand_value_variable(&self) -> (r: TypedExpr)
        ensures
            self.typed_variable(r),
    {
        TypedExpr::Var {
            location: self.argument_location,
            name: String::from_str(PIPE_VARIABLE),
            constructor: ValueConstructor {
                publicity: Publicity::Public,
                deprecation: Deprecation::NotDeprecated,
                type_: self.argument_type.clone(),
                variant: ValueConstructorVariant::LocalVariable {
                    location: self.argument_location,
                    origin: VariableOrigin::Generated,
                },
            },
        }
    }

    /// A variable that refers to the value on the left hand side of the
    /// pipe, untyped.
    pub fn untyped_left_hand_value_variable(&self) -> (r: UntypedExpr)
        ensures
            self.untyped_variable(r),
    {
        UntypedExpr::Var {
            location: self.argument_location,
            name: String::from_str(PIPE_VARIABLE),
        }
    }

    /// Bind a stage to the pipeline's variable, and take its type and its
    /// place for those of the value that reaches the next stage.
    pub fn push_assignment<E: Engine>(
        &mut self,
        expr_typer: &mut ExprTyper<E>,
        expression: TypedExpr,
    )
        ensures
            final(self).size == old(self).size,
            final(self).location == old(self).location,
            final(self).argument_type@ == expression.typ()@,
            final(self).argument_location == expression.span(),
            final(self).assignments.len() == old(self).assignments.len() + 1,
            final(self).assignments@.drop_last() == old(self).assignments@,
            Self::binds(final(self).assignments@.last(), expression),
            Self::bound(
                *final(expr_typer).environment.scope,
                expression.span(),
                expression.typ(),
                *old(expr_typer).environment.scope,
            ),
            final(expr_typer).problems == old(expr_typer).problems,
            final(expr_typer).previous_panics == old(expr_typer).previous_panics,
            final(expr_typer).asked() == old(expr_typer).asked(),
    {
        self.argument_type = expression.type_();
        self.argument_location = expression.location();
        self.push_assignment_no_update(expr_typer, expression)
    }

    /// Bind a stage to the pipeline's variable.
    pub fn push_assignment_no_update<E: Engine>(
        &mut self,
        expr_typer: &mut ExprTyper<E>,
        expression: TypedExpr,
    )
        ensures
            final(self).size == old(self).size,
            final(self).location == old(self).location,
            final(self).argument_type == old(self).argument_type,
            final(self).argument_location == old(self).argument_location,
            final(self).assignments.len() == old(self).assignments.len() + 1,
            final(self).assignments@.drop_last() == old(self).assignments@,
            Self::binds(final(self).assignments@.last(), expression),
            Self::bound(
                *final(expr_typer).environment.scope,
                expression.span(),
                expression.typ(),
                *old(expr_typer).environment.scope,
            ),
            final(expr_typer).problems == old(expr_typer).problems,
            final(expr_typer).previous_panics == old(expr_typer).previous_panics,
            final(expr_typer).asked() == old(expr_typer).asked(),
    {
        let location = expression.location();
        // Insert the variable for use in type checking the rest of the pipeline
        expr_typer.environment.insert_local_variable(
            String::from_str(PIPE_VARIABLE),
            location,
            VariableOrigin::Generated,
            expression.type_(),
        );
        // Add the assignment to the tree
        let assignment = TypedPipelineAssignment {
            location,
            name: String::from_str(PIPE_VARIABLE),
            value: expression,
        };
        self.assignments.push(assignment);
        assert(self.assignments@.drop_last() =~= old(self).assignments@);
    }

    /// Type `a |> b(..c)` as `b(..c)(a)`.
    pub fn infer_apply_to_call_pipe<E: Engine>(
        &mut self,
        expr_typer: &mut ExprTyper<E>,
        function: TypedExpr,
        args: Vec<CallArg<UntypedExpr>>,
        location: SrcSpan,
    ) -> (r: TypedExpr)
        ensures
            r matches TypedExpr::Call { location: at, .. } && at == location,
            asked_since(old(expr_typer).asked(), final(expr_typer).asked()) matches Some(
                asked,
            ) && applied_to_call(old(self).value(), asked, function, args@, location, r),
            *final(self) == *old(self),
    {
        let inferred = expr_typer.do_infer_call_with_known_fun(
            function,
            args,
            location,
            CallKind::Function,
        );
        let function = call_of(location, inferred);
        let mut args: Vec<CallArg<UntypedExpr>> = Vec::new();
        args.push(self.untyped_left_hand_value_variable_call_argument());
        let inferred = expr_typer.do_infer_call_with_known_fun(
            function,
            args,
            location,
            CallKind::Function,
        );
        let r = call_of(location, inferred);
        proof {
            let before = old(expr_typer).asked();
            let after = expr_typer.asked();
            assert(after.subrange(0, before.len() as int) =~= before);
            let asked = after.skip(before.len() as int);
            assert(asked[0] == after[before.len() as int]);
            assert(asked[1] == after[before.len() as int + 1]);
        }
        r
    }

    /// Type `a |> b(c)` as `b(a, c)`.
    pub fn infer_insert_pipe<E: Engine>(
        &mut self,
        expr_typer: &mut ExprTyper<E>,
        function: TypedExpr,
        arguments: Vec<CallArg<UntypedExpr>>,
        location: SrcSpan,
    ) -> (r: TypedExpr)
        ensures
            r matches TypedExpr::Call { location: at, .. } && at == location,
            asked_since(old(expr_typer).asked(), final(expr_typer).asked()) matches Some(
                asked,
            ) && inserted(old(self).value(), asked, function, arguments@, location, r),
            *final(self) == *old(self),
    {
        let arguments = self.piped_first(arguments);
        let inferred = expr_typer.do_infer_call_with_known_fun(
            function,
            arguments,
            location,
            CallKind::Function,
        );
        let r = call_of(location, inferred);
        proof {
            let before = old(expr_typer).asked();
            let after = expr_typer.asked();
            assert(after.subrange(0, before.len() as int) =~= before);
            assert(after.skip(before.len() as int)[0] == after[before.len() as int]);
        }
        r
    }

    /// The arguments of a call with the value on the left hand side of the
    /// pipe in front of them.
    pub fn piped_first(&self, arguments: Vec<CallArg<UntypedExpr>>) -> (r: Vec<
        CallArg<UntypedExpr>,
    >)
        ensures
            r.len() == arguments.len() + 1,
            self.untyped_argument(r[0]),
            r@.drop_first() == arguments@,
    {
        let mut arguments = arguments;
        let ghost given = arguments@;
        arguments.insert(0, self.untyped_left_hand_value_variable_call_argument());
        assert(arguments@.drop_first() =~= given);
        arguments
    }

    /// Type `a |> b` as `b(a)`.
    pub fn infer_apply_pipe<E: Engine>(
        &mut self,
        expr_typer: &mut ExprTyper<E>,
        function: UntypedExpr,
    ) -> (r: TypedExpr)
        ensures
            asked_since(old(expr_typer).asked(), final(expr_typer).asked()) matches Some(
                asked,
            ) && applied_plain(old(self).value(), asked, function) matches Some((typed, returned))
                && called_with(old(self).value(), typed, returned, r) && begun_in(
                asked,
                *old(expr_typer).environment.scope,
            ),
            *final(self) == *old(self),
    {
        let ghost before = expr_typer.asked();
        let ghost stage = function;
        let place = function.location();
        let function = typed_or_placeholder(expr_typer, function, place);
        let ghost typed_at = expr_typer.asked();
        let return_type = expr_typer.new_unbound_var();
        // Ensure that the function accepts one argument of the correct type
        let mut parameters: Vec<Type> = Vec::new();
        parameters.push(self.argument_type.clone());
        let expected = fn_(parameters, return_type.clone());
        assert(expected@ == (TypeView::Fn {
            args: seq![self.argument_type@],
            retrn: Box::new(return_type@),
        })) by {
            assert(type_views(parameters@) =~= seq![self.argument_type@]);
        }
        let unification_result = expr_typer.unify(function.type_(), expected);
        let ghost unified_at = expr_typer.asked();
        let ghost mut checked_at = unified_at;
        match unification_result {
            Ok(_) => (),
            Err(error) => {
                let mismatch = self.check_if_pipe_type_mismatch(expr_typer, &error);
                proof {
                    checked_at = expr_typer.asked();
                }
                expr_typer.report(pipe_error(error, mismatch, function.location()));
            },
        };
        let r = self.applied(function, return_type);
        proof {
            let after = expr_typer.asked();
            let first = asked_since(before, typed_at).unwrap();
            let from = first.len() as int;
            let fresh = typed_at.push(Exchange::NewUnboundVar { answer: return_type });
            asked_one(typed_at, fresh.last());
            asked_one(fresh, unified_at.last());
            asked_on(before, typed_at, fresh);
            asked_on(before, fresh, unified_at);
            let taken = asked_since(before, unified_at).unwrap();
            assert(taken =~= first + seq![fresh.last()] + seq![unified_at.last()]);
            if unification_result is Err {
                if checked_at.len() == unified_at.len() + 1 {
                    assert(checked_at == unified_at.push(checked_at.last()));
                    asked_one(unified_at, checked_at.last());
                } else {
                    asked_one(unified_at, unified_at.last());
                }
                asked_on(before, unified_at, checked_at);
                asked_one(checked_at, after.last());
                asked_on(before, checked_at, after);
            } else {
                assert(after == unified_at);
            }
            let asked = asked_since(before, after).unwrap();
            assert forall|i: int| 0 <= i < from + 2 implies asked[i] == taken[i] by {}
            assert(stage_typed(asked, stage, place) == stage_typed(first, stage, place));
            assert(asked.take(from + 2) =~= taken);
            if unification_result is Err && checked_at.len() == unified_at.len() + 1 {
                assert(asked.take(from + 3) =~= taken.push(checked_at.last()));
                assert(asked.take(from + 3).drop_last() =~= taken);
            }
        }
        r
    }

    /// The call of a stage with the value on the left hand side of the pipe.
    pub fn applied(&self, function: TypedExpr, return_type: Type) -> (r: TypedExpr)
        ensures
            r matches TypedExpr::Call { location, type_, fun, args } && location == function.span()
                && type_ == return_type && *fun == function && args.len() == 1
                && self.typed_argument(args[0]),
    {
        let mut args: Vec<CallArg<TypedExpr>> = Vec::new();
        args.push(self.typed_left_hand_value_variable_call_argument());
        TypedExpr::Call {
            location: function.location(),
            type_: return_type,
            fun: Box::new(function),
            args,
        }
    }

    /// An error is a pipe mismatch where it is about two function types with
    /// as many parameters whose first parameters cannot be made equal: the
    /// engine is asked to unify the two, and only them, and the error is a
    /// mismatch where it cannot. Of any other error nothing is asked.
    pub fn check_if_pipe_type_mismatch<E: Engine>(
        &mut self,
        expr_typer: &mut ExprTyper<E>,
        error: &UnifyError,
    ) -> (r: bool)
        ensures
            match first_arguments(*error) {
                Some((a, b)) => asked_to_unify(
                    old(expr_typer).asked(),
                    final(expr_typer).asked(),
                    a@,
                    b@,
                ) == Some(!r),
                None => !r && final(expr_typer).asked() == old(expr_typer).asked(),
            },
            *final(self) == *old(self),
            final(expr_typer).environment == old(expr_typer).environment,
            final(expr_typer).problems == old(expr_typer).problems,
            final(expr_typer).previous_panics == old(expr_typer).previous_panics,
            final(expr_typer).already_warned_for_unreachable_code == old(
                expr_typer,
            ).already_warned_for_unreachable_code,
    {
        match first_arguments_of(error) {
            Some((a, b)) => {
                let answer = expr_typer.unify(a, b);
                assert(expr_typer.asked().drop_last() =~= old(expr_typer).asked());
                answer.is_err()
            },
            None => false,
        }
    }

    /// Warn where a stage is a capture that a pipe makes redundant.
    pub fn warn_if_call_first_argument_is_hole<E: Engine>(
        &mut self,
        expr_typer: &mut ExprTyper<E>,
        call: &UntypedExpr,
    )
        ensures
            *final(self) == *old(self),
            final(expr_typer).environment == old(expr_typer).environment,
            final(expr_typer).previous_panics == old(expr_typer).previous_panics,
            final(expr_typer).already_warned_for_unreachable_code == old(
                expr_typer,
            ).already_warned_for_unreachable_code,
            final(expr_typer).asked() == (match redundant_capture(*call) {
                Some(location) => old(expr_typer).asked().push(
                    Exchange::Warn { warning: Warning::RedundantPipeFunctionCapture { location } },
                ),
                None => old(expr_typer).asked(),
            }),
            final(expr_typer).problems.errors == old(expr_typer).problems.errors,
            final(expr_typer).problems.warnings@ == (match redundant_capture(*call) {
                Some(location) => old(expr_typer).problems.warnings@.push(
                    Warning::RedundantPipeFunctionCapture { location },
                ),
                None => old(expr_typer).problems.warnings@,
            }),
    {
        // If the first argument is labelled, the user is not warned: the
        // label may be there to say which argument is piped into.
        match redundant_capture_of(call) {
            Some(location) => {
                expr_typer.warn(Warning::RedundantPipeFunctionCapture { location });
            },
            None => {},
        }
    }
}

} // verus!
