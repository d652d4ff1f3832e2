//! Types, and what the typing of an expression works with.

pub mod pipe;
pub mod typer;

use crate::ast::{CallArg, Constant, Publicity, SrcSpan, TypedExpr, UntypedExpr};
use std::sync::Arc;
use vstd::prelude::*;

verus! {

#[derive(PartialEq, Eq, Debug)]
pub enum Type {
    /// A type with a name, such as `Int` or `List(a)`.
    Named { module: String, name: String, args: Vec<Type> },
    Fn { args: Vec<Type>, retrn: Box<Type> },
    /// A type that inference has not settled yet.
    Var { id: u64 },
    Tuple { elems: Vec<Type> },
}

/// A type as a value of mathematics.
pub enum TypeView {
    Named { module: Seq<char>, name: Seq<char>, args: Seq<TypeView> },
    Fn { args: Seq<TypeView>, retrn: Box<TypeView> },
    Var { id: u64 },
    Tuple { elems: Seq<TypeView> },
}

/// The type as a value of mathematics.
pub open spec fn type_view(type_: Type) -> TypeView
    decreases type_,
{
    match type_ {
        Type::Named { module, name, args } => TypeView::Named {
            module: module@,
            name: name@,
            args: type_views(args@),
        },
        Type::Fn { args, retrn } => TypeView::Fn {
            args: type_views(args@),
            retrn: Box::new(type_view(*retrn)),
        },
        Type::Var { id } => TypeView::Var { id },
        Type::Tuple { elems } => TypeView::Tuple { elems: type_views(elems@) },
    }
}

/// The types of a sequence as values of mathematics.
pub open spec fn type_views(types: Seq<Type>) -> Seq<TypeView>
    decreases types,
{
    Seq::new(
        types.len(),
        |i: int|
            if 0 <= i < types.len() {
                type_view(types[i])
            } else {
                TypeView::Var { id: 0 }
            },
    )
}

impl View for Type {
    type V = TypeView;

    open spec fn view(&self) -> TypeView {
        type_view(*self)
    }
}

/// A copy of each type of a vector.
pub fn clone_types(types: &Vec<Type>) -> (r: Vec<Type>)
    ensures
        type_views(r@) == type_views(types@),
    decreases types,
{
    let mut out: Vec<Type> = Vec::new();
    let mut i: usize = 0;
    while i < types.len()
        invariant
            i <= types.len(),
            out.len() == i,
            forall|j: int| 0 <= j < i ==> out[j]@ == types[j]@,
        decreases types.len() - i,
    {
        out.push(types[i].clone());
        i += 1;
    }
    assert(type_views(out@) =~= type_views(types@));
    out
}

impl Clone for Type {
    fn clone(&self) -> (r: Self)
        ensures
            r@ == self@,
        decreases self,
    {
        match self {
            Type::Named { module, name, args } => Type::Named {
                module: module.clone(),
                name: name.clone(),
                args: clone_types(args),
            },
            Type::Fn { args, retrn } => Type::Fn {
                args: clone_types(args),
                retrn: Box::new((**retrn).clone()),
            },
            Type::Var { id } => Type::Var { id: *id },
            Type::Tuple { elems } => Type::Tuple { elems: clone_types(elems) },
        }
    }
}

/// The type of the functions from `args` to `retrn`.
pub fn fn_(args: Vec<Type>, retrn: Type) -> (r: Type)
    ensures
        r == (Type::Fn { args, retrn: Box::new(retrn) }),
{
    Type::Fn { args, retrn: Box::new(retrn) }
}

#[derive(Clone, PartialEq, Eq, Debug)]
pub enum Deprecation {
    NotDeprecated,
    Deprecated { message: String },
}

/// Whether the programmer named a variable or the compiler made it up.
#[derive(Clone, Copy, PartialEq, Eq, Structural, Debug)]
pub enum VariableOrigin {
    Variable,
    Generated,
}

/// What a name in an expression refers to.
#[derive(PartialEq, Eq, Debug)]
pub enum ValueConstructorVariant {
    LocalVariable { location: SrcSpan, origin: VariableOrigin },
    /// A constant of a module. Its value stands in place of the name.
    ModuleConstant { location: SrcSpan, module: String, literal: Constant },
    ModuleFn { location: SrcSpan, module: String, name: String, arity: usize },
    /// A constructor of a custom type.
    Record { location: SrcSpan, module: String, name: String, arity: u16 },
}

#[derive(PartialEq, Eq, Debug)]
pub struct ValueConstructor {
    pub publicity: Publicity,
    pub deprecation: Deprecation,
    pub type_: Type,
    pub variant: ValueConstructorVariant,
}

/// In which situation two types had to be equal.
#[derive(Clone, Copy, PartialEq, Eq, Structural, Debug)]
pub enum UnifyErrorSituation {
    /// A value was piped into a function that does not take it.
    PipeTypeMismatch,
    /// The clauses of a case expression have different types.
    CaseClauseMismatch,
}

/// Why two types could not be made equal.
#[derive(PartialEq, Eq, Debug)]
pub enum UnifyError {
    CouldNotUnify { expected: Type, given: Type, situation: Option<UnifyErrorSituation> },
    /// The types could only be equal if one of them held itself.
    RecursiveType,
}

/// A type error, with its place in the source.
#[derive(PartialEq, Eq, Debug)]
pub enum Error {
    CouldNotUnify {
        location: SrcSpan,
        situation: Option<UnifyErrorSituation>,
        expected: Type,
        given: Type,
    },
    RecursiveType { location: SrcSpan },
    UnknownVariable { location: SrcSpan, name: String },
}

impl Error {
    /// The same error, said to have come up in `situation` where it is
    /// about two types that are not equal.
    pub fn with_unify_error_situation(self, situation: UnifyErrorSituation) -> (r: Self)
        ensures
            r == (match self {
                Error::CouldNotUnify { location, expected, given, .. } => Error::CouldNotUnify {
                    location,
                    expected,
                    given,
                    situation: Some(situation),
                },
                other => other,
            }),
    {
        match self {
            Error::CouldNotUnify { location, expected, given, .. } => Error::CouldNotUnify {
                location,
                expected,
                given,
                situation: Some(situation),
            },
            other => other,
        }
    }
}

/// The type error for a failed unification at `location`.
pub fn convert_unify_error(error: UnifyError, location: SrcSpan) -> (r: Error)
    ensures
        r == (match error {
            UnifyError::CouldNotUnify { expected, given, situation } => Error::CouldNotUnify {
                location,
                expected,
                given,
                situation,
            },
            UnifyError::RecursiveType => Error::RecursiveType { location },
        }),
{
    match error {
        UnifyError::CouldNotUnify { expected, given, situation } => Error::CouldNotUnify {
            location,
            expected,
            given,
            situation,
        },
        UnifyError::RecursiveType => Error::RecursiveType { location },
    }
}

/// The same failure seen from the other side: what was expected and what
/// was given change places.
pub fn flip_unify_error(error: UnifyError) -> (r: UnifyError)
    ensures
        r == (match error {
            UnifyError::CouldNotUnify { expected, given, situation } => UnifyError::CouldNotUnify {
                expected: given,
                given: expected,
                situation,
            },
            other => other,
        }),
{
    match error {
        UnifyError::CouldNotUnify { expected, given, situation } => UnifyError::CouldNotUnify {
            expected: given,
            given: expected,
            situation,
        },
        other => other,
    }
}

/// Where the code that cannot be reached stands, relative to the panic.
#[derive(Clone, Copy, PartialEq, Eq, Structural, Debug)]
pub enum PanicPosition {
    /// An earlier expression of the same block panics.
    PreviousExpression,
    /// An earlier argument of the same call panics.
    PreviousFunctionArgument,
}

#[derive(Clone, Copy, PartialEq, Eq, Structural, Debug)]
pub enum Warning {
    /// `a |> f(_, b)` says no more than `a |> f(b)`.
    RedundantPipeFunctionCapture { location: SrcSpan },
    UnreachableCodeAfterPanic { location: SrcSpan, panic_position: PanicPosition },
}

/// What type inference has to report, in the order in which it came up.
#[derive(Debug)]
pub struct Problems {
    pub errors: Vec<Error>,
    pub warnings: Vec<Warning>,
}

impl Problems {
    pub fn new() -> (r: Self)
        ensures
            r.errors@ == Seq::<Error>::empty(),
            r.warnings@ == Seq::<Warning>::empty(),
    {
        Problems { errors: Vec::new(), warnings: Vec::new() }
    }

    pub fn error(&mut self, error: Error)
        ensures
            final(self).errors@ == old(self).errors@.push(error),
            final(self).warnings == old(self).warnings,
    {
        self.errors.push(error);
    }

    pub fn warning(&mut self, warning: Warning)
        ensures
            final(self).warnings@ == old(self).warnings@.push(warning),
            final(self).errors == old(self).errors,
    {
        self.warnings.push(warning);
    }
}

/// The variables in scope, the innermost first. A name that is bound again
/// hides the earlier binding.
#[derive(Debug)]
pub enum Scope {
    Empty,
    Bound { name: String, value: ValueConstructor, rest: Arc<Scope> },
}

impl Scope {
    /// What the name is bound to: the innermost binding of it counts.
    pub open spec fn find(self, name: Seq<char>) -> Option<ValueConstructor>
        decreases self,
    {
        match self {
            Scope::Empty => None,
            Scope::Bound { name: bound, value, rest } => if bound@ == name {
                Some(value)
            } else {
                rest.find(name)
            },
        }
    }

    /// The innermost binding of the name, if there is one.
    pub fn get(&self, name: &String) -> (r: Option<&ValueConstructor>)
        ensures
            match r {
                Some(value) => self.find(name@) == Some(*value),
                None => self.find(name@) is None,
            },
        decreases self,
    {
        match self {
            Scope::Empty => None,
            Scope::Bound { name: bound, value, rest } => {
                if *bound == *name {
                    Some(value)
                } else {
                    rest.get(name)
                }
            },
        }
    }
}

/// `Arc::clone`: another pointer to the same value.
#[verifier::external_body]
pub(crate) fn share(scope: &Arc<Scope>) -> (r: Arc<Scope>)
    ensures
        r == *scope,
{
    Arc::clone(scope)
}

/// What is known where an expression stands.
#[derive(Debug)]
pub struct Environment {
    pub scope: Arc<Scope>,
}

impl Environment {
    /// An environment with no variable in scope.
    pub fn new() -> (r: Self)
        ensures
            *r.scope == Scope::Empty,
    {
        Environment { scope: Arc::new(Scope::Empty) }
    }

    /// Bind a local variable in the innermost scope.
    pub fn insert_local_variable(
        &mut self,
        name: String,
        location: SrcSpan,
        origin: VariableOrigin,
        type_: Type,
    )
        ensures
            *final(self).scope == (Scope::Bound {
                name,
                value: ValueConstructor {
                    publicity: Publicity::Private,
                    deprecation: Deprecation::NotDeprecated,
                    type_,
                    variant: ValueConstructorVariant::LocalVariable { location, origin },
                },
                rest: old(self).scope,
            }),
    {
        let rest = share(&self.scope);
        self.scope = Arc::new(
            Scope::Bound {
                name,
                value: ValueConstructor {
                    publicity: Publicity::Private,
                    deprecation: Deprecation::NotDeprecated,
                    type_,
                    variant: ValueConstructorVariant::LocalVariable { location, origin },
                },
                rest,
            },
        );
    }
}

/// Whether a call was written as a call or stands for something else.
#[derive(Clone, Copy, PartialEq, Eq, Structural, Debug)]
pub enum CallKind {
    Function,
    Use,
}

/// The inference of expressions, as far as the typing of a pipeline needs
/// it. Nothing is required of an engine: a pipeline is typed whatever its
/// engine hands back.
pub trait Engine {
    /// The typed form of an expression, or why it has none.
    fn infer(
        &mut self,
        environment: &mut Environment,
        problems: &mut Problems,
        previous_panics: &mut bool,
        expr: UntypedExpr,
    ) -> Result<TypedExpr, Error>;

    /// The typed form of a callee and of the arguments of a call of it, and
    /// the type of the call.
    fn infer_call(
        &mut self,
        environment: &mut Environment,
        problems: &mut Problems,
        previous_panics: &mut bool,
        fun: UntypedExpr,
        args: Vec<CallArg<UntypedExpr>>,
        location: SrcSpan,
        kind: CallKind,
    ) -> (TypedExpr, Vec<CallArg<TypedExpr>>, Type);

    /// As `infer_call`, of a callee that is typed already.
    fn infer_call_with_known_fun(
        &mut self,
        environment: &mut Environment,
        problems: &mut Problems,
        previous_panics: &mut bool,
        fun: TypedExpr,
        args: Vec<CallArg<UntypedExpr>>,
        location: SrcSpan,
        kind: CallKind,
    ) -> (TypedExpr, Vec<CallArg<TypedExpr>>, Type);

    /// A type variable that stands for no type yet.
    fn new_unbound_var(&mut self) -> Type;

    /// Make two types equal, or say why they cannot be.
    fn unify(&mut self, t1: Type, t2: Type) -> Result<(), UnifyError>;
}

} // verus!
