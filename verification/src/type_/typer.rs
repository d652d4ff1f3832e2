//! The typer of expressions, as far as the typing of a pipeline needs it: it
//! holds the state of the typing and asks its engine for the rest.

use crate::ast::{CallArg, SrcSpan, TypedExpr, UntypedExpr};
use crate::type_::{
    CallKind, Engine, Environment, Error, PanicPosition, Problems, Scope, Type, TypeView,
    UnifyError, Warning,
};
use vstd::prelude::*;

verus! {

/// A step of a typer that reaches outside it: a question put to its engine,
/// with what was handed over and the answer that came back, or an error or
/// a warning that it reported. A question about an expression or a call holds the
/// variables that were in scope when it was put.
pub enum Exchange {
    Infer { expr: UntypedExpr, scope: Scope, answer: Result<TypedExpr, Error> },
    InferCall {
        fun: UntypedExpr,
        args: Seq<CallArg<UntypedExpr>>,
        location: SrcSpan,
        kind: CallKind,
        scope: Scope,
        answer: (TypedExpr, Vec<CallArg<TypedExpr>>, Type),
    },
    InferCallWithKnownFun {
        fun: TypedExpr,
        args: Seq<CallArg<UntypedExpr>>,
        location: SrcSpan,
        kind: CallKind,
        scope: Scope,
        answer: (TypedExpr, Vec<CallArg<TypedExpr>>, Type),
    },
    NewUnboundVar { answer: Type },
    Unify { t1: TypeView, t2: TypeView, answer: Result<(), UnifyError> },
    Report { error: Error },
    Warn { warning: Warning },
}

/// The steps of a typer that reach outside it, in their order. A record
/// starts empty and grows by one exchange whenever a typer asks its engine
/// or reports an error or a warning: nothing else makes one or writes to
/// one.
pub struct Record {
    exchanges: Ghost<Seq<Exchange>>,
}

impl View for Record {
    type V = Seq<Exchange>;

    closed spec fn view(&self) -> Seq<Exchange> {
        self.exchanges@
    }
}

impl Record {
    fn new() -> (r: Self)
        ensures
            r@ == Seq::<Exchange>::empty(),
    {
        Record { exchanges: Ghost(Seq::empty()) }
    }

    fn add(&mut self, exchange: Ghost<Exchange>)
        ensures
            final(self)@ == old(self)@.push(exchange@),
    {
        self.exchanges = Ghost(self.exchanges@.push(exchange@));
    }
}

/// The typing of the expressions of one function body.
pub struct ExprTyper<E: Engine> {
    pub environment: Environment,
    pub problems: Problems,
    /// An expression typed before panics, so what follows cannot be reached.
    pub previous_panics: bool,
    pub already_warned_for_unreachable_code: bool,
    pub engine: E,
    /// What this typer has asked of its engine so far.
    pub record: Record,
}

impl<E: Engine> ExprTyper<E> {
    /// The variables in scope.
    pub open spec fn in_scope(&self) -> Scope {
        *self.environment.scope
    }

    /// What this typer has asked of its engine and reported so far, in the
    /// order of the steps.
    pub open spec fn asked(&self) -> Seq<Exchange> {
        self.record@
    }

    pub fn new(engine: E) -> (r: Self)
        ensures
            *r.environment.scope == Scope::Empty,
            r.problems.errors@ == Seq::<Error>::empty(),
            r.problems.warnings@ == Seq::<Warning>::empty(),
            !r.previous_panics,
            !r.already_warned_for_unreachable_code,
            r.asked() == Seq::<Exchange>::empty(),
    {
        ExprTyper {
            environment: Environment::new(),
            problems: Problems::new(),
            previous_panics: false,
            already_warned_for_unreachable_code: false,
            engine,
            record: Record::new(),
        }
    }

    /// Ask the engine for the typed form of an expression, or why it has
    /// none.
    pub fn infer(&mut self, expr: UntypedExpr) -> (r: Result<TypedExpr, Error>)
        ensures
            final(self).asked() == old(self).asked().push(
                Exchange::Infer { expr, scope: old(self).in_scope(), answer: r },
            ),
            final(self).already_warned_for_unreachable_code == old(
                self,
            ).already_warned_for_unreachable_code,
    {
        let ghost asked = expr;
        let ghost scope = self.in_scope();
        let r = self.engine.infer(
            &mut self.environment,
            &mut self.problems,
            &mut self.previous_panics,
            expr,
        );
        self.record.add(Ghost(Exchange::Infer { expr: asked, scope, answer: r }));
        r
    }

    /// Ask the engine for the typed form of a callee and of the arguments of
    /// a call of it, and for the type of the call.
    pub fn do_infer_call(
        &mut self,
        fun: UntypedExpr,
        args: Vec<CallArg<UntypedExpr>>,
        location: SrcSpan,
        kind: CallKind,
    ) -> (r: (TypedExpr, Vec<CallArg<TypedExpr>>, Type))
        ensures
            final(self).asked() == old(self).asked().push(
                Exchange::InferCall {
                    fun,
                    args: args@,
                    location,
                    kind,
                    scope: old(self).in_scope(),
                    answer: r,
                },
            ),
            final(self).already_warned_for_unreachable_code == old(
                self,
            ).already_warned_for_unreachable_code,
    {
        let ghost asked = (fun, args@);
        let ghost scope = self.in_scope();
        let r = self.engine.infer_call(
            &mut self.environment,
            &mut self.problems,
            &mut self.previous_panics,
            fun,
            args,
            location,
            kind,
        );
        self.record.add(
            Ghost(
                Exchange::InferCall {
                    fun: asked.0,
                    args: asked.1,
                    location,
                    kind,
                    scope,
                    answer: r,
                },
            ),
        );
        r
    }

    /// As `do_infer_call`, of a callee that is typed already.
    pub fn do_infer_call_with_known_fun(
        &mut self,
        fun: TypedExpr,
        args: Vec<CallArg<UntypedExpr>>,
        location: SrcSpan,
        kind: CallKind,
    ) -> (r: (TypedExpr, Vec<CallArg<TypedExpr>>, Type))
        ensures
            final(self).asked() == old(self).asked().push(
                Exchange::InferCallWithKnownFun {
                    fun,
                    args: args@,
                    location,
                    kind,
                    scope: old(self).in_scope(),
                    answer: r,
                },
            ),
            final(self).already_warned_for_unreachable_code == old(
                self,
            ).already_warned_for_unreachable_code,
    {
        let ghost asked = (fun, args@);
        let ghost scope = self.in_scope();
        let r = self.engine.infer_call_with_known_fun(
            &mut self.environment,
            &mut self.problems,
            &mut self.previous_panics,
            fun,
            args,
            location,
            kind,
        );
        self.record.add(
            Ghost(
                Exchange::InferCallWithKnownFun {
                    fun: asked.0,
                    args: asked.1,
                    location,
                    kind,
                    scope,
                    answer: r,
                },
            ),
        );
        r
    }

    /// Ask the engine for a type variable that stands for no type yet.
    pub fn new_unbound_var(&mut self) -> (r: Type)
        ensures
            final(self).asked() == old(self).asked().push(
                Exchange::NewUnboundVar { answer: r },
            ),
            final(self).environment == old(self).environment,
            final(self).problems == old(self).problems,
            final(self).previous_panics == old(self).previous_panics,
            final(self).already_warned_for_unreachable_code == old(
                self,
            ).already_warned_for_unreachable_code,
    {
        let r = self.engine.new_unbound_var();
        self.record.add(Ghost(Exchange::NewUnboundVar { answer: r }));
        r
    }

    /// Ask the engine to make two types equal, or to say why they cannot be.
    pub fn unify(&mut self, t1: Type, t2: Type) -> (r: Result<(), UnifyError>)
        ensures
            final(self).asked() == old(self).asked().push(
                Exchange::Unify { t1: t1@, t2: t2@, answer: r },
            ),
            final(self).environment == old(self).environment,
            final(self).problems == old(self).problems,
            final(self).previous_panics == old(self).previous_panics,
            final(self).already_warned_for_unreachable_code == old(
                self,
            ).already_warned_for_unreachable_code,
    {
        let ghost asked = (t1@, t2@);
        let r = self.engine.unify(t1, t2);
        self.record.add(Ghost(Exchange::Unify { t1: asked.0, t2: asked.1, answer: r }));
        r
    }

    /// Report an error.
    pub fn report(&mut self, error: Error)
        ensures
            final(self).asked() == old(self).asked().push(Exchange::Report { error }),
            final(self).problems.errors@ == old(self).problems.errors@.push(error),
            final(self).problems.warnings == old(self).problems.warnings,
            final(self).environment == old(self).environment,
            final(self).previous_panics == old(self).previous_panics,
            final(self).already_warned_for_unreachable_code == old(
                self,
            ).already_warned_for_unreachable_code,
    {
        self.record.add(Ghost(Exchange::Report { error }));
        self.problems.error(error);
    }

    /// Report a warning.
    pub fn warn(&mut self, warning: Warning)
        ensures
            final(self).asked() == old(self).asked().push(Exchange::Warn { warning }),
            final(self).problems.warnings@ == old(self).problems.warnings@.push(warning),
            final(self).problems.errors == old(self).problems.errors,
            final(self).environment == old(self).environment,
            final(self).previous_panics == old(self).previous_panics,
            final(self).already_warned_for_unreachable_code == old(
                self,
            ).already_warned_for_unreachable_code,
    {
        self.record.add(Ghost(Exchange::Warn { warning }));
        self.problems.warning(warning);
    }

    /// Warn that the code at `location` cannot be reached, unless that was
    /// said of this body before.
    pub fn warn_for_unreachable_code(&mut self, location: SrcSpan, panic_position: PanicPosition)
        ensures
            final(self).environment == old(self).environment,
            final(self).previous_panics == old(self).previous_panics,
            final(self).problems.errors == old(self).problems.errors,
            final(self).already_warned_for_unreachable_code,
            final(self).asked() == if old(self).already_warned_for_unreachable_code {
                old(self).asked()
            } else {
                old(self).asked().push(
                    Exchange::Warn {
                        warning: Warning::UnreachableCodeAfterPanic { location, panic_position },
                    },
                )
            },
            final(self).problems.warnings@ == if old(self).already_warned_for_unreachable_code {
                old(self).problems.warnings@
            } else {
                old(self).problems.warnings@.push(
                    Warning::UnreachableCodeAfterPanic { location, panic_position },
                )
            },
    {
        if !self.already_warned_for_unreachable_code {
            self.already_warned_for_unreachable_code = true;
            self.warn(Warning::UnreachableCodeAfterPanic { location, panic_position });
        }
    }
}


} // verus!
