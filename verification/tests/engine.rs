use chez_backend::ast::{
    Arg, ArgNames, CallArg, FunctionLiteralKind, ImplicitCallArgOrigin, SrcSpan, TypedExpr,
    TypedPipelineAssignment, UntypedExpr, UntypedStatement,
};
use chez_backend::type_::pipe::{typed_or_placeholder, PipeTyper};
use chez_backend::type_::typer::ExprTyper;
use chez_backend::type_::{
    CallKind, Engine, Environment, Error, PanicPosition, Problems, Scope, Type, UnifyError,
    UnifyErrorSituation, VariableOrigin, Warning,
};
use vec1::Vec1;

fn span(start: u32, end: u32) -> SrcSpan {
    SrcSpan { start, end }
}

fn plain(name: &str) -> Type {
    Type::Named { module: "gleam".to_string(), name: name.to_string(), args: vec![] }
}

fn function(args: Vec<Type>, retrn: Type) -> Type {
    Type::Fn { args, retrn: Box::new(retrn) }
}

/// What an engine was asked.
#[derive(Debug, PartialEq)]
enum Asked {
    Infer(UntypedExpr),
    Call(UntypedExpr, Vec<CallArg<UntypedExpr>>, SrcSpan, CallKind),
    KnownCall(TypedExpr, Vec<CallArg<UntypedExpr>>, SrcSpan, CallKind),
    Variable,
    Unify(Type, Type),
}

/// An engine that keeps what it is asked. Its answers are numbered: the
/// typed form of an expression is the literal of the answer's number, a type
/// variable has that number, and so has the type of a call.
struct Keeping {
    asked: Vec<Asked>,
    /// Whether each typing of an expression and each unification goes well,
    /// in their order. What comes after the last of them fails.
    fates: Vec<bool>,
    answers: u64,
    /// The type of each expression, where it is not a variable of the
    /// answer's number.
    stage: Option<Type>,
    /// The innermost variable in scope, with its type, at each question
    /// about an expression or a call.
    seen: Vec<Option<(String, Type)>>,
}

fn innermost(environment: &Environment) -> Option<(String, Type)> {
    match &*environment.scope {
        Scope::Bound { name, value, .. } => Some((name.clone(), value.type_.clone())),
        Scope::Empty => None,
    }
}

impl Keeping {
    fn new(fates: Vec<bool>) -> Self {
        Keeping { asked: vec![], fates, answers: 0, stage: None, seen: vec![] }
    }

    fn typing_as(stage: Type, fates: Vec<bool>) -> Self {
        Keeping { asked: vec![], fates, answers: 0, stage: Some(stage), seen: vec![] }
    }

    fn next(&mut self) -> u64 {
        self.answers += 1;
        self.answers
    }

    fn goes_well(&mut self) -> bool {
        if self.fates.is_empty() {
            false
        } else {
            self.fates.remove(0)
        }
    }
}

fn answer(number: u64, location: SrcSpan) -> TypedExpr {
    TypedExpr::Int { location, type_: Type::Var { id: number }, value: number.to_string() }
}

impl Engine for Keeping {
    fn infer(
        &mut self,
        environment: &mut Environment,
        _problems: &mut Problems,
        _previous_panics: &mut bool,
        expr: UntypedExpr,
    ) -> Result<TypedExpr, Error> {
        self.seen.push(innermost(environment));
        let location = expr.location();
        self.asked.push(Asked::Infer(expr));
        let number = self.next();
        if self.goes_well() {
            Ok(match &self.stage {
                Some(stage) => TypedExpr::Int {
                    location,
                    type_: stage.clone(),
                    value: number.to_string(),
                },
                None => answer(number, location),
            })
        } else {
            Err(Error::UnknownVariable { location, name: number.to_string() })
        }
    }

    fn infer_call(
        &mut self,
        environment: &mut Environment,
        _problems: &mut Problems,
        _previous_panics: &mut bool,
        fun: UntypedExpr,
        args: Vec<CallArg<UntypedExpr>>,
        location: SrcSpan,
        kind: CallKind,
    ) -> (TypedExpr, Vec<CallArg<TypedExpr>>, Type) {
        self.seen.push(innermost(environment));
        self.asked.push(Asked::Call(fun, args, location, kind));
        let number = self.next();
        (answer(number, location), vec![], Type::Var { id: number })
    }

    fn infer_call_with_known_fun(
        &mut self,
        environment: &mut Environment,
        _problems: &mut Problems,
        _previous_panics: &mut bool,
        fun: TypedExpr,
        args: Vec<CallArg<UntypedExpr>>,
        location: SrcSpan,
        kind: CallKind,
    ) -> (TypedExpr, Vec<CallArg<TypedExpr>>, Type) {
        self.seen.push(innermost(environment));
        self.asked.push(Asked::KnownCall(fun, args, location, kind));
        let number = self.next();
        (answer(number, location), vec![], Type::Var { id: number })
    }

    fn new_unbound_var(&mut self) -> Type {
        self.asked.push(Asked::Variable);
        Type::Var { id: self.next() }
    }

    fn unify(&mut self, t1: Type, t2: Type) -> Result<(), UnifyError> {
        let error = UnifyError::CouldNotUnify {
            expected: t1.clone(),
            given: t2.clone(),
            situation: None,
        };
        self.asked.push(Asked::Unify(t1, t2));
        if self.goes_well() {
            Ok(())
        } else {
            Err(error)
        }
    }
}

fn variable(name: &str, start: u32, end: u32) -> UntypedExpr {
    UntypedExpr::Var { location: span(start, end), name: name.to_string() }
}

fn written(value: UntypedExpr) -> CallArg<UntypedExpr> {
    CallArg { label: None, location: value.location(), value, implicit: None }
}

/// The pipeline's variable as an argument, for a value that stands at
/// `location`.
fn handed_on(location: SrcSpan) -> CallArg<UntypedExpr> {
    CallArg {
        label: None,
        location,
        value: UntypedExpr::Var { location, name: "_pipe".to_string() },
        implicit: Some(ImplicitCallArgOrigin::Pipe),
    }
}

fn a_call(location: SrcSpan, number: u64) -> TypedExpr {
    TypedExpr::Call {
        location,
        type_: Type::Var { id: number },
        fun: Box::new(answer(number, location)),
        args: vec![],
    }
}

fn pipe_typer(argument_type: Type, argument_location: SrcSpan) -> PipeTyper {
    PipeTyper {
        size: 2,
        argument_type,
        argument_location,
        location: span(0, 20),
        assignments: vec![],
    }
}

#[test]
fn the_engine_is_asked_for_the_expression_that_the_typer_was_given() {
    let mut typer = ExprTyper::new(Keeping::new(vec![true]));
    let first = typer.infer(variable("x", 3, 4));
    let second = typer.infer(variable("y", 6, 7));
    assert_eq!(first, Ok(answer(1, span(3, 4))));
    assert_eq!(second, Err(Error::UnknownVariable { location: span(6, 7), name: "2".to_string() }));
    assert_eq!(
        typer.engine.asked,
        vec![Asked::Infer(variable("x", 3, 4)), Asked::Infer(variable("y", 6, 7))]
    );
}

#[test]
fn the_engine_is_asked_for_the_call_that_the_typer_was_given() {
    let mut typer = ExprTyper::new(Keeping::new(vec![]));
    let inferred = typer.do_infer_call(
        variable("f", 0, 1),
        vec![written(variable("x", 2, 3))],
        span(0, 4),
        CallKind::Use,
    );
    assert_eq!(inferred, (answer(1, span(0, 4)), vec![], Type::Var { id: 1 }));
    assert_eq!(
        typer.engine.asked,
        vec![Asked::Call(
            variable("f", 0, 1),
            vec![written(variable("x", 2, 3))],
            span(0, 4),
            CallKind::Use,
        )]
    );
}

#[test]
fn the_engine_is_asked_for_the_call_of_the_typed_callee() {
    let mut typer = ExprTyper::new(Keeping::new(vec![]));
    let inferred = typer.do_infer_call_with_known_fun(
        answer(9, span(0, 1)),
        vec![written(variable("x", 2, 3)), written(variable("y", 5, 6))],
        span(0, 7),
        CallKind::Function,
    );
    assert_eq!(inferred, (answer(1, span(0, 7)), vec![], Type::Var { id: 1 }));
    assert_eq!(
        typer.engine.asked,
        vec![Asked::KnownCall(
            answer(9, span(0, 1)),
            vec![written(variable("x", 2, 3)), written(variable("y", 5, 6))],
            span(0, 7),
            CallKind::Function,
        )]
    );
}

#[test]
fn each_type_variable_is_the_one_that_the_engine_gave() {
    let mut typer = ExprTyper::new(Keeping::new(vec![]));
    assert_eq!(typer.new_unbound_var(), Type::Var { id: 1 });
    assert_eq!(typer.new_unbound_var(), Type::Var { id: 2 });
    assert_eq!(typer.engine.asked, vec![Asked::Variable, Asked::Variable]);
}

#[test]
fn the_engine_unifies_the_two_types_that_the_typer_was_given() {
    let mut typer = ExprTyper::new(Keeping::new(vec![true]));
    assert_eq!(typer.unify(plain("Int"), plain("String")), Ok(()));
    assert_eq!(
        typer.unify(plain("Bool"), plain("Nil")),
        Err(UnifyError::CouldNotUnify {
            expected: plain("Bool"),
            given: plain("Nil"),
            situation: None,
        })
    );
    assert_eq!(
        typer.engine.asked,
        vec![
            Asked::Unify(plain("Int"), plain("String")),
            Asked::Unify(plain("Bool"), plain("Nil")),
        ]
    );
    assert!(typer.problems.errors.is_empty());
}

fn of_functions(expected: Vec<Type>, given: Vec<Type>) -> UnifyError {
    UnifyError::CouldNotUnify {
        expected: function(expected, plain("Int")),
        given: function(given, plain("Int")),
        situation: None,
    }
}

#[test]
fn an_error_is_a_mismatch_where_the_first_arguments_do_not_unify() {
    let mut pipe = pipe_typer(plain("Int"), span(0, 1));
    let error =
        of_functions(vec![plain("String"), plain("Bool")], vec![plain("Int"), plain("Nil")]);

    let mut typer = ExprTyper::new(Keeping::new(vec![]));
    assert!(pipe.check_if_pipe_type_mismatch(&mut typer, &error));
    assert_eq!(typer.engine.asked, vec![Asked::Unify(plain("String"), plain("Int"))]);

    let mut typer = ExprTyper::new(Keeping::new(vec![true]));
    assert!(!pipe.check_if_pipe_type_mismatch(&mut typer, &error));
    assert_eq!(typer.engine.asked, vec![Asked::Unify(plain("String"), plain("Int"))]);
    assert!(typer.problems.errors.is_empty());
}

#[test]
fn of_other_errors_the_engine_is_asked_nothing() {
    let mut pipe = pipe_typer(plain("Int"), span(0, 1));
    let errors = vec![
        UnifyError::RecursiveType,
        UnifyError::CouldNotUnify {
            expected: plain("Int"),
            given: plain("String"),
            situation: None,
        },
        UnifyError::CouldNotUnify {
            expected: function(vec![plain("Int")], plain("Int")),
            given: plain("Int"),
            situation: None,
        },
        of_functions(vec![plain("Int")], vec![plain("String"), plain("Int")]),
        of_functions(vec![], vec![]),
    ];
    for error in &errors {
        let mut typer = ExprTyper::new(Keeping::new(vec![]));
        assert!(!pipe.check_if_pipe_type_mismatch(&mut typer, error));
        assert_eq!(typer.engine.asked, Vec::<Asked>::new());
    }
}

#[test]
fn a_call_stage_is_one_call_with_the_value_in_front() {
    let mut pipe = pipe_typer(plain("Int"), span(0, 1));
    let mut typer = ExprTyper::new(Keeping::new(vec![]));
    let typed = pipe.infer_insert_pipe(
        &mut typer,
        answer(7, span(5, 8)),
        vec![written(variable("x", 9, 10))],
        span(5, 11),
    );
    assert_eq!(typed, a_call(span(5, 11), 1));
    assert_eq!(
        typer.engine.asked,
        vec![Asked::KnownCall(
            answer(7, span(5, 8)),
            vec![handed_on(span(0, 1)), written(variable("x", 9, 10))],
            span(5, 11),
            CallKind::Function,
        )]
    );
}

#[test]
fn a_call_stage_that_gives_a_function_is_called_with_the_value() {
    let mut pipe = pipe_typer(plain("Int"), span(0, 1));
    let mut typer = ExprTyper::new(Keeping::new(vec![]));
    let typed = pipe.infer_apply_to_call_pipe(
        &mut typer,
        answer(7, span(5, 8)),
        vec![written(variable("x", 9, 10))],
        span(5, 11),
    );
    assert_eq!(typed, a_call(span(5, 11), 2));
    assert_eq!(
        typer.engine.asked,
        vec![
            Asked::KnownCall(
                answer(7, span(5, 8)),
                vec![written(variable("x", 9, 10))],
                span(5, 11),
                CallKind::Function,
            ),
            Asked::KnownCall(
                a_call(span(5, 11), 1),
                vec![handed_on(span(0, 1))],
                span(5, 11),
                CallKind::Function,
            ),
        ]
    );
}

/// The call of a typed stage with a value of type `Int` that stands at the
/// start of the line.
fn called_with_the_value(location: SrcSpan, stage: TypedExpr, returned: u64) -> TypedExpr {
    let pipe = pipe_typer(plain("Int"), span(0, 1));
    TypedExpr::Call {
        location,
        type_: Type::Var { id: returned },
        fun: Box::new(stage),
        args: vec![pipe.typed_left_hand_value_variable_call_argument()],
    }
}

#[test]
fn a_plain_stage_is_unified_with_a_function_of_the_value() {
    let mut pipe = pipe_typer(plain("Int"), span(0, 1));
    let mut typer = ExprTyper::new(Keeping::new(vec![true, true]));
    let typed = pipe.infer_apply_pipe(&mut typer, variable("f", 5, 6));
    assert_eq!(typed, called_with_the_value(span(5, 6), answer(1, span(5, 6)), 2));
    assert_eq!(
        typer.engine.asked,
        vec![
            Asked::Infer(variable("f", 5, 6)),
            Asked::Variable,
            Asked::Unify(Type::Var { id: 1 }, function(vec![plain("Int")], Type::Var { id: 2 })),
        ]
    );
    assert!(typer.problems.errors.is_empty());
}

#[test]
fn a_plain_stage_that_cannot_be_typed_is_replaced_and_reported() {
    let mut pipe = pipe_typer(plain("Int"), span(0, 1));
    let mut typer = ExprTyper::new(Keeping::new(vec![]));
    let typed = pipe.infer_apply_pipe(&mut typer, variable("f", 5, 6));
    let placeholder = TypedExpr::Invalid { location: span(5, 6), type_: Type::Var { id: 2 } };
    assert_eq!(typed, called_with_the_value(span(5, 6), placeholder, 3));
    assert_eq!(
        typer.engine.asked,
        vec![
            Asked::Infer(variable("f", 5, 6)),
            Asked::Variable,
            Asked::Variable,
            Asked::Unify(Type::Var { id: 2 }, function(vec![plain("Int")], Type::Var { id: 3 })),
        ]
    );
    // The error of the unification is not about two function types, so it
    // is reported with its two types in each other's place.
    assert_eq!(
        typer.problems.errors,
        vec![
            Error::UnknownVariable { location: span(5, 6), name: "1".to_string() },
            Error::CouldNotUnify {
                location: span(5, 6),
                situation: None,
                expected: function(vec![plain("Int")], Type::Var { id: 3 }),
                given: Type::Var { id: 2 },
            },
        ]
    );
}

#[test]
fn a_stage_that_takes_another_type_is_asked_about_and_reported_as_a_mismatch() {
    let mut pipe = pipe_typer(plain("Int"), span(0, 1));
    let takes_a_string = || function(vec![plain("String")], plain("Bool"));
    let mut typer = ExprTyper::new(Keeping::typing_as(takes_a_string(), vec![true]));
    let typed = pipe.infer_apply_pipe(&mut typer, variable("f", 5, 6));
    let stage = TypedExpr::Int {
        location: span(5, 6),
        type_: takes_a_string(),
        value: "1".to_string(),
    };
    assert_eq!(typed, called_with_the_value(span(5, 6), stage, 2));
    assert_eq!(
        typer.engine.asked,
        vec![
            Asked::Infer(variable("f", 5, 6)),
            Asked::Variable,
            Asked::Unify(takes_a_string(), function(vec![plain("Int")], Type::Var { id: 2 })),
            Asked::Unify(plain("String"), plain("Int")),
        ]
    );
    assert_eq!(
        typer.problems.errors,
        vec![Error::CouldNotUnify {
            location: span(5, 6),
            situation: Some(UnifyErrorSituation::PipeTypeMismatch),
            expected: takes_a_string(),
            given: function(vec![plain("Int")], Type::Var { id: 2 }),
        }]
    );
}

#[test]
fn a_stage_whose_first_argument_is_not_at_fault_is_an_ordinary_error() {
    // The two function types do not unify, but their first arguments do.
    let mut pipe = pipe_typer(plain("Int"), span(0, 1));
    let takes_a_string = || function(vec![plain("String")], plain("Bool"));
    let engine = Keeping::typing_as(takes_a_string(), vec![true, false, true]);
    let mut typer = ExprTyper::new(engine);
    let _ = pipe.infer_apply_pipe(&mut typer, variable("f", 5, 6));
    assert_eq!(
        typer.engine.asked,
        vec![
            Asked::Infer(variable("f", 5, 6)),
            Asked::Variable,
            Asked::Unify(takes_a_string(), function(vec![plain("Int")], Type::Var { id: 2 })),
            Asked::Unify(plain("String"), plain("Int")),
        ]
    );
    assert_eq!(
        typer.problems.errors,
        vec![Error::CouldNotUnify {
            location: span(5, 6),
            situation: None,
            expected: function(vec![plain("Int")], Type::Var { id: 2 }),
            given: takes_a_string(),
        }]
    );
}

#[test]
fn what_cannot_be_typed_is_reported_and_replaced() {
    let mut typer = ExprTyper::new(Keeping::new(vec![true]));
    let typed = typed_or_placeholder(&mut typer, variable("x", 3, 4), span(0, 9));
    assert_eq!(typed, answer(1, span(3, 4)));
    assert_eq!(typer.engine.asked, vec![Asked::Infer(variable("x", 3, 4))]);
    assert!(typer.problems.errors.is_empty());

    let mut typer = ExprTyper::new(Keeping::new(vec![]));
    let typed = typed_or_placeholder(&mut typer, variable("x", 3, 4), span(0, 9));
    assert_eq!(typed, TypedExpr::Invalid { location: span(0, 9), type_: Type::Var { id: 2 } });
    assert_eq!(typer.engine.asked, vec![Asked::Infer(variable("x", 3, 4)), Asked::Variable]);
    assert_eq!(
        typer.problems.errors,
        vec![Error::UnknownVariable { location: span(3, 4), name: "1".to_string() }]
    );
}

/// A typer in whose scope the pipeline's variable holds a value of type `Int`
/// that stands at the start of the line.
fn behind_a_stage(engine: Keeping) -> ExprTyper<Keeping> {
    let mut typer = ExprTyper::new(engine);
    typer.environment.insert_local_variable(
        "_pipe".to_string(),
        span(0, 1),
        VariableOrigin::Generated,
        plain("Int"),
    );
    typer
}

fn literal(location: SrcSpan) -> UntypedExpr {
    UntypedExpr::Fn {
        location,
        kind: FunctionLiteralKind::Anonymous,
        arguments: vec![Arg { names: ArgNames::Named { name: "x".to_string() }, location }],
        body: vec![UntypedStatement::Expression(variable("x", 8, 9))],
    }
}

fn a_call_of(fun: UntypedExpr, arguments: Vec<UntypedExpr>, location: SrcSpan) -> UntypedExpr {
    UntypedExpr::Call {
        location,
        fun: Box::new(fun),
        arguments: arguments.into_iter().map(written).collect(),
    }
}

#[test]
fn a_function_literal_is_called_with_the_value_alone() {
    let mut pipe = pipe_typer(plain("Int"), span(0, 1));
    let mut typer = behind_a_stage(Keeping::new(vec![]));
    let typed = pipe.infer_stage(&mut typer, literal(span(5, 12)));
    assert_eq!(typed, a_call(span(5, 12), 1));
    assert_eq!(
        typer.engine.asked,
        vec![Asked::Call(
            literal(span(5, 12)),
            vec![handed_on(span(0, 1))],
            span(5, 12),
            CallKind::Function,
        )]
    );
}

#[test]
fn the_callee_of_a_call_stage_decides_how_the_value_is_handed_on() {
    let stage = || a_call_of(variable("f", 5, 6), vec![variable("x", 7, 8)], span(5, 9));
    // A callee that is no function of one argument takes the value first.
    let mut pipe = pipe_typer(plain("Int"), span(0, 1));
    let mut typer = behind_a_stage(Keeping::new(vec![true]));
    let typed = pipe.infer_stage(&mut typer, stage());
    assert_eq!(typed, a_call(span(5, 9), 2));
    assert_eq!(
        typer.engine.asked,
        vec![
            Asked::Infer(variable("f", 5, 6)),
            Asked::KnownCall(
                answer(1, span(5, 6)),
                vec![handed_on(span(0, 1)), written(variable("x", 7, 8))],
                span(5, 9),
                CallKind::Function,
            ),
        ]
    );
    // A callee of as many arguments as are written is called with them, and
    // what that gives with the value.
    let unary = || function(vec![plain("Int")], plain("Bool"));
    let mut typer = behind_a_stage(Keeping::typing_as(unary(), vec![true]));
    let typed = pipe.infer_stage(&mut typer, stage());
    assert_eq!(typed, a_call(span(5, 9), 3));
    let callee = TypedExpr::Int { location: span(5, 6), type_: unary(), value: "1".to_string() };
    assert_eq!(
        typer.engine.asked,
        vec![
            Asked::Infer(variable("f", 5, 6)),
            Asked::KnownCall(
                callee,
                vec![written(variable("x", 7, 8))],
                span(5, 9),
                CallKind::Function,
            ),
            Asked::KnownCall(
                a_call(span(5, 9), 2),
                vec![handed_on(span(0, 1))],
                span(5, 9),
                CallKind::Function,
            ),
        ]
    );
}

#[test]
fn a_callee_that_cannot_be_typed_is_reported_and_the_call_goes_on() {
    let mut pipe = pipe_typer(plain("Int"), span(0, 1));
    let mut typer = behind_a_stage(Keeping::new(vec![]));
    let stage = a_call_of(variable("f", 5, 6), vec![], span(5, 8));
    let typed = pipe.infer_stage(&mut typer, stage);
    assert_eq!(typed, a_call(span(5, 8), 3));
    assert_eq!(
        typer.engine.asked,
        vec![
            Asked::Infer(variable("f", 5, 6)),
            Asked::Variable,
            Asked::KnownCall(
                TypedExpr::Invalid { location: span(5, 8), type_: Type::Var { id: 2 } },
                vec![handed_on(span(0, 1))],
                span(5, 8),
                CallKind::Function,
            ),
        ]
    );
    assert_eq!(
        typer.problems.errors,
        vec![Error::UnknownVariable { location: span(5, 6), name: "1".to_string() }]
    );
}

#[test]
fn a_pipeline_asks_for_each_stage_with_the_value_before_it_in_scope() {
    let mut typer = ExprTyper::new(Keeping::new(vec![true, true, true, true]));
    let stages = Vec1::try_from_vec(vec![
        variable("x", 0, 1),
        variable("f", 3, 4),
        a_call_of(variable("g", 6, 7), vec![variable("y", 8, 9)], span(6, 10)),
    ])
    .unwrap();
    let typed = PipeTyper::infer(&mut typer, stages);
    let second = called_with_the_value(span(3, 4), answer(2, span(3, 4)), 3);
    let second = match second {
        TypedExpr::Call { location, type_, fun, .. } => TypedExpr::Call {
            location,
            type_,
            fun,
            args: vec![pipe_typer(Type::Var { id: 1 }, span(0, 1))
                .typed_left_hand_value_variable_call_argument()],
        },
        other => other,
    };
    assert_eq!(
        typed,
        TypedExpr::Pipeline {
            location: span(0, 10),
            assignments: vec![
                TypedPipelineAssignment {
                    location: span(0, 1),
                    name: "_pipe".to_string(),
                    value: answer(1, span(0, 1)),
                },
                TypedPipelineAssignment {
                    location: span(3, 4),
                    name: "_pipe".to_string(),
                    value: second,
                },
            ],
            finally: Box::new(a_call(span(6, 10), 5)),
        }
    );
    assert_eq!(
        typer.engine.asked,
        vec![
            Asked::Infer(variable("x", 0, 1)),
            Asked::Infer(variable("f", 3, 4)),
            Asked::Variable,
            Asked::Unify(
                Type::Var { id: 2 },
                function(vec![Type::Var { id: 1 }], Type::Var { id: 3 }),
            ),
            Asked::Infer(variable("g", 6, 7)),
            Asked::KnownCall(
                answer(4, span(6, 7)),
                vec![handed_on(span(3, 4)), written(variable("y", 8, 9))],
                span(6, 10),
                CallKind::Function,
            ),
        ]
    );
    let pipe = |id: u64| Some(("_pipe".to_string(), Type::Var { id }));
    assert_eq!(typer.engine.seen, vec![None, pipe(1), pipe(3), pipe(3)]);
    assert!(typer.problems.errors.is_empty());
    assert!(matches!(&*typer.environment.scope, Scope::Empty));
}

#[test]
fn a_stage_behind_a_panic_is_warned_of_once() {
    let mut pipe = pipe_typer(plain("Int"), span(0, 1));
    let mut typer = behind_a_stage(Keeping::new(vec![true, true, true, true]));
    typer.previous_panics = true;
    let _ = pipe.infer_stage(&mut typer, variable("f", 5, 6));
    let _ = pipe.infer_stage(&mut typer, variable("g", 8, 9));
    assert_eq!(
        typer.problems.warnings,
        vec![Warning::UnreachableCodeAfterPanic {
            location: span(5, 6),
            panic_position: PanicPosition::PreviousExpression,
        }]
    );
    assert_eq!(typer.engine.asked[0], Asked::Infer(variable("f", 5, 6)));
    assert_eq!(typer.engine.asked.len(), 6);
}

#[test]
fn a_redundant_capture_is_warned_of_and_typed_all_the_same() {
    // `fn(_capture) { f(_capture) }`, as `f(_)` is read
    let capture = || UntypedExpr::Fn {
        location: span(5, 9),
        kind: FunctionLiteralKind::Capture,
        arguments: vec![Arg {
            names: ArgNames::Named { name: "_capture".to_string() },
            location: span(7, 8),
        }],
        body: vec![UntypedStatement::Expression(a_call_of(
            variable("f", 5, 6),
            vec![UntypedExpr::Var { location: span(7, 8), name: "_capture".to_string() }],
            span(5, 9),
        ))],
    };
    let mut pipe = pipe_typer(plain("Int"), span(0, 1));
    let mut typer = behind_a_stage(Keeping::new(vec![]));
    let typed = pipe.infer_stage(&mut typer, capture());
    assert_eq!(typed, a_call(span(5, 9), 1));
    assert_eq!(
        typer.problems.warnings,
        vec![Warning::RedundantPipeFunctionCapture { location: span(7, 8) }]
    );
    assert_eq!(
        typer.engine.asked,
        vec![Asked::Call(
            capture(),
            vec![handed_on(span(0, 1))],
            span(5, 9),
            CallKind::Function,
        )]
    );
}
