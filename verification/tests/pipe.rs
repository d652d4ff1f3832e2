use chez_backend::ast::{
    Arg, ArgNames, CallArg, FunctionLiteralKind, ImplicitCallArgOrigin, Publicity, SrcSpan,
    TypedExpr, TypedStatement, UntypedExpr, UntypedStatement,
};
use chez_backend::type_::pipe::{
    applies_to_call, call_of, first_arguments_of, is_capture_hole, pipe_error,
    redundant_capture_of, PipeTyper,
};
use chez_backend::type_::typer::ExprTyper;
use chez_backend::type_::{
    convert_unify_error, flip_unify_error, fn_, CallKind, Deprecation, Engine, Environment, Error,
    PanicPosition, Problems, Scope, Type, UnifyError, UnifyErrorSituation, ValueConstructor,
    ValueConstructorVariant, VariableOrigin, Warning,
};
use std::collections::HashMap;
use vec1::Vec1;

fn at(start: u32, end: u32) -> SrcSpan {
    SrcSpan { start, end }
}

fn named(name: &str) -> Type {
    Type::Named { module: "gleam".to_string(), name: name.to_string(), args: vec![] }
}

fn function_type(args: Vec<Type>, retrn: Type) -> Type {
    Type::Fn { args, retrn: Box::new(retrn) }
}

/// An engine that knows the functions of one module and types literals,
/// variables, calls and function literals.
struct Toy {
    functions: HashMap<String, Type>,
    variables: u64,
    panics: Vec<String>,
}

impl Toy {
    fn new(functions: Vec<(&str, Type)>) -> Self {
        Toy {
            functions: functions.into_iter().map(|(name, t)| (name.to_string(), t)).collect(),
            variables: 0,
            panics: vec![],
        }
    }

    fn unifies(a: &Type, b: &Type) -> bool {
        match (a, b) {
            (Type::Var { .. }, _) | (_, Type::Var { .. }) => true,
            (
                Type::Named { module: m1, name: n1, args: a1 },
                Type::Named { module: m2, name: n2, args: a2 },
            ) => {
                m1 == m2
                    && n1 == n2
                    && a1.len() == a2.len()
                    && a1.iter().zip(a2).all(|(x, y)| Toy::unifies(x, y))
            }
            (Type::Fn { args: a1, retrn: r1 }, Type::Fn { args: a2, retrn: r2 }) => {
                a1.len() == a2.len()
                    && a1.iter().zip(a2).all(|(x, y)| Toy::unifies(x, y))
                    && Toy::unifies(r1, r2)
            }
            (Type::Tuple { elems: e1 }, Type::Tuple { elems: e2 }) => {
                e1.len() == e2.len() && e1.iter().zip(e2).all(|(x, y)| Toy::unifies(x, y))
            }
            _ => false,
        }
    }

    fn arguments(
        &mut self,
        environment: &mut Environment,
        problems: &mut Problems,
        previous_panics: &mut bool,
        args: Vec<CallArg<UntypedExpr>>,
    ) -> Vec<CallArg<TypedExpr>> {
        args.into_iter()
            .map(|arg| {
                let location = arg.location;
                let value = match self.infer(environment, problems, previous_panics, arg.value) {
                    Ok(value) => value,
                    Err(error) => {
                        problems.error(error);
                        TypedExpr::Invalid { location, type_: self.new_unbound_var() }
                    }
                };
                CallArg { label: arg.label, location, value, implicit: arg.implicit }
            })
            .collect()
    }
}

impl Engine for Toy {
    fn infer(
        &mut self,
        environment: &mut Environment,
        problems: &mut Problems,
        previous_panics: &mut bool,
        expr: UntypedExpr,
    ) -> Result<TypedExpr, Error> {
        match expr {
            UntypedExpr::Int { location, value } => {
                Ok(TypedExpr::Int { location, type_: named("Int"), value })
            }
            UntypedExpr::Float { location, value } => {
                Ok(TypedExpr::Float { location, type_: named("Float"), value })
            }
            UntypedExpr::String { location, value } => {
                Ok(TypedExpr::String { location, type_: named("String"), value })
            }
            UntypedExpr::Var { location, name } => {
                if self.panics.contains(&name) {
                    *previous_panics = true;
                }
                if let Some(found) = environment.scope.get(&name) {
                    return Ok(TypedExpr::Var {
                        location,
                        name,
                        constructor: ValueConstructor {
                            publicity: found.publicity,
                            deprecation: Deprecation::NotDeprecated,
                            type_: found.type_.clone(),
                            variant: ValueConstructorVariant::LocalVariable {
                                location,
                                origin: VariableOrigin::Variable,
                            },
                        },
                    });
                }
                match self.functions.get(&name) {
                    Some(type_) => Ok(TypedExpr::Var {
                        location,
                        constructor: ValueConstructor {
                            publicity: Publicity::Public,
                            deprecation: Deprecation::NotDeprecated,
                            type_: type_.clone(),
                            variant: ValueConstructorVariant::ModuleFn {
                                location,
                                module: "m".to_string(),
                                name: name.clone(),
                                arity: 0,
                            },
                        },
                        name,
                    }),
                    None => Err(Error::UnknownVariable { location, name }),
                }
            }
            UntypedExpr::Fn { location, arguments, body, .. } => {
                let before = Environment { scope: environment.scope.clone() };
                let mut parameters = vec![];
                for argument in &arguments {
                    let ArgNames::Named { name } = &argument.names else { panic!("a name") };
                    let type_ = self.new_unbound_var();
                    parameters.push(type_.clone());
                    environment.insert_local_variable(
                        name.clone(),
                        argument.location,
                        VariableOrigin::Variable,
                        type_,
                    );
                }
                let mut statements = vec![];
                let mut result = named("Nil");
                for statement in body {
                    let UntypedStatement::Expression(expr) = statement else { panic!("an expression") };
                    let typed = self.infer(environment, problems, previous_panics, expr)?;
                    result = typed.type_();
                    statements.push(TypedStatement::Expression(typed));
                }
                *environment = before;
                Ok(TypedExpr::Fn {
                    location,
                    type_: function_type(parameters, result),
                    args: arguments,
                    body: statements,
                })
            }
            UntypedExpr::Call { location, fun, arguments } => {
                let (fun, args, type_) = self.infer_call(
                    environment,
                    problems,
                    previous_panics,
                    *fun,
                    arguments,
                    location,
                    CallKind::Function,
                );
                Ok(TypedExpr::Call { location, type_, fun: Box::new(fun), args })
            }
            other => panic!("the toy engine does not type {other:?}"),
        }
    }

    fn infer_call(
        &mut self,
        environment: &mut Environment,
        problems: &mut Problems,
        previous_panics: &mut bool,
        fun: UntypedExpr,
        args: Vec<CallArg<UntypedExpr>>,
        location: SrcSpan,
        kind: CallKind,
    ) -> (TypedExpr, Vec<CallArg<TypedExpr>>, Type) {
        let at = fun.location();
        let fun = match self.infer(environment, problems, previous_panics, fun) {
            Ok(fun) => fun,
            Err(error) => {
                problems.error(error);
                TypedExpr::Invalid { location: at, type_: self.new_unbound_var() }
            }
        };
        self.infer_call_with_known_fun(environment, problems, previous_panics, fun, args, location, kind)
    }

    fn infer_call_with_known_fun(
        &mut self,
        environment: &mut Environment,
        problems: &mut Problems,
        previous_panics: &mut bool,
        fun: TypedExpr,
        args: Vec<CallArg<UntypedExpr>>,
        location: SrcSpan,
        _kind: CallKind,
    ) -> (TypedExpr, Vec<CallArg<TypedExpr>>, Type) {
        let args = self.arguments(environment, problems, previous_panics, args);
        let type_ = match fun.type_() {
            Type::Fn { args: parameters, retrn } => {
                if parameters.len() != args.len()
                    || parameters.iter().zip(&args).any(|(p, a)| !Toy::unifies(p, &a.value.type_()))
                {
                    problems.error(Error::CouldNotUnify {
                        location,
                        situation: None,
                        expected: function_type(parameters, (*retrn).clone()),
                        given: function_type(
                            args.iter().map(|a| a.value.type_()).collect(),
                            (*retrn).clone(),
                        ),
                    });
                }
                *retrn
            }
            _ => self.new_unbound_var(),
        };
        (fun, args, type_)
    }

    fn new_unbound_var(&mut self) -> Type {
        self.variables += 1;
        Type::Var { id: self.variables }
    }

    fn unify(&mut self, t1: Type, t2: Type) -> Result<(), UnifyError> {
        if Toy::unifies(&t1, &t2) {
            Ok(())
        } else {
            Err(UnifyError::CouldNotUnify { expected: t1, given: t2, situation: None })
        }
    }
}

fn typer(functions: Vec<(&str, Type)>) -> ExprTyper<Toy> {
    ExprTyper::new(Toy::new(functions))
}

fn maths() -> Vec<(&'static str, Type)> {
    vec![
        ("add", function_type(vec![named("Int"), named("Int")], named("Int"))),
        ("double", function_type(vec![named("Int")], named("Int"))),
        (
            "adder",
            function_type(vec![named("Int")], function_type(vec![named("Int")], named("Int"))),
        ),
        ("shout", function_type(vec![named("String")], named("String"))),
    ]
}

fn number(value: &str, start: u32, end: u32) -> UntypedExpr {
    UntypedExpr::Int { location: at(start, end), value: value.to_string() }
}

fn name(name: &str, start: u32, end: u32) -> UntypedExpr {
    UntypedExpr::Var { location: at(start, end), name: name.to_string() }
}

fn argument(value: UntypedExpr) -> CallArg<UntypedExpr> {
    CallArg { label: None, location: value.location(), value, implicit: None }
}

fn call(fun: UntypedExpr, arguments: Vec<UntypedExpr>, start: u32, end: u32) -> UntypedExpr {
    UntypedExpr::Call {
        location: at(start, end),
        fun: Box::new(fun),
        arguments: arguments.into_iter().map(argument).collect(),
    }
}

/// `fun(_, rest)`: the function of the one argument written `_`.
fn capture(fun: UntypedExpr, rest: Vec<UntypedExpr>, start: u32, end: u32) -> UntypedExpr {
    let mut arguments = vec![name("_capture", start, start + 1)];
    arguments.extend(rest);
    UntypedExpr::Fn {
        location: at(start, end),
        kind: FunctionLiteralKind::Capture,
        arguments: vec![Arg {
            names: ArgNames::Named { name: "_capture".to_string() },
            location: at(start, start + 1),
        }],
        body: vec![UntypedStatement::Expression(call(fun, arguments, start, end))],
    }
}

fn pipeline(stages: Vec<UntypedExpr>) -> Vec1<UntypedExpr> {
    Vec1::try_from_vec(stages).expect("a stage")
}

fn parts(pipeline: TypedExpr) -> (SrcSpan, Vec<(SrcSpan, String, TypedExpr)>, TypedExpr) {
    match pipeline {
        TypedExpr::Pipeline { location, assignments, finally } => (
            location,
            assignments.into_iter().map(|a| (a.location, a.name, a.value)).collect(),
            *finally,
        ),
        other => panic!("not a pipeline: {other:?}"),
    }
}

/// The pipeline's variable as an argument, with the type and place of the
/// value that it holds.
fn piped(type_: Type, location: SrcSpan) -> CallArg<TypedExpr> {
    CallArg {
        label: None,
        location,
        implicit: Some(ImplicitCallArgOrigin::Pipe),
        value: TypedExpr::Var {
            location,
            name: "_pipe".to_string(),
            constructor: ValueConstructor {
                publicity: Publicity::Public,
                deprecation: Deprecation::NotDeprecated,
                type_,
                variant: ValueConstructorVariant::LocalVariable {
                    location,
                    origin: VariableOrigin::Generated,
                },
            },
        },
    }
}

fn is_call_of(expr: &TypedExpr, callee: &str) -> bool {
    matches!(expr, TypedExpr::Call { fun, .. } if matches!(&**fun, TypedExpr::Var { name, .. } if name == callee))
}

fn arguments_of(expr: &TypedExpr) -> &Vec<CallArg<TypedExpr>> {
    match expr {
        TypedExpr::Call { args, .. } => args,
        other => panic!("not a call: {other:?}"),
    }
}

#[test]
fn one_into_add_into_double() {
    // 1 |> add(_, 2) |> double
    let mut typer = typer(maths());
    let typed = PipeTyper::infer(
        &mut typer,
        pipeline(vec![
            number("1", 0, 1),
            capture(name("add", 5, 8), vec![number("2", 12, 13)], 5, 14),
            name("double", 18, 24),
        ]),
    );
    let (location, assignments, finally) = parts(typed);
    assert_eq!(location, at(0, 24));
    assert_eq!(assignments.len(), 2);
    // stage 1 = 1
    assert_eq!(assignments[0].1, "_pipe");
    assert_eq!(assignments[0].0, at(0, 1));
    assert_eq!(
        assignments[0].2,
        TypedExpr::Int { location: at(0, 1), type_: named("Int"), value: "1".to_string() }
    );
    // stage 2 = add(stage 1, 2): the capture, called with stage 1
    assert_eq!(assignments[1].1, "_pipe");
    let TypedExpr::Call { fun, args, location, .. } = &assignments[1].2 else { panic!("a call") };
    assert_eq!(*location, at(5, 14));
    assert_eq!(args.len(), 1);
    assert!(matches!(&args[0].value, TypedExpr::Var { name, .. } if name == "_pipe"));
    assert_eq!(args[0].implicit, Some(ImplicitCallArgOrigin::Pipe));
    let TypedExpr::Fn { body, .. } = &**fun else { panic!("a function") };
    let TypedStatement::Expression(inner) = &body[0] else { panic!("an expression") };
    assert!(is_call_of(inner, "add"));
    assert!(matches!(&arguments_of(inner)[0].value, TypedExpr::Var { name, .. } if name == "_capture"));
    assert!(matches!(&arguments_of(inner)[1].value, TypedExpr::Int { value, .. } if value == "2"));
    // final = double(stage 2)
    assert!(is_call_of(&finally, "double"));
    assert_eq!(arguments_of(&finally), &vec![piped(named("Int"), at(5, 14))]);
    assert_eq!(finally.type_(), Type::Var { id: 2 });
    // the capture says no more than `add(2)` would
    assert_eq!(
        typer.problems.warnings,
        vec![Warning::RedundantPipeFunctionCapture { location: at(5, 6) }]
    );
    assert_eq!(typer.problems.errors, vec![]);
    assert!(matches!(*typer.environment.scope, Scope::Empty));
}

#[test]
fn a_call_takes_the_value_as_its_first_argument() {
    // 1 |> add(2) |> double
    let mut typer = typer(maths());
    let typed = PipeTyper::infer(
        &mut typer,
        pipeline(vec![
            number("1", 0, 1),
            call(name("add", 5, 8), vec![number("2", 9, 10)], 5, 11),
            name("double", 15, 21),
        ]),
    );
    let (_, assignments, finally) = parts(typed);
    assert_eq!(assignments.len(), 2);
    assert!(is_call_of(&assignments[1].2, "add"));
    let args = arguments_of(&assignments[1].2);
    assert_eq!(args.len(), 2);
    assert!(matches!(&args[0].value, TypedExpr::Var { name, .. } if name == "_pipe"));
    assert_eq!(args[0].implicit, Some(ImplicitCallArgOrigin::Pipe));
    assert_eq!(args[0].location, at(0, 1));
    assert!(matches!(&args[1].value, TypedExpr::Int { value, .. } if value == "2"));
    assert_eq!(assignments[1].2.type_(), named("Int"));
    assert!(is_call_of(&finally, "double"));
    assert_eq!(arguments_of(&finally), &vec![piped(named("Int"), at(5, 11))]);
    assert_eq!(typer.problems.warnings, vec![]);
    assert_eq!(typer.problems.errors, vec![]);
}

#[test]
fn a_call_of_matching_arity_is_called_with_the_value() {
    // 1 |> adder(2): `adder` takes one argument, and one is written
    let mut typer = typer(maths());
    let typed = PipeTyper::infer(
        &mut typer,
        pipeline(vec![
            number("1", 0, 1),
            call(name("adder", 5, 10), vec![number("2", 11, 12)], 5, 13),
        ]),
    );
    let (_, assignments, finally) = parts(typed);
    assert_eq!(assignments.len(), 1);
    let TypedExpr::Call { fun, args, type_, .. } = &finally else { panic!("a call") };
    assert_eq!(*type_, named("Int"));
    assert_eq!(args.len(), 1);
    assert!(matches!(&args[0].value, TypedExpr::Var { name, .. } if name == "_pipe"));
    assert!(is_call_of(fun, "adder"));
    assert_eq!(arguments_of(fun).len(), 1);
    assert!(matches!(&arguments_of(fun)[0].value, TypedExpr::Int { value, .. } if value == "2"));
    assert_eq!(typer.problems.errors, vec![]);
}

#[test]
fn a_pipeline_has_one_assignment_less_than_stages() {
    for length in 2..7usize {
        let mut typer = typer(maths());
        let mut stages = vec![number("1", 0, 1)];
        for _ in 1..length {
            stages.push(name("double", 2, 8));
        }
        let (_, assignments, _) = parts(PipeTyper::infer(&mut typer, pipeline(stages)));
        assert_eq!(assignments.len(), length - 1);
        assert!(assignments.iter().all(|a| a.1 == "_pipe"));
        assert!(matches!(*typer.environment.scope, Scope::Empty));
    }
}

#[test]
fn the_scope_is_what_it_was() {
    let mut typer = typer(maths());
    typer.environment.insert_local_variable(
        "x".to_string(),
        at(0, 1),
        VariableOrigin::Variable,
        named("Int"),
    );
    let typed = PipeTyper::infer(
        &mut typer,
        pipeline(vec![name("x", 3, 4), name("double", 8, 14), name("double", 18, 24)]),
    );
    let (_, assignments, _) = parts(typed);
    assert_eq!(assignments.len(), 2);
    let Scope::Bound { name, rest, .. } = &*typer.environment.scope else { panic!("a binding") };
    assert_eq!(name, "x");
    assert!(matches!(**rest, Scope::Empty));
    assert!(typer.environment.scope.get(&"_pipe".to_string()).is_none());
}

#[test]
fn a_single_stage_is_no_pipeline() {
    let mut typer = typer(maths());
    assert!(PipeTyper::try_infer(&mut typer, pipeline(vec![number("1", 0, 1)])).is_none());
    let typed = PipeTyper::try_infer(
        &mut typer,
        pipeline(vec![number("1", 0, 1), name("double", 5, 11)]),
    );
    assert_eq!(parts(typed.expect("a pipeline")).1.len(), 1);
}

#[test]
fn a_value_of_the_wrong_type_is_a_pipe_mismatch() {
    // 1 |> shout
    let mut typer = typer(maths());
    let typed = PipeTyper::infer(&mut typer, pipeline(vec![number("1", 0, 1), name("shout", 5, 10)]));
    let (_, _, finally) = parts(typed);
    assert!(is_call_of(&finally, "shout"));
    assert_eq!(
        typer.problems.errors,
        vec![Error::CouldNotUnify {
            location: at(5, 10),
            situation: Some(UnifyErrorSituation::PipeTypeMismatch),
            expected: function_type(vec![named("String")], named("String")),
            given: function_type(vec![named("Int")], Type::Var { id: 1 }),
        }]
    );
}

#[test]
fn a_stage_that_is_no_function_is_an_ordinary_mismatch() {
    // 1 |> 2
    let mut typer = typer(maths());
    let typed = PipeTyper::infer(&mut typer, pipeline(vec![number("1", 0, 1), number("2", 5, 6)]));
    let (_, _, finally) = parts(typed);
    assert_eq!(arguments_of(&finally), &vec![piped(named("Int"), at(0, 1))]);
    // what was expected and what was given have changed places
    assert_eq!(
        typer.problems.errors,
        vec![Error::CouldNotUnify {
            location: at(5, 6),
            situation: None,
            expected: function_type(vec![named("Int")], Type::Var { id: 1 }),
            given: named("Int"),
        }]
    );
    // a function of another arity is no pipe mismatch either
    let mut typer = self::typer(maths());
    let _ = PipeTyper::infer(&mut typer, pipeline(vec![number("1", 0, 1), name("add", 5, 8)]));
    assert_eq!(
        typer.problems.errors,
        vec![Error::CouldNotUnify {
            location: at(5, 8),
            situation: None,
            expected: function_type(vec![named("Int")], Type::Var { id: 1 }),
            given: function_type(vec![named("Int"), named("Int")], named("Int")),
        }]
    );
}

#[test]
fn an_unknown_stage_does_not_stop_the_rest() {
    // 1 |> nope(2) |> nowhere |> double
    let mut typer = typer(maths());
    let typed = PipeTyper::infer(
        &mut typer,
        pipeline(vec![
            number("1", 0, 1),
            call(name("nope", 5, 9), vec![number("2", 10, 11)], 5, 12),
            name("nowhere", 16, 23),
            name("double", 27, 33),
        ]),
    );
    let (location, assignments, finally) = parts(typed);
    assert_eq!(location, at(0, 33));
    assert_eq!(assignments.len(), 3);
    let TypedExpr::Call { fun, args, .. } = &assignments[1].2 else { panic!("a call") };
    assert!(matches!(&**fun, TypedExpr::Invalid { location, .. } if *location == at(5, 12)));
    assert_eq!(args.len(), 2);
    let TypedExpr::Call { fun, .. } = &assignments[2].2 else { panic!("a call") };
    assert!(matches!(&**fun, TypedExpr::Invalid { location, .. } if *location == at(16, 23)));
    assert!(is_call_of(&finally, "double"));
    assert_eq!(
        typer.problems.errors,
        vec![
            Error::UnknownVariable { location: at(5, 9), name: "nope".to_string() },
            Error::UnknownVariable { location: at(16, 23), name: "nowhere".to_string() },
        ]
    );
}

#[test]
fn an_unknown_first_stage_is_replaced() {
    let mut typer = typer(maths());
    let typed = PipeTyper::infer(&mut typer, pipeline(vec![name("nope", 0, 4), name("double", 8, 14)]));
    let (location, assignments, _) = parts(typed);
    assert_eq!(location, at(0, 14));
    assert!(matches!(&assignments[0].2, TypedExpr::Invalid { location, .. } if *location == at(0, 4)));
    assert_eq!(
        typer.problems.errors,
        vec![Error::UnknownVariable { location: at(0, 4), name: "nope".to_string() }]
    );
}

#[test]
fn a_labelled_hole_is_not_redundant() {
    let mut stage = capture(name("add", 5, 8), vec![number("2", 12, 13)], 5, 14);
    if let UntypedExpr::Fn { body, .. } = &mut stage {
        if let UntypedStatement::Expression(UntypedExpr::Call { arguments, .. }) = &mut body[0] {
            arguments[0].label = Some("left".to_string());
        }
    }
    let mut typer = typer(maths());
    let _ = PipeTyper::infer(&mut typer, pipeline(vec![number("1", 0, 1), stage]));
    assert_eq!(typer.problems.warnings, vec![]);
    // nor is a hole in another place
    let mut stage = capture(name("add", 5, 8), vec![number("2", 12, 13)], 5, 14);
    if let UntypedExpr::Fn { body, .. } = &mut stage {
        if let UntypedStatement::Expression(UntypedExpr::Call { arguments, .. }) = &mut body[0] {
            arguments.swap(0, 1);
        }
    }
    let mut typer = self::typer(maths());
    let _ = PipeTyper::infer(&mut typer, pipeline(vec![number("1", 0, 1), stage]));
    assert_eq!(typer.problems.warnings, vec![]);
}

#[test]
fn what_follows_a_panic_cannot_be_reached() {
    let mut typer = typer(maths());
    typer.engine.panics.push("double".to_string());
    let _ = PipeTyper::infer(
        &mut typer,
        pipeline(vec![
            number("1", 0, 1),
            name("double", 5, 11),
            name("double", 15, 21),
            name("double", 25, 31),
        ]),
    );
    // once, for the first stage behind the panic
    assert_eq!(
        typer.problems.warnings,
        vec![Warning::UnreachableCodeAfterPanic {
            location: at(15, 21),
            panic_position: PanicPosition::PreviousExpression,
        }]
    );
}

fn could_not_unify(expected: Type, given: Type) -> UnifyError {
    UnifyError::CouldNotUnify { expected, given, situation: None }
}

#[test]
fn errors_are_converted_and_flipped() {
    let one = function_type(vec![named("Int")], named("Int"));
    let other = named("String");
    assert_eq!(
        convert_unify_error(could_not_unify(one.clone(), other.clone()), at(1, 2)),
        Error::CouldNotUnify {
            location: at(1, 2),
            situation: None,
            expected: one.clone(),
            given: other.clone(),
        }
    );
    assert_eq!(
        convert_unify_error(UnifyError::RecursiveType, at(1, 2)),
        Error::RecursiveType { location: at(1, 2) }
    );
    assert_eq!(
        flip_unify_error(UnifyError::CouldNotUnify {
            expected: one.clone(),
            given: other.clone(),
            situation: Some(UnifyErrorSituation::CaseClauseMismatch),
        }),
        UnifyError::CouldNotUnify {
            expected: other.clone(),
            given: one.clone(),
            situation: Some(UnifyErrorSituation::CaseClauseMismatch),
        }
    );
    assert_eq!(flip_unify_error(UnifyError::RecursiveType), UnifyError::RecursiveType);
    assert_eq!(
        Error::RecursiveType { location: at(1, 2) }
            .with_unify_error_situation(UnifyErrorSituation::PipeTypeMismatch),
        Error::RecursiveType { location: at(1, 2) }
    );
    assert_eq!(
        Error::UnknownVariable { location: at(1, 2), name: "x".to_string() }
            .with_unify_error_situation(UnifyErrorSituation::PipeTypeMismatch),
        Error::UnknownVariable { location: at(1, 2), name: "x".to_string() }
    );
    assert_eq!(
        Error::CouldNotUnify {
            location: at(1, 2),
            situation: Some(UnifyErrorSituation::CaseClauseMismatch),
            expected: one.clone(),
            given: other.clone(),
        }
        .with_unify_error_situation(UnifyErrorSituation::PipeTypeMismatch),
        Error::CouldNotUnify {
            location: at(1, 2),
            situation: Some(UnifyErrorSituation::PipeTypeMismatch),
            expected: one.clone(),
            given: other.clone(),
        }
    );
    // the error for a stage that cannot take the value
    assert_eq!(
        pipe_error(could_not_unify(one.clone(), other.clone()), true, at(3, 4)),
        Error::CouldNotUnify {
            location: at(3, 4),
            situation: Some(UnifyErrorSituation::PipeTypeMismatch),
            expected: one.clone(),
            given: other.clone(),
        }
    );
    assert_eq!(
        pipe_error(could_not_unify(one.clone(), other.clone()), false, at(3, 4)),
        Error::CouldNotUnify { location: at(3, 4), situation: None, expected: other, given: one }
    );
    assert_eq!(
        pipe_error(UnifyError::RecursiveType, true, at(3, 4)),
        Error::RecursiveType { location: at(3, 4) }
    );
    assert_eq!(
        pipe_error(UnifyError::RecursiveType, false, at(3, 4)),
        Error::RecursiveType { location: at(3, 4) }
    );
}

#[test]
fn an_engine_that_finds_a_recursive_type_is_reported() {
    struct Looping(Toy);
    impl Engine for Looping {
        fn infer(
            &mut self,
            environment: &mut Environment,
            problems: &mut Problems,
            previous_panics: &mut bool,
            expr: UntypedExpr,
        ) -> Result<TypedExpr, Error> {
            self.0.infer(environment, problems, previous_panics, expr)
        }

        fn infer_call(
            &mut self,
            environment: &mut Environment,
            problems: &mut Problems,
            previous_panics: &mut bool,
            fun: UntypedExpr,
            args: Vec<CallArg<UntypedExpr>>,
            location: SrcSpan,
            kind: CallKind,
        ) -> (TypedExpr, Vec<CallArg<TypedExpr>>, Type) {
            self.0.infer_call(environment, problems, previous_panics, fun, args, location, kind)
        }

        fn infer_call_with_known_fun(
            &mut self,
            environment: &mut Environment,
            problems: &mut Problems,
            previous_panics: &mut bool,
            fun: TypedExpr,
            args: Vec<CallArg<UntypedExpr>>,
            location: SrcSpan,
            kind: CallKind,
        ) -> (TypedExpr, Vec<CallArg<TypedExpr>>, Type) {
            self.0.infer_call_with_known_fun(
                environment,
                problems,
                previous_panics,
                fun,
                args,
                location,
                kind,
            )
        }

        fn new_unbound_var(&mut self) -> Type {
            self.0.new_unbound_var()
        }

        fn unify(&mut self, _t1: Type, _t2: Type) -> Result<(), UnifyError> {
            Err(UnifyError::RecursiveType)
        }
    }
    let mut typer = ExprTyper::new(Looping(Toy::new(maths())));
    let _ = PipeTyper::infer(&mut typer, pipeline(vec![number("1", 0, 1), name("double", 5, 11)]));
    assert_eq!(typer.problems.errors, vec![Error::RecursiveType { location: at(5, 11) }]);
}

#[test]
fn the_first_parameters_of_two_function_types() {
    let int = || named("Int");
    let text = || named("String");
    let both = |expected: Type, given: Type| first_arguments_of(&could_not_unify(expected, given));
    assert_eq!(
        both(function_type(vec![int(), text()], int()), function_type(vec![text(), int()], text())),
        Some((int(), text()))
    );
    // another number of parameters
    assert_eq!(
        both(function_type(vec![int()], int()), function_type(vec![text(), int()], int())),
        None
    );
    // no parameter at all
    assert_eq!(both(function_type(vec![], int()), function_type(vec![], text())), None);
    // no function
    assert_eq!(both(int(), function_type(vec![int()], int())), None);
    assert_eq!(both(function_type(vec![int()], int()), text()), None);
    assert_eq!(first_arguments_of(&UnifyError::RecursiveType), None);
}

#[test]
fn a_call_applies_to_a_function_of_as_many_arguments() {
    let unary = function_type(vec![named("Int")], named("Int"));
    let binary = function_type(vec![named("Int"), named("Int")], named("Int"));
    assert!(applies_to_call(&unary, 1));
    assert!(!applies_to_call(&unary, 0));
    assert!(!applies_to_call(&unary, 2));
    assert!(applies_to_call(&binary, 2));
    assert!(applies_to_call(&function_type(vec![], named("Int")), 0));
    assert!(!applies_to_call(&named("Int"), 0));
    assert!(!applies_to_call(&Type::Var { id: 1 }, 1));
    assert!(!applies_to_call(&Type::Tuple { elems: vec![named("Int")] }, 1));
    assert_eq!(fn_(vec![named("Int")], named("Int")), unary);
}

#[test]
fn the_hole_of_a_capture() {
    assert!(is_capture_hole(&argument(name("_capture", 0, 1))));
    assert!(!is_capture_hole(&argument(name("_pipe", 0, 1))));
    assert!(!is_capture_hole(&argument(number("1", 0, 1))));
    let redundant = capture(name("add", 5, 8), vec![number("2", 12, 13)], 5, 14);
    assert_eq!(redundant_capture_of(&redundant), Some(at(5, 6)));
    // a function literal that is no capture
    let mut anonymous = capture(name("add", 5, 8), vec![number("2", 12, 13)], 5, 14);
    if let UntypedExpr::Fn { kind, .. } = &mut anonymous {
        *kind = FunctionLiteralKind::Anonymous;
    }
    assert_eq!(redundant_capture_of(&anonymous), None);
    // a capture of a call without arguments, and one without a body
    let mut bare = capture(name("add", 5, 8), vec![], 5, 14);
    if let UntypedExpr::Fn { body, .. } = &mut bare {
        if let UntypedStatement::Expression(UntypedExpr::Call { arguments, .. }) = &mut body[0] {
            arguments.clear();
        }
    }
    assert_eq!(redundant_capture_of(&bare), None);
    if let UntypedExpr::Fn { body, .. } = &mut bare {
        body.clear();
    }
    assert_eq!(redundant_capture_of(&bare), None);
    assert_eq!(redundant_capture_of(&name("add", 5, 8)), None);
    assert_eq!(redundant_capture_of(&call(name("add", 5, 8), vec![name("_capture", 9, 10)], 5, 11)), None);
}

#[test]
fn a_call_is_made_of_what_was_inferred() {
    let callee = TypedExpr::Int { location: at(0, 1), type_: named("Int"), value: "1".to_string() };
    let made = call_of(at(3, 9), (callee, vec![piped(named("Int"), at(0, 1))], named("String")));
    let TypedExpr::Call { location, type_, fun, args } = made else { panic!("a call") };
    assert_eq!(location, at(3, 9));
    assert_eq!(type_, named("String"));
    assert!(matches!(*fun, TypedExpr::Int { .. }));
    assert_eq!(args, vec![piped(named("Int"), at(0, 1))]);
}

fn typing(argument_type: Type, argument_location: SrcSpan) -> PipeTyper {
    PipeTyper {
        size: 2,
        argument_type,
        argument_location,
        location: at(0, 9),
        assignments: vec![],
    }
}

#[test]
fn the_value_on_the_left_as_a_variable_and_as_an_argument() {
    let typer = typing(named("Int"), at(2, 5));
    assert_eq!(
        typer.untyped_left_hand_value_variable(),
        UntypedExpr::Var { location: at(2, 5), name: "_pipe".to_string() }
    );
    assert_eq!(
        typer.untyped_left_hand_value_variable_call_argument(),
        CallArg {
            label: None,
            location: at(2, 5),
            value: UntypedExpr::Var { location: at(2, 5), name: "_pipe".to_string() },
            implicit: Some(ImplicitCallArgOrigin::Pipe),
        }
    );
    assert_eq!(typer.typed_left_hand_value_variable(), piped(named("Int"), at(2, 5)).value);
    assert_eq!(
        typer.typed_left_hand_value_variable_call_argument(),
        piped(named("Int"), at(2, 5))
    );
    // the arguments of a call with the value in front
    let arguments = typer.piped_first(vec![argument(number("1", 7, 8)), argument(number("2", 9, 10))]);
    assert_eq!(
        arguments,
        vec![
            typer.untyped_left_hand_value_variable_call_argument(),
            argument(number("1", 7, 8)),
            argument(number("2", 9, 10)),
        ]
    );
    // a stage called with the value
    let stage = TypedExpr::Int { location: at(6, 7), type_: named("Int"), value: "1".to_string() };
    let TypedExpr::Call { location, type_, fun, args } = typer.applied(stage, named("String")) else {
        panic!("a call")
    };
    assert_eq!(location, at(6, 7));
    assert_eq!(type_, named("String"));
    assert!(matches!(*fun, TypedExpr::Int { .. }));
    assert_eq!(args, vec![piped(named("Int"), at(2, 5))]);
}

#[test]
fn an_assignment_binds_the_variable_of_the_pipeline() {
    let mut expr_typer = typer(maths());
    let mut typer = typing(named("Nil"), at(0, 0));
    let first = TypedExpr::Int { location: at(2, 3), type_: named("Int"), value: "1".to_string() };
    typer.push_assignment_no_update(&mut expr_typer, first);
    assert_eq!(typer.argument_type, named("Nil"));
    assert_eq!(typer.argument_location, at(0, 0));
    let second = TypedExpr::String {
        location: at(5, 8),
        type_: named("String"),
        value: "a".to_string(),
    };
    typer.push_assignment(&mut expr_typer, second);
    assert_eq!(typer.argument_type, named("String"));
    assert_eq!(typer.argument_location, at(5, 8));
    assert_eq!(typer.assignments.len(), 2);
    assert_eq!(typer.assignments[0].name, "_pipe");
    assert_eq!(typer.assignments[0].location, at(2, 3));
    assert!(matches!(&typer.assignments[0].value, TypedExpr::Int { .. }));
    assert_eq!(typer.assignments[1].location, at(5, 8));
    assert!(matches!(&typer.assignments[1].value, TypedExpr::String { .. }));
    // the innermost binding is that of the stage typed last
    let found = expr_typer.environment.scope.get(&"_pipe".to_string()).expect("the variable");
    assert_eq!(found.type_, named("String"));
    assert_eq!(
        found.variant,
        ValueConstructorVariant::LocalVariable {
            location: at(5, 8),
            origin: VariableOrigin::Generated
        }
    );
    let Scope::Bound { rest, .. } = &*expr_typer.environment.scope else { panic!("bound") };
    let Scope::Bound { value, rest, .. } = &**rest else { panic!("bound") };
    assert_eq!(value.type_, named("Int"));
    assert!(matches!(**rest, Scope::Empty));
}
