//! Generated libraries, run by a small interpreter of the target language.

use camino::Utf8PathBuf;
use chez_backend::ast::{
    Arg, ArgNames, AssignName, BinOp, CallArg, ClauseGuard, Constant, CustomType, Definition,
    Pattern, PatternConstructor, Publicity, RecordConstructor, RecordConstructorArg, SrcSpan,
    TypedAssignment, TypedClause, TypedExpr, TypedFunction, TypedModule, TypedPipelineAssignment,
    TypedRecordUpdateArg, TypedStatement,
};
use chez_backend::chez::module;
use chez_backend::type_::{
    Deprecation, Type, ValueConstructor, ValueConstructorVariant, VariableOrigin,
};
use im::HashSet;
use std::cell::RefCell;
use std::collections::HashMap;
use std::rc::Rc;

// The interpreter

#[derive(Clone, Debug, PartialEq)]
enum Term {
    Atom(String),
    Text(String),
    List(Vec<Term>),
}

fn read(text: &str) -> Term {
    let chars: Vec<char> = text.chars().collect();
    let mut at = 0;
    let term = read_term(&chars, &mut at);
    while at < chars.len() && chars[at].is_whitespace() {
        at += 1;
    }
    assert_eq!(at, chars.len(), "text behind the term");
    term
}

fn read_term(chars: &[char], at: &mut usize) -> Term {
    while chars[*at].is_whitespace() {
        *at += 1;
    }
    match chars[*at] {
        '(' => {
            *at += 1;
            let mut items = vec![];
            loop {
                while chars[*at].is_whitespace() {
                    *at += 1;
                }
                if chars[*at] == ')' {
                    *at += 1;
                    return Term::List(items);
                }
                items.push(read_term(chars, at));
            }
        }
        '\'' => {
            *at += 1;
            Term::List(vec![Term::Atom("quote".to_string()), read_term(chars, at)])
        }
        '"' => {
            *at += 1;
            let from = *at;
            while chars[*at] != '"' {
                *at += 1;
            }
            *at += 1;
            Term::Text(chars[from..*at - 1].iter().collect())
        }
        _ => {
            let from = *at;
            while *at < chars.len()
                && !chars[*at].is_whitespace()
                && chars[*at] != '('
                && chars[*at] != ')'
            {
                *at += 1;
            }
            Term::Atom(chars[from..*at].iter().collect())
        }
    }
}

#[derive(Clone)]
enum Value {
    Unspecified,
    Boolean(bool),
    Number(i64),
    Text(String),
    Symbol(String),
    List(Vec<Value>),
    Vector(Rc<RefCell<Vec<Value>>>),
    Function(Rc<Function>),
    Native(Rc<dyn Fn(Vec<Value>) -> Result<Value, String>>),
}

struct Function {
    parameters: Vec<String>,
    body: Vec<Term>,
    scope: Rc<Scope>,
}

struct Scope {
    variables: RefCell<HashMap<String, Value>>,
    outside: Option<Rc<Scope>>,
}

impl Scope {
    fn inside(outside: &Rc<Scope>) -> Rc<Scope> {
        Rc::new(Scope { variables: RefCell::new(HashMap::new()), outside: Some(outside.clone()) })
    }

    fn get(&self, name: &str) -> Result<Value, String> {
        match self.variables.borrow().get(name) {
            Some(value) => Ok(value.clone()),
            None => match &self.outside {
                Some(outside) => outside.get(name),
                None => Err(format!("variable {name} is not bound")),
            },
        }
    }

    fn set(&self, name: &str, value: Value) -> Result<(), String> {
        if self.variables.borrow().contains_key(name) {
            let _ = self.variables.borrow_mut().insert(name.to_string(), value);
            return Ok(());
        }
        match &self.outside {
            Some(outside) => outside.set(name, value),
            None => Err(format!("variable {name} is not bound")),
        }
    }

    fn define(&self, name: &str, value: Value) {
        let _ = self.variables.borrow_mut().insert(name.to_string(), value);
    }
}

fn same(a: &Value, b: &Value) -> bool {
    match (a, b) {
        (Value::Unspecified, Value::Unspecified) => true,
        (Value::Boolean(x), Value::Boolean(y)) => x == y,
        (Value::Number(x), Value::Number(y)) => x == y,
        (Value::Text(x), Value::Text(y)) => x == y,
        (Value::Symbol(x), Value::Symbol(y)) => x == y,
        (Value::List(x), Value::List(y)) => {
            x.len() == y.len() && x.iter().zip(y).all(|(p, q)| same(p, q))
        }
        (Value::Vector(x), Value::Vector(y)) => {
            let (x, y) = (x.borrow(), y.borrow());
            x.len() == y.len() && x.iter().zip(y.iter()).all(|(p, q)| same(p, q))
        }
        _ => false,
    }
}

fn show(value: &Value) -> String {
    match value {
        Value::Unspecified => "#<unspecified>".to_string(),
        Value::Boolean(true) => "#t".to_string(),
        Value::Boolean(false) => "#f".to_string(),
        Value::Number(n) => format!("{n}"),
        Value::Text(text) => format!("{text:?}"),
        Value::Symbol(name) => name.clone(),
        Value::List(items) => {
            format!("({})", items.iter().map(show).collect::<Vec<String>>().join(" "))
        }
        Value::Vector(items) => {
            format!("#({})", items.borrow().iter().map(show).collect::<Vec<String>>().join(" "))
        }
        Value::Function(_) | Value::Native(_) => "#<procedure>".to_string(),
    }
}

fn truthy(value: &Value) -> bool {
    !matches!(value, Value::Boolean(false))
}

fn number(value: &Value) -> Result<i64, String> {
    match value {
        Value::Number(n) => Ok(*n),
        other => Err(format!("{} is not a number", show(other))),
    }
}

fn text(value: &Value) -> Result<String, String> {
    match value {
        Value::Text(text) => Ok(text.clone()),
        other => Err(format!("{} is not a string", show(other))),
    }
}

fn elements(value: &Value) -> Result<Vec<Value>, String> {
    match value {
        Value::List(items) => Ok(items.clone()),
        other => Err(format!("{} is not a list", show(other))),
    }
}

fn fields(value: &Value) -> Result<Rc<RefCell<Vec<Value>>>, String> {
    match value {
        Value::Vector(items) => Ok(items.clone()),
        other => Err(format!("{} is not a vector", show(other))),
    }
}

fn primitive(name: &str, arguments: &[Value]) -> Option<Result<Value, String>> {
    let arity = |n: usize| {
        if arguments.len() == n {
            Ok(())
        } else {
            Err(format!("{name} takes {n} arguments"))
        }
    };
    let compare = |holds: fn(i64, i64) -> bool| -> Result<Value, String> {
        arity(2)?;
        Ok(Value::Boolean(holds(number(&arguments[0])?, number(&arguments[1])?)))
    };
    let compute = |apply: fn(i64, i64) -> i64| -> Result<Value, String> {
        arity(2)?;
        Ok(Value::Number(apply(number(&arguments[0])?, number(&arguments[1])?)))
    };
    Some(match name {
        "car" => arity(1).and_then(|_| {
            let items = elements(&arguments[0])?;
            items.first().cloned().ok_or("car of the empty list".to_string())
        }),
        "cdr" => arity(1).and_then(|_| {
            let items = elements(&arguments[0])?;
            if items.is_empty() {
                return Err("cdr of the empty list".to_string());
            }
            Ok(Value::List(items[1..].to_vec()))
        }),
        "cadr" => arity(1).and_then(|_| {
            let items = elements(&arguments[0])?;
            items.get(1).cloned().ok_or("cadr of a short list".to_string())
        }),
        "cons" => arity(2).and_then(|_| {
            let mut items = vec![arguments[0].clone()];
            items.extend(elements(&arguments[1])?);
            Ok(Value::List(items))
        }),
        "list" => Ok(Value::List(arguments.to_vec())),
        "vector" => Ok(Value::Vector(Rc::new(RefCell::new(arguments.to_vec())))),
        "vector-copy" => arity(1).and_then(|_| {
            let copy = fields(&arguments[0])?.borrow().clone();
            Ok(Value::Vector(Rc::new(RefCell::new(copy))))
        }),
        "vector-ref" => arity(2).and_then(|_| {
            let items = fields(&arguments[0])?;
            let index = number(&arguments[1])? as usize;
            let found = items.borrow().get(index).cloned();
            found.ok_or("vector-ref out of range".to_string())
        }),
        "vector-set!" => arity(3).and_then(|_| {
            let items = fields(&arguments[0])?;
            let index = number(&arguments[1])? as usize;
            if index >= items.borrow().len() {
                return Err("vector-set! out of range".to_string());
            }
            items.borrow_mut()[index] = arguments[2].clone();
            Ok(Value::Unspecified)
        }),
        "equal?" => arity(2).map(|_| Value::Boolean(same(&arguments[0], &arguments[1]))),
        "not" => arity(1).map(|_| Value::Boolean(!truthy(&arguments[0]))),
        "error" => Err(arguments.iter().map(show).collect::<Vec<String>>().join(" ")),
        "+" => compute(|a, b| a + b),
        "-" => {
            if arguments.len() == 1 {
                number(&arguments[0]).map(|n| Value::Number(-n))
            } else {
                compute(|a, b| a - b)
            }
        }
        "*" => compute(|a, b| a * b),
        "div" => compute(|a, b| a.div_euclid(b)),
        "remainder" => compute(|a, b| a % b),
        "<" => compare(|a, b| a < b),
        "<=" => compare(|a, b| a <= b),
        ">" => compare(|a, b| a > b),
        ">=" => compare(|a, b| a >= b),
        "string-append" => arity(2).and_then(|_| {
            Ok(Value::Text(format!("{}{}", text(&arguments[0])?, text(&arguments[1])?)))
        }),
        "string-length" => {
            arity(1).and_then(|_| Ok(Value::Number(text(&arguments[0])?.chars().count() as i64)))
        }
        "substring" => arity(3).and_then(|_| {
            let whole: Vec<char> = text(&arguments[0])?.chars().collect();
            let from = number(&arguments[1])? as usize;
            let to = number(&arguments[2])? as usize;
            if from > to || to > whole.len() {
                return Err("substring out of range".to_string());
            }
            Ok(Value::Text(whole[from..to].iter().collect()))
        }),
        "gleam.string-prefix?" => arity(2).and_then(|_| {
            Ok(Value::Boolean(text(&arguments[0])?.starts_with(&text(&arguments[1])?)))
        }),
        _ => return None,
    })
}

fn atom(term: &Term) -> Result<&str, String> {
    match term {
        Term::Atom(name) => Ok(name),
        other => Err(format!("{other:?} is no name")),
    }
}

fn body(terms: &[Term], scope: &Rc<Scope>) -> Result<Value, String> {
    let mut last = Value::Unspecified;
    for term in terms {
        last = eval(term, scope)?;
    }
    Ok(last)
}

fn call(function: &Value, arguments: Vec<Value>) -> Result<Value, String> {
    match function {
        Value::Function(function) => {
            if function.parameters.len() != arguments.len() {
                return Err("wrong number of arguments".to_string());
            }
            let scope = Scope::inside(&function.scope);
            for (name, value) in function.parameters.iter().zip(arguments) {
                scope.define(name, value);
            }
            body(&function.body, &scope)
        }
        Value::Native(native) => native(arguments),
        other => Err(format!("{} is no procedure", show(other))),
    }
}

fn eval(term: &Term, scope: &Rc<Scope>) -> Result<Value, String> {
    match term {
        Term::Text(text) => Ok(Value::Text(text.clone())),
        Term::Atom(name) => {
            if name == "gleam.True" {
                Ok(Value::Boolean(true))
            } else if name == "gleam.False" {
                Ok(Value::Boolean(false))
            } else if let Ok(n) = name.parse::<i64>() {
                Ok(Value::Number(n))
            } else {
                scope.get(name)
            }
        }
        Term::List(items) => {
            let Some(head) = items.first() else { return Err("an empty call".to_string()) };
            if let Term::Atom(word) = head {
                match word.as_str() {
                    "quote" => return Ok(Value::Symbol(atom(&items[1])?.to_string())),
                    "define" => {
                        let value = match items.get(2) {
                            Some(value) => eval(value, scope)?,
                            None => Value::Unspecified,
                        };
                        scope.define(atom(&items[1])?, value);
                        return Ok(Value::Unspecified);
                    }
                    "lambda" => {
                        let Term::List(parameters) = &items[1] else {
                            return Err("parameters".to_string());
                        };
                        let mut names = vec![];
                        for parameter in parameters {
                            names.push(atom(parameter)?.to_string());
                        }
                        return Ok(Value::Function(Rc::new(Function {
                            parameters: names,
                            body: items[2..].to_vec(),
                            scope: scope.clone(),
                        })));
                    }
                    "let" => {
                        let Term::List(bindings) = &items[1] else {
                            return Err("bindings".to_string());
                        };
                        let inner = Scope::inside(scope);
                        let mut bound = vec![];
                        for binding in bindings {
                            let Term::List(pair) = binding else {
                                return Err("a binding".to_string());
                            };
                            bound.push((atom(&pair[0])?.to_string(), eval(&pair[1], scope)?));
                        }
                        for (name, value) in bound {
                            inner.define(&name, value);
                        }
                        return body(&items[2..], &inner);
                    }
                    "if" => {
                        return if truthy(&eval(&items[1], scope)?) {
                            eval(&items[2], scope)
                        } else if let Some(otherwise) = items.get(3) {
                            eval(otherwise, scope)
                        } else {
                            Ok(Value::Unspecified)
                        };
                    }
                    "cond" => {
                        for clause in &items[1..] {
                            let Term::List(parts) = clause else {
                                return Err("a clause".to_string());
                            };
                            if parts[0] == Term::Atom("else".to_string()) {
                                return body(&parts[1..], scope);
                            }
                            let test = eval(&parts[0], scope)?;
                            if truthy(&test) {
                                return if parts.len() == 1 {
                                    Ok(test)
                                } else {
                                    body(&parts[1..], scope)
                                };
                            }
                        }
                        return Ok(Value::Unspecified);
                    }
                    "and" => {
                        let mut last = Value::Boolean(true);
                        for item in &items[1..] {
                            last = eval(item, scope)?;
                            if !truthy(&last) {
                                break;
                            }
                        }
                        return Ok(last);
                    }
                    "or" => {
                        let mut last = Value::Boolean(false);
                        for item in &items[1..] {
                            last = eval(item, scope)?;
                            if truthy(&last) {
                                break;
                            }
                        }
                        return Ok(last);
                    }
                    "begin" => return body(&items[1..], scope),
                    "set!" => {
                        let value = eval(&items[2], scope)?;
                        scope.set(atom(&items[1])?, value)?;
                        return Ok(Value::Unspecified);
                    }
                    _ => {}
                }
            }
            let mut arguments = vec![];
            if let Term::Atom(name) = head {
                if scope.get(name).is_err() {
                    for item in &items[1..] {
                        arguments.push(eval(item, scope)?);
                    }
                    return match primitive(name, &arguments) {
                        Some(outcome) => outcome,
                        None => Err(format!("variable {name} is not bound")),
                    };
                }
            }
            let function = eval(head, scope)?;
            for item in &items[1..] {
                arguments.push(eval(item, scope)?);
            }
            call(&function, arguments)
        }
    }
}

/// The definitions of a library, loaded into a scope.
fn load(library: &str, scope: &Rc<Scope>) {
    let Term::List(items) = read(library) else { panic!("a library") };
    assert_eq!(items[0], Term::Atom("library".to_string()));
    assert!(matches!(&items[2], Term::List(export) if export[0] == Term::Atom("export".to_string())));
    assert!(matches!(&items[3], Term::List(import) if import[0] == Term::Atom("import".to_string())));
    for definition in &items[4..] {
        let _ = eval(definition, scope).expect("a definition");
    }
}

fn world() -> Rc<Scope> {
    Rc::new(Scope { variables: RefCell::new(HashMap::new()), outside: None })
}

fn run(scope: &Rc<Scope>, function: &str, arguments: Vec<Value>) -> Result<Value, String> {
    call(&scope.get(function)?, arguments)
}

// The modules

fn at() -> SrcSpan {
    SrcSpan { start: 0, end: 0 }
}

fn any() -> Type {
    Type::Var { id: 0 }
}

fn constant(value: i64) -> TypedExpr {
    TypedExpr::Int { location: at(), type_: any(), value: format!("{value}") }
}

fn string(value: &str) -> TypedExpr {
    TypedExpr::String { location: at(), type_: any(), value: value.to_string() }
}

fn var(name: &str, variant: ValueConstructorVariant) -> TypedExpr {
    TypedExpr::Var {
        location: at(),
        name: name.to_string(),
        constructor: ValueConstructor {
            publicity: Publicity::Private,
            deprecation: Deprecation::NotDeprecated,
            type_: any(),
            variant,
        },
    }
}

fn local(name: &str) -> TypedExpr {
    var(name, ValueConstructorVariant::LocalVariable { location: at(), origin: VariableOrigin::Variable })
}

fn function(name: &str) -> TypedExpr {
    var(
        name,
        ValueConstructorVariant::ModuleFn {
            location: at(),
            module: "m".to_string(),
            name: name.to_string(),
            arity: 0,
        },
    )
}

fn record(name: &str) -> TypedExpr {
    var(
        name,
        ValueConstructorVariant::Record {
            location: at(),
            module: "m".to_string(),
            name: name.to_string(),
            arity: 0,
        },
    )
}

fn call_of(fun: TypedExpr, args: Vec<TypedExpr>) -> TypedExpr {
    TypedExpr::Call {
        location: at(),
        type_: any(),
        fun: Box::new(fun),
        args: args
            .into_iter()
            .map(|value| CallArg { label: None, location: at(), value, implicit: None })
            .collect(),
    }
}

fn binop(name: BinOp, left: TypedExpr, right: TypedExpr) -> TypedExpr {
    TypedExpr::BinOp {
        location: at(),
        type_: any(),
        name,
        left: Box::new(left),
        right: Box::new(right),
    }
}

fn tuple(elems: Vec<TypedExpr>) -> TypedExpr {
    TypedExpr::Tuple { location: at(), type_: any(), elems }
}

fn variable(name: &str) -> Pattern {
    Pattern::Variable { location: at(), name: name.to_string() }
}

fn discard() -> Pattern {
    Pattern::Discard { location: at(), name: "_".to_string() }
}

fn number_pattern(value: i64) -> Pattern {
    Pattern::Int { location: at(), value: format!("{value}") }
}

fn constructor_pattern(name: &str, arguments: Vec<Pattern>) -> Pattern {
    Pattern::Constructor {
        location: at(),
        constructor: PatternConstructor { module: "m".to_string(), name: name.to_string() },
        arguments,
    }
}

fn clause(pattern: Vec<Pattern>, result: TypedExpr) -> TypedClause {
    TypedClause { location: at(), pattern, alternative_patterns: vec![], guard: None, result }
}

fn case(subjects: Vec<TypedExpr>, clauses: Vec<TypedClause>) -> TypedExpr {
    TypedExpr::Case { location: at(), type_: any(), subjects, clauses }
}

fn define(name: &str, parameters: Vec<&str>, body: Vec<TypedStatement>) -> Definition {
    Definition::Function(TypedFunction {
        location: at(),
        name: name.to_string(),
        publicity: Publicity::Public,
        arguments: parameters
            .into_iter()
            .map(|name| Arg { names: ArgNames::Named { name: name.to_string() }, location: at() })
            .collect(),
        body,
        external_chez: None,
    })
}

fn returning(name: &str, parameters: Vec<&str>, value: TypedExpr) -> Definition {
    define(name, parameters, vec![TypedStatement::Expression(value)])
}

fn custom_type(constructors: Vec<(&str, usize)>) -> Definition {
    Definition::CustomType(CustomType {
        location: at(),
        name: "T".to_string(),
        publicity: Publicity::Public,
        constructors: constructors
            .into_iter()
            .map(|(name, arity)| RecordConstructor {
                location: at(),
                name: name.to_string(),
                arguments: (0..arity)
                    .map(|_| RecordConstructorArg { label: None, location: at() })
                    .collect(),
            })
            .collect(),
    })
}

fn compiled(definitions: Vec<Definition>) -> Rc<Scope> {
    let typed = TypedModule { name: "m".to_string(), definitions };
    let mut dependencies = HashSet::new();
    let text = module(&Utf8PathBuf::from("build"), &typed, &mut dependencies).expect("generated");
    let scope = world();
    load(&text, &scope);
    scope
}

fn numbers(values: Vec<i64>) -> Value {
    Value::List(values.into_iter().map(Value::Number).collect())
}

fn shown(outcome: Result<Value, String>) -> String {
    match outcome {
        Ok(value) => show(&value),
        Err(error) => format!("error: {error}"),
    }
}

/// A native function that counts its calls and hands its argument back.
fn counting(scope: &Rc<Scope>, name: &str) -> Rc<RefCell<usize>> {
    let calls = Rc::new(RefCell::new(0));
    let counted = calls.clone();
    scope.define(
        name,
        Value::Native(Rc::new(move |arguments: Vec<Value>| {
            *counted.borrow_mut() += 1;
            Ok(arguments.into_iter().next().unwrap_or(Value::Unspecified))
        })),
    );
    calls
}

#[test]
fn the_interpreter_reads_and_runs() {
    let scope = world();
    assert_eq!(shown(eval(&read("(car (cdr (list 1 2 3)))"), &scope)), "2");
    assert_eq!(shown(eval(&read("((lambda (x) (+ x 1)) 2)"), &scope)), "3");
    assert_eq!(shown(eval(&read("(let ((x 1)) (define y) (set! y x) (vector y 'a \"b\"))"), &scope)), "#(1 a \"b\")");
    assert_eq!(shown(eval(&read("(cond (gleam.False 1) ((equal? 1 1) 2) (else 3))"), &scope)), "2");
    assert_eq!(shown(eval(&read("(car (list))"), &scope)), "error: car of the empty list");
}

#[test]
fn a_predicate_knows_its_own_constructor() {
    let constructors = vec![("None", 0), ("Some", 1), ("Pair", 2), ("Triple", 3), ("Empty", 0)];
    let scope = compiled(vec![custom_type(constructors.clone())]);
    let build = |name: &str, arity: usize| {
        let made = scope.get(&format!("m.{name}")).expect("a constructor");
        if arity == 0 {
            made
        } else {
            call(&made, (0..arity as i64).map(Value::Number).collect()).expect("a value")
        }
    };
    for (made_by, arity) in &constructors {
        let value = build(made_by, *arity);
        for (asked, _) in &constructors {
            let answer = run(&scope, &format!("m.{asked}?"), vec![value.clone()]);
            assert_eq!(shown(answer), if made_by == asked { "#t" } else { "#f" });
        }
    }
}

#[test]
fn none_and_some_of_five() {
    let scope = compiled(vec![
        custom_type(vec![("Some", 1), ("None", 0)]),
        returning("five", vec![], call_of(record("Some"), vec![constant(5)])),
        returning("nothing", vec![], record("None")),
    ]);
    assert_eq!(shown(run(&scope, "m.nothing", vec![])), "(None #())");
    assert_eq!(shown(run(&scope, "m.five", vec![])), "(Some #(5))");
    let nothing = run(&scope, "m.nothing", vec![]).expect("a value");
    assert_eq!(shown(run(&scope, "m.Some?", vec![nothing.clone()])), "#f");
    assert_eq!(shown(run(&scope, "m.None?", vec![nothing])), "#t");
}

#[test]
fn a_record_update_leaves_the_record_as_it_was() {
    let scope = compiled(vec![
        custom_type(vec![("Person", 3)]),
        returning(
            "grow",
            vec!["person"],
            TypedExpr::RecordUpdate {
                location: at(),
                type_: any(),
                spread: Box::new(local("person")),
                args: vec![
                    TypedRecordUpdateArg {
                        label: "age".to_string(),
                        location: at(),
                        value: constant(41),
                        index: 1,
                    },
                    TypedRecordUpdateArg {
                        label: "town".to_string(),
                        location: at(),
                        value: string("Oslo"),
                        index: 2,
                    },
                ],
            },
        ),
        returning(
            "same",
            vec!["person"],
            TypedExpr::RecordUpdate {
                location: at(),
                type_: any(),
                spread: Box::new(local("person")),
                args: vec![],
            },
        ),
    ]);
    let person = run(
        &scope,
        "m.Person",
        vec![Value::Text("Ada".to_string()), Value::Number(40), Value::Text("Rome".to_string())],
    )
    .expect("a person");
    for update in ["m.grow", "m.same"] {
        let updated = run(&scope, update, vec![person.clone()]).expect("a person");
        assert_eq!(show(&person), "(Person #(\"Ada\" 40 \"Rome\"))");
        let Value::Vector(before) = &elements(&person).expect("a record")[1] else { panic!("fields") };
        let Value::Vector(after) = &elements(&updated).expect("a record")[1] else { panic!("fields") };
        assert!(!Rc::ptr_eq(before, after));
        // writing to the new record does not reach the old one either
        after.borrow_mut()[0] = Value::Text("Eve".to_string());
        assert_eq!(show(&person), "(Person #(\"Ada\" 40 \"Rome\"))");
    }
    assert_eq!(
        shown(run(&scope, "m.grow", vec![person.clone()])),
        "(Person #(\"Ada\" 41 \"Oslo\"))"
    );
    assert_eq!(shown(run(&scope, "m.same", vec![person])), "(Person #(\"Ada\" 40 \"Rome\"))");
}

/// `case subject(x) { 1 -> first(10)  2 | 3 | 4 -> second(20)  n if n > 5 ->
/// third(30)  _ -> fourth(40) }`, as the function `choose` of `x`.
fn chooser() -> Definition {
    let branch = |name: &str, value: i64| call_of(function(name), vec![constant(value)]);
    returning(
        "choose",
        vec!["x"],
        case(
            vec![call_of(function("subject"), vec![local("x")])],
            vec![
                clause(vec![number_pattern(1)], branch("first", 10)),
                TypedClause {
                    location: at(),
                    pattern: vec![number_pattern(2)],
                    alternative_patterns: vec![vec![number_pattern(3)], vec![number_pattern(4)]],
                    guard: None,
                    result: branch("second", 20),
                },
                TypedClause {
                    location: at(),
                    pattern: vec![variable("n")],
                    alternative_patterns: vec![],
                    guard: Some(ClauseGuard::Binary {
                        location: at(),
                        name: BinOp::GtInt,
                        left: Box::new(ClauseGuard::Var { location: at(), name: "n".to_string() }),
                        right: Box::new(ClauseGuard::Constant(Constant::Int {
                            location: at(),
                            value: "5".to_string(),
                        })),
                    }),
                    result: branch("third", 30),
                },
                clause(vec![discard()], branch("fourth", 40)),
            ],
        ),
    )
}

#[test]
fn a_case_takes_the_first_clause_that_applies() {
    for (input, expected, taken) in
        [(1, 10, 0), (2, 20, 1), (3, 20, 1), (4, 20, 1), (5, 40, 3), (6, 30, 2), (0, 40, 3)]
    {
        let scope = world();
        // the subject and the results count how often they are evaluated
        let subject = counting(&scope, "m.subject");
        let results: Vec<Rc<RefCell<usize>>> = ["m.first", "m.second", "m.third", "m.fourth"]
            .iter()
            .map(|name| counting(&scope, name))
            .collect();
        let mut dependencies = HashSet::new();
        let text = module(
            &Utf8PathBuf::from("build"),
            &TypedModule { name: "m".to_string(), definitions: vec![chooser()] },
            &mut dependencies,
        )
        .expect("generated");
        load(&text, &scope);
        assert_eq!(
            shown(run(&scope, "m.choose", vec![Value::Number(input)])),
            format!("{expected}")
        );
        assert_eq!(*subject.borrow(), 1);
        for (i, calls) in results.iter().enumerate() {
            assert_eq!(*calls.borrow(), if i == taken { 1 } else { 0 });
        }
    }
}

#[test]
fn a_case_without_a_clause_that_applies_stops_the_program() {
    let scope = compiled(vec![returning(
        "only_one",
        vec!["x"],
        case(vec![local("x")], vec![clause(vec![number_pattern(1)], string("one"))]),
    )]);
    assert_eq!(shown(run(&scope, "m.only_one", vec![Value::Number(1)])), "\"one\"");
    assert_eq!(
        shown(run(&scope, "m.only_one", vec![Value::Number(2)])),
        "error: \"panic\" \"unreachable\""
    );
}

#[test]
fn two_subjects_are_matched_together() {
    let scope = compiled(vec![returning(
        "both",
        vec!["x", "y"],
        case(
            vec![local("x"), local("y")],
            vec![
                clause(vec![number_pattern(0), discard()], string("left")),
                clause(vec![discard(), number_pattern(0)], string("right")),
                clause(vec![variable("a"), variable("b")], binop(BinOp::AddInt, local("a"), local("b"))),
            ],
        ),
    )]);
    let both = |x, y| shown(run(&scope, "m.both", vec![Value::Number(x), Value::Number(y)]));
    assert_eq!(both(0, 0), "\"left\"");
    assert_eq!(both(0, 7), "\"left\"");
    assert_eq!(both(7, 0), "\"right\"");
    assert_eq!(both(3, 4), "7");
}

#[test]
fn a_list_pattern_binds_two_and_the_rest() {
    let pattern = Pattern::List {
        location: at(),
        elements: vec![variable("a"), variable("b")],
        tail: Some(Box::new(variable("rest"))),
    };
    let scope = compiled(vec![returning(
        "split",
        vec!["xs"],
        case(
            vec![local("xs")],
            vec![
                clause(vec![pattern], tuple(vec![local("a"), local("b"), local("rest")])),
                clause(vec![discard()], string("too short")),
            ],
        ),
    )]);
    let split = |values: Vec<i64>| shown(run(&scope, "m.split", vec![numbers(values)]));
    assert_eq!(split(vec![1, 2, 3]), "#(1 2 (3))");
    assert_eq!(split(vec![1, 2, 3, 4, 5]), "#(1 2 (3 4 5))");
    assert_eq!(split(vec![1, 2]), "#(1 2 ())");
    // a list that is too short fails the pattern, and raises nothing
    assert_eq!(split(vec![1]), "\"too short\"");
    assert_eq!(split(vec![]), "\"too short\"");
}

#[test]
fn patterns_take_values_apart() {
    let nested = Pattern::Tuple {
        location: at(),
        elems: vec![
            constructor_pattern("Some", vec![variable("x")]),
            Pattern::Assign {
                location: at(),
                name: "whole".to_string(),
                pattern: Box::new(Pattern::List {
                    location: at(),
                    elements: vec![number_pattern(1)],
                    tail: Some(Box::new(discard())),
                }),
            },
        ],
    };
    let scope = compiled(vec![
        custom_type(vec![("Some", 1), ("None", 0)]),
        returning(
            "look",
            vec!["pair"],
            case(
                vec![local("pair")],
                vec![
                    clause(vec![nested], tuple(vec![local("x"), local("whole")])),
                    clause(
                        vec![Pattern::Tuple {
                            location: at(),
                            elems: vec![constructor_pattern("None", vec![]), discard()],
                        }],
                        string("nothing"),
                    ),
                    clause(vec![discard()], string("other")),
                ],
            ),
        ),
    ]);
    let pair = |first: Value, second: Value| Value::Vector(Rc::new(RefCell::new(vec![first, second])));
    let some = run(&scope, "m.Some", vec![Value::Number(9)]).expect("a value");
    let none = scope.get("m.None").expect("a value");
    let look = |value: Value| shown(run(&scope, "m.look", vec![value]));
    assert_eq!(look(pair(some.clone(), numbers(vec![1, 2]))), "#(9 (1 2))");
    assert_eq!(look(pair(some.clone(), numbers(vec![2, 2]))), "\"other\"");
    assert_eq!(look(pair(some, numbers(vec![]))), "\"other\"");
    assert_eq!(look(pair(none, numbers(vec![1]))), "\"nothing\"");
}

#[test]
fn a_string_prefix_leaves_the_rest() {
    let scope = compiled(vec![returning(
        "greet",
        vec!["text"],
        case(
            vec![local("text")],
            vec![
                clause(
                    vec![Pattern::StringPrefix {
                        location: at(),
                        left_side_string: "Hello, ".to_string(),
                        left_side_assignment: Some("greeting".to_string()),
                        right_side_assignment: AssignName::Variable("name".to_string()),
                    }],
                    tuple(vec![local("greeting"), local("name")]),
                ),
                clause(vec![discard()], string("?")),
            ],
        ),
    )]);
    let greet = |text: &str| shown(run(&scope, "m.greet", vec![Value::Text(text.to_string())]));
    assert_eq!(greet("Hello, Joe"), "#(\"Hello, \" \"Joe\")");
    assert_eq!(greet("Hello, "), "#(\"Hello, \" \"\")");
    assert_eq!(greet("Hi, Joe"), "\"?\"");
}

#[test]
fn a_prefix_is_counted_in_characters() {
    let scope = compiled(vec![returning(
        "rest",
        vec!["text"],
        case(
            vec![local("text")],
            vec![
                clause(
                    vec![Pattern::StringPrefix {
                        location: at(),
                        left_side_string: "é".to_string(),
                        left_side_assignment: None,
                        right_side_assignment: AssignName::Variable("rest".to_string()),
                    }],
                    local("rest"),
                ),
                clause(vec![discard()], string("?")),
            ],
        ),
    )]);
    let rest = |text: &str| shown(run(&scope, "m.rest", vec![Value::Text(text.to_string())]));
    assert_eq!(rest("été"), "\"té\"");
    assert_eq!(rest("é"), "\"\"");
    assert_eq!(rest("ete"), "\"?\"");
}

#[test]
fn assignments_are_seen_by_what_follows() {
    let assign = |pattern: Pattern, value: TypedExpr| {
        TypedStatement::Assignment(TypedAssignment { location: at(), pattern, value })
    };
    let scope = compiled(vec![
        define(
            "sum",
            vec!["x"],
            vec![
                // let y = x + 1   let x = y * 2   let #(a, _) = #(x, y)   a + y
                assign(variable("y"), binop(BinOp::AddInt, local("x"), constant(1))),
                assign(variable("x"), binop(BinOp::MultInt, local("y"), constant(2))),
                assign(
                    Pattern::Tuple { location: at(), elems: vec![variable("a"), discard()] },
                    tuple(vec![local("x"), local("y")]),
                ),
                TypedStatement::Expression(binop(BinOp::AddInt, local("a"), local("y"))),
            ],
        ),
        define(
            "again",
            vec!["x"],
            vec![
                // let x = x + 1   let x = x + 1   x
                assign(variable("x"), binop(BinOp::AddInt, local("x"), constant(1))),
                assign(variable("x"), binop(BinOp::AddInt, local("x"), constant(1))),
                TypedStatement::Expression(local("x")),
            ],
        ),
        define(
            "must_be_one",
            vec!["x"],
            vec![assign(number_pattern(1), local("x")), TypedStatement::Expression(string("one"))],
        ),
        define(
            "block",
            vec!["x"],
            vec![
                TypedStatement::Expression(TypedExpr::Block {
                    location: at(),
                    type_: any(),
                    statements: vec![assign(variable("x"), constant(100))],
                }),
                TypedStatement::Expression(local("x")),
            ],
        ),
    ]);
    assert_eq!(shown(run(&scope, "m.sum", vec![Value::Number(4)])), "15");
    assert_eq!(shown(run(&scope, "m.again", vec![Value::Number(4)])), "6");
    assert_eq!(shown(run(&scope, "m.must_be_one", vec![Value::Number(1)])), "\"one\"");
    assert_eq!(
        shown(run(&scope, "m.must_be_one", vec![Value::Number(2)])),
        "error: \"panic\" \"no match found\""
    );
    // a variable of a block does not outlive the block
    assert_eq!(shown(run(&scope, "m.block", vec![Value::Number(4)])), "4");
}

#[test]
fn a_pipeline_hands_each_value_on() {
    let stage = |value| TypedPipelineAssignment { location: at(), name: "_pipe".to_string(), value };
    let scope = compiled(vec![
        returning("add", vec!["a", "b"], binop(BinOp::AddInt, local("a"), local("b"))),
        returning("double", vec!["a"], binop(BinOp::MultInt, local("a"), constant(2))),
        returning(
            "chain",
            vec![],
            TypedExpr::Pipeline {
                location: at(),
                assignments: vec![
                    stage(constant(1)),
                    stage(call_of(function("add"), vec![local("_pipe"), constant(2)])),
                ],
                finally: Box::new(call_of(function("double"), vec![local("_pipe")])),
            },
        ),
    ]);
    assert_eq!(shown(run(&scope, "m.chain", vec![])), "6");
}

#[test]
fn expressions_compute() {
    let list = |elements, tail: Option<TypedExpr>| TypedExpr::List {
        location: at(),
        type_: any(),
        elements,
        tail: tail.map(Box::new),
    };
    let scope = compiled(vec![
        returning(
            "values",
            vec!["xs"],
            tuple(vec![
                list(vec![constant(1), constant(2)], Some(local("xs"))),
                list(vec![], None),
                binop(BinOp::DivInt, constant(7), constant(2)),
                binop(BinOp::RemainderInt, constant(7), constant(2)),
                binop(BinOp::NotEq, constant(7), constant(2)),
                binop(BinOp::Concatenate, string("a"), string("b")),
                binop(BinOp::And, binop(BinOp::LtInt, constant(1), constant(2)), string("yes")),
                TypedExpr::NegateInt { location: at(), type_: any(), value: Box::new(constant(3)) },
                TypedExpr::NegateBool {
                    location: at(),
                    type_: any(),
                    value: Box::new(binop(BinOp::Eq, constant(1), constant(1))),
                },
                TypedExpr::TupleIndex {
                    location: at(),
                    type_: any(),
                    index: 1,
                    tuple: Box::new(tuple(vec![constant(8), constant(9)])),
                },
                call_of(
                    TypedExpr::Fn {
                        location: at(),
                        type_: any(),
                        args: vec![Arg {
                            names: ArgNames::Named { name: "n".to_string() },
                            location: at(),
                        }],
                        body: vec![TypedStatement::Expression(binop(
                            BinOp::SubInt,
                            local("n"),
                            constant(1),
                        ))],
                    },
                    vec![constant(10)],
                ),
            ]),
        ),
        returning("stop", vec![], TypedExpr::Todo { location: at(), type_: any(), message: None }),
    ]);
    assert_eq!(
        shown(run(&scope, "m.values", vec![numbers(vec![3])])),
        "#((1 2 3) () 3 1 #t \"ab\" \"yes\" -3 #f 9 9)"
    );
    assert_eq!(shown(run(&scope, "m.stop", vec![])), "error: \"todo\" \"unimplemented\"");
}

#[test]
fn a_field_is_read_by_its_index() {
    let scope = compiled(vec![
        custom_type(vec![("Person", 2)]),
        returning(
            "age",
            vec!["person"],
            TypedExpr::RecordAccess {
                location: at(),
                type_: any(),
                label: "age".to_string(),
                index: 1,
                record: Box::new(local("person")),
            },
        ),
    ]);
    let person = run(&scope, "m.Person", vec![Value::Text("Ada".to_string()), Value::Number(40)])
        .expect("a person");
    assert_eq!(shown(run(&scope, "m.age", vec![person])), "40");
}

#[test]
fn a_clause_may_bind_the_name_of_the_subject_again() {
    // case xs { [first, ..xs] -> #(first, xs)   xs -> xs }
    let scope = compiled(vec![
        returning(
            "behead",
            vec!["xs"],
            case(
                vec![local("xs")],
                vec![
                    clause(
                        vec![Pattern::List {
                            location: at(),
                            elements: vec![variable("first")],
                            tail: Some(Box::new(variable("xs"))),
                        }],
                        tuple(vec![local("first"), local("xs")]),
                    ),
                    clause(vec![variable("xs")], local("xs")),
                ],
            ),
        ),
        // fn(x) { case x + 1 { x -> x * 2 } + x }
        returning(
            "twice",
            vec!["x"],
            binop(
                BinOp::AddInt,
                case(
                    vec![binop(BinOp::AddInt, local("x"), constant(1))],
                    vec![clause(vec![variable("x")], binop(BinOp::MultInt, local("x"), constant(2)))],
                ),
                local("x"),
            ),
        ),
    ]);
    assert_eq!(shown(run(&scope, "m.behead", vec![numbers(vec![1, 2, 3])])), "#(1 (2 3))");
    assert_eq!(shown(run(&scope, "m.behead", vec![numbers(vec![])])), "()");
    // the variable of the clause is gone behind the case expression
    assert_eq!(shown(run(&scope, "m.twice", vec![Value::Number(4)])), "14");
}
