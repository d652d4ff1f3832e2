//! What the generator emits, as mathematics: the form of the target term for
//! each node of a typed module, how many temporaries it takes, which
//! variables a pattern binds and which modules a node refers to.
//!
//! Temporaries are numbered in the order in which the generator makes them. A
//! `start` is the number of temporaries made before a node is reached: the
//! node's first temporary is `start + 1`.

use crate::ast::{
    Arg, AssignName, BinOp, CallArg, ClauseGuard, Constant, CustomType, Definition, ModuleConstant,
    ModuleValueConstructor, Pattern, Publicity, RecordConstructor, TypedClause, TypedExpr,
    TypedFunction, TypedModule, TypedPipelineAssignment, TypedRecordUpdateArg, TypedStatement,
};
use crate::library::{ItemForm, LibraryForm};
use crate::sexp::{binary, binding, empty_list, Form, Keyword, quaternary, ternary, unary, variadic};
use crate::text::ungrouped;
use crate::type_::ValueConstructorVariant;
use vstd::prelude::*;

verus! {

/// `(set! $name value)`.
pub open spec fn assign(name: Seq<char>, value: Form) -> Form {
    binary(Keyword::Assign, Form::Local(name), value)
}

/// `(error "kind" message)`: stops the target program.
pub open spec fn failure(kind: Seq<char>, message: Form) -> Form {
    binary(Keyword::Error, Form::Text(kind), message)
}

/// `(if (not test) (error "panic" "no match found"))`: stops the target
/// program unless the test holds.
pub open spec fn demand(test: Form) -> Form {
    binary(
        Keyword::If,
        unary(Keyword::Not, test),
        failure("panic"@, Form::Text("no match found"@)),
    )
}

/// The i-th field of a tagged value.
pub open spec fn field(value: Form, i: nat) -> Form {
    binary(Keyword::VectorRef, unary(Keyword::Cadr, value), Form::Index(i))
}

/// The primitive of the target that an operator maps to. Integers and floats
/// share a primitive except for division; `!=` is the negation of `equal?`.
pub open spec fn primitive(op: BinOp) -> Keyword {
    match op {
        BinOp::And => Keyword::And,
        BinOp::Or => Keyword::Or,
        BinOp::Eq => Keyword::Equal,
        BinOp::NotEq => Keyword::Equal,
        BinOp::LtInt => Keyword::Less,
        BinOp::LtFloat => Keyword::Less,
        BinOp::LtEqInt => Keyword::LessOrEqual,
        BinOp::LtEqFloat => Keyword::LessOrEqual,
        BinOp::GtEqInt => Keyword::GreaterOrEqual,
        BinOp::GtEqFloat => Keyword::GreaterOrEqual,
        BinOp::GtInt => Keyword::Greater,
        BinOp::GtFloat => Keyword::Greater,
        BinOp::AddInt => Keyword::Plus,
        BinOp::AddFloat => Keyword::Plus,
        BinOp::SubInt => Keyword::Minus,
        BinOp::SubFloat => Keyword::Minus,
        BinOp::MultInt => Keyword::Times,
        BinOp::MultFloat => Keyword::Times,
        BinOp::DivInt => Keyword::Quotient,
        BinOp::DivFloat => Keyword::Divide,
        BinOp::RemainderInt => Keyword::Remainder,
        BinOp::Concatenate => Keyword::StringAppend,
    }
}

/// An operator applied to two operands.
pub open spec fn operation(op: BinOp, left: Form, right: Form) -> Form {
    if op == BinOp::NotEq {
        unary(Keyword::Not, binary(Keyword::Equal, left, right))
    } else {
        binary(primitive(op), left, right)
    }
}

/// The modules other than `own` among one name: a reference to `module`
/// from the module `own`.
pub open spec fn reference(own: Seq<char>, module: Seq<char>) -> Set<Seq<char>> {
    if module == own {
        Set::empty()
    } else {
        set![module]
    }
}

// Constants

/// The target term for a constant: a literal as it is written, a tuple as a
/// field container, a list as a list.
pub open spec fn constant_form(constant: Constant) -> Form
    decreases constant,
{
    match constant {
        Constant::Int { value, .. } => Form::Number(ungrouped(value@)),
        Constant::Float { value, .. } => Form::Number(value@),
        Constant::String { value, .. } => Form::Text(value@),
        Constant::Tuple { elements, .. } => variadic(Keyword::Vector, constant_forms(elements@)),
        Constant::List { elements, .. } => variadic(Keyword::List, constant_forms(elements@)),
    }
}

/// The target terms for the constants of a sequence.
pub open spec fn constant_forms(constants: Seq<Constant>) -> Seq<Form>
    decreases constants,
{
    Seq::new(
        constants.len(),
        |i: int|
            if 0 <= i < constants.len() {
                constant_form(constants[i])
            } else {
                Form::Row(Seq::empty())
            },
    )
}

// Guards

/// The target term for the guard of a clause. A variable of a guard is a
/// local variable of the source program.
pub open spec fn guard_form(guard: ClauseGuard) -> Form
    decreases guard,
{
    match guard {
        ClauseGuard::Binary { name, left, right, .. } => operation(
            name,
            guard_form(*left),
            guard_form(*right),
        ),
        ClauseGuard::Not { expression, .. } => unary(Keyword::Not, guard_form(*expression)),
        ClauseGuard::Var { name, .. } => Form::Local(name@),
        ClauseGuard::TupleIndex { index, tuple, .. } => binary(
            Keyword::VectorRef,
            guard_form(*tuple),
            Form::Index(index as nat),
        ),
        ClauseGuard::Constant(constant) => constant_form(constant),
    }
}

// Patterns

/// The number of elements in a list pattern, and 0 for another pattern.
pub open spec fn elements_in(pattern: Pattern) -> nat {
    match pattern {
        Pattern::List { elements, .. } => elements.len() as nat,
        _ => 0,
    }
}

/// The number of temporaries that the test for a pattern takes.
pub open spec fn pattern_temporaries(pattern: Pattern) -> nat
    decreases pattern, elements_in(pattern) + 1,
{
    match pattern {
        Pattern::Assign { pattern, .. } => pattern_temporaries(*pattern),
        Pattern::List { .. } => list_temporaries(pattern, 0),
        Pattern::Constructor { arguments, .. } => patterns_temporaries(
            arguments@,
            arguments.len() as nat,
        ),
        Pattern::Tuple { elems, .. } => (elems.len() as nat) + patterns_temporaries(
            elems@,
            elems.len() as nat,
        ),
        _ => 0,
    }
}

/// The temporaries of a list pattern from its `from`-th element on: two for
/// each element, for the head and the rest of the list, and those of the
/// element and of the tail.
pub open spec fn list_temporaries(pattern: Pattern, from: nat) -> nat
    decreases pattern, elements_in(pattern) - from,
{
    match pattern {
        Pattern::List { elements, tail, .. } => {
            if from >= elements.len() {
                match tail {
                    Some(tail) => pattern_temporaries(*tail),
                    None => 0,
                }
            } else {
                2 + pattern_temporaries(elements[from as int]) + list_temporaries(pattern, from + 1)
            }
        },
        _ => 0,
    }
}

/// The temporaries of the first `n` patterns together.
pub open spec fn patterns_temporaries(patterns: Seq<Pattern>, n: nat) -> nat
    decreases patterns, n,
{
    if n == 0 || n > patterns.len() {
        0
    } else {
        patterns_temporaries(patterns, (n - 1) as nat) + pattern_temporaries(patterns[n - 1])
    }
}

/// The variables that a pattern binds.
pub open spec fn pattern_variables(pattern: Pattern) -> Set<Seq<char>>
    decreases pattern,
{
    match pattern {
        Pattern::Variable { name, .. } => set![name@],
        Pattern::Assign { name, pattern, .. } => pattern_variables(*pattern).insert(name@),
        Pattern::List { elements, tail, .. } => patterns_variables(
            elements@,
            elements.len() as nat,
        ).union(
            match tail {
                Some(tail) => pattern_variables(*tail),
                None => Set::empty(),
            },
        ),
        Pattern::Constructor { arguments, .. } => patterns_variables(
            arguments@,
            arguments.len() as nat,
        ),
        Pattern::Tuple { elems, .. } => patterns_variables(elems@, elems.len() as nat),
        Pattern::StringPrefix { left_side_assignment, right_side_assignment, .. } => (
        match left_side_assignment {
            Some(name) => set![name@],
            None => Set::empty(),
        }).union(
            match right_side_assignment {
                AssignName::Variable(name) => set![name@],
                AssignName::Discard(_) => Set::empty(),
            },
        ),
        _ => Set::empty(),
    }
}

/// The variables that the first `n` patterns bind.
pub open spec fn patterns_variables(patterns: Seq<Pattern>, n: nat) -> Set<Seq<char>>
    decreases patterns, n,
{
    if n == 0 || n > patterns.len() {
        Set::empty()
    } else {
        patterns_variables(patterns, (n - 1) as nat).union(pattern_variables(patterns[n - 1]))
    }
}

/// The modules, other than `own`, whose constructors a pattern names.
pub open spec fn pattern_references(own: Seq<char>, pattern: Pattern) -> Set<Seq<char>>
    decreases pattern, elements_in(pattern) + 1,
{
    match pattern {
        Pattern::Assign { pattern, .. } => pattern_references(own, *pattern),
        Pattern::List { .. } => list_references(own, pattern, 0),
        Pattern::Constructor { constructor, arguments, .. } => reference(
            own,
            constructor.module@,
        ).union(patterns_references(own, arguments@, arguments.len() as nat)),
        Pattern::Tuple { elems, .. } => patterns_references(own, elems@, elems.len() as nat),
        _ => Set::empty(),
    }
}

/// The modules that a list pattern refers to from its `from`-th element on.
pub open spec fn list_references(own: Seq<char>, pattern: Pattern, from: nat) -> Set<Seq<char>>
    decreases pattern, elements_in(pattern) - from,
{
    match pattern {
        Pattern::List { elements, tail, .. } => {
            if from >= elements.len() {
                match tail {
                    Some(tail) => pattern_references(own, *tail),
                    None => Set::empty(),
                }
            } else {
                pattern_references(own, elements[from as int]).union(
                    list_references(own, pattern, from + 1),
                )
            }
        },
        _ => Set::empty(),
    }
}

/// The modules that the first `n` patterns refer to.
pub open spec fn patterns_references(own: Seq<char>, patterns: Seq<Pattern>, n: nat) -> Set<
    Seq<char>,
>
    decreases patterns, n,
{
    if n == 0 || n > patterns.len() {
        Set::empty()
    } else {
        patterns_references(own, patterns, (n - 1) as nat).union(
            pattern_references(own, patterns[n - 1]),
        )
    }
}

/// `(begin left right gleam.True)` behind a prefix test: the prefix and the
/// rest of the string, each bound where the pattern names it. The rest
/// starts behind as many characters as the prefix has.
pub open spec fn prefix_form(
    subject: Form,
    prefix: Seq<char>,
    left: Option<String>,
    right: AssignName,
) -> Form {
    ternary(
        Keyword::If,
        binary(Keyword::StringPrefix, subject, Form::Text(prefix)),
        ternary(
            Keyword::Begin,
            match left {
                Some(name) => assign(name@, Form::Text(prefix)),
                None => Form::Row(Seq::empty()),
            },
            match right {
                AssignName::Variable(name) => assign(
                    name@,
                    ternary(
                        Keyword::Substring,
                        subject,
                        Form::Index(prefix.len()),
                        unary(Keyword::StringLength, subject),
                    ),
                ),
                AssignName::Discard(_) => Form::Row(Seq::empty()),
            },
            Form::Word(Keyword::True),
        ),
        Form::Word(Keyword::False),
    )
}

/// The test of a subject against a pattern. The test is true where the
/// subject matches; on its way it assigns the subject's parts to the
/// pattern's variables. A pattern that only binds is always true.
pub open spec fn pattern_form(subject: Form, pattern: Pattern, start: nat) -> Form
    decreases pattern, elements_in(pattern) + 1,
{
    match pattern {
        Pattern::Int { value, .. } => binary(
            Keyword::Equal,
            subject,
            Form::Number(ungrouped(value@)),
        ),
        Pattern::Float { value, .. } => binary(Keyword::Equal, subject, Form::Number(value@)),
        Pattern::String { value, .. } => binary(Keyword::Equal, subject, Form::Text(value@)),
        Pattern::Variable { name, .. } => binary(
            Keyword::Begin,
            assign(name@, subject),
            Form::Word(Keyword::True),
        ),
        Pattern::Assign { name, pattern, .. } => binary(
            Keyword::Begin,
            assign(name@, subject),
            pattern_form(subject, *pattern, start),
        ),
        Pattern::Discard { .. } => Form::Word(Keyword::True),
        Pattern::List { .. } => list_pattern_form(subject, pattern, 0, start),
        Pattern::Constructor { constructor, arguments, .. } => Form::List(
            seq![
                Form::Word(Keyword::And),
                Form::List(
                    seq![
                        Form::Predicate { module: constructor.module@, name: constructor.name@ },
                        subject,
                    ],
                ),
                Form::Row(field_forms(subject, arguments@, arguments.len() as nat, start)),
            ],
        ),
        Pattern::Tuple { elems, .. } => variadic(
            Keyword::And,
            element_forms(subject, elems@, elems.len() as nat, start),
        ),
        Pattern::StringPrefix {
            left_side_string,
            left_side_assignment,
            right_side_assignment,
            ..
        } => prefix_form(
            subject,
            left_side_string@,
            left_side_assignment,
            right_side_assignment,
        ),
    }
}

/// The test of a list against the elements of a list pattern from the
/// `from`-th on, and against its tail. With no element left, the tail
/// pattern takes the whole subject, and without a tail the subject must be
/// empty. Else the subject must not be empty, its head must match the
/// element, and only then is its rest tested.
pub open spec fn list_pattern_form(subject: Form, pattern: Pattern, from: nat, start: nat) -> Form
    decreases pattern, elements_in(pattern) - from,
{
    match pattern {
        Pattern::List { elements, tail, .. } => {
            if from >= elements.len() {
                match tail {
                    Some(tail) => pattern_form(subject, *tail, start),
                    None => binary(Keyword::Equal, subject, empty_list()),
                }
            } else {
                let item = Form::Temporary(start + 1);
                let rest = Form::Temporary(start + 2);
                ternary(
                    Keyword::If,
                    ternary(
                        Keyword::If,
                        unary(Keyword::Not, binary(Keyword::Equal, subject, empty_list())),
                        binding(
                            item,
                            unary(Keyword::Car, subject),
                            pattern_form(item, elements[from as int], start + 2),
                        ),
                        Form::Word(Keyword::False),
                    ),
                    binding(
                        rest,
                        unary(Keyword::Cdr, subject),
                        list_pattern_form(
                            rest,
                            pattern,
                            from + 1,
                            start + 2 + pattern_temporaries(elements[from as int]),
                        ),
                    ),
                    Form::Word(Keyword::False),
                )
            }
        },
        _ => Form::Word(Keyword::False),
    }
}

/// The tests of the first `n` fields of a tagged value against the patterns
/// for them.
pub open spec fn field_forms(subject: Form, patterns: Seq<Pattern>, n: nat, start: nat) -> Seq<
    Form,
>
    decreases patterns, n,
{
    if n == 0 || n > patterns.len() {
        Seq::empty()
    } else {
        field_forms(subject, patterns, (n - 1) as nat, start).push(
            pattern_form(
                field(subject, (n - 1) as nat),
                patterns[n - 1],
                start + patterns_temporaries(patterns, (n - 1) as nat),
            ),
        )
    }
}

/// The number of temporaries made before the `n`-th element of a tuple
/// pattern is reached: one for each element before it, and theirs.
pub open spec fn element_start(patterns: Seq<Pattern>, n: nat, start: nat) -> nat {
    start + n + patterns_temporaries(patterns, n)
}

/// The tests of the first `n` elements of a tuple against the patterns for
/// them, each element held in a temporary of its own.
pub open spec fn element_forms(subject: Form, patterns: Seq<Pattern>, n: nat, start: nat) -> Seq<
    Form,
>
    decreases patterns, n,
{
    if n == 0 || n > patterns.len() {
        Seq::empty()
    } else {
        let before = element_start(patterns, (n - 1) as nat, start);
        element_forms(subject, patterns, (n - 1) as nat, start).push(
            binding(
                Form::Temporary(before + 1),
                binary(Keyword::VectorRef, subject, Form::Index((n - 1) as nat)),
                pattern_form(Form::Temporary(before + 1), patterns[n - 1], before + 1),
            ),
        )
    }
}

/// The tests of the first `n` subjects of a case expression against the
/// patterns for them.
pub open spec fn subject_forms(patterns: Seq<Pattern>, n: nat, start: nat) -> Seq<Form>
    decreases n,
{
    if n == 0 || n > patterns.len() {
        Seq::empty()
    } else {
        subject_forms(patterns, (n - 1) as nat, start).push(
            pattern_form(
                Form::Subject((n - 1) as nat),
                patterns[n - 1],
                start + patterns_temporaries(patterns, (n - 1) as nat),
            ),
        )
    }
}

/// How many of a clause's patterns meet a subject.
pub open spec fn paired(subjects: nat, patterns: Seq<Pattern>) -> nat {
    if subjects < patterns.len() {
        subjects
    } else {
        patterns.len()
    }
}

/// `(and tests)`: each subject against its pattern.
pub open spec fn patterns_form(subjects: nat, patterns: Seq<Pattern>, start: nat) -> Form {
    variadic(Keyword::And, subject_forms(patterns, paired(subjects, patterns), start))
}

/// The temporaries of the first `n` alternatives of a clause.
pub open spec fn alternatives_temporaries(
    subjects: nat,
    alternatives: Seq<Vec<Pattern>>,
    n: nat,
) -> nat
    decreases n,
{
    if n == 0 || n > alternatives.len() {
        0
    } else {
        alternatives_temporaries(subjects, alternatives, (n - 1) as nat) + patterns_temporaries(
            alternatives[n - 1]@,
            paired(subjects, alternatives[n - 1]@),
        )
    }
}

/// The tests for the first `n` alternatives of a clause.
pub open spec fn alternative_forms(
    subjects: nat,
    alternatives: Seq<Vec<Pattern>>,
    n: nat,
    start: nat,
) -> Seq<Form>
    decreases n,
{
    if n == 0 || n > alternatives.len() {
        Seq::empty()
    } else {
        alternative_forms(subjects, alternatives, (n - 1) as nat, start).push(
            patterns_form(
                subjects,
                alternatives[n - 1]@,
                start + alternatives_temporaries(subjects, alternatives, (n - 1) as nat),
            ),
        )
    }
}

/// The variables that the first `n` alternatives of a clause bind.
pub open spec fn alternatives_variables(alternatives: Seq<Vec<Pattern>>, n: nat) -> Set<Seq<char>>
    decreases n,
{
    if n == 0 || n > alternatives.len() {
        Set::empty()
    } else {
        alternatives_variables(alternatives, (n - 1) as nat).union(
            patterns_variables(alternatives[n - 1]@, alternatives[n - 1].len() as nat),
        )
    }
}

/// The modules that the first `n` alternatives of a clause refer to, as far as
/// a subject meets them.
pub open spec fn alternatives_references(
    own: Seq<char>,
    subjects: nat,
    alternatives: Seq<Vec<Pattern>>,
    n: nat,
) -> Set<Seq<char>>
    decreases n,
{
    if n == 0 || n > alternatives.len() {
        Set::empty()
    } else {
        alternatives_references(own, subjects, alternatives, (n - 1) as nat).union(
            patterns_references(
                own,
                alternatives[n - 1]@,
                paired(subjects, alternatives[n - 1]@),
            ),
        )
    }
}

// Expressions and statements

/// The tree holds no placeholder of a failed inference and no `use` that was
/// left unexpanded.
pub open spec fn valid(expr: TypedExpr) -> bool
    decreases expr,
{
    match expr {
        TypedExpr::Int { .. } => true,
        TypedExpr::Float { .. } => true,
        TypedExpr::String { .. } => true,
        TypedExpr::Block { statements, .. } => valid_statements(statements@),
        TypedExpr::Pipeline { assignments, finally, .. } => valid_assignments(assignments@)
            && valid(*finally),
        TypedExpr::Var { .. } => true,
        TypedExpr::Fn { body, .. } => valid_statements(body@),
        TypedExpr::List { elements, tail, .. } => valid_all(elements@) && (match tail {
            Some(tail) => valid(*tail),
            None => true,
        }),
        TypedExpr::Call { fun, args, .. } => valid(*fun) && valid_arguments(args@),
        TypedExpr::BinOp { left, right, .. } => valid(*left) && valid(*right),
        TypedExpr::Case { subjects, clauses, .. } => valid_all(subjects@) && valid_clauses(
            clauses@,
        ),
        TypedExpr::RecordAccess { record, .. } => valid(*record),
        TypedExpr::ModuleSelect { .. } => true,
        TypedExpr::Tuple { elems, .. } => valid_all(elems@),
        TypedExpr::TupleIndex { tuple, .. } => valid(*tuple),
        TypedExpr::Todo { message, .. } => match message {
            Some(message) => valid(*message),
            None => true,
        },
        TypedExpr::Panic { message, .. } => match message {
            Some(message) => valid(*message),
            None => true,
        },
        TypedExpr::RecordUpdate { spread, args, .. } => valid(*spread) && valid_updates(args@),
        TypedExpr::NegateBool { value, .. } => valid(*value),
        TypedExpr::NegateInt { value, .. } => valid(*value),
        TypedExpr::Invalid { .. } => false,
    }
}

/// Each expression of the sequence is valid.
pub open spec fn valid_all(exprs: Seq<TypedExpr>) -> bool
    decreases exprs,
{
    forall|i: int| 0 <= i < exprs.len() ==> valid(#[trigger] exprs[i])
}

/// Each argument of a call is valid.
pub open spec fn valid_arguments(args: Seq<CallArg<TypedExpr>>) -> bool
    decreases args,
{
    forall|i: int| 0 <= i < args.len() ==> valid((#[trigger] args[i]).value)
}

/// Each new value of a record update is valid.
pub open spec fn valid_updates(args: Seq<TypedRecordUpdateArg>) -> bool
    decreases args,
{
    forall|i: int| 0 <= i < args.len() ==> valid((#[trigger] args[i]).value)
}

/// Each stage of a pipeline is valid.
pub open spec fn valid_assignments(assignments: Seq<TypedPipelineAssignment>) -> bool
    decreases assignments,
{
    forall|i: int| 0 <= i < assignments.len() ==> valid((#[trigger] assignments[i]).value)
}

/// The result of each clause is valid.
pub open spec fn valid_clauses(clauses: Seq<TypedClause>) -> bool
    decreases clauses,
{
    forall|i: int| 0 <= i < clauses.len() ==> valid((#[trigger] clauses[i]).result)
}

/// The statement is an expression or an assignment, and what it evaluates
/// is valid.
pub open spec fn valid_statement(statement: TypedStatement) -> bool
    decreases statement,
{
    match statement {
        TypedStatement::Expression(expr) => valid(expr),
        TypedStatement::Assignment(assignment) => valid(assignment.value),
        TypedStatement::Use { .. } => false,
    }
}

/// Each statement of the sequence is valid.
pub open spec fn valid_statements(statements: Seq<TypedStatement>) -> bool
    decreases statements,
{
    forall|i: int| 0 <= i < statements.len() ==> valid_statement(#[trigger] statements[i])
}

/// The number of temporaries that the code for an expression takes.
pub open spec fn temporaries(expr: TypedExpr) -> nat
    decreases expr, 0nat,
{
    match expr {
        TypedExpr::Block { statements, .. } => statements_temporaries(statements@, 0),
        TypedExpr::Pipeline { assignments, finally, .. } => assignments_temporaries(
            assignments@,
            assignments.len() as nat,
        ) + temporaries(*finally),
        TypedExpr::Fn { body, .. } => statements_temporaries(body@, 0),
        TypedExpr::List { elements, tail, .. } => (match tail {
            Some(tail) => temporaries(*tail),
            None => 0,
        }) + exprs_temporaries(elements@, elements.len() as nat),
        TypedExpr::Call { fun, args, .. } => temporaries(*fun) + arguments_temporaries(
            args@,
            args.len() as nat,
        ),
        TypedExpr::BinOp { left, right, .. } => temporaries(*left) + temporaries(*right),
        TypedExpr::Case { subjects, clauses, .. } => clauses_temporaries(
            subjects.len() as nat,
            clauses@,
            clauses.len() as nat,
        ) + exprs_temporaries(subjects@, subjects.len() as nat),
        TypedExpr::RecordAccess { record, .. } => temporaries(*record),
        TypedExpr::Tuple { elems, .. } => exprs_temporaries(elems@, elems.len() as nat),
        TypedExpr::TupleIndex { tuple, .. } => temporaries(*tuple),
        TypedExpr::Todo { message, .. } => match message {
            Some(message) => temporaries(*message),
            None => 0,
        },
        TypedExpr::Panic { message, .. } => match message {
            Some(message) => temporaries(*message),
            None => 0,
        },
        TypedExpr::RecordUpdate { spread, args, .. } => temporaries(*spread) + 3
            + updates_temporaries(args@, args.len() as nat),
        TypedExpr::NegateBool { value, .. } => temporaries(*value),
        TypedExpr::NegateInt { value, .. } => temporaries(*value),
        _ => 0,
    }
}

/// The temporaries of the first `n` expressions together.
pub open spec fn exprs_temporaries(exprs: Seq<TypedExpr>, n: nat) -> nat
    decreases exprs, n,
{
    if n == 0 || n > exprs.len() {
        0
    } else {
        exprs_temporaries(exprs, (n - 1) as nat) + temporaries(exprs[n - 1])
    }
}

/// The temporaries of the expressions from the `from`-th on.
pub open spec fn later_temporaries(exprs: Seq<TypedExpr>, from: nat) -> nat {
    (exprs_temporaries(exprs, exprs.len()) - exprs_temporaries(exprs, from)) as nat
}

/// The temporaries of the first `n` arguments of a call together.
pub open spec fn arguments_temporaries(args: Seq<CallArg<TypedExpr>>, n: nat) -> nat
    decreases args, n,
{
    if n == 0 || n > args.len() {
        0
    } else {
        arguments_temporaries(args, (n - 1) as nat) + temporaries(args[n - 1].value)
    }
}

/// The temporaries of the first `n` new values of a record update together.
pub open spec fn updates_temporaries(args: Seq<TypedRecordUpdateArg>, n: nat) -> nat
    decreases args, n,
{
    if n == 0 || n > args.len() {
        0
    } else {
        updates_temporaries(args, (n - 1) as nat) + temporaries(args[n - 1].value)
    }
}

/// The temporaries of the first `n` stages of a pipeline together.
pub open spec fn assignments_temporaries(assignments: Seq<TypedPipelineAssignment>, n: nat) -> nat
    decreases assignments, n,
{
    if n == 0 || n > assignments.len() {
        0
    } else {
        assignments_temporaries(assignments, (n - 1) as nat) + temporaries(
            assignments[n - 1].value,
        )
    }
}

/// The temporaries of one clause: those of its test and of its result.
pub open spec fn clause_temporaries(subjects: nat, clause: TypedClause) -> nat
    decreases clause, 0nat,
{
    test_temporaries(subjects, clause) + temporaries(clause.result)
}

/// The temporaries of the first `n` clauses together.
pub open spec fn clauses_temporaries(subjects: nat, clauses: Seq<TypedClause>, n: nat) -> nat
    decreases clauses, n,
{
    if n == 0 || n > clauses.len() {
        0
    } else {
        clauses_temporaries(subjects, clauses, (n - 1) as nat) + clause_temporaries(
            subjects,
            clauses[n - 1],
        )
    }
}

/// The temporaries of the statements from the `from`-th on. An assignment
/// takes one for the value it matches.
pub open spec fn statements_temporaries(statements: Seq<TypedStatement>, from: nat) -> nat
    decreases statements, statements.len() - from,
{
    if from >= statements.len() {
        0
    } else {
        (match statements[from as int] {
            TypedStatement::Expression(expr) => temporaries(expr),
            TypedStatement::Assignment(assignment) => temporaries(assignment.value) + 1
                + pattern_temporaries(assignment.pattern),
            TypedStatement::Use { .. } => 0,
        }) + statements_temporaries(statements, from + 1)
    }
}

/// The modules, other than `own`, that an expression refers to: by the
/// functions, constructors and constants it names, and in its patterns.
pub open spec fn references(own: Seq<char>, expr: TypedExpr) -> Set<Seq<char>>
    decreases expr, 0nat,
{
    match expr {
        TypedExpr::Block { statements, .. } => statements_references(own, statements@, 0),
        TypedExpr::Pipeline { assignments, finally, .. } => assignments_references(
            own,
            assignments@,
            assignments.len() as nat,
        ).union(references(own, *finally)),
        TypedExpr::Var { constructor, .. } => match constructor.variant {
            ValueConstructorVariant::ModuleFn { module, .. } => reference(own, module@),
            ValueConstructorVariant::Record { module, .. } => reference(own, module@),
            _ => Set::empty(),
        },
        TypedExpr::Fn { body, .. } => statements_references(own, body@, 0),
        TypedExpr::List { elements, tail, .. } => (match tail {
            Some(tail) => references(own, *tail),
            None => Set::empty(),
        }).union(later_references(own, elements@, 0)),
        TypedExpr::Call { fun, args, .. } => references(own, *fun).union(
            arguments_references(own, args@, args.len() as nat),
        ),
        TypedExpr::BinOp { left, right, .. } => references(own, *left).union(
            references(own, *right),
        ),
        TypedExpr::Case { subjects, clauses, .. } => clauses_references(
            own,
            subjects.len() as nat,
            clauses@,
            clauses.len() as nat,
        ).union(exprs_references(own, subjects@, subjects.len() as nat)),
        TypedExpr::RecordAccess { record, .. } => references(own, *record),
        TypedExpr::ModuleSelect { module_name, constructor, .. } => match constructor {
            ModuleValueConstructor::Fn { module, .. } => reference(own, module@),
            _ => reference(own, module_name@),
        },
        TypedExpr::Tuple { elems, .. } => exprs_references(own, elems@, elems.len() as nat),
        TypedExpr::TupleIndex { tuple, .. } => references(own, *tuple),
        TypedExpr::Todo { message, .. } => match message {
            Some(message) => references(own, *message),
            None => Set::empty(),
        },
        TypedExpr::Panic { message, .. } => match message {
            Some(message) => references(own, *message),
            None => Set::empty(),
        },
        TypedExpr::RecordUpdate { spread, args, .. } => references(own, *spread).union(
            updates_references(own, args@, args.len() as nat),
        ),
        TypedExpr::NegateBool { value, .. } => references(own, *value),
        TypedExpr::NegateInt { value, .. } => references(own, *value),
        _ => Set::empty(),
    }
}

/// The modules that the first `n` expressions refer to.
pub open spec fn exprs_references(own: Seq<char>, exprs: Seq<TypedExpr>, n: nat) -> Set<Seq<char>>
    decreases exprs, n,
{
    if n == 0 || n > exprs.len() {
        Set::empty()
    } else {
        exprs_references(own, exprs, (n - 1) as nat).union(references(own, exprs[n - 1]))
    }
}

/// The modules that the expressions from the `from`-th on refer to.
pub open spec fn later_references(own: Seq<char>, exprs: Seq<TypedExpr>, from: nat) -> Set<
    Seq<char>,
>
    decreases exprs, exprs.len() - from,
{
    if from >= exprs.len() {
        Set::empty()
    } else {
        references(own, exprs[from as int]).union(later_references(own, exprs, from + 1))
    }
}

/// The modules that the first `n` arguments of a call refer to.
pub open spec fn arguments_references(
    own: Seq<char>,
    args: Seq<CallArg<TypedExpr>>,
    n: nat,
) -> Set<Seq<char>>
    decreases args, n,
{
    if n == 0 || n > args.len() {
        Set::empty()
    } else {
        arguments_references(own, args, (n - 1) as nat).union(references(own, args[n - 1].value))
    }
}

/// The modules that the first `n` new values of a record update refer to.
pub open spec fn updates_references(
    own: Seq<char>,
    args: Seq<TypedRecordUpdateArg>,
    n: nat,
) -> Set<Seq<char>>
    decreases args, n,
{
    if n == 0 || n > args.len() {
        Set::empty()
    } else {
        updates_references(own, args, (n - 1) as nat).union(references(own, args[n - 1].value))
    }
}

/// The modules that the first `n` stages of a pipeline refer to.
pub open spec fn assignments_references(
    own: Seq<char>,
    assignments: Seq<TypedPipelineAssignment>,
    n: nat,
) -> Set<Seq<char>>
    decreases assignments, n,
{
    if n == 0 || n > assignments.len() {
        Set::empty()
    } else {
        assignments_references(own, assignments, (n - 1) as nat).union(
            references(own, assignments[n - 1].value),
        )
    }
}

/// The modules that a clause refers to: in its test and in its result.
pub open spec fn clause_references(own: Seq<char>, subjects: nat, clause: TypedClause) -> Set<
    Seq<char>,
>
    decreases clause, 0nat,
{
    test_references(own, subjects, clause).union(references(own, clause.result))
}

/// The modules that the first `n` clauses refer to.
pub open spec fn clauses_references(
    own: Seq<char>,
    subjects: nat,
    clauses: Seq<TypedClause>,
    n: nat,
) -> Set<Seq<char>>
    decreases clauses, n,
{
    if n == 0 || n > clauses.len() {
        Set::empty()
    } else {
        clauses_references(own, subjects, clauses, (n - 1) as nat).union(
            clause_references(own, subjects, clauses[n - 1]),
        )
    }
}

/// The modules that the statements from the `from`-th on refer to.
pub open spec fn statements_references(
    own: Seq<char>,
    statements: Seq<TypedStatement>,
    from: nat,
) -> Set<Seq<char>>
    decreases statements, statements.len() - from,
{
    if from >= statements.len() {
        Set::empty()
    } else {
        (match statements[from as int] {
            TypedStatement::Expression(expr) => references(own, expr),
            TypedStatement::Assignment(assignment) => references(own, assignment.value).union(
                pattern_references(own, assignment.pattern),
            ),
            TypedStatement::Use { .. } => Set::empty(),
        }).union(statements_references(own, statements, from + 1))
    }
}

/// The parameters of a function, each under the name it binds.
pub open spec fn parameter_forms(args: Seq<Arg>) -> Seq<Form> {
    Seq::new(args.len(), |i: int| Form::Local(args[i].names.binding()@))
}

/// What a name in an expression is written as.
pub open spec fn variable_form(name: Seq<char>, variant: ValueConstructorVariant) -> Form {
    match variant {
        ValueConstructorVariant::LocalVariable { .. } => Form::Local(name),
        ValueConstructorVariant::ModuleConstant { literal, .. } => constant_form(literal),
        ValueConstructorVariant::ModuleFn { module, name, .. } => Form::Global {
            module: module@,
            name: name@,
        },
        ValueConstructorVariant::Record { module, name, .. } => Form::Global {
            module: module@,
            name: name@,
        },
    }
}

/// What a name selected from a module is written as.
pub open spec fn selection_form(
    module_name: Seq<char>,
    label: Seq<char>,
    constructor: ModuleValueConstructor,
) -> Form {
    match constructor {
        ModuleValueConstructor::Record { name } => Form::Global {
            module: module_name,
            name: name@,
        },
        ModuleValueConstructor::Fn { module, name } => Form::Global {
            module: module@,
            name: name@,
        },
        ModuleValueConstructor::Constant => Form::Global { module: module_name, name: label },
    }
}

/// `(let () declarations items)`: a scope with the variables it declares.
pub open spec fn scope(declared: Set<Seq<char>>, items: Seq<Form>) -> Form {
    Form::List(
        seq![
            Form::Word(Keyword::Let),
            Form::List(Seq::empty()),
            Form::Declare(declared),
            Form::Row(items),
        ],
    )
}

/// A copy of a record with some fields replaced. The record is evaluated
/// once, its field container is copied, and the new values go into the copy.
pub open spec fn update_form(value: Form, setters: Seq<Form>, start: nat) -> Form {
    let record = Form::Temporary(start + 1);
    let tag = Form::Temporary(start + 2);
    let fields = Form::Temporary(start + 3);
    binding(
        record,
        value,
        Form::List(
            seq![
                Form::Word(Keyword::Let),
                Form::List(
                    seq![
                        Form::List(seq![tag, unary(Keyword::Car, record)]),
                        Form::List(
                            seq![
                                fields,
                                unary(Keyword::VectorCopy, unary(Keyword::Cadr, record)),
                            ],
                        ),
                    ],
                ),
                Form::Row(setters),
                binary(Keyword::List, tag, fields),
            ],
        ),
    )
}

/// A case expression: `(let (subjects) declarations (cond clauses (else
/// ..)))`. Each subject is bound once, then the variables of all clauses are
/// declared, so that a subject still sees a variable of the same name from
/// outside. The clauses stand in their order behind `cond`, with a last
/// clause that stops the program.
pub open spec fn case_form(
    declared: Set<Seq<char>>,
    subjects: Seq<Form>,
    clauses: Seq<Form>,
) -> Form {
    ternary(
        Keyword::Let,
        Form::List(seq![Form::Row(subjects)]),
        Form::Declare(declared),
        binary(
            Keyword::Cond,
            Form::Row(clauses),
            unary(Keyword::Else, failure("panic"@, Form::Text("unreachable"@))),
        ),
    )
}

/// The target term for an expression.
pub open spec fn expr_form(expr: TypedExpr, start: nat) -> Form
    decreases expr, 0nat,
{
    match expr {
        TypedExpr::Int { value, .. } => Form::Number(ungrouped(value@)),
        TypedExpr::Float { value, .. } => Form::Number(value@),
        TypedExpr::String { value, .. } => Form::Text(value@),
        TypedExpr::Block { statements, .. } => statements_form(statements@, start),
        TypedExpr::Pipeline { assignments, finally, .. } => Form::List(
            seq![
                Form::Word(Keyword::Let),
                Form::List(Seq::empty()),
                Form::Declare(assignments_variables(assignments@, assignments.len() as nat)),
                Form::Row(assignment_forms(assignments@, assignments.len() as nat, start)),
                expr_form(
                    *finally,
                    start + assignments_temporaries(assignments@, assignments.len() as nat),
                ),
            ],
        ),
        TypedExpr::Var { constructor, name, .. } => variable_form(name@, constructor.variant),
        TypedExpr::Fn { args, body, .. } => binary(
            Keyword::Lambda,
            Form::List(seq![Form::Row(parameter_forms(args@))]),
            statements_form(body@, start),
        ),
        TypedExpr::List { elements, tail, .. } => match tail {
            Some(tail) => chain_form(
                elements@,
                0,
                expr_form(*tail, start),
                start + temporaries(*tail),
            ),
            None => chain_form(elements@, 0, empty_list(), start),
        },
        TypedExpr::Call { fun, args, .. } => Form::List(
            seq![
                expr_form(*fun, start),
                Form::Row(argument_forms(args@, args.len() as nat, start + temporaries(*fun))),
            ],
        ),
        TypedExpr::BinOp { name, left, right, .. } => operation(
            name,
            expr_form(*left, start),
            expr_form(*right, start + temporaries(*left)),
        ),
        TypedExpr::Case { subjects, clauses, .. } => case_form(
            clauses_variables(clauses@, clauses.len() as nat),
            subject_bindings(
                subjects@,
                subjects.len() as nat,
                start + clauses_temporaries(subjects.len() as nat, clauses@, clauses.len() as nat),
            ),
            clause_forms(subjects.len() as nat, clauses@, clauses.len() as nat, start),
        ),
        TypedExpr::RecordAccess { index, record, .. } => field(
            expr_form(*record, start),
            index as nat,
        ),
        TypedExpr::ModuleSelect { label, module_name, constructor, .. } => selection_form(
            module_name@,
            label@,
            constructor,
        ),
        TypedExpr::Tuple { elems, .. } => variadic(
            Keyword::Vector,
            expr_forms(elems@, elems.len() as nat, start),
        ),
        TypedExpr::TupleIndex { index, tuple, .. } => binary(
            Keyword::VectorRef,
            expr_form(*tuple, start),
            Form::Index(index as nat),
        ),
        TypedExpr::Todo { message, .. } => failure(
            "todo"@,
            match message {
                Some(message) => expr_form(*message, start),
                None => Form::Text("unimplemented"@),
            },
        ),
        TypedExpr::Panic { message, .. } => failure(
            "panic"@,
            match message {
                Some(message) => expr_form(*message, start),
                None => Form::Text("an error has occurred"@),
            },
        ),
        TypedExpr::RecordUpdate { spread, args, .. } => update_form(
            expr_form(*spread, start),
            setter_forms(
                Form::Temporary(start + temporaries(*spread) + 3),
                args@,
                args.len() as nat,
                start + temporaries(*spread) + 3,
            ),
            start + temporaries(*spread),
        ),
        TypedExpr::NegateBool { value, .. } => unary(Keyword::Not, expr_form(*value, start)),
        TypedExpr::NegateInt { value, .. } => unary(Keyword::Minus, expr_form(*value, start)),
        TypedExpr::Invalid { .. } => Form::Row(Seq::empty()),
    }
}

/// The terms for the first `n` expressions, from left to right.
pub open spec fn expr_forms(exprs: Seq<TypedExpr>, n: nat, start: nat) -> Seq<Form>
    decreases exprs, n,
{
    if n == 0 || n > exprs.len() {
        Seq::empty()
    } else {
        expr_forms(exprs, (n - 1) as nat, start).push(
            expr_form(exprs[n - 1], start + exprs_temporaries(exprs, (n - 1) as nat)),
        )
    }
}

/// The list of the elements from the `from`-th on, before `end`: a chain of
/// `cons`. The generator builds the chain from its end, so the last element
/// takes the first temporaries.
pub open spec fn chain_form(exprs: Seq<TypedExpr>, from: nat, end: Form, start: nat) -> Form
    decreases exprs, exprs.len() - from,
{
    if from >= exprs.len() {
        end
    } else {
        binary(
            Keyword::Cons,
            expr_form(exprs[from as int], start + later_temporaries(exprs, from + 1)),
            chain_form(exprs, from + 1, end, start),
        )
    }
}

/// The terms for the first `n` arguments of a call, from left to right.
pub open spec fn argument_forms(args: Seq<CallArg<TypedExpr>>, n: nat, start: nat) -> Seq<Form>
    decreases args, n,
{
    if n == 0 || n > args.len() {
        Seq::empty()
    } else {
        argument_forms(args, (n - 1) as nat, start).push(
            expr_form(args[n - 1].value, start + arguments_temporaries(args, (n - 1) as nat)),
        )
    }
}

/// `(vector-set! fields index value)` for each of the first `n` fields that
/// a record update replaces.
pub open spec fn setter_forms(
    fields: Form,
    args: Seq<TypedRecordUpdateArg>,
    n: nat,
    start: nat,
) -> Seq<Form>
    decreases args, n,
{
    if n == 0 || n > args.len() {
        Seq::empty()
    } else {
        setter_forms(fields, args, (n - 1) as nat, start).push(
            ternary(
                Keyword::VectorSet,
                fields,
                Form::Index(args[n - 1].index as nat),
                expr_form(args[n - 1].value, start + updates_temporaries(args, (n - 1) as nat)),
            ),
        )
    }
}

/// `(_i subject)` for each of the first `n` subjects of a case expression.
pub open spec fn subject_bindings(exprs: Seq<TypedExpr>, n: nat, start: nat) -> Seq<Form>
    decreases exprs, n,
{
    if n == 0 || n > exprs.len() {
        Seq::empty()
    } else {
        subject_bindings(exprs, (n - 1) as nat, start).push(
            Form::List(
                seq![
                    Form::Subject((n - 1) as nat),
                    expr_form(exprs[n - 1], start + exprs_temporaries(exprs, (n - 1) as nat)),
                ],
            ),
        )
    }
}

/// The names that the first `n` stages of a pipeline are bound to.
pub open spec fn assignments_variables(assignments: Seq<TypedPipelineAssignment>, n: nat) -> Set<
    Seq<char>,
>
    decreases n,
{
    if n == 0 || n > assignments.len() {
        Set::empty()
    } else {
        assignments_variables(assignments, (n - 1) as nat).insert(assignments[n - 1].name@)
    }
}

/// One stage of a pipeline: its value goes into its variable.
pub open spec fn assignment_form(name: Seq<char>, value: Form) -> Form {
    demand(binary(Keyword::Begin, assign(name, value), Form::Word(Keyword::True)))
}

/// The terms for the first `n` stages of a pipeline, from left to right.
pub open spec fn assignment_forms(
    assignments: Seq<TypedPipelineAssignment>,
    n: nat,
    start: nat,
) -> Seq<Form>
    decreases assignments, n,
{
    if n == 0 || n > assignments.len() {
        Seq::empty()
    } else {
        assignment_forms(assignments, (n - 1) as nat, start).push(
            assignment_form(
                assignments[n - 1].name@,
                expr_form(
                    assignments[n - 1].value,
                    start + assignments_temporaries(assignments, (n - 1) as nat),
                ),
            ),
        )
    }
}

/// The variables that a clause binds, in its patterns and its alternatives.
pub open spec fn clause_variables(clause: TypedClause) -> Set<Seq<char>> {
    patterns_variables(clause.pattern@, clause.pattern.len() as nat).union(
        alternatives_variables(
            clause.alternative_patterns@,
            clause.alternative_patterns.len() as nat,
        ),
    )
}

/// The variables that the first `n` clauses bind.
pub open spec fn clauses_variables(clauses: Seq<TypedClause>, n: nat) -> Set<Seq<char>>
    decreases n,
{
    if n == 0 || n > clauses.len() {
        Set::empty()
    } else {
        clauses_variables(clauses, (n - 1) as nat).union(clause_variables(clauses[n - 1]))
    }
}

/// The temporaries of the patterns and alternatives of a clause.
pub open spec fn test_temporaries(subjects: nat, clause: TypedClause) -> nat {
    patterns_temporaries(clause.pattern@, paired(subjects, clause.pattern@))
        + alternatives_temporaries(
        subjects,
        clause.alternative_patterns@,
        clause.alternative_patterns.len() as nat,
    )
}

/// The modules that the patterns and alternatives of a clause refer to.
pub open spec fn test_references(own: Seq<char>, subjects: nat, clause: TypedClause) -> Set<
    Seq<char>,
> {
    patterns_references(own, clause.pattern@, paired(subjects, clause.pattern@)).union(
        alternatives_references(
            own,
            subjects,
            clause.alternative_patterns@,
            clause.alternative_patterns.len() as nat,
        ),
    )
}

/// The test of a clause: `(and (or patterns alternatives) guard)`. The
/// clause is taken where its patterns or one of its alternatives match the
/// subjects and its guard holds. Without a guard its place stays empty.
pub open spec fn test_form(subjects: nat, clause: TypedClause, start: nat) -> Form {
    binary(
        Keyword::And,
        binary(
            Keyword::Or,
            patterns_form(subjects, clause.pattern@, start),
            Form::Row(
                alternative_forms(
                    subjects,
                    clause.alternative_patterns@,
                    clause.alternative_patterns.len() as nat,
                    start + patterns_temporaries(
                        clause.pattern@,
                        paired(subjects, clause.pattern@),
                    ),
                ),
            ),
        ),
        match clause.guard {
            Some(guard) => guard_form(guard),
            None => Form::Row(Seq::empty()),
        },
    )
}

/// One clause of a case expression: `(test result)`.
pub open spec fn clause_form(subjects: nat, clause: TypedClause, start: nat) -> Form
    decreases clause, 0nat,
{
    Form::List(
        seq![
            test_form(subjects, clause, start),
            expr_form(clause.result, start + test_temporaries(subjects, clause)),
        ],
    )
}

/// The terms for the first `n` clauses, in their order.
pub open spec fn clause_forms(subjects: nat, clauses: Seq<TypedClause>, n: nat, start: nat) -> Seq<
    Form,
>
    decreases clauses, n,
{
    if n == 0 || n > clauses.len() {
        Seq::empty()
    } else {
        clause_forms(subjects, clauses, (n - 1) as nat, start).push(
            clause_form(
                subjects,
                clauses[n - 1],
                start + clauses_temporaries(subjects, clauses, (n - 1) as nat),
            ),
        )
    }
}

/// `(let ((temporary value)) declarations test rest)`: an assignment and the
/// statements behind it. The value is held in a temporary, the variables of
/// the pattern are declared, the program stops unless the value matches, and
/// the statements that follow stand inside the scope of those variables.
pub open spec fn assignment_scope(
    temporary: Form,
    value: Form,
    declared: Set<Seq<char>>,
    test: Form,
    rest: Seq<Form>,
) -> Form {
    quaternary(
        Keyword::Let,
        Form::List(seq![Form::List(seq![temporary, value])]),
        Form::Declare(declared),
        demand(test),
        Form::Row(rest),
    )
}

/// The terms for the statements from the `from`-th on, in their order. An
/// expression is one term, followed by those of the statements behind it.
/// An assignment is one term that holds the statements behind it.
pub open spec fn sequence_forms(statements: Seq<TypedStatement>, from: nat, start: nat) -> Seq<
    Form,
>
    decreases statements, statements.len() - from,
{
    if from >= statements.len() {
        Seq::empty()
    } else {
        match statements[from as int] {
            TypedStatement::Expression(expr) => seq![expr_form(expr, start)] + sequence_forms(
                statements,
                from + 1,
                start + temporaries(expr),
            ),
            TypedStatement::Assignment(assignment) => {
                let held = start + temporaries(assignment.value) + 1;
                seq![
                    assignment_scope(
                        Form::Temporary(held),
                        expr_form(assignment.value, start),
                        pattern_variables(assignment.pattern),
                        pattern_form(Form::Temporary(held), assignment.pattern, held),
                        sequence_forms(
                            statements,
                            from + 1,
                            held + pattern_temporaries(assignment.pattern),
                        ),
                    ),
                ]
            },
            TypedStatement::Use { .. } => Seq::empty(),
        }
    }
}

/// `(let () statements)`: a block. Its value is that of its last statement.
pub open spec fn statements_form(statements: Seq<TypedStatement>, start: nat) -> Form
    decreases statements, statements.len() + 1,
{
    Form::List(
        seq![
            Form::Word(Keyword::Let),
            Form::List(Seq::empty()),
            Form::Row(sequence_forms(statements, 0, start)),
        ],
    )
}

// Definitions

/// `module.name`: the name of a definition as other modules see it.
pub open spec fn qualified(module: Seq<char>, name: Seq<char>) -> Seq<char> {
    module + "."@ + name
}

/// The names, where the definition is public, and nothing where it is not.
pub open spec fn exported(publicity: Publicity, names: Set<Seq<char>>) -> Set<Seq<char>> {
    if publicity == Publicity::Public {
        names
    } else {
        Set::empty()
    }
}

/// `(define module.name value)`: a constant of the module.
pub open spec fn constant_definition(own: Seq<char>, constant: ModuleConstant) -> Form {
    binary(
        Keyword::Define,
        Form::Global { module: own, name: constant.name@ },
        constant_form(constant.value),
    )
}

/// The parameters of a constructor with `arity` fields: `_0`, `_1`, and so
/// on.
pub open spec fn constructor_parameters(arity: nat) -> Seq<Form> {
    Seq::new(arity, |i: int| Form::Subject(i as nat))
}

/// `(list 'tag (vector fields))`: a value of a custom type. Every such value
/// is a tag and a container with one place for each field.
pub open spec fn tagged(tag: Seq<char>, fields: Seq<Form>) -> Form {
    binary(Keyword::List, Form::Quote(tag), variadic(Keyword::Vector, fields))
}

/// The definition of a constructor: a function of its fields that makes the
/// tagged value, or, without fields, the tagged value itself.
pub open spec fn constructor_form(own: Seq<char>, constructor: RecordConstructor) -> Form {
    let parameters = constructor_parameters(constructor.arguments.len() as nat);
    binary(
        Keyword::Define,
        Form::Global { module: own, name: constructor.name@ },
        if constructor.arguments.len() == 0 {
            tagged(constructor.name@, parameters)
        } else {
            binary(
                Keyword::Lambda,
                Form::List(seq![Form::Row(parameters)]),
                tagged(constructor.name@, parameters),
            )
        },
    )
}

/// The definition of the test for a constructor: a function that compares
/// the tag of a value with the constructor's.
pub open spec fn predicate_form(own: Seq<char>, constructor: RecordConstructor) -> Form {
    binary(
        Keyword::Define,
        Form::Predicate { module: own, name: constructor.name@ },
        binary(
            Keyword::Lambda,
            Form::List(seq![Form::Name("value"@)]),
            binary(
                Keyword::Equal,
                unary(Keyword::Car, Form::Name("value"@)),
                Form::Quote(constructor.name@),
            ),
        ),
    )
}

/// The definitions for the first `n` constructors of a custom type: for each
/// the constructor, then its test.
pub open spec fn constructor_items(
    own: Seq<char>,
    constructors: Seq<RecordConstructor>,
    n: nat,
) -> Seq<ItemForm>
    decreases n,
{
    if n == 0 || n > constructors.len() {
        Seq::empty()
    } else {
        constructor_items(own, constructors, (n - 1) as nat).push(
            ItemForm::Definition(constructor_form(own, constructors[n - 1])),
        ).push(ItemForm::Definition(predicate_form(own, constructors[n - 1])))
    }
}

/// The names under which the first `n` constructors of a custom type and
/// their tests are known.
pub open spec fn constructor_names(
    own: Seq<char>,
    constructors: Seq<RecordConstructor>,
    n: nat,
) -> Set<Seq<char>>
    decreases n,
{
    if n == 0 || n > constructors.len() {
        Set::empty()
    } else {
        constructor_names(own, constructors, (n - 1) as nat).insert(
            qualified(own, constructors[n - 1].name@) + "?"@,
        ).insert(qualified(own, constructors[n - 1].name@))
    }
}

/// The call that hands the parameters of a function on to the target
/// runtime's function of that name, in `module` unless that is empty.
pub open spec fn external_form(module: Seq<char>, name: Seq<char>, parameters: Seq<Form>) -> Form {
    Form::List(
        seq![
            if module.len() == 0 {
                Form::Name(name)
            } else {
                Form::Global { module, name }
            },
            Form::Row(parameters),
        ],
    )
}

/// `(define module.name (lambda (parameters) body))`: a function of the
/// module. The body is the function's own, or the call of the target runtime's
/// function where the function is bound to one.
pub open spec fn function_form(own: Seq<char>, function: TypedFunction, start: nat) -> Form {
    binary(
        Keyword::Define,
        Form::Global { module: own, name: function.name@ },
        binary(
            Keyword::Lambda,
            Form::List(seq![Form::Row(parameter_forms(function.arguments@))]),
            match function.external_chez {
                Some((module, name)) => external_form(
                    module@,
                    name@,
                    parameter_forms(function.arguments@),
                ),
                None => statements_form(function.body@, start),
            },
        ),
    )
}

/// The temporaries of a function: those of its body, where that is used.
pub open spec fn function_temporaries(function: TypedFunction) -> nat {
    match function.external_chez {
        Some(_) => 0,
        None => statements_temporaries(function.body@, 0),
    }
}

/// The modules that a function refers to: in its body, or the module of the
/// target runtime's function that it is bound to.
pub open spec fn function_references(own: Seq<char>, function: TypedFunction) -> Set<Seq<char>> {
    match function.external_chez {
        Some((module, _)) => if module@.len() == 0 {
            Set::empty()
        } else {
            reference(own, module@)
        },
        None => statements_references(own, function.body@, 0),
    }
}

/// The body of the function can be generated: it is valid, or not used.
pub open spec fn valid_function(function: TypedFunction) -> bool {
    function.external_chez is Some || valid_statements(function.body@)
}

/// Code can be generated for the definition.
pub open spec fn valid_definition(definition: Definition) -> bool {
    match definition {
        Definition::Function(function) => valid_function(function),
        _ => true,
    }
}

/// What a definition contributes to the body of the library. A type alias
/// and an import contribute nothing.
pub open spec fn definition_items(own: Seq<char>, definition: Definition, start: nat) -> Seq<
    ItemForm,
> {
    match definition {
        Definition::Function(function) => seq![
            ItemForm::Definition(function_form(own, function, start)),
        ],
        Definition::TypeAlias(_) => Seq::empty(),
        Definition::CustomType(type_) => constructor_items(
            own,
            type_.constructors@,
            type_.constructors.len() as nat,
        ).push(ItemForm::Break),
        Definition::Import(_) => Seq::empty(),
        Definition::ModuleConstant(constant) => seq![
            ItemForm::Definition(constant_definition(own, constant)),
        ],
    }
}

/// The temporaries of a definition.
pub open spec fn definition_temporaries(definition: Definition) -> nat {
    match definition {
        Definition::Function(function) => function_temporaries(function),
        _ => 0,
    }
}

/// The modules that a definition makes the library depend on.
pub open spec fn definition_references(own: Seq<char>, definition: Definition) -> Set<Seq<char>> {
    match definition {
        Definition::Function(function) => function_references(own, function),
        Definition::Import(import) => reference(own, import.module@),
        _ => Set::empty(),
    }
}

/// The names that a definition makes public.
pub open spec fn definition_exports(own: Seq<char>, definition: Definition) -> Set<Seq<char>> {
    match definition {
        Definition::Function(function) => exported(
            function.publicity,
            set![qualified(own, function.name@)],
        ),
        Definition::CustomType(type_) => exported(
            type_.publicity,
            constructor_names(own, type_.constructors@, type_.constructors.len() as nat),
        ),
        Definition::ModuleConstant(constant) => exported(
            constant.publicity,
            set![qualified(own, constant.name@)],
        ),
        _ => Set::empty(),
    }
}

/// The temporaries of the first `n` definitions together.
pub open spec fn definitions_temporaries(definitions: Seq<Definition>, n: nat) -> nat
    decreases n,
{
    if n == 0 || n > definitions.len() {
        0
    } else {
        definitions_temporaries(definitions, (n - 1) as nat) + definition_temporaries(
            definitions[n - 1],
        )
    }
}

/// The modules that the first `n` definitions make the library depend on.
pub open spec fn definitions_references(
    own: Seq<char>,
    definitions: Seq<Definition>,
    n: nat,
) -> Set<Seq<char>>
    decreases n,
{
    if n == 0 || n > definitions.len() {
        Set::empty()
    } else {
        definitions_references(own, definitions, (n - 1) as nat).union(
            definition_references(own, definitions[n - 1]),
        )
    }
}

/// The names that the first `n` definitions make public.
pub open spec fn definitions_exports(own: Seq<char>, definitions: Seq<Definition>, n: nat) -> Set<
    Seq<char>,
>
    decreases n,
{
    if n == 0 || n > definitions.len() {
        Set::empty()
    } else {
        definitions_exports(own, definitions, (n - 1) as nat).union(
            definition_exports(own, definitions[n - 1]),
        )
    }
}

/// The body of the library for the first `n` definitions of a module.
pub open spec fn definitions_items(
    own: Seq<char>,
    definitions: Seq<Definition>,
    n: nat,
    start: nat,
) -> Seq<ItemForm>
    decreases n,
{
    if n == 0 || n > definitions.len() {
        Seq::empty()
    } else {
        definitions_items(own, definitions, (n - 1) as nat, start) + definition_items(
            own,
            definitions[n - 1],
            start + definitions_temporaries(definitions, (n - 1) as nat),
        )
    }
}

/// Every function body of the module that is used can be generated.
pub open spec fn valid_module(module: TypedModule) -> bool {
    forall|i: int|
        0 <= i < module.definitions.len() ==> valid_definition(#[trigger] module.definitions[i])
}

/// The number of temporaries that the code for a module takes.
pub open spec fn module_temporaries(module: TypedModule) -> nat {
    definitions_temporaries(module.definitions@, module.definitions.len() as nat)
}

/// The library that is generated for a module.
pub open spec fn library_form(module: TypedModule) -> LibraryForm {
    LibraryForm {
        name: module.name@,
        exports: definitions_exports(
            module.name@,
            module.definitions@,
            module.definitions.len() as nat,
        ),
        imports: definitions_references(
            module.name@,
            module.definitions@,
            module.definitions.len() as nat,
        ),
        body: definitions_items(
            module.name@,
            module.definitions@,
            module.definitions.len() as nat,
            0,
        ),
    }
}

// What holds of the forms above

/// A term that stands in one place: no row, and no declaration.
pub open spec fn single(form: Form) -> bool {
    !(form is Row) && !(form is Declare)
}

/// The code for a valid expression is a single term.
pub proof fn expression_is_single(expr: TypedExpr, start: nat)
    requires
        valid(expr),
    ensures
        single(expr_form(expr, start)),
    decreases expr,
{
    match expr {
        TypedExpr::List { elements, tail, .. } => {
            match tail {
                Some(tail) => {
                    expression_is_single(*tail, start);
                    let chain = chain_form(
                        elements@,
                        0,
                        expr_form(*tail, start),
                        start + temporaries(*tail),
                    );
                    assert(single(chain));
                    assert(expr_form(expr, start) == chain);
                },
                None => {
                    let chain = chain_form(elements@, 0, empty_list(), start);
                    assert(single(chain));
                    assert(expr_form(expr, start) == chain);
                },
            }
        },
        TypedExpr::Block { statements, .. } => {
            assert(single(statements_form(statements@, start)));
        },
        _ => {},
    }
}

/// The terms for the first `n` expressions are one for each, in their order.
pub proof fn expr_forms_are(exprs: Seq<TypedExpr>, n: nat, start: nat)
    requires
        n <= exprs.len(),
    ensures
        expr_forms(exprs, n, start).len() == n,
        forall|i: int|
            0 <= i < n ==> #[trigger] expr_forms(exprs, n, start)[i] == expr_form(
                exprs[i],
                start + exprs_temporaries(exprs, i as nat),
            ),
    decreases n,
{
    if n > 0 {
        expr_forms_are(exprs, (n - 1) as nat, start);
    }
}

/// The bindings of the first `n` subjects of a case expression are one for
/// each, in their order.
pub proof fn subject_bindings_are(exprs: Seq<TypedExpr>, n: nat, start: nat)
    requires
        n <= exprs.len(),
    ensures
        subject_bindings(exprs, n, start).len() == n,
        forall|i: int|
            0 <= i < n ==> #[trigger] subject_bindings(exprs, n, start)[i] == Form::List(
                seq![
                    Form::Subject(i as nat),
                    expr_form(exprs[i], start + exprs_temporaries(exprs, i as nat)),
                ],
            ),
    decreases n,
{
    if n > 0 {
        subject_bindings_are(exprs, (n - 1) as nat, start);
    }
}

/// The terms for the first `n` clauses of a case expression are one for
/// each, in their order.
pub proof fn clause_forms_are(subjects: nat, clauses: Seq<TypedClause>, n: nat, start: nat)
    requires
        n <= clauses.len(),
    ensures
        clause_forms(subjects, clauses, n, start).len() == n,
        forall|i: int|
            0 <= i < n ==> #[trigger] clause_forms(subjects, clauses, n, start)[i] == clause_form(
                subjects,
                clauses[i],
                start + clauses_temporaries(subjects, clauses, i as nat),
            ),
    decreases n,
{
    if n > 0 {
        clause_forms_are(subjects, clauses, (n - 1) as nat, start);
    }
}

/// The code that stores the first `n` new values of a record update is one
/// term for each, in their order.
pub proof fn setter_forms_are(fields: Form, args: Seq<TypedRecordUpdateArg>, n: nat, start: nat)
    requires
        n <= args.len(),
    ensures
        setter_forms(fields, args, n, start).len() == n,
        forall|i: int|
            0 <= i < n ==> #[trigger] setter_forms(fields, args, n, start)[i] == ternary(
                Keyword::VectorSet,
                fields,
                Form::Index(args[i].index as nat),
                expr_form(args[i].value, start + updates_temporaries(args, i as nat)),
            ),
    decreases n,
{
    if n > 0 {
        setter_forms_are(fields, args, (n - 1) as nat, start);
    }
}

/// The test for a pattern is a single term.
pub proof fn pattern_is_single(subject: Form, pattern: Pattern, start: nat)
    ensures
        single(pattern_form(subject, pattern, start)),
    decreases pattern, elements_in(pattern) + 1,
{
    match pattern {
        Pattern::List { .. } => {
            assert(single(list_pattern_form(subject, pattern, 0, start))) by {
                list_pattern_is_single(subject, pattern, 0, start);
            }
        },
        _ => {},
    }
}

/// The test for a list pattern is a single term.
pub proof fn list_pattern_is_single(subject: Form, pattern: Pattern, from: nat, start: nat)
    ensures
        single(list_pattern_form(subject, pattern, from, start)),
    decreases pattern, elements_in(pattern) - from,
{
    match pattern {
        Pattern::List { elements, tail, .. } => {
            if from >= elements.len() {
                match tail {
                    Some(tail) => {
                        pattern_is_single(subject, *tail, start);
                    },
                    None => {},
                }
            }
        },
        _ => {},
    }
}

/// The tests of the first `n` fields of a tagged value are one for each, in
/// their order.
pub proof fn field_forms_are(subject: Form, patterns: Seq<Pattern>, n: nat, start: nat)
    requires
        n <= patterns.len(),
    ensures
        field_forms(subject, patterns, n, start).len() == n,
        forall|i: int|
            0 <= i < n ==> #[trigger] field_forms(subject, patterns, n, start)[i] == pattern_form(
                field(subject, i as nat),
                patterns[i],
                start + patterns_temporaries(patterns, i as nat),
            ),
    decreases n,
{
    if n > 0 {
        field_forms_are(subject, patterns, (n - 1) as nat, start);
    }
}

/// The tests of the first `n` elements of a tuple are one for each, in their
/// order.
pub proof fn element_forms_are(subject: Form, patterns: Seq<Pattern>, n: nat, start: nat)
    requires
        n <= patterns.len(),
    ensures
        element_forms(subject, patterns, n, start).len() == n,
        forall|i: int|
            0 <= i < n ==> #[trigger] element_forms(subject, patterns, n, start)[i] == binding(
                Form::Temporary(element_start(patterns, i as nat, start) + 1),
                binary(Keyword::VectorRef, subject, Form::Index(i as nat)),
                pattern_form(
                    Form::Temporary(element_start(patterns, i as nat, start) + 1),
                    patterns[i],
                    element_start(patterns, i as nat, start) + 1,
                ),
            ),
    decreases n,
{
    if n > 0 {
        element_forms_are(subject, patterns, (n - 1) as nat, start);
    }
}

// What holds of the counts above

/// More patterns take no fewer temporaries.
pub proof fn patterns_temporaries_grow(patterns: Seq<Pattern>, i: nat, n: nat)
    requires
        i <= n <= patterns.len(),
    ensures
        patterns_temporaries(patterns, i) <= patterns_temporaries(patterns, n),
    decreases n,
{
    if i < n {
        patterns_temporaries_grow(patterns, i, (n - 1) as nat);
    }
}

/// More expressions take no fewer temporaries.
pub proof fn exprs_temporaries_grow(exprs: Seq<TypedExpr>, i: nat, n: nat)
    requires
        i <= n <= exprs.len(),
    ensures
        exprs_temporaries(exprs, i) <= exprs_temporaries(exprs, n),
    decreases n,
{
    if i < n {
        exprs_temporaries_grow(exprs, i, (n - 1) as nat);
    }
}

/// The temporaries of the expressions from the `from`-th on are those of
/// that expression and of those behind it.
pub proof fn later_temporaries_unfold(exprs: Seq<TypedExpr>, from: nat)
    requires
        from < exprs.len(),
    ensures
        later_temporaries(exprs, from) == temporaries(exprs[from as int]) + later_temporaries(
            exprs,
            from + 1,
        ),
        later_temporaries(exprs, from) <= later_temporaries(exprs, 0),
        later_temporaries(exprs, 0) == exprs_temporaries(exprs, exprs.len()),
        later_temporaries(exprs, exprs.len()) == 0,
{
    exprs_temporaries_grow(exprs, from + 1, exprs.len());
    exprs_temporaries_grow(exprs, 0, from);
}

/// More arguments take no fewer temporaries.
pub proof fn arguments_temporaries_grow(args: Seq<CallArg<TypedExpr>>, i: nat, n: nat)
    requires
        i <= n <= args.len(),
    ensures
        arguments_temporaries(args, i) <= arguments_temporaries(args, n),
    decreases n,
{
    if i < n {
        arguments_temporaries_grow(args, i, (n - 1) as nat);
    }
}

/// More new values take no fewer temporaries.
pub proof fn updates_temporaries_grow(args: Seq<TypedRecordUpdateArg>, i: nat, n: nat)
    requires
        i <= n <= args.len(),
    ensures
        updates_temporaries(args, i) <= updates_temporaries(args, n),
    decreases n,
{
    if i < n {
        updates_temporaries_grow(args, i, (n - 1) as nat);
    }
}

/// More stages take no fewer temporaries.
pub proof fn assignments_temporaries_grow(
    assignments: Seq<TypedPipelineAssignment>,
    i: nat,
    n: nat,
)
    requires
        i <= n <= assignments.len(),
    ensures
        assignments_temporaries(assignments, i) <= assignments_temporaries(assignments, n),
    decreases n,
{
    if i < n {
        assignments_temporaries_grow(assignments, i, (n - 1) as nat);
    }
}

/// More clauses take no fewer temporaries.
pub proof fn clauses_temporaries_grow(subjects: nat, clauses: Seq<TypedClause>, i: nat, n: nat)
    requires
        i <= n <= clauses.len(),
    ensures
        clauses_temporaries(subjects, clauses, i) <= clauses_temporaries(subjects, clauses, n),
    decreases n,
{
    if i < n {
        clauses_temporaries_grow(subjects, clauses, i, (n - 1) as nat);
    }
}

/// More alternatives take no fewer temporaries.
pub proof fn alternatives_temporaries_grow(
    subjects: nat,
    alternatives: Seq<Vec<Pattern>>,
    i: nat,
    n: nat,
)
    requires
        i <= n <= alternatives.len(),
    ensures
        alternatives_temporaries(subjects, alternatives, i) <= alternatives_temporaries(
            subjects,
            alternatives,
            n,
        ),
    decreases n,
{
    if i < n {
        alternatives_temporaries_grow(subjects, alternatives, i, (n - 1) as nat);
    }
}

/// More definitions take no fewer temporaries.
pub proof fn definitions_temporaries_grow(definitions: Seq<Definition>, i: nat, n: nat)
    requires
        i <= n <= definitions.len(),
    ensures
        definitions_temporaries(definitions, i) <= definitions_temporaries(definitions, n),
    decreases n,
{
    if i < n {
        definitions_temporaries_grow(definitions, i, (n - 1) as nat);
    }
}

} // verus!
