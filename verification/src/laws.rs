//! What holds of the generated code when the target runs it.

use crate::ast::{
    AssignName, Pattern, RecordConstructor, TypedClause, TypedExpr, TypedRecordUpdateArg,
};
use crate::lowering::{
    assign, case_form, clause_form, clause_forms, clause_forms_are, clauses_temporaries,
    clauses_variables, constructor_form, constructor_parameters, expr_form, expr_forms,
    expr_forms_are, expression_is_single, exprs_temporaries, list_pattern_form, pattern_form,
    pattern_temporaries, pattern_variables, predicate_form, setter_forms, setter_forms_are,
    subject_bindings, subject_bindings_are, tagged, temporaries, test_form, test_temporaries,
    update_form, updates_temporaries, valid, valid_all, valid_clauses,
};
use crate::matching::{
    assigned, begins, decided, declares, denotes_subject, denotes_temporary, meets, prefix_bound,
    shaped, test_decides,
};
use crate::meaning::{
    apply, declared, eval, eval_body, eval_each, Outcome, Outcomes, Store, truthy, Value, variable,
};
use crate::sexp::{binary, Form, Keyword, ternary, unary, variadic};
use crate::steps::{
    binds, bound_together, clause, each_of_variables, eval_assign, eval_binary,
    eval_bind_variable, eval_case, eval_if, eval_list_test, eval_setter, eval_ternary, eval_unary,
    eval_update, eval_variadic, held, list_test, locals, names, refused, result_of, spliced_one,
    spliced_row, tagged_value, test_of,
};
use vstd::prelude::*;

verus! {

/// The term that a definition gives its name: the `value` of `(define name
/// value)`.
pub open spec fn defined(definition: Form) -> Form {
    match definition {
        Form::List(items) => if items.len() == 3 {
            items[2]
        } else {
            Form::Row(Seq::empty())
        },
        _ => Form::Row(Seq::empty()),
    }
}

/// What the code for a constructor makes of the values of its fields: the
/// constructor's definition applied to them, or, without fields, the
/// definition itself.
pub open spec fn constructed(
    own: Seq<char>,
    constructor: RecordConstructor,
    fields: Seq<Value>,
    store: Store,
) -> Outcome {
    let made = defined(constructor_form(own, constructor));
    if constructor.arguments.len() == 0 {
        eval(made, store)
    } else {
        apply(made, fields, store)
    }
}

/// What the code of the test for a constructor says of a value.
pub open spec fn recognised(
    own: Seq<char>,
    constructor: RecordConstructor,
    value: Value,
    store: Store,
) -> Outcome {
    apply(defined(predicate_form(own, constructor)), seq![value], store)
}

/// A function that only binds its parameters leaves the variables as they
/// were when it returns.
pub proof fn left_as_it_was(
    store: Store,
    parameters: Seq<Form>,
    arguments: Seq<Value>,
    last: Store,
    scoped: Set<Form>,
)
    requires
        parameters.len() == arguments.len(),
        parameters.no_duplicates(),
        last.variables == store.bind_all(parameters, arguments).variables,
        scoped == parameters.to_set(),
    ensures
        last.leave(store, scoped).variables == store.variables,
{
    bound_together(store, parameters, arguments);
    let inner = store.bind_all(parameters, arguments);
    let after = last.leave(store, scoped);
    assert forall|key: Form|
        after.variables.contains_key(key) == store.variables.contains_key(key) && (
        store.variables.contains_key(key) ==> after.variables[key]
            == store.variables[key]) by {
        if !parameters.contains(key) {
            assert(!scoped.contains(key));
            assert(inner.variables.contains_key(key) == store.variables.contains_key(key));
            assert(inner.variables[key] == store.variables[key]);
        } else {
            assert(scoped.contains(key));
        }
    }
    assert(after.variables =~= store.variables);
}

/// `(list 'tag (vector fields))` makes a new field container of the
/// values of the fields, and a value of the tag and the container.
pub proof fn tagged_makes(tag: Seq<char>, fields: Seq<Form>, store: Store)
    requires
        forall|i: int| 0 <= i < fields.len() ==> variable(#[trigger] fields[i]),
        forall|i: int| 0 <= i < fields.len() ==> store.variables.contains_key(#[trigger] fields[i]),
    ensures
        eval(tagged(tag, fields), store) == Outcome::Done(
            tagged_value(tag, store.vectors.len()),
            Store {
                variables: store.variables,
                vectors: store.vectors.push(held(fields, 0, store)),
            },
        ),
{
    each_of_variables(fields, 0, store);
    eval_variadic(Keyword::Vector, fields, store);
    eval_binary(Keyword::List, Form::Quote(tag), variadic(Keyword::Vector, fields), store);
}

/// The code for a constructor makes a tagged value: the constructor's name
/// and a new field container that holds the fields. It changes nothing
/// else.
pub proof fn constructor_makes_tagged_value(
    own: Seq<char>,
    constructor: RecordConstructor,
    fields: Seq<Value>,
    store: Store,
)
    requires
        fields.len() == constructor.arguments.len(),
    ensures
        constructed(own, constructor, fields, store) matches Outcome::Done(value, after) && value
            == tagged_value(constructor.name@, store.vectors.len()) && after.vectors
            == store.vectors.push(fields) && after.variables == store.variables,
{
    let tag = constructor.name@;
    let arity = constructor.arguments.len() as nat;
    let parameters = constructor_parameters(arity);
    let body = tagged(tag, parameters);
    if arity == 0 {
        assert(defined(constructor_form(own, constructor)) == body);
        tagged_makes(tag, parameters, store);
        assert(held(parameters, 0, store) =~= fields);
    } else {
        let lambda = binary(Keyword::Lambda, Form::List(seq![Form::Row(parameters)]), body);
        assert(defined(constructor_form(own, constructor)) == lambda);
        let items = seq![
            Form::Word(Keyword::Lambda),
            Form::List(seq![Form::Row(parameters)]),
            body,
        ];
        spliced_row(parameters);
        assert(parameters.no_duplicates());
        bound_together(store, parameters, fields);
        let inner = store.bind_all(parameters, fields);
        tagged_makes(tag, parameters, inner);
        assert(held(parameters, 0, inner) =~= fields);
        let value = tagged_value(tag, store.vectors.len());
        let last = Store { variables: inner.variables, vectors: store.vectors.push(fields) };
        assert(eval(body, inner) == Outcome::Done(value, last));
        assert(eval_body(items, 3, last, value) == Outcome::Done(value, last));
        assert(eval_body(items, 2, inner, Value::Unspecified) == Outcome::Done(value, last));
        assert(declared(items, 2) =~= Set::<Form>::empty());
        let scoped = parameters.to_set().union(declared(items, 2));
        assert(scoped =~= parameters.to_set());
        let after = last.leave(store, scoped);
        left_as_it_was(store, parameters, fields, last, scoped);
        assert(apply(lambda, fields, store) == Outcome::Done(value, after));
    }
}

/// The code of the test for a constructor says of a tagged value whether it
/// carries the constructor's name. It changes nothing.
pub proof fn predicate_reads_the_tag(
    own: Seq<char>,
    constructor: RecordConstructor,
    tag: Seq<char>,
    place: nat,
    store: Store,
)
    ensures
        recognised(own, constructor, tagged_value(tag, place), store) matches Outcome::Done(
            answer,
            after,
        ) && answer == Value::Boolean(tag == constructor.name@) && after.vectors == store.vectors
            && after.variables == store.variables,
{
    let value = tagged_value(tag, place);
    let parameter = Form::Name("value"@);
    let asked = Form::Quote(constructor.name@);
    let body = binary(Keyword::Equal, unary(Keyword::Car, parameter), asked);
    let lambda = binary(Keyword::Lambda, Form::List(seq![parameter]), body);
    assert(defined(predicate_form(own, constructor)) == lambda);
    let items = seq![Form::Word(Keyword::Lambda), Form::List(seq![parameter]), body];
    spliced_one(parameter);
    let parameters = seq![parameter];
    let arguments = seq![value];
    bound_together(store, parameters, arguments);
    let inner = store.bind_all(parameters, arguments);
    assert(parameters[0] == parameter);
    assert(eval(parameter, inner) == Outcome::Done(value, inner));
    eval_unary(Keyword::Car, parameter, inner);
    eval_binary(Keyword::Equal, unary(Keyword::Car, parameter), asked, inner);
    let answer = Value::Boolean(tag == constructor.name@);
    assert(eval(body, inner) == Outcome::Done(answer, inner));
    assert(eval_body(items, 3, inner, answer) == Outcome::Done(answer, inner));
    assert(eval_body(items, 2, inner, Value::Unspecified) == Outcome::Done(answer, inner));
    assert(declared(items, 2) =~= Set::<Form>::empty());
    let scoped = parameters.to_set().union(declared(items, 2));
    let after = inner.leave(store, scoped);
    assert(scoped =~= parameters.to_set());
    left_as_it_was(store, parameters, arguments, inner, scoped);
    assert(apply(lambda, arguments, store) == Outcome::Done(answer, after));
}

/// The test for a constructor is true of a value that the constructor made,
/// and false of a value that a constructor of another name made, whatever the
/// number of fields.
pub proof fn constructors_are_told_apart(
    own: Seq<char>,
    made_by: RecordConstructor,
    asked: RecordConstructor,
    fields: Seq<Value>,
    store: Store,
)
    requires
        fields.len() == made_by.arguments.len(),
    ensures
        constructed(own, made_by, fields, store) matches Outcome::Done(value, after) && recognised(
            own,
            asked,
            value,
            after,
        ) matches Outcome::Done(answer, _) && answer == Value::Boolean(
            made_by.name@ == asked.name@,
        ),
{
    constructor_makes_tagged_value(own, made_by, fields, store);
    let after = constructed(own, made_by, fields, store)->Done_1;
    predicate_reads_the_tag(own, asked, made_by.name@, store.vectors.len(), after);
}


/// The pattern is a variable of the given name.
pub open spec fn binds_name(pattern: Pattern, name: Seq<char>) -> bool {
    match pattern {
        Pattern::Variable { name: found, .. } => found@ == name,
        _ => false,
    }
}

/// The subject of a test as generated code has it: the variable of a case
/// subject, or a temporary that is made before those of the test, which are
/// numbered above `start`.
pub open spec fn held_before(subject: Form, start: nat) -> bool {
    match subject {
        Form::Subject(_) => true,
        Form::Temporary(n) => n <= start,
        _ => false,
    }
}

/// The pattern is `[a, b, ..rest]`.
pub open spec fn two_and_rest(
    pattern: Pattern,
    a: Seq<char>,
    b: Seq<char>,
    rest: Seq<char>,
) -> bool {
    match pattern {
        Pattern::List { elements, tail: Some(tail), .. } => elements.len() == 2 && binds_name(
            elements[0],
            a,
        ) && binds_name(elements[1], b) && binds_name(*tail, rest),
        _ => false,
    }
}

/// The test of a list against `[a, b, ..rest]` is true of a list of two
/// elements or more: `a` and `b` then hold the first two elements and `rest`
/// the list of the others. Of a shorter list it is false, and it raises
/// nothing: of a list of one element with `a` bound to that element, of the
/// empty list with nothing changed. Nothing else changes in either case.
///
/// The subject is what the generated code tests: the variable of a case
/// subject, or the temporary in which an assignment holds its value, which
/// is made before the temporaries of the test.
pub proof fn list_pattern_binds_two_and_the_rest(
    pattern: Pattern,
    a: Seq<char>,
    b: Seq<char>,
    rest: Seq<char>,
    subject: Form,
    start: nat,
    values: Seq<Value>,
    store: Store,
)
    requires
        two_and_rest(pattern, a, b, rest),
        held_before(subject, start),
        store.variables.contains_key(subject),
        store.variables[subject] == Value::List(values),
        store.variables.contains_key(Form::Local(a)),
        store.variables.contains_key(Form::Local(b)),
        store.variables.contains_key(Form::Local(rest)),
    ensures
        eval(pattern_form(subject, pattern, start), store) == (if values.len()
            >= 2 {
            Outcome::Done(
                Value::Boolean(true),
                store.bind(Form::Local(a), values[0]).bind(Form::Local(b), values[1]).bind(
                    Form::Local(rest),
                    Value::List(values.skip(2)),
                ),
            )
        } else if values.len() == 1 {
            Outcome::Done(Value::Boolean(false), store.bind(Form::Local(a), values[0]))
        } else {
            Outcome::Done(Value::Boolean(false), store)
        }),
{
    let elements = pattern->List_elements;
    let tail = *pattern->List_tail->Some_0;
    let whole = subject;
    let item1 = Form::Temporary(start + 1);
    let rest1 = Form::Temporary(start + 2);
    let item2 = Form::Temporary(start + 3);
    let rest2 = Form::Temporary(start + 4);
    let test3 = binary(Keyword::Begin, assign(rest, rest2), Form::Word(Keyword::True));
    let test2 = list_test(b, rest1, item2, rest2, test3);
    let test1 = list_test(a, whole, item1, rest1, test2);
    assert(pattern_temporaries(elements[0]) == 0);
    assert(pattern_temporaries(elements[1]) == 0);
    assert(pattern_form(rest2, tail, start + 4) == test3);
    assert(list_pattern_form(rest2, pattern, 2, start + 4) == test3);
    assert(pattern_form(item2, elements[1], start + 4) == binary(
        Keyword::Begin,
        assign(b, item2),
        Form::Word(Keyword::True),
    ));
    assert(list_pattern_form(rest1, pattern, 1, start + 2) == test2);
    assert(pattern_form(item1, elements[0], start + 2) == binary(
        Keyword::Begin,
        assign(a, item1),
        Form::Word(Keyword::True),
    ));
    assert(list_pattern_form(whole, pattern, 0, start) == test1);
    assert(pattern_form(whole, pattern, start) == test1);
    eval_list_test(a, whole, item1, rest1, test2, values, store);
    if values.len() > 0 {
        let others = values.drop_first();
        let first = store.bind(Form::Local(a), values[0]);
        let inner = first.bind(rest1, Value::List(others));
        eval_list_test(b, rest1, item2, rest2, test3, others, inner);
        if others.len() > 0 {
            let second = inner.bind(Form::Local(b), others[0]);
            let innermost = second.bind(rest2, Value::List(others.drop_first()));
            eval_bind_variable(rest, rest2, innermost);
            let last = innermost.bind(Form::Local(rest), Value::List(others.drop_first()));
            let after = last.leave(second, set![rest2]).leave(first, set![rest1]);
            assert(others.drop_first() =~= values.skip(2));
            assert(others[0] == values[1]);
            let bound = store.bind(Form::Local(a), values[0]).bind(Form::Local(b), values[1]).bind(
                Form::Local(rest),
                Value::List(values.skip(2)),
            );
            assert(after.variables =~= bound.variables);
            assert(after == bound);
        } else {
            let after = inner.leave(first, set![rest1]);
            assert(after.variables =~= first.variables);
            assert(after == first);
        }
    }
}


/// The test of a string against a prefix pattern is true where the string
/// begins with the prefix: the variable for the prefix, if the pattern names
/// one, then holds the prefix, and the variable for the rest, if it names
/// one, the string without the characters of the prefix, so that the two
/// make up the string. Else the test is false and nothing changes. It
/// raises nothing in either case.
pub proof fn prefix_pattern_takes_the_prefix_off(
    pattern: Pattern,
    subject: Form,
    start: nat,
    whole: Seq<char>,
    store: Store,
)
    requires
        pattern is StringPrefix,
        held_before(subject, start),
        store.variables.contains_key(subject),
        store.variables[subject] == Value::Text(whole),
        declares(store, pattern_variables(pattern)),
    ensures
        pattern matches Pattern::StringPrefix {
            left_side_string,
            left_side_assignment,
            right_side_assignment,
            ..
        } && eval(pattern_form(subject, pattern, start), store) == (if begins(
            whole,
            left_side_string@,
        ) {
            Outcome::Done(
                Value::Boolean(true),
                prefix_bound(
                    store,
                    left_side_string@,
                    left_side_assignment,
                    right_side_assignment,
                    whole,
                ),
            )
        } else {
            Outcome::Done(Value::Boolean(false), store)
        }),
{
    let prefix = pattern->left_side_string@;
    let left = pattern->left_side_assignment;
    let right = pattern->right_side_assignment;
    let test = binary(Keyword::StringPrefix, subject, Form::Text(prefix));
    let rest = ternary(
        Keyword::Substring,
        subject,
        Form::Index(prefix.len()),
        unary(Keyword::StringLength, subject),
    );
    let first = match left {
        Some(name) => assign(name@, Form::Text(prefix)),
        None => Form::Row(Seq::empty()),
    };
    let second = match right {
        AssignName::Variable(name) => assign(name@, rest),
        AssignName::Discard(_) => Form::Row(Seq::empty()),
    };
    let so = ternary(Keyword::Begin, first, second, Form::Word(Keyword::True));
    assert(pattern_form(subject, pattern, start) == ternary(
        Keyword::If,
        test,
        so,
        Form::Word(Keyword::False),
    ));
    eval_binary(Keyword::StringPrefix, subject, Form::Text(prefix), store);
    eval_if(test, so, Form::Word(Keyword::False), store);
    if begins(whole, prefix) {
        let items = seq![Form::Word(Keyword::Begin), first, second, Form::Word(Keyword::True)];
        let middle = match left {
            Some(name) => store.bind(Form::Local(name@), Value::Text(prefix)),
            None => store,
        };
        match left {
            Some(name) => {
                assert(pattern_variables(pattern).contains(name@));
                eval_assign(Form::Local(name@), Form::Text(prefix), store);
            },
            None => {
                assert(eval_body(Seq::<Form>::empty(), 0, store, Value::Unspecified)
                    == Outcome::Done(Value::Unspecified, store));
            },
        }
        let last = prefix_bound(store, prefix, left, right, whole);
        match right {
            AssignName::Variable(name) => {
                assert(pattern_variables(pattern).contains(name@));
                assert(middle.variables.contains_key(subject));
                assert(middle.variables[subject] == Value::Text(whole));
                eval_unary(Keyword::StringLength, subject, middle);
                eval_ternary(
                    Keyword::Substring,
                    subject,
                    Form::Index(prefix.len()),
                    unary(Keyword::StringLength, subject),
                    middle,
                );
                assert(whole.subrange(prefix.len() as int, whole.len() as int) =~= whole.skip(
                    prefix.len() as int,
                ));
                eval_assign(Form::Local(name@), rest, middle);
            },
            AssignName::Discard(_) => {
                assert(eval_body(Seq::<Form>::empty(), 0, middle, Value::Unspecified)
                    == Outcome::Done(Value::Unspecified, middle));
            },
        }
        let done = Outcome::Done(Value::Boolean(true), last);
        assert(eval_body(items, 4, last, Value::Boolean(true)) == done);
        assert(items.len() == 4 && items[1] == first && items[2] == second && items[3]
            == Form::Word(Keyword::True));
        assert forall|value: Value| #[trigger] eval_body(items, 3, last, value) == done by {
            assert(eval(items[3], last) == done);
        }
        assert forall|value: Value| #[trigger] eval_body(items, 2, middle, value) == done by {
            assert(eval_body(items, 3, last, value) == done);
            assert(eval_body(items, 3, last, Value::Unspecified) == done);
            match right {
                AssignName::Variable(_) => {},
                AssignName::Discard(_) => {
                    assert(eval_body(Seq::<Form>::empty(), 0, middle, value) == Outcome::Done(
                        value,
                        middle,
                    ));
                },
            }
        }
        assert(eval_body(items, 1, store, Value::Unspecified) == done) by {
            assert(eval_body(items, 2, middle, Value::Unspecified) == done);
            match left {
                Some(_) => {},
                None => {
                    assert(eval_body(Seq::<Form>::empty(), 0, store, Value::Unspecified)
                        == Outcome::Done(Value::Unspecified, store));
                },
            }
        }
    }
}

/// The expression is a case expression of the given subjects and clauses.
pub open spec fn is_case(
    expr: TypedExpr,
    subjects: Seq<TypedExpr>,
    clauses: Seq<TypedClause>,
) -> bool {
    match expr {
        TypedExpr::Case { subjects: s, clauses: c, .. } => s@ == subjects && c@ == clauses,
        _ => false,
    }
}

/// The variables that hold the subjects of a case expression: `_0`, `_1`
/// and so on.
pub open spec fn subject_variables(n: nat) -> Seq<Form> {
    Seq::new(n, |i: int| Form::Subject(i as nat))
}

/// A case expression evaluates each subject once, from left to right, and
/// then the result of the first clause whose test holds, and of no other.
///
/// The subjects are evaluated and bound, and the variables of the clauses
/// are declared. The tests of the clauses before the `taken`-th are evaluated
/// and are false; the test of the `taken`-th is evaluated and holds: its
/// patterns or one of its alternatives match, and its guard holds. The
/// outcome of the case expression is then the outcome of that clause's
/// result, with the subjects and the declared variables out of scope again.
pub proof fn case_takes_the_first_clause_that_applies(
    expr: TypedExpr,
    subjects: Seq<TypedExpr>,
    clauses: Seq<TypedClause>,
    start: nat,
    taken: nat,
    store: Store,
    values: Seq<Value>,
    bound: Store,
    between: Store,
    test: Value,
    after: Store,
)
    requires
        is_case(expr, subjects, clauses),
        valid(expr),
        taken < clauses.len(),
        eval_each(
            expr_forms(
                subjects,
                subjects.len(),
                start + clauses_temporaries(subjects.len(), clauses, clauses.len()),
            ),
            0,
            store,
        ) == Outcomes::Done(values, bound),
        refused(
            clause_forms(subjects.len(), clauses, clauses.len(), start),
            0,
            taken,
            bound.bind_all(subject_variables(subjects.len()), values).declare(
                clauses_variables(clauses, clauses.len()),
            ),
        ) == Some(between),
        eval(
            test_form(
                subjects.len(),
                clauses[taken as int],
                start + clauses_temporaries(subjects.len(), clauses, taken),
            ),
            between,
        ) == Outcome::Done(test, after),
        truthy(test),
    ensures
        eval(expr_form(expr, start), store) == (match eval(
            expr_form(
                clauses[taken as int].result,
                start + clauses_temporaries(subjects.len(), clauses, taken) + test_temporaries(
                    subjects.len(),
                    clauses[taken as int],
                ),
            ),
            after,
        ) {
            Outcome::Done(result, last) => Outcome::Done(
                result,
                last.leave(
                    bound,
                    subject_variables(subjects.len()).to_set().union(
                        locals(clauses_variables(clauses, clauses.len())),
                    ),
                ),
            ),
            other => other,
        }),
{
    let n = subjects.len();
    let later = start + clauses_temporaries(n, clauses, clauses.len());
    assert(valid_all(subjects));
    assert(valid_clauses(clauses));
    assert(expr_form(expr, start) == case_form(
        clauses_variables(clauses, clauses.len()),
        subject_bindings(subjects, n, later),
        clause_forms(n, clauses, clauses.len(), start),
    ));
    subjects_are_bound(subjects, later);
    clauses_are_clauses(n, clauses, start);
    eval_case(
        clauses_variables(clauses, clauses.len()),
        subject_bindings(subjects, n, later),
        subject_variables(n),
        expr_forms(subjects, n, later),
        clause_forms(n, clauses, clauses.len(), start),
        taken,
        store,
        values,
        bound,
        between,
        test,
        after,
    );
}

/// The subjects of a case expression are bound to the variables `_0`, `_1`
/// and so on, each to the term for it.
pub proof fn subjects_are_bound(subjects: Seq<TypedExpr>, start: nat)
    requires
        forall|i: int| 0 <= i < subjects.len() ==> valid(#[trigger] subjects[i]),
    ensures
        subject_bindings(subjects, subjects.len(), start).len() == subjects.len(),
        expr_forms(subjects, subjects.len(), start).len() == subjects.len(),
        forall|i: int|
            0 <= i < subjects.len() ==> binds(
                #[trigger] subject_bindings(subjects, subjects.len(), start)[i],
                expr_forms(subjects, subjects.len(), start)[i],
            ),
        forall|i: int|
            0 <= i < subjects.len() ==> names(
                #[trigger] subject_bindings(subjects, subjects.len(), start)[i],
                subject_variables(subjects.len())[i],
            ),
        forall|i: int|
            0 <= i < subjects.len() ==> !(#[trigger] expr_forms(
                subjects,
                subjects.len(),
                start,
            )[i] is Row),
{
    let n = subjects.len();
    expr_forms_are(subjects, n, start);
    subject_bindings_are(subjects, n, start);
    assert forall|i: int| 0 <= i < n implies !(#[trigger] expr_forms(subjects, n, start)[i]
        is Row) by {
        assert(valid(subjects[i]));
        expression_is_single(subjects[i], start + exprs_temporaries(subjects, i as nat));
    }
}

/// The clauses of a case expression are clauses of a `cond`, each with the
/// test of a clause and the term for its result.
pub proof fn clauses_are_clauses(subjects: nat, clauses: Seq<TypedClause>, start: nat)
    requires
        forall|i: int| 0 <= i < clauses.len() ==> valid((#[trigger] clauses[i]).result),
    ensures
        clause_forms(subjects, clauses, clauses.len(), start).len() == clauses.len(),
        forall|i: int|
            0 <= i < clauses.len() ==> clause(
                #[trigger] clause_forms(subjects, clauses, clauses.len(), start)[i],
            ) && test_of(clause_forms(subjects, clauses, clauses.len(), start)[i]) == test_form(
                subjects,
                clauses[i],
                start + clauses_temporaries(subjects, clauses, i as nat),
            ) && result_of(clause_forms(subjects, clauses, clauses.len(), start)[i]) == expr_form(
                clauses[i].result,
                start + clauses_temporaries(subjects, clauses, i as nat) + test_temporaries(
                    subjects,
                    clauses[i],
                ),
            ),
{
    let tests = clause_forms(subjects, clauses, clauses.len(), start);
    clause_forms_are(subjects, clauses, clauses.len(), start);
    assert forall|i: int| 0 <= i < clauses.len() implies clause(#[trigger] tests[i]) && test_of(
        tests[i],
    ) == test_form(subjects, clauses[i], start + clauses_temporaries(subjects, clauses, i as nat))
        && result_of(tests[i]) == expr_form(
        clauses[i].result,
        start + clauses_temporaries(subjects, clauses, i as nat) + test_temporaries(
            subjects,
            clauses[i],
        ),
    ) by {
        let at = start + clauses_temporaries(subjects, clauses, i as nat);
        assert(tests[i] == clause_form(subjects, clauses[i], at));
        assert(valid(clauses[i].result));
        expression_is_single(clauses[i].result, at + test_temporaries(subjects, clauses[i]));
    }
}


/// The expression is an update of the given record with the given fields.
pub open spec fn is_update(
    expr: TypedExpr,
    spread: TypedExpr,
    args: Seq<TypedRecordUpdateArg>,
) -> bool {
    match expr {
        TypedExpr::RecordUpdate { spread: s, args: a, .. } => *s == spread && a@ == args,
        _ => false,
    }
}

/// A record update never hands back the field container of the record that
/// it updates. Where the record is a tagged value and the update ends, its
/// value carries the same tag and a field container at a place that the
/// store did not have when the record was evaluated.
pub proof fn record_update_makes_a_new_container(
    expr: TypedExpr,
    spread: TypedExpr,
    args: Seq<TypedRecordUpdateArg>,
    start: nat,
    store: Store,
    tag: Seq<char>,
    place: nat,
    base: Store,
)
    requires
        is_update(expr, spread, args),
        eval(expr_form(spread, start), store) == Outcome::Done(tagged_value(tag, place), base),
        place < base.vectors.len(),
    ensures
        eval(expr_form(expr, start), store) matches Outcome::Done(result, last) ==> result
            == tagged_value(tag, base.vectors.len()) && base.vectors.len() != place
            && base.vectors.len() < last.vectors.len(),
{
    let behind = start + temporaries(spread);
    let setters = setter_forms(Form::Temporary(behind + 3), args, args.len(), behind + 3);
    assert(expr_form(expr, start) == update_form(expr_form(spread, start), setters, behind));
    eval_update(expr_form(spread, start), setters, behind, store, tag, place, base);
}

/// A record update writes each new value into the copy that it made, and
/// into no other field container: once a new value is evaluated, the code
/// that stores it leaves every container but the copy as it is.
pub proof fn record_update_writes_to_its_copy(
    args: Seq<TypedRecordUpdateArg>,
    start: nat,
    i: int,
    place: nat,
    store: Store,
)
    requires
        0 <= i < args.len(),
        valid(args[i].value),
        store.variables.contains_key(Form::Temporary(start)),
        store.variables[Form::Temporary(start)] == Value::Vector(place),
    ensures
        setter_forms(Form::Temporary(start), args, args.len(), start).len() == args.len(),
        eval(setter_forms(Form::Temporary(start), args, args.len(), start)[i], store)
            matches Outcome::Done(_, last) ==> eval(
            expr_form(args[i].value, start + updates_temporaries(args, i as nat)),
            store,
        ) matches Outcome::Done(_, read) && last.vectors.len() == read.vectors.len()
            && forall|other: int|
            0 <= other < read.vectors.len() && other != place ==> last.vectors[other]
                == read.vectors[other],
{
    setter_forms_are(Form::Temporary(start), args, args.len(), start);
    let value = expr_form(args[i].value, start + updates_temporaries(args, i as nat));
    expression_is_single(args[i].value, start + updates_temporaries(args, i as nat));
    eval_setter(Form::Temporary(start), args[i].index as nat, value, place, store);
}


/// The test of a subject against a pattern decides whether the value of
/// the subject meets the pattern, whatever the pattern is made of. The value
/// must have the shape that the type of the pattern demands, and the
/// variables of the pattern must be declared.
///
/// The test ends and raises nothing. It is true where the value matches: each
/// variable of the pattern then holds the part of the value that met it. It
/// is false where the value does not match: some variables of the pattern may
/// then be bound all the same. A pattern that only binds is always true.
/// Nothing but variables of the pattern changes in either case.
///
/// The subject is the variable of a case subject, or the temporary in which
/// an assignment holds its value.
pub proof fn pattern_test_decides_the_match(
    subject: Form,
    pattern: Pattern,
    start: nat,
    store: Store,
)
    requires
        held_before(subject, start),
        store.variables.contains_key(subject),
        shaped(pattern, store.variables[subject], store.vectors),
        declares(store, pattern_variables(pattern)),
    ensures
        decided(
            eval(pattern_form(subject, pattern, start), store),
            store,
            meets(pattern, store.variables[subject], store.vectors),
            assigned(store, pattern, store.variables[subject]),
            pattern_variables(pattern),
        ),
{
    match subject {
        Form::Subject(n) => denotes_subject(store, n, start),
        Form::Temporary(n) => {
            let value = store.variables[subject];
            denotes_temporary(store, n, value, start);
            assert(store.bind(subject, value).variables =~= store.variables);
            assert(store.bind(subject, value) == store);
        },
        _ => {},
    }
    test_decides(
        subject,
        pattern,
        start,
        store,
        store.variables[subject],
        pattern_variables(pattern),
    );
}

} // verus!
