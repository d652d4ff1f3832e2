//! How the terms that the generator builds evaluate, one step at a time.

use crate::lowering::{assign, case_form, failure, single, update_form};
use crate::meaning::{
    Choice, declared, declares, eval, eval_and, eval_bindings, eval_body, eval_cond, eval_each,
    eval_or, local_among, Outcome, Outcomes, primitive, spliced, spliced_names, Store, truthy,
    Value, variable,
};
use crate::sexp::{binary, binding, empty_list, Form, Keyword, ternary, unary, variadic};
use vstd::prelude::*;

verus! {

/// The word names a primitive: its arguments are evaluated from left to
/// right and handed to it.
pub open spec fn ordinary(word: Keyword) -> bool {
    match word {
        Keyword::True
        | Keyword::False
        | Keyword::If
        | Keyword::And
        | Keyword::Or
        | Keyword::Begin
        | Keyword::Let
        | Keyword::Assign
        | Keyword::Cond
        | Keyword::Error
        | Keyword::Lambda
        | Keyword::Define => false,
        _ => true,
    }
}

/// The outcome of a primitive, given how its arguments ended.
pub open spec fn handed(word: Keyword, arguments: Outcomes) -> Outcome {
    match arguments {
        Outcomes::Done(values, after) => primitive(word, values, after),
        Outcomes::Raised => Outcome::Raised,
        Outcomes::Unknown => Outcome::Unknown,
    }
}

/// One value, where a term ended with one.
pub open spec fn one(outcome: Outcome) -> Outcomes {
    match outcome {
        Outcome::Done(value, after) => Outcomes::Done(seq![value], after),
        Outcome::Raised => Outcomes::Raised,
        Outcome::Unknown => Outcomes::Unknown,
    }
}

/// A row alone stands for its terms.
pub proof fn spliced_row(inner: Seq<Form>)
    ensures
        spliced(seq![Form::Row(inner)]) == inner,
{
    let items = seq![Form::Row(inner)];
    assert(items.drop_last() =~= Seq::empty());
    assert(spliced(items.drop_last()) =~= Seq::empty());
    assert(spliced(items) =~= inner);
}

/// A term alone that is no row stands for itself.
pub proof fn spliced_one(term: Form)
    requires
        !(term is Row),
    ensures
        spliced(seq![term]) == seq![term],
{
    let items = seq![term];
    assert(items.drop_last() =~= Seq::empty());
    assert(spliced(items.drop_last()) =~= Seq::empty());
    assert(spliced(items) =~= seq![term]);
}

/// The arguments of `(word a)`.
pub proof fn each_of_one(items: Seq<Form>, store: Store)
    requires
        items.len() == 2,
        !(items[1] is Row),
    ensures
        eval_each(items, 1, store) == one(eval(items[1], store)),
{
    match eval(items[1], store) {
        Outcome::Done(value, after) => {
            assert(eval_each(items, 2, after) == Outcomes::Done(Seq::<Value>::empty(), after));
            assert(seq![value] + Seq::<Value>::empty() =~= seq![value]);
        },
        _ => {},
    }
}

/// `(word a)` hands the value of `a` to the primitive.
pub proof fn eval_unary(word: Keyword, a: Form, store: Store)
    requires
        ordinary(word),
        !(a is Row),
    ensures
        eval(unary(word, a), store) == handed(word, one(eval(a, store))),
{
    let items = seq![Form::Word(word), a];
    each_of_one(items, store);
}

/// The arguments of `(word a b)`.
pub proof fn each_of_two(items: Seq<Form>, store: Store)
    requires
        items.len() == 3,
        !(items[1] is Row),
        !(items[2] is Row),
    ensures
        eval_each(items, 1, store) == (match eval(items[1], store) {
            Outcome::Done(first, after) => match eval(items[2], after) {
                Outcome::Done(second, last) => Outcomes::Done(seq![first, second], last),
                Outcome::Raised => Outcomes::Raised,
                Outcome::Unknown => Outcomes::Unknown,
            },
            Outcome::Raised => Outcomes::Raised,
            Outcome::Unknown => Outcomes::Unknown,
        }),
{
    match eval(items[1], store) {
        Outcome::Done(first, after) => {
            match eval(items[2], after) {
                Outcome::Done(second, last) => {
                    assert(eval_each(items, 3, last) == Outcomes::Done(
                        Seq::<Value>::empty(),
                        last,
                    ));
                    assert(seq![second] + Seq::<Value>::empty() =~= seq![second]);
                    assert(eval_each(items, 2, after) == Outcomes::Done(seq![second], last));
                    assert(seq![first] + seq![second] =~= seq![first, second]);
                },
                _ => {
                    assert(eval_each(items, 2, after) == one(eval(items[2], after)));
                },
            }
        },
        _ => {},
    }
}

/// `(word a b)` hands the values of `a` and `b` to the primitive.
pub proof fn eval_binary(word: Keyword, a: Form, b: Form, store: Store)
    requires
        ordinary(word),
        !(a is Row),
        !(b is Row),
    ensures
        eval(binary(word, a, b), store) == (match eval(a, store) {
            Outcome::Done(first, after) => match eval(b, after) {
                Outcome::Done(second, last) => primitive(word, seq![first, second], last),
                other => other,
            },
            other => other,
        }),
{
    let items = seq![Form::Word(word), a, b];
    each_of_two(items, store);
}

/// `(word a b c)` hands the values of `a`, `b` and `c` to the primitive,
/// where `a` and `b` are variables or literals.
pub proof fn eval_ternary(word: Keyword, a: Form, b: Form, c: Form, store: Store)
    requires
        ordinary(word),
        !(a is Row),
        !(b is Row),
        !(c is Row),
        eval(a, store) matches Outcome::Done(_, after) && after == store,
        eval(b, store) matches Outcome::Done(_, after) && after == store,
    ensures
        eval(ternary(word, a, b, c), store) == (match eval(c, store) {
            Outcome::Done(third, last) => primitive(
                word,
                seq![eval(a, store)->Done_0, eval(b, store)->Done_0, third],
                last,
            ),
            other => other,
        }),
{
    let items = seq![Form::Word(word), a, b, c];
    let first = eval(a, store)->Done_0;
    let second = eval(b, store)->Done_0;
    match eval(c, store) {
        Outcome::Done(third, last) => {
            assert(eval_each(items, 4, last) == Outcomes::Done(Seq::<Value>::empty(), last));
            assert(seq![third] + Seq::<Value>::empty() =~= seq![third]);
            assert(eval_each(items, 3, store) == Outcomes::Done(seq![third], last));
            assert(seq![second] + seq![third] =~= seq![second, third]);
            assert(eval_each(items, 2, store) == Outcomes::Done(seq![second, third], last));
            assert(seq![first] + seq![second, third] =~= seq![first, second, third]);
            assert(eval_each(items, 1, store) == Outcomes::Done(
                seq![first, second, third],
                last,
            ));
        },
        _ => {
            assert(eval_each(items, 3, store) == one(eval(c, store)));
            assert(eval_each(items, 2, store) == one(eval(c, store)));
            assert(eval_each(items, 1, store) == one(eval(c, store)));
        },
    }
}

/// `(if test so else)`.
pub proof fn eval_if(test: Form, so: Form, otherwise: Form, store: Store)
    ensures
        eval(ternary(Keyword::If, test, so, otherwise), store) == (match eval(test, store) {
            Outcome::Done(value, after) => if value != Value::Boolean(false) {
                eval(so, after)
            } else {
                eval(otherwise, after)
            },
            other => other,
        }),
{
}

/// `(begin first second)`.
pub proof fn eval_begin(first: Form, second: Form, store: Store)
    requires
        !(first is Row),
        !(first is Declare),
        !(second is Row),
        !(second is Declare),
    ensures
        eval(binary(Keyword::Begin, first, second), store) == (match eval(first, store) {
            Outcome::Done(_, after) => eval(second, after),
            other => other,
        }),
{
    let items = seq![Form::Word(Keyword::Begin), first, second];
    match eval(first, store) {
        Outcome::Done(value, after) => {
            match eval(second, after) {
                Outcome::Done(result, last) => {
                    assert(eval_body(items, 3, last, result) == Outcome::Done(result, last));
                },
                _ => {},
            }
            assert(eval_body(items, 2, after, value) == eval(second, after));
        },
        _ => {},
    }
    assert(eval_body(items, 1, store, Value::Unspecified) == eval(
        binary(Keyword::Begin, first, second),
        store,
    ));
}

/// `(set! name value)` puts the value into a variable that exists.
pub proof fn eval_assign(name: Form, value: Form, store: Store)
    requires
        name is Local,
    ensures
        eval(binary(Keyword::Assign, name, value), store) == (match eval(value, store) {
            Outcome::Done(held, after) => if after.variables.contains_key(name) {
                Outcome::Done(Value::Unspecified, after.bind(name, held))
            } else {
                Outcome::Raised
            },
            other => other,
        }),
{
}

/// `(let ((name value)) body)`: the body sees the name bound to the value;
/// afterwards the name is what it was before.
pub proof fn eval_binding(name: Form, value: Form, body: Form, store: Store)
    requires
        variable(name),
        !(body is Row),
        !(body is Declare),
    ensures
        eval(binding(name, value, body), store) == (match eval(value, store) {
            Outcome::Done(held, after) => match eval(body, after.bind(name, held)) {
                Outcome::Done(result, last) => Outcome::Done(result, last.leave(after, set![name])),
                other => other,
            },
            other => other,
        }),
{
    let pair = Form::List(seq![name, value]);
    let bindings = seq![pair];
    let items = seq![Form::Word(Keyword::Let), Form::List(bindings), body];
    assert(binding(name, value, body) == Form::List(items));
    spliced_one(pair);
    assert(spliced_names(bindings) =~= seq![name]);
    match eval(value, store) {
        Outcome::Done(held, after) => {
            assert(eval_bindings(bindings, 1, after) == Outcomes::Done(
                Seq::<Value>::empty(),
                after,
            ));
            assert(seq![held] + Seq::<Value>::empty() =~= seq![held]);
            assert(eval_bindings(bindings, 0, store) == Outcomes::Done(seq![held], after));
            let names = seq![name];
            let values = seq![held];
            assert(names.drop_last() =~= Seq::<Form>::empty());
            assert(values.drop_last() =~= Seq::<Value>::empty());
            assert(after.bind_all(names.drop_last(), values.drop_last()) == after);
            assert(after.bind_all(names, values) == after.bind(name, held));
            let inner = after.bind(name, held);
            match eval(body, inner) {
                Outcome::Done(result, last) => {
                    assert(eval_body(items, 3, last, result) == Outcome::Done(result, last));
                },
                _ => {},
            }
            assert(eval_body(items, 2, inner, Value::Unspecified) == eval(body, inner));
            assert(declared(items, 2) =~= Set::<Form>::empty());
            assert(names.to_set() =~= set![name]);
            assert(names.to_set().union(declared(items, 2)) =~= set![name]);
        },
        _ => {
            assert(eval_bindings(bindings, 0, store) == one(eval(value, store)));
        },
    }
}


/// The values that the variables from the `from`-th on hold.
pub open spec fn held(names: Seq<Form>, from: nat, store: Store) -> Seq<Value> {
    Seq::new((names.len() - from) as nat, |i: int| store.variables[names[from + i]])
}

/// Variables evaluate to what they hold, and leave the store as it is.
pub proof fn each_of_variables(names: Seq<Form>, from: nat, store: Store)
    requires
        from <= names.len(),
        forall|i: int| 0 <= i < names.len() ==> variable(#[trigger] names[i]),
        forall|i: int| 0 <= i < names.len() ==> store.variables.contains_key(#[trigger] names[i]),
    ensures
        eval_each(names, from, store) == Outcomes::Done(held(names, from, store), store),
    decreases names.len() - from,
{
    if from < names.len() {
        each_of_variables(names, from + 1, store);
        let name = names[from as int];
        assert(variable(name));
        assert(store.variables.contains_key(name));
        assert(eval(name, store) == Outcome::Done(store.variables[name], store));
        assert(seq![store.variables[name]] + held(names, from + 1, store) =~= held(
            names,
            from,
            store,
        ));
    } else {
        assert(held(names, from, store) =~= Seq::<Value>::empty());
    }
}

/// `(word terms)` hands the values of the terms to the primitive.
pub proof fn eval_variadic(word: Keyword, inner: Seq<Form>, store: Store)
    requires
        ordinary(word),
    ensures
        eval(variadic(word, inner), store) == handed(word, eval_each(inner, 0, store)),
{
    let items = seq![Form::Word(word), Form::Row(inner)];
    match eval_each(inner, 0, store) {
        Outcomes::Done(values, after) => {
            assert(eval_each(items, 2, after) == Outcomes::Done(Seq::<Value>::empty(), after));
            assert(values + Seq::<Value>::empty() =~= values);
            assert(eval_each(items, 1, store) == Outcomes::Done(values, after));
        },
        _ => {
            assert(eval_each(items, 1, store) == eval_each(inner, 0, store));
        },
    }
}

/// Names that are bound together hold their values, and no other variable
/// changes.
pub proof fn bound_together(store: Store, names: Seq<Form>, values: Seq<Value>)
    requires
        names.len() == values.len(),
        names.no_duplicates(),
    ensures
        forall|i: int|
            0 <= i < names.len() ==> store.bind_all(names, values).variables.contains_key(
                #[trigger] names[i],
            ) && store.bind_all(names, values).variables[names[i]] == values[i],
        forall|key: Form|
            !names.contains(key) ==> (store.bind_all(names, values).variables.contains_key(key)
                == store.variables.contains_key(key)) && store.bind_all(
                names,
                values,
            ).variables[key] == store.variables[key],
        store.bind_all(names, values).vectors == store.vectors,
    decreases names.len(),
{
    if names.len() > 0 {
        let fewer = names.drop_last();
        let less = values.drop_last();
        bound_together(store, fewer, less);
        let before = store.bind_all(fewer, less);
        assert(store.bind_all(names, values) == before.bind(names.last(), values.last()));
        assert forall|i: int| 0 <= i < names.len() implies store.bind_all(
            names,
            values,
        ).variables.contains_key(#[trigger] names[i]) && store.bind_all(
            names,
            values,
        ).variables[names[i]] == values[i] by {
            if i < names.len() - 1 {
                assert(fewer[i] == names[i]);
                assert(names[i] != names.last());
            }
        }
        assert forall|key: Form| !names.contains(key) implies (store.bind_all(
            names,
            values,
        ).variables.contains_key(key) == store.variables.contains_key(key)) && store.bind_all(
            names,
            values,
        ).variables[key] == store.variables[key] by {
            assert(key != names.last());
            if fewer.contains(key) {
                let i = choose|i: int| 0 <= i < fewer.len() && fewer[i] == key;
                assert(names[i] == key);
            }
        }
    }
}


/// `(not (equal? subject (list)))` says whether a list has an element.
pub proof fn eval_has_element(subject: Form, values: Seq<Value>, store: Store)
    requires
        variable(subject),
        store.variables.contains_key(subject),
        store.variables[subject] == Value::List(values),
    ensures
        eval(unary(Keyword::Not, binary(Keyword::Equal, subject, empty_list())), store)
            == Outcome::Done(Value::Boolean(values.len() > 0), store),
{
    let nothing = seq![Form::Word(Keyword::List)];
    assert(eval_each(nothing, 1, store) == Outcomes::Done(Seq::<Value>::empty(), store));
    assert(eval(empty_list(), store) == Outcome::Done(Value::List(Seq::empty()), store));
    eval_binary(Keyword::Equal, subject, empty_list(), store);
    eval_unary(Keyword::Not, binary(Keyword::Equal, subject, empty_list()), store);
}

/// `(begin (set! $name subject) gleam.True)` is true, and the variable holds
/// what the subject holds.
pub proof fn eval_bind_variable(name: Seq<char>, subject: Form, store: Store)
    requires
        variable(subject),
        store.variables.contains_key(subject),
        store.variables.contains_key(Form::Local(name)),
    ensures
        eval(binary(Keyword::Begin, assign(name, subject), Form::Word(Keyword::True)), store)
            == Outcome::Done(
            Value::Boolean(true),
            store.bind(Form::Local(name), store.variables[subject]),
        ),
{
    eval_assign(Form::Local(name), subject, store);
    eval_begin(assign(name, subject), Form::Word(Keyword::True), store);
}


/// The test of the head of a list against a variable pattern: the list must
/// have an element, and the variable takes the first.
pub open spec fn head_test(name: Seq<char>, subject: Form, item: Form) -> Form {
    ternary(
        Keyword::If,
        unary(Keyword::Not, binary(Keyword::Equal, subject, empty_list())),
        binding(
            item,
            unary(Keyword::Car, subject),
            binary(Keyword::Begin, assign(name, item), Form::Word(Keyword::True)),
        ),
        Form::Word(Keyword::False),
    )
}

/// The head test is false of the empty list and changes nothing; of another
/// list it is true, and the variable holds the first element.
pub proof fn eval_head_test(
    name: Seq<char>,
    subject: Form,
    item: Form,
    values: Seq<Value>,
    store: Store,
)
    requires
        variable(subject),
        !(subject is Local),
        item is Temporary,
        subject != item,
        store.variables.contains_key(subject),
        store.variables[subject] == Value::List(values),
        store.variables.contains_key(Form::Local(name)),
    ensures
        eval(head_test(name, subject, item), store) == (if values.len() == 0 {
            Outcome::Done(Value::Boolean(false), store)
        } else {
            Outcome::Done(Value::Boolean(true), store.bind(Form::Local(name), values[0]))
        }),
{
    let check = unary(Keyword::Not, binary(Keyword::Equal, subject, empty_list()));
    let body = binary(Keyword::Begin, assign(name, item), Form::Word(Keyword::True));
    let taken = binding(item, unary(Keyword::Car, subject), body);
    eval_has_element(subject, values, store);
    eval_if(check, taken, Form::Word(Keyword::False), store);
    if values.len() > 0 {
        eval_unary(Keyword::Car, subject, store);
        assert(eval(unary(Keyword::Car, subject), store) == Outcome::Done(values[0], store));
        let inner = store.bind(item, values[0]);
        eval_bind_variable(name, item, inner);
        let last = inner.bind(Form::Local(name), values[0]);
        eval_binding(item, unary(Keyword::Car, subject), body, store);
        let after = last.leave(store, set![item]);
        assert(after.variables =~= store.bind(Form::Local(name), values[0]).variables);
        assert(after == store.bind(Form::Local(name), values[0]));
    }
}

/// The test of a list against an element and what follows: the head test,
/// and then the rest of the list, held in a temporary, against `next`.
pub open spec fn list_test(
    name: Seq<char>,
    subject: Form,
    item: Form,
    rest: Form,
    next: Form,
) -> Form {
    ternary(
        Keyword::If,
        head_test(name, subject, item),
        binding(rest, unary(Keyword::Cdr, subject), next),
        Form::Word(Keyword::False),
    )
}

/// The list test is false of the empty list and changes nothing. Of another
/// list it binds the first element, and its outcome is that of `next` with
/// the rest of the list in the temporary.
pub proof fn eval_list_test(
    name: Seq<char>,
    subject: Form,
    item: Form,
    rest: Form,
    next: Form,
    values: Seq<Value>,
    store: Store,
)
    requires
        variable(subject),
        !(subject is Local),
        item is Temporary,
        rest is Temporary,
        subject != item,
        next is List,
        store.variables.contains_key(subject),
        store.variables[subject] == Value::List(values),
        store.variables.contains_key(Form::Local(name)),
    ensures
        eval(list_test(name, subject, item, rest, next), store) == (if values.len() == 0 {
            Outcome::Done(Value::Boolean(false), store)
        } else {
            let first = store.bind(Form::Local(name), values[0]);
            match eval(next, first.bind(rest, Value::List(values.drop_first()))) {
                Outcome::Done(result, last) => Outcome::Done(result, last.leave(first, set![rest])),
                other => other,
            }
        }),
{
    eval_head_test(name, subject, item, values, store);
    eval_if(
        head_test(name, subject, item),
        binding(rest, unary(Keyword::Cdr, subject), next),
        Form::Word(Keyword::False),
        store,
    );
    if values.len() > 0 {
        let first = store.bind(Form::Local(name), values[0]);
        eval_unary(Keyword::Cdr, subject, first);
        eval_binding(rest, unary(Keyword::Cdr, subject), next, first);
    }
}


/// A body of one term is that term.
pub proof fn body_of_one(items: Seq<Form>, from: nat, store: Store, last: Value)
    requires
        from + 1 == items.len(),
        single(items[from as int]),
    ensures
        eval_body(items, from, store, last) == eval(items[from as int], store),
{
    match eval(items[from as int], store) {
        Outcome::Done(value, after) => {
            assert(eval_body(items, from + 1, after, value) == Outcome::Done(value, after));
        },
        _ => {},
    }
}

/// The term is a clause of a `cond` with a test and one term to evaluate
/// where the test holds.
pub open spec fn clause(term: Form) -> bool {
    match term {
        Form::List(parts) => parts.len() == 2 && parts[0] != Form::Word(Keyword::Else) && single(
            parts[1],
        ),
        _ => false,
    }
}

/// The test of a clause.
pub open spec fn test_of(term: Form) -> Form {
    term->List_0[0]
}

/// What a clause evaluates where its test holds.
pub open spec fn result_of(term: Form) -> Form {
    term->List_0[1]
}

/// The store after the tests of the clauses from the `from`-th up to, and
/// not including, the `to`-th, where each of them is false.
pub open spec fn refused(clauses: Seq<Form>, from: nat, to: nat, store: Store) -> Option<Store>
    decreases to - from,
{
    if from >= to {
        Some(store)
    } else {
        match eval(test_of(clauses[from as int]), store) {
            Outcome::Done(value, after) => if truthy(value) {
                None
            } else {
                refused(clauses, from + 1, to, after)
            },
            _ => None,
        }
    }
}

/// A `cond` takes the first clause whose test holds: the tests before it
/// are evaluated and are false, its own test is evaluated and holds, and the
/// outcome is that of its result. No other result is evaluated, and no test
/// behind it.
pub proof fn cond_takes_first(
    clauses: Seq<Form>,
    from: nat,
    taken: nat,
    store: Store,
    between: Store,
    test: Value,
    after: Store,
)
    requires
        from <= taken < clauses.len(),
        forall|i: int| from <= i <= taken ==> clause(#[trigger] clauses[i]),
        refused(clauses, from, taken, store) == Some(between),
        eval(test_of(clauses[taken as int]), between) == Outcome::Done(test, after),
        truthy(test),
    ensures
        eval_cond(clauses, from, store) == Choice::Taken(
            eval(result_of(clauses[taken as int]), after),
        ),
    decreases taken - from,
{
    let first = clauses[from as int];
    assert(clause(first));
    if from == taken {
        body_of_one(first->List_0, 1, after, test);
    } else {
        match eval(test_of(first), store) {
            Outcome::Done(value, next) => {
                cond_takes_first(clauses, from + 1, taken, next, between, test, after);
            },
            _ => {},
        }
    }
}

/// The term binds a variable to the value of a single term.
pub open spec fn binds(pair: Form, term: Form) -> bool {
    match pair {
        Form::List(parts) => parts.len() == 2 && variable(parts[0]) && parts[1] == term,
        _ => false,
    }
}

/// The bindings of a `let` evaluate the terms that they bind, each once and
/// from left to right.
pub proof fn bindings_are_each(pairs: Seq<Form>, terms: Seq<Form>, from: nat, store: Store)
    requires
        pairs.len() == terms.len(),
        forall|i: int| 0 <= i < pairs.len() ==> binds(#[trigger] pairs[i], terms[i]),
        forall|i: int| 0 <= i < terms.len() ==> !(#[trigger] terms[i] is Row),
    ensures
        eval_bindings(pairs, from, store) == eval_each(terms, from, store),
    decreases pairs.len() - from,
{
    if from < pairs.len() {
        assert(binds(pairs[from as int], terms[from as int]));
        assert(!(terms[from as int] is Row));
        match eval(terms[from as int], store) {
            Outcome::Done(value, after) => {
                bindings_are_each(pairs, terms, from + 1, after);
            },
            _ => {},
        }
    }
}

/// The term binds the name.
pub open spec fn names(pair: Form, name: Form) -> bool {
    match pair {
        Form::List(parts) => parts.len() == 2 && parts[0] == name,
        _ => false,
    }
}

/// The names that the bindings in a row bind.
pub proof fn names_of_bindings(pairs: Seq<Form>, names: Seq<Form>)
    requires
        pairs.len() == names.len(),
        forall|i: int| 0 <= i < pairs.len() ==> self::names(#[trigger] pairs[i], names[i]),
    ensures
        spliced_names(seq![Form::Row(pairs)]) == names,
{
    spliced_row(pairs);
    assert(spliced_names(seq![Form::Row(pairs)]) =~= names);
}


/// The local variables of the names.
pub open spec fn locals(names: Set<Seq<char>>) -> Set<Form> {
    Set::new(|key: Form| local_among(key, names))
}

/// `(let (bindings) declarations body)`: the terms that are bound are
/// evaluated, each once and from left to right, before anything is declared;
/// the body sees the names bound to their values and the variables declared;
/// afterwards the names and the variables are what they were before.
pub proof fn eval_scope(
    pairs: Seq<Form>,
    names: Seq<Form>,
    terms: Seq<Form>,
    variables: Set<Seq<char>>,
    body: Form,
    store: Store,
)
    requires
        pairs.len() == terms.len(),
        pairs.len() == names.len(),
        forall|i: int| 0 <= i < pairs.len() ==> binds(#[trigger] pairs[i], terms[i]),
        forall|i: int| 0 <= i < pairs.len() ==> self::names(#[trigger] pairs[i], names[i]),
        forall|i: int| 0 <= i < terms.len() ==> !(#[trigger] terms[i] is Row),
        single(body),
    ensures
        eval(
            ternary(
                Keyword::Let,
                Form::List(seq![Form::Row(pairs)]),
                Form::Declare(variables),
                body,
            ),
            store,
        ) == (match eval_each(terms, 0, store) {
            Outcomes::Done(values, bound) => match eval(
                body,
                bound.bind_all(names, values).declare(variables),
            ) {
                Outcome::Done(result, last) => Outcome::Done(
                    result,
                    last.leave(bound, names.to_set().union(locals(variables))),
                ),
                other => other,
            },
            Outcomes::Raised => Outcome::Raised,
            Outcomes::Unknown => Outcome::Unknown,
        }),
{
    let bindings = seq![Form::Row(pairs)];
    let held = seq![
        Form::Word(Keyword::Let),
        Form::List(bindings),
        Form::Declare(variables),
        body,
    ];
    bindings_are_each(pairs, terms, 0, store);
    names_of_bindings(pairs, names);
    match eval_each(terms, 0, store) {
        Outcomes::Done(values, bound) => {
            assert(eval_bindings(bindings, 1, bound) == Outcomes::Done(
                Seq::<Value>::empty(),
                bound,
            ));
            assert(values + Seq::<Value>::empty() =~= values);
            assert(eval_bindings(bindings, 0, store) == Outcomes::Done(values, bound));
            let scope = bound.bind_all(names, values);
            body_of_one(held, 3, scope.declare(variables), Value::Unspecified);
            assert(eval_body(held, 2, scope, Value::Unspecified) == eval(
                body,
                scope.declare(variables),
            ));
            assert forall|key: Form| declared(held, 2).contains(key) == locals(
                variables,
            ).contains(key) by {
                match key {
                    Form::Local(name) => {
                        if variables.contains(name) {
                            assert(declares(held[2], name));
                        }
                    },
                    _ => {},
                }
            }
            assert(declared(held, 2) =~= locals(variables));
        },
        _ => {
            assert(eval_bindings(bindings, 0, store) == eval_bindings(pairs, 0, store));
        },
    }
}

/// `(cond clauses otherwise)` where one of the clauses is taken.
pub proof fn eval_cond_taken(clauses: Seq<Form>, otherwise: Form, store: Store, outcome: Outcome)
    requires
        eval_cond(clauses, 0, store) == Choice::Taken(outcome),
    ensures
        eval(binary(Keyword::Cond, Form::Row(clauses), otherwise), store) == outcome,
{
    let choice = seq![Form::Word(Keyword::Cond), Form::Row(clauses), otherwise];
    assert(eval_cond(choice, 1, store) == Choice::Taken(outcome));
}


/// A case expression as the generator writes it: the subjects bound, the
/// variables of the clauses declared, and the clauses behind `cond`. It
/// evaluates the subjects, each once and from left to right, then the tests
/// of the clauses up to the first that holds, and then the result of that
/// clause and of no other.
pub proof fn eval_case(
    variables: Set<Seq<char>>,
    pairs: Seq<Form>,
    names: Seq<Form>,
    terms: Seq<Form>,
    clauses: Seq<Form>,
    taken: nat,
    store: Store,
    values: Seq<Value>,
    bound: Store,
    between: Store,
    test: Value,
    after: Store,
)
    requires
        pairs.len() == terms.len(),
        pairs.len() == names.len(),
        forall|i: int| 0 <= i < pairs.len() ==> binds(#[trigger] pairs[i], terms[i]),
        forall|i: int| 0 <= i < pairs.len() ==> self::names(#[trigger] pairs[i], names[i]),
        forall|i: int| 0 <= i < terms.len() ==> !(#[trigger] terms[i] is Row),
        taken < clauses.len(),
        forall|i: int| 0 <= i <= taken ==> clause(#[trigger] clauses[i]),
        eval_each(terms, 0, store) == Outcomes::Done(values, bound),
        refused(clauses, 0, taken, bound.bind_all(names, values).declare(variables)) == Some(
            between,
        ),
        eval(test_of(clauses[taken as int]), between) == Outcome::Done(test, after),
        truthy(test),
    ensures
        eval(case_form(variables, pairs, clauses), store) == (match eval(
            result_of(clauses[taken as int]),
            after,
        ) {
            Outcome::Done(result, last) => Outcome::Done(
                result,
                last.leave(bound, names.to_set().union(locals(variables))),
            ),
            other => other,
        }),
{
    let otherwise = unary(Keyword::Else, failure("panic"@, Form::Text("unreachable"@)));
    let cond = binary(Keyword::Cond, Form::Row(clauses), otherwise);
    let scope = bound.bind_all(names, values).declare(variables);
    cond_takes_first(clauses, 0, taken, scope, between, test, after);
    eval_cond_taken(clauses, otherwise, scope, eval(result_of(clauses[taken as int]), after));
    eval_scope(pairs, names, terms, variables, cond, store);
}

/// The second store holds a variable as the first does.
pub open spec fn kept(before: Store, after: Store, key: Form) -> bool {
    &&& after.variables.contains_key(key) == before.variables.contains_key(key)
    &&& before.variables.contains_key(key) ==> after.variables[key] == before.variables[key]
}

/// The second store holds every variable that is no local variable of the
/// source program as the first does, and every field container of the
/// first has its place in the second.
pub open spec fn steady(before: Store, after: Store) -> bool {
    &&& before.vectors.len() <= after.vectors.len()
    &&& forall|key: Form| !(key is Local) ==> #[trigger] kept(before, after, key)
}

/// What is steady twice in a row is steady.
pub proof fn steady_then(first: Store, middle: Store, last: Store)
    requires
        steady(first, middle),
        steady(middle, last),
    ensures
        steady(first, last),
{
    assert forall|key: Form| !(key is Local) implies #[trigger] kept(first, last, key) by {
        assert(kept(first, middle, key));
        assert(kept(middle, last, key));
    }
}

/// A step that is steady, behind a steady step.
pub proof fn steady_step(first: Store, middle: Store, outcome: Outcome)
    requires
        steady(first, middle),
        outcome matches Outcome::Done(_, last) ==> steady(middle, last),
    ensures
        outcome matches Outcome::Done(_, last) ==> steady(first, last),
{
    match outcome {
        Outcome::Done(_, last) => {
            steady_then(first, middle, last);
        },
        _ => {},
    }
}

/// Steps that are steady, behind a steady step.
pub proof fn steady_steps(first: Store, middle: Store, outcomes: Outcomes)
    requires
        steady(first, middle),
        outcomes matches Outcomes::Done(_, last) ==> steady(middle, last),
    ensures
        outcomes matches Outcomes::Done(_, last) ==> steady(first, last),
{
    match outcomes {
        Outcomes::Done(_, last) => {
            steady_then(first, middle, last);
        },
        _ => {},
    }
}

/// Names that are bound together leave every other variable as it was, and
/// the field containers.
pub proof fn bound_elsewhere(store: Store, names: Seq<Form>, values: Seq<Value>, key: Form)
    requires
        !names.contains(key),
    ensures
        kept(store, store.bind_all(names, values), key),
    decreases names.len(),
{
    if names.len() > 0 && values.len() == names.len() {
        assert(names.last() == names[names.len() - 1]);
        assert forall|i: int| 0 <= i < names.drop_last().len() implies names.drop_last()[i]
            != key by {
            assert(names[i] == names.drop_last()[i]);
        }
        bound_elsewhere(store, names.drop_last(), values.drop_last(), key);
    }
}

/// Names that are bound together leave the field containers as they were.
pub proof fn vectors_stay(store: Store, names: Seq<Form>, values: Seq<Value>)
    ensures
        store.bind_all(names, values).vectors == store.vectors,
    decreases names.len(),
{
    if names.len() > 0 && values.len() == names.len() {
        vectors_stay(store, names.drop_last(), values.drop_last());
    }
}

/// A scope leaves behind it every variable that is no local variable of the
/// source program as it found it, where its body changed none but those it
/// bound.
pub proof fn steady_scope(
    outside: Store,
    names: Seq<Form>,
    values: Seq<Value>,
    last: Store,
    scoped: Set<Form>,
)
    requires
        steady(outside.bind_all(names, values), last),
        forall|key: Form| names.contains(key) ==> #[trigger] scoped.contains(key),
    ensures
        steady(outside, last.leave(outside, scoped)),
{
    let inner = outside.bind_all(names, values);
    let after = last.leave(outside, scoped);
    vectors_stay(outside, names, values);
    assert forall|key: Form| !(key is Local) implies #[trigger] kept(outside, after, key) by {
        if !scoped.contains(key) {
            assert(!names.contains(key));
            bound_elsewhere(outside, names, values, key);
            assert(kept(inner, last, key));
        }
    }
}

/// A primitive leaves the variables as they were, and the field containers
/// in their places.
pub proof fn primitive_is_steady(word: Keyword, arguments: Seq<Value>, store: Store)
    ensures
        primitive(word, arguments, store) matches Outcome::Done(_, after) ==> steady(store, after),
{
    match primitive(word, arguments, store) {
        Outcome::Done(_, after) => {
            assert(after.variables == store.variables);
            assert forall|key: Form| !(key is Local) implies #[trigger] kept(
                store,
                after,
                key,
            ) by {}
        },
        _ => {},
    }
}

/// A store is steady against itself.
pub proof fn steady_itself(store: Store)
    ensures
        steady(store, store),
{
    assert forall|key: Form| !(key is Local) implies #[trigger] kept(store, store, key) by {}
}

/// A local variable that is bound or declared leaves the others as they were.
pub proof fn steady_locals(store: Store, after: Store)
    requires
        after.vectors == store.vectors,
        forall|key: Form| !(key is Local) ==> #[trigger] kept(store, after, key),
    ensures
        steady(store, after),
{
}

/// The evaluation of a term leaves every variable that is no local variable
/// of the source program as it was, and every field container in its place.
pub proof fn eval_is_steady(term: Form, store: Store)
    ensures
        eval(term, store) matches Outcome::Done(_, after) ==> steady(store, after),
    decreases term, 0nat,
{
    steady_itself(store);
    match term {
        Form::List(items) => {
            if items.len() > 0 {
                match items[0] {
                    Form::Word(Keyword::If) => {
                        if items.len() == 3 || items.len() == 4 {
                            eval_is_steady(items[1], store);
                            match eval(items[1], store) {
                                Outcome::Done(test, after) => {
                                    eval_is_steady(items[2], after);
                                    steady_step(store, after, eval(items[2], after));
                                    if items.len() == 4 {
                                        eval_is_steady(items[3], after);
                                        steady_step(store, after, eval(items[3], after));
                                    }
                                },
                                _ => {},
                            }
                        }
                    },
                    Form::Word(Keyword::And) => {
                        and_is_steady(items, 1, store, Value::Boolean(true));
                    },
                    Form::Word(Keyword::Or) => {
                        or_is_steady(items, 1, store, Value::Boolean(false));
                    },
                    Form::Word(Keyword::Begin) => {
                        body_is_steady(items, 1, store, Value::Unspecified);
                    },
                    Form::Word(Keyword::Let) => {
                        if items.len() >= 2 && items[1] is List {
                            let bindings = items[1]->List_0;
                            bindings_are_steady(bindings, 0, store);
                            match eval_bindings(bindings, 0, store) {
                                Outcomes::Done(values, after) => {
                                    let names = spliced_names(bindings);
                                    let inner = after.bind_all(names, values);
                                    body_is_steady(items, 2, inner, Value::Unspecified);
                                    match eval_body(items, 2, inner, Value::Unspecified) {
                                        Outcome::Done(value, last) => {
                                            let scoped = names.to_set().union(declared(items, 2));
                                            assert forall|key: Form|
                                                names.contains(key) implies #[trigger] scoped.contains(
                                                key,
                                            ) by {
                                                assert(names.to_set().contains(key));
                                            }
                                            steady_scope(after, names, values, last, scoped);
                                            steady_then(store, after, last.leave(after, scoped));
                                        },
                                        _ => {},
                                    }
                                },
                                _ => {},
                            }
                        }
                    },
                    Form::Word(Keyword::Assign) => {
                        if items.len() == 3 && items[1] is Local {
                            eval_is_steady(items[2], store);
                            match eval(items[2], store) {
                                Outcome::Done(value, after) => {
                                    let bound = after.bind(items[1], value);
                                    assert forall|key: Form| !(key is Local) implies #[trigger] kept(
                                        after,
                                        bound,
                                        key,
                                    ) by {}
                                    steady_locals(after, bound);
                                    steady_then(store, after, bound);
                                },
                                _ => {},
                            }
                        }
                    },
                    Form::Word(Keyword::Cond) => {
                        cond_is_steady(items, 1, store);
                    },
                    Form::Word(Keyword::Error) => {},
                    Form::Word(Keyword::Lambda) => {},
                    Form::Word(Keyword::Define) => {},
                    Form::Word(word) => {
                        each_is_steady(items, 1, store);
                        match eval_each(items, 1, store) {
                            Outcomes::Done(arguments, after) => {
                                primitive_is_steady(word, arguments, after);
                                steady_step(store, after, primitive(word, arguments, after));
                            },
                            _ => {},
                        }
                    },
                    Form::Predicate { .. } => {
                        each_is_steady(items, 1, store);
                    },
                    _ => {},
                }
            }
        },
        _ => {},
    }
}

/// As `eval_is_steady`, of the arguments of a call.
pub proof fn each_is_steady(items: Seq<Form>, from: nat, store: Store)
    ensures
        eval_each(items, from, store) matches Outcomes::Done(_, after) ==> steady(store, after),
    decreases items, items.len() - from,
{
    steady_itself(store);
    if from < items.len() {
        match items[from as int] {
            Form::Row(inner) => {
                each_is_steady(inner, 0, store);
                match eval_each(inner, 0, store) {
                    Outcomes::Done(values, after) => {
                        each_is_steady(items, from + 1, after);
                        steady_steps(store, after, eval_each(items, from + 1, after));
                    },
                    _ => {},
                }
            },
            term => {
                eval_is_steady(term, store);
                match eval(term, store) {
                    Outcome::Done(value, after) => {
                        each_is_steady(items, from + 1, after);
                        steady_steps(store, after, eval_each(items, from + 1, after));
                    },
                    _ => {},
                }
            },
        }
    }
}

/// As `eval_is_steady`, of the bindings of a `let`.
pub proof fn bindings_are_steady(bindings: Seq<Form>, from: nat, store: Store)
    ensures
        eval_bindings(bindings, from, store) matches Outcomes::Done(_, after) ==> steady(
            store,
            after,
        ),
    decreases bindings, bindings.len() - from,
{
    steady_itself(store);
    if from < bindings.len() {
        match bindings[from as int] {
            Form::Row(inner) => {
                bindings_are_steady(inner, 0, store);
                match eval_bindings(inner, 0, store) {
                    Outcomes::Done(values, after) => {
                        bindings_are_steady(bindings, from + 1, after);
                        steady_steps(store, after, eval_bindings(bindings, from + 1, after));
                    },
                    _ => {},
                }
            },
            Form::List(pair) => {
                if pair.len() == 2 && variable(pair[0]) {
                    eval_is_steady(pair[1], store);
                    match eval(pair[1], store) {
                        Outcome::Done(value, after) => {
                            bindings_are_steady(bindings, from + 1, after);
                            steady_steps(store, after, eval_bindings(bindings, from + 1, after));
                        },
                        _ => {},
                    }
                }
            },
            _ => {},
        }
    }
}

/// As `eval_is_steady`, of the terms of a body.
pub proof fn body_is_steady(items: Seq<Form>, from: nat, store: Store, last: Value)
    ensures
        eval_body(items, from, store, last) matches Outcome::Done(_, after) ==> steady(
            store,
            after,
        ),
    decreases items, items.len() - from,
{
    steady_itself(store);
    if from < items.len() {
        match items[from as int] {
            Form::Row(inner) => {
                body_is_steady(inner, 0, store, last);
                match eval_body(inner, 0, store, last) {
                    Outcome::Done(value, after) => {
                        body_is_steady(items, from + 1, after, value);
                        steady_step(store, after, eval_body(items, from + 1, after, value));
                    },
                    _ => {},
                }
            },
            Form::Declare(names) => {
                let after = store.declare(names);
                assert forall|key: Form| !(key is Local) implies #[trigger] kept(
                    store,
                    after,
                    key,
                ) by {}
                steady_locals(store, after);
                body_is_steady(items, from + 1, after, last);
                steady_step(store, after, eval_body(items, from + 1, after, last));
            },
            term => {
                eval_is_steady(term, store);
                match eval(term, store) {
                    Outcome::Done(value, after) => {
                        body_is_steady(items, from + 1, after, value);
                        steady_step(store, after, eval_body(items, from + 1, after, value));
                    },
                    _ => {},
                }
            },
        }
    }
}

/// As `eval_is_steady`, of the terms of an `and`.
pub proof fn and_is_steady(items: Seq<Form>, from: nat, store: Store, last: Value)
    ensures
        eval_and(items, from, store, last) matches Outcome::Done(_, after) ==> steady(
            store,
            after,
        ),
    decreases items, items.len() - from,
{
    steady_itself(store);
    if from < items.len() {
        match items[from as int] {
            Form::Row(inner) => {
                and_is_steady(inner, 0, store, last);
                match eval_and(inner, 0, store, last) {
                    Outcome::Done(value, after) => {
                        and_is_steady(items, from + 1, after, value);
                        steady_step(store, after, eval_and(items, from + 1, after, value));
                    },
                    _ => {},
                }
            },
            term => {
                eval_is_steady(term, store);
                match eval(term, store) {
                    Outcome::Done(value, after) => {
                        and_is_steady(items, from + 1, after, value);
                        steady_step(store, after, eval_and(items, from + 1, after, value));
                    },
                    _ => {},
                }
            },
        }
    }
}

/// As `eval_is_steady`, of the terms of an `or`.
pub proof fn or_is_steady(items: Seq<Form>, from: nat, store: Store, last: Value)
    ensures
        eval_or(items, from, store, last) matches Outcome::Done(_, after) ==> steady(store, after),
    decreases items, items.len() - from,
{
    steady_itself(store);
    if from < items.len() {
        match items[from as int] {
            Form::Row(inner) => {
                or_is_steady(inner, 0, store, last);
                match eval_or(inner, 0, store, last) {
                    Outcome::Done(value, after) => {
                        or_is_steady(items, from + 1, after, value);
                        steady_step(store, after, eval_or(items, from + 1, after, value));
                    },
                    _ => {},
                }
            },
            term => {
                eval_is_steady(term, store);
                match eval(term, store) {
                    Outcome::Done(value, after) => {
                        or_is_steady(items, from + 1, after, value);
                        steady_step(store, after, eval_or(items, from + 1, after, value));
                    },
                    _ => {},
                }
            },
        }
    }
}

/// The store that a `cond` leaves, where a clause was taken and ended, or
/// where none applied.
pub open spec fn chosen(choice: Choice) -> Option<Store> {
    match choice {
        Choice::Taken(Outcome::Done(_, after)) => Some(after),
        Choice::Taken(_) => None,
        Choice::Passed(after) => Some(after),
    }
}

/// As `eval_is_steady`, of the clauses of a `cond`.
pub proof fn cond_is_steady(items: Seq<Form>, from: nat, store: Store)
    ensures
        chosen(eval_cond(items, from, store)) matches Some(after) ==> steady(store, after),
    decreases items, items.len() - from,
{
    steady_itself(store);
    if from < items.len() {
        match items[from as int] {
            Form::Row(inner) => {
                cond_is_steady(inner, 0, store);
                match eval_cond(inner, 0, store) {
                    Choice::Passed(after) => {
                        cond_is_steady(items, from + 1, after);
                        match chosen(eval_cond(items, from + 1, after)) {
                            Some(last) => {
                                steady_then(store, after, last);
                            },
                            None => {},
                        }
                    },
                    _ => {},
                }
            },
            Form::List(clause) => {
                if clause.len() > 0 {
                    if clause[0] == Form::Word(Keyword::Else) {
                        body_is_steady(clause, 1, store, Value::Unspecified);
                    } else {
                        eval_is_steady(clause[0], store);
                        match eval(clause[0], store) {
                            Outcome::Done(test, after) => {
                                if truthy(test) {
                                    body_is_steady(clause, 1, after, test);
                                    steady_step(store, after, eval_body(clause, 1, after, test));
                                } else {
                                    cond_is_steady(items, from + 1, after);
                                    match chosen(eval_cond(items, from + 1, after)) {
                                        Some(last) => {
                                            steady_then(store, after, last);
                                        },
                                        None => {},
                                    }
                                }
                            },
                            _ => {},
                        }
                    }
                }
            },
            _ => {},
        }
    }
}


/// Two terms that are no rows stand for themselves.
pub proof fn spliced_two(first: Form, second: Form)
    requires
        !(first is Row),
        !(second is Row),
    ensures
        spliced(seq![first, second]) == seq![first, second],
{
    let items = seq![first, second];
    assert(items.drop_last() =~= seq![first]);
    spliced_one(first);
    assert(spliced(items) =~= seq![first, second]);
}

/// A tagged value: the tag and the place of the field container.
pub open spec fn tagged_value(tag: Seq<char>, place: nat) -> Value {
    Value::List(seq![Value::Symbol(tag), Value::Vector(place)])
}

/// The code for a record update, where the record is a tagged value: if it
/// ends, its value carries the tag of the record and a field container at a
/// place that the store did not have when the record was evaluated.
pub proof fn eval_update(
    value: Form,
    setters: Seq<Form>,
    start: nat,
    store: Store,
    tag: Seq<char>,
    place: nat,
    base: Store,
)
    requires
        eval(value, store) == Outcome::Done(tagged_value(tag, place), base),
        place < base.vectors.len(),
    ensures
        eval(update_form(value, setters, start), store) matches Outcome::Done(result, last)
            ==> result == tagged_value(tag, base.vectors.len()) && base.vectors.len()
            < last.vectors.len(),
{
    let record = Form::Temporary(start + 1);
    let label = Form::Temporary(start + 2);
    let fields = Form::Temporary(start + 3);
    let taken = unary(Keyword::Car, record);
    let copied = unary(Keyword::VectorCopy, unary(Keyword::Cadr, record));
    let first = Form::List(seq![label, taken]);
    let second = Form::List(seq![fields, copied]);
    let bindings = seq![first, second];
    let made = binary(Keyword::List, label, fields);
    let items = seq![Form::Word(Keyword::Let), Form::List(bindings), Form::Row(setters), made];
    let inner = Form::List(items);
    assert(update_form(value, setters, start) == binding(record, value, inner));
    eval_binding(record, value, inner, store);
    let held = tagged_value(tag, place);
    let outside = base.bind(record, held);
    assert(eval(record, outside) == Outcome::Done(held, outside));

    // the tag and the copy
    eval_unary(Keyword::Car, record, outside);
    assert(eval(taken, outside) == Outcome::Done(Value::Symbol(tag), outside));
    eval_unary(Keyword::Cadr, record, outside);
    eval_unary(Keyword::VectorCopy, unary(Keyword::Cadr, record), outside);
    let copy = Value::Vector(base.vectors.len());
    let grown = Store {
        variables: outside.variables,
        vectors: outside.vectors.push(outside.vectors[place as int]),
    };
    assert(eval(copied, outside) == Outcome::Done(copy, grown));
    assert(eval_bindings(bindings, 2, grown) == Outcomes::Done(Seq::<Value>::empty(), grown));
    assert(seq![copy] + Seq::<Value>::empty() =~= seq![copy]);
    assert(eval_bindings(bindings, 1, outside) == Outcomes::Done(seq![copy], grown));
    let values = seq![Value::Symbol(tag), copy];
    assert(seq![Value::Symbol(tag)] + seq![copy] =~= values);
    assert(eval_bindings(bindings, 0, outside) == Outcomes::Done(values, grown));
    spliced_two(first, second);
    let names = seq![label, fields];
    assert(spliced_names(bindings) =~= names);
    assert(names.no_duplicates());
    bound_together(grown, names, values);
    let scope = grown.bind_all(names, values);
    assert(names[0] == label && names[1] == fields);
    assert(scope.variables.contains_key(label) && scope.variables[label] == Value::Symbol(tag));
    assert(scope.variables.contains_key(fields) && scope.variables[fields] == copy);

    // the new values, and the record that is made of the tag and the copy
    body_is_steady(setters, 0, scope, Value::Unspecified);
    match eval_body(setters, 0, scope, Value::Unspecified) {
        Outcome::Done(ignored, written) => {
            assert(kept(scope, written, label));
            assert(kept(scope, written, fields));
            assert(eval(label, written) == Outcome::Done(Value::Symbol(tag), written));
            assert(eval(fields, written) == Outcome::Done(copy, written));
            eval_binary(Keyword::List, label, fields, written);
            assert(eval(made, written) == Outcome::Done(
                tagged_value(tag, base.vectors.len()),
                written,
            ));
            body_of_one(items, 3, written, ignored);
            assert(eval_body(items, 2, scope, Value::Unspecified) == eval(made, written));
        },
        _ => {},
    }
}

/// `(vector-set! fields index value)` writes into the field container that
/// `fields` holds, and into no other: once the value is evaluated, every
/// other container is left as it is.
pub proof fn eval_setter(fields: Form, index: nat, value: Form, place: nat, store: Store)
    requires
        fields is Temporary,
        store.variables.contains_key(fields),
        store.variables[fields] == Value::Vector(place),
        single(value),
    ensures
        eval(ternary(Keyword::VectorSet, fields, Form::Index(index), value), store)
            matches Outcome::Done(_, last) ==> eval(value, store) matches Outcome::Done(
            _,
            read,
        ) && last.vectors.len() == read.vectors.len() && forall|other: int|
            0 <= other < read.vectors.len() && other != place ==> last.vectors[other]
                == read.vectors[other],
{
    let items = seq![Form::Word(Keyword::VectorSet), fields, Form::Index(index), value];
    assert(eval(fields, store) == Outcome::Done(Value::Vector(place), store));
    assert(eval(Form::Index(index), store) == Outcome::Done(Value::Integer(index), store));
    match eval(value, store) {
        Outcome::Done(new, read) => {
            assert(eval_each(items, 4, read) == Outcomes::Done(Seq::<Value>::empty(), read));
            assert(seq![new] + Seq::<Value>::empty() =~= seq![new]);
            assert(eval_each(items, 3, store) == Outcomes::Done(seq![new], read));
            assert(seq![Value::Integer(index)] + seq![new] =~= seq![Value::Integer(index), new]);
            assert(eval_each(items, 2, store) == Outcomes::Done(
                seq![Value::Integer(index), new],
                read,
            ));
            assert(seq![Value::Vector(place)] + seq![Value::Integer(index), new] =~= seq![
                Value::Vector(place),
                Value::Integer(index),
                new,
            ]);
            assert(eval_each(items, 1, store) == Outcomes::Done(
                seq![Value::Vector(place), Value::Integer(index), new],
                read,
            ));
        },
        _ => {
            assert(eval_each(items, 3, store) == one(eval(value, store)));
            assert(eval_each(items, 2, store) == one(eval(value, store)));
            assert(eval_each(items, 1, store) == one(eval(value, store)));
        },
    }
}

} // verus!
