//! What generated code does when the target runs it: a model of the part of
//! the target language that patterns, case expressions, constructors and
//! record updates are lowered to.
//!
//! The model knows variables, literals, quoted symbols, lists, field
//! containers with a place of their own in a store, and the forms `if`,
//! `and`, `or`, `not`, `begin`, `let`, `set!`, `cond` and `lambda`. Outside
//! of it, with the outcome `Unknown`, are a call of a function that the
//! program defines and an assignment to anything but a local variable of
//! the source program: generated code assigns to no other.

use crate::sexp::{Form, Keyword};
use vstd::prelude::*;

verus! {

/// A value of the target.
pub enum Value {
    /// What a declaration, an assignment or an `if` without a branch leaves.
    Unspecified,
    Boolean(bool),
    /// A number as the program writes it.
    Number(Seq<char>),
    /// A position in a field container.
    Integer(nat),
    Text(Seq<char>),
    Symbol(Seq<char>),
    List(Seq<Value>),
    /// A field container, by its place in the store.
    Vector(nat),
}

/// What the variables and the field containers hold.
pub struct Store {
    pub variables: Map<Form, Value>,
    pub vectors: Seq<Seq<Value>>,
}

/// How the evaluation of a term ends.
pub enum Outcome {
    Done(Value, Store),
    /// The program stopped with an error.
    Raised,
    /// The term is outside of the model.
    Unknown,
}

/// How the evaluation of several terms ends.
pub enum Outcomes {
    Done(Seq<Value>, Store),
    Raised,
    Unknown,
}

/// How the clauses of a `cond` end: one was taken, or none applied.
pub enum Choice {
    Taken(Outcome),
    Passed(Store),
}

/// Everything but `gleam.False` counts as true.
pub open spec fn truthy(value: Value) -> bool {
    value != Value::Boolean(false)
}

/// Whether two values are equal as `equal?` sees them, as far as that can
/// be said without looking into field containers: two containers may hold
/// the same or not.
pub open spec fn same(a: Value, b: Value) -> Option<bool>
    decreases a,
{
    match a {
        Value::List(left) => match b {
            Value::List(right) => {
                if left.len() != right.len() {
                    Some(false)
                } else if exists|i: int|
                    0 <= i < left.len() && #[trigger] same(left[i], right[i]) == Some(false) {
                    Some(false)
                } else if forall|i: int|
                    0 <= i < left.len() ==> #[trigger] same(left[i], right[i]) == Some(true) {
                    Some(true)
                } else {
                    None
                }
            },
            _ => Some(false),
        },
        Value::Vector(_) => match b {
            Value::Vector(_) => None,
            _ => Some(false),
        },
        _ => Some(a == b),
    }
}

/// The term is a variable.
pub open spec fn variable(term: Form) -> bool {
    term is Local || term is Temporary || term is Subject || term is Name || term is Global
}

/// The term is the local variable of one of the names.
pub open spec fn local_among(term: Form, names: Set<Seq<char>>) -> bool {
    match term {
        Form::Local(name) => names.contains(name),
        _ => false,
    }
}

impl Store {
    /// The store with a variable bound to a value.
    pub open spec fn bind(self, name: Form, value: Value) -> Store {
        Store { variables: self.variables.insert(name, value), vectors: self.vectors }
    }

    /// The store with each of the names bound to the value at its position.
    pub open spec fn bind_all(self, names: Seq<Form>, values: Seq<Value>) -> Store
        decreases names.len(),
    {
        if names.len() == 0 || values.len() != names.len() {
            self
        } else {
            self.bind_all(names.drop_last(), values.drop_last()).bind(names.last(), values.last())
        }
    }

    /// The store with the local variables of the names declared, each without
    /// a value yet.
    pub open spec fn declare(self, names: Set<Seq<char>>) -> Store {
        Store {
            variables: Map::new(
                |key: Form|
                    self.variables.contains_key(key) || local_among(key, names),
                |key: Form|
                    if local_among(key, names) {
                        Value::Unspecified
                    } else {
                        self.variables[key]
                    },
            ),
            vectors: self.vectors,
        }
    }

    /// The store at the end of a scope: the variables of the scope are what
    /// they were outside of it, everything else is as the scope left it.
    pub open spec fn leave(self, outside: Store, scoped: Set<Form>) -> Store {
        Store {
            variables: Map::new(
                |key: Form|
                    if scoped.contains(key) {
                        outside.variables.contains_key(key)
                    } else {
                        self.variables.contains_key(key)
                    },
                |key: Form|
                    if scoped.contains(key) {
                        outside.variables[key]
                    } else {
                        self.variables[key]
                    },
            ),
            vectors: self.vectors,
        }
    }

    /// The store with one field container more, and the container's place.
    pub open spec fn allocate(self, fields: Seq<Value>) -> (Value, Store) {
        (
            Value::Vector(self.vectors.len()),
            Store { variables: self.variables, vectors: self.vectors.push(fields) },
        )
    }
}

/// The terms of a sequence, with the terms of each row in the row's place.
pub open spec fn spliced(items: Seq<Form>) -> Seq<Form>
    decreases items.len(),
{
    if items.len() == 0 {
        Seq::empty()
    } else {
        spliced(items.drop_last()) + (match items.last() {
            Form::Row(inner) => inner,
            other => seq![other],
        })
    }
}

/// The names that a term declares, if it is a declaration.
pub open spec fn declares(item: Form, name: Seq<char>) -> bool {
    match item {
        Form::Declare(names) => names.contains(name),
        _ => false,
    }
}

/// The local variables that the terms from the `from`-th on declare.
pub open spec fn declared(items: Seq<Form>, from: nat) -> Set<Form> {
    Set::new(
        |key: Form|
            match key {
                Form::Local(name) => exists|i: int|
                    from <= i < items.len() && declares(#[trigger] items[i], name),
                _ => false,
            },
    )
}

/// The elements of a list with at least `least` of them.
pub open spec fn elements(value: Value, least: nat) -> Option<Seq<Value>> {
    match value {
        Value::List(items) => if items.len() >= least {
            Some(items)
        } else {
            None
        },
        _ => None,
    }
}

/// The place of a field container that the store holds.
pub open spec fn place(value: Value, store: Store) -> Option<int> {
    match value {
        Value::Vector(place) => if place < store.vectors.len() {
            Some(place as int)
        } else {
            None
        },
        _ => None,
    }
}

/// A position in the field container at a place.
pub open spec fn position(value: Value, place: int, store: Store) -> Option<int> {
    match value {
        Value::Integer(i) => if i < store.vectors[place].len() {
            Some(i as int)
        } else {
            None
        },
        _ => None,
    }
}

/// What a primitive of the target makes of its arguments.
pub open spec fn primitive(word: Keyword, arguments: Seq<Value>, store: Store) -> Outcome {
    match word {
        Keyword::Not => if arguments.len() == 1 {
            Outcome::Done(Value::Boolean(!truthy(arguments[0])), store)
        } else {
            Outcome::Raised
        },
        Keyword::Equal => if arguments.len() != 2 {
            Outcome::Raised
        } else {
            match same(arguments[0], arguments[1]) {
                Some(answer) => Outcome::Done(Value::Boolean(answer), store),
                None => Outcome::Unknown,
            }
        },
        Keyword::Car => if arguments.len() != 1 {
            Outcome::Raised
        } else {
            match elements(arguments[0], 1) {
                Some(items) => Outcome::Done(items[0], store),
                None => Outcome::Raised,
            }
        },
        Keyword::Cdr => if arguments.len() != 1 {
            Outcome::Raised
        } else {
            match elements(arguments[0], 1) {
                Some(items) => Outcome::Done(Value::List(items.drop_first()), store),
                None => Outcome::Raised,
            }
        },
        Keyword::Cadr => if arguments.len() != 1 {
            Outcome::Raised
        } else {
            match elements(arguments[0], 2) {
                Some(items) => Outcome::Done(items[1], store),
                None => Outcome::Raised,
            }
        },
        Keyword::Cons => if arguments.len() != 2 {
            Outcome::Raised
        } else {
            match elements(arguments[1], 0) {
                Some(items) => Outcome::Done(Value::List(seq![arguments[0]] + items), store),
                None => Outcome::Unknown,
            }
        },
        Keyword::List => Outcome::Done(Value::List(arguments), store),
        Keyword::Vector => {
            let (made, after) = store.allocate(arguments);
            Outcome::Done(made, after)
        },
        Keyword::VectorCopy => if arguments.len() != 1 {
            Outcome::Raised
        } else {
            match place(arguments[0], store) {
                Some(at) => {
                    let (made, after) = store.allocate(store.vectors[at]);
                    Outcome::Done(made, after)
                },
                None => Outcome::Raised,
            }
        },
        Keyword::VectorRef => if arguments.len() != 2 {
            Outcome::Raised
        } else {
            match place(arguments[0], store) {
                Some(at) => match position(arguments[1], at, store) {
                    Some(i) => Outcome::Done(store.vectors[at][i], store),
                    None => Outcome::Raised,
                },
                None => Outcome::Raised,
            }
        },
        Keyword::VectorSet => if arguments.len() != 3 {
            Outcome::Raised
        } else {
            match place(arguments[0], store) {
                Some(at) => match position(arguments[1], at, store) {
                    Some(i) => Outcome::Done(
                        Value::Unspecified,
                        Store {
                            variables: store.variables,
                            vectors: store.vectors.update(
                                at,
                                store.vectors[at].update(i, arguments[2]),
                            ),
                        },
                    ),
                    None => Outcome::Raised,
                },
                None => Outcome::Raised,
            }
        },
        Keyword::StringPrefix => if arguments.len() != 2 {
            Outcome::Raised
        } else {
            match (arguments[0], arguments[1]) {
                (Value::Text(whole), Value::Text(prefix)) => Outcome::Done(
                    Value::Boolean(prefix.is_prefix_of(whole)),
                    store,
                ),
                _ => Outcome::Raised,
            }
        },
        Keyword::StringLength => if arguments.len() != 1 {
            Outcome::Raised
        } else {
            match arguments[0] {
                Value::Text(whole) => Outcome::Done(Value::Integer(whole.len()), store),
                _ => Outcome::Raised,
            }
        },
        Keyword::Substring => if arguments.len() != 3 {
            Outcome::Raised
        } else {
            match (arguments[0], arguments[1], arguments[2]) {
                (Value::Text(whole), Value::Integer(from), Value::Integer(to)) => if from <= to
                    <= whole.len() {
                    Outcome::Done(Value::Text(whole.subrange(from as int, to as int)), store)
                } else {
                    Outcome::Raised
                },
                _ => Outcome::Raised,
            }
        },
        _ => Outcome::Unknown,
    }
}

/// Whether a value carries the tag of a constructor.
pub open spec fn tagged_as(tag: Seq<char>, arguments: Seq<Value>, store: Store) -> Outcome {
    if arguments.len() != 1 {
        Outcome::Raised
    } else {
        match elements(arguments[0], 1) {
            Some(items) => match items[0] {
                Value::Symbol(found) => Outcome::Done(Value::Boolean(found == tag), store),
                _ => Outcome::Raised,
            },
            None => Outcome::Raised,
        }
    }
}

/// The outcome of a term in a store.
pub open spec fn eval(term: Form, store: Store) -> Outcome
    decreases term, 0nat,
{
    match term {
        Form::Word(Keyword::True) => Outcome::Done(Value::Boolean(true), store),
        Form::Word(Keyword::False) => Outcome::Done(Value::Boolean(false), store),
        Form::Word(_) => Outcome::Unknown,
        Form::Number(digits) => Outcome::Done(Value::Number(digits), store),
        Form::Index(n) => Outcome::Done(Value::Integer(n), store),
        Form::Text(value) => Outcome::Done(Value::Text(value), store),
        Form::Quote(tag) => Outcome::Done(Value::Symbol(tag), store),
        Form::Row(_) => Outcome::Unknown,
        Form::Declare(_) => Outcome::Unknown,
        Form::Predicate { .. } => Outcome::Unknown,
        Form::List(items) => {
            if items.len() == 0 {
                Outcome::Unknown
            } else {
                match items[0] {
                    Form::Word(Keyword::If) => {
                        if items.len() == 3 || items.len() == 4 {
                            match eval(items[1], store) {
                                Outcome::Done(test, after) => if truthy(test) {
                                    eval(items[2], after)
                                } else if items.len() == 4 {
                                    eval(items[3], after)
                                } else {
                                    Outcome::Done(Value::Unspecified, after)
                                },
                                other => other,
                            }
                        } else {
                            Outcome::Unknown
                        }
                    },
                    Form::Word(Keyword::And) => eval_and(items, 1, store, Value::Boolean(true)),
                    Form::Word(Keyword::Or) => eval_or(items, 1, store, Value::Boolean(false)),
                    Form::Word(Keyword::Begin) => eval_body(items, 1, store, Value::Unspecified),
                    Form::Word(Keyword::Let) => {
                        if items.len() >= 2 && items[1] is List {
                            match eval_bindings(items[1]->List_0, 0, store) {
                                Outcomes::Done(values, after) => {
                                    let names = spliced_names(items[1]->List_0);
                                    match eval_body(
                                        items,
                                        2,
                                        after.bind_all(names, values),
                                        Value::Unspecified,
                                    ) {
                                        Outcome::Done(value, last) => Outcome::Done(
                                            value,
                                            last.leave(
                                                after,
                                                names.to_set().union(declared(items, 2)),
                                            ),
                                        ),
                                        other => other,
                                    }
                                },
                                Outcomes::Raised => Outcome::Raised,
                                Outcomes::Unknown => Outcome::Unknown,
                            }
                        } else {
                            Outcome::Unknown
                        }
                    },
                    Form::Word(Keyword::Assign) => {
                        if items.len() == 3 && items[1] is Local {
                            match eval(items[2], store) {
                                Outcome::Done(value, after) => if after.variables.contains_key(
                                    items[1],
                                ) {
                                    Outcome::Done(Value::Unspecified, after.bind(items[1], value))
                                } else {
                                    Outcome::Raised
                                },
                                other => other,
                            }
                        } else {
                            Outcome::Unknown
                        }
                    },
                    Form::Word(Keyword::Cond) => match eval_cond(items, 1, store) {
                        Choice::Taken(outcome) => outcome,
                        Choice::Passed(after) => Outcome::Done(Value::Unspecified, after),
                    },
                    Form::Word(Keyword::Error) => Outcome::Raised,
                    Form::Word(Keyword::Lambda) => Outcome::Unknown,
                    Form::Word(Keyword::Define) => Outcome::Unknown,
                    Form::Word(word) => match eval_each(items, 1, store) {
                        Outcomes::Done(arguments, after) => primitive(word, arguments, after),
                        Outcomes::Raised => Outcome::Raised,
                        Outcomes::Unknown => Outcome::Unknown,
                    },
                    Form::Predicate { name, .. } => match eval_each(items, 1, store) {
                        Outcomes::Done(arguments, after) => tagged_as(name, arguments, after),
                        Outcomes::Raised => Outcome::Raised,
                        Outcomes::Unknown => Outcome::Unknown,
                    },
                    _ => Outcome::Unknown,
                }
            }
        },
        name => if store.variables.contains_key(name) {
            Outcome::Done(store.variables[name], store)
        } else {
            Outcome::Raised
        },
    }
}

/// The values of the terms from the `from`-th on, from left to right. A row
/// stands for its terms.
pub open spec fn eval_each(items: Seq<Form>, from: nat, store: Store) -> Outcomes
    decreases items, items.len() - from,
{
    if from >= items.len() {
        Outcomes::Done(Seq::empty(), store)
    } else {
        let first = match items[from as int] {
            Form::Row(inner) => eval_each(inner, 0, store),
            term => match eval(term, store) {
                Outcome::Done(value, after) => Outcomes::Done(seq![value], after),
                Outcome::Raised => Outcomes::Raised,
                Outcome::Unknown => Outcomes::Unknown,
            },
        };
        match first {
            Outcomes::Done(values, after) => match eval_each(items, from + 1, after) {
                Outcomes::Done(more, last) => Outcomes::Done(values + more, last),
                other => other,
            },
            other => other,
        }
    }
}

/// The terms from the `from`-th on, one after the other: the value is that of
/// the last, or `last` where there is none. A declaration binds its
/// variables.
pub open spec fn eval_body(items: Seq<Form>, from: nat, store: Store, last: Value) -> Outcome
    decreases items, items.len() - from,
{
    if from >= items.len() {
        Outcome::Done(last, store)
    } else {
        let first = match items[from as int] {
            Form::Row(inner) => eval_body(inner, 0, store, last),
            Form::Declare(names) => Outcome::Done(last, store.declare(names)),
            term => eval(term, store),
        };
        match first {
            Outcome::Done(value, after) => eval_body(items, from + 1, after, value),
            other => other,
        }
    }
}

/// `and` of the terms from the `from`-th on: the first value that is not
/// true, or the last value. The terms behind it are not evaluated.
pub open spec fn eval_and(items: Seq<Form>, from: nat, store: Store, last: Value) -> Outcome
    decreases items, items.len() - from,
{
    if from >= items.len() {
        Outcome::Done(last, store)
    } else {
        let first = match items[from as int] {
            Form::Row(inner) => eval_and(inner, 0, store, last),
            term => eval(term, store),
        };
        match first {
            Outcome::Done(value, after) => if truthy(value) {
                eval_and(items, from + 1, after, value)
            } else {
                Outcome::Done(value, after)
            },
            other => other,
        }
    }
}

/// `or` of the terms from the `from`-th on: the first value that is true, or
/// the last value. The terms behind it are not evaluated.
pub open spec fn eval_or(items: Seq<Form>, from: nat, store: Store, last: Value) -> Outcome
    decreases items, items.len() - from,
{
    if from >= items.len() {
        Outcome::Done(last, store)
    } else {
        let first = match items[from as int] {
            Form::Row(inner) => eval_or(inner, 0, store, last),
            term => eval(term, store),
        };
        match first {
            Outcome::Done(value, after) => if truthy(value) {
                Outcome::Done(value, after)
            } else {
                eval_or(items, from + 1, after, value)
            },
            other => other,
        }
    }
}

/// The clauses of a `cond` from the `from`-th on: the first whose test is
/// true is taken, and its body is the outcome. The tests before it are
/// evaluated, the bodies before it and everything behind it are not.
pub open spec fn eval_cond(items: Seq<Form>, from: nat, store: Store) -> Choice
    decreases items, items.len() - from,
{
    if from >= items.len() {
        Choice::Passed(store)
    } else {
        let first = match items[from as int] {
            Form::Row(inner) => eval_cond(inner, 0, store),
            Form::List(clause) => {
                if clause.len() == 0 {
                    Choice::Taken(Outcome::Unknown)
                } else if clause[0] == Form::Word(Keyword::Else) {
                    Choice::Taken(eval_body(clause, 1, store, Value::Unspecified))
                } else {
                    match eval(clause[0], store) {
                        Outcome::Done(test, after) => if truthy(test) {
                            Choice::Taken(eval_body(clause, 1, after, test))
                        } else {
                            Choice::Passed(after)
                        },
                        other => Choice::Taken(other),
                    }
                }
            },
            _ => Choice::Taken(Outcome::Unknown),
        };
        match first {
            Choice::Passed(after) => eval_cond(items, from + 1, after),
            taken => taken,
        }
    }
}

/// The names that the bindings of a `let` bind, in their order.
pub open spec fn spliced_names(bindings: Seq<Form>) -> Seq<Form> {
    spliced(bindings).map_values(
        |binding: Form|
            match binding {
                Form::List(pair) => if pair.len() == 2 {
                    pair[0]
                } else {
                    Form::Row(Seq::empty())
                },
                _ => Form::Row(Seq::empty()),
            },
    )
}

/// The values of the bindings of a `let` from the `from`-th on, from left to
/// right. No binding sees another.
pub open spec fn eval_bindings(bindings: Seq<Form>, from: nat, store: Store) -> Outcomes
    decreases bindings, bindings.len() - from,
{
    if from >= bindings.len() {
        Outcomes::Done(Seq::empty(), store)
    } else {
        let first = match bindings[from as int] {
            Form::Row(inner) => eval_bindings(inner, 0, store),
            Form::List(pair) => {
                if pair.len() == 2 && variable(pair[0]) {
                    match eval(pair[1], store) {
                        Outcome::Done(value, after) => Outcomes::Done(seq![value], after),
                        Outcome::Raised => Outcomes::Raised,
                        Outcome::Unknown => Outcomes::Unknown,
                    }
                } else {
                    Outcomes::Unknown
                }
            },
            _ => Outcomes::Unknown,
        };
        match first {
            Outcomes::Done(values, after) => match eval_bindings(bindings, from + 1, after) {
                Outcomes::Done(more, last) => Outcomes::Done(values + more, last),
                other => other,
            },
            other => other,
        }
    }
}

/// The outcome of a function applied to arguments, where the function is
/// written out: `(lambda (parameters) body)`.
pub open spec fn apply(function: Form, arguments: Seq<Value>, store: Store) -> Outcome {
    match function {
        Form::List(items) => {
            if items.len() >= 2 && items[0] == Form::Word(Keyword::Lambda) && items[1] is List {
                let parameters = spliced(items[1]->List_0);
                if parameters.len() == arguments.len() && forall|i: int|
                    0 <= i < parameters.len() ==> variable(#[trigger] parameters[i]) {
                    match eval_body(
                        items,
                        2,
                        store.bind_all(parameters, arguments),
                        Value::Unspecified,
                    ) {
                        Outcome::Done(value, last) => Outcome::Done(
                            value,
                            last.leave(store, parameters.to_set().union(declared(items, 2))),
                        ),
                        other => other,
                    }
                } else {
                    Outcome::Raised
                }
            } else {
                Outcome::Unknown
            }
        },
        _ => Outcome::Unknown,
    }
}

} // verus!
