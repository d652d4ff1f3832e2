//! What it means for a value to match a pattern, and the proof that the test
//! generated for a pattern decides it and binds the pattern's variables.

use crate::ast::{AssignName, Pattern};
use crate::lowering::{
    assign, element_forms, element_forms_are, element_start, elements_in, field, field_forms,
    field_forms_are, list_pattern_form, pattern_form, pattern_is_single, pattern_temporaries,
    pattern_variables, patterns_temporaries, patterns_variables, single,
};
use crate::meaning::{
    eval, eval_and, eval_body, eval_each, local_among, Outcome, Outcomes, same, Store, Value,
};
use crate::sexp::{binary, binding, empty_list, Form, Keyword, ternary, unary};
use crate::steps::{
    each_of_one, eval_assign, eval_begin, eval_binary, eval_binding, eval_if, eval_ternary,
    eval_unary, kept,
};
use crate::text::ungrouped;
use vstd::prelude::*;

verus! {

/// The string begins with the prefix.
pub open spec fn begins(whole: Seq<char>, prefix: Seq<char>) -> bool {
    prefix.is_prefix_of(whole)
}

/// The store with the prefix and the rest of a string in the variables that
/// a prefix pattern names.
pub open spec fn prefix_bound(
    store: Store,
    prefix: Seq<char>,
    left: Option<String>,
    right: AssignName,
    whole: Seq<char>,
) -> Store {
    let first = match left {
        Some(name) => store.bind(Form::Local(name@), Value::Text(prefix)),
        None => store,
    };
    match right {
        AssignName::Variable(name) => first.bind(
            Form::Local(name@),
            Value::Text(whole.skip(prefix.len() as int)),
        ),
        AssignName::Discard(_) => first,
    }
}

/// The fields of a tagged value, where the value is one and the store holds
/// its field container.
pub open spec fn fields_of(value: Value, vectors: Seq<Seq<Value>>) -> Option<Seq<Value>> {
    match value {
        Value::List(parts) => if parts.len() >= 2 && parts[0] is Symbol {
            contents_of(parts[1], vectors)
        } else {
            None
        },
        _ => None,
    }
}

/// What a field container holds, where the value is one that the store
/// holds.
pub open spec fn contents_of(value: Value, vectors: Seq<Seq<Value>>) -> Option<Seq<Value>> {
    match value {
        Value::Vector(place) => if place < vectors.len() {
            Some(vectors[place as int])
        } else {
            None
        },
        _ => None,
    }
}

/// The tag of a tagged value.
pub open spec fn tag_of(value: Value) -> Seq<char> {
    match value {
        Value::List(parts) => match parts[0] {
            Value::Symbol(tag) => tag,
            _ => Seq::empty(),
        },
        _ => Seq::empty(),
    }
}

/// The value has the shape that the type of the pattern demands: a list
/// pattern stands against a list, a constructor pattern against a tagged
/// value with as many fields as the pattern has, where the tag is the
/// pattern's, a tuple pattern against a field container with as many
/// places, and a prefix pattern against a string.
pub open spec fn shaped(pattern: Pattern, value: Value, vectors: Seq<Seq<Value>>) -> bool
    decreases pattern, elements_in(pattern) + 1,
{
    match pattern {
        Pattern::Assign { pattern, .. } => shaped(*pattern, value, vectors),
        Pattern::List { .. } => value is List && list_shaped(
            pattern,
            0,
            value->List_0,
            vectors,
        ),
        Pattern::Constructor { constructor, arguments, .. } => fields_of(value, vectors) is Some
            && (tag_of(value) == constructor.name@ ==> arguments.len() <= fields_of(
            value,
            vectors,
        )->0.len() && all_shaped(arguments@, 0, fields_of(value, vectors)->0, vectors)),
        Pattern::Tuple { elems, .. } => contents_of(value, vectors) is Some && elems.len()
            <= contents_of(value, vectors)->0.len() && all_shaped(
            elems@,
            0,
            contents_of(value, vectors)->0,
            vectors,
        ),
        Pattern::StringPrefix { .. } => value is Text,
        _ => true,
    }
}

/// As `shaped`, of the elements of a list pattern from the `from`-th on
/// against a list.
pub open spec fn list_shaped(
    pattern: Pattern,
    from: nat,
    values: Seq<Value>,
    vectors: Seq<Seq<Value>>,
) -> bool
    decreases pattern, elements_in(pattern) - from,
{
    match pattern {
        Pattern::List { elements, tail, .. } => {
            if from >= elements.len() {
                match tail {
                    Some(tail) => shaped(*tail, Value::List(values), vectors),
                    None => true,
                }
            } else {
                values.len() > 0 ==> shaped(elements[from as int], values[0], vectors)
                    && list_shaped(pattern, from + 1, values.drop_first(), vectors)
            }
        },
        _ => true,
    }
}

/// As `shaped`, of the patterns from the `from`-th on, each against the value
/// at its position.
pub open spec fn all_shaped(
    patterns: Seq<Pattern>,
    from: nat,
    values: Seq<Value>,
    vectors: Seq<Seq<Value>>,
) -> bool
    decreases patterns, patterns.len() - from,
{
    if from >= patterns.len() {
        true
    } else {
        shaped(patterns[from as int], values[from as int], vectors) && all_shaped(
            patterns,
            from + 1,
            values,
            vectors,
        )
    }
}

/// Whether a value matches a pattern.
pub open spec fn meets(pattern: Pattern, value: Value, vectors: Seq<Seq<Value>>) -> bool
    decreases pattern, elements_in(pattern) + 1,
{
    match pattern {
        Pattern::Int { value: literal, .. } => value == Value::Number(ungrouped(literal@)),
        Pattern::Float { value: literal, .. } => value == Value::Number(literal@),
        Pattern::String { value: literal, .. } => value == Value::Text(literal@),
        Pattern::Variable { .. } => true,
        Pattern::Assign { pattern, .. } => meets(*pattern, value, vectors),
        Pattern::Discard { .. } => true,
        Pattern::List { .. } => list_meets(pattern, 0, value->List_0, vectors),
        Pattern::Constructor { constructor, arguments, .. } => tag_of(value) == constructor.name@
            && all_meet(arguments@, 0, fields_of(value, vectors)->0, vectors),
        Pattern::Tuple { elems, .. } => all_meet(
            elems@,
            0,
            contents_of(value, vectors)->0,
            vectors,
        ),
        Pattern::StringPrefix { left_side_string, .. } => value matches Value::Text(whole)
            && begins(whole, left_side_string@),
    }
}

/// Whether a list matches the elements of a list pattern from the `from`-th
/// on, and its tail.
pub open spec fn list_meets(
    pattern: Pattern,
    from: nat,
    values: Seq<Value>,
    vectors: Seq<Seq<Value>>,
) -> bool
    decreases pattern, elements_in(pattern) - from,
{
    match pattern {
        Pattern::List { elements, tail, .. } => {
            if from >= elements.len() {
                match tail {
                    Some(tail) => meets(*tail, Value::List(values), vectors),
                    None => values.len() == 0,
                }
            } else {
                values.len() > 0 && meets(elements[from as int], values[0], vectors)
                    && list_meets(pattern, from + 1, values.drop_first(), vectors)
            }
        },
        _ => false,
    }
}

/// Whether each value from the `from`-th on matches the pattern at its
/// position.
pub open spec fn all_meet(
    patterns: Seq<Pattern>,
    from: nat,
    values: Seq<Value>,
    vectors: Seq<Seq<Value>>,
) -> bool
    decreases patterns, patterns.len() - from,
{
    if from >= patterns.len() {
        true
    } else {
        meets(patterns[from as int], values[from as int], vectors) && all_meet(
            patterns,
            from + 1,
            values,
            vectors,
        )
    }
}

/// The store after a value has matched a pattern: each variable of the
/// pattern holds the part of the value that met it.
pub open spec fn assigned(store: Store, pattern: Pattern, value: Value) -> Store
    decreases pattern, elements_in(pattern) + 1,
{
    match pattern {
        Pattern::Variable { name, .. } => store.bind(Form::Local(name@), value),
        Pattern::Assign { name, pattern, .. } => assigned(
            store.bind(Form::Local(name@), value),
            *pattern,
            value,
        ),
        Pattern::List { .. } => list_assigned(store, pattern, 0, value->List_0),
        Pattern::Constructor { arguments, .. } => all_assigned(
            store,
            arguments@,
            0,
            fields_of(value, store.vectors)->0,
        ),
        Pattern::Tuple { elems, .. } => all_assigned(
            store,
            elems@,
            0,
            contents_of(value, store.vectors)->0,
        ),
        Pattern::StringPrefix {
            left_side_string,
            left_side_assignment,
            right_side_assignment,
            ..
        } => prefix_bound(
            store,
            left_side_string@,
            left_side_assignment,
            right_side_assignment,
            value->Text_0,
        ),
        _ => store,
    }
}

/// As `assigned`, of the elements of a list pattern from the `from`-th on,
/// and of its tail.
pub open spec fn list_assigned(
    store: Store,
    pattern: Pattern,
    from: nat,
    values: Seq<Value>,
) -> Store
    decreases pattern, elements_in(pattern) - from,
{
    match pattern {
        Pattern::List { elements, tail, .. } => {
            if from >= elements.len() {
                match tail {
                    Some(tail) => assigned(store, *tail, Value::List(values)),
                    None => store,
                }
            } else {
                list_assigned(
                    assigned(store, elements[from as int], values[0]),
                    pattern,
                    from + 1,
                    values.drop_first(),
                )
            }
        },
        _ => store,
    }
}

/// As `assigned`, of the patterns from the `from`-th on, each with the value
/// at its position.
pub open spec fn all_assigned(
    store: Store,
    patterns: Seq<Pattern>,
    from: nat,
    values: Seq<Value>,
) -> Store
    decreases patterns, patterns.len() - from,
{
    if from >= patterns.len() {
        store
    } else {
        all_assigned(
            assigned(store, patterns[from as int], values[from as int]),
            patterns,
            from + 1,
            values,
        )
    }
}


// Stores that differ in few variables

/// A variable that the test of a pattern may change while it runs: a local
/// variable of the source program, or a temporary numbered above `start`.
pub open spec fn free(key: Form, start: nat) -> bool {
    match key {
        Form::Local(_) => true,
        Form::Temporary(n) => n > start,
        _ => false,
    }
}

/// The second store holds the field containers of the first, and every
/// variable as the first does but those that are free.
pub open spec fn like(before: Store, after: Store, start: nat) -> bool {
    &&& after.vectors == before.vectors
    &&& forall|key: Form| !free(key, start) ==> #[trigger] kept(before, after, key)
}

/// The subject stands for the value: it evaluates to the value, and changes
/// nothing, in the store and in every store like it.
pub open spec fn denotes(subject: Form, value: Value, store: Store, start: nat) -> bool {
    &&& single(subject)
    &&& forall|other: Store| #[trigger]
        like(store, other, start) ==> eval(subject, other) == Outcome::Done(value, other)
}

/// The second store holds the field containers of the first and every
/// variable that the first holds; it holds every variable as the first
/// does but the local variables of the names.
pub open spec fn changes_only(before: Store, after: Store, names: Set<Seq<char>>) -> bool {
    &&& after.vectors == before.vectors
    &&& forall|key: Form| !local_among(key, names) ==> #[trigger] kept(before, after, key)
    &&& forall|key: Form|
        before.variables.contains_key(key) ==> #[trigger] after.variables.contains_key(key)
}

/// The store holds the local variables of the names.
pub open spec fn declares(store: Store, names: Set<Seq<char>>) -> bool {
    forall|name: Seq<char>|
        names.contains(name) ==> #[trigger] store.variables.contains_key(Form::Local(name))
}

/// A store is like itself.
pub proof fn like_itself(store: Store, start: nat)
    ensures
        like(store, store, start),
        changes_only(store, store, Set::empty()),
{
    assert forall|key: Form| !free(key, start) implies #[trigger] kept(store, store, key) by {}
    assert forall|key: Form| !local_among(key, Set::<Seq<char>>::empty()) implies #[trigger] kept(
        store,
        store,
        key,
    ) by {}
}

/// What changes only local variables leaves a store that is like the first.
pub proof fn like_after_changes(before: Store, after: Store, names: Set<Seq<char>>, start: nat)
    requires
        changes_only(before, after, names),
    ensures
        like(before, after, start),
{
    assert forall|key: Form| !free(key, start) implies #[trigger] kept(before, after, key) by {
        assert(!local_among(key, names));
    }
}

/// What is like a store that is like the first is like the first.
pub proof fn like_then(first: Store, middle: Store, last: Store, start: nat, later: nat)
    requires
        like(first, middle, start),
        like(middle, last, later),
        start <= later,
    ensures
        like(first, last, start),
{
    assert forall|key: Form| !free(key, start) implies #[trigger] kept(first, last, key) by {
        assert(!free(key, later));
        assert(kept(first, middle, key));
        assert(kept(middle, last, key));
    }
}

/// A subject stands for its value in every store like its own, and while
/// more temporaries are made.
pub proof fn denotes_later(
    subject: Form,
    value: Value,
    store: Store,
    start: nat,
    other: Store,
    later: nat,
)
    requires
        denotes(subject, value, store, start),
        like(store, other, start),
        start <= later,
    ensures
        denotes(subject, value, other, later),
{
    assert forall|last: Store| #[trigger] like(other, last, later) implies eval(subject, last)
        == Outcome::Done(value, last) by {
        like_then(store, other, last, start, later);
    }
}

/// A temporary stands for the value that it is bound to.
pub proof fn denotes_temporary(store: Store, n: nat, value: Value, start: nat)
    requires
        n <= start,
    ensures
        denotes(Form::Temporary(n), value, store.bind(Form::Temporary(n), value), start),
{
    let bound = store.bind(Form::Temporary(n), value);
    assert forall|other: Store| #[trigger] like(bound, other, start) implies eval(
        Form::Temporary(n),
        other,
    ) == Outcome::Done(value, other) by {
        assert(kept(bound, other, Form::Temporary(n)));
    }
}

/// A subject of a case expression stands for the value that it is bound
/// to.
pub proof fn denotes_subject(store: Store, n: nat, start: nat)
    requires
        store.variables.contains_key(Form::Subject(n)),
    ensures
        denotes(Form::Subject(n), store.variables[Form::Subject(n)], store, start),
{
    assert forall|other: Store| #[trigger] like(store, other, start) implies eval(
        Form::Subject(n),
        other,
    ) == Outcome::Done(store.variables[Form::Subject(n)], other) by {
        assert(kept(store, other, Form::Subject(n)));
    }
}

/// The projection of a field stands for the field, where the subject
/// stands for a tagged value.
pub proof fn denotes_field(
    subject: Form,
    value: Value,
    store: Store,
    start: nat,
    i: nat,
)
    requires
        denotes(subject, value, store, start),
        fields_of(value, store.vectors) is Some,
        i < fields_of(value, store.vectors)->0.len(),
    ensures
        denotes(field(subject, i), fields_of(value, store.vectors)->0[i as int], store, start),
{
    let part = fields_of(value, store.vectors)->0[i as int];
    assert forall|other: Store| #[trigger] like(store, other, start) implies eval(
        field(subject, i),
        other,
    ) == Outcome::Done(part, other) by {
        eval_unary(Keyword::Cadr, subject, other);
        eval_binary(Keyword::VectorRef, unary(Keyword::Cadr, subject), Form::Index(i), other);
    }
}

/// What changes only some local variables changes only those of a larger
/// set.
pub proof fn changes_fewer(before: Store, after: Store, names: Set<Seq<char>>, more: Set<Seq<char>>)
    requires
        changes_only(before, after, names),
        names.subset_of(more),
    ensures
        changes_only(before, after, more),
{
    assert forall|key: Form| !local_among(key, more) implies #[trigger] kept(
        before,
        after,
        key,
    ) by {
        assert(!local_among(key, names));
    }
}

/// Two changes in a row.
pub proof fn changes_then(first: Store, middle: Store, last: Store, names: Set<Seq<char>>)
    requires
        changes_only(first, middle, names),
        changes_only(middle, last, names),
    ensures
        changes_only(first, last, names),
{
    assert forall|key: Form| !local_among(key, names) implies #[trigger] kept(first, last, key) by {
        assert(kept(first, middle, key));
        assert(kept(middle, last, key));
    }
    assert forall|key: Form|
        first.variables.contains_key(key) implies #[trigger] last.variables.contains_key(
        key,
    ) by {
        assert(middle.variables.contains_key(key));
    }
}

/// A local variable that is bound changes only itself.
pub proof fn changes_one(store: Store, name: Seq<char>, value: Value, names: Set<Seq<char>>)
    requires
        names.contains(name),
    ensures
        changes_only(store, store.bind(Form::Local(name), value), names),
{
    let after = store.bind(Form::Local(name), value);
    assert forall|key: Form| !local_among(key, names) implies #[trigger] kept(
        store,
        after,
        key,
    ) by {
        assert(key != Form::Local(name));
    }
}

/// The variables that are declared stay declared.
pub proof fn declared_still(
    before: Store,
    after: Store,
    changed: Set<Seq<char>>,
    names: Set<Seq<char>>,
)
    requires
        changes_only(before, after, changed),
        declares(before, names),
    ensures
        declares(after, names),
{
    assert forall|name: Seq<char>|
        names.contains(name) implies #[trigger] after.variables.contains_key(
        Form::Local(name),
    ) by {
        assert(before.variables.contains_key(Form::Local(name)));
    }
}

/// A scope that bound a temporary, and whose body changed only local
/// variables, has changed only those when it is left.
pub proof fn changes_in_scope(
    outside: Store,
    temporary: Form,
    held: Value,
    inside: Store,
    names: Set<Seq<char>>,
)
    requires
        temporary is Temporary,
        changes_only(outside.bind(temporary, held), inside, names),
    ensures
        changes_only(outside, inside.leave(outside, set![temporary]), names),
{
    let bound = outside.bind(temporary, held);
    let after = inside.leave(outside, set![temporary]);
    assert forall|key: Form| !local_among(key, names) implies #[trigger] kept(
        outside,
        after,
        key,
    ) by {
        if key != temporary {
            assert(kept(bound, inside, key));
        }
    }
    assert forall|key: Form|
        outside.variables.contains_key(key) implies #[trigger] after.variables.contains_key(
        key,
    ) by {
        if key != temporary {
            assert(bound.variables.contains_key(key));
            assert(inside.variables.contains_key(key));
        }
    }
}


// What `assigned` does to a store

/// The variables of each of the first `n` patterns are among those of them
/// all.
pub proof fn variables_of_each(patterns: Seq<Pattern>, n: nat, i: int)
    requires
        0 <= i < n <= patterns.len(),
    ensures
        pattern_variables(patterns[i]).subset_of(patterns_variables(patterns, n)),
    decreases n,
{
    if i < n - 1 {
        variables_of_each(patterns, (n - 1) as nat, i);
    }
}

/// Each pattern of the sequence binds only variables of the names.
pub open spec fn within(patterns: Seq<Pattern>, names: Set<Seq<char>>) -> bool {
    forall|i: int|
        0 <= i < patterns.len() ==> (#[trigger] pattern_variables(patterns[i])).subset_of(names)
}

/// The elements and the tail of a list pattern bind only variables of the
/// names.
pub open spec fn list_within(pattern: Pattern, names: Set<Seq<char>>) -> bool {
    match pattern {
        Pattern::List { elements, tail, .. } => within(elements@, names) && (match tail {
            Some(tail) => pattern_variables(*tail).subset_of(names),
            None => true,
        }),
        _ => true,
    }
}

/// The parts of a pattern bind only variables of the pattern.
pub proof fn parts_within(pattern: Pattern, names: Set<Seq<char>>)
    requires
        pattern_variables(pattern).subset_of(names),
    ensures
        list_within(pattern, names),
        pattern matches Pattern::Constructor { arguments, .. } ==> within(arguments@, names),
        pattern matches Pattern::Tuple { elems, .. } ==> within(elems@, names),
        pattern matches Pattern::Assign { pattern: inner, name, .. } ==> pattern_variables(
            *inner,
        ).subset_of(names) && names.contains(name@),
        pattern matches Pattern::Variable { name, .. } ==> names.contains(name@),
{
    match pattern {
        Pattern::List { elements, tail, .. } => {
            assert forall|i: int| 0 <= i < elements.len() implies (#[trigger] pattern_variables(
                elements[i],
            )).subset_of(names) by {
                variables_of_each(elements@, elements.len() as nat, i);
            }
        },
        Pattern::Constructor { arguments, .. } => {
            assert forall|i: int| 0 <= i < arguments.len() implies (#[trigger] pattern_variables(
                arguments[i],
            )).subset_of(names) by {
                variables_of_each(arguments@, arguments.len() as nat, i);
            }
        },
        Pattern::Tuple { elems, .. } => {
            assert forall|i: int| 0 <= i < elems.len() implies (#[trigger] pattern_variables(
                elems[i],
            )).subset_of(names) by {
                variables_of_each(elems@, elems.len() as nat, i);
            }
        },
        Pattern::Assign { pattern: inner, name, .. } => {
            assert(pattern_variables(pattern).contains(name@));
        },
        Pattern::Variable { name, .. } => {
            assert(pattern_variables(pattern).contains(name@));
        },
        _ => {},
    }
}

/// A match changes only local variables of the pattern.
pub proof fn assigned_changes(store: Store, pattern: Pattern, value: Value, names: Set<Seq<char>>)
    requires
        pattern_variables(pattern).subset_of(names),
    ensures
        changes_only(store, assigned(store, pattern, value), names),
    decreases pattern, elements_in(pattern) + 1,
{
    like_itself(store, 0);
    changes_fewer(store, store, Set::empty(), names);
    parts_within(pattern, names);
    match pattern {
        Pattern::Variable { name, .. } => {
            changes_one(store, name@, value, names);
        },
        Pattern::Assign { name, pattern: inner, .. } => {
            let bound = store.bind(Form::Local(name@), value);
            changes_one(store, name@, value, names);
            assigned_changes(bound, *inner, value, names);
            changes_then(store, bound, assigned(bound, *inner, value), names);
        },
        Pattern::List { .. } => {
            list_assigned_changes(store, pattern, 0, value->List_0, names);
        },
        Pattern::Constructor { arguments, .. } => {
            all_assigned_changes(
                store,
                arguments@,
                0,
                fields_of(value, store.vectors)->0,
                names,
            );
        },
        Pattern::Tuple { elems, .. } => {
            all_assigned_changes(store, elems@, 0, contents_of(value, store.vectors)->0, names);
        },
        Pattern::StringPrefix {
            left_side_string,
            left_side_assignment,
            right_side_assignment,
            ..
        } => {
            let prefix = Value::Text(left_side_string@);
            let middle = match left_side_assignment {
                Some(name) => store.bind(Form::Local(name@), prefix),
                None => store,
            };
            match left_side_assignment {
                Some(name) => {
                    assert(pattern_variables(pattern).contains(name@));
                    changes_one(store, name@, prefix, names);
                },
                None => {},
            }
            match right_side_assignment {
                AssignName::Variable(name) => {
                    assert(pattern_variables(pattern).contains(name@));
                    let rest = Value::Text(value->Text_0.skip(left_side_string@.len() as int));
                    changes_one(middle, name@, rest, names);
                    changes_then(store, middle, middle.bind(Form::Local(name@), rest), names);
                },
                AssignName::Discard(_) => {},
            }
        },
        _ => {},
    }
}

/// As `assigned_changes`, of a list pattern from its `from`-th element on.
pub proof fn list_assigned_changes(
    store: Store,
    pattern: Pattern,
    from: nat,
    values: Seq<Value>,
    names: Set<Seq<char>>,
)
    requires
        list_within(pattern, names),
    ensures
        changes_only(store, list_assigned(store, pattern, from, values), names),
    decreases pattern, elements_in(pattern) - from,
{
    like_itself(store, 0);
    changes_fewer(store, store, Set::empty(), names);
    match pattern {
        Pattern::List { elements, tail, .. } => {
            if from >= elements.len() {
                match tail {
                    Some(tail) => {
                        assigned_changes(store, *tail, Value::List(values), names);
                    },
                    None => {},
                }
            } else {
                let element = elements[from as int];
                assert(pattern_variables(element).subset_of(names));
                assigned_changes(store, element, values[0], names);
                let next = assigned(store, element, values[0]);
                list_assigned_changes(next, pattern, from + 1, values.drop_first(), names);
                changes_then(
                    store,
                    next,
                    list_assigned(next, pattern, from + 1, values.drop_first()),
                    names,
                );
            }
        },
        _ => {},
    }
}

/// As `assigned_changes`, of the patterns of a sequence from the `from`-th
/// on.
pub proof fn all_assigned_changes(
    store: Store,
    patterns: Seq<Pattern>,
    from: nat,
    values: Seq<Value>,
    names: Set<Seq<char>>,
)
    requires
        within(patterns, names),
    ensures
        changes_only(store, all_assigned(store, patterns, from, values), names),
    decreases patterns, patterns.len() - from,
{
    like_itself(store, 0);
    changes_fewer(store, store, Set::empty(), names);
    if from < patterns.len() {
        let pattern = patterns[from as int];
        assert(pattern_variables(pattern).subset_of(names));
        assigned_changes(store, pattern, values[from as int], names);
        let next = assigned(store, pattern, values[from as int]);
        all_assigned_changes(next, patterns, from + 1, values, names);
        changes_then(store, next, all_assigned(next, patterns, from + 1, values), names);
    }
}

/// What a match binds does not depend on a temporary: to bind the temporary
/// first or last comes to the same.
pub proof fn assigned_commutes(
    store: Store,
    temporary: Form,
    held: Value,
    pattern: Pattern,
    value: Value,
)
    requires
        temporary is Temporary,
    ensures
        assigned(store.bind(temporary, held), pattern, value) == assigned(
            store,
            pattern,
            value,
        ).bind(temporary, held),
    decreases pattern, elements_in(pattern) + 1,
{
    let bound = store.bind(temporary, held);
    match pattern {
        Pattern::Variable { name, .. } => {
            assert(bound.bind(Form::Local(name@), value).variables =~= store.bind(
                Form::Local(name@),
                value,
            ).bind(temporary, held).variables);
        },
        Pattern::Assign { name, pattern: inner, .. } => {
            let first = store.bind(Form::Local(name@), value);
            assert(bound.bind(Form::Local(name@), value).variables =~= first.bind(
                temporary,
                held,
            ).variables);
            assert(bound.bind(Form::Local(name@), value) == first.bind(temporary, held));
            assigned_commutes(first, temporary, held, *inner, value);
        },
        Pattern::List { .. } => {
            list_assigned_commutes(store, temporary, held, pattern, 0, value->List_0);
        },
        Pattern::Constructor { arguments, .. } => {
            all_assigned_commutes(
                store,
                temporary,
                held,
                arguments@,
                0,
                fields_of(value, store.vectors)->0,
            );
        },
        Pattern::Tuple { elems, .. } => {
            all_assigned_commutes(
                store,
                temporary,
                held,
                elems@,
                0,
                contents_of(value, store.vectors)->0,
            );
        },
        Pattern::StringPrefix { .. } => {
            assert(assigned(bound, pattern, value).variables =~= assigned(
                store,
                pattern,
                value,
            ).bind(temporary, held).variables);
        },
        _ => {},
    }
}

/// As `assigned_commutes`, of a list pattern from its `from`-th element on.
pub proof fn list_assigned_commutes(
    store: Store,
    temporary: Form,
    held: Value,
    pattern: Pattern,
    from: nat,
    values: Seq<Value>,
)
    requires
        temporary is Temporary,
    ensures
        list_assigned(store.bind(temporary, held), pattern, from, values) == list_assigned(
            store,
            pattern,
            from,
            values,
        ).bind(temporary, held),
    decreases pattern, elements_in(pattern) - from,
{
    match pattern {
        Pattern::List { elements, tail, .. } => {
            if from >= elements.len() {
                match tail {
                    Some(tail) => {
                        assigned_commutes(store, temporary, held, *tail, Value::List(values));
                    },
                    None => {},
                }
            } else {
                let element = elements[from as int];
                assigned_commutes(store, temporary, held, element, values[0]);
                list_assigned_commutes(
                    assigned(store, element, values[0]),
                    temporary,
                    held,
                    pattern,
                    from + 1,
                    values.drop_first(),
                );
            }
        },
        _ => {},
    }
}

/// As `assigned_commutes`, of the patterns of a sequence from the `from`-th
/// on.
pub proof fn all_assigned_commutes(
    store: Store,
    temporary: Form,
    held: Value,
    patterns: Seq<Pattern>,
    from: nat,
    values: Seq<Value>,
)
    requires
        temporary is Temporary,
    ensures
        all_assigned(store.bind(temporary, held), patterns, from, values) == all_assigned(
            store,
            patterns,
            from,
            values,
        ).bind(temporary, held),
    decreases patterns, patterns.len() - from,
{
    if from < patterns.len() {
        let pattern = patterns[from as int];
        assigned_commutes(store, temporary, held, pattern, values[from as int]);
        all_assigned_commutes(
            assigned(store, pattern, values[from as int]),
            temporary,
            held,
            patterns,
            from + 1,
            values,
        );
    }
}

// The test of a pattern

/// What the test of a pattern leaves: it ends, it says whether the value
/// matches, the store is `bound` where it does, and only local variables of
/// the names have changed either way.
pub open spec fn decided(
    outcome: Outcome,
    store: Store,
    matched: bool,
    bound: Store,
    names: Set<Seq<char>>,
) -> bool {
    match outcome {
        Outcome::Done(answer, after) => {
            &&& answer == Value::Boolean(matched)
            &&& matched ==> after == bound
            &&& changes_only(store, after, names)
        },
        _ => false,
    }
}

/// A subject evaluates to the value that it stands for.
pub proof fn reads(subject: Form, value: Value, store: Store, start: nat)
    requires
        denotes(subject, value, store, start),
    ensures
        eval(subject, store) == Outcome::Done(value, store),
        changes_only(store, store, Set::empty()),
{
    like_itself(store, start);
}

/// `equal?` tells a number or a string from every other value.
pub proof fn same_atom(value: Value, atom: Value)
    requires
        atom is Number || atom is Text,
    ensures
        same(value, atom) == Some(value == atom),
        same(atom, value) == Some(value == atom),
{
}

/// `equal?` with the empty list says whether a list is empty.
pub proof fn same_empty(values: Seq<Value>)
    ensures
        same(Value::List(values), Value::List(Seq::empty())) == Some(values.len() == 0),
{
    if values.len() == 0 {
        assert(values =~= Seq::<Value>::empty());
    }
}

/// The test against a literal.
pub proof fn literal_decides(
    subject: Form,
    literal: Form,
    atom: Value,
    start: nat,
    store: Store,
    value: Value,
    names: Set<Seq<char>>,
)
    requires
        denotes(subject, value, store, start),
        (literal matches Form::Number(digits) && atom == Value::Number(digits)) || (
        literal matches Form::Text(text) && atom == Value::Text(text)),
    ensures
        decided(
            eval(binary(Keyword::Equal, subject, literal), store),
            store,
            value == atom,
            store,
            names,
        ),
{
    reads(subject, value, store, start);
    changes_fewer(store, store, Set::empty(), names);
    eval_binary(Keyword::Equal, subject, literal, store);
    same_atom(value, atom);
}

/// The test that binds a variable, and what follows it.
pub proof fn binding_decides(
    subject: Form,
    name: Seq<char>,
    next: Form,
    start: nat,
    store: Store,
    value: Value,
    names: Set<Seq<char>>,
)
    requires
        denotes(subject, value, store, start),
        names.contains(name),
        declares(store, names),
        single(next),
    ensures
        eval(binary(Keyword::Begin, assign(name, subject), next), store) == eval(
            next,
            store.bind(Form::Local(name), value),
        ),
        changes_only(store, store.bind(Form::Local(name), value), names),
        denotes(subject, value, store.bind(Form::Local(name), value), start),
        declares(store.bind(Form::Local(name), value), names),
{
    let bound = store.bind(Form::Local(name), value);
    reads(subject, value, store, start);
    assert(store.variables.contains_key(Form::Local(name)));
    eval_assign(Form::Local(name), subject, store);
    eval_begin(assign(name, subject), next, store);
    changes_one(store, name, value, names);
    like_after_changes(store, bound, names, start);
    denotes_later(subject, value, store, start, bound, start);
    declared_still(store, bound, names, names);
}

/// The test of a subject against a pattern decides whether the value of
/// the subject matches the pattern. Where it does, each variable of the
/// pattern holds the part of the value that met it; where it does not, some
/// of them may. Nothing else changes, and nothing is raised.
pub proof fn test_decides(
    subject: Form,
    pattern: Pattern,
    start: nat,
    store: Store,
    value: Value,
    names: Set<Seq<char>>,
)
    requires
        denotes(subject, value, store, start),
        shaped(pattern, value, store.vectors),
        pattern_variables(pattern).subset_of(names),
        declares(store, names),
    ensures
        decided(
            eval(pattern_form(subject, pattern, start), store),
            store,
            meets(pattern, value, store.vectors),
            assigned(store, pattern, value),
            names,
        ),
    decreases pattern, elements_in(pattern) + 1,
{
    reads(subject, value, store, start);
    changes_fewer(store, store, Set::empty(), names);
    parts_within(pattern, names);
    match pattern {
        Pattern::Int { value: literal, .. } => {
            literal_decides(
                subject,
                Form::Number(ungrouped(literal@)),
                Value::Number(ungrouped(literal@)),
                start,
                store,
                value,
                names,
            );
        },
        Pattern::Float { value: literal, .. } => {
            literal_decides(
                subject,
                Form::Number(literal@),
                Value::Number(literal@),
                start,
                store,
                value,
                names,
            );
        },
        Pattern::String { value: literal, .. } => {
            literal_decides(
                subject,
                Form::Text(literal@),
                Value::Text(literal@),
                start,
                store,
                value,
                names,
            );
        },
        Pattern::Variable { name, .. } => {
            binding_decides(
                subject,
                name@,
                Form::Word(Keyword::True),
                start,
                store,
                value,
                names,
            );
        },
        Pattern::Assign { name, pattern: inner, .. } => {
            let next = pattern_form(subject, *inner, start);
            pattern_is_single(subject, *inner, start);
            binding_decides(subject, name@, next, start, store, value, names);
            let bound = store.bind(Form::Local(name@), value);
            test_decides(subject, *inner, start, bound, value, names);
            match eval(next, bound) {
                Outcome::Done(_, after) => {
                    changes_then(store, bound, after, names);
                },
                _ => {},
            }
        },
        Pattern::Discard { .. } => {},
        Pattern::List { .. } => {
            list_decides(subject, pattern, 0, start, store, value->List_0, names);
        },
        Pattern::Constructor { constructor, arguments, .. } => {
            let check = Form::List(
                seq![
                    Form::Predicate { module: constructor.module@, name: constructor.name@ },
                    subject,
                ],
            );
            let tests = field_forms(subject, arguments@, arguments.len() as nat, start);
            let items = seq![Form::Word(Keyword::And), check, Form::Row(tests)];
            assert(pattern_form(subject, pattern, start) == Form::List(items));
            let fields = fields_of(value, store.vectors)->0;
            let same_tag = tag_of(value) == constructor.name@;
            each_of_one(check->List_0, store);
            assert(eval(check, store) == Outcome::Done(Value::Boolean(same_tag), store));
            if same_tag {
                fields_decide(
                    subject,
                    arguments@,
                    0,
                    start,
                    store,
                    value,
                    fields,
                    names,
                );
                match eval_and(tests, 0, store, Value::Boolean(true)) {
                    Outcome::Done(answer, after) => {
                        assert(eval_and(items, 3, after, answer) == Outcome::Done(answer, after));
                        assert(eval_and(items, 2, store, Value::Boolean(true)) == Outcome::Done(
                            answer,
                            after,
                        ));
                    },
                    _ => {},
                }
            }
            assert(eval_and(items, 1, store, Value::Boolean(true)) == eval(
                pattern_form(subject, pattern, start),
                store,
            ));
        },
        Pattern::Tuple { elems, .. } => {
            let tests = element_forms(subject, elems@, elems.len() as nat, start);
            let items = seq![Form::Word(Keyword::And), Form::Row(tests)];
            assert(pattern_form(subject, pattern, start) == Form::List(items));
            let parts = contents_of(value, store.vectors)->0;
            elements_decide(subject, elems@, 0, start, store, value, parts, names);
            match eval_and(tests, 0, store, Value::Boolean(true)) {
                Outcome::Done(answer, after) => {
                    assert(eval_and(items, 2, after, answer) == Outcome::Done(answer, after));
                },
                _ => {},
            }
            assert(eval_and(items, 1, store, Value::Boolean(true)) == eval(
                pattern_form(subject, pattern, start),
                store,
            ));
        },
        Pattern::StringPrefix {
            left_side_string,
            left_side_assignment: left,
            right_side_assignment: right,
            ..
        } => {
            let prefix = left_side_string@;
            let whole = value->Text_0;
            let test = binary(Keyword::StringPrefix, subject, Form::Text(prefix));
            let length = unary(Keyword::StringLength, subject);
            let rest = ternary(Keyword::Substring, subject, Form::Index(prefix.len()), length);
            let first = match left {
                Some(name) => assign(name@, Form::Text(prefix)),
                None => Form::Row(Seq::empty()),
            };
            let second = match right {
                AssignName::Variable(name) => assign(name@, rest),
                AssignName::Discard(_) => Form::Row(Seq::empty()),
            };
            let yes = Form::Word(Keyword::True);
            let so = ternary(Keyword::Begin, first, second, yes);
            assert(pattern_form(subject, pattern, start) == ternary(
                Keyword::If,
                test,
                so,
                Form::Word(Keyword::False),
            ));
            reads(subject, value, store, start);
            eval_binary(Keyword::StringPrefix, subject, Form::Text(prefix), store);
            eval_if(test, so, Form::Word(Keyword::False), store);
            changes_fewer(store, store, Set::empty(), names);
            if begins(whole, prefix) {
                let items = seq![Form::Word(Keyword::Begin), first, second, yes];
                let middle = match left {
                    Some(name) => store.bind(Form::Local(name@), Value::Text(prefix)),
                    None => store,
                };
                match left {
                    Some(name) => {
                        assert(pattern_variables(pattern).contains(name@));
                        eval_assign(Form::Local(name@), Form::Text(prefix), store);
                        changes_one(store, name@, Value::Text(prefix), names);
                        like_after_changes(store, middle, names, start);
                        denotes_later(subject, value, store, start, middle, start);
                        declared_still(store, middle, names, names);
                    },
                    None => {},
                }
                reads(subject, value, middle, start);
                let last = assigned(store, pattern, value);
                match right {
                    AssignName::Variable(name) => {
                        assert(pattern_variables(pattern).contains(name@));
                        eval_unary(Keyword::StringLength, subject, middle);
                        eval_ternary(
                            Keyword::Substring,
                            subject,
                            Form::Index(prefix.len()),
                            length,
                            middle,
                        );
                        assert(whole.subrange(prefix.len() as int, whole.len() as int)
                            =~= whole.skip(prefix.len() as int));
                        eval_assign(Form::Local(name@), rest, middle);
                        changes_one(
                            middle,
                            name@,
                            Value::Text(whole.skip(prefix.len() as int)),
                            names,
                        );
                        changes_then(store, middle, last, names);
                    },
                    AssignName::Discard(_) => {},
                }
                let done = Outcome::Done(Value::Boolean(true), last);
                assert(items.len() == 4 && items[1] == first && items[2] == second && items[3]
                    == yes);
                assert(eval_body(items, 4, last, Value::Boolean(true)) == done);
                assert forall|held: Value| #[trigger] eval_body(items, 3, last, held) == done by {
                    assert(eval(items[3], last) == done);
                }
                assert forall|held: Value| #[trigger] eval_body(items, 2, middle, held)
                    == done by {
                    assert(eval_body(items, 3, last, held) == done);
                    assert(eval_body(items, 3, last, Value::Unspecified) == done);
                    match right {
                        AssignName::Variable(_) => {},
                        AssignName::Discard(_) => {
                            assert(eval_body(Seq::<Form>::empty(), 0, middle, held)
                                == Outcome::Done(held, middle));
                        },
                    }
                }
                assert(eval_body(items, 1, store, Value::Unspecified) == done) by {
                    assert(eval_body(items, 2, middle, Value::Unspecified) == done);
                    match left {
                        Some(_) => {},
                        None => {
                            assert(eval_body(Seq::<Form>::empty(), 0, store, Value::Unspecified)
                                == Outcome::Done(Value::Unspecified, store));
                        },
                    }
                }
            }
        },
    }
}

/// The head of a list against an element: the test that the list has an
/// element, and then the test of the element, held in a temporary.
pub proof fn head_decides(
    subject: Form,
    item: nat,
    test: Form,
    start: nat,
    store: Store,
    values: Seq<Value>,
    matched: bool,
    bound: Store,
    names: Set<Seq<char>>,
)
    requires
        denotes(subject, Value::List(values), store, start),
        single(test),
        values.len() > 0 ==> decided(
            eval(test, store.bind(Form::Temporary(item), values[0])),
            store.bind(Form::Temporary(item), values[0]),
            matched,
            bound.bind(Form::Temporary(item), values[0]),
            names,
        ),
        values.len() > 0 ==> kept(store, bound, Form::Temporary(item)),
    ensures
        decided(
            eval(
                ternary(
                    Keyword::If,
                    unary(Keyword::Not, binary(Keyword::Equal, subject, empty_list())),
                    binding(Form::Temporary(item), unary(Keyword::Car, subject), test),
                    Form::Word(Keyword::False),
                ),
                store,
            ),
            store,
            values.len() > 0 && matched,
            bound,
            names,
        ),
{
    let check = unary(Keyword::Not, binary(Keyword::Equal, subject, empty_list()));
    let temporary = Form::Temporary(item);
    let taken = binding(temporary, unary(Keyword::Car, subject), test);
    reads(subject, Value::List(values), store, start);
    changes_fewer(store, store, Set::empty(), names);
    let nothing = seq![Form::Word(Keyword::List)];
    assert(eval_each(nothing, 1, store) == Outcomes::Done(Seq::<Value>::empty(), store));
    assert(eval(empty_list(), store) == Outcome::Done(Value::List(Seq::empty()), store));
    eval_binary(Keyword::Equal, subject, empty_list(), store);
    same_empty(values);
    eval_unary(Keyword::Not, binary(Keyword::Equal, subject, empty_list()), store);
    assert(eval(check, store) == Outcome::Done(Value::Boolean(values.len() > 0), store));
    eval_if(check, taken, Form::Word(Keyword::False), store);
    if values.len() > 0 {
        eval_unary(Keyword::Car, subject, store);
        eval_binding(temporary, unary(Keyword::Car, subject), test, store);
        let inner = store.bind(temporary, values[0]);
        match eval(test, inner) {
            Outcome::Done(answer, after) => {
                changes_in_scope(store, temporary, values[0], after, names);
                if matched {
                    let left = bound.bind(temporary, values[0]).leave(store, set![temporary]);
                    assert(left.variables =~= bound.variables);
                }
            },
            _ => {},
        }
    }
}

/// The rest of a list against what follows an element: the rest of the
/// list, held in a temporary, against the test for it.
pub proof fn rest_decides(
    subject: Form,
    rest: nat,
    test: Form,
    start: nat,
    store: Store,
    values: Seq<Value>,
    matched: bool,
    bound: Store,
    names: Set<Seq<char>>,
)
    requires
        denotes(subject, Value::List(values), store, start),
        values.len() > 0,
        single(test),
        decided(
            eval(test, store.bind(Form::Temporary(rest), Value::List(values.drop_first()))),
            store.bind(Form::Temporary(rest), Value::List(values.drop_first())),
            matched,
            bound.bind(Form::Temporary(rest), Value::List(values.drop_first())),
            names,
        ),
        kept(store, bound, Form::Temporary(rest)),
    ensures
        decided(
            eval(binding(Form::Temporary(rest), unary(Keyword::Cdr, subject), test), store),
            store,
            matched,
            bound,
            names,
        ),
{
    let temporary = Form::Temporary(rest);
    let others = Value::List(values.drop_first());
    reads(subject, Value::List(values), store, start);
    eval_unary(Keyword::Cdr, subject, store);
    eval_binding(temporary, unary(Keyword::Cdr, subject), test, store);
    let inner = store.bind(temporary, others);
    match eval(test, inner) {
        Outcome::Done(answer, after) => {
            changes_in_scope(store, temporary, others, after, names);
            if matched {
                let left = bound.bind(temporary, others).leave(store, set![temporary]);
                assert(left.variables =~= bound.variables);
            }
        },
        _ => {},
    }
}

/// As `test_decides`, of a list against the elements of a list pattern from
/// the `from`-th on, and against its tail.
pub proof fn list_decides(
    subject: Form,
    pattern: Pattern,
    from: nat,
    start: nat,
    store: Store,
    values: Seq<Value>,
    names: Set<Seq<char>>,
)
    requires
        pattern is List,
        denotes(subject, Value::List(values), store, start),
        list_shaped(pattern, from, values, store.vectors),
        list_within(pattern, names),
        declares(store, names),
    ensures
        decided(
            eval(list_pattern_form(subject, pattern, from, start), store),
            store,
            list_meets(pattern, from, values, store.vectors),
            list_assigned(store, pattern, from, values),
            names,
        ),
    decreases pattern, elements_in(pattern) - from,
{
    reads(subject, Value::List(values), store, start);
    changes_fewer(store, store, Set::empty(), names);
    match pattern {
        Pattern::List { elements, tail, .. } => {
            if from >= elements.len() {
                match tail {
                    Some(tail) => {
                        test_decides(subject, *tail, start, store, Value::List(values), names);
                    },
                    None => {
                        let nothing = seq![Form::Word(Keyword::List)];
                        assert(eval_each(nothing, 1, store) == Outcomes::Done(
                            Seq::<Value>::empty(),
                            store,
                        ));
                        eval_binary(Keyword::Equal, subject, empty_list(), store);
                        same_empty(values);
                    },
                }
            } else {
                let element = elements[from as int];
                assert(pattern_variables(element).subset_of(names));
                let item = Form::Temporary(start + 1);
                let rest = Form::Temporary(start + 2);
                let first = pattern_form(item, element, start + 2);
                let behind = start + 2 + pattern_temporaries(element);
                let next = list_pattern_form(rest, pattern, from + 1, behind);
                let head = ternary(
                    Keyword::If,
                    unary(Keyword::Not, binary(Keyword::Equal, subject, empty_list())),
                    binding(item, unary(Keyword::Car, subject), first),
                    Form::Word(Keyword::False),
                );
                let others = binding(rest, unary(Keyword::Cdr, subject), next);
                assert(list_pattern_form(subject, pattern, from, start) == ternary(
                    Keyword::If,
                    head,
                    others,
                    Form::Word(Keyword::False),
                ));
                pattern_is_single(item, element, start + 2);
                crate::lowering::list_pattern_is_single(rest, pattern, from + 1, behind);
                let matched = if values.len() > 0 {
                    meets(element, values[0], store.vectors)
                } else {
                    false
                };
                let taken = if values.len() > 0 {
                    assigned(store, element, values[0])
                } else {
                    store
                };
                if values.len() > 0 {
                    let inner = store.bind(item, values[0]);
                    denotes_temporary(store, start + 1, values[0], start + 2);
                    assert(declares(inner, names));
                    test_decides(item, element, start + 2, inner, values[0], names);
                    assigned_commutes(store, item, values[0], element, values[0]);
                    assigned_changes(store, element, values[0], names);
                    assert(kept(store, taken, item));
                }
                head_decides(
                    subject,
                    start + 1,
                    first,
                    start,
                    store,
                    values,
                    matched,
                    taken,
                    names,
                );
                eval_if(head, others, Form::Word(Keyword::False), store);
                match eval(head, store) {
                    Outcome::Done(answer, after) => {
                        if values.len() > 0 && matched {
                            assert(after == taken);
                            like_after_changes(store, after, names, start);
                            denotes_later(subject, Value::List(values), store, start, after, start);
                            declared_still(store, after, names, names);
                            let tail_values = values.drop_first();
                            let inner = after.bind(rest, Value::List(tail_values));
                            denotes_temporary(after, start + 2, Value::List(tail_values), behind);
                            assert(declares(inner, names));
                            list_decides(
                                rest,
                                pattern,
                                from + 1,
                                behind,
                                inner,
                                tail_values,
                                names,
                            );
                            let finished = list_assigned(after, pattern, from + 1, tail_values);
                            list_assigned_commutes(
                                after,
                                rest,
                                Value::List(tail_values),
                                pattern,
                                from + 1,
                                tail_values,
                            );
                            list_assigned_changes(after, pattern, from + 1, tail_values, names);
                            assert(kept(after, finished, rest));
                            rest_decides(
                                subject,
                                start + 2,
                                next,
                                start,
                                after,
                                values,
                                list_meets(pattern, from + 1, tail_values, store.vectors),
                                finished,
                                names,
                            );
                            match eval(others, after) {
                                Outcome::Done(_, last) => {
                                    changes_then(store, after, last, names);
                                },
                                _ => {},
                            }
                        }
                    },
                    _ => {},
                }
            }
        },
        _ => {},
    }
}

/// As `test_decides`, of the fields of a tagged value from the `from`-th on
/// against the patterns for them.
pub proof fn fields_decide(
    subject: Form,
    patterns: Seq<Pattern>,
    from: nat,
    start: nat,
    store: Store,
    value: Value,
    fields: Seq<Value>,
    names: Set<Seq<char>>,
)
    requires
        denotes(subject, value, store, start),
        fields_of(value, store.vectors) == Some(fields),
        patterns.len() <= fields.len(),
        all_shaped(patterns, from, fields, store.vectors),
        within(patterns, names),
        declares(store, names),
    ensures
        decided(
            eval_and(
                field_forms(subject, patterns, patterns.len(), start),
                from,
                store,
                Value::Boolean(true),
            ),
            store,
            all_meet(patterns, from, fields, store.vectors),
            all_assigned(store, patterns, from, fields),
            names,
        ),
    decreases patterns, patterns.len() - from,
{
    let tests = field_forms(subject, patterns, patterns.len(), start);
    field_forms_are(subject, patterns, patterns.len(), start);
    like_itself(store, start);
    changes_fewer(store, store, Set::empty(), names);
    if from < patterns.len() {
        let pattern = patterns[from as int];
        let before = start + patterns_temporaries(patterns, from);
        let part = field(subject, from);
        let test = pattern_form(part, pattern, before);
        assert(tests[from as int] == test);
        pattern_is_single(part, pattern, before);
        assert(pattern_variables(pattern).subset_of(names));
        denotes_field(subject, value, store, start, from);
        denotes_later(part, fields[from as int], store, start, store, before);
        test_decides(part, pattern, before, store, fields[from as int], names);
        match eval(test, store) {
            Outcome::Done(answer, after) => {
                if meets(pattern, fields[from as int], store.vectors) {
                    like_after_changes(store, after, names, start);
                    denotes_later(subject, value, store, start, after, start);
                    declared_still(store, after, names, names);
                    fields_decide(subject, patterns, from + 1, start, after, value, fields, names);
                    match eval_and(tests, from + 1, after, Value::Boolean(true)) {
                        Outcome::Done(_, last) => {
                            changes_then(store, after, last, names);
                        },
                        _ => {},
                    }
                }
            },
            _ => {},
        }
    }
}

/// As `test_decides`, of the elements of a tuple from the `from`-th on
/// against the patterns for them.
pub proof fn elements_decide(
    subject: Form,
    patterns: Seq<Pattern>,
    from: nat,
    start: nat,
    store: Store,
    value: Value,
    parts: Seq<Value>,
    names: Set<Seq<char>>,
)
    requires
        denotes(subject, value, store, start),
        contents_of(value, store.vectors) == Some(parts),
        patterns.len() <= parts.len(),
        all_shaped(patterns, from, parts, store.vectors),
        within(patterns, names),
        declares(store, names),
    ensures
        decided(
            eval_and(
                element_forms(subject, patterns, patterns.len(), start),
                from,
                store,
                Value::Boolean(true),
            ),
            store,
            all_meet(patterns, from, parts, store.vectors),
            all_assigned(store, patterns, from, parts),
            names,
        ),
    decreases patterns, patterns.len() - from,
{
    let tests = element_forms(subject, patterns, patterns.len(), start);
    element_forms_are(subject, patterns, patterns.len(), start);
    like_itself(store, start);
    changes_fewer(store, store, Set::empty(), names);
    if from < patterns.len() {
        let pattern = patterns[from as int];
        let before = element_start(patterns, from, start);
        let temporary = Form::Temporary(before + 1);
        let read = binary(Keyword::VectorRef, subject, Form::Index(from));
        let test = pattern_form(temporary, pattern, before + 1);
        assert(tests[from as int] == binding(temporary, read, test));
        pattern_is_single(temporary, pattern, before + 1);
        assert(pattern_variables(pattern).subset_of(names));
        let part = parts[from as int];
        eval_binary(Keyword::VectorRef, subject, Form::Index(from), store);
        assert(eval(read, store) == Outcome::Done(part, store));
        let inner = store.bind(temporary, part);
        denotes_temporary(store, before + 1, part, before + 1);
        assert(declares(inner, names));
        test_decides(temporary, pattern, before + 1, inner, part, names);
        eval_binding(temporary, read, test, store);
        assigned_commutes(store, temporary, part, pattern, part);
        assigned_changes(store, pattern, part, names);
        let taken = assigned(store, pattern, part);
        assert(kept(store, taken, temporary));
        match eval(test, inner) {
            Outcome::Done(answer, inside) => {
                changes_in_scope(store, temporary, part, inside, names);
                let after = inside.leave(store, set![temporary]);
                if meets(pattern, part, store.vectors) {
                    let left = taken.bind(temporary, part).leave(store, set![temporary]);
                    assert(left.variables =~= taken.variables);
                    assert(after == taken);
                    like_after_changes(store, after, names, start);
                    denotes_later(subject, value, store, start, after, start);
                    declared_still(store, after, names, names);
                    elements_decide(subject, patterns, from + 1, start, after, value, parts, names);
                    match eval_and(tests, from + 1, after, Value::Boolean(true)) {
                        Outcome::Done(_, last) => {
                            changes_then(store, after, last, names);
                        },
                        _ => {},
                    }
                }
            },
            _ => {},
        }
    }
}

} // verus!
