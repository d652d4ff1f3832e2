//! Whether code can be generated for a tree: it must hold no placeholder of
//! a failed inference and no `use` that was left unexpanded.

use crate::ast::{
    CallArg, Definition, TypedClause, TypedExpr, TypedModule, TypedPipelineAssignment,
    TypedRecordUpdateArg, TypedStatement,
};
use crate::lowering::{
    valid, valid_all, valid_arguments, valid_assignments, valid_clauses, valid_definition,
    valid_module, valid_statement, valid_statements, valid_updates,
};
use vstd::prelude::*;

verus! {

/// Whether code can be generated for an expression.
pub fn is_valid(expr: &TypedExpr) -> (r: bool)
    ensures
        r == valid(*expr),
    decreases expr,
{
    match expr {
        TypedExpr::Int { .. } => true,
        TypedExpr::Float { .. } => true,
        TypedExpr::String { .. } => true,
        TypedExpr::Block { statements, .. } => are_valid_statements(statements),
        TypedExpr::Pipeline { assignments, finally, .. } => are_valid_assignments(assignments)
            && is_valid(finally),
        TypedExpr::Var { .. } => true,
        TypedExpr::Fn { body, .. } => are_valid_statements(body),
        TypedExpr::List { elements, tail, .. } => are_valid(elements) && (match tail {
            Some(tail) => is_valid(tail),
            None => true,
        }),
        TypedExpr::Call { fun, args, .. } => is_valid(fun) && are_valid_arguments(args),
        TypedExpr::BinOp { left, right, .. } => is_valid(left) && is_valid(right),
        TypedExpr::Case { subjects, clauses, .. } => are_valid(subjects) && are_valid_clauses(
            clauses,
        ),
        TypedExpr::RecordAccess { record, .. } => is_valid(record),
        TypedExpr::ModuleSelect { .. } => true,
        TypedExpr::Tuple { elems, .. } => are_valid(elems),
        TypedExpr::TupleIndex { tuple, .. } => is_valid(tuple),
        TypedExpr::Todo { message, .. } => match message {
            Some(message) => is_valid(message),
            None => true,
        },
        TypedExpr::Panic { message, .. } => match message {
            Some(message) => is_valid(message),
            None => true,
        },
        TypedExpr::RecordUpdate { spread, args, .. } => is_valid(spread) && are_valid_updates(
            args,
        ),
        TypedExpr::NegateBool { value, .. } => is_valid(value),
        TypedExpr::NegateInt { value, .. } => is_valid(value),
        TypedExpr::Invalid { .. } => false,
    }
}

/// Whether code can be generated for each expression of a vector.
pub fn are_valid(exprs: &Vec<TypedExpr>) -> (r: bool)
    ensures
        r == valid_all(exprs@),
    decreases exprs,
{
    let mut i: usize = 0;
    while i < exprs.len()
        invariant
            i <= exprs.len(),
            forall|j: int| 0 <= j < i ==> valid(#[trigger] exprs[j]),
        decreases exprs.len() - i,
    {
        if !is_valid(&exprs[i]) {
            return false;
        }
        i += 1;
    }
    true
}

/// Whether code can be generated for each argument of a call.
pub fn are_valid_arguments(args: &Vec<CallArg<TypedExpr>>) -> (r: bool)
    ensures
        r == valid_arguments(args@),
    decreases args,
{
    let mut i: usize = 0;
    while i < args.len()
        invariant
            i <= args.len(),
            forall|j: int| 0 <= j < i ==> valid((#[trigger] args[j]).value),
        decreases args.len() - i,
    {
        if !is_valid(&args[i].value) {
            return false;
        }
        i += 1;
    }
    true
}

/// Whether code can be generated for each new value of a record update.
pub fn are_valid_updates(args: &Vec<TypedRecordUpdateArg>) -> (r: bool)
    ensures
        r == valid_updates(args@),
    decreases args,
{
    let mut i: usize = 0;
    while i < args.len()
        invariant
            i <= args.len(),
            forall|j: int| 0 <= j < i ==> valid((#[trigger] args[j]).value),
        decreases args.len() - i,
    {
        if !is_valid(&args[i].value) {
            return false;
        }
        i += 1;
    }
    true
}

/// Whether code can be generated for each stage of a pipeline.
pub fn are_valid_assignments(assignments: &Vec<TypedPipelineAssignment>) -> (r: bool)
    ensures
        r == valid_assignments(assignments@),
    decreases assignments,
{
    let mut i: usize = 0;
    while i < assignments.len()
        invariant
            i <= assignments.len(),
            forall|j: int| 0 <= j < i ==> valid((#[trigger] assignments[j]).value),
        decreases assignments.len() - i,
    {
        if !is_valid(&assignments[i].value) {
            return false;
        }
        i += 1;
    }
    true
}

/// Whether code can be generated for the result of each clause.
pub fn are_valid_clauses(clauses: &Vec<TypedClause>) -> (r: bool)
    ensures
        r == valid_clauses(clauses@),
    decreases clauses,
{
    let mut i: usize = 0;
    while i < clauses.len()
        invariant
            i <= clauses.len(),
            forall|j: int| 0 <= j < i ==> valid((#[trigger] clauses[j]).result),
        decreases clauses.len() - i,
    {
        if !is_valid(&clauses[i].result) {
            return false;
        }
        i += 1;
    }
    true
}

/// Whether code can be generated for a statement.
pub fn is_valid_statement(statement: &TypedStatement) -> (r: bool)
    ensures
        r == valid_statement(*statement),
    decreases statement,
{
    match statement {
        TypedStatement::Expression(expr) => is_valid(expr),
        TypedStatement::Assignment(assignment) => is_valid(&assignment.value),
        TypedStatement::Use { .. } => false,
    }
}

/// Whether code can be generated for each statement of a vector.
pub fn are_valid_statements(statements: &Vec<TypedStatement>) -> (r: bool)
    ensures
        r == valid_statements(statements@),
    decreases statements,
{
    let mut i: usize = 0;
    while i < statements.len()
        invariant
            i <= statements.len(),
            forall|j: int| 0 <= j < i ==> valid_statement(#[trigger] statements[j]),
        decreases statements.len() - i,
    {
        if !is_valid_statement(&statements[i]) {
            return false;
        }
        i += 1;
    }
    true
}

/// Whether code can be generated for a definition: for a function, whether
/// its body is valid or the target runtime supplies it.
pub fn is_valid_definition(definition: &Definition) -> (r: bool)
    ensures
        r == valid_definition(*definition),
{
    match definition {
        Definition::Function(function) => function.external_chez.is_some()
            || are_valid_statements(&function.body),
        _ => true,
    }
}

/// Whether code can be generated for a module.
pub fn is_valid_module(module: &TypedModule) -> (r: bool)
    ensures
        r == valid_module(*module),
{
    let mut i: usize = 0;
    while i < module.definitions.len()
        invariant
            i <= module.definitions.len(),
            forall|j: int| 0 <= j < i ==> valid_definition(#[trigger] module.definitions[j]),
        decreases module.definitions.len() - i,
    {
        if !is_valid_definition(&module.definitions[i]) {
            return false;
        }
        i += 1;
    }
    true
}

} // verus!
