//! The code generator: from a typed module to a library of the target.

use camino::Utf8PathBuf;
use crate::ast::{
    Arg, AssignName, BinOp, CallArg, ClauseGuard, Constant, CustomType, Definition, ModuleConstant,
    ModuleValueConstructor, Pattern, Publicity, RecordConstructor, TypedClause, TypedExpr,
    TypedFunction, TypedModule, TypedPipelineAssignment, TypedRecordUpdateArg, TypedStatement,
};
use crate::library::{Item, item_forms, ItemForm, items_proper, Library};
use crate::lowering::{
    alternative_forms, alternatives_references, alternatives_temporaries,
    alternatives_temporaries_grow, alternatives_variables, argument_forms, arguments_references,
    arguments_temporaries, arguments_temporaries_grow, assign, assignment_form, assignment_forms,
    assignments_references, assignments_temporaries, assignments_temporaries_grow,
    assignments_variables, chain_form, clause_form, clause_forms, clause_references,
    clause_temporaries, clauses_references, clauses_temporaries, clauses_temporaries_grow,
    clauses_variables, constant_definition, constant_form, constant_forms, constructor_form,
    constructor_items, constructor_names, constructor_parameters, definition_exports,
    definition_items, definitions_exports, definitions_items, definitions_references,
    definitions_temporaries, definitions_temporaries_grow, demand, element_forms, elements_in,
    exported,
    expr_form, expr_forms, exprs_references, exprs_temporaries, exprs_temporaries_grow, failure,
    field, field_forms, function_form, function_references, function_temporaries, guard_form,
    later_references, later_temporaries, later_temporaries_unfold, library_form, list_pattern_form,
    list_references, list_temporaries, module_temporaries, operation, paired,
    parameter_forms, pattern_form, pattern_references, pattern_temporaries, pattern_variables,
    patterns_form, patterns_references, patterns_temporaries, patterns_temporaries_grow,
    patterns_variables, predicate_form, prefix_form, primitive, qualified, reference, references,
    sequence_forms, setter_forms, statements_form, statements_references, statements_temporaries,
    subject_bindings, subject_forms, tagged, temporaries, test_form, test_references,
    test_temporaries, updates_references, updates_temporaries, updates_temporaries_grow, valid,
    valid_all, valid_arguments, valid_assignments, valid_clauses, valid_function, valid_module,
    valid_statement, valid_statements, valid_updates,
};
use crate::names::{empty, in_order_of, insert, members};
use crate::sexp::{all_proper, Form, forms, Keyword, proper, pushed, Sexp};
use crate::text::integer;
use crate::type_::ValueConstructorVariant;
use im::HashSet;
use vstd::pervasive::unreached;
use vstd::prelude::*;

verus! {

/// `camino::Utf8PathBuf`. A path is handed on and never looked into.
#[verifier::external_type_specification]
#[verifier::external_body]
pub struct ExUtf8PathBuf(Utf8PathBuf);

/// Why no code was generated.
#[derive(Clone, Copy, PartialEq, Eq, Structural, Debug)]
pub enum Error {
    /// The module takes more temporaries than can be numbered.
    TooManyTemporaries,
}

/// The generator at work on one module.
pub struct Chez<'a> {
    /// The modules that the code generated so far refers to.
    pub imports: HashSet<String>,
    /// The names that the code generated so far makes public.
    pub exports: HashSet<String>,
    pub module: &'a TypedModule,
    /// The number of temporaries made so far.
    pub tmp_count: usize,
}

/// Generate the library for a module, and leave in `dependencies` the modules
/// that the library depends on.
///
/// The module must hold no placeholder of a failed inference and no `use`
/// that was left unexpanded. The text is that of the library with the
/// module's name, exports, dependencies and definitions: the module alone
/// fixes it. Exports, imports and the variables of a scope are listed in the
/// order of a dictionary.
/// An error comes back where the module takes more temporaries than can be
/// numbered, and `dependencies` is then as it was.
pub fn module(dir: &Utf8PathBuf, typed: &TypedModule, dependencies: &mut HashSet<String>) -> (r:
    Result<String, Error>)
    requires
        valid_module(*typed),
    ensures
        match r {
            Ok(text) => {
                &&& module_temporaries(*typed) <= usize::MAX
                &&& members(*final(dependencies)) == library_form(*typed).imports
                &&& text@ == library_form(*typed).text()
            },
            Err(e) => module_temporaries(*typed) > usize::MAX && *final(dependencies) == *old(
                dependencies,
            ),
        },
{
    let mut chez = Chez::new(dir, typed);
    let body = chez.compile()?;
    let exports = in_order_of(&chez.exports);
    let imports = in_order_of(&chez.imports);
    *dependencies = chez.imports;
    let library = Library { name: typed.name.clone(), exports, imports, body };
    assert(library@.exports =~= library_form(*typed).exports);
    assert(library@.imports =~= library_form(*typed).imports);
    assert(library@ == library_form(*typed));
    proof {
        library.written_is_text();
    }
    Ok(library.render())
}

/// The target's primitive for an operator.
pub fn primitive_of(op: BinOp) -> (r: Keyword)
    ensures
        r == primitive(op),
{
    match op {
        BinOp::And => Keyword::And,
        BinOp::Or => Keyword::Or,
        BinOp::Eq | BinOp::NotEq => Keyword::Equal,
        BinOp::LtInt | BinOp::LtFloat => Keyword::Less,
        BinOp::LtEqInt | BinOp::LtEqFloat => Keyword::LessOrEqual,
        BinOp::GtEqInt | BinOp::GtEqFloat => Keyword::GreaterOrEqual,
        BinOp::GtInt | BinOp::GtFloat => Keyword::Greater,
        BinOp::AddInt | BinOp::AddFloat => Keyword::Plus,
        BinOp::SubInt | BinOp::SubFloat => Keyword::Minus,
        BinOp::MultInt | BinOp::MultFloat => Keyword::Times,
        BinOp::DivInt => Keyword::Quotient,
        BinOp::DivFloat => Keyword::Divide,
        BinOp::RemainderInt => Keyword::Remainder,
        BinOp::Concatenate => Keyword::StringAppend,
    }
}

/// An operator applied to two operands.
pub fn operate(op: BinOp, left: Sexp, right: Sexp) -> (r: Sexp)
    ensures
        r@ == operation(op, left@, right@),
        proper(r) == (proper(left) && proper(right)),
{
    match op {
        BinOp::NotEq => Sexp::unary(Keyword::Not, Sexp::binary(Keyword::Equal, left, right)),
        _ => Sexp::binary(primitive_of(op), left, right),
    }
}

/// `(set! $name value)`.
pub fn assignment_to(name: &String, value: Sexp) -> (r: Sexp)
    ensures
        r@ == assign(name@, value@),
        proper(r) == proper(value),
{
    Sexp::binary(Keyword::Assign, Sexp::Local(name.clone()), value)
}

/// The i-th field of a tagged value.
pub fn field_of(value: Sexp, i: usize) -> (r: Sexp)
    ensures
        r@ == field(value@, i as nat),
        proper(r) == proper(value),
{
    Sexp::binary(Keyword::VectorRef, Sexp::unary(Keyword::Cadr, value), Sexp::Index(i as u64))
}

/// `(error "kind" message)`.
pub fn fail(kind: &str, message: Sexp) -> (r: Sexp)
    ensures
        r@ == failure(kind@, message@),
        proper(r) == proper(message),
{
    Sexp::binary(Keyword::Error, Sexp::Text(String::from_str(kind)), message)
}

/// `(if (not test) (error "panic" "no match found"))`.
pub fn demanded(test: Sexp) -> (r: Sexp)
    ensures
        r@ == demand(test@),
        proper(r) == proper(test),
{
    Sexp::binary(
        Keyword::If,
        Sexp::unary(Keyword::Not, test),
        fail("panic", Sexp::Text(String::from_str("no match found"))),
    )
}

/// The parameters of a function, each under the name it binds.
pub fn parameters(args: &Vec<Arg>) -> (r: Vec<Sexp>)
    ensures
        forms(r@) == parameter_forms(args@),
        all_proper(r@),
{
    let mut out: Vec<Sexp> = Vec::new();
    let mut i: usize = 0;
    while i < args.len()
        invariant
            i <= args.len(),
            out.len() == i,
            forall|j: int|
                0 <= j < i ==> (#[trigger] out[j])@ == Form::Local(args[j].names.binding()@),
            forall|j: int| 0 <= j < i ==> proper(#[trigger] out[j]),
        decreases args.len() - i,
    {
        out.push(Sexp::Local(args[i].names.name().clone()));
        i += 1;
    }
    assert(forms(out@) =~= parameter_forms(args@));
    out
}

/// `module.name`.
pub fn qualify(module: &String, name: &String) -> (r: String)
    ensures
        r@ == qualified(module@, name@),
{
    let mut out = module.clone();
    out.append(".");
    out.append(name.as_str());
    out
}

/// The parameters of a constructor with `arity` fields.
pub fn constructor_arguments(arity: usize) -> (r: Vec<Sexp>)
    ensures
        forms(r@) == constructor_parameters(arity as nat),
        all_proper(r@),
{
    let mut out: Vec<Sexp> = Vec::new();
    let mut i: usize = 0;
    while i < arity
        invariant
            i <= arity,
            out.len() == i,
            forall|j: int| 0 <= j < i ==> (#[trigger] out[j])@ == Form::Subject(j as nat),
            forall|j: int| 0 <= j < i ==> proper(#[trigger] out[j]),
        decreases arity - i,
    {
        out.push(Sexp::Subject(i));
        i += 1;
    }
    assert(forms(out@) =~= constructor_parameters(arity as nat));
    out
}

/// The definition of a constructor.
pub fn constructor(own: &String, variant: &RecordConstructor) -> (r: Sexp)
    ensures
        r@ == constructor_form(own@, *variant),
        proper(r),
{
    let arity: usize = variant.arguments.len();
    let value = Sexp::binary(
        Keyword::List,
        Sexp::Quote(variant.name.clone()),
        Sexp::variadic(Keyword::Vector, constructor_arguments(arity)),
    );
    let made = if arity == 0 {
        value
    } else {
        Sexp::binary(
            Keyword::Lambda,
            Sexp::single(Sexp::row(constructor_arguments(arity))),
            value,
        )
    };
    Sexp::binary(
        Keyword::Define,
        Sexp::Global { module: own.clone(), name: variant.name.clone() },
        made,
    )
}

/// The definition of the test for a constructor.
pub fn predicate(own: &String, constructor: &RecordConstructor) -> (r: Sexp)
    ensures
        r@ == predicate_form(own@, *constructor),
        proper(r),
{
    Sexp::binary(
        Keyword::Define,
        Sexp::Predicate { module: own.clone(), name: constructor.name.clone() },
        Sexp::binary(
            Keyword::Lambda,
            Sexp::single(Sexp::Name(String::from_str("value"))),
            Sexp::binary(
                Keyword::Equal,
                Sexp::unary(Keyword::Car, Sexp::Name(String::from_str("value"))),
                Sexp::Quote(constructor.name.clone()),
            ),
        ),
    )
}

/// The test of a string against a prefix.
pub fn prefix_test(
    subject: &Sexp,
    prefix: &String,
    left: &Option<String>,
    right: &AssignName,
) -> (r: Sexp)
    ensures
        r@ == prefix_form(subject@, prefix@, *left, *right),
        proper(r) == proper(*subject),
{
    let has_prefix = Sexp::binary(
        Keyword::StringPrefix,
        subject.duplicate(),
        Sexp::Text(prefix.clone()),
    );
    let left = match left {
        Some(name) => assignment_to(name, Sexp::Text(prefix.clone())),
        None => Sexp::nothing(),
    };
    let right = match right {
        AssignName::Variable(name) => {
            let from: usize = prefix.as_str().unicode_len();
            assignment_to(
                name,
                Sexp::ternary(
                    Keyword::Substring,
                    subject.duplicate(),
                    Sexp::Index(from as u64),
                    Sexp::unary(Keyword::StringLength, subject.duplicate()),
                ),
            )
        },
        AssignName::Discard(_) => Sexp::nothing(),
    };
    Sexp::ternary(
        Keyword::If,
        has_prefix,
        Sexp::ternary(Keyword::Begin, left, right, Sexp::Word(Keyword::True)),
        Sexp::Word(Keyword::False),
    )
}

impl<'a> Chez<'a> {
    /// The name of the module that code is generated for.
    pub open spec fn own(self) -> Seq<char> {
        self.module.name@
    }

    /// This state comes after `before` when `taken` temporaries were made in
    /// between and the modules `referred` were met.
    pub open spec fn follows(self, before: Self, taken: nat, referred: Set<Seq<char>>) -> bool {
        &&& self.module == before.module
        &&& self.exports == before.exports
        &&& self.tmp_count == before.tmp_count + taken
        &&& members(self.imports) =~= members(before.imports).union(referred)
    }

    /// This state comes after `before` when, besides, the names `named` were
    /// made public in between.
    pub open spec fn advanced(
        self,
        before: Self,
        taken: nat,
        referred: Set<Seq<char>>,
        named: Set<Seq<char>>,
    ) -> bool {
        &&& self.module == before.module
        &&& self.tmp_count == before.tmp_count + taken
        &&& members(self.imports) =~= members(before.imports).union(referred)
        &&& members(self.exports) =~= members(before.exports).union(named)
    }

    /// What a step of the generator leaves: a term of the form `form`, with
    /// `taken` temporaries made and the modules `referred` noted, or an error
    /// where that many temporaries cannot be numbered.
    pub open spec fn yields(
        self,
        before: Self,
        r: Result<Sexp, Error>,
        form: Form,
        taken: nat,
        referred: Set<Seq<char>>,
    ) -> bool {
        match r {
            Ok(term) => proper(term) && term@ == form && self.follows(before, taken, referred),
            Err(e) => before.tmp_count + taken > usize::MAX,
        }
    }

    /// As `yields`, of a step that leaves several terms.
    pub open spec fn yields_all(
        self,
        before: Self,
        r: Result<Vec<Sexp>, Error>,
        forms: Seq<Form>,
        taken: nat,
        referred: Set<Seq<char>>,
    ) -> bool {
        match r {
            Ok(terms) => all_proper(terms@) && crate::sexp::forms(terms@) == forms && self.follows(
                before,
                taken,
                referred,
            ),
            Err(e) => before.tmp_count + taken > usize::MAX,
        }
    }

    /// A generator that has made nothing yet. The directory is where the
    /// library will be written; what is generated does not depend on it.
    pub fn new(_dir: &Utf8PathBuf, module: &'a TypedModule) -> (r: Self)
        ensures
            r.module == module,
            r.tmp_count == 0,
            members(r.imports) == Set::<Seq<char>>::empty(),
            members(r.exports) == Set::<Seq<char>>::empty(),
    {
        Self { module, imports: empty(), exports: empty(), tmp_count: 0 }
    }

    /// The body of the library: the definitions of the module in their
    /// order.
    pub fn compile(&mut self) -> (r: Result<Vec<Item>, Error>)
        requires
            valid_module(*old(self).module),
        ensures
            match r {
                Ok(code) => {
                    &&& items_proper(code@)
                    &&& item_forms(code@) == definitions_items(
                        old(self).own(),
                        old(self).module.definitions@,
                        old(self).module.definitions.len() as nat,
                        old(self).tmp_count as nat,
                    )
                    &&& final(self).advanced(
                        *old(self),
                        module_temporaries(*old(self).module),
                        definitions_references(
                            old(self).own(),
                            old(self).module.definitions@,
                            old(self).module.definitions.len() as nat,
                        ),
                        definitions_exports(
                            old(self).own(),
                            old(self).module.definitions@,
                            old(self).module.definitions.len() as nat,
                        ),
                    )
                },
                Err(e) => old(self).tmp_count + module_temporaries(*old(self).module)
                    > usize::MAX,
            },
    {
        let mut code: Vec<Item> = Vec::new();
        let module = self.module;
        let mut i: usize = 0;
        assert(item_forms(code@) =~= Seq::empty());
        while i < module.definitions.len()
            invariant
                i <= module.definitions.len(),
                module == old(self).module,
                valid_module(*module),
                items_proper(code@),
                item_forms(code@) == definitions_items(
                    old(self).own(),
                    module.definitions@,
                    i as nat,
                    old(self).tmp_count as nat,
                ),
                self.advanced(
                    *old(self),
                    definitions_temporaries(module.definitions@, i as nat),
                    definitions_references(old(self).own(), module.definitions@, i as nat),
                    definitions_exports(old(self).own(), module.definitions@, i as nat),
                ),
            decreases module.definitions.len() - i,
        {
            proof {
                definitions_temporaries_grow(
                    module.definitions@,
                    (i + 1) as nat,
                    module.definitions.len() as nat,
                );
            }
            let ghost before = code@;
            match &module.definitions[i] {
                Definition::Function(function) => {
                    let term = self.function_definition(function)?;
                    code.push(Item::Definition(term));
                    assert(item_forms(code@) =~= item_forms(before) + seq![
                        ItemForm::Definition(term@),
                    ]);
                },
                Definition::TypeAlias(_) => {
                    assert(item_forms(code@) =~= item_forms(before) + Seq::empty());
                },
                Definition::CustomType(type_) => {
                    let mut more = self.custom_type(type_);
                    let ghost added = more@;
                    code.append(&mut more);
                    assert(item_forms(code@) =~= item_forms(before) + item_forms(added));
                    assert forall|k: int| 0 <= k < code.len() implies (
                    #[trigger] code[k]).proper() by {
                        if k < before.len() {
                            assert(before[k].proper());
                        } else {
                            assert(added[k - before.len()].proper());
                        }
                    }
                },
                Definition::Import(package) => {
                    self.refer(&package.module);
                    assert(item_forms(code@) =~= item_forms(before) + Seq::empty());
                },
                Definition::ModuleConstant(constant) => {
                    let term = self.module_constant(constant);
                    code.push(Item::Definition(term));
                    assert(item_forms(code@) =~= item_forms(before) + seq![
                        ItemForm::Definition(term@),
                    ]);
                },
            }
            i += 1;
        }
        Ok(code)
    }

    /// The definition of a constant of the module.
    pub fn module_constant(&mut self, constant: &ModuleConstant) -> (r: Sexp)
        ensures
            r@ == constant_definition(old(self).own(), *constant),
            proper(r),
            final(self).advanced(
                *old(self),
                0,
                Set::empty(),
                definition_exports(old(self).own(), Definition::ModuleConstant(*constant)),
            ),
    {
        let value = self.constant(&constant.value);
        self.export(&constant.publicity, qualify(&self.module.name, &constant.name));
        Sexp::binary(
            Keyword::Define,
            Sexp::Global { module: self.module.name.clone(), name: constant.name.clone() },
            value,
        )
    }

    /// The definitions for a custom type: for each constructor the
    /// constructor and its test, and an empty line behind them all.
    pub fn custom_type(&mut self, type_: &CustomType) -> (r: Vec<Item>)
        ensures
            item_forms(r@) == definition_items(
                old(self).own(),
                Definition::CustomType(*type_),
                old(self).tmp_count as nat,
            ),
            items_proper(r@),
            final(self).advanced(
                *old(self),
                0,
                Set::empty(),
                definition_exports(old(self).own(), Definition::CustomType(*type_)),
            ),
    {
        let mut code: Vec<Item> = Vec::new();
        let mut i: usize = 0;
        assert(item_forms(code@) =~= Seq::empty());
        while i < type_.constructors.len()
            invariant
                i <= type_.constructors.len(),
                item_forms(code@) == constructor_items(
                    old(self).own(),
                    type_.constructors@,
                    i as nat,
                ),
                items_proper(code@),
                self.advanced(
                    *old(self),
                    0,
                    Set::empty(),
                    exported(
                        type_.publicity,
                        constructor_names(old(self).own(), type_.constructors@, i as nat),
                    ),
                ),
            decreases type_.constructors.len() - i,
        {
            let variant = constructor(&self.module.name, &type_.constructors[i]);
            let test = predicate(&self.module.name, &type_.constructors[i]);
            let name = qualify(&self.module.name, &type_.constructors[i].name);
            let mut asked = name.clone();
            asked.append("?");
            proof {
                let first = code@.push(Item::Definition(variant));
                let second = first.push(Item::Definition(test));
                assert(item_forms(second) =~= item_forms(code@).push(
                    ItemForm::Definition(variant@),
                ).push(ItemForm::Definition(test@)));
            }
            code.push(Item::Definition(variant));
            code.push(Item::Definition(test));
            self.export(&type_.publicity, asked);
            self.export(&type_.publicity, name);
            i += 1;
        }
        proof {
            assert(item_forms(code@.push(Item::Break)) =~= item_forms(code@).push(ItemForm::Break));
        }
        code.push(Item::Break);
        code
    }

    /// The definition of a function of the module.
    pub fn function_definition(&mut self, function: &TypedFunction) -> (r: Result<Sexp, Error>)
        requires
            valid_function(*function),
        ensures
            match r {
                Ok(term) => {
                    &&& proper(term)
                    &&& term@ == function_form(
                        old(self).own(),
                        *function,
                        old(self).tmp_count as nat,
                    )
                    &&& final(self).advanced(
                        *old(self),
                        function_temporaries(*function),
                        function_references(old(self).own(), *function),
                        definition_exports(old(self).own(), Definition::Function(*function)),
                    )
                },
                Err(e) => old(self).tmp_count + function_temporaries(*function) > usize::MAX,
            },
    {
        let parameters = parameters(&function.arguments);
        let name = Sexp::Global {
            module: self.module.name.clone(),
            name: function.name.clone(),
        };
        self.export(&function.publicity, qualify(&self.module.name, &function.name));
        let body = match &function.external_chez {
            Some((module, external)) => {
                let head = if !module.as_str().is_empty() {
                    self.refer(module);
                    Sexp::Global { module: module.clone(), name: external.clone() }
                } else {
                    Sexp::Name(external.clone())
                };
                Sexp::pair(head, Sexp::row(self::parameters(&function.arguments)))
            },
            None => self.statements(&function.body)?,
        };
        Ok(
            Sexp::binary(
                Keyword::Define,
                name,
                Sexp::binary(Keyword::Lambda, Sexp::single(Sexp::row(parameters)), body),
            ),
        )
    }

    /// Make a name public, where the definition it belongs to is.
    pub fn export(&mut self, publicity: &Publicity, name: String)
        ensures
            final(self).advanced(*old(self), 0, Set::empty(), exported(*publicity, set![name@])),
    {
        if publicity.is_public() {
            insert(&mut self.exports, name);
        }
    }

    /// Note that the code refers to a module.
    pub fn refer(&mut self, module: &String)
        ensures
            final(self).follows(*old(self), 0, reference(old(self).own(), module@)),
    {
        if *module != self.module.name {
            insert(&mut self.imports, module.clone());
        }
    }

    /// The code for a block: `(let () statements)`.
    pub fn statements(&mut self, statements: &Vec<TypedStatement>) -> (r: Result<Sexp, Error>)
        requires
            valid_statements(statements@),
        ensures
            final(self).yields(
                *old(self),
                r,
                statements_form(statements@, old(self).tmp_count as nat),
                statements_temporaries(statements@, 0),
                statements_references(old(self).own(), statements@, 0),
            ),
        decreases statements, statements.len() + 1,
    {
        let items = self.statement(statements, 0)?;
        Ok(Sexp::binary(Keyword::Let, Sexp::unit(), Sexp::row(items)))
    }

    /// The code for the `from`-th statement of a block and for those behind
    /// it. An assignment opens a scope that holds the statements behind it.
    pub fn statement(&mut self, statements: &Vec<TypedStatement>, from: usize) -> (r: Result<
        Vec<Sexp>,
        Error,
    >)
        requires
            valid_statements(statements@),
            from <= statements.len(),
        ensures
            final(self).yields_all(
                *old(self),
                r,
                sequence_forms(statements@, from as nat, old(self).tmp_count as nat),
                statements_temporaries(statements@, from as nat),
                statements_references(old(self).own(), statements@, from as nat),
            ),
        decreases statements, statements.len() - from,
    {
        if from >= statements.len() {
            let out: Vec<Sexp> = Vec::new();
            assert(forms(out@) =~= Seq::empty());
            return Ok(out);
        }
        assert(valid_statement(statements@[from as int]));
        match &statements[from] {
            TypedStatement::Expression(expr) => {
                let first = self.expression(expr)?;
                let mut rest = self.statement(statements, from + 1)?;
                proof {
                    let longer = rest@.insert(0, first);
                    assert(forms(longer) =~= seq![first@] + forms(rest@));
                    assert forall|i: int| 0 <= i < longer.len() implies proper(
                        #[trigger] longer[i],
                    ) by {
                        if i > 0 {
                            assert(proper(rest@[i - 1]));
                        }
                    }
                }
                rest.insert(0, first);
                Ok(rest)
            },
            TypedStatement::Assignment(assignment) => {
                let value = self.expression(&assignment.value)?;
                let held = self.tmp_var()?;
                let mut variables = empty();
                self.do_collect_pattern_variables(&mut variables, &assignment.pattern);
                assert(members(variables) =~= pattern_variables(assignment.pattern));
                let declared = Sexp::declare(in_order_of(&variables));
                let test = self.pattern(&held, &assignment.pattern)?;
                let rest = self.statement(statements, from + 1)?;
                let scope = Sexp::quaternary(
                    Keyword::Let,
                    Sexp::single(Sexp::pair(held, value)),
                    declared,
                    demanded(test),
                    Sexp::row(rest),
                );
                let mut out: Vec<Sexp> = Vec::new();
                out.push(scope);
                assert(forms(out@) =~= seq![scope@]);
                assert(out@[0] == scope);
                Ok(out)
            },
            TypedStatement::Use { .. } => unreached(),
        }
    }

    /// The code for the stages of a pipeline but the last.
    pub fn assignments(&mut self, assignments: &Vec<TypedPipelineAssignment>) -> (r: Result<
        Vec<Sexp>,
        Error,
    >)
        requires
            valid_assignments(assignments@),
        ensures
            final(self).yields_all(
                *old(self),
                r,
                assignment_forms(
                    assignments@,
                    assignments.len() as nat,
                    old(self).tmp_count as nat,
                ),
                assignments_temporaries(assignments@, assignments.len() as nat),
                assignments_references(old(self).own(), assignments@, assignments.len() as nat),
            ),
        decreases assignments, 1nat,
    {
        let mut out: Vec<Sexp> = Vec::new();
        let mut i: usize = 0;
        while i < assignments.len()
            invariant
                i <= assignments.len(),
                valid_assignments(assignments@),
                self.follows(
                    *old(self),
                    assignments_temporaries(assignments@, i as nat),
                    assignments_references(old(self).own(), assignments@, i as nat),
                ),
                forms(out@) == assignment_forms(
                    assignments@,
                    i as nat,
                    old(self).tmp_count as nat,
                ),
                all_proper(out@),
            decreases assignments.len() - i,
        {
            proof {
                assignments_temporaries_grow(
                    assignments@,
                    (i + 1) as nat,
                    assignments.len() as nat,
                );
            }
            let term = self.assignment(&assignments[i])?;
            proof {
                pushed(out@, term);
            }
            out.push(term);
            i += 1;
        }
        Ok(out)
    }

    /// The code for one stage of a pipeline: its value goes into its
    /// variable.
    pub fn assignment(&mut self, assignment: &TypedPipelineAssignment) -> (r: Result<Sexp, Error>)
        requires
            valid(assignment.value),
        ensures
            final(self).yields(
                *old(self),
                r,
                assignment_form(
                    assignment.name@,
                    expr_form(assignment.value, old(self).tmp_count as nat),
                ),
                temporaries(assignment.value),
                references(old(self).own(), assignment.value),
            ),
        decreases assignment, 0nat,
    {
        let subject = self.expression(&assignment.value)?;
        let pattern = Sexp::binary(
            Keyword::Begin,
            assignment_to(&assignment.name, subject),
            Sexp::Word(Keyword::True),
        );
        Ok(demanded(pattern))
    }

    /// The declaration of the variables that the stages of a pipeline are
    /// bound to.
    pub fn collect_assignments_variables(&self, assignments: &Vec<TypedPipelineAssignment>) -> (r:
        Sexp)
        ensures
            r@ == Form::Declare(assignments_variables(assignments@, assignments.len() as nat)),
            proper(r),
    {
        let mut variables = empty();
        let mut i: usize = 0;
        while i < assignments.len()
            invariant
                i <= assignments.len(),
                members(variables) == assignments_variables(assignments@, i as nat),
            decreases assignments.len() - i,
        {
            insert(&mut variables, assignments[i].name.clone());
            i += 1;
        }
        Sexp::declare(in_order_of(&variables))
    }

    /// The code for an expression.
    pub fn expression(&mut self, expr: &TypedExpr) -> (r: Result<Sexp, Error>)
        requires
            valid(*expr),
        ensures
            final(self).yields(
                *old(self),
                r,
                expr_form(*expr, old(self).tmp_count as nat),
                temporaries(*expr),
                references(old(self).own(), *expr),
            ),
        decreases expr, 2nat,
    {
        match expr {
            TypedExpr::Int { value, .. } => Ok(Sexp::Number(integer(value.as_str()))),
            TypedExpr::Float { value, .. } => Ok(Sexp::Number(value.clone())),
            TypedExpr::String { value, .. } => Ok(Sexp::Text(value.clone())),
            TypedExpr::Block { statements, .. } => self.statements(statements),
            TypedExpr::Pipeline { assignments, finally, .. } => {
                let variables = self.collect_assignments_variables(assignments);
                let stages = self.assignments(assignments)?;
                let last = self.expression(finally)?;
                Ok(
                    Sexp::quaternary(
                        Keyword::Let,
                        Sexp::unit(),
                        variables,
                        Sexp::row(stages),
                        last,
                    ),
                )
            },
            TypedExpr::Var { name, constructor, .. } => match &constructor.variant {
                ValueConstructorVariant::LocalVariable { .. } => Ok(Sexp::Local(name.clone())),
                ValueConstructorVariant::ModuleConstant { literal, .. } => Ok(
                    self.constant(literal),
                ),
                ValueConstructorVariant::ModuleFn { module, name, .. } => {
                    self.refer(module);
                    Ok(Sexp::Global { module: module.clone(), name: name.clone() })
                },
                ValueConstructorVariant::Record { module, name, .. } => {
                    self.refer(module);
                    Ok(Sexp::Global { module: module.clone(), name: name.clone() })
                },
            },
            TypedExpr::Fn { args, body, .. } => {
                let parameters = parameters(args);
                let body = self.statements(body)?;
                Ok(Sexp::binary(Keyword::Lambda, Sexp::single(Sexp::row(parameters)), body))
            },
            TypedExpr::List { elements, tail, .. } => {
                let end = match tail {
                    Some(tail) => self.expression(tail)?,
                    None => Sexp::nullary(Keyword::List),
                };
                proof {
                    if elements.len() > 0 {
                        later_temporaries_unfold(elements@, 0);
                    }
                }
                self.chain(elements, end)
            },
            TypedExpr::Call { fun, args, .. } => {
                let fun = self.expression(fun)?;
                let args = self.arguments(args)?;
                Ok(Sexp::pair(fun, Sexp::row(args)))
            },
            TypedExpr::BinOp { left, right, name, .. } => {
                let lhs = self.expression(left)?;
                let rhs = self.expression(right)?;
                Ok(operate(*name, lhs, rhs))
            },
            TypedExpr::Case { .. } => self.case(expr),
            TypedExpr::RecordAccess { record, index, .. } => {
                let record = self.expression(record)?;
                Ok(
                    Sexp::binary(
                        Keyword::VectorRef,
                        Sexp::unary(Keyword::Cadr, record),
                        Sexp::Index(*index),
                    ),
                )
            },
            TypedExpr::ModuleSelect { constructor, module_name, label, .. } => match constructor {
                ModuleValueConstructor::Record { name } => {
                    self.refer(module_name);
                    Ok(Sexp::Global { module: module_name.clone(), name: name.clone() })
                },
                ModuleValueConstructor::Fn { module, name } => {
                    self.refer(module);
                    Ok(Sexp::Global { module: module.clone(), name: name.clone() })
                },
                ModuleValueConstructor::Constant => {
                    self.refer(module_name);
                    Ok(Sexp::Global { module: module_name.clone(), name: label.clone() })
                },
            },
            TypedExpr::Tuple { elems, .. } => {
                let elems = self.expressions(elems)?;
                Ok(Sexp::variadic(Keyword::Vector, elems))
            },
            TypedExpr::TupleIndex { tuple, index, .. } => {
                let tuple = self.expression(tuple)?;
                Ok(Sexp::binary(Keyword::VectorRef, tuple, Sexp::Index(*index)))
            },
            TypedExpr::Todo { message, .. } => {
                let message = match message {
                    Some(message) => self.expression(message)?,
                    None => Sexp::Text(String::from_str("unimplemented")),
                };
                Ok(fail("todo", message))
            },
            TypedExpr::Panic { message, .. } => {
                let message = match message {
                    Some(message) => self.expression(message)?,
                    None => Sexp::Text(String::from_str("an error has occurred")),
                };
                Ok(fail("panic", message))
            },
            TypedExpr::RecordUpdate { .. } => self.record_update(expr),
            TypedExpr::NegateBool { value, .. } => {
                let value = self.expression(value)?;
                Ok(Sexp::unary(Keyword::Not, value))
            },
            TypedExpr::NegateInt { value, .. } => {
                let value = self.expression(value)?;
                Ok(Sexp::unary(Keyword::Minus, value))
            },
            TypedExpr::Invalid { .. } => unreached(),
        }
    }

    /// The code for each expression of a vector, from left to right.
    pub fn expressions(&mut self, exprs: &Vec<TypedExpr>) -> (r: Result<Vec<Sexp>, Error>)
        requires
            valid_all(exprs@),
        ensures
            final(self).yields_all(
                *old(self),
                r,
                expr_forms(exprs@, exprs.len() as nat, old(self).tmp_count as nat),
                exprs_temporaries(exprs@, exprs.len() as nat),
                exprs_references(old(self).own(), exprs@, exprs.len() as nat),
            ),
        decreases exprs, 0nat,
    {
        let mut out: Vec<Sexp> = Vec::new();
        let mut i: usize = 0;
        while i < exprs.len()
            invariant
                i <= exprs.len(),
                valid_all(exprs@),
                self.follows(
                    *old(self),
                    exprs_temporaries(exprs@, i as nat),
                    exprs_references(old(self).own(), exprs@, i as nat),
                ),
                forms(out@) == expr_forms(exprs@, i as nat, old(self).tmp_count as nat),
                all_proper(out@),
            decreases exprs.len() - i,
        {
            proof {
                exprs_temporaries_grow(exprs@, (i + 1) as nat, exprs.len() as nat);
            }
            let term = self.expression(&exprs[i])?;
            proof {
                pushed(out@, term);
            }
            out.push(term);
            i += 1;
        }
        Ok(out)
    }

    /// The code for the arguments of a call, from left to right.
    pub fn arguments(&mut self, args: &Vec<CallArg<TypedExpr>>) -> (r: Result<Vec<Sexp>, Error>)
        requires
            valid_arguments(args@),
        ensures
            final(self).yields_all(
                *old(self),
                r,
                argument_forms(args@, args.len() as nat, old(self).tmp_count as nat),
                arguments_temporaries(args@, args.len() as nat),
                arguments_references(old(self).own(), args@, args.len() as nat),
            ),
        decreases args, 0nat,
    {
        let mut out: Vec<Sexp> = Vec::new();
        let mut i: usize = 0;
        while i < args.len()
            invariant
                i <= args.len(),
                valid_arguments(args@),
                self.follows(
                    *old(self),
                    arguments_temporaries(args@, i as nat),
                    arguments_references(old(self).own(), args@, i as nat),
                ),
                forms(out@) == argument_forms(args@, i as nat, old(self).tmp_count as nat),
                all_proper(out@),
            decreases args.len() - i,
        {
            proof {
                arguments_temporaries_grow(args@, (i + 1) as nat, args.len() as nat);
            }
            let term = self.expression(&args[i].value)?;
            proof {
                pushed(out@, term);
            }
            out.push(term);
            i += 1;
        }
        Ok(out)
    }

    /// The list of the given elements before `end`, built from its end.
    pub fn chain(&mut self, exprs: &Vec<TypedExpr>, end: Sexp) -> (r: Result<Sexp, Error>)
        requires
            valid_all(exprs@),
            proper(end),
        ensures
            final(self).yields(
                *old(self),
                r,
                chain_form(exprs@, 0, end@, old(self).tmp_count as nat),
                later_temporaries(exprs@, 0),
                later_references(old(self).own(), exprs@, 0),
            ),
        decreases exprs, 0nat,
    {
        let mut list = end;
        let mut i: usize = exprs.len();
        while i > 0
            invariant
                i <= exprs.len(),
                valid_all(exprs@),
                self.follows(
                    *old(self),
                    later_temporaries(exprs@, i as nat),
                    later_references(old(self).own(), exprs@, i as nat),
                ),
                list@ == chain_form(exprs@, i as nat, end@, old(self).tmp_count as nat),
                proper(list),
            decreases i,
        {
            i -= 1;
            proof {
                later_temporaries_unfold(exprs@, i as nat);
            }
            let elem = self.expression(&exprs[i])?;
            list = Sexp::binary(Keyword::Cons, elem, list);
        }
        Ok(list)
    }

    /// The code for a record with some fields replaced.
    pub fn record_update(&mut self, expr: &TypedExpr) -> (r: Result<Sexp, Error>)
        requires
            expr is RecordUpdate,
            valid(*expr),
        ensures
            final(self).yields(
                *old(self),
                r,
                expr_form(*expr, old(self).tmp_count as nat),
                temporaries(*expr),
                references(old(self).own(), *expr),
            ),
        decreases expr, 1nat,
    {
        match expr {
            TypedExpr::RecordUpdate { spread, args, .. } => {
                let value = self.expression(spread)?;
                let value_var = self.tmp_var()?;
                let tag_var = self.tmp_var()?;
                let vec_var = self.tmp_var()?;
                let tag = Sexp::unary(Keyword::Car, value_var.duplicate());
                let vec = Sexp::unary(
                    Keyword::VectorCopy,
                    Sexp::unary(Keyword::Cadr, value_var.duplicate()),
                );
                let setters = self.setters(&vec_var, args)?;
                let result = Sexp::binary(
                    Keyword::List,
                    tag_var.duplicate(),
                    vec_var.duplicate(),
                );
                Ok(
                    Sexp::binding(
                        value_var,
                        value,
                        Sexp::ternary(
                            Keyword::Let,
                            Sexp::pair(Sexp::pair(tag_var, tag), Sexp::pair(vec_var, vec)),
                            Sexp::row(setters),
                            result,
                        ),
                    ),
                )
            },
            _ => unreached(),
        }
    }

    /// The code that puts each new value of a record update into the copied
    /// field container.
    pub fn setters(&mut self, fields: &Sexp, args: &Vec<TypedRecordUpdateArg>) -> (r: Result<
        Vec<Sexp>,
        Error,
    >)
        requires
            proper(*fields),
            valid_updates(args@),
        ensures
            final(self).yields_all(
                *old(self),
                r,
                setter_forms(fields@, args@, args.len() as nat, old(self).tmp_count as nat),
                updates_temporaries(args@, args.len() as nat),
                updates_references(old(self).own(), args@, args.len() as nat),
            ),
        decreases args, 0nat,
    {
        let mut out: Vec<Sexp> = Vec::new();
        let mut i: usize = 0;
        while i < args.len()
            invariant
                i <= args.len(),
                proper(*fields),
                valid_updates(args@),
                self.follows(
                    *old(self),
                    updates_temporaries(args@, i as nat),
                    updates_references(old(self).own(), args@, i as nat),
                ),
                forms(out@) == setter_forms(
                    fields@,
                    args@,
                    i as nat,
                    old(self).tmp_count as nat,
                ),
                all_proper(out@),
            decreases args.len() - i,
        {
            proof {
                updates_temporaries_grow(args@, (i + 1) as nat, args.len() as nat);
            }
            let value = self.expression(&args[i].value)?;
            let setter = Sexp::ternary(
                Keyword::VectorSet,
                fields.duplicate(),
                Sexp::Index(args[i].index as u64),
                value,
            );
            proof {
                pushed(out@, setter);
            }
            out.push(setter);
            i += 1;
        }
        Ok(out)
    }

    /// The code for a case expression.
    pub fn case(&mut self, expr: &TypedExpr) -> (r: Result<Sexp, Error>)
        requires
            expr is Case,
            valid(*expr),
        ensures
            final(self).yields(
                *old(self),
                r,
                expr_form(*expr, old(self).tmp_count as nat),
                temporaries(*expr),
                references(old(self).own(), *expr),
            ),
        decreases expr, 1nat,
    {
        match expr {
            TypedExpr::Case { subjects, clauses, .. } => {
                let vars = self.collect_clause_variables(clauses);
                let clauses = self.clauses(subjects.len(), clauses)?;
                let subjects = self.subjects(subjects)?;
                let cond = Sexp::binary(
                    Keyword::Cond,
                    Sexp::row(clauses),
                    Sexp::unary(
                        Keyword::Else,
                        fail("panic", Sexp::Text(String::from_str("unreachable"))),
                    ),
                );
                Ok(Sexp::ternary(Keyword::Let, Sexp::single(Sexp::row(subjects)), vars, cond))
            },
            _ => unreached(),
        }
    }

    /// The code that binds each subject of a case expression: `(_i subject)`.
    pub fn subjects(&mut self, exprs: &Vec<TypedExpr>) -> (r: Result<Vec<Sexp>, Error>)
        requires
            valid_all(exprs@),
        ensures
            final(self).yields_all(
                *old(self),
                r,
                subject_bindings(exprs@, exprs.len() as nat, old(self).tmp_count as nat),
                exprs_temporaries(exprs@, exprs.len() as nat),
                exprs_references(old(self).own(), exprs@, exprs.len() as nat),
            ),
        decreases exprs, 0nat,
    {
        let mut out: Vec<Sexp> = Vec::new();
        let mut i: usize = 0;
        while i < exprs.len()
            invariant
                i <= exprs.len(),
                valid_all(exprs@),
                self.follows(
                    *old(self),
                    exprs_temporaries(exprs@, i as nat),
                    exprs_references(old(self).own(), exprs@, i as nat),
                ),
                forms(out@) == subject_bindings(exprs@, i as nat, old(self).tmp_count as nat),
                all_proper(out@),
            decreases exprs.len() - i,
        {
            proof {
                exprs_temporaries_grow(exprs@, (i + 1) as nat, exprs.len() as nat);
            }
            let subject = self.expression(&exprs[i])?;
            let bound = Sexp::pair(Sexp::Subject(i), subject);
            proof {
                pushed(out@, bound);
            }
            out.push(bound);
            i += 1;
        }
        Ok(out)
    }

    /// The code for the clauses of a case expression, in their order.
    pub fn clauses(&mut self, subjects: usize, clauses: &Vec<TypedClause>) -> (r: Result<
        Vec<Sexp>,
        Error,
    >)
        requires
            valid_clauses(clauses@),
        ensures
            final(self).yields_all(
                *old(self),
                r,
                clause_forms(
                    subjects as nat,
                    clauses@,
                    clauses.len() as nat,
                    old(self).tmp_count as nat,
                ),
                clauses_temporaries(subjects as nat, clauses@, clauses.len() as nat),
                clauses_references(
                    old(self).own(),
                    subjects as nat,
                    clauses@,
                    clauses.len() as nat,
                ),
            ),
        decreases clauses, 0nat,
    {
        let mut out: Vec<Sexp> = Vec::new();
        let mut i: usize = 0;
        while i < clauses.len()
            invariant
                i <= clauses.len(),
                valid_clauses(clauses@),
                self.follows(
                    *old(self),
                    clauses_temporaries(subjects as nat, clauses@, i as nat),
                    clauses_references(old(self).own(), subjects as nat, clauses@, i as nat),
                ),
                forms(out@) == clause_forms(
                    subjects as nat,
                    clauses@,
                    i as nat,
                    old(self).tmp_count as nat,
                ),
                all_proper(out@),
            decreases clauses.len() - i,
        {
            proof {
                clauses_temporaries_grow(
                    subjects as nat,
                    clauses@,
                    (i + 1) as nat,
                    clauses.len() as nat,
                );
            }
            let term = self.clause(subjects, &clauses[i])?;
            proof {
                pushed(out@, term);
            }
            out.push(term);
            i += 1;
        }
        Ok(out)
    }

    /// The code for one clause: `(test result)`.
    pub fn clause(&mut self, subjects: usize, clause: &TypedClause) -> (r: Result<Sexp, Error>)
        requires
            valid(clause.result),
        ensures
            final(self).yields(
                *old(self),
                r,
                clause_form(subjects as nat, *clause, old(self).tmp_count as nat),
                clause_temporaries(subjects as nat, *clause),
                clause_references(old(self).own(), subjects as nat, *clause),
            ),
        decreases clause, 0nat,
    {
        let test = self.test(subjects, clause)?;
        let result = self.expression(&clause.result)?;
        Ok(Sexp::pair(test, result))
    }

    /// The test of a clause: `(and (or patterns alternatives) guard)`.
    pub fn test(&mut self, subjects: usize, clause: &TypedClause) -> (r: Result<Sexp, Error>)
        ensures
            final(self).yields(
                *old(self),
                r,
                test_form(subjects as nat, *clause, old(self).tmp_count as nat),
                test_temporaries(subjects as nat, *clause),
                test_references(old(self).own(), subjects as nat, *clause),
            ),
    {
        let base = self.patterns(subjects, &clause.pattern)?;
        let rest = self.alternatives(subjects, &clause.alternative_patterns)?;
        let guard = match &clause.guard {
            Some(guard) => self.guard(guard),
            None => Sexp::nothing(),
        };
        Ok(Sexp::binary(Keyword::And, Sexp::binary(Keyword::Or, base, Sexp::row(rest)), guard))
    }

    /// The tests for the alternatives of a clause.
    pub fn alternatives(&mut self, subjects: usize, alternatives: &Vec<Vec<Pattern>>) -> (r: Result<
        Vec<Sexp>,
        Error,
    >)
        ensures
            final(self).yields_all(
                *old(self),
                r,
                alternative_forms(
                    subjects as nat,
                    alternatives@,
                    alternatives.len() as nat,
                    old(self).tmp_count as nat,
                ),
                alternatives_temporaries(
                    subjects as nat,
                    alternatives@,
                    alternatives.len() as nat,
                ),
                alternatives_references(
                    old(self).own(),
                    subjects as nat,
                    alternatives@,
                    alternatives.len() as nat,
                ),
            ),
    {
        let mut out: Vec<Sexp> = Vec::new();
        let mut i: usize = 0;
        while i < alternatives.len()
            invariant
                i <= alternatives.len(),
                self.follows(
                    *old(self),
                    alternatives_temporaries(subjects as nat, alternatives@, i as nat),
                    alternatives_references(
                        old(self).own(),
                        subjects as nat,
                        alternatives@,
                        i as nat,
                    ),
                ),
                forms(out@) == alternative_forms(
                    subjects as nat,
                    alternatives@,
                    i as nat,
                    old(self).tmp_count as nat,
                ),
                all_proper(out@),
            decreases alternatives.len() - i,
        {
            proof {
                alternatives_temporaries_grow(
                    subjects as nat,
                    alternatives@,
                    (i + 1) as nat,
                    alternatives.len() as nat,
                );
            }
            let term = self.patterns(subjects, &alternatives[i])?;
            proof {
                pushed(out@, term);
            }
            out.push(term);
            i += 1;
        }
        Ok(out)
    }

    /// The declaration of the variables that the clauses of a case expression
    /// bind.
    pub fn collect_clause_variables(&self, clauses: &Vec<TypedClause>) -> (r: Sexp)
        ensures
            r@ == Form::Declare(clauses_variables(clauses@, clauses.len() as nat)),
            proper(r),
    {
        let mut variables = empty();
        let mut i: usize = 0;
        while i < clauses.len()
            invariant
                i <= clauses.len(),
                members(variables) == clauses_variables(clauses@, i as nat),
            decreases clauses.len() - i,
        {
            let clause = &clauses[i];
            self.collect_patterns_variables(&mut variables, &clause.pattern);
            let ghost primary = members(variables);
            let mut j: usize = 0;
            while j < clause.alternative_patterns.len()
                invariant
                    j <= clause.alternative_patterns.len(),
                    members(variables) == primary.union(
                        alternatives_variables(clause.alternative_patterns@, j as nat),
                    ),
                decreases clause.alternative_patterns.len() - j,
            {
                self.collect_patterns_variables(&mut variables, &clause.alternative_patterns[j]);
                j += 1;
            }
            i += 1;
        }
        Sexp::declare(in_order_of(&variables))
    }

    /// The target term for the guard of a clause.
    pub fn guard(&self, guard: &ClauseGuard) -> (r: Sexp)
        ensures
            r@ == guard_form(*guard),
            proper(r),
        decreases guard,
    {
        match guard {
            ClauseGuard::Binary { name, left, right, .. } => {
                let lhs = self.guard(left);
                let rhs = self.guard(right);
                operate(*name, lhs, rhs)
            },
            ClauseGuard::Not { expression, .. } => Sexp::unary(
                Keyword::Not,
                self.guard(expression),
            ),
            ClauseGuard::Var { name, .. } => Sexp::Local(name.clone()),
            ClauseGuard::TupleIndex { index, tuple, .. } => Sexp::binary(
                Keyword::VectorRef,
                self.guard(tuple),
                Sexp::Index(*index),
            ),
            ClauseGuard::Constant(value) => self.constant(value),
        }
    }

    /// The target term for a constant.
    pub fn constant(&self, constant: &Constant) -> (r: Sexp)
        ensures
            r@ == constant_form(*constant),
            proper(r),
        decreases constant,
    {
        match constant {
            Constant::Int { value, .. } => Sexp::Number(integer(value.as_str())),
            Constant::Float { value, .. } => Sexp::Number(value.clone()),
            Constant::String { value, .. } => Sexp::Text(value.clone()),
            Constant::Tuple { elements, .. } => Sexp::variadic(
                Keyword::Vector,
                self.constants(elements),
            ),
            Constant::List { elements, .. } => Sexp::variadic(
                Keyword::List,
                self.constants(elements),
            ),
        }
    }

    /// The target terms for the constants of a vector.
    pub fn constants(&self, constants: &Vec<Constant>) -> (r: Vec<Sexp>)
        ensures
            forms(r@) == constant_forms(constants@),
            all_proper(r@),
        decreases constants,
    {
        let mut out: Vec<Sexp> = Vec::new();
        let mut i: usize = 0;
        while i < constants.len()
            invariant
                i <= constants.len(),
                out.len() == i,
                forall|j: int| 0 <= j < i ==> (#[trigger] out[j])@ == constant_form(constants[j]),
                forall|j: int| 0 <= j < i ==> proper(#[trigger] out[j]),
            decreases constants.len() - i,
        {
            out.push(self.constant(&constants[i]));
            i += 1;
        }
        assert(forms(out@) =~= constant_forms(constants@));
        out
    }

    /// The test of the subjects of a case expression against the patterns of
    /// a clause: `(and tests)`.
    pub fn patterns(&mut self, subjects: usize, patterns: &Vec<Pattern>) -> (r: Result<
        Sexp,
        Error,
    >)
        ensures
            final(self).yields(
                *old(self),
                r,
                patterns_form(subjects as nat, patterns@, old(self).tmp_count as nat),
                patterns_temporaries(patterns@, paired(subjects as nat, patterns@)),
                patterns_references(
                    old(self).own(),
                    patterns@,
                    paired(subjects as nat, patterns@),
                ),
            ),
    {
        let n: usize = if subjects < patterns.len() {
            subjects
        } else {
            patterns.len()
        };
        let mut out: Vec<Sexp> = Vec::new();
        let mut i: usize = 0;
        while i < n
            invariant
                i <= n,
                n == paired(subjects as nat, patterns@),
                self.follows(
                    *old(self),
                    patterns_temporaries(patterns@, i as nat),
                    patterns_references(old(self).own(), patterns@, i as nat),
                ),
                forms(out@) == subject_forms(patterns@, i as nat, old(self).tmp_count as nat),
                all_proper(out@),
            decreases n - i,
        {
            proof {
                patterns_temporaries_grow(patterns@, (i + 1) as nat, n as nat);
            }
            let test = self.pattern(&Sexp::Subject(i), &patterns[i])?;
            proof {
                pushed(out@, test);
            }
            out.push(test);
            i += 1;
        }
        Ok(Sexp::variadic(Keyword::And, out))
    }

    /// The test of a subject against a pattern.
    pub fn pattern(&mut self, subject: &Sexp, pattern: &Pattern) -> (r: Result<Sexp, Error>)
        requires
            proper(*subject),
        ensures
            final(self).yields(
                *old(self),
                r,
                pattern_form(subject@, *pattern, old(self).tmp_count as nat),
                pattern_temporaries(*pattern),
                pattern_references(old(self).own(), *pattern),
            ),
        decreases pattern, elements_in(*pattern) + 1,
    {
        match pattern {
            Pattern::Int { value, .. } => Ok(
                Sexp::binary(
                    Keyword::Equal,
                    subject.duplicate(),
                    Sexp::Number(integer(value.as_str())),
                ),
            ),
            Pattern::Float { value, .. } => Ok(
                Sexp::binary(Keyword::Equal, subject.duplicate(), Sexp::Number(value.clone())),
            ),
            Pattern::String { value, .. } => Ok(
                Sexp::binary(Keyword::Equal, subject.duplicate(), Sexp::Text(value.clone())),
            ),
            Pattern::Variable { name, .. } => Ok(
                Sexp::binary(
                    Keyword::Begin,
                    assignment_to(name, subject.duplicate()),
                    Sexp::Word(Keyword::True),
                ),
            ),
            Pattern::Assign { name, pattern: inner, .. } => {
                let bound = assignment_to(name, subject.duplicate());
                let test = self.pattern(subject, inner)?;
                Ok(Sexp::binary(Keyword::Begin, bound, test))
            },
            Pattern::Discard { .. } => Ok(Sexp::Word(Keyword::True)),
            Pattern::List { .. } => self.list_pattern(subject, pattern, 0),
            Pattern::Constructor { constructor, arguments, .. } => {
                self.refer(&constructor.module);
                let check = Sexp::pair(
                    Sexp::Predicate {
                        module: constructor.module.clone(),
                        name: constructor.name.clone(),
                    },
                    subject.duplicate(),
                );
                let fields = self.fields(subject, arguments)?;
                Ok(Sexp::binary(Keyword::And, check, Sexp::row(fields)))
            },
            Pattern::Tuple { elems, .. } => {
                let elements = self.elements(subject, elems)?;
                Ok(Sexp::variadic(Keyword::And, elements))
            },
            Pattern::StringPrefix {
                left_side_string,
                left_side_assignment,
                right_side_assignment,
                ..
            } => Ok(
                prefix_test(subject, left_side_string, left_side_assignment, right_side_assignment),
            ),
        }
    }

    /// The test of a list against a list pattern from its `from`-th element
    /// on.
    pub fn list_pattern(&mut self, subject: &Sexp, pattern: &Pattern, from: usize) -> (r: Result<
        Sexp,
        Error,
    >)
        requires
            proper(*subject),
            pattern is List,
            from <= elements_in(*pattern),
        ensures
            final(self).yields(
                *old(self),
                r,
                list_pattern_form(subject@, *pattern, from as nat, old(self).tmp_count as nat),
                list_temporaries(*pattern, from as nat),
                list_references(old(self).own(), *pattern, from as nat),
            ),
        decreases pattern, elements_in(*pattern) - from,
    {
        match pattern {
            Pattern::List { elements, tail, .. } => {
                if from >= elements.len() {
                    match tail {
                        Some(tail) => self.pattern(subject, tail),
                        None => Ok(
                            Sexp::binary(
                                Keyword::Equal,
                                subject.duplicate(),
                                Sexp::nullary(Keyword::List),
                            ),
                        ),
                    }
                } else {
                    let item_var = self.tmp_var()?;
                    let rest_var = self.tmp_var()?;
                    let cond = self.pattern(&item_var, &elements[from])?;
                    let cond = Sexp::ternary(
                        Keyword::If,
                        Sexp::unary(
                            Keyword::Not,
                            Sexp::binary(
                                Keyword::Equal,
                                subject.duplicate(),
                                Sexp::nullary(Keyword::List),
                            ),
                        ),
                        Sexp::binding(
                            item_var.duplicate(),
                            Sexp::unary(Keyword::Car, subject.duplicate()),
                            cond,
                        ),
                        Sexp::Word(Keyword::False),
                    );
                    let next = self.list_pattern(&rest_var, pattern, from + 1)?;
                    let next = Sexp::binding(
                        rest_var,
                        Sexp::unary(Keyword::Cdr, subject.duplicate()),
                        next,
                    );
                    Ok(Sexp::ternary(Keyword::If, cond, next, Sexp::Word(Keyword::False)))
                }
            },
            _ => unreached(),
        }
    }

    /// The tests of the fields of a tagged value against the patterns for
    /// them.
    pub fn fields(&mut self, subject: &Sexp, patterns: &Vec<Pattern>) -> (r: Result<
        Vec<Sexp>,
        Error,
    >)
        requires
            proper(*subject),
        ensures
            final(self).yields_all(
                *old(self),
                r,
                field_forms(
                    subject@,
                    patterns@,
                    patterns.len() as nat,
                    old(self).tmp_count as nat,
                ),
                patterns_temporaries(patterns@, patterns.len() as nat),
                patterns_references(old(self).own(), patterns@, patterns.len() as nat),
            ),
        decreases patterns, 0nat,
    {
        let mut out: Vec<Sexp> = Vec::new();
        let mut i: usize = 0;
        while i < patterns.len()
            invariant
                i <= patterns.len(),
                proper(*subject),
                self.follows(
                    *old(self),
                    patterns_temporaries(patterns@, i as nat),
                    patterns_references(old(self).own(), patterns@, i as nat),
                ),
                forms(out@) == field_forms(
                    subject@,
                    patterns@,
                    i as nat,
                    old(self).tmp_count as nat,
                ),
                all_proper(out@),
            decreases patterns.len() - i,
        {
            proof {
                patterns_temporaries_grow(patterns@, (i + 1) as nat, patterns.len() as nat);
            }
            let part = field_of(subject.duplicate(), i);
            let test = self.pattern(&part, &patterns[i])?;
            proof {
                pushed(out@, test);
            }
            out.push(test);
            i += 1;
        }
        Ok(out)
    }

    /// The tests of the elements of a tuple against the patterns for them.
    pub fn elements(&mut self, subject: &Sexp, patterns: &Vec<Pattern>) -> (r: Result<
        Vec<Sexp>,
        Error,
    >)
        requires
            proper(*subject),
        ensures
            final(self).yields_all(
                *old(self),
                r,
                element_forms(
                    subject@,
                    patterns@,
                    patterns.len() as nat,
                    old(self).tmp_count as nat,
                ),
                patterns.len() as nat + patterns_temporaries(patterns@, patterns.len() as nat),
                patterns_references(old(self).own(), patterns@, patterns.len() as nat),
            ),
        decreases patterns, 0nat,
    {
        let mut out: Vec<Sexp> = Vec::new();
        let mut i: usize = 0;
        while i < patterns.len()
            invariant
                i <= patterns.len(),
                proper(*subject),
                self.follows(
                    *old(self),
                    i as nat + patterns_temporaries(patterns@, i as nat),
                    patterns_references(old(self).own(), patterns@, i as nat),
                ),
                forms(out@) == element_forms(
                    subject@,
                    patterns@,
                    i as nat,
                    old(self).tmp_count as nat,
                ),
                all_proper(out@),
            decreases patterns.len() - i,
        {
            proof {
                patterns_temporaries_grow(patterns@, (i + 1) as nat, patterns.len() as nat);
            }
            let var = self.tmp_var()?;
            let inner = self.pattern(&var, &patterns[i])?;
            let item = Sexp::binding(
                var,
                Sexp::binary(Keyword::VectorRef, subject.duplicate(), Sexp::Index(i as u64)),
                inner,
            );
            proof {
                pushed(out@, item);
            }
            out.push(item);
            i += 1;
        }
        Ok(out)
    }

    /// Add the variables that a pattern binds to a set.
    pub fn do_collect_pattern_variables(&self, set: &mut HashSet<String>, pattern: &Pattern)
        ensures
            members(*final(set)) == members(*old(set)).union(pattern_variables(*pattern)),
        decreases pattern,
    {
        match pattern {
            Pattern::Int { .. }
            | Pattern::Float { .. }
            | Pattern::String { .. }
            | Pattern::Discard { .. } => {},
            Pattern::Variable { name, .. } => {
                insert(set, name.clone());
            },
            Pattern::Assign { pattern, name, .. } => {
                insert(set, name.clone());
                self.do_collect_pattern_variables(set, pattern);
            },
            Pattern::List { elements, tail, .. } => {
                self.collect_patterns_variables(set, elements);
                if let Some(tail) = tail {
                    self.do_collect_pattern_variables(set, tail);
                }
            },
            Pattern::Constructor { arguments, .. } => {
                self.collect_patterns_variables(set, arguments);
            },
            Pattern::Tuple { elems, .. } => {
                self.collect_patterns_variables(set, elems);
            },
            Pattern::StringPrefix { left_side_assignment, right_side_assignment, .. } => {
                if let Some(name) = left_side_assignment {
                    insert(set, name.clone());
                }
                if let AssignName::Variable(name) = right_side_assignment {
                    insert(set, name.clone());
                }
            },
        }
    }

    /// Add the variables that the patterns of a vector bind to a set.
    pub fn collect_patterns_variables(&self, set: &mut HashSet<String>, patterns: &Vec<Pattern>)
        ensures
            members(*final(set)) == members(*old(set)).union(
                patterns_variables(patterns@, patterns.len() as nat),
            ),
        decreases patterns,
    {
        let mut i: usize = 0;
        while i < patterns.len()
            invariant
                i <= patterns.len(),
                members(*set) == members(*old(set)).union(patterns_variables(patterns@, i as nat)),
            decreases patterns.len() - i,
        {
            self.do_collect_pattern_variables(set, &patterns[i]);
            i += 1;
        }
    }

    /// A variable that no other part of the generated code uses.
    pub fn tmp_var(&mut self) -> (r: Result<Sexp, Error>)
        ensures
            final(self).yields(
                *old(self),
                r,
                Form::Temporary((old(self).tmp_count + 1) as nat),
                1,
                Set::empty(),
            ),
    {
        if self.tmp_count == usize::MAX {
            return Err(Error::TooManyTemporaries);
        }
        self.tmp_count += 1;
        Ok(Sexp::Temporary(self.tmp_count))
    }
}

} // verus!
