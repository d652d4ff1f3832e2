//! The tree of a module: as the parser leaves it (untyped) and as type
//! inference leaves it (typed).

use crate::type_::{Type, ValueConstructor};
use vstd::prelude::*;

verus! {

/// The name of the variable that carries a value from one stage of a
/// pipeline to the next.
pub const PIPE_VARIABLE: &'static str = "_pipe";

/// The name of the parameter of a function capture, `f(_, x)`.
pub const CAPTURE_VARIABLE: &'static str = "_capture";

/// A stretch of the source text, in bytes.
#[derive(Clone, Copy, PartialEq, Eq, Structural, Debug)]
pub struct SrcSpan {
    pub start: u32,
    pub end: u32,
}

#[derive(Clone, Copy, PartialEq, Eq, Structural, Debug)]
pub enum Publicity {
    Public,
    Private,
    Internal,
}

impl Publicity {
    pub fn is_public(&self) -> (r: bool)
        ensures
            r == (*self == Publicity::Public),
    {
        match self {
            Publicity::Public => true,
            Publicity::Private | Publicity::Internal => false,
        }
    }
}

/// Who wrote an argument that the programmer did not.
#[derive(Clone, Copy, PartialEq, Eq, Structural, Debug)]
pub enum ImplicitCallArgOrigin {
    Use,
    Pipe,
}

#[derive(Clone, PartialEq, Eq, Debug)]
pub struct CallArg<A> {
    pub label: Option<String>,
    pub location: SrcSpan,
    pub value: A,
    pub implicit: Option<ImplicitCallArgOrigin>,
}

/// How a parameter is named.
#[derive(Clone, PartialEq, Eq, Debug)]
pub enum ArgNames {
    Discard { name: String },
    LabelledDiscard { label: String, name: String },
    Named { name: String },
    NamedLabelled { label: String, name: String },
}

impl ArgNames {
    /// The name that the parameter binds.
    pub open spec fn binding(self) -> String {
        match self {
            ArgNames::Discard { name } => name,
            ArgNames::LabelledDiscard { name, .. } => name,
            ArgNames::Named { name } => name,
            ArgNames::NamedLabelled { name, .. } => name,
        }
    }

    pub fn name(&self) -> (r: &String)
        ensures
            *r == self.binding(),
    {
        match self {
            ArgNames::Discard { name } => name,
            ArgNames::LabelledDiscard { name, .. } => name,
            ArgNames::Named { name } => name,
            ArgNames::NamedLabelled { name, .. } => name,
        }
    }
}

#[derive(Clone, PartialEq, Eq, Debug)]
pub struct Arg {
    pub names: ArgNames,
    pub location: SrcSpan,
}

/// The name that takes what is left of a string behind a prefix.
#[derive(Clone, PartialEq, Eq, Debug)]
pub enum AssignName {
    Variable(String),
    Discard(String),
}

#[derive(Clone, PartialEq, Eq, Debug)]
pub struct PatternConstructor {
    pub module: String,
    pub name: String,
}

#[derive(PartialEq, Eq, Debug)]
pub enum Pattern {
    Int { location: SrcSpan, value: String },
    Float { location: SrcSpan, value: String },
    String { location: SrcSpan, value: String },
    /// Binds the subject to a name.
    Variable { location: SrcSpan, name: String },
    /// Binds the subject to a name and matches it against a pattern as well.
    Assign { location: SrcSpan, name: String, pattern: Box<Pattern> },
    /// Matches anything and binds nothing.
    Discard { location: SrcSpan, name: String },
    List { location: SrcSpan, elements: Vec<Pattern>, tail: Option<Box<Pattern>> },
    Constructor { location: SrcSpan, constructor: PatternConstructor, arguments: Vec<Pattern> },
    Tuple { location: SrcSpan, elems: Vec<Pattern> },
    /// A string that begins with `left_side_string`.
    StringPrefix {
        location: SrcSpan,
        left_side_string: String,
        left_side_assignment: Option<String>,
        right_side_assignment: AssignName,
    },
}

#[derive(Clone, Copy, PartialEq, Eq, Structural, Debug)]
pub enum BinOp {
    And,
    Or,
    Eq,
    NotEq,
    LtInt,
    LtEqInt,
    LtFloat,
    LtEqFloat,
    GtEqInt,
    GtInt,
    GtEqFloat,
    GtFloat,
    AddInt,
    AddFloat,
    SubInt,
    SubFloat,
    MultInt,
    MultFloat,
    DivInt,
    DivFloat,
    RemainderInt,
    Concatenate,
}

/// A constant: a literal, or a tuple or list of constants.
#[derive(PartialEq, Eq, Debug)]
pub enum Constant {
    Int { location: SrcSpan, value: String },
    Float { location: SrcSpan, value: String },
    String { location: SrcSpan, value: String },
    Tuple { location: SrcSpan, elements: Vec<Constant> },
    List { location: SrcSpan, elements: Vec<Constant> },
}

/// The condition behind `if` in a clause. It holds no calls.
#[derive(PartialEq, Eq, Debug)]
pub enum ClauseGuard {
    Binary { location: SrcSpan, name: BinOp, left: Box<ClauseGuard>, right: Box<ClauseGuard> },
    Not { location: SrcSpan, expression: Box<ClauseGuard> },
    Var { location: SrcSpan, name: String },
    TupleIndex { location: SrcSpan, index: u64, tuple: Box<ClauseGuard> },
    Constant(Constant),
}

/// What a name selected from another module stands for.
#[derive(Clone, PartialEq, Eq, Debug)]
pub enum ModuleValueConstructor {
    Record { name: String },
    Fn { module: String, name: String },
    Constant,
}

#[derive(PartialEq, Eq, Debug)]
pub struct TypedRecordUpdateArg {
    pub label: String,
    pub location: SrcSpan,
    pub value: TypedExpr,
    pub index: u32,
}

#[derive(PartialEq, Eq, Debug)]
pub struct TypedClause {
    pub location: SrcSpan,
    pub pattern: Vec<Pattern>,
    pub alternative_patterns: Vec<Vec<Pattern>>,
    pub guard: Option<ClauseGuard>,
    pub result: TypedExpr,
}

/// `let pattern = value`.
#[derive(PartialEq, Eq, Debug)]
pub struct TypedAssignment {
    pub location: SrcSpan,
    pub pattern: Pattern,
    pub value: TypedExpr,
}

/// One stage of a pipeline, bound to the pipeline's variable.
#[derive(PartialEq, Eq, Debug)]
pub struct TypedPipelineAssignment {
    pub location: SrcSpan,
    pub name: String,
    pub value: TypedExpr,
}

#[derive(PartialEq, Eq, Debug)]
pub enum TypedStatement {
    Expression(TypedExpr),
    Assignment(TypedAssignment),
    /// A `use` that was not rewritten. Type inference rewrites every one.
    Use { location: SrcSpan },
}

#[derive(PartialEq, Eq, Debug)]
pub enum TypedExpr {
    Int { location: SrcSpan, type_: Type, value: String },
    Float { location: SrcSpan, type_: Type, value: String },
    String { location: SrcSpan, type_: Type, value: String },
    Block { location: SrcSpan, type_: Type, statements: Vec<TypedStatement> },
    Pipeline {
        location: SrcSpan,
        assignments: Vec<TypedPipelineAssignment>,
        finally: Box<TypedExpr>,
    },
    Var { location: SrcSpan, constructor: ValueConstructor, name: String },
    Fn { location: SrcSpan, type_: Type, args: Vec<Arg>, body: Vec<TypedStatement> },
    List { location: SrcSpan, type_: Type, elements: Vec<TypedExpr>, tail: Option<Box<TypedExpr>> },
    Call { location: SrcSpan, type_: Type, fun: Box<TypedExpr>, args: Vec<CallArg<TypedExpr>> },
    BinOp {
        location: SrcSpan,
        type_: Type,
        name: BinOp,
        left: Box<TypedExpr>,
        right: Box<TypedExpr>,
    },
    Case {
        location: SrcSpan,
        type_: Type,
        subjects: Vec<TypedExpr>,
        clauses: Vec<TypedClause>,
    },
    RecordAccess {
        location: SrcSpan,
        type_: Type,
        label: String,
        index: u64,
        record: Box<TypedExpr>,
    },
    ModuleSelect {
        location: SrcSpan,
        type_: Type,
        label: String,
        module_name: String,
        constructor: ModuleValueConstructor,
    },
    Tuple { location: SrcSpan, type_: Type, elems: Vec<TypedExpr> },
    TupleIndex { location: SrcSpan, type_: Type, index: u64, tuple: Box<TypedExpr> },
    Todo { location: SrcSpan, type_: Type, message: Option<Box<TypedExpr>> },
    Panic { location: SrcSpan, type_: Type, message: Option<Box<TypedExpr>> },
    RecordUpdate {
        location: SrcSpan,
        type_: Type,
        spread: Box<TypedExpr>,
        args: Vec<TypedRecordUpdateArg>,
    },
    NegateBool { location: SrcSpan, type_: Type, value: Box<TypedExpr> },
    NegateInt { location: SrcSpan, type_: Type, value: Box<TypedExpr> },
    /// Stands where an expression could not be typed.
    Invalid { location: SrcSpan, type_: Type },
}

impl TypedExpr {
    /// Where the expression stands in the source.
    pub open spec fn span(self) -> SrcSpan {
        match self {
            TypedExpr::Int { location, .. } => location,
            TypedExpr::Float { location, .. } => location,
            TypedExpr::String { location, .. } => location,
            TypedExpr::Block { location, .. } => location,
            TypedExpr::Pipeline { location, .. } => location,
            TypedExpr::Var { location, .. } => location,
            TypedExpr::Fn { location, .. } => location,
            TypedExpr::List { location, .. } => location,
            TypedExpr::Call { location, .. } => location,
            TypedExpr::BinOp { location, .. } => location,
            TypedExpr::Case { location, .. } => location,
            TypedExpr::RecordAccess { location, .. } => location,
            TypedExpr::ModuleSelect { location, .. } => location,
            TypedExpr::Tuple { location, .. } => location,
            TypedExpr::TupleIndex { location, .. } => location,
            TypedExpr::Todo { location, .. } => location,
            TypedExpr::Panic { location, .. } => location,
            TypedExpr::RecordUpdate { location, .. } => location,
            TypedExpr::NegateBool { location, .. } => location,
            TypedExpr::NegateInt { location, .. } => location,
            TypedExpr::Invalid { location, .. } => location,
        }
    }

    /// The type of the expression. A pipeline has the type of its last
    /// stage, a variable the type it was bound with.
    pub open spec fn typ(self) -> Type
        decreases self,
    {
        match self {
            TypedExpr::Int { type_, .. } => type_,
            TypedExpr::Float { type_, .. } => type_,
            TypedExpr::String { type_, .. } => type_,
            TypedExpr::Block { type_, .. } => type_,
            TypedExpr::Pipeline { finally, .. } => finally.typ(),
            TypedExpr::Var { constructor, .. } => constructor.type_,
            TypedExpr::Fn { type_, .. } => type_,
            TypedExpr::List { type_, .. } => type_,
            TypedExpr::Call { type_, .. } => type_,
            TypedExpr::BinOp { type_, .. } => type_,
            TypedExpr::Case { type_, .. } => type_,
            TypedExpr::RecordAccess { type_, .. } => type_,
            TypedExpr::ModuleSelect { type_, .. } => type_,
            TypedExpr::Tuple { type_, .. } => type_,
            TypedExpr::TupleIndex { type_, .. } => type_,
            TypedExpr::Todo { type_, .. } => type_,
            TypedExpr::Panic { type_, .. } => type_,
            TypedExpr::RecordUpdate { type_, .. } => type_,
            TypedExpr::NegateBool { type_, .. } => type_,
            TypedExpr::NegateInt { type_, .. } => type_,
            TypedExpr::Invalid { type_, .. } => type_,
        }
    }

    pub fn location(&self) -> (r: SrcSpan)
        ensures
            r == self.span(),
    {
        match self {
            TypedExpr::Int { location, .. } => *location,
            TypedExpr::Float { location, .. } => *location,
            TypedExpr::String { location, .. } => *location,
            TypedExpr::Block { location, .. } => *location,
            TypedExpr::Pipeline { location, .. } => *location,
            TypedExpr::Var { location, .. } => *location,
            TypedExpr::Fn { location, .. } => *location,
            TypedExpr::List { location, .. } => *location,
            TypedExpr::Call { location, .. } => *location,
            TypedExpr::BinOp { location, .. } => *location,
            TypedExpr::Case { location, .. } => *location,
            TypedExpr::RecordAccess { location, .. } => *location,
            TypedExpr::ModuleSelect { location, .. } => *location,
            TypedExpr::Tuple { location, .. } => *location,
            TypedExpr::TupleIndex { location, .. } => *location,
            TypedExpr::Todo { location, .. } => *location,
            TypedExpr::Panic { location, .. } => *location,
            TypedExpr::RecordUpdate { location, .. } => *location,
            TypedExpr::NegateBool { location, .. } => *location,
            TypedExpr::NegateInt { location, .. } => *location,
            TypedExpr::Invalid { location, .. } => *location,
        }
    }

    /// A copy of the expression's type.
    pub fn type_(&self) -> (r: Type)
        ensures
            r@ == self.typ()@,
        decreases self,
    {
        match self {
            TypedExpr::Int { type_, .. } => type_.clone(),
            TypedExpr::Float { type_, .. } => type_.clone(),
            TypedExpr::String { type_, .. } => type_.clone(),
            TypedExpr::Block { type_, .. } => type_.clone(),
            TypedExpr::Pipeline { finally, .. } => finally.type_(),
            TypedExpr::Var { constructor, .. } => constructor.type_.clone(),
            TypedExpr::Fn { type_, .. } => type_.clone(),
            TypedExpr::List { type_, .. } => type_.clone(),
            TypedExpr::Call { type_, .. } => type_.clone(),
            TypedExpr::BinOp { type_, .. } => type_.clone(),
            TypedExpr::Case { type_, .. } => type_.clone(),
            TypedExpr::RecordAccess { type_, .. } => type_.clone(),
            TypedExpr::ModuleSelect { type_, .. } => type_.clone(),
            TypedExpr::Tuple { type_, .. } => type_.clone(),
            TypedExpr::TupleIndex { type_, .. } => type_.clone(),
            TypedExpr::Todo { type_, .. } => type_.clone(),
            TypedExpr::Panic { type_, .. } => type_.clone(),
            TypedExpr::RecordUpdate { type_, .. } => type_.clone(),
            TypedExpr::NegateBool { type_, .. } => type_.clone(),
            TypedExpr::NegateInt { type_, .. } => type_.clone(),
            TypedExpr::Invalid { type_, .. } => type_.clone(),
        }
    }
}

/// How a function literal was written.
#[derive(Clone, Copy, PartialEq, Eq, Structural, Debug)]
pub enum FunctionLiteralKind {
    /// `fn(x) { .. }`
    Anonymous,
    /// `f(_, x)`: a function of the one argument written `_`.
    Capture,
    /// The rest of a block behind a `use`.
    Use,
}

impl FunctionLiteralKind {
    pub fn is_capture(&self) -> (r: bool)
        ensures
            r == (*self == FunctionLiteralKind::Capture),
    {
        match self {
            FunctionLiteralKind::Capture => true,
            FunctionLiteralKind::Anonymous | FunctionLiteralKind::Use => false,
        }
    }
}

#[derive(PartialEq, Eq, Debug)]
pub struct UntypedAssignment {
    pub location: SrcSpan,
    pub pattern: Pattern,
    pub value: UntypedExpr,
}

#[derive(PartialEq, Eq, Debug)]
pub enum UntypedStatement {
    Expression(UntypedExpr),
    Assignment(UntypedAssignment),
}

#[derive(PartialEq, Eq, Debug)]
pub enum UntypedExpr {
    Int { location: SrcSpan, value: String },
    Float { location: SrcSpan, value: String },
    String { location: SrcSpan, value: String },
    Var { location: SrcSpan, name: String },
    Fn {
        location: SrcSpan,
        kind: FunctionLiteralKind,
        arguments: Vec<Arg>,
        body: Vec<UntypedStatement>,
    },
    Call { location: SrcSpan, fun: Box<UntypedExpr>, arguments: Vec<CallArg<UntypedExpr>> },
    BinOp { location: SrcSpan, name: BinOp, left: Box<UntypedExpr>, right: Box<UntypedExpr> },
    FieldAccess { location: SrcSpan, label: String, container: Box<UntypedExpr> },
    Tuple { location: SrcSpan, elems: Vec<UntypedExpr> },
}

impl UntypedExpr {
    /// Where the expression stands in the source.
    pub open spec fn span(self) -> SrcSpan {
        match self {
            UntypedExpr::Int { location, .. } => location,
            UntypedExpr::Float { location, .. } => location,
            UntypedExpr::String { location, .. } => location,
            UntypedExpr::Var { location, .. } => location,
            UntypedExpr::Fn { location, .. } => location,
            UntypedExpr::Call { location, .. } => location,
            UntypedExpr::BinOp { location, .. } => location,
            UntypedExpr::FieldAccess { location, .. } => location,
            UntypedExpr::Tuple { location, .. } => location,
        }
    }

    pub fn location(&self) -> (r: SrcSpan)
        ensures
            r == self.span(),
    {
        match self {
            UntypedExpr::Int { location, .. } => *location,
            UntypedExpr::Float { location, .. } => *location,
            UntypedExpr::String { location, .. } => *location,
            UntypedExpr::Var { location, .. } => *location,
            UntypedExpr::Fn { location, .. } => *location,
            UntypedExpr::Call { location, .. } => *location,
            UntypedExpr::BinOp { location, .. } => *location,
            UntypedExpr::FieldAccess { location, .. } => *location,
            UntypedExpr::Tuple { location, .. } => *location,
        }
    }
}

/// One constructor of a custom type: its tag and one entry for each field.
#[derive(Clone, PartialEq, Eq, Debug)]
pub struct RecordConstructor {
    pub location: SrcSpan,
    pub name: String,
    pub arguments: Vec<RecordConstructorArg>,
}

#[derive(Clone, PartialEq, Eq, Debug)]
pub struct RecordConstructorArg {
    pub label: Option<String>,
    pub location: SrcSpan,
}

#[derive(Clone, PartialEq, Eq, Debug)]
pub struct CustomType {
    pub location: SrcSpan,
    pub name: String,
    pub publicity: Publicity,
    pub constructors: Vec<RecordConstructor>,
}

/// A function of a module. With `external_chez` the target runtime supplies
/// the function under that module and name, and the body is not used.
#[derive(PartialEq, Eq, Debug)]
pub struct TypedFunction {
    pub location: SrcSpan,
    pub name: String,
    pub publicity: Publicity,
    pub arguments: Vec<Arg>,
    pub body: Vec<TypedStatement>,
    pub external_chez: Option<(String, String)>,
}

#[derive(PartialEq, Eq, Debug)]
pub struct ModuleConstant {
    pub location: SrcSpan,
    pub publicity: Publicity,
    pub name: String,
    pub value: Constant,
}

#[derive(Clone, PartialEq, Eq, Debug)]
pub struct Import {
    pub location: SrcSpan,
    pub module: String,
}

#[derive(Clone, PartialEq, Eq, Debug)]
pub struct TypeAlias {
    pub location: SrcSpan,
    pub alias: String,
    pub publicity: Publicity,
}

#[derive(PartialEq, Eq, Debug)]
pub enum Definition {
    Function(TypedFunction),
    TypeAlias(TypeAlias),
    CustomType(CustomType),
    Import(Import),
    ModuleConstant(ModuleConstant),
}

#[derive(PartialEq, Eq, Debug)]
pub struct TypedModule {
    pub name: String,
    pub definitions: Vec<Definition>,
}

} // verus!
