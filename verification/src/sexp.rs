//! The target program as a tree of symbolic expressions, and its text.

use crate::order::{in_order, ordered, ordered_is};
use crate::text::{contents, decimal, joined, numeral, spaced};
use vstd::prelude::*;

verus! {

/// The fixed words of the target language that generated code uses.
#[derive(Clone, Copy, PartialEq, Eq, Structural, Debug)]
pub enum Keyword {
    Define,
    Lambda,
    Let,
    If,
    Cond,
    Else,
    And,
    Or,
    Not,
    Begin,
    Assign,
    Equal,
    Car,
    Cdr,
    Cadr,
    Cons,
    List,
    Vector,
    VectorRef,
    VectorCopy,
    VectorSet,
    Error,
    StringPrefix,
    StringLength,
    StringAppend,
    Substring,
    Plus,
    Minus,
    Times,
    Quotient,
    Divide,
    Remainder,
    Less,
    LessOrEqual,
    Greater,
    GreaterOrEqual,
    True,
    False,
}

impl Keyword {
    /// How the word is written.
    pub open spec fn spelling(self) -> Seq<char> {
        match self {
            Keyword::Define => "define"@,
            Keyword::Lambda => "lambda"@,
            Keyword::Let => "let"@,
            Keyword::If => "if"@,
            Keyword::Cond => "cond"@,
            Keyword::Else => "else"@,
            Keyword::And => "and"@,
            Keyword::Or => "or"@,
            Keyword::Not => "not"@,
            Keyword::Begin => "begin"@,
            Keyword::Assign => "set!"@,
            Keyword::Equal => "equal?"@,
            Keyword::Car => "car"@,
            Keyword::Cdr => "cdr"@,
            Keyword::Cadr => "cadr"@,
            Keyword::Cons => "cons"@,
            Keyword::List => "list"@,
            Keyword::Vector => "vector"@,
            Keyword::VectorRef => "vector-ref"@,
            Keyword::VectorCopy => "vector-copy"@,
            Keyword::VectorSet => "vector-set!"@,
            Keyword::Error => "error"@,
            Keyword::StringPrefix => "gleam.string-prefix?"@,
            Keyword::StringLength => "string-length"@,
            Keyword::StringAppend => "string-append"@,
            Keyword::Substring => "substring"@,
            Keyword::Plus => "+"@,
            Keyword::Minus => "-"@,
            Keyword::Times => "*"@,
            Keyword::Quotient => "div"@,
            Keyword::Divide => "/"@,
            Keyword::Remainder => "remainder"@,
            Keyword::Less => "<"@,
            Keyword::LessOrEqual => "<="@,
            Keyword::Greater => ">"@,
            Keyword::GreaterOrEqual => ">="@,
            Keyword::True => "gleam.True"@,
            Keyword::False => "gleam.False"@,
        }
    }

    pub fn text(self) -> (r: &'static str)
        ensures
            r@ == self.spelling(),
    {
        match self {
            Keyword::Define => "define",
            Keyword::Lambda => "lambda",
            Keyword::Let => "let",
            Keyword::If => "if",
            Keyword::Cond => "cond",
            Keyword::Else => "else",
            Keyword::And => "and",
            Keyword::Or => "or",
            Keyword::Not => "not",
            Keyword::Begin => "begin",
            Keyword::Assign => "set!",
            Keyword::Equal => "equal?",
            Keyword::Car => "car",
            Keyword::Cdr => "cdr",
            Keyword::Cadr => "cadr",
            Keyword::Cons => "cons",
            Keyword::List => "list",
            Keyword::Vector => "vector",
            Keyword::VectorRef => "vector-ref",
            Keyword::VectorCopy => "vector-copy",
            Keyword::VectorSet => "vector-set!",
            Keyword::Error => "error",
            Keyword::StringPrefix => "gleam.string-prefix?",
            Keyword::StringLength => "string-length",
            Keyword::StringAppend => "string-append",
            Keyword::Substring => "substring",
            Keyword::Plus => "+",
            Keyword::Minus => "-",
            Keyword::Times => "*",
            Keyword::Quotient => "div",
            Keyword::Divide => "/",
            Keyword::Remainder => "remainder",
            Keyword::Less => "<",
            Keyword::LessOrEqual => "<=",
            Keyword::Greater => ">",
            Keyword::GreaterOrEqual => ">=",
            Keyword::True => "gleam.True",
            Keyword::False => "gleam.False",
        }
    }
}

/// A term of the target program.
///
/// A `List` is written in parentheses, a `Row` without them: a row fills
/// one place of the list around it with any number of terms, and an empty row
/// leaves the place empty. `Declare` introduces local variables before they
/// are assigned; the order of its names carries no meaning.
#[derive(Debug)]
pub enum Sexp {
    /// A word of the target language.
    Word(Keyword),
    /// A symbol written as it is.
    Name(String),
    /// A definition of a module: `module.name`.
    Global { module: String, name: String },
    /// The test for one constructor's tag: `module.name?`.
    Predicate { module: String, name: String },
    /// A variable of the source program: `$name`.
    Local(String),
    /// A variable that the generator made up: `$_n`.
    Temporary(usize),
    /// The n-th subject of a case expression, or parameter of a
    /// constructor: `_n`.
    Subject(usize),
    /// A quoted symbol: `'tag`.
    Quote(String),
    /// A string literal, between double quotes.
    Text(String),
    /// A numeric literal, digit by digit.
    Number(String),
    /// A position in a field container or a string, in decimal.
    Index(u64),
    List(Vec<Sexp>),
    Row(Vec<Sexp>),
    Declare(Vec<String>),
}

/// What a term means, apart from the order in which it lists the variables
/// it declares.
pub enum Form {
    Word(Keyword),
    Name(Seq<char>),
    Global { module: Seq<char>, name: Seq<char> },
    Predicate { module: Seq<char>, name: Seq<char> },
    Local(Seq<char>),
    Temporary(nat),
    Subject(nat),
    Quote(Seq<char>),
    Text(Seq<char>),
    Number(Seq<char>),
    Index(nat),
    List(Seq<Form>),
    Row(Seq<Form>),
    Declare(Set<Seq<char>>),
}

/// The form of a term.
pub open spec fn form(term: Sexp) -> Form
    decreases term,
{
    match term {
        Sexp::Word(word) => Form::Word(word),
        Sexp::Name(name) => Form::Name(name@),
        Sexp::Global { module, name } => Form::Global { module: module@, name: name@ },
        Sexp::Predicate { module, name } => Form::Predicate { module: module@, name: name@ },
        Sexp::Local(name) => Form::Local(name@),
        Sexp::Temporary(n) => Form::Temporary(n as nat),
        Sexp::Subject(n) => Form::Subject(n as nat),
        Sexp::Quote(tag) => Form::Quote(tag@),
        Sexp::Text(value) => Form::Text(value@),
        Sexp::Number(digits) => Form::Number(digits@),
        Sexp::Index(n) => Form::Index(n as nat),
        Sexp::List(items) => Form::List(forms(items@)),
        Sexp::Row(items) => Form::Row(forms(items@)),
        Sexp::Declare(names) => Form::Declare(contents(names@).to_set()),
    }
}

/// The forms of a sequence of terms.
pub open spec fn forms(terms: Seq<Sexp>) -> Seq<Form>
    decreases terms,
{
    Seq::new(
        terms.len(),
        |i: int|
            if 0 <= i < terms.len() {
                form(terms[i])
            } else {
                Form::Row(Seq::empty())
            },
    )
}

/// Each term that declares variables names them in order, none of them
/// twice.
pub open spec fn proper(term: Sexp) -> bool
    decreases term,
{
    match term {
        Sexp::List(items) => all_proper(items@),
        Sexp::Row(items) => all_proper(items@),
        Sexp::Declare(names) => in_order(contents(names@)),
        _ => true,
    }
}

/// Each term of a sequence is `proper`.
pub open spec fn all_proper(terms: Seq<Sexp>) -> bool
    decreases terms,
{
    forall|i: int| 0 <= i < terms.len() ==> proper(#[trigger] terms[i])
}

/// `(word)`.
pub open spec fn nullary(word: Keyword) -> Form {
    Form::List(seq![Form::Word(word)])
}

/// `(word a)`.
pub open spec fn unary(word: Keyword, a: Form) -> Form {
    Form::List(seq![Form::Word(word), a])
}

/// `(word a b)`.
pub open spec fn binary(word: Keyword, a: Form, b: Form) -> Form {
    Form::List(seq![Form::Word(word), a, b])
}

/// `(word a b c)`.
pub open spec fn ternary(word: Keyword, a: Form, b: Form, c: Form) -> Form {
    Form::List(seq![Form::Word(word), a, b, c])
}

/// `(word a b c d)`.
pub open spec fn quaternary(word: Keyword, a: Form, b: Form, c: Form, d: Form) -> Form {
    Form::List(seq![Form::Word(word), a, b, c, d])
}

/// `(word items)`: a word and one place for any number of terms.
pub open spec fn variadic(word: Keyword, items: Seq<Form>) -> Form {
    Form::List(seq![Form::Word(word), Form::Row(items)])
}

/// The empty list of the target.
pub open spec fn empty_list() -> Form {
    nullary(Keyword::List)
}

/// `(let ((name value)) body)`.
pub open spec fn binding(name: Form, value: Form, body: Form) -> Form {
    Form::List(
        seq![Form::Word(Keyword::Let), Form::List(seq![Form::List(seq![name, value])]), body],
    )
}

/// The declaration of one local variable.
pub open spec fn declaration(name: Seq<char>) -> Seq<char> {
    "(define $"@ + name + ")"@
}

/// The text of a term.
pub open spec fn written(term: Sexp) -> Seq<char>
    decreases term,
{
    match term {
        Sexp::Word(word) => word.spelling(),
        Sexp::Name(name) => name@,
        Sexp::Global { module, name } => module@ + "."@ + name@,
        Sexp::Predicate { module, name } => module@ + "."@ + name@ + "?"@,
        Sexp::Local(name) => "$"@ + name@,
        Sexp::Temporary(n) => "$_"@ + decimal(n as nat),
        Sexp::Subject(n) => "_"@ + decimal(n as nat),
        Sexp::Quote(tag) => "'"@ + tag@,
        Sexp::Text(value) => "\""@ + value@ + "\""@,
        Sexp::Number(digits) => digits@,
        Sexp::Index(n) => decimal(n as nat),
        Sexp::List(items) => "("@ + joined(all_written(items@), " "@) + ")"@,
        Sexp::Row(items) => joined(all_written(items@), " "@),
        Sexp::Declare(names) => joined(
            contents(names@).map_values(|name: Seq<char>| declaration(name)),
            " "@,
        ),
    }
}

/// The text of each term of a sequence.
pub open spec fn all_written(terms: Seq<Sexp>) -> Seq<Seq<char>>
    decreases terms,
{
    Seq::new(
        terms.len(),
        |i: int|
            if 0 <= i < terms.len() {
                written(terms[i])
            } else {
                Seq::empty()
            },
    )
}

/// The text of a form. The variables that it declares are written in order.
pub open spec fn text(form: Form) -> Seq<char>
    decreases form,
{
    match form {
        Form::Word(word) => word.spelling(),
        Form::Name(name) => name,
        Form::Global { module, name } => module + "."@ + name,
        Form::Predicate { module, name } => module + "."@ + name + "?"@,
        Form::Local(name) => "$"@ + name,
        Form::Temporary(n) => "$_"@ + decimal(n),
        Form::Subject(n) => "_"@ + decimal(n),
        Form::Quote(tag) => "'"@ + tag,
        Form::Text(value) => "\""@ + value + "\""@,
        Form::Number(digits) => digits,
        Form::Index(n) => decimal(n),
        Form::List(items) => "("@ + joined(texts(items), " "@) + ")"@,
        Form::Row(items) => joined(texts(items), " "@),
        Form::Declare(names) => joined(
            ordered(names).map_values(|name: Seq<char>| declaration(name)),
            " "@,
        ),
    }
}

/// The text of each form of a sequence.
pub open spec fn texts(forms: Seq<Form>) -> Seq<Seq<char>>
    decreases forms,
{
    Seq::new(
        forms.len(),
        |i: int|
            if 0 <= i < forms.len() {
                text(forms[i])
            } else {
                Seq::empty()
            },
    )
}

/// The text of a proper term is the text of its form: the form fixes it.
pub proof fn written_is_text(term: Sexp)
    requires
        proper(term),
    ensures
        written(term) == text(term@),
    decreases term,
{
    match term {
        Sexp::List(items) => all_written_are_texts(items@),
        Sexp::Row(items) => all_written_are_texts(items@),
        Sexp::Declare(names) => ordered_is(contents(names@)),
        _ => {},
    }
}

/// The texts of proper terms are the texts of their forms.
pub proof fn all_written_are_texts(terms: Seq<Sexp>)
    requires
        all_proper(terms),
    ensures
        all_written(terms) == texts(forms(terms)),
    decreases terms,
{
    assert forall|i: int| 0 <= i < terms.len() implies written(terms[i]) == text(
        forms(terms)[i],
    ) by {
        written_is_text(terms[i]);
    }
    assert(all_written(terms) =~= texts(forms(terms)));
}

impl View for Sexp {
    type V = Form;

    open spec fn view(&self) -> Form {
        form(*self)
    }
}

impl Sexp {
    /// Write the term out.
    #[verifier::loop_isolation(false)]
    pub fn render(&self) -> (r: String)
        ensures
            r@ == written(*self),
        decreases self,
    {
        match self {
            Sexp::Word(word) => String::from_str(word.text()),
            Sexp::Name(name) => name.clone(),
            Sexp::Global { module, name } => {
                let mut out = module.clone();
                out.append(".");
                out.append(name.as_str());
                out
            },
            Sexp::Predicate { module, name } => {
                let mut out = module.clone();
                out.append(".");
                out.append(name.as_str());
                out.append("?");
                out
            },
            Sexp::Local(name) => {
                let mut out = String::from_str("$");
                out.append(name.as_str());
                out
            },
            Sexp::Temporary(n) => {
                let mut out = String::from_str("$_");
                out.append(numeral(*n as u64).as_str());
                out
            },
            Sexp::Subject(n) => {
                let mut out = String::from_str("_");
                out.append(numeral(*n as u64).as_str());
                out
            },
            Sexp::Quote(tag) => {
                let mut out = String::from_str("'");
                out.append(tag.as_str());
                out
            },
            Sexp::Text(value) => {
                let mut out = String::from_str("\"");
                out.append(value.as_str());
                out.append("\"");
                out
            },
            Sexp::Number(digits) => digits.clone(),
            Sexp::Index(n) => numeral(*n),
            Sexp::List(items) => {
                let mut parts: Vec<String> = Vec::new();
                let mut i: usize = 0;
                while i < items.len()
                    invariant
                        i <= items.len(),
                        parts.len() == i,
                        forall|j: int| 0 <= j < i ==> parts[j]@ == written(items[j]),
                    decreases items.len() - i,
                {
                    parts.push(items[i].render());
                    i += 1;
                }
                assert(contents(parts@) =~= all_written(items@));
                let mut out = String::from_str("(");
                out.append(spaced(&parts).as_str());
                out.append(")");
                out
            },
            Sexp::Row(items) => {
                let mut parts: Vec<String> = Vec::new();
                let mut i: usize = 0;
                while i < items.len()
                    invariant
                        i <= items.len(),
                        parts.len() == i,
                        forall|j: int| 0 <= j < i ==> parts[j]@ == written(items[j]),
                    decreases items.len() - i,
                {
                    parts.push(items[i].render());
                    i += 1;
                }
                assert(contents(parts@) =~= all_written(items@));
                spaced(&parts)
            },
            Sexp::Declare(names) => {
                let mut parts: Vec<String> = Vec::new();
                let mut i: usize = 0;
                while i < names.len()
                    invariant
                        i <= names.len(),
                        parts.len() == i,
                        forall|j: int| 0 <= j < i ==> parts[j]@ == declaration(names[j]@),
                    decreases names.len() - i,
                {
                    let mut part = String::from_str("(define $");
                    part.append(names[i].as_str());
                    part.append(")");
                    parts.push(part);
                    i += 1;
                }
                assert(contents(parts@) =~= contents(names@).map_values(
                    |name: Seq<char>| declaration(name),
                ));
                spaced(&parts)
            },
        }
    }

    /// `(word)`.
    pub fn nullary(word: Keyword) -> (r: Sexp)
        ensures
            r@ == nullary(word),
            proper(r),
    {
        let mut items: Vec<Sexp> = Vec::new();
        items.push(Sexp::Word(word));
        assert(forms(items@) =~= seq![Form::Word(word)]);
        assert(proper(items@[0]));
        Sexp::List(items)
    }

    /// `(word a)`.
    pub fn unary(word: Keyword, a: Sexp) -> (r: Sexp)
        ensures
            r@ == unary(word, a@),
            proper(r) == proper(a),
    {
        let mut items: Vec<Sexp> = Vec::new();
        items.push(Sexp::Word(word));
        items.push(a);
        assert(forms(items@) =~= seq![Form::Word(word), a@]);
        assert(proper(items@[0]) && items@[1] == a);
        Sexp::List(items)
    }

    /// `(word a b)`.
    pub fn binary(word: Keyword, a: Sexp, b: Sexp) -> (r: Sexp)
        ensures
            r@ == binary(word, a@, b@),
            proper(r) == (proper(a) && proper(b)),
    {
        let mut items: Vec<Sexp> = Vec::new();
        items.push(Sexp::Word(word));
        items.push(a);
        items.push(b);
        assert(forms(items@) =~= seq![Form::Word(word), a@, b@]);
        assert(proper(items@[0]) && items@[1] == a && items@[2] == b);
        Sexp::List(items)
    }

    /// `(word a b c)`.
    pub fn ternary(word: Keyword, a: Sexp, b: Sexp, c: Sexp) -> (r: Sexp)
        ensures
            r@ == ternary(word, a@, b@, c@),
            proper(r) == (proper(a) && proper(b) && proper(c)),
    {
        let mut items: Vec<Sexp> = Vec::new();
        items.push(Sexp::Word(word));
        items.push(a);
        items.push(b);
        items.push(c);
        assert(forms(items@) =~= seq![Form::Word(word), a@, b@, c@]);
        assert(proper(items@[0]) && items@[1] == a && items@[2] == b && items@[3] == c);
        Sexp::List(items)
    }

    /// `(word a b c d)`.
    pub fn quaternary(word: Keyword, a: Sexp, b: Sexp, c: Sexp, d: Sexp) -> (r: Sexp)
        ensures
            r@ == quaternary(word, a@, b@, c@, d@),
            proper(r) == (proper(a) && proper(b) && proper(c) && proper(d)),
    {
        let mut items: Vec<Sexp> = Vec::new();
        items.push(Sexp::Word(word));
        items.push(a);
        items.push(b);
        items.push(c);
        items.push(d);
        assert(forms(items@) =~= seq![Form::Word(word), a@, b@, c@, d@]);
        assert(proper(items@[0]) && items@[1] == a && items@[2] == b && items@[3] == c
            && items@[4] == d);
        Sexp::List(items)
    }

    /// The declaration of the names of a vector, which stand in order.
    pub fn declare(names: Vec<String>) -> (r: Sexp)
        requires
            in_order(contents(names@)),
        ensures
            r@ == Form::Declare(contents(names@).to_set()),
            proper(r),
    {
        Sexp::Declare(names)
    }

    /// `(word items)`.
    pub fn variadic(word: Keyword, items: Vec<Sexp>) -> (r: Sexp)
        ensures
            r@ == variadic(word, forms(items@)),
            proper(r) == all_proper(items@),
    {
        let ghost given = items@;
        let row = Sexp::Row(items);
        let mut outer: Vec<Sexp> = Vec::new();
        outer.push(Sexp::Word(word));
        outer.push(row);
        assert(forms(outer@) =~= seq![Form::Word(word), Form::Row(forms(given))]);
        assert(proper(outer@[0]) && outer@[1] == row);
        assert(proper(row) == all_proper(given));
        Sexp::List(outer)
    }

    /// `(a b)`.
    pub fn pair(a: Sexp, b: Sexp) -> (r: Sexp)
        ensures
            r@ == Form::List(seq![a@, b@]),
            proper(r) == (proper(a) && proper(b)),
    {
        let mut items: Vec<Sexp> = Vec::new();
        items.push(a);
        items.push(b);
        assert(forms(items@) =~= seq![a@, b@]);
        assert(items@[0] == a && items@[1] == b);
        Sexp::List(items)
    }

    /// `(a)`.
    pub fn single(a: Sexp) -> (r: Sexp)
        ensures
            r@ == Form::List(seq![a@]),
            proper(r) == proper(a),
    {
        let mut items: Vec<Sexp> = Vec::new();
        items.push(a);
        assert(forms(items@) =~= seq![a@]);
        assert(items@[0] == a);
        Sexp::List(items)
    }

    /// A place that holds nothing.
    pub fn nothing() -> (r: Sexp)
        ensures
            r@ == Form::Row(Seq::empty()),
            proper(r),
    {
        let items: Vec<Sexp> = Vec::new();
        assert(forms(items@) =~= Seq::empty());
        Sexp::Row(items)
    }

    /// `()`.
    pub fn unit() -> (r: Sexp)
        ensures
            r@ == Form::List(Seq::empty()),
            proper(r),
    {
        let items: Vec<Sexp> = Vec::new();
        assert(forms(items@) =~= Seq::empty());
        Sexp::List(items)
    }

    /// The terms in a row.
    pub fn row(items: Vec<Sexp>) -> (r: Sexp)
        ensures
            r@ == Form::Row(forms(items@)),
            proper(r) == all_proper(items@),
    {
        Sexp::Row(items)
    }

    /// `(let ((name value)) body)`.
    pub fn binding(name: Sexp, value: Sexp, body: Sexp) -> (r: Sexp)
        ensures
            r@ == binding(name@, value@, body@),
            proper(r) == (proper(name) && proper(value) && proper(body)),
    {
        let bindings = Sexp::single(Sexp::pair(name, value));
        let mut items: Vec<Sexp> = Vec::new();
        items.push(Sexp::Word(Keyword::Let));
        items.push(bindings);
        items.push(body);
        assert(forms(items@) =~= seq![Form::Word(Keyword::Let), bindings@, body@]);
        assert(proper(items@[0]) && items@[1] == bindings && items@[2] == body);
        Sexp::List(items)
    }

    /// A copy of the term.
    pub fn duplicate(&self) -> (r: Sexp)
        ensures
            r@ == self@,
            proper(r) == proper(*self),
            written(r) == written(*self),
        decreases self,
    {
        match self {
            Sexp::Word(word) => Sexp::Word(*word),
            Sexp::Name(name) => Sexp::Name(name.clone()),
            Sexp::Global { module, name } => Sexp::Global {
                module: module.clone(),
                name: name.clone(),
            },
            Sexp::Predicate { module, name } => Sexp::Predicate {
                module: module.clone(),
                name: name.clone(),
            },
            Sexp::Local(name) => Sexp::Local(name.clone()),
            Sexp::Temporary(n) => Sexp::Temporary(*n),
            Sexp::Subject(n) => Sexp::Subject(*n),
            Sexp::Quote(tag) => Sexp::Quote(tag.clone()),
            Sexp::Text(value) => Sexp::Text(value.clone()),
            Sexp::Number(digits) => Sexp::Number(digits.clone()),
            Sexp::Index(n) => Sexp::Index(*n),
            Sexp::List(items) => Sexp::List(duplicates(items)),
            Sexp::Row(items) => Sexp::Row(duplicates(items)),
            Sexp::Declare(names) => {
                let mut out: Vec<String> = Vec::new();
                let mut i: usize = 0;
                while i < names.len()
                    invariant
                        i <= names.len(),
                        out.len() == i,
                        forall|j: int| 0 <= j < i ==> out[j]@ == names[j]@,
                    decreases names.len() - i,
                {
                    out.push(names[i].clone());
                    i += 1;
                }
                assert(contents(out@) =~= contents(names@));
                Sexp::Declare(out)
            },
        }
    }
}

/// One term more at the end of a sequence.
pub proof fn pushed(terms: Seq<Sexp>, term: Sexp)
    ensures
        forms(terms.push(term)) == forms(terms).push(term@),
        all_proper(terms.push(term)) == (all_proper(terms) && proper(term)),
        all_written(terms.push(term)) == all_written(terms).push(written(term)),
{
    let longer = terms.push(term);
    assert(forms(longer) =~= forms(terms).push(term@));
    assert(all_written(longer) =~= all_written(terms).push(written(term)));
    if all_proper(terms) && proper(term) {
        assert forall|i: int| 0 <= i < longer.len() implies proper(#[trigger] longer[i]) by {
            if i < terms.len() {
                assert(proper(terms[i]));
            }
        }
    }
    if all_proper(longer) {
        assert forall|i: int| 0 <= i < terms.len() implies proper(#[trigger] terms[i]) by {
            assert(proper(longer[i]));
        }
        assert(proper(longer[terms.len() as int]));
    }
}

/// A copy of each term of a vector.
pub fn duplicates(terms: &Vec<Sexp>) -> (r: Vec<Sexp>)
    ensures
        forms(r@) == forms(terms@),
        all_proper(r@) == all_proper(terms@),
        all_written(r@) == all_written(terms@),
    decreases terms,
{
    let mut out: Vec<Sexp> = Vec::new();
    let mut i: usize = 0;
    while i < terms.len()
        invariant
            i <= terms.len(),
            out.len() == i,
            forall|j: int| 0 <= j < i ==> (#[trigger] out[j])@ == terms[j]@,
            forall|j: int| 0 <= j < i ==> proper(#[trigger] out[j]) == proper(terms[j]),
            forall|j: int| 0 <= j < i ==> written(#[trigger] out[j]) == written(terms[j]),
        decreases terms.len() - i,
    {
        out.push(terms[i].duplicate());
        i += 1;
    }
    assert(forms(out@) =~= forms(terms@));
    assert(all_written(out@) =~= all_written(terms@));
    assert(all_proper(out@) == all_proper(terms@)) by {
        if all_proper(terms@) {
            assert forall|j: int| 0 <= j < out.len() implies proper(#[trigger] out[j]) by {
                assert(proper(terms[j]));
            }
        }
        if all_proper(out@) {
            assert forall|j: int| 0 <= j < terms.len() implies proper(#[trigger] terms[j]) by {
                assert(proper(out[j]));
            }
        }
    }
    out
}

} // verus!
