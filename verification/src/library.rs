//! A library of the target: the unit that is generated for one module.

use crate::order::{in_order, ordered, ordered_is};
use crate::sexp::{Form, form, proper, Sexp, text, written, written_is_text};
use crate::text::{contents, joined, spaced};
use vstd::prelude::*;

verus! {

/// One piece of a library's body.
#[derive(Debug)]
pub enum Item {
    /// A definition, on a line of its own.
    Definition(Sexp),
    /// An empty line. One stands behind the definitions of each custom type.
    Break,
}

/// What a piece of a library's body means.
pub enum ItemForm {
    Definition(Form),
    Break,
}

impl View for Item {
    type V = ItemForm;

    open spec fn view(&self) -> ItemForm {
        match self {
            Item::Definition(term) => ItemForm::Definition(form(*term)),
            Item::Break => ItemForm::Break,
        }
    }
}

impl Item {
    /// No term of the item declares a variable twice.
    pub open spec fn proper(self) -> bool {
        match self {
            Item::Definition(term) => proper(term),
            Item::Break => true,
        }
    }

    /// The text of the item, with the end of its line.
    pub open spec fn written(self) -> Seq<char> {
        match self {
            Item::Definition(term) => written(term) + "\n"@,
            Item::Break => "\n"@,
        }
    }
}

impl ItemForm {
    /// The text of the piece, with the end of its line.
    pub open spec fn text(self) -> Seq<char> {
        match self {
            ItemForm::Definition(form) => text(form) + "\n"@,
            ItemForm::Break => "\n"@,
        }
    }
}

/// What each item of a sequence means.
pub open spec fn item_forms(items: Seq<Item>) -> Seq<ItemForm> {
    items.map_values(|item: Item| item@)
}

/// No item of a sequence declares a variable twice.
pub open spec fn items_proper(items: Seq<Item>) -> bool {
    forall|i: int| 0 <= i < items.len() ==> (#[trigger] items[i]).proper()
}

/// The text of the first `n` items, one behind the other.
pub open spec fn body_written(items: Seq<Item>, n: nat) -> Seq<char>
    decreases n,
{
    if n == 0 || n > items.len() {
        Seq::empty()
    } else {
        body_written(items, (n - 1) as nat) + items[n - 1].written()
    }
}

/// The text of the first `n` pieces of a body, one behind the other.
pub open spec fn body_text(items: Seq<ItemForm>, n: nat) -> Seq<char>
    decreases n,
{
    if n == 0 || n > items.len() {
        Seq::empty()
    } else {
        body_text(items, (n - 1) as nat) + items[n - 1].text()
    }
}

/// The text of proper items is the text of what they mean.
pub proof fn body_written_is_text(items: Seq<Item>, n: nat)
    requires
        items_proper(items),
    ensures
        body_written(items, n) == body_text(item_forms(items), n),
    decreases n,
{
    if n == 0 || n > items.len() {
    } else {
        body_written_is_text(items, (n - 1) as nat);
        match items[n - 1] {
            Item::Definition(term) => written_is_text(term),
            Item::Break => {},
        }
    }
}

/// A module of another library as the import clause names it: `(name)`.
pub open spec fn imported(name: Seq<char>) -> Seq<char> {
    "("@ + name + ")"@
}

/// The unit generated for one module. The exports and the imports stand in
/// the order in which they will be written: in a proper library that is the
/// order of a dictionary.
#[derive(Debug)]
pub struct Library {
    pub name: String,
    /// The names that other libraries may use.
    pub exports: Vec<String>,
    /// The libraries that this one uses, besides the runtime's.
    pub imports: Vec<String>,
    pub body: Vec<Item>,
}

/// What a library means, apart from the order of its exports, of its
/// imports, and of the variables that its scopes declare.
pub struct LibraryForm {
    pub name: Seq<char>,
    pub exports: Set<Seq<char>>,
    pub imports: Set<Seq<char>>,
    pub body: Seq<ItemForm>,
}

impl LibraryForm {
    /// The text of the library: its name, what it exports, what it imports
    /// (first the target's own library and the runtime prelude), and its
    /// body. Exports, imports and declared variables are written in order.
    pub open spec fn text(self) -> Seq<char> {
        "(library ("@ + self.name + ")\n  (export "@ + joined(ordered(self.exports), " "@)
            + ")\n  (import (chezscheme) (gleam/$prelude) "@ + joined(
            ordered(self.imports).map_values(|name: Seq<char>| imported(name)),
            " "@,
        ) + ")\n  "@ + body_text(self.body, self.body.len())
            + ")"@
    }
}

impl View for Library {
    type V = LibraryForm;

    open spec fn view(&self) -> LibraryForm {
        LibraryForm {
            name: self.name@,
            exports: contents(self.exports@).to_set(),
            imports: contents(self.imports@).to_set(),
            body: item_forms(self.body@),
        }
    }
}

impl Library {
    /// What is exported, imported or declared is listed in order, none of it
    /// twice.
    pub open spec fn proper(self) -> bool {
        &&& in_order(contents(self.exports@))
        &&& in_order(contents(self.imports@))
        &&& items_proper(self.body@)
    }

    /// The text of a proper library is the text of its form.
    pub proof fn written_is_text(self)
        requires
            self.proper(),
        ensures
            self.written() == self@.text(),
    {
        ordered_is(contents(self.exports@));
        ordered_is(contents(self.imports@));
        body_written_is_text(self.body@, self.body.len() as nat);
    }

    /// The text of the library: its name, what it exports, what it imports
    /// (first the target's own library and the runtime prelude), and its
    /// body.
    pub open spec fn written(self) -> Seq<char> {
        "(library ("@ + self.name@ + ")\n  (export "@ + joined(contents(self.exports@), " "@)
            + ")\n  (import (chezscheme) (gleam/$prelude) "@ + joined(
            contents(self.imports@).map_values(|name: Seq<char>| imported(name)),
            " "@,
        ) + ")\n  "@ + body_written(self.body@, self.body.len() as nat) + ")"@
    }

    /// Write the library out.
    pub fn render(&self) -> (r: String)
        ensures
            r@ == self.written(),
    {
        let mut imports: Vec<String> = Vec::new();
        let mut i: usize = 0;
        while i < self.imports.len()
            invariant
                i <= self.imports.len(),
                imports.len() == i,
                forall|j: int| 0 <= j < i ==> imports[j]@ == imported(self.imports[j]@),
            decreases self.imports.len() - i,
        {
            let mut import = String::from_str("(");
            import.append(self.imports[i].as_str());
            import.append(")");
            imports.push(import);
            i += 1;
        }
        assert(contents(imports@) =~= contents(self.imports@).map_values(
            |name: Seq<char>| imported(name),
        ));
        let mut body = String::new();
        let mut k: usize = 0;
        while k < self.body.len()
            invariant
                k <= self.body.len(),
                body@ == body_written(self.body@, k as nat),
            decreases self.body.len() - k,
        {
            match &self.body[k] {
                Item::Definition(term) => {
                    body.append(term.render().as_str());
                    body.append("\n");
                },
                Item::Break => {
                    body.append("\n");
                },
            }
            k += 1;
        }
        let mut out = String::from_str("(library (");
        out.append(self.name.as_str());
        out.append(")\n  (export ");
        out.append(spaced(&self.exports).as_str());
        out.append(")\n  (import (chezscheme) (gleam/$prelude) ");
        out.append(spaced(&imports).as_str());
        out.append(")\n  ");
        out.append(body.as_str());
        out.append(")");
        out
    }
}

} // verus!
