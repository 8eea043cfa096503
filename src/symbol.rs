//! Symbols of a compilation unit and the table of identifier names.
use vstd::prelude::*;

verus! {

/// A module of the program; symbols are unique within one module.
#[derive(Clone, Copy, Debug, PartialEq, Eq, Hash, Structural)]
pub struct ModuleId(pub u32);

/// An identifier, unique within its module.
#[derive(Clone, Copy, Debug, PartialEq, Eq, Hash, Structural)]
pub struct IdentId(pub u32);

/// A module-qualified identifier.
#[derive(Clone, Copy, Debug, PartialEq, Eq, Hash, Structural)]
pub struct Symbol {
    pub module: ModuleId,
    pub ident: IdentId,
}

/// The module that holds the reserved argument symbols of generated procedures.
pub const ATTR_MODULE: u32 = 0;

/// Ident of the first argument of a generated procedure.
pub const ARG_1_IDENT: u32 = 1;

/// Ident of the second argument of a generated procedure.
pub const ARG_2_IDENT: u32 = 2;

pub open spec fn spec_arg_1() -> Symbol {
    Symbol { module: ModuleId(ATTR_MODULE), ident: IdentId(ARG_1_IDENT) }
}

pub open spec fn spec_arg_2() -> Symbol {
    Symbol { module: ModuleId(ATTR_MODULE), ident: IdentId(ARG_2_IDENT) }
}

impl Symbol {
    pub fn new(module: ModuleId, ident: IdentId) -> (r: Symbol)
        ensures
            r == (Symbol { module, ident }),
    {
        Symbol { module, ident }
    }

    /// The first argument of a generated procedure.
    pub fn arg_1() -> (r: Symbol)
        ensures
            r == spec_arg_1(),
    {
        Symbol { module: ModuleId(ATTR_MODULE), ident: IdentId(ARG_1_IDENT) }
    }

    /// The second argument of a generated procedure.
    pub fn arg_2() -> (r: Symbol)
        ensures
            r == spec_arg_2(),
    {
        Symbol { module: ModuleId(ATTR_MODULE), ident: IdentId(ARG_2_IDENT) }
    }
}

/// The names of a module's identifiers: the ident with id `i` is named `names[i]`.
pub struct IdentIds {
    names: Vec<String>,
}

impl View for IdentIds {
    type V = Seq<Seq<char>>;

    closed spec fn view(&self) -> Seq<Seq<char>> {
        self.names@.map_values(|s: String| s@)
    }
}

impl IdentIds {
    pub fn new() -> (r: IdentIds)
        ensures
            r@ == Seq::<Seq<char>>::empty(),
    {
        let r = IdentIds { names: Vec::new() };
        assert(r@ =~= Seq::<Seq<char>>::empty());
        r
    }

    pub fn len(&self) -> (r: usize)
        ensures
            r == self@.len(),
    {
        self.names.len()
    }

    /// Adds a name and returns its fresh ident.
    pub fn add(&mut self, name: String) -> (r: IdentId)
        requires
            old(self)@.len() < u32::MAX,
        ensures
            r == IdentId(old(self)@.len() as u32),
            final(self)@ == old(self)@.push(name@),
    {
        let id = self.names.len() as u32;
        self.names.push(name);
        assert(self@ =~= old(self)@.push(name@));
        IdentId(id)
    }

    /// The name of an ident, if the table holds it.
    pub fn get_name(&self, id: IdentId) -> (r: Option<&String>)
        ensures
            (id.0 < self@.len()) == (r is Some),
            r matches Some(s) ==> s@ == self@[id.0 as int],
    {
        if (id.0 as usize) < self.names.len() {
            Some(&self.names[id.0 as usize])
        } else {
            None
        }
    }
}

} // verus!
