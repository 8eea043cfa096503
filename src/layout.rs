//! Memory layouts of IR values, as computed by the layout pass, and the
//! debug tag that names a refcounting helper after its layout.
use vstd::prelude::*;

verus! {

/// Width of a machine integer.
#[derive(Clone, Copy, Debug, PartialEq, Eq, Hash, Structural)]
pub enum IntWidth {
    U8,
    U16,
    U32,
    U64,
    U128,
    I8,
    I16,
    I32,
    I64,
    I128,
}

impl IntWidth {
    /// Number of bytes a value of this width occupies on the stack.
    pub open spec fn spec_stack_size(self) -> u32 {
        match self {
            IntWidth::U8 | IntWidth::I8 => 1,
            IntWidth::U16 | IntWidth::I16 => 2,
            IntWidth::U32 | IntWidth::I32 => 4,
            IntWidth::U64 | IntWidth::I64 => 8,
            IntWidth::U128 | IntWidth::I128 => 16,
        }
    }

    #[verifier::when_used_as_spec(spec_stack_size)]
    pub fn stack_size(self) -> (r: u32)
        ensures
            r == self.spec_stack_size(),
    {
        match self {
            IntWidth::U8 | IntWidth::I8 => 1,
            IntWidth::U16 | IntWidth::I16 => 2,
            IntWidth::U32 | IntWidth::I32 => 4,
            IntWidth::U64 | IntWidth::I64 => 8,
            IntWidth::U128 | IntWidth::I128 => 16,
        }
    }
}

/// Width of a floating-point number (a tag only: no float is ever handled here).
#[derive(Clone, Copy, Debug, PartialEq, Eq, Hash, Structural)]
pub enum FloatWidth {
    F32,
    F64,
    F128,
}

/// Built-in layouts. Element and key layouts are referred to by their id in
/// the upstream layout table, so that a layout is a flat value.
#[derive(Clone, Copy, Debug, PartialEq, Eq, Hash, Structural)]
pub enum Builtin {
    Int(IntWidth),
    Float(FloatWidth),
    Bool,
    Decimal,
    /// A string: a data pointer and a length word, with an inline encoding
    /// for short strings.
    Str,
    Dict(u32, u32),
    SetOf(u32),
    List(u32),
}

/// Id of the empty field list: `Layout::Struct(UNIT_FIELDS)` is the unit layout.
pub const UNIT_FIELDS: u32 = 0;

/// The physical representation of a value. Composite layouts name their
/// parts by id in the upstream layout table; a layout that recurses into
/// itself does so through `RecursivePointer`, never through a cycle.
#[derive(Clone, Copy, Debug, PartialEq, Eq, Hash, Structural)]
pub enum Layout {
    Builtin(Builtin),
    /// A product of the field list with this id.
    Struct(u32),
    /// A tagged union with this id.
    Union(u32),
    /// A closure-capture record with this id.
    LambdaSet(u32),
    RecursivePointer,
}

impl Builtin {
    /// Whether values of this built-in layout live in a refcounted heap allocation.
    pub open spec fn spec_is_refcounted(self) -> bool {
        match self {
            Builtin::Str | Builtin::Dict(_, _) | Builtin::SetOf(_) | Builtin::List(_) => true,
            _ => false,
        }
    }

    #[verifier::when_used_as_spec(spec_is_refcounted)]
    pub fn is_refcounted(self) -> (r: bool)
        ensures
            r == self.spec_is_refcounted(),
    {
        match self {
            Builtin::Str | Builtin::Dict(_, _) | Builtin::SetOf(_) | Builtin::List(_) => true,
            _ => false,
        }
    }
}

/// A layout that may own refcounted data: every layout but a scalar built-in.
pub open spec fn may_hold_refcounts(layout: Layout) -> bool {
    layout matches Layout::Builtin(b) ==> b.spec_is_refcounted()
}

/// The debug tag of a layout that may own refcounted data.
pub open spec fn debug_name_of(layout: Layout) -> Seq<char> {
    match layout {
        Layout::Builtin(Builtin::List(_)) => "list"@,
        Layout::Builtin(Builtin::SetOf(_)) => "set"@,
        Layout::Builtin(Builtin::Dict(_, _)) => "dict"@,
        Layout::Builtin(_) => "str"@,
        Layout::Struct(_) => "struct"@,
        Layout::Union(_) => "union"@,
        Layout::LambdaSet(_) => "lambdaset"@,
        Layout::RecursivePointer => "recursive_pointer"@,
    }
}

/// Tag used in the name of a generated refcounting helper.
pub fn layout_debug_name(layout: &Layout) -> (r: &'static str)
    requires
        may_hold_refcounts(*layout),
    ensures
        r@ == debug_name_of(*layout),
{
    match layout {
        Layout::Builtin(Builtin::List(_)) => "list",
        Layout::Builtin(Builtin::SetOf(_)) => "set",
        Layout::Builtin(Builtin::Dict(_, _)) => "dict",
        Layout::Builtin(_) => "str",
        Layout::Struct(_) => "struct",
        Layout::Union(_) => "union",
        Layout::LambdaSet(_) => "lambdaset",
        Layout::RecursivePointer => "recursive_pointer",
    }
}

} // verus!

verus! {

/// Booleans.
pub open spec fn bool_layout() -> Layout {
    Layout::Builtin(Builtin::Bool)
}

/// The empty record.
pub open spec fn unit_layout() -> Layout {
    Layout::Struct(UNIT_FIELDS)
}

/// Pointers, as the IR types them.
pub open spec fn ptr_layout() -> Layout {
    Layout::RecursivePointer
}

/// 32-bit unsigned integers.
pub open spec fn u32_layout() -> Layout {
    Layout::Builtin(Builtin::Int(IntWidth::U32))
}

} // verus!
