//! The statement IR that refcounting code is written in, and a reference
//! semantics for its straight-line and branching fragment.
use vstd::prelude::*;
use crate::layout::Layout;
use crate::symbol::Symbol;

verus! {

/// Low-level operations provided by the runtime, called by name.
#[derive(Clone, Copy, Debug, PartialEq, Eq, Hash, Structural)]
pub enum LowLevel {
    /// Signed `>=` on two integers; gives a boolean.
    NumGte,
    /// Locates the count word of a heap-boxed structure.
    RefCountGetPtr,
    /// Adds an amount to the count word at a pointer.
    RefCountInc,
    /// Ends one reference through a count pointer, releasing and freeing the
    /// allocation (with the given alignment) when it was the last.
    RefCountDec,
    /// Ends one reference through a count pointer, never releasing.
    RefCountDecRef,
}

#[derive(Clone, Copy, Debug, PartialEq, Eq, Hash, Structural)]
pub enum Literal {
    Int(i128),
    Bool(bool),
}

#[derive(Debug, PartialEq)]
pub enum CallType {
    /// A call of a procedure of the program.
    ByName { name: Symbol, ret_layout: Layout, arg_layouts: Vec<Layout> },
    /// A call of a runtime primitive.
    LowLevel { op: LowLevel },
}

#[derive(Debug, PartialEq)]
pub struct Call {
    pub call_type: CallType,
    pub arguments: Vec<Symbol>,
}

#[derive(Debug, PartialEq)]
pub enum Expr {
    Literal(Literal),
    Call(Call),
    /// A record built from the given symbols; `Struct` of no symbols is unit.
    Struct(Vec<Symbol>),
    /// Field `index` of `structure`, whose fields have `field_layouts`.
    StructAtIndex { index: u64, field_layouts: Vec<Layout>, structure: Symbol },
}

#[derive(Debug, PartialEq)]
pub enum Stmt {
    /// Binds the symbol to the expression's value, then goes on.
    Let(Symbol, Expr, Layout, Box<Stmt>),
    /// Runs the first branch whose value equals the condition, else the default.
    Switch {
        cond_symbol: Symbol,
        cond_layout: Layout,
        branches: Vec<(u64, Stmt)>,
        default_branch: Box<Stmt>,
        ret_layout: Layout,
    },
    Ret(Symbol),
}

/// An abstract refcount instruction, placed upstream.
#[derive(Clone, Copy, Debug, PartialEq, Eq, Hash, Structural)]
pub enum ModifyRc {
    /// Adds this many references to the value.
    Inc(Symbol, u64),
    /// Ends one reference, releasing the value if it was the last.
    Dec(Symbol),
    /// Ends one reference, never releasing.
    DecRef(Symbol),
}

/// Argument layouts and result layout of a procedure.
#[derive(Debug, PartialEq)]
pub struct ProcLayout {
    pub arguments: Vec<Layout>,
    pub result: Layout,
}

#[derive(Clone, Copy, Debug, PartialEq, Eq, Hash, Structural)]
pub enum SelfRecursive {
    NotSelfRecursive,
    SelfRecursive,
}

/// A procedure of the program.
#[derive(Debug, PartialEq)]
pub struct Proc {
    pub name: Symbol,
    pub args: Vec<(Layout, Symbol)>,
    pub body: Stmt,
    pub closure_data_layout: Option<Layout>,
    pub ret_layout: Layout,
    pub is_self_recursive: SelfRecursive,
    pub must_own_arguments: bool,
}

/// The parts of a `Let`.
pub open spec fn let_parts(s: Stmt) -> (Symbol, Expr, Layout, Stmt) {
    match s {
        Stmt::Let(x, e, l, next) => (x, e, l, *next),
        _ => arbitrary(),
    }
}

/// `s` binds `x` of layout `l` and goes on with `next`.
pub open spec fn is_let(s: Stmt, x: Symbol, l: Layout, next: Stmt) -> bool {
    &&& s is Let
    &&& let_parts(s).0 == x
    &&& let_parts(s).2 == l
    &&& let_parts(s).3 == next
}

/// `e` calls the procedure `name`, returning unit, with these arguments.
pub open spec fn is_call_by_name(
    e: Expr,
    name: Symbol,
    ret_layout: Layout,
    arg_layouts: Seq<Layout>,
    args: Seq<Symbol>,
) -> bool {
    &&& e matches Expr::Call(c)
    &&& c.call_type matches CallType::ByName { name: n, ret_layout: r, arg_layouts: a }
    &&& n == name && r == ret_layout && a@ == arg_layouts
    &&& c.arguments@ == args
}

/// `e` calls the runtime primitive `op` with these arguments.
pub open spec fn is_call_low_level(e: Expr, op: LowLevel, args: Seq<Symbol>) -> bool {
    &&& e matches Expr::Call(c)
    &&& c.call_type == (CallType::LowLevel { op })
    &&& c.arguments@ == args
}

/// `e` reads field `index` of `structure`, whose fields have `field_layouts`.
pub open spec fn is_field_read(
    e: Expr,
    index: u64,
    field_layouts: Seq<Layout>,
    structure: Symbol,
) -> bool {
    &&& e matches Expr::StructAtIndex { index: i, field_layouts: f, structure: s }
    &&& i == index && f@ == field_layouts && s == structure
}

/// One call of a runtime primitive that modifies memory, with the values of its arguments.
pub type Effect = (LowLevel, Seq<int>);

/// The state in which code runs: the integer value of each bound symbol,
/// and the machine words of each record argument.
pub struct Frame {
    pub words: Map<Symbol, int>,
    pub records: Map<Symbol, Seq<int>>,
}

/// What running code does: the primitives it calls that touch memory, in
/// order, and the value it returns (`None` where it calls a procedure by
/// name or runs out of fuel, which the fragment below does not cover).
pub struct Outcome {
    pub effects: Seq<Effect>,
    pub ret: Option<int>,
}

/// The branch of a switch that runs when the condition has value `v`.
pub open spec fn select_branch(branches: Seq<(u64, Stmt)>, v: int, default: Stmt) -> Stmt
    decreases branches.len(),
{
    if branches.len() == 0 {
        default
    } else if branches[0].0 == v {
        branches[0].1
    } else {
        select_branch(branches.drop_first(), v, default)
    }
}

/// The value that a non-call expression, or `NumGte`, gives in a frame.
/// Unit and the results of memory primitives have value 0.
pub open spec fn pure_value(e: Expr, f: Frame) -> int {
    match e {
        Expr::Literal(Literal::Int(k)) => k as int,
        Expr::Literal(Literal::Bool(b)) => if b { 1 } else { 0 },
        Expr::Struct(_) => 0,
        Expr::StructAtIndex { index, structure, .. } => {
            if f.records.contains_key(structure) && index < f.records[structure].len() {
                f.records[structure][index as int]
            } else {
                0
            }
        },
        Expr::Call(c) => {
            if c.call_type == (CallType::LowLevel { op: LowLevel::NumGte })
                && c.arguments@.len() == 2 && f.words[c.arguments@[0]] >= f.words[
                c.arguments@[1]] {
                1
            } else {
                0
            }
        },
    }
}

/// The memory primitive that `e` calls, if any, with its argument values.
pub open spec fn effect_of(e: Expr, f: Frame) -> Option<Effect> {
    match e {
        Expr::Call(c) => match c.call_type {
            CallType::LowLevel { op } => if op == LowLevel::NumGte {
                None
            } else {
                Some((op, c.arguments@.map_values(|a: Symbol| f.words[a])))
            },
            _ => None,
        },
        _ => None,
    }
}

/// Runs `s` in frame `f` for at most `fuel` statements.
pub open spec fn run(s: Stmt, f: Frame, fuel: nat) -> Outcome
    decreases fuel,
{
    if fuel == 0 {
        Outcome { effects: Seq::empty(), ret: None }
    } else {
        match s {
            Stmt::Let(x, e, _, next) => {
                if e matches Expr::Call(c) && c.call_type is ByName {
                    Outcome { effects: Seq::empty(), ret: None }
                } else {
                    let g = Frame { words: f.words.insert(x, pure_value(e, f)), records: f.records };
                    let rest = run(*next, g, (fuel - 1) as nat);
                    match effect_of(e, f) {
                        Some(eff) => Outcome { effects: seq![eff] + rest.effects, ret: rest.ret },
                        None => rest,
                    }
                }
            },
            Stmt::Switch { cond_symbol, branches, default_branch, .. } => run(
                select_branch(branches@, f.words[cond_symbol], *default_branch),
                f,
                (fuel - 1) as nat,
            ),
            Stmt::Ret(x) => Outcome { effects: Seq::empty(), ret: Some(f.words[x]) },
        }
    }
}

} // verus!
