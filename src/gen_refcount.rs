//! Expansion of refcount instructions into calls of layout-specialised
//! helper procedures, and synthesis of those helpers.
use vstd::prelude::*;
use vstd::string::StringExecFns;
use crate::ir::{
    is_call_by_name, is_call_low_level, is_field_read, is_let, let_parts, pure_value, run,
    select_branch, Call, CallType, Effect, Expr, Frame, Literal, LowLevel, ModifyRc, Outcome, Proc,
    ProcLayout, SelfRecursive, Stmt,
};
use crate::layout::{
    Builtin, IntWidth, Layout, UNIT_FIELDS, bool_layout, may_hold_refcounts, ptr_layout, u32_layout,
    unit_layout,
};
use crate::naming::{helper_debug_name, helper_name};
use crate::registry::{
    Entry, distinct_symbols, helper_for, lemma_lookup_first, lemma_register_distinct,
    lemma_register_unique, lookup,
    register, unique_keys,
};
use crate::symbol::{ATTR_MODULE, IdentId, IdentIds, ModuleId, Symbol, spec_arg_1, spec_arg_2};

verus! {

/// A refcount operation.
#[derive(Clone, Copy, Debug, PartialEq, Eq, Hash, Structural)]
pub enum RefcountOp {
    Inc,
    Dec,
    DecRef,
}

/// A helper was asked for a layout that has no synthesis rule yet.
#[derive(Clone, Copy, Debug, PartialEq, Eq, Hash, Structural)]
pub enum RefcountError {
    UnimplementedLayout(Layout),
}

/// The symbol of the given ident in module `home`.
pub open spec fn symbol_at(home: ModuleId, ident: nat) -> Symbol {
    Symbol { module: home, ident: IdentId(ident as u32) }
}


/// Field layouts of a string: data pointer, then signed length.
pub open spec fn str_field_layouts(isize: Layout) -> Seq<Layout> {
    seq![ptr_layout(), isize]
}

/// `s` binds `unit` to the empty record and returns it.
pub open spec fn is_return_unit(s: Stmt, unit: Symbol) -> bool {
    &&& is_let(s, unit, unit_layout(), Stmt::Ret(unit))
    &&& let_parts(s).1 matches Expr::Struct(v) && v@.len() == 0
}

/// The branch of a string helper for a heap-boxed string: read the data
/// pointer, locate the count word, and call the primitive of `op` on it.
/// Its temporaries are the idents `base + 3` to `base + 6` of `home`.
pub open spec fn is_str_big_branch(
    s: Stmt,
    op: RefcountOp,
    home: ModuleId,
    base: nat,
    isize: Layout,
    ptr_size: u32,
) -> bool {
    let elements = symbol_at(home, base + 3);
    let rc_ptr = symbol_at(home, base + 4);
    let alignment = symbol_at(home, base + 5);
    let result = symbol_at(home, base + 6);
    let s1 = let_parts(s).3;
    let s2 = let_parts(s1).3;
    let s3 = let_parts(s2).3;
    &&& is_let(s, elements, ptr_layout(), s1)
    &&& is_field_read(let_parts(s).1, 0, str_field_layouts(isize), spec_arg_1())
    &&& is_let(s1, rc_ptr, ptr_layout(), s2)
    &&& is_call_low_level(let_parts(s1).1, LowLevel::RefCountGetPtr, seq![spec_arg_1()])
    &&& is_let(s2, alignment, u32_layout(), s3)
    &&& let_parts(s2).1 == Expr::Literal(Literal::Int(ptr_size as i128))
    &&& is_let(s3, result, unit_layout(), Stmt::Ret(result))
    &&& match op {
        RefcountOp::Inc => is_call_low_level(
            let_parts(s3).1,
            LowLevel::RefCountInc,
            seq![rc_ptr, spec_arg_2()],
        ),
        _ => is_call_low_level(let_parts(s3).1, LowLevel::RefCountDec, seq![rc_ptr, alignment]),
    }
}

/// The body of the string helper for `op`: read the length as a signed
/// word, and modify the count only where it is non-negative (a heap-boxed
/// string); a negative length marks an inline small string, which owns no
/// allocation. Its temporaries are the idents `base` to `base + 7` of `home`.
pub open spec fn is_str_body(
    s: Stmt,
    op: RefcountOp,
    home: ModuleId,
    base: nat,
    isize: Layout,
    ptr_size: u32,
) -> bool {
    let len = symbol_at(home, base);
    let zero = symbol_at(home, base + 1);
    let is_big = symbol_at(home, base + 2);
    let unit = symbol_at(home, base + 7);
    let s1 = let_parts(s).3;
    let s2 = let_parts(s1).3;
    let sw = let_parts(s2).3;
    &&& is_let(s, len, isize, s1)
    &&& is_field_read(let_parts(s).1, 1, str_field_layouts(isize), spec_arg_1())
    &&& is_let(s1, zero, isize, s2)
    &&& let_parts(s1).1 == Expr::Literal(Literal::Int(0))
    &&& is_let(s2, is_big, bool_layout(), sw)
    &&& is_call_low_level(let_parts(s2).1, LowLevel::NumGte, seq![len, zero])
    &&& sw matches Stmt::Switch { cond_symbol, cond_layout, branches, default_branch, ret_layout }
    &&& cond_symbol == is_big && cond_layout == bool_layout() && ret_layout == unit_layout()
    &&& branches@.len() == 1 && branches@[0].0 == 1
    &&& is_str_big_branch(branches@[0].1, op, home, base, isize, ptr_size)
    &&& is_return_unit(*default_branch, unit)
}

/// Parameters of the helper for `op` on values of `layout`: the value, and
/// for `Inc` the amount to add.
pub open spec fn helper_args(op: RefcountOp, layout: Layout, isize: Layout) -> Seq<(Layout, Symbol)> {
    match op {
        RefcountOp::Inc => seq![(layout, spec_arg_1()), (isize, spec_arg_2())],
        _ => seq![(layout, spec_arg_1())],
    }
}

/// `p` is the string helper for `op` named `name`, whose temporaries start
/// at ident `base` of `home`, on a target whose pointers have `width`.
pub open spec fn is_str_helper(
    p: Proc,
    op: RefcountOp,
    name: Symbol,
    home: ModuleId,
    base: nat,
    width: IntWidth,
) -> bool {
    let isize = Layout::Builtin(Builtin::Int(width));
    &&& p.name == name
    &&& p.args@ == helper_args(op, Layout::Builtin(Builtin::Str), isize)
    &&& is_str_body(p.body, op, home, base, isize, width.spec_stack_size())
    &&& p.closure_data_layout is None
    &&& p.ret_layout == unit_layout()
    &&& p.is_self_recursive == SelfRecursive::NotSelfRecursive
    &&& !p.must_own_arguments
}


/// The expansion of `Inc(structure, amount)`: bind the amount to
/// `amount_sym` as a pointer-sized integer, call `helper` with the value and
/// that amount, go on with `following`.
pub open spec fn is_inc_expansion(
    s: Stmt,
    amount_sym: Symbol,
    amount: u64,
    result: Symbol,
    helper: Symbol,
    structure: Symbol,
    layout: Layout,
    isize: Layout,
    following: Stmt,
) -> bool {
    let s1 = let_parts(s).3;
    &&& is_let(s, amount_sym, isize, s1)
    &&& let_parts(s).1 == Expr::Literal(Literal::Int(amount as i128))
    &&& is_let(s1, result, unit_layout(), following)
    &&& is_call_by_name(
        let_parts(s1).1,
        helper,
        unit_layout(),
        seq![layout, isize],
        seq![structure, amount_sym],
    )
}

/// The expansion of `Dec(structure)`: call `helper` with the value alone, go
/// on with `following`.
pub open spec fn is_dec_expansion(
    s: Stmt,
    result: Symbol,
    helper: Symbol,
    structure: Symbol,
    layout: Layout,
    following: Stmt,
) -> bool {
    &&& is_let(s, result, unit_layout(), following)
    &&& is_call_by_name(let_parts(s).1, helper, unit_layout(), seq![layout], seq![structure])
}

/// The expansion of `DecRef(structure)`: locate the count pointer, end one
/// reference through it without release, go on with `following`.
pub open spec fn is_decref_expansion(
    s: Stmt,
    rc_ptr: Symbol,
    result: Symbol,
    structure: Symbol,
    following: Stmt,
) -> bool {
    let s1 = let_parts(s).3;
    &&& is_let(s, rc_ptr, ptr_layout(), s1)
    &&& is_call_low_level(let_parts(s).1, LowLevel::RefCountGetPtr, seq![structure])
    &&& is_let(s1, result, unit_layout(), following)
    &&& is_call_low_level(let_parts(s1).1, LowLevel::RefCountDecRef, seq![rc_ptr])
}

/// The ident table after a request for the helper of `(layout, op)`: a new
/// helper adds its name.
pub open spec fn names_after_request(
    names: Seq<Seq<char>>,
    entries: Seq<Entry>,
    layout: Layout,
    op: RefcountOp,
) -> Seq<Seq<char>> {
    if lookup(entries, layout, op) is Some {
        names
    } else {
        names.push(helper_name(op, layout, entries.len()))
    }
}

/// The procedure layout that the first call of a new helper reports.
pub open spec fn is_new_helper_info(
    info: Option<(Symbol, ProcLayout)>,
    is_new: bool,
    helper: Symbol,
    arguments: Seq<Layout>,
) -> bool {
    &&& is_new == info is Some
    &&& info matches Some(i) ==> i.0 == helper && i.1.arguments@ == arguments && i.1.result
        == unit_layout()
}

/// The first registered layout that has no synthesis rule yet, if any: only
/// strings have one.
pub open spec fn first_unimplemented(entries: Seq<Entry>) -> Option<Layout>
    decreases entries.len(),
{
    if entries.len() == 0 {
        None
    } else if entries[0].0 != Layout::Builtin(Builtin::Str) {
        Some(entries[0].0)
    } else {
        first_unimplemented(entries.drop_first())
    }
}

/// A frame in which a string helper can run: its first argument is a
/// string record of two words, data pointer and signed length.
pub open spec fn is_string_frame(f: Frame) -> bool {
    &&& f.records.contains_key(spec_arg_1())
    &&& f.records[spec_arg_1()].len() == 2
}

/// A string helper run on a small string (negative length word) calls no
/// runtime primitive and returns unit.
pub proof fn lemma_small_string_untouched(
    p: Proc,
    op: RefcountOp,
    name: Symbol,
    home: ModuleId,
    base: nat,
    width: IntWidth,
    f: Frame,
    fuel: nat,
)
    requires
        is_str_helper(p, op, name, home, base, width),
        base + 8 <= u32::MAX,
        is_string_frame(f),
        f.records[spec_arg_1()][1] < 0,
        fuel >= 10,
    ensures
        run(p.body, f, fuel) == (Outcome { effects: Seq::empty(), ret: Some(0) }),
{
    reveal_with_fuel(run, 7);
    reveal_with_fuel(select_branch, 2);
    let len = symbol_at(home, base);
    let zero = symbol_at(home, base + 1);
    assert(len != zero);
}

/// The expected effects of the heap-boxed branch of a string helper, whose
/// amount argument has value `amount`.
pub open spec fn big_string_effects(
    op: RefcountOp,
    string_word: int,
    amount: int,
    ptr_size: u32,
) -> Seq<Effect> {
    seq![
        (LowLevel::RefCountGetPtr, seq![string_word]),
        match op {
            RefcountOp::Inc => (LowLevel::RefCountInc, seq![0int, amount]),
            _ => (LowLevel::RefCountDec, seq![0int, ptr_size as int]),
        },
    ]
}

proof fn lemma_big_branch(
    t: Stmt,
    op: RefcountOp,
    home: ModuleId,
    base: nat,
    isize: Layout,
    ptr_size: u32,
    g: Frame,
    fuel: nat,
)
    requires
        is_str_big_branch(t, op, home, base, isize, ptr_size),
        home.0 != ATTR_MODULE,
        base + 8 <= u32::MAX,
        fuel >= 5,
    ensures
        run(t, g, fuel) == (Outcome {
            effects: big_string_effects(op, g.words[spec_arg_1()], g.words[spec_arg_2()], ptr_size),
            ret: Some(0),
        }),
{
    reveal_with_fuel(run, 2);
    let elements = symbol_at(home, base + 3);
    let rc_ptr = symbol_at(home, base + 4);
    let alignment = symbol_at(home, base + 5);
    let result = symbol_at(home, base + 6);
    let t1 = let_parts(t).3;
    let t2 = let_parts(t1).3;
    let t3 = let_parts(t2).3;
    let g1 = Frame { words: g.words.insert(elements, pure_value(let_parts(t).1, g)), records: g.records };
    let g2 = Frame { words: g1.words.insert(rc_ptr, 0), records: g.records };
    let g3 = Frame { words: g2.words.insert(alignment, ptr_size as int), records: g.records };
    let g4 = Frame { words: g3.words.insert(result, 0), records: g.records };
    assert(rc_ptr != alignment);
    assert(elements != spec_arg_1() && elements != spec_arg_2());
    assert(rc_ptr != spec_arg_1() && rc_ptr != spec_arg_2());
    assert(alignment != spec_arg_1() && alignment != spec_arg_2());
    let last = match op {
        RefcountOp::Inc => (LowLevel::RefCountInc, seq![0int, g.words[spec_arg_2()]]),
        _ => (LowLevel::RefCountDec, seq![0int, ptr_size as int]),
    };
    assert(let_parts(t3).1->Call_0.arguments@.map_values(|a: Symbol| g3.words[a]) =~= last.1);
    assert(run(t3, g3, (fuel - 3) as nat) == (Outcome { effects: seq![last], ret: Some(0int) }));
    assert(run(t2, g2, (fuel - 2) as nat) == run(t3, g3, (fuel - 3) as nat));
    let first = (LowLevel::RefCountGetPtr, seq![g.words[spec_arg_1()]]);
    assert(let_parts(t1).1->Call_0.arguments@.map_values(|a: Symbol| g1.words[a]) =~= first.1);
    assert(run(t1, g1, (fuel - 1) as nat).effects =~= seq![first, last]);
    assert(run(t, g, fuel) == run(t1, g1, (fuel - 1) as nat));
}

/// A string helper run on a heap-boxed string (non-negative length word)
/// locates the count word of its argument and then calls, once, the
/// increment primitive with the requested amount, or the decrement primitive
/// with the word-size alignment; it returns unit. (The model reads the
/// results of memory primitives, the count pointer among them, as 0.)
pub proof fn lemma_big_string_modified(
    p: Proc,
    op: RefcountOp,
    name: Symbol,
    home: ModuleId,
    base: nat,
    width: IntWidth,
    f: Frame,
    fuel: nat,
)
    requires
        is_str_helper(p, op, name, home, base, width),
        home.0 != ATTR_MODULE,
        base + 8 <= u32::MAX,
        is_string_frame(f),
        f.records[spec_arg_1()][1] >= 0,
        fuel >= 10,
    ensures
        run(p.body, f, fuel) == (Outcome {
            effects: big_string_effects(
                op,
                f.words[spec_arg_1()],
                f.words[spec_arg_2()],
                width.spec_stack_size(),
            ),
            ret: Some(0),
        }),
{
    reveal_with_fuel(run, 4);
    reveal_with_fuel(select_branch, 2);
    let isize = Layout::Builtin(Builtin::Int(width));
    let len = symbol_at(home, base);
    let zero = symbol_at(home, base + 1);
    let is_big = symbol_at(home, base + 2);
    assert(len != zero);
    assert(len != spec_arg_1() && len != spec_arg_2());
    assert(zero != spec_arg_1() && zero != spec_arg_2());
    assert(is_big != spec_arg_1() && is_big != spec_arg_2());
    let s1 = let_parts(p.body).3;
    let s2 = let_parts(s1).3;
    let sw = let_parts(s2).3;
    let f1 = Frame { words: f.words.insert(len, f.records[spec_arg_1()][1]), records: f.records };
    let f2 = Frame { words: f1.words.insert(zero, 0), records: f.records };
    let f3 = Frame { words: f2.words.insert(is_big, 1), records: f.records };
    let t = sw->branches@[0].1;
    lemma_big_branch(t, op, home, base, isize, width.spec_stack_size(), f3, (fuel - 4) as nat);
    assert(run(sw, f3, (fuel - 3) as nat) == run(t, f3, (fuel - 4) as nat));
}

/// The names that `n` temporaries add to the ident table.
pub open spec fn temp_names(n: nat) -> Seq<Seq<char>> {
    Seq::new(n, |i: int| "#tmp"@)
}

/// `s` is an ident of `home` that a table of `n` names did not hold yet.
pub open spec fn fresh_in(s: Symbol, home: ModuleId, n: nat) -> bool {
    s.module == home && s.ident.0 >= n
}

/// `s` is named by none of the entries.
pub open spec fn unused_by(s: Symbol, entries: Seq<Entry>) -> bool {
    forall|i: int| 0 <= i < entries.len() ==> #[trigger] entries[i].2 != s
}

/// Generates refcounting code for one compilation unit: expands refcount
/// instructions into helper calls, registering one helper per (layout,
/// operation), and then synthesises the registered helpers. Every symbol it
/// makes, helper names and temporaries alike, is a new ident of its module
/// in the unit's ident table.
pub struct RefcountProcGenerator {
    home: ModuleId,
    intwidth_isize: IntWidth,
    /// Helpers to generate, in the order in which they were first asked for.
    procs_to_generate: Vec<(Layout, RefcountOp, Symbol)>,
    drained: bool,
}

impl RefcountProcGenerator {
    pub closed spec fn home(&self) -> ModuleId {
        self.home
    }

    /// Width of a pointer-sized integer on the target.
    pub closed spec fn isize_width(&self) -> IntWidth {
        self.intwidth_isize
    }

    /// The registered helpers, in order of first request.
    pub closed spec fn entries(&self) -> Seq<Entry> {
        self.procs_to_generate@
    }

    /// Whether the helpers were already synthesised.
    pub closed spec fn is_drained(&self) -> bool {
        self.drained
    }

    /// No two registered helpers share a layout and an operation, or a
    /// name; the generator's module is not that of the argument symbols.
    pub open spec fn wf(&self) -> bool {
        &&& unique_keys(self.entries())
        &&& distinct_symbols(self.entries())
        &&& self.home().0 != ATTR_MODULE
    }

    /// Every registered helper is named by an ident of the generator's module
    /// among the first `n` of the ident table.
    pub open spec fn names_below(&self, n: nat) -> bool {
        forall|i: int|
            0 <= i < self.entries().len() ==> (#[trigger] self.entries()[i]).2.module
                == self.home() && self.entries()[i].2.ident.0 < n
    }

    pub open spec fn layout_isize(&self) -> Layout {
        Layout::Builtin(Builtin::Int(self.isize_width()))
    }

    /// Same module, pointer width and drained state: what expansion keeps.
    pub open spec fn same_setup(&self, other: &Self) -> bool {
        &&& self.home() == other.home()
        &&& self.isize_width() == other.isize_width()
        &&& self.is_drained() == other.is_drained()
    }

    /// A generator for module `home` on a target whose pointer-sized
    /// integers have `intwidth_isize`. Its symbols are idents of `home`,
    /// which must not be the module of the argument symbols.
    pub fn new(intwidth_isize: IntWidth, home: ModuleId) -> (r: Self)
        requires
            home.0 != ATTR_MODULE,
        ensures
            r.wf(),
            r.home() == home,
            r.isize_width() == intwidth_isize,
            r.entries() == Seq::<Entry>::empty(),
            !r.is_drained(),
    {
        RefcountProcGenerator {
            home,
            intwidth_isize,
            procs_to_generate: Vec::new(),
            drained: false,
        }
    }

    /// The registered helpers, in order of first request.
    pub fn procs_to_generate(&self) -> (r: &Vec<(Layout, RefcountOp, Symbol)>)
        ensures
            r@ == self.entries(),
    {
        &self.procs_to_generate
    }

    pub fn is_done(&self) -> (r: bool)
        ensures
            r == self.is_drained(),
    {
        self.drained
    }

    fn layout_isize_exec(&self) -> (r: Layout)
        ensures
            r == self.layout_isize(),
    {
        Layout::Builtin(Builtin::Int(self.intwidth_isize))
    }

    /// Expands a refcount instruction on a value of `layout` into concrete
    /// IR that goes on with `following`. `Inc` and `Dec` call the helper for
    /// `(layout, op)`, registering it on first use, in which case its name
    /// and procedure layout are returned too. `DecRef` calls runtime
    /// primitives inline and registers nothing. The symbols it binds are new
    /// idents of the ident table, distinct from each other, from the helper
    /// and from every registered helper.
    pub fn expand_refcount_stmt(
        &mut self,
        ident_ids: &mut IdentIds,
        layout: Layout,
        modify: &ModifyRc,
        following: Stmt,
    ) -> (r: (Stmt, Option<(Symbol, ProcLayout)>))
        requires
            old(self).wf(),
            old(self).names_below(old(ident_ids)@.len()),
            !old(self).is_drained(),
            !(modify is DecRef) ==> may_hold_refcounts(layout),
            old(ident_ids)@.len() + 3 <= u32::MAX,
        ensures
            final(self).wf(),
            final(self).same_setup(old(self)),
            final(self).names_below(final(ident_ids)@.len()),
            ({
                let home = old(self).home();
                let entries = old(self).entries();
                let n = old(ident_ids)@.len();
                let fresh = symbol_at(home, n);
                let after = final(self).entries();
                match *modify {
                    ModifyRc::Inc(structure, amount) => {
                        let names = names_after_request(old(ident_ids)@, entries, layout, RefcountOp::Inc);
                        let helper = helper_for(entries, layout, RefcountOp::Inc, fresh);
                        let amount_sym = symbol_at(home, names.len());
                        let result = symbol_at(home, names.len() + 1);
                        let isize = old(self).layout_isize();
                        &&& after == register(entries, layout, RefcountOp::Inc, fresh)
                        &&& final(ident_ids)@ == names.push("amount"@).push("#tmp"@)
                        &&& is_inc_expansion(
                            r.0,
                            amount_sym,
                            amount,
                            result,
                            helper,
                            structure,
                            layout,
                            isize,
                            following,
                        )
                        &&& is_new_helper_info(
                            r.1,
                            lookup(entries, layout, RefcountOp::Inc) is None,
                            helper,
                            seq![layout, isize],
                        )
                        &&& fresh_in(amount_sym, home, n) && fresh_in(result, home, n)
                        &&& amount_sym != result && amount_sym != helper && result != helper
                        &&& unused_by(amount_sym, after) && unused_by(result, after)
                    },
                    ModifyRc::Dec(structure) => {
                        let names = names_after_request(old(ident_ids)@, entries, layout, RefcountOp::Dec);
                        let helper = helper_for(entries, layout, RefcountOp::Dec, fresh);
                        let result = symbol_at(home, names.len());
                        &&& after == register(entries, layout, RefcountOp::Dec, fresh)
                        &&& final(ident_ids)@ == names.push("#tmp"@)
                        &&& is_dec_expansion(r.0, result, helper, structure, layout, following)
                        &&& is_new_helper_info(
                            r.1,
                            lookup(entries, layout, RefcountOp::Dec) is None,
                            helper,
                            seq![layout],
                        )
                        &&& fresh_in(result, home, n) && result != helper && unused_by(result, after)
                    },
                    ModifyRc::DecRef(structure) => {
                        let rc_ptr = symbol_at(home, n);
                        let result = symbol_at(home, n + 1);
                        &&& after == entries
                        &&& final(ident_ids)@ == old(ident_ids)@.push("#tmp"@).push("#tmp"@)
                        &&& is_decref_expansion(r.0, rc_ptr, result, structure, following)
                        &&& r.1 is None
                        &&& fresh_in(rc_ptr, home, n) && fresh_in(result, home, n)
                        &&& rc_ptr != result && unused_by(rc_ptr, after) && unused_by(result, after)
                    },
                }
            }),
    {
        let layout_unit = Layout::Struct(UNIT_FIELDS);
        match *modify {
            ModifyRc::Inc(structure, amount) => {
                let (is_existing, proc_name) = self.get_proc_symbol(ident_ids, layout, RefcountOp::Inc);
                proof {
                    lemma_lookup_first(old(self).entries(), layout, RefcountOp::Inc);
                }

                // A constant for the amount to add
                let layout_isize = self.layout_isize_exec();
                let amount_sym = self.create_symbol(ident_ids, "amount");
                let amount_expr = Expr::Literal(Literal::Int(amount as i128));

                // Call the helper with the value and the amount
                let call_result_dummy = self.unique_symbol(ident_ids);
                let call_expr = Expr::Call(
                    Call {
                        call_type: CallType::ByName {
                            name: proc_name,
                            ret_layout: layout_unit,
                            arg_layouts: vec![layout, layout_isize],
                        },
                        arguments: vec![structure, amount_sym],
                    },
                );
                let call_stmt = Stmt::Let(call_result_dummy, call_expr, layout_unit, Box::new(following));
                let rc_stmt = Stmt::Let(amount_sym, amount_expr, layout_isize, Box::new(call_stmt));

                // The helper's signature, on its first use
                let new_proc_info = if is_existing {
                    None
                } else {
                    Some((proc_name, ProcLayout { arguments: vec![layout, layout_isize], result: layout_unit }))
                };
                (rc_stmt, new_proc_info)
            },
            ModifyRc::Dec(structure) => {
                let (is_existing, proc_name) = self.get_proc_symbol(ident_ids, layout, RefcountOp::Dec);
                proof {
                    lemma_lookup_first(old(self).entries(), layout, RefcountOp::Dec);
                }

                // Call the helper with the value
                let call_result_dummy = self.unique_symbol(ident_ids);
                let call_expr = Expr::Call(
                    Call {
                        call_type: CallType::ByName {
                            name: proc_name,
                            ret_layout: layout_unit,
                            arg_layouts: vec![layout],
                        },
                        arguments: vec![structure],
                    },
                );
                assert(call_expr->Call_0.arguments@ =~= seq![structure]);
                assert(call_expr->Call_0.call_type->arg_layouts@ =~= seq![layout]);
                let rc_stmt = Stmt::Let(call_result_dummy, call_expr, layout_unit, Box::new(following));

                // The helper's signature, on its first use
                let new_proc_info = if is_existing {
                    None
                } else {
                    let arguments = vec![layout];
                    assert(arguments@ =~= seq![layout]);
                    Some((proc_name, ProcLayout { arguments, result: layout_unit }))
                };
                (rc_stmt, new_proc_info)
            },
            ModifyRc::DecRef(structure) => {
                // No helper: locate the count word and end one reference through it
                let rc_ptr_sym = self.unique_symbol(ident_ids);
                let rc_ptr_expr = Expr::Call(
                    Call {
                        call_type: CallType::LowLevel { op: LowLevel::RefCountGetPtr },
                        arguments: vec![structure],
                    },
                );
                assert(rc_ptr_expr->Call_0.arguments@ =~= seq![structure]);

                let call_result_dummy = self.unique_symbol(ident_ids);
                let call_expr = Expr::Call(
                    Call {
                        call_type: CallType::LowLevel { op: LowLevel::RefCountDecRef },
                        arguments: vec![rc_ptr_sym],
                    },
                );
                assert(call_expr->Call_0.arguments@ =~= seq![rc_ptr_sym]);
                let call_stmt = Stmt::Let(call_result_dummy, call_expr, layout_unit, Box::new(following));
                let rc_stmt = Stmt::Let(rc_ptr_sym, rc_ptr_expr, Layout::RecursivePointer, Box::new(call_stmt));
                (rc_stmt, None)
            },
        }
    }

    /// Synthesises the registered helpers, one per entry and in the order of
    /// registration, and empties the registry. The `i`-th helper's
    /// temporaries are the `8 * i`-th to `8 * i + 7`-th new idents of the
    /// table. Fails, emptying the registry all the same, where a registered
    /// layout has no synthesis rule yet.
    pub fn generate_refcount_procs(&mut self, ident_ids: &mut IdentIds) -> (r: Result<
        Vec<Proc>,
        RefcountError,
    >)
        requires
            old(self).wf(),
            !old(self).is_drained(),
            old(ident_ids)@.len() + 8 * old(self).entries().len() <= u32::MAX,
        ensures
            final(self).wf(),
            final(self).is_drained(),
            final(self).home() == old(self).home(),
            final(self).isize_width() == old(self).isize_width(),
            final(self).entries() == Seq::<Entry>::empty(),
            match first_unimplemented(old(self).entries()) {
                Some(l) => {
                    &&& r == Err::<Vec<Proc>, RefcountError>(RefcountError::UnimplementedLayout(l))
                    &&& final(ident_ids)@ == old(ident_ids)@
                },
                None => {
                    &&& r is Ok
                    &&& r->Ok_0@.len() == old(self).entries().len()
                    &&& forall|i: int|
                        0 <= i < old(self).entries().len() ==> is_str_helper(
                            #[trigger] r->Ok_0@[i],
                            old(self).entries()[i].1,
                            old(self).entries()[i].2,
                            old(self).home(),
                            (old(ident_ids)@.len() + 8 * i) as nat,
                            old(self).isize_width(),
                        )
                    &&& final(ident_ids)@ == old(ident_ids)@ + temp_names(
                        8 * old(self).entries().len(),
                    )
                },
            },
    {
        let n = self.procs_to_generate.len();
        let mut i: usize = 0;
        assert(self.procs_to_generate@.subrange(0, n as int) =~= self.procs_to_generate@);
        while i < n
            invariant
                *self == *old(self),
                self.wf(),
                n == self.procs_to_generate@.len(),
                0 <= i <= n,
                first_unimplemented(self.procs_to_generate@) == first_unimplemented(
                    self.procs_to_generate@.subrange(i as int, n as int),
                ),
            decreases n - i,
        {
            let layout = self.procs_to_generate[i].0;
            let ghost tail = self.procs_to_generate@.subrange(i as int, n as int);
            assert(tail.drop_first() =~= self.procs_to_generate@.subrange(i + 1, n as int));
            match layout {
                Layout::Builtin(Builtin::Str) => {},
                _ => {
                    self.procs_to_generate = Vec::new();
                    self.drained = true;
                    return Err(RefcountError::UnimplementedLayout(layout));
                },
            }
            i = i + 1;
        }
        assert(self.procs_to_generate@.subrange(n as int, n as int) =~= Seq::<Entry>::empty());

        let mut procs: Vec<Proc> = Vec::new();
        let mut j: usize = 0;
        assert(old(ident_ids)@ + temp_names(0) =~= old(ident_ids)@);
        while j < n
            invariant
                *self == *old(self),
                self.wf(),
                n == old(self).entries().len(),
                0 <= j <= n,
                old(ident_ids)@.len() + 8 * n <= u32::MAX,
                ident_ids@ == old(ident_ids)@ + temp_names(8 * j as nat),
                procs@.len() == j,
                forall|k: int|
                    0 <= k < j ==> is_str_helper(
                        #[trigger] procs@[k],
                        old(self).entries()[k].1,
                        old(self).entries()[k].2,
                        old(self).home(),
                        (old(ident_ids)@.len() + 8 * k) as nat,
                        old(self).isize_width(),
                    ),
            decreases n - j,
        {
            let (_, op, symbol) = self.procs_to_generate[j];
            let proc = self.gen_modify_str(ident_ids, op, symbol);
            assert(old(ident_ids)@ + temp_names(8 * j as nat) + temp_names(8) =~= old(ident_ids)@
                + temp_names(8 * (j + 1) as nat));
            procs.push(proc);
            j = j + 1;
        }
        self.procs_to_generate = Vec::new();
        self.drained = true;
        Ok(procs)
    }

    /// Finds the helper for this layout and operation, registering a new one
    /// if there is none; a new one is named by a new ident of the table.
    fn get_proc_symbol(&mut self, ident_ids: &mut IdentIds, layout: Layout, op: RefcountOp) -> (r: (
        bool,
        Symbol,
    ))
        requires
            old(self).wf(),
            old(self).names_below(old(ident_ids)@.len()),
            may_hold_refcounts(layout),
            old(ident_ids)@.len() < u32::MAX,
        ensures
            final(self).wf(),
            final(self).same_setup(old(self)),
            final(self).names_below(final(ident_ids)@.len()),
            r.0 == lookup(old(self).entries(), layout, op) is Some,
            r.1 == helper_for(
                old(self).entries(),
                layout,
                op,
                symbol_at(old(self).home(), old(ident_ids)@.len()),
            ),
            !r.0 ==> fresh_in(r.1, old(self).home(), old(ident_ids)@.len()) && unused_by(
                r.1,
                old(self).entries(),
            ),
            final(self).entries() == register(
                old(self).entries(),
                layout,
                op,
                symbol_at(old(self).home(), old(ident_ids)@.len()),
            ),
            final(ident_ids)@ == if r.0 {
                old(ident_ids)@
            } else {
                old(ident_ids)@.push(helper_name(op, layout, old(self).entries().len()))
            },
    {
        let n = self.procs_to_generate.len();
        let mut i: usize = 0;
        assert(self.procs_to_generate@.subrange(0, n as int) =~= self.procs_to_generate@);
        while i < n
            invariant
                *self == *old(self),
                self.wf(),
                self.names_below(old(ident_ids)@.len()),
                ident_ids@ == old(ident_ids)@,
                n == self.procs_to_generate@.len(),
                0 <= i <= n,
                lookup(self.procs_to_generate@, layout, op) == lookup(
                    self.procs_to_generate@.subrange(i as int, n as int),
                    layout,
                    op,
                ),
            decreases n - i,
        {
            let entry = self.procs_to_generate[i];
            let ghost tail = self.procs_to_generate@.subrange(i as int, n as int);
            assert(tail.drop_first() =~= self.procs_to_generate@.subrange(i + 1, n as int));
            if entry.0 == layout && entry.1 == op {
                return (true, entry.2);
            }
            i = i + 1;
        }
        assert(self.procs_to_generate@.subrange(n as int, n as int) =~= Seq::<Entry>::empty());
        let debug_name = helper_debug_name(op, &layout, n);
        let new_symbol = self.create_symbol(ident_ids, debug_name.as_str());
        proof {
            lemma_register_unique(self.procs_to_generate@, layout, op, new_symbol);
            lemma_register_distinct(self.procs_to_generate@, layout, op, new_symbol);
        }
        self.procs_to_generate.push((layout, op, new_symbol));
        (false, new_symbol)
    }

    /// Binds a fresh symbol to unit and returns it.
    fn return_unit(&self, ident_ids: &mut IdentIds) -> (r: Stmt)
        requires
            old(ident_ids)@.len() < u32::MAX,
        ensures
            is_return_unit(r, symbol_at(self.home(), old(ident_ids)@.len())),
            final(ident_ids)@ == old(ident_ids)@.push("#tmp"@),
    {
        let unit = self.unique_symbol(ident_ids);
        let ret_stmt = Box::new(Stmt::Ret(unit));
        Stmt::Let(unit, Expr::Struct(Vec::new()), Layout::Struct(UNIT_FIELDS), ret_stmt)
    }

    /// Parameters of the helper for `op` on values of `layout`.
    fn gen_args(&self, op: RefcountOp, layout: Layout) -> (r: Vec<(Layout, Symbol)>)
        ensures
            r@ == helper_args(op, layout, self.layout_isize()),
    {
        let roc_value = (layout, Symbol::arg_1());
        match op {
            RefcountOp::Inc => {
                let inc_amount = (self.layout_isize_exec(), Symbol::arg_2());
                vec![roc_value, inc_amount]
            },
            RefcountOp::Dec | RefcountOp::DecRef => vec![roc_value],
        }
    }

    /// Builds the helper that applies `op` to the count of a string.
    fn gen_modify_str(&self, ident_ids: &mut IdentIds, op: RefcountOp, proc_name: Symbol) -> (r: Proc)
        requires
            old(ident_ids)@.len() + 8 <= u32::MAX,
        ensures
            is_str_helper(
                r,
                op,
                proc_name,
                self.home(),
                old(ident_ids)@.len(),
                self.isize_width(),
            ),
            final(ident_ids)@ == old(ident_ids)@ + temp_names(8),
    {
        let string = Symbol::arg_1();
        let layout_isize = self.layout_isize_exec();
        let layout_ptr = Layout::RecursivePointer;
        let layout_unit = Layout::Struct(UNIT_FIELDS);
        let layout_bool = Layout::Builtin(Builtin::Bool);

        // The length, read as a signed word so that the small-string flag is its sign bit
        let len = self.unique_symbol(ident_ids);
        let len_expr = Expr::StructAtIndex {
            index: 1,
            field_layouts: vec![layout_ptr, layout_isize],
            structure: string,
        };

        let zero = self.unique_symbol(ident_ids);
        let zero_expr = Expr::Literal(Literal::Int(0));

        // is_big_str = (len >= 0)
        let is_big_str = self.unique_symbol(ident_ids);
        let is_big_str_expr = Expr::Call(
            Call { call_type: CallType::LowLevel { op: LowLevel::NumGte }, arguments: vec![len, zero] },
        );

        // The pointer to the string's bytes
        let elements = self.unique_symbol(ident_ids);
        let elements_expr = Expr::StructAtIndex {
            index: 0,
            field_layouts: vec![layout_ptr, layout_isize],
            structure: string,
        };

        // The pointer to the count word, which the runtime locates
        let rc_ptr = self.unique_symbol(ident_ids);
        let rc_ptr_expr = Expr::Call(
            Call {
                call_type: CallType::LowLevel { op: LowLevel::RefCountGetPtr },
                arguments: vec![string],
            },
        );
        assert(rc_ptr_expr->Call_0.arguments@ =~= seq![string]);

        let alignment = self.unique_symbol(ident_ids);
        let alignment_expr = Expr::Literal(Literal::Int(self.intwidth_isize.stack_size() as i128));

        // The runtime primitive that modifies the count
        let call_result = self.unique_symbol(ident_ids);
        let call_expr = match op {
            RefcountOp::Inc => Expr::Call(
                Call {
                    call_type: CallType::LowLevel { op: LowLevel::RefCountInc },
                    arguments: vec![rc_ptr, Symbol::arg_2()],
                },
            ),
            RefcountOp::Dec | RefcountOp::DecRef => Expr::Call(
                Call {
                    call_type: CallType::LowLevel { op: LowLevel::RefCountDec },
                    arguments: vec![rc_ptr, alignment],
                },
            ),
        };

        // Big strings have their count modified; small strings are skipped
        let call_stmt = Stmt::Let(call_result, call_expr, layout_unit, Box::new(Stmt::Ret(call_result)));
        let alignment_stmt = Stmt::Let(
            alignment,
            alignment_expr,
            Layout::Builtin(Builtin::Int(IntWidth::U32)),
            Box::new(call_stmt),
        );
        let rc_ptr_stmt = Stmt::Let(rc_ptr, rc_ptr_expr, layout_ptr, Box::new(alignment_stmt));
        let then_branch = Stmt::Let(elements, elements_expr, layout_ptr, Box::new(rc_ptr_stmt));
        let default_branch = self.return_unit(ident_ids);
        let if_stmt = Stmt::Switch {
            cond_symbol: is_big_str,
            cond_layout: layout_bool,
            branches: vec![(1, then_branch)],
            default_branch: Box::new(default_branch),
            ret_layout: layout_unit,
        };

        let is_big_str_stmt = Stmt::Let(is_big_str, is_big_str_expr, layout_bool, Box::new(if_stmt));
        let zero_stmt = Stmt::Let(zero, zero_expr, layout_isize, Box::new(is_big_str_stmt));
        let body = Stmt::Let(len, len_expr, layout_isize, Box::new(zero_stmt));

        let args = self.gen_args(op, Layout::Builtin(Builtin::Str));
        assert(ident_ids@ =~= old(ident_ids)@ + temp_names(8));
        Proc {
            name: proc_name,
            args,
            body,
            closure_data_layout: None,
            ret_layout: layout_unit,
            is_self_recursive: SelfRecursive::NotSelfRecursive,
            must_own_arguments: false,
        }
    }

    /// A fresh temporary symbol.
    fn unique_symbol(&self, ident_ids: &mut IdentIds) -> (r: Symbol)
        requires
            old(ident_ids)@.len() < u32::MAX,
        ensures
            r == symbol_at(self.home(), old(ident_ids)@.len()),
            final(ident_ids)@ == old(ident_ids)@.push("#tmp"@),
    {
        self.create_symbol(ident_ids, "#tmp")
    }

    /// A new symbol of module `home`, with this name in the ident table.
    fn create_symbol(&self, ident_ids: &mut IdentIds, name: &str) -> (r: Symbol)
        requires
            old(ident_ids)@.len() < u32::MAX,
        ensures
            r == symbol_at(self.home(), old(ident_ids)@.len()),
            final(ident_ids)@ == old(ident_ids)@.push(name@),
    {
        let ident_id = ident_ids.add(String::from_str(name));
        Symbol::new(self.home, ident_id)
    }
}

} // verus!
