use roc_mono::gen_refcount::{RefcountError, RefcountOp, RefcountProcGenerator};
use roc_mono::ir::{CallType, Expr, Literal, LowLevel, ModifyRc, Proc, SelfRecursive, Stmt};
use roc_mono::layout::{layout_debug_name, Builtin, IntWidth, Layout, UNIT_FIELDS};
use roc_mono::naming::decimal_string;
use roc_mono::symbol::{IdentId, IdentIds, ModuleId, Symbol};
use std::collections::HashMap;

const HOME: ModuleId = ModuleId(7);

fn str_layout() -> Layout {
    Layout::Builtin(Builtin::Str)
}

fn unit() -> Layout {
    Layout::Struct(UNIT_FIELDS)
}

fn value() -> Symbol {
    Symbol::new(ModuleId(3), IdentId(99))
}

fn tail() -> Stmt {
    Stmt::Ret(value())
}

fn generator() -> RefcountProcGenerator {
    RefcountProcGenerator::new(IntWidth::I64, HOME)
}

/// The helper that an `Inc` or `Dec` expansion calls.
fn called_helper(stmt: &Stmt) -> Symbol {
    let mut s = stmt;
    loop {
        match s {
            Stmt::Let(_, Expr::Call(c), _, next) => match &c.call_type {
                CallType::ByName { name, .. } => return *name,
                _ => s = next,
            },
            Stmt::Let(_, _, _, next) => s = next,
            _ => panic!("no call by name"),
        }
    }
}

fn expand(
    g: &mut RefcountProcGenerator,
    ids: &mut IdentIds,
    layout: Layout,
    m: ModifyRc,
) -> (Stmt, Option<(Symbol, roc_mono::ir::ProcLayout)>) {
    g.expand_refcount_stmt(ids, layout, &m, tail())
}

#[test]
fn registry_scenario() {
    let mut g = generator();
    let mut ids = IdentIds::new();
    let (s0, info0) = expand(&mut g, &mut ids, str_layout(), ModifyRc::Inc(value(), 1));
    let p0 = called_helper(&s0);
    let (s1, info1) = expand(&mut g, &mut ids, str_layout(), ModifyRc::Dec(value()));
    let p1 = called_helper(&s1);
    let (s2, info2) = expand(&mut g, &mut ids, str_layout(), ModifyRc::Inc(value(), 1));
    assert!(info0.is_some());
    assert!(info1.is_some());
    assert!(info2.is_none());
    assert_ne!(p0, p1);
    assert_eq!(called_helper(&s2), p0);
    assert_eq!(
        g.procs_to_generate(),
        &vec![(str_layout(), RefcountOp::Inc, p0), (str_layout(), RefcountOp::Dec, p1)]
    );
    let procs = g.generate_refcount_procs(&mut ids).unwrap();
    assert_eq!(procs.len(), 2);
    assert_eq!(procs[0].name, p0);
    assert_eq!(procs[1].name, p1);
    assert!(g.procs_to_generate().is_empty());
    assert!(g.is_done());
}

#[test]
fn same_pair_registers_one_helper() {
    let mut g = generator();
    let mut ids = IdentIds::new();
    let mut helpers = Vec::new();
    let mut new_infos = 0;
    for _ in 0..5 {
        let (s, info) = expand(&mut g, &mut ids, str_layout(), ModifyRc::Inc(value(), 2));
        if info.is_some() {
            new_infos += 1;
        }
        helpers.push(called_helper(&s));
    }
    assert_eq!(new_infos, 1);
    assert_eq!(g.procs_to_generate().len(), 1);
    assert!(helpers.iter().all(|h| *h == helpers[0]));
}

#[test]
fn registration_order_is_first_request_order() {
    let mut g = generator();
    let mut ids = IdentIds::new();
    let list = Layout::Builtin(Builtin::List(4));
    let requests = [
        (list, ModifyRc::Dec(value())),
        (str_layout(), ModifyRc::Inc(value(), 1)),
        (list, ModifyRc::Dec(value())),
        (str_layout(), ModifyRc::Dec(value())),
        (str_layout(), ModifyRc::Inc(value(), 4)),
    ];
    for (layout, m) in requests {
        expand(&mut g, &mut ids, layout, m);
    }
    let keys: Vec<(Layout, RefcountOp)> =
        g.procs_to_generate().iter().map(|e| (e.0, e.1)).collect();
    assert_eq!(
        keys,
        vec![
            (list, RefcountOp::Dec),
            (str_layout(), RefcountOp::Inc),
            (str_layout(), RefcountOp::Dec)
        ]
    );
}

#[test]
fn decref_is_inline_and_registers_nothing() {
    let mut g = generator();
    let mut ids = IdentIds::new();
    for _ in 0..3 {
        let (s, info) = expand(&mut g, &mut ids, str_layout(), ModifyRc::DecRef(value()));
        assert!(info.is_none());
        match s {
            Stmt::Let(ptr, Expr::Call(c1), Layout::RecursivePointer, next) => {
                assert_eq!(c1.call_type, CallType::LowLevel { op: LowLevel::RefCountGetPtr });
                assert_eq!(c1.arguments, vec![value()]);
                match *next {
                    Stmt::Let(_, Expr::Call(c2), _, rest) => {
                        assert_eq!(
                            c2.call_type,
                            CallType::LowLevel { op: LowLevel::RefCountDecRef }
                        );
                        assert_eq!(c2.arguments, vec![ptr]);
                        assert_eq!(*rest, tail());
                    }
                    other => panic!("unexpected {:?}", other),
                }
            }
            other => panic!("unexpected {:?}", other),
        }
    }
    assert!(g.procs_to_generate().is_empty());
    assert_eq!(ids.len(), 6);
}

#[test]
fn increment_amount_is_bound_and_passed() {
    let mut g = generator();
    let mut ids = IdentIds::new();
    let (s, _) = expand(&mut g, &mut ids, str_layout(), ModifyRc::Inc(value(), 3));
    match s {
        Stmt::Let(amount, Expr::Literal(Literal::Int(3)), layout, next) => match *next {
            Stmt::Let(_, Expr::Call(c), _, rest) => {
                assert_eq!(c.arguments, vec![value(), amount]);
                match c.call_type {
                    CallType::ByName { arg_layouts, ret_layout, .. } => {
                        assert_eq!(
                            arg_layouts,
                            vec![str_layout(), Layout::Builtin(Builtin::Int(IntWidth::I64))]
                        );
                        assert_eq!(ret_layout, unit());
                    }
                    other => panic!("unexpected {:?}", other),
                }
                assert_eq!(*rest, tail());
                assert_eq!(layout, Layout::Builtin(Builtin::Int(IntWidth::I64)));
            }
            other => panic!("unexpected {:?}", other),
        },
        other => panic!("unexpected {:?}", other),
    }
}

#[test]
fn new_helper_info_gives_parameter_layouts() {
    let mut g = generator();
    let mut ids = IdentIds::new();
    let (_, inc) = expand(&mut g, &mut ids, str_layout(), ModifyRc::Inc(value(), 1));
    let (_, dec) = expand(&mut g, &mut ids, str_layout(), ModifyRc::Dec(value()));
    let inc = inc.unwrap().1;
    let dec = dec.unwrap().1;
    assert_eq!(
        inc.arguments,
        vec![str_layout(), Layout::Builtin(Builtin::Int(IntWidth::I64))]
    );
    assert_eq!(dec.arguments, vec![str_layout()]);
    assert_eq!(inc.result, unit());
    assert_eq!(dec.result, unit());
}

#[test]
fn helper_and_amount_names() {
    let mut g = generator();
    let mut ids = IdentIds::new();
    let (s, _) = expand(&mut g, &mut ids, str_layout(), ModifyRc::Inc(value(), 1));
    let helper = called_helper(&s);
    assert_eq!(helper.module, HOME);
    assert_eq!(ids.get_name(helper.ident).unwrap(), "#rcInc_str_0");
    assert_eq!(ids.get_name(IdentId(1)).unwrap(), "amount");
    let (s, _) = expand(&mut g, &mut ids, str_layout(), ModifyRc::Dec(value()));
    assert_eq!(ids.get_name(IdentId(2)).unwrap(), "#tmp");
    assert_eq!(ids.get_name(called_helper(&s).ident).unwrap(), "#rcDec_str_1");
    assert_eq!(called_helper(&s).ident, IdentId(3));
    assert_eq!(ids.get_name(IdentId(4)).unwrap(), "#tmp");
    assert!(ids.get_name(IdentId(5)).is_none());
}

#[test]
fn unimplemented_layout_fails_generation() {
    let mut g = generator();
    let mut ids = IdentIds::new();
    let list = Layout::Builtin(Builtin::List(1));
    expand(&mut g, &mut ids, str_layout(), ModifyRc::Inc(value(), 1));
    expand(&mut g, &mut ids, list, ModifyRc::Dec(value()));
    assert_eq!(
        g.generate_refcount_procs(&mut ids),
        Err(RefcountError::UnimplementedLayout(list))
    );
    assert!(g.procs_to_generate().is_empty());
    assert!(g.is_done());
}

#[test]
fn empty_registry_generates_nothing() {
    let mut g = generator();
    let mut ids = IdentIds::new();
    assert_eq!(g.generate_refcount_procs(&mut ids), Ok(vec![]));
    assert_eq!(ids.len(), 0);
}

/// Runs a helper body on a string whose length word is `len`, with `amount`
/// as its second argument; returns the memory primitives called, with
/// their arguments, and the returned value.
fn run_helper(p: &Proc, len: i128, amount: i128) -> (Vec<(LowLevel, Vec<i128>)>, i128) {
    let mut words: HashMap<Symbol, i128> = HashMap::new();
    words.insert(Symbol::arg_1(), 1000);
    words.insert(Symbol::arg_2(), amount);
    let fields = [5000i128, len];
    let mut effects = Vec::new();
    let mut s = &p.body;
    loop {
        match s {
            Stmt::Let(x, e, _, next) => {
                let v = match e {
                    Expr::Literal(Literal::Int(k)) => *k,
                    Expr::Literal(Literal::Bool(b)) => *b as i128,
                    Expr::Struct(_) => 0,
                    Expr::StructAtIndex { index, structure, .. } => {
                        assert_eq!(*structure, Symbol::arg_1());
                        fields[*index as usize]
                    }
                    Expr::Call(c) => match c.call_type {
                        CallType::LowLevel { op: LowLevel::NumGte } => {
                            (words[&c.arguments[0]] >= words[&c.arguments[1]]) as i128
                        }
                        CallType::LowLevel { op } => {
                            effects.push((op, c.arguments.iter().map(|a| words[a]).collect()));
                            0
                        }
                        _ => panic!("unexpected call"),
                    },
                };
                words.insert(*x, v);
                s = next;
            }
            Stmt::Switch { cond_symbol, branches, default_branch, .. } => {
                let v = words[cond_symbol];
                s = match branches.iter().find(|b| b.0 as i128 == v) {
                    Some(b) => &b.1,
                    None => default_branch,
                };
            }
            Stmt::Ret(x) => return (effects, words[x]),
        }
    }
}

fn string_helpers() -> (Proc, Proc) {
    let mut g = generator();
    let mut ids = IdentIds::new();
    expand(&mut g, &mut ids, str_layout(), ModifyRc::Inc(value(), 1));
    expand(&mut g, &mut ids, str_layout(), ModifyRc::Dec(value()));
    let mut procs = g.generate_refcount_procs(&mut ids).unwrap();
    let dec = procs.pop().unwrap();
    let inc = procs.pop().unwrap();
    (inc, dec)
}

#[test]
fn small_string_is_left_alone() {
    let (inc, dec) = string_helpers();
    assert_eq!(run_helper(&inc, -1, 3), (vec![], 0));
    assert_eq!(run_helper(&dec, i64::MIN as i128, 3), (vec![], 0));
}

#[test]
fn big_string_count_is_modified() {
    let (inc, dec) = string_helpers();
    assert_eq!(
        run_helper(&inc, 0, 3),
        (
            vec![
                (LowLevel::RefCountGetPtr, vec![1000]),
                (LowLevel::RefCountInc, vec![0, 3])
            ],
            0
        )
    );
    assert_eq!(
        run_helper(&dec, 12, 3),
        (
            vec![
                (LowLevel::RefCountGetPtr, vec![1000]),
                (LowLevel::RefCountDec, vec![0, 8])
            ],
            0
        )
    );
}

#[test]
fn helper_signatures() {
    let (inc, dec) = string_helpers();
    let isize = Layout::Builtin(Builtin::Int(IntWidth::I64));
    assert_eq!(
        inc.args,
        vec![(str_layout(), Symbol::arg_1()), (isize, Symbol::arg_2())]
    );
    assert_eq!(dec.args, vec![(str_layout(), Symbol::arg_1())]);
    assert_eq!(inc.ret_layout, unit());
    assert_eq!(dec.is_self_recursive, SelfRecursive::NotSelfRecursive);
    assert_eq!(dec.closure_data_layout, None);
    assert!(!dec.must_own_arguments);
}

#[test]
fn alignment_follows_pointer_width() {
    let mut g = RefcountProcGenerator::new(IntWidth::I32, HOME);
    let mut ids = IdentIds::new();
    expand(&mut g, &mut ids, str_layout(), ModifyRc::Dec(value()));
    let procs = g.generate_refcount_procs(&mut ids).unwrap();
    assert_eq!(
        run_helper(&procs[0], 1, 0).0,
        vec![
            (LowLevel::RefCountGetPtr, vec![1000]),
            (LowLevel::RefCountDec, vec![0, 4])
        ]
    );
}

#[test]
fn layout_names() {
    assert_eq!(layout_debug_name(&Layout::Builtin(Builtin::List(0))), "list");
    assert_eq!(layout_debug_name(&Layout::Builtin(Builtin::SetOf(0))), "set");
    assert_eq!(layout_debug_name(&Layout::Builtin(Builtin::Dict(0, 1))), "dict");
    assert_eq!(layout_debug_name(&str_layout()), "str");
    assert_eq!(layout_debug_name(&Layout::Struct(2)), "struct");
    assert_eq!(layout_debug_name(&Layout::Union(2)), "union");
    assert_eq!(layout_debug_name(&Layout::LambdaSet(2)), "lambdaset");
    assert_eq!(layout_debug_name(&Layout::RecursivePointer), "recursive_pointer");
}

#[test]
fn decimal_rendering() {
    assert_eq!(decimal_string(0), "0");
    assert_eq!(decimal_string(7), "7");
    assert_eq!(decimal_string(10), "10");
    assert_eq!(decimal_string(90210), "90210");
}

#[test]
fn stack_sizes() {
    assert_eq!(IntWidth::I64.stack_size(), 8);
    assert_eq!(IntWidth::U32.stack_size(), 4);
    assert_eq!(IntWidth::I128.stack_size(), 16);
    assert_eq!(IntWidth::U8.stack_size(), 1);
}

#[test]
fn temporaries_are_distinct() {
    let mut g = generator();
    let mut ids = IdentIds::new();
    let (a, _) = expand(&mut g, &mut ids, str_layout(), ModifyRc::DecRef(value()));
    let (b, _) = expand(&mut g, &mut ids, str_layout(), ModifyRc::DecRef(value()));
    let first = |s: &Stmt| match s {
        Stmt::Let(x, _, _, _) => *x,
        _ => panic!("not a let"),
    };
    assert_ne!(first(&a), first(&b));
    assert_eq!(ids.len(), 4);
}

/// The symbol bound by a `Let`, and the statement after it.
fn let_symbol(s: &Stmt) -> (Symbol, &Stmt) {
    match s {
        Stmt::Let(x, _, _, next) => (*x, next),
        _ => panic!("not a let"),
    }
}

#[test]
fn expansion_symbols_are_fresh() {
    let mut g = generator();
    let mut ids = IdentIds::new();
    let (d, _) = expand(&mut g, &mut ids, str_layout(), ModifyRc::Dec(value()));
    let (result, _) = let_symbol(&d);
    assert_ne!(result, called_helper(&d));
    expand(&mut g, &mut ids, str_layout(), ModifyRc::Inc(value(), 1));
    expand(&mut g, &mut ids, str_layout(), ModifyRc::Dec(value()));
    expand(&mut g, &mut ids, str_layout(), ModifyRc::Dec(value()));
    let (i, _) = expand(&mut g, &mut ids, str_layout(), ModifyRc::Inc(value(), 1));
    let (amount, rest) = let_symbol(&i);
    let (result, _) = let_symbol(rest);
    assert_ne!(amount, result);
    let helpers: Vec<Symbol> = g.procs_to_generate().iter().map(|e| e.2).collect();
    assert_ne!(helpers[0], helpers[1]);
    assert!(!helpers.contains(&amount) && !helpers.contains(&result));
}

#[test]
fn helper_temporaries_follow_the_table() {
    let mut g = generator();
    let mut ids = IdentIds::new();
    expand(&mut g, &mut ids, str_layout(), ModifyRc::Inc(value(), 1));
    let before = ids.len();
    let procs = g.generate_refcount_procs(&mut ids).unwrap();
    assert_eq!(ids.len(), before + 8);
    let (len, _) = let_symbol(&procs[0].body);
    assert_eq!(len, Symbol::new(HOME, IdentId(before as u32)));
    assert_ne!(len, Symbol::arg_1());
    assert_ne!(len, Symbol::arg_2());
}
