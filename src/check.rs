//! Checks a program against the subset of JavaScript the generator
//! compiles, before any line is written: the first unsupported construct, in
//! the order the compilation would meet it, is reported with its kind.

use vstd::prelude::*;
use crate::ast::{AssignPatt, AssignTarget, BinaryOp, Dtor, Expr, Param, Script, Stmt, StmtListItem};
use crate::cg::{CompileError, expr_problem, op_supported, program_problem, stmt_problem};

verus! {

fn op_is_supported(op: BinaryOp) -> (r: bool)
    ensures
        r == op_supported(op),
{
    match op {
        BinaryOp::In | BinaryOp::Instanceof => false,
        _ => true,
    }
}

/// The first construct of an expression outside the supported subset.
pub fn check_expression(e: &Expr) -> (r: Option<CompileError>)
    ensures
        r == expr_problem(*e, 4, 0),
    decreases e,
{
    match e {
        Expr::Call(c, args) => {
            match check_expression(c) {
                Some(x) => { return Some(x); },
                None => {},
            }
            let mut i: usize = 0;
            while i < args.len()
                invariant
                    *e == Expr::Call(*c, *args),
                    i <= args@.len(),
                    expr_problem(*e, 4, 0) == expr_problem(*e, 2, i as nat),
                decreases args@.len() - i,
            {
                proof {
                    assert(decreases_to!(*e => e->Call_1));
                    assert(decreases_to!(e->Call_1 => e->Call_1@));
                    assert(decreases_to!(e->Call_1@ => e->Call_1@[i as int]));
                }
                match check_expression(&args[i]) {
                    Some(x) => { return Some(x); },
                    None => {},
                }
                i = i + 1;
            }
            None
        },
        Expr::Arr(els) => {
            let mut i: usize = 0;
            while i < els.len()
                invariant
                    *e == Expr::Arr(*els),
                    i <= els@.len(),
                    expr_problem(*e, 4, 0) == expr_problem(*e, 2, i as nat),
                decreases els@.len() - i,
            {
                proof {
                    assert(decreases_to!(*e => e->Arr_0));
                    assert(decreases_to!(e->Arr_0 => e->Arr_0@));
                    assert(decreases_to!(e->Arr_0@ => e->Arr_0@[i as int]));
                }
                match &els[i] {
                    Some(x) => {
                        proof {
                            assert(decreases_to!(e->Arr_0@[i as int] => e->Arr_0@[i as int]->Some_0));
                        }
                        match check_expression(x) {
                            Some(p) => { return Some(p); },
                            None => {},
                        }
                    },
                    None => {},
                }
                i = i + 1;
            }
            None
        },
        Expr::Binop(op, a, b) => {
            match check_expression(a) {
                Some(x) => { return Some(x); },
                None => {},
            }
            match check_expression(b) {
                Some(x) => { return Some(x); },
                None => {},
            }
            if op_is_supported(*op) { None } else { Some(CompileError::UnsupportedOperator(*op)) }
        },
        Expr::Dot(o, _) => check_expression(o),
        Expr::Brack(o, k) => match check_expression(o) {
            Some(x) => Some(x),
            None => check_expression(k),
        },
        Expr::Assign(_, patt, body) => match patt {
            AssignPatt::Destructuring => Some(CompileError::DestructuringAssignment),
            AssignPatt::Simple(AssignTarget::Dot(_, _)) => Some(CompileError::UnsupportedAssignTarget),
            AssignPatt::Simple(AssignTarget::Id(_)) => check_expression(body),
            AssignPatt::Simple(AssignTarget::Brack(o, k)) => match check_expression(o) {
                Some(x) => Some(x),
                None => match check_expression(k) {
                    Some(x) => Some(x),
                    None => check_expression(body),
                },
            },
        },
        Expr::Null => Some(CompileError::NullLiteral),
        Expr::Other(kind) => Some(CompileError::UnsupportedExpression(kind.clone())),
        _ => None,
    }
}

/// The first construct of a statement outside the supported subset.
pub fn check_statement(s: &Stmt) -> (r: Option<CompileError>)
    ensures
        r == stmt_problem(*s, 3, 0),
    decreases s, 3nat,
{
    match s {
        Stmt::Expr(e) => check_expression(e),
        Stmt::Var(ds) => {
            let mut i: usize = 0;
            while i < ds.len()
                invariant
                    *s == Stmt::Var(*ds),
                    i <= ds@.len(),
                    stmt_problem(*s, 3, 0) == stmt_problem(*s, 2, i as nat),
                decreases ds@.len() - i,
            {
                match &ds[i] {
                    Dtor::Destructuring => { return Some(CompileError::DestructuringDeclaration); },
                    Dtor::Simple(_, Some(x)) => match check_expression(x) {
                        Some(p) => { return Some(p); },
                        None => {},
                    },
                    Dtor::Simple(_, None) => {},
                }
                i = i + 1;
            }
            None
        },
        Stmt::Return(r) => match r {
            Some(x) => check_expression(x),
            None => None,
        },
        Stmt::If(t, a, b) => match check_expression(t) {
            Some(x) => Some(x),
            None => match check_statement(a) {
                Some(x) => Some(x),
                None => match b {
                    Some(b) => check_statement(b),
                    None => None,
                },
            },
        },
        Stmt::While(t, w) => match check_expression(t) {
            Some(x) => Some(x),
            None => check_statement(w),
        },
        Stmt::Block(items) => {
            proof {
                assert(*s == Stmt::Block(*items));
            }
            check_items(items)
        },
        Stmt::Other(kind) => Some(CompileError::UnsupportedStatement(kind.clone())),
    }
}

/// The first construct of a list of items outside the supported subset.
fn check_items(items: &Vec<StmtListItem>) -> (r: Option<CompileError>)
    ensures
        r == stmt_problem(Stmt::Block(*items), 2, 0),
    decreases items, 2nat,
{
    let mut i: usize = 0;
    while i < items.len()
        invariant
            i <= items@.len(),
            stmt_problem(Stmt::Block(*items), 2, 0) == stmt_problem(Stmt::Block(*items), 2, i as nat),
        decreases items@.len() - i,
    {
        proof {
            assert(decreases_to!(*items => items@));
            assert(decreases_to!(items@ => items@[i as int]));
        }
        match &items[i] {
            StmtListItem::Fun(_) => match check_function(items, i) {
                Some(x) => { return Some(x); },
                None => {},
            },
            StmtListItem::Stmt(t) => match check_statement(t) {
                Some(x) => { return Some(x); },
                None => {},
            },
        }
        i = i + 1;
    }
    None
}

/// The first construct of the function declared at item `i` outside the
/// supported subset.
fn check_function(items: &Vec<StmtListItem>, i: usize) -> (r: Option<CompileError>)
    requires
        i < items@.len(),
        items@[i as int] is Fun,
    ensures
        r == stmt_problem(Stmt::Block(*items), 1, i as nat),
    decreases items, 1nat,
{
    let f = match &items[i] { StmtListItem::Fun(f) => f, _ => { return None; } };
    assert(items@[i as int] == StmtListItem::Fun(*f));
    if f.id.is_none() {
        return Some(CompileError::AnonymousFunction);
    }
    let mut j: usize = 0;
    while j < f.params.len()
        invariant
            i < items@.len(),
            items@[i as int] == StmtListItem::Fun(*f),
            f.id is Some,
            j <= f.params@.len(),
            forall|k: int| 0 <= k < j ==> #[trigger] f.params@[k] is Simple,
        decreases f.params@.len() - j,
    {
        match &f.params[j] {
            Param::Destructuring => {
                assert(f.params@[j as int] is Destructuring);
                assert(exists|k: int| 0 <= k < f.params@.len() && #[trigger] f.params@[k] is Destructuring);
                return Some(CompileError::DestructuringParameter);
            },
            Param::Simple(_) => {},
        }
        j = j + 1;
    }
    proof {
        assert(!exists|k: int| 0 <= k < f.params@.len() && #[trigger] f.params@[k] is Destructuring);
        assert(decreases_to!(*items => items@));
        assert(decreases_to!(items@ => items@[i as int]));
        assert(decreases_to!(items@[i as int] => items@[i as int]->Fun_0));
        assert(decreases_to!(items@[i as int]->Fun_0 => items@[i as int]->Fun_0.body));
    }
    check_statement(&f.body)
}

/// Checks a whole program: `Ok` exactly when every construct in it lies in
/// the supported subset, else the first one that does not. A program that
/// passes can be handed to `CG::generate`.
pub fn check_program(ast: &Script) -> (r: Result<(), CompileError>)
    ensures
        match program_problem(ast.body) {
            None => r is Ok,
            Some(x) => r == Err::<(), CompileError>(x),
        },
{
    match check_items(&ast.body) {
        None => Ok(()),
        Some(x) => Err(x),
    }
}

} // verus!
