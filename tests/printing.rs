use jsc::ast::{AssignOp, AssignPatt, AssignTarget, BinaryOp, Dtor, Expr, Stmt};
use jsc::printer::{print_source, Printer};

fn id(s: &str) -> Expr {
    Expr::Id(s.to_string())
}

#[test]
fn expressions_print_as_source() {
    let e = Expr::Call(
        Box::new(id("f")),
        vec![Expr::Binop(BinaryOp::Plus, Box::new(id("a")), Box::new(Expr::Number("1".to_string()))), Expr::True],
    );
    assert_eq!(e.print(0), "f(+ a 1, true)");
    let arr = Expr::Arr(vec![Some(Expr::Null), None, Some(Expr::Str("s".to_string()))]);
    assert_eq!(arr.print(0), "[null, s]");
    let assign = Expr::Assign(
        AssignOp::MinusEq,
        AssignPatt::Simple(AssignTarget::Brack(Box::new(id("o")), Box::new(id("k")))),
        Box::new(Expr::Dot(Box::new(id("p")), "q".to_string())),
    );
    assert_eq!(assign.print(0), "o[k] -= p.q");
    assert_eq!(Expr::Other("Cond".to_string()).print(0), "");
}

#[test]
fn declarations_print_as_source() {
    let ds = vec![Dtor::Simple("x".to_string(), Some(Expr::Number("1".to_string()))), Dtor::Simple("y".to_string(), None)];
    assert_eq!(ds.print(0), "var x = 1,  \ny;");
    assert_eq!(Dtor::Simple("z".to_string(), None).print(0), "let z;");
    assert_eq!(Stmt::Return(Some(id("x"))).print(0), "return x;");
    assert_eq!(Stmt::Return(None).print(0), "return;");
}

#[test]
fn source_becomes_comment_lines() {
    let ds = vec![Dtor::Simple("x".to_string(), Some(Expr::Number("1".to_string()))), Dtor::Simple("y".to_string(), None)];
    let mut out: Vec<String> = vec!["first\n".to_string()];
    print_source(1, &Stmt::Var(ds), &mut out);
    assert_eq!(out, vec!["first\n".to_string(), "  // var x = 1,  \n".to_string(), "  // y;\n".to_string()]);
    let mut out: Vec<String> = Vec::new();
    print_source(0, &Stmt::Block(vec![]), &mut out);
    assert!(out.is_empty());
}
