use jsc::ast::{AssignOp, AssignPatt, AssignTarget, BinaryOp, Dtor, Expr, Fun, Param, Script, Stmt, StmtListItem};
use jsc::cg::{CompileError, CG};
use jsc::check::check_program;

fn id(s: &str) -> Expr {
    Expr::Id(s.to_string())
}

fn num(s: &str) -> Expr {
    Expr::Number(s.to_string())
}

fn bin(op: BinaryOp, a: Expr, b: Expr) -> Expr {
    Expr::Binop(op, Box::new(a), Box::new(b))
}

fn call(f: &str, args: Vec<Expr>) -> Expr {
    Expr::Call(Box::new(id(f)), args)
}

fn fun(name: &str, params: &[&str], body: Vec<StmtListItem>) -> StmtListItem {
    StmtListItem::Fun(Fun {
        id: Some(name.to_string()),
        params: params.iter().map(|p| Param::Simple(p.to_string())).collect(),
        body: Box::new(Stmt::Block(body)),
    })
}

fn stmt(s: Stmt) -> StmtListItem {
    StmtListItem::Stmt(s)
}

fn ret(e: Expr) -> StmtListItem {
    stmt(Stmt::Return(Some(e)))
}

fn compile(body: Vec<StmtListItem>, use_node: bool) -> Result<Vec<String>, CompileError> {
    let mut cg = CG::new(use_node);
    cg.generate(&Script { body })?;
    Ok(cg.lines().clone())
}

fn add_program() -> Vec<StmtListItem> {
    vec![
        fun("add", &["a", "b"], vec![ret(bin(BinaryOp::Plus, id("a"), id("b")))]),
        fun("main", &[], vec![ret(call("add", vec![num("1"), num("2")]))]),
    ]
}

fn loop_program() -> Vec<StmtListItem> {
    vec![fun(
        "loop",
        &["n"],
        vec![
            stmt(Stmt::If(
                bin(BinaryOp::LEq, id("n"), num("0")),
                Box::new(Stmt::Block(vec![ret(num("0"))])),
                None,
            )),
            ret(call("loop", vec![bin(BinaryOp::Minus, id("n"), num("1"))])),
        ],
    )]
}

#[test]
fn add_and_main_compile_to_callbacks() {
    let lines = compile(add_program(), true).unwrap();
    let body: Vec<&str> = lines.iter().map(|l| l.as_str()).collect();
    let start = body.iter().position(|l| *l == "void add_0(const FunctionCallbackInfo<Value>& args) {\n").unwrap();
    assert_eq!(body[start + 1], "  Isolate* isolate = args.GetIsolate();\n");
    assert_eq!(body[start + 2], "  Local<Value> a_1 = args[0];\n");
    assert_eq!(body[start + 3], "  Local<Value> b_2 = args[1];\n");
    assert_eq!(body[start + 4], "tail_recurse_3:\n");
    assert_eq!(
        body[start + 5],
        "  args.GetReturnValue().Set((a_1->IsString() || b_2->IsString()) ? Local<Value>::Cast(String::Concat(a_1->ToString(), b_2->ToString())) : Local<Value>::Cast((a_1->IsNumber() || b_2->IsNumber()) ? (Number::New(isolate, a_1->ToNumber(isolate)->Value() + b_2->ToNumber(isolate)->Value())) : Number::New(isolate, std::numeric_limits<double>::quiet_NaN())));\n"
    );
    assert_eq!(body[start + 6], "  return;\n");
    assert_eq!(body[start + 7], "}\n\n");
    let expected_main = [
        "void jsc_main(const FunctionCallbackInfo<Value>& args) {\n",
        "  Isolate* isolate = args.GetIsolate();\n",
        "tail_recurse_4:\n",
        "  Local<Value> arg_5 = Number::New(isolate, 1);\n",
        "  Local<Value> arg_6 = Number::New(isolate, 2);\n",
        "  Local<FunctionTemplate> ftpl_8 = FunctionTemplate::New(isolate, add_0);\n",
        "  Local<Function> fn_7 = ftpl_8->GetFunction();\n",
        "  fn_7->SetName(String::NewFromUtf8(isolate, \"add_0\"));\n",
        "  Local<Value> argv_9[] = { arg_5, arg_6 };\n",
        "  Local<Value> result_10 = fn_7->Call(Null(isolate), 2, argv_9);\n",
        "  args.GetReturnValue().Set(result_10);\n",
        "  return;\n",
        "}\n\n",
    ];
    for (k, line) in expected_main.iter().enumerate() {
        assert_eq!(body[start + 8 + k], *line);
    }
    let n = body.len();
    assert_eq!(body[n - 5], "void Init(Local<Object> exports) {\n");
    assert_eq!(body[n - 4], "  NODE_SET_METHOD(exports, \"jsc_main\", jsc_main);\n");
    assert_eq!(body[n - 3], "  NODE_SET_METHOD(exports, \"add\", add_0);\n");
    assert_eq!(body[n - 2], "}\n\n");
    assert_eq!(body[n - 1], "NODE_MODULE(NODE_GYP_MODULE_NAME, Init)\n");
}

#[test]
fn export_table_lists_functions_but_main() {
    let mut cg = CG::new(true);
    let mut body = add_program();
    body.push(fun("sub", &["x"], vec![ret(id("x"))]));
    cg.generate(&Script { body }).unwrap();
    let names: Vec<(String, String)> = cg.exports().clone();
    assert_eq!(names.len(), 2);
    assert_eq!(names[0], ("add".to_string(), "add_0".to_string()));
    assert_eq!(names[1].0, "sub");
    assert!(names.iter().all(|(n, _)| n != "main"));
}

#[test]
fn tail_self_call_becomes_jump() {
    let lines = compile(loop_program(), true).unwrap();
    assert!(lines.iter().any(|l| l == "  goto tail_recurse_2;\n"));
    assert!(lines.iter().any(|l| l.starts_with("  n_1 = arg_")));
    assert!(!lines.iter().any(|l| l.contains("fn_") && l.contains("->Call(")));
}

#[test]
fn non_tail_self_call_is_a_call() {
    let body = vec![fun(
        "f",
        &["n"],
        vec![stmt(Stmt::Expr(call("f", vec![id("n")]))), ret(num("0"))],
    )];
    let lines = compile(body, true).unwrap();
    assert!(!lines.iter().any(|l| l.contains("goto")));
    assert!(lines.iter().any(|l| l.contains("fn_") && l.contains("->Call(Null(isolate), 1, ")));
}

#[test]
fn compiling_twice_gives_identical_output() {
    assert_eq!(compile(add_program(), true).unwrap(), compile(add_program(), true).unwrap());
    assert_eq!(compile(loop_program(), false).unwrap(), compile(loop_program(), false).unwrap());
}

fn lowered_return(e: Expr) -> String {
    let lines = compile(vec![fun("main", &["s", "n"], vec![ret(e)])], true).unwrap();
    lines.iter().find(|l| l.starts_with("  args.GetReturnValue().Set(")).unwrap().clone()
}

#[test]
fn loose_equality_tries_string_first() {
    let line = lowered_return(bin(BinaryOp::Eq, Expr::Str("1".to_string()), num("1")));
    let outer = "  args.GetReturnValue().Set((String::NewFromUtf8(isolate, \"1\")->IsString() || Number::New(isolate, 1)->IsString()) ? Boolean::New(isolate, string_tmp_";
    assert!(line.starts_with(outer), "{}", line);
    assert!(line.contains("->IsNumber() || "));
    assert!(line.ends_with(": (False(isolate)))));\n"), "{}", line);
}

#[test]
fn strict_equality_requires_both_types() {
    let line = lowered_return(bin(BinaryOp::StrictEq, id("s"), id("n")));
    assert!(line.contains("(s_0->IsString() && n_1->IsString())"), "{}", line);
    assert!(line.contains("(s_0->IsNumber() && n_1->IsNumber())"));
    assert!(line.contains("(s_0->IsBoolean() && n_1->IsBoolean())"));
    assert!(line.ends_with(": (False(isolate)))));\n"), "{}", line);
}

#[test]
fn relational_has_no_boolean_branch() {
    let line = lowered_return(bin(BinaryOp::Lt, id("s"), id("n")));
    assert!(!line.contains("IsBoolean"));
    assert!(line.contains("s_0->ToNumber(isolate)->Value() < n_1->ToNumber(isolate)->Value()"));
}

#[test]
fn arithmetic_without_numbers_is_nan() {
    let line = lowered_return(bin(BinaryOp::Minus, id("s"), id("n")));
    assert!(line.ends_with(": Number::New(isolate, std::numeric_limits<double>::quiet_NaN()));\n"), "{}", line);
}

#[test]
fn function_scope_does_not_leak() {
    let body = vec![
        fun("f", &["p"], vec![stmt(Stmt::Var(vec![Dtor::Simple("q".to_string(), None)])), ret(id("q"))]),
        fun("main", &[], vec![ret(id("q"))]),
    ];
    let lines = compile(body, true).unwrap();
    assert!(lines.iter().any(|l| l == "  Local<Value> q_3;\n"));
    assert!(lines.iter().any(|l| l == "  args.GetReturnValue().Set(q_3);\n"));
    assert!(lines.iter().any(|l| l == "  args.GetReturnValue().Set(isolate->GetCurrentContext()->Global()->Get(String::NewFromUtf8(isolate, \"q\")));\n"));
    assert!(lines.iter().any(|l| l == "tail_recurse_4:\n"));
}

#[test]
fn modulo_uses_remainder() {
    let line = lowered_return(bin(BinaryOp::Mod, id("s"), id("n")));
    assert!(line.contains("s_0->ToNumber(isolate)->Value() % n_1->ToNumber(isolate)->Value()"), "{}", line);
}

#[test]
fn hygiene_shadowing_gives_distinct_names() {
    let body = vec![
        stmt(Stmt::Var(vec![Dtor::Simple("x".to_string(), Some(num("1")))])),
        fun(
            "main",
            &[],
            vec![
                stmt(Stmt::Var(vec![Dtor::Simple("x".to_string(), Some(num("2")))])),
                ret(id("x")),
            ],
        ),
    ];
    let lines = compile(body, true).unwrap();
    assert!(lines.iter().any(|l| l == "Local<Value> x_0 = Number::New(isolate, 1);\n"));
    assert!(lines.iter().any(|l| l == "  Local<Value> x_2 = Number::New(isolate, 2);\n"));
    assert!(lines.iter().any(|l| l == "  args.GetReturnValue().Set(x_2);\n"));
}

#[test]
fn free_names_read_the_global_object() {
    let line = lowered_return(id("print"));
    assert_eq!(
        line,
        "  args.GetReturnValue().Set(isolate->GetCurrentContext()->Global()->Get(String::NewFromUtf8(isolate, \"print\")));\n"
    );
    let line = lowered_return(id("global"));
    assert_eq!(line, "  args.GetReturnValue().Set(isolate->GetCurrentContext()->Global());\n");
}

#[test]
fn string_literals_escape_control_characters() {
    let line = lowered_return(Expr::Str("a\nb\tc\r".to_string()));
    assert_eq!(line, "  args.GetReturnValue().Set(String::NewFromUtf8(isolate, \"a\\nb\\tc\\r\"));\n");
}

#[test]
fn array_holes_hold_null() {
    let lines = compile(
        vec![fun("main", &[], vec![ret(Expr::Arr(vec![Some(num("1")), None]))])],
        true,
    )
    .unwrap();
    assert!(lines.iter().any(|l| l == "  Local<Array> array_1 = Array::New(isolate, 2);\n"));
    assert!(lines.iter().any(|l| l == "  array_1->Set(0, Number::New(isolate, 1));\n"));
    assert!(lines.iter().any(|l| l == "  array_1->Set(1, Null(isolate));\n"));
}

#[test]
fn property_read_walks_prototypes() {
    let lines = compile(
        vec![fun("main", &["o"], vec![ret(Expr::Dot(Box::new(id("o")), "k".to_string()))])],
        true,
    )
    .unwrap();
    assert!(lines.iter().any(|l| l == "  Local<Value> dot_parent_3 = o_0;\n"));
    assert!(lines.iter().any(|l| l == "    dot_parent_3 = dot_parent_3.As<Object>()->GetPrototype();\n"));
    assert!(lines.iter().any(|l| l == "  args.GetReturnValue().Set(dot_result_2);\n"));
}

#[test]
fn compound_assignment_to_declared_name() {
    let assign = Expr::Assign(AssignOp::PlusEq, AssignPatt::Simple(AssignTarget::Id("x".to_string())), Box::new(num("2")));
    let lines = compile(
        vec![fun(
            "main",
            &["x"],
            vec![stmt(Stmt::Expr(assign)), ret(id("x"))],
        )],
        true,
    )
    .unwrap();
    assert!(lines.iter().any(|l| l == "  x_0 += Number::New(isolate, 2);\n"));
}

#[test]
fn standalone_flavour_boots_v8() {
    let lines = compile(add_program(), false).unwrap();
    assert_eq!(lines[0], "#include <stdio>\n");
    assert!(lines.last().unwrap().contains("FunctionTemplate::New(isolate, jsc_main)"));
}

fn check(body: Vec<StmtListItem>) -> Result<(), CompileError> {
    check_program(&Script { body })
}

#[test]
fn unsupported_forms_are_reported() {
    let one = |s: Stmt| check(vec![fun("main", &[], vec![stmt(s)])]);
    assert!(matches!(one(Stmt::Expr(Expr::Null)), Err(CompileError::NullLiteral)));
    assert!(matches!(one(Stmt::Other("For".to_string())), Err(CompileError::UnsupportedStatement(k)) if k == "For"));
    assert!(matches!(one(Stmt::Expr(Expr::Other("Cond".to_string()))), Err(CompileError::UnsupportedExpression(k)) if k == "Cond"));
    assert!(matches!(
        one(Stmt::Expr(bin(BinaryOp::In, num("1"), num("2")))),
        Err(CompileError::UnsupportedOperator(BinaryOp::In))
    ));
    assert!(matches!(one(Stmt::Var(vec![Dtor::Destructuring])), Err(CompileError::DestructuringDeclaration)));
    assert!(matches!(
        one(Stmt::Expr(Expr::Assign(AssignOp::Eq, AssignPatt::Destructuring, Box::new(num("1"))))),
        Err(CompileError::DestructuringAssignment)
    ));
    assert!(matches!(
        one(Stmt::Expr(Expr::Assign(
            AssignOp::Eq,
            AssignPatt::Simple(AssignTarget::Dot(Box::new(id("o")), "k".to_string())),
            Box::new(num("1"))
        ))),
        Err(CompileError::UnsupportedAssignTarget)
    ));
    let anon = StmtListItem::Fun(Fun { id: None, params: vec![], body: Box::new(Stmt::Block(vec![])) });
    assert!(matches!(check(vec![anon]), Err(CompileError::AnonymousFunction)));
    let destructured = StmtListItem::Fun(Fun { id: Some("f".to_string()), params: vec![Param::Destructuring], body: Box::new(Stmt::Block(vec![])) });
    assert!(matches!(check(vec![destructured]), Err(CompileError::DestructuringParameter)));
    let nested = fun("f", &[], vec![stmt(Stmt::Block(vec![stmt(Stmt::Return(Some(Expr::Arr(vec![None, Some(Expr::Null)]))))]))]);
    assert!(matches!(check(vec![nested]), Err(CompileError::NullLiteral)));
    assert!(check(add_program()).is_ok());
    assert!(check(loop_program()).is_ok());
}

#[test]
fn first_problem_in_walk_order() {
    let body = vec![fun("main", &[], vec![
        stmt(Stmt::Expr(bin(BinaryOp::Instanceof, Expr::Other("This".to_string()), num("1")))),
        stmt(Stmt::Other("Throw".to_string())),
    ])];
    assert!(matches!(check(body), Err(CompileError::UnsupportedExpression(k)) if k == "This"));
}

#[test]
fn assignment_to_undeclared_name_writes_global() {
    let assign = Expr::Assign(AssignOp::Eq, AssignPatt::Simple(AssignTarget::Id("y".to_string())), Box::new(num("1")));
    let lines = compile(vec![fun("main", &[], vec![stmt(Stmt::Expr(assign))])], true).unwrap();
    assert!(lines.iter().any(|l| l
        == "  isolate->GetCurrentContext()->Global()->Set(String::NewFromUtf8(isolate, \"y\"), Number::New(isolate, 1));\n"));
}

#[test]
fn bracket_read_walks_prototypes() {
    let lines = compile(
        vec![fun("main", &["o"], vec![ret(Expr::Brack(Box::new(id("o")), Box::new(Expr::Str("k".to_string()))))])],
        true,
    )
    .unwrap();
    assert!(lines.iter().any(|l| l == "  Local<String> property_4 = String::NewFromUtf8(isolate, \"k\")->ToString();\n"));
    assert!(lines.iter().any(|l| l == "    dot_parent_3 = dot_parent_3.As<Object>()->GetPrototype();\n"));
    assert!(lines.iter().any(|l| l == "  args.GetReturnValue().Set(dot_result_2);\n"));
}
