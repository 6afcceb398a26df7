//! The code generator: lowers a syntax tree into C++ that drives V8 through
//! its embedding API. Every emitted line goes to one ordered sink, in a single
//! pass over the tree. The whole lowering is described by spec functions
//! (`lower` for expressions, `lower_stmt` for statements, `program_spec` for
//! a program), and each executable function is specified to write exactly
//! the lines, and reach exactly the state, that they give.

use vstd::prelude::*;
use crate::ast::{AssignOp, AssignPatt, AssignTarget, BinaryOp, Dtor, Expr, Fun, Param, Script, Stmt, StmtListItem, assop_spec};
use crate::scope::{Scope, ScopeModel, lookup_in, fresh_name};
use crate::text::{indent, indented, usize_text, decimal, push_char};

verus! {

/// Why a program cannot be compiled.
#[derive(Debug)]
pub enum CompileError {
    /// An expression form outside the supported subset, by kind.
    UnsupportedExpression(String),
    /// A statement form outside the supported subset, by kind.
    UnsupportedStatement(String),
    /// A binary operator without a lowering (`in`, `instanceof`).
    UnsupportedOperator(BinaryOp),
    /// Assignment through `object.name`.
    UnsupportedAssignTarget,
    /// Assignment to a destructuring pattern.
    DestructuringAssignment,
    /// A destructuring function parameter.
    DestructuringParameter,
    /// A destructuring variable declarator.
    DestructuringDeclaration,
    /// A function declaration without a name.
    AnonymousFunction,
    /// A `null` literal.
    NullLiteral,
    /// The counter for generated identifiers is used up.
    TooManyNames,
}

/// The state of a compilation: the output flavour, the names of the
/// functions generated so far, the lines written so far, and the scope.
pub struct Gs {
    pub use_node: bool,
    pub funcs: Seq<Seq<char>>,
    pub exports: Seq<(Seq<char>, Seq<char>)>,
    pub lines: Seq<Seq<char>>,
    pub scope: ScopeModel,
}

/// The outcome of one step of the compilation: the next state and a value,
/// or the error that ends the compilation.
pub type Step<V> = Result<(Gs, V), CompileError>;

/// The context of a self call in tail position: the generated name of the
/// function whose body is being compiled, its parameters and its entry label.
pub struct Tco {
    pub name: String,
    pub params: Vec<String>,
    pub label: String,
}

pub struct TcoModel {
    pub name: Seq<char>,
    pub params: Seq<Seq<char>>,
    pub label: Seq<char>,
}

pub open spec fn tco_model(t: Option<Tco>) -> Option<TcoModel> {
    match t {
        Some(t) => Some(TcoModel { name: t.name@, params: t.params@.map_values(|p: String| p@), label: t.label@ }),
        None => None,
    }
}

pub open spec fn opt_view(o: Option<String>) -> Option<Seq<char>> {
    match o {
        Some(s) => Some(s@),
        None => None,
    }
}

/// Writes one line at the given depth.
pub open spec fn emit(g: Gs, depth: nat, t: Seq<char>) -> Gs {
    Gs { lines: g.lines.push(indented(depth, t)), ..g }
}

/// Mints a fresh identifier for a temporary.
pub open spec fn mint(g: Gs, prefix: Seq<char>) -> Step<Seq<char>> {
    if g.scope.counter < usize::MAX {
        let (s, n) = g.scope.minted(prefix);
        Ok((Gs { scope: s, ..g }, n))
    } else {
        Err(CompileError::TooManyNames)
    }
}

/// Binds a source identifier to a fresh identifier in the current scope.
pub open spec fn bind(g: Gs, local: Seq<char>) -> Step<Seq<char>> {
    if g.scope.counter < usize::MAX {
        let (s, n) = g.scope.registered(local);
        Ok((Gs { scope: s, ..g }, n))
    } else {
        Err(CompileError::TooManyNames)
    }
}

/// One level deeper, saturating at the largest depth.
pub open spec fn deeper(d: nat) -> nat {
    if d < usize::MAX { d + 1 } else { d }
}

/// A V8 string built from literal text.
pub open spec fn v8_string(s: Seq<char>) -> Seq<char> {
    "String::NewFromUtf8(isolate, \""@ + s + "\")"@
}

/// `s` with newline, tab and carriage return written as C escapes.
pub open spec fn escaped(s: Seq<char>) -> Seq<char>
    decreases s.len(),
{
    if s.len() == 0 {
        seq![]
    } else {
        escaped(s.drop_last()) + escaped_char(s.last())
    }
}

pub open spec fn escaped_char(c: char) -> Seq<char> {
    if c == '\n' {
        seq!['\\', 'n']
    } else if c == '\t' {
        seq!['\\', 't']
    } else if c == '\r' {
        seq!['\\', 'r']
    } else {
        seq![c]
    }
}

/// The items of `s` separated by `", "`.
pub open spec fn comma_list(s: Seq<Seq<char>>) -> Seq<char>
    decreases s.len(),
{
    if s.len() == 0 {
        seq![]
    } else if s.len() == 1 {
        s[0]
    } else {
        comma_list(s.drop_last()) + ", "@ + s.last()
    }
}

/// The value types a comparison is tried at, in order of priority.
#[derive(Clone, Copy, Debug, PartialEq, Eq, Structural)]
pub enum ValueType {
    String,
    Number,
    Boolean,
}

pub open spec fn value_type_name(t: ValueType) -> Seq<char> {
    match t {
        ValueType::String => "String"@,
        ValueType::Number => "Number"@,
        ValueType::Boolean => "Boolean"@,
    }
}

fn type_text(t: ValueType) -> (r: &'static str)
    ensures
        r@ == value_type_name(t),
{
    match t {
        ValueType::String => "String",
        ValueType::Number => "Number",
        ValueType::Boolean => "Boolean",
    }
}

/// The boolean V8 value that a comparison falls back to.
pub open spec fn default_value(b: bool) -> Seq<char> {
    if b { "True(isolate)"@ } else { "False(isolate)"@ }
}

/// Numeric operation: `(l->IsNumber() || r->IsNumber()) ? (Number::New(..)) : NaN`.
pub open spec fn number_check_and_op_spec(op: Seq<char>, l: Seq<char>, r: Seq<char>) -> Seq<char> {
    "("@ + l + "->IsNumber() || "@ + r + "->IsNumber()) ? (Number::New(isolate, "@ + l
        + "->ToNumber(isolate)->Value() "@ + op + " "@ + r + "->ToNumber(isolate)->Value())) : Number::New(isolate, std::numeric_limits<double>::quiet_NaN())"@
}

/// Addition: string concatenation when either side is a string, else numeric.
pub open spec fn plus_spec(l: Seq<char>, r: Seq<char>) -> Seq<char> {
    "("@ + l + "->IsString() || "@ + r + "->IsString()) ? Local<Value>::Cast(String::Concat("@ + l
        + "->ToString(), "@ + r + "->ToString())) : Local<Value>::Cast("@
        + number_check_and_op_spec("+"@, l, r) + ")"@
}

/// The C++ operator used for an arithmetic, bitwise or shift operator.
pub open spec fn numeric_op(op: BinaryOp) -> Option<Seq<char>> {
    match op {
        BinaryOp::Minus => Some("-"@),
        BinaryOp::Times => Some("*"@),
        BinaryOp::Div => Some("/"@),
        BinaryOp::Mod => Some("%"@),
        BinaryOp::BitOr => Some("|"@),
        BinaryOp::BitXor => Some("^"@),
        BinaryOp::BitAnd => Some("&"@),
        BinaryOp::LShift => Some("<<"@),
        BinaryOp::RShift => Some(">>"@),
        BinaryOp::URShift => Some(">>>"@),
        _ => None,
    }
}


/// Whether the guard for type `t` holds of operands whose runtime types are
/// `lt` and `rt`: loosely, either operand has the type; strictly, both do.
pub open spec fn guard_holds(strict: bool, t: ValueType, lt: ValueType, rt: ValueType) -> bool {
    if strict { lt == t && rt == t } else { lt == t || rt == t }
}

/// The type whose branch a comparison chain over `types` takes at runtime:
/// the first, in order of priority, whose guard holds; `None` falls to the
/// default result.
pub open spec fn branch_taken(types: Seq<ValueType>, strict: bool, lt: ValueType, rt: ValueType) -> Option<ValueType>
    decreases types.len(),
{
    if types.len() == 0 {
        None
    } else if guard_holds(strict, types[0], lt, rt) {
        Some(types[0])
    } else {
        branch_taken(types.drop_first(), strict, lt, rt)
    }
}

/// How a comparison operator is lowered: the types it is tried at, in order
/// of priority, whether the guard is strict, the C++ operator, and the default.
pub open spec fn comparison(op: BinaryOp) -> Option<(Seq<ValueType>, bool, Seq<char>, bool)> {
    let all = seq![ValueType::String, ValueType::Number, ValueType::Boolean];
    let ordered = seq![ValueType::String, ValueType::Number];
    match op {
        BinaryOp::Eq => Some((all, false, "=="@, false)),
        BinaryOp::NEq => Some((all, false, "!="@, true)),
        BinaryOp::StrictEq => Some((all, true, "=="@, false)),
        BinaryOp::StrictNEq => Some((all, true, "!="@, true)),
        BinaryOp::LEq => Some((ordered, false, "<="@, false)),
        BinaryOp::GEq => Some((ordered, false, ">="@, false)),
        BinaryOp::Lt => Some((ordered, false, "<"@, false)),
        BinaryOp::Gt => Some((ordered, false, ">"@, false)),
        _ => None,
    }
}

/// A value of type `t` read out of the V8 value `value` as a C++ value; a
/// string is copied into a `std::string` through two temporaries.
pub open spec fn cpp_value_spec(g: Gs, depth: nat, t: ValueType, value: Seq<char>) -> Step<Seq<char>> {
    if t == ValueType::String {
        match mint(g, "utf8value_tmp"@) {
            Err(e) => Err(e),
            Ok((g1, u)) => match mint(g1, "string_tmp"@) {
                Err(e) => Err(e),
                Ok((g2, st)) => Ok((
                    emit(
                        emit(g2, depth, "String::Utf8Value "@ + u + "("@ + value + ");"@),
                        depth,
                        "std::string "@ + st + "(*"@ + u + ");"@,
                    ),
                    st,
                )),
            },
        }
    } else {
        Ok((g, value + "->To"@ + value_type_name(t) + "(isolate)->Value()"@))
    }
}

/// The guard of a comparison at type `t`.
pub open spec fn guard_text(strict: bool, t: ValueType, l: Seq<char>, r: Seq<char>) -> Seq<char> {
    l + "->Is"@ + value_type_name(t) + (if strict { "() && "@ } else { "() || "@ }) + r + "->Is"@
        + value_type_name(t) + "()"@
}

/// The nested conditional that tries `types[i..]` in order, the outermost
/// guard being that of `types[i]`, and falls back to `default`.
pub open spec fn chain_spec(
    g: Gs,
    depth: nat,
    types: Seq<ValueType>,
    i: nat,
    strict: bool,
    op: Seq<char>,
    default: bool,
    l: Seq<char>,
    r: Seq<char>,
) -> Step<Seq<char>>
    decreases types.len() - i,
{
    if i >= types.len() {
        Ok((g, default_value(default)))
    } else {
        let t = types[i as int];
        match cpp_value_spec(g, depth, t, l) {
            Err(e) => Err(e),
            Ok((g1, lv)) => match cpp_value_spec(g1, depth, t, r) {
                Err(e) => Err(e),
                Ok((g2, rv)) => match chain_spec(g2, depth, types, i + 1, strict, op, default, l, r) {
                    Err(e) => Err(e),
                    Ok((g3, rest)) => Ok((
                        g3,
                        "("@ + guard_text(strict, t, l, r) + ") ? Boolean::New(isolate, "@ + lv + " "@ + op + " "@
                            + rv + ") : ("@ + rest + ")"@,
                    )),
                },
            },
        }
    }
}

/// A first-class function value for the generated function `fn_name`, held in `fn_tmp`.
pub open spec fn function_value_spec(g: Gs, depth: nat, fn_tmp: Seq<char>, fn_name: Seq<char>) -> Step<()> {
    match mint(g, "ftpl"@) {
        Err(e) => Err(e),
        Ok((g1, f)) => Ok((
            emit(
                emit(
                    emit(g1, depth, "Local<FunctionTemplate> "@ + f + " = FunctionTemplate::New(isolate, "@ + fn_name + ");"@),
                    depth,
                    "Local<Function> "@ + fn_tmp + " = "@ + f + "->GetFunction();"@,
                ),
                depth,
                fn_tmp + "->SetName("@ + v8_string(fn_name) + ");"@,
            ),
            (),
        )),
    }
}

/// The assignments of the arguments to the parameters, from the `i`-th on,
/// for as many as there are of both.
pub open spec fn assign_params_spec(g: Gs, depth: nat, params: Seq<Seq<char>>, args: Seq<Seq<char>>, i: nat) -> Gs
    decreases args.len() - i,
{
    if i >= args.len() || i >= params.len() {
        g
    } else {
        assign_params_spec(emit(g, depth, params[i as int] + " = "@ + args[i as int] + ";"@), depth, params, args, i + 1)
    }
}

/// An ordinary call: the arguments in an array, the call through `fn_tmp`
/// with receiver `parent`, the result in a fresh temporary.
pub open spec fn plain_call_spec(g: Gs, depth: nat, parent: Seq<char>, fn_tmp: Seq<char>, args: Seq<Seq<char>>) -> Step<Seq<char>> {
    match mint(g, "argv"@) {
        Err(e) => Err(e),
        Ok((g1, argv)) => {
            let g2 = emit(g1, depth, "Local<Value> "@ + argv + "[] = { "@ + comma_list(args) + " };"@);
            match mint(g2, "result"@) {
                Err(e) => Err(e),
                Ok((g3, res)) => Ok((
                    emit(g3, depth, "Local<Value> "@ + res + " = "@ + fn_tmp + "->Call("@ + parent + ", "@
                        + decimal(args.len() as nat) + ", "@ + argv + ");"@),
                    res,
                )),
            }
        },
    }
}

/// A call: a self call in tail position becomes parameter assignments and a
/// jump to the entry label, with no value; any other call is an ordinary one.
pub open spec fn call_internal_spec(
    g: Gs,
    depth: nat,
    parent: Seq<char>,
    fn_tmp: Seq<char>,
    fn_name: Seq<char>,
    args: Seq<Seq<char>>,
    tco: Option<TcoModel>,
) -> Step<Option<Seq<char>>> {
    match tco {
        Some(t) => if t.name == fn_name {
            Ok((emit(assign_params_spec(g, depth, t.params, args, 0), depth, "goto "@ + t.label + ";"@), None))
        } else {
            match plain_call_spec(g, depth, parent, fn_tmp, args) {
                Err(e) => Err(e),
                Ok((g1, v)) => Ok((g1, Some(v))),
            }
        },
        None => match plain_call_spec(g, depth, parent, fn_tmp, args) {
            Err(e) => Err(e),
            Ok((g1, v)) => Ok((g1, Some(v))),
        },
    }
}


/// Whether `x` is among `s`.
pub open spec fn listed(s: Seq<Seq<char>>, x: Seq<char>) -> bool
    decreases s.len(),
{
    s.len() > 0 && (s.last() == x || listed(s.drop_last(), x))
}

pub open spec fn null_value() -> Seq<char> {
    "Null(isolate)"@
}

/// What a global name reads: the global object itself for `global`, else
/// the property of that name on the global object.
pub open spec fn global_access(name: Seq<char>) -> Seq<char> {
    if name == "global"@ {
        "isolate->GetCurrentContext()->Global()"@
    } else {
        "isolate->GetCurrentContext()->Global()->Get("@ + v8_string(name) + ")"@
    }
}


/// The compilation went forward from `g0` to `g1`: same flavour, registry
/// and bindings, a counter no smaller, and the earlier lines kept in place.
pub open spec fn advances(g0: Gs, g1: Gs) -> bool {
    &&& g1.use_node == g0.use_node
    &&& g1.funcs == g0.funcs
    &&& g1.exports == g0.exports
    &&& g1.scope.bindings == g0.scope.bindings
    &&& g0.scope.counter <= g1.scope.counter
    &&& lines_kept(g0, g1)
}

/// The lines of `g0` are the first lines of `g1`.
pub open spec fn lines_kept(g0: Gs, g1: Gs) -> bool {
    g0.lines.len() <= g1.lines.len() && forall|i: int| 0 <= i < g0.lines.len() ==> #[trigger] g1.lines[i] == g0.lines[i]
}

/// The value of an expression that writes nothing: a name (its innermost
/// binding, else a read of the global object) or a string, number or
/// boolean literal.
pub open spec fn leaf_value(e: Expr, b: Seq<(Seq<char>, Seq<char>)>) -> Option<Seq<char>> {
    match e {
        Expr::Id(name) => Some(match lookup_in(b, name@) {
            Some(s) => s,
            None => global_access(name@),
        }),
        Expr::Str(v) => Some(v8_string(escaped(v@))),
        Expr::Number(t) => Some("Number::New(isolate, "@ + t@ + ")"@),
        Expr::True => Some("True(isolate)"@),
        Expr::False => Some("False(isolate)"@),
        _ => None,
    }
}


/// The entry a top-level item adds to the export table, by source name: a
/// named function but one named `main` adds its name.
pub open spec fn item_export(it: StmtListItem) -> Seq<Seq<char>> {
    match it {
        StmtListItem::Fun(f) => match f.id {
            Some(n) => if n@ == "main"@ { seq![] } else { seq![n@] },
            None => seq![],
        },
        _ => seq![],
    }
}

/// The entries a list of top-level items adds to the export table, by
/// source name: each named function but one named `main`, in order.
pub open spec fn exported_names(items: Seq<StmtListItem>) -> Seq<Seq<char>>
    decreases items.len(),
{
    if items.len() == 0 {
        seq![]
    } else {
        exported_names(items.drop_last()) + item_export(items.last())
    }
}

/// The source names in an export table.
pub open spec fn export_names(t: Seq<(Seq<char>, Seq<char>)>) -> Seq<Seq<char>> {
    t.map_values(|p: (Seq<char>, Seq<char>)| p.0)
}

/// The lines that open the program: the includes of the flavour, then the
/// V8 names in use.
pub open spec fn prefix_lines(use_node: bool) -> Seq<Seq<char>> {
    (if use_node { seq![indented(0, "#include <string>"@), indented(0, "#include <iostream>"@), indented(0, "#include <limits>"@), indented(0, "\n#include <node.h>\n"@)] } else { seq![indented(0, "#include <stdio>"@), indented(0, "#include <stdlib>"@), indented(0, "#include <limits>"@), indented(0, "#include <libplatform.h>"@), indented(0, "#include <v8.h>\n"@)] }) + seq![indented(0, "using v8::Array;"@), indented(0, "using v8::Boolean;"@), indented(0, "using v8::Context;"@), indented(0, "using v8::Exception;"@), indented(0, "using v8::Function;"@), indented(0, "using v8::FunctionTemplate;"@), indented(0, "using v8::FunctionCallbackInfo;"@), indented(0, "using v8::Isolate;"@), indented(0, "using v8::Local;"@), indented(0, "using v8::Null;"@), indented(0, "using v8::Number;"@), indented(0, "using v8::Object;"@), indented(0, "using v8::String;"@), indented(0, "using v8::False;"@), indented(0, "using v8::True;"@), indented(0, "using v8::Value;\n"@)]
}

/// The registration of each export, in order.
pub open spec fn registrations(exports: Seq<(Seq<char>, Seq<char>)>) -> Seq<Seq<char>>
    decreases exports.len(),
{
    if exports.len() == 0 {
        seq![]
    } else {
        registrations(exports.drop_last()).push(
            indented(1, "NODE_SET_METHOD(exports, \""@ + exports.last().0 + "\", "@ + exports.last().1 + ");"@))
    }
}

/// The lines that close the program: for a Node.js extension, an `Init`
/// that registers the entry point and then every entry of the export table,
/// in order; for a standalone program, a `main` that starts V8, runs the
/// entry point and exits with its numeric result.
pub open spec fn postfix_lines(use_node: bool, exports: Seq<(Seq<char>, Seq<char>)>) -> Seq<Seq<char>> {
    if use_node {
        seq![indented(0, "void Init(Local<Object> exports) {"@), indented(1, "NODE_SET_METHOD(exports, \"jsc_main\", jsc_main);"@)]
            + registrations(exports)
            + seq![indented(0, "}\n"@), indented(0, "NODE_MODULE(NODE_GYP_MODULE_NAME, Init)"@)]
    } else {
        seq![indented(0, "\nint main(int argc, char* argv[]) {\n  int exit_code;\n\n  v8::V8::InitializeICUDefaultLocation(argv[0]);\n  v8::V8::InitializeExternalStartupData(argv[0]);\n  std::unique_ptr<v8::Platform> platform = v8::platform::NewDefaultPlatform();\n  v8::V8::InitializePlatform(platform.get());\n  v8::V8::Initialize();\n\n  v8::Isolate::CreateParams create_params;\n  create_params.array_buffer_allocator =\n      v8::ArrayBuffer::Allocator::NewDefaultAllocator();\n  v8::Isolate* isolate = v8::Isolate::New(create_params);\n\n  {\n    v8::Isolate::Scope isolate_scope(isolate);\n    v8::HandleScope handle_scope(isolate);\n    v8::Local<v8::Context> context = v8::Context::New(isolate);\n    v8::Context::Scope context_scope(context);\n\n    {\n      Local<FunctionTemplate> entry_fntpl = FunctionTemplate::New(isolate, jsc_main);\n      Local<Function> entry_fn = entry_fntpl->GetFunction();\n      Local<Value> result = entry_fn->Call(Null(isolate), 0, 0);\n      exit_code = result->ToNumber(isolate)->Value();\n    }\n  }\n\n  isolate->Dispose();\n  v8::V8::Dispose();\n  v8::V8::ShutdownPlatform();\n  delete create_params.array_buffer_allocator;\n  return exit_code;\n}\n"@)]
    }
}


/// The value of a binary operation on two lowered operands.
pub open spec fn binop_value_spec(g: Gs, d: nat, op: BinaryOp, l: Seq<char>, r: Seq<char>) -> Step<Seq<char>> {
    match comparison(op) {
        Some((types, strict, cop, default)) => chain_spec(g, d, types, 0, strict, cop, default, l, r),
        None => if op == BinaryOp::Plus {
            Ok((g, plus_spec(l, r)))
        } else {
            match numeric_op(op) {
                Some(o) => Ok((g, number_check_and_op_spec(o, l, r))),
                None => Err(CompileError::UnsupportedOperator(op)),
            }
        },
    }
}

/// An argument value held in the temporary `t`: a generated function is
/// first made a function value, any other value is copied.
pub open spec fn hold_spec(g: Gs, d: nat, t: Seq<char>, h: Seq<char>) -> Step<()> {
    if listed(g.funcs, h) {
        function_value_spec(g, d, t, h)
    } else {
        Ok((emit(g, d, "Local<Value> "@ + t + " = "@ + h + ";"@), ()))
    }
}

/// The callee held in the temporary `ft` as a function: a generated function
/// through a template, any other value by a cast.
pub open spec fn callee_spec(g: Gs, d: nat, ft: Seq<char>, f: Seq<char>) -> Step<()> {
    if listed(g.funcs, f) {
        function_value_spec(g, d, ft, f)
    } else {
        Ok((emit(g, d, "Local<Function> "@ + ft + " = Local<Function>::Cast("@ + f + ");"@), ()))
    }
}

/// The larger of two counter values.
pub open spec fn larger(a: nat, b: nat) -> nat {
    if a >= b { a } else { b }
}

/// The C++ operator of a compound assignment operator.
pub open spec fn compound_op(op: AssignOp) -> Seq<char> {
    match op {
        AssignOp::MinusEq => "-"@,
        AssignOp::TimesEq => "*"@,
        AssignOp::DivEq => "/"@,
        AssignOp::ModEq => "%"@,
        AssignOp::LShiftEq => "<<"@,
        AssignOp::RShiftEq => ">>"@,
        AssignOp::URShiftEq => ">>>"@,
        AssignOp::BitOrEq => "|"@,
        AssignOp::BitXorEq => "^"@,
        AssignOp::BitAndEq => "&"@,
        _ => ""@,
    }
}

/// The value stored by an assignment with operator `op` of `v` to a place
/// currently holding `l`: `v` itself, or the binary operation of the
/// compound operator.
pub open spec fn assigned_value(op: AssignOp, l: Seq<char>, v: Seq<char>) -> Seq<char> {
    match op {
        AssignOp::Eq => v,
        AssignOp::PlusEq => plus_spec(l, v),
        _ => number_check_and_op_spec(compound_op(op), l, v),
    }
}

/// An assignment to a name that no scope binds: as for reads, the name is
/// resolved on the global object, which receives the assigned value.
pub open spec fn global_assign(n: Seq<char>, op: AssignOp, v: Seq<char>) -> Seq<char> {
    "isolate->GetCurrentContext()->Global()->Set("@ + v8_string(n) + ", "@
        + assigned_value(op, "isolate->GetCurrentContext()->Global()->Get("@ + v8_string(n) + ")"@, v) + ")"@
}

/// Whether a binary operator has a lowering.
pub open spec fn op_supported(op: BinaryOp) -> bool {
    comparison(op) is Some || op == BinaryOp::Plus || numeric_op(op) is Some
}

/// The first construct of an expression outside the supported subset, in
/// the order the lowering meets it; `None` when there is none. In mode 4 the
/// whole expression; in mode 2 the arguments of a call, or the elements of
/// an array literal, from the `i`-th on.
pub open spec fn expr_problem(e: Expr, mode: nat, i: nat) -> Option<CompileError>
    decreases e, mode, left(e, mode, i),
{
    if mode >= 4 {
        match e {
            Expr::Call(c, _) => match expr_problem(*c, 4, 0) {
                Some(x) => Some(x),
                None => expr_problem(e, 2, 0),
            },
            Expr::Arr(_) => expr_problem(e, 2, 0),
            Expr::Binop(op, a, b) => match expr_problem(*a, 4, 0) {
                Some(x) => Some(x),
                None => match expr_problem(*b, 4, 0) {
                    Some(x) => Some(x),
                    None => if op_supported(op) { None } else { Some(CompileError::UnsupportedOperator(op)) },
                },
            },
            Expr::Dot(o, _) => expr_problem(*o, 4, 0),
            Expr::Brack(o, k) => match expr_problem(*o, 4, 0) {
                Some(x) => Some(x),
                None => expr_problem(*k, 4, 0),
            },
            Expr::Assign(_, patt, body) => match patt {
                AssignPatt::Destructuring => Some(CompileError::DestructuringAssignment),
                AssignPatt::Simple(AssignTarget::Dot(_, _)) => Some(CompileError::UnsupportedAssignTarget),
                AssignPatt::Simple(AssignTarget::Id(_)) => expr_problem(*body, 4, 0),
                AssignPatt::Simple(AssignTarget::Brack(o, k)) => match expr_problem(*o, 4, 0) {
                    Some(x) => Some(x),
                    None => match expr_problem(*k, 4, 0) {
                        Some(x) => Some(x),
                        None => expr_problem(*body, 4, 0),
                    },
                },
            },
            Expr::Null => Some(CompileError::NullLiteral),
            Expr::Other(kind) => Some(CompileError::UnsupportedExpression(kind)),
            _ => None,
        }
    } else if mode == 2 {
        match e {
            Expr::Call(_, args) => if i >= args@.len() {
                None
            } else {
                match expr_problem(args@[i as int], 4, 0) {
                    Some(x) => Some(x),
                    None => expr_problem(e, 2, i + 1),
                }
            },
            Expr::Arr(els) => if i >= els@.len() {
                None
            } else {
                match els@[i as int] {
                    Some(x) => match expr_problem(x, 4, 0) {
                        Some(p) => Some(p),
                        None => expr_problem(e, 2, i + 1),
                    },
                    None => expr_problem(e, 2, i + 1),
                }
            },
            _ => None,
        }
    } else {
        None
    }
}

/// How many items of a block, or declarators of a `var` statement, are left from `i`.
pub open spec fn entries_left(s: Stmt, mode: nat, i: nat) -> nat {
    if mode == 2 {
        match s {
            Stmt::Block(items) => if i <= items@.len() { (items@.len() - i) as nat } else { 0 },
            Stmt::Var(ds) => if i <= ds@.len() { (ds@.len() - i) as nat } else { 0 },
            _ => 0,
        }
    } else {
        0
    }
}

/// The first construct of a statement outside the supported subset, in the
/// order the compilation meets it; `None` when there is none. In mode 3 the
/// statement; in mode 2 the items of a block, or the declarators of a `var`
/// statement, from the `i`-th on; in mode 1 the function declared at item
/// `i` of a block: a name is required, parameters must be simple names, and
/// the body must be supported.
pub open spec fn stmt_problem(s: Stmt, mode: nat, i: nat) -> Option<CompileError>
    decreases s, mode, entries_left(s, mode, i),
{
    if mode >= 3 {
        match s {
            Stmt::Expr(e) => expr_problem(e, 4, 0),
            Stmt::Var(_) => stmt_problem(s, 2, 0),
            Stmt::Return(r) => match r {
                Some(x) => expr_problem(x, 4, 0),
                None => None,
            },
            Stmt::If(t, a, b) => match expr_problem(t, 4, 0) {
                Some(x) => Some(x),
                None => match stmt_problem(*a, 3, 0) {
                    Some(x) => Some(x),
                    None => match b {
                        Some(b) => stmt_problem(*b, 3, 0),
                        None => None,
                    },
                },
            },
            Stmt::While(t, w) => match expr_problem(t, 4, 0) {
                Some(x) => Some(x),
                None => stmt_problem(*w, 3, 0),
            },
            Stmt::Block(_) => stmt_problem(s, 2, 0),
            Stmt::Other(kind) => Some(CompileError::UnsupportedStatement(kind)),
        }
    } else if mode == 2 {
        match s {
            Stmt::Block(items) => if i >= items@.len() {
                None
            } else {
                let here = match items@[i as int] {
                    StmtListItem::Fun(_) => stmt_problem(s, 1, i),
                    StmtListItem::Stmt(t) => stmt_problem(t, 3, 0),
                };
                match here {
                    Some(x) => Some(x),
                    None => stmt_problem(s, 2, i + 1),
                }
            },
            Stmt::Var(ds) => if i >= ds@.len() {
                None
            } else {
                let here = match ds@[i as int] {
                    Dtor::Destructuring => Some(CompileError::DestructuringDeclaration),
                    Dtor::Simple(_, Some(x)) => expr_problem(x, 4, 0),
                    Dtor::Simple(_, None) => None,
                };
                match here {
                    Some(x) => Some(x),
                    None => stmt_problem(s, 2, i + 1),
                }
            },
            _ => None,
        }
    } else if mode == 1 {
        match s {
            Stmt::Block(items) => if i < items@.len() {
                match items@[i as int] {
                    StmtListItem::Fun(f) => if f.id is None {
                        Some(CompileError::AnonymousFunction)
                    } else if exists|j: int| 0 <= j < f.params@.len() && #[trigger] f.params@[j] is Destructuring {
                        Some(CompileError::DestructuringParameter)
                    } else {
                        stmt_problem(*f.body, 3, 0)
                    },
                    _ => None,
                }
            } else {
                None
            },
            _ => None,
        }
    } else {
        None
    }
}

/// The first construct of a program outside the supported subset.
pub open spec fn program_problem(body: Vec<StmtListItem>) -> Option<CompileError> {
    stmt_problem(Stmt::Block(body), 2, 0)
}

/// Whether a function declaration lies in the supported subset.
pub open spec fn fun_supported(f: Fun) -> bool {
    &&& f.id is Some
    &&& forall|j: int| 0 <= j < f.params@.len() ==> #[trigger] f.params@[j] is Simple
    &&& stmt_problem(*f.body, 3, 0) is None
}

/// A supported block has supported items: each function is named with
/// simple parameters and a supported body, each statement is supported.
pub proof fn lemma_item_supported(items: Vec<StmtListItem>, i: nat)
    requires
        i < items@.len(),
        stmt_problem(Stmt::Block(items), 2, i) is None,
    ensures
        match items@[i as int] {
            StmtListItem::Fun(f) => fun_supported(f),
            StmtListItem::Stmt(t) => stmt_problem(t, 3, 0) is None,
        },
        stmt_problem(Stmt::Block(items), 2, i + 1) is None,
{
    if let StmtListItem::Fun(f) = items@[i as int] {
        assert(stmt_problem(Stmt::Block(items), 1, i) is None);
        assert forall|j: int| 0 <= j < f.params@.len() implies #[trigger] f.params@[j] is Simple by {
            if f.params@[j] is Destructuring {
                assert(exists|k: int| 0 <= k < f.params@.len() && #[trigger] f.params@[k] is Destructuring);
            }
        }
    }
}

/// What lowering an expression yields: its value, the object it was read
/// from (`Null(isolate)` but for a property read), the temporaries holding
/// the arguments of a call, and whether a call produced a value (a self
/// call in tail position does not).
pub struct Low {
    pub v: Seq<char>,
    pub p: Seq<char>,
    pub items: Seq<Seq<char>>,
    pub has_value: bool,
}

pub open spec fn value_of(v: Seq<char>) -> Low {
    Low { v: v, p: null_value(), items: seq![], has_value: true }
}

/// How many items of the list of a call or an array literal are left from `i`.
pub open spec fn left(e: Expr, mode: nat, i: nat) -> nat {
    if mode == 2 {
        match e {
            Expr::Call(_, args) => if i <= args@.len() { (args@.len() - i) as nat } else { 0 },
            Expr::Arr(els) => if i <= els@.len() { (els@.len() - i) as nat } else { 0 },
            _ => 0,
        }
    } else {
        0
    }
}

/// Lowers an expression, in one of three modes. In mode 4, the whole
/// expression. In mode 3, a call (with the tail-call context `tco`): the
/// callee, the arguments each held in a temporary, the callee as a function,
/// then the call; or an array literal: the array, then its elements. In mode
/// 2, the arguments of a call from the `i`-th on (`acc` holds the
/// temporaries of the earlier ones), or the elements of an array literal
/// from the `i`-th on, stored into the array `a`; a hole stores null.
/// Calls nested in the callee or the arguments never see the tail-call
/// context.
#[verifier::opaque]
pub open spec fn lower(g: Gs, d: nat, e: Expr, mode: nat, tco: Option<TcoModel>, a: Seq<char>, i: nat, acc: Seq<Seq<char>>) -> Step<Low>
    decreases e, mode, left(e, mode, i),
{
    if mode >= 4 {
        match e {
            Expr::Call(_, _) => lower(g, d, e, 3, None, seq![], 0, seq![]),
            Expr::Arr(_) => lower(g, d, e, 3, None, seq![], 0, seq![]),
            Expr::Assign(op, patt, body) => match patt {
                AssignPatt::Simple(AssignTarget::Id(n)) => match lower(g, d, *body, 4, None, seq![], 0, seq![]) {
                    Err(x) => Err(x),
                    Ok((g1, lv)) => Ok((g1, value_of(match lookup_in(g.scope.bindings, n@) {
                        Some(t) => t + " "@ + assop_spec(op) + " "@ + lv.v,
                        None => global_assign(n@, op, lv.v),
                    }))),
                },
                AssignPatt::Simple(AssignTarget::Brack(o, k)) => match lower(g, d, *o, 4, None, seq![], 0, seq![]) {
                    Err(x) => Err(x),
                    Ok((g1, lo)) => match lower(g1, d, *k, 4, None, seq![], 0, seq![]) {
                        Err(x) => Err(x),
                        Ok((g2, lk)) => match lower(g2, d, *body, 4, None, seq![], 0, seq![]) {
                            Err(x) => Err(x),
                            Ok((g3, lv)) => Ok((g3, value_of(lo.v + ".As<Object>()->Set("@ + lk.v + ", "@ + lv.v + ")"@))),
                        },
                    },
                },
                AssignPatt::Simple(AssignTarget::Dot(_, _)) => Err(CompileError::UnsupportedAssignTarget),
                AssignPatt::Destructuring => Err(CompileError::DestructuringAssignment),
            },
            Expr::Binop(op, a, b) => match lower(g, d, *a, 4, None, seq![], 0, seq![]) {
                Err(x) => Err(x),
                Ok((g1, la)) => match lower(g1, d, *b, 4, None, seq![], 0, seq![]) {
                    Err(x) => Err(x),
                    Ok((g2, lb)) => match binop_value_spec(g2, d, op, la.v, lb.v) {
                        Err(x) => Err(x),
                        Ok((g3, v)) => Ok((g3, value_of(v))),
                    },
                },
            },
            Expr::Dot(o, k) => match lower(g, d, *o, 4, None, seq![], 0, seq![]) {
                Err(x) => Err(x),
                Ok((g1, lo)) => match dot_spec(g1, d, lo.v, v8_string(k@)) {
                    Err(x) => Err(x),
                    Ok((g2, (v, p))) => Ok((g2, Low { v: v, p: p, items: seq![], has_value: true })),
                },
            },
            Expr::Brack(o, k) => match lower(g, d, *o, 4, None, seq![], 0, seq![]) {
                Err(x) => Err(x),
                Ok((g1, lo)) => match lower(g1, d, *k, 4, None, seq![], 0, seq![]) {
                    Err(x) => Err(x),
                    Ok((g2, lk)) => match dot_spec(g2, d, lo.v, lk.v + "->ToString()"@) {
                        Err(x) => Err(x),
                        Ok((g3, (v, p))) => Ok((g3, Low { v: v, p: p, items: seq![], has_value: true })),
                    },
                },
            },
            Expr::Null => Err(CompileError::NullLiteral),
            Expr::Other(kind) => Err(CompileError::UnsupportedExpression(kind)),
            _ => match leaf_value(e, g.scope.bindings) {
                Some(v) => Ok((g, value_of(v))),
                None => Ok((g, value_of(seq![]))),
            },
        }
    } else if mode == 3 {
        match e {
            Expr::Call(c, _) => match lower(g, d, *c, 4, None, seq![], 0, seq![]) {
                Err(x) => Err(x),
                Ok((g1, lc)) => match lower(g1, d, e, 2, None, seq![], 0, seq![]) {
                    Err(x) => Err(x),
                    Ok((g2, la)) => match mint(g2, "fn"@) {
                        Err(x) => Err(x),
                        Ok((g3, ft)) => match callee_spec(g3, d, ft, lc.v) {
                            Err(x) => Err(x),
                            Ok((g4, _)) => match call_internal_spec(g4, d, lc.p, ft, lc.v, la.items, tco) {
                                Err(x) => Err(x),
                                Ok((g5, o)) => Ok((g5, match o {
                                    Some(v) => value_of(v),
                                    None => Low { v: seq![], p: null_value(), items: seq![], has_value: false },
                                })),
                            },
                        },
                    },
                },
            },
            Expr::Arr(els) => match mint(g, "array"@) {
                Err(x) => Err(x),
                Ok((g1, arr)) => match lower(
                    emit(g1, d, "Local<Array> "@ + arr + " = Array::New(isolate, "@ + decimal(els@.len()) + ");"@),
                    d, e, 2, None, arr, 0, seq![]) {
                    Err(x) => Err(x),
                    Ok((g2, _)) => Ok((g2, value_of(arr))),
                },
            },
            _ => Ok((g, value_of(seq![]))),
        }
    } else if mode == 2 {
        match e {
            Expr::Call(_, args) => if i >= args@.len() {
                Ok((g, Low { v: seq![], p: null_value(), items: acc, has_value: true }))
            } else {
                match lower(g, d, args@[i as int], 4, None, seq![], 0, seq![]) {
                    Err(x) => Err(x),
                    Ok((g1, lx)) => match mint(g1, "arg"@) {
                        Err(x) => Err(x),
                        Ok((g2, t)) => match hold_spec(g2, d, t, lx.v) {
                            Err(x) => Err(x),
                            Ok((g3, _)) => lower(g3, d, e, 2, None, seq![], i + 1, acc.push(t)),
                        },
                    },
                }
            },
            Expr::Arr(els) => if i >= els@.len() {
                Ok((g, value_of(seq![])))
            } else {
                match els@[i as int] {
                    Some(x) => match lower(g, d, x, 4, None, seq![], 0, seq![]) {
                        Err(err) => Err(err),
                        Ok((g1, lx)) => lower(emit(g1, d, a + "->Set("@ + decimal(i) + ", "@ + lx.v + ");"@), d, e, 2, None, a, i + 1, acc),
                    },
                    None => lower(emit(g, d, a + "->Set("@ + decimal(i) + ", "@ + null_value() + ");"@), d, e, 2, None, a, i + 1, acc),
                }
            },
            _ => Ok((g, value_of(seq![]))),
        }
    } else {
        Ok((g, value_of(seq![])))
    }
}

/// The test of a conditional or a loop: the context, the global object and
/// its `Boolean` function in temporaries, then the test's value coerced
/// through a call of `Boolean`.
pub open spec fn test_spec(g: Gs, d: nat, t: Expr) -> Step<Seq<char>> {
    match mint(g, "ctx"@) {
        Err(x) => Err(x),
        Ok((g1, c)) => match mint(g1, "global"@) {
            Err(x) => Err(x),
            Ok((g2, gl)) => match mint(g2, "Boolean"@) {
                Err(x) => Err(x),
                Ok((g3, b)) => {
                    let g4 = emit(emit(emit(g3, d, "Local<Context> "@ + c + " = isolate->GetCurrentContext();"@),
                        d, "Local<Object> "@ + gl + " = "@ + c + "->Global();"@),
                        d, "Local<Function> "@ + b + " = Local<Function>::Cast("@ + gl + "->Get("@ + v8_string("Boolean"@) + "));"@);
                    match lower(g4, d, t, 4, None, seq![], 0, seq![]) {
                        Err(x) => Err(x),
                        Ok((g5, lt)) => match call_internal_spec(g5, d, null_value(), b, "Boolean"@, seq![lt.v], None) {
                            Err(x) => Err(x),
                            Ok((g6, r)) => Ok((g6, match r { Some(r) => r, None => seq![] })),
                        },
                    }
                },
            },
        },
    }
}

/// A declarator: the initializer first, then the fresh binding of the name
/// and its declaration.
pub open spec fn decl_spec(g: Gs, d: nat, name: Seq<char>, init: Option<Expr>) -> Step<()> {
    let lowered = match init {
        Some(x) => match lower(g, d, x, 4, None, seq![], 0, seq![]) {
            Err(err) => Err(err),
            Ok((g1, lx)) => Ok((g1, " = "@ + lx.v)),
        },
        None => Ok((g, seq![])),
    };
    match lowered {
        Err(err) => Err(err),
        Ok((g1, suffix)) => match bind(g1, name) {
            Err(err) => Err(err),
            Ok((g2, n)) => Ok((emit(g2, d, "Local<Value> "@ + n + suffix + ";"@), ())),
        },
    }
}

/// The declarators of a `var` statement from the `i`-th on.
pub open spec fn dtors_spec(g: Gs, d: nat, ds: Seq<Dtor>, i: nat) -> Step<()>
    decreases ds.len() - i,
{
    if i >= ds.len() {
        Ok((g, ()))
    } else {
        match ds[i as int] {
            Dtor::Destructuring => Err(CompileError::DestructuringDeclaration),
            Dtor::Simple(n, init) => match decl_spec(g, d, n@, init) {
                Err(err) => Err(err),
                Ok((g1, _)) => dtors_spec(g1, d, ds, i + 1),
            },
        }
    }
}

/// A return: the value is set and the callback returns; a call is lowered
/// with the tail-call context, and a self call in tail position leaves
/// nothing to return.
pub open spec fn return_spec(g: Gs, d: nat, r: Option<Expr>, tco: Option<TcoModel>) -> Step<()> {
    let lowered = match r {
        Some(x) => match x {
            Expr::Call(_, _) => lower(g, d, x, 3, tco, seq![], 0, seq![]),
            _ => match lower(g, d, x, 4, None, seq![], 0, seq![]) {
                Err(err) => Err(err),
                Ok((g1, l)) => Ok((g1, value_of(l.v))),
            },
        },
        None => Ok((g, value_of(null_value()))),
    };
    match lowered {
        Err(err) => Err(err),
        Ok((g1, l)) => if l.has_value {
            Ok((emit(emit(g1, d, "args.GetReturnValue().Set("@ + l.v + ");"@), d, "return;"@), ()))
        } else {
            Ok((g1, ()))
        },
    }
}

/// The callback name of a function: `jsc_main` for `main`, else a fresh
/// binding of its name, entered in the registry of generated functions and,
/// at top level, in the export table beside the source name.
pub open spec fn fun_name_spec(g: Gs, id: Seq<char>, top: bool) -> Step<Seq<char>> {
    if id == "main"@ {
        Ok((g, "jsc_main"@))
    } else {
        match bind(g, id) {
            Err(err) => Err(err),
            Ok((g1, n)) => Ok((
                Gs { funcs: g1.funcs.push(n), exports: if top { g1.exports.push((id, n)) } else { g1.exports }, ..g1 },
                n,
            )),
        }
    }
}

/// The parameters from the `i`-th on, each bound to a fresh name that holds
/// its positional argument; `acc` holds the names of the earlier ones.
pub open spec fn params_spec(g: Gs, d: nat, ps: Seq<Param>, i: nat, acc: Seq<Seq<char>>) -> Step<Seq<Seq<char>>>
    decreases ps.len() - i,
{
    if i >= ps.len() {
        Ok((g, acc))
    } else {
        match ps[i as int] {
            Param::Destructuring => Err(CompileError::DestructuringParameter),
            Param::Simple(p) => match bind(g, p@) {
                Err(err) => Err(err),
                Ok((g1, n)) => params_spec(emit(g1, d, "Local<Value> "@ + n + " = args["@ + decimal(i) + "];"@),
                    d, ps, i + 1, acc.push(n)),
            },
        }
    }
}

/// How many items of a block are left from `i`.
pub open spec fn items_left(s: Stmt, mode: nat, i: nat) -> nat {
    if mode == 2 {
        match s {
            Stmt::Block(items) => if i <= items@.len() { (items@.len() - i) as nat } else { 0 },
            _ => 0,
        }
    } else {
        0
    }
}

/// Compiles statements, in one of three modes. In mode 3, the statement `s`
/// (with the tail-call context `tco` when it is in tail position). In mode 2,
/// the items of the block `s` from the `i`-th on: function declarations never
/// see the tail-call context, and of the statements only the last one does;
/// at top level (`top`) named functions enter the export table. In mode 1,
/// the function declared at item `i` of the block `s`: the callback header
/// and the isolate, one local per parameter bound to its positional
/// argument, the entry label, the body under a tail-call context naming the
/// function, its parameters and its label, then the closing brace.
/// Parameters and locals are bound in a copy of the scope: afterwards the
/// scope holds the bindings it had after the function's own name, with the
/// counter reached in the body.
#[verifier::opaque]
pub open spec fn lower_stmt(g: Gs, d: nat, s: Stmt, mode: nat, tco: Option<TcoModel>, top: bool, i: nat) -> Step<()>
    decreases s, mode, items_left(s, mode, i),
{
    if mode >= 3 {
        match s {
            Stmt::Expr(e) => match lower(g, d, e, 4, None, seq![], 0, seq![]) {
                Err(x) => Err(x),
                Ok((g1, l)) => Ok((emit(g1, d, l.v + ";"@), ())),
            },
            Stmt::Var(ds) => dtors_spec(g, d, ds@, 0),
            Stmt::Return(r) => return_spec(g, d, r, tco),
            Stmt::If(t, a, b) => match test_spec(g, d, t) {
                Err(x) => Err(x),
                Ok((g1, res)) => match lower_stmt(emit(g1, d, "if ("@ + res + "->ToBoolean()->Value()) {"@), deeper(d), *a, 3, tco, false, 0) {
                    Err(x) => Err(x),
                    Ok((g2, _)) => match b {
                        Some(b) => match lower_stmt(emit(emit(g2, deeper(d), "return;"@), d, "} else {"@), deeper(d), *b, 3, tco, false, 0) {
                            Err(x) => Err(x),
                            Ok((g3, _)) => Ok((emit(g3, d, "}"@), ())),
                        },
                        None => Ok((emit(emit(g2, deeper(d), "return;"@), d, "}"@), ())),
                    },
                },
            },
            Stmt::While(t, w) => match test_spec(g, d, t) {
                Err(x) => Err(x),
                Ok((g1, res)) => match lower_stmt(emit(g1, d, "while ("@ + res + "->ToBoolean()->Value()) {"@), deeper(d), *w, 3, tco, false, 0) {
                    Err(x) => Err(x),
                    Ok((g2, _)) => match test_spec(g2, deeper(d), t) {
                        Err(x) => Err(x),
                        Ok((g3, next)) => Ok((emit(emit(g3, deeper(d), res + " = "@ + next + ";"@), d, "}"@), ())),
                    },
                },
            },
            Stmt::Block(_) => lower_stmt(g, d, s, 2, tco, false, 0),
            Stmt::Other(kind) => Err(CompileError::UnsupportedStatement(kind)),
        }
    } else if mode == 2 {
        match s {
            Stmt::Block(items) => if i >= items@.len() {
                Ok((g, ()))
            } else {
                let step = match items@[i as int] {
                    StmtListItem::Fun(_) => lower_stmt(g, d, s, 1, tco, top, i),
                    StmtListItem::Stmt(t) => lower_stmt(g, d, t, 3, if i + 1 == items@.len() { tco } else { None }, false, 0),
                };
                match step {
                    Err(x) => Err(x),
                    Ok((g1, _)) => lower_stmt(g1, d, s, 2, tco, top, i + 1),
                }
            },
            _ => Ok((g, ())),
        }
    } else if mode == 1 {
        match s {
            Stmt::Block(items) => if i < items@.len() {
                match items@[i as int] {
                    StmtListItem::Fun(f) => match f.id {
                            None => Err(CompileError::AnonymousFunction),
                            Some(id) => match fun_name_spec(g, id@, top) {
                                Err(x) => Err(x),
                                Ok((g1, name)) => match params_spec(
                                    emit(emit(g1, d, "void "@ + name + "(const FunctionCallbackInfo<Value>& args) {"@), deeper(d),
                                        "Isolate* isolate = args.GetIsolate();"@), deeper(d), f.params@, 0, seq![]) {
                                    Err(x) => Err(x),
                                    Ok((g3, ps)) => match mint(g3, "tail_recurse"@) {
                                        Err(x) => Err(x),
                                        Ok((g4, label)) => match lower_stmt(emit(g4, 0, label + ":"@), deeper(d), *f.body, 3,
                                            Some(TcoModel { name: name, params: ps, label: label }), false, 0) {
                                            Err(x) => Err(x),
                                            Ok((g5, _)) => Ok((
                                                emit(Gs { scope: ScopeModel { counter: larger(g5.scope.counter, g1.scope.counter), ..g1.scope }, ..g5 }, d, "}\n"@),
                                                (),
                                            )),
                                        },
                                    },
                                },
                            },
                        },
                    _ => Ok((g, ())),
                }
            } else {
                Ok((g, ()))
            },
            _ => Ok((g, ())),
        }
    } else {
        Ok((g, ()))
    }
}

/// A function declaration, as `lower_stmt` compiles the one at an item of a block.
pub open spec fn fun_spec(g: Gs, d: nat, f: Fun, top: bool) -> Step<()> {
    match f.id {
        None => Err(CompileError::AnonymousFunction),
        Some(id) => match fun_name_spec(g, id@, top) {
            Err(x) => Err(x),
            Ok((g1, name)) => match params_spec(
                emit(emit(g1, d, "void "@ + name + "(const FunctionCallbackInfo<Value>& args) {"@), deeper(d),
                    "Isolate* isolate = args.GetIsolate();"@), deeper(d), f.params@, 0, seq![]) {
                Err(x) => Err(x),
                Ok((g3, ps)) => match mint(g3, "tail_recurse"@) {
                    Err(x) => Err(x),
                    Ok((g4, label)) => match lower_stmt(emit(g4, 0, label + ":"@), deeper(d), *f.body, 3,
                        Some(TcoModel { name: name, params: ps, label: label }), false, 0) {
                        Err(x) => Err(x),
                        Ok((g5, _)) => Ok((
                            emit(Gs { scope: ScopeModel { counter: larger(g5.scope.counter, g1.scope.counter), ..g1.scope }, ..g5 }, d, "}\n"@),
                            (),
                        )),
                    },
                },
            },
        },
    }
}

/// A whole program: the opening lines, the top-level items at depth zero
/// without a tail-call context, then the closing lines.
pub open spec fn program_spec(g: Gs, body: Vec<StmtListItem>) -> Step<()> {
    match lower_stmt(Gs { lines: g.lines + prefix_lines(g.use_node), ..g }, 0, Stmt::Block(body), 2, None, true, 0) {
        Err(err) => Err(err),
        Ok((g1, _)) => Ok((Gs { lines: g1.lines + postfix_lines(g1.use_node, g1.exports), ..g1 }, ())),
    }
}

/// The state of a new generator.
pub open spec fn fresh_state(use_node: bool) -> Gs {
    Gs {
        use_node: use_node,
        funcs: seq![],
        exports: seq![],
        lines: seq![],
        scope: ScopeModel { bindings: seq![], counter: 0 },
    }
}

/// A property read `x.key`: walks up the prototype chain from `x` while the
/// object does not own `key`, then reads it; the value is paired with the
/// object that owns it.
pub open spec fn dot_spec(g: Gs, depth: nat, x: Seq<char>, key: Seq<char>) -> Step<(Seq<char>, Seq<char>)> {
    match mint(g, "dot_result"@) {
        Err(err) => Err(err),
        Ok((g1, res)) => match mint(g1, "dot_parent"@) {
            Err(err) => Err(err),
            Ok((g2, par)) => match mint(g2, "property"@) {
                Err(err) => Err(err),
                Ok((g3, prop)) => {
                    let g4 = emit(g3, depth, "Local<Value> "@ + par + " = "@ + x + ";"@);
                    let g5 = emit(g4, depth, "Local<String> "@ + prop + " = "@ + key + ";"@);
                    let g6 = emit(g5, depth, "while ("@ + par + "->IsObject() && !"@ + par
                        + ".As<Object>()->HasOwnProperty(isolate->GetCurrentContext(), "@ + prop + ").ToChecked()) {"@);
                    let g7 = emit(g6, deeper(depth), par + " = "@ + par + ".As<Object>()->GetPrototype();"@);
                    let g8 = emit(g7, depth, "}"@);
                    let g9 = emit(g8, depth, "Local<Value> "@ + res + " = "@ + par
                        + ".As<Object>()->Get(isolate->GetCurrentContext(), "@ + prop + ").ToLocalChecked();"@);
                    Ok((g9, (res, par)))
                },
            },
        },
    }
}

/// The generator: the output flavour, the registry of generated functions and
/// the output sink.
pub struct CG {
    use_node: bool,
    funcs: Vec<String>,
    exports: Vec<(String, String)>,
    lines: Vec<String>,
    scope: Scope,
}

impl CG {
    /// The state of the compilation with this generator and `scope`.
    #[verifier::opaque]
    pub closed spec fn gs(&self) -> Gs {
        Gs {
            use_node: self.use_node,
            funcs: self.funcs@.map_values(|s: String| s@),
            exports: self.exports@.map_values(|p: (String, String)| (p.0@, p.1@)),
            lines: self.lines@.map_values(|s: String| s@),
            scope: self.scope.model(),
        }
    }

    fn emit(&mut self, depth: usize, t: &str)
        ensures
            final(self).gs() == emit(old(self).gs(), depth as nat, t@),
            advances(old(self).gs(), final(self).gs()),
    {
        let line = indent(depth, t);
        self.lines.push(line);
        reveal(CG::gs);
        assert(self.lines@.map_values(|s: String| s@)
            =~= old(self).lines@.map_values(|s: String| s@).push(indented(depth as nat, t@)));
    }

    fn mint(&mut self, prefix: &str) -> (r: Result<String, CompileError>)
        ensures
            r is Err ==> final(self).gs() == old(self).gs(),
            r is Err ==> r == Err::<String, CompileError>(CompileError::TooManyNames),
            advances(old(self).gs(), final(self).gs()),
            match mint(old(self).gs(), prefix@) {
                Ok((g, n)) => r matches Ok(s) && s@ == n && final(self).gs() == g,
                Err(e) => r == Err::<String, CompileError>(e),
            },
    {
        reveal(CG::gs);
        if self.scope.has_room() {
            let n = self.scope.fresh(prefix);
            Ok(n)
        } else {
            Err(CompileError::TooManyNames)
        }
    }

    fn bind(&mut self, local: &str) -> (r: Result<String, CompileError>)
        ensures
            r is Err ==> final(self).gs() == old(self).gs(),
            match bind(old(self).gs(), local@) {
                Ok((g, n)) => r matches Ok(s) && s@ == n && final(self).gs() == g,
                Err(e) => r == Err::<String, CompileError>(e),
            },
    {
        reveal(CG::gs);
        if self.scope.has_room() {
            let n = self.scope.register(local);
            Ok(n)
        } else {
            Err(CompileError::TooManyNames)
        }
    }

    fn cpp_value(&mut self, depth: usize, t: ValueType, value: &str) -> (r: Result<String, CompileError>)
        ensures
            r is Err ==> r == Err::<String, CompileError>(CompileError::TooManyNames),
            advances(old(self).gs(), final(self).gs()),
            match cpp_value_spec(old(self).gs(), depth as nat, t, value@) {
                Ok((g, v)) => r matches Ok(s) && s@ == v && final(self).gs() == g,
                Err(e) => r == Err::<String, CompileError>(e),
            },
    {
        if t == ValueType::String {
            let u = match self.mint("utf8value_tmp") { Ok(u) => u, Err(e) => return Err(e) };
            let st = match self.mint("string_tmp") { Ok(s) => s, Err(e) => return Err(e) };
            let mut l1 = String::from_str("String::Utf8Value ");
            l1.append(u.as_str());
            l1.append("(");
            l1.append(value);
            l1.append(");");
            self.emit(depth, l1.as_str());
            let mut l2 = String::from_str("std::string ");
            l2.append(st.as_str());
            l2.append("(*");
            l2.append(u.as_str());
            l2.append(");");
            self.emit(depth, l2.as_str());
            Ok(st)
        } else {
            let mut v = String::from_str(value);
            v.append("->To");
            v.append(type_text(t));
            v.append("(isolate)->Value()");
            Ok(v)
        }
    }

    fn generate_check_chain(
        &mut self,
        depth: usize,
        types: &Vec<ValueType>,
        i: usize,
        strict: bool,
        op: &str,
        default: bool,
        l: &str,
        r: &str,
    ) -> (res: Result<String, CompileError>)
        requires
            i <= types@.len(),
        ensures
            res is Err ==> res == Err::<String, CompileError>(CompileError::TooManyNames),
            advances(old(self).gs(), final(self).gs()),
            match chain_spec(old(self).gs(), depth as nat, types@, i as nat, strict, op@, default, l@, r@) {
                Ok((g, v)) => res matches Ok(s) && s@ == v && final(self).gs() == g,
                Err(e) => res == Err::<String, CompileError>(e),
            },
        decreases types@.len() - i,
    {
        if i >= types.len() {
            return Ok(String::from_str(if default { "True(isolate)" } else { "False(isolate)" }));
        }
        let t = types[i];
        let lv = match self.cpp_value(depth, t, l) { Ok(v) => v, Err(e) => return Err(e) };
        let rv = match self.cpp_value(depth, t, r) { Ok(v) => v, Err(e) => return Err(e) };
        let rest = match self.generate_check_chain(depth, types, i + 1, strict, op, default, l, r) {
            Ok(v) => v,
            Err(e) => return Err(e),
        };
        let mut g = String::from_str(l);
        g.append("->Is");
        g.append(type_text(t));
        g.append(if strict { "() && " } else { "() || " });
        g.append(r);
        g.append("->Is");
        g.append(type_text(t));
        g.append("()");
        let mut s = String::from_str("(");
        s.append(g.as_str());
        s.append(") ? Boolean::New(isolate, ");
        s.append(lv.as_str());
        s.append(" ");
        s.append(op);
        s.append(" ");
        s.append(rv.as_str());
        s.append(") : (");
        s.append(rest.as_str());
        s.append(")");
        Ok(s)
    }

    fn generate_function_value(&mut self, depth: usize, fn_tmp: &str, fn_name: &str) -> (r: Result<(), CompileError>)
        ensures
            r is Err ==> r == Err::<(), CompileError>(CompileError::TooManyNames),
            advances(old(self).gs(), final(self).gs()),
            match function_value_spec(old(self).gs(), depth as nat, fn_tmp@, fn_name@) {
                Ok((g, v)) => r matches Ok(_) && final(self).gs() == g,
                Err(e) => r == Err::<(), CompileError>(e),
            },
    {
        let f = match self.mint("ftpl") { Ok(f) => f, Err(e) => return Err(e) };
        let mut l1 = String::from_str("Local<FunctionTemplate> ");
        l1.append(f.as_str());
        l1.append(" = FunctionTemplate::New(isolate, ");
        l1.append(fn_name);
        l1.append(");");
        self.emit(depth, l1.as_str());
        let mut l2 = String::from_str("Local<Function> ");
        l2.append(fn_tmp);
        l2.append(" = ");
        l2.append(f.as_str());
        l2.append("->GetFunction();");
        self.emit(depth, l2.as_str());
        let mut l3 = String::from_str(fn_tmp);
        l3.append("->SetName(");
        let name = v8_string_exec(fn_name);
        l3.append(name.as_str());
        l3.append(");");
        self.emit(depth, l3.as_str());
        Ok(())
    }

    fn generate_plain_call(
        &mut self,
        depth: usize,
        parent: &str,
        fn_tmp: &str,
        args: &Vec<String>,
    ) -> (r: Result<String, CompileError>)
        ensures
            r is Err ==> r == Err::<String, CompileError>(CompileError::TooManyNames),
            advances(old(self).gs(), final(self).gs()),
            match plain_call_spec(old(self).gs(), depth as nat, parent@, fn_tmp@, args@.map_values(|s: String| s@)) {
                Ok((g, v)) => r matches Ok(s) && s@ == v && final(self).gs() == g,
                Err(e) => r == Err::<String, CompileError>(e),
            },
    {
        let argv = match self.mint("argv") { Ok(a) => a, Err(e) => return Err(e) };
        let mut l1 = String::from_str("Local<Value> ");
        l1.append(argv.as_str());
        l1.append("[] = { ");
        let joined = comma_join(args);
        l1.append(joined.as_str());
        l1.append(" };");
        self.emit(depth, l1.as_str());
        let res = match self.mint("result") { Ok(a) => a, Err(e) => return Err(e) };
        let mut l2 = String::from_str("Local<Value> ");
        l2.append(res.as_str());
        l2.append(" = ");
        l2.append(fn_tmp);
        l2.append("->Call(");
        l2.append(parent);
        l2.append(", ");
        let n = usize_text(args.len());
        l2.append(n.as_str());
        l2.append(", ");
        l2.append(argv.as_str());
        l2.append(");");
        self.emit(depth, l2.as_str());
        Ok(res)
    }

    fn generate_call_internal(
        &mut self,
        depth: usize,
        parent: &str,
        fn_tmp: &str,
        fn_name: &str,
        args: &Vec<String>,
        tco: &Option<Tco>,
    ) -> (r: Result<Option<String>, CompileError>)
        ensures
            r is Err ==> r == Err::<Option<String>, CompileError>(CompileError::TooManyNames),
            advances(old(self).gs(), final(self).gs()),
            match call_internal_spec(old(self).gs(), depth as nat, parent@, fn_tmp@, fn_name@,
                args@.map_values(|s: String| s@), tco_model(*tco)) {
                Ok((g, v)) => r matches Ok(o) && opt_view(o) == v && final(self).gs() == g,
                Err(e) => r == Err::<Option<String>, CompileError>(e),
            },
    {
        let ghost av = args@.map_values(|s: String| s@);
        match tco {
            Some(t) => {
                if t.name == String::from_str(fn_name) {
                    let ghost pv = t.params@.map_values(|p: String| p@);
                    let ghost g0 = self.gs();
                    let mut i: usize = 0;
                    while i < args.len() && i < t.params.len()
                        invariant
                            av == args@.map_values(|s: String| s@),
                            pv == t.params@.map_values(|p: String| p@),
                            assign_params_spec(g0, depth as nat, pv, av, 0)
                                == assign_params_spec(self.gs(), depth as nat, pv, av, i as nat),
                            g0 == old(self).gs(),
                            advances(g0, self.gs()),
                        decreases args@.len() - i,
                    {
                        let mut l = String::from_str(t.params[i].as_str());
                        l.append(" = ");
                        l.append(args[i].as_str());
                        l.append(";");
                        self.emit(depth, l.as_str());
                        i = i + 1;
                    }
                    let mut l = String::from_str("goto ");
                    l.append(t.label.as_str());
                    l.append(";");
                    self.emit(depth, l.as_str());
                    return Ok(None);
                }
            },
            None => {},
        }
        match self.generate_plain_call(depth, parent, fn_tmp, args) {
            Ok(v) => Ok(Some(v)),
            Err(e) => Err(e),
        }
    }

    fn is_generated(&self, name: &str) -> (r: bool)
        ensures
            listed(self.gs().funcs, name@) == r,
    {
        reveal(CG::gs);
        let ghost f = self.gs().funcs;
        let key = String::from_str(name);
        let mut i: usize = self.funcs.len();
        assert(f.subrange(0, i as int) =~= f);
        while i > 0
            invariant
                i <= self.funcs@.len(),
                key@ == name@,
                f == self.funcs@.map_values(|s: String| s@),
                f == self.gs().funcs,
                listed(f, name@) == listed(f.subrange(0, i as int), name@),
            decreases i,
        {
            assert(f.subrange(0, i as int).drop_last() =~= f.subrange(0, i - 1));
            assert(f[i - 1] == self.funcs@[i - 1]@);
            assert(f.subrange(0, i as int).last() == f[i - 1]);
            if self.funcs[i - 1] == key {
                assert(f.subrange(0, i as int).last() == name@);
                return true;
            }
            i = i - 1;
        }
        false
    }

    fn generate_dot(&mut self, depth: usize, x: &str, key: &str) -> (r: Result<(String, String), CompileError>)
        ensures
            r is Err ==> r == Err::<(String, String), CompileError>(CompileError::TooManyNames),
            advances(old(self).gs(), final(self).gs()),
            match dot_spec(old(self).gs(), depth as nat, x@, key@) {
                Ok((g, (v, p))) => r matches Ok((a, b)) && a@ == v && b@ == p && final(self).gs() == g,
                Err(err) => r == Err::<(String, String), CompileError>(err),
            },
    {
        let res = match self.mint("dot_result") { Ok(v) => v, Err(e) => return Err(e) };
        let par = match self.mint("dot_parent") { Ok(v) => v, Err(e) => return Err(e) };
        let prop = match self.mint("property") { Ok(v) => v, Err(e) => return Err(e) };
        let mut l = String::from_str("Local<Value> ");
        l.append(par.as_str());
        l.append(" = ");
        l.append(x);
        l.append(";");
        self.emit(depth, l.as_str());
        let mut l = String::from_str("Local<String> ");
        l.append(prop.as_str());
        l.append(" = ");
        l.append(key);
        l.append(";");
        self.emit(depth, l.as_str());
        let mut l = String::from_str("while (");
        l.append(par.as_str());
        l.append("->IsObject() && !");
        l.append(par.as_str());
        l.append(".As<Object>()->HasOwnProperty(isolate->GetCurrentContext(), ");
        l.append(prop.as_str());
        l.append(").ToChecked()) {");
        self.emit(depth, l.as_str());
        let mut l = String::from_str(par.as_str());
        l.append(" = ");
        l.append(par.as_str());
        l.append(".As<Object>()->GetPrototype();");
        self.emit(deeper_exec(depth), l.as_str());
        self.emit(depth, "}");
        let mut l = String::from_str("Local<Value> ");
        l.append(res.as_str());
        l.append(" = ");
        l.append(par.as_str());
        l.append(".As<Object>()->Get(isolate->GetCurrentContext(), ");
        l.append(prop.as_str());
        l.append(").ToLocalChecked();");
        self.emit(depth, l.as_str());
        Ok((res, par))
    }

    fn lookup(&self, name: &str) -> (r: Option<String>)
        ensures
            match r {
                Some(v) => lookup_in(self.gs().scope.bindings, name@) == Some(v@),
                None => lookup_in(self.gs().scope.bindings, name@).is_none(),
            },
    {
        reveal(CG::gs);
        self.scope.lookup(name)
    }

    /// Lowers a call; with a tail-call context for the function being
    /// compiled, a self call becomes a jump and yields no value.
    fn generate_call(&mut self, depth: usize, e: &Expr, tco: &Option<Tco>) -> (r: Result<Option<String>, CompileError>)
        requires
            expr_problem(*e, 4, 0) is None,
            e is Call,
        ensures
            match lower(old(self).gs(), depth as nat, *e, 3, tco_model(*tco), seq![], 0, seq![]) {
                Ok((g, l)) => r matches Ok(o) && opt_view(o) == (if l.has_value { Some(l.v) } else { None::<Seq<char>> })
                    && final(self).gs() == g && l.p == null_value(),
                Err(err) => r == Err::<Option<String>, CompileError>(err),
            },
            advances(old(self).gs(), final(self).gs()),
            tco.is_none() ==> (r matches Ok(v) ==> v is Some),
        decreases e, 1nat,
    {
        reveal_with_fuel(lower, 1);
        let (callee, args) = match e { Expr::Call(callee, args) => (callee, args), _ => { return Ok(None); } };
        assert(*e == Expr::Call(*callee, *args));
        let ghost g0 = self.gs();
        let (fn_name, parent) = match self.generate_expression(depth, callee) { Ok(v) => v, Err(e) => return Err(e) };
        let ghost g1 = self.gs();
        let mut items: Vec<String> = Vec::new();
        assert(items@.map_values(|s: String| s@) =~= Seq::<Seq<char>>::empty());
        let mut i: usize = 0;
        while i < args.len()
            invariant
                *e == Expr::Call(*callee, *args),
                expr_problem(*e, 2, i as nat) is None,
                i <= args@.len(),
                lower(g1, depth as nat, *e, 2, None, seq![], 0, seq![])
                    == lower(self.gs(), depth as nat, *e, 2, None, seq![], i as nat, items@.map_values(|s: String| s@)),
                lower(g1, depth as nat, *e, 2, None, seq![], 0, seq![]) matches Err(x)
                    ==> lower(g0, depth as nat, *e, 3, tco_model(*tco), seq![], 0, seq![]) == Err::<(Gs, Low), CompileError>(x),
                g0 == old(self).gs(),
                advances(g0, self.gs()),
            decreases args@.len() - i,
        {
            reveal_with_fuel(lower, 1);
            proof {
                assert(decreases_to!(*e => e->Call_1));
                assert(decreases_to!(e->Call_1 => e->Call_1@));
                assert(decreases_to!(e->Call_1@ => e->Call_1@[i as int]));
            }
            let (holder, _) = match self.generate_expression(depth, &args[i]) { Ok(v) => v, Err(e) => return Err(e) };
            let tmp = match self.mint("arg") { Ok(v) => v, Err(e) => return Err(e) };
            if self.is_generated(holder.as_str()) {
                match self.generate_function_value(depth, tmp.as_str(), holder.as_str()) {
                    Ok(_) => {},
                    Err(e) => return Err(e),
                }
            } else {
                let mut l = String::from_str("Local<Value> ");
                l.append(tmp.as_str());
                l.append(" = ");
                l.append(holder.as_str());
                l.append(";");
                self.emit(depth, l.as_str());
            }
            let ghost before = items@;
            items.push(tmp);
            assert(items@.map_values(|s: String| s@) =~= before.map_values(|s: String| s@).push(tmp@));
            i = i + 1;
        }
        reveal_with_fuel(lower, 1);
        let fn_tmp = match self.mint("fn") { Ok(v) => v, Err(e) => return Err(e) };
        if self.is_generated(fn_name.as_str()) {
            match self.generate_function_value(depth, fn_tmp.as_str(), fn_name.as_str()) {
                Ok(_) => {},
                Err(e) => return Err(e),
            }
        } else {
            let mut l = String::from_str("Local<Function> ");
            l.append(fn_tmp.as_str());
            l.append(" = Local<Function>::Cast(");
            l.append(fn_name.as_str());
            l.append(");");
            self.emit(depth, l.as_str());
        }
        self.generate_call_internal(depth, parent.as_str(), fn_tmp.as_str(), fn_name.as_str(), &items, tco)
    }

    /// Lowers an array literal into a fixed-size array filled element by
    /// element; a hole holds null.
    fn generate_array(&mut self, depth: usize, e: &Expr) -> (r: Result<String, CompileError>)
        requires
            expr_problem(*e, 4, 0) is None,
            e is Arr,
        ensures
            match lower(old(self).gs(), depth as nat, *e, 3, None, seq![], 0, seq![]) {
                Ok((g, l)) => r matches Ok(a) && a@ == l.v && final(self).gs() == g && l.p == null_value(),
                Err(err) => r == Err::<String, CompileError>(err),
            },
            advances(old(self).gs(), final(self).gs()),
        decreases e, 1nat,
    {
        reveal_with_fuel(lower, 1);
        let elements = match e { Expr::Arr(elements) => elements, _ => { return Ok(String::new()); } };
        assert(*e == Expr::Arr(*elements));
        let ghost g0 = self.gs();
        let a = match self.mint("array") { Ok(v) => v, Err(e) => return Err(e) };
        let mut l = String::from_str("Local<Array> ");
        l.append(a.as_str());
        l.append(" = Array::New(isolate, ");
        let n = usize_text(elements.len());
        l.append(n.as_str());
        l.append(");");
        self.emit(depth, l.as_str());
        let ghost g2 = self.gs();
        let mut i: usize = 0;
        while i < elements.len()
            invariant
                *e == Expr::Arr(*elements),
                expr_problem(*e, 2, i as nat) is None,
                lower(g2, depth as nat, *e, 2, None, a@, 0, seq![]) == lower(self.gs(), depth as nat, *e, 2, None, a@, i as nat, seq![]),
                lower(g2, depth as nat, *e, 2, None, a@, 0, seq![]) matches Err(x)
                    ==> lower(g0, depth as nat, *e, 3, None, seq![], 0, seq![]) == Err::<(Gs, Low), CompileError>(x),
                i <= elements@.len(),
                g0 == old(self).gs(),
                advances(g0, self.gs()),
            decreases elements@.len() - i,
        {
            reveal_with_fuel(lower, 1);
            proof {
                assert(decreases_to!(*e => e->Arr_0));
                assert(decreases_to!(e->Arr_0 => e->Arr_0@));
                assert(decreases_to!(e->Arr_0@ => e->Arr_0@[i as int]));
            }
            let v = match &elements[i] {
                Some(x) => {
                    proof {
                        assert(decreases_to!(e->Arr_0@[i as int] => e->Arr_0@[i as int]->Some_0));
                    }
                    match self.generate_expression(depth, x) {
                        Ok((v, _)) => v,
                        Err(e) => return Err(e),
                    }
                },
                None => String::from_str("Null(isolate)"),
            };
            let mut l = String::from_str(a.as_str());
            l.append("->Set(");
            let n = usize_text(i);
            l.append(n.as_str());
            l.append(", ");
            l.append(v.as_str());
            l.append(");");
            self.emit(depth, l.as_str());
            i = i + 1;
        }
        reveal_with_fuel(lower, 1);
        Ok(a)
    }

    /// Lowers an expression: writes the statements it needs and returns its
    /// value together with the object it was read from (`Null(isolate)` but
    /// for a property read).
    #[verifier::rlimit(40)]
    fn generate_expression(&mut self, depth: usize, e: &Expr) -> (r: Result<(String, String), CompileError>)
        requires
            expr_problem(*e, 4, 0) is None,
        ensures
            match lower(old(self).gs(), depth as nat, *e, 4, None, seq![], 0, seq![]) {
                Ok((g, l)) => r matches Ok((a, b)) && a@ == l.v && b@ == l.p && final(self).gs() == g,
                Err(err) => r == Err::<(String, String), CompileError>(err),
            },
            advances(old(self).gs(), final(self).gs()),
        decreases e, 2nat,
    {
        reveal_with_fuel(lower, 1);
        match e {
            Expr::Call(_, _) => match self.generate_call(depth, e, &None) {
                Ok(Some(v)) => Ok((v, String::from_str("Null(isolate)"))),
                Ok(None) => Ok((String::new(), String::from_str("Null(isolate)"))),
                Err(err) => Err(err),
            },
            Expr::Id(name) => match self.lookup(name.as_str()) {
                Some(s) => Ok((s, String::from_str("Null(isolate)"))),
                None => {
                    if *name == String::from_str("global") {
                        Ok((String::from_str("isolate->GetCurrentContext()->Global()"), String::from_str("Null(isolate)")))
                    } else {
                        let mut v = String::from_str("isolate->GetCurrentContext()->Global()->Get(");
                        let n = v8_string_exec(name.as_str());
                        v.append(n.as_str());
                        v.append(")");
                        Ok((v, String::from_str("Null(isolate)")))
                    }
                },
            },
            Expr::Str(v) => {
                let t = escape(v.as_str());
                Ok((v8_string_exec(t.as_str()), String::from_str("Null(isolate)")))
            },
            Expr::Number(t) => {
                let mut v = String::from_str("Number::New(isolate, ");
                v.append(t.as_str());
                v.append(")");
                Ok((v, String::from_str("Null(isolate)")))
            },
            Expr::True => Ok((String::from_str("True(isolate)"), String::from_str("Null(isolate)"))),
            Expr::False => Ok((String::from_str("False(isolate)"), String::from_str("Null(isolate)"))),
            Expr::Null => Err(CompileError::NullLiteral),
            Expr::Arr(_) => match self.generate_array(depth, e) {
                Ok(v) => Ok((v, String::from_str("Null(isolate)"))),
                Err(err) => Err(err),
            },
            Expr::Binop(op, a, b) => {
                let (l, _) = match self.generate_expression(depth, a) { Ok(v) => v, Err(err) => return Err(err) };
                let (r, _) = match self.generate_expression(depth, b) { Ok(v) => v, Err(err) => return Err(err) };
                let v = match self.generate_binop(depth, *op, l.as_str(), r.as_str()) {
                    Ok(v) => v,
                    Err(err) => return Err(err),
                };
                Ok((v, String::from_str("Null(isolate)")))
            },
            Expr::Dot(obj, key) => {
                let (x, _) = match self.generate_expression(depth, obj) { Ok(v) => v, Err(err) => return Err(err) };
                {
                    let k = v8_string_exec(key.as_str());
                    self.generate_dot(depth, x.as_str(), k.as_str())
                }
            },
            Expr::Assign(_, _, _) => self.generate_assign(depth, e),
            Expr::Brack(obj, key) => {
                let (o, _) = match self.generate_expression(depth, obj) { Ok(v) => v, Err(err) => return Err(err) };
                let (k, _) = match self.generate_expression(depth, key) { Ok(v) => v, Err(err) => return Err(err) };
                let mut name = k;
                name.append("->ToString()");
                self.generate_dot(depth, o.as_str(), name.as_str())
            },
            Expr::Other(kind) => Err(CompileError::UnsupportedExpression(kind.clone())),
        }
    }

    /// Lowers an assignment: to a declared name, as a C++ assignment with the
    /// same operator; to `object[key]`, as a property write on the object.
    fn generate_assign(&mut self, depth: usize, e: &Expr) -> (r: Result<(String, String), CompileError>)
        requires
            expr_problem(*e, 4, 0) is None,
            e is Assign,
        ensures
            match lower(old(self).gs(), depth as nat, *e, 4, None, seq![], 0, seq![]) {
                Ok((g, l)) => r matches Ok((a, b)) && a@ == l.v && b@ == l.p && final(self).gs() == g,
                Err(err) => r == Err::<(String, String), CompileError>(err),
            },
            advances(old(self).gs(), final(self).gs()),
        decreases e, 1nat,
    {
        reveal_with_fuel(lower, 1);
        let (op, patt, body) = match e { Expr::Assign(op, patt, body) => (op, patt, body), _ => { return Err(CompileError::UnsupportedAssignTarget); } };
        match patt {
            AssignPatt::Destructuring => Err(CompileError::DestructuringAssignment),
            AssignPatt::Simple(AssignTarget::Id(name)) => {
                let target = self.lookup(name.as_str());
                let (v, _) = match self.generate_expression(depth, body) { Ok(v) => v, Err(err) => return Err(err) };
                match target {
                    Some(t) => {
                        let mut s = t;
                        s.append(" ");
                        s.append(op.text());
                        s.append(" ");
                        s.append(v.as_str());
                        Ok((s, String::from_str("Null(isolate)")))
                    },
                    None => Ok((global_assign_exec(name.as_str(), *op, v.as_str()), String::from_str("Null(isolate)"))),
                }
            },
            AssignPatt::Simple(AssignTarget::Brack(obj, key)) => {
                let (o, _) = match self.generate_expression(depth, obj) { Ok(v) => v, Err(err) => return Err(err) };
                let (k, _) = match self.generate_expression(depth, key) { Ok(v) => v, Err(err) => return Err(err) };
                let (v, _) = match self.generate_expression(depth, body) { Ok(v) => v, Err(err) => return Err(err) };
                let mut s = o;
                s.append(".As<Object>()->Set(");
                s.append(k.as_str());
                s.append(", ");
                s.append(v.as_str());
                s.append(")");
                Ok((s, String::from_str("Null(isolate)")))
            },
            AssignPatt::Simple(AssignTarget::Dot(_, _)) => Err(CompileError::UnsupportedAssignTarget),
        }
    }

    /// The value of a binary operation on two lowered operands.
    fn generate_binop(&mut self, depth: usize, op: BinaryOp, l: &str, r: &str) -> (res: Result<String, CompileError>)
        requires
            op_supported(op),
        ensures
            match binop_value_spec(old(self).gs(), depth as nat, op, l@, r@) {
                Ok((g, v)) => res matches Ok(s) && s@ == v && final(self).gs() == g,
                Err(err) => res == Err::<String, CompileError>(err),
            },
            advances(old(self).gs(), final(self).gs()),
    {
        let all = vec![ValueType::String, ValueType::Number, ValueType::Boolean];
        let ordered = vec![ValueType::String, ValueType::Number];
        assert(all@ =~= seq![ValueType::String, ValueType::Number, ValueType::Boolean]);
        assert(ordered@ =~= seq![ValueType::String, ValueType::Number]);
        match op {
            BinaryOp::Eq => self.generate_check_chain(depth, &all, 0, false, "==", false, l, r),
            BinaryOp::NEq => self.generate_check_chain(depth, &all, 0, false, "!=", true, l, r),
            BinaryOp::StrictEq => self.generate_check_chain(depth, &all, 0, true, "==", false, l, r),
            BinaryOp::StrictNEq => self.generate_check_chain(depth, &all, 0, true, "!=", true, l, r),
            BinaryOp::LEq => self.generate_check_chain(depth, &ordered, 0, false, "<=", false, l, r),
            BinaryOp::GEq => self.generate_check_chain(depth, &ordered, 0, false, ">=", false, l, r),
            BinaryOp::Lt => self.generate_check_chain(depth, &ordered, 0, false, "<", false, l, r),
            BinaryOp::Gt => self.generate_check_chain(depth, &ordered, 0, false, ">", false, l, r),
            BinaryOp::Plus => Ok(generate_plus(l, r)),
            _ => match numeric_op_text(op) {
                Some(o) => Ok(number_check_and_op(o, l, r)),
                None => Err(CompileError::UnsupportedOperator(op)),
            },
        }
    }

    /// Coerces the value of `test` to a V8 boolean through the global
    /// `Boolean` function.
    fn generate_test(&mut self, depth: usize, test: &Expr) -> (r: Result<String, CompileError>)
        requires
            expr_problem(*test, 4, 0) is None,
        ensures
            match test_spec(old(self).gs(), depth as nat, *test) {
                Ok((g, v)) => r matches Ok(s) && s@ == v && final(self).gs() == g,
                Err(err) => r == Err::<String, CompileError>(err),
            },
            final(self).gs().exports == old(self).gs().exports,
    {
        let ctx = match self.mint("ctx") { Ok(v) => v, Err(e) => return Err(e) };
        let global = match self.mint("global") { Ok(v) => v, Err(e) => return Err(e) };
        let boolean = match self.mint("Boolean") { Ok(v) => v, Err(e) => return Err(e) };
        let mut l = String::from_str("Local<Context> ");
        l.append(ctx.as_str());
        l.append(" = isolate->GetCurrentContext();");
        self.emit(depth, l.as_str());
        let mut l = String::from_str("Local<Object> ");
        l.append(global.as_str());
        l.append(" = ");
        l.append(ctx.as_str());
        l.append("->Global();");
        self.emit(depth, l.as_str());
        let mut l = String::from_str("Local<Function> ");
        l.append(boolean.as_str());
        l.append(" = Local<Function>::Cast(");
        l.append(global.as_str());
        l.append("->Get(");
        let b = v8_string_exec("Boolean");
        l.append(b.as_str());
        l.append("));");
        self.emit(depth, l.as_str());
        let (v, _) = match self.generate_expression(depth, test) { Ok(v) => v, Err(e) => return Err(e) };
        let ghost vv = v@;
        let args = vec![v];
        assert(args@.map_values(|s: String| s@) =~= seq![vv]);
        match self.generate_call_internal(depth, "Null(isolate)", boolean.as_str(), "Boolean", &args, &None) {
            Ok(Some(r)) => Ok(r),
            Ok(None) => Ok(String::new()),
            Err(e) => Err(e),
        }
    }

    fn generate_declaration(&mut self, depth: usize, name: &String, init: &Option<Expr>) -> (r: Result<(), CompileError>)
        requires
            match *init { Some(x) => expr_problem(x, 4, 0) is None, None => true },
        ensures
            match decl_spec(old(self).gs(), depth as nat, name@, *init) {
                Ok((g, _)) => r is Ok && final(self).gs() == g,
                Err(err) => r == Err::<(), CompileError>(err),
            },
            final(self).gs().exports == old(self).gs().exports,
    {
        let suffix = match init {
            Some(x) => {
                let (v, _) = match self.generate_expression(depth, x) { Ok(v) => v, Err(e) => return Err(e) };
                let mut t = String::from_str(" = ");
                t.append(v.as_str());
                t
            },
            None => String::new(),
        };
        let safe = match self.bind(name.as_str()) { Ok(v) => v, Err(e) => return Err(e) };
        let mut l = String::from_str("Local<Value> ");
        l.append(safe.as_str());
        l.append(suffix.as_str());
        l.append(";");
        self.emit(depth, l.as_str());
        Ok(())
    }

    /// Sets the return value and returns; a self call in tail position is
    /// instead turned into a jump and leaves nothing to return.
    fn generate_return(&mut self, depth: usize, result: &Option<Expr>, tco: &Option<Tco>) -> (r: Result<(), CompileError>)
        requires
            match *result { Some(x) => expr_problem(x, 4, 0) is None, None => true },
        ensures
            match return_spec(old(self).gs(), depth as nat, *result, tco_model(*tco)) {
                Ok((g, _)) => r is Ok && final(self).gs() == g,
                Err(err) => r == Err::<(), CompileError>(err),
            },
            final(self).gs().exports == old(self).gs().exports,
    {
        let value = match result {
            Some(x) => {
                match x {
                    Expr::Call(_, _) => match self.generate_call(depth, x, tco) { Ok(v) => v, Err(e) => return Err(e) },
                    _ => match self.generate_expression(depth, x) { Ok((v, _)) => Some(v), Err(e) => return Err(e) },
                }
            },
            None => Some(String::from_str("Null(isolate)")),
        };
        match value {
            Some(v) => {
                let mut l = String::from_str("args.GetReturnValue().Set(");
                l.append(v.as_str());
                l.append(");");
                self.emit(depth, l.as_str());
                self.emit(depth, "return;");
            },
            None => {},
        }
        Ok(())
    }

    fn generate_condition(&mut self, depth: usize, s: &Stmt, tco: &Option<Tco>) -> (r: Result<(), CompileError>)
        requires
            stmt_problem(*s, 3, 0) is None,
            s is If,
        ensures
            match lower_stmt(old(self).gs(), depth as nat, *s, 3, tco_model(*tco), false, 0) {
                Ok((g, _)) => r is Ok && final(self).gs() == g,
                Err(err) => r == Err::<(), CompileError>(err),
            },
            final(self).gs().exports == old(self).gs().exports,
        decreases s, 1nat,
    {
        reveal_with_fuel(lower_stmt, 1);
        let (test, ok, nok) = match s { Stmt::If(t, a, b) => (t, a, b), _ => { return Ok(()); } };
        let result = match self.generate_test(depth, test) { Ok(v) => v, Err(e) => return Err(e) };
        let mut l = String::from_str("if (");
        l.append(result.as_str());
        l.append("->ToBoolean()->Value()) {");
        self.emit(depth, l.as_str());
        let inner = deeper_exec(depth);
        match self.generate_statement(inner, ok, tco) { Ok(_) => {}, Err(e) => return Err(e) }
        self.emit(inner, "return;");
        match nok {
            Some(b) => {
                self.emit(depth, "} else {");
                match self.generate_statement(inner, b, tco) { Ok(_) => {}, Err(e) => return Err(e) }
            },
            None => {},
        }
        self.emit(depth, "}");
        Ok(())
    }

    fn generate_while(&mut self, depth: usize, s: &Stmt, tco: &Option<Tco>) -> (r: Result<(), CompileError>)
        requires
            stmt_problem(*s, 3, 0) is None,
            s is While,
        ensures
            match lower_stmt(old(self).gs(), depth as nat, *s, 3, tco_model(*tco), false, 0) {
                Ok((g, _)) => r is Ok && final(self).gs() == g,
                Err(err) => r == Err::<(), CompileError>(err),
            },
            final(self).gs().exports == old(self).gs().exports,
        decreases s, 1nat,
    {
        reveal_with_fuel(lower_stmt, 1);
        let (test, body) = match s { Stmt::While(t, b) => (t, b), _ => { return Ok(()); } };
        let result = match self.generate_test(depth, test) { Ok(v) => v, Err(e) => return Err(e) };
        let mut l = String::from_str("while (");
        l.append(result.as_str());
        l.append("->ToBoolean()->Value()) {");
        self.emit(depth, l.as_str());
        let inner = deeper_exec(depth);
        match self.generate_statement(inner, body, tco) { Ok(_) => {}, Err(e) => return Err(e) }
        let next = match self.generate_test(inner, test) { Ok(v) => v, Err(e) => return Err(e) };
        let mut l = String::from_str(result.as_str());
        l.append(" = ");
        l.append(next.as_str());
        l.append(";");
        self.emit(inner, l.as_str());
        self.emit(depth, "}");
        Ok(())
    }

    /// Compiles one statement; `tco` is the tail-call context when the
    /// statement is in tail position.
    fn generate_statement(&mut self, depth: usize, s: &Stmt, tco: &Option<Tco>) -> (r: Result<(), CompileError>)
        requires
            stmt_problem(*s, 3, 0) is None,
        ensures
            match lower_stmt(old(self).gs(), depth as nat, *s, 3, tco_model(*tco), false, 0) {
                Ok((g, _)) => r is Ok && final(self).gs() == g,
                Err(err) => r == Err::<(), CompileError>(err),
            },
            final(self).gs().exports == old(self).gs().exports,
        decreases s, 2nat,
    {
        reveal_with_fuel(lower_stmt, 1);
        match s {
            Stmt::Expr(e) => {
                let (v, _) = match self.generate_expression(depth, e) { Ok(v) => v, Err(err) => return Err(err) };
                let mut l = v;
                l.append(";");
                self.emit(depth, l.as_str());
                Ok(())
            },
            Stmt::Var(ds) => {
                let ghost g0 = self.gs();
                assert(*s == Stmt::Var(*ds));
                let mut i: usize = 0;
                while i < ds.len()
                    invariant
                        i <= ds@.len(),
                        g0 == old(self).gs(),
                        *s == Stmt::Var(*ds),
                        stmt_problem(*s, 2, i as nat) is None,
                        lower_stmt(g0, depth as nat, *s, 3, tco_model(*tco), false, 0) == dtors_spec(g0, depth as nat, ds@, 0),
                        self.gs().exports == g0.exports,
                        dtors_spec(g0, depth as nat, ds@, 0) == dtors_spec(self.gs(), depth as nat, ds@, i as nat),
                    decreases ds@.len() - i,
                {
                    match &ds[i] {
                        Dtor::Simple(name, init) => {
                            match self.generate_declaration(depth, name, init) { Ok(_) => {}, Err(e) => return Err(e) }
                        },
                        Dtor::Destructuring => { return Err(CompileError::DestructuringDeclaration); },
                    }
                    i = i + 1;
                }
                Ok(())
            },
            Stmt::Return(result) => self.generate_return(depth, result, tco),
            Stmt::If(_, _, _) => self.generate_condition(depth, s, tco),
            Stmt::While(_, _) => self.generate_while(depth, s, tco),
            Stmt::Block(items) => {
                proof {
                    assert(decreases_to!(*s => s->Block_0));
                    assert(*s == Stmt::Block(*items));
                }
                self.generate_statements(depth, items, tco, false)
            },
            Stmt::Other(kind) => Err(CompileError::UnsupportedStatement(kind.clone())),
        }
    }

    /// Compiles a statement list; only the last statement inherits the
    /// tail-call context. At top level, named functions are entered in the
    /// export table.
    #[verifier::rlimit(60)]
    fn generate_statements(&mut self, depth: usize, items: &Vec<StmtListItem>, tco: &Option<Tco>, top_level: bool) -> (r: Result<(), CompileError>)
        requires
            stmt_problem(Stmt::Block(*items), 2, 0) is None,
        ensures
            match lower_stmt(old(self).gs(), depth as nat, Stmt::Block(*items), 2, tco_model(*tco), top_level, 0) {
                Ok((g, _)) => r is Ok && final(self).gs() == g,
                Err(err) => r == Err::<(), CompileError>(err),
            },
            r is Ok ==> export_names(final(self).gs().exports)
                == export_names(old(self).gs().exports) + (if top_level { exported_names(items@) } else { seq![] }),
            !top_level ==> final(self).gs().exports == old(self).gs().exports,
        decreases items, 0nat,
    {
        let ghost g0 = self.gs();
        let n = items.len();
        let mut i: usize = 0;
        assert(items@.subrange(0, 0) =~= Seq::<StmtListItem>::empty());
        while i < n
            invariant
                n == items@.len(),
                i <= n,
                stmt_problem(Stmt::Block(*items), 2, i as nat) is None,
                g0 == old(self).gs(),
                lower_stmt(g0, depth as nat, Stmt::Block(*items), 2, tco_model(*tco), top_level, 0)
                    == lower_stmt(self.gs(), depth as nat, Stmt::Block(*items), 2, tco_model(*tco), top_level, i as nat),
                export_names(self.gs().exports)
                    == export_names(g0.exports) + (if top_level { exported_names(items@.subrange(0, i as int)) } else { seq![] }),
                !top_level ==> self.gs().exports == g0.exports,
            decreases n - i,
        {
            reveal_with_fuel(lower_stmt, 1);
            proof {
                assert(decreases_to!(*items => items@));
                assert(decreases_to!(items@ => items@[i as int]));
                assert(items@.subrange(0, i + 1).drop_last() =~= items@.subrange(0, i as int));
                lemma_item_supported(*items, i as nat);
            }
            match &items[i] {
                StmtListItem::Fun(f) => {
                    let ghost cur = self.gs();
                    reveal_with_fuel(lower_stmt, 1);
                    assert(items@[i as int] == StmtListItem::Fun(*f));
                    assert(lower_stmt(cur, depth as nat, Stmt::Block(*items), 1, tco_model(*tco), top_level, i as nat)
                        == fun_spec(cur, depth as nat, *f, top_level));
                    match self.generate_function_declaration(depth, f, top_level) { Ok(_) => {}, Err(e) => return Err(e) }
                    proof {
                        if top_level {
                            assert(items@.subrange(0, i + 1).last() == items@[i as int]);
                            assert(export_names(self.gs().exports) =~= export_names(g0.exports)
                                + exported_names(items@.subrange(0, i + 1)));
                        }
                    }
                },
                StmtListItem::Stmt(st) => {
                    let last = i + 1 == n;
                    let r = if last {
                        self.generate_statement(depth, st, tco)
                    } else {
                        self.generate_statement(depth, st, &None)
                    };
                    match r { Ok(_) => {}, Err(e) => return Err(e) }
                    proof {
                        if top_level {
                            assert(items@.subrange(0, i + 1).last() == items@[i as int]);
                            assert(export_names(self.gs().exports) =~= export_names(g0.exports)
                                + exported_names(items@.subrange(0, i + 1)));
                        }
                    }
                },
            }
            i = i + 1;
        }
        reveal_with_fuel(lower_stmt, 1);
        assert(items@.subrange(0, n as int) =~= items@);
        Ok(())
    }

    fn enter_function(&self) -> (saved: Scope)
        ensures
            saved.model() == self.gs().scope,
    {
        reveal(CG::gs);
        self.scope.child()
    }

    fn leave_function(&mut self, saved: Scope)
        ensures
            final(self).gs() == (Gs {
                scope: ScopeModel { counter: larger(old(self).gs().scope.counter, saved.model().counter), ..saved.model() },
                ..old(self).gs()
            }),
    {
        reveal(CG::gs);
        let mut s = saved;
        s.take_counter(&self.scope);
        self.scope = s;
    }

    fn register_function(&mut self, id: &String, top_level: bool) -> (r: Result<String, CompileError>)
        requires
            id@ != "main"@,
        ensures
            r is Err ==> final(self).gs() == old(self).gs(),
            match fun_name_spec(old(self).gs(), id@, top_level) {
                Ok((g, n)) => r matches Ok(s) && s@ == n && final(self).gs() == g,
                Err(err) => r == Err::<String, CompileError>(err),
            },
    {
        let safe = match self.bind(id.as_str()) { Ok(v) => v, Err(e) => return Err(e) };
        reveal(CG::gs);
        let ghost g1 = self.gs();
        self.funcs.push(safe.clone());
        assert(self.gs().funcs =~= g1.funcs.push(safe@));
        if top_level {
            self.exports.push((id.clone(), safe.clone()));
            assert(self.gs().exports =~= g1.exports.push((id@, safe@)));
        }
        Ok(safe)
    }

    /// Compiles a function declaration into a V8 callback: the function
    /// is named (`main` becomes the entry point `jsc_main`, any other name a
    /// fresh identifier entered in the registry), its parameters are bound to
    /// the positional arguments, and its body is compiled in a copy of the
    /// scope with a tail-call context that names the function, its
    /// parameters and its entry label.
    fn generate_function_declaration(&mut self, depth: usize, f: &Fun, top_level: bool) -> (r: Result<(), CompileError>)
        requires
            fun_supported(*f),
        ensures
            match fun_spec(old(self).gs(), depth as nat, *f, top_level) {
                Ok((g, _)) => r is Ok && final(self).gs() == g,
                Err(err) => r == Err::<(), CompileError>(err),
            },
            r is Ok ==> export_names(final(self).gs().exports) == export_names(old(self).gs().exports)
                + (if top_level { item_export(StmtListItem::Fun(*f)) } else { seq![] }),
            !top_level ==> final(self).gs().exports == old(self).gs().exports,
        decreases f, 1nat,
    {
        let id = match &f.id { Some(id) => id, None => return Err(CompileError::AnonymousFunction) };
        let ghost g0 = self.gs();
        let is_main = *id == String::from_str("main");
        let name = if is_main {
            String::from_str("jsc_main")
        } else {
            match self.register_function(id, top_level) { Ok(v) => v, Err(e) => return Err(e) }
        };
        proof {
            if top_level && !is_main {
                assert(export_names(self.gs().exports) =~= export_names(g0.exports) + seq![id@]);
            } else {
                assert(export_names(g0.exports) + (if top_level { item_export(StmtListItem::Fun(*f)) } else { seq![] })
                    =~= export_names(g0.exports));
            }
        }
        let ghost g1 = self.gs();
        let mut l = String::from_str("void ");
        l.append(name.as_str());
        l.append("(const FunctionCallbackInfo<Value>& args) {");
        self.emit(depth, l.as_str());
        let inner = deeper_exec(depth);
        self.emit(inner, "Isolate* isolate = args.GetIsolate();");
        let saved = self.enter_function();
        let ghost g2 = self.gs();
        let mut params: Vec<String> = Vec::new();
        assert(params@.map_values(|p: String| p@) =~= Seq::<Seq<char>>::empty());
        let mut i: usize = 0;
        while i < f.params.len()
            invariant
                i <= f.params@.len(),
                saved.model() == g1.scope,
                g0 == old(self).gs(),
                !top_level ==> g1.exports == g0.exports,
                self.gs().exports == g1.exports,
                params_spec(g2, inner as nat, f.params@, 0, seq![]) matches Err(x)
                    ==> fun_spec(g0, depth as nat, *f, top_level) == Err::<(Gs, ()), CompileError>(x),
                params_spec(g2, inner as nat, f.params@, 0, seq![])
                    == params_spec(self.gs(), inner as nat, f.params@, i as nat, params@.map_values(|p: String| p@)),
            decreases f.params@.len() - i,
        {
            match &f.params[i] {
                Param::Simple(p) => {
                    let safe = match self.bind(p.as_str()) { Ok(v) => v, Err(e) => return Err(e) };
                    let mut l = String::from_str("Local<Value> ");
                    l.append(safe.as_str());
                    l.append(" = args[");
                    let n = usize_text(i);
                    l.append(n.as_str());
                    l.append("];");
                    self.emit(inner, l.as_str());
                    let ghost before = params@;
                    params.push(safe);
                    assert(params@.map_values(|p: String| p@) =~= before.map_values(|p: String| p@).push(safe@));
                },
                Param::Destructuring => { return Err(CompileError::DestructuringParameter); },
            }
            i = i + 1;
        }
        let label = match self.mint("tail_recurse") { Ok(v) => v, Err(e) => return Err(e) };
        let mut l = label.clone();
        l.append(":");
        self.emit(0, l.as_str());
        let tco = Some(Tco { name: name.clone(), params, label });
        proof {
            assert(decreases_to!(*f => f.body));
        }
        match self.generate_statement(inner, &f.body, &tco) { Ok(_) => {}, Err(e) => return Err(e) }
        self.leave_function(saved);
        self.emit(depth, "}\n");
        Ok(())
    }

    /// A generator for the given flavour: a Node.js extension, or a
    /// standalone program that boots V8 itself.
    pub fn new(use_node: bool) -> (r: CG)
        ensures
            r.gs() == fresh_state(use_node),
    {
        reveal(CG::gs);
        let r = CG { use_node, funcs: Vec::new(), exports: Vec::new(), lines: Vec::new(), scope: Scope::new() };
        assert(r.gs().funcs =~= seq![]);
        assert(r.gs().exports =~= seq![]);
        assert(r.gs().lines =~= seq![]);
        r
    }

    /// The lines written so far, each indented and ending in a newline.
    pub fn lines(&self) -> (r: &Vec<String>)
        ensures
            r@.map_values(|s: String| s@) == self.gs().lines,
    {
        reveal(CG::gs);
        &self.lines
    }

    /// The export table: each exported function's source name and the
    /// generated symbol that implements it, in order of declaration.
    pub fn exports(&self) -> (r: &Vec<(String, String)>)
        ensures
            r@.map_values(|p: (String, String)| (p.0@, p.1@)) == self.gs().exports,
    {
        reveal(CG::gs);
        &self.exports
    }

    fn generate_prefix(&mut self)
        ensures
            final(self).gs() == (Gs { lines: old(self).gs().lines + prefix_lines(old(self).gs().use_node), ..old(self).gs() }),
    {
        let ghost g0 = self.gs();
        let node = self.use_node();
        if node {
            self.emit(0, "#include <string>");
            self.emit(0, "#include <iostream>");
            self.emit(0, "#include <limits>");
            self.emit(0, "\n#include <node.h>\n");
        } else {
            self.emit(0, "#include <stdio>");
            self.emit(0, "#include <stdlib>");
            self.emit(0, "#include <limits>");
            self.emit(0, "#include <libplatform.h>");
            self.emit(0, "#include <v8.h>\n");
        }
        self.emit(0, "using v8::Array;");
        self.emit(0, "using v8::Boolean;");
        self.emit(0, "using v8::Context;");
        self.emit(0, "using v8::Exception;");
        self.emit(0, "using v8::Function;");
        self.emit(0, "using v8::FunctionTemplate;");
        self.emit(0, "using v8::FunctionCallbackInfo;");
        self.emit(0, "using v8::Isolate;");
        self.emit(0, "using v8::Local;");
        self.emit(0, "using v8::Null;");
        self.emit(0, "using v8::Number;");
        self.emit(0, "using v8::Object;");
        self.emit(0, "using v8::String;");
        self.emit(0, "using v8::False;");
        self.emit(0, "using v8::True;");
        self.emit(0, "using v8::Value;\n");
        assert(self.gs().lines =~= g0.lines + prefix_lines(g0.use_node));
    }

    fn generate_postfix(&mut self)
        ensures
            final(self).gs() == (Gs {
                lines: old(self).gs().lines + postfix_lines(old(self).gs().use_node, old(self).gs().exports),
                ..old(self).gs()
            }),
    {
        let ghost g0 = self.gs();
        let node = self.use_node();
        if node {
            self.emit(0, "void Init(Local<Object> exports) {");
            self.emit(1, "NODE_SET_METHOD(exports, \"jsc_main\", jsc_main);");
            let n = self.export_count();
            let ghost g1 = self.gs();
            let mut i: usize = 0;
            assert(registrations(g0.exports.subrange(0, 0)) =~= Seq::<Seq<char>>::empty());
            assert(g1 == (Gs { lines: g1.lines + registrations(g0.exports.subrange(0, 0)), ..g0 }));
            while i < n
                invariant
                    n == g0.exports.len(),
                    i <= n,
                    g1 == (Gs { lines: g1.lines, ..g0 }),
                    self.gs() == (Gs { lines: g1.lines + registrations(g0.exports.subrange(0, i as int)), ..g0 }),
                decreases n - i,
            {
                let line = self.registration(i);
                self.emit(1, line.as_str());
                proof {
                    let sub = g0.exports.subrange(0, i + 1);
                    assert(sub.drop_last() =~= g0.exports.subrange(0, i as int));
                    assert(sub.last() == g0.exports[i as int]);
                    assert(self.gs().lines =~= g1.lines + registrations(sub));
                }
                i = i + 1;
            }
            assert(g0.exports.subrange(0, n as int) =~= g0.exports);
            self.emit(0, "}\n");
            self.emit(0, "NODE_MODULE(NODE_GYP_MODULE_NAME, Init)");
        } else {
            self.emit(0, "\nint main(int argc, char* argv[]) {\n  int exit_code;\n\n  v8::V8::InitializeICUDefaultLocation(argv[0]);\n  v8::V8::InitializeExternalStartupData(argv[0]);\n  std::unique_ptr<v8::Platform> platform = v8::platform::NewDefaultPlatform();\n  v8::V8::InitializePlatform(platform.get());\n  v8::V8::Initialize();\n\n  v8::Isolate::CreateParams create_params;\n  create_params.array_buffer_allocator =\n      v8::ArrayBuffer::Allocator::NewDefaultAllocator();\n  v8::Isolate* isolate = v8::Isolate::New(create_params);\n\n  {\n    v8::Isolate::Scope isolate_scope(isolate);\n    v8::HandleScope handle_scope(isolate);\n    v8::Local<v8::Context> context = v8::Context::New(isolate);\n    v8::Context::Scope context_scope(context);\n\n    {\n      Local<FunctionTemplate> entry_fntpl = FunctionTemplate::New(isolate, jsc_main);\n      Local<Function> entry_fn = entry_fntpl->GetFunction();\n      Local<Value> result = entry_fn->Call(Null(isolate), 0, 0);\n      exit_code = result->ToNumber(isolate)->Value();\n    }\n  }\n\n  isolate->Dispose();\n  v8::V8::Dispose();\n  v8::V8::ShutdownPlatform();\n  delete create_params.array_buffer_allocator;\n  return exit_code;\n}\n");
        }
        assert(self.gs().lines =~= g0.lines + postfix_lines(g0.use_node, g0.exports));
    }

    fn export_count(&self) -> (r: usize)
        ensures
            r == self.gs().exports.len(),
    {
        reveal(CG::gs);
        self.exports.len()
    }

    /// The registration line of the `i`-th export.
    fn registration(&self, i: usize) -> (r: String)
        requires
            i < self.gs().exports.len(),
        ensures
            r@ == "NODE_SET_METHOD(exports, \""@ + self.gs().exports[i as int].0 + "\", "@ + self.gs().exports[i as int].1 + ");"@,
    {
        reveal(CG::gs);
        let mut r = String::from_str("NODE_SET_METHOD(exports, \"");
        r.append(self.exports[i].0.as_str());
        r.append("\", ");
        r.append(self.exports[i].1.as_str());
        r.append(");");
        r
    }

    fn use_node(&self) -> (r: bool)
        ensures
            r == self.gs().use_node,
    {
        reveal(CG::gs);
        self.use_node
    }

    /// Compiles a whole program: the opening lines, the top-level items,
    /// then the closing lines. The export table gains one entry per
    /// top-level named function but `main`, in order.
    pub fn generate(&mut self, ast: &Script) -> (r: Result<(), CompileError>)
        requires
            program_problem(ast.body) is None,
        ensures
            match program_spec(old(self).gs(), ast.body) {
                Ok((g, _)) => r is Ok && final(self).gs() == g,
                Err(err) => r == Err::<(), CompileError>(err),
            },
            r is Ok ==> export_names(final(self).gs().exports) == export_names(old(self).gs().exports) + exported_names(ast.body@),
    {
        self.generate_prefix();
        match self.generate_statements(0, &ast.body, &None, true) { Ok(_) => {}, Err(e) => return Err(e) }
        self.generate_postfix();
        Ok(())
    }
}

fn compound_op_text(op: AssignOp) -> (r: &'static str)
    ensures
        r@ == compound_op(op),
{
    match op {
        AssignOp::MinusEq => "-",
        AssignOp::TimesEq => "*",
        AssignOp::DivEq => "/",
        AssignOp::ModEq => "%",
        AssignOp::LShiftEq => "<<",
        AssignOp::RShiftEq => ">>",
        AssignOp::URShiftEq => ">>>",
        AssignOp::BitOrEq => "|",
        AssignOp::BitXorEq => "^",
        AssignOp::BitAndEq => "&",
        _ => "",
    }
}

/// An assignment to a name that no scope binds, as a write on the global object.
fn global_assign_exec(n: &str, op: AssignOp, v: &str) -> (r: String)
    ensures
        r@ == global_assign(n@, op, v@),
{
    let key = v8_string_exec(n);
    let mut current = String::from_str("isolate->GetCurrentContext()->Global()->Get(");
    current.append(key.as_str());
    current.append(")");
    let value = match op {
        AssignOp::Eq => String::from_str(v),
        AssignOp::PlusEq => generate_plus(current.as_str(), v),
        _ => number_check_and_op(compound_op_text(op), current.as_str(), v),
    };
    let mut r = String::from_str("isolate->GetCurrentContext()->Global()->Set(");
    r.append(key.as_str());
    r.append(", ");
    r.append(value.as_str());
    r.append(")");
    r
}

fn deeper_exec(d: usize) -> (r: usize)
    ensures
        r == deeper(d as nat),
{
    if d < usize::MAX { d + 1 } else { d }
}

/// A V8 string built from literal text.
fn v8_string_exec(s: &str) -> (r: String)
    ensures
        r@ == v8_string(s@),
{
    let mut r = String::from_str("String::NewFromUtf8(isolate, \"");
    r.append(s);
    r.append("\")");
    r
}

/// `s` with newline, tab and carriage return escaped.
pub fn escape(s: &str) -> (r: String)
    ensures
        r@ == escaped(s@),
{
    let n = s.unicode_len();
    let mut r = String::new();
    let mut i: usize = 0;
    while i < n
        invariant
            n == s@.len(),
            i <= n,
            r@ == escaped(s@.subrange(0, i as int)),
        decreases n - i,
    {
        let c = s.get_char(i);
        assert(s@.subrange(0, i + 1).drop_last() =~= s@.subrange(0, i as int));
        if c == '\n' {
            r.append("\\n");
        } else if c == '\t' {
            r.append("\\t");
        } else if c == '\r' {
            r.append("\\r");
        } else {
            push_char(&mut r, c);
        }
        proof {
            reveal_strlit("\\n");
            reveal_strlit("\\t");
            reveal_strlit("\\r");
            assert(r@ =~= escaped(s@.subrange(0, i + 1)));
        }
        i = i + 1;
    }
    assert(s@.subrange(0, n as int) =~= s@);
    r
}

/// The items separated by `", "`.
pub(crate) fn comma_join(v: &Vec<String>) -> (r: String)
    ensures
        r@ == comma_list(v@.map_values(|s: String| s@)),
{
    let ghost m = v@.map_values(|s: String| s@);
    let mut r = String::new();
    let mut i: usize = 0;
    while i < v.len()
        invariant
            i <= v@.len(),
            m == v@.map_values(|s: String| s@),
            r@ == comma_list(m.subrange(0, i as int)),
        decreases v@.len() - i,
    {
        assert(m.subrange(0, i + 1).drop_last() =~= m.subrange(0, i as int));
        if i > 0 {
            r.append(", ");
        }
        r.append(v[i].as_str());
        proof {
            if i == 0 {
                assert(r@ =~= comma_list(m.subrange(0, 1)));
            }
        }
        i = i + 1;
    }
    assert(m.subrange(0, v@.len() as int) =~= m);
    r
}

fn number_check_and_op(op: &str, left: &str, right: &str) -> (r: String)
    ensures
        r@ == number_check_and_op_spec(op@, left@, right@),
{
    let mut r = String::from_str("(");
    r.append(left);
    r.append("->IsNumber() || ");
    r.append(right);
    r.append("->IsNumber()) ? (Number::New(isolate, ");
    r.append(left);
    r.append("->ToNumber(isolate)->Value() ");
    r.append(op);
    r.append(" ");
    r.append(right);
    r.append("->ToNumber(isolate)->Value())) : Number::New(isolate, std::numeric_limits<double>::quiet_NaN())");
    r
}

fn generate_plus(left: &str, right: &str) -> (r: String)
    ensures
        r@ == plus_spec(left@, right@),
{
    let num = number_check_and_op("+", left, right);
    let mut r = String::from_str("(");
    r.append(left);
    r.append("->IsString() || ");
    r.append(right);
    r.append("->IsString()) ? Local<Value>::Cast(String::Concat(");
    r.append(left);
    r.append("->ToString(), ");
    r.append(right);
    r.append("->ToString())) : Local<Value>::Cast(");
    r.append(num.as_str());
    r.append(")");
    r
}

fn numeric_op_text(op: BinaryOp) -> (r: Option<&'static str>)
    ensures
        match numeric_op(op) {
            Some(t) => r matches Some(s) && s@ == t,
            None => r.is_none(),
        },
{
    match op {
        BinaryOp::Minus => Some("-"),
        BinaryOp::Times => Some("*"),
        BinaryOp::Div => Some("/"),
        BinaryOp::Mod => Some("%"),
        BinaryOp::BitOr => Some("|"),
        BinaryOp::BitXor => Some("^"),
        BinaryOp::BitAnd => Some("&"),
        BinaryOp::LShift => Some("<<"),
        BinaryOp::RShift => Some(">>"),
        BinaryOp::URShift => Some(">>>"),
        _ => None,
    }
}

/// Coercion priority: loose equality of a string and a number takes the
/// string branch, the first type in priority order whose guard holds; strict
/// equality of the same pair takes no branch and falls to the default.
pub proof fn lemma_coercion_priority()
    ensures
        comparison(BinaryOp::Eq) matches Some((t, strict, _, _))
            && branch_taken(t, strict, ValueType::String, ValueType::Number) == Some(ValueType::String),
        comparison(BinaryOp::StrictEq) matches Some((t, strict, _, _))
            && branch_taken(t, strict, ValueType::String, ValueType::Number) is None,
{
    let t = seq![ValueType::String, ValueType::Number, ValueType::Boolean];
    assert(t.drop_first() =~= seq![ValueType::Number, ValueType::Boolean]);
    assert(t.drop_first().drop_first() =~= seq![ValueType::Boolean]);
    assert(t.drop_first().drop_first().drop_first() =~= Seq::<ValueType>::empty());
    assert(branch_taken(t, false, ValueType::String, ValueType::Number) == Some(ValueType::String));
    assert(seq![ValueType::Boolean].drop_first() =~= Seq::<ValueType>::empty());
    assert(seq![ValueType::Number, ValueType::Boolean].drop_first() =~= seq![ValueType::Boolean]);
    assert(branch_taken(Seq::<ValueType>::empty(), true, ValueType::String, ValueType::Number) is None);
    assert(branch_taken(seq![ValueType::Boolean], true, ValueType::String, ValueType::Number) is None);
    assert(branch_taken(seq![ValueType::Number, ValueType::Boolean], true, ValueType::String, ValueType::Number) is None);
    assert(branch_taken(t, true, ValueType::String, ValueType::Number) is None);
}

/// Export completeness: the export table of a program names each top-level
/// named function once, in order of declaration, and never `main`.
pub proof fn lemma_exports_exclude_main(items: Seq<StmtListItem>)
    ensures
        forall|k: int| 0 <= k < exported_names(items).len() ==> exported_names(items)[k] != "main"@,
    decreases items.len(),
{
    if items.len() > 0 {
        lemma_exports_exclude_main(items.drop_last());
        let r = exported_names(items.drop_last());
        let x = item_export(items.last());
        assert(forall|k: int| 0 <= k < x.len() ==> x[k] != "main"@);
        assert(exported_names(items) == r + x);
        assert forall|k: int| 0 <= k < exported_names(items).len() implies exported_names(items)[k] != "main"@ by {
            if k < r.len() {
                assert((r + x)[k] == r[k]);
            } else {
                assert((r + x)[k] == x[k - r.len()]);
            }
        }
    }
}

proof fn lemma_assign_params_frame(g: Gs, depth: nat, params: Seq<Seq<char>>, args: Seq<Seq<char>>, i: nat)
    ensures
        ({
            let g1 = assign_params_spec(g, depth, params, args, i);
            g1.scope == g.scope && g1.funcs == g.funcs && g1.exports == g.exports && g1.use_node == g.use_node
                && lines_kept(g, g1)
        }),
    decreases args.len() - i,
{
    if !(i >= args.len() || i >= params.len()) {
        let g2 = emit(g, depth, params[i as int] + " = "@ + args[i as int] + ";"@);
        lemma_assign_params_frame(g2, depth, params, args, i + 1);
    }
}

/// Tail calls: a self call in tail position is lowered to assignments of
/// the arguments to the parameters and a jump to the entry label, as the
/// last line written; it yields no value and mints no temporary, so the
/// generated code makes no native call for it.
pub proof fn lemma_tail_call_is_jump(g: Gs, depth: nat, parent: Seq<char>, fn_tmp: Seq<char>, args: Seq<Seq<char>>, t: TcoModel)
    ensures
        call_internal_spec(g, depth, parent, fn_tmp, t.name, args, Some(t)) matches Ok((g1, v))
            && v is None
            && g1.scope == g.scope
            && g1.lines.last() == indented(depth, "goto "@ + t.label + ";"@),
{
    lemma_assign_params_frame(g, depth, t.params, args, 0);
}

/// Determinism: new generators of one flavour compile equal programs to the
/// same state, and so write the same lines; names and temporaries are
/// numbered by the order of the walk alone.
pub proof fn lemma_determinism(use_node: bool, a: Script, b: Script)
    requires
        a == b,
    ensures
        program_spec(fresh_state(use_node), a.body) == program_spec(fresh_state(use_node), b.body),
{
}

/// Function scope: after a function declaration, the scope holds exactly
/// the bindings it had plus the function's own name (none for `main`):
/// parameters and locals of the body never leak out. Its counter is the one
/// reached in the body, no smaller than before the declaration plus the
/// name it bound, so no identifier minted in the body is minted again.
pub proof fn lemma_function_scope(g: Gs, d: nat, f: Fun, top: bool)
    ensures
        fun_spec(g, d, f, top) matches Ok((g1, _)) ==> {
            &&& f.id is Some
            &&& g1.scope.bindings == if f.id->Some_0@ == "main"@ {
                g.scope.bindings
            } else {
                g.scope.bindings.push((f.id->Some_0@, fresh_name(f.id->Some_0@, g.scope.counter)))
            }
        },
{
}

} // verus!
