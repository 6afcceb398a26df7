//! Prints syntax trees back as JavaScript source, and writes source as C++
//! comment lines into an output sink.

use vstd::prelude::*;
use crate::ast::{AssignPatt, AssignTarget, Dtor, Expr, Stmt, binop_spec, assop_spec};
use crate::cg::{comma_join, comma_list};
use crate::text::{indent, indented, push_char};

verus! {

/// The source text of an expression.
pub open spec fn expr_source(e: Expr) -> Seq<char>
    decreases e,
{
    match e {
        Expr::Call(c, args) => expr_source(*c) + "("@ + comma_list(expr_sources(args@)) + ")"@,
        Expr::Null => "null"@,
        Expr::Id(n) => n@,
        Expr::Str(v) => v@,
        Expr::Number(t) => t@,
        Expr::Binop(op, a, b) => binop_spec(op) + " "@ + expr_source(*a) + " "@ + expr_source(*b),
        Expr::Dot(o, k) => expr_source(*o) + "."@ + k@,
        Expr::Assign(op, patt, body) => match patt {
            AssignPatt::Simple(t) => target_source(t) + " "@ + assop_spec(op) + " "@ + expr_source(*body),
            AssignPatt::Destructuring => seq![],
        },
        Expr::True => "true"@,
        Expr::False => "false"@,
        Expr::Arr(els) => "["@ + comma_list(present_sources(els@)) + "]"@,
        Expr::Brack(o, k) => expr_source(*o) + "["@ + expr_source(*k) + "]"@,
        Expr::Other(_) => seq![],
    }
}

/// The source text of an assignment target.
pub open spec fn target_source(t: AssignTarget) -> Seq<char>
    decreases t,
{
    match t {
        AssignTarget::Id(n) => n@,
        AssignTarget::Dot(o, k) => expr_source(*o) + "."@ + k@,
        AssignTarget::Brack(o, k) => expr_source(*o) + "["@ + expr_source(*k) + "]"@,
    }
}

/// The source texts of a list of expressions.
pub open spec fn expr_sources(s: Seq<Expr>) -> Seq<Seq<char>>
    decreases s,
{
    if s.len() == 0 {
        seq![]
    } else {
        expr_sources(s.drop_last()).push(expr_source(s.last()))
    }
}

/// The source texts of the elements of an array literal, holes left out.
pub open spec fn present_sources(s: Seq<Option<Expr>>) -> Seq<Seq<char>>
    decreases s,
{
    if s.len() == 0 {
        seq![]
    } else {
        match s.last() {
            Some(x) => present_sources(s.drop_last()).push(expr_source(x)),
            None => present_sources(s.drop_last()),
        }
    }
}

/// One declarator of a `var` declaration.
pub open spec fn declarator_source(d: Dtor) -> Seq<char> {
    match d {
        Dtor::Simple(n, Some(v)) => n@ + " = "@ + expr_source(v),
        Dtor::Simple(n, None) => n@,
        Dtor::Destructuring => "<compound-assignment-printer-unsupport>"@,
    }
}

/// The declarators of a `var` declaration.
pub open spec fn declarator_sources(s: Seq<Dtor>) -> Seq<Seq<char>>
    decreases s.len(),
{
    if s.len() == 0 {
        seq![]
    } else {
        declarator_sources(s.drop_last()).push(declarator_source(s.last()))
    }
}

/// The items of `s` separated by `",  \n"`.
pub open spec fn declarator_list(s: Seq<Seq<char>>) -> Seq<char>
    decreases s.len(),
{
    if s.len() == 0 {
        seq![]
    } else if s.len() == 1 {
        s[0]
    } else {
        declarator_list(s.drop_last()) + ",  \n"@ + s.last()
    }
}

/// The comment lines for `s[i..]`, `cur` holding the text of the line
/// begun before `i`: each non-empty line of source becomes `// line` at the
/// given depth.
pub open spec fn comment_lines(depth: nat, s: Seq<char>, i: nat, cur: Seq<char>) -> Seq<Seq<char>>
    decreases s.len() - i,
{
    let here = if cur.len() > 0 { seq![indented(depth, "// "@ + cur)] } else { seq![] };
    if i >= s.len() {
        here
    } else if s[i as int] == '\n' {
        here + comment_lines(depth, s, i + 1, seq![])
    } else {
        comment_lines(depth, s, i + 1, cur.push(s[i as int]))
    }
}

/// Things that print as JavaScript source.
pub trait Printer {
    spec fn source(&self) -> Seq<char>;

    fn print(&self, depth: usize) -> (r: String)
        ensures
            r@ == self.source();
}

fn print_expr(e: &Expr) -> (r: String)
    ensures
        r@ == expr_source(*e),
    decreases e,
{
    match e {
        Expr::Call(c, args) => {
            let mut r = print_expr(c);
            r.append("(");
            let items = print_list(e, args);
            let joined = comma_join(&items);
            r.append(joined.as_str());
            r.append(")");
            r
        },
        Expr::Null => String::from_str("null"),
        Expr::Id(n) => n.clone(),
        Expr::Str(v) => v.clone(),
        Expr::Number(t) => t.clone(),
        Expr::Binop(op, a, b) => {
            let mut r = String::from_str(op.text());
            r.append(" ");
            let x = print_expr(a);
            r.append(x.as_str());
            r.append(" ");
            let y = print_expr(b);
            r.append(y.as_str());
            r
        },
        Expr::Dot(o, k) => {
            let mut r = print_expr(o);
            r.append(".");
            r.append(k.as_str());
            r
        },
        Expr::Assign(op, patt, body) => match patt {
            AssignPatt::Simple(t) => {
                let mut r = print_target(t);
                r.append(" ");
                r.append(op.text());
                r.append(" ");
                let v = print_expr(body);
                r.append(v.as_str());
                r
            },
            AssignPatt::Destructuring => String::new(),
        },
        Expr::True => String::from_str("true"),
        Expr::False => String::from_str("false"),
        Expr::Arr(els) => {
            let mut r = String::from_str("[");
            let items = print_present(e, els);
            let joined = comma_join(&items);
            r.append(joined.as_str());
            r.append("]");
            r
        },
        Expr::Brack(o, k) => {
            let mut r = print_expr(o);
            r.append("[");
            let x = print_expr(k);
            r.append(x.as_str());
            r.append("]");
            r
        },
        Expr::Other(_) => String::new(),
    }
}

fn print_target(t: &AssignTarget) -> (r: String)
    ensures
        r@ == target_source(*t),
    decreases t,
{
    match t {
        AssignTarget::Id(n) => n.clone(),
        AssignTarget::Dot(o, k) => {
            let mut r = print_expr(o);
            r.append(".");
            r.append(k.as_str());
            r
        },
        AssignTarget::Brack(o, k) => {
            let mut r = print_expr(o);
            r.append("[");
            let x = print_expr(k);
            r.append(x.as_str());
            r.append("]");
            r
        },
    }
}

fn print_list(e: &Expr, args: &Vec<Expr>) -> (r: Vec<String>)
    requires
        e is Call && e->Call_1 == *args,
    ensures
        r@.map_values(|s: String| s@) == expr_sources(args@),
    decreases e, 0nat,
{
    let mut r: Vec<String> = Vec::new();
    let mut i: usize = 0;
    assert(args@.subrange(0, 0) =~= Seq::<Expr>::empty());
    assert(r@.map_values(|s: String| s@) =~= Seq::<Seq<char>>::empty());
    while i < args.len()
        invariant
            e is Call && e->Call_1 == *args,
            i <= args@.len(),
            r@.map_values(|s: String| s@) == expr_sources(args@.subrange(0, i as int)),
        decreases args@.len() - i,
    {
        proof {
            assert(decreases_to!(*e => e->Call_1));
            assert(decreases_to!(e->Call_1 => e->Call_1@));
            assert(decreases_to!(e->Call_1@ => e->Call_1@[i as int]));
            assert(args@.subrange(0, i + 1).drop_last() =~= args@.subrange(0, i as int));
        }
        let x = print_expr(&args[i]);
        let ghost before = r@;
        r.push(x);
        assert(r@.map_values(|s: String| s@) =~= before.map_values(|s: String| s@).push(x@));
        i = i + 1;
    }
    assert(args@.subrange(0, args@.len() as int) =~= args@);
    r
}

fn print_present(e: &Expr, els: &Vec<Option<Expr>>) -> (r: Vec<String>)
    requires
        e is Arr && e->Arr_0 == *els,
    ensures
        r@.map_values(|s: String| s@) == present_sources(els@),
    decreases e, 0nat,
{
    let mut r: Vec<String> = Vec::new();
    let mut i: usize = 0;
    assert(els@.subrange(0, 0) =~= Seq::<Option<Expr>>::empty());
    assert(r@.map_values(|s: String| s@) =~= Seq::<Seq<char>>::empty());
    while i < els.len()
        invariant
            e is Arr && e->Arr_0 == *els,
            i <= els@.len(),
            r@.map_values(|s: String| s@) == present_sources(els@.subrange(0, i as int)),
        decreases els@.len() - i,
    {
        proof {
            assert(decreases_to!(*e => e->Arr_0));
            assert(decreases_to!(e->Arr_0 => e->Arr_0@));
            assert(decreases_to!(e->Arr_0@ => e->Arr_0@[i as int]));
            assert(els@.subrange(0, i + 1).drop_last() =~= els@.subrange(0, i as int));
        }
        match &els[i] {
            Some(x) => {
                proof {
                    assert(decreases_to!(e->Arr_0@[i as int] => e->Arr_0@[i as int]->Some_0));
                }
                let t = print_expr(x);
                let ghost before = r@;
                r.push(t);
                assert(r@.map_values(|s: String| s@) =~= before.map_values(|s: String| s@).push(t@));
            },
            None => {},
        }
        i = i + 1;
    }
    assert(els@.subrange(0, els@.len() as int) =~= els@);
    r
}

fn print_declarator(d: &Dtor) -> (r: String)
    ensures
        r@ == declarator_source(*d),
{
    match d {
        Dtor::Simple(n, Some(v)) => {
            let mut r = n.clone();
            r.append(" = ");
            let x = print_expr(v);
            r.append(x.as_str());
            r
        },
        Dtor::Simple(n, None) => n.clone(),
        Dtor::Destructuring => String::from_str("<compound-assignment-printer-unsupport>"),
    }
}

impl Printer for Expr {
    open spec fn source(&self) -> Seq<char> {
        expr_source(*self)
    }

    fn print(&self, depth: usize) -> (r: String) {
        print_expr(self)
    }
}

impl Printer for AssignTarget {
    open spec fn source(&self) -> Seq<char> {
        target_source(*self)
    }

    fn print(&self, depth: usize) -> (r: String) {
        print_target(self)
    }
}

impl Printer for Vec<Dtor> {
    /// A `var` declaration of the declarators.
    open spec fn source(&self) -> Seq<char> {
        "var "@ + declarator_list(declarator_sources(self@)) + ";"@
    }

    fn print(&self, depth: usize) -> (r: String) {
        let mut r = String::from_str("var ");
        let mut list = String::new();
        let mut i: usize = 0;
        assert(self@.subrange(0, 0) =~= Seq::<Dtor>::empty());
        while i < self.len()
            invariant
                i <= self@.len(),
                list@ == declarator_list(declarator_sources(self@.subrange(0, i as int))),
            decreases self@.len() - i,
        {
            let ghost sub = self@.subrange(0, i + 1);
            assert(sub.drop_last() =~= self@.subrange(0, i as int));
            assert(declarator_sources(sub).drop_last() =~= declarator_sources(self@.subrange(0, i as int)));
            if i > 0 {
                list.append(",  \n");
            }
            let d = print_declarator(&self[i]);
            list.append(d.as_str());
            proof {
                if i == 0 {
                    assert(list@ =~= declarator_list(declarator_sources(sub)));
                }
            }
            i = i + 1;
        }
        assert(self@.subrange(0, self@.len() as int) =~= self@);
        r.append(list.as_str());
        r.append(";");
        r
    }
}

impl Printer for Dtor {
    /// A `let` declaration of the one declarator.
    open spec fn source(&self) -> Seq<char> {
        match *self {
            Dtor::Simple(n, Some(v)) => "let "@ + n@ + " = "@ + expr_source(v) + ";"@,
            Dtor::Simple(n, None) => "let "@ + n@ + ";"@,
            Dtor::Destructuring => "<compound-assignment-printer-unsupport>"@,
        }
    }

    fn print(&self, depth: usize) -> (r: String) {
        match self {
            Dtor::Simple(n, Some(v)) => {
                let mut r = String::from_str("let ");
                r.append(n.as_str());
                r.append(" = ");
                let x = print_expr(v);
                r.append(x.as_str());
                r.append(";");
                r
            },
            Dtor::Simple(n, None) => {
                let mut r = String::from_str("let ");
                r.append(n.as_str());
                r.append(";");
                r
            },
            Dtor::Destructuring => String::from_str("<compound-assignment-printer-unsupport>"),
        }
    }
}

impl Printer for Stmt {
    /// An expression statement prints as its expression, a declaration and a
    /// return as written; other statements print as nothing.
    open spec fn source(&self) -> Seq<char> {
        match *self {
            Stmt::Expr(e) => expr_source(e),
            Stmt::Var(ds) => "var "@ + declarator_list(declarator_sources(ds@)) + ";"@,
            Stmt::Return(Some(e)) => "return "@ + expr_source(e) + ";"@,
            Stmt::Return(None) => "return;"@,
            _ => seq![],
        }
    }

    fn print(&self, depth: usize) -> (r: String) {
        match self {
            Stmt::Expr(e) => print_expr(e),
            Stmt::Var(ds) => ds.print(depth),
            Stmt::Return(Some(e)) => {
                let mut r = String::from_str("return ");
                let x = print_expr(e);
                r.append(x.as_str());
                r.append(";");
                r
            },
            Stmt::Return(None) => String::from_str("return;"),
            _ => String::new(),
        }
    }
}

/// Writes the source of `printable` into `out` as C++ comments: one line
/// `// text` at the given depth for each non-empty line of the source.
pub fn print_source<P: Printer>(depth: usize, printable: &P, out: &mut Vec<String>)
    ensures
        final(out)@.map_values(|s: String| s@)
            == old(out)@.map_values(|s: String| s@) + comment_lines(depth as nat, printable.source(), 0, seq![]),
{
    let source = printable.print(0);
    let n = source.as_str().unicode_len();
    let ghost s = source@;
    let ghost base = old(out)@.map_values(|s: String| s@);
    let mut cur = String::new();
    let mut i: usize = 0;
    assert(base + comment_lines(depth as nat, s, 0, seq![]) =~= out@.map_values(|s: String| s@) + comment_lines(depth as nat, s, 0, cur@));
    while i < n
        invariant
            n == s.len(),
            s == source@,
            i <= n,
            base + comment_lines(depth as nat, s, 0, seq![])
                =~= out@.map_values(|s: String| s@) + comment_lines(depth as nat, s, i as nat, cur@),
        decreases n - i,
    {
        let c = source.as_str().get_char(i);
        if c == '\n' {
            if cur.as_str().unicode_len() > 0 {
                let mut line = String::from_str("// ");
                line.append(cur.as_str());
                let l = indent(depth, line.as_str());
                let ghost before = out@.map_values(|s: String| s@);
                out.push(l);
                assert(out@.map_values(|s: String| s@) =~= before.push(l@));
            }
            cur = String::new();
        } else {
            push_char(&mut cur, c);
        }
        i = i + 1;
    }
    if cur.as_str().unicode_len() > 0 {
        let mut line = String::from_str("// ");
        line.append(cur.as_str());
        let l = indent(depth, line.as_str());
        let ghost before = out@.map_values(|s: String| s@);
        out.push(l);
        assert(out@.map_values(|s: String| s@) =~= before.push(l@));
    }
}

} // verus!
