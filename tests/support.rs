use jsc::scope::Scope;
use jsc::targets::{generate_binding, standalone_args};
use jsc::text::{indent, usize_text};

#[test]
fn register_gives_fresh_names_and_shadows() {
    let mut outer = Scope::new();
    let a = outer.register("x");
    let mut inner = outer.child();
    let b = inner.register("x");
    assert_eq!(a, "x_0");
    assert_eq!(b, "x_1");
    assert_eq!(inner.lookup("x"), Some("x_1".to_string()));
    assert_eq!(outer.lookup("x"), Some("x_0".to_string()));
    assert_eq!(outer.lookup("y"), None);
    let t = inner.fresh("arg");
    assert_eq!(t, "arg_2");
    assert_eq!(inner.lookup("arg"), None);
}

#[test]
fn indent_uses_two_blanks_per_level() {
    assert_eq!(indent(0, "x"), "x\n");
    assert_eq!(indent(2, "return;"), "    return;\n");
}

#[test]
fn decimal_text() {
    assert_eq!(usize_text(0), "0");
    assert_eq!(usize_text(1207), "1207");
    assert_eq!(usize_text(usize::MAX), usize::MAX.to_string());
}

#[test]
fn binding_has_one_target_per_module() {
    let b = generate_binding(&vec!["app".to_string(), "lib".to_string()]);
    assert_eq!(b.targets.len(), 2);
    assert_eq!(b.targets[0].target_name, "app");
    assert_eq!(b.targets[0].sources, vec!["app.cc".to_string()]);
    assert_eq!(b.targets[1].sources, vec!["lib.cc".to_string()]);
}

#[test]
fn node_entry_requires_the_extension() {
    assert_eq!(jsc::entry::generate("prog"), "require(\"./build/Release/prog\").jsc_main();\n");
}

#[test]
fn standalone_arguments() {
    let args = standalone_args(&vec!["prog".to_string()]);
    assert_eq!(
        args,
        vec!["prog.cc", "-o", "prog", "-I/usr/local/Cellar/node/11.1.0/include/node", "-ldl", "-pthread", "-std=c++0x"]
    );
}
