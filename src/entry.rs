//! The JavaScript entry stub of a Node.js program: it loads the built
//! extension and runs its entry point.

use vstd::prelude::*;

verus! {

/// The JavaScript stub that loads the built extension and runs its entry point.
pub open spec fn node_entry(module: Seq<char>) -> Seq<char> {
    "require(\"./build/Release/"@ + module + "\").jsc_main();\n"@
}

/// The text of the JavaScript entry stub for a module.
pub fn generate(module: &str) -> (r: String)
    ensures
        r@ == node_entry(module@),
{
    let mut r = String::from_str("require(\"./build/Release/");
    r.append(module);
    r.append("\").jsc_main();\n");
    r
}

} // verus!
