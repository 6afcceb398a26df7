//! What the build around the generated code needs: the node-gyp build
//! descriptor and the compiler arguments of a standalone build.

use vstd::prelude::*;

verus! {

/// One node-gyp target: a module compiled from its generated C++ file.
pub struct GypTarget {
    pub target_name: String,
    pub sources: Vec<String>,
}

/// A node-gyp build descriptor.
pub struct GypBinding {
    pub targets: Vec<GypTarget>,
}

/// The C++ file generated for a module.
pub open spec fn source_file(module: Seq<char>) -> Seq<char> {
    module + ".cc"@
}

fn source_file_exec(module: &str) -> (r: String)
    ensures
        r@ == source_file(module@),
{
    let mut r = String::from_str(module);
    r.append(".cc");
    r
}

/// The build descriptor with one target per module, in order, each built
/// from the module's generated C++ file.
pub fn generate_binding(modules: &Vec<String>) -> (r: GypBinding)
    ensures
        r.targets@.len() == modules@.len(),
        forall|i: int| 0 <= i < modules@.len() ==> {
            &&& (#[trigger] r.targets@[i]).target_name@ == modules@[i]@
            &&& r.targets@[i].sources@.len() == 1
            &&& r.targets@[i].sources@[0]@ == source_file(modules@[i]@)
        },
{
    let mut targets: Vec<GypTarget> = Vec::new();
    let mut i: usize = 0;
    while i < modules.len()
        invariant
            i <= modules@.len(),
            targets@.len() == i,
            forall|j: int| 0 <= j < i ==> {
                &&& (#[trigger] targets@[j]).target_name@ == modules@[j]@
                &&& targets@[j].sources@.len() == 1
                &&& targets@[j].sources@[0]@ == source_file(modules@[j]@)
            },
        decreases modules@.len() - i,
    {
        let sources = vec![source_file_exec(modules[i].as_str())];
        targets.push(GypTarget { target_name: modules[i].clone(), sources });
        i = i + 1;
    }
    GypBinding { targets }
}

/// The compiler arguments of a standalone build: the generated C++ files of
/// the modules, then the output named after the first module and the flags.
pub fn standalone_args(modules: &Vec<String>) -> (r: Vec<String>)
    requires
        modules@.len() > 0,
    ensures
        r@.len() == modules@.len() + 6,
        forall|i: int| 0 <= i < modules@.len() ==> (#[trigger] r@[i])@ == source_file(modules@[i]@),
        r@[modules@.len() as int]@ == "-o"@,
        r@[modules@.len() + 1int]@ == modules@[0]@,
        r@[modules@.len() + 2int]@ == "-I/usr/local/Cellar/node/11.1.0/include/node"@,
        r@[modules@.len() + 3int]@ == "-ldl"@,
        r@[modules@.len() + 4int]@ == "-pthread"@,
        r@[modules@.len() + 5int]@ == "-std=c++0x"@,
{
    let mut r: Vec<String> = Vec::new();
    let mut i: usize = 0;
    while i < modules.len()
        invariant
            i <= modules@.len(),
            r@.len() == i,
            forall|j: int| 0 <= j < i ==> (#[trigger] r@[j])@ == source_file(modules@[j]@),
        decreases modules@.len() - i,
    {
        r.push(source_file_exec(modules[i].as_str()));
        i = i + 1;
    }
    r.push(String::from_str("-o"));
    r.push(modules[0].clone());
    r.push(String::from_str("-I/usr/local/Cellar/node/11.1.0/include/node"));
    r.push(String::from_str("-ldl"));
    r.push(String::from_str("-pthread"));
    r.push(String::from_str("-std=c++0x"));
    r
}

} // verus!
