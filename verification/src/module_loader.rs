//! The module loader's policy: only modules registered in its table can be
//! resolved or loaded, and a refused request is answered with a fixed message.
use crate::module_map::ModuleMap;
use vstd::prelude::*;

verus! {

/// The answer to a request for a module outside the allowlist.
pub open spec fn not_allowed_text(specifier: Seq<char>) -> Seq<char> {
    "module not allowed: "@ + specifier
}

/// A module loader that serves only the modules of its table.
pub struct AllowlistModuleLoader {
    modules: ModuleMap,
}

impl AllowlistModuleLoader {
    /// The modules that this loader serves, by specifier.
    pub closed spec fn allowed(&self) -> Map<Seq<char>, Seq<char>> {
        self.modules@
    }

    /// A loader that serves exactly the modules of `modules`.
    pub fn new(modules: ModuleMap) -> (res: Self)
        ensures
            res.allowed() == modules@,
    {
        AllowlistModuleLoader { modules }
    }

    /// The message that refuses `specifier`.
    pub fn not_allowed_message(specifier: &str) -> (res: String)
        ensures
            res@ == not_allowed_text(specifier@),
    {
        String::from_str("module not allowed: ").concat(specifier)
    }

    /// Decides whether `specifier` may be resolved: it may when it is in the
    /// table, and is refused with the not-allowed message otherwise.
    pub fn check_resolve(&self, specifier: &str) -> (res: Result<(), String>)
        ensures
            res is Ok <==> self.allowed().contains_key(specifier@),
            res matches Err(msg) ==> msg@ == not_allowed_text(specifier@),
    {
        if self.modules.contains_key(specifier) {
            Ok(())
        } else {
            Err(Self::not_allowed_message(specifier))
        }
    }

    /// The source of `specifier` when it is in the table; the not-allowed
    /// message otherwise.
    pub fn load_source(&self, specifier: &str) -> (res: Result<String, String>)
        ensures
            res is Ok <==> self.allowed().contains_key(specifier@),
            res matches Ok(source) ==> source@ == self.allowed()[specifier@],
            res matches Err(msg) ==> msg@ == not_allowed_text(specifier@),
    {
        match self.modules.get(specifier) {
            Some(source) => Ok(source.clone()),
            None => Err(Self::not_allowed_message(specifier)),
        }
    }
}

} // verus!
