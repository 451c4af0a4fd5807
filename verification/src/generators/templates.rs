//! The fixed text of the emitted bindings, piece by piece.  Between the
//! pieces stand the names that a registry supplies.

use vstd::prelude::*;

verus! {

/// The preamble: what the bindings import.
pub const HEADER: &'static str =
    "\n#![allow(unused_parens, non_snake_case, dead_code, non_upper_case_globals, unused_variables, dead_code)]\nmod __gl_imports {\n    pub use std::mem;\n    pub use std::os::raw;\n}\n";

/// The helper that asks a resolver for a symbol, then for its fallback names
/// in order until one is found.
pub const METALOADFN: &'static str =
    "\n#[inline(never)]\nfn metaloadfn(loadfn: &mut dyn FnMut(&'static str) -> *const __gl_imports::raw::c_void,\n              symbol: &'static str,\n              fallbacks: &[&'static str]) -> *const __gl_imports::raw::c_void {\n    let mut ptr = loadfn(symbol);\n    if ptr.is_null() {\n        for &sym in fallbacks {\n            ptr = loadfn(sym);\n            if !ptr.is_null() { break; }\n        }\n    }\n    ptr\n}\n\n";

/// Opens the namespace of the native type aliases.
pub const TYPES_HEAD: &'static str =
    "\npub mod types {\n    #![allow(non_camel_case_types, non_snake_case, dead_code, missing_copy_implementations)]\n    \n";

/// Closes the namespace of the native type aliases.
pub const TYPES_END: &'static str = "\n}\n    \n";

/// What leads from the bindings to the namespace of the native types.
pub const TYPES_PREFIX: &'static str = "types::";

/// The type of a slot: the address to call and whether it was resolved.
pub const FNPTR_STRUCT: &'static str =
    "\n#[allow(missing_copy_implementations)]\npub struct FnPtr {\n    /// The function pointer that will be used when calling the function.\n    f: *const __gl_imports::raw::c_void,\n    /// True if the pointer points to a real function, false if points to a `panic!` fn.\n    is_loaded: bool,\n}\n\nimpl FnPtr {\n    /// Creates a `FnPtr` from a load attempt.\n    pub fn new(ptr: *const __gl_imports::raw::c_void) -> FnPtr {\n        if ptr.is_null() {\n            FnPtr { f: missing_fn_panic as *const __gl_imports::raw::c_void, is_loaded: false }\n        } else {\n            FnPtr { f: ptr, is_loaded: true }\n        }\n    }\n}\n    \n";

/// Opens the symbol table.
pub const STORAGE_HEAD: &'static str =
    "mod storage {\n            #![allow(non_snake_case)]\n            #![allow(non_upper_case_globals)]\n            use super::__gl_imports::raw;\n            use super::FnPtr;\n";

/// Begins a slot; the command's name follows.
pub const SLOT_HEAD: &'static str = "pub static mut ";

/// Ends a slot: it is unresolved and targets the stub.
pub const SLOT_END: &'static str =
    ": FnPtr = FnPtr {\n                f: super::missing_fn_panic as *const raw::c_void,\n                is_loaded: false\n            };\n";

/// Closes the symbol table.
pub const STORAGE_END: &'static str = "}\n";

/// Begins the loader of a command; the command's name follows.
pub const LOADER_HEAD: &'static str =
    "\n            #[allow(non_snake_case)]\n            pub mod ";

/// Opens the loader and begins its query; the slot's name follows.
pub const LOADER_USES: &'static str =
    " {\n                use super::{storage, metaloadfn};\n                use super::__gl_imports::raw;\n                use super::FnPtr;\n\n                #[inline]\n                #[allow(dead_code)]\n                pub fn is_loaded() -> bool {\n                    unsafe { storage::";

/// Ends the query and begins the load operation; the canonical symbol follows.
pub const LOADER_LOAD: &'static str =
    ".is_loaded }\n                }\n\n                #[allow(dead_code)]\n                pub fn load_with<F>(mut loadfn: F) where F: FnMut(&'static str) -> *const raw::c_void {\n                    unsafe {\n                        let ptr = metaloadfn(&mut loadfn, \"";

/// Follows the canonical symbol; the list of fallback symbols follows.
pub const LOADER_FALLBACKS: &'static str = "\", ";

/// Ends the search; what follows stores an address that was found, and the
/// slot's name comes next.
pub const LOADER_STORE: &'static str =
    ");\n                        if !ptr.is_null() {\n                            storage::";

/// Ends the load operation and the loader.
pub const LOADER_END: &'static str =
    " = FnPtr::new(ptr);\n                        }\n                    }\n                }\n            }\n        \n";

/// Encloses a symbol.
pub const QUOTE: &'static str = "\"";

/// Opens the list of fallback symbols.
pub const LIST_OPEN: &'static str = "&[";

/// Closes the list of fallback symbols.
pub const LIST_CLOSE: &'static str = "]";

/// The list of fallback symbols of a command that has none.
pub const NO_FALLBACKS: &'static str = "&[]";

/// The stub that every slot targets until it is resolved: calling it is fatal.
pub const STUB_HEAD: &'static str =
    "#[inline(never)]\n        fn missing_fn_panic() -> ! {\n            panic!(\"";

/// Follows the family's name in the stub's message.
pub const STUB_END: &'static str = " function was not loaded\")\n        }\n        \n";

/// Begins the function that loads every command.
pub const LOAD_FN_HEAD: &'static str =
    "\n        /// Load each OpenGL symbol using a custom load function. This allows for the\n        /// use of functions like `glfwGetProcAddress` or `SDL_GL_GetProcAddress`.\n        /// ~~~ignore\n        /// gl::load_with(|s| glfw.get_proc_address(s));\n        /// ~~~\n        #[allow(dead_code)]\n        pub fn load_with<F>(mut loadfn: F) where F: FnMut(&'static str) -> *const __gl_imports::raw::c_void {\n    \n";

/// Follows a command's name in the call of its loader.
pub const LOAD_CALL_END: &'static str = "::load_with(&mut loadfn);\n";

/// Ends the function that loads every command.
pub const LOAD_FN_END: &'static str = "\n        }\n    \n";

/// Opens a tuple or a list of parameters.
pub const OPEN: &'static str = "(";

/// Closes a tuple or a list of parameters.
pub const CLOSE: &'static str = ")";

/// Stands between the items of a list.
pub const COMMA: &'static str = ", ";

/// How far the setup statements of a wrapper are indented.
pub const INDENT: &'static str = "                    ";

/// A line break inside a rule's statements, as it is emitted.
pub const INDENTED_NEWLINE: &'static str = "\n                    ";

/// Precedes an argument that a trace formats.
pub const REFERENCE: &'static str = "&";

/// Begins the statement that formats a trace; the command's name follows.
pub const TRACE_INIT_HEAD: &'static str = "\nlet debug_string = format!(\"gl";

/// Where the format of a trace takes the arguments.
pub const TRACE_FORMAT: &'static str = "{:?}";

/// Ends the format of a trace; the arguments follow.
pub const TRACE_INIT_MID: &'static str = "\", (";

/// Ends the statement that formats a trace.
pub const TRACE_INIT_END: &'static str = "));";

/// Prints the trace of a command that returns nothing.
pub const TRACE_PRINT: &'static str = "\nprintln!(\"{}\", debug_string);";

/// Begins the statement that prints a trace with what was returned.
pub const TRACE_PRINT_RESULT_HEAD: &'static str = "\nprintln!(\"{} -> {:?}\", debug_string, ";

/// Ends the statement that prints a trace with what was returned.
pub const TRACE_PRINT_RESULT_END: &'static str = ");";

/// Begins the comment that lists the fallback names of a command.
pub const FALLBACKS_HEAD: &'static str = "            /// Fallbacks: ";

/// Begins a wrapper; its name follows.
pub const FN_HEAD: &'static str = "#[inline]\npub fn ";

/// Stands between parameters and return type.
pub const ARROW: &'static str = ") -> ";

/// Opens the body of a wrapper.
pub const BODY_HEAD: &'static str = " {\nunsafe {";

/// Begins the call through the slot: the slot is taken at the native
/// signature, whose parameter types follow.
pub const CALL_HEAD: &'static str =
    "\nlet func_retv = __gl_imports::mem::transmute::<_, extern \"system\" fn(";

/// Follows the native return type; the slot's name follows.
pub const CALL_STORAGE: &'static str = ">(storage::";

/// Follows the slot's name; the arguments follow.
pub const CALL_SLOT: &'static str = ".f)(";

/// Ends the call through the slot.
pub const CALL_END: &'static str = ");";

/// Closes the body of a wrapper.
pub const BODY_END: &'static str = "\n}\n}\n";

} // verus!
