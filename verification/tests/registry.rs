use gl_generator::registry::{find_fallbacks, AliasEntry, Binding, Cmd};
use gl_generator::{Api, GenerationError, Generator, GlobalTypedGenerator, Registry, RuleSet, TypeTemplates};

fn aliases() -> Vec<AliasEntry> {
    vec![
        AliasEntry { name: "Clear".to_string(), fallbacks: vec!["ClearEXT".to_string()] },
        AliasEntry { name: "Flush".to_string(), fallbacks: vec![] },
        AliasEntry { name: "Clear".to_string(), fallbacks: vec!["ClearARB".to_string()] },
    ]
}

#[test]
fn fallbacks_are_those_of_the_first_entry() {
    let table = aliases();
    assert_eq!(find_fallbacks(&table, "Clear"), Some(&vec!["ClearEXT".to_string()]));
    assert_eq!(find_fallbacks(&table, "Flush"), Some(&vec![]));
    assert_eq!(find_fallbacks(&table, "Finish"), None);
    assert_eq!(find_fallbacks(&table, "clear"), None);
    assert_eq!(find_fallbacks(&vec![], "Clear"), None);
}

#[test]
fn bindings_and_commands_are_cloned_field_by_field() {
    let b = Binding::new("mask", "types::GLbitfield");
    assert_eq!(b.ident, "mask");
    assert_eq!(b.ty, "types::GLbitfield");
    assert_eq!(b.clone(), b);
    let c = Cmd { proto: Binding::new("Clear", "()"), params: vec![b.clone(), Binding::new("x", "T")] };
    let d = c.clone();
    assert_eq!(d, c);
    assert_eq!(d.params.len(), 2);
    assert_eq!(d.params[1], Binding::new("x", "T"));
}

#[test]
fn crate_root_offers_the_main_items() {
    let registry = Registry {
        api: Api::Gles2,
        enums: vec![],
        cmds: vec![],
        aliases: vec![],
        types: TypeTemplates {
            gl: "pub type GLenum = u32;".to_string(),
            glx: String::new(),
            wgl: String::new(),
            egl: String::new(),
        },
        trace_calls: false,
    };
    let mut dest = String::new();
    assert_eq!(GlobalTypedGenerator.write(&registry, &mut dest), Ok(()));
    assert!(dest.contains("pub type GLenum = u32;\n"));
    assert!(dest.contains("panic!(\"gles2 function was not loaded\")"));
    assert_eq!(RuleSet::standard().check(), Ok::<(), GenerationError>(()));
}
