use std::cell::RefCell;

use gl_generator::loader::{metaloadfn, Entry, Slot, SymbolTable};
use gl_generator::registry::{AliasEntry, Api, Binding, Cmd, Registry, TypeTemplates};

fn entry(symbol: &str, fallbacks: &[&str]) -> Entry {
    Entry {
        symbol: symbol.to_string(),
        fallbacks: fallbacks.iter().map(|s| s.to_string()).collect(),
        slot: Slot::new(),
    }
}

fn registry(api: Api, names: &[&str], aliases: Vec<AliasEntry>) -> Registry {
    Registry {
        api,
        enums: vec![],
        cmds: names.iter().map(|n| Cmd { proto: Binding::new(n, "()"), params: vec![] }).collect(),
        aliases,
        types: TypeTemplates {
            gl: String::new(),
            glx: String::new(),
            wgl: String::new(),
            egl: String::new(),
        },
        trace_calls: false,
    }
}

#[test]
fn new_slot_is_unresolved() {
    let slot = Slot::new();
    assert_eq!(slot, Slot::Unresolved);
    assert!(!slot.is_loaded());
    assert_eq!(slot.address(), None);
}

#[test]
fn store_keeps_the_first_state_when_nothing_was_found() {
    let mut slot = Slot::new();
    slot.store(None);
    assert_eq!(slot, Slot::Unresolved);
    slot.store(Some(0x10));
    assert_eq!(slot, Slot::Resolved(0x10));
    assert!(slot.is_loaded());
    assert_eq!(slot.address(), Some(0x10));
    assert_eq!(slot.target(), 0x10);
    slot.store(None);
    assert_eq!(slot, Slot::Resolved(0x10));
    slot.store(Some(0x20));
    assert_eq!(slot, Slot::Resolved(0x20));
}

#[test]
fn fallbacks_are_tried_in_order() {
    let asked = RefCell::new(Vec::new());
    let resolver = |name: &str| {
        asked.borrow_mut().push(name.to_string());
        if name == "baz" {
            Some(0xbeef)
        } else {
            None
        }
    };
    let mut e = entry("foo", &["bar", "baz"]);
    e.load_with(&resolver);
    assert_eq!(e.slot, Slot::Resolved(0xbeef));
    assert!(e.is_loaded());
    assert_eq!(*asked.borrow(), vec!["foo".to_string(), "bar".to_string(), "baz".to_string()]);
}

#[test]
fn nothing_found_leaves_the_stub() {
    let asked = RefCell::new(Vec::new());
    let resolver = |name: &str| {
        asked.borrow_mut().push(name.to_string());
        None
    };
    let mut e = entry("foo", &["bar", "baz"]);
    e.load_with(&resolver);
    assert_eq!(e.slot, Slot::Unresolved);
    assert!(!e.is_loaded());
    assert_eq!(*asked.borrow(), vec!["foo".to_string(), "bar".to_string(), "baz".to_string()]);
}

#[test]
fn search_stops_at_the_first_address() {
    let asked = RefCell::new(Vec::new());
    let resolver = |name: &str| {
        asked.borrow_mut().push(name.to_string());
        match name {
            "bar" => Some(1),
            "baz" => Some(2),
            _ => None,
        }
    };
    let fallbacks = vec!["bar".to_string(), "baz".to_string()];
    assert_eq!(metaloadfn(&resolver, "foo", &fallbacks), Some(1));
    assert_eq!(*asked.borrow(), vec!["foo".to_string(), "bar".to_string()]);
}

#[test]
fn canonical_symbol_wins_over_fallbacks() {
    let asked = RefCell::new(Vec::new());
    let resolver = |name: &str| {
        asked.borrow_mut().push(name.to_string());
        Some(name.len())
    };
    let fallbacks = vec!["fallback".to_string()];
    assert_eq!(metaloadfn(&resolver, "foo", &fallbacks), Some(3));
    assert_eq!(*asked.borrow(), vec!["foo".to_string()]);
}

#[test]
fn load_can_be_attempted_again() {
    let mut e = entry("foo", &["bar"]);
    e.load_with(&|_: &str| None);
    assert!(!e.is_loaded());
    e.load_with(&|_: &str| None);
    assert!(!e.is_loaded());
    e.load_with(&|name: &str| if name == "bar" { Some(77) } else { None });
    assert_eq!(e.slot, Slot::Resolved(77));
}

#[test]
fn failed_load_does_not_reset_a_resolved_slot() {
    let mut e = entry("foo", &[]);
    e.load_with(&|_: &str| Some(5));
    assert_eq!(e.slot, Slot::Resolved(5));
    e.load_with(&|_: &str| None);
    assert_eq!(e.slot, Slot::Resolved(5));
}

#[test]
fn table_has_one_entry_per_command() {
    let aliases = vec![AliasEntry {
        name: "Clear".to_string(),
        fallbacks: vec!["ClearEXT".to_string(), "ClearARB".to_string()],
    }];
    let table = SymbolTable::new(&registry(Api::Gl, &["Clear", "Finish"], aliases));
    assert_eq!(table.len(), 2);
    assert_eq!(table.entries[0], entry("glClear", &["glClearEXT", "glClearARB"]));
    assert_eq!(table.entries[1], entry("glFinish", &[]));
    assert!(!table.is_loaded(0));
    assert!(!table.is_loaded(1));
    assert!(!table.is_loaded(2));
    assert_eq!(table.address(0), None);
}

#[test]
fn table_uses_the_prefix_of_the_family() {
    let aliases = vec![AliasEntry { name: "SwapBuffers".to_string(), fallbacks: vec!["SwapBuffersMESA".to_string()] }];
    let table = SymbolTable::new(&registry(Api::Glx, &["SwapBuffers"], aliases));
    assert_eq!(table.entries[0], entry("glXSwapBuffers", &["glXSwapBuffersMESA"]));
}

#[test]
fn table_loads_every_command_once_in_order() {
    let aliases = vec![AliasEntry { name: "B".to_string(), fallbacks: vec!["BEXT".to_string()] }];
    let mut table = SymbolTable::new(&registry(Api::Gl, &["A", "B", "C"], aliases));
    let asked = RefCell::new(Vec::new());
    let resolver = |name: &str| {
        asked.borrow_mut().push(name.to_string());
        match name {
            "glA" => Some(10),
            "glBEXT" => Some(20),
            _ => None,
        }
    };
    table.load_with(&resolver);
    assert_eq!(
        *asked.borrow(),
        vec!["glA".to_string(), "glB".to_string(), "glBEXT".to_string(), "glC".to_string()]
    );
    assert!(table.is_loaded(0));
    assert!(table.is_loaded(1));
    assert!(!table.is_loaded(2));
    assert_eq!(table.address(0), Some(10));
    assert_eq!(table.address(1), Some(20));
    assert_eq!(table.address(2), None);
    assert_eq!(table.address(3), None);
    assert_eq!(table.len(), 3);
}
