//! The symbol table at run time: one slot per command, filled by a resolver
//! that is asked for the canonical symbol first and for the fallback names
//! after, in their order.

use vstd::prelude::*;
use vstd::string::*;
use crate::generators::{gen_symbol_name, symbol_name};
use crate::registry::{
    fallbacks_of, find_fallbacks, AliasView, Api, CmdView, Registry, RegistryView,
};

verus! {

/// The slot of one command.  It starts unresolved; the first load that finds
/// an address resolves it, and nothing makes it unresolved again.
#[derive(Clone, Copy, Debug, PartialEq, Eq, Structural)]
pub enum Slot {
    /// No address is known: the slot targets the stub, and a call through it
    /// is fatal.
    Unresolved,
    /// The address of the native function.
    Resolved(usize),
}

impl Slot {
    /// The slot after a load whose resolver gave `found`: an address is
    /// stored, and nothing found changes nothing.
    pub open spec fn after(self, found: Option<usize>) -> Slot {
        match found {
            Some(address) => Slot::Resolved(address),
            None => self,
        }
    }

    /// A slot as it is when the program starts.
    pub fn new() -> (r: Slot)
        ensures
            r == Slot::Unresolved,
    {
        Slot::Unresolved
    }

    /// Whether an address has been stored.
    pub fn is_loaded(&self) -> (r: bool)
        ensures
            r == (*self is Resolved),
    {
        match self {
            Slot::Resolved(_) => true,
            Slot::Unresolved => false,
        }
    }

    /// The stored address, if there is one.
    pub fn address(&self) -> (r: Option<usize>)
        ensures
            r == (match *self {
                Slot::Resolved(address) => Some(address),
                Slot::Unresolved => None,
            }),
    {
        match self {
            Slot::Resolved(address) => Some(*address),
            Slot::Unresolved => None,
        }
    }

    /// The address to call.  An unresolved slot has none: a wrapper that is
    /// invoked before its command was loaded does not get this far.
    pub fn target(&self) -> (r: usize)
        requires
            *self is Resolved,
        ensures
            *self == Slot::Resolved(r),
    {
        match self {
            Slot::Resolved(address) => *address,
            Slot::Unresolved => vstd::pervasive::unreached(),
        }
    }

    /// Takes in what a load attempt found.
    pub fn store(&mut self, found: Option<usize>)
        ensures
            *final(self) == old(self).after(found),
    {
        match found {
            Some(address) => {
                *self = Slot::Resolved(address);
            },
            None => {},
        }
    }
}

/// Whether the resolver `f` may give `r` when asked for `name`.
pub open spec fn may_answer<F: Fn(&str) -> Option<usize>>(
    f: F,
    name: Seq<char>,
    r: Option<usize>,
) -> bool {
    exists|s: &str| s@ == name && f.ensures((s,), r)
}

/// Whether asking `f` for `names` in order, up to the first address, may end
/// with `r`: with the address of the first name for which `f` gave one, all
/// names before it having given none; or with none, all names having given
/// none.
pub open spec fn resolves_to<F: Fn(&str) -> Option<usize>>(
    f: F,
    names: Seq<Seq<char>>,
    r: Option<usize>,
) -> bool {
    match r {
        Some(_) => exists|k: int|
            0 <= k < names.len() && may_answer(f, #[trigger] names[k], r) && forall|j: int|
                0 <= j < k ==> may_answer(f, #[trigger] names[j], None),
        None => forall|j: int| 0 <= j < names.len() ==> may_answer(f, #[trigger] names[j], None),
    }
}

/// The names that a load asks for: the canonical symbol, then the fallbacks.
pub open spec fn candidates(symbol: Seq<char>, fallbacks: Seq<Seq<char>>) -> Seq<Seq<char>> {
    seq![symbol] + fallbacks
}

/// Asks `loadfn` for `symbol`, then for each of `fallbacks` in order, and
/// stops at the first address.
pub fn metaloadfn<F: Fn(&str) -> Option<usize>>(
    loadfn: &F,
    symbol: &str,
    fallbacks: &Vec<String>,
) -> (r: Option<usize>)
    requires
        forall|s: &str| loadfn.requires((s,)),
    ensures
        resolves_to(*loadfn, candidates(symbol@, fallbacks.deep_view()), r),
{
    let ghost names = candidates(symbol@, fallbacks.deep_view());
    let first = loadfn(symbol);
    proof {
        assert(names[0] == symbol@);
        assert(may_answer(*loadfn, names[0], first));
    }
    if first.is_some() {
        return first;
    }
    let mut i: usize = 0;
    while i < fallbacks.len()
        invariant
            i <= fallbacks.len(),
            names == candidates(symbol@, fallbacks.deep_view()),
            forall|s: &str| loadfn.requires((s,)),
            forall|j: int| 0 <= j < i + 1 ==> may_answer(*loadfn, #[trigger] names[j], None),
        decreases fallbacks.len() - i,
    {
        let found = loadfn(fallbacks[i].as_str());
        proof {
            assert(names[i + 1] == fallbacks[i as int]@);
            assert(may_answer(*loadfn, names[i + 1], found));
        }
        if found.is_some() {
            return found;
        }
        i += 1;
    }
    None
}

/// The first address among `answers`, if there is one.
pub open spec fn first_found(answers: Seq<Option<usize>>) -> Option<usize>
    decreases answers.len(),
{
    if answers.len() == 0 {
        None
    } else if answers[0].is_some() {
        answers[0]
    } else {
        first_found(answers.skip(1))
    }
}

/// Whether `f` gives for every name what `model` says, and nothing else.
pub open spec fn answers_as<F: Fn(&str) -> Option<usize>>(
    f: F,
    model: spec_fn(Seq<char>) -> Option<usize>,
) -> bool {
    forall|s: &str, r: Option<usize>| #[trigger] f.ensures((s,), r) ==> r == model(s@)
}

/// With a resolver that gives one answer for each name, a load ends with the
/// answer for the first name that has an address, in the order canonical
/// symbol, first fallback, second fallback and so on; it ends with none
/// where no name has one.
pub proof fn lemma_resolution_in_order<F: Fn(&str) -> Option<usize>>(
    f: F,
    model: spec_fn(Seq<char>) -> Option<usize>,
    names: Seq<Seq<char>>,
    r: Option<usize>,
)
    requires
        answers_as(f, model),
        resolves_to(f, names, r),
    ensures
        r == first_found(names.map_values(model)),
    decreases names.len(),
{
    let answers = names.map_values(model);
    if names.len() == 0 {
    } else {
        let rest = names.skip(1);
        assert(answers.skip(1) =~= rest.map_values(model));
        match r {
            Some(_) => {
                let k = choose|k: int|
                    0 <= k < names.len() && may_answer(f, #[trigger] names[k], r) && forall|j: int|
                        0 <= j < k ==> may_answer(f, #[trigger] names[j], None);
                if k == 0 {
                    assert(answers[0] == r);
                } else {
                    assert(may_answer(f, names[0], None));
                    assert(answers[0].is_none());
                    assert(may_answer(f, rest[k - 1], r));
                    assert forall|j: int| 0 <= j < k - 1 implies may_answer(
                        f,
                        #[trigger] rest[j],
                        None,
                    ) by {
                        assert(rest[j] == names[j + 1]);
                    }
                    lemma_resolution_in_order(f, model, rest, r);
                }
            },
            None => {
                assert(may_answer(f, names[0], None));
                assert(answers[0].is_none());
                assert forall|j: int| 0 <= j < rest.len() implies may_answer(
                    f,
                    #[trigger] rest[j],
                    None,
                ) by {
                    assert(rest[j] == names[j + 1]);
                }
                lemma_resolution_in_order(f, model, rest, r);
            },
        }
    }
}

/// A load that finds nothing leaves a slot as it was, whatever was tried
/// before: a later load that finds an address resolves the slot with it.
pub proof fn lemma_load_again(slot: Slot, address: usize)
    ensures
        slot.after(None) == slot,
        slot.after(None).after(Some(address)) == Slot::Resolved(address),
{
}

/// No load makes a resolved slot unresolved.
pub proof fn lemma_resolved_stays(slot: Slot, found: Option<usize>)
    requires
        slot is Resolved,
    ensures
        slot.after(found) is Resolved,
{
}

/// One command in the symbol table: the names to ask for, and the slot.
#[derive(Debug, PartialEq, Eq)]
pub struct Entry {
    /// The canonical native symbol.
    pub symbol: String,
    /// The native symbols of the fallback names, in registration order.
    pub fallbacks: Vec<String>,
    pub slot: Slot,
}

/// What an `Entry` holds.
pub struct EntryView {
    pub symbol: Seq<char>,
    pub fallbacks: Seq<Seq<char>>,
    pub slot: Slot,
}

impl View for Entry {
    type V = EntryView;

    open spec fn view(&self) -> EntryView {
        EntryView { symbol: self.symbol@, fallbacks: self.fallbacks.deep_view(), slot: self.slot }
    }
}

impl DeepView for Entry {
    type V = EntryView;

    open spec fn deep_view(&self) -> EntryView {
        self@
    }
}

impl EntryView {
    /// The names that a load of this entry asks for, in order.
    pub open spec fn names(self) -> Seq<Seq<char>> {
        candidates(self.symbol, self.fallbacks)
    }

    /// Whether `next` is this entry after one load with the resolver `f`:
    /// the same names, and the slot after some outcome of asking `f`.
    pub open spec fn loaded_by<F: Fn(&str) -> Option<usize>>(self, f: F, next: EntryView) -> bool {
        &&& next.symbol == self.symbol
        &&& next.fallbacks == self.fallbacks
        &&& exists|found: Option<usize>| #[trigger]
            resolves_to(f, self.names(), found) && next.slot == self.slot.after(found)
    }
}

/// With a resolver that gives one answer for each name, a load leaves the
/// slot with the first address among the answers for the canonical symbol
/// and the fallbacks, taken in this order; where there is none, it leaves
/// the slot as it was.
pub proof fn lemma_loaded_in_order<F: Fn(&str) -> Option<usize>>(
    f: F,
    model: spec_fn(Seq<char>) -> Option<usize>,
    before: EntryView,
    next: EntryView,
)
    requires
        answers_as(f, model),
        before.loaded_by(f, next),
    ensures
        next.slot == before.slot.after(first_found(before.names().map_values(model))),
{
    let found = choose|found: Option<usize>| #[trigger]
        resolves_to(f, before.names(), found) && next.slot == before.slot.after(found);
    lemma_resolution_in_order(f, model, before.names(), found);
}

impl Entry {
    /// Whether the command's slot holds an address.
    pub fn is_loaded(&self) -> (r: bool)
        ensures
            r == (self.slot is Resolved),
    {
        self.slot.is_loaded()
    }

    /// Loads the command: asks `loadfn` for the canonical symbol, then for
    /// the fallbacks in order up to the first address, and stores what was
    /// found.
    pub fn load_with<F: Fn(&str) -> Option<usize>>(&mut self, loadfn: &F)
        requires
            forall|s: &str| loadfn.requires((s,)),
        ensures
            old(self)@.loaded_by(*loadfn, final(self)@),
    {
        let found = metaloadfn(loadfn, self.symbol.as_str(), &self.fallbacks);
        self.slot.store(found);
        proof {
            assert(resolves_to(*loadfn, old(self)@.names(), found));
            assert(self@.slot == old(self)@.slot.after(found));
        }
    }
}

/// The native symbols of the fallback names of the command `name`; none
/// where the alias table has no entry for it.
pub open spec fn fallback_symbols_of(api: Api, aliases: Seq<AliasView>, name: Seq<char>) -> Seq<
    Seq<char>,
> {
    match fallbacks_of(aliases, name) {
        Some(names) => Seq::new(names.len(), |i: int| symbol_name(api, names[i])),
        None => Seq::empty(),
    }
}

/// The entry of the command `cmd` before any load.
pub open spec fn initial_entry(api: Api, aliases: Seq<AliasView>, cmd: CmdView) -> EntryView {
    EntryView {
        symbol: symbol_name(api, cmd.proto.ident),
        fallbacks: fallback_symbols_of(api, aliases, cmd.proto.ident),
        slot: Slot::Unresolved,
    }
}

/// The table of a registry before any load: one entry per command, in
/// registry order.
pub open spec fn initial_entries(registry: RegistryView) -> Seq<EntryView> {
    Seq::new(
        registry.cmds.len(),
        |i: int| initial_entry(registry.api, registry.aliases, registry.cmds[i]),
    )
}

/// The symbol table: the slots of all commands, owned by whoever loads and
/// calls them.
#[derive(Debug, PartialEq, Eq)]
pub struct SymbolTable {
    pub entries: Vec<Entry>,
}

impl View for SymbolTable {
    type V = Seq<EntryView>;

    open spec fn view(&self) -> Seq<EntryView> {
        self.entries.deep_view()
    }
}

impl SymbolTable {
    /// The table for `registry`, every slot unresolved.
    pub fn new(registry: &Registry) -> (r: SymbolTable)
        ensures
            r@ == initial_entries(registry@),
    {
        let mut entries: Vec<Entry> = Vec::new();
        let mut i: usize = 0;
        while i < registry.cmds.len()
            invariant
                i <= registry.cmds.len(),
                entries.len() == i,
                forall|k: int|
                    0 <= k < i ==> entries@[k]@ == initial_entry(
                        registry@.api,
                        registry@.aliases,
                        registry@.cmds[k],
                    ),
            decreases registry.cmds.len() - i,
        {
            let name = registry.cmds[i].proto.ident.as_str();
            let mut fallbacks: Vec<String> = Vec::new();
            match find_fallbacks(&registry.aliases, name) {
                Some(names) => {
                    let mut j: usize = 0;
                    while j < names.len()
                        invariant
                            j <= names.len(),
                            fallbacks.len() == j,
                            forall|k: int|
                                0 <= k < j ==> fallbacks@[k]@ == symbol_name(
                                    registry.api,
                                    names@[k]@,
                                ),
                        decreases names.len() - j,
                    {
                        fallbacks.push(gen_symbol_name(registry.api, names[j].as_str()));
                        j += 1;
                    }
                    proof {
                        assert(fallbacks.deep_view() =~= fallback_symbols_of(
                            registry@.api,
                            registry@.aliases,
                            name@,
                        ));
                    }
                },
                None => {
                    proof {
                        assert(fallbacks.deep_view() =~= fallback_symbols_of(
                            registry@.api,
                            registry@.aliases,
                            name@,
                        ));
                    }
                },
            }
            let entry = Entry {
                symbol: gen_symbol_name(registry.api, name),
                fallbacks,
                slot: Slot::new(),
            };
            proof {
                assert(registry@.cmds[i as int] == registry.cmds[i as int]@);
            }
            entries.push(entry);
            i += 1;
        }
        let r = SymbolTable { entries };
        proof {
            assert(r@ =~= initial_entries(registry@));
        }
        r
    }

    /// How many commands the table holds.
    pub fn len(&self) -> (r: usize)
        ensures
            r == self@.len(),
    {
        self.entries.len()
    }

    /// Whether the slot of the command at `index` holds an address; no slot
    /// beyond the table does.
    pub fn is_loaded(&self, index: usize) -> (r: bool)
        ensures
            r == (index < self@.len() && self@[index as int].slot is Resolved),
    {
        index < self.entries.len() && self.entries[index].is_loaded()
    }

    /// The address of the command at `index`, if its slot holds one.
    pub fn address(&self, index: usize) -> (r: Option<usize>)
        ensures
            r == (if index < self@.len() {
                match self@[index as int].slot {
                    Slot::Resolved(address) => Some(address),
                    Slot::Unresolved => None,
                }
            } else {
                None
            }),
    {
        if index < self.entries.len() {
            self.entries[index].slot.address()
        } else {
            None
        }
    }

    /// Loads every command with the one resolver `loadfn`, once each and in
    /// the order of the table.
    pub fn load_with<F: Fn(&str) -> Option<usize>>(&mut self, loadfn: &F)
        requires
            forall|s: &str| loadfn.requires((s,)),
        ensures
            final(self)@.len() == old(self)@.len(),
            forall|i: int|
                0 <= i < old(self)@.len() ==> (#[trigger] old(self)@[i]).loaded_by(
                    *loadfn,
                    final(self)@[i],
                ),
    {
        let ghost before = self@;
        let mut i: usize = 0;
        while i < self.entries.len()
            invariant
                i <= self.entries.len(),
                self@.len() == before.len(),
                forall|s: &str| loadfn.requires((s,)),
                forall|k: int| 0 <= k < i ==> (#[trigger] before[k]).loaded_by(*loadfn, self@[k]),
                forall|k: int| i <= k < before.len() ==> self@[k] == before[k],
            decreases self.entries.len() - i,
        {
            let ghost previous = self@;
            let entry = &mut self.entries[i];
            entry.load_with(loadfn);
            proof {
                assert forall|k: int| 0 <= k < i implies (#[trigger] before[k]).loaded_by(
                    *loadfn,
                    self@[k],
                ) by {
                    assert(self@[k] == previous[k]);
                }
                assert(previous[i as int] == before[i as int]);
            }
            i += 1;
        }
    }
}

} // verus!
