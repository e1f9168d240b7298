//! The table of message handlers: which module of the node is served at which host and port,
//! and the routing of incoming messages to them.
use vstd::prelude::*;

use crate::message::{receive_message, NetworkMessage};

verus! {

/// A module's registration: where its message handler is served.
struct HandlerEntry {
    module: String,
    hostname: String,
    port: String,
}

/// The handler registrations: the hostname and port each module's handler is served at. They
/// are held as a list in which each module occurs at most once, which behaves as a map from
/// module to registration. vstd states what `HashMap` does only for keys known to obey its key
/// model (the integer types and `bool`), and `String` is not one of them.
pub struct DispatchTable {
    entries: Vec<HandlerEntry>,
}

/// Whether `module` is registered at position `i` of `entries`.
spec fn registered_at(entries: Seq<HandlerEntry>, module: Seq<char>, i: int) -> bool {
    0 <= i < entries.len() && entries[i].module@ == module
}

/// The registrations held in `entries`, as a map from module to (hostname, port).
spec fn entries_map(entries: Seq<HandlerEntry>) -> Map<Seq<char>, (Seq<char>, Seq<char>)> {
    Map::new(
        |m: Seq<char>| exists|i: int| #[trigger] registered_at(entries, m, i),
        |m: Seq<char>|
            {
                let i = choose|i: int| #[trigger] registered_at(entries, m, i);
                (entries[i].hostname@, entries[i].port@)
            },
    )
}

/// The port the handler of `module` is served at, or the empty text where the module is not
/// registered.
pub open spec fn handler_port(table: Map<Seq<char>, (Seq<char>, Seq<char>)>, module: Seq<char>) -> Seq<
    char,
> {
    if table.contains_key(module) {
        table[module].1
    } else {
        Seq::empty()
    }
}

/// After registering `module` at `port`, messages for the module go to that port.
pub proof fn law_registered_port_is_used(
    table: Map<Seq<char>, (Seq<char>, Seq<char>)>,
    module: Seq<char>,
    hostname: Seq<char>,
    port: Seq<char>,
)
    ensures
        handler_port(table.insert(module, (hostname, port)), module) == port,
{
}

/// Registering one module leaves the handlers of the other modules as they were.
pub proof fn law_register_keeps_other_modules(
    table: Map<Seq<char>, (Seq<char>, Seq<char>)>,
    module: Seq<char>,
    hostname: Seq<char>,
    port: Seq<char>,
    other: Seq<char>,
)
    requires
        other != module,
    ensures
        handler_port(table.insert(module, (hostname, port)), other) == handler_port(table, other),
{
}

/// Where an incoming message goes.
pub enum Route {
    /// The payload was not a message; it is dropped.
    Undecodable,
    /// No handler with a port is registered for the message's module; it is dropped.
    Unhandled,
    /// The message goes to the handler served at `port`.
    Deliver { port: String, message: NetworkMessage },
}

impl View for DispatchTable {
    type V = Map<Seq<char>, (Seq<char>, Seq<char>)>;

    closed spec fn view(&self) -> Map<Seq<char>, (Seq<char>, Seq<char>)> {
        entries_map(self.entries@)
    }
}

impl DispatchTable {
    /// Each module is registered at most once.
    #[verifier::type_invariant]
    spec fn unique_modules(&self) -> bool {
        forall|i: int, j: int|
            0 <= i < self.entries@.len() && 0 <= j < self.entries@.len() && i != j
                ==> #[trigger] self.entries@[i].module@ != #[trigger] self.entries@[j].module@
    }

    /// A table with no registrations.
    pub fn new() -> (r: Self)
        ensures
            r@ == Map::<Seq<char>, (Seq<char>, Seq<char>)>::empty(),
    {
        let r = DispatchTable { entries: Vec::new() };
        proof {
            assert(r@ =~= Map::<Seq<char>, (Seq<char>, Seq<char>)>::empty());
        }
        r
    }

    /// The position at which `module` is registered, if it is.
    fn position_of(&self, module: &String) -> (r: Option<usize>)
        ensures
            match r {
                Some(i) => registered_at(self.entries@, module@, i as int),
                None => forall|i: int| !#[trigger] registered_at(self.entries@, module@, i),
            },
    {
        let n = self.entries.len();
        for i in 0..n
            invariant
                n == self.entries@.len(),
                forall|j: int| 0 <= j < i ==> !#[trigger] registered_at(self.entries@, module@, j),
        {
            if self.entries[i].module == *module {
                return Some(i);
            }
        }
        None
    }

    /// Registers the handler of `module` as served at `hostname` and `port`, replacing an
    /// earlier registration of the module.
    pub fn register(&mut self, module: String, hostname: String, port: String)
        ensures
            final(self)@ == old(self)@.insert(module@, (hostname@, port@)),
    {
        proof {
            use_type_invariant(&*self);
        }
        let ghost old_entries = self.entries@;
        let ghost key = module@;
        let ghost value = (hostname@, port@);
        let entry = HandlerEntry { module, hostname, port };
        match self.position_of(&entry.module) {
            Some(i) => {
                let mut entries: Vec<HandlerEntry> = Vec::new();
                std::mem::swap(&mut entries, &mut self.entries);
                entries.set(i, entry);
                proof {
                    assert forall|a: int, b: int|
                        0 <= a < entries@.len() && 0 <= b < entries@.len() && a != b
                            implies #[trigger] entries@[a].module@ != #[trigger] entries@[b].module@ by {
                        if a != i && b != i {
                            assert(old_entries[a].module@ != old_entries[b].module@);
                        } else if a == i {
                            assert(old_entries[i as int].module@ != old_entries[b].module@);
                        } else {
                            assert(old_entries[a].module@ != old_entries[i as int].module@);
                        }
                    }
                    lemma_set_entry(old_entries, entries@, i as int, key, value);
                }
                self.entries = entries;
            },
            None => {
                let mut entries: Vec<HandlerEntry> = Vec::new();
                std::mem::swap(&mut entries, &mut self.entries);
                entries.push(entry);
                proof {
                    lemma_push_entry(old_entries, entries@, key, value);
                }
                self.entries = entries;
            },
        }
    }

    /// The port the handler of `module` is served at, or the empty text where the module is
    /// not registered.
    pub fn port_of(&self, module: &String) -> (r: String)
        ensures
            r@ == handler_port(self@, module@),
    {
        proof {
            use_type_invariant(self);
        }
        match self.position_of(module) {
            Some(i) => {
                proof {
                    lemma_lookup_entry(self.entries@, module@, i as int);
                }
                self.entries[i].port.clone()
            },
            None => {
                proof {
                    assert(!self@.contains_key(module@));
                }
                String::new()
            },
        }
    }

    /// Where a payload that came in on session `session_id` goes, given what it decoded to:
    /// nowhere if it did not decode (`None`); otherwise the message, stamped with the session as
    /// its origin, goes to the port of its module's handler if that port is not empty, and
    /// nowhere where it is empty or the module is not registered.
    pub fn route(&self, session_id: usize, decoded: Option<NetworkMessage>) -> (r: Route)
        ensures
            match decoded {
                None => r is Undecodable,
                Some(m) => {
                    let p = handler_port(self@, m.module@);
                    if p.len() == 0 {
                        r is Unhandled
                    } else {
                        r matches Route::Deliver { port, message } && port@ == p && message@ == (
                            m@.0,
                            m@.1,
                            session_id as u64,
                            m@.3,
                        )
                    }
                },
            },
    {
        match receive_message(session_id, decoded) {
            None => Route::Undecodable,
            Some(m) => {
                let port = self.port_of(&m.module);
                if port.as_str().unicode_len() == 0 {
                    Route::Unhandled
                } else {
                    Route::Deliver { port, message: m }
                }
            },
        }
    }
}

/// In a table whose modules are distinct, the registration found at position `i` is the one
/// the map holds.
proof fn lemma_lookup_entry(entries: Seq<HandlerEntry>, module: Seq<char>, i: int)
    requires
        registered_at(entries, module, i),
        forall|a: int, b: int|
            0 <= a < entries.len() && 0 <= b < entries.len() && a != b ==> #[trigger] entries[a].module@
                != #[trigger] entries[b].module@,
    ensures
        entries_map(entries).contains_key(module),
        entries_map(entries)[module] == (entries[i].hostname@, entries[i].port@),
{
    let j = choose|j: int| #[trigger] registered_at(entries, module, j);
    assert(registered_at(entries, module, j));
    assert(j == i);
}

/// Replacing the registration at position `i` by one of the same module updates the map at that
/// module.
proof fn lemma_set_entry(
    old_entries: Seq<HandlerEntry>,
    new_entries: Seq<HandlerEntry>,
    i: int,
    key: Seq<char>,
    value: (Seq<char>, Seq<char>),
)
    requires
        registered_at(old_entries, key, i),
        new_entries.len() == old_entries.len(),
        new_entries[i].module@ == key,
        (new_entries[i].hostname@, new_entries[i].port@) == value,
        forall|a: int| 0 <= a < old_entries.len() && a != i ==> new_entries[a] == old_entries[a],
        forall|a: int, b: int|
            0 <= a < old_entries.len() && 0 <= b < old_entries.len() && a != b
                ==> #[trigger] old_entries[a].module@ != #[trigger] old_entries[b].module@,
    ensures
        entries_map(new_entries) == entries_map(old_entries).insert(key, value),
{
    let om = entries_map(old_entries);
    let nm = entries_map(new_entries);
    assert forall|m: Seq<char>| #[trigger] nm.contains_key(m) <==> om.insert(key, value).contains_key(m) by {
        if nm.contains_key(m) {
            let j = choose|j: int| #[trigger] registered_at(new_entries, m, j);
            if j != i {
                assert(registered_at(old_entries, m, j));
            }
        }
        if om.contains_key(m) {
            let j = choose|j: int| #[trigger] registered_at(old_entries, m, j);
            if j != i {
                assert(registered_at(new_entries, m, j));
            } else {
                assert(registered_at(new_entries, m, i));
            }
        }
        if m == key {
            assert(registered_at(new_entries, m, i));
        }
    }
    assert forall|m: Seq<char>| #[trigger] nm.contains_key(m) implies nm[m] == om.insert(key, value)[m] by {
        let j = choose|j: int| #[trigger] registered_at(new_entries, m, j);
        assert(registered_at(new_entries, m, j));
        if m == key {
            if j != i {
                assert(registered_at(old_entries, m, j));
                assert(old_entries[j].module@ != old_entries[i].module@);
            }
        } else {
            assert(j != i);
            assert(registered_at(old_entries, m, j));
            let k = choose|k: int| #[trigger] registered_at(old_entries, m, k);
            assert(registered_at(old_entries, m, k));
            if k != j {
                assert(old_entries[k].module@ != old_entries[j].module@);
            }
        }
    }
    assert(nm =~= om.insert(key, value));
}

/// Appending a registration of a module not yet registered adds it to the map.
proof fn lemma_push_entry(
    old_entries: Seq<HandlerEntry>,
    new_entries: Seq<HandlerEntry>,
    key: Seq<char>,
    value: (Seq<char>, Seq<char>),
)
    requires
        forall|i: int| !#[trigger] registered_at(old_entries, key, i),
        new_entries.len() == old_entries.len() + 1,
        forall|a: int| 0 <= a < old_entries.len() ==> new_entries[a] == old_entries[a],
        new_entries.last().module@ == key,
        (new_entries.last().hostname@, new_entries.last().port@) == value,
        forall|a: int, b: int|
            0 <= a < old_entries.len() && 0 <= b < old_entries.len() && a != b
                ==> #[trigger] old_entries[a].module@ != #[trigger] old_entries[b].module@,
    ensures
        entries_map(new_entries) == entries_map(old_entries).insert(key, value),
        forall|a: int, b: int|
            0 <= a < new_entries.len() && 0 <= b < new_entries.len() && a != b
                ==> #[trigger] new_entries[a].module@ != #[trigger] new_entries[b].module@,
{
    let n = old_entries.len() as int;
    assert forall|a: int, b: int|
        0 <= a < new_entries.len() && 0 <= b < new_entries.len() && a != b
            implies #[trigger] new_entries[a].module@ != #[trigger] new_entries[b].module@ by {
        if a == n {
            assert(!registered_at(old_entries, key, b));
        } else if b == n {
            assert(!registered_at(old_entries, key, a));
        } else {
            assert(old_entries[a].module@ != old_entries[b].module@);
        }
    }
    let om = entries_map(old_entries);
    let nm = entries_map(new_entries);
    assert forall|m: Seq<char>| #[trigger] nm.contains_key(m) <==> om.insert(key, value).contains_key(m) by {
        if nm.contains_key(m) {
            let j = choose|j: int| #[trigger] registered_at(new_entries, m, j);
            if j != n {
                assert(registered_at(old_entries, m, j));
            }
        }
        if om.contains_key(m) {
            let j = choose|j: int| #[trigger] registered_at(old_entries, m, j);
            assert(registered_at(new_entries, m, j));
        }
        if m == key {
            assert(registered_at(new_entries, m, n));
        }
    }
    assert forall|m: Seq<char>| #[trigger] nm.contains_key(m) implies nm[m] == om.insert(key, value)[m] by {
        let j = choose|j: int| #[trigger] registered_at(new_entries, m, j);
        assert(registered_at(new_entries, m, j));
        if m == key {
            if j != n {
                assert(registered_at(old_entries, key, j));
            }
        } else {
            assert(j != n);
            assert(registered_at(old_entries, m, j));
            let k = choose|k: int| #[trigger] registered_at(old_entries, m, k);
            assert(registered_at(old_entries, m, k));
            if k != j {
                assert(old_entries[k].module@ != old_entries[j].module@);
            }
        }
    }
    assert(nm =~= om.insert(key, value));
}

} // verus!
