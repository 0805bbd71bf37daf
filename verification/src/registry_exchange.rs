//! The table of a node's registrations, which peers ask for to warm their caches.
use vstd::prelude::*;

use crate::text::str_eq;

verus! {

/// One registration of an actor.
#[derive(Debug, PartialEq, Eq)]
pub struct RegistrationEntry {
    /// The name under which the actor is published.
    pub dht_name: String,
    /// The sequence number of the actor's id.
    pub actor_sequence_id: u64,
}

impl Clone for RegistrationEntry {
    fn clone(&self) -> (copy: Self)
        ensures
            copy == *self,
    {
        RegistrationEntry {
            dht_name: self.dht_name.clone(),
            actor_sequence_id: self.actor_sequence_id,
        }
    }
}

/// Asks for the whole table.
#[derive(Debug, Clone, Copy)]
pub struct GetRegistrations;

/// Tells of a new registration.
#[derive(Debug)]
pub struct NotifyRegistration {
    pub entry: RegistrationEntry,
}

/// `table` has a registration under `name`.
pub open spec fn registered(table: Seq<RegistrationEntry>, name: Seq<char>) -> bool {
    exists|i: int| 0 <= i < table.len() && (#[trigger] table[i]).dht_name@ == name
}

/// No name is registered twice.
pub open spec fn distinct_names(table: Seq<RegistrationEntry>) -> bool {
    forall|i: int, j: int|
        0 <= i < j < table.len() ==> (#[trigger] table[i]).dht_name@ != (
        #[trigger] table[j]).dht_name@
}

/// The table after a registration was told of: one whose name is there already is left out.
pub open spec fn with_registration(
    table: Seq<RegistrationEntry>,
    entry: RegistrationEntry,
) -> Seq<RegistrationEntry> {
    if registered(table, entry.dht_name@) {
        table
    } else {
        table.push(entry)
    }
}

/// Keeps the registrations of a node, in the order in which they were made.
#[derive(Debug)]
pub struct RegistryExchangeActor {
    pub registrations: Vec<RegistrationEntry>,
}

impl RegistryExchangeActor {
    /// An actor that serves the given table.
    pub fn new(registrations: Vec<RegistrationEntry>) -> (actor: Self)
        ensures
            actor.registrations == registrations,
    {
        RegistryExchangeActor { registrations }
    }

    /// The name under which the actor of a peer is published.
    pub fn dht_name(peer_id: &str) -> (name: String)
        ensures
            name@ == "registry_exchange::peer::"@ + peer_id@,
    {
        let mut name = "registry_exchange::peer::".to_string();
        name.append(peer_id);
        name
    }

    /// The whole table.
    pub fn get_registrations(&self) -> (table: Vec<RegistrationEntry>)
        ensures
            table@ == self.registrations@,
    {
        self.registrations.clone()
    }

    /// Adds a registration, unless its name is there already.
    pub fn notify_registration(&mut self, msg: NotifyRegistration)
        ensures
            final(self).registrations@ == with_registration(old(self).registrations@, msg.entry),
    {
        let mut i: usize = 0;
        while i < self.registrations.len()
            invariant
                *self == *old(self),
                i <= self.registrations@.len(),
                forall|j: int|
                    0 <= j < i ==> (#[trigger] self.registrations@[j]).dht_name@
                        != msg.entry.dht_name@,
            decreases self.registrations@.len() - i,
        {
            if str_eq(self.registrations[i].dht_name.as_str(), msg.entry.dht_name.as_str()) {
                return ;
            }
            i = i + 1;
        }
        self.registrations.push(msg.entry);
    }
}

/// Registering a name again changes nothing, whatever else is registered with it.
pub proof fn law_registration_is_idempotent(
    table: Seq<RegistrationEntry>,
    entry: RegistrationEntry,
    again: RegistrationEntry,
)
    requires
        again.dht_name@ == entry.dht_name@,
    ensures
        with_registration(with_registration(table, entry), again) == with_registration(
            table,
            entry,
        ),
{
    if !registered(table, entry.dht_name@) {
        assert(table.push(entry)[table.len() as int].dht_name@ == entry.dht_name@);
    }
}

/// A registration never takes the place of another: every name that was registered keeps its
/// entry and its place, the new name is there, and no name is there twice.
pub proof fn law_registrations_are_kept(table: Seq<RegistrationEntry>, entry: RegistrationEntry)
    ensures
        table.is_prefix_of(with_registration(table, entry)),
        registered(with_registration(table, entry), entry.dht_name@),
        distinct_names(table) ==> distinct_names(with_registration(table, entry)),
{
    let after = with_registration(table, entry);
    assert(after.subrange(0, table.len() as int) =~= table);
    if !registered(table, entry.dht_name@) {
        assert(after[table.len() as int].dht_name@ == entry.dht_name@);
        if distinct_names(table) {
            assert forall|i: int, j: int| 0 <= i < j < after.len() implies (
            #[trigger] after[i]).dht_name@ != (#[trigger] after[j]).dht_name@ by {
                if j == table.len() {
                    assert(table[i].dht_name@ != entry.dht_name@);
                } else {
                    assert(table[i] == after[i] && table[j] == after[j]);
                }
            }
        }
    }
}

/// A name is registered exactly where an entry has it, and the first entry of a name stands:
/// a later one of the same name is not taken up, and any other goes to the end.
pub proof fn law_the_first_registration_stands(
    table: Seq<RegistrationEntry>,
    entry: RegistrationEntry,
)
    ensures
        table.map_values(|e: RegistrationEntry| e.dht_name@).contains(entry.dht_name@)
            ==> with_registration(table, entry) == table,
        !table.map_values(|e: RegistrationEntry| e.dht_name@).contains(entry.dht_name@)
            ==> with_registration(table, entry) == table.push(entry),
{
    let names = table.map_values(|e: RegistrationEntry| e.dht_name@);
    if names.contains(entry.dht_name@) {
        let i = choose|i: int| 0 <= i < names.len() && names[i] == entry.dht_name@;
        assert(table[i].dht_name@ == entry.dht_name@);
    }
    if registered(table, entry.dht_name@) {
        let i = choose|i: int|
            0 <= i < table.len() && (#[trigger] table[i]).dht_name@ == entry.dht_name@;
        assert(names[i] == entry.dht_name@);
    }
}

} // verus!
