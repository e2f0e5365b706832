//! The data the bot keeps: components and datasheets as stored in the
//! database, the keys of its shared state, the on/off switch of the stock
//! check loop and the record of when it booted.

use vstd::prelude::*;

verus! {

/// Key under which the shared state holds the shard manager.
pub struct ShardManagerContainer;

/// Key under which the shared state holds the database connection pool.
pub struct DatabasePool;

/// The switch that tells the stock check loop whether to run.
pub struct BotCtl {
    pub enabled: bool,
}

impl BotCtl {
    /// A switch in the given position.
    pub fn new(enabled: bool) -> (ctl: BotCtl)
        ensures
            ctl.enabled == enabled,
    {
        BotCtl { enabled }
    }

    /// Whether the stock check loop is to run.
    pub fn is_enabled(&self) -> (on: bool)
        ensures
            on == self.enabled,
    {
        self.enabled
    }

    /// The switch in the other position.
    pub open spec fn toggled(self) -> BotCtl {
        BotCtl { enabled: !self.enabled }
    }

    /// Flips the switch, as the `toggle_bot` command does.
    pub fn toggle(&mut self)
        ensures
            *final(self) == old(self).toggled(),
    {
        self.enabled = !self.enabled;
    }
}

/// Flipping the switch twice puts it back where it was.
pub proof fn lemma_toggle_twice_restores(ctl: BotCtl)
    ensures
        ctl.toggled().toggled() == ctl,
{
}

/// A point in time: whole seconds since the Unix epoch and the nanoseconds past them.
#[derive(Clone, Copy)]
pub struct Timestamp {
    pub secs: i64,
    pub nanos: u32,
}

impl Timestamp {
    /// The nanoseconds part is below one second.
    pub open spec fn wf(self) -> bool {
        self.nanos < 1_000_000_000
    }

    /// The instant in nanoseconds since the epoch.
    pub open spec fn instant(self) -> int {
        self.secs * 1_000_000_000 + self.nanos
    }
}

/// A stored value of the database row of one tracked component.
pub struct Component {
    pub name: String,
    pub lcsc: String,
    pub enabled: bool,
    pub channel_id: i64,
    pub prev_stock: i64,
    pub role_id: i64,
}

/// A list of components, as a configuration file holds it.
pub struct Components {
    pub components: Vec<Component>,
}

/// A role that members may take.
pub struct Role {
    pub role_name: String,
    pub role_id: u64,
}

/// A list of roles, as a configuration file holds it.
pub struct Roles {
    pub roles: Vec<Role>,
}

/// A datasheet: a name and the link to it.
pub struct Datasheet {
    pub name: String,
    pub link: String,
}

/// A list of datasheets, as a configuration file holds it.
pub struct Datasheets {
    pub datasheets: Vec<Datasheet>,
}

/// Stock and picture of a component.
pub struct Data {
    pub stock: i64,
    pub image_url: String,
}

/// The record after `entry(key).or_insert(value)`: a new name gets the value, a known
/// name keeps its own.
pub open spec fn or_insert(record: Map<Seq<char>, Timestamp>, key: Seq<char>, value: Timestamp) -> Map<
    Seq<char>,
    Timestamp,
> {
    if record.contains_key(key) {
        record
    } else {
        record.insert(key, value)
    }
}

/// The boot time is recorded once: a second recording under the same name, whatever its
/// value, leaves the record as the first one made it, and the name then holds the first
/// value given (or the one it already held).
pub proof fn lemma_recorded_once(
    record: Map<Seq<char>, Timestamp>,
    key: Seq<char>,
    first: Timestamp,
    second: Timestamp,
)
    ensures
        or_insert(or_insert(record, key, first), key, second) == or_insert(record, key, first),
        or_insert(record, key, first)[key] == (if record.contains_key(key) {
            record[key]
        } else {
            first
        }),
{
}

/// Named points in time, such as the moment the bot booted ("boot").
pub struct Uptime {
    entries: Vec<(String, Timestamp)>,
}

/// Whether some entry carries the key.
pub open spec fn has_key(entries: Seq<(String, Timestamp)>, key: Seq<char>) -> bool {
    exists|i: int| 0 <= i < entries.len() && (#[trigger] entries[i]).0@ == key
}

/// The value stored under the key, where the keys are distinct.
pub open spec fn value_at(entries: Seq<(String, Timestamp)>, key: Seq<char>) -> Timestamp {
    entries[choose|i: int| 0 <= i < entries.len() && (#[trigger] entries[i]).0@ == key].1
}

impl Uptime {
    #[verifier::type_invariant]
    spec fn inv(self) -> bool {
        &&& forall|i: int, j: int|
            0 <= i < j < self.entries@.len() ==> (#[trigger] self.entries@[i]).0@
                != (#[trigger] self.entries@[j]).0@
        &&& forall|i: int| 0 <= i < self.entries@.len() ==> (#[trigger] self.entries@[i]).1.wf()
    }

    /// The recorded instants by name.
    pub closed spec fn view(&self) -> Map<Seq<char>, Timestamp> {
        Map::new(
            |k: Seq<char>| has_key(self.entries@, k),
            |k: Seq<char>| value_at(self.entries@, k),
        )
    }

    /// Nothing recorded yet.
    pub fn new() -> (u: Uptime)
        ensures
            u@ == Map::<Seq<char>, Timestamp>::empty(),
    {
        let u = Uptime { entries: Vec::new() };
        assert(u@ =~= Map::<Seq<char>, Timestamp>::empty());
        u
    }

    fn position(&self, key: &str) -> (r: Option<usize>)
        ensures
            r is None ==> !has_key(self.entries@, key@),
            r matches Some(i) ==> i < self.entries@.len() && self.entries@[i as int].0@ == key@,
    {
        let target = String::from_str(key);
        let mut i: usize = 0;
        while i < self.entries.len()
            invariant
                i <= self.entries@.len(),
                target@ == key@,
                forall|j: int| 0 <= j < i ==> (#[trigger] self.entries@[j]).0@ != key@,
            decreases self.entries@.len() - i,
        {
            if self.entries[i].0 == target {
                return Some(i);
            }
            i = i + 1;
        }
        None
    }

    /// The instant recorded under the name, if any.
    pub fn get(&self, key: &str) -> (r: Option<Timestamp>)
        ensures
            r is Some <==> self@.contains_key(key@),
            r matches Some(t) ==> t == self@[key@] && t.wf(),
    {
        proof { use_type_invariant(self); }
        match self.position(key) {
            Some(i) => {
                let t = self.entries[i].1;
                proof {
                    let c = choose|j: int| 0 <= j < self.entries@.len() && (#[trigger] self.entries@[j]).0@ == key@;
                    assert(c == i);
                }
                Some(t)
            },
            None => None,
        }
    }

    /// Records the instant under the name unless the name already holds one,
    /// as `entry(name).or_insert_with(..)` does.
    pub fn entry_or_insert(&mut self, key: &str, value: Timestamp)
        requires
            value.wf(),
        ensures
            final(self)@ == or_insert(old(self)@, key@, value),
    {
        proof { use_type_invariant(&*self); }
        match self.position(key) {
            Some(_) => {},
            None => {
                let ghost before = self.entries@;
                let ghost old_view = self@;
                let mut entries = Vec::new();
                std::mem::swap(&mut entries, &mut self.entries);
                entries.push((String::from_str(key), value));
                let ghost after = entries@;
                assert forall|k: Seq<char>| has_key(after, k) == (has_key(before, k) || k == key@) by {
                    if has_key(before, k) {
                        let i = choose|i: int| 0 <= i < before.len() && (#[trigger] before[i]).0@ == k;
                        assert(after[i] == before[i]);
                    }
                    if k == key@ {
                        assert(after[before.len() as int].0@ == k);
                    }
                }
                assert forall|k: Seq<char>| has_key(after, k) implies value_at(after, k)
                    == (if k == key@ { value } else { value_at(before, k) }) by {
                    let c = choose|i: int| 0 <= i < after.len() && (#[trigger] after[i]).0@ == k;
                    if k == key@ {
                        assert(c == before.len());
                    } else {
                        let d = choose|i: int| 0 <= i < before.len() && (#[trigger] before[i]).0@ == k;
                        assert(after[d] == before[d]);
                        assert(c == d);
                    }
                }
                self.entries = entries;
                assert(self@ =~= old_view.insert(key@, value));
            },
        }
    }
}

} // verus!
