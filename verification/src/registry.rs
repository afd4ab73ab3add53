//! The buttons of the dock, keyed by the address of the window each one
//! stands for. A button is known by its slot, a number that the caller uses
//! to find the widget itself.
use vstd::prelude::*;

verus! {

/// The slot registered for `address`, if any.
pub open spec fn slot_of(buttons: Map<Seq<char>, usize>, address: Seq<char>) -> Option<usize> {
    if buttons.contains_key(address) {
        Some(buttons[address])
    } else {
        None
    }
}

/// After a button is registered for an address, looking that address up
/// gives the new button, whatever was registered for it before, and looking
/// up any other address gives what it gave before.
pub proof fn lemma_get_after_insert(
    buttons: Map<Seq<char>, usize>,
    address: Seq<char>,
    slot: usize,
    other: Seq<char>,
)
    ensures
        slot_of(buttons.insert(address, slot), address) == Some(slot),
        other != address ==> slot_of(buttons.insert(address, slot), other) == slot_of(
            buttons,
            other,
        ),
        buttons.dom().finite() ==> buttons.insert(address, slot).len() == buttons.len() + (
        if buttons.contains_key(address) {
            0int
        } else {
            1
        }),
{
    if buttons.dom().finite() {
        assert(buttons.insert(address, slot).dom() =~= buttons.dom().insert(address));
        vstd::set::axiom_set_insert_len(buttons.dom(), address);
    }
}

/// No address occurs twice among the entries.
spec fn distinct_addresses(entries: Seq<(String, usize)>) -> bool {
    forall|i: int, j: int|
        0 <= i < j < entries.len() ==> #[trigger] entries[i].0@ != #[trigger] entries[j].0@
}

/// The entries as a map from addresses to slots.
spec fn entries_map(entries: Seq<(String, usize)>) -> Map<Seq<char>, usize> {
    Map::new(
        |k: Seq<char>| exists|i: int| 0 <= i < entries.len() && #[trigger] entries[i].0@ == k,
        |k: Seq<char>|
            entries[choose|i: int| 0 <= i < entries.len() && #[trigger] entries[i].0@ == k].1,
    )
}

proof fn lemma_entries_map_finite(entries: Seq<(String, usize)>)
    ensures
        entries_map(entries).dom().finite(),
{
    let keys = entries.map_values(|e: (String, usize)| e.0@);
    assert forall|k: Seq<char>| #[trigger] entries_map(entries).dom().contains(k) <==> keys.to_set().contains(k) by {
        if entries_map(entries).dom().contains(k) {
            let i = choose|i: int| 0 <= i < entries.len() && #[trigger] entries[i].0@ == k;
            assert(keys[i] == k);
        }
        if keys.to_set().contains(k) {
            let i = choose|i: int| 0 <= i < keys.len() && keys[i] == k;
            assert(entries[i].0@ == k);
        }
    }
    assert(entries_map(entries).dom() =~= keys.to_set());
    vstd::seq_lib::seq_to_set_is_finite(keys);
}

proof fn lemma_entry_in_map(entries: Seq<(String, usize)>, j: int)
    requires
        distinct_addresses(entries),
        0 <= j < entries.len(),
    ensures
        entries_map(entries).contains_key(entries[j].0@),
        entries_map(entries)[entries[j].0@] == entries[j].1,
{
    let k = entries[j].0@;
    assert(entries[j].0@ == k);
    let c = choose|i: int| 0 <= i < entries.len() && #[trigger] entries[i].0@ == k;
    if c < j {
        assert(entries[c].0@ != entries[j].0@);
    } else if j < c {
        assert(entries[j].0@ != entries[c].0@);
    }
}

/// The dock's buttons by window address.
pub struct ButtonRegistry {
    entries: Vec<(String, usize)>,
}

impl ButtonRegistry {
    /// No address is registered twice.
    #[verifier::type_invariant]
    spec fn wf(self) -> bool {
        distinct_addresses(self.entries@)
    }

    /// The registry as a map from addresses to slots.
    pub closed spec fn view(&self) -> Map<Seq<char>, usize> {
        entries_map(self.entries@)
    }

    /// An empty registry.
    pub fn new() -> (res: ButtonRegistry)
        ensures
            res.view() == Map::<Seq<char>, usize>::empty(),
            res.view().dom().finite(),
    {
        let res = ButtonRegistry { entries: Vec::new() };
        assert(res.view() =~= Map::<Seq<char>, usize>::empty());
        res
    }

    fn position(&self, address: &String) -> (res: Option<usize>)
        ensures
            match res {
                Some(i) => i < self.entries.len() && self.entries@[i as int].0@ == address@,
                None => forall|j: int|
                    0 <= j < self.entries.len() ==> #[trigger] self.entries@[j].0@ != address@,
            },
    {
        let mut i: usize = 0;
        while i < self.entries.len()
            invariant
                i <= self.entries.len(),
                forall|j: int| 0 <= j < i ==> #[trigger] self.entries@[j].0@ != address@,
            decreases self.entries.len() - i,
        {
            if self.entries[i].0 == *address {
                return Some(i);
            }
            i = i + 1;
        }
        None
    }

    /// The slot of the button for the window at `address`.
    pub fn get(&self, address: &String) -> (res: Option<usize>)
        ensures
            res == slot_of(self.view(), address@),
    {
        proof {
            use_type_invariant(self);
        }
        match self.position(address) {
            Some(i) => {
                proof {
                    lemma_entry_in_map(self.entries@, i as int);
                }
                Some(self.entries[i].1)
            },
            None => None,
        }
    }

    /// Registers `slot` as the button of the window at `address`, in place
    /// of any button registered for it before.
    pub fn insert(&mut self, address: String, slot: usize)
        ensures
            final(self).view() == old(self).view().insert(address@, slot),
            final(self).view().dom().finite(),
    {
        proof {
            use_type_invariant(&*self);
        }
        let ghost old_entries = self.entries@;
        let ghost key = address@;
        let found = self.position(&address);
        let ghost at: int = match found {
            Some(i) => i as int,
            None => old_entries.len() as int,
        };
        let mut entries: Vec<(String, usize)> = Vec::new();
        std::mem::swap(&mut entries, &mut self.entries);
        match found {
            Some(i) => {
                entries.set(i, (address, slot));
            },
            None => {
                entries.push((address, slot));
            },
        }
        let ghost new_entries = entries@;
        assert(new_entries[at].0@ == key && new_entries[at].1 == slot);
        assert forall|j: int| 0 <= j < new_entries.len() && j != at implies new_entries[j]
            == old_entries[j] && new_entries[j].0@ != key by {}
        assert(distinct_addresses(new_entries));
        let ghost old_map = entries_map(old_entries);
        let ghost new_map = entries_map(new_entries);
        let ghost want = old_map.insert(key, slot);
        assert forall|k: Seq<char>| #[trigger] new_map.contains_key(k) <==> want.contains_key(k) by {
            if new_map.contains_key(k) && k != key {
                let j = choose|j: int| 0 <= j < new_entries.len() && #[trigger] new_entries[j].0@ == k;
                assert(old_entries[j].0@ == k);
            }
            if old_map.contains_key(k) && k != key {
                let j = choose|j: int| 0 <= j < old_entries.len() && #[trigger] old_entries[j].0@ == k;
                assert(new_entries[j].0@ == k);
            }
            if k == key {
                assert(new_entries[at].0@ == k);
            }
        }
        assert forall|k: Seq<char>| new_map.contains_key(k) implies #[trigger] new_map[k] == want[k] by {
            if k == key {
                lemma_entry_in_map(new_entries, at);
            } else {
                let j = choose|j: int| 0 <= j < old_entries.len() && #[trigger] old_entries[j].0@ == k;
                lemma_entry_in_map(old_entries, j);
                assert(new_entries[j] == old_entries[j]);
                lemma_entry_in_map(new_entries, j);
            }
        }
        assert(new_map =~= want);
        proof {
            lemma_entries_map_finite(new_entries);
        }
        self.entries = entries;
    }
}

} // verus!
