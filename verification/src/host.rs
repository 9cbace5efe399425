//! The host function table: what the guest may call into the host, and the
//! execution contract of each entry.
//!
//! An entry's behaviour is one of a small closed set of shapes — it returns
//! a value, it returns a declared error the guest can observe, or its
//! execution cannot complete and raises an uncontained fatal failure — so
//! the dispatcher can classify any call mechanically.

use vstd::prelude::*;

use crate::bytes::bytes_eq;

verus! {

/// The execution contract of one host function.
#[derive(Clone, Debug, PartialEq, Eq)]
pub enum HostBehavior {
    /// Returns a value; never fails.
    PureSuccess(u64),
    /// Returns a typed error value that the guest observes and reports
    /// without being trapped.
    DeclarableFailure(Vec<u8>),
    /// Cannot complete: raises a fatal host failure that escalates past all
    /// outcome classification.
    FatalFailure(Vec<u8>),
}

/// Mathematical model of a `HostBehavior`.
pub ghost enum BehaviorModel {
    PureSuccess(u64),
    DeclarableFailure(Seq<u8>),
    FatalFailure(Seq<u8>),
}

impl View for HostBehavior {
    type V = BehaviorModel;

    open spec fn view(&self) -> BehaviorModel {
        match self {
            HostBehavior::PureSuccess(v) => BehaviorModel::PureSuccess(*v),
            HostBehavior::DeclarableFailure(m) => BehaviorModel::DeclarableFailure(m@),
            HostBehavior::FatalFailure(m) => BehaviorModel::FatalFailure(m@),
        }
    }
}

/// One named host function: its name, the arity of its signature, and its
/// execution contract.
#[derive(Clone, Debug, PartialEq, Eq)]
pub struct HostEntry {
    pub name: Vec<u8>,
    pub arity: u64,
    pub behavior: HostBehavior,
}

/// Mathematical model of a `HostEntry`.
pub ghost struct EntryModel {
    pub name: Seq<u8>,
    pub arity: u64,
    pub behavior: BehaviorModel,
}

impl View for HostEntry {
    type V = EntryModel;

    open spec fn view(&self) -> EntryModel {
        EntryModel { name: self.name@, arity: self.arity, behavior: self.behavior@ }
    }
}

/// Mathematical model of a host function table: the entries in insertion
/// order, with pairwise distinct names.
pub ghost struct TableModel {
    pub entries: Seq<EntryModel>,
}

impl TableModel {
    /// Names are pairwise distinct, so each name denotes one entry.
    pub open spec fn wf(self) -> bool {
        forall|i: int, j: int|
            0 <= i < j < self.entries.len() ==> #[trigger] self.entries[i].name != #[trigger] self.entries[j].name
    }

    /// Some entry carries this name.
    pub open spec fn contains_name(self, name: Seq<u8>) -> bool {
        exists|i: int| 0 <= i < self.entries.len() && #[trigger] self.entries[i].name == name
    }

    /// The entry carrying this name (meaningful when `contains_name` holds
    /// and the table is well formed).
    pub open spec fn entry_of(self, name: Seq<u8>) -> EntryModel {
        self.entries[choose|i: int| 0 <= i < self.entries.len() && #[trigger] self.entries[i].name == name]
    }

    /// The execution contract registered under this name.
    pub open spec fn behavior_of(self, name: Seq<u8>) -> BehaviorModel {
        self.entry_of(name).behavior
    }
}

/// In a well-formed table, looking a name up lands on the one entry that
/// carries it: the entry at any index is the entry of its own name.
pub proof fn lemma_table_lookup(t: TableModel, i: int)
    requires
        t.wf(),
        0 <= i < t.entries.len(),
    ensures
        t.contains_name(t.entries[i].name),
        t.entry_of(t.entries[i].name) == t.entries[i],
{
    assert(t.contains_name(t.entries[i].name));
    let c = choose|j: int|
        0 <= j < t.entries.len() && #[trigger] t.entries[j].name == t.entries[i].name;
    if c < i {
        assert(t.entries[c].name != t.entries[i].name);
    }
    if i < c {
        assert(t.entries[i].name != t.entries[c].name);
    }
}

/// The set of functions the guest is permitted to call into the host.
/// Built once, then shared read-only across instantiations.
#[derive(Clone, Debug, PartialEq, Eq)]
pub struct HostTable {
    pub entries: Vec<HostEntry>,
}

impl View for HostTable {
    type V = TableModel;

    open spec fn view(&self) -> TableModel {
        TableModel { entries: self.entries@.map_values(|e: HostEntry| e@) }
    }
}

impl HostTable {
    /// An empty table, trivially well formed.
    pub fn new() -> (t: HostTable)
        ensures
            t@.entries.len() == 0,
            t@.wf(),
    {
        HostTable { entries: Vec::new() }
    }

    /// The index of the entry carrying this name, if any.
    pub fn find(&self, name: &Vec<u8>) -> (r: Option<usize>)
        ensures
            match r {
                Some(i) => i < self@.entries.len() && self@.entries[i as int].name == name@,
                None => !self@.contains_name(name@),
            },
    {
        let mut i: usize = 0;
        while i < self.entries.len()
            invariant
                0 <= i <= self.entries.len(),
                self@.entries.len() == self.entries@.len(),
                forall|j: int| 0 <= j < i ==> #[trigger] self@.entries[j].name != name@,
        decreases self.entries.len() - i,
        {
            if bytes_eq(&self.entries[i].name, name) {
                return Some(i);
            }
            i += 1;
        }
        None
    }

    /// Registers one host function. Returns `true` and appends the entry
    /// when the name is fresh; leaves the table unchanged and returns
    /// `false` when the name is already taken, so a well-formed table stays
    /// well formed.
    pub fn insert(&mut self, name: Vec<u8>, arity: u64, behavior: HostBehavior) -> (fresh: bool)
        ensures
            fresh <==> !old(self)@.contains_name(name@),
            fresh ==> final(self)@.entries == old(self)@.entries.push(
                EntryModel { name: name@, arity: arity, behavior: behavior@ },
            ),
            !fresh ==> final(self)@ == old(self)@,
            old(self)@.wf() ==> final(self)@.wf(),
    {
        let taken = self.find(&name);
        match taken {
            Some(_) => false,
            None => {
                let ghost before = self@.entries;
                self.entries.push(HostEntry { name, arity, behavior });
                proof {
                    assert(self@.entries =~= before.push(self@.entries.last()));
                }
                true
            }
        }
    }
}

} // verus!
