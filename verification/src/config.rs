//! The persisted configuration snapshot: an ordered list of
//! (identifier, display name) pairs. Validity is never persisted; it is
//! recomputed when a snapshot is loaded.

use vstd::prelude::*;

verus! {

/// One persisted timezone entry: the zone identifier (`Europe/London`) and
/// the label the user chose for it.
#[derive(Debug)]
pub struct TzEntry {
    pub name: String,
    pub display_name: String,
}

impl Clone for TzEntry {
    fn clone(&self) -> (r: Self)
        ensures
            tz_pair(r) == tz_pair(*self),
    {
        TzEntry { name: self.name.clone(), display_name: self.display_name.clone() }
    }
}

impl PartialEq for TzEntry {
    fn eq(&self, other: &Self) -> (r: bool) {
        self.name == other.name && self.display_name == other.display_name
    }
}

impl vstd::std_specs::cmp::PartialEqSpecImpl for TzEntry {
    open spec fn obeys_eq_spec() -> bool {
        true
    }

    open spec fn eq_spec(&self, other: &Self) -> bool {
        self.name@ == other.name@ && self.display_name@ == other.display_name@
    }
}

impl Eq for TzEntry {

}

/// The mathematical content of one persisted entry.
pub open spec fn tz_pair(t: TzEntry) -> (Seq<char>, Seq<char>) {
    (t.name@, t.display_name@)
}

/// A complete configuration snapshot, in display order.
#[derive(Debug, Clone)]
pub struct WorldClocksConfig {
    pub timezones: Vec<TzEntry>,
}

/// The (identifier, display name) pairs of a list of persisted entries, in
/// order.
pub open spec fn entry_pairs(ts: Seq<TzEntry>) -> Seq<(Seq<char>, Seq<char>)> {
    Seq::new(ts.len(), |i: int| tz_pair(ts[i]))
}

/// The mathematical content of a snapshot: its (identifier, display name)
/// pairs, in order.
pub open spec fn config_pairs(c: WorldClocksConfig) -> Seq<(Seq<char>, Seq<char>)> {
    entry_pairs(c.timezones@)
}

impl Default for WorldClocksConfig {
    /// The built-in snapshot used when no prior configuration exists:
    /// UTC, Europe/London and Australia/Perth.
    fn default() -> (c: Self)
        ensures
            c.timezones@.len() == 3,
            tz_pair(c.timezones@[0]) == ("Etc/UTC"@, "UTC"@),
            tz_pair(c.timezones@[1]) == ("Europe/London"@, "London"@),
            tz_pair(c.timezones@[2]) == ("Australia/Perth"@, "Perth"@),
    {
        let mut timezones: Vec<TzEntry> = Vec::new();
        timezones.push(TzEntry { name: "Etc/UTC".to_owned(), display_name: "UTC".to_owned() });
        timezones.push(
            TzEntry { name: "Europe/London".to_owned(), display_name: "London".to_owned() },
        );
        timezones.push(
            TzEntry { name: "Australia/Perth".to_owned(), display_name: "Perth".to_owned() },
        );
        WorldClocksConfig { timezones }
    }
}

} // verus!
