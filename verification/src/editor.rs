//! The list-editing state machine: an ordered list of validated-or-errored
//! timezone entries, an at-most-one edit cursor, and one operation per edit
//! command. After every list-mutating command the editor offers its contents
//! for persistence — but only when every entry is valid, so a transient bad
//! edit can never reach the saved configuration.

use vstd::prelude::*;

use crate::config::{config_pairs, entry_pairs, tz_pair, TzEntry, WorldClocksConfig};
use crate::tz::{derived_display, derived_display_name, ValidTz};

verus! {

/// Which field of an entry is being edited.
#[derive(Debug, Clone, Copy, PartialEq, Eq, Structural)]
pub enum ItemEditState {
    Name,
    DisplayName,
}

/// Where a reorder moves an entry.
#[derive(Debug, Clone, Copy, PartialEq, Eq, Structural)]
pub enum Direction {
    Up,
    Down,
}

/// Commands that change the list as a whole.
#[derive(Debug, Clone)]
pub enum EditList {
    NewConfig(WorldClocksConfig),
    Reorder(Direction, usize),
    AddAtEnd(),
    Remove(usize),
}

/// Commands that change one entry.
#[derive(Debug, Clone)]
pub enum EditItem {
    SetDisplayName(String),
    SetTz(String),
}

/// Every command the editor takes.
#[derive(Debug, Clone)]
pub enum Message {
    EditList(EditList),
    EditItem(usize, EditItem),
    StartEditing(usize, ItemEditState),
    CancelEditing,
    Input(String),
}

impl From<EditList> for Message {
    fn from(value: EditList) -> (r: Self) {
        Message::EditList(value)
    }
}

impl vstd::std_specs::convert::FromSpecImpl<EditList> for Message {
    open spec fn obeys_from_spec() -> bool {
        true
    }

    open spec fn from_spec(value: EditList) -> Self {
        Message::EditList(value)
    }
}

impl From<(usize, EditItem)> for Message {
    fn from(value: (usize, EditItem)) -> (r: Self) {
        Message::EditItem(value.0, value.1)
    }
}

impl vstd::std_specs::convert::FromSpecImpl<(usize, EditItem)> for Message {
    open spec fn obeys_from_spec() -> bool {
        true
    }

    open spec fn from_spec(value: (usize, EditItem)) -> Self {
        Message::EditItem(value.0, value.1)
    }
}

/// What the editor hands back to its surroundings: a fully valid snapshot,
/// ready to persist.
#[derive(Debug, Clone)]
pub enum Output {
    NewConfig(WorldClocksConfig),
}

/// The unit held by the editor. An entry is always in exactly one of the two
/// states; the persisted pair is retained verbatim either way, so editing can
/// resume from the last attempted value. Transitions between the states
/// happen only through re-validation.
pub enum Entry {
    /// The identifier resolved: `rules` holds the loaded zone rules.
    Valid { tz: TzEntry, rules: tzfile::Tz },
    /// The identifier did not resolve; `error` is the human-readable
    /// diagnosis.
    Invalid { tz: TzEntry, error: String },
}

impl Entry {
    pub open spec fn spec_identifier(&self) -> Seq<char> {
        match self {
            Entry::Valid { tz, .. } => tz.name@,
            Entry::Invalid { tz, .. } => tz.name@,
        }
    }

    pub open spec fn spec_display(&self) -> Seq<char> {
        match self {
            Entry::Valid { tz, .. } => tz.display_name@,
            Entry::Invalid { tz, .. } => tz.display_name@,
        }
    }

    /// The entry's persisted content.
    pub open spec fn spec_pair(&self) -> (Seq<char>, Seq<char>) {
        (self.spec_identifier(), self.spec_display())
    }

    pub open spec fn is_valid(&self) -> bool {
        self matches Entry::Valid { .. }
    }

    /// The loaded zone rules, when the entry is valid.
    pub open spec fn spec_rules(&self) -> Option<tzfile::Tz> {
        match self {
            Entry::Valid { rules, .. } => Some(*rules),
            Entry::Invalid { .. } => None,
        }
    }

    /// The diagnosis, when the entry is invalid.
    pub open spec fn spec_error(&self) -> Seq<char> {
        match self {
            Entry::Valid { .. } => Seq::empty(),
            Entry::Invalid { error, .. } => error@,
        }
    }

    /// The persisted pair this entry holds.
    pub fn tz(&self) -> (t: &TzEntry)
        ensures
            tz_pair(*t) == self.spec_pair(),
    {
        match self {
            Entry::Valid { tz, .. } => tz,
            Entry::Invalid { tz, .. } => tz,
        }
    }

    /// The diagnosis, when there is one.
    pub fn error(&self) -> (r: Option<&String>)
        ensures
            match r {
                Some(e) => !self.is_valid() && e@ == self.spec_error(),
                None => self.is_valid(),
            },
    {
        match self {
            Entry::Valid { .. } => None,
            Entry::Invalid { error, .. } => Some(error),
        }
    }
}

/// Validates one persisted pair: resolves its identifier against the zone
/// database and wraps the pair as Valid or Invalid. Total — every input
/// yields exactly one of the two states — and the pair is preserved verbatim
/// whichever way resolution goes.
pub fn validate(tz: TzEntry) -> (e: Entry)
    ensures
        e.spec_pair() == tz_pair(tz),
        !e.is_valid() ==> e.spec_error() == "Couldn't load timezone "@ + tz.name@,
{
    let resolved = ValidTz::from_names(tz.name.as_str(), tz.display_name.as_str());
    match resolved {
        Ok(v) => Entry::Valid { tz, rules: v.tz },
        Err(e) => {
            let error = e.message();
            Entry::Invalid { tz, error }
        },
    }
}

/// Builds and validates an entry from a freshly chosen identifier, deriving
/// its display name from the identifier's last path segment.
pub fn tz_from_name(name: String) -> (e: Entry)
    ensures
        e.spec_identifier() == name@,
        e.spec_display() == derived_display(name@),
{
    let display_name = derived_display_name(name.as_str());
    validate(TzEntry { name, display_name })
}

/// The (identifier, display name) pairs of a list of entries, in order.
pub open spec fn pairs(s: Seq<Entry>) -> Seq<(Seq<char>, Seq<char>)> {
    Seq::new(s.len(), |i: int| s[i].spec_pair())
}

/// `entries` is a validation of `snapshot`: one entry per snapshot pair, in
/// order, each preserving its pair verbatim.
pub open spec fn validates_snapshot(snapshot: Seq<TzEntry>, entries: Seq<Entry>) -> bool {
    &&& entries.len() == snapshot.len()
    &&& forall|k: int|
        0 <= k < snapshot.len() ==> (#[trigger] entries[k]).spec_pair() == tz_pair(snapshot[k])
}

pub open spec fn all_valid(s: Seq<Entry>) -> bool {
    forall|i: int| 0 <= i < s.len() ==> (#[trigger] s[i]).is_valid()
}

/// The persistence gate: a snapshot is offered exactly when every entry is
/// valid, and then it reproduces the entries' pairs exactly.
pub open spec fn gate_spec(s: Seq<Entry>, out: Option<Output>) -> bool {
    match out {
        Some(Output::NewConfig(c)) => all_valid(s) && config_pairs(c) == pairs(s),
        None => !all_valid(s),
    }
}

/// The editor's whole state: the ordered entries, the at-most-one edit
/// cursor, and the transient input buffers the UI pre-populates.
pub struct Editor {
    pub text_input_buf: String,
    pub tz_input_buf: Option<String>,
    pub editing_item: Option<(usize, ItemEditState)>,
    pub tzs: Vec<Entry>,
}

impl Editor {
    /// The editor's invariant: the edit cursor, when set, indexes an entry.
    pub open spec fn wf(&self) -> bool {
        match self.editing_item {
            Some((i, _)) => (i as int) < self.tzs@.len(),
            None => true,
        }
    }

    /// Builds the editor from a loaded configuration snapshot, validating
    /// every entry in snapshot order; no edit is in progress.
    pub fn new(config: WorldClocksConfig) -> (e: Editor)
        ensures
            e.wf(),
            validates_snapshot(config.timezones@, e.tzs@),
            pairs(e.tzs@) == config_pairs(config),
            e.editing_item is None,
            e.text_input_buf@ == Seq::<char>::empty(),
            e.tz_input_buf is None,
    {
        Editor {
            text_input_buf: String::new(),
            tz_input_buf: None,
            editing_item: None,
            tzs: validated_entries(&config.timezones),
        }
    }

    /// The persistence gate: clones the entries' pairs into a snapshot if and
    /// only if every entry is currently valid. A list with any invalid entry
    /// is never offered for persistence.
    fn maybe_update_config(&self) -> (out: Option<Output>)
        ensures
            gate_spec(self.tzs@, out),
    {
        let mut timezones: Vec<TzEntry> = Vec::new();
        let mut i: usize = 0;
        while i < self.tzs.len()
            invariant
                0 <= i <= self.tzs@.len(),
                forall|k: int| 0 <= k < i ==> (#[trigger] self.tzs@[k]).is_valid(),
                timezones@.len() == i,
                forall|k: int|
                    0 <= k < i ==> tz_pair(#[trigger] timezones@[k]) == self.tzs@[k].spec_pair(),
            decreases self.tzs@.len() - i,
        {
            match &self.tzs[i] {
                Entry::Valid { tz, .. } => {
                    timezones.push(tz.clone());
                },
                Entry::Invalid { .. } => {
                    return None;
                },
            }
            i = i + 1;
        }
        proof {
            assert(entry_pairs(timezones@) =~= pairs(self.tzs@));
        }
        Some(Output::NewConfig(WorldClocksConfig { timezones }))
    }

    /// Applies one edit command, atomically from the caller's point of view.
    /// The returned output, when there is one, is a fully valid snapshot to
    /// persist: a list holding an invalid entry never produces one.
    pub fn update(&mut self, msg: Message) -> (out: Option<Output>)
        requires
            old(self).wf(),
        ensures
            final(self).wf(),
            update_transition(*old(self), *final(self), msg, out),
    {
        match msg {
            Message::EditList(el) => match el {
                EditList::Reorder(dir, i) => {
                    let len = self.tzs.len();
                    let j: usize = match dir {
                        Direction::Up => {
                            if i == 0 || i >= len {
                                return None;
                            }
                            i - 1
                        },
                        Direction::Down => {
                            if i >= len || i + 1 >= len {
                                return None;
                            }
                            i + 1
                        },
                    };
                    let lo = if i < j {
                        i
                    } else {
                        j
                    };
                    let moved = self.tzs.remove(lo);
                    self.tzs.insert(lo + 1, moved);
                    proof {
                        assert(self.tzs@ =~= swapped(old(self).tzs@, i as int, j as int));
                    }
                    match self.editing_item {
                        Some((k, f)) => {
                            if k == i {
                                self.editing_item = Some((j, f));
                            } else if k == j {
                                self.editing_item = Some((i, f));
                            }
                        },
                        None => {},
                    }
                    self.maybe_update_config()
                },
                EditList::AddAtEnd() => {
                    let tz = TzEntry {
                        name: "Middle_Earth/Mordor".to_owned(),
                        display_name: "Mordor".to_owned(),
                    };
                    let error = "please choose a timezone".to_owned();
                    self.tzs.push(Entry::Invalid { tz, error });
                    proof {
                        assert(self.tzs@.drop_last() =~= old(self).tzs@);
                        assert(!self.tzs@[self.tzs@.len() - 1].is_valid());
                    }
                    self.maybe_update_config()
                },
                EditList::Remove(i) => {
                    if i >= self.tzs.len() {
                        return None;
                    }
                    let _removed = self.tzs.remove(i);
                    match self.editing_item {
                        Some((k, f)) => {
                            if k == i {
                                self.editing_item = None;
                            } else if k > i {
                                self.editing_item = Some((k - 1, f));
                            }
                        },
                        None => {},
                    }
                    self.maybe_update_config()
                },
                EditList::NewConfig(c) => {
                    self.tzs = validated_entries(&c.timezones);
                    self.editing_item = None;
                    self.maybe_update_config()
                },
            },
            Message::EditItem(i, ei) => {
                if i >= self.tzs.len() {
                    return None;
                }
                match ei {
                    EditItem::SetDisplayName(new_display_name) => {
                        let e = self.tzs.remove(i);
                        let e2 = match e {
                            Entry::Valid { tz, rules } => Entry::Valid {
                                tz: TzEntry { name: tz.name, display_name: new_display_name },
                                rules,
                            },
                            Entry::Invalid { tz, error } => Entry::Invalid {
                                tz: TzEntry { name: tz.name, display_name: new_display_name },
                                error,
                            },
                        };
                        self.tzs.insert(i, e2);
                        proof {
                            assert(self.tzs@ =~= old(self).tzs@.update(i as int, e2));
                        }
                    },
                    EditItem::SetTz(new_name) => {
                        // When the user picks the zone the entry already has,
                        // the display name is deliberately not re-derived.
                        let same = match &self.tzs[i] {
                            Entry::Valid { tz, .. } => new_name == tz.name,
                            Entry::Invalid { tz, .. } => new_name == tz.name,
                        };
                        if !same {
                            let e2 = tz_from_name(new_name);
                            let _replaced = self.tzs.remove(i);
                            self.tzs.insert(i, e2);
                            proof {
                                assert(self.tzs@ =~= old(self).tzs@.update(i as int, e2));
                            }
                        }
                    },
                }
                self.editing_item = None;
                self.maybe_update_config()
            },
            Message::StartEditing(i, f) => {
                if i >= self.tzs.len() {
                    return None;
                }
                let t = self.tzs[i].tz();
                match f {
                    ItemEditState::DisplayName => {
                        self.text_input_buf = t.display_name.clone();
                    },
                    ItemEditState::Name => {
                        self.tz_input_buf = Some(t.name.clone());
                    },
                }
                self.editing_item = Some((i, f));
                None
            },
            Message::CancelEditing => {
                self.editing_item = None;
                None
            },
            Message::Input(s) => {
                self.text_input_buf = s;
                None
            },
        }
    }
}

/// Law: retargeting an entry to the identifier it already has is idempotent —
/// it leaves every entry, in particular every display name, unchanged, the
/// first time and the second time alike.
pub proof fn lemma_set_same_identifier_idempotent(
    s0: Seq<Entry>,
    s1: Seq<Entry>,
    s2: Seq<Entry>,
    i: int,
    id: Seq<char>,
)
    requires
        0 <= i < s0.len(),
        id == s0[i].spec_identifier(),
        set_tz_transition(s0, s1, i, id),
        set_tz_transition(s1, s2, i, id),
    ensures
        s1 == s0,
        s2 == s0,
{
}

/// Law: a reorder at the boundary — Up at the first entry or Down at the
/// last — has no swap target, so the command changes nothing at all: entry
/// order, edit cursor and buffers all keep their values, and no output is
/// produced.
pub proof fn lemma_reorder_boundary_noop(
    pre: Editor,
    post: Editor,
    dir: Direction,
    i: usize,
    out: Option<Output>,
)
    requires
        edit_list_transition(pre, post, EditList::Reorder(dir, i), out),
        (dir == Direction::Up && i == 0) || (dir == Direction::Down && i + 1 >= pre.tzs@.len()),
    ensures
        post == pre,
        out is None,
{
}

/// Law: a list holding any invalid entry is never persisted.
pub proof fn lemma_invalid_never_saved(s: Seq<Entry>, out: Option<Output>, i: int)
    requires
        gate_spec(s, out),
        0 <= i < s.len(),
        !s[i].is_valid(),
    ensures
        out is None,
{
}

/// The neighbour a reorder swaps with, when the move is possible: the index
/// must name an entry that is not at the boundary in the given direction.
pub open spec fn reorder_target(dir: Direction, i: int, len: int) -> Option<int> {
    match dir {
        Direction::Up => if 1 <= i < len {
            Some(i - 1)
        } else {
            None
        },
        Direction::Down => if 0 <= i && i + 1 < len {
            Some(i + 1)
        } else {
            None
        },
    }
}

/// The entry order after swapping positions `i` and `j`.
pub open spec fn swapped(s: Seq<Entry>, i: int, j: int) -> Seq<Entry> {
    s.update(i, s[j]).update(j, s[i])
}

/// Where the cursor points after a swap of `i` and `j`: it tracks its entry,
/// so a cursor on either swapped position moves with its entry.
pub open spec fn cursor_after_swap(cur: Option<(usize, ItemEditState)>, i: int, j: int) -> Option<
    (usize, ItemEditState),
> {
    match cur {
        Some((k, f)) => if k as int == i {
            Some((j as usize, f))
        } else if k as int == j {
            Some((i as usize, f))
        } else {
            Some((k, f))
        },
        None => None,
    }
}

/// Where the cursor points after removing the entry at `i`: a cursor on the
/// removed entry is cleared; one past it keeps pointing at its entry.
pub open spec fn cursor_after_remove(cur: Option<(usize, ItemEditState)>, i: int) -> Option<
    (usize, ItemEditState),
> {
    match cur {
        Some((k, f)) => if k as int == i {
            None
        } else if k as int > i {
            Some(((k - 1) as usize, f))
        } else {
            Some((k, f))
        },
        None => None,
    }
}

/// The sentinel appended by AddAtEnd: deliberately Invalid, with a fixed
/// placeholder pair and an error prompting the user to choose a timezone, so
/// the list never silently gains a valid-looking entry the user did not pick.
pub open spec fn is_sentinel_entry(e: Entry) -> bool {
    &&& !e.is_valid()
    &&& e.spec_identifier() == "Middle_Earth/Mordor"@
    &&& e.spec_display() == "Mordor"@
    &&& e.spec_error() == "please choose a timezone"@
}

/// How SetDisplayName relates the entries before and after: the label at `i`
/// is rewritten in place; identifier, zone rules and diagnosis keep their
/// values, and no identifier is re-resolved.
pub open spec fn set_display_transition(
    pre: Seq<Entry>,
    post: Seq<Entry>,
    i: int,
    d: Seq<char>,
) -> bool {
    &&& post.len() == pre.len()
    &&& post[i].spec_identifier() == pre[i].spec_identifier()
    &&& post[i].spec_display() == d
    &&& post[i].spec_rules() == pre[i].spec_rules()
    &&& post[i].spec_error() == pre[i].spec_error()
    &&& forall|k: int| 0 <= k < pre.len() && k != i ==> #[trigger] post[k] == pre[k]
}

/// How SetTz relates the entries before and after: retargeting the entry at
/// `i` to the identifier it already has changes no entry (in particular the
/// display name is untouched); a genuinely new identifier replaces the entry
/// wholesale, with the display name re-derived. Whether the replacement is
/// Valid depends on the zone database, so it is not pinned here.
pub open spec fn set_tz_transition(
    pre: Seq<Entry>,
    post: Seq<Entry>,
    i: int,
    id: Seq<char>,
) -> bool {
    if id == pre[i].spec_identifier() {
        post == pre
    } else {
        &&& post.len() == pre.len()
        &&& post[i].spec_identifier() == id
        &&& post[i].spec_display() == derived_display(id)
        &&& forall|k: int| 0 <= k < pre.len() && k != i ==> #[trigger] post[k] == pre[k]
    }
}

/// How one whole-list command relates the editor state before and after, and
/// what it returned. Every accepted mutation runs the persistence gate; a
/// rejected one (reorder at a boundary, removal out of range) changes nothing
/// and returns nothing.
pub open spec fn edit_list_transition(
    pre: Editor,
    post: Editor,
    el: EditList,
    out: Option<Output>,
) -> bool {
    match el {
        EditList::NewConfig(c) => {
            &&& validates_snapshot(c.timezones@, post.tzs@)
            &&& pairs(post.tzs@) == config_pairs(c)
            &&& post.editing_item is None
            &&& post.text_input_buf == pre.text_input_buf
            &&& post.tz_input_buf == pre.tz_input_buf
            &&& gate_spec(post.tzs@, out)
        },
        EditList::Reorder(dir, i) => match reorder_target(dir, i as int, pre.tzs@.len() as int) {
            Some(j) => {
                &&& post.tzs@ == swapped(pre.tzs@, i as int, j)
                &&& post.editing_item == cursor_after_swap(pre.editing_item, i as int, j)
                &&& post.text_input_buf == pre.text_input_buf
                &&& post.tz_input_buf == pre.tz_input_buf
                &&& gate_spec(post.tzs@, out)
            },
            None => post == pre && out is None,
        },
        EditList::AddAtEnd() => {
            &&& post.tzs@.len() == pre.tzs@.len() + 1
            &&& post.tzs@.drop_last() == pre.tzs@
            &&& is_sentinel_entry(post.tzs@.last())
            &&& post.editing_item == pre.editing_item
            &&& post.text_input_buf == pre.text_input_buf
            &&& post.tz_input_buf == pre.tz_input_buf
            &&& out is None
        },
        EditList::Remove(i) => if (i as int) < pre.tzs@.len() {
            &&& post.tzs@ == pre.tzs@.remove(i as int)
            &&& post.editing_item == cursor_after_remove(pre.editing_item, i as int)
            &&& post.text_input_buf == pre.text_input_buf
            &&& post.tz_input_buf == pre.tz_input_buf
            &&& gate_spec(post.tzs@, out)
        } else {
            post == pre && out is None
        },
    }
}

/// How one per-entry command relates the editor state before and after: an
/// index out of range is rejected without any change; otherwise the entry
/// changes as the command says, the edit cursor is cleared, and the
/// persistence gate runs.
pub open spec fn edit_item_transition(
    pre: Editor,
    post: Editor,
    i: int,
    ei: EditItem,
    out: Option<Output>,
) -> bool {
    if 0 <= i < pre.tzs@.len() {
        &&& match ei {
            EditItem::SetDisplayName(s) => set_display_transition(pre.tzs@, post.tzs@, i, s@),
            EditItem::SetTz(name) => set_tz_transition(pre.tzs@, post.tzs@, i, name@),
        }
        &&& post.editing_item is None
        &&& post.text_input_buf == pre.text_input_buf
        &&& post.tz_input_buf == pre.tz_input_buf
        &&& gate_spec(post.tzs@, out)
    } else {
        post == pre && out is None
    }
}

/// How StartEditing relates the states: in range, the cursor is set and the
/// field's current value seeds the matching input buffer, so the editor UI
/// can pre-populate it; out of range, the command is rejected without change.
pub open spec fn start_editing_transition(
    pre: Editor,
    post: Editor,
    i: int,
    f: ItemEditState,
) -> bool {
    if 0 <= i < pre.tzs@.len() {
        &&& post.tzs@ == pre.tzs@
        &&& post.editing_item == Some((i as usize, f))
        &&& match f {
            ItemEditState::DisplayName => post.text_input_buf@ == pre.tzs@[i].spec_display()
                && post.tz_input_buf == pre.tz_input_buf,
            ItemEditState::Name => (post.tz_input_buf matches Some(b) && b@
                == pre.tzs@[i].spec_identifier()) && post.text_input_buf == pre.text_input_buf,
        }
    } else {
        post == pre
    }
}

/// How one command relates the whole editor state before and after, and what
/// the command returned.
pub open spec fn update_transition(
    pre: Editor,
    post: Editor,
    msg: Message,
    out: Option<Output>,
) -> bool {
    match msg {
        Message::EditList(el) => edit_list_transition(pre, post, el, out),
        Message::EditItem(i, ei) => edit_item_transition(pre, post, i as int, ei, out),
        Message::StartEditing(i, f) => start_editing_transition(pre, post, i as int, f) && out
            is None,
        Message::CancelEditing => {
            &&& post.tzs@ == pre.tzs@
            &&& post.editing_item is None
            &&& post.text_input_buf == pre.text_input_buf
            &&& post.tz_input_buf == pre.tz_input_buf
            &&& out is None
        },
        Message::Input(s) => {
            &&& post.tzs@ == pre.tzs@
            &&& post.editing_item == pre.editing_item
            &&& post.text_input_buf == s
            &&& post.tz_input_buf == pre.tz_input_buf
            &&& out is None
        },
    }
}

/// Validates a snapshot's entries one by one, in snapshot order. The result
/// reproduces the snapshot's pairs exactly, whatever each validation decided.
fn validated_entries(snapshot: &Vec<TzEntry>) -> (r: Vec<Entry>)
    ensures
        validates_snapshot(snapshot@, r@),
        pairs(r@) == entry_pairs(snapshot@),
{
    let mut r: Vec<Entry> = Vec::new();
    let mut i: usize = 0;
    while i < snapshot.len()
        invariant
            0 <= i <= snapshot@.len(),
            r@.len() == i,
            forall|k: int| 0 <= k < i ==> (#[trigger] r@[k]).spec_pair() == tz_pair(snapshot@[k]),
        decreases snapshot@.len() - i,
    {
        let e = validate(snapshot[i].clone());
        r.push(e);
        i = i + 1;
    }
    proof {
        assert(pairs(r@) =~= entry_pairs(snapshot@));
    }
    r
}

} // verus!
