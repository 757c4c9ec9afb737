//! Scenario tests for the list-editing state machine, run against the real
//! system zone database.

use world_clocks::config::{TzEntry, WorldClocksConfig};
use world_clocks::editor::{
    validate, Direction, EditItem, EditList, Editor, Entry, ItemEditState, Message, Output,
};

fn tz(name: &str, display_name: &str) -> TzEntry {
    TzEntry { name: name.to_string(), display_name: display_name.to_string() }
}

fn editor_from(pairs: &[(&str, &str)]) -> Editor {
    let timezones: Vec<TzEntry> = pairs.iter().map(|(n, d)| tz(n, d)).collect();
    Editor::new(WorldClocksConfig { timezones })
}

fn entry_pair(e: &Entry) -> (String, String) {
    let t = e.tz();
    (t.name.clone(), t.display_name.clone())
}

fn saved_pairs(out: &Option<Output>) -> Option<Vec<(String, String)>> {
    match out {
        Some(Output::NewConfig(c)) => Some(
            c.timezones.iter().map(|t| (t.name.clone(), t.display_name.clone())).collect(),
        ),
        None => None,
    }
}

#[test]
fn validate_is_total_and_preserves_the_pair() {
    let good = validate(tz("Etc/UTC", "UTC"));
    assert!(matches!(good, Entry::Valid { .. }));
    assert_eq!(entry_pair(&good), ("Etc/UTC".to_string(), "UTC".to_string()));

    let bad = validate(tz("Not/AZone", "X"));
    assert!(matches!(bad, Entry::Invalid { .. }));
    assert_eq!(entry_pair(&bad), ("Not/AZone".to_string(), "X".to_string()));
}

#[test]
fn malformed_identifier_is_preserved_verbatim() {
    let e = validate(tz("Not/AZone", "X"));
    let t = e.tz();
    assert_eq!(t.name, "Not/AZone".to_string());
    assert_eq!(t.display_name, "X".to_string());
    let msg = e.error().expect("a malformed identifier must be Invalid");
    assert_eq!(msg, "Couldn't load timezone Not/AZone");
}

#[test]
fn add_then_validate() {
    let mut ed = editor_from(&[("Etc/UTC", "UTC")]);
    assert!(matches!(ed.tzs[0], Entry::Valid { .. }));

    let out = ed.update(Message::EditList(EditList::AddAtEnd()));
    assert!(out.is_none(), "a list with the sentinel entry must not be saved");
    assert_eq!(ed.tzs.len(), 2);
    assert_eq!(entry_pair(&ed.tzs[0]), ("Etc/UTC".to_string(), "UTC".to_string()));
    assert_eq!(
        entry_pair(&ed.tzs[1]),
        ("Middle_Earth/Mordor".to_string(), "Mordor".to_string()),
    );
    assert_eq!(
        ed.tzs[1].error().expect("the sentinel must be Invalid"),
        "please choose a timezone",
    );
}

#[test]
fn fix_invalid_entry() {
    let mut ed = editor_from(&[("Etc/UTC", "UTC")]);
    let out = ed.update(Message::EditList(EditList::AddAtEnd()));
    assert!(out.is_none());

    let out = ed.update(Message::EditItem(
        1,
        EditItem::SetTz("Europe/London".to_string()),
    ));
    assert!(matches!(ed.tzs[1], Entry::Valid { .. }));
    assert_eq!(
        entry_pair(&ed.tzs[1]),
        ("Europe/London".to_string(), "London".to_string()),
    );
    assert_eq!(
        saved_pairs(&out).expect("a fully valid list must be saved"),
        vec![
            ("Etc/UTC".to_string(), "UTC".to_string()),
            ("Europe/London".to_string(), "London".to_string()),
        ],
    );
}

#[test]
fn remove_clears_cursor() {
    let mut ed = editor_from(&[("Etc/UTC", "UTC"), ("Europe/London", "London")]);
    let out = ed.update(Message::StartEditing(1, ItemEditState::DisplayName));
    assert!(out.is_none());
    assert!(matches!(ed.editing_item, Some((1, ItemEditState::DisplayName))));

    ed.update(Message::EditList(EditList::Remove(1)));
    assert!(ed.editing_item.is_none());
    assert_eq!(ed.tzs.len(), 1);
}

#[test]
fn reorder_at_boundaries_is_a_noop() {
    let mut ed = editor_from(&[("Etc/UTC", "UTC"), ("Europe/London", "London")]);
    ed.update(Message::StartEditing(0, ItemEditState::Name));
    let cursor_before = ed.editing_item;

    let out = ed.update(Message::EditList(EditList::Reorder(Direction::Up, 0)));
    assert!(out.is_none());
    assert_eq!(entry_pair(&ed.tzs[0]).0, "Etc/UTC");
    assert_eq!(entry_pair(&ed.tzs[1]).0, "Europe/London");
    assert_eq!(ed.editing_item, cursor_before);

    let out = ed.update(Message::EditList(EditList::Reorder(Direction::Down, 1)));
    assert!(out.is_none());
    assert_eq!(entry_pair(&ed.tzs[0]).0, "Etc/UTC");
    assert_eq!(entry_pair(&ed.tzs[1]).0, "Europe/London");
    assert_eq!(ed.editing_item, cursor_before);
}

#[test]
fn reorder_swaps_and_the_cursor_tracks_its_entry() {
    let mut ed = editor_from(&[
        ("Etc/UTC", "UTC"),
        ("Europe/London", "London"),
        ("Australia/Perth", "Perth"),
    ]);
    ed.update(Message::StartEditing(0, ItemEditState::DisplayName));

    let out = ed.update(Message::EditList(EditList::Reorder(Direction::Down, 0)));
    assert_eq!(entry_pair(&ed.tzs[0]).0, "Europe/London");
    assert_eq!(entry_pair(&ed.tzs[1]).0, "Etc/UTC");
    assert_eq!(entry_pair(&ed.tzs[2]).0, "Australia/Perth");
    assert!(matches!(ed.editing_item, Some((1, ItemEditState::DisplayName))));
    assert!(saved_pairs(&out).is_some());

    let out = ed.update(Message::EditList(EditList::Reorder(Direction::Up, 1)));
    assert_eq!(entry_pair(&ed.tzs[0]).0, "Etc/UTC");
    assert_eq!(entry_pair(&ed.tzs[1]).0, "Europe/London");
    assert!(matches!(ed.editing_item, Some((0, ItemEditState::DisplayName))));
    assert!(saved_pairs(&out).is_some());
}

#[test]
fn set_same_identifier_twice_keeps_the_display_name() {
    let mut ed = editor_from(&[("Etc/UTC", "My Clock")]);
    for _ in 0..2 {
        let out = ed.update(Message::EditItem(0, EditItem::SetTz("Etc/UTC".to_string())));
        assert_eq!(
            entry_pair(&ed.tzs[0]),
            ("Etc/UTC".to_string(), "My Clock".to_string()),
        );
        assert!(saved_pairs(&out).is_some());
    }

    let mut ed = editor_from(&[("Not/AZone", "Kept Label")]);
    for _ in 0..2 {
        let out = ed.update(Message::EditItem(0, EditItem::SetTz("Not/AZone".to_string())));
        assert_eq!(
            entry_pair(&ed.tzs[0]),
            ("Not/AZone".to_string(), "Kept Label".to_string()),
        );
        assert!(out.is_none());
    }
}

#[test]
fn set_new_identifier_rederives_the_display_name() {
    let mut ed = editor_from(&[("Etc/UTC", "UTC")]);
    ed.update(Message::EditItem(
        0,
        EditItem::SetTz("America/New_York".to_string()),
    ));
    assert_eq!(
        entry_pair(&ed.tzs[0]),
        ("America/New_York".to_string(), "New York".to_string()),
    );
}

#[test]
fn replace_all_round_trips_the_snapshot() {
    let mut ed = editor_from(&[("Etc/UTC", "UTC")]);
    let snapshot = vec![
        ("Europe/London", "Home"),
        ("Not/AZone", "Broken"),
        ("Australia/Perth", "Perth"),
    ];
    let timezones: Vec<TzEntry> = snapshot.iter().map(|(n, d)| tz(n, d)).collect();
    let out = ed.update(Message::EditList(EditList::NewConfig(WorldClocksConfig {
        timezones,
    })));
    assert!(out.is_none(), "a snapshot with an invalid entry must not be saved");
    let read_back: Vec<(String, String)> = ed.tzs.iter().map(entry_pair).collect();
    let expected: Vec<(String, String)> =
        snapshot.iter().map(|(n, d)| (n.to_string(), d.to_string())).collect();
    assert_eq!(read_back, expected);
    assert!(ed.editing_item.is_none());
}

#[test]
fn an_invalid_entry_gates_every_save() {
    let mut ed = editor_from(&[("Etc/UTC", "UTC"), ("Not/AZone", "Broken")]);
    let commands = vec![
        Message::EditList(EditList::Reorder(Direction::Down, 0)),
        Message::EditList(EditList::Reorder(Direction::Up, 1)),
        Message::EditItem(1, EditItem::SetDisplayName("Renamed".to_string())),
        Message::EditList(EditList::AddAtEnd()),
        Message::EditList(EditList::Remove(2)),
    ];
    for msg in commands {
        let out = ed.update(msg);
        assert!(out.is_none(), "no save may happen while an entry is invalid");
    }
}

#[test]
fn set_display_name_keeps_validity_and_saves_when_all_valid() {
    let mut ed = editor_from(&[("Etc/UTC", "UTC"), ("Europe/London", "London")]);
    let out = ed.update(Message::EditItem(
        1,
        EditItem::SetDisplayName("Home".to_string()),
    ));
    assert!(matches!(ed.tzs[1], Entry::Valid { .. }));
    assert_eq!(
        saved_pairs(&out).expect("a fully valid list must be saved"),
        vec![
            ("Etc/UTC".to_string(), "UTC".to_string()),
            ("Europe/London".to_string(), "Home".to_string()),
        ],
    );
    assert!(ed.editing_item.is_none());
}

#[test]
fn start_editing_seeds_the_buffers() {
    let mut ed = editor_from(&[("Europe/London", "Home")]);
    ed.update(Message::StartEditing(0, ItemEditState::DisplayName));
    assert_eq!(ed.text_input_buf, "Home");
    assert!(matches!(ed.editing_item, Some((0, ItemEditState::DisplayName))));

    ed.update(Message::StartEditing(0, ItemEditState::Name));
    assert_eq!(ed.tz_input_buf.as_deref(), Some("Europe/London"));
    assert!(matches!(ed.editing_item, Some((0, ItemEditState::Name))));

    ed.update(Message::CancelEditing);
    assert!(ed.editing_item.is_none());
}

#[test]
fn out_of_range_commands_are_rejected_silently() {
    let mut ed = editor_from(&[("Etc/UTC", "UTC")]);
    let out = ed.update(Message::EditList(EditList::Remove(5)));
    assert!(out.is_none());
    assert_eq!(ed.tzs.len(), 1);

    let out = ed.update(Message::EditItem(
        5,
        EditItem::SetDisplayName("X".to_string()),
    ));
    assert!(out.is_none());
    assert_eq!(entry_pair(&ed.tzs[0]), ("Etc/UTC".to_string(), "UTC".to_string()));

    let out = ed.update(Message::StartEditing(5, ItemEditState::Name));
    assert!(out.is_none());
    assert!(ed.editing_item.is_none());

    let out = ed.update(Message::EditList(EditList::Reorder(Direction::Up, 7)));
    assert!(out.is_none());
    assert_eq!(ed.tzs.len(), 1);
}

#[test]
fn remove_keeps_the_cursor_on_its_entry() {
    let mut ed = editor_from(&[
        ("Etc/UTC", "UTC"),
        ("Europe/London", "London"),
        ("Australia/Perth", "Perth"),
    ]);
    ed.update(Message::StartEditing(2, ItemEditState::Name));
    ed.update(Message::EditList(EditList::Remove(0)));
    assert!(matches!(ed.editing_item, Some((1, ItemEditState::Name))));

    ed.update(Message::StartEditing(0, ItemEditState::Name));
    ed.update(Message::EditList(EditList::Remove(1)));
    assert!(matches!(ed.editing_item, Some((0, ItemEditState::Name))));
}

#[test]
fn add_at_end_leaves_the_cursor_alone() {
    let mut ed = editor_from(&[("Etc/UTC", "UTC")]);
    ed.update(Message::StartEditing(0, ItemEditState::DisplayName));
    ed.update(Message::EditList(EditList::AddAtEnd()));
    assert!(matches!(ed.editing_item, Some((0, ItemEditState::DisplayName))));
}

#[test]
fn tz_from_name_derives_and_validates() {
    let e = world_clocks::editor::tz_from_name("America/New_York".to_string());
    assert!(matches!(e, Entry::Valid { .. }));
    assert_eq!(
        entry_pair(&e),
        ("America/New_York".to_string(), "New York".to_string()),
    );

    let e = world_clocks::editor::tz_from_name("Fake/Under_Score".to_string());
    assert!(matches!(e, Entry::Invalid { .. }));
    assert_eq!(
        entry_pair(&e),
        ("Fake/Under_Score".to_string(), "Under Score".to_string()),
    );
}

#[test]
fn input_message_fills_the_text_buffer() {
    let mut ed = editor_from(&[("Etc/UTC", "UTC")]);
    let out = ed.update(Message::Input("My Town".to_string()));
    assert!(out.is_none());
    assert_eq!(ed.text_input_buf, "My Town");
}

#[test]
fn default_config_holds_the_three_builtin_entries() {
    let c = WorldClocksConfig::default();
    let got: Vec<(String, String)> =
        c.timezones.iter().map(|t| (t.name.clone(), t.display_name.clone())).collect();
    assert_eq!(
        got,
        vec![
            ("Etc/UTC".to_string(), "UTC".to_string()),
            ("Europe/London".to_string(), "London".to_string()),
            ("Australia/Perth".to_string(), "Perth".to_string()),
        ],
    );
}

#[test]
fn message_from_impls_wrap_the_commands() {
    let m = Message::from(EditList::AddAtEnd());
    assert!(matches!(m, Message::EditList(EditList::AddAtEnd())));
    let m = Message::from((2usize, EditItem::SetDisplayName("X".to_string())));
    assert!(matches!(m, Message::EditItem(2, EditItem::SetDisplayName(_))));
}
