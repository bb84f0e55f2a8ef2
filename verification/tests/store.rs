use botbox::files::{FileFault, FileRead};
use botbox::store::{
    default_username, inventory_from_file, Bot, BotInput, BotInventory, BotStore, Inventory,
    InventoryView, MemoryBotStore, StoreError, StoreErrorView, BOTS_FILE, DEFAULT_ATTACH_COMMAND,
    DEFAULT_DASHBOARD_PORT, DEFAULT_SSH_USERNAME,
};

fn input(name: &str, host: &str) -> BotInput {
    BotInput {
        name: name.to_string(),
        host: host.to_string(),
        username: None,
        attach_command: None,
        dashboard_port: None,
    }
}

#[test]
fn add_applies_canonical_hermes_defaults_when_fields_blank() {
    let mut inv = Inventory::new(MemoryBotStore::new());
    let bot = inv.add(input("Hermes-A", "10.0.0.5")).unwrap();

    assert_eq!(bot.attach_command, "tmux attach -t hermes");
    assert_eq!(bot.dashboard_port, 9119);
    // The constants are the single source of truth.
    assert_eq!(bot.attach_command, DEFAULT_ATTACH_COMMAND);
    assert_eq!(bot.dashboard_port, DEFAULT_DASHBOARD_PORT);
}

#[test]
fn add_treats_whitespace_only_attach_command_as_blank() {
    let mut inv = Inventory::new(MemoryBotStore::new());
    let bot = inv
        .add(BotInput {
            name: "B".into(),
            host: "h".into(),
            username: None,
            attach_command: Some("   ".into()),
            dashboard_port: Some(0),
        })
        .unwrap();
    assert_eq!(bot.attach_command, DEFAULT_ATTACH_COMMAND);
    assert_eq!(bot.dashboard_port, DEFAULT_DASHBOARD_PORT);
}

#[test]
fn add_keeps_explicit_overrides() {
    let mut inv = Inventory::new(MemoryBotStore::new());
    let bot = inv
        .add(BotInput {
            name: "B".into(),
            host: "h".into(),
            username: None,
            attach_command: Some("docker exec -it hermes bash".into()),
            dashboard_port: Some(8443),
        })
        .unwrap();
    assert_eq!(bot.attach_command, "docker exec -it hermes bash");
    assert_eq!(bot.dashboard_port, 8443);
}

#[test]
fn add_requires_name_and_host() {
    let mut inv = Inventory::new(MemoryBotStore::new());
    assert!(matches!(
        inv.add(input("", "h")),
        Err(StoreError::Invalid(_))
    ));
    assert!(matches!(
        inv.add(input("n", "  ")),
        Err(StoreError::Invalid(_))
    ));
}

#[test]
fn update_changes_only_the_targeted_bot() {
    let mut inv = Inventory::new(MemoryBotStore::new());
    let a = inv.add(input("A", "1.1.1.1")).unwrap();
    let b = inv.add(input("B", "2.2.2.2")).unwrap();

    let updated = inv
        .update(
            &b.id,
            BotInput {
                name: "B2".into(),
                host: "9.9.9.9".into(),
                username: None,
                attach_command: Some("tmux attach -t other".into()),
                dashboard_port: Some(1234),
            },
        )
        .unwrap();
    assert_eq!(updated.name, "B2");
    assert_eq!(updated.host, "9.9.9.9");

    let bots = inv.list().unwrap();
    let a_after = bots.iter().find(|x| x.id == a.id).unwrap();
    let b_after = bots.iter().find(|x| x.id == b.id).unwrap();
    // Sibling untouched.
    assert_eq!(a_after, &a);
    // Target updated.
    assert_eq!(b_after.name, "B2");
    assert_eq!(b_after.attach_command, "tmux attach -t other");
    assert_eq!(b_after.dashboard_port, 1234);
}

#[test]
fn update_errors_on_stale_id() {
    let mut inv = Inventory::new(MemoryBotStore::new());
    inv.add(input("A", "1.1.1.1")).unwrap();
    assert!(matches!(
        inv.update("does-not-exist", input("X", "y")),
        Err(StoreError::NotFound(_))
    ));
}

#[test]
fn remove_deletes_only_the_targeted_bot() {
    let mut inv = Inventory::new(MemoryBotStore::new());
    let a = inv.add(input("A", "1.1.1.1")).unwrap();
    let b = inv.add(input("B", "2.2.2.2")).unwrap();
    let c = inv.add(input("C", "3.3.3.3")).unwrap();

    inv.remove(&b.id).unwrap();

    let ids: Vec<String> = inv.list().unwrap().into_iter().map(|x| x.id).collect();
    assert_eq!(ids, vec![a.id, c.id]);
}

#[test]
fn remove_errors_on_stale_id() {
    let mut inv = Inventory::new(MemoryBotStore::new());
    inv.add(input("A", "1.1.1.1")).unwrap();
    assert!(matches!(inv.remove("nope"), Err(StoreError::NotFound(_))));
}

#[test]
fn select_records_and_clears_the_active_bot() {
    let mut inv = Inventory::new(MemoryBotStore::new());
    let a = inv.add(input("A", "1.1.1.1")).unwrap();

    inv.select(Some(&a.id)).unwrap();
    assert_eq!(
        inv.inventory().unwrap().selected_bot_id.as_deref(),
        Some(a.id.as_str())
    );

    inv.select(None).unwrap();
    assert_eq!(inv.inventory().unwrap().selected_bot_id, None);
}

#[test]
fn select_rejects_unknown_id() {
    let mut inv = Inventory::new(MemoryBotStore::new());
    assert!(matches!(
        inv.select(Some("ghost")),
        Err(StoreError::NotFound(_))
    ));
}

#[test]
fn removing_the_selected_bot_clears_the_selection() {
    let mut inv = Inventory::new(MemoryBotStore::new());
    let a = inv.add(input("A", "1.1.1.1")).unwrap();
    inv.select(Some(&a.id)).unwrap();
    inv.remove(&a.id).unwrap();
    assert_eq!(inv.inventory().unwrap().selected_bot_id, None);
}

#[test]
fn blank_users_get_the_default_and_others_are_kept() {
    let mut inv = Inventory::new(MemoryBotStore::new());
    let mut given = input("A", "1.1.1.1");
    given.username = Some(" \t".into());
    assert_eq!(inv.add(given).unwrap().username, "hermes");
    let mut given = input("B", "1.1.1.1");
    given.username = Some(" root\n".into());
    assert_eq!(inv.add(given).unwrap().username, "root");
    assert_eq!(inv.add(input("C", "h")).unwrap().username, DEFAULT_SSH_USERNAME);
    assert_eq!(default_username(), "hermes");
}

#[test]
fn names_and_hosts_are_trimmed() {
    let mut inv = Inventory::new(MemoryBotStore::new());
    let bot = inv.add(input("  Hermes \u{3000}", "\t10.0.0.5\n")).unwrap();
    assert_eq!(bot.name, "Hermes");
    assert_eq!(bot.host, "10.0.0.5");
}

#[test]
fn ids_are_random_version_4_uuids() {
    let mut inv = Inventory::new(MemoryBotStore::new());
    let a = inv.add(input("A", "h")).unwrap().id;
    let b = inv.add(input("A", "h")).unwrap().id;
    assert_ne!(a, b);
    for id in [a, b] {
        let parsed = uuid::Uuid::parse_str(&id).unwrap();
        assert_eq!(parsed.get_version_num(), 4);
        assert_eq!(parsed.to_string(), id);
        assert_eq!(id.len(), 36);
        assert_eq!(&id[14..15], "4");
        assert!("89ab".contains(&id[19..20]));
    }
}

#[test]
fn the_reason_of_a_refusal_is_told() {
    let mut inv = Inventory::new(MemoryBotStore::new());
    assert_eq!(
        inv.add(input(" ", " ")).err().unwrap().to_string(),
        "invalid bot: name is required"
    );
    assert_eq!(
        inv.add(input("n", "")).err().unwrap().to_string(),
        "invalid bot: host/IP is required"
    );
    assert_eq!(
        inv.update("x", input("", "h")).err().unwrap().to_string(),
        "invalid bot: name is required"
    );
    assert_eq!(
        inv.remove("x").err().unwrap().to_string(),
        "no bot with id `x`"
    );
    assert_eq!(
        StoreError::Backend("disk full".to_string()).to_string(),
        "bot store backend error: disk full"
    );
    assert!(inv.list().unwrap().is_empty());
}

#[test]
fn editing_keeps_the_id_the_place_and_the_selection() {
    let mut inv = Inventory::new(MemoryBotStore::new());
    let a = inv.add(input("A", "1")).unwrap();
    let b = inv.add(input("B", "2")).unwrap();
    inv.select(Some(&a.id)).unwrap();
    let edited = inv.update(&a.id, input("A2", "1")).unwrap();
    assert_eq!(edited.id, a.id);
    let after = inv.inventory().unwrap();
    assert_eq!(after.bots, vec![edited, b]);
    assert_eq!(after.selected_bot_id, Some(a.id));
}

#[test]
fn removing_another_bot_keeps_the_selection() {
    let mut inv = Inventory::new(MemoryBotStore::new());
    let a = inv.add(input("A", "1")).unwrap();
    let b = inv.add(input("B", "2")).unwrap();
    inv.select(Some(&a.id)).unwrap();
    inv.remove(&b.id).unwrap();
    assert_eq!(inv.inventory().unwrap().selected_bot_id, Some(a.id));
}

#[test]
fn removing_the_bot_just_added_gives_back_the_inventory() {
    let mut inv = Inventory::new(MemoryBotStore::new());
    let a = inv.add(input("A", "1")).unwrap();
    inv.select(Some(&a.id)).unwrap();
    let before = inv.inventory().unwrap();
    let b = inv.add(input("B", "2")).unwrap();
    inv.remove(&b.id).unwrap();
    assert_eq!(inv.inventory().unwrap(), before);
}

fn bot(id: &str, name: &str) -> Bot {
    Bot {
        id: id.to_string(),
        name: name.to_string(),
        host: "h".to_string(),
        username: "hermes".to_string(),
        attach_command: "tmux attach -t hermes".to_string(),
        dashboard_port: 9119,
    }
}

#[test]
fn operations_on_a_document_with_given_ids() {
    let mut doc = BotInventory::default();
    doc.add_bot("x".to_string(), &input("X", "h"));
    doc.add_bot("y".to_string(), &input("Y", "h"));
    assert_eq!(doc.bots, vec![bot("x", "X"), bot("y", "Y")]);
    doc.select_bot(Some("y")).unwrap();
    assert_eq!(doc.update_bot("x", &input("X2", "h")).unwrap(), bot("x", "X2"));
    assert_eq!(doc.bots, vec![bot("x", "X2"), bot("y", "Y")]);
    assert!(doc.update_bot("z", &input("Z", "h")).is_err());
    doc.remove_bot("y").unwrap();
    assert_eq!(doc.bots, vec![bot("x", "X2")]);
    assert_eq!(doc.selected_bot_id, None);
    assert!(doc.select_bot(Some("y")).is_err());
    assert_eq!(doc.clone(), doc);
}

/// A store whose file cannot be written.
struct ReadOnlyStore(BotInventory);

impl BotStore for ReadOnlyStore {
    fn held(&self) -> InventoryView {
        unreachable!("no value at run time")
    }
    fn load_error(&self, _e: StoreErrorView) -> bool {
        unreachable!("no value at run time")
    }
    fn save_error(&self, _e: StoreErrorView) -> bool {
        unreachable!("no value at run time")
    }
    fn load(&self) -> Result<BotInventory, StoreError> {
        Ok(self.0.clone())
    }
    fn save(&mut self, _inventory: &BotInventory) -> Result<(), StoreError> {
        Err(StoreError::Backend("read-only".to_string()))
    }
}

#[test]
fn a_failed_write_comes_through_and_changes_nothing() {
    let mut doc = BotInventory::default();
    doc.bots.push(bot("x", "X"));
    let mut inv = Inventory::new(ReadOnlyStore(doc.clone()));
    let text = "bot store backend error: read-only";
    assert_eq!(inv.add(input("A", "h")).err().unwrap().to_string(), text);
    assert_eq!(inv.update("x", input("A", "h")).err().unwrap().to_string(), text);
    assert_eq!(inv.remove("x").err().unwrap().to_string(), text);
    assert_eq!(inv.select(Some("x")).err().unwrap().to_string(), text);
    assert!(matches!(inv.remove("z"), Err(StoreError::NotFound(id)) if id == "z"));
    assert_eq!(inv.inventory().unwrap(), doc);
}

#[test]
fn a_missing_inventory_file_is_an_empty_inventory() {
    assert_eq!(BOTS_FILE, "bots.json");
    let inv = inventory_from_file("/d/bots.json", FileRead::Missing).unwrap();
    assert_eq!(inv, BotInventory::default());
    let mut doc = BotInventory::default();
    doc.bots.push(bot("x", "X"));
    let read = inventory_from_file("/d/bots.json", FileRead::Parsed(doc.clone())).unwrap();
    assert_eq!(read, doc);
    let e = inventory_from_file("/d/bots.json", FileRead::Unparsable("EOF".to_string()))
        .err()
        .unwrap();
    assert_eq!(
        e.to_string(),
        "bot store backend error: parse /d/bots.json: EOF"
    );
    let e = inventory_from_file("/d/bots.json", FileRead::Unreadable("denied".to_string()))
        .err()
        .unwrap();
    assert_eq!(
        e.to_string(),
        "bot store backend error: read /d/bots.json: denied"
    );
}

#[test]
fn file_faults_read_as_documented() {
    assert_eq!(FileFault::Parse.describe("p", "c"), "parse p: c");
    assert_eq!(FileFault::Read.describe("p", "c"), "read p: c");
    assert_eq!(FileFault::MakeDirectory.describe("p", "c"), "mkdir p: c");
    assert_eq!(FileFault::Serialize.describe("p", "c"), "serialize: c");
    assert_eq!(FileFault::Write.describe("p", "c"), "write p: c");
}
