use zmctf_core::registry::{Availability, ModuleDescriptor, ModuleRegistry};

fn catalog() -> Vec<ModuleDescriptor> {
    vec![
        ModuleDescriptor {
            name: "Flag Detector".to_string(),
            description: "plain-text and common-encoding flag detection".to_string(),
            availability: Availability::Available,
        },
        ModuleDescriptor {
            name: "USB traffic replay".to_string(),
            description: "HID trace reconstruction".to_string(),
            availability: Availability::Planned,
        },
        ModuleDescriptor {
            name: "Wireless traffic cracking".to_string(),
            description: "password recovery and analysis".to_string(),
            availability: Availability::Planned,
        },
    ]
}

#[test]
fn first_entry_starts_selected() {
    let reg = ModuleRegistry::new(catalog());
    assert_eq!(reg.len(), 3);
    assert_eq!(reg.selected_index(), Some(0));
    let active = reg.active().expect("an entry is selected");
    assert_eq!(active.name, "Flag Detector");
    assert_eq!(active.availability, Availability::Available);
}

#[test]
fn select_changes_selection() {
    let mut reg = ModuleRegistry::new(catalog());
    reg.select(1);
    assert_eq!(reg.selected_index(), Some(1));
    assert_eq!(reg.active().unwrap().name, "USB traffic replay");
}

#[test]
fn select_same_index_twice_is_idempotent() {
    let mut reg = ModuleRegistry::new(catalog());
    reg.select(2);
    let after_first = reg.selected_index();
    assert_eq!(after_first, Some(2));
    reg.select(2);
    assert_eq!(reg.selected_index(), after_first);
    assert_eq!(reg.len(), 3);
    assert_eq!(reg.active().unwrap().name, "Wireless traffic cracking");
}

#[test]
fn select_out_of_range_is_a_noop() {
    let mut reg = ModuleRegistry::new(catalog());
    reg.select(7);
    assert_eq!(reg.selected_index(), Some(0));
    assert_eq!(reg.active().unwrap().name, "Flag Detector");
}

#[test]
fn empty_catalog_has_no_selection() {
    let mut reg = ModuleRegistry::new(Vec::new());
    assert_eq!(reg.len(), 0);
    assert_eq!(reg.selected_index(), None);
    assert!(reg.active().is_none());
    reg.select(0);
    assert_eq!(reg.selected_index(), None);
}

#[test]
fn get_returns_each_entry_in_order() {
    let reg = ModuleRegistry::new(catalog());
    assert_eq!(reg.get(0).name, "Flag Detector");
    assert_eq!(reg.get(1).name, "USB traffic replay");
    assert_eq!(reg.get(2).name, "Wireless traffic cracking");
}
