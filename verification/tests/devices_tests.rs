use rms_recorder::devices::{is_last_selected, is_selected, set_selected};

fn names(v: &[&str]) -> Vec<String> {
    v.iter().map(|s| s.to_string()).collect()
}

#[test]
fn ticking_adds_a_device_once() {
    let mut sel = names(&["Default"]);
    set_selected(&mut sel, "USB Mic", true);
    set_selected(&mut sel, "USB Mic", true);
    assert_eq!(sel, names(&["Default", "USB Mic"]));
    assert!(is_selected(&sel, "USB Mic"));
}

#[test]
fn unticking_removes_every_entry_of_the_device() {
    let mut sel = names(&["A", "B", "A", "C"]);
    set_selected(&mut sel, "A", false);
    assert_eq!(sel, names(&["B", "C"]));
    set_selected(&mut sel, "Z", false);
    assert_eq!(sel, names(&["B", "C"]));
}

#[test]
fn the_last_selected_device_is_locked() {
    let sel = names(&["Default"]);
    assert!(is_last_selected(&sel, "Default", 0));
    assert!(!is_last_selected(&sel, "Default", 1));
    assert!(!is_last_selected(&sel, "Other", 0));
    assert!(!is_last_selected(&names(&["A", "B"]), "A", 0));
}
