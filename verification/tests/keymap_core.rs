use nvim_config::keymap_remapping::{
    KeymapEntry, KeymapError, KeymapFunction, NvimAction, build_keymap, command_rhs,
    is_protected_trigger,
};

fn s(text: &str) -> String {
    String::from(text)
}

#[test]
fn build_keymap_round_trip() {
    let entries = vec![
        KeymapEntry::keys(s("j"), s("h")),
        KeymapEntry::command(s(" s"), s("w")),
        KeymapEntry::plain(s("a")),
    ];
    let km = build_keymap(entries).unwrap();
    assert_eq!(km.entries.len(), 3);
    assert_eq!(km.entries[0].0, "j");
    assert_eq!(km.entries[1].0, " s");
    assert_eq!(km.entries[2].0, "a");
    assert!(matches!(&km.entries[0].1, NvimAction::Keys(k) if k == "h"));
    assert!(matches!(&km.entries[1].1, NvimAction::Command(c) if c == "w"));
    assert!(matches!(&km.entries[2].1, NvimAction::Keys(k) if k == "a"));
}

#[test]
fn build_keymap_rejects_duplicate_trigger() {
    let entries = vec![
        KeymapEntry::keys(s("x"), s("one")),
        KeymapEntry::plain(s("y")),
        KeymapEntry::command(s("x"), s("two")),
    ];
    match build_keymap(entries) {
        Err(KeymapError::DuplicateTrigger(t)) => assert_eq!(t, "x"),
        _ => panic!("expected a duplicate-trigger failure"),
    }
}

#[test]
fn build_keymap_reports_first_duplicate() {
    let entries = vec![
        KeymapEntry::plain(s("a")),
        KeymapEntry::plain(s("b")),
        KeymapEntry::plain(s("b")),
        KeymapEntry::plain(s("a")),
    ];
    match build_keymap(entries) {
        Err(KeymapError::DuplicateTrigger(t)) => assert_eq!(t, "b"),
        _ => panic!("expected a duplicate-trigger failure"),
    }
}

#[test]
fn wrapped_entry_becomes_callback() {
    let entries = vec![KeymapEntry::keys(s("K"), s("20j")).wrapped()];
    let km = build_keymap(entries).unwrap();
    match &km.entries[0].1 {
        NvimAction::Function(f) => match f.as_ref() {
            KeymapFunction::NamedWithKeys(name, keys) => {
                assert_eq!(name, "cinnamon_scroll_func");
                assert_eq!(keys, "20j");
            },
            _ => panic!("expected the scroll transform over the key sequence"),
        },
        _ => panic!("a wrapped entry must insert a callback action"),
    }
}

#[test]
fn command_rhs_builds_command_line_keys() {
    assert_eq!(command_rhs("w"), ":w<CR>");
    assert_eq!(command_rhs("q!"), ":q!<CR>");
}

#[test]
fn protected_prefix_detection() {
    assert!(is_protected_trigger(&s("<Plug>")));
    assert!(is_protected_trigger(&s("<Plug>abc")));
    assert!(!is_protected_trigger(&s("<Plug")));
    assert!(!is_protected_trigger(&s("x<Plug>")));
    assert!(!is_protected_trigger(&s("")));
}

#[test]
fn keymap_error_messages() {
    let dup = KeymapError::DuplicateTrigger(s("zz"));
    assert_eq!(dup.message(), "duplicate trigger: zz");
    let host = KeymapError::HostCall { trigger: s("q"), message: s("refused") };
    assert_eq!(host.message(), "host call failed for trigger q: refused");
}

#[test]
fn describe_each_action_kind() {
    assert_eq!(NvimAction::Keys(s("dd")).describe(), "[dd]");
    assert_eq!(NvimAction::Command(s("w")).describe(), "w");
    let f = NvimAction::Function(std::rc::Rc::new(KeymapFunction::Named(s("leap_func"))));
    assert_eq!(f.describe(), "<lua_function>");
}
