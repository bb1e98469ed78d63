use std::collections::HashMap;

use nvim_config::keymap_remapping::{
    HostOp, HostOpKind, KeymapEntry, Mode, NvimBinding, all_keys, build_keymap,
    setup_keymap_clean,
};

fn s(text: &str) -> String {
    String::from(text)
}

#[derive(Clone, PartialEq, Eq, Debug)]
struct TableEntry {
    rhs: String,
    silent: bool,
    noremap: bool,
    has_callback: bool,
}

fn entry_of(binding: &NvimBinding) -> TableEntry {
    TableEntry {
        rhs: binding.rhs.clone(),
        silent: binding.silent,
        noremap: binding.noremap,
        has_callback: binding.callback.is_some(),
    }
}

fn apply(table: &mut HashMap<String, TableEntry>, ops: &[HostOp]) {
    for op in ops {
        match &op.kind {
            HostOpKind::Delete(trigger) => {
                table.remove(trigger);
            },
            HostOpKind::Bind(trigger, binding) => {
                table.insert(trigger.clone(), entry_of(binding));
            },
        }
    }
}

fn noop() -> TableEntry {
    TableEntry { rhs: s(""), silent: false, noremap: false, has_callback: false }
}

fn stale(rhs: &str) -> TableEntry {
    TableEntry { rhs: s(rhs), silent: false, noremap: true, has_callback: false }
}

fn test_keymap() -> nvim_config::keymap_remapping::NvimKeymap {
    build_keymap(vec![
        KeymapEntry::keys(s("j"), s("h")),
        KeymapEntry::command(s(" s"), s("w")),
    ])
    .unwrap()
}

#[test]
fn reset_leaves_exactly_the_configured_table() {
    let mut table: HashMap<String, TableEntry> = HashMap::new();
    table.insert(s("qq"), stale("macro"));
    table.insert(s("zz"), stale("center"));
    table.insert(s("j"), stale("old"));
    let listed = vec![Some(s("qq")), Some(s("zz")), Some(s("j"))];
    let ops = setup_keymap_clean(Mode::Normal, &listed, test_keymap());
    apply(&mut table, &ops);

    let alphabet = all_keys();
    let mut expected_len = alphabet.len();
    // " s" lies outside the alphabet; "j" is inside it.
    assert!(!alphabet.contains(&" s"));
    assert!(alphabet.contains(&"j"));
    expected_len += 1;
    assert_eq!(table.len(), expected_len);

    assert_eq!(table.get("j").unwrap().rhs, "h");
    assert!(table.get("j").unwrap().silent);
    assert_eq!(table.get(" s").unwrap().rhs, ":w<CR>");
    assert!(!table.contains_key("qq"));
    assert!(!table.contains_key("zz"));
    for key in &alphabet {
        if *key != "j" {
            assert_eq!(table.get(*key).unwrap(), &noop());
        }
    }
}

#[test]
fn reset_twice_yields_the_same_table() {
    let mut table: HashMap<String, TableEntry> = HashMap::new();
    table.insert(s("old"), stale("x"));
    let listed1 = vec![Some(s("old"))];
    let ops1 = setup_keymap_clean(Mode::Normal, &listed1, test_keymap());
    apply(&mut table, &ops1);
    let after_first = table.clone();

    // The second pass lists what the first pass left behind.
    let listed2: Vec<Option<String>> = after_first.keys().cloned().map(Some).collect();
    let ops2 = setup_keymap_clean(Mode::Normal, &listed2, test_keymap());
    apply(&mut table, &ops2);
    assert_eq!(table, after_first);
}
