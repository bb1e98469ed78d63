use nvim_config::keymap::{motion_keymap, setup_keymaps, terminal_keymap};
use nvim_config::keymap_remapping::{
    HostOp, HostOpKind, KeymapEntry, KeymapFunction, Mode, NvimAction, Scope, all_keys,
    build_keymap, clear_buf_keymap, clear_keymap, first_host_failure, setup_buf_keymap,
    setup_keymap, setup_keymap_clean, translate_action, KeymapError,
};

fn s(text: &str) -> String {
    String::from(text)
}

fn one_entry_keymap(action: KeymapEntry) -> nvim_config::keymap_remapping::NvimKeymap {
    build_keymap(vec![action]).unwrap()
}

#[test]
fn command_action_translates_to_command_path_binding() {
    let binding = translate_action(NvimAction::Command(s("w")));
    assert_eq!(binding.rhs, ":w<CR>");
    assert!(binding.silent);
    assert!(binding.noremap);
    assert!(binding.callback.is_none());
}

#[test]
fn keys_action_translates_to_replay_binding() {
    let binding = translate_action(NvimAction::Keys(s("dd")));
    assert_eq!(binding.rhs, "dd");
    assert!(binding.silent);
    assert!(binding.noremap);
    assert!(binding.callback.is_none());
}

#[test]
fn callback_action_translates_to_callback_binding() {
    let f = std::rc::Rc::new(KeymapFunction::Named(s("leap_func")));
    let binding = translate_action(NvimAction::Function(f));
    assert_eq!(binding.rhs, "");
    assert!(binding.silent);
    assert!(binding.noremap);
    match binding.callback.as_deref() {
        Some(KeymapFunction::Named(n)) => assert_eq!(n, "leap_func"),
        _ => panic!("expected the callback reference to be kept"),
    }
}

#[test]
fn setup_keymap_plans_one_bind_per_entry() {
    let km = one_entry_keymap(KeymapEntry::command(s(" s"), s("w")));
    let ops = setup_keymap(Mode::Normal, km);
    assert_eq!(ops.len(), 1);
    let HostOp { mode, scope, kind } = &ops[0];
    assert_eq!(*mode, Mode::Normal);
    assert_eq!(*scope, Scope::Global);
    match kind {
        HostOpKind::Bind(trigger, binding) => {
            assert_eq!(trigger, " s");
            assert_eq!(binding.rhs, ":w<CR>");
            assert!(binding.silent);
            assert!(binding.noremap);
        },
        _ => panic!("expected a bind call"),
    }
}

#[test]
fn clear_keymap_isolates_listing_failures() {
    let listed = vec![
        Some(s("q")),
        None,
        Some(s("<Plug>internal")),
        Some(s("zz")),
    ];
    let ops = clear_keymap(Mode::Normal, &listed);
    let alphabet = all_keys();
    assert_eq!(ops.len(), 2 + alphabet.len());
    assert!(matches!(&ops[0].kind, HostOpKind::Delete(t) if t == "q"));
    assert!(matches!(&ops[1].kind, HostOpKind::Delete(t) if t == "zz"));
    for op in &ops[2..] {
        assert_eq!(op.mode, Mode::Normal);
        assert_eq!(op.scope, Scope::Global);
        match &op.kind {
            HostOpKind::Bind(_, binding) => {
                assert_eq!(binding.rhs, "");
                assert!(!binding.silent);
                assert!(!binding.noremap);
                assert!(binding.callback.is_none());
            },
            _ => panic!("the alphabet pass only binds no-ops"),
        }
    }
}

#[test]
fn trigger_alphabet_is_the_versioned_list() {
    let alphabet = all_keys();
    assert_eq!(alphabet.len(), 185);
    assert_eq!(alphabet[0], "a");
    assert!(alphabet.contains(&"<C-w>"));
    assert!(alphabet.contains(&"<Leader>"));
    assert!(alphabet.contains(&"<LocalLeader>"));
}

#[test]
fn setup_keymap_clean_ends_with_the_keymap_bindings() {
    let km = one_entry_keymap(KeymapEntry::keys(s("x"), s("y")));
    let listed = vec![Some(s("x"))];
    let ops = setup_keymap_clean(Mode::Visual, &listed, km);
    let alphabet_len = all_keys().len();
    assert_eq!(ops.len(), 1 + alphabet_len + 1);
    assert!(matches!(&ops[0].kind, HostOpKind::Delete(t) if t == "x"));
    let last = &ops[ops.len() - 1];
    assert_eq!(last.mode, Mode::Visual);
    assert!(matches!(&last.kind, HostOpKind::Bind(t, b) if t == "x" && b.rhs == "y"));
}

#[test]
fn document_plans_stay_in_their_document() {
    let km1 = one_entry_keymap(KeymapEntry::plain(s("a")));
    let ops1 = setup_buf_keymap(7, Mode::Normal, km1);
    assert_eq!(ops1.len(), 1);
    for op in &ops1 {
        assert_eq!(op.scope, Scope::Document(7));
    }
    let listed = vec![Some(s("old"))];
    let ops2 = clear_buf_keymap(7, Mode::Normal, &listed);
    assert_eq!(ops2.len(), 1);
    for op in &ops2 {
        assert_eq!(op.scope, Scope::Document(7));
        assert_ne!(op.scope, Scope::Document(8));
        assert_ne!(op.scope, Scope::Global);
    }
}

#[test]
fn first_host_failure_reports_the_offending_trigger() {
    let km = build_keymap(vec![
        KeymapEntry::plain(s("a")),
        KeymapEntry::plain(s("b")),
        KeymapEntry::plain(s("c")),
    ])
    .unwrap();
    let ops = setup_keymap(Mode::Normal, km);
    let all_ok = vec![None, None, None];
    assert!(first_host_failure(&ops, &all_ok).is_ok());
    let outcomes = vec![None, Some(s("E5108")), Some(s("later"))];
    match first_host_failure(&ops, &outcomes) {
        Err(KeymapError::HostCall { trigger, message }) => {
            assert_eq!(trigger, "b");
            assert_eq!(message, "E5108");
        },
        _ => panic!("expected the first host failure, wrapped with its trigger"),
    }
}

#[test]
fn motion_keymap_builds_with_its_configured_entries() {
    let km = motion_keymap().unwrap();
    assert_eq!(km.entries.len(), 63);
    let save = km.entries.iter().find(|e| e.0 == " s").expect("the save trigger");
    assert!(matches!(&save.1, NvimAction::Command(c) if c == "w"));
    let jump = km.entries.iter().find(|e| e.0 == "f").expect("the jump trigger");
    match &jump.1 {
        NvimAction::Function(f) => match f.as_ref() {
            KeymapFunction::Transformed(name, inner) => {
                assert_eq!(name, "cinnamon_scroll_func");
                assert!(
                    matches!(inner.as_ref(), KeymapFunction::Named(n) if n == "leap_func")
                );
            },
            _ => panic!("the jump trigger is wrapped"),
        },
        _ => panic!("the jump trigger invokes a callback"),
    }
}

#[test]
fn terminal_keymap_holds_the_escape_binding() {
    let km = terminal_keymap().unwrap();
    assert_eq!(km.entries.len(), 1);
    assert_eq!(km.entries[0].0, "<ESC>");
    assert!(matches!(&km.entries[0].1, NvimAction::Keys(k) if k == "<C-\\><C-n>"));
}

#[test]
fn setup_keymaps_plans_each_mode_independently() {
    let (plans, failures) = setup_keymaps(&vec![Some(s("q"))], &vec![]);
    assert!(failures.is_empty());
    assert_eq!(plans.len(), 3);
    assert_eq!(plans[0].0, Mode::Normal);
    assert_eq!(plans[1].0, Mode::Visual);
    assert_eq!(plans[2].0, Mode::Terminal);
    let alphabet_len = all_keys().len();
    assert_eq!(plans[0].1.len(), 1 + alphabet_len + 63);
    assert_eq!(plans[1].1.len(), alphabet_len + 63);
    assert_eq!(plans[2].1.len(), 1);
    for op in &plans[0].1 {
        assert_eq!(op.mode, Mode::Normal);
        assert_eq!(op.scope, Scope::Global);
    }
    for op in &plans[2].1 {
        assert_eq!(op.mode, Mode::Terminal);
    }
}
