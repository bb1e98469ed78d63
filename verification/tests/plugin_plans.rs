use nvim_config::keymap_remapping::{HostOpKind, KeymapFunction, Mode, NvimAction, Scope};
use nvim_config::plugins::cinnamon::{setup_cinnamon, wrap_action, wrap_keymap, wrap_keys};
use nvim_config::plugins::leap::{focusable_window_handles, leap, setup_leap};
use nvim_config::plugins::lsp::{
    blink_cmp_capabilities, lsp_define_commands, lsp_setup_keymap, lua_registry_named_function,
    setup_lang, setup_lsp,
};
use nvim_config::plugins::lua_plugin::LuaPlugin;
use nvim_config::plugins::plugin::{ConfigValue, PluginError, PluginOp};
use nvim_config::plugins::spectre::{
    setup_spectre, spectre_open_file_search, spectre_open_visual, spectre_toggle,
};
use nvim_config::plugins::telescope::{setup_telescope, telescope_call_target};
use nvim_config::plugins::{
    plugin_failure_report, setup_colorscheme, setup_native_settings, setup_plugins,
    treesitter_runtimepath,
};

fn s(text: &str) -> String {
    String::from(text)
}

#[test]
fn wrap_keys_routes_through_the_scroll_transform() {
    match wrap_keys(s("20j")) {
        KeymapFunction::NamedWithKeys(name, keys) => {
            assert_eq!(name, "cinnamon_scroll_func");
            assert_eq!(keys, "20j");
        },
        _ => panic!("expected the scroll transform over raw keys"),
    }
}

#[test]
fn wrap_action_is_total_over_action_kinds() {
    assert!(matches!(
        wrap_action(NvimAction::Keys(s("20j"))),
        KeymapFunction::NamedWithKeys(n, k) if n == "cinnamon_scroll_func" && k == "20j"
    ));
    assert!(matches!(
        wrap_action(NvimAction::Command(s("w"))),
        KeymapFunction::NamedWithKeys(n, k) if n == "cinnamon_scroll_func" && k == ":w<CR>"
    ));
    let inner = std::rc::Rc::new(KeymapFunction::Named(s("leap_func")));
    match wrap_action(NvimAction::Function(inner)) {
        KeymapFunction::Transformed(name, wrapped) => {
            assert_eq!(name, "cinnamon_scroll_func");
            assert!(matches!(wrapped.as_ref(), KeymapFunction::Named(n) if n == "leap_func"));
        },
        _ => panic!("wrapping a callback layers the transform over it"),
    }
}

#[test]
fn wrap_keymap_turns_every_action_into_a_callback() {
    let km = nvim_config::keymap_remapping::build_keymap(vec![
        nvim_config::keymap_remapping::KeymapEntry::keys(s("j"), s("h")),
        nvim_config::keymap_remapping::KeymapEntry::command(s(" s"), s("w")),
    ])
    .unwrap();
    let wrapped = wrap_keymap(km);
    assert_eq!(wrapped.entries.len(), 2);
    assert_eq!(wrapped.entries[0].0, "j");
    assert_eq!(wrapped.entries[1].0, " s");
    for (_, action) in &wrapped.entries {
        assert!(matches!(action, NvimAction::Function(_)));
    }
}

#[test]
fn cinnamon_setup_saves_the_scroll_function() {
    let ops = setup_cinnamon();
    assert_eq!(ops.len(), 3);
    assert!(matches!(&ops[0], PluginOp::Require(n) if n == "cinnamon"));
    match &ops[1] {
        PluginOp::CallField { field, arg } => {
            assert_eq!(field, "setup");
            match arg {
                ConfigValue::Record(fields) => assert_eq!(fields[0].0, "options"),
                _ => panic!("the setup argument is a record"),
            }
        },
        _ => panic!("the plugin's setup is called"),
    }
    assert!(matches!(
        &ops[2],
        PluginOp::SaveField { field, key } if field == "scroll" && key == "cinnamon_scroll_func"
    ));
}

#[test]
fn leap_callback_and_setup() {
    assert!(matches!(leap(), KeymapFunction::Named(n) if n == "leap_func"));
    let ops = setup_leap();
    assert_eq!(ops.len(), 2);
    assert!(matches!(&ops[0], PluginOp::Require(n) if n == "leap"));
    assert!(matches!(
        &ops[1],
        PluginOp::SaveField { field, key } if field == "leap" && key == "leap_func"
    ));
}

#[test]
fn focusable_windows_skip_failures_and_unfocusable() {
    let wins = vec![
        (1, Some(true)),
        (2, Some(false)),
        (3, None),
        (4, Some(true)),
    ];
    assert_eq!(focusable_window_handles(&wins), vec![1, 4]);
}

#[test]
fn spectre_callbacks_name_their_registry_keys() {
    assert!(matches!(spectre_toggle(), KeymapFunction::Named(n) if n == "spectre_toggle_func"));
    assert!(matches!(
        spectre_open_visual(true),
        KeymapFunction::NamedWithFlag(n, f) if n == "spectre_open_visual_func" && f
    ));
    assert!(matches!(
        spectre_open_file_search(),
        KeymapFunction::Named(n) if n == "spectre_open_file_search_func"
    ));
    let ops = setup_spectre();
    assert_eq!(ops.len(), 4);
    assert!(matches!(&ops[0], PluginOp::Require(n) if n == "spectre"));
    assert!(matches!(
        &ops[3],
        PluginOp::SaveField { field, key }
            if field == "open_file_search" && key == "spectre_open_file_search_func"
    ));
}

#[test]
fn lsp_commands_and_keymaps() {
    assert!(matches!(
        lua_registry_named_function("lsp_hover"),
        KeymapFunction::Named(n) if n == "lsp_hover"
    ));
    let commands = lsp_define_commands();
    assert_eq!(commands.len(), 12);
    assert!(matches!(
        &commands[0],
        PluginOp::SaveGlobal { path, key }
            if path == "vim.diagnostic.open_float" && key == "lsp_peek_diagnostic"
    ));
    assert!(matches!(
        &commands[11],
        PluginOp::SaveGlobal { path, key } if path == "vim.lsp.buf.format" && key == "lsp_format"
    ));
    let ops = lsp_setup_keymap(3).unwrap();
    assert_eq!(ops.len(), 14 + 14 + 2);
    for op in &ops {
        assert_eq!(op.scope, Scope::Document(3));
    }
    assert_eq!(ops[0].mode, Mode::Visual);
    assert_eq!(ops[14].mode, Mode::Normal);
    assert_eq!(ops[28].mode, Mode::Insert);
    assert!(matches!(&ops[0].kind, HostOpKind::Bind(t, _) if t == ".d"));
}

#[test]
fn lsp_plan_configures_each_language_server() {
    let ops = setup_lsp();
    assert!(matches!(&ops[0], PluginOp::Require(n) if n == "lspconfig"));
    let langs: Vec<&str> = ops
        .iter()
        .filter_map(|op| match op {
            PluginOp::CallNested { field, func, .. } if func == "setup" => Some(field.as_str()),
            _ => None,
        })
        .collect();
    assert_eq!(langs, ["rust_analyzer", "clangd", "lua_ls", "ruff", "basedpyright"]);
    let blink = blink_cmp_capabilities();
    assert_eq!(blink.len(), 3);
    assert!(matches!(&blink[0], PluginOp::Require(n) if n == "blink.cmp"));
    assert!(matches!(
        &blink[2],
        PluginOp::CallFieldInto { field, key, .. }
            if field == "get_lsp_capabilities" && key == "blink_lsp_capabilities"
    ));
    let one = setup_lang("clangd");
    assert_eq!(one.len(), 1);
    match &one[0] {
        PluginOp::CallNested { field, func, arg } => {
            assert_eq!(field, "clangd");
            assert_eq!(func, "setup");
            match arg {
                ConfigValue::Record(fields) => {
                    assert_eq!(fields.len(), 2);
                    assert_eq!(fields[0].0, "capabilities");
                    assert_eq!(fields[1].0, "on_attach");
                },
                _ => panic!("the setup argument is a record"),
            }
        },
        _ => panic!("a language server is set up through the configuration plugin"),
    }
}

#[test]
fn telescope_plan_and_command_target() {
    let ops = setup_telescope();
    assert_eq!(ops.len(), 6);
    assert!(matches!(&ops[0], PluginOp::Require(n) if n == "telescope"));
    assert!(matches!(&ops[3], PluginOp::Require(n) if n == "telescope.builtin"));
    assert!(matches!(&ops[4], PluginOp::SaveObject { key } if key == "telescope_builtin"));
    assert!(matches!(
        &ops[5],
        PluginOp::CreateCommand { name, nargs } if name == "TelescopeCall" && *nargs == 1
    ));
    assert_eq!(telescope_call_target(&vec![s("buffers")]), Some(s("buffers")));
    assert_eq!(telescope_call_target(&vec![]), None);
    assert_eq!(telescope_call_target(&vec![s("a"), s("b")]), None);
}

#[test]
fn lua_plugin_builder_and_plan() {
    let plan = LuaPlugin::builder("dirbuf").build().lua_plugin_setup().unwrap();
    assert_eq!(plan.len(), 2);
    assert!(matches!(&plan[0], PluginOp::Require(n) if n == "dirbuf"));
    match &plan[1] {
        PluginOp::CallField { field, arg } => {
            assert_eq!(field, "setup");
            assert!(matches!(arg, ConfigValue::Items(v) if v.is_empty()));
        },
        _ => panic!("the default setup function is called"),
    }
    let configured = LuaPlugin::builder("toggleterm")
        .setup_func("init")
        .pre_setup(ConfigValue::Bool(true))
        .post_setup("after")
        .build()
        .lua_plugin_setup()
        .unwrap();
    assert_eq!(configured.len(), 3);
    assert!(matches!(
        &configured[1],
        PluginOp::CallField { field, arg } if field == "init" && matches!(arg, ConfigValue::Bool(true))
    ));
    assert!(matches!(&configured[2], PluginOp::RunSaved { key } if key == "after"));
    match LuaPlugin::builder("").build().lua_plugin_setup() {
        Err(PluginError::Other(m)) => assert_eq!(m, "Plugin name not provided"),
        _ => panic!("a nameless plugin cannot be planned"),
    }
}

#[test]
fn plugin_error_reports() {
    assert_eq!(
        plugin_failure_report(&PluginError::NotInstalled(s("leap"))),
        "Plugin leap doesn't seem to be installed"
    );
    assert_eq!(
        plugin_failure_report(&PluginError::DependencyMissing(s("rg"))),
        "Dependency rg seems to be missing"
    );
    assert_eq!(plugin_failure_report(&PluginError::Other(s("boom"))), "Error occured: boom");
    assert_eq!(
        PluginError::NotInstalled(s("leap")).message(),
        "Plugin not installed: leap"
    );
}

#[test]
fn native_settings_respect_their_inputs() {
    let base = setup_native_settings(false);
    assert_eq!(base.len(), 7 + 5);
    assert!(matches!(
        &base[0],
        PluginOp::SetOption { name, value } if name == "number" && matches!(value, ConfigValue::Bool(true))
    ));
    assert!(base.iter().all(|op| !matches!(
        op,
        PluginOp::SetOption { name, .. } if name == "laststatus"
    )));
    let embedded = setup_native_settings(true);
    assert_eq!(embedded.len(), 8 + 5);
    assert!(embedded.iter().any(|op| matches!(
        op,
        PluginOp::SetOption { name, value } if name == "laststatus" && matches!(value, ConfigValue::Int(0))
    )));
    let colors = setup_colorscheme();
    assert_eq!(colors.len(), 1);
    assert!(matches!(&colors[0], PluginOp::RunCommand(c) if c == "colorscheme gruvbox"));
}

#[test]
fn whole_load_sequence_plan() {
    assert_eq!(treesitter_runtimepath("/home/u/.nvim/tree_sitter", "a,b"), "/home/u/.nvim/tree_sitter,a,b");
    let ops = setup_plugins(false, "/ts", "rtp");
    assert!(matches!(&ops[0], PluginOp::Require(n) if n == "nvim-autopairs"));
    assert!(ops.iter().any(|op| matches!(
        op,
        PluginOp::SetOption { name, value }
            if name == "runtimepath" && matches!(value, ConfigValue::Text(t) if t == "/ts,rtp")
    )));
    assert!(ops.iter().any(|op| matches!(
        op,
        PluginOp::Require(n) if n == "nvim-treesitter.configs"
    )));
    let requires: Vec<&str> = ops
        .iter()
        .filter_map(|op| match op {
            PluginOp::Require(n) => Some(n.as_str()),
            _ => None,
        })
        .collect();
    assert_eq!(
        requires,
        [
            "nvim-autopairs", "term-edit", "toggleterm", "guess-indent", "dirbuf",
            "nvim-treesitter.configs", "leap", "spectre", "telescope", "telescope.builtin",
            "lspconfig", "blink.cmp", "lspconfig", "cinnamon",
        ]
    );
}
