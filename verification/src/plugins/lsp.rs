//! The language-server integration: the named callbacks its bindings
//! invoke, the document-scoped keymaps installed when a server attaches,
//! and the setup plan for the configured language servers.

use vstd::prelude::*;

use crate::keymap::{ec, ef, efw, named_fn};
use crate::keymap_remapping::{
    EntryModel, FnModel, HostOp, KeymapEntry, KeymapError, Mode, NvimKeymap, Scope,
    apply_plan_model, build_keymap, built_seq, entries_distinct,
};
use crate::plugins::plugin::{ConfigModel, ConfigValue, PluginOp, PluginOpModel, config_fields, config_models};

verus! {

/// A callback that runs whatever function the host registry holds under
/// the given name; integrations install a host-side function once and
/// reference it from many bindings through this.
pub fn lua_registry_named_function(name: &str) -> (f: crate::keymap_remapping::KeymapFunction)
    ensures
        f.deep_view() == named_fn(name@),
{
    crate::keymap_remapping::KeymapFunction::Named(String::from_str(name))
}

/// One registration of the plan of [`lsp_define_commands`]: save the host
/// value at the global path in the registry under the name.
pub fn lsp_setup_func(name: &str, path: &str) -> (ops: Vec<PluginOp>)
    ensures
        ops.deep_view() == seq![
            PluginOpModel::SaveGlobal { path: path@, key: name@ },
        ],
{
    let ops: Vec<PluginOp> = vec![
        PluginOp::SaveGlobal { path: String::from_str(path), key: String::from_str(name) },
    ];
    proof {
        assert(ops.deep_view() =~~= seq![PluginOpModel::SaveGlobal { path: path@, key: name@ }]);
    }
    ops
}

/// The registrations that make the host's language-server functions
/// reachable by name: diagnostics, navigation, hover and signature help,
/// rename, code actions, and formatting.
pub open spec fn lsp_commands_model() -> Seq<PluginOpModel> {
    seq![
        PluginOpModel::SaveGlobal { path: "vim.diagnostic.open_float"@, key: "lsp_peek_diagnostic"@ },
        PluginOpModel::SaveGlobal { path: "vim.diagnostic.setloclist"@, key: "lsp_diagnostic_list"@ },
        PluginOpModel::SaveGlobal { path: "vim.lsp.buf.definition"@, key: "lsp_goto_definition"@ },
        PluginOpModel::SaveGlobal { path: "vim.lsp.buf.declaration"@, key: "lsp_goto_declaration"@ },
        PluginOpModel::SaveGlobal {
            path: "vim.lsp.buf.implementation"@,
            key: "lsp_goto_implementation"@,
        },
        PluginOpModel::SaveGlobal {
            path: "vim.lsp.buf.type_definition"@,
            key: "lsp_goto_type_definition"@,
        },
        PluginOpModel::SaveGlobal { path: "vim.lsp.buf.references"@, key: "lsp_goto_references"@ },
        PluginOpModel::SaveGlobal { path: "vim.lsp.buf.hover"@, key: "lsp_hover"@ },
        PluginOpModel::SaveGlobal {
            path: "vim.lsp.buf.signature_help"@,
            key: "lsp_signature_help"@,
        },
        PluginOpModel::SaveGlobal { path: "vim.lsp.buf.rename"@, key: "lsp_rename"@ },
        PluginOpModel::SaveGlobal { path: "vim.lsp.buf.code_action"@, key: "lsp_code_action"@ },
        PluginOpModel::SaveGlobal { path: "vim.lsp.buf.format"@, key: "lsp_format"@ },
    ]
}

/// Plans the registrations of [`lsp_commands_model`].
pub fn lsp_define_commands() -> (ops: Vec<PluginOp>)
    ensures
        ops.deep_view() == lsp_commands_model(),
{
    let pairs: Vec<(&'static str, &'static str)> = vec![
        ("lsp_peek_diagnostic", "vim.diagnostic.open_float"),
        ("lsp_diagnostic_list", "vim.diagnostic.setloclist"),
        ("lsp_goto_definition", "vim.lsp.buf.definition"),
        ("lsp_goto_declaration", "vim.lsp.buf.declaration"),
        ("lsp_goto_implementation", "vim.lsp.buf.implementation"),
        ("lsp_goto_type_definition", "vim.lsp.buf.type_definition"),
        ("lsp_goto_references", "vim.lsp.buf.references"),
        ("lsp_hover", "vim.lsp.buf.hover"),
        ("lsp_signature_help", "vim.lsp.buf.signature_help"),
        ("lsp_rename", "vim.lsp.buf.rename"),
        ("lsp_code_action", "vim.lsp.buf.code_action"),
        ("lsp_format", "vim.lsp.buf.format"),
    ];
    let n = pairs.len();
    let mut ops: Vec<PluginOp> = Vec::new();
    let mut i: usize = 0;
    while i < n
        invariant
            n == pairs.len(),
            i <= n,
            n == 12,
            forall|k: int|
                0 <= k < n ==> #[trigger] lsp_commands_model()[k] == (PluginOpModel::SaveGlobal {
                    path: pairs.deep_view()[k].1,
                    key: pairs.deep_view()[k].0,
                }),
            ops.deep_view() =~= lsp_commands_model().take(i as int),
        decreases n - i,
    {
        let mut one = lsp_setup_func(pairs[i].0, pairs[i].1);
        proof {
            assert(pairs.deep_view()[i as int] == pairs@[i as int].deep_view());
            assert(one.deep_view()[0] == lsp_commands_model()[i as int]);
            assert(lsp_commands_model().take(i + 1) =~= lsp_commands_model().take(i as int).push(
                lsp_commands_model()[i as int],
            ));
        }
        let ghost before = ops.deep_view();
        let ghost one_view = one.deep_view();
        ops.append(&mut one);
        proof {
            assert(ops.deep_view() =~= before + one_view);
            assert(before + one_view =~= lsp_commands_model().take(i + 1));
        }
        i += 1;
    }
    proof {
        assert(ops.deep_view() =~= lsp_commands_model());
    }
    ops
}

/// The document-scoped insert-mode entries installed when a language
/// server attaches: hover and signature help.
pub open spec fn lsp_insert_entries_model() -> Seq<EntryModel> {
    seq![ef("<C-k>"@, "lsp_hover"@), ef("<C-l>"@, "lsp_signature_help"@)]
}

/// The document-scoped entries shared by the normal and visual modes when
/// a language server attaches: navigation, diagnostics, symbol search,
/// code actions, rename, and formatting.
pub open spec fn lsp_normal_entries_model() -> Seq<EntryModel> {
    seq![
        efw(".d"@, "lsp_goto_definition"@),
        efw(".D"@, "lsp_goto_declaration"@),
        efw(".i"@, "lsp_goto_implementation"@),
        efw(".t"@, "lsp_goto_type_definition"@),
        ec(".r"@, "TelescopeCall lsp_references"@),
        ec(".q"@, "TelescopeCall diagnostics"@),
        ef(".,"@, "lsp_peek_diagnostic"@),
        ec(".k"@, "TelescopeCall lsp_document_symbols"@),
        ec(".K"@, "TelescopeCall lsp_workspace_symbols"@),
        ef(".a"@, "lsp_code_action"@),
        ef(".R"@, "lsp_rename"@),
        ef(".f"@, "lsp_format"@),
        ef("<C-k>"@, "lsp_hover"@),
        ef("<C-l>"@, "lsp_signature_help"@),
    ]
}

/// Builds the shared normal/visual keymap of [`lsp_normal_entries_model`].
fn lsp_normal_keymap() -> (r: Result<NvimKeymap, KeymapError>)
    ensures
        r is Ok <==> entries_distinct(lsp_normal_entries_model()),
        r matches Ok(k) ==> k.deep_view() == built_seq(lsp_normal_entries_model()) && k.wf(),
{
    let mut es: Vec<KeymapEntry> = Vec::new();
    es.push(KeymapEntry::function(String::from_str(".d"), lua_registry_named_function("lsp_goto_definition")).wrapped());
    es.push(KeymapEntry::function(String::from_str(".D"), lua_registry_named_function("lsp_goto_declaration")).wrapped());
    es.push(KeymapEntry::function(String::from_str(".i"), lua_registry_named_function("lsp_goto_implementation")).wrapped());
    es.push(KeymapEntry::function(String::from_str(".t"), lua_registry_named_function("lsp_goto_type_definition")).wrapped());
    es.push(KeymapEntry::command(String::from_str(".r"), String::from_str("TelescopeCall lsp_references")));
    es.push(KeymapEntry::command(String::from_str(".q"), String::from_str("TelescopeCall diagnostics")));
    es.push(KeymapEntry::function(String::from_str(".,"), lua_registry_named_function("lsp_peek_diagnostic")));
    es.push(KeymapEntry::command(String::from_str(".k"), String::from_str("TelescopeCall lsp_document_symbols")));
    es.push(KeymapEntry::command(String::from_str(".K"), String::from_str("TelescopeCall lsp_workspace_symbols")));
    es.push(KeymapEntry::function(String::from_str(".a"), lua_registry_named_function("lsp_code_action")));
    es.push(KeymapEntry::function(String::from_str(".R"), lua_registry_named_function("lsp_rename")));
    es.push(KeymapEntry::function(String::from_str(".f"), lua_registry_named_function("lsp_format")));
    es.push(KeymapEntry::function(String::from_str("<C-k>"), lua_registry_named_function("lsp_hover")));
    es.push(KeymapEntry::function(String::from_str("<C-l>"), lua_registry_named_function("lsp_signature_help")));
    proof {
        assert(es.deep_view() =~= lsp_normal_entries_model());
    }
    build_keymap(es)
}

/// Builds the insert-mode keymap of [`lsp_insert_entries_model`].
fn lsp_insert_keymap() -> (r: Result<NvimKeymap, KeymapError>)
    ensures
        r is Ok <==> entries_distinct(lsp_insert_entries_model()),
        r matches Ok(k) ==> k.deep_view() == built_seq(lsp_insert_entries_model()) && k.wf(),
{
    let mut es: Vec<KeymapEntry> = Vec::new();
    es.push(KeymapEntry::function(String::from_str("<C-k>"), lua_registry_named_function("lsp_hover")));
    es.push(KeymapEntry::function(String::from_str("<C-l>"), lua_registry_named_function("lsp_signature_help")));
    proof {
        assert(es.deep_view() =~= lsp_insert_entries_model());
    }
    build_keymap(es)
}

/// Plans the keymaps installed for one document when a language server
/// attaches to it: the shared entries for the visual and normal modes,
/// then the insert-mode entries, all scoped to the document. A duplicate
/// trigger in the configured entries is reported instead.
pub fn lsp_setup_keymap(buf: i32) -> (r: Result<Vec<HostOp>, KeymapError>)
    ensures
        r is Ok <==> entries_distinct(lsp_normal_entries_model()) && entries_distinct(
            lsp_insert_entries_model(),
        ),
        r matches Ok(ops) ==> ops.deep_view() == (apply_plan_model(
            Mode::Visual,
            Scope::Document(buf),
            built_seq(lsp_normal_entries_model()),
        ) + apply_plan_model(
            Mode::Normal,
            Scope::Document(buf),
            built_seq(lsp_normal_entries_model()),
        )) + apply_plan_model(
            Mode::Insert,
            Scope::Document(buf),
            built_seq(lsp_insert_entries_model()),
        ),
{
    let visual_km = match lsp_normal_keymap() {
        Ok(k) => k,
        Err(e) => {
            return Err(e);
        },
    };
    let normal_km = match lsp_normal_keymap() {
        Ok(k) => k,
        Err(e) => {
            return Err(e);
        },
    };
    let insert_km = match lsp_insert_keymap() {
        Ok(k) => k,
        Err(e) => {
            return Err(e);
        },
    };
    let mut ops = crate::keymap_remapping::setup_buf_keymap(buf, Mode::Visual, visual_km);
    let ghost first = ops.deep_view();
    let mut normal_ops = crate::keymap_remapping::setup_buf_keymap(buf, Mode::Normal, normal_km);
    let ghost second = normal_ops.deep_view();
    ops.append(&mut normal_ops);
    let mut insert_ops = crate::keymap_remapping::setup_buf_keymap(buf, Mode::Insert, insert_km);
    let ghost third = insert_ops.deep_view();
    ops.append(&mut insert_ops);
    proof {
        assert(ops.deep_view() =~= (first + second) + third);
    }
    Ok(ops)
}

/// The configuration of the completion engine: its fuzzy matcher runs in
/// the host's own scripting engine, and completion is driven by explicit
/// keys rather than a preset.
pub open spec fn blink_config_model() -> ConfigModel {
    ConfigModel::Record(
        seq![
            ("fuzzy"@, ConfigModel::Record(seq![("implementation"@, ConfigModel::Text("lua"@))])),
            (
                "keymap"@,
                ConfigModel::Record(
                    seq![
                        ("preset"@, ConfigModel::Text("none"@)),
                        (
                            "<C-space>"@,
                            ConfigModel::Items(
                                seq![
                                    ConfigModel::Text("select_and_accept"@),
                                    ConfigModel::Text("show"@),
                                    ConfigModel::Text("fallback"@),
                                ],
                            ),
                        ),
                        (
                            "<Down>"@,
                            ConfigModel::Items(
                                seq![
                                    ConfigModel::Text("select_next"@),
                                    ConfigModel::Text("fallback"@),
                                ],
                            ),
                        ),
                        (
                            "<Up>"@,
                            ConfigModel::Items(
                                seq![
                                    ConfigModel::Text("select_prev"@),
                                    ConfigModel::Text("fallback"@),
                                ],
                            ),
                        ),
                    ],
                ),
            ),
        ],
    )
}

/// The registry key under which the completion engine's capabilities are
/// saved for the language-server setups.
pub open spec fn capabilities_key() -> Seq<char> {
    "blink_lsp_capabilities"@
}

/// The setup plan of the completion engine: load it, run its setup with
/// [`blink_config_model`], and save the capabilities it computes under
/// [`capabilities_key`].
pub open spec fn blink_plan_model() -> Seq<PluginOpModel> {
    seq![
        PluginOpModel::Require("blink.cmp"@),
        PluginOpModel::CallField { field: "setup"@, arg: blink_config_model() },
        PluginOpModel::CallFieldInto {
            field: "get_lsp_capabilities"@,
            arg: ConfigModel::Record(Seq::empty()),
            key: capabilities_key(),
        },
    ]
}

/// Plans the completion engine's setup; see [`blink_plan_model`].
pub fn blink_cmp_capabilities() -> (ops: Vec<PluginOp>)
    ensures
        ops.deep_view() == blink_plan_model(),
{
    let fuzzy_fields: Vec<(String, ConfigValue)> = vec![
        (String::from_str("implementation"), ConfigValue::Text(String::from_str("lua"))),
    ];
    proof {
        reveal_with_fuel(crate::plugins::plugin::config_fields, 3);
        reveal_with_fuel(crate::plugins::plugin::config_model, 3);
        assert(config_fields(fuzzy_fields@) =~~= blink_config_model()->Record_0[0].1->Record_0);
    }
    let fuzzy = ConfigValue::Record(fuzzy_fields);
    let space_items: Vec<ConfigValue> = vec![
        ConfigValue::Text(String::from_str("select_and_accept")),
        ConfigValue::Text(String::from_str("show")),
        ConfigValue::Text(String::from_str("fallback")),
    ];
    let down_items: Vec<ConfigValue> = vec![
        ConfigValue::Text(String::from_str("select_next")),
        ConfigValue::Text(String::from_str("fallback")),
    ];
    let up_items: Vec<ConfigValue> = vec![
        ConfigValue::Text(String::from_str("select_prev")),
        ConfigValue::Text(String::from_str("fallback")),
    ];
    proof {
        reveal_with_fuel(crate::plugins::plugin::config_models, 5);
        reveal_with_fuel(crate::plugins::plugin::config_model, 5);
        assert(config_models(space_items@) =~~= seq![
            ConfigModel::Text("select_and_accept"@),
            ConfigModel::Text("show"@),
            ConfigModel::Text("fallback"@),
        ]);
        assert(config_models(down_items@) =~~= seq![
            ConfigModel::Text("select_next"@),
            ConfigModel::Text("fallback"@),
        ]);
        assert(config_models(up_items@) =~~= seq![
            ConfigModel::Text("select_prev"@),
            ConfigModel::Text("fallback"@),
        ]);
    }
    let keymap_fields: Vec<(String, ConfigValue)> = vec![
        (String::from_str("preset"), ConfigValue::Text(String::from_str("none"))),
        (String::from_str("<C-space>"), ConfigValue::Items(space_items)),
        (String::from_str("<Down>"), ConfigValue::Items(down_items)),
        (String::from_str("<Up>"), ConfigValue::Items(up_items)),
    ];
    proof {
        reveal_with_fuel(crate::plugins::plugin::config_fields, 6);
        reveal_with_fuel(crate::plugins::plugin::config_model, 6);
        assert(config_fields(keymap_fields@) =~~= blink_config_model()->Record_0[1].1->Record_0);
    }
    let keymap_cfg = ConfigValue::Record(keymap_fields);
    let cfg_fields: Vec<(String, ConfigValue)> = vec![
        (String::from_str("fuzzy"), fuzzy),
        (String::from_str("keymap"), keymap_cfg),
    ];
    proof {
        reveal_with_fuel(crate::plugins::plugin::config_fields, 3);
        reveal_with_fuel(crate::plugins::plugin::config_model, 3);
        assert(config_fields(cfg_fields@) =~~= blink_config_model()->Record_0);
    }
    let cfg = ConfigValue::Record(cfg_fields);
    let empty_fields: Vec<(String, ConfigValue)> = Vec::new();
    proof {
        reveal_with_fuel(crate::plugins::plugin::config_fields, 2);
        reveal_with_fuel(crate::plugins::plugin::config_model, 2);
        assert(cfg.deep_view() =~~= blink_config_model());
        assert(config_fields(empty_fields@) =~~= Seq::<(Seq<char>, ConfigModel)>::empty());
    }
    let empty_arg = ConfigValue::Record(empty_fields);
    let ops: Vec<PluginOp> = vec![
        PluginOp::Require(String::from_str("blink.cmp")),
        PluginOp::CallField { field: String::from_str("setup"), arg: cfg },
        PluginOp::CallFieldInto {
            field: String::from_str("get_lsp_capabilities"),
            arg: empty_arg,
            key: String::from_str("blink_lsp_capabilities"),
        },
    ];
    proof {
        reveal_with_fuel(crate::plugins::plugin::config_model, 2);
        assert(ops.deep_view() =~~= blink_plan_model());
    }
    ops
}

/// The argument handed to one language server's setup: the saved
/// capabilities, the saved on-attach callback — which installs the
/// document-scoped keymaps of [`lsp_setup_keymap`] — and the server's own
/// settings, when it has any.
pub open spec fn lang_args_model(settings: Option<ConfigModel>) -> ConfigModel {
    ConfigModel::Record(
        seq![
            ("capabilities"@, ConfigModel::Saved(capabilities_key())),
            ("on_attach"@, ConfigModel::Saved("lsp_on_attach"@)),
        ] + match settings {
            Some(s) => seq![("settings"@, s)],
            None => Seq::empty(),
        },
    )
}

/// Plans one language server's setup: call the server's entry of the
/// loaded configuration plugin with [`lang_args_model`].
pub fn setup_lang_with_settings(lang: &str, settings: Option<ConfigValue>) -> (ops: Vec<PluginOp>)
    ensures
        ops.deep_view() == seq![
            PluginOpModel::CallNested {
                field: lang@,
                func: "setup"@,
                arg: lang_args_model(settings.deep_view()),
            },
        ],
{
    let ghost sv = settings.deep_view();
    let mut fields: Vec<(String, ConfigValue)> = vec![
        (String::from_str("capabilities"), ConfigValue::Saved(String::from_str("blink_lsp_capabilities"))),
        (String::from_str("on_attach"), ConfigValue::Saved(String::from_str("lsp_on_attach"))),
    ];
    match settings {
        Some(s) => {
            fields.push((String::from_str("settings"), s));
        },
        None => {},
    }
    proof {
        reveal_with_fuel(crate::plugins::plugin::config_fields, 4);
        reveal_with_fuel(crate::plugins::plugin::config_model, 4);
        assert(config_fields(fields@) =~~= lang_args_model(sv)->Record_0);
    }
    let arg = ConfigValue::Record(fields);
    let ops: Vec<PluginOp> = vec![
        PluginOp::CallNested { field: String::from_str(lang), func: String::from_str("setup"), arg },
    ];
    proof {
        reveal_with_fuel(crate::plugins::plugin::config_model, 2);
        assert(ops.deep_view() =~~= seq![
            PluginOpModel::CallNested { field: lang@, func: "setup"@, arg: lang_args_model(sv) },
        ]);
    }
    ops
}

/// Plans one language server's setup without server-specific settings.
pub fn setup_lang(lang: &str) -> (ops: Vec<PluginOp>)
    ensures
        ops.deep_view() == seq![
            PluginOpModel::CallNested {
                field: lang@,
                func: "setup"@,
                arg: lang_args_model(None),
            },
        ],
{
    setup_lang_with_settings(lang, None)
}

/// The settings of the Rust language server: run its checks with the
/// linter instead of the default.
pub open spec fn rust_analyzer_settings_model() -> ConfigModel {
    ConfigModel::Record(
        seq![
            (
                "rust-analyzer"@,
                ConfigModel::Record(
                    seq![
                        (
                            "check"@,
                            ConfigModel::Record(seq![("command"@, ConfigModel::Text("clippy"@))]),
                        ),
                    ],
                ),
            ),
        ],
    )
}

/// One language server's setup call within [`lsp_plan_model`].
pub open spec fn lang_op_model(lang: Seq<char>, settings: Option<ConfigModel>) -> PluginOpModel {
    PluginOpModel::CallNested { field: lang, func: "setup"@, arg: lang_args_model(settings) }
}

/// The whole language-server plan: load the configuration plugin, make
/// the host's language-server functions reachable by name, set up the
/// completion engine and save its capabilities, then set up each
/// configured server — Rust with its own settings, then C, the host's
/// scripting language, and the two Python servers. The configuration
/// plugin is loaded again after the completion ops so that the server
/// calls address it; the host caches loaded plugins, so nothing runs
/// twice. The adapter provides the saved `lsp_on_attach` callback, which
/// runs [`lsp_setup_keymap`] for the attaching document.
pub open spec fn lsp_plan_model() -> Seq<PluginOpModel> {
    (((seq![PluginOpModel::Require("lspconfig"@)] + lsp_commands_model()) + blink_plan_model())
        + seq![PluginOpModel::Require("lspconfig"@)]) + seq![
        lang_op_model("rust_analyzer"@, Some(rust_analyzer_settings_model())),
        lang_op_model("clangd"@, None),
        lang_op_model("lua_ls"@, None),
        lang_op_model("ruff"@, None),
        lang_op_model("basedpyright"@, None),
    ]
}

/// Plans the language-server integration's setup; see [`lsp_plan_model`].
pub fn setup_lsp() -> (ops: Vec<PluginOp>)
    ensures
        ops.deep_view() == lsp_plan_model(),
{
    let mut ops: Vec<PluginOp> = vec![PluginOp::Require(String::from_str("lspconfig"))];
    let ghost v0 = ops.deep_view();
    let mut commands = lsp_define_commands();
    let ghost v1 = commands.deep_view();
    ops.append(&mut commands);
    proof {
        assert(ops.deep_view() =~= v0 + v1);
    }
    let mut blink = blink_cmp_capabilities();
    let ghost v2 = blink.deep_view();
    ops.append(&mut blink);
    proof {
        assert(ops.deep_view() =~= (v0 + v1) + v2);
    }
    ops.push(PluginOp::Require(String::from_str("lspconfig")));
    let ghost v3 = ops.deep_view();
    let check_fields: Vec<(String, ConfigValue)> = vec![
        (String::from_str("command"), ConfigValue::Text(String::from_str("clippy"))),
    ];
    proof {
        reveal_with_fuel(crate::plugins::plugin::config_fields, 5);
        reveal_with_fuel(crate::plugins::plugin::config_model, 5);
        assert(config_fields(check_fields@) =~~= seq![("command"@, ConfigModel::Text("clippy"@))]);
    }
    let ra_inner: Vec<(String, ConfigValue)> = vec![
        (String::from_str("check"), ConfigValue::Record(check_fields)),
    ];
    proof {
        reveal_with_fuel(crate::plugins::plugin::config_fields, 5);
        reveal_with_fuel(crate::plugins::plugin::config_model, 5);
        assert(config_fields(ra_inner@) =~~= rust_analyzer_settings_model()->Record_0[0].1
            ->Record_0);
    }
    let ra_fields: Vec<(String, ConfigValue)> = vec![
        (String::from_str("rust-analyzer"), ConfigValue::Record(ra_inner)),
    ];
    proof {
        reveal_with_fuel(crate::plugins::plugin::config_fields, 5);
        reveal_with_fuel(crate::plugins::plugin::config_model, 5);
        assert(config_fields(ra_fields@) =~~= rust_analyzer_settings_model()->Record_0);
    }
    let ra_settings = ConfigValue::Record(ra_fields);
    proof {
        reveal_with_fuel(crate::plugins::plugin::config_model, 2);
        assert(ra_settings.deep_view() =~~= rust_analyzer_settings_model());
    }
    let mut rust = setup_lang_with_settings("rust_analyzer", Some(ra_settings));
    let ghost v4 = rust.deep_view();
    ops.append(&mut rust);
    proof {
        assert(ops.deep_view() =~= v3 + v4);
    }
    let mut clangd = setup_lang("clangd");
    let ghost v5 = clangd.deep_view();
    ops.append(&mut clangd);
    let mut lua_ls = setup_lang("lua_ls");
    let ghost v6 = lua_ls.deep_view();
    ops.append(&mut lua_ls);
    let mut ruff = setup_lang("ruff");
    let ghost v7 = ruff.deep_view();
    ops.append(&mut ruff);
    let mut basedpyright = setup_lang("basedpyright");
    let ghost v8 = basedpyright.deep_view();
    ops.append(&mut basedpyright);
    proof {
        assert(ops.deep_view() =~= (((((v3 + v4) + v5) + v6) + v7) + v8));
        assert(ops.deep_view() =~~= lsp_plan_model());
    }
    ops
}

} // verus!
