//! Integrations with the host's plugin ecosystem.
//!
//! Each integration computes a plan of host-side operations; the unverified
//! adapter performs them and reports failures without ever aborting the
//! host's load sequence. The smooth-scroll integration additionally owns
//! the cross-cutting wrap transform used by the keymap construction
//! grammar.

pub mod cinnamon;
pub mod leap;
pub mod lsp;
pub mod lua_plugin;
pub mod plugin;
pub mod spectre;
pub mod telescope;

use vstd::prelude::*;

use crate::plugins::lua_plugin::{LuaPlugin, lua_plugin_plan_model, LuaPluginModel};
use crate::plugins::plugin::{
    ConfigModel, ConfigValue, PluginError, PluginErrorModel, PluginOp, PluginOpModel,
    config_fields, config_models,
};

verus! {

/// Whether the host renders through the graphical front end whose cursor
/// and scroll animations the native settings configure.
pub const ENABLE_NEOVIDE: bool = true;

/// The plan that selects the color scheme.
pub open spec fn colorscheme_plan_model() -> Seq<PluginOpModel> {
    seq![PluginOpModel::RunCommand("colorscheme gruvbox"@)]
}

/// Plans the color-scheme selection; see [`colorscheme_plan_model`].
pub fn setup_colorscheme() -> (ops: Vec<PluginOp>)
    ensures
        ops.deep_view() == colorscheme_plan_model(),
{
    let ops: Vec<PluginOp> = vec![PluginOp::RunCommand(String::from_str("colorscheme gruvbox"))];
    proof {
        assert(ops.deep_view() =~~= colorscheme_plan_model());
    }
    ops
}

/// The configuration of the browser-embedding front end: available
/// everywhere, but never taking over a text area by itself.
pub open spec fn firenvim_config_model() -> ConfigModel {
    ConfigModel::Record(
        seq![
            ("globalSettings"@, ConfigModel::Record(seq![("alt"@, ConfigModel::Text("all"@))])),
            (
                "localSettings"@,
                ConfigModel::Record(
                    seq![
                        (".*"@, ConfigModel::Record(seq![("takeover"@, ConfigModel::Text("never"@))])),
                    ],
                ),
            ),
        ],
    )
}

/// The native-settings plan: line numbers, scroll margin and indentation
/// options, the browser-embedding configuration, a bare status line when
/// the host was started from the browser embedding, and — for the
/// graphical front end — its font and animation tuning.
pub open spec fn native_settings_model(started_by_firenvim: bool) -> Seq<PluginOpModel> {
    (seq![
        PluginOpModel::SetOption { name: "number"@, value: ConfigModel::Bool(true) },
        PluginOpModel::SetOption { name: "scrolloff"@, value: ConfigModel::Int(10) },
        PluginOpModel::SetOption { name: "tabstop"@, value: ConfigModel::Int(4) },
        PluginOpModel::SetOption { name: "shiftwidth"@, value: ConfigModel::Int(4) },
        PluginOpModel::SetOption { name: "softtabstop"@, value: ConfigModel::Int(4) },
        PluginOpModel::SetOption { name: "expandtab"@, value: ConfigModel::Bool(true) },
        PluginOpModel::SetGlobal { name: "firenvim_config"@, value: firenvim_config_model() },
    ] + if started_by_firenvim {
        seq![PluginOpModel::SetOption { name: "laststatus"@, value: ConfigModel::Int(0) }]
    } else {
        Seq::empty()
    }) + if ENABLE_NEOVIDE {
        seq![
            PluginOpModel::SetOption {
                name: "guifont"@,
                value: ConfigModel::Text("Hack Nerd Font:h9"@),
            },
            PluginOpModel::RunCommand("let g:neovide_cursor_animation_length = 0.05"@),
            PluginOpModel::RunCommand("let g:neovide_cursor_trail_size = 0.3"@),
            PluginOpModel::RunCommand("let g:neovide_scroll_animation_length = 0.1"@),
            PluginOpModel::RunCommand("let g:cinnamon_disable = 1"@),
        ]
    } else {
        Seq::empty()
    }
}

/// Plans the native settings; `started_by_firenvim` carries the host
/// global of that name, read by the adapter. See
/// [`native_settings_model`].
pub fn setup_native_settings(started_by_firenvim: bool) -> (ops: Vec<PluginOp>)
    ensures
        ops.deep_view() == native_settings_model(started_by_firenvim),
{
    let alt_fields: Vec<(String, ConfigValue)> = vec![
        (String::from_str("alt"), ConfigValue::Text(String::from_str("all"))),
    ];
    let takeover_fields: Vec<(String, ConfigValue)> = vec![
        (String::from_str("takeover"), ConfigValue::Text(String::from_str("never"))),
    ];
    proof {
        reveal_with_fuel(crate::plugins::plugin::config_fields, 3);
        reveal_with_fuel(crate::plugins::plugin::config_model, 3);
        assert(config_fields(alt_fields@) =~~= seq![("alt"@, ConfigModel::Text("all"@))]);
        assert(config_fields(takeover_fields@) =~~= seq![
            ("takeover"@, ConfigModel::Text("never"@)),
        ]);
    }
    let global_settings = ConfigValue::Record(alt_fields);
    let local_inner = ConfigValue::Record(takeover_fields);
    let local_fields: Vec<(String, ConfigValue)> = vec![(String::from_str(".*"), local_inner)];
    proof {
        reveal_with_fuel(crate::plugins::plugin::config_fields, 3);
        reveal_with_fuel(crate::plugins::plugin::config_model, 3);
        assert(config_fields(local_fields@) =~~= firenvim_config_model()->Record_0[1].1->Record_0);
    }
    let local_settings = ConfigValue::Record(local_fields);
    let firenvim_fields: Vec<(String, ConfigValue)> = vec![
        (String::from_str("globalSettings"), global_settings),
        (String::from_str("localSettings"), local_settings),
    ];
    proof {
        reveal_with_fuel(crate::plugins::plugin::config_fields, 3);
        reveal_with_fuel(crate::plugins::plugin::config_model, 3);
        assert(config_fields(firenvim_fields@) =~~= firenvim_config_model()->Record_0);
    }
    let firenvim = ConfigValue::Record(firenvim_fields);
    proof {
        reveal_with_fuel(crate::plugins::plugin::config_model, 2);
        assert(firenvim.deep_view() =~~= firenvim_config_model());
    }
    let mut ops: Vec<PluginOp> = vec![
        PluginOp::SetOption { name: String::from_str("number"), value: ConfigValue::Bool(true) },
        PluginOp::SetOption { name: String::from_str("scrolloff"), value: ConfigValue::Int(10) },
        PluginOp::SetOption { name: String::from_str("tabstop"), value: ConfigValue::Int(4) },
        PluginOp::SetOption { name: String::from_str("shiftwidth"), value: ConfigValue::Int(4) },
        PluginOp::SetOption { name: String::from_str("softtabstop"), value: ConfigValue::Int(4) },
        PluginOp::SetOption { name: String::from_str("expandtab"), value: ConfigValue::Bool(true) },
        PluginOp::SetGlobal { name: String::from_str("firenvim_config"), value: firenvim },
    ];
    if started_by_firenvim {
        ops.push(
            PluginOp::SetOption { name: String::from_str("laststatus"), value: ConfigValue::Int(0) },
        );
    }
    if ENABLE_NEOVIDE {
        ops.push(
            PluginOp::SetOption {
                name: String::from_str("guifont"),
                value: ConfigValue::Text(String::from_str("Hack Nerd Font:h9")),
            },
        );
        ops.push(
            PluginOp::RunCommand(String::from_str("let g:neovide_cursor_animation_length = 0.05")),
        );
        ops.push(PluginOp::RunCommand(String::from_str("let g:neovide_cursor_trail_size = 0.3")));
        ops.push(
            PluginOp::RunCommand(String::from_str("let g:neovide_scroll_animation_length = 0.1")),
        );
        ops.push(PluginOp::RunCommand(String::from_str("let g:cinnamon_disable = 1")));
    }
    proof {
        assert(ops.deep_view() =~~= native_settings_model(started_by_firenvim));
    }
    ops
}

/// Classifies one failed plan operation: a failed plugin load means the
/// plugin is not installed; any other failure carries the host's message.
pub fn plugin_op_failure(op: &PluginOp, message: String) -> (e: PluginError)
    ensures
        op.deep_view() matches PluginOpModel::Require(n) ==> e.deep_view()
            == PluginErrorModel::NotInstalled(n),
        !(op.deep_view() is Require) ==> e.deep_view() == PluginErrorModel::Other(message@),
{
    match op {
        PluginOp::Require(name) => PluginError::NotInstalled(name.clone()),
        _ => PluginError::Other(message),
    }
}

/// One line for the adapter's log, describing a failed plugin setup as
/// the load sequence reports it.
pub fn plugin_failure_report(e: &PluginError) -> (r: String)
    ensures
        e.deep_view() matches PluginErrorModel::NotInstalled(n) ==> r@ == ("Plugin "@ + n)
            + " doesn't seem to be installed"@,
        e.deep_view() matches PluginErrorModel::DependencyMissing(n) ==> r@ == ("Dependency "@ + n)
            + " seems to be missing"@,
        e.deep_view() matches PluginErrorModel::Other(m) ==> r@ == "Error occured: "@ + m,
    {
    match e {
        PluginError::NotInstalled(n) => String::from_str("Plugin ").concat(n.as_str()).concat(
            " doesn't seem to be installed",
        ),
        PluginError::DependencyMissing(n) => String::from_str("Dependency ").concat(
            n.as_str(),
        ).concat(" seems to be missing"),
        PluginError::Other(m) => String::from_str("Error occured: ").concat(m.as_str()),
    }
}

/// A plugin set up with its defaults.
pub open spec fn simple_plugin_model(name: Seq<char>) -> LuaPluginModel {
    LuaPluginModel { name, setup_func: "setup"@, pre_setup: None, post_setup: None }
}

/// A plugin set up with one configuration argument.
pub open spec fn configured_plugin_model(name: Seq<char>, cfg: ConfigModel) -> LuaPluginModel {
    LuaPluginModel { name, setup_func: "setup"@, pre_setup: Some(cfg), post_setup: None }
}

/// The terminal-editing plugin's configuration: the prompt marker and the
/// key-replay delay.
pub open spec fn term_edit_config_model() -> ConfigModel {
    ConfigModel::Record(
        seq![
            ("prompt_end"@, ConfigModel::Text("\u{276f} "@)),
            ("feedkeys_delay"@, ConfigModel::Int(200)),
        ],
    )
}

/// The terminal-toggling plugin's configuration: a tab per terminal,
/// starting in normal mode.
pub open spec fn toggleterm_config_model() -> ConfigModel {
    ConfigModel::Record(
        seq![
            ("direction"@, ConfigModel::Text("tab"@)),
            ("start_in_insert"@, ConfigModel::Bool(false)),
        ],
    )
}

/// The parser plugin's configuration: no automatic parser installation,
/// parsers kept under the given directory, and highlighting, indentation
/// and incremental selection enabled.
pub open spec fn treesitter_config_model(dir: Seq<char>) -> ConfigModel {
    ConfigModel::Record(
        seq![
            ("auto_install"@, ConfigModel::Bool(false)),
            ("parser_install_dir"@, ConfigModel::Text(dir)),
            ("highlight"@, ConfigModel::Record(seq![("enable"@, ConfigModel::Bool(true))])),
            ("indent"@, ConfigModel::Record(seq![("enable"@, ConfigModel::Bool(true))])),
            (
                "incremental_selection"@,
                ConfigModel::Record(seq![("enable"@, ConfigModel::Bool(true))]),
            ),
        ],
    )
}

/// The runtime path extended with the parser directory, which must come
/// first so the host finds the kept parsers.
pub fn treesitter_runtimepath(dir: &str, current: &str) -> (r: String)
    ensures
        r@ == (dir@ + ","@) + current@,
{
    String::from_str(dir).concat(",").concat(current)
}

/// Builds the parser plugin's configuration for a parser directory.
pub fn treesitter_config(dir: &str) -> (r: ConfigValue)
    ensures
        r.deep_view() == treesitter_config_model(dir@),
{
    let enable_fields: Vec<(String, ConfigValue)> = vec![
        (String::from_str("enable"), ConfigValue::Bool(true)),
    ];
    proof {
        reveal_with_fuel(crate::plugins::plugin::config_fields, 3);
        reveal_with_fuel(crate::plugins::plugin::config_model, 3);
        assert(config_fields(enable_fields@) =~~= seq![("enable"@, ConfigModel::Bool(true))]);
    }
    let highlight = ConfigValue::Record(enable_fields);
    let enable_fields2: Vec<(String, ConfigValue)> = vec![
        (String::from_str("enable"), ConfigValue::Bool(true)),
    ];
    let enable_fields3: Vec<(String, ConfigValue)> = vec![
        (String::from_str("enable"), ConfigValue::Bool(true)),
    ];
    proof {
        reveal_with_fuel(crate::plugins::plugin::config_fields, 3);
        reveal_with_fuel(crate::plugins::plugin::config_model, 3);
        assert(config_fields(enable_fields2@) =~~= seq![("enable"@, ConfigModel::Bool(true))]);
        assert(config_fields(enable_fields3@) =~~= seq![("enable"@, ConfigModel::Bool(true))]);
    }
    let indent = ConfigValue::Record(enable_fields2);
    let incremental = ConfigValue::Record(enable_fields3);
    let fields: Vec<(String, ConfigValue)> = vec![
        (String::from_str("auto_install"), ConfigValue::Bool(false)),
        (String::from_str("parser_install_dir"), ConfigValue::Text(String::from_str(dir))),
        (String::from_str("highlight"), highlight),
        (String::from_str("indent"), indent),
        (String::from_str("incremental_selection"), incremental),
    ];
    proof {
        reveal_with_fuel(crate::plugins::plugin::config_fields, 7);
        reveal_with_fuel(crate::plugins::plugin::config_model, 7);
        assert(config_fields(fields@) =~~= treesitter_config_model(dir@)->Record_0);
    }
    let r = ConfigValue::Record(fields);
    proof {
        reveal_with_fuel(crate::plugins::plugin::config_model, 2);
        assert(r.deep_view() =~~= treesitter_config_model(dir@));
    }
    r
}

/// The plans of the generic plugins of the load sequence: automatic pair
/// insertion, terminal editing, the terminal toggler, indentation
/// guessing, the directory buffer, and the parser plugin — the last
/// preceded by the runtime-path extension its parsers need.
pub open spec fn plugin_list_model(dir: Seq<char>, rtp: Seq<char>) -> Seq<PluginOpModel> {
    ((((lua_plugin_plan_model(simple_plugin_model("nvim-autopairs"@)) + lua_plugin_plan_model(
        configured_plugin_model("term-edit"@, term_edit_config_model()),
    )) + lua_plugin_plan_model(configured_plugin_model("toggleterm"@, toggleterm_config_model()))
        + lua_plugin_plan_model(simple_plugin_model("guess-indent"@))) + lua_plugin_plan_model(
        simple_plugin_model("dirbuf"@),
    )) + seq![
        PluginOpModel::SetOption {
            name: "runtimepath"@,
            value: ConfigModel::Text((dir + ","@) + rtp),
        },
    ]) + lua_plugin_plan_model(
        configured_plugin_model("nvim-treesitter.configs"@, treesitter_config_model(dir)),
    )
}

/// The whole load sequence's plan: the generic plugins, the native
/// settings, the color scheme, and the motion-jump, find-and-replace,
/// fuzzy-finder, language-server and smooth-scroll integrations, in the
/// order the host performs them. The find-and-replace setup runs here so
/// that the registry keys the keymap's callbacks name are filled. The
/// adapter supplies what the plan depends on: whether the browser
/// embedding started the host, the parser directory, and the current
/// runtime path.
pub open spec fn setup_plugins_model(
    started_by_firenvim: bool,
    dir: Seq<char>,
    rtp: Seq<char>,
) -> Seq<PluginOpModel> {
    ((((((plugin_list_model(dir, rtp) + native_settings_model(started_by_firenvim))
        + colorscheme_plan_model()) + crate::plugins::leap::leap_plan_model())
        + crate::plugins::spectre::spectre_plan_model())
        + crate::plugins::telescope::telescope_plan_model())
        + crate::plugins::lsp::lsp_plan_model()) + crate::plugins::cinnamon::cinnamon_plan_model()
}

/// Plans the whole load sequence; see [`setup_plugins_model`]. A failure
/// while the adapter performs the plan is reported per operation through
/// [`plugin_failure_report`] and stops nothing else.
pub fn setup_plugins(started_by_firenvim: bool, tree_sitter_dir: &str, current_rtp: &str) -> (ops:
    Vec<PluginOp>)
    ensures
        ops.deep_view() == setup_plugins_model(started_by_firenvim, tree_sitter_dir@, current_rtp@),
{
    proof {
        reveal_strlit("nvim-autopairs");
        reveal_strlit("term-edit");
        reveal_strlit("toggleterm");
        reveal_strlit("guess-indent");
        reveal_strlit("dirbuf");
        reveal_strlit("nvim-treesitter.configs");
    }
    let mut ops: Vec<PluginOp> = Vec::new();
    let ghost mut acc: Seq<PluginOpModel> = Seq::empty();
    proof {
        assert(ops.deep_view() =~= acc);
    }
    match LuaPlugin::builder("nvim-autopairs").build().lua_plugin_setup() {
        Ok(mut one) => {
            let ghost v = one.deep_view();
            ops.append(&mut one);
            proof {
                assert(ops.deep_view() =~= acc + v);
                acc = acc + v;
            }
        },
        Err(_) => {
            proof {
                assert(false);
            }
        },
    };
    let te_fields: Vec<(String, ConfigValue)> = vec![
        (String::from_str("prompt_end"), ConfigValue::Text(String::from_str("\u{276f} "))),
        (String::from_str("feedkeys_delay"), ConfigValue::Int(200)),
    ];
    proof {
        reveal_with_fuel(crate::plugins::plugin::config_fields, 3);
        reveal_with_fuel(crate::plugins::plugin::config_model, 3);
        assert(config_fields(te_fields@) =~~= term_edit_config_model()->Record_0);
    }
    let te_cfg = ConfigValue::Record(te_fields);
    proof {
        reveal_with_fuel(crate::plugins::plugin::config_model, 2);
        assert(te_cfg.deep_view() =~~= term_edit_config_model());
    }
    match LuaPlugin::builder("term-edit").pre_setup(te_cfg).build().lua_plugin_setup() {
        Ok(mut one) => {
            let ghost v = one.deep_view();
            ops.append(&mut one);
            proof {
                assert(ops.deep_view() =~= acc + v);
                acc = acc + v;
            }
        },
        Err(_) => {
            proof {
                assert(false);
            }
        },
    };
    let tt_fields: Vec<(String, ConfigValue)> = vec![
        (String::from_str("direction"), ConfigValue::Text(String::from_str("tab"))),
        (String::from_str("start_in_insert"), ConfigValue::Bool(false)),
    ];
    proof {
        reveal_with_fuel(crate::plugins::plugin::config_fields, 3);
        reveal_with_fuel(crate::plugins::plugin::config_model, 3);
        assert(config_fields(tt_fields@) =~~= toggleterm_config_model()->Record_0);
    }
    let tt_cfg = ConfigValue::Record(tt_fields);
    proof {
        reveal_with_fuel(crate::plugins::plugin::config_model, 2);
        assert(tt_cfg.deep_view() =~~= toggleterm_config_model());
    }
    match LuaPlugin::builder("toggleterm").pre_setup(tt_cfg).build().lua_plugin_setup() {
        Ok(mut one) => {
            let ghost v = one.deep_view();
            ops.append(&mut one);
            proof {
                assert(ops.deep_view() =~= acc + v);
                acc = acc + v;
            }
        },
        Err(_) => {
            proof {
                assert(false);
            }
        },
    };
    match LuaPlugin::builder("guess-indent").build().lua_plugin_setup() {
        Ok(mut one) => {
            let ghost v = one.deep_view();
            ops.append(&mut one);
            proof {
                assert(ops.deep_view() =~= acc + v);
                acc = acc + v;
            }
        },
        Err(_) => {
            proof {
                assert(false);
            }
        },
    };
    match LuaPlugin::builder("dirbuf").build().lua_plugin_setup() {
        Ok(mut one) => {
            let ghost v = one.deep_view();
            ops.append(&mut one);
            proof {
                assert(ops.deep_view() =~= acc + v);
                acc = acc + v;
            }
        },
        Err(_) => {
            proof {
                assert(false);
            }
        },
    };
    let modified_rtp = treesitter_runtimepath(tree_sitter_dir, current_rtp);
    ops.push(
        PluginOp::SetOption {
            name: String::from_str("runtimepath"),
            value: ConfigValue::Text(modified_rtp),
        },
    );
    proof {
        acc = acc + seq![
            PluginOpModel::SetOption {
                name: "runtimepath"@,
                value: ConfigModel::Text((tree_sitter_dir@ + ","@) + current_rtp@),
            },
        ];
        assert(ops.deep_view() =~= acc);
    }
    let ts_cfg = treesitter_config(tree_sitter_dir);
    match LuaPlugin::builder("nvim-treesitter.configs").pre_setup(ts_cfg).build()
        .lua_plugin_setup() {
        Ok(mut one) => {
            let ghost v = one.deep_view();
            ops.append(&mut one);
            proof {
                assert(ops.deep_view() =~= acc + v);
                acc = acc + v;
            }
        },
        Err(_) => {
            proof {
                assert(false);
            }
        },
    };
    proof {
        assert(acc =~~= plugin_list_model(tree_sitter_dir@, current_rtp@));
    }
    let mut native = setup_native_settings(started_by_firenvim);
    let ghost vn = native.deep_view();
    ops.append(&mut native);
    proof {
        assert(ops.deep_view() =~= acc + vn);
        acc = acc + vn;
    }
    let mut colors = setup_colorscheme();
    let ghost vc = colors.deep_view();
    ops.append(&mut colors);
    proof {
        assert(ops.deep_view() =~= acc + vc);
        acc = acc + vc;
    }
    let mut leap_ops = crate::plugins::leap::setup_leap();
    let ghost vl = leap_ops.deep_view();
    ops.append(&mut leap_ops);
    proof {
        assert(ops.deep_view() =~= acc + vl);
        acc = acc + vl;
    }
    let mut spectre_ops = crate::plugins::spectre::setup_spectre();
    let ghost vs = spectre_ops.deep_view();
    ops.append(&mut spectre_ops);
    proof {
        assert(ops.deep_view() =~= acc + vs);
        acc = acc + vs;
    }
    let mut telescope_ops = crate::plugins::telescope::setup_telescope();
    let ghost vt = telescope_ops.deep_view();
    ops.append(&mut telescope_ops);
    proof {
        assert(ops.deep_view() =~= acc + vt);
        acc = acc + vt;
    }
    let mut lsp_ops = crate::plugins::lsp::setup_lsp();
    let ghost vp = lsp_ops.deep_view();
    ops.append(&mut lsp_ops);
    proof {
        assert(ops.deep_view() =~= acc + vp);
        acc = acc + vp;
    }
    let mut cinnamon_ops = crate::plugins::cinnamon::setup_cinnamon();
    let ghost vm = cinnamon_ops.deep_view();
    ops.append(&mut cinnamon_ops);
    proof {
        assert(ops.deep_view() =~= acc + vm);
        acc = acc + vm;
        assert(acc =~~= setup_plugins_model(started_by_firenvim, tree_sitter_dir@, current_rtp@));
    }
    ops
}

} // verus!
