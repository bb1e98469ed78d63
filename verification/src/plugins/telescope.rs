//! The fuzzy-finder integration: its setup plan, and the decision logic of
//! the user command that routes a picker name to the finder.

use vstd::prelude::*;

use crate::plugins::plugin::{
    ConfigModel, ConfigValue, PluginOp, PluginOpModel, config_fields, config_models,
};

verus! {

/// The finder's configuration: the grep call it issues, compact path
/// display, and the native fuzzy sorter taking over both sorters in
/// smart-case mode.
pub open spec fn telescope_config_model() -> ConfigModel {
    ConfigModel::Record(
        seq![
            (
                "defaults"@,
                ConfigModel::Record(
                    seq![
                        (
                            "vimgrep_arguments"@,
                            ConfigModel::Items(
                                seq![
                                    ConfigModel::Text("rg"@),
                                    ConfigModel::Text("--color=never"@),
                                    ConfigModel::Text("--no-heading"@),
                                    ConfigModel::Text("--with-filename"@),
                                    ConfigModel::Text("--line-number"@),
                                    ConfigModel::Text("--column"@),
                                    ConfigModel::Text("--smart-case"@),
                                    ConfigModel::Text("--hidden"@),
                                    ConfigModel::Text("--glob"@),
                                    ConfigModel::Text("!**/.git/*"@),
                                ],
                            ),
                        ),
                        ("path_display"@, ConfigModel::Items(seq![ConfigModel::Text("truncate"@)])),
                    ],
                ),
            ),
            (
                "extensions"@,
                ConfigModel::Record(
                    seq![
                        (
                            "fzf"@,
                            ConfigModel::Record(
                                seq![
                                    ("fuzzy"@, ConfigModel::Bool(true)),
                                    ("override_generic_sorter"@, ConfigModel::Bool(true)),
                                    ("override_file_sorter"@, ConfigModel::Bool(true)),
                                    ("case_mode"@, ConfigModel::Text("smart_case"@)),
                                ],
                            ),
                        ),
                    ],
                ),
            ),
        ],
    )
}

/// The registry key under which the finder's picker table is saved for
/// the user command.
pub open spec fn builtin_key() -> Seq<char> {
    "telescope_builtin"@
}

/// The finder's setup plan: load it, run its setup with
/// [`telescope_config_model`], load the native-sorter extension, save the
/// picker table under [`builtin_key`], and create the one-argument user
/// command that [`telescope_call_target`] serves.
pub open spec fn telescope_plan_model() -> Seq<PluginOpModel> {
    seq![
        PluginOpModel::Require("telescope"@),
        PluginOpModel::CallField { field: "setup"@, arg: telescope_config_model() },
        PluginOpModel::CallField { field: "load_extension"@, arg: ConfigModel::Text("fzf"@) },
        PluginOpModel::Require("telescope.builtin"@),
        PluginOpModel::SaveObject { key: builtin_key() },
        PluginOpModel::CreateCommand { name: "TelescopeCall"@, nargs: 1 },
    ]
}

/// Plans the finder's setup; see [`telescope_plan_model`].
pub fn setup_telescope() -> (ops: Vec<PluginOp>)
    ensures
        ops.deep_view() == telescope_plan_model(),
{
    let grep_args: Vec<ConfigValue> = vec![
        ConfigValue::Text(String::from_str("rg")),
        ConfigValue::Text(String::from_str("--color=never")),
        ConfigValue::Text(String::from_str("--no-heading")),
        ConfigValue::Text(String::from_str("--with-filename")),
        ConfigValue::Text(String::from_str("--line-number")),
        ConfigValue::Text(String::from_str("--column")),
        ConfigValue::Text(String::from_str("--smart-case")),
        ConfigValue::Text(String::from_str("--hidden")),
        ConfigValue::Text(String::from_str("--glob")),
        ConfigValue::Text(String::from_str("!**/.git/*")),
    ];
    let path_display: Vec<ConfigValue> = vec![ConfigValue::Text(String::from_str("truncate"))];
    proof {
        reveal_with_fuel(crate::plugins::plugin::config_models, 12);
        reveal_with_fuel(crate::plugins::plugin::config_model, 12);
        assert(config_models(grep_args@) =~~= telescope_config_model()->Record_0[0].1->Record_0[0].1
            ->Items_0);
        assert(config_models(path_display@) =~~= seq![ConfigModel::Text("truncate"@)]);
    }
    let defaults_fields: Vec<(String, ConfigValue)> = vec![
        (String::from_str("vimgrep_arguments"), ConfigValue::Items(grep_args)),
        (String::from_str("path_display"), ConfigValue::Items(path_display)),
    ];
    proof {
        reveal_with_fuel(crate::plugins::plugin::config_fields, 4);
        reveal_with_fuel(crate::plugins::plugin::config_model, 4);
        assert(config_fields(defaults_fields@) =~~= telescope_config_model()->Record_0[0].1
            ->Record_0);
    }
    let defaults = ConfigValue::Record(defaults_fields);
    let fzf_fields: Vec<(String, ConfigValue)> = vec![
        (String::from_str("fuzzy"), ConfigValue::Bool(true)),
        (String::from_str("override_generic_sorter"), ConfigValue::Bool(true)),
        (String::from_str("override_file_sorter"), ConfigValue::Bool(true)),
        (String::from_str("case_mode"), ConfigValue::Text(String::from_str("smart_case"))),
    ];
    proof {
        reveal_with_fuel(crate::plugins::plugin::config_fields, 6);
        reveal_with_fuel(crate::plugins::plugin::config_model, 6);
        assert(config_fields(fzf_fields@) =~~= telescope_config_model()->Record_0[1].1->Record_0[0].1
            ->Record_0);
    }
    let extensions_fields: Vec<(String, ConfigValue)> = vec![
        (String::from_str("fzf"), ConfigValue::Record(fzf_fields)),
    ];
    proof {
        reveal_with_fuel(crate::plugins::plugin::config_fields, 3);
        reveal_with_fuel(crate::plugins::plugin::config_model, 3);
        assert(config_fields(extensions_fields@) =~~= telescope_config_model()->Record_0[1].1
            ->Record_0);
    }
    let extensions = ConfigValue::Record(extensions_fields);
    let cfg_fields: Vec<(String, ConfigValue)> = vec![
        (String::from_str("defaults"), defaults),
        (String::from_str("extensions"), extensions),
    ];
    proof {
        reveal_with_fuel(crate::plugins::plugin::config_fields, 3);
        reveal_with_fuel(crate::plugins::plugin::config_model, 3);
        assert(config_fields(cfg_fields@) =~~= telescope_config_model()->Record_0);
    }
    let cfg = ConfigValue::Record(cfg_fields);
    let ops: Vec<PluginOp> = vec![
        PluginOp::Require(String::from_str("telescope")),
        PluginOp::CallField { field: String::from_str("setup"), arg: cfg },
        PluginOp::CallField {
            field: String::from_str("load_extension"),
            arg: ConfigValue::Text(String::from_str("fzf")),
        },
        PluginOp::Require(String::from_str("telescope.builtin")),
        PluginOp::SaveObject { key: String::from_str("telescope_builtin") },
        PluginOp::CreateCommand { name: String::from_str("TelescopeCall"), nargs: 1 },
    ];
    proof {
        reveal_with_fuel(crate::plugins::plugin::config_model, 2);
        assert(ops.deep_view() =~~= telescope_plan_model());
    }
    ops
}

/// Decides what the finder's user command does with its arguments: with
/// exactly one argument, that argument names the picker to run; any other
/// argument list is rejected, and the adapter reports the invalid call.
pub fn telescope_call_target(fargs: &Vec<String>) -> (r: Option<String>)
    ensures
        r is Some <==> fargs.deep_view().len() == 1,
        r matches Some(name) ==> name@ == fargs.deep_view()[0],
{
    if fargs.len() == 1 {
        proof {
            assert(fargs.deep_view()[0] == fargs@[0].deep_view());
        }
        Some(fargs[0].clone())
    } else {
        None
    }
}

} // verus!
