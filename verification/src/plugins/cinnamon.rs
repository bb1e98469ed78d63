//! The smooth-scroll integration and its wrap transform.
//!
//! The host stores the integration's scroll function in its named registry;
//! wrapping an action routes the action through that function so that any
//! binding can gain smooth scrolling without knowing the action's kind.

use vstd::prelude::*;

use crate::keymap_remapping::{
    ActionModel, FnBaseModel, FnModel, KeymapFunction, NvimAction, NvimKeymap, command_keys,
    command_rhs, km_triggers,
};
use crate::plugins::plugin::{ConfigModel, ConfigValue, PluginOp, PluginOpModel, config_fields, config_model};

verus! {

/// Registry key under which the scroll transform is stored.
pub open spec fn scroll_func_key() -> Seq<char> {
    "cinnamon_scroll_func"@
}

/// A callback that hands a raw key sequence to the scroll transform.
pub fn wrap_keys(keys: String) -> (f: KeymapFunction)
    ensures
        f.deep_view() == (FnModel {
            base: FnBaseModel::NamedWithKeys(scroll_func_key(), keys@),
            transforms: Seq::empty(),
        }),
{
    KeymapFunction::NamedWithKeys(String::from_str("cinnamon_scroll_func"), keys)
}

/// A callback that runs another callback through the scroll transform.
pub fn wrap_function(f: KeymapFunction) -> (r: KeymapFunction)
    ensures
        r.deep_view() == (FnModel {
            base: f.deep_view().base,
            transforms: f.deep_view().transforms.push(scroll_func_key()),
        }),
{
    KeymapFunction::Transformed(String::from_str("cinnamon_scroll_func"), Box::new(f))
}

/// Mathematical form of [`wrap_action`]: every action kind becomes a
/// callback; the conversion is total.
pub open spec fn wrap_action_model(a: ActionModel) -> FnModel {
    match a {
        ActionModel::Keys(k) => FnModel {
            base: FnBaseModel::NamedWithKeys(scroll_func_key(), k),
            transforms: Seq::empty(),
        },
        ActionModel::Command(c) => FnModel {
            base: FnBaseModel::NamedWithKeys(scroll_func_key(), command_keys(c)),
            transforms: Seq::empty(),
        },
        ActionModel::Function(m) => FnModel {
            base: m.base,
            transforms: m.transforms.push(scroll_func_key()),
        },
    }
}

/// Converts any action into a callback layered with the scroll transform:
/// raw keys and commands are replayed through the transform, and an inner
/// callback gains one more transform layer.
pub fn wrap_action(action: NvimAction) -> (f: KeymapFunction)
    ensures
        f.deep_view() == wrap_action_model(action.deep_view()),
{
    match action {
        NvimAction::Keys(k) => wrap_keys(k),
        NvimAction::Command(c) => {
            let keys = command_rhs(c.as_str());
            wrap_keys(keys)
        },
        NvimAction::Function(f) => wrap_function((*f).clone()),
    }
}

/// The keymap model with every action wrapped.
pub open spec fn wrapped_km_model(s: Seq<(Seq<char>, ActionModel)>) -> Seq<
    (Seq<char>, ActionModel),
> {
    s.map_values(
        |p: (Seq<char>, ActionModel)| (p.0, ActionModel::Function(wrap_action_model(p.1))),
    )
}

/// Wraps every action of a keymap, keeping the triggers as they are.
pub fn wrap_keymap(keymap: NvimKeymap) -> (r: NvimKeymap)
    ensures
        r.deep_view() == wrapped_km_model(keymap.deep_view()),
        km_triggers(r.deep_view()) == km_triggers(keymap.deep_view()),
        keymap.wf() ==> r.wf(),
{
    let n = keymap.entries.len();
    let mut entries: Vec<(String, NvimAction)> = Vec::new();
    let mut i: usize = 0;
    while i < n
        invariant
            n == keymap.entries.len(),
            i <= n,
            entries.deep_view() =~= wrapped_km_model(keymap.deep_view()).take(i as int),
        decreases n - i,
    {
        let trigger = keymap.entries[i].0.clone();
        let action = keymap.entries[i].1.clone();
        let f = wrap_action(action);
        let rc = std::rc::Rc::new(f);
        proof {
            assert(rc.deep_view() == f.deep_view());
        }
        let wrapped = NvimAction::Function(rc);
        proof {
            let ghost m = wrapped_km_model(keymap.deep_view());
            assert(keymap.deep_view()[i as int] == keymap.entries@[i as int].deep_view());
            assert(wrapped.deep_view() == m[i as int].1);
            assert(trigger@ == m[i as int].0);
            assert(m.take(i + 1) =~= m.take(i as int).push(m[i as int]));
        }
        entries.push((trigger, wrapped));
        i += 1;
    }
    let r = NvimKeymap { entries };
    proof {
        assert(r.deep_view() =~= wrapped_km_model(keymap.deep_view()));
        assert(km_triggers(r.deep_view()) =~= km_triggers(keymap.deep_view()));
    }
    r
}

/// The options handed to the scroll plugin's setup function.
pub open spec fn cinnamon_options_model() -> ConfigModel {
    ConfigModel::Record(
        seq![
            (
                "options"@,
                ConfigModel::Record(
                    seq![
                        ("delay"@, ConfigModel::Int(3)),
                        (
                            "max_delta"@,
                            ConfigModel::Record(
                                seq![
                                    ("line"@, ConfigModel::Int(10000)),
                                    ("time"@, ConfigModel::Int(100)),
                                ],
                            ),
                        ),
                    ],
                ),
            ),
        ],
    )
}

/// The setup plan of the smooth-scroll integration: load the plugin, run
/// its setup with [`cinnamon_options_model`], and save its scroll function
/// in the host registry under [`scroll_func_key`], where the wrap
/// transform's callbacks find it.
pub open spec fn cinnamon_plan_model() -> Seq<PluginOpModel> {
    seq![
        PluginOpModel::Require("cinnamon"@),
        PluginOpModel::CallField { field: "setup"@, arg: cinnamon_options_model() },
        PluginOpModel::SaveField { field: "scroll"@, key: "cinnamon_scroll_func"@ },
    ]
}

/// Plans the smooth-scroll integration's setup; see
/// [`cinnamon_plan_model`].
pub fn setup_cinnamon() -> (ops: Vec<PluginOp>)
    ensures
        ops.deep_view() == cinnamon_plan_model(),
{
    let md_fields: Vec<(String, ConfigValue)> = vec![
        (String::from_str("line"), ConfigValue::Int(10000)),
        (String::from_str("time"), ConfigValue::Int(100)),
    ];
    proof {
        reveal_with_fuel(crate::plugins::plugin::config_fields, 8);
        reveal_with_fuel(crate::plugins::plugin::config_model, 8);
        assert(config_fields(md_fields@) =~~= seq![
            ("line"@, ConfigModel::Int(10000)),
            ("time"@, ConfigModel::Int(100)),
        ]);
    }
    let max_delta = ConfigValue::Record(md_fields);
    let opt_fields: Vec<(String, ConfigValue)> = vec![
        (String::from_str("delay"), ConfigValue::Int(3)),
        (String::from_str("max_delta"), max_delta),
    ];
    proof {
        reveal_with_fuel(crate::plugins::plugin::config_fields, 8);
        reveal_with_fuel(crate::plugins::plugin::config_model, 8);
        assert(config_fields(opt_fields@) =~~= cinnamon_options_model()->Record_0[0].1->Record_0);
    }
    let options = ConfigValue::Record(opt_fields);
    let arg_fields: Vec<(String, ConfigValue)> = vec![(String::from_str("options"), options)];
    proof {
        reveal_with_fuel(crate::plugins::plugin::config_fields, 8);
        reveal_with_fuel(crate::plugins::plugin::config_model, 8);
        assert(config_fields(arg_fields@) =~~= cinnamon_options_model()->Record_0);
    }
    let arg = ConfigValue::Record(arg_fields);
    proof {
        reveal_with_fuel(crate::plugins::plugin::config_model, 2);
        assert(arg.deep_view() =~~= cinnamon_options_model());
    }
    let ops: Vec<PluginOp> = vec![
        PluginOp::Require(String::from_str("cinnamon")),
        PluginOp::CallField { field: String::from_str("setup"), arg },
        PluginOp::SaveField {
            field: String::from_str("scroll"),
            key: String::from_str("cinnamon_scroll_func"),
        },
    ];
    proof {
        assert(ops.deep_view() =~~= cinnamon_plan_model());
    }
    ops
}

} // verus!
