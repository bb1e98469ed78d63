//! Generic plugins of the host's scripting ecosystem: a named plugin with
//! a setup function, an optional setup argument, and an optional callback
//! run on the setup's result, assembled through a builder.

use vstd::prelude::*;

use crate::plugins::plugin::{
    ConfigModel, ConfigValue, Plugin, PluginError, PluginErrorModel, PluginOp, PluginOpModel,
};

verus! {

/// Mathematical form of a generic plugin.
#[verifier::ext_equal]
pub ghost struct LuaPluginModel {
    pub name: Seq<char>,
    pub setup_func: Seq<char>,
    pub pre_setup: Option<ConfigModel>,
    pub post_setup: Option<Seq<char>>,
}

/// A generic plugin: the plugin's name, the name of its setup function,
/// the argument handed to that function — without one, an empty list is
/// passed — and, optionally, the registry key of a callback the adapter
/// runs on the setup's result.
pub struct LuaPlugin {
    pub name: String,
    pub setup_func: String,
    pub pre_setup: Option<ConfigValue>,
    pub post_setup: Option<String>,
}

impl DeepView for LuaPlugin {
    type V = LuaPluginModel;

    open spec fn deep_view(&self) -> LuaPluginModel {
        LuaPluginModel {
            name: self.name@,
            setup_func: self.setup_func@,
            pre_setup: match &self.pre_setup {
                Some(c) => Some(c.deep_view()),
                None => None,
            },
            post_setup: match &self.post_setup {
                Some(k) => Some(k@),
                None => None,
            },
        }
    }
}

/// Assembles a [`LuaPlugin`] step by step.
pub struct LuaPluginBuilder {
    pub plugin: LuaPlugin,
}

impl DeepView for LuaPluginBuilder {
    type V = LuaPluginModel;

    open spec fn deep_view(&self) -> LuaPluginModel {
        self.plugin.deep_view()
    }
}

impl LuaPlugin {
    /// Starts a builder for the named plugin; the setup function defaults
    /// to `setup`, with no argument and no result callback.
    pub fn builder(name: &str) -> (b: LuaPluginBuilder)
        ensures
            b.deep_view() == (LuaPluginModel {
                name: name@,
                setup_func: "setup"@,
                pre_setup: None,
                post_setup: None,
            }),
    {
        LuaPluginBuilder {
            plugin: LuaPlugin {
                name: String::from_str(name),
                setup_func: String::from_str("setup"),
                pre_setup: None,
                post_setup: None,
            },
        }
    }

    /// The plugin's setup plan: load the plugin and call its setup
    /// function with the configured argument, or with an empty list when
    /// none was given; when a result callback is configured, run it on the
    /// setup's result. A plugin without a name cannot be planned.
    pub fn lua_plugin_setup(&self) -> (r: Result<Vec<PluginOp>, PluginError>)
        ensures
            r is Ok <==> self.deep_view().name.len() > 0,
            r matches Ok(ops) ==> ops.deep_view() == lua_plugin_plan_model(self.deep_view()),
            r matches Err(e) ==> e.deep_view() == PluginErrorModel::Other(
                "Plugin name not provided"@,
            ),
    {
        if self.name.as_str().unicode_len() == 0 {
            return Err(PluginError::Other(String::from_str("Plugin name not provided")));
        }
        let arg = match &self.pre_setup {
            Some(c) => c.clone(),
            None => ConfigValue::Items(Vec::new()),
        };
        proof {
            if self.deep_view().pre_setup is None {
                reveal_with_fuel(crate::plugins::plugin::config_models, 2);
                assert(arg.deep_view() =~~= ConfigModel::Items(Seq::empty()));
            }
        }
        let mut ops: Vec<PluginOp> = vec![
            PluginOp::Require(self.name.clone()),
            PluginOp::CallField { field: self.setup_func.clone(), arg },
        ];
        match &self.post_setup {
            Some(k) => {
                ops.push(PluginOp::RunSaved { key: k.clone() });
            },
            None => {},
        }
        proof {
            assert(ops.deep_view() =~~= lua_plugin_plan_model(self.deep_view()));
        }
        Ok(ops)
    }
}

/// The plan [`LuaPlugin::lua_plugin_setup`] produces for a named plugin.
pub open spec fn lua_plugin_plan_model(p: LuaPluginModel) -> Seq<PluginOpModel> {
    seq![
        PluginOpModel::Require(p.name),
        PluginOpModel::CallField {
            field: p.setup_func,
            arg: match p.pre_setup {
                Some(c) => c,
                None => ConfigModel::Items(Seq::empty()),
            },
        },
    ] + match p.post_setup {
        Some(k) => seq![PluginOpModel::RunSaved { key: k }],
        None => Seq::empty(),
    }
}

impl LuaPluginBuilder {
    /// Names the setup function to call instead of `setup`.
    pub fn setup_func(self, name: &str) -> (b: Self)
        ensures
            b.deep_view() == (LuaPluginModel { setup_func: name@, ..self.deep_view() }),
    {
        LuaPluginBuilder {
            plugin: LuaPlugin { setup_func: String::from_str(name), ..self.plugin },
        }
    }

    /// Sets the argument handed to the setup function.
    pub fn pre_setup(self, arg: ConfigValue) -> (b: Self)
        ensures
            b.deep_view() == (LuaPluginModel {
                pre_setup: Some(arg.deep_view()),
                ..self.deep_view()
            }),
    {
        LuaPluginBuilder { plugin: LuaPlugin { pre_setup: Some(arg), ..self.plugin } }
    }

    /// Names the registry callback the adapter runs on the setup's result.
    pub fn post_setup(self, key: &str) -> (b: Self)
        ensures
            b.deep_view() == (LuaPluginModel {
                post_setup: Some(key@),
                ..self.deep_view()
            }),
    {
        LuaPluginBuilder {
            plugin: LuaPlugin { post_setup: Some(String::from_str(key)), ..self.plugin },
        }
    }

    /// Finishes the builder.
    pub fn build(self) -> (p: LuaPlugin)
        ensures
            p.deep_view() == self.deep_view(),
    {
        self.plugin
    }
}

impl Plugin for LuaPlugin {
    fn setup(&self) -> Result<Vec<PluginOp>, PluginError> {
        self.lua_plugin_setup()
    }
}

} // verus!
