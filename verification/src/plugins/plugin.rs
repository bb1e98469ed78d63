//! The common vocabulary of plugin integrations: the operations a setup
//! plan may ask of the host, the configuration values handed to plugin
//! setup functions, and the errors a setup can report.

use vstd::prelude::*;

verus! {

/// Mathematical form of a configuration value.
#[verifier::ext_equal]
pub ghost enum ConfigModel {
    Bool(bool),
    Int(int),
    Text(Seq<char>),
    Items(Seq<ConfigModel>),
    Record(Seq<(Seq<char>, ConfigModel)>),
    Saved(Seq<char>),
}

/// A configuration value handed to a plugin's setup function: a scalar, a
/// list, a record of named fields, or a reference to a host-side value the
/// plan saved earlier under a registry key.
pub enum ConfigValue {
    Bool(bool),
    Int(i64),
    Text(String),
    Items(Vec<ConfigValue>),
    Record(Vec<(String, ConfigValue)>),
    Saved(String),
}

/// Mathematical form of a [`ConfigValue`].
pub open spec fn config_model(c: ConfigValue) -> ConfigModel
    decreases c,
{
    match c {
        ConfigValue::Bool(b) => ConfigModel::Bool(b),
        ConfigValue::Int(n) => ConfigModel::Int(n as int),
        ConfigValue::Text(s) => ConfigModel::Text(s@),
        ConfigValue::Items(v) => ConfigModel::Items(config_models(v@)),
        ConfigValue::Record(v) => ConfigModel::Record(config_fields(v@)),
        ConfigValue::Saved(k) => ConfigModel::Saved(k@),
    }
}

/// Mathematical form of a list of configuration values.
pub open spec fn config_models(s: Seq<ConfigValue>) -> Seq<ConfigModel>
    decreases s,
{
    if s.len() == 0 {
        Seq::empty()
    } else {
        config_models(s.drop_last()).push(config_model(s.last()))
    }
}

/// Mathematical form of a record's named fields.
pub open spec fn config_fields(s: Seq<(String, ConfigValue)>) -> Seq<(Seq<char>, ConfigModel)>
    decreases s,
{
    if s.len() == 0 {
        Seq::empty()
    } else {
        config_fields(s.drop_last()).push((s.last().0@, config_model(s.last().1)))
    }
}

impl DeepView for ConfigValue {
    type V = ConfigModel;

    open spec fn deep_view(&self) -> ConfigModel {
        config_model(*self)
    }
}

/// Mathematical form of a plugin-plan operation.
#[verifier::ext_equal]
pub ghost enum PluginOpModel {
    Require(Seq<char>),
    CallField { field: Seq<char>, arg: ConfigModel },
    CallFieldInto { field: Seq<char>, arg: ConfigModel, key: Seq<char> },
    SaveField { field: Seq<char>, key: Seq<char> },
    CallNested { field: Seq<char>, func: Seq<char>, arg: ConfigModel },
    SaveObject { key: Seq<char> },
    SaveGlobal { path: Seq<char>, key: Seq<char> },
    SetOption { name: Seq<char>, value: ConfigModel },
    SetGlobal { name: Seq<char>, value: ConfigModel },
    RunCommand(Seq<char>),
    CreateCommand { name: Seq<char>, nargs: u64 },
    RunSaved { key: Seq<char> },
}

/// One operation of a plugin's setup plan. The adapter performs them in
/// order; `Require` loads a plugin and makes it the object the following
/// field operations act on.
pub enum PluginOp {
    /// Load the named plugin and make it the current object.
    Require(String),
    /// Call the current object's field with the argument.
    CallField { field: String, arg: ConfigValue },
    /// Call the current object's field and save the result in the host
    /// registry under the key.
    CallFieldInto { field: String, arg: ConfigValue, key: String },
    /// Save the current object's field in the host registry under the key.
    SaveField { field: String, key: String },
    /// Call a function held by the current object's field: the field is
    /// looked up on the current object, and its `func` member is called
    /// with the argument.
    CallNested { field: String, func: String, arg: ConfigValue },
    /// Save the current object itself in the host registry under the key.
    SaveObject { key: String },
    /// Save the host value at the global path in the registry under the key.
    SaveGlobal { path: String, key: String },
    /// Set a host option.
    SetOption { name: String, value: ConfigValue },
    /// Set a host global variable.
    SetGlobal { name: String, value: ConfigValue },
    /// Run a host command line.
    RunCommand(String),
    /// Create a host user command with the given number of arguments.
    CreateCommand { name: String, nargs: u64 },
    /// Invoke the callback saved under the key, handing it the result of
    /// the latest call operation.
    RunSaved { key: String },
}

impl DeepView for PluginOp {
    type V = PluginOpModel;

    open spec fn deep_view(&self) -> PluginOpModel {
        match self {
            PluginOp::Require(n) => PluginOpModel::Require(n@),
            PluginOp::CallField { field, arg } => PluginOpModel::CallField {
                field: field@,
                arg: arg.deep_view(),
            },
            PluginOp::CallFieldInto { field, arg, key } => PluginOpModel::CallFieldInto {
                field: field@,
                arg: arg.deep_view(),
                key: key@,
            },
            PluginOp::SaveField { field, key } => PluginOpModel::SaveField {
                field: field@,
                key: key@,
            },
            PluginOp::CallNested { field, func, arg } => PluginOpModel::CallNested {
                field: field@,
                func: func@,
                arg: arg.deep_view(),
            },
            PluginOp::SaveObject { key } => PluginOpModel::SaveObject { key: key@ },
            PluginOp::SaveGlobal { path, key } => PluginOpModel::SaveGlobal {
                path: path@,
                key: key@,
            },
            PluginOp::SetOption { name, value } => PluginOpModel::SetOption {
                name: name@,
                value: value.deep_view(),
            },
            PluginOp::SetGlobal { name, value } => PluginOpModel::SetGlobal {
                name: name@,
                value: value.deep_view(),
            },
            PluginOp::RunCommand(c) => PluginOpModel::RunCommand(c@),
            PluginOp::CreateCommand { name, nargs } => PluginOpModel::CreateCommand {
                name: name@,
                nargs: *nargs,
            },
            PluginOp::RunSaved { key } => PluginOpModel::RunSaved { key: key@ },
        }
    }
}

/// Mathematical form of a plugin-setup error.
#[verifier::ext_equal]
pub ghost enum PluginErrorModel {
    DependencyMissing(Seq<char>),
    NotInstalled(Seq<char>),
    Other(Seq<char>),
}

/// Why a plugin's setup could not be planned or performed: a dependency it
/// needs is absent, the plugin itself is not installed, or another error,
/// carried as its message.
#[derive(Debug)]
pub enum PluginError {
    DependencyMissing(String),
    NotInstalled(String),
    Other(String),
}

impl DeepView for PluginError {
    type V = PluginErrorModel;

    open spec fn deep_view(&self) -> PluginErrorModel {
        match self {
            PluginError::DependencyMissing(n) => PluginErrorModel::DependencyMissing(n@),
            PluginError::NotInstalled(n) => PluginErrorModel::NotInstalled(n@),
            PluginError::Other(m) => PluginErrorModel::Other(m@),
        }
    }
}

impl PluginError {
    /// A one-line description of the error, for the adapter's log.
    pub fn message(&self) -> (r: String)
        ensures
            self.deep_view() matches PluginErrorModel::DependencyMissing(n) ==> r@
                == "Dependency missing: "@ + n,
            self.deep_view() matches PluginErrorModel::NotInstalled(n) ==> r@
                == "Plugin not installed: "@ + n,
            self.deep_view() matches PluginErrorModel::Other(m) ==> r@ == "Error: "@ + m,
    {
        match self {
            PluginError::DependencyMissing(n) => String::from_str("Dependency missing: ").concat(
                n.as_str(),
            ),
            PluginError::NotInstalled(n) => String::from_str("Plugin not installed: ").concat(
                n.as_str(),
            ),
            PluginError::Other(m) => String::from_str("Error: ").concat(m.as_str()),
        }
    }
}

/// A plugin integration: its setup hands back the host operations that
/// configure it, or the error that prevents them.
pub trait Plugin {
    /// The setup plan, or why there is none.
    fn setup(&self) -> Result<Vec<PluginOp>, PluginError>;
}

/// Clones one list of configuration values, keeping its model.
fn clone_config_items(v: &Vec<ConfigValue>) -> (res: Vec<ConfigValue>)
    ensures
        config_models(res@) == config_models(v@),
    decreases v@,
{
    let n = v.len();
    let mut res: Vec<ConfigValue> = Vec::new();
    let mut i: usize = 0;
    while i < n
        invariant
            n == v.len(),
            i <= n,
            config_models(res@) =~= config_models(v@.take(i as int)),
        decreases n - i,
    {
        proof {
            assert(v@.take(i + 1).drop_last() =~= v@.take(i as int));
            assert(v@.take(i + 1).last() == v@[i as int]);
        }
        let ghost prev = res@;
        let x = v[i].clone();
        res.push(x);
        proof {
            assert(res@.drop_last() =~= prev);
            assert(res@.last() == res@[res@.len() - 1]);
        }
        i += 1;
    }
    proof {
        assert(v@.take(n as int) =~= v@);
        assert(config_models(res@) =~= config_models(v@));
    }
    res
}

/// Clones one record's fields, keeping their model.
fn clone_config_fields(v: &Vec<(String, ConfigValue)>) -> (res: Vec<(String, ConfigValue)>)
    ensures
        config_fields(res@) == config_fields(v@),
    decreases v@,
{
    let n = v.len();
    let mut res: Vec<(String, ConfigValue)> = Vec::new();
    let mut i: usize = 0;
    while i < n
        invariant
            n == v.len(),
            i <= n,
            config_fields(res@) =~= config_fields(v@.take(i as int)),
        decreases n - i,
    {
        proof {
            assert(v@.take(i + 1).drop_last() =~= v@.take(i as int));
            assert(v@.take(i + 1).last() == v@[i as int]);
        }
        let name = v[i].0.clone();
        let value = v[i].1.clone();
        let ghost prev = res@;
        res.push((name, value));
        proof {
            assert(res@.drop_last() =~= prev);
            assert(res@.last() == res@[res@.len() - 1]);
        }
        i += 1;
    }
    proof {
        assert(v@.take(n as int) =~= v@);
        assert(config_fields(res@) =~= config_fields(v@));
    }
    res
}

impl Clone for ConfigValue {
    fn clone(&self) -> (res: Self)
        ensures
            res.deep_view() == self.deep_view(),
        decreases self,
    {
        match self {
            ConfigValue::Bool(b) => ConfigValue::Bool(*b),
            ConfigValue::Int(n) => ConfigValue::Int(*n),
            ConfigValue::Text(s) => ConfigValue::Text(s.clone()),
            ConfigValue::Saved(k) => ConfigValue::Saved(k.clone()),
            ConfigValue::Items(v) => ConfigValue::Items(clone_config_items(v)),
            ConfigValue::Record(v) => ConfigValue::Record(clone_config_fields(v)),
        }
    }
}

} // verus!
