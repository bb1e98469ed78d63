//! The find-and-replace integration: callbacks that invoke the functions
//! the host keeps in its named registry under the integration's keys.

use vstd::prelude::*;

use crate::keymap_remapping::{FnBaseModel, FnModel, KeymapFunction};
use crate::plugins::plugin::{PluginOp, PluginOpModel};

verus! {

/// The callback that toggles the find-and-replace panel: it runs the
/// registry function stored under `spectre_toggle_func`.
pub fn spectre_toggle() -> (f: KeymapFunction)
    ensures
        f.deep_view() == (FnModel {
            base: FnBaseModel::Named("spectre_toggle_func"@),
            transforms: Seq::empty(),
        }),
{
    KeymapFunction::Named(String::from_str("spectre_toggle_func"))
}

/// The callback that opens the panel over the visual selection, with the
/// select-word option as given.
pub fn spectre_open_visual(select_word: bool) -> (f: KeymapFunction)
    ensures
        f.deep_view() == (FnModel {
            base: FnBaseModel::NamedWithFlag("spectre_open_visual_func"@, select_word),
            transforms: Seq::empty(),
        }),
{
    KeymapFunction::NamedWithFlag(String::from_str("spectre_open_visual_func"), select_word)
}

/// The callback that opens the panel restricted to the current file.
pub fn spectre_open_file_search() -> (f: KeymapFunction)
    ensures
        f.deep_view() == (FnModel {
            base: FnBaseModel::Named("spectre_open_file_search_func"@),
            transforms: Seq::empty(),
        }),
{
    KeymapFunction::Named(String::from_str("spectre_open_file_search_func"))
}

/// The setup plan of the find-and-replace integration: load the plugin and
/// save its toggle, visual-open and file-search functions in the host
/// registry under the keys the callbacks above use.
pub open spec fn spectre_plan_model() -> Seq<PluginOpModel> {
    seq![
        PluginOpModel::Require("spectre"@),
        PluginOpModel::SaveField { field: "toggle"@, key: "spectre_toggle_func"@ },
        PluginOpModel::SaveField { field: "open_visual"@, key: "spectre_open_visual_func"@ },
        PluginOpModel::SaveField {
            field: "open_file_search"@,
            key: "spectre_open_file_search_func"@,
        },
    ]
}

/// Plans the find-and-replace integration's setup; see
/// [`spectre_plan_model`].
pub fn setup_spectre() -> (ops: Vec<PluginOp>)
    ensures
        ops.deep_view() == spectre_plan_model(),
{
    let ops: Vec<PluginOp> = vec![
        PluginOp::Require(String::from_str("spectre")),
        PluginOp::SaveField {
            field: String::from_str("toggle"),
            key: String::from_str("spectre_toggle_func"),
        },
        PluginOp::SaveField {
            field: String::from_str("open_visual"),
            key: String::from_str("spectre_open_visual_func"),
        },
        PluginOp::SaveField {
            field: String::from_str("open_file_search"),
            key: String::from_str("spectre_open_file_search_func"),
        },
    ];
    proof {
        assert(ops.deep_view() =~~= spectre_plan_model());
    }
    ops
}

} // verus!
