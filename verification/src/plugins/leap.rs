//! The motion-jump integration: the callback bound to its trigger, and the
//! selection of the windows the jump may target.

use vstd::prelude::*;

use crate::keymap_remapping::{FnBaseModel, FnModel, KeymapFunction};
use crate::plugins::plugin::{PluginOp, PluginOpModel};

verus! {

/// The jump callback: it runs the registry function stored under
/// `leap_func`. When the host invokes it, the adapter first gathers the
/// focusable windows through [`focusable_window_handles`] and hands them
/// to the function as the jump targets.
pub fn leap() -> (f: KeymapFunction)
    ensures
        f.deep_view() == (FnModel {
            base: FnBaseModel::Named("leap_func"@),
            transforms: Seq::empty(),
        }),
{
    KeymapFunction::Named(String::from_str("leap_func"))
}

/// Picks the jump-target windows out of what the host reported: each pair
/// holds a window handle and the window's focusable flag — `None` when the
/// host could not produce the window's configuration, or the flag was not
/// set, in which case the window is skipped (a failed lookup is logged by
/// the adapter and blocks no other window).
pub fn focusable_window_handles(wins: &Vec<(i32, Option<bool>)>) -> (r: Vec<i32>)
    ensures
        r.deep_view() == focusable_model(wins.deep_view()),
{
    let ghost wd = wins.deep_view();
    let n = wins.len();
    let mut r: Vec<i32> = Vec::new();
    let mut i: usize = 0;
    while i < n
        invariant
            n == wins.len(),
            wd == wins.deep_view(),
            i <= n,
            r.deep_view() =~= focusable_model(wd.take(i as int)),
        decreases n - i,
    {
        proof {
            assert(wd[i as int] == wins@[i as int].deep_view());
            assert(wd.take(i + 1).drop_last() =~= wd.take(i as int));
            assert(wd.take(i + 1).last() == wd[i as int]);
        }
        let (handle, focusable) = wins[i];
        if let Some(true) = focusable {
            r.push(handle);
        }
        i += 1;
    }
    proof {
        assert(wd.take(n as int) =~= wd);
    }
    r
}

/// The handles of the windows whose focusable flag the host reported as
/// set, in order.
pub open spec fn focusable_model(wins: Seq<(i32, Option<bool>)>) -> Seq<i32>
    decreases wins.len(),
{
    if wins.len() == 0 {
        Seq::empty()
    } else {
        let rest = focusable_model(wins.drop_last());
        if wins.last().1 == Some(true) {
            rest.push(wins.last().0)
        } else {
            rest
        }
    }
}

/// The setup plan of the motion-jump integration: load the plugin and save
/// its jump function in the host registry under `leap_func`, where
/// [`leap`]'s callback finds it.
pub open spec fn leap_plan_model() -> Seq<PluginOpModel> {
    seq![
        PluginOpModel::Require("leap"@),
        PluginOpModel::SaveField { field: "leap"@, key: "leap_func"@ },
    ]
}

/// Plans the motion-jump integration's setup; see [`leap_plan_model`].
pub fn setup_leap() -> (ops: Vec<PluginOp>)
    ensures
        ops.deep_view() == leap_plan_model(),
{
    let ops: Vec<PluginOp> = vec![
        PluginOp::Require(String::from_str("leap")),
        PluginOp::SaveField { field: String::from_str("leap"), key: String::from_str("leap_func") },
    ];
    proof {
        assert(ops.deep_view() =~~= leap_plan_model());
    }
    ops
}

} // verus!
