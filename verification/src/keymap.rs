//! The configured keymaps, and the setup pass that plans their
//! registration with the host.

use vstd::prelude::*;

use crate::keymap_remapping::{
    ActionModel, EntryModel, FnBaseModel, FnModel, HostOp, KeymapEntry, KeymapError,
    KeymapErrorModel, Mode, NvimKeymap, apply_plan_model, build_keymap, built_seq,
    clean_plan_model, entries_distinct, setup_keymap, setup_keymap_clean,
};
use crate::plugins::leap::leap;
use crate::plugins::spectre::{spectre_open_file_search, spectre_toggle};

verus! {

/// A self-mapping entry.
pub open spec fn ep(t: Seq<char>) -> EntryModel {
    EntryModel { trigger: t, action: ActionModel::Keys(t), wrapped: false }
}

/// A self-mapping entry under the wrap modifier.
pub open spec fn epw(t: Seq<char>) -> EntryModel {
    EntryModel { trigger: t, action: ActionModel::Keys(t), wrapped: true }
}

/// A raw-keys entry.
pub open spec fn ek(t: Seq<char>, k: Seq<char>) -> EntryModel {
    EntryModel { trigger: t, action: ActionModel::Keys(k), wrapped: false }
}

/// A raw-keys entry under the wrap modifier.
pub open spec fn ekw(t: Seq<char>, k: Seq<char>) -> EntryModel {
    EntryModel { trigger: t, action: ActionModel::Keys(k), wrapped: true }
}

/// A command entry.
pub open spec fn ec(t: Seq<char>, c: Seq<char>) -> EntryModel {
    EntryModel { trigger: t, action: ActionModel::Command(c), wrapped: false }
}

/// A callback registered in the host registry under `n`.
pub open spec fn named_fn(n: Seq<char>) -> FnModel {
    FnModel { base: FnBaseModel::Named(n), transforms: Seq::empty() }
}

/// A named-callback entry.
pub open spec fn ef(t: Seq<char>, n: Seq<char>) -> EntryModel {
    EntryModel { trigger: t, action: ActionModel::Function(named_fn(n)), wrapped: false }
}

/// A named-callback entry under the wrap modifier.
pub open spec fn efw(t: Seq<char>, n: Seq<char>) -> EntryModel {
    EntryModel { trigger: t, action: ActionModel::Function(named_fn(n)), wrapped: true }
}

/// The declarative entries of the motion keymap, shared by the normal and
/// visual modes: movement, window focus and management, mode changes,
/// editing, saving, undo, and search.
pub open spec fn motion_entries_model() -> Seq<EntryModel> {
    seq![
        ek("j"@, "h"@),
        ek("k"@, "j"@),
        ek("l"@, "k"@),
        ek(";"@, "l"@),
        ekw("K"@, "20j"@),
        ekw("L"@, "20k"@),
        ekw("!"@, "^"@),
        epw("$"@),
        epw("w"@),
        epw("b"@),
        epw("e"@),
        efw("f"@, "leap_func"@),
        epw("gg"@),
        epw("G"@),
        ek("<"@, "<C-o>"@),
        ek(">"@, "<C-i>"@),
        ek(" j"@, "<C-w>h"@),
        ek(" k"@, "<C-w>j"@),
        ek(" l"@, "<C-w>k"@),
        ek(" ;"@, "<C-w>l"@),
        ek(" x"@, "<C-w>c"@),
        ek(" c"@, "<C-w>s"@),
        ek(" v"@, "<C-w>v"@),
        ep("a"@),
        ep("i"@),
        ep("A"@),
        ep("I"@),
        ep("o"@),
        ep("O"@),
        ep("v"@),
        ep("V"@),
        ep("<C-v>"@),
        ep(":"@),
        ep("<ESC>"@),
        ep("r"@),
        ep("s"@),
        ep("x"@),
        ep("S"@),
        ep("d"@),
        ep("y"@),
        ek("D"@, "dd"@),
        ek("Y"@, "yy"@),
        epw("p"@),
        epw("P"@),
        ep("\""@),
        ep("<CR>"@),
        ec("ze"@, "Dirbuf ."@),
        ec("<C-j>"@, "ToggleTerm"@),
        ec(" s"@, "w"@),
        ec(" a"@, "q"@),
        ec(" A"@, "q!"@),
        ec(" e"@, "e"@),
        ec(" E"@, "e!"@),
        ep("u"@),
        ek("U"@, "<C-r>"@),
        ec(" u"@, "UndotreeToggle"@),
        epw("/"@),
        ec("hh"@, "TelescopeCall buffers"@),
        ec("zf"@, "TelescopeCall find_files"@),
        ec("zd"@, "TelescopeCall live_grep"@),
        ec("?"@, "TelescopeCall current_buffer_fuzzy_find"@),
        ef("RR"@, "spectre_toggle_func"@),
        ef("Rf"@, "spectre_open_file_search_func"@),
    ]
}

/// The declarative entries of the terminal keymap.
pub open spec fn terminal_entries_model() -> Seq<EntryModel> {
    seq![ek("<ESC>"@, "<C-\\><C-n>"@)]
}

/// Builds the motion keymap from [`motion_entries_model`].
pub fn motion_keymap() -> (r: Result<NvimKeymap, KeymapError>)
    ensures
        r is Ok <==> entries_distinct(motion_entries_model()),
        r matches Ok(k) ==> k.deep_view() == built_seq(motion_entries_model()) && k.wf(),
        r matches Err(e) ==> e.deep_view() is DuplicateTrigger,
{
    let mut es: Vec<KeymapEntry> = Vec::new();
    es.push(KeymapEntry::keys(String::from_str("j"), String::from_str("h")));
    es.push(KeymapEntry::keys(String::from_str("k"), String::from_str("j")));
    es.push(KeymapEntry::keys(String::from_str("l"), String::from_str("k")));
    es.push(KeymapEntry::keys(String::from_str(";"), String::from_str("l")));
    es.push(KeymapEntry::keys(String::from_str("K"), String::from_str("20j")).wrapped());
    es.push(KeymapEntry::keys(String::from_str("L"), String::from_str("20k")).wrapped());
    es.push(KeymapEntry::keys(String::from_str("!"), String::from_str("^")).wrapped());
    es.push(KeymapEntry::plain(String::from_str("$")).wrapped());
    es.push(KeymapEntry::plain(String::from_str("w")).wrapped());
    es.push(KeymapEntry::plain(String::from_str("b")).wrapped());
    es.push(KeymapEntry::plain(String::from_str("e")).wrapped());
    es.push(KeymapEntry::function(String::from_str("f"), leap()).wrapped());
    es.push(KeymapEntry::plain(String::from_str("gg")).wrapped());
    es.push(KeymapEntry::plain(String::from_str("G")).wrapped());
    es.push(KeymapEntry::keys(String::from_str("<"), String::from_str("<C-o>")));
    es.push(KeymapEntry::keys(String::from_str(">"), String::from_str("<C-i>")));
    es.push(KeymapEntry::keys(String::from_str(" j"), String::from_str("<C-w>h")));
    es.push(KeymapEntry::keys(String::from_str(" k"), String::from_str("<C-w>j")));
    es.push(KeymapEntry::keys(String::from_str(" l"), String::from_str("<C-w>k")));
    es.push(KeymapEntry::keys(String::from_str(" ;"), String::from_str("<C-w>l")));
    es.push(KeymapEntry::keys(String::from_str(" x"), String::from_str("<C-w>c")));
    es.push(KeymapEntry::keys(String::from_str(" c"), String::from_str("<C-w>s")));
    es.push(KeymapEntry::keys(String::from_str(" v"), String::from_str("<C-w>v")));
    es.push(KeymapEntry::plain(String::from_str("a")));
    es.push(KeymapEntry::plain(String::from_str("i")));
    es.push(KeymapEntry::plain(String::from_str("A")));
    es.push(KeymapEntry::plain(String::from_str("I")));
    es.push(KeymapEntry::plain(String::from_str("o")));
    es.push(KeymapEntry::plain(String::from_str("O")));
    es.push(KeymapEntry::plain(String::from_str("v")));
    es.push(KeymapEntry::plain(String::from_str("V")));
    es.push(KeymapEntry::plain(String::from_str("<C-v>")));
    es.push(KeymapEntry::plain(String::from_str(":")));
    es.push(KeymapEntry::plain(String::from_str("<ESC>")));
    es.push(KeymapEntry::plain(String::from_str("r")));
    es.push(KeymapEntry::plain(String::from_str("s")));
    es.push(KeymapEntry::plain(String::from_str("x")));
    es.push(KeymapEntry::plain(String::from_str("S")));
    es.push(KeymapEntry::plain(String::from_str("d")));
    es.push(KeymapEntry::plain(String::from_str("y")));
    es.push(KeymapEntry::keys(String::from_str("D"), String::from_str("dd")));
    es.push(KeymapEntry::keys(String::from_str("Y"), String::from_str("yy")));
    es.push(KeymapEntry::plain(String::from_str("p")).wrapped());
    es.push(KeymapEntry::plain(String::from_str("P")).wrapped());
    es.push(KeymapEntry::plain(String::from_str("\"")));
    es.push(KeymapEntry::plain(String::from_str("<CR>")));
    es.push(KeymapEntry::command(String::from_str("ze"), String::from_str("Dirbuf .")));
    es.push(KeymapEntry::command(String::from_str("<C-j>"), String::from_str("ToggleTerm")));
    es.push(KeymapEntry::command(String::from_str(" s"), String::from_str("w")));
    es.push(KeymapEntry::command(String::from_str(" a"), String::from_str("q")));
    es.push(KeymapEntry::command(String::from_str(" A"), String::from_str("q!")));
    es.push(KeymapEntry::command(String::from_str(" e"), String::from_str("e")));
    es.push(KeymapEntry::command(String::from_str(" E"), String::from_str("e!")));
    es.push(KeymapEntry::plain(String::from_str("u")));
    es.push(KeymapEntry::keys(String::from_str("U"), String::from_str("<C-r>")));
    es.push(KeymapEntry::command(String::from_str(" u"), String::from_str("UndotreeToggle")));
    es.push(KeymapEntry::plain(String::from_str("/")).wrapped());
    es.push(KeymapEntry::command(String::from_str("hh"), String::from_str("TelescopeCall buffers")));
    es.push(KeymapEntry::command(String::from_str("zf"), String::from_str("TelescopeCall find_files")));
    es.push(KeymapEntry::command(String::from_str("zd"), String::from_str("TelescopeCall live_grep")));
    es.push(KeymapEntry::command(String::from_str("?"), String::from_str("TelescopeCall current_buffer_fuzzy_find")));
    es.push(KeymapEntry::function(String::from_str("RR"), spectre_toggle()));
    es.push(KeymapEntry::function(String::from_str("Rf"), spectre_open_file_search()));
    proof {
        assert(es.deep_view() =~= motion_entries_model());
    }
    build_keymap(es)
}

/// Builds the terminal keymap from [`terminal_entries_model`]. Its single
/// entry cannot collide, so construction always succeeds.
pub fn terminal_keymap() -> (r: Result<NvimKeymap, KeymapError>)
    ensures
        r matches Ok(k) && k.deep_view() == built_seq(terminal_entries_model()) && k.wf(),
{
    let mut es: Vec<KeymapEntry> = Vec::new();
    es.push(KeymapEntry::keys(String::from_str("<ESC>"), String::from_str("<C-\\><C-n>")));
    proof {
        assert(es.deep_view() =~= terminal_entries_model());
    }
    build_keymap(es)
}

/// Plans one setup pass over the host's global tables: the motion keymap
/// is registered for the normal and the visual mode, each after a full
/// reset of that mode's trigger space over the listing the host produced
/// for it; the terminal keymap is registered additively. Each mode's plan
/// stands on its own, so a host failure in one leaves the others whole.
/// A construction failure is reported per affected mode and never stops
/// the remaining modes from being planned.
pub fn setup_keymaps(normal_listed: &Vec<Option<String>>, visual_listed: &Vec<Option<String>>) -> (r:
    (Vec<(Mode, Vec<HostOp>)>, Vec<(Mode, KeymapError)>))
    ensures
        entries_distinct(motion_entries_model()) ==> r.1.deep_view() == Seq::<
            (Mode, KeymapErrorModel),
        >::empty() && r.0.deep_view() == seq![
            (
                Mode::Normal,
                clean_plan_model(
                    Mode::Normal,
                    normal_listed.deep_view(),
                    built_seq(motion_entries_model()),
                ),
            ),
            (
                Mode::Visual,
                clean_plan_model(
                    Mode::Visual,
                    visual_listed.deep_view(),
                    built_seq(motion_entries_model()),
                ),
            ),
            (
                Mode::Terminal,
                apply_plan_model(
                    Mode::Terminal,
                    crate::keymap_remapping::Scope::Global,
                    built_seq(terminal_entries_model()),
                ),
            ),
        ],
        !entries_distinct(motion_entries_model()) ==> r.0.deep_view() == seq![
            (
                Mode::Terminal,
                apply_plan_model(
                    Mode::Terminal,
                    crate::keymap_remapping::Scope::Global,
                    built_seq(terminal_entries_model()),
                ),
            ),
        ] && r.1.deep_view().len() == 2 && r.1.deep_view()[0].0 == Mode::Normal
            && r.1.deep_view()[1].0 == Mode::Visual && r.1.deep_view()[0].1 is DuplicateTrigger
            && r.1.deep_view()[1].1 is DuplicateTrigger,
{
    let mut plans: Vec<(Mode, Vec<HostOp>)> = Vec::new();
    let mut failures: Vec<(Mode, KeymapError)> = Vec::new();
    let first = motion_keymap();
    let second = motion_keymap();
    match (first, second) {
        (Ok(normal_km), Ok(visual_km)) => {
            let normal_ops = setup_keymap_clean(Mode::Normal, normal_listed, normal_km);
            plans.push((Mode::Normal, normal_ops));
            let visual_ops = setup_keymap_clean(Mode::Visual, visual_listed, visual_km);
            plans.push((Mode::Visual, visual_ops));
        },
        (Err(e1), Err(e2)) => {
            failures.push((Mode::Normal, e1));
            failures.push((Mode::Visual, e2));
        },
        _ => {
            proof {
                assert(false);
            }
        },
    }
    match terminal_keymap() {
        Ok(terminal_km) => {
            let terminal_ops = setup_keymap(Mode::Terminal, terminal_km);
            plans.push((Mode::Terminal, terminal_ops));
        },
        Err(_) => {
            proof {
                assert(false);
            }
        },
    }
    proof {
        if entries_distinct(motion_entries_model()) {
            assert(failures.deep_view() =~= Seq::<(Mode, KeymapErrorModel)>::empty());
            assert(plans.deep_view() =~~= seq![
                (
                    Mode::Normal,
                    clean_plan_model(
                        Mode::Normal,
                        normal_listed.deep_view(),
                        built_seq(motion_entries_model()),
                    ),
                ),
                (
                    Mode::Visual,
                    clean_plan_model(
                        Mode::Visual,
                        visual_listed.deep_view(),
                        built_seq(motion_entries_model()),
                    ),
                ),
                (
                    Mode::Terminal,
                    apply_plan_model(
                        Mode::Terminal,
                        crate::keymap_remapping::Scope::Global,
                        built_seq(terminal_entries_model()),
                    ),
                ),
            ]);
        } else {
            assert(plans.deep_view() =~~= seq![
                (
                    Mode::Terminal,
                    apply_plan_model(
                        Mode::Terminal,
                        crate::keymap_remapping::Scope::Global,
                        built_seq(terminal_entries_model()),
                    ),
                ),
            ]);
        }
    }
    (plans, failures)
}

} // verus!