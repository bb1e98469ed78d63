//! Semantics of plans over the host's dispatch tables.
//!
//! The host keeps one table per mode and scope, mapping triggers to native
//! bindings. This module gives every plan a meaning — the state the tables
//! reach when the adapter performs its calls in order — and proves what the
//! registry's plans leave behind: a reset-then-register plan produces the
//! one table determined by the keymap and the Trigger Alphabet alone, and a
//! plan aimed at one table never touches another.

use vstd::prelude::*;

use crate::keymap_remapping::{
    ActionModel, BindingModel, Mode, OpKindModel, OpModel, Scope, all_keys_model,
    apply_plan_model, clean_plan_model, delete_plan_model, is_protected, km_distinct, km_map,
    km_triggers, noop_binding_model, noop_plan_model, translate_model,
};

verus! {

/// The state of every dispatch table of the host: one table of bindings
/// per mode and scope. A pair outside the domain stands for a table that
/// is still empty.
pub type DispatchState = Map<(Mode, Scope), Map<Seq<char>, BindingModel>>;

/// The table for one mode and scope; empty when nothing was written yet.
pub open spec fn table_of(state: DispatchState, mode: Mode, scope: Scope) -> Map<
    Seq<char>,
    BindingModel,
> {
    if state.dom().contains((mode, scope)) {
        state[(mode, scope)]
    } else {
        Map::empty()
    }
}

/// The state after the host performed one call.
pub open spec fn apply_op(state: DispatchState, op: OpModel) -> DispatchState {
    let t = table_of(state, op.mode, op.scope);
    match op.kind {
        OpKindModel::Delete(tr) => state.insert((op.mode, op.scope), t.remove(tr)),
        OpKindModel::Bind(tr, b) => state.insert((op.mode, op.scope), t.insert(tr, b)),
    }
}

/// The state after the host performed a plan's calls, in order.
pub open spec fn apply_ops(state: DispatchState, ops: Seq<OpModel>) -> DispatchState
    decreases ops.len(),
{
    if ops.len() == 0 {
        state
    } else {
        apply_ops(apply_op(state, ops[0]), ops.skip(1))
    }
}

/// Running a concatenated plan equals running its parts in order.
pub proof fn lemma_apply_ops_concat(state: DispatchState, a: Seq<OpModel>, b: Seq<OpModel>)
    ensures
        apply_ops(state, a + b) == apply_ops(apply_ops(state, a), b),
    decreases a.len(),
{
    if a.len() == 0 {
        assert(a + b =~= b);
    } else {
        assert((a + b)[0] == a[0]);
        assert((a + b).skip(1) =~= a.skip(1) + b);
        lemma_apply_ops_concat(apply_op(state, a[0]), a.skip(1), b);
    }
}

/// Running one more call at the end of a plan.
pub proof fn lemma_apply_ops_push(state: DispatchState, a: Seq<OpModel>, op: OpModel)
    ensures
        apply_ops(state, a.push(op)) == apply_op(apply_ops(state, a), op),
{
    assert(a.push(op) =~= a + seq![op]);
    lemma_apply_ops_concat(state, a, seq![op]);
    let s1 = apply_ops(state, a);
    assert(seq![op][0] == op);
    assert(seq![op].skip(1) =~= Seq::<OpModel>::empty());
    assert(apply_ops(s1, seq![op]) == apply_ops(apply_op(s1, op), seq![op].skip(1)));
    assert(apply_ops(apply_op(s1, op), Seq::<OpModel>::empty()) == apply_op(s1, op));
}

/// A plan leaves every table it does not address exactly as it was.
pub proof fn lemma_apply_ops_frame(state: DispatchState, ops: Seq<OpModel>, m: Mode, s: Scope)
    requires
        forall|i: int| 0 <= i < ops.len() ==> !(ops[i].mode == m && ops[i].scope == s),
    ensures
        table_of(apply_ops(state, ops), m, s) == table_of(state, m, s),
    decreases ops.len(),
{
    if ops.len() > 0 {
        assert(forall|i: int|
            0 <= i < ops.skip(1).len() ==> !(ops.skip(1)[i].mode == m && ops.skip(1)[i].scope
                == s));
        lemma_apply_ops_frame(apply_op(state, ops[0]), ops.skip(1), m, s);
    }
}

/// The table a registration plan builds over a base table: entry by entry,
/// each trigger is bound to the translation of its action.
pub open spec fn registered_table(
    base: Map<Seq<char>, BindingModel>,
    km: Seq<(Seq<char>, ActionModel)>,
) -> Map<Seq<char>, BindingModel>
    decreases km.len(),
{
    if km.len() == 0 {
        base
    } else {
        registered_table(base, km.drop_last()).insert(
            km.last().0,
            translate_model(km.last().1),
        )
    }
}

/// What a registration plan does: the addressed table becomes
/// [`registered_table`]; every other table stays as it was.
pub proof fn lemma_apply_plan(
    state: DispatchState,
    mode: Mode,
    scope: Scope,
    km: Seq<(Seq<char>, ActionModel)>,
)
    ensures
        table_of(apply_ops(state, apply_plan_model(mode, scope, km)), mode, scope)
            == registered_table(table_of(state, mode, scope), km),
        forall|m2: Mode, s2: Scope|
            !(m2 == mode && s2 == scope) ==> table_of(
                apply_ops(state, apply_plan_model(mode, scope, km)),
                m2,
                s2,
            ) == table_of(state, m2, s2),
    decreases km.len(),
{
    let plan = apply_plan_model(mode, scope, km);
    if km.len() == 0 {
        assert(plan =~= Seq::<OpModel>::empty());
    } else {
        let front = km.drop_last();
        let last_op = OpModel {
            mode,
            scope,
            kind: OpKindModel::Bind(km.last().0, translate_model(km.last().1)),
        };
        assert(plan =~= apply_plan_model(mode, scope, front).push(last_op));
        lemma_apply_ops_push(state, apply_plan_model(mode, scope, front), last_op);
        lemma_apply_plan(state, mode, scope, front);
    }
}

/// How [`registered_table`] reads as a mapping, for a duplicate-free
/// keymap: the keymap's triggers are bound to their translated actions, and
/// every other trigger keeps its base binding.
pub proof fn lemma_registered_table_view(
    base: Map<Seq<char>, BindingModel>,
    km: Seq<(Seq<char>, ActionModel)>,
)
    requires
        km_distinct(km),
    ensures
        forall|t: Seq<char>|
            #[trigger] km_triggers(km).contains(t) ==> registered_table(base, km).dom().contains(t)
                && registered_table(base, km)[t] == translate_model(km_map(km)[t]),
        forall|t: Seq<char>|
            !(#[trigger] km_triggers(km).contains(t)) ==> (registered_table(
                base,
                km,
            ).dom().contains(t) <==> base.dom().contains(t)) && (base.dom().contains(t)
                ==> registered_table(base, km)[t] == base[t]),
    decreases km.len(),
{
    if km.len() > 0 {
        let front = km.drop_last();
        let lt = km.last().0;
        assert(km_distinct(front));
        lemma_registered_table_view(base, front);
        assert forall|t: Seq<char>| #[trigger] km_triggers(km).contains(t) implies registered_table(
            base,
            km,
        ).dom().contains(t) && registered_table(base, km)[t] == translate_model(
            km_map(km)[t],
        ) by {
            let i = choose|i: int| 0 <= i < km.len() && km_triggers(km)[i] == t;
            assert(km[i].0 == t);
            if t == lt {
                assert(km_map(km)[t] == km.last().1);
            } else {
                assert(i < km.len() - 1);
                assert(km_triggers(front)[i] == t);
                assert(km_triggers(front).contains(t));
                assert(km_map(km)[t] == km_map(front)[t]);
            }
        }
        assert forall|t: Seq<char>| !(#[trigger] km_triggers(km).contains(t)) implies (registered_table(
            base,
            km,
        ).dom().contains(t) <==> base.dom().contains(t)) && (base.dom().contains(t)
            ==> registered_table(base, km)[t] == base[t]) by {
            assert(km_triggers(km)[km.len() - 1] == lt);
            if t == lt {
                assert(km_triggers(km).contains(t));
            }
            assert(t != lt);
            assert forall|j: int| 0 <= j < front.len() implies km_triggers(front)[j] != t by {
                assert(km_triggers(km)[j] == km_triggers(front)[j]);
            }
            assert(!km_triggers(front).contains(t));
            lemma_registered_table_view(base, front);
            assert(registered_table(base, front).dom().contains(t) <==> base.dom().contains(t));
            assert(base.dom().contains(t) ==> registered_table(base, front)[t] == base[t]);
            assert(registered_table(base, km) == registered_table(base, front).insert(
                lt,
                translate_model(km.last().1),
            ));
            assert(registered_table(base, km).dom().contains(t) <==> registered_table(
                base,
                front,
            ).dom().contains(t));
            assert(registered_table(base, front).dom().contains(t) ==> registered_table(
                base,
                km,
            )[t] == registered_table(base, front)[t]);
            assert((registered_table(base, km).dom().contains(t) <==> base.dom().contains(t)) && (
            base.dom().contains(t) ==> registered_table(base, km)[t] == base[t]));
        }
    } else {
        assert(registered_table(base, km) == base);
    }
}

/// Whether the listing names this trigger as one the reset may delete:
/// some listing entry carries it, and it is outside the reserved
/// namespace.
pub open spec fn deleted_by(listed: Seq<Option<Seq<char>>>, t: Seq<char>) -> bool {
    exists|i: int| 0 <= i < listed.len() && listed[i] == Some(t) && !is_protected(t)
}

/// What a deletion plan does: every trigger the listing names is gone from
/// the addressed table, every other trigger keeps its binding, and every
/// other table stays as it was.
pub proof fn lemma_delete_plan(
    state: DispatchState,
    mode: Mode,
    scope: Scope,
    listed: Seq<Option<Seq<char>>>,
)
    ensures
        forall|t: Seq<char>|
            deleted_by(listed, t) ==> !table_of(
                apply_ops(state, delete_plan_model(mode, scope, listed)),
                mode,
                scope,
            ).dom().contains(t),
        forall|t: Seq<char>|
            !deleted_by(listed, t) ==> (table_of(
                apply_ops(state, delete_plan_model(mode, scope, listed)),
                mode,
                scope,
            ).dom().contains(t) <==> table_of(state, mode, scope).dom().contains(t))
                && (table_of(state, mode, scope).dom().contains(t) ==> table_of(
                apply_ops(state, delete_plan_model(mode, scope, listed)),
                mode,
                scope,
            )[t] == table_of(state, mode, scope)[t]),
        forall|m2: Mode, s2: Scope|
            !(m2 == mode && s2 == scope) ==> table_of(
                apply_ops(state, delete_plan_model(mode, scope, listed)),
                m2,
                s2,
            ) == table_of(state, m2, s2),
    decreases listed.len(),
{
    let plan = delete_plan_model(mode, scope, listed);
    if listed.len() == 0 {
        assert(forall|t: Seq<char>| !deleted_by(listed, t));
    } else {
        let front = listed.drop_last();
        lemma_delete_plan(state, mode, scope, front);
        let fplan = delete_plan_model(mode, scope, front);
        assert forall|t: Seq<char>| deleted_by(front, t) implies deleted_by(listed, t) by {
            let i = choose|i: int| 0 <= i < front.len() && front[i] == Some(t) && !is_protected(t);
            assert(listed[i] == Some(t));
        }
        assert forall|t: Seq<char>|
            deleted_by(listed, t) && !(listed.last() == Some(t) && !is_protected(t)) implies
        deleted_by(front, t) by {
            let i = choose|i: int|
                0 <= i < listed.len() && listed[i] == Some(t) && !is_protected(t);
            assert(i < listed.len() - 1);
            assert(front[i] == Some(t));
        }
        match listed.last() {
            Some(lt) => {
                if !is_protected(lt) {
                    let last_op = OpModel { mode, scope, kind: OpKindModel::Delete(lt) };
                    assert(plan == fplan.push(last_op));
                    lemma_apply_ops_push(state, fplan, last_op);
                } else {
                    assert(plan == fplan);
                }
            },
            None => {
                assert(plan == fplan);
            },
        }
    }
}

/// The no-op plan for an arbitrary trigger list.
pub open spec fn noop_ops_of(mode: Mode, keys: Seq<Seq<char>>) -> Seq<OpModel> {
    keys.map_values(
        |t: Seq<char>| OpModel {
            mode,
            scope: Scope::Global,
            kind: OpKindModel::Bind(t, noop_binding_model()),
        },
    )
}

/// What a no-op pass over `keys` does: every named trigger is bound to the
/// no-op binding, every other trigger keeps its binding, and every other
/// table stays as it was.
pub proof fn lemma_noop_ops(state: DispatchState, mode: Mode, keys: Seq<Seq<char>>)
    ensures
        forall|t: Seq<char>|
            keys.contains(t) ==> table_of(
                apply_ops(state, noop_ops_of(mode, keys)),
                mode,
                Scope::Global,
            ).dom().contains(t) && table_of(
                apply_ops(state, noop_ops_of(mode, keys)),
                mode,
                Scope::Global,
            )[t] == noop_binding_model(),
        forall|t: Seq<char>|
            !keys.contains(t) ==> (table_of(
                apply_ops(state, noop_ops_of(mode, keys)),
                mode,
                Scope::Global,
            ).dom().contains(t) <==> table_of(state, mode, Scope::Global).dom().contains(t))
                && (table_of(state, mode, Scope::Global).dom().contains(t) ==> table_of(
                apply_ops(state, noop_ops_of(mode, keys)),
                mode,
                Scope::Global,
            )[t] == table_of(state, mode, Scope::Global)[t]),
        forall|m2: Mode, s2: Scope|
            !(m2 == mode && s2 == Scope::Global) ==> table_of(
                apply_ops(state, noop_ops_of(mode, keys)),
                m2,
                s2,
            ) == table_of(state, m2, s2),
    decreases keys.len(),
{
    let plan = noop_ops_of(mode, keys);
    if keys.len() == 0 {
        assert(plan =~= Seq::<OpModel>::empty());
    } else {
        let front = keys.drop_last();
        let lt = keys.last();
        let last_op = OpModel {
            mode,
            scope: Scope::Global,
            kind: OpKindModel::Bind(lt, noop_binding_model()),
        };
        assert(plan =~= noop_ops_of(mode, front).push(last_op));
        lemma_apply_ops_push(state, noop_ops_of(mode, front), last_op);
        lemma_noop_ops(state, mode, front);
        assert forall|t: Seq<char>| keys.contains(t) && t != lt implies front.contains(t) by {
            let i = choose|i: int| 0 <= i < keys.len() && keys[i] == t;
            assert(front[i] == t);
        }
        assert forall|t: Seq<char>| front.contains(t) implies keys.contains(t) by {
            let i = choose|i: int| 0 <= i < front.len() && front[i] == t;
            assert(keys[i] == t);
        }
        assert(keys[keys.len() - 1] == lt);
        assert(keys.contains(lt));
    }
}

/// The one table a reset-then-register plan determines: a binding for
/// exactly the keymap's triggers, and a no-op binding for every Trigger-
/// Alphabet entry not among them. It depends on the keymap and the
/// alphabet alone — not on the table found before, nor on what the host
/// managed to list.
pub open spec fn clean_table_model(km: Seq<(Seq<char>, ActionModel)>) -> Map<
    Seq<char>,
    BindingModel,
> {
    Map::new(
        |t: Seq<char>| all_keys_model().contains(t) || km_triggers(km).contains(t),
        |t: Seq<char>|
            if km_triggers(km).contains(t) {
                translate_model(km_map(km)[t])
            } else {
                noop_binding_model()
            },
    )
}

/// What a reset-then-register plan leaves behind, for a duplicate-free
/// keymap: provided the host's listing covered every binding of the mode's
/// global table that is outside the Trigger Alphabet, that table ends up
/// as exactly [`clean_table_model`] — and every other table, of another
/// mode or another scope, stays as it was. Because the resulting table
/// does not depend on the starting state, running the reset twice yields
/// the same observable table as running it once.
pub proof fn lemma_setup_keymap_clean_table(
    state: DispatchState,
    mode: Mode,
    listed: Seq<Option<Seq<char>>>,
    km: Seq<(Seq<char>, ActionModel)>,
)
    requires
        km_distinct(km),
        forall|t: Seq<char>|
            table_of(state, mode, Scope::Global).dom().contains(t) ==> all_keys_model().contains(
                t,
            ) || deleted_by(listed, t),
    ensures
        table_of(apply_ops(state, clean_plan_model(mode, listed, km)), mode, Scope::Global)
            == clean_table_model(km),
        forall|m2: Mode, s2: Scope|
            !(m2 == mode && s2 == Scope::Global) ==> table_of(
                apply_ops(state, clean_plan_model(mode, listed, km)),
                m2,
                s2,
            ) == table_of(state, m2, s2),
{
    let dels = delete_plan_model(mode, Scope::Global, listed);
    let noops = noop_plan_model(mode);
    let applies = apply_plan_model(mode, Scope::Global, km);
    let plan = clean_plan_model(mode, listed, km);
    lemma_apply_ops_concat(state, dels + noops, applies);
    lemma_apply_ops_concat(state, dels, noops);
    let s1 = apply_ops(state, dels);
    assert(noops =~= noop_ops_of(mode, all_keys_model()));
    let s2 = apply_ops(s1, noops);
    let s3 = apply_ops(s2, applies);
    assert(s3 == apply_ops(state, plan));
    lemma_delete_plan(state, mode, Scope::Global, listed);
    lemma_noop_ops(s1, mode, all_keys_model());
    lemma_apply_plan(s2, mode, Scope::Global, km);
    lemma_registered_table_view(table_of(s2, mode, Scope::Global), km);
    let t0 = table_of(state, mode, Scope::Global);
    let t1 = table_of(s1, mode, Scope::Global);
    let t2 = table_of(s2, mode, Scope::Global);
    let t3 = table_of(s3, mode, Scope::Global);
    assert forall|t: Seq<char>| #[trigger] clean_table_model(km).dom().contains(t) implies
        t3.dom().contains(t) && t3[t] == clean_table_model(km)[t] by {
        if km_triggers(km).contains(t) {
        } else {
            assert(all_keys_model().contains(t));
            assert(t2.dom().contains(t) && t2[t] == noop_binding_model());
        }
    }
    assert forall|t: Seq<char>| t3.dom().contains(t) implies clean_table_model(
        km,
    ).dom().contains(t) by {
        if !km_triggers(km).contains(t) {
            if !all_keys_model().contains(t) {
                assert(t2.dom().contains(t) <==> t1.dom().contains(t));
                if deleted_by(listed, t) {
                    assert(!t1.dom().contains(t));
                } else {
                    assert(t1.dom().contains(t) <==> t0.dom().contains(t));
                    assert(t0.dom().contains(t) ==> all_keys_model().contains(t) || deleted_by(
                        listed,
                        t,
                    ));
                    assert(!t1.dom().contains(t));
                }
                assert(!t2.dom().contains(t));
                assert(!t3.dom().contains(t));
            }
        }
    }
    assert(t3 =~= clean_table_model(km));
    assert forall|m2: Mode, s2x: Scope| !(m2 == mode && s2x == Scope::Global) implies table_of(
        apply_ops(state, clean_plan_model(mode, listed, km)),
        m2,
        s2x,
    ) == table_of(state, m2, s2x) by {
        assert(table_of(s1, m2, s2x) == table_of(state, m2, s2x));
        assert(table_of(s2, m2, s2x) == table_of(s1, m2, s2x));
        assert(table_of(s3, m2, s2x) == table_of(s2, m2, s2x));
    }
}

/// Resetting and applying twice yields the same observable table as doing
/// it once: the second pass, over whatever listing the host now produces
/// for the configured table, rebuilds exactly the table the first pass
/// left — provided the second listing covers the configured triggers that
/// lie outside the Trigger Alphabet, which are precisely the bindings the
/// first pass installed there.
pub proof fn lemma_reset_apply_idempotent(
    state: DispatchState,
    mode: Mode,
    listed1: Seq<Option<Seq<char>>>,
    listed2: Seq<Option<Seq<char>>>,
    km: Seq<(Seq<char>, ActionModel)>,
)
    requires
        km_distinct(km),
        forall|t: Seq<char>|
            table_of(state, mode, Scope::Global).dom().contains(t) ==> all_keys_model().contains(
                t,
            ) || deleted_by(listed1, t),
        forall|t: Seq<char>|
            km_triggers(km).contains(t) ==> all_keys_model().contains(t) || deleted_by(
                listed2,
                t,
            ),
    ensures
        table_of(
            apply_ops(
                apply_ops(state, clean_plan_model(mode, listed1, km)),
                clean_plan_model(mode, listed2, km),
            ),
            mode,
            Scope::Global,
        ) == table_of(apply_ops(state, clean_plan_model(mode, listed1, km)), mode, Scope::Global),
{
    lemma_setup_keymap_clean_table(state, mode, listed1, km);
    let mid = apply_ops(state, clean_plan_model(mode, listed1, km));
    assert forall|t: Seq<char>| table_of(mid, mode, Scope::Global).dom().contains(t) implies
        all_keys_model().contains(t) || deleted_by(listed2, t) by {
        assert(clean_table_model(km).dom().contains(t));
    }
    lemma_setup_keymap_clean_table(mid, mode, listed2, km);
}

/// One listing entry the host could not represent never blocks the
/// clearing of the others: every trigger the listing does name, outside
/// the reserved namespace, still gets its delete call, whatever the other
/// entries hold.
pub proof fn lemma_clear_isolates_failures(
    mode: Mode,
    scope: Scope,
    listed: Seq<Option<Seq<char>>>,
    i: int,
)
    requires
        0 <= i < listed.len(),
        listed[i] is Some,
        !is_protected(listed[i]->0),
    ensures
        delete_plan_model(mode, scope, listed).contains(
            OpModel { mode, scope, kind: OpKindModel::Delete(listed[i]->0) },
        ),
    decreases listed.len(),
{
    let t = listed[i]->0;
    let op = OpModel { mode, scope, kind: OpKindModel::Delete(t) };
    let plan = delete_plan_model(mode, scope, listed);
    let front = listed.drop_last();
    let fplan = delete_plan_model(mode, scope, front);
    if i == listed.len() - 1 {
        assert(listed.last() == Some(t));
        assert(plan == fplan.push(op));
        assert(plan[plan.len() - 1] == op);
    } else {
        assert(front[i] == listed[i]);
        lemma_clear_isolates_failures(mode, scope, front, i);
        let j = choose|j: int| 0 <= j < fplan.len() && fplan[j] == op;
        match listed.last() {
            Some(lt) => {
                if !is_protected(lt) {
                    assert(plan == fplan.push(
                        OpModel { mode, scope, kind: OpKindModel::Delete(lt) },
                    ));
                    assert(plan[j] == op);
                } else {
                    assert(plan == fplan);
                }
            },
            None => {
                assert(plan == fplan);
            },
        }
        assert(plan[j] == op);
    }
}

/// A plan whose calls all address one document leaves every table of any
/// other scope — the global tables, and every other document's — exactly
/// as it was, in every mode.
pub proof fn lemma_document_scope_isolation(state: DispatchState, ops: Seq<OpModel>, buf: i32)
    requires
        forall|i: int| 0 <= i < ops.len() ==> ops[i].scope == Scope::Document(buf),
    ensures
        forall|m2: Mode, s2: Scope|
            s2 != Scope::Document(buf) ==> table_of(apply_ops(state, ops), m2, s2) == table_of(
                state,
                m2,
                s2,
            ),
{
    assert forall|m2: Mode, s2: Scope| s2 != Scope::Document(buf) implies table_of(
        apply_ops(state, ops),
        m2,
        s2,
    ) == table_of(state, m2, s2) by {
        lemma_apply_ops_frame(state, ops, m2, s2);
    }
}

} // verus!
