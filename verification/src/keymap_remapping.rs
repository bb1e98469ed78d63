//! The action model and the binding-registry engine.
//!
//! An [`NvimAction`] describes what a trigger should do: replay raw keys,
//! run a host command, or invoke a callback. An [`NvimKeymap`] is a
//! duplicate-free table of trigger/action pairs. The functions here turn a
//! keymap into a plan of host calls ([`HostOp`]) that an unverified adapter
//! performs against the host editor: additive registration, or a full reset
//! of a mode's trigger space followed by registration.

use vstd::prelude::*;

verus! {

/// An editing mode of the host. Each mode owns an independent dispatch
/// table: operations on one mode never touch another.
#[derive(Clone, Copy, PartialEq, Eq, Structural, Debug, Hash)]
pub enum Mode {
    Normal,
    Insert,
    Visual,
    Terminal,
}

impl DeepView for Mode {
    type V = Mode;

    open spec fn deep_view(&self) -> Mode {
        *self
    }
}

/// Where a binding lives: editor-wide, or local to one document, identified
/// by the host's document handle.
#[derive(Clone, Copy, PartialEq, Eq, Structural, Debug, Hash)]
pub enum Scope {
    Global,
    Document(i32),
}

impl DeepView for Scope {
    type V = Scope;

    open spec fn deep_view(&self) -> Scope {
        *self
    }
}

/// Mathematical form of a callback: a base host operation together with the
/// names of the transforms layered over it, innermost first.
#[verifier::ext_equal]
pub ghost struct FnModel {
    pub base: FnBaseModel,
    pub transforms: Seq<Seq<char>>,
}

/// The base operation of a callback.
#[verifier::ext_equal]
pub ghost enum FnBaseModel {
    /// Invoke the host-registry function stored under this name.
    Named(Seq<char>),
    /// Invoke the named host-registry function with a key-sequence argument.
    NamedWithKeys(Seq<char>, Seq<char>),
    /// Invoke the named host-registry function with one boolean option.
    NamedWithFlag(Seq<char>, bool),
}

/// A zero-argument, fallible operation for a binding to invoke, described as
/// data: the host adapter owns the executable counterparts and looks them up
/// by name. Transforms wrap an inner callback without knowing its kind.
pub enum KeymapFunction {
    /// Run the callback registered under this name.
    Named(String),
    /// Run the named callback with a key-sequence argument.
    NamedWithKeys(String, String),
    /// Run the named callback with one boolean option.
    NamedWithFlag(String, bool),
    /// Run the named transform over another callback.
    Transformed(String, Box<KeymapFunction>),
}

/// Mathematical form of a [`KeymapFunction`] value.
pub open spec fn fn_model(f: KeymapFunction) -> FnModel
    decreases f,
{
    match f {
        KeymapFunction::Named(n) => FnModel {
            base: FnBaseModel::Named(n@),
            transforms: Seq::empty(),
        },
        KeymapFunction::NamedWithKeys(n, k) => FnModel {
            base: FnBaseModel::NamedWithKeys(n@, k@),
            transforms: Seq::empty(),
        },
        KeymapFunction::NamedWithFlag(n, f) => FnModel {
            base: FnBaseModel::NamedWithFlag(n@, f),
            transforms: Seq::empty(),
        },
        KeymapFunction::Transformed(n, inner) => FnModel {
            base: fn_model(*inner).base,
            transforms: fn_model(*inner).transforms.push(n@),
        },
    }
}

impl DeepView for KeymapFunction {
    type V = FnModel;

    open spec fn deep_view(&self) -> FnModel {
        fn_model(*self)
    }
}

/// Mathematical form of an action.
#[verifier::ext_equal]
pub ghost enum ActionModel {
    Keys(Seq<char>),
    Command(Seq<char>),
    Function(FnModel),
}

/// What a trigger does when it fires: replay a raw key sequence verbatim,
/// run a host command through the command-execution path, or invoke a
/// callback. Callbacks are reference-counted so that several bindings can
/// share one operation.
pub enum NvimAction {
    Keys(String),
    Command(String),
    Function(std::rc::Rc<KeymapFunction>),
}

impl DeepView for NvimAction {
    type V = ActionModel;

    open spec fn deep_view(&self) -> ActionModel {
        match self {
            NvimAction::Keys(k) => ActionModel::Keys(k@),
            NvimAction::Command(c) => ActionModel::Command(c@),
            NvimAction::Function(f) => ActionModel::Function(f.deep_view()),
        }
    }
}

impl Clone for KeymapFunction {
    fn clone(&self) -> (res: Self)
        ensures
            res.deep_view() == self.deep_view(),
        decreases self,
    {
        match self {
            KeymapFunction::Named(n) => KeymapFunction::Named(n.clone()),
            KeymapFunction::NamedWithKeys(n, k) => KeymapFunction::NamedWithKeys(
                n.clone(),
                k.clone(),
            ),
            KeymapFunction::NamedWithFlag(n, f) => KeymapFunction::NamedWithFlag(n.clone(), *f),
            KeymapFunction::Transformed(n, inner) => KeymapFunction::Transformed(
                n.clone(),
                Box::new((**inner).clone()),
            ),
        }
    }
}

impl Clone for NvimAction {
    fn clone(&self) -> (res: Self)
        ensures
            res.deep_view() == self.deep_view(),
    {
        match self {
            NvimAction::Keys(k) => NvimAction::Keys(k.clone()),
            NvimAction::Command(c) => NvimAction::Command(c.clone()),
            NvimAction::Function(f) => NvimAction::Function(f.clone()),
        }
    }
}

impl NvimAction {
    /// How the action reads in a keymap listing: raw keys in brackets, a
    /// command as its text, a callback as a placeholder.
    pub fn describe(&self) -> (r: String)
        ensures
            self.deep_view() matches ActionModel::Keys(k) ==> r@ == ("["@ + k) + "]"@,
            self.deep_view() matches ActionModel::Command(c) ==> r@ == c,
            self.deep_view() is Function ==> r@ == "<lua_function>"@,
    {
        match self {
            NvimAction::Keys(k) => String::from_str("[").concat(k.as_str()).concat("]"),
            NvimAction::Command(c) => c.clone(),
            NvimAction::Function(_) => String::from_str("<lua_function>"),
        }
    }
}

/// The key sequence that runs a host command through the command line:
/// a colon, the command text, and a carriage return.
pub open spec fn command_keys(c: Seq<char>) -> Seq<char> {
    (":"@ + c) + "<CR>"@
}

/// Builds the key sequence that runs `cmd` through the host's command line.
pub fn command_rhs(cmd: &str) -> (r: String)
    ensures
        r@ == command_keys(cmd@),
{
    String::from_str(":").concat(cmd).concat("<CR>")
}

/// Mathematical form of an error raised by the binding registry.
#[verifier::ext_equal]
pub ghost enum KeymapErrorModel {
    DuplicateTrigger(Seq<char>),
    HostCall { trigger: Seq<char>, message: Seq<char> },
}

/// An error raised by the binding registry: a duplicate trigger found while
/// a keymap was built, or a failed host call together with the trigger whose
/// binding the call was about.
#[derive(Debug)]
pub enum KeymapError {
    DuplicateTrigger(String),
    HostCall { trigger: String, message: String },
}

impl DeepView for KeymapError {
    type V = KeymapErrorModel;

    open spec fn deep_view(&self) -> KeymapErrorModel {
        match self {
            KeymapError::DuplicateTrigger(t) => KeymapErrorModel::DuplicateTrigger(t@),
            KeymapError::HostCall { trigger, message } => KeymapErrorModel::HostCall {
                trigger: trigger@,
                message: message@,
            },
        }
    }
}

impl KeymapError {
    /// A one-line description of the error, for the adapter's log.
    pub fn message(&self) -> (r: String)
        ensures
            self.deep_view() matches KeymapErrorModel::DuplicateTrigger(t) ==> r@
                == "duplicate trigger: "@ + t,
            self.deep_view() matches KeymapErrorModel::HostCall { trigger, message } ==> r@ == ((
            "host call failed for trigger "@ + trigger) + ": "@) + message,
    {
        match self {
            KeymapError::DuplicateTrigger(t) => String::from_str("duplicate trigger: ").concat(
                t.as_str(),
            ),
            KeymapError::HostCall { trigger, message } => String::from_str(
                "host call failed for trigger ",
            ).concat(trigger.as_str()).concat(": ").concat(message.as_str()),
        }
    }
}

/// The triggers of a keymap model, in entry order.
pub open spec fn km_triggers(s: Seq<(Seq<char>, ActionModel)>) -> Seq<Seq<char>> {
    s.map_values(|p: (Seq<char>, ActionModel)| p.0)
}

/// No two entries share a trigger.
pub open spec fn km_distinct(s: Seq<(Seq<char>, ActionModel)>) -> bool {
    forall|i: int, j: int| 0 <= i < j < s.len() ==> s[i].0 != s[j].0
}

/// The keymap model read as a mapping from trigger to action. With
/// [`km_distinct`] entries the order of insertion is irrelevant.
pub open spec fn km_map(s: Seq<(Seq<char>, ActionModel)>) -> Map<Seq<char>, ActionModel>
    decreases s.len(),
{
    if s.len() == 0 {
        Map::empty()
    } else {
        km_map(s.drop_last()).insert(s.last().0, s.last().1)
    }
}

/// A mapping from trigger to action. The invariant [`NvimKeymap::wf`] — no
/// two entries share a trigger — is established by construction and assumed
/// by the registry lemmas.
pub struct NvimKeymap {
    pub entries: Vec<(String, NvimAction)>,
}

impl DeepView for NvimKeymap {
    type V = Seq<(Seq<char>, ActionModel)>;

    open spec fn deep_view(&self) -> Seq<(Seq<char>, ActionModel)> {
        self.entries.deep_view()
    }
}

impl NvimKeymap {
    /// Every trigger appears at most once.
    pub open spec fn wf(self) -> bool {
        km_distinct(self.deep_view())
    }

    /// An empty keymap.
    pub fn new() -> (r: Self)
        ensures
            r.deep_view() == Seq::<(Seq<char>, ActionModel)>::empty(),
    {
        let r = NvimKeymap { entries: Vec::new() };
        proof {
            assert(r.deep_view() =~= Seq::<(Seq<char>, ActionModel)>::empty());
        }
        r
    }

    /// The number of entries.
    pub fn len(&self) -> (n: usize)
        ensures
            n == self.deep_view().len(),
    {
        self.entries.len()
    }

    /// Whether some entry already uses this trigger.
    pub fn contains_trigger(&self, trigger: &String) -> (r: bool)
        ensures
            r == km_triggers(self.deep_view()).contains(trigger@),
    {
        let n = self.entries.len();
        let mut i: usize = 0;
        while i < n
            invariant
                n == self.entries.len(),
                i <= n,
                forall|k: int| 0 <= k < i ==> self.deep_view()[k].0 != trigger@,
            decreases n - i,
        {
            if self.entries[i].0 == *trigger {
                proof {
                    assert(self.deep_view()[i as int].0 == self.entries@[i as int].0@);
                    assert(km_triggers(self.deep_view())[i as int] == trigger@);
                }
                return true;
            }
            proof {
                assert(self.deep_view()[i as int].0 == self.entries@[i as int].0@);
            }
            i += 1;
        }
        proof {
            assert forall|k: int| 0 <= k < km_triggers(self.deep_view()).len() implies km_triggers(
                self.deep_view(),
            )[k] != trigger@ by {
                assert(self.deep_view()[k].0 != trigger@);
            }
        }
        false
    }

    /// Appends an entry for a trigger no other entry uses.
    pub fn insert(&mut self, trigger: String, action: NvimAction)
        requires
            !km_triggers(old(self).deep_view()).contains(trigger@),
        ensures
            final(self).deep_view() == old(self).deep_view().push(
                (trigger@, action.deep_view()),
            ),
            old(self).wf() ==> final(self).wf(),
    {
        let ghost pre = self.deep_view();
        self.entries.push((trigger, action));
        proof {
            assert(self.deep_view() =~= pre.push((trigger@, action.deep_view())));
            if km_distinct(pre) {
                assert forall|i: int, j: int|
                    0 <= i < j < self.deep_view().len() implies self.deep_view()[i].0
                    != self.deep_view()[j].0 by {
                    if j == pre.len() {
                        assert(km_triggers(pre)[i] == pre[i].0);
                    }
                }
            }
        }
    }
}

/// Mathematical form of a declarative keymap entry.
#[verifier::ext_equal]
pub ghost struct EntryModel {
    pub trigger: Seq<char>,
    pub action: ActionModel,
    pub wrapped: bool,
}

/// One declarative entry of the construction grammar: a trigger, the action
/// it should perform, and whether the configured cross-cutting transform is
/// layered over the action before it is inserted.
pub struct KeymapEntry {
    pub trigger: String,
    pub action: NvimAction,
    pub wrapped: bool,
}

impl DeepView for KeymapEntry {
    type V = EntryModel;

    open spec fn deep_view(&self) -> EntryModel {
        EntryModel { trigger: self.trigger@, action: self.action.deep_view(), wrapped: self.wrapped }
    }
}

impl KeymapEntry {
    /// `(trigger)`: the trigger mapped to itself, registered explicitly so
    /// that a full reset does not strip it.
    pub fn plain(trigger: String) -> (e: Self)
        ensures
            e.deep_view() == (EntryModel {
                trigger: trigger@,
                action: ActionModel::Keys(trigger@),
                wrapped: false,
            }),
    {
        let keys = trigger.clone();
        KeymapEntry { trigger, action: NvimAction::Keys(keys), wrapped: false }
    }

    /// `(trigger => [keys])`: replay a raw key sequence.
    pub fn keys(trigger: String, keys: String) -> (e: Self)
        ensures
            e.deep_view() == (EntryModel {
                trigger: trigger@,
                action: ActionModel::Keys(keys@),
                wrapped: false,
            }),
    {
        KeymapEntry { trigger, action: NvimAction::Keys(keys), wrapped: false }
    }

    /// `(trigger => command)`: run a host command.
    pub fn command(trigger: String, command: String) -> (e: Self)
        ensures
            e.deep_view() == (EntryModel {
                trigger: trigger@,
                action: ActionModel::Command(command@),
                wrapped: false,
            }),
    {
        KeymapEntry { trigger, action: NvimAction::Command(command), wrapped: false }
    }

    /// `(trigger => callback)`: invoke a callback.
    pub fn function(trigger: String, f: KeymapFunction) -> (e: Self)
        ensures
            e.deep_view() == (EntryModel {
                trigger: trigger@,
                action: ActionModel::Function(f.deep_view()),
                wrapped: false,
            }),
    {
        KeymapEntry { trigger, action: NvimAction::Function(std::rc::Rc::new(f)), wrapped: false }
    }

    /// The wrap modifier: layer the configured transform over the action.
    pub fn wrapped(self) -> (e: Self)
        ensures
            e.deep_view() == (EntryModel { wrapped: true, ..self.deep_view() }),
    {
        KeymapEntry { wrapped: true, ..self }
    }
}

/// The action an entry inserts: its own action, or — under the wrap
/// modifier — a callback carrying the configured transform.
pub open spec fn entry_action_model(e: EntryModel) -> ActionModel {
    if e.wrapped {
        ActionModel::Function(crate::plugins::cinnamon::wrap_action_model(e.action))
    } else {
        e.action
    }
}

/// The keymap model an entry list builds, entry by entry.
pub open spec fn built_seq(es: Seq<EntryModel>) -> Seq<(Seq<char>, ActionModel)> {
    es.map_values(|e: EntryModel| (e.trigger, entry_action_model(e)))
}

/// No two entries of the list share a trigger.
pub open spec fn entries_distinct(es: Seq<EntryModel>) -> bool {
    forall|i: int, j: int| 0 <= i < j < es.len() ==> es[i].trigger != es[j].trigger
}

/// Turns an ordered list of declarative entries into a keymap. Construction
/// is pure: no host call is made. A duplicate trigger is a hard failure,
/// reported for the first entry whose trigger an earlier entry already uses;
/// nothing is silently overwritten.
pub fn build_keymap(entries: Vec<KeymapEntry>) -> (r: Result<NvimKeymap, KeymapError>)
    ensures
        r is Ok <==> entries_distinct(entries.deep_view()),
        r matches Ok(k) ==> k.deep_view() == built_seq(entries.deep_view()) && k.wf(),
        r matches Err(e) ==> e.deep_view() matches KeymapErrorModel::DuplicateTrigger(t)
            && (exists|j: int|
            first_duplicate_at(entries.deep_view(), j) && t == entries.deep_view()[j].trigger),
{
    let ghost es = entries.deep_view();
    let mut km = NvimKeymap::new();
    let mut i: usize = 0;
    let n = entries.len();
    while i < n
        invariant
            n == entries.len(),
            es == entries.deep_view(),
            i <= n,
            km.deep_view() =~= built_seq(es.take(i as int)),
            km.wf(),
            entries_distinct(es.take(i as int)),
        decreases n - i,
    {
        let trigger = entries[i].trigger.clone();
        let action = entries[i].action.clone();
        let wrapped = entries[i].wrapped;
        proof {
            assert(es[i as int] == entries@[i as int].deep_view());
        }
        let resolved = if wrapped {
            NvimAction::Function(
                std::rc::Rc::new(crate::plugins::cinnamon::wrap_action(action)),
            )
        } else {
            action
        };
        proof {
            assert(resolved.deep_view() == entry_action_model(es[i as int]));
        }
        if km.contains_trigger(&trigger) {
            proof {
                let t = trigger@;
                assert(km_triggers(km.deep_view()).contains(t));
                let k = choose|k: int|
                    0 <= k < km.deep_view().len() && km_triggers(km.deep_view())[k] == t;
                assert(km.deep_view()[k].0 == t);
                assert(es.take(i as int)[k].trigger == t);
                assert(es[k].trigger == t);
                assert(first_duplicate_at(es, i as int));
            }
            return Err(KeymapError::DuplicateTrigger(trigger));
        }
        proof {
            assert forall|k: int| 0 <= k < i implies es[k].trigger != trigger@ by {
                assert(km.deep_view()[k].0 == es.take(i as int)[k].trigger);
                assert(km_triggers(km.deep_view())[k] == km.deep_view()[k].0);
            }
            assert(es.take(i + 1) =~= es.take(i as int).push(es[i as int]));
            assert(built_seq(es.take(i + 1)) =~= built_seq(es.take(i as int)).push(
                (es[i as int].trigger, entry_action_model(es[i as int])),
            ));
        }
        km.insert(trigger, resolved);
        i += 1;
    }
    proof {
        assert(es.take(n as int) =~= es);
    }
    Ok(km)
}

/// Mathematical form of a native binding.
#[verifier::ext_equal]
pub ghost struct BindingModel {
    pub rhs: Seq<char>,
    pub silent: bool,
    pub noremap: bool,
    pub callback: Option<FnModel>,
}

/// The host's native representation of one binding: the key sequence it
/// feeds back (empty for callback bindings), the silent and non-recursive
/// flags, and the callback reference, if any.
pub struct NvimBinding {
    pub rhs: String,
    pub silent: bool,
    pub noremap: bool,
    pub callback: Option<std::rc::Rc<KeymapFunction>>,
}

impl DeepView for NvimBinding {
    type V = BindingModel;

    open spec fn deep_view(&self) -> BindingModel {
        BindingModel {
            rhs: self.rhs@,
            silent: self.silent,
            noremap: self.noremap,
            callback: match &self.callback {
                Some(f) => Some(f.deep_view()),
                None => None,
            },
        }
    }
}

/// The binding that does nothing, used to neutralize a built-in default.
pub open spec fn noop_binding_model() -> BindingModel {
    BindingModel { rhs: Seq::empty(), silent: false, noremap: false, callback: None }
}

/// Mathematical form of [`translate_action`]: raw keys are replayed
/// verbatim; a command runs through the command-execution path; a callback
/// binding carries the function reference and an empty key sequence. Every
/// binding is silent — it never echoes the keys to a status or input
/// indicator — and non-recursive — it never re-enters the host's own
/// remapping resolution.
pub open spec fn translate_model(a: ActionModel) -> BindingModel {
    match a {
        ActionModel::Keys(k) => BindingModel { rhs: k, silent: true, noremap: true, callback: None },
        ActionModel::Command(c) => BindingModel {
            rhs: command_keys(c),
            silent: true,
            noremap: true,
            callback: None,
        },
        ActionModel::Function(f) => BindingModel {
            rhs: Seq::empty(),
            silent: true,
            noremap: true,
            callback: Some(f),
        },
    }
}

/// Translates an action to the host's native binding representation.
pub fn translate_action(action: NvimAction) -> (b: NvimBinding)
    ensures
        b.deep_view() == translate_model(action.deep_view()),
{
    match action {
        NvimAction::Keys(k) => NvimBinding { rhs: k, silent: true, noremap: true, callback: None },
        NvimAction::Command(c) => NvimBinding {
            rhs: command_rhs(c.as_str()),
            silent: true,
            noremap: true,
            callback: None,
        },
        NvimAction::Function(f) => NvimBinding {
            rhs: String::new(),
            silent: true,
            noremap: true,
            callback: Some(f),
        },
    }
}

/// Mathematical form of one host call.
#[verifier::ext_equal]
pub ghost enum OpKindModel {
    Delete(Seq<char>),
    Bind(Seq<char>, BindingModel),
}

/// Mathematical form of a planned host call, with its target dispatch
/// table.
#[verifier::ext_equal]
pub ghost struct OpModel {
    pub mode: Mode,
    pub scope: Scope,
    pub kind: OpKindModel,
}

/// One host call of a plan: delete the binding of a trigger, or bind a
/// trigger to a native binding.
pub enum HostOpKind {
    Delete(String),
    Bind(String, NvimBinding),
}

/// A planned host call, addressed to the dispatch table of one mode within
/// one scope.
pub struct HostOp {
    pub mode: Mode,
    pub scope: Scope,
    pub kind: HostOpKind,
}

impl DeepView for HostOp {
    type V = OpModel;

    open spec fn deep_view(&self) -> OpModel {
        OpModel {
            mode: self.mode,
            scope: self.scope,
            kind: match &self.kind {
                HostOpKind::Delete(t) => OpKindModel::Delete(t@),
                HostOpKind::Bind(t, b) => OpKindModel::Bind(t@, b.deep_view()),
            },
        }
    }
}

/// Whether a trigger belongs to the host's reserved namespace, which a
/// reset must never touch.
pub open spec fn is_protected(t: Seq<char>) -> bool {
    t.len() >= 6 && t.subrange(0, 6) == "<Plug>"@
}

/// Whether the trigger starts with the host's reserved prefix.
pub fn is_protected_trigger(t: &String) -> (r: bool)
    ensures
        r == is_protected(t@),
{
    proof {
        reveal_strlit("<Plug>");
    }
    let s = t.as_str();
    let p = "<Plug>";
    let n = s.unicode_len();
    if n < 6 {
        return false;
    }
    let mut k: usize = 0;
    while k < 6
        invariant
            t@.len() >= 6,
            k <= 6,
            s@ == t@,
            p@ == "<Plug>"@,
            p@.len() == 6,
            forall|j: int| 0 <= j < k ==> t@[j] == p@[j],
        decreases 6 - k,
    {
        if s.get_char(k) != p.get_char(k) {
            proof {
                assert(t@.subrange(0, 6)[k as int] != "<Plug>"@[k as int]);
            }
            return false;
        }
        k += 1;
    }
    proof {
        assert(t@.subrange(0, 6) =~= "<Plug>"@);
    }
    true
}

/// The registration plan for a keymap: one set call per entry, in entry
/// order, each against the given mode and scope.
pub open spec fn apply_plan_model(mode: Mode, scope: Scope, km: Seq<(Seq<char>, ActionModel)>) -> Seq<
    OpModel,
> {
    km.map_values(
        |p: (Seq<char>, ActionModel)| OpModel {
            mode,
            scope,
            kind: OpKindModel::Bind(p.0, translate_model(p.1)),
        },
    )
}

/// The deletion plan for a listing of existing bindings: one delete call
/// for every trigger the host could list, skipping the reserved namespace.
/// Entries the listing could not represent contribute nothing, and block
/// nothing.
pub open spec fn delete_plan_model(mode: Mode, scope: Scope, listed: Seq<Option<Seq<char>>>) -> Seq<
    OpModel,
>
    decreases listed.len(),
{
    if listed.len() == 0 {
        Seq::empty()
    } else {
        let rest = delete_plan_model(mode, scope, listed.drop_last());
        match listed.last() {
            Some(t) => if !is_protected(t) {
                rest.push(OpModel { mode, scope, kind: OpKindModel::Delete(t) })
            } else {
                rest
            },
            None => rest,
        }
    }
}

/// The neutralization plan: a no-op binding for every trigger of the
/// alphabet, against the mode's global table.
pub open spec fn noop_plan_model(mode: Mode) -> Seq<OpModel> {
    all_keys_model().map_values(
        |t: Seq<char>| OpModel {
            mode,
            scope: Scope::Global,
            kind: OpKindModel::Bind(t, noop_binding_model()),
        },
    )
}

/// The Trigger Alphabet: the static, versioned list of every trigger the
/// reset operation neutralizes. It must stay a superset of anything the
/// construction grammar produces, or a reset leaves stale host defaults for
/// the unlisted triggers.
pub open spec fn all_keys_model() -> Seq<Seq<char>> {
    seq![
        "a"@, "b"@, "c"@, "d"@, "e"@, "f"@, "g"@, "h"@,
        "i"@, "j"@, "k"@, "l"@, "m"@, "n"@, "o"@, "p"@,
        "q"@, "r"@, "s"@, "t"@, "u"@, "v"@, "w"@, "x"@,
        "y"@, "z"@, "A"@, "B"@, "C"@, "D"@, "E"@, "F"@,
        "G"@, "H"@, "I"@, "J"@, "K"@, "L"@, "M"@, "N"@,
        "O"@, "P"@, "Q"@, "R"@, "S"@, "T"@, "U"@, "V"@,
        "W"@, "X"@, "Y"@, "Z"@, "0"@, "1"@, "2"@, "3"@,
        "4"@, "5"@, "6"@, "7"@, "8"@, "9"@, "!"@, "@"@,
        "#"@, "$"@, "%"@, "^"@, "&"@, "*"@, "("@, ")"@,
        "-"@, "_"@, "="@, "+"@, "["@, "]"@, "{"@, "}"@,
        ";"@, ":"@, "'"@, "\""@, ","@, "."@, "/"@, "<"@,
        ">"@, "?"@, "`"@, "~"@, "<F1>"@, "<F2>"@, "<F3>"@, "<F4>"@,
        "<F5>"@, "<F6>"@, "<F7>"@, "<F8>"@, "<F9>"@, "<F10>"@, "<F11>"@, "<F12>"@,
        "<Up>"@, "<Down>"@, "<Left>"@, "<Right>"@, "<Home>"@, "<End>"@, "<PageUp>"@, "<PageDown>"@,
        "<BS>"@, "<Del>"@, "<CR>"@, "<Tab>"@, "<Esc>"@, "<Space>"@, "<Bar>"@, "<Bslash>"@,
        "<C-a>"@, "<C-b>"@, "<C-c>"@, "<C-d>"@, "<C-e>"@, "<C-f>"@, "<C-g>"@, "<C-h>"@,
        "<C-i>"@, "<C-j>"@, "<C-k>"@, "<C-l>"@, "<C-m>"@, "<C-n>"@, "<C-o>"@, "<C-p>"@,
        "<C-q>"@, "<C-r>"@, "<C-s>"@, "<C-t>"@, "<C-u>"@, "<C-v>"@, "<C-w>"@, "<C-x>"@,
        "<C-y>"@, "<C-z>"@, "<C-0>"@, "<C-1>"@, "<C-2>"@, "<C-3>"@, "<C-4>"@, "<C-5>"@,
        "<C-6>"@, "<C-7>"@, "<C-8>"@, "<C-9>"@, "<C-[>"@, "<C-]>"@, "<C-Space>"@, "<C-Up>"@,
        "<C-Down>"@, "<C-Left>"@, "<C-Right>"@, "<LeftMouse>"@, "<RightMouse>"@, "<MiddleMouse>"@, "<kHome>"@, "<k0>"@,
        "<k1>"@, "<k2>"@, "<k3>"@, "<k4>"@, "<k5>"@, "<k6>"@, "<k7>"@, "<k8>"@,
        "<k9>"@, "<kPlus>"@, "<kMinus>"@, "<kMultiply>"@, "<kDivide>"@, "<kEnter>"@, "<kPoint>"@, "<Leader>"@,
        "<LocalLeader>"@,
    ]
}

/// The Trigger Alphabet as executable data, in the order of
/// [`all_keys_model`].
pub fn all_keys() -> (r: Vec<&'static str>)
    ensures
        r.deep_view() == all_keys_model(),
{
    let r: Vec<&'static str> = vec![
        "a", "b", "c", "d", "e", "f", "g", "h", "i", "j",
        "k", "l", "m", "n", "o", "p", "q", "r", "s", "t",
        "u", "v", "w", "x", "y", "z", "A", "B", "C", "D",
        "E", "F", "G", "H", "I", "J", "K", "L", "M", "N",
        "O", "P", "Q", "R", "S", "T", "U", "V", "W", "X",
        "Y", "Z", "0", "1", "2", "3", "4", "5", "6", "7",
        "8", "9", "!", "@", "#", "$", "%", "^", "&", "*",
        "(", ")", "-", "_", "=", "+", "[", "]", "{", "}",
        ";", ":", "'", "\"", ",", ".", "/", "<", ">", "?",
        "`", "~", "<F1>", "<F2>", "<F3>", "<F4>", "<F5>", "<F6>", "<F7>", "<F8>",
        "<F9>", "<F10>", "<F11>", "<F12>", "<Up>", "<Down>", "<Left>", "<Right>", "<Home>", "<End>",
        "<PageUp>", "<PageDown>", "<BS>", "<Del>", "<CR>", "<Tab>", "<Esc>", "<Space>", "<Bar>", "<Bslash>",
        "<C-a>", "<C-b>", "<C-c>", "<C-d>", "<C-e>", "<C-f>", "<C-g>", "<C-h>", "<C-i>", "<C-j>",
        "<C-k>", "<C-l>", "<C-m>", "<C-n>", "<C-o>", "<C-p>", "<C-q>", "<C-r>", "<C-s>", "<C-t>",
        "<C-u>", "<C-v>", "<C-w>", "<C-x>", "<C-y>", "<C-z>", "<C-0>", "<C-1>", "<C-2>", "<C-3>",
        "<C-4>", "<C-5>", "<C-6>", "<C-7>", "<C-8>", "<C-9>", "<C-[>", "<C-]>", "<C-Space>", "<C-Up>",
        "<C-Down>", "<C-Left>", "<C-Right>", "<LeftMouse>", "<RightMouse>", "<MiddleMouse>", "<kHome>", "<k0>", "<k1>", "<k2>",
        "<k3>", "<k4>", "<k5>", "<k6>", "<k7>", "<k8>", "<k9>", "<kPlus>", "<kMinus>", "<kMultiply>",
        "<kDivide>", "<kEnter>", "<kPoint>", "<Leader>", "<LocalLeader>",
    ];
    proof {
        assert(r.deep_view() =~= all_keys_model());
    }
    r
}

/// Shared worker for [`setup_keymap`] and [`setup_buf_keymap`]: one bind
/// call per entry, in entry order.
fn apply_ops_for(mode: Mode, scope: Scope, keymap: NvimKeymap) -> (ops: Vec<HostOp>)
    ensures
        ops.deep_view() == apply_plan_model(mode, scope, keymap.deep_view()),
{
    let ghost plan = apply_plan_model(mode, scope, keymap.deep_view());
    let n = keymap.entries.len();
    let mut ops: Vec<HostOp> = Vec::new();
    let mut i: usize = 0;
    while i < n
        invariant
            n == keymap.entries.len(),
            i <= n,
            plan == apply_plan_model(mode, scope, keymap.deep_view()),
            ops.deep_view() =~= plan.take(i as int),
        decreases n - i,
    {
        let trigger = keymap.entries[i].0.clone();
        let action = keymap.entries[i].1.clone();
        proof {
            assert(keymap.deep_view()[i as int] == keymap.entries@[i as int].deep_view());
        }
        let binding = translate_action(action);
        let op = HostOp { mode, scope, kind: HostOpKind::Bind(trigger, binding) };
        proof {
            assert(op.deep_view() == plan[i as int]);
            assert(plan.take(i + 1) =~= plan.take(i as int).push(plan[i as int]));
        }
        ops.push(op);
        i += 1;
    }
    proof {
        assert(ops.deep_view() =~= plan);
    }
    ops
}

/// The registration plan for a keymap against a mode's global table:
/// one bind call per entry. A host failure while the plan runs does not
/// roll back earlier calls; the adapter reports it through
/// [`first_host_failure`], which names the offending trigger.
pub fn setup_keymap(mode: Mode, keymap: NvimKeymap) -> (ops: Vec<HostOp>)
    ensures
        ops.deep_view() == apply_plan_model(mode, Scope::Global, keymap.deep_view()),
{
    apply_ops_for(mode, Scope::Global, keymap)
}

/// The registration plan for a keymap against one document's table for a
/// mode: the same calls as [`setup_keymap`], scoped to the document.
pub fn setup_buf_keymap(buf: i32, mode: Mode, keymap: NvimKeymap) -> (ops: Vec<HostOp>)
    ensures
        ops.deep_view() == apply_plan_model(mode, Scope::Document(buf), keymap.deep_view()),
{
    apply_ops_for(mode, Scope::Document(buf), keymap)
}

/// Shared worker for the clearing plans: one delete call per listed
/// trigger outside the reserved namespace. Each listing entry is handled on
/// its own: an entry the host could not represent (`None`) is skipped and
/// never blocks the deletion of the others.
fn delete_ops_for(mode: Mode, scope: Scope, listed: &Vec<Option<String>>) -> (ops: Vec<HostOp>)
    ensures
        ops.deep_view() == delete_plan_model(mode, scope, listed.deep_view()),
{
    let ghost ld = listed.deep_view();
    let n = listed.len();
    let mut ops: Vec<HostOp> = Vec::new();
    let mut i: usize = 0;
    while i < n
        invariant
            n == listed.len(),
            ld == listed.deep_view(),
            i <= n,
            ops.deep_view() =~= delete_plan_model(mode, scope, ld.take(i as int)),
        decreases n - i,
    {
        proof {
            assert(ld[i as int] == listed@[i as int].deep_view());
            assert(ld.take(i + 1).drop_last() =~= ld.take(i as int));
            assert(ld.take(i + 1).last() == ld[i as int]);
        }
        match &listed[i] {
            Some(t) => {
                if !is_protected_trigger(t) {
                    let op = HostOp { mode, scope, kind: HostOpKind::Delete(t.clone()) };
                    ops.push(op);
                }
            },
            None => {},
        }
        i += 1;
    }
    proof {
        assert(ld.take(n as int) =~= ld);
    }
    ops
}

/// The full clearing plan for a mode's global table: delete every binding
/// the host listed outside the reserved namespace, then neutralize the
/// whole Trigger Alphabet with no-op bindings, so that built-in defaults
/// the listing cannot see are overwritten as well.
pub fn clear_keymap(mode: Mode, listed: &Vec<Option<String>>) -> (ops: Vec<HostOp>)
    ensures
        ops.deep_view() == delete_plan_model(mode, Scope::Global, listed.deep_view())
            + noop_plan_model(mode),
{
    let ghost whole = delete_plan_model(mode, Scope::Global, listed.deep_view())
        + noop_plan_model(mode);
    let mut ops = delete_ops_for(mode, Scope::Global, listed);
    let ghost dels = ops.deep_view();
    let keys = all_keys();
    let n = keys.len();
    let mut i: usize = 0;
    while i < n
        invariant
            n == keys.len(),
            i <= n,
            keys.deep_view() == all_keys_model(),
            dels == delete_plan_model(mode, Scope::Global, listed.deep_view()),
            ops.deep_view() =~= dels + noop_plan_model(mode).take(i as int),
        decreases n - i,
    {
        let trigger = String::from_str(keys[i]);
        let binding = NvimBinding {
            rhs: String::new(),
            silent: false,
            noremap: false,
            callback: None,
        };
        let op = HostOp { mode, scope: Scope::Global, kind: HostOpKind::Bind(trigger, binding) };
        proof {
            assert(keys.deep_view()[i as int] == keys@[i as int]@);
            assert(op.deep_view() == noop_plan_model(mode)[i as int]);
            assert(noop_plan_model(mode).take(i + 1) =~= noop_plan_model(mode).take(
                i as int,
            ).push(noop_plan_model(mode)[i as int]));
            assert((dels + noop_plan_model(mode).take(i as int)).push(op.deep_view()) =~= dels
                + noop_plan_model(mode).take(i + 1));
        }
        ops.push(op);
        i += 1;
    }
    proof {
        assert(keys.deep_view().len() == n as int);
        assert(noop_plan_model(mode).len() == all_keys_model().len());
        assert(i == n);
        assert(ops.deep_view() == dels + noop_plan_model(mode).take(n as int));
        assert(noop_plan_model(mode).take(n as int) =~= noop_plan_model(mode));
        assert(noop_plan_model(mode).take(n as int) == noop_plan_model(mode));
        assert(ops.deep_view() =~= dels + noop_plan_model(mode));
        assert(ops.deep_view() =~= whole);
    }
    ops
}

/// The clearing plan for one document's table for a mode: delete calls
/// only, each listing entry isolated as in [`clear_keymap`]. The alphabet
/// pass is not run for document tables.
pub fn clear_buf_keymap(buf: i32, mode: Mode, listed: &Vec<Option<String>>) -> (ops: Vec<HostOp>)
    ensures
        ops.deep_view() == delete_plan_model(mode, Scope::Document(buf), listed.deep_view()),
{
    delete_ops_for(mode, Scope::Document(buf), listed)
}

/// The complete reset plan for a mode: clear what was listed, neutralize
/// the Trigger Alphabet, then register the keymap.
pub open spec fn clean_plan_model(
    mode: Mode,
    listed: Seq<Option<Seq<char>>>,
    km: Seq<(Seq<char>, ActionModel)>,
) -> Seq<OpModel> {
    (delete_plan_model(mode, Scope::Global, listed) + noop_plan_model(mode)) + apply_plan_model(
        mode,
        Scope::Global,
        km,
    )
}

/// The reset-then-register plan for a mode's global table: the clearing
/// plan of [`clear_keymap`] followed by the registration plan of
/// [`setup_keymap`].
pub fn setup_keymap_clean(mode: Mode, listed: &Vec<Option<String>>, keymap: NvimKeymap) -> (ops:
    Vec<HostOp>)
    ensures
        ops.deep_view() == clean_plan_model(mode, listed.deep_view(), keymap.deep_view()),
{
    let mut ops = clear_keymap(mode, listed);
    let ghost cleared = ops.deep_view();
    let mut rest = setup_keymap(mode, keymap);
    let ghost applied = rest.deep_view();
    ops.append(&mut rest);
    proof {
        assert(ops.deep_view() =~= cleared + applied);
    }
    ops
}

/// The trigger a host call is about.
pub open spec fn op_trigger(k: OpKindModel) -> Seq<char> {
    match k {
        OpKindModel::Delete(t) => t,
        OpKindModel::Bind(t, _) => t,
    }
}

/// Whether position `j` holds the first failed outcome.
pub open spec fn first_failure_at(outcomes: Seq<Option<Seq<char>>>, j: int) -> bool {
    &&& 0 <= j < outcomes.len()
    &&& outcomes[j] is Some
    &&& forall|k: int| 0 <= k < j ==> outcomes[k] is None
}

/// Reads the per-call outcomes the adapter gathered while it ran a plan —
/// `None` for a call that succeeded, `Some(message)` for one the host
/// refused — and returns the first host error, wrapped with the offending
/// trigger. Earlier successful calls are not rolled back.
pub fn first_host_failure(ops: &Vec<HostOp>, outcomes: &Vec<Option<String>>) -> (r: Result<
    (),
    KeymapError,
>)
    requires
        ops.deep_view().len() == outcomes.deep_view().len(),
    ensures
        r is Ok <==> (forall|k: int|
            0 <= k < outcomes.deep_view().len() ==> outcomes.deep_view()[k] is None),
        r matches Err(e) ==> exists|j: int|
            {
                &&& first_failure_at(outcomes.deep_view(), j)
                &&& e.deep_view() == (KeymapErrorModel::HostCall {
                    trigger: op_trigger(ops.deep_view()[j].kind),
                    message: outcomes.deep_view()[j]->0,
                })
            },
{
    let n = outcomes.len();
    let mut i: usize = 0;
    while i < n
        invariant
            n == outcomes.len(),
            ops.deep_view().len() == outcomes.deep_view().len(),
            i <= n,
            forall|k: int| 0 <= k < i ==> outcomes.deep_view()[k] is None,
        decreases n - i,
    {
        proof {
            assert(outcomes.deep_view()[i as int] == outcomes@[i as int].deep_view());
            assert(ops.deep_view()[i as int] == ops@[i as int].deep_view());
        }
        match &outcomes[i] {
            Some(message) => {
                let trigger = match &ops[i].kind {
                    HostOpKind::Delete(t) => t.clone(),
                    HostOpKind::Bind(t, _) => t.clone(),
                };
                let e = KeymapError::HostCall { trigger, message: message.clone() };
                proof {
                    assert(first_failure_at(outcomes.deep_view(), i as int));
                }
                return Err(e);
            },
            None => {},
        }
        i += 1;
    }
    Ok(())
}

/// The construction round trip: a duplicate-free entry list builds a keymap
/// with exactly one entry per input entry, whose triggers are the input
/// triggers, in order and one-to-one — read as a mapping, its domain is
/// exactly the set of input triggers.
pub proof fn lemma_construction_round_trip(es: Seq<EntryModel>)
    requires
        entries_distinct(es),
    ensures
        built_seq(es).len() == es.len(),
        forall|i: int| 0 <= i < es.len() ==> km_triggers(built_seq(es))[i] == es[i].trigger,
        km_distinct(built_seq(es)),
        forall|t: Seq<char>|
            #[trigger] km_map(built_seq(es)).dom().contains(t) <==> km_triggers(
                built_seq(es),
            ).contains(t),
{
    lemma_km_map_dom(built_seq(es));
}

/// The domain of a keymap model read as a mapping is the set of its
/// triggers.
pub proof fn lemma_km_map_dom(s: Seq<(Seq<char>, ActionModel)>)
    ensures
        forall|t: Seq<char>|
            #[trigger] km_map(s).dom().contains(t) <==> km_triggers(s).contains(t),
    decreases s.len(),
{
    if s.len() > 0 {
        lemma_km_map_dom(s.drop_last());
        assert forall|t: Seq<char>| #[trigger] km_map(s).dom().contains(t) implies km_triggers(
            s,
        ).contains(t) by {
            if t == s.last().0 {
                assert(km_triggers(s)[s.len() - 1] == t);
            } else {
                assert(km_map(s.drop_last()).dom().contains(t));
                let i = choose|i: int|
                    0 <= i < s.drop_last().len() && km_triggers(s.drop_last())[i] == t;
                assert(km_triggers(s)[i] == t);
            }
        }
        assert forall|t: Seq<char>| km_triggers(s).contains(t) implies #[trigger] km_map(
            s,
        ).dom().contains(t) by {
            let i = choose|i: int| 0 <= i < s.len() && km_triggers(s)[i] == t;
            if i < s.len() - 1 {
                assert(km_triggers(s.drop_last())[i] == t);
                assert(km_triggers(s.drop_last()).contains(t));
                assert(km_map(s.drop_last()).dom().contains(t));
            } else {
                assert(t == s.last().0);
            }
        }
    }
}

/// The wrap modifier is total and one-directional: whatever kind of action
/// an entry holds, under the modifier the entry inserts a callback — never
/// a raw-keys or a command binding.
pub proof fn lemma_wrap_total(e: EntryModel)
    ensures
        e.wrapped ==> entry_action_model(e) is Function,
{
}

/// Whether position `j` holds the first entry whose trigger an earlier
/// entry already uses — the entry [`build_keymap`] reports.
pub open spec fn first_duplicate_at(es: Seq<EntryModel>, j: int) -> bool {
    &&& 0 <= j < es.len()
    &&& entries_distinct(es.take(j))
    &&& exists|i: int| 0 <= i < j && es[i].trigger == es[j].trigger
}

/// Construction fails deterministically: for any entry list there is at
/// most one position a duplicate-trigger failure can be reported for, so
/// every run of the builder over the same list reports the same trigger.
pub proof fn lemma_duplicate_report_deterministic(es: Seq<EntryModel>, j1: int, j2: int)
    requires
        first_duplicate_at(es, j1),
        first_duplicate_at(es, j2),
    ensures
        j1 == j2,
{
    if j1 < j2 {
        let i = choose|i: int| 0 <= i < j1 && es[i].trigger == es[j1].trigger;
        assert(es.take(j2)[i] == es[i]);
        assert(es.take(j2)[j1] == es[j1]);
        assert(!entries_distinct(es.take(j2)));
    }
    if j2 < j1 {
        let i = choose|i: int| 0 <= i < j2 && es[i].trigger == es[j2].trigger;
        assert(es.take(j1)[i] == es[i]);
        assert(es.take(j1)[j2] == es[j2]);
        assert(!entries_distinct(es.take(j1)));
    }
}

} // verus!
