use vstd::prelude::*;
use crate::mode::{Modifiers, TerminalMode};

verus! {

/// A pointer button of the toolkit.
#[derive(Clone, Copy, Debug, PartialEq, Eq, Structural)]
pub enum PointerButton {
    Primary,
    Secondary,
    Middle,
    Extra1,
    Extra2,
}

/// What a binding is triggered by: a key, named as the toolkit names it
/// (`"Escape"`, `"F3"`, `"A"`), or a pointer button.
#[derive(Debug, PartialEq, Eq)]
pub enum InputKind {
    KeyCode(String),
    Mouse(PointerButton),
}

/// What a triggered binding does.
#[derive(Debug, PartialEq, Eq)]
pub enum BindingAction {
    /// Send a character.
    Char(char),
    /// Send an escape sequence.
    Esc(String),
    /// Open the hyperlink under the pointer.
    LinkOpen,
    /// Nothing.
    Ignore,
}

/// A trigger: an input with an exact set of modifiers, guarded by terminal
/// modes that must all be on (`terminal_mode_include`) and modes that must
/// all be off (`terminal_mode_exclude`).
#[derive(Debug)]
pub struct Binding {
    pub target: InputKind,
    pub modifiers: Modifiers,
    pub terminal_mode_include: TerminalMode,
    pub terminal_mode_exclude: TerminalMode,
}

/// An ordered binding table: the first entry that an input triggers wins.
#[derive(Debug)]
pub struct BindingsLayout {
    pub layout: Vec<(Binding, BindingAction)>,
}

/// An input as a mathematical value: a key by its name, or a button.
pub ghost enum InputView {
    Key(Seq<char>),
    Mouse(PointerButton),
}

impl View for InputKind {
    type V = InputView;

    open spec fn view(&self) -> InputView {
        match self {
            InputKind::KeyCode(k) => InputView::Key(k@),
            InputKind::Mouse(b) => InputView::Mouse(*b),
        }
    }
}

/// `binding` is triggered by `input` held with `mods` in terminal mode `mode`.
pub open spec fn triggered(binding: Binding, input: InputView, mods: Modifiers, mode: TerminalMode) -> bool {
    binding.target@ == input && binding.modifiers == mods && mode.spec_contains(
        binding.terminal_mode_include,
    ) && !mode.spec_intersects(binding.terminal_mode_exclude)
}

/// The action of the first entry of `table` that the input triggers, or
/// `Ignore` where none does.
pub open spec fn action_for(
    table: Seq<(Binding, BindingAction)>,
    input: InputView,
    mods: Modifiers,
    mode: TerminalMode,
) -> BindingAction
    decreases table.len(),
{
    if table.len() == 0 {
        BindingAction::Ignore
    } else if triggered(table[0].0, input, mods, mode) {
        table[0].1
    } else {
        action_for(table.drop_first(), input, mods, mode)
    }
}

/// Two bindings have the same trigger.
pub open spec fn same_trigger(a: Binding, b: Binding) -> bool {
    a.target@ == b.target@ && a.modifiers == b.modifiers && a.terminal_mode_include
        == b.terminal_mode_include && a.terminal_mode_exclude == b.terminal_mode_exclude
}

/// `table` with `entry` added: it takes the place of the first entry with the
/// same trigger, or goes to the end where there is none.
pub open spec fn with_binding(
    table: Seq<(Binding, BindingAction)>,
    entry: (Binding, BindingAction),
) -> Seq<(Binding, BindingAction)>
    decreases table.len(),
{
    if table.len() == 0 {
        seq![entry]
    } else if same_trigger(table[0].0, entry.0) {
        seq![entry] + table.drop_first()
    } else {
        seq![table[0]] + with_binding(table.drop_first(), entry)
    }
}

/// `table` with each of `entries` added in turn.
pub open spec fn with_bindings(
    table: Seq<(Binding, BindingAction)>,
    entries: Seq<(Binding, BindingAction)>,
) -> Seq<(Binding, BindingAction)>
    decreases entries.len(),
{
    if entries.len() == 0 {
        table
    } else {
        with_binding(with_bindings(table, entries.drop_last()), entries.last())
    }
}

/// Where the first entry with the trigger of `entry` stands at `i`, adding
/// `entry` replaces it there.
proof fn lemma_with_binding_at(
    table: Seq<(Binding, BindingAction)>,
    entry: (Binding, BindingAction),
    i: int,
)
    requires
        0 <= i < table.len(),
        same_trigger(table[i].0, entry.0),
        forall|j: int| 0 <= j < i ==> !same_trigger(#[trigger] table[j].0, entry.0),
    ensures
        with_binding(table, entry) == table.update(i, entry),
    decreases table.len(),
{
    if i == 0 {
        assert(seq![entry] + table.drop_first() =~= table.update(0, entry));
    } else {
        let rest = table.drop_first();
        assert forall|j: int| 0 <= j < i - 1 implies !same_trigger(#[trigger] rest[j].0, entry.0) by {
            assert(rest[j] == table[j + 1]);
        }
        assert(!same_trigger(table[0].0, entry.0));
        lemma_with_binding_at(rest, entry, i - 1);
        assert(seq![table[0]] + rest.update(i - 1, entry) =~= table.update(i, entry));
    }
}

/// Where no entry has the trigger of `entry`, adding it appends it.
proof fn lemma_with_binding_new(table: Seq<(Binding, BindingAction)>, entry: (Binding, BindingAction))
    requires
        forall|j: int| 0 <= j < table.len() ==> !same_trigger(#[trigger] table[j].0, entry.0),
    ensures
        with_binding(table, entry) == table.push(entry),
    decreases table.len(),
{
    if table.len() == 0 {
        assert(seq![entry] =~= table.push(entry));
    } else {
        let rest = table.drop_first();
        assert forall|j: int| 0 <= j < rest.len() implies !same_trigger(#[trigger] rest[j].0, entry.0) by {
            assert(rest[j] == table[j + 1]);
        }
        assert(!same_trigger(table[0].0, entry.0));
        lemma_with_binding_new(rest, entry);
        assert(seq![table[0]] + rest.push(entry) =~= table.push(entry));
    }
}

impl InputKind {
    pub fn same_as(&self, other: &InputKind) -> (r: bool)
        ensures
            r == (self@ == other@),
    {
        match (self, other) {
            (InputKind::KeyCode(x), InputKind::KeyCode(y)) => x.eq(y),
            (InputKind::Mouse(x), InputKind::Mouse(y)) => *x == *y,
            _ => false,
        }
    }
}

impl BindingAction {
    /// A copy of the action.
    pub fn duplicate(&self) -> (r: Self)
        ensures
            r == *self,
    {
        match self {
            BindingAction::Char(c) => BindingAction::Char(*c),
            BindingAction::Esc(s) => BindingAction::Esc(s.clone()),
            BindingAction::LinkOpen => BindingAction::LinkOpen,
            BindingAction::Ignore => BindingAction::Ignore,
        }
    }

    pub fn is_ignore(&self) -> (r: bool)
        ensures
            r == (*self is Ignore),
    {
        match self {
            BindingAction::Ignore => true,
            _ => false,
        }
    }

    pub fn is_link_open(&self) -> (r: bool)
        ensures
            r == (*self is LinkOpen),
    {
        match self {
            BindingAction::LinkOpen => true,
            _ => false,
        }
    }
}

impl Binding {
    /// Whether `input` held with `mods` in mode `mode` triggers this binding.
    pub fn is_triggered_by(&self, input: &InputKind, mods: &Modifiers, mode: &TerminalMode) -> (r: bool)
        ensures
            r == triggered(*self, input@, *mods, *mode),
    {
        self.target.same_as(input) && self.modifiers == *mods && mode.contains(
            &self.terminal_mode_include,
        ) && !mode.intersects(&self.terminal_mode_exclude)
    }
}

impl Binding {
    /// Whether two bindings have the same trigger.
    pub fn same_trigger_as(&self, other: &Binding) -> (r: bool)
        ensures
            r == same_trigger(*self, *other),
    {
        self.target.same_as(&other.target) && self.modifiers == other.modifiers
            && self.terminal_mode_include == other.terminal_mode_include
            && self.terminal_mode_exclude == other.terminal_mode_exclude
    }
}

impl BindingsLayout {
    /// Adds one entry: it replaces the first entry with the same trigger, or
    /// goes to the end where there is none.
    pub fn add_binding(&mut self, binding: Binding, action: BindingAction)
        ensures
            final(self).layout@ == with_binding(old(self).layout@, (binding, action)),
    {
        let mut i: usize = 0;
        while i < self.layout.len()
            invariant
                i <= self.layout@.len(),
                self.layout@ == old(self).layout@,
                forall|j: int| 0 <= j < i ==> !same_trigger(#[trigger] self.layout@[j].0, binding),
            decreases self.layout@.len() - i,
        {
            if self.layout[i].0.same_trigger_as(&binding) {
                proof {
                    lemma_with_binding_at(self.layout@, (binding, action), i as int);
                }
                self.layout[i] = (binding, action);
                return;
            }
            i = i + 1;
        }
        proof {
            lemma_with_binding_new(self.layout@, (binding, action));
        }
        self.layout.push((binding, action));
    }

    /// Adds the entries in order, each as `add_binding` does.
    pub fn add_bindings(&mut self, bindings: Vec<(Binding, BindingAction)>)
        ensures
            final(self).layout@ == with_bindings(old(self).layout@, bindings@),
    {
        let mut rest = bindings;
        let ghost all = rest@;
        let total = rest.len();
        let mut k: usize = 0;
        assert(all.skip(0) =~= all);
        while rest.len() > 0
            invariant
                all.len() == total,
                k <= all.len(),
                rest@ == all.skip(k as int),
                self.layout@ == with_bindings(old(self).layout@, all.take(k as int)),
            decreases rest@.len(),
        {
            let (b, a) = rest.remove(0);
            proof {
                assert(all.take(k + 1).drop_last() =~= all.take(k as int));
                assert(all.take(k + 1).last() == all[k as int]);
                assert(all.skip(k as int).drop_first() =~= all.skip(k + 1));
            }
            self.add_binding(b, a);
            k = k + 1;
        }
        assert(all.take(k as int) =~= all);
    }

    /// An empty table: every input resolves to `Ignore`.
    pub fn new() -> (r: Self)
        ensures
            r.layout@.len() == 0,
    {
        BindingsLayout { layout: Vec::new() }
    }

    /// The action of the first entry that the input triggers, or `Ignore`.
    pub fn get_action(&self, input: &InputKind, mods: &Modifiers, mode: &TerminalMode) -> (r: BindingAction)
        ensures
            r == action_for(self.layout@, input@, *mods, *mode),
    {
        let mut i: usize = 0;
        assert(self.layout@.skip(0) =~= self.layout@);
        while i < self.layout.len()
            invariant
                i <= self.layout@.len(),
                action_for(self.layout@, input@, *mods, *mode) == action_for(
                    self.layout@.skip(i as int),
                    input@,
                    *mods,
                    *mode,
                ),
            decreases self.layout@.len() - i,
        {
            let entry = &self.layout[i];
            assert(self.layout@.skip(i as int)[0] == self.layout@[i as int]);
            if entry.0.is_triggered_by(input, mods, mode) {
                return entry.1.duplicate();
            }
            assert(self.layout@.skip(i as int).drop_first() =~= self.layout@.skip(i + 1));
            i = i + 1;
        }
        BindingAction::Ignore
    }
}

} // verus!
