//! Authoritative remappable input bindings.
//!
//! Gameplay asks `KeyBindings` whether an action is active; there is no
//! fallback to a hard-coded key once an action has been remapped. Required
//! actions (movement, fire, confirm, cancel) can never be cleared.

use vstd::prelude::*;
use crate::keycode::{KeyCode, key_name_spec};
use crate::text::{decimal, decimal_string};
use vstd::string::*;

verus! {

/// A single remappable gameplay or menu action, in declaration order.
#[derive(Debug, Clone, Copy, PartialEq, Eq, Hash, Structural)]
pub enum Action {
    MoveUp,
    MoveDown,
    MoveLeft,
    MoveRight,
    AimUp,
    AimDown,
    AimLeft,
    AimRight,
    Fire,
    CycleAmmoPrev,
    CycleAmmoNext,
    SelectAmmo1,
    SelectAmmo2,
    SelectAmmo3,
    SelectAmmo4,
    SelectAmmo5,
    Pause,
    ActivateAbility,
    Confirm,
    Cancel,
    MenuUp,
    MenuDown,
    MenuLeft,
    MenuRight,
}

/// Number of actions; the binding table has one slot per action.
pub const ACTION_COUNT: usize = 24;

/// Position of an action in declaration order.
pub open spec fn action_index(a: Action) -> int {
    match a {
        Action::MoveUp => 0,
        Action::MoveDown => 1,
        Action::MoveLeft => 2,
        Action::MoveRight => 3,
        Action::AimUp => 4,
        Action::AimDown => 5,
        Action::AimLeft => 6,
        Action::AimRight => 7,
        Action::Fire => 8,
        Action::CycleAmmoPrev => 9,
        Action::CycleAmmoNext => 10,
        Action::SelectAmmo1 => 11,
        Action::SelectAmmo2 => 12,
        Action::SelectAmmo3 => 13,
        Action::SelectAmmo4 => 14,
        Action::SelectAmmo5 => 15,
        Action::Pause => 16,
        Action::ActivateAbility => 17,
        Action::Confirm => 18,
        Action::Cancel => 19,
        Action::MenuUp => 20,
        Action::MenuDown => 21,
        Action::MenuLeft => 22,
        Action::MenuRight => 23,
    }
}

/// The action at a position in declaration order.
pub open spec fn action_at(i: int) -> Action {
    if i == 0 {
        Action::MoveUp
    } else if i == 1 {
        Action::MoveDown
    } else if i == 2 {
        Action::MoveLeft
    } else if i == 3 {
        Action::MoveRight
    } else if i == 4 {
        Action::AimUp
    } else if i == 5 {
        Action::AimDown
    } else if i == 6 {
        Action::AimLeft
    } else if i == 7 {
        Action::AimRight
    } else if i == 8 {
        Action::Fire
    } else if i == 9 {
        Action::CycleAmmoPrev
    } else if i == 10 {
        Action::CycleAmmoNext
    } else if i == 11 {
        Action::SelectAmmo1
    } else if i == 12 {
        Action::SelectAmmo2
    } else if i == 13 {
        Action::SelectAmmo3
    } else if i == 14 {
        Action::SelectAmmo4
    } else if i == 15 {
        Action::SelectAmmo5
    } else if i == 16 {
        Action::Pause
    } else if i == 17 {
        Action::ActivateAbility
    } else if i == 18 {
        Action::Confirm
    } else if i == 19 {
        Action::Cancel
    } else if i == 20 {
        Action::MenuUp
    } else if i == 21 {
        Action::MenuDown
    } else if i == 22 {
        Action::MenuLeft
    } else {
        Action::MenuRight
    }
}

/// Declaration positions are a bijection between actions and `0..24`.
pub proof fn lemma_action_index(a: Action)
    ensures
        0 <= action_index(a) < 24,
        action_at(action_index(a)) == a,
{
}

/// Every position in `0..24` names an action whose position it is.
pub proof fn lemma_action_at(i: int)
    requires
        0 <= i < 24,
    ensures
        action_index(action_at(i)) == i,
{
}

impl Action {
    /// Position of this action in declaration order.
    pub fn index(self) -> (r: usize)
        ensures
            r == action_index(self),
    {
        match self {
            Action::MoveUp => 0,
            Action::MoveDown => 1,
            Action::MoveLeft => 2,
            Action::MoveRight => 3,
            Action::AimUp => 4,
            Action::AimDown => 5,
            Action::AimLeft => 6,
            Action::AimRight => 7,
            Action::Fire => 8,
            Action::CycleAmmoPrev => 9,
            Action::CycleAmmoNext => 10,
            Action::SelectAmmo1 => 11,
            Action::SelectAmmo2 => 12,
            Action::SelectAmmo3 => 13,
            Action::SelectAmmo4 => 14,
            Action::SelectAmmo5 => 15,
            Action::Pause => 16,
            Action::ActivateAbility => 17,
            Action::Confirm => 18,
            Action::Cancel => 19,
            Action::MenuUp => 20,
            Action::MenuDown => 21,
            Action::MenuLeft => 22,
            Action::MenuRight => 23,
        }
    }
}

/// A single physical input that can be bound to an action.
#[derive(Debug, Clone, Copy, PartialEq, Eq, Hash, Structural)]
pub enum Binding {
    Keyboard(KeyCode),
    GamepadButton(u8),
    MouseButton(u8),
}


/// `n` starts with `Key`.
pub open spec fn has_key_prefix(n: Seq<char>) -> bool {
    n.len() >= 3 && n[0] == 'K' && n[1] == 'e' && n[2] == 'y'
}

/// `n` starts with `Digit`.
pub open spec fn has_digit_prefix(n: Seq<char>) -> bool {
    n.len() >= 5 && n[0] == 'D' && n[1] == 'i' && n[2] == 'g' && n[3] == 'i' && n[4] == 't'
}

/// A key name with a leading `Key` or (failing that) `Digit` removed.
pub open spec fn strip_label_prefix(n: Seq<char>) -> Seq<char> {
    if has_key_prefix(n) {
        n.subrange(3, n.len() as int)
    } else if has_digit_prefix(n) {
        n.subrange(5, n.len() as int)
    } else {
        n
    }
}

/// Label of a key in the Controls UI: arrows become arrow glyphs, Escape
/// becomes `Esc`, and other names lose a `Key` or `Digit` prefix.
pub open spec fn key_label_spec(k: KeyCode) -> Seq<char> {
    match k {
        KeyCode::ArrowUp => "\u{2191}"@,
        KeyCode::ArrowDown => "\u{2193}"@,
        KeyCode::ArrowLeft => "\u{2190}"@,
        KeyCode::ArrowRight => "\u{2192}"@,
        KeyCode::Escape => "Esc"@,
        _ => strip_label_prefix(key_name_spec(k)),
    }
}

/// Label of a binding in the Controls UI.
pub open spec fn binding_label_spec(b: Binding) -> Seq<char> {
    match b {
        Binding::Keyboard(k) => key_label_spec(k),
        Binding::GamepadButton(i) => if i == 0 {
            "A"@
        } else if i == 1 {
            "B"@
        } else {
            "Pad"@ + decimal(i as nat)
        },
        Binding::MouseButton(i) => if i == 0 {
            "LMB"@
        } else {
            "M"@ + decimal(i as nat)
        },
    }
}

/// Human-readable label for a key.
pub fn key_label(k: KeyCode) -> (r: String)
    ensures
        r@ == key_label_spec(k),
{
    match k {
        KeyCode::ArrowUp => {
            return String::from_str("\u{2191}");
        },
        KeyCode::ArrowDown => {
            return String::from_str("\u{2193}");
        },
        KeyCode::ArrowLeft => {
            return String::from_str("\u{2190}");
        },
        KeyCode::ArrowRight => {
            return String::from_str("\u{2192}");
        },
        KeyCode::Escape => {
            return String::from_str("Esc");
        },
        _ => {},
    }
    let name = k.name();
    let len = name.unicode_len();
    if len >= 3 && name.get_char(0) == 'K' && name.get_char(1) == 'e' && name.get_char(2) == 'y' {
        return String::from_str(name.substring_char(3, len));
    }
    if len >= 5 && name.get_char(0) == 'D' && name.get_char(1) == 'i' && name.get_char(2) == 'g'
        && name.get_char(3) == 'i' && name.get_char(4) == 't' {
        return String::from_str(name.substring_char(5, len));
    }
    String::from_str(name)
}

impl Binding {
    /// Short label shown in the Controls UI.
    pub fn label(&self) -> (r: String)
        ensures
            r@ == binding_label_spec(*self),
    {
        match self {
            Binding::Keyboard(k) => key_label(*k),
            Binding::GamepadButton(i) => {
                if *i == 0 {
                    String::from_str("A")
                } else if *i == 1 {
                    String::from_str("B")
                } else {
                    let mut s = String::from_str("Pad");
                    let digits = decimal_string(*i as u64);
                    s.append(digits.as_str());
                    s
                }
            },
            Binding::MouseButton(i) => {
                if *i == 0 {
                    String::from_str("LMB")
                } else {
                    let mut s = String::from_str("M");
                    let digits = decimal_string(*i as u64);
                    s.append(digits.as_str());
                    s
                }
            },
        }
    }
}

/// All actions, in declaration order.
pub open spec fn all_actions_spec() -> Seq<Action> {
    seq![
        Action::MoveUp,
        Action::MoveDown,
        Action::MoveLeft,
        Action::MoveRight,
        Action::AimUp,
        Action::AimDown,
        Action::AimLeft,
        Action::AimRight,
        Action::Fire,
        Action::CycleAmmoPrev,
        Action::CycleAmmoNext,
        Action::SelectAmmo1,
        Action::SelectAmmo2,
        Action::SelectAmmo3,
        Action::SelectAmmo4,
        Action::SelectAmmo5,
        Action::Pause,
        Action::ActivateAbility,
        Action::Confirm,
        Action::Cancel,
        Action::MenuUp,
        Action::MenuDown,
        Action::MenuLeft,
        Action::MenuRight,
    ]
}

/// The actions that must remain bound.
pub open spec fn required_actions_spec() -> Seq<Action> {
    seq![
        Action::MoveUp,
        Action::MoveDown,
        Action::MoveLeft,
        Action::MoveRight,
        Action::Fire,
        Action::Confirm,
        Action::Cancel,
    ]
}

/// The canonical default layout, one slot per action in declaration order.
pub open spec fn default_slots() -> Seq<Option<Binding>> {
    seq![
        Some(Binding::Keyboard(KeyCode::KeyW)),
        Some(Binding::Keyboard(KeyCode::KeyS)),
        Some(Binding::Keyboard(KeyCode::KeyA)),
        Some(Binding::Keyboard(KeyCode::KeyD)),
        Some(Binding::Keyboard(KeyCode::KeyI)),
        Some(Binding::Keyboard(KeyCode::KeyK)),
        Some(Binding::Keyboard(KeyCode::KeyJ)),
        Some(Binding::Keyboard(KeyCode::KeyL)),
        Some(Binding::Keyboard(KeyCode::Space)),
        Some(Binding::Keyboard(KeyCode::KeyQ)),
        Some(Binding::Keyboard(KeyCode::KeyE)),
        Some(Binding::Keyboard(KeyCode::Digit1)),
        Some(Binding::Keyboard(KeyCode::Digit2)),
        Some(Binding::Keyboard(KeyCode::Digit3)),
        Some(Binding::Keyboard(KeyCode::Digit4)),
        Some(Binding::Keyboard(KeyCode::Digit5)),
        Some(Binding::Keyboard(KeyCode::Escape)),
        Some(Binding::GamepadButton(7)),
        Some(Binding::Keyboard(KeyCode::Enter)),
        Some(Binding::Keyboard(KeyCode::Escape)),
        Some(Binding::Keyboard(KeyCode::ArrowUp)),
        Some(Binding::Keyboard(KeyCode::ArrowDown)),
        Some(Binding::Keyboard(KeyCode::ArrowLeft)),
        Some(Binding::Keyboard(KeyCode::ArrowRight)),
    ]
}

/// `i` is the first slot, other than `skip`, that holds `b`.
pub open spec fn first_holder_at(s: Seq<Option<Binding>>, skip: int, b: Binding, i: int) -> bool {
    &&& 0 <= i < s.len()
    &&& i != skip
    &&& s[i] == Some(b)
    &&& forall|j: int| 0 <= j < i && j != skip ==> s[j] != Some(b)
}

/// The first slot, other than `skip`, that holds `b`, if any.
pub open spec fn first_holder(s: Seq<Option<Binding>>, skip: int, b: Binding) -> Option<int> {
    if exists|i: int| first_holder_at(s, skip, b, i) {
        Some(choose|i: int| first_holder_at(s, skip, b, i))
    } else {
        None
    }
}

/// Effect of `set`: the new table and the action whose binding was taken.
pub open spec fn set_spec(s: Seq<Option<Binding>>, a: Action, b: Binding) -> (Seq<Option<Binding>>, Option<Action>) {
    let i = action_index(a);
    if s[i] == Some(b) {
        (s, None)
    } else {
        match first_holder(s, i, b) {
            Some(p) => (s.update(p, None).update(i, Some(b)), Some(action_at(p))),
            None => (s.update(i, Some(b)), None),
        }
    }
}

/// Effect of `clear`: the new table and whether a binding was removed.
pub open spec fn clear_spec(s: Seq<Option<Binding>>, a: Action) -> (Seq<Option<Binding>>, bool) {
    let i = action_index(a);
    if required_actions_spec().contains(a) {
        (s, false)
    } else {
        (s.update(i, None), s[i] is Some)
    }
}

/// Whether a (possibly absent) binding is currently active, given the held
/// keys and the held gamepad buttons.
pub open spec fn binding_active(o: Option<Binding>, keys: Seq<KeyCode>, pad: Seq<bool>) -> bool {
    match o {
        None => false,
        Some(Binding::Keyboard(k)) => keys.contains(k),
        Some(Binding::GamepadButton(i)) => (i as int) < pad.len() && pad[i as int],
        Some(Binding::MouseButton(_)) => false,
    }
}


/// The action that `action_for` reports for a binding.
pub open spec fn action_for_spec(s: Seq<Option<Binding>>, b: Binding) -> Option<Action> {
    match first_holder(s, -1, b) {
        Some(i) => Some(action_at(i)),
        None => None,
    }
}

proof fn lemma_some_first_holder(s: Seq<Option<Binding>>, skip: int, b: Binding, j: int)
    requires
        0 <= j < s.len(),
        j != skip,
        s[j] == Some(b),
    ensures
        exists|i: int| #[trigger] first_holder_at(s, skip, b, i),
    decreases j,
{
    if exists|m: int| 0 <= m < j && m != skip && s[m] == Some(b) {
        let m = choose|m: int| 0 <= m < j && m != skip && s[m] == Some(b);
        lemma_some_first_holder(s, skip, b, m);
    } else {
        assert(first_holder_at(s, skip, b, j));
    }
}

proof fn lemma_first_holder(s: Seq<Option<Binding>>, skip: int, b: Binding)
    ensures
        first_holder(s, skip, b) matches Some(i) ==> first_holder_at(s, skip, b, i),
        first_holder(s, skip, b) is None ==> forall|j: int|
            0 <= j < s.len() && j != skip ==> s[j] != Some(b),
{
    if first_holder(s, skip, b) is None {
        assert forall|j: int| 0 <= j < s.len() && j != skip implies s[j] != Some(b) by {
            if s[j] == Some(b) {
                lemma_some_first_holder(s, skip, b, j);
            }
        }
    }
}

/// After `set(a, b)`, `a` is bound to `b`.
pub proof fn law_set_binds(s: Seq<Option<Binding>>, a: Action, b: Binding)
    requires
        s.len() == 24,
    ensures
        set_spec(s, a, b).0[action_index(a)] == Some(b),
        set_spec(s, a, b).0.len() == 24,
{
    lemma_action_index(a);
    lemma_first_holder(s, action_index(a), b);
}

/// `set(a, b)` reports the action it took `b` from; that action held `b`
/// before, is not `a`, and is unbound afterwards.
pub proof fn law_set_takes_from_previous_owner(s: Seq<Option<Binding>>, a: Action, b: Binding)
    requires
        s.len() == 24,
    ensures
        set_spec(s, a, b).1 matches Some(p) ==> {
            &&& p != a
            &&& s[action_index(p)] == Some(b)
            &&& set_spec(s, a, b).0[action_index(p)] is None
        },
        set_spec(s, a, b).1 is None ==> forall|c: Action|
            c != a && #[trigger] s[action_index(c)] == Some(b) ==> s[action_index(a)] == Some(b),
{
    lemma_action_index(a);
    lemma_first_holder(s, action_index(a), b);
    if let Some(p) = set_spec(s, a, b).1 {
        let i = first_holder(s, action_index(a), b)->0;
        lemma_action_at(i);
    }
    assert forall|c: Action|
        c != a && #[trigger] s[action_index(c)] == Some(b) && set_spec(s, a, b).1 is None
        implies s[action_index(a)] == Some(b) by {
        lemma_action_index(c);
        lemma_action_index(a);
    }
}

/// `set(a, b)` leaves every action other than `a` and the reported previous
/// owner as it was.
pub proof fn law_set_keeps_others(s: Seq<Option<Binding>>, a: Action, b: Binding, c: Action)
    requires
        s.len() == 24,
        c != a,
        set_spec(s, a, b).1 != Some(c),
    ensures
        set_spec(s, a, b).0[action_index(c)] == s[action_index(c)],
{
    lemma_action_index(a);
    lemma_action_index(c);
    lemma_first_holder(s, action_index(a), b);
    if let Some(i) = first_holder(s, action_index(a), b) {
        lemma_action_at(i);
    }
}

/// Setting the same binding twice changes nothing the second time.
pub proof fn law_set_twice_is_set_once(s: Seq<Option<Binding>>, a: Action, b: Binding)
    requires
        s.len() == 24,
    ensures
        set_spec(set_spec(s, a, b).0, a, b) == (set_spec(s, a, b).0, None::<Action>),
{
    law_set_binds(s, a, b);
}

/// When no two actions shared `b`, after `set(a, b)` only `a` holds `b`.
pub proof fn law_set_keeps_binding_unique(s: Seq<Option<Binding>>, a: Action, b: Binding)
    requires
        s.len() == 24,
        forall|i: int, j: int| 0 <= i < 24 && 0 <= j < 24 && i != j && s[i] == Some(b) ==> s[j] != Some(b),
    ensures
        forall|c: Action| #[trigger] set_spec(s, a, b).0[action_index(c)] == Some(b) ==> c == a,
{
    lemma_action_index(a);
    lemma_first_holder(s, action_index(a), b);
    assert forall|c: Action| #[trigger] set_spec(s, a, b).0[action_index(c)] == Some(b) implies c == a by {
        lemma_action_index(c);
        if c != a {
            if let Some(i) = first_holder(s, action_index(a), b) {
                lemma_action_at(i);
            }
        }
    }
}

/// After `set(a, Keyboard(k))`, `a` is active exactly when `k` is held: the
/// key it had before no longer drives it.
pub proof fn law_remapped_key_alone_drives_action(
    s: Seq<Option<Binding>>,
    a: Action,
    k: KeyCode,
    keys: Seq<KeyCode>,
    pad: Seq<bool>,
)
    requires
        s.len() == 24,
    ensures
        binding_active(set_spec(s, a, Binding::Keyboard(k)).0[action_index(a)], keys, pad)
            == keys.contains(k),
{
    law_set_binds(s, a, Binding::Keyboard(k));
}

/// An unbound action is never active, whatever is held.
pub proof fn law_unbound_action_inactive(keys: Seq<KeyCode>, pad: Seq<bool>)
    ensures
        !binding_active(None, keys, pad),
{
}

/// Clearing a required action is rejected and changes nothing.
pub proof fn law_clear_rejects_required(s: Seq<Option<Binding>>, a: Action)
    requires
        required_actions_spec().contains(a),
    ensures
        clear_spec(s, a) == (s, false),
{
}

/// Clearing any other action unbinds it, reports whether it was bound, and
/// leaves the rest of the table alone.
pub proof fn law_clear_unbinds(s: Seq<Option<Binding>>, a: Action, c: Action)
    requires
        s.len() == 24,
        !required_actions_spec().contains(a),
    ensures
        clear_spec(s, a).0[action_index(a)] is None,
        clear_spec(s, a).1 == (s[action_index(a)] is Some),
        c != a ==> clear_spec(s, a).0[action_index(c)] == s[action_index(c)],
{
    lemma_action_index(a);
    lemma_action_index(c);
}

/// The default layout binds every action.
pub proof fn law_defaults_bind_every_action(a: Action)
    ensures
        default_slots()[action_index(a)] is Some,
        default_slots().len() == 24,
{
}

/// The action reported for a binding holds it; when none is reported, no
/// action holds it.
pub proof fn law_action_for_agrees_with_get(s: Seq<Option<Binding>>, b: Binding, a: Action)
    requires
        s.len() == 24,
    ensures
        action_for_spec(s, b) == Some(a) ==> s[action_index(a)] == Some(b),
        action_for_spec(s, b) is None ==> s[action_index(a)] != Some(b),
{
    lemma_action_index(a);
    lemma_first_holder(s, -1, b);
    if let Some(i) = first_holder(s, -1, b) {
        lemma_action_at(i);
    }
}

/// Authoritative binding table: one optional binding per action.
#[derive(Debug, Clone, Copy)]
pub struct KeyBindings {
    slots: [Option<Binding>; 24],
}

impl View for KeyBindings {
    type V = Seq<Option<Binding>>;

    closed spec fn view(&self) -> Seq<Option<Binding>> {
        self.slots@
    }
}

/// The table always has one slot per action.
pub broadcast proof fn lemma_slots_len(kb: KeyBindings)
    ensures
        #[trigger] kb@.len() == 24,
{
}

fn holds(slot: &Option<Binding>, b: &Binding) -> (r: bool)
    ensures
        r == (*slot == Some(*b)),
{
    match slot {
        Some(x) => *x == *b,
        None => false,
    }
}

fn contains_key(keys: &[KeyCode], k: KeyCode) -> (r: bool)
    ensures
        r == keys@.contains(k),
{
    let mut i: usize = 0;
    while i < keys.len()
        invariant
            i <= keys@.len(),
            forall|j: int| 0 <= j < i ==> keys@[j] != k,
        decreases keys@.len() - i,
    {
        if keys[i] == k {
            assert(keys@[i as int] == k);
            return true;
        }
        i = i + 1;
    }
    false
}

fn flag_at(flags: &[bool], i: u8) -> (r: bool)
    ensures
        r == ((i as int) < flags@.len() && flags@[i as int]),
{
    (i as usize) < flags.len() && flags[i as usize]
}

impl Default for KeyBindings {
    fn default() -> (r: Self)
        ensures
            r@ == default_slots(),
    {
        Self::defaults()
    }
}

impl KeyBindings {
    /// The table as seen by a reader: the binding of an action, if any.
    pub open spec fn spec_get(&self, a: Action) -> Option<Binding> {
        self@[action_index(a)]
    }

    /// Canonical default layout.
    pub fn defaults() -> (r: Self)
        ensures
            r@ == default_slots(),
    {
        let kb = KeyBindings {
            slots: [
            Some(Binding::Keyboard(KeyCode::KeyW)),
            Some(Binding::Keyboard(KeyCode::KeyS)),
            Some(Binding::Keyboard(KeyCode::KeyA)),
            Some(Binding::Keyboard(KeyCode::KeyD)),
            Some(Binding::Keyboard(KeyCode::KeyI)),
            Some(Binding::Keyboard(KeyCode::KeyK)),
            Some(Binding::Keyboard(KeyCode::KeyJ)),
            Some(Binding::Keyboard(KeyCode::KeyL)),
            Some(Binding::Keyboard(KeyCode::Space)),
            Some(Binding::Keyboard(KeyCode::KeyQ)),
            Some(Binding::Keyboard(KeyCode::KeyE)),
            Some(Binding::Keyboard(KeyCode::Digit1)),
            Some(Binding::Keyboard(KeyCode::Digit2)),
            Some(Binding::Keyboard(KeyCode::Digit3)),
            Some(Binding::Keyboard(KeyCode::Digit4)),
            Some(Binding::Keyboard(KeyCode::Digit5)),
            Some(Binding::Keyboard(KeyCode::Escape)),
            Some(Binding::GamepadButton(7)),
            Some(Binding::Keyboard(KeyCode::Enter)),
            Some(Binding::Keyboard(KeyCode::Escape)),
            Some(Binding::Keyboard(KeyCode::ArrowUp)),
            Some(Binding::Keyboard(KeyCode::ArrowDown)),
            Some(Binding::Keyboard(KeyCode::ArrowLeft)),
            Some(Binding::Keyboard(KeyCode::ArrowRight)),
        ],
        };
        assert(kb.slots@ =~= default_slots());
        kb
    }

    /// A table with every action unbound.
    pub fn empty() -> (r: Self)
        ensures
            forall|a: Action| r.spec_get(a) is None,
    {
        let kb = KeyBindings { slots: [None; 24] };
        assert forall|a: Action| kb.spec_get(a) is None by {
            lemma_action_index(a);
        }
        kb
    }

    /// Whether no action is bound.
    pub fn is_empty(&self) -> (r: bool)
        ensures
            r == (forall|a: Action| self.spec_get(a) is None),
    {
        let mut i: usize = 0;
        while i < 24
            invariant
                i <= 24,
                self@.len() == 24,
                forall|j: int| 0 <= j < i ==> self@[j] is None,
            decreases 24 - i,
        {
            if self.slots[i].is_some() {
                proof {
                    lemma_action_at(i as int);
                    assert(self.spec_get(action_at(i as int)) is Some);
                }
                return false;
            }
            i = i + 1;
        }
        assert forall|a: Action| self.spec_get(a) is None by {
            lemma_action_index(a);
        }
        true
    }

    /// The actions that must remain bound.
    pub fn required_actions() -> (r: &'static [Action])
        ensures
            r@ == required_actions_spec(),
    {
        let r: &'static [Action] = &[
            Action::MoveUp,
            Action::MoveDown,
            Action::MoveLeft,
            Action::MoveRight,
            Action::Fire,
            Action::Confirm,
            Action::Cancel,
        ];
        assert(r@ =~= required_actions_spec());
        r
    }

    /// All actions known to the system, in declaration order.
    pub fn all_actions() -> (r: &'static [Action])
        ensures
            r@ == all_actions_spec(),
    {
        let r: &'static [Action] = &[
            Action::MoveUp,
            Action::MoveDown,
            Action::MoveLeft,
            Action::MoveRight,
            Action::AimUp,
            Action::AimDown,
            Action::AimLeft,
            Action::AimRight,
            Action::Fire,
            Action::CycleAmmoPrev,
            Action::CycleAmmoNext,
            Action::SelectAmmo1,
            Action::SelectAmmo2,
            Action::SelectAmmo3,
            Action::SelectAmmo4,
            Action::SelectAmmo5,
            Action::Pause,
            Action::ActivateAbility,
            Action::Confirm,
            Action::Cancel,
            Action::MenuUp,
            Action::MenuDown,
            Action::MenuLeft,
            Action::MenuRight,
        ];
        assert(r@ =~= all_actions_spec());
        r
    }

    /// Resolve a binding, if any.
    pub fn get(&self, action: Action) -> (r: Option<Binding>)
        ensures
            r == self.spec_get(action),
    {
        self.slots[action.index()]
    }

    /// Store a binding (or none) in an action's slot as is, without taking it
    /// from another action. Used when a saved table is loaded.
    pub fn assign(&mut self, action: Action, binding: Option<Binding>)
        ensures
            final(self)@ == old(self)@.update(action_index(action), binding),
    {
        let i = action.index();
        self.slots[i] = binding;
    }

    /// Re-bind an action. If the new binding is already held by a different
    /// action, the first such action (in declaration order) loses it and is
    /// returned. If the binding is the action's own, nothing changes.
    pub fn set(&mut self, action: Action, binding: Binding) -> (r: Option<Action>)
        ensures
            (final(self)@, r) == set_spec(old(self)@, action, binding),
    {
        let i = action.index();
        if holds(&self.slots[i], &binding) {
            return None;
        }
        let ghost s = self@;
        let mut previous: Option<usize> = None;
        let mut j: usize = 0;
        while j < 24 && previous.is_none()
            invariant
                j <= 24,
                s == self@,
                s.len() == 24,
                i == action_index(action),
                previous is None ==> forall|k: int| 0 <= k < j && k != i ==> s[k] != Some(binding),
                previous matches Some(p) ==> first_holder_at(s, i as int, binding, p as int),
            decreases 24 - j,
        {
            if j != i && holds(&self.slots[j], &binding) {
                previous = Some(j);
            }
            j = j + 1;
        }
        match previous {
            Some(p) => {
                assert(first_holder(s, i as int, binding) == Some(p as int));
                self.slots[p] = None;
                self.slots[i] = Some(binding);
                proof {
                    lemma_action_at(p as int);
                }
                Some(action_at_exec(p))
            },
            None => {
                assert(!exists|k: int| #[trigger] first_holder_at(s, i as int, binding, k));
                self.slots[i] = Some(binding);
                None
            },
        }
    }

    /// Clear a binding. Rejected for required actions: returns `false` and
    /// leaves the table unchanged. Returns `true` if a binding was removed.
    pub fn clear(&mut self, action: Action) -> (r: bool)
        ensures
            (final(self)@, r) == clear_spec(old(self)@, action),
    {
        let required = Self::required_actions();
        let mut k: usize = 0;
        while k < required.len()
            invariant
                required@ == required_actions_spec(),
                k <= required@.len(),
                forall|j: int| 0 <= j < k ==> required@[j] != action,
            decreases required@.len() - k,
        {
            if required[k] == action {
                assert(required_actions_spec().contains(action));
                return false;
            }
            k = k + 1;
        }
        assert(!required_actions_spec().contains(action));
        let i = action.index();
        let was = self.slots[i].is_some();
        self.slots[i] = None;
        was
    }

    /// Bindings read from a save: a table with nothing bound (a save from
    /// before bindings were kept) becomes the default layout; any other
    /// table is kept exactly as it was saved.
    pub fn migrate(self) -> (r: Self)
        ensures
            (forall|a: Action| self.spec_get(a) is None) ==> r@ == default_slots(),
            !(forall|a: Action| self.spec_get(a) is None) ==> r@ == self@,
    {
        if self.is_empty() {
            Self::defaults()
        } else {
            self
        }
    }

    /// Restore the default layout, displacing any customization.
    pub fn reset_to_defaults(&mut self)
        ensures
            final(self)@ == default_slots(),
    {
        *self = Self::defaults();
    }

    /// The action currently bound to `binding`, if any; the first in
    /// declaration order when several share it.
    pub fn action_for(&self, binding: Binding) -> (r: Option<Action>)
        ensures
            r == action_for_spec(self@, binding),
    {
        let ghost s = self@;
        let mut j: usize = 0;
        while j < 24
            invariant
                j <= 24,
                s == self@,
                s.len() == 24,
                forall|k: int| 0 <= k < j ==> s[k] != Some(binding),
            decreases 24 - j,
        {
            if holds(&self.slots[j], &binding) {
                assert(first_holder_at(s, -1, binding, j as int));
                assert(first_holder(s, -1, binding) == Some(j as int));
                return Some(action_at_exec(j));
            }
            j = j + 1;
        }
        assert(!exists|k: int| #[trigger] first_holder_at(s, -1, binding, k));
        None
    }

    /// Whether the action is held, given the keys held this frame and the
    /// gamepad buttons held this frame. An unbound action is never active.
    pub fn pressed(&self, action: Action, keys_held: &[KeyCode], pad_held: &[bool]) -> (r: bool)
        ensures
            r == binding_active(self.spec_get(action), keys_held@, pad_held@),
    {
        match self.get(action) {
            None => false,
            Some(Binding::Keyboard(k)) => contains_key(keys_held, k),
            Some(Binding::GamepadButton(i)) => flag_at(pad_held, i),
            Some(Binding::MouseButton(_)) => false,
        }
    }

    /// Edge-triggered variant: keys and buttons that went down this frame.
    pub fn just_pressed(&self, action: Action, keys_down: &[KeyCode], pad_down: &[bool]) -> (r: bool)
        ensures
            r == binding_active(self.spec_get(action), keys_down@, pad_down@),
    {
        match self.get(action) {
            None => false,
            Some(Binding::Keyboard(k)) => contains_key(keys_down, k),
            Some(Binding::GamepadButton(i)) => flag_at(pad_down, i),
            Some(Binding::MouseButton(_)) => false,
        }
    }
}

/// The action at a position in declaration order.
fn action_at_exec(i: usize) -> (r: Action)
    requires
        i < 24,
    ensures
        r == action_at(i as int),
{
    let all = KeyBindings::all_actions();
    all[i]
}

/// Exactly movement, fire, confirm and cancel are required: clearing one of
/// them is refused and leaves the table as it was; any other action is
/// unbound by a clear.
pub proof fn law_required_are_movement_fire_confirm_cancel(s: Seq<Option<Binding>>, a: Action)
    requires
        s.len() == 24,
    ensures
        required_actions_spec().contains(a) <==> (a == Action::MoveUp || a == Action::MoveDown
            || a == Action::MoveLeft || a == Action::MoveRight || a == Action::Fire || a
            == Action::Confirm || a == Action::Cancel),
        (a == Action::MoveUp || a == Action::MoveDown || a == Action::MoveLeft || a
            == Action::MoveRight || a == Action::Fire || a == Action::Confirm || a == Action::Cancel)
            ==> clear_spec(s, a) == (s, false),
        !(a == Action::MoveUp || a == Action::MoveDown || a == Action::MoveLeft || a
            == Action::MoveRight || a == Action::Fire || a == Action::Confirm || a == Action::Cancel)
            ==> clear_spec(s, a).0[action_index(a)] is None,
{
    let r = required_actions_spec();
    assert(r[0] == Action::MoveUp);
    assert(r[1] == Action::MoveDown);
    assert(r[2] == Action::MoveLeft);
    assert(r[3] == Action::MoveRight);
    assert(r[4] == Action::Fire);
    assert(r[5] == Action::Confirm);
    assert(r[6] == Action::Cancel);
    lemma_action_index(a);
}

} // verus!
