//! Run-local doses of timed combat boosters.
//!
//! Up to three doses of each booster kind are carried; one kind is selected
//! at a time. Using the selected booster spends a dose unless none is left or
//! the same effect is still running.

use vstd::prelude::*;
use crate::collectibles::CollectibleType;

verus! {

/// The three booster kinds, in slot order.
#[derive(Clone, Copy, Debug, PartialEq, Eq, Structural)]
pub enum BoosterKind {
    Overclocker,
    Pyrolancea,
    XInstinct,
}

/// Slot of a booster kind.
pub open spec fn kind_index(k: BoosterKind) -> int {
    match k {
        BoosterKind::Overclocker => 0,
        BoosterKind::Pyrolancea => 1,
        BoosterKind::XInstinct => 2,
    }
}

/// Booster kind stored in a slot.
pub open spec fn kind_at(i: int) -> BoosterKind {
    if i == 0 {
        BoosterKind::Overclocker
    } else if i == 1 {
        BoosterKind::Pyrolancea
    } else {
        BoosterKind::XInstinct
    }
}

/// The booster a pickup turns into, if it is a booster pickup.
pub open spec fn from_pickup_spec(c: CollectibleType) -> Option<BoosterKind> {
    match c {
        CollectibleType::Overdrive => Some(BoosterKind::Overclocker),
        CollectibleType::DamageBoost => Some(BoosterKind::Pyrolancea),
        CollectibleType::Invulnerability => Some(BoosterKind::XInstinct),
        _ => None,
    }
}

/// The pickup a booster kind comes from.
pub open spec fn pickup_spec(k: BoosterKind) -> CollectibleType {
    match k {
        BoosterKind::Overclocker => CollectibleType::Overdrive,
        BoosterKind::Pyrolancea => CollectibleType::DamageBoost,
        BoosterKind::XInstinct => CollectibleType::Invulnerability,
    }
}

/// Display name of a booster kind.
pub open spec fn booster_name_spec(k: BoosterKind) -> Seq<char> {
    match k {
        BoosterKind::Overclocker => "OVERCLOCKER"@,
        BoosterKind::Pyrolancea => "PYROLANCEA"@,
        BoosterKind::XInstinct => "X-INSTINCT"@,
    }
}

/// One-line description of a booster kind's effect.
pub open spec fn booster_description_spec(k: BoosterKind) -> Seq<char> {
    match k {
        BoosterKind::Overclocker => "Speed x1.5 / 5s"@,
        BoosterKind::Pyrolancea => "Damage x2 / 10s"@,
        BoosterKind::XInstinct => "Invulnerable / 3s"@,
    }
}

impl BoosterKind {
    /// All kinds, in slot order.
    pub const ALL: [BoosterKind; 3] = [BoosterKind::Overclocker, BoosterKind::Pyrolancea, BoosterKind::XInstinct];

    /// Slot of this kind.
    pub fn index(self) -> (r: usize)
        ensures
            r == kind_index(self),
    {
        match self {
            BoosterKind::Overclocker => 0,
            BoosterKind::Pyrolancea => 1,
            BoosterKind::XInstinct => 2,
        }
    }

    /// Kind stored in a slot.
    pub fn at(i: usize) -> (r: BoosterKind)
        requires
            i < 3,
        ensures
            r == kind_at(i as int),
    {
        if i == 0 {
            BoosterKind::Overclocker
        } else if i == 1 {
            BoosterKind::Pyrolancea
        } else {
            BoosterKind::XInstinct
        }
    }

    /// The booster a pickup turns into, if any.
    pub fn from_pickup(kind: CollectibleType) -> (r: Option<Self>)
        ensures
            r == from_pickup_spec(kind),
    {
        match kind {
            CollectibleType::Overdrive => Some(Self::Overclocker),
            CollectibleType::DamageBoost => Some(Self::Pyrolancea),
            CollectibleType::Invulnerability => Some(Self::XInstinct),
            _ => None,
        }
    }

    /// The pickup this booster comes from.
    pub fn pickup(self) -> (r: CollectibleType)
        ensures
            r == pickup_spec(self),
    {
        match self {
            Self::Overclocker => CollectibleType::Overdrive,
            Self::Pyrolancea => CollectibleType::DamageBoost,
            Self::XInstinct => CollectibleType::Invulnerability,
        }
    }

    /// Display name.
    pub fn name(self) -> (r: &'static str)
        ensures
            r@ == booster_name_spec(self),
    {
        match self {
            Self::Overclocker => "OVERCLOCKER",
            Self::Pyrolancea => "PYROLANCEA",
            Self::XInstinct => "X-INSTINCT",
        }
    }

    /// One-line description of the effect.
    pub fn description(self) -> (r: &'static str)
        ensures
            r@ == booster_description_spec(self),
    {
        match self {
            Self::Overclocker => "Speed x1.5 / 5s",
            Self::Pyrolancea => "Damage x2 / 10s",
            Self::XInstinct => "Invulnerable / 3s",
        }
    }
}

/// Doses carried per booster kind.
pub const CAPACITY_PER_KIND: u8 = 3;

/// What a booster inventory holds: doses per slot and the selected slot.
pub struct BoosterState {
    pub counts: Seq<int>,
    pub selected: int,
}

impl BoosterState {
    /// Three slots, each within capacity, and a valid selection.
    pub open spec fn wf(self) -> bool {
        &&& self.counts.len() == 3
        &&& forall|i: int| 0 <= i < 3 ==> 0 <= #[trigger] self.counts[i] <= CAPACITY_PER_KIND
        &&& 0 <= self.selected < 3
    }

    pub open spec fn count_of(self, k: BoosterKind) -> int {
        self.counts[kind_index(k)]
    }

    pub open spec fn is_empty(self) -> bool {
        forall|i: int| 0 <= i < 3 ==> #[trigger] self.counts[i] == 0
    }
}

/// Effect of `store`: the new state and whether the dose was taken.
pub open spec fn store_spec(s: BoosterState, k: BoosterKind) -> (BoosterState, bool) {
    let i = kind_index(k);
    if s.counts[i] >= CAPACITY_PER_KIND {
        (s, false)
    } else {
        (BoosterState {
            counts: s.counts.update(i, s.counts[i] + 1),
            selected: if s.is_empty() { i } else { s.selected },
        }, true)
    }
}

/// Slot reached from `sel` after `offset` steps in the given direction.
pub open spec fn step_slot(sel: int, offset: int, forward: bool) -> int {
    if forward {
        (sel + offset) % 3
    } else {
        (sel + 3 - offset) % 3
    }
}

/// Slot selected by `cycle`: the first occupied slot one, two or three steps
/// away (three steps is the current slot); unchanged when all are empty.
pub open spec fn cycle_target(s: BoosterState, forward: bool) -> int {
    if s.counts[step_slot(s.selected, 1, forward)] > 0 {
        step_slot(s.selected, 1, forward)
    } else if s.counts[step_slot(s.selected, 2, forward)] > 0 {
        step_slot(s.selected, 2, forward)
    } else if s.counts[step_slot(s.selected, 3, forward)] > 0 {
        step_slot(s.selected, 3, forward)
    } else {
        s.selected
    }
}

/// Effect of `use_selected` when `active` says whether the selected effect
/// is still running: the new state and the booster spent, if any.
pub open spec fn use_spec(s: BoosterState, active: bool) -> (BoosterState, Option<BoosterKind>) {
    if s.counts[s.selected] == 0 || active {
        (s, None)
    } else {
        (BoosterState {
            counts: s.counts.update(s.selected, s.counts[s.selected] - 1),
            selected: s.selected,
        }, Some(kind_at(s.selected)))
    }
}


/// A booster and its pickup correspond one to one.
pub proof fn law_pickup_round_trip(k: BoosterKind, c: CollectibleType)
    ensures
        from_pickup_spec(pickup_spec(k)) == Some(k),
        from_pickup_spec(c) == Some(k) ==> pickup_spec(k) == c,
{
}

/// Storing never exceeds the capacity of a kind; it succeeds exactly when
/// the kind is below capacity, and then adds one dose of that kind only.
pub proof fn law_store_respects_capacity(s: BoosterState, k: BoosterKind, other: BoosterKind)
    requires
        s.wf(),
    ensures
        store_spec(s, k).0.wf(),
        store_spec(s, k).1 == (s.count_of(k) < CAPACITY_PER_KIND),
        store_spec(s, k).1 ==> store_spec(s, k).0.count_of(k) == s.count_of(k) + 1,
        !store_spec(s, k).1 ==> store_spec(s, k).0 == s,
        other != k ==> store_spec(s, k).0.count_of(other) == s.count_of(other),
{
}

/// The first dose stored into an empty inventory becomes the selection.
pub proof fn law_first_store_selects(s: BoosterState, k: BoosterKind)
    requires
        s.wf(),
        s.is_empty(),
    ensures
        store_spec(s, k).1,
        kind_at(store_spec(s, k).0.selected) == k,
{
    assert(s.counts[kind_index(k)] == 0);
}

/// Cycling keeps the doses, and lands on an occupied slot whenever any dose
/// is carried.
pub proof fn law_cycle_lands_on_occupied(s: BoosterState, forward: bool)
    requires
        s.wf(),
        !s.is_empty(),
    ensures
        0 <= cycle_target(s, forward) < 3,
        s.counts[cycle_target(s, forward)] > 0,
{
    let i = choose|i: int| 0 <= i < 3 && #[trigger] s.counts[i] != 0;
    assert(s.counts[0] > 0 || s.counts[1] > 0 || s.counts[2] > 0);
}

/// A running effect is never refreshed or stacked: nothing is spent.
pub proof fn law_use_while_active_spends_nothing(s: BoosterState)
    ensures
        use_spec(s, true) == (s, None::<BoosterKind>),
{
}

/// Using spends exactly one dose of the selected kind and keeps the
/// inventory valid; an empty selected slot spends nothing.
pub proof fn law_use_spends_one_selected_dose(s: BoosterState, other: BoosterKind)
    requires
        s.wf(),
    ensures
        use_spec(s, false).0.wf(),
        use_spec(s, false).1 == (if s.counts[s.selected] > 0 { Some(kind_at(s.selected)) } else { None }),
        use_spec(s, false).1 is Some ==> use_spec(s, false).0.counts[s.selected] == s.counts[s.selected] - 1,
        kind_index(other) != s.selected ==> use_spec(s, false).0.count_of(other) == s.count_of(other),
{
}

/// Storing a dose and then using it (with the effect idle) returns the
/// inventory's doses to where they were, when the stored kind was selected.
pub proof fn law_store_then_use_restores_counts(s: BoosterState, k: BoosterKind)
    requires
        s.wf(),
        s.count_of(k) < CAPACITY_PER_KIND,
        kind_at(s.selected) == k,
    ensures
        use_spec(store_spec(s, k).0, false).1 == Some(k),
        use_spec(store_spec(s, k).0, false).0.counts =~= s.counts,
{
    assert(kind_index(kind_at(s.selected)) == s.selected);
    if s.is_empty() {
        assert(kind_index(k) == s.selected);
    }
}

/// Booster doses carried through a run. Not saved to disk.
#[derive(Clone, Copy, Debug)]
pub struct BoosterInventory {
    counts: [u8; 3],
    selected: usize,
}

impl View for BoosterInventory {
    type V = BoosterState;

    closed spec fn view(&self) -> BoosterState {
        BoosterState {
            counts: Seq::new(3, |i: int| self.counts@[i] as int),
            selected: self.selected as int,
        }
    }
}

impl BoosterInventory {
    #[verifier::type_invariant]
    closed spec fn inv(self) -> bool {
        &&& self.selected < 3
        &&& forall|i: int| 0 <= i < 3 ==> #[trigger] self.counts@[i] <= CAPACITY_PER_KIND
    }

    proof fn lemma_view_wf(&self)
        requires
            self.inv(),
        ensures
            self@.wf(),
    {
    }

    /// Doses carried of a kind.
    pub fn count(&self, kind: BoosterKind) -> (r: u8)
        ensures
            r == self@.count_of(kind),
            self@.wf(),
    {
        proof {
            use_type_invariant(self);
            self.lemma_view_wf();
        }
        self.counts[kind.index()]
    }

    /// The selected kind.
    pub fn selected(&self) -> (r: BoosterKind)
        ensures
            r == kind_at(self@.selected),
            self@.wf(),
    {
        proof {
            use_type_invariant(self);
            self.lemma_view_wf();
        }
        BoosterKind::at(self.selected)
    }

    /// Whether no dose of any kind is carried.
    pub fn is_empty(&self) -> (r: bool)
        ensures
            r == self@.is_empty(),
    {
        let r = self.counts[0] == 0 && self.counts[1] == 0 && self.counts[2] == 0;
        proof {
            if !r {
                if self.counts[0] != 0 {
                    assert(self@.counts[0] != 0);
                } else if self.counts[1] != 0 {
                    assert(self@.counts[1] != 0);
                } else {
                    assert(self@.counts[2] != 0);
                }
            }
        }
        r
    }

    /// Take one dose of a kind. Returns `false` when that kind is already at
    /// capacity, so the pickup stays in space. The first dose carried becomes
    /// the selection.
    pub fn store(&mut self, kind: BoosterKind) -> (r: bool)
        ensures
            old(self)@.wf(),
            (final(self)@, r) == store_spec(old(self)@, kind),
            final(self)@.wf(),
    {
        proof {
            use_type_invariant(&*self);
            self.lemma_view_wf();
        }
        let index = kind.index();
        if self.counts[index] >= CAPACITY_PER_KIND {
            return false;
        }
        let ghost s = self@;
        if self.is_empty() {
            self.selected = index;
        }
        self.counts[index] = self.counts[index] + 1;
        proof {
            use_type_invariant(&*self);
            self.lemma_view_wf();
            assert(self@.counts =~= store_spec(s, kind).0.counts);
        }
        true
    }

    /// Select the next occupied slot, wrapping in either direction.
    pub fn cycle(&mut self, forward: bool)
        ensures
            old(self)@.wf(),
            final(self)@ == (BoosterState { counts: old(self)@.counts, selected: cycle_target(old(self)@, forward) }),
            final(self)@.wf(),
    {
        proof {
            use_type_invariant(&*self);
            self.lemma_view_wf();
        }
        let ghost s = self@;
        let len: usize = 3;
        let mut offset: usize = 1;
        let mut done = false;
        while offset <= len && !done
            invariant
                1 <= offset <= 4,
                len == 3,
                s.wf(),
                self@.counts == s.counts,
                self.selected < 3,
                forall|i: int| 0 <= i < 3 ==> #[trigger] self.counts@[i] <= CAPACITY_PER_KIND,
                done ==> self@.selected == cycle_target(s, forward),
                !done ==> self@.selected == s.selected,
                !done ==> forall|o: int| 1 <= o < offset ==> s.counts[step_slot(s.selected, o, forward)] == 0,
            decreases 4 - offset,
        {
            let index = if forward {
                (self.selected + offset) % len
            } else {
                (self.selected + len - offset) % len
            };
            if self.counts[index] > 0 {
                self.selected = index;
                done = true;
            }
            offset = offset + 1;
        }
        proof {
            use_type_invariant(&*self);
            self.lemma_view_wf();
        }
    }

    /// Spend a dose of the selected kind. Nothing is spent when the slot is
    /// empty or when `effect_active` says the selected effect is still
    /// running (effects never stack or refresh).
    pub fn use_selected(&mut self, effect_active: bool) -> (r: Option<BoosterKind>)
        ensures
            old(self)@.wf(),
            (final(self)@, r) == use_spec(old(self)@, effect_active),
            final(self)@.wf(),
    {
        proof {
            use_type_invariant(&*self);
            self.lemma_view_wf();
        }
        let ghost s = self@;
        let kind = self.selected();
        if self.count(kind) == 0 || effect_active {
            return None;
        }
        let i = self.selected;
        self.counts[i] = self.counts[i] - 1;
        proof {
            use_type_invariant(&*self);
            self.lemma_view_wf();
            assert(self@.counts =~= use_spec(s, effect_active).0.counts);
        }
        Some(kind)
    }
}

impl Default for BoosterInventory {
    fn default() -> (r: Self)
        ensures
            r@.selected == 0,
            r@.is_empty(),
            r@.wf(),
    {
        let r = BoosterInventory { counts: [0, 0, 0], selected: 0 };
        proof {
            r.lemma_view_wf();
        }
        r
    }
}

/// Cycling backward steps down through the slots (the one below the
/// selection, then the one below that, wrapping from the first slot to the
/// last) and stops at the first that holds a dose; cycling forward steps up
/// the same way. With no dose anywhere the selection stays.
pub proof fn law_cycle_direction(s: BoosterState)
    requires
        s.wf(),
    ensures
        s.counts[if s.selected == 0 { 2 } else { s.selected - 1 }] > 0
            ==> cycle_target(s, false) == if s.selected == 0 { 2 } else { s.selected - 1 },
        s.counts[if s.selected == 0 { 2 } else { s.selected - 1 }] == 0 && s.counts[if s.selected
            == 2 { 0 } else { s.selected + 1 }] > 0 ==> cycle_target(s, false) == if s.selected == 2 {
            0
        } else {
            s.selected + 1
        },
        s.counts[if s.selected == 2 { 0 } else { s.selected + 1 }] > 0
            ==> cycle_target(s, true) == if s.selected == 2 { 0 } else { s.selected + 1 },
        s.counts[if s.selected == 2 { 0 } else { s.selected + 1 }] == 0 && s.counts[if s.selected
            == 0 { 2 } else { s.selected - 1 }] > 0 ==> cycle_target(s, true) == if s.selected == 0 {
            2
        } else {
            s.selected - 1
        },
        s.is_empty() ==> cycle_target(s, true) == s.selected && cycle_target(s, false) == s.selected,
{
}

/// Cycling forward and then backward returns to the starting slot when the
/// slot above it holds a dose and so does the starting slot itself.
pub proof fn law_cycle_forward_then_back(s: BoosterState)
    requires
        s.wf(),
        s.counts[s.selected] > 0,
        s.counts[if s.selected == 2 { 0 } else { s.selected + 1 }] > 0,
    ensures
        cycle_target(BoosterState { counts: s.counts, selected: cycle_target(s, true) }, false)
            == s.selected,
{
}

} // verus!
