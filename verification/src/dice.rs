//! Dice types, rolling mechanics, and the die upgrade system.
//!
//! A `Die` has a fixed set of faces (the values it can show) and tracks its
//! current value and held state. `DicePool` owns the active dice for a room
//! and controls the roll/hold flow.

use vstd::prelude::*;
use rand::rngs::ThreadRng;

use crate::random::{random_in_range, thread_rng};
use crate::text::{decimal, decimal_string};

verus! {

/// Sentinel value a face carries when it is a Wild face.
pub const WILD: u8 = 0;

// ─── DieFace ──────────────────────────────────────────────────────────────────

/// One face of a die: its value and an optional enchantment bonus.
#[derive(Debug, Clone, Copy)]
pub struct DieFace {
    value: u8,
    enchant: Option<usize>,
}

impl DieFace {
    /// The value the face shows (`WILD` for a Wild face).
    pub closed spec fn val(self) -> u8 {
        self.value
    }

    /// The enchantment bonus carried by the face, if any.
    pub closed spec fn bonus(self) -> Option<usize> {
        self.enchant
    }

    fn new(value: u8) -> (f: Self)
        ensures
            f.val() == value,
            f.bonus() == None::<usize>,
    {
        Self { value, enchant: None }
    }

    pub fn get_value(&self) -> (v: u8)
        ensures
            v == self.val(),
    {
        self.value
    }
}

/// The values of a sequence of faces.
pub open spec fn values_of(faces: Seq<DieFace>) -> Seq<u8> {
    faces.map_values(|f: DieFace| f.val())
}

/// No face of the sequence carries an enchantment.
pub open spec fn unenchanted(faces: Seq<DieFace>) -> bool {
    forall|i: int| 0 <= i < faces.len() ==> (#[trigger] faces[i]).bonus() == None::<usize>
}

// ─── DieType ──────────────────────────────────────────────────────────────────

/// Which face set a die was built with and which special rules it follows.
#[derive(Debug, Clone, Copy, PartialEq, Eq, Structural)]
pub enum DieType {
    /// Faces 1 to 6.
    Standard,
    /// Faces 1 to 5 and a Wild face that counts as any value when scoring.
    Wild,
    /// Faces 1, 1, 1, 2, 5, 6.
    Cursed,
    /// Faces 1 to 8; values above 6 count as 6 for scoring.
    Bones,
}

// ─── DieUpgrade ───────────────────────────────────────────────────────────────

/// A campfire or shop upgrade applied to one die.
#[derive(Debug, Clone)]
pub enum DieUpgrade {
    /// Replace the lowest face with a copy of the highest face.
    Reface,
    /// The face at `face_index` adds `bonus_score` to the room score whenever
    /// the die shows it.
    Enchant { face_index: usize, bonus_score: usize },
    /// Add 1 to the face at `face_index`.
    Augment { face_index: usize },
}

// ─── Reface indices ───────────────────────────────────────────────────────────

/// `i` is the first face among the first `n` whose value is the highest
/// non-wild value among them.
pub open spec fn is_high_index(faces: Seq<DieFace>, n: int, i: int) -> bool {
    &&& 0 <= i < n <= faces.len()
    &&& faces[i].val() != WILD
    &&& forall|j: int| 0 <= j < n && faces[j].val() != WILD ==> faces[j].val() <= faces[i].val()
    &&& forall|j: int| 0 <= j < i && faces[j].val() != WILD ==> faces[j].val() < faces[i].val()
}

/// `i` is the first face among the first `n` whose value is the lowest
/// non-wild value below `u8::MAX` among them.
pub open spec fn is_low_index(faces: Seq<DieFace>, n: int, i: int) -> bool {
    &&& 0 <= i < n <= faces.len()
    &&& faces[i].val() != WILD
    &&& faces[i].val() < u8::MAX
    &&& forall|j: int| 0 <= j < n && faces[j].val() != WILD ==> faces[i].val() <= faces[j].val()
    &&& forall|j: int| 0 <= j < i && faces[j].val() != WILD ==> faces[i].val() < faces[j].val()
}

/// The face that Reface copies: the first face with the highest non-wild
/// value, or the first face when every face is wild.
pub open spec fn high_index(faces: Seq<DieFace>) -> int {
    if exists|i: int| is_high_index(faces, faces.len() as int, i) {
        choose|i: int| is_high_index(faces, faces.len() as int, i)
    } else {
        0
    }
}

/// The face that Reface overwrites: the first face with the lowest non-wild
/// value below `u8::MAX`, or the first face when there is none.
pub open spec fn low_index(faces: Seq<DieFace>) -> int {
    if exists|i: int| is_low_index(faces, faces.len() as int, i) {
        choose|i: int| is_low_index(faces, faces.len() as int, i)
    } else {
        0
    }
}

proof fn lemma_high_index_unique(faces: Seq<DieFace>, n: int, i: int, k: int)
    requires
        is_high_index(faces, n, i),
        is_high_index(faces, n, k),
    ensures
        i == k,
{
}

proof fn lemma_low_index_unique(faces: Seq<DieFace>, n: int, i: int, k: int)
    requires
        is_low_index(faces, n, i),
        is_low_index(faces, n, k),
    ensures
        i == k,
{
}

// ─── Die ──────────────────────────────────────────────────────────────────────

#[derive(Debug, Clone)]
pub struct Die {
    die_type: DieType,
    faces: Vec<DieFace>,
    pub current_value: DieFace,
    pub held: bool,
    pub selected: bool,
}

/// The label shown for each kind of die.
pub open spec fn label_text(kind: DieType) -> Seq<char> {
    match kind {
        DieType::Standard => "D6"@,
        DieType::Wild => "W6"@,
        DieType::Cursed => "C6"@,
        DieType::Bones => "D8"@,
    }
}

impl Die {
    /// The kind of die.
    pub closed spec fn kind(self) -> DieType {
        self.die_type
    }

    /// The faces of the die, in order.
    pub closed spec fn faces_view(self) -> Seq<DieFace> {
        self.faces@
    }

    /// The face the die currently shows.
    pub closed spec fn shown(self) -> DieFace {
        self.current_value
    }

    /// Whether the die is held (kept out of the next roll).
    pub closed spec fn is_held(self) -> bool {
        self.held
    }

    /// Whether the die is under the selection cursor.
    pub closed spec fn is_selected(self) -> bool {
        self.selected
    }

    /// A die is well formed when it has at least one face.
    pub open spec fn wf(self) -> bool {
        self.faces_view().len() > 0
    }

    /// The same die with its held flag set to `h`.
    pub closed spec fn with_held(self, h: bool) -> Die {
        Die { held: h, ..self }
    }

    /// The same die with its selected flag set to `s`.
    pub closed spec fn with_selected(self, s: bool) -> Die {
        Die { selected: s, ..self }
    }

    /// `self` is what rolling `before` can give: the same die showing one of
    /// its faces.
    pub closed spec fn is_roll_of(self, before: Die) -> bool {
        &&& self.die_type == before.die_type
        &&& self.faces == before.faces
        &&& self.held == before.held
        &&& self.selected == before.selected
        &&& exists|k: int| 0 <= k < before.faces@.len() && self.current_value == before.faces@[k]
    }

    /// A fresh die of the given kind with the given face values: no
    /// enchantment, showing a plain 1, neither held nor selected.
    pub open spec fn is_fresh(self, kind: DieType, values: Seq<u8>) -> bool {
        &&& self.kind() == kind
        &&& values_of(self.faces_view()) == values
        &&& unenchanted(self.faces_view())
        &&& self.shown().val() == 1
        &&& self.shown().bonus() == None::<usize>
        &&& !self.is_held()
        &&& !self.is_selected()
    }

    // ── Constructors ──────────────────────────────────────────────────────────

    fn build(die_type: DieType, values: &[u8]) -> (d: Self)
        ensures
            d.is_fresh(die_type, values@),
    {
        let mut faces: Vec<DieFace> = Vec::new();
        let mut i: usize = 0;
        while i < values.len()
            invariant
                i <= values@.len(),
                faces@.len() == i,
                values_of(faces@) == values@.take(i as int),
                unenchanted(faces@),
            decreases values@.len() - i,
        {
            faces.push(DieFace::new(values[i]));
            i = i + 1;
            assert(values_of(faces@) =~= values@.take(i as int));
        }
        assert(values@.take(values@.len() as int) =~= values@);
        Die { die_type, faces, current_value: DieFace::new(1), held: false, selected: false }
    }

    pub fn standard() -> (d: Self)
        ensures
            d.is_fresh(DieType::Standard, seq![1u8, 2, 3, 4, 5, 6]),
    {
        let values: [u8; 6] = [1, 2, 3, 4, 5, 6];
        let d = Self::build(DieType::Standard, &values);
        assert(values@ =~= seq![1u8, 2, 3, 4, 5, 6]);
        d
    }

    pub fn wild() -> (d: Self)
        ensures
            d.is_fresh(DieType::Wild, seq![1u8, 2, 3, 4, 5, WILD]),
    {
        let values: [u8; 6] = [1, 2, 3, 4, 5, WILD];
        let d = Self::build(DieType::Wild, &values);
        assert(values@ =~= seq![1u8, 2, 3, 4, 5, WILD]);
        d
    }

    pub fn cursed() -> (d: Self)
        ensures
            d.is_fresh(DieType::Cursed, seq![1u8, 1, 1, 2, 5, 6]),
    {
        let values: [u8; 6] = [1, 1, 1, 2, 5, 6];
        let d = Self::build(DieType::Cursed, &values);
        assert(values@ =~= seq![1u8, 1, 1, 2, 5, 6]);
        d
    }

    pub fn bones() -> (d: Self)
        ensures
            d.is_fresh(DieType::Bones, seq![1u8, 2, 3, 4, 5, 6, 7, 8]),
    {
        let values: [u8; 8] = [1, 2, 3, 4, 5, 6, 7, 8];
        let d = Self::build(DieType::Bones, &values);
        assert(values@ =~= seq![1u8, 2, 3, 4, 5, 6, 7, 8]);
        d
    }

    /// The face the die currently shows.
    pub fn shown_face(&self) -> (f: DieFace)
        ensures
            f == self.shown(),
    {
        self.current_value
    }

    /// The faces of the die, in order.
    pub fn faces(&self) -> (r: &[DieFace])
        ensures
            r@ == self.faces_view(),
    {
        self.faces.as_slice()
    }

    // ── Upgrades ──────────────────────────────────────────────────────────────

    /// Whether `upgrade` can be applied: Reface always, Enchant and Augment
    /// only with a face index inside the die.
    pub open spec fn upgrade_applies(self, upgrade: DieUpgrade) -> bool {
        match upgrade {
            DieUpgrade::Reface => true,
            DieUpgrade::Enchant { face_index, .. } => face_index < self.faces_view().len(),
            DieUpgrade::Augment { face_index } => face_index < self.faces_view().len(),
        }
    }

    /// What an upgrade that took made of the faces: Reface copies the
    /// highest face over the lowest; Enchant gives the face its bonus; Augment
    /// adds 1 to the face's value. Every other face stays as it was.
    pub open spec fn upgrade_effect(self, after: Die, upgrade: DieUpgrade) -> bool {
        &&& after.faces_view().len() == self.faces_view().len()
        &&& match upgrade {
            DieUpgrade::Reface => after.faces_view() == self.faces_view().update(
                low_index(self.faces_view()),
                self.faces_view()[high_index(self.faces_view())],
            ),
            DieUpgrade::Enchant { face_index, bonus_score } => {
                &&& forall|j: int|
                    0 <= j < self.faces_view().len() && j != face_index ==> (
                    #[trigger] after.faces_view()[j]) == self.faces_view()[j]
                &&& after.faces_view()[face_index as int].val() == self.faces_view()[face_index as int].val()
                &&& after.faces_view()[face_index as int].bonus() == Some(bonus_score)
            },
            DieUpgrade::Augment { face_index } => {
                &&& forall|j: int|
                    0 <= j < self.faces_view().len() && j != face_index ==> (
                    #[trigger] after.faces_view()[j]) == self.faces_view()[j]
                &&& after.faces_view()[face_index as int].val() == self.faces_view()[face_index as int].val() + 1
                &&& after.faces_view()[face_index as int].bonus() == self.faces_view()[face_index as int].bonus()
            },
        }
    }

    /// Apply a campfire upgrade to this die. Returns false, leaving the die
    /// unchanged, when the upgrade cannot be applied (a face index out of
    /// bounds).
    pub fn upgrade(&mut self, upgrade: DieUpgrade) -> (applied: bool)
        requires
            old(self).wf(),
            match upgrade {
                DieUpgrade::Augment { face_index } => face_index < old(self).faces_view().len()
                    ==> old(self).faces_view()[face_index as int].val() < u8::MAX,
                _ => true,
            },
        ensures
            applied == old(self).upgrade_applies(upgrade),
            !applied ==> *final(self) == *old(self),
            final(self).wf(),
            final(self).kind() == old(self).kind(),
            final(self).shown() == old(self).shown(),
            final(self).is_held() == old(self).is_held(),
            final(self).is_selected() == old(self).is_selected(),
            final(self).faces_view().len() == old(self).faces_view().len(),
            applied ==> old(self).upgrade_effect(*final(self), upgrade),
    {
        match upgrade {
            DieUpgrade::Reface => {
                let ghost faces = self.faces@;
                let mut max: u8 = u8::MIN;
                let mut min: u8 = u8::MAX;
                let mut max_index: usize = 0;
                let mut min_index: usize = 0;
                let mut index: usize = 0;
                while index < self.faces.len()
                    invariant
                        self.faces@ == faces,
                        faces.len() > 0,
                        0 <= index <= faces.len(),
                        max_index < faces.len(),
                        min_index < faces.len(),
                        max == 0 ==> max_index == 0,
                        max == 0 ==> forall|j: int|
                            0 <= j < index ==> (#[trigger] faces[j]).val() == WILD,
                        max != 0 ==> is_high_index(faces, index as int, max_index as int),
                        max != 0 ==> max == faces[max_index as int].val(),
                        min == u8::MAX ==> min_index == 0,
                        min == u8::MAX ==> forall|j: int|
                            0 <= j < index && (#[trigger] faces[j]).val() != WILD ==> faces[j].val()
                                == u8::MAX,
                        min != u8::MAX ==> is_low_index(faces, index as int, min_index as int),
                        min != u8::MAX ==> min == faces[min_index as int].val(),
                    decreases faces.len() - index,
                {
                    let v = self.faces[index].value;
                    if v != WILD && v > max {
                        max_index = index;
                        max = v;
                    }
                    if v != WILD && v < min {
                        min_index = index;
                        min = v;
                    }
                    index = index + 1;
                }
                proof {
                    let n = faces.len() as int;
                    if exists|i: int| is_high_index(faces, n, i) {
                        let c = choose|i: int| is_high_index(faces, n, i);
                        if max == 0 {
                            assert(faces[c].val() == WILD);
                        } else {
                            lemma_high_index_unique(faces, n, c, max_index as int);
                        }
                    } else if max != 0 {
                        assert(is_high_index(faces, n, max_index as int));
                    }
                    if exists|i: int| is_low_index(faces, n, i) {
                        let c = choose|i: int| is_low_index(faces, n, i);
                        if min == u8::MAX {
                            assert(faces[c].val() == u8::MAX);
                        } else {
                            lemma_low_index_unique(faces, n, c, min_index as int);
                        }
                    } else if min != u8::MAX {
                        assert(is_low_index(faces, n, min_index as int));
                    }
                }
                let top = self.faces[max_index];
                self.faces.set(min_index, top);
                true
            },
            DieUpgrade::Enchant { face_index, bonus_score } => {
                if face_index >= self.faces.len() {
                    false
                } else {
                    let mut face = self.faces[face_index];
                    face.enchant = Some(bonus_score);
                    self.faces.set(face_index, face);
                    true
                }
            },
            DieUpgrade::Augment { face_index } => {
                if face_index >= self.faces.len() {
                    false
                } else {
                    let mut face = self.faces[face_index];
                    face.value = face.value + 1;
                    self.faces.set(face_index, face);
                    true
                }
            },
        }
    }

    // ── Rolling ───────────────────────────────────────────────────────────────

    /// Roll this die: show a face picked at random and return it.
    pub fn roll(&mut self, rng: &mut ThreadRng) -> (face: DieFace)
        requires
            old(self).wf(),
        ensures
            final(self).is_roll_of(*old(self)),
            face == final(self).shown(),
    {
        let idx = random_in_range(rng, 0, self.faces.len());
        self.show_face(idx)
    }

    /// Show face `idx` of the die and return it; nothing else changes.
    pub fn show_face(&mut self, idx: usize) -> (face: DieFace)
        requires
            idx < old(self).faces_view().len(),
        ensures
            face == old(self).faces_view()[idx as int],
            final(self).shown() == face,
            final(self).kind() == old(self).kind(),
            final(self).faces_view() == old(self).faces_view(),
            final(self).is_held() == old(self).is_held(),
            final(self).is_selected() == old(self).is_selected(),
            final(self).is_roll_of(*old(self)),
    {
        self.current_value = self.faces[idx];
        self.faces[idx]
    }

    // ── Hold / state ──────────────────────────────────────────────────────────

    fn toggle_hold(&mut self)
        ensures
            *final(self) == old(self).with_held(!old(self).is_held()),
    {
        self.held = !self.held
    }

    /// True when the die is currently showing a Wild face.
    fn is_wild(&self) -> (r: bool)
        ensures
            r == (self.shown().val() == WILD),
    {
        self.current_value.value == WILD
    }

    /// Whether the die is held.
    pub fn held_flag(&self) -> (b: bool)
        ensures
            b == self.is_held(),
    {
        self.held
    }

    /// Whether the die is under the selection cursor.
    pub fn selected_flag(&self) -> (b: bool)
        ensures
            b == self.is_selected(),
    {
        self.selected
    }

    /// Display string for the die: "W" for a Wild face, else the number.
    pub fn display_value(&self) -> (s: String)
        ensures
            s@ == (if self.shown().val() == WILD {
                "W"@
            } else {
                decimal(self.shown().val() as nat)
            }),
    {
        if self.is_wild() {
            return String::from_str("W");
        }
        decimal_string(self.current_value.value as usize)
    }

    /// Short label for the die type ("D6", "W6", "C6", "D8").
    pub fn label(&self) -> (s: &str)
        ensures
            s@ == label_text(self.kind()),
    {
        match self.die_type {
            DieType::Standard => "D6",
            DieType::Wild => "W6",
            DieType::Cursed => "C6",
            DieType::Bones => "D8",
        }
    }
}

/// The default die is a fresh standard d6.
impl Default for Die {
    fn default() -> (d: Self)
        ensures
            d.is_fresh(DieType::Standard, seq![1u8, 2, 3, 4, 5, 6]),
    {
        Die::standard()
    }
}

/// Setting a flag twice keeps only the last value.
pub broadcast proof fn lemma_die_flag_overwrite(d: Die, a: bool, b: bool)
    ensures
        #[trigger] d.with_held(a).with_held(b) == d.with_held(b),
        #[trigger] d.with_selected(a).with_selected(b) == d.with_selected(b),
{
}

/// Facts about the field updates of a die.
pub broadcast proof fn lemma_die_updates(d: Die, b: bool)
    ensures
        #[trigger] d.with_held(b).is_held() == b,
        d.with_held(b).is_selected() == d.is_selected(),
        d.with_held(b).shown() == d.shown(),
        d.with_held(b).kind() == d.kind(),
        d.with_held(b).faces_view() == d.faces_view(),
        #[trigger] d.with_selected(b).is_selected() == b,
        d.with_selected(b).is_held() == d.is_held(),
        d.with_selected(b).shown() == d.shown(),
        d.with_selected(b).kind() == d.kind(),
        d.with_selected(b).faces_view() == d.faces_view(),
        d.with_held(d.is_held()) == d,
        d.with_selected(d.is_selected()) == d,
{
}

/// Facts about a rolled die.
pub broadcast proof fn lemma_roll_facts(after: Die, before: Die)
    requires
        #[trigger] after.is_roll_of(before),
    ensures
        after.kind() == before.kind(),
        after.faces_view() == before.faces_view(),
        after.is_held() == before.is_held(),
        after.is_selected() == before.is_selected(),
        exists|k: int| 0 <= k < before.faces_view().len() && after.shown() == before.faces_view()[k],
{
    let k = choose|k: int| 0 <= k < before.faces@.len() && after.current_value == before.faces@[k];
    assert(after.shown() == before.faces_view()[k]);
}

// ─── DicePool ─────────────────────────────────────────────────────────────────

/// The value a die contributes to scoring: its shown value, except that a
/// Bones die showing more than 6 counts as 6.
pub open spec fn scoring_value(d: Die) -> u8 {
    if d.kind() == DieType::Bones && d.shown().val() > 6 {
        6
    } else {
        d.shown().val()
    }
}

/// The scoring values of a sequence of dice.
pub open spec fn pool_values(dice: Seq<Die>) -> Seq<u8> {
    dice.map_values(|d: Die| scoring_value(d))
}

/// The enchantment bonus of the face a die shows (0 when none).
pub open spec fn enchant_of(d: Die) -> nat {
    match d.shown().bonus() {
        Some(b) => b as nat,
        None => 0,
    }
}

/// Sum of the enchantment bonuses shown by a sequence of dice.
pub open spec fn enchant_sum(dice: Seq<Die>) -> nat
    decreases dice.len(),
{
    if dice.len() == 0 {
        0
    } else {
        enchant_sum(dice.drop_last()) + enchant_of(dice.last())
    }
}

/// `i` is the first die of the sequence that is selected.
pub open spec fn is_first_selected(dice: Seq<Die>, i: int) -> bool {
    &&& 0 <= i < dice.len()
    &&& dice[i].is_selected()
    &&& forall|j: int| 0 <= j < i ==> !(#[trigger] dice[j]).is_selected()
}

/// The index of the first selected die, if any.
pub open spec fn first_selected(dice: Seq<Die>) -> Option<int> {
    if exists|i: int| is_first_selected(dice, i) {
        Some(choose|i: int| is_first_selected(dice, i))
    } else {
        None
    }
}

/// `i` is the first Standard die of the sequence.
pub open spec fn is_first_standard(dice: Seq<Die>, i: int) -> bool {
    &&& 0 <= i < dice.len()
    &&& dice[i].kind() == DieType::Standard
    &&& forall|j: int| 0 <= j < i ==> (#[trigger] dice[j]).kind() != DieType::Standard
}

/// Whether some die of the sequence is a Standard die.
pub open spec fn has_standard(dice: Seq<Die>) -> bool {
    exists|i: int| 0 <= i < dice.len() && (#[trigger] dice[i]).kind() == DieType::Standard
}

/// The dice with the held flag of die `index` flipped (unchanged when the
/// index is out of bounds).
pub open spec fn toggled_hold(dice: Seq<Die>, index: int) -> Seq<Die> {
    if 0 <= index < dice.len() {
        dice.update(index, dice[index].with_held(!dice[index].is_held()))
    } else {
        dice
    }
}

/// The dice with every held flag cleared.
pub open spec fn released(dice: Seq<Die>) -> Seq<Die> {
    dice.map_values(|d: Die| d.with_held(false))
}

/// Moving the selection cursor one die to the right, wrapping around: the
/// first selected die loses the selection and the next one gains it; with no
/// selection, the first die is selected.
pub open spec fn next_selection(dice: Seq<Die>) -> Seq<Die> {
    match first_selected(dice) {
        None => dice.update(0, dice[0].with_selected(true)),
        Some(x) => {
            let n = if x + 1 < dice.len() {
                x + 1
            } else {
                0
            };
            let cleared = dice.update(x, dice[x].with_selected(false));
            cleared.update(n, cleared[n].with_selected(true))
        },
    }
}

/// Moving the selection cursor one die to the left, wrapping around.
pub open spec fn prev_selection(dice: Seq<Die>) -> Seq<Die> {
    match first_selected(dice) {
        None => dice.update(0, dice[0].with_selected(true)),
        Some(x) => {
            let n = if x == 0 {
                dice.len() - 1
            } else {
                x - 1
            };
            let cleared = dice.update(x, dice[x].with_selected(false));
            cleared.update(n, cleared[n].with_selected(true))
        },
    }
}

#[derive(Debug)]
pub struct DicePool {
    pub dice: Vec<Die>,
    pub rolls_remaining: u8,
    pub max_rolls: u8,
    pub rng: ThreadRng,
}

impl DicePool {
    /// Every die of the pool has at least one face.
    pub open spec fn wf(&self) -> bool {
        forall|i: int| 0 <= i < self.dice@.len() ==> (#[trigger] self.dice@[i]).wf()
    }

    /// No roll has been spent yet in this room.
    pub open spec fn at_first_roll(&self) -> bool {
        self.rolls_remaining == self.max_rolls
    }

    /// Build the default starting pool: 5 standard d6, 3 rolls.
    pub fn new() -> (pool: Self)
        ensures
            pool.wf(),
            pool.dice@.len() == 5,
            forall|i: int|
                0 <= i < 5 ==> (#[trigger] pool.dice@[i]).is_fresh(
                    DieType::Standard,
                    seq![1u8, 2, 3, 4, 5, 6],
                ),
            pool.max_rolls == 3,
            pool.rolls_remaining == 3,
    {
        let mut dice: Vec<Die> = Vec::new();
        let mut i: usize = 0;
        while i < 5
            invariant
                i <= 5,
                dice@.len() == i,
                forall|k: int|
                    0 <= k < i ==> (#[trigger] dice@[k]).is_fresh(
                        DieType::Standard,
                        seq![1u8, 2, 3, 4, 5, 6],
                    ),
            decreases 5 - i,
        {
            dice.push(Die::standard());
            i = i + 1;
        }
        assert forall|k: int| 0 <= k < dice@.len() implies (#[trigger] dice@[k]).wf() by {
            assert(values_of(dice@[k].faces_view()).len() == 6);
        }
        Self { dice, max_rolls: 3, rolls_remaining: 3, rng: thread_rng() }
    }

    /// Build a pool from an explicit set of dice.
    pub fn with_dice(dice: Vec<Die>, max_rolls: u8) -> (pool: Self)
        ensures
            pool.dice@ == dice@,
            pool.max_rolls == max_rolls,
            pool.rolls_remaining == max_rolls,
    {
        Self { dice, max_rolls, rolls_remaining: max_rolls, rng: thread_rng() }
    }

    /// Roll every die that is not held. Returns false, changing nothing, when
    /// no rolls remain.
    pub fn roll_once(&mut self) -> (rolled: bool)
        requires
            old(self).wf(),
        ensures
            rolled == (old(self).rolls_remaining > 0),
            final(self).wf(),
            final(self).max_rolls == old(self).max_rolls,
            !rolled ==> final(self).dice@ == old(self).dice@ && final(self).rolls_remaining
                == old(self).rolls_remaining,
            rolled ==> final(self).rolls_remaining == old(self).rolls_remaining - 1,
            final(self).dice@.len() == old(self).dice@.len(),
            forall|i: int|
                0 <= i < old(self).dice@.len() && old(self).dice@[i].is_held() ==> (
                #[trigger] final(self).dice@[i]) == old(self).dice@[i],
            rolled ==> forall|i: int|
                0 <= i < old(self).dice@.len() && !old(self).dice@[i].is_held() ==> (
                #[trigger] final(self).dice@[i]).is_roll_of(old(self).dice@[i]),
    {
        if self.rolls_remaining == 0 {
            return false;
        }
        let ghost before = self.dice@;
        let mut i: usize = 0;
        while i < self.dice.len()
            invariant
                self.dice@.len() == before.len(),
                i <= before.len(),
                self.rolls_remaining == old(self).rolls_remaining,
                self.max_rolls == old(self).max_rolls,
                self.rolls_remaining > 0,
                forall|k: int| 0 <= k < before.len() ==> (#[trigger] before[k]).wf(),
                forall|k: int| i <= k < before.len() ==> (#[trigger] self.dice@[k]) == before[k],
                forall|k: int|
                    0 <= k < i && before[k].is_held() ==> (#[trigger] self.dice@[k]) == before[k],
                forall|k: int|
                    0 <= k < i && !before[k].is_held() ==> (#[trigger] self.dice@[k]).is_roll_of(
                        before[k],
                    ),
            decreases before.len() - i,
        {
            if !self.dice[i].held {
                let _ = self.dice[i].roll(&mut self.rng);
            }
            i = i + 1;
        }
        self.rolls_remaining = self.rolls_remaining - 1;
        proof {
            broadcast use lemma_roll_facts;
            assert forall|k: int| 0 <= k < self.dice@.len() implies (#[trigger] self.dice@[k]).wf() by {
                assert(before[k].wf());
            }
        }
        true
    }

    /// Reset state at the start of a new room: all rolls back, nothing held.
    pub fn reset_for_room(&mut self)
        ensures
            final(self).rolls_remaining == old(self).max_rolls,
            final(self).max_rolls == old(self).max_rolls,
            final(self).dice@ == released(old(self).dice@),
            old(self).wf() ==> final(self).wf(),
    {
        self.rolls_remaining = self.max_rolls;
        let ghost before = self.dice@;
        let mut i: usize = 0;
        while i < self.dice.len()
            invariant
                self.dice@.len() == before.len(),
                i <= before.len(),
                self.rolls_remaining == old(self).max_rolls,
                self.max_rolls == old(self).max_rolls,
                forall|k: int| i <= k < before.len() ==> (#[trigger] self.dice@[k]) == before[k],
                forall|k: int|
                    0 <= k < i ==> (#[trigger] self.dice@[k]) == before[k].with_held(false),
            decreases before.len() - i,
        {
            self.dice[i].held = false;
            proof {
                broadcast use lemma_die_updates;
            }
            i = i + 1;
        }
        assert(self.dice@ =~= released(before));
        proof {
            broadcast use lemma_die_updates;
        }
    }

    /// Toggle the held state of the die at `index`. No-op if out of bounds.
    pub fn toggle_hold(&mut self, index: usize)
        ensures
            final(self).dice@ == toggled_hold(old(self).dice@, index as int),
            final(self).rolls_remaining == old(self).rolls_remaining,
            final(self).max_rolls == old(self).max_rolls,
            old(self).wf() ==> final(self).wf(),
    {
        if index < self.dice.len() {
            self.dice[index].toggle_hold();
        }
        proof {
            broadcast use lemma_die_updates;
        }
    }

    /// The value of every die for scoring, in pool order: Wild faces give
    /// `WILD`, Bones dice over 6 give 6.
    pub fn values(&self) -> (v: Vec<u8>)
        ensures
            v@ == pool_values(self.dice@),
    {
        let mut v: Vec<u8> = Vec::new();
        let mut i: usize = 0;
        while i < self.dice.len()
            invariant
                i <= self.dice@.len(),
                v@ == self.dice@.take(i as int).map_values(|d: Die| scoring_value(d)),
            decreases self.dice@.len() - i,
        {
            let d = &self.dice[i];
            let x = match d.die_type {
                DieType::Bones => if d.current_value.value > 6 {
                    6
                } else {
                    d.current_value.value
                },
                _ => d.current_value.value,
            };
            v.push(x);
            i = i + 1;
            assert(v@ =~= self.dice@.take(i as int).map_values(|d: Die| scoring_value(d)));
        }
        assert(self.dice@.take(self.dice@.len() as int) =~= self.dice@);
        v
    }

    pub fn can_roll(&self) -> (r: bool)
        ensures
            r == (self.rolls_remaining > 0),
    {
        self.rolls_remaining > 0
    }

    /// Sum of the enchantment bonuses of the faces the dice show; added to
    /// the room score after the category score.
    pub fn enchant_bonus_total(&self) -> (total: usize)
        requires
            enchant_sum(self.dice@) <= usize::MAX,
        ensures
            total == enchant_sum(self.dice@),
    {
        let mut total: usize = 0;
        let mut i: usize = 0;
        while i < self.dice.len()
            invariant
                i <= self.dice@.len(),
                enchant_sum(self.dice@) <= usize::MAX,
                total == enchant_sum(self.dice@.take(i as int)),
            decreases self.dice@.len() - i,
        {
            assert(self.dice@.take(i + 1).drop_last() =~= self.dice@.take(i as int));
            proof {
                lemma_enchant_sum_prefix(self.dice@, i + 1);
            }
            let b = match self.dice[i].current_value.enchant {
                Some(b) => b,
                None => 0,
            };
            total = total + b;
            i = i + 1;
        }
        assert(self.dice@.take(self.dice@.len() as int) =~= self.dice@);
        total
    }

    /// The sum of the enchantment bonuses shown, or `None` when it does not
    /// fit in `usize`.
    pub fn checked_enchant_total(&self) -> (r: Option<usize>)
        ensures
            match r {
                Some(t) => t == enchant_sum(self.dice@),
                None => enchant_sum(self.dice@) > usize::MAX,
            },
    {
        let mut total: usize = 0;
        let mut i: usize = 0;
        while i < self.dice.len()
            invariant
                i <= self.dice@.len(),
                total == enchant_sum(self.dice@.take(i as int)),
            decreases self.dice@.len() - i,
        {
            assert(self.dice@.take(i + 1).drop_last() =~= self.dice@.take(i as int));
            let b = match self.dice[i].current_value.enchant {
                Some(b) => b,
                None => 0,
            };
            match total.checked_add(b) {
                Some(t) => {
                    total = t;
                },
                None => {
                    proof {
                        lemma_enchant_sum_prefix(self.dice@, i + 1);
                    }
                    return None;
                },
            }
            i = i + 1;
        }
        assert(self.dice@.take(self.dice@.len() as int) =~= self.dice@);
        Some(total)
    }

    /// Add a die to the pool (e.g. the Extra Die Slot relic).
    pub fn add_die(&mut self, die: Die)
        ensures
            final(self).dice@ == old(self).dice@.push(die),
            final(self).rolls_remaining == old(self).rolls_remaining,
            final(self).max_rolls == old(self).max_rolls,
    {
        self.dice.push(die)
    }

    /// Remove and return the die at `index`; `None` when out of bounds.
    pub fn remove_die(&mut self, index: usize) -> (r: Option<Die>)
        ensures
            index < old(self).dice@.len() ==> r == Some(old(self).dice@[index as int])
                && final(self).dice@ == old(self).dice@.remove(index as int),
            index >= old(self).dice@.len() ==> r == None::<Die> && final(self).dice@ == old(self).dice@,
            final(self).rolls_remaining == old(self).rolls_remaining,
            final(self).max_rolls == old(self).max_rolls,
    {
        if index < self.dice.len() {
            Some(self.dice.remove(index))
        } else {
            None
        }
    }

    /// Whether the pool holds at least one Standard die.
    pub fn has_standard_die(&self) -> (r: bool)
        ensures
            r == has_standard(self.dice@),
    {
        let mut i: usize = 0;
        while i < self.dice.len()
            invariant
                i <= self.dice@.len(),
                forall|j: int| 0 <= j < i ==> (#[trigger] self.dice@[j]).kind() != DieType::Standard,
            decreases self.dice@.len() - i,
        {
            if let DieType::Standard = self.dice[i].die_type {
                return true;
            }
            i = i + 1;
        }
        false
    }

    /// Replace the first Standard die with `replacement` (shop purchase).
    /// Returns false, changing nothing, when the pool has no Standard die.
    pub fn replace_first_standard_die(&mut self, replacement: Die) -> (replaced: bool)
        ensures
            replaced == has_standard(old(self).dice@),
            replaced ==> exists|i: int|
                is_first_standard(old(self).dice@, i) && final(self).dice@ == old(self).dice@.update(i, replacement),
            !replaced ==> final(self).dice@ == old(self).dice@,
            final(self).rolls_remaining == old(self).rolls_remaining,
            final(self).max_rolls == old(self).max_rolls,
    {
        let mut i: usize = 0;
        while i < self.dice.len()
            invariant
                i <= self.dice@.len(),
                self.dice@ == old(self).dice@,
                self.rolls_remaining == old(self).rolls_remaining,
                self.max_rolls == old(self).max_rolls,
                forall|j: int| 0 <= j < i ==> (#[trigger] self.dice@[j]).kind() != DieType::Standard,
            decreases self.dice@.len() - i,
        {
            if let DieType::Standard = self.dice[i].die_type {
                self.dice.set(i, replacement);
                assert(is_first_standard(old(self).dice@, i as int));
                return true;
            }
            i = i + 1;
        }
        false
    }

    /// Replace the die at `index`, returning the old one; `None`, changing
    /// nothing, when out of bounds.
    pub fn replace_die(&mut self, index: usize, die: Die) -> (r: Option<Die>)
        ensures
            index < old(self).dice@.len() ==> r == Some(old(self).dice@[index as int])
                && final(self).dice@ == old(self).dice@.update(index as int, die),
            index >= old(self).dice@.len() ==> r == None::<Die> && final(self).dice@ == old(self).dice@,
            final(self).rolls_remaining == old(self).rolls_remaining,
            final(self).max_rolls == old(self).max_rolls,
    {
        if index >= self.dice.len() {
            return None;
        }
        let old_die = self.dice.remove(index);
        self.dice.insert(index, die);
        assert(self.dice@ =~= old(self).dice@.update(index as int, die));
        Some(old_die)
    }

    /// The index of the first selected die, if any.
    fn position_selected(&self) -> (r: Option<usize>)
        ensures
            r == (match first_selected(self.dice@) {
                Some(i) => Some(i as usize),
                None => None::<usize>,
            }),
            match r {
                Some(i) => is_first_selected(self.dice@, i as int),
                None => forall|j: int|
                    0 <= j < self.dice@.len() ==> !(#[trigger] self.dice@[j]).is_selected(),
            },
    {
        let mut i: usize = 0;
        while i < self.dice.len()
            invariant
                i <= self.dice@.len(),
                forall|j: int| 0 <= j < i ==> !(#[trigger] self.dice@[j]).is_selected(),
            decreases self.dice@.len() - i,
        {
            if self.dice[i].selected {
                proof {
                    assert(is_first_selected(self.dice@, i as int));
                    lemma_first_selected_unique(self.dice@, i as int);
                }
                return Some(i);
            }
            i = i + 1;
        }
        proof {
            if exists|k: int| is_first_selected(self.dice@, k) {
                let k = choose|k: int| is_first_selected(self.dice@, k);
                assert(self.dice@[k].is_selected());
            }
        }
        None
    }

    /// Toggle the held state of the selected die (no-op without selection).
    pub fn toggle_selected(&mut self)
        ensures
            final(self).dice@ == (match first_selected(old(self).dice@) {
                None => old(self).dice@,
                Some(x) => toggled_hold(old(self).dice@, x),
            }),
            final(self).rolls_remaining == old(self).rolls_remaining,
            final(self).max_rolls == old(self).max_rolls,
            old(self).wf() ==> final(self).wf(),
    {
        let cur = self.position_selected();
        match cur {
            None => (),
            Some(x) => self.toggle_hold(x),
        }
    }

    /// Move the selection to the next die, wrapping around to the first.
    pub fn next_die(&mut self)
        requires
            old(self).dice@.len() > 0,
        ensures
            final(self).dice@ == next_selection(old(self).dice@),
            final(self).rolls_remaining == old(self).rolls_remaining,
            final(self).max_rolls == old(self).max_rolls,
            old(self).wf() ==> final(self).wf(),
    {
        let cur = self.position_selected();
        let len = self.dice.len();
        let next = match cur {
            None => 0,
            Some(x) => {
                self.dice[x].selected = false;
                if x + 1 < len {
                    x + 1
                } else {
                    0
                }
            },
        };
        self.dice[next].selected = true;
        proof {
            broadcast use lemma_die_updates;
            assert(self.dice@ =~= next_selection(old(self).dice@));
        }
    }

    /// Move the selection to the previous die, wrapping around to the last.
    pub fn prev_die(&mut self)
        requires
            old(self).dice@.len() > 0,
        ensures
            final(self).dice@ == prev_selection(old(self).dice@),
            final(self).rolls_remaining == old(self).rolls_remaining,
            final(self).max_rolls == old(self).max_rolls,
            old(self).wf() ==> final(self).wf(),
    {
        let cur = self.position_selected();
        let next = match cur {
            None => 0,
            Some(x) => {
                self.dice[x].selected = false;
                if x == 0 {
                    self.dice.len() - 1
                } else {
                    x - 1
                }
            },
        };
        self.dice[next].selected = true;
        proof {
            broadcast use lemma_die_updates;
            assert(self.dice@ =~= prev_selection(old(self).dice@));
        }
    }
}

/// Toggling the hold of the same die twice gives back the same dice.
pub proof fn law_toggle_hold_twice(dice: Seq<Die>, index: int)
    ensures
        toggled_hold(toggled_hold(dice, index), index) == dice,
{
    broadcast use lemma_die_updates, lemma_die_flag_overwrite;

    if 0 <= index < dice.len() {
        let once = toggled_hold(dice, index);
        assert(once[index].is_held() == !dice[index].is_held());
        assert(once[index].with_held(!once[index].is_held()) == dice[index].with_held(
            dice[index].is_held(),
        ));
        assert(toggled_hold(once, index) =~= dice);
    }
}

/// Exactly one die of the sequence is selected.
pub open spec fn one_selected(dice: Seq<Die>) -> bool {
    exists|x: int|
        0 <= x < dice.len() && dice[x].is_selected() && forall|j: int|
            0 <= j < dice.len() && j != x ==> !(#[trigger] dice[j]).is_selected()
}

/// Moving the selection right and then left comes back to the same dice
/// when exactly one die was selected.
pub proof fn law_prev_undoes_next(dice: Seq<Die>)
    requires
        one_selected(dice),
    ensures
        prev_selection(next_selection(dice)) == dice,
{
    broadcast use lemma_die_updates, lemma_die_flag_overwrite;

    let x = choose|x: int|
        0 <= x < dice.len() && dice[x].is_selected() && forall|j: int|
            0 <= j < dice.len() && j != x ==> !(#[trigger] dice[j]).is_selected();
    assert(is_first_selected(dice, x));
    lemma_first_selected_unique(dice, x);
    let n = if x + 1 < dice.len() {
        x + 1
    } else {
        0
    };
    let cleared = dice.update(x, dice[x].with_selected(false));
    let moved = cleared.update(n, cleared[n].with_selected(true));
    assert(next_selection(dice) == moved);
    assert(is_first_selected(moved, n)) by {
        assert forall|j: int| 0 <= j < n implies !(#[trigger] moved[j]).is_selected() by {
            if j == x {
            } else {
                assert(!dice[j].is_selected());
            }
        }
    }
    lemma_first_selected_unique(moved, n);
    let back = if n == 0 {
        moved.len() - 1
    } else {
        n - 1
    };
    assert(back == x);
    let cleared2 = moved.update(n, moved[n].with_selected(false));
    let result = cleared2.update(back, cleared2[back].with_selected(true));
    assert(prev_selection(moved) == result);
    assert forall|j: int| 0 <= j < dice.len() implies result[j] == dice[j] by {
        if j == x {
            assert(dice[x].with_selected(true) == dice[x]);
        } else if j == n {
            assert(!dice[n].is_selected());
            assert(dice[n].with_selected(false) == dice[n]);
        }
    }
    assert(result =~= dice);
}

/// After moving the selection (either way) exactly one die is selected,
/// provided at most one was before.
pub proof fn law_selection_moves_keep_one(dice: Seq<Die>)
    requires
        dice.len() > 0,
        forall|i: int, j: int|
            0 <= i < dice.len() && 0 <= j < dice.len() && dice[i].is_selected()
                && dice[j].is_selected() ==> i == j,
    ensures
        one_selected(next_selection(dice)),
        one_selected(prev_selection(dice)),
{
    broadcast use lemma_die_updates, lemma_die_flag_overwrite;

    match first_selected(dice) {
        None => {
            let r = dice.update(0, dice[0].with_selected(true));
            assert forall|j: int| 0 <= j < r.len() && j != 0 implies !(#[trigger] r[j]).is_selected() by {
                if dice[j].is_selected() {
                    assert(is_first_selected(dice, j) || exists|k: int| is_first_selected(dice, k)) by {
                        assert forall|k: int| 0 <= k < j implies !(#[trigger] dice[k]).is_selected() by {}
                    }
                }
            }
            assert(r[0].is_selected());
        },
        Some(x) => {
            let c = choose|i: int| is_first_selected(dice, i);
            assert(is_first_selected(dice, c));
            let n1 = if x + 1 < dice.len() {
                x + 1
            } else {
                0
            };
            let n2 = if x == 0 {
                dice.len() - 1
            } else {
                x - 1
            };
            let cl = dice.update(x, dice[x].with_selected(false));
            let r1 = cl.update(n1, cl[n1].with_selected(true));
            let r2 = cl.update(n2, cl[n2].with_selected(true));
            assert forall|j: int| 0 <= j < r1.len() && j != n1 implies !(#[trigger] r1[j]).is_selected() by {
                if j != x {
                    assert(!(dice[j].is_selected() && dice[x].is_selected() && j != x));
                }
            }
            assert(r1[n1].is_selected());
            assert forall|j: int| 0 <= j < r2.len() && j != n2 implies !(#[trigger] r2[j]).is_selected() by {
                if j != x {
                    assert(!(dice[j].is_selected() && dice[x].is_selected() && j != x));
                }
            }
            assert(r2[n2].is_selected());
        },
    }
}

proof fn lemma_first_selected_unique(dice: Seq<Die>, i: int)
    requires
        is_first_selected(dice, i),
    ensures
        first_selected(dice) == Some(i),
{
    let c = choose|k: int| is_first_selected(dice, k);
    if c < i {
        assert(!dice[c].is_selected());
    } else if i < c {
        assert(!dice[i].is_selected());
    }
}

proof fn lemma_enchant_sum_prefix(dice: Seq<Die>, n: int)
    requires
        0 <= n <= dice.len(),
    ensures
        enchant_sum(dice.take(n)) <= enchant_sum(dice),
    decreases dice.len() - n,
{
    if n < dice.len() {
        lemma_enchant_sum_prefix(dice, n + 1);
        assert(dice.take(n + 1).drop_last() =~= dice.take(n));
    } else {
        assert(dice.take(n) =~= dice);
    }
}

} // verus!
