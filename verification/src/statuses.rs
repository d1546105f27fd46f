//! Status effects on a character and the fixed-size table that holds them.
//!
//! The table has 32 slots. The first six are reserved, one per kind, for the
//! kinds that can never be present twice (mounted, death, blade dash, phase
//! prism, falcon carry, exoskeleton); the remaining kinds stack and are
//! appended after them. `first_free_index` marks the end of the used part.
//! What a status carries besides its kind is the payload `P`; the table's
//! rules read only the kind.
use vstd::prelude::*;

verus! {

/// Number of slots reserved for the kinds that never stack.
pub const NONSTACKABLE_STATUS_COUNT: usize = 6;

/// Number of slots of a status table.
pub const STATUS_ARRAY_SIZE: usize = 32;

/// What adding a status of the same kind as an existing one does.
#[derive(Clone, Copy, Debug, PartialEq, Eq, Structural)]
pub enum StatusStackingResult {
    DontAddTheNewStatus,
    AddTheNewStatus,
    Replace,
}

/// Whether a status outlives an update.
#[derive(Clone, Copy, Debug, PartialEq, Eq, Structural)]
pub enum StatusUpdateResult {
    RemoveIt,
    KeepIt,
}

/// Whether a status helps or harms the character that carries it.
#[derive(Clone, Copy, Debug, PartialEq, Eq, Structural)]
pub enum StatusNature {
    Supportive,
    Harmful,
}

/// The kind of a status. The first six kinds never stack; their number is
/// the index of their reserved slot.
#[derive(Clone, Copy, Debug, PartialEq, Eq, Structural)]
pub enum StatusEnumDiscriminants {
    MountedStatus,
    DeathStatus,
    AssaBladeDashStatus,
    AssaPhasePrismStatus,
    FalconCarryStatus,
    ExoSkeletonStatus,
    AbsorbStatus,
    FireBombStatus,
    PyroBlastTargetStatus,
    AttackHealStatus,
    ArmorModifierStatus,
    WalkingSpeedModifierStatus,
    ReflectDamageStatus,
    SacrificeStatus,
    PoisonStatus,
    StunStatus,
}

/// Position of a kind in the declaration order above.
pub open spec fn discr_index(d: StatusEnumDiscriminants) -> int {
    match d {
        StatusEnumDiscriminants::MountedStatus => 0,
        StatusEnumDiscriminants::DeathStatus => 1,
        StatusEnumDiscriminants::AssaBladeDashStatus => 2,
        StatusEnumDiscriminants::AssaPhasePrismStatus => 3,
        StatusEnumDiscriminants::FalconCarryStatus => 4,
        StatusEnumDiscriminants::ExoSkeletonStatus => 5,
        StatusEnumDiscriminants::AbsorbStatus => 6,
        StatusEnumDiscriminants::FireBombStatus => 7,
        StatusEnumDiscriminants::PyroBlastTargetStatus => 8,
        StatusEnumDiscriminants::AttackHealStatus => 9,
        StatusEnumDiscriminants::ArmorModifierStatus => 10,
        StatusEnumDiscriminants::WalkingSpeedModifierStatus => 11,
        StatusEnumDiscriminants::ReflectDamageStatus => 12,
        StatusEnumDiscriminants::SacrificeStatus => 13,
        StatusEnumDiscriminants::PoisonStatus => 14,
        StatusEnumDiscriminants::StunStatus => 15,
    }
}

/// Whether a character under a status of this kind may move.
pub open spec fn spec_can_target_move(d: StatusEnumDiscriminants) -> bool {
    !(d is DeathStatus || d is AssaBladeDashStatus || d is FalconCarryStatus || d is StunStatus
        || d is AssaPhasePrismStatus)
}

/// Whether a character under a status of this kind may cast.
pub open spec fn spec_can_target_cast(d: StatusEnumDiscriminants) -> bool {
    !(d is DeathStatus || d is FalconCarryStatus || d is StunStatus || d is AssaPhasePrismStatus)
}

/// Whether a character under a status of this kind obeys its controller.
pub open spec fn spec_can_target_be_controlled(d: StatusEnumDiscriminants) -> bool {
    !(d is DeathStatus || d is AssaBladeDashStatus || d is FalconCarryStatus
        || d is AssaPhasePrismStatus)
}

/// Whether a character under a status of this kind can be pushed.
pub open spec fn spec_allow_push(d: StatusEnumDiscriminants) -> bool {
    !(d is DeathStatus || d is AbsorbStatus || d is AssaBladeDashStatus || d is FalconCarryStatus
        || d is AssaPhasePrismStatus)
}

/// What happens when a status of the same kind is added next to one of kind `d`.
pub open spec fn spec_stack(d: StatusEnumDiscriminants) -> StatusStackingResult {
    match d {
        StatusEnumDiscriminants::FireBombStatus
        | StatusEnumDiscriminants::PyroBlastTargetStatus
        | StatusEnumDiscriminants::AttackHealStatus
        | StatusEnumDiscriminants::ArmorModifierStatus
        | StatusEnumDiscriminants::WalkingSpeedModifierStatus
        | StatusEnumDiscriminants::ReflectDamageStatus
        | StatusEnumDiscriminants::PoisonStatus
        | StatusEnumDiscriminants::StunStatus
        | StatusEnumDiscriminants::AbsorbStatus => StatusStackingResult::AddTheNewStatus,
        StatusEnumDiscriminants::DeathStatus
        | StatusEnumDiscriminants::SacrificeStatus
        | StatusEnumDiscriminants::ExoSkeletonStatus
        | StatusEnumDiscriminants::AssaBladeDashStatus
        | StatusEnumDiscriminants::MountedStatus
        | StatusEnumDiscriminants::FalconCarryStatus => StatusStackingResult::DontAddTheNewStatus,
        StatusEnumDiscriminants::AssaPhasePrismStatus => StatusStackingResult::Replace,
    }
}

impl StatusEnumDiscriminants {
    /// Position of the kind in the declaration order; for the non-stacking
    /// kinds, the index of their reserved slot.
    pub fn index(self) -> (r: usize)
        ensures
            r == discr_index(self),
    {
        match self {
            StatusEnumDiscriminants::MountedStatus => 0,
            StatusEnumDiscriminants::DeathStatus => 1,
            StatusEnumDiscriminants::AssaBladeDashStatus => 2,
            StatusEnumDiscriminants::AssaPhasePrismStatus => 3,
            StatusEnumDiscriminants::FalconCarryStatus => 4,
            StatusEnumDiscriminants::ExoSkeletonStatus => 5,
            StatusEnumDiscriminants::AbsorbStatus => 6,
            StatusEnumDiscriminants::FireBombStatus => 7,
            StatusEnumDiscriminants::PyroBlastTargetStatus => 8,
            StatusEnumDiscriminants::AttackHealStatus => 9,
            StatusEnumDiscriminants::ArmorModifierStatus => 10,
            StatusEnumDiscriminants::WalkingSpeedModifierStatus => 11,
            StatusEnumDiscriminants::ReflectDamageStatus => 12,
            StatusEnumDiscriminants::SacrificeStatus => 13,
            StatusEnumDiscriminants::PoisonStatus => 14,
            StatusEnumDiscriminants::StunStatus => 15,
        }
    }

    pub fn can_target_move(self) -> (r: bool)
        ensures
            r == spec_can_target_move(self),
    {
        match self {
            StatusEnumDiscriminants::DeathStatus
            | StatusEnumDiscriminants::AssaBladeDashStatus
            | StatusEnumDiscriminants::FalconCarryStatus
            | StatusEnumDiscriminants::StunStatus
            | StatusEnumDiscriminants::AssaPhasePrismStatus => false,
            _ => true,
        }
    }

    pub fn can_target_cast(self) -> (r: bool)
        ensures
            r == spec_can_target_cast(self),
    {
        match self {
            StatusEnumDiscriminants::DeathStatus
            | StatusEnumDiscriminants::FalconCarryStatus
            | StatusEnumDiscriminants::StunStatus
            | StatusEnumDiscriminants::AssaPhasePrismStatus => false,
            _ => true,
        }
    }

    pub fn can_target_be_controlled(self) -> (r: bool)
        ensures
            r == spec_can_target_be_controlled(self),
    {
        match self {
            StatusEnumDiscriminants::DeathStatus
            | StatusEnumDiscriminants::AssaBladeDashStatus
            | StatusEnumDiscriminants::FalconCarryStatus
            | StatusEnumDiscriminants::AssaPhasePrismStatus => false,
            _ => true,
        }
    }

    /// Every kind of status counts as supportive.
    pub fn typ(self) -> (r: StatusNature)
        ensures
            r == StatusNature::Supportive,
    {
        StatusNature::Supportive
    }

    pub fn allow_push(self) -> (r: bool)
        ensures
            r == spec_allow_push(self),
    {
        match self {
            StatusEnumDiscriminants::DeathStatus
            | StatusEnumDiscriminants::AbsorbStatus
            | StatusEnumDiscriminants::AssaBladeDashStatus
            | StatusEnumDiscriminants::FalconCarryStatus
            | StatusEnumDiscriminants::AssaPhasePrismStatus => false,
            _ => true,
        }
    }

    /// What adding a second status of this kind does.
    pub fn stack(self) -> (r: StatusStackingResult)
        ensures
            r == spec_stack(self),
    {
        match self {
            StatusEnumDiscriminants::FireBombStatus
            | StatusEnumDiscriminants::PyroBlastTargetStatus
            | StatusEnumDiscriminants::AttackHealStatus
            | StatusEnumDiscriminants::ArmorModifierStatus
            | StatusEnumDiscriminants::WalkingSpeedModifierStatus
            | StatusEnumDiscriminants::ReflectDamageStatus
            | StatusEnumDiscriminants::PoisonStatus
            | StatusEnumDiscriminants::StunStatus
            | StatusEnumDiscriminants::AbsorbStatus => StatusStackingResult::AddTheNewStatus,
            StatusEnumDiscriminants::AssaPhasePrismStatus => StatusStackingResult::Replace,
            _ => StatusStackingResult::DontAddTheNewStatus,
        }
    }
}

/// A status: its kind and what it carries.
pub struct Status<P> {
    pub discr: StatusEnumDiscriminants,
    pub payload: P,
}

impl<P> Status<P> {
    /// What adding `_other`, a status of the same kind, next to this one does;
    /// it depends on the kind alone.
    pub fn stack(&self, _other: &Status<P>) -> (r: StatusStackingResult)
        ensures
            r == spec_stack(self.discr),
    {
        self.discr.stack()
    }
}

/// The kind held by a slot, if any.
pub open spec fn slot_kind<P>(slot: Option<Status<P>>) -> Option<StatusEnumDiscriminants> {
    match slot {
        Some(s) => Some(s.discr),
        None => None,
    }
}

/// Whether slot `i` of `slots` holds a status of kind `d`.
pub open spec fn holds_kind<P>(slots: Seq<Option<Status<P>>>, i: int, d: StatusEnumDiscriminants) -> bool {
    slot_kind(slots[i]) == Some(d)
}

/// Table invariant: 32 slots; the free index lies in [6, 32]; a reserved
/// slot holds nothing or the kind it is reserved for; the stacking area holds
/// only stacking kinds; nothing lies at or past the free index; and the slot
/// just before the free index is used unless the stacking area is empty.
pub open spec fn table_wf<P>(slots: Seq<Option<Status<P>>>, ffi: int) -> bool {
    &&& slots.len() == 32
    &&& 6 <= ffi <= 32
    &&& forall|i: int| 0 <= i < 6 ==> (#[trigger] slots[i] matches Some(s) ==> discr_index(s.discr) == i)
    &&& forall|i: int| 6 <= i < ffi ==> (#[trigger] slots[i] matches Some(s) ==> discr_index(s.discr) >= 6)
    &&& forall|i: int| ffi <= i < 32 ==> #[trigger] slots[i] is None
    &&& (ffi == 6 || slots[ffi - 1] is Some)
}

/// Whether the stacking area [6, ffi) holds a status of kind `d`.
pub open spec fn stacked_kind_present<P>(slots: Seq<Option<Status<P>>>, ffi: int, d: StatusEnumDiscriminants) -> bool {
    exists|i: int| 6 <= i < ffi && holds_kind(slots, i, d)
}

/// The table after adding `new`: nothing changes when all 32 slots are in
/// use; a non-stacking kind goes to its reserved slot when that is empty or
/// its kind is replaced on stacking, and is dropped otherwise; a stacking
/// kind is appended at the free index, unless one of its kind is present and
/// its kind refuses a second one.
pub open spec fn spec_add<P>(slots: Seq<Option<Status<P>>>, ffi: int, new: Status<P>) -> (Seq<Option<Status<P>>>, int) {
    let k = discr_index(new.discr);
    if ffi >= 32 {
        (slots, ffi)
    } else if k < 6 {
        if slots[k] is None || spec_stack(new.discr) == StatusStackingResult::Replace {
            (slots.update(k, Some(new)), ffi)
        } else {
            (slots, ffi)
        }
    } else if stacked_kind_present(slots, ffi, new.discr) && spec_stack(new.discr)
        == StatusStackingResult::DontAddTheNewStatus {
        (slots, ffi)
    } else {
        (slots.update(ffi, Some(new)), ffi + 1)
    }
}

/// The free index after the table's tail of empty slots below `ffi` has
/// been given back: the least index f in [6, ffi] with only empty slots in [f, ffi).
pub open spec fn compacted_free_index<P>(slots: Seq<Option<Status<P>>>, ffi: int, f: int) -> bool {
    &&& 6 <= f <= ffi
    &&& forall|j: int| f <= j < ffi ==> #[trigger] slots[j] is None
    &&& (f == 6 || slots[f - 1] is Some)
}

/// The slots with every status of kind `d` taken out.
pub open spec fn spec_remove_kind<P>(slots: Seq<Option<Status<P>>>, d: StatusEnumDiscriminants) -> Seq<Option<Status<P>>> {
    Seq::new(slots.len(), |i: int| if holds_kind(slots, i, d) { None } else { slots[i] })
}

/// Number of used slots among the first `n`.
pub open spec fn used_count<P>(slots: Seq<Option<Status<P>>>, n: int) -> nat
    decreases n,
{
    if n <= 0 {
        0
    } else {
        used_count(slots, n - 1) + if slots[n - 1] is Some { 1nat } else { 0nat }
    }
}

/// What `count` reports: used reserved slots plus the length of the
/// stacking area (its empty slots included).
pub open spec fn spec_count<P>(slots: Seq<Option<Status<P>>>, ffi: int) -> int {
    used_count(slots, 6) + ffi - 6
}

proof fn lemma_used_count_update_above<P>(slots: Seq<Option<Status<P>>>, n: int, i: int, v: Option<Status<P>>)
    requires
        0 <= n <= i < slots.len(),
    ensures
        used_count(slots.update(i, v), n) == used_count(slots, n),
    decreases n,
{
    if n > 0 {
        lemma_used_count_update_above(slots, n - 1, i, v);
    }
}

proof fn lemma_used_count_all_empty<P>(slots: Seq<Option<Status<P>>>, n: int)
    requires
        0 <= n <= slots.len(),
        forall|i: int| 0 <= i < n ==> #[trigger] slots[i] is None,
    ensures
        used_count(slots, n) == 0,
    decreases n,
{
    if n > 0 {
        lemma_used_count_all_empty(slots, n - 1);
    }
}

/// A character may move exactly when no status in use is one of death, a
/// blade dash, a falcon carry, a stun or a phase prism.
pub proof fn law_move_blocked_by_exactly<P>(slots: Seq<Option<Status<P>>>, ffi: int)
    ensures
        (forall|i: int| 0 <= i < ffi ==> (#[trigger] slots[i] matches Some(s) ==> spec_can_target_move(s.discr)))
            <==> !(exists|i: int| 0 <= i < ffi && #[trigger] slots[i] is Some && (slots[i]->0.discr is DeathStatus
            || slots[i]->0.discr is AssaBladeDashStatus || slots[i]->0.discr is FalconCarryStatus
            || slots[i]->0.discr is StunStatus || slots[i]->0.discr is AssaPhasePrismStatus)),
{
}

/// A character may cast exactly when no status in use is one of death, a
/// falcon carry, a stun or a phase prism.
pub proof fn law_cast_blocked_by_exactly<P>(slots: Seq<Option<Status<P>>>, ffi: int)
    ensures
        (forall|i: int| 0 <= i < ffi ==> (#[trigger] slots[i] matches Some(s) ==> spec_can_target_cast(s.discr)))
            <==> !(exists|i: int| 0 <= i < ffi && #[trigger] slots[i] is Some && (slots[i]->0.discr is DeathStatus
            || slots[i]->0.discr is FalconCarryStatus || slots[i]->0.discr is StunStatus
            || slots[i]->0.discr is AssaPhasePrismStatus)),
{
}

/// A character obeys its controller exactly when no status in use is one of
/// death, a blade dash, a falcon carry or a phase prism.
pub proof fn law_control_blocked_by_exactly<P>(slots: Seq<Option<Status<P>>>, ffi: int)
    ensures
        (forall|i: int| 0 <= i < ffi ==> (#[trigger] slots[i] matches Some(s) ==> spec_can_target_be_controlled(s.discr)))
            <==> !(exists|i: int| 0 <= i < ffi && #[trigger] slots[i] is Some && (slots[i]->0.discr is DeathStatus
            || slots[i]->0.discr is AssaBladeDashStatus || slots[i]->0.discr is FalconCarryStatus
            || slots[i]->0.discr is AssaPhasePrismStatus)),
{
}

/// A character can be pushed exactly when no status in use is one of death,
/// an absorb shield, a blade dash, a falcon carry or a phase prism.
pub proof fn law_push_blocked_by_exactly<P>(slots: Seq<Option<Status<P>>>, ffi: int)
    ensures
        (forall|i: int| 0 <= i < ffi ==> (#[trigger] slots[i] matches Some(s) ==> spec_allow_push(s.discr)))
            <==> !(exists|i: int| 0 <= i < ffi && #[trigger] slots[i] is Some && (slots[i]->0.discr is DeathStatus
            || slots[i]->0.discr is AbsorbStatus || slots[i]->0.discr is AssaBladeDashStatus
            || slots[i]->0.discr is FalconCarryStatus || slots[i]->0.discr is AssaPhasePrismStatus)),
{
}

/// Once a status that stops movement (death, a blade dash, a falcon carry,
/// a stun or a phase prism) is added to a table with room, the character
/// cannot move, whatever else the table holds.
pub proof fn law_added_blocking_status_stops_moving<P>(slots: Seq<Option<Status<P>>>, ffi: int, new: Status<P>)
    requires
        table_wf(slots, ffi),
        ffi < 32,
        new.discr is DeathStatus || new.discr is AssaBladeDashStatus || new.discr is FalconCarryStatus
            || new.discr is StunStatus || new.discr is AssaPhasePrismStatus,
    ensures
        ({
            let (a, fa) = spec_add(slots, ffi, new);
            !(forall|i: int| 0 <= i < fa ==> (#[trigger] a[i] matches Some(s) ==> spec_can_target_move(s.discr)))
        }),
{
    let (a, fa) = spec_add(slots, ffi, new);
    let k = discr_index(new.discr);
    if k < 6 {
        if !(slots[k] is None || spec_stack(new.discr) == StatusStackingResult::Replace) {
            assert(slots[k] matches Some(s) ==> discr_index(s.discr) == k);
        }
        assert(a[k] is Some && a[k]->0.discr == new.discr);
        assert(!(a[k] matches Some(s) ==> spec_can_target_move(s.discr)));
    } else {
        assert(a[ffi] == Some(new));
        assert(!(a[ffi] matches Some(s) ==> spec_can_target_move(s.discr)));
    }
}

/// A kind that never stacks is found, in a well-formed table, only in its
/// own reserved slot: there is never more than one status of such a kind.
pub proof fn law_nonstacking_kind_only_in_reserved_slot<P>(
    slots: Seq<Option<Status<P>>>,
    ffi: int,
    d: StatusEnumDiscriminants,
    i: int,
)
    requires
        table_wf(slots, ffi),
        discr_index(d) < 6,
        0 <= i < 32,
        holds_kind(slots, i, d),
    ensures
        i == discr_index(d),
{
    if i < 6 {
        assert(slots[i] matches Some(s) ==> discr_index(s.discr) == i);
    } else if i < ffi {
        assert(slots[i] matches Some(s) ==> discr_index(s.discr) >= 6);
    } else {
        assert(slots[i] is None);
    }
}

/// Adding two statuses of the same non-stacking kind to a table with room
/// leaves its reserved slot in use, every other slot as it was, and the free
/// index where it was.
pub proof fn law_add_nonstacking_twice<P>(
    slots: Seq<Option<Status<P>>>,
    ffi: int,
    first: Status<P>,
    second: Status<P>,
)
    requires
        table_wf(slots, ffi),
        ffi < 32,
        first.discr == second.discr,
        discr_index(first.discr) < 6,
    ensures
        ({
            let (a, fa) = spec_add(slots, ffi, first);
            let (b, fb) = spec_add(a, fa, second);
            let k = discr_index(first.discr);
            &&& fb == ffi
            &&& b[k] is Some
            &&& forall|i: int| 0 <= i < 32 && i != k ==> #[trigger] b[i] == slots[i]
        }),
{
}

/// Adding a status of a stacking kind that its kind accepts, to a table with
/// a free slot, raises the count by one and keeps every status already there.
pub proof fn law_add_stacking_counts_one<P>(slots: Seq<Option<Status<P>>>, ffi: int, new: Status<P>)
    requires
        table_wf(slots, ffi),
        ffi < 32,
        discr_index(new.discr) >= 6,
        !(stacked_kind_present(slots, ffi, new.discr) && spec_stack(new.discr)
            == StatusStackingResult::DontAddTheNewStatus),
    ensures
        ({
            let (a, fa) = spec_add(slots, ffi, new);
            &&& spec_count(a, fa) == spec_count(slots, ffi) + 1
            &&& forall|i: int| 0 <= i < 32 && #[trigger] slots[i] is Some ==> a[i] == slots[i]
        }),
{
    lemma_used_count_update_above(slots, 6, ffi, Some(new));
}

/// After the statuses of a kind are taken out, no slot holds that kind.
pub proof fn law_remove_kind_leaves_none<P>(slots: Seq<Option<Status<P>>>, d: StatusEnumDiscriminants)
    ensures
        forall|i: int| 0 <= i < slots.len() ==> !holds_kind(#[trigger] spec_remove_kind(slots, d), i, d),
{
}

/// A table with every slot empty and the free index reset counts no status.
pub proof fn law_empty_table_counts_zero<P>(slots: Seq<Option<Status<P>>>)
    requires
        slots.len() == 32,
        forall|i: int| 0 <= i < 32 ==> #[trigger] slots[i] is None,
    ensures
        spec_count(slots, 6) == 0,
{
    lemma_used_count_all_empty(slots, 6);
}

/// The fixed-size table of the statuses on one character.
/// Whether the update of slot `i` asked for its status to go: the slot is
/// below the free index, holds a status, and its update said so.
pub open spec fn removal_requested<P>(
    slots: Seq<Option<Status<P>>>,
    ffi: int,
    results: Seq<StatusUpdateResult>,
    i: int,
) -> bool {
    &&& 0 <= i < ffi
    &&& slots[i] is Some
    &&& results[i] == StatusUpdateResult::RemoveIt
}

/// Colour (red, green, blue, alpha) a status of kind `d` tints its
/// character with; a death status fades to `death_alpha`.
pub open spec fn kind_color(d: StatusEnumDiscriminants, death_alpha: u8) -> Seq<u8> {
    match d {
        StatusEnumDiscriminants::AssaBladeDashStatus => seq![0u8, 0u8, 0u8, 0u8],
        StatusEnumDiscriminants::AssaPhasePrismStatus => seq![0u8, 255u8, 255u8, 255u8],
        StatusEnumDiscriminants::PoisonStatus => seq![128u8, 255u8, 128u8, 255u8],
        StatusEnumDiscriminants::DeathStatus => seq![255u8, 255u8, 255u8, death_alpha],
        _ => seq![255u8, 255u8, 255u8, 255u8],
    }
}

/// One colour channel tinted by another: their product over 255, rounded down.
pub open spec fn mix(a: u8, b: u8) -> u8 {
    (a as int * b as int / 255) as u8
}

/// White tinted by the statuses of the first `n` slots, in slot order.
pub open spec fn render_color_upto<P>(slots: Seq<Option<Status<P>>>, n: int, death_alpha: u8) -> Seq<u8>
    decreases n,
{
    if n <= 0 {
        seq![255u8, 255u8, 255u8, 255u8]
    } else {
        let prev = render_color_upto(slots, n - 1, death_alpha);
        match slots[n - 1] {
            Some(s) => {
                let c = kind_color(s.discr, death_alpha);
                seq![mix(prev[0], c[0]), mix(prev[1], c[1]), mix(prev[2], c[2]), mix(prev[3], c[3])]
            },
            None => prev,
        }
    }
}

proof fn lemma_render_color_len<P>(slots: Seq<Option<Status<P>>>, n: int, death_alpha: u8)
    ensures
        render_color_upto(slots, n, death_alpha).len() == 4,
    decreases n,
{
    if n > 0 {
        lemma_render_color_len(slots, n - 1, death_alpha);
    }
}

/// `mix`, computed.
fn mix_channel(a: u8, b: u8) -> (r: u8)
    ensures
        r == mix(a, b),
{
    assert(a as u32 * b as u32 <= 255 * 255) by (nonlinear_arith)
        requires
            a <= 255,
            b <= 255,
    ;
    assert((a as u32 * b as u32) / 255 <= 255) by (nonlinear_arith)
        requires
            a as u32 * b as u32 <= 255 * 255,
    ;
    ((a as u32 * b as u32) / 255) as u8
}

impl StatusEnumDiscriminants {
    /// The tint of a status of this kind; see `kind_color`.
    pub fn render_color(self, death_alpha: u8) -> (r: [u8; 4])
        ensures
            r@ == kind_color(self, death_alpha),
    {
        let r: [u8; 4] = match self {
            StatusEnumDiscriminants::AssaBladeDashStatus => [0, 0, 0, 0],
            StatusEnumDiscriminants::AssaPhasePrismStatus => [0, 255, 255, 255],
            StatusEnumDiscriminants::PoisonStatus => [128, 255, 128, 255],
            StatusEnumDiscriminants::DeathStatus => [255, 255, 255, death_alpha],
            _ => [255, 255, 255, 255],
        };
        assert(r@ =~= kind_color(self, death_alpha));
        r
    }
}

/// Whether bit `i` of `m` is set.
pub open spec fn bit_set(m: u32, i: int) -> bool {
    (1u32 << (i as u32)) & m > 0
}

proof fn lemma_bit_set(r: u32, i: u32, j: u32)
    by (bit_vector)
    requires
        i < 32,
        j < 32,
    ensures
        ((1u32 << j) & (r | (1u32 << i)) > 0) <==> ((1u32 << j) & r > 0 || j == i),
{
}

proof fn lemma_no_bit_in_zero(j: u32)
    by (bit_vector)
    requires
        j < 32,
    ensures
        !((1u32 << j) & 0u32 > 0),
{
}

/// Law: removing the statuses that an update marked removes exactly those
/// whose update asked for it, and keeps every other slot.
pub proof fn law_update_then_remove<P>(
    slots: Seq<Option<Status<P>>>,
    ffi: int,
    results: Seq<StatusUpdateResult>,
    mask: u32,
    after: Seq<Option<Status<P>>>,
)
    requires
        slots.len() == 32,
        forall|i: int| 0 <= i < 32 ==> (#[trigger] bit_set(mask, i) <==> removal_requested(slots, ffi, results, i)),
        forall|i: int| 0 <= i < 32 ==> #[trigger] after[i] == (if bit_set(mask, i) {
            None
        } else {
            slots[i]
        }),
    ensures
        forall|i: int| 0 <= i < 32 ==> (#[trigger] after[i] is None <==> (slots[i] is None || removal_requested(slots, ffi, results, i))),
        forall|i: int| 0 <= i < 32 && !removal_requested(slots, ffi, results, i) ==> #[trigger] after[i] == slots[i],
{
}

pub struct Statuses<P> {
    statuses: Vec<Option<Status<P>>>,
    first_free_index: usize,
}

impl<P> Statuses<P> {
    /// The 32 slots.
    pub closed spec fn slots(&self) -> Seq<Option<Status<P>>> {
        self.statuses@
    }

    /// The free index: one past the last slot the stacking area may use.
    pub closed spec fn free_index(&self) -> int {
        self.first_free_index as int
    }

    pub open spec fn wf(&self) -> bool {
        table_wf(self.slots(), self.free_index())
    }

    /// An empty table.
    pub fn new() -> (r: Statuses<P>)
        ensures
            r.wf(),
            r.free_index() == NONSTACKABLE_STATUS_COUNT,
            forall|i: int| 0 <= i < 32 ==> #[trigger] r.slots()[i] is None,
    {
        let mut statuses: Vec<Option<Status<P>>> = Vec::new();
        let mut i: usize = 0;
        while i < STATUS_ARRAY_SIZE
            invariant
                i <= 32,
                statuses@.len() == i,
                forall|j: int| 0 <= j < i ==> #[trigger] statuses@[j] is None,
            decreases 32 - i,
        {
            statuses.push(None);
            i = i + 1;
        }
        Statuses { statuses, first_free_index: NONSTACKABLE_STATUS_COUNT }
    }

    /// All 32 slots.
    pub fn get_statuses(&self) -> (r: &Vec<Option<Status<P>>>)
        ensures
            r@ == self.slots(),
    {
        &self.statuses
    }

    /// The free index.
    pub fn first_free_index(&self) -> (r: usize)
        ensures
            r == self.free_index(),
    {
        self.first_free_index
    }

    /// Whether no status up to the free index forbids moving.
    pub fn can_move(&self) -> (r: bool)
        requires
            self.wf(),
        ensures
            r == forall|i: int| 0 <= i < self.free_index() ==> (#[trigger] self.slots()[i] matches Some(s)
                ==> spec_can_target_move(s.discr)),
    {
        let mut allow = true;
        let mut i: usize = 0;
        while i < self.first_free_index
            invariant
                self.wf(),
                i <= self.first_free_index,
                allow == forall|j: int| 0 <= j < i ==> (#[trigger] self.slots()[j] matches Some(s)
                    ==> spec_can_target_move(s.discr)),
            decreases self.first_free_index - i,
        {
            let can = match &self.statuses[i] {
                Some(s) => s.discr.can_target_move(),
                None => true,
            };
            allow = allow && can;
            i = i + 1;
        }
        allow
    }

    /// Whether no status up to the free index forbids casting.
    pub fn can_cast(&self) -> (r: bool)
        requires
            self.wf(),
        ensures
            r == forall|i: int| 0 <= i < self.free_index() ==> (#[trigger] self.slots()[i] matches Some(s)
                ==> spec_can_target_cast(s.discr)),
    {
        let mut allow = true;
        let mut i: usize = 0;
        while i < self.first_free_index
            invariant
                self.wf(),
                i <= self.first_free_index,
                allow == forall|j: int| 0 <= j < i ==> (#[trigger] self.slots()[j] matches Some(s)
                    ==> spec_can_target_cast(s.discr)),
            decreases self.first_free_index - i,
        {
            let can = match &self.statuses[i] {
                Some(s) => s.discr.can_target_cast(),
                None => true,
            };
            allow = allow && can;
            i = i + 1;
        }
        allow
    }

    /// Whether no status up to the free index takes control away.
    pub fn can_be_controlled(&self) -> (r: bool)
        requires
            self.wf(),
        ensures
            r == forall|i: int| 0 <= i < self.free_index() ==> (#[trigger] self.slots()[i] matches Some(s)
                ==> spec_can_target_be_controlled(s.discr)),
    {
        let mut allow = true;
        let mut i: usize = 0;
        while i < self.first_free_index
            invariant
                self.wf(),
                i <= self.first_free_index,
                allow == forall|j: int| 0 <= j < i ==> (#[trigger] self.slots()[j] matches Some(s)
                    ==> spec_can_target_be_controlled(s.discr)),
            decreases self.first_free_index - i,
        {
            let can = match &self.statuses[i] {
                Some(s) => s.discr.can_target_be_controlled(),
                None => true,
            };
            allow = allow && can;
            i = i + 1;
        }
        allow
    }

    /// Whether no status up to the free index prevents being pushed.
    pub fn allow_push(&self) -> (r: bool)
        requires
            self.wf(),
        ensures
            r == forall|i: int| 0 <= i < self.free_index() ==> (#[trigger] self.slots()[i] matches Some(s)
                ==> spec_allow_push(s.discr)),
    {
        let mut allow = true;
        let mut i: usize = 0;
        while i < self.first_free_index
            invariant
                self.wf(),
                i <= self.first_free_index,
                allow == forall|j: int| 0 <= j < i ==> (#[trigger] self.slots()[j] matches Some(s)
                    ==> spec_allow_push(s.discr)),
            decreases self.first_free_index - i,
        {
            let can = match &self.statuses[i] {
                Some(s) => s.discr.allow_push(),
                None => true,
            };
            allow = allow && can;
            i = i + 1;
        }
        allow
    }

    /// Whether the mounted slot is in use.
    pub fn is_mounted(&self) -> (r: bool)
        requires
            self.wf(),
        ensures
            r == self.slots()[0] is Some,
    {
        self.statuses[0].is_some()
    }
}


impl<P> Statuses<P> {
    /// Where a status of kind number `adding` would stack and how: its
    /// reserved slot for a non-stacking kind (an empty reserved slot is
    /// replaced), the first slot of the stacking area holding the same kind
    /// otherwise, or the free index with `AddTheNewStatus` when there is none.
    fn find_stacking(&self, adding: usize, new_status: &Status<P>) -> (r: (usize, StatusStackingResult))
        requires
            self.wf(),
            adding == discr_index(new_status.discr),
        ensures
            adding < 6 ==> r.0 == adding && r.1 == (if self.slots()[adding as int] is None {
                StatusStackingResult::Replace
            } else {
                spec_stack(new_status.discr)
            }),
            adding >= 6 && stacked_kind_present(self.slots(), self.free_index(), new_status.discr) ==> 6
                <= r.0 < self.free_index() && holds_kind(self.slots(), r.0 as int, new_status.discr)
                && r.1 == spec_stack(new_status.discr),
            adding >= 6 && !stacked_kind_present(self.slots(), self.free_index(), new_status.discr)
                ==> r.0 == self.free_index() && r.1 == StatusStackingResult::AddTheNewStatus,
    {
        let mut i: usize = 0;
        while i < self.first_free_index
            invariant
                self.wf(),
                adding == discr_index(new_status.discr),
                i <= self.first_free_index,
                adding < 6 ==> i <= adding,
                forall|j: int| 6 <= j < i ==> !holds_kind(self.slots(), j, new_status.discr),
            decreases self.first_free_index - i,
        {
            if i < NONSTACKABLE_STATUS_COUNT {
                if i == adding {
                    let stack_type = match &self.statuses[i] {
                        Some(s) => s.stack(new_status),
                        None => StatusStackingResult::Replace,
                    };
                    return (i, stack_type);
                }
            } else {
                match &self.statuses[i] {
                    Some(s) => {
                        if s.discr.index() == adding {
                            assert(s.discr == new_status.discr);
                            assert(holds_kind(self.slots(), i as int, new_status.discr));
                            return (i, s.stack(new_status));
                        }
                    },
                    None => {},
                }
            }
            i = i + 1;
        }
        (self.first_free_index, StatusStackingResult::AddTheNewStatus)
    }

    /// Adds `new_status` according to the stacking rules of its kind (see
    /// `spec_add`).
    pub fn add(&mut self, new_status: Status<P>)
        requires
            old(self).wf(),
        ensures
            final(self).wf(),
            (final(self).slots(), final(self).free_index()) == spec_add(
                old(self).slots(),
                old(self).free_index(),
                new_status,
            ),
    {
        if self.first_free_index >= STATUS_ARRAY_SIZE {
            return;
        }
        let adding = new_status.discr.index();
        let (current_index, stack_type) = self.find_stacking(adding, &new_status);
        let ghost old_slots = self.slots();
        let ghost new_value = new_status;
        match stack_type {
            StatusStackingResult::Replace => {
                self.statuses[current_index] = Some(new_status);
                proof {
                    assert(self.slots() == old_slots.update(current_index as int, Some(new_value)));
                }
            },
            StatusStackingResult::AddTheNewStatus => {
                let ffi = self.first_free_index;
                self.statuses[ffi] = Some(new_status);
                self.first_free_index = ffi + 1;
                proof {
                    assert(self.slots() == old_slots.update(ffi as int, Some(new_value)));
                }
            },
            StatusStackingResult::DontAddTheNewStatus => {},
        }
    }

    /// Gives back the empty slots at the end of the stacking area.
    fn move_free_index(&mut self)
        requires
            old(self).slots().len() == 32,
            6 <= old(self).free_index() <= 32,
        ensures
            final(self).slots() == old(self).slots(),
            compacted_free_index(old(self).slots(), old(self).free_index(), final(self).free_index()),
    {
        while self.first_free_index > NONSTACKABLE_STATUS_COUNT && self.statuses[self.first_free_index
            - 1].is_none()
            invariant
                self.slots() == old(self).slots(),
                old(self).slots().len() == 32,
                old(self).free_index() <= 32,
                6 <= self.free_index() <= old(self).free_index(),
                forall|j: int| self.free_index() <= j < old(self).free_index() ==> #[trigger] self.slots()[j] is None,
            decreases self.first_free_index,
        {
            self.first_free_index = self.first_free_index - 1;
        }
    }

    /// Empties every slot and resets the free index.
    pub fn remove_all(&mut self)
        requires
            old(self).wf(),
        ensures
            final(self).wf(),
            final(self).free_index() == NONSTACKABLE_STATUS_COUNT,
            forall|i: int| 0 <= i < 32 ==> #[trigger] final(self).slots()[i] is None,
    {
        let mut i: usize = 0;
        while i < self.first_free_index
            invariant
                self.slots().len() == 32,
                self.free_index() == old(self).free_index(),
                old(self).wf(),
                i <= self.first_free_index,
                forall|j: int| 0 <= j < i ==> #[trigger] self.slots()[j] is None,
                forall|j: int| i <= j < 32 ==> #[trigger] self.slots()[j] == old(self).slots()[j],
            decreases self.first_free_index - i,
        {
            self.statuses[i] = None;
            i = i + 1;
        }
        self.first_free_index = NONSTACKABLE_STATUS_COUNT;
    }

    /// Empties every slot below the free index holding a status of kind
    /// `discr`, then gives back the empty slots at the end.
    pub fn remove(&mut self, discr: StatusEnumDiscriminants)
        requires
            old(self).wf(),
        ensures
            final(self).wf(),
            final(self).slots() == spec_remove_kind(old(self).slots(), discr),
            compacted_free_index(final(self).slots(), old(self).free_index(), final(self).free_index()),
    {
        let mut i: usize = 0;
        while i < self.first_free_index
            invariant
                self.slots().len() == 32,
                self.free_index() == old(self).free_index(),
                old(self).wf(),
                i <= self.first_free_index,
                forall|j: int| 0 <= j < i ==> #[trigger] self.slots()[j] == (if holds_kind(
                    old(self).slots(),
                    j,
                    discr,
                ) {
                    None
                } else {
                    old(self).slots()[j]
                }),
                forall|j: int| i <= j < 32 ==> #[trigger] self.slots()[j] == old(self).slots()[j],
            decreases self.first_free_index - i,
        {
            let should_remove = match &self.statuses[i] {
                Some(s) => s.discr == discr,
                None => false,
            };
            if should_remove {
                self.statuses[i] = None;
            }
            i = i + 1;
        }
        proof {
            assert(self.slots() =~= spec_remove_kind(old(self).slots(), discr));
        }
        self.move_free_index();
    }

    /// Empties every slot below the free index whose status has the nature
    /// `status_type`; every status is supportive, so this empties all of them
    /// or none. Then gives back the empty slots at the end.
    pub fn remove_by_nature(&mut self, status_type: StatusNature)
        requires
            old(self).wf(),
        ensures
            final(self).wf(),
            forall|i: int| 0 <= i < 32 ==> #[trigger] final(self).slots()[i] == (if status_type
                == StatusNature::Supportive {
                None
            } else {
                old(self).slots()[i]
            }),
            compacted_free_index(final(self).slots(), old(self).free_index(), final(self).free_index()),
    {
        let mut i: usize = 0;
        while i < self.first_free_index
            invariant
                self.slots().len() == 32,
                self.free_index() == old(self).free_index(),
                old(self).wf(),
                i <= self.first_free_index,
                forall|j: int| 0 <= j < i ==> #[trigger] self.slots()[j] == (if status_type
                    == StatusNature::Supportive {
                    None
                } else {
                    old(self).slots()[j]
                }),
                forall|j: int| i <= j < 32 ==> #[trigger] self.slots()[j] == old(self).slots()[j],
            decreases self.first_free_index - i,
        {
            let should_remove = match &self.statuses[i] {
                Some(s) => s.discr.typ() == status_type,
                None => false,
            };
            if should_remove {
                self.statuses[i] = None;
            }
            i = i + 1;
        }
        self.move_free_index();
    }

    /// Empties every slot whose status `predicate` holds for (asked once
    /// per status, in slot order), then gives back the empty slots at the end.
    pub fn remove_if<F: Fn(&Status<P>) -> bool>(&mut self, predicate: F)
        requires
            old(self).wf(),
            forall|s: &Status<P>| #[trigger] predicate.requires((s,)),
        ensures
            final(self).wf(),
            forall|i: int| 0 <= i < 32 ==> match #[trigger] old(self).slots()[i] {
                Some(s) => (final(self).slots()[i] is None && predicate.ensures((&s,), true)) || (
                final(self).slots()[i] == Some(s) && predicate.ensures((&s,), false)),
                None => final(self).slots()[i] is None,
            },
            compacted_free_index(final(self).slots(), old(self).free_index(), final(self).free_index()),
    {
        let mut i: usize = 0;
        while i < self.first_free_index
            invariant
                self.slots().len() == 32,
                self.free_index() == old(self).free_index(),
                old(self).wf(),
                forall|s: &Status<P>| #[trigger] predicate.requires((s,)),
                i <= self.first_free_index,
                forall|j: int| 0 <= j < i ==> match #[trigger] old(self).slots()[j] {
                    Some(s) => (self.slots()[j] is None && predicate.ensures((&s,), true)) || (
                    self.slots()[j] == Some(s) && predicate.ensures((&s,), false)),
                    None => self.slots()[j] is None,
                },
                forall|j: int| i <= j < 32 ==> #[trigger] self.slots()[j] == old(self).slots()[j],
            decreases self.first_free_index - i,
        {
            let should_remove = match &self.statuses[i] {
                Some(s) => predicate(s),
                None => false,
            };
            if should_remove {
                self.statuses[i] = None;
            }
            i = i + 1;
        }
        assert forall|j: int| 0 <= j < 32 implies (#[trigger] self.slots()[j] is None || self.slots()[j]
            == old(self).slots()[j]) by {
            let _ = old(self).slots()[j];
        }
        self.move_free_index();
    }

    /// Empties the slots whose bit is set in `bit_indices` (bit i for slot i),
    /// then gives back the empty slots at the end.
    pub fn remove_statuses(&mut self, bit_indices: u32)
        requires
            old(self).wf(),
        ensures
            final(self).wf(),
            forall|i: int| 0 <= i < 32 ==> #[trigger] final(self).slots()[i] == (if (1u32 << (i as u32))
                & bit_indices > 0 {
                None
            } else {
                old(self).slots()[i]
            }),
            compacted_free_index(final(self).slots(), old(self).free_index(), final(self).free_index()),
    {
        let mut i: u32 = 0;
        while i < 32
            invariant
                self.slots().len() == 32,
                self.free_index() == old(self).free_index(),
                old(self).wf(),
                i <= 32,
                forall|j: int| 0 <= j < i ==> #[trigger] self.slots()[j] == (if (1u32 << (j as u32))
                    & bit_indices > 0 {
                    None
                } else {
                    old(self).slots()[j]
                }),
                forall|j: int| i <= j < 32 ==> #[trigger] self.slots()[j] == old(self).slots()[j],
            decreases 32 - i,
        {
            if (1u32 << i) & bit_indices > 0 {
                self.statuses[i as usize] = None;
            }
            i = i + 1;
        }
        self.move_free_index();
    }

    /// The first status of kind `requested_type_id` in the whole table.
    pub fn get_status(&self, requested_type_id: StatusEnumDiscriminants) -> (r: Option<&Status<P>>)
        requires
            self.wf(),
        ensures
            match r {
                Some(s) => exists|i: int|
                    0 <= i < 32 && #[trigger] self.slots()[i] == Some(*s) && s.discr == requested_type_id
                        && forall|j: int| 0 <= j < i ==> !holds_kind(self.slots(), j, requested_type_id),
                None => forall|i: int| 0 <= i < 32 ==> !holds_kind(self.slots(), i, requested_type_id),
            },
    {
        let mut i: usize = 0;
        while i < STATUS_ARRAY_SIZE
            invariant
                self.wf(),
                i <= 32,
                forall|j: int| 0 <= j < i ==> !holds_kind(self.slots(), j, requested_type_id),
            decreases 32 - i,
        {
            match &self.statuses[i] {
                Some(s) => {
                    if s.discr == requested_type_id {
                        return Some(s);
                    }
                },
                None => {},
            }
            i = i + 1;
        }
        None
    }

    /// The update decisions as a bit set: bit `i` is set when slot `i` lies
    /// below the free index, holds a status, and `results[i]`, the outcome of
    /// that status's update, is `RemoveIt`.
    pub fn update(&self, results: &Vec<StatusUpdateResult>) -> (r: u32)
        requires
            self.wf(),
            results@.len() >= self.free_index(),
        ensures
            forall|i: int| 0 <= i < 32 ==> (#[trigger] bit_set(r, i) <==> removal_requested(
                self.slots(),
                self.free_index(),
                results@,
                i,
            )),
    {
        let mut changed: u32 = 0;
        proof {
            assert forall|j: int| 0 <= j < 32 implies !#[trigger] bit_set(0u32, j) by {
                lemma_no_bit_in_zero(j as u32);
            }
        }
        let mut i: usize = 0;
        while i < STATUS_ARRAY_SIZE
            invariant
                self.wf(),
                results@.len() >= self.free_index(),
                i <= 32,
                forall|j: int| 0 <= j < 32 ==> (#[trigger] bit_set(changed, j) <==> (j < i
                    && removal_requested(self.slots(), self.free_index(), results@, j))),
            decreases 32 - i,
        {
            if i < self.first_free_index && self.statuses[i].is_some() {
                match results[i] {
                    StatusUpdateResult::RemoveIt => {
                        proof {
                            assert forall|j: int| 0 <= j < 32 implies (#[trigger] bit_set(changed
                                | (1u32 << (i as u32)), j) <==> (bit_set(changed, j) || j == i)) by {
                                lemma_bit_set(changed, i as u32, j as u32);
                            }
                        }
                        changed = changed | (1u32 << (i as u32));
                    },
                    StatusUpdateResult::KeepIt => {},
                }
            }
            i = i + 1;
        }
        changed
    }

    /// White tinted by every status below the free index, in slot order;
    /// a death status fades to `death_alpha`.
    pub fn calc_render_color(&self, death_alpha: u8) -> (r: [u8; 4])
        requires
            self.wf(),
        ensures
            r@ == render_color_upto(self.slots(), self.free_index(), death_alpha),
    {
        let mut c0: u8 = 255;
        let mut c1: u8 = 255;
        let mut c2: u8 = 255;
        let mut c3: u8 = 255;
        let mut i: usize = 0;
        while i < self.first_free_index
            invariant
                self.wf(),
                i <= self.free_index(),
                seq![c0, c1, c2, c3] == render_color_upto(self.slots(), i as int, death_alpha),
            decreases self.free_index() - i,
        {
            match &self.statuses[i] {
                Some(s) => {
                    let c = s.discr.render_color(death_alpha);
                    c0 = mix_channel(c0, c[0]);
                    c1 = mix_channel(c1, c[1]);
                    c2 = mix_channel(c2, c[2]);
                    c3 = mix_channel(c3, c[3]);
                },
                None => {},
            }
            i = i + 1;
        }
        let r: [u8; 4] = [c0, c1, c2, c3];
        assert(r@ =~= seq![c0, c1, c2, c3]);
        r
    }

    /// Number of used reserved slots plus the length of the stacking area.
    pub fn count(&self) -> (r: usize)
        requires
            self.wf(),
        ensures
            r == spec_count(self.slots(), self.free_index()),
    {
        let secondary_status_count = self.first_free_index - NONSTACKABLE_STATUS_COUNT;
        let mut main_status_count: usize = 0;
        let mut i: usize = 0;
        while i < NONSTACKABLE_STATUS_COUNT
            invariant
                self.wf(),
                i <= 6,
                main_status_count == used_count(self.slots(), i as int),
                main_status_count <= i,
            decreases 6 - i,
        {
            if self.statuses[i].is_some() {
                main_status_count = main_status_count + 1;
            }
            i = i + 1;
        }
        main_status_count + secondary_status_count
    }
}
} // verus!
