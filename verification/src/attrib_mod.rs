//! Statuses that change an attribute of a character for a while, and the
//! collector that gathers such changes.
//!
//! Game time is counted here in whole milliseconds since the start of the
//! game.
use vstd::prelude::*;
use crate::statuses::StatusUpdateResult;

verus! {

/// A point of game time, in milliseconds.
#[derive(Clone, Copy, Debug, PartialEq, Eq, Structural)]
pub struct ElapsedTime(pub u64);

impl ElapsedTime {
    /// The time `millis` milliseconds later.
    pub fn add_millis(self, millis: u64) -> (r: ElapsedTime)
        requires
            self.0 + millis <= u64::MAX,
        ensures
            r.0 == self.0 + millis,
    {
        ElapsedTime(self.0 + millis)
    }

    /// Whether this point of time is at or before `now`.
    pub fn has_already_passed(self, now: ElapsedTime) -> (r: bool)
        ensures
            r == (self.0 <= now.0),
    {
        self.0 <= now.0
    }

    /// Whether this point of time is after `now`.
    pub fn has_not_passed_yet(self, now: ElapsedTime) -> (r: bool)
        ensures
            r == (self.0 > now.0),
    {
        self.0 > now.0
    }
}

/// A percentage, in whole percent.
#[derive(Clone, Copy, Debug, PartialEq, Eq, Structural)]
pub struct Percentage(pub i32);

/// The percentage `value` percent.
pub fn percentage(value: i32) -> (r: Percentage)
    ensures
        r.0 == value,
{
    Percentage(value)
}

/// How a status changes an attribute.
#[derive(Clone, Copy, Debug, PartialEq, Eq, Structural)]
pub enum CharAttributeModifier {
    AddPercentage(Percentage),
    AddValue(i32),
    IncreaseByPercentage(Percentage),
}

/// Which attribute a change applies to.
#[derive(Clone, Copy, Debug, PartialEq, Eq, Structural)]
pub enum CharAttributeKind {
    Armor,
    WalkingSpeed,
}

/// One gathered change: the attribute, how it changes, and the time span of
/// the status that causes it.
#[derive(Clone, Copy, Debug, PartialEq, Eq, Structural)]
pub struct AttributeChange {
    pub attribute: CharAttributeKind,
    pub modifier: CharAttributeModifier,
    pub started: ElapsedTime,
    pub until: ElapsedTime,
}

/// The attribute changes gathered from a character's statuses, in order.
pub struct CharAttributeModifierCollector {
    changes: Vec<AttributeChange>,
}

impl CharAttributeModifierCollector {
    pub closed spec fn view(&self) -> Seq<AttributeChange> {
        self.changes@
    }

    pub fn new() -> (r: Self)
        ensures
            r.view() == Seq::<AttributeChange>::empty(),
    {
        CharAttributeModifierCollector { changes: Vec::new() }
    }

    /// Forgets every gathered change.
    pub fn clear(&mut self)
        ensures
            final(self).view() == Seq::<AttributeChange>::empty(),
    {
        self.changes.clear();
    }

    /// The gathered changes.
    pub fn changes(&self) -> (r: &Vec<AttributeChange>)
        ensures
            r@ == self.view(),
    {
        &self.changes
    }

    /// Records a change of the armor.
    pub fn change_armor(&mut self, modifier: CharAttributeModifier, started: ElapsedTime, until: ElapsedTime)
        ensures
            final(self).view() == old(self).view().push(
                AttributeChange { attribute: CharAttributeKind::Armor, modifier, started, until },
            ),
    {
        self.changes.push(AttributeChange { attribute: CharAttributeKind::Armor, modifier, started, until });
    }

    /// Records a change of the walking speed.
    pub fn change_walking_speed(&mut self, modifier: CharAttributeModifier, started: ElapsedTime, until: ElapsedTime)
        ensures
            final(self).view() == old(self).view().push(
                AttributeChange { attribute: CharAttributeKind::WalkingSpeed, modifier, started, until },
            ),
    {
        self.changes.push(
            AttributeChange { attribute: CharAttributeKind::WalkingSpeed, modifier, started, until },
        );
    }
}

/// How long an armor change lasts, in milliseconds.
pub const ARMOR_MODIFIER_DURATION_MILLIS: u64 = 10_000;

/// Armor raised or lowered by a percentage for ten seconds.
#[derive(Clone, Copy, Debug, PartialEq, Eq, Structural)]
pub struct ArmorModifierStatus {
    pub started: ElapsedTime,
    pub until: ElapsedTime,
    pub modifier: Percentage,
}

impl ArmorModifierStatus {
    /// The status starting at `now` and ending ten seconds later.
    pub fn new(now: ElapsedTime, modifier: Percentage) -> (r: ArmorModifierStatus)
        requires
            now.0 + ARMOR_MODIFIER_DURATION_MILLIS <= u64::MAX,
        ensures
            r.started == now,
            r.until.0 == now.0 + ARMOR_MODIFIER_DURATION_MILLIS,
            r.modifier == modifier,
    {
        ArmorModifierStatus { started: now, until: now.add_millis(ARMOR_MODIFIER_DURATION_MILLIS), modifier }
    }

    /// Records the armor change this status causes.
    pub fn calc_attribs(&self, modifiers: &mut CharAttributeModifierCollector)
        ensures
            final(modifiers).view() == old(modifiers).view().push(
                AttributeChange {
                    attribute: CharAttributeKind::Armor,
                    modifier: CharAttributeModifier::AddPercentage(self.modifier),
                    started: self.started,
                    until: self.until,
                },
            ),
    {
        modifiers.change_armor(CharAttributeModifier::AddPercentage(self.modifier), self.started, self.until);
    }

    /// The status ends once its end time has come.
    pub fn update(&mut self, now: ElapsedTime) -> (r: StatusUpdateResult)
        ensures
            *final(self) == *old(self),
            r == (if old(self).until.0 <= now.0 {
                StatusUpdateResult::RemoveIt
            } else {
                StatusUpdateResult::KeepIt
            }),
    {
        if self.until.has_already_passed(now) {
            StatusUpdateResult::RemoveIt
        } else {
            StatusUpdateResult::KeepIt
        }
    }
}

/// Walking speed raised or lowered by a percentage for a while.
#[derive(Clone, Copy, Debug, PartialEq, Eq, Structural)]
pub struct WalkingSpeedModifierStatus {
    pub started: ElapsedTime,
    pub until: ElapsedTime,
    pub modifier: Percentage,
}

impl WalkingSpeedModifierStatus {
    /// The status starting at `now` and lasting `duration_millis`.
    pub fn new(now: ElapsedTime, modifier: Percentage, duration_millis: u64) -> (r: WalkingSpeedModifierStatus)
        requires
            now.0 + duration_millis <= u64::MAX,
        ensures
            r.started == now,
            r.until.0 == now.0 + duration_millis,
            r.modifier == modifier,
    {
        WalkingSpeedModifierStatus { started: now, until: now.add_millis(duration_millis), modifier }
    }

    /// Records the walking-speed change this status causes.
    pub fn calc_attribs(&self, modifiers: &mut CharAttributeModifierCollector)
        ensures
            final(modifiers).view() == old(modifiers).view().push(
                AttributeChange {
                    attribute: CharAttributeKind::WalkingSpeed,
                    modifier: CharAttributeModifier::AddPercentage(self.modifier),
                    started: self.started,
                    until: self.until,
                },
            ),
    {
        modifiers.change_walking_speed(
            CharAttributeModifier::AddPercentage(self.modifier),
            self.started,
            self.until,
        );
    }

    /// The status ends once its end time has come.
    pub fn update(&mut self, now: ElapsedTime) -> (r: StatusUpdateResult)
        ensures
            *final(self) == *old(self),
            r == (if old(self).until.0 <= now.0 {
                StatusUpdateResult::RemoveIt
            } else {
                StatusUpdateResult::KeepIt
            }),
    {
        if self.until.has_already_passed(now) {
            StatusUpdateResult::RemoveIt
        } else {
            StatusUpdateResult::KeepIt
        }
    }
}

} // verus!
