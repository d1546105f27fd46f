//! The `spawn_area` console command: which effect the spawned area applies,
//! and its size, period and duration, read from the command's arguments
//! with their defaults.
use vstd::prelude::*;
use crate::attrib_mod::{percentage, Percentage};

verus! {

/// Status names that `spawn_area` and `add_status` accept.
pub open spec fn spec_status_names() -> Seq<Seq<char>> {
    seq!["absorb"@, "poison"@, "firebomb"@, "armor"@]
}

fn owned(s: &str) -> (r: String)
    ensures
        r@ == s@,
{
    s.to_owned()
}

/// The status names: absorb, poison, firebomb and armor.
pub fn status_names() -> (r: Vec<String>)
    ensures
        r@.map_values(|s: String| s@) == spec_status_names(),
{
    let r = vec![owned("absorb"), owned("poison"), owned("firebomb"), owned("armor")];
    assert(r@.map_values(|s: String| s@) =~= spec_status_names());
    r
}

/// Completion candidates of the `spawn_area` arguments: for the first, the
/// status names followed by `heal` and `damage`; none for the others.
pub fn spawn_area_completion(index: usize) -> (r: Option<Vec<String>>)
    ensures
        index == 0 <==> r is Some,
        r matches Some(v) ==> v@.map_values(|s: String| s@) == spec_status_names() + seq!["heal"@, "damage"@],
{
    if index == 0 {
        let mut names = status_names();
        names.push(owned("heal"));
        names.push(owned("damage"));
        assert(names@.map_values(|s: String| s@) =~= spec_status_names() + seq!["heal"@, "damage"@]);
        Some(names)
    } else {
        None
    }
}

/// What the spawned area does to the characters in it.
#[derive(PartialEq, Eq, Structural, Clone, Copy, Debug)]
pub enum AreaEffect {
    /// Heals by the amount.
    Heal(u32),
    /// Deals the amount as damage.
    Damage(u32),
    /// Applies the named status.
    Status,
}

/// `value` clamped below at zero.
pub open spec fn non_negative(value: i32) -> u32 {
    if value < 0 { 0 } else { value as u32 }
}

/// The effect named by the command's first argument: `heal` and `damage`
/// take the value, clamped below at zero; any other name is a status.
pub open spec fn spec_area_effect(name: Seq<char>, value: i32) -> AreaEffect {
    if name == "heal"@ {
        AreaEffect::Heal(non_negative(value))
    } else if name == "damage"@ {
        AreaEffect::Damage(non_negative(value))
    } else {
        AreaEffect::Status
    }
}

/// The effect of an area spawned with `name` and `value`.
pub fn area_effect(name: &str, value: i32) -> (r: AreaEffect)
    ensures
        r == spec_area_effect(name@, value),
{
    let n = owned(name);
    let amount: u32 = if value < 0 { 0 } else { value as u32 };
    if n == owned("heal") {
        AreaEffect::Heal(amount)
    } else if n == owned("damage") {
        AreaEffect::Damage(amount)
    } else {
        AreaEffect::Status
    }
}

/// Size, period and duration of a spawned area.
#[derive(PartialEq, Eq, Structural, Clone, Copy, Debug)]
pub struct SpawnAreaSettings {
    pub value: i32,
    pub width: u16,
    pub height: u16,
    pub interval_ms: i32,
    pub time_ms: i32,
}

/// A size argument clamped below at zero and taken to 16 bits, as a cast
/// takes it (keeping the low 16 bits).
pub open spec fn size_arg(v: i32) -> u16 {
    (non_negative(v) % 65536) as u16
}

/// The settings that the optional arguments give: value 0, width 2, height
/// 3, interval and duration 500 ms where an argument is missing.
pub open spec fn spec_spawn_area_settings(
    value: Option<i32>,
    width: Option<i32>,
    height: Option<i32>,
    interval_ms: Option<i32>,
    time_ms: Option<i32>,
) -> SpawnAreaSettings {
    SpawnAreaSettings {
        value: match value { Some(v) => v, None => 0 },
        width: size_arg(match width { Some(v) => v, None => 2 }),
        height: size_arg(match height { Some(v) => v, None => 3 }),
        interval_ms: match interval_ms { Some(v) => v, None => 500 },
        time_ms: match time_ms { Some(v) => v, None => 500 },
    }
}

fn to_size(v: i32) -> (r: u16)
    ensures
        r == size_arg(v),
{
    let n: u32 = if v < 0 { 0 } else { v as u32 };
    (n % 65536) as u16
}

/// Reads the settings from the command's optional integer arguments.
pub fn spawn_area_settings(
    value: Option<i32>,
    width: Option<i32>,
    height: Option<i32>,
    interval_ms: Option<i32>,
    time_ms: Option<i32>,
) -> (r: SpawnAreaSettings)
    ensures
        r == spec_spawn_area_settings(value, width, height, interval_ms, time_ms),
{
    SpawnAreaSettings {
        value: match value { Some(v) => v, None => 0 },
        width: to_size(match width { Some(v) => v, None => 2 }),
        height: to_size(match height { Some(v) => v, None => 3 }),
        interval_ms: match interval_ms { Some(v) => v, None => 500 },
        time_ms: match time_ms { Some(v) => v, None => 500 },
    }
}

/// The status that an area, or the `add_status` command, applies by name;
/// its duration is given apart.
#[derive(PartialEq, Eq, Structural, Clone, Copy, Debug)]
pub enum StatusPayloadKind {
    /// Absorbs damage.
    Absorb,
    /// Explodes for `damage`.
    FireBomb { damage: u32 },
    /// Poisons for `damage` per tick.
    Poison { damage: u32 },
    /// Changes armor by the percentage.
    Armor(Percentage),
}

/// `value` clamped below at one.
pub open spec fn at_least_one(value: i32) -> u32 {
    if value < 1 { 1 } else { value as u32 }
}

/// The status named `name` with `value`: fire bomb and poison deal at
/// least 1; `None` for a name that is no status.
pub open spec fn spec_status_payload(name: Seq<char>, value: i32) -> Option<StatusPayloadKind> {
    if name == "absorb"@ {
        Some(StatusPayloadKind::Absorb)
    } else if name == "firebomb"@ {
        Some(StatusPayloadKind::FireBomb { damage: at_least_one(value) })
    } else if name == "poison"@ {
        Some(StatusPayloadKind::Poison { damage: at_least_one(value) })
    } else if name == "armor"@ {
        Some(StatusPayloadKind::Armor(Percentage(value)))
    } else {
        None
    }
}

/// The status named `name` with `value`, or the error `Status not found`.
pub fn create_status_payload(name: &str, value: i32) -> (r: Result<StatusPayloadKind, String>)
    ensures
        r matches Ok(k) ==> spec_status_payload(name@, value) == Some(k),
        r matches Err(e) ==> spec_status_payload(name@, value) is None && e@ == "Status not found"@,
{
    let n = owned(name);
    let damage: u32 = if value < 1 { 1 } else { value as u32 };
    if n == owned("absorb") {
        Ok(StatusPayloadKind::Absorb)
    } else if n == owned("firebomb") {
        Ok(StatusPayloadKind::FireBomb { damage })
    } else if n == owned("poison") {
        Ok(StatusPayloadKind::Poison { damage })
    } else if n == owned("armor") {
        Ok(StatusPayloadKind::Armor(percentage(value)))
    } else {
        Err(owned("Status not found"))
    }
}

/// Law: every name that the status list offers names a status.
pub proof fn law_listed_statuses_exist(i: int, value: i32)
    requires
        0 <= i < spec_status_names().len(),
    ensures
        spec_status_payload(spec_status_names()[i], value) is Some,
{
    reveal_strlit("absorb");
    reveal_strlit("poison");
    reveal_strlit("firebomb");
    reveal_strlit("armor");
}

} // verus!
