use rustarok_client::attrib_mod::{percentage, ElapsedTime, WalkingSpeedModifierStatus};
use rustarok_client::statuses::{
    Status, StatusEnumDiscriminants, StatusNature, StatusStackingResult, StatusUpdateResult,
    Statuses,
    NONSTACKABLE_STATUS_COUNT,
};

fn mounted() -> Status<i32> {
    Status { discr: StatusEnumDiscriminants::MountedStatus, payload: 0 }
}

fn of_kind(discr: StatusEnumDiscriminants) -> Status<i32> {
    Status { discr, payload: 7 }
}

#[test]
fn non_stackable_statuses() {
    let mut statuses: Statuses<i32> = Statuses::new();

    assert_eq!(statuses.first_free_index(), NONSTACKABLE_STATUS_COUNT);
    assert!(statuses.get_statuses()[0].is_none());
    statuses.add(mounted());
    assert_eq!(statuses.first_free_index(), NONSTACKABLE_STATUS_COUNT);
    assert!(statuses.get_statuses()[0].is_some());
    statuses.add(mounted());
    assert_eq!(statuses.first_free_index(), NONSTACKABLE_STATUS_COUNT);
    assert!(statuses.get_statuses()[0].is_some());

    statuses.remove(StatusEnumDiscriminants::MountedStatus);
    assert_eq!(statuses.first_free_index(), NONSTACKABLE_STATUS_COUNT);
    assert!(statuses.get_statuses()[0].is_none());
}

#[test]
fn stackable_statuses() {
    let mut statuses: Statuses<WalkingSpeedModifierStatus> = Statuses::new();

    assert_eq!(statuses.first_free_index(), NONSTACKABLE_STATUS_COUNT);
    assert!(statuses.get_statuses()[NONSTACKABLE_STATUS_COUNT].is_none());

    let status = WalkingSpeedModifierStatus {
        started: ElapsedTime(0),
        until: ElapsedTime(0),
        modifier: percentage(0),
    };
    let make = || Status { discr: StatusEnumDiscriminants::WalkingSpeedModifierStatus, payload: status };

    statuses.add(make());
    assert!(statuses.get_statuses()[NONSTACKABLE_STATUS_COUNT].is_some());
    assert_eq!(statuses.first_free_index(), NONSTACKABLE_STATUS_COUNT + 1);

    statuses.add(make());
    assert_eq!(statuses.first_free_index(), NONSTACKABLE_STATUS_COUNT + 2);
    assert!(statuses.get_statuses()[NONSTACKABLE_STATUS_COUNT].is_some());
    assert!(statuses.get_statuses()[NONSTACKABLE_STATUS_COUNT + 1].is_some());

    statuses.remove(StatusEnumDiscriminants::WalkingSpeedModifierStatus);
    assert_eq!(statuses.first_free_index(), NONSTACKABLE_STATUS_COUNT);
    assert!(statuses.get_statuses()[NONSTACKABLE_STATUS_COUNT].is_none());
    assert!(statuses.get_statuses()[NONSTACKABLE_STATUS_COUNT + 1].is_none());
}

#[test]
fn phase_prism_replaces_itself() {
    let mut statuses: Statuses<i32> = Statuses::new();
    statuses.add(Status { discr: StatusEnumDiscriminants::AssaPhasePrismStatus, payload: 1 });
    statuses.add(Status { discr: StatusEnumDiscriminants::AssaPhasePrismStatus, payload: 2 });
    assert_eq!(statuses.get_statuses()[3].as_ref().map(|s| s.payload), Some(2));
    assert_eq!(statuses.count(), 1);
}

#[test]
fn mounted_keeps_the_first_one() {
    let mut statuses: Statuses<i32> = Statuses::new();
    statuses.add(Status { discr: StatusEnumDiscriminants::MountedStatus, payload: 1 });
    statuses.add(Status { discr: StatusEnumDiscriminants::MountedStatus, payload: 2 });
    assert_eq!(statuses.get_statuses()[0].as_ref().map(|s| s.payload), Some(1));
    assert!(statuses.is_mounted());
}

#[test]
fn sacrifice_is_added_once() {
    let mut statuses: Statuses<i32> = Statuses::new();
    statuses.add(of_kind(StatusEnumDiscriminants::SacrificeStatus));
    statuses.add(of_kind(StatusEnumDiscriminants::SacrificeStatus));
    assert_eq!(statuses.first_free_index(), NONSTACKABLE_STATUS_COUNT + 1);
    assert_eq!(statuses.count(), 1);
}

#[test]
fn table_full_refuses_everything() {
    let mut statuses: Statuses<i32> = Statuses::new();
    for _ in 0..26 {
        statuses.add(of_kind(StatusEnumDiscriminants::PoisonStatus));
    }
    assert_eq!(statuses.first_free_index(), 32);
    statuses.add(of_kind(StatusEnumDiscriminants::PoisonStatus));
    statuses.add(mounted());
    assert_eq!(statuses.first_free_index(), 32);
    assert!(!statuses.is_mounted());
    assert_eq!(statuses.count(), 26);
}

#[test]
fn abilities_follow_the_kinds() {
    let mut statuses: Statuses<i32> = Statuses::new();
    assert!(statuses.can_move() && statuses.can_cast() && statuses.can_be_controlled());
    assert!(statuses.allow_push());
    statuses.add(of_kind(StatusEnumDiscriminants::StunStatus));
    assert!(!statuses.can_move());
    assert!(!statuses.can_cast());
    assert!(statuses.can_be_controlled());
    assert!(statuses.allow_push());
    statuses.add(of_kind(StatusEnumDiscriminants::AbsorbStatus));
    assert!(!statuses.allow_push());
    statuses.add(of_kind(StatusEnumDiscriminants::AssaBladeDashStatus));
    assert!(!statuses.can_be_controlled());
    assert!(statuses.get_statuses()[2].is_some());
}

#[test]
fn remove_statuses_by_bits_compacts() {
    let mut statuses: Statuses<i32> = Statuses::new();
    statuses.add(mounted());
    statuses.add(of_kind(StatusEnumDiscriminants::PoisonStatus));
    statuses.add(of_kind(StatusEnumDiscriminants::FireBombStatus));
    assert_eq!(statuses.first_free_index(), 8);
    // slot 7 (fire bomb) and slot 0 (mounted)
    statuses.remove_statuses((1 << 7) | 1);
    assert_eq!(statuses.first_free_index(), 7);
    assert!(!statuses.is_mounted());
    assert_eq!(statuses.count(), 1);
    statuses.remove_statuses(1 << 6);
    assert_eq!(statuses.first_free_index(), NONSTACKABLE_STATUS_COUNT);
    assert_eq!(statuses.count(), 0);
}

#[test]
fn remove_by_nature_and_all() {
    let mut statuses: Statuses<i32> = Statuses::new();
    statuses.add(mounted());
    statuses.add(of_kind(StatusEnumDiscriminants::PoisonStatus));
    statuses.remove_by_nature(StatusNature::Harmful);
    assert_eq!(statuses.count(), 2);
    statuses.remove_by_nature(StatusNature::Supportive);
    assert_eq!(statuses.count(), 0);
    statuses.add(of_kind(StatusEnumDiscriminants::PoisonStatus));
    statuses.add(of_kind(StatusEnumDiscriminants::StunStatus));
    statuses.remove_all();
    assert_eq!(statuses.count(), 0);
    assert_eq!(statuses.first_free_index(), NONSTACKABLE_STATUS_COUNT);
}

#[test]
fn get_status_finds_first_of_kind() {
    let mut statuses: Statuses<i32> = Statuses::new();
    statuses.add(Status { discr: StatusEnumDiscriminants::PoisonStatus, payload: 1 });
    statuses.add(Status { discr: StatusEnumDiscriminants::PoisonStatus, payload: 2 });
    assert_eq!(statuses.get_status(StatusEnumDiscriminants::PoisonStatus).map(|s| s.payload), Some(1));
    assert!(statuses.get_status(StatusEnumDiscriminants::StunStatus).is_none());
}

#[test]
fn stacking_results_per_kind() {
    assert_eq!(StatusEnumDiscriminants::AbsorbStatus.stack(), StatusStackingResult::AddTheNewStatus);
    assert_eq!(StatusEnumDiscriminants::DeathStatus.stack(), StatusStackingResult::DontAddTheNewStatus);
    assert_eq!(StatusEnumDiscriminants::AssaPhasePrismStatus.stack(), StatusStackingResult::Replace);
    assert_eq!(StatusEnumDiscriminants::StunStatus.index(), 15);
}

#[test]
fn update_marks_statuses_that_asked_to_go() {
    let mut statuses: Statuses<i32> = Statuses::new();
    statuses.add(mounted());
    statuses.add(of_kind(StatusEnumDiscriminants::PoisonStatus));
    statuses.add(of_kind(StatusEnumDiscriminants::FireBombStatus));
    let mut results = vec![StatusUpdateResult::KeepIt; 8];
    results[0] = StatusUpdateResult::RemoveIt;
    results[3] = StatusUpdateResult::RemoveIt; // empty slot: ignored
    results[7] = StatusUpdateResult::RemoveIt;
    let mask = statuses.update(&results);
    assert_eq!(mask, 1 | (1 << 7));
    statuses.remove_statuses(mask);
    assert!(!statuses.is_mounted());
    assert_eq!(statuses.count(), 1);
    assert_eq!(statuses.first_free_index(), 7);
}

#[test]
fn render_color_multiplies_tints() {
    let mut statuses: Statuses<i32> = Statuses::new();
    assert_eq!(statuses.calc_render_color(255), [255, 255, 255, 255]);
    statuses.add(of_kind(StatusEnumDiscriminants::PoisonStatus));
    assert_eq!(statuses.calc_render_color(255), [128, 255, 128, 255]);
    statuses.add(of_kind(StatusEnumDiscriminants::AssaPhasePrismStatus));
    assert_eq!(statuses.calc_render_color(255), [0, 255, 128, 255]);
    statuses.add(of_kind(StatusEnumDiscriminants::DeathStatus));
    assert_eq!(statuses.calc_render_color(100), [0, 255, 128, 100]);
    statuses.add(of_kind(StatusEnumDiscriminants::PoisonStatus));
    assert_eq!(statuses.calc_render_color(100), [0, 255, 64, 100]);
}

#[test]
fn remove_if_takes_out_what_the_predicate_picks() {
    let mut statuses: Statuses<i32> = Statuses::new();
    statuses.add(Status { discr: StatusEnumDiscriminants::PoisonStatus, payload: 1 });
    statuses.add(Status { discr: StatusEnumDiscriminants::PoisonStatus, payload: 2 });
    statuses.add(Status { discr: StatusEnumDiscriminants::StunStatus, payload: 3 });
    statuses.remove_if(|s| s.payload >= 2);
    assert_eq!(statuses.count(), 1);
    assert_eq!(statuses.first_free_index(), NONSTACKABLE_STATUS_COUNT + 1);
    assert_eq!(statuses.get_statuses()[6].as_ref().map(|s| s.payload), Some(1));
}
