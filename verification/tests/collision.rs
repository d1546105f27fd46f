use rustarok_client::collision::{blacklist_groups, CollisionGroup};

#[test]
fn blacklists_by_group() {
    assert_eq!(
        blacklist_groups(CollisionGroup::LeftPlayer),
        vec![CollisionGroup::Minion, CollisionGroup::NonCollidablePlayer, CollisionGroup::Guard, CollisionGroup::Turret]
    );
    assert_eq!(blacklist_groups(CollisionGroup::RightPlayer), blacklist_groups(CollisionGroup::LeftPlayer));
    assert_eq!(blacklist_groups(CollisionGroup::Guard).len(), 11);
    assert_eq!(blacklist_groups(CollisionGroup::LeftBarricade)[0], CollisionGroup::LeftPlayer);
    assert!(!blacklist_groups(CollisionGroup::LeftBarricade).contains(&CollisionGroup::RightPlayer));
    assert_eq!(blacklist_groups(CollisionGroup::Minion).len(), 6);
}
