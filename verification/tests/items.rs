use platformer::items::{
    detect_items, grab_item, handle_thrown_momentum, throw_item, weight_of, Grab, ItemSighting,
};
use platformer::{
    CollisionEvent, HeldItem, Item, ItemId, ItemsInRange, PlayerBody, ThrownItem, Vector3, Weight,
};

const SENSOR: u64 = 2;
const CRATE: u64 = 40;
const ROCK: u64 = 41;
const FEATHER: u64 = 42;

fn seen(heavy: bool, medium: bool, distance: i64) -> Option<ItemSighting> {
    Some(ItemSighting { heavy, medium, distance })
}

#[test]
fn a_new_range_is_empty() {
    let mut range = ItemsInRange::new();
    assert!(range.is_empty());
    assert_eq!(range.get_closest(), None);
    assert_eq!(range.remove(CRATE), None);
    assert!(ItemsInRange::default().is_empty());
}

#[test]
fn the_nearest_item_is_taken_first() {
    let mut range = ItemsInRange::new();
    range.add(CRATE, Weight::Medium, 5_000);
    assert!(!range.is_empty());
    range.add(ROCK, Weight::Heavy, 3_000);
    range.add(FEATHER, Weight::Light, 3_000);
    assert_eq!(range.get_closest(), Some((ROCK, Weight::Heavy)));
    assert_eq!(range.get_closest(), None);
    assert!(!range.is_empty());
    assert_eq!(range.remove(CRATE), Some(Weight::Medium));
    assert_eq!(range.remove(CRATE), None);
    assert_eq!(range.remove(FEATHER), Some(Weight::Light));
    assert!(range.is_empty());
}

#[test]
fn adding_an_item_again_updates_its_weight() {
    let mut range = ItemsInRange::new();
    range.add(CRATE, Weight::Medium, 5_000);
    range.add(CRATE, Weight::Heavy, 6_000);
    assert_eq!(range.get_closest(), Some((CRATE, Weight::Heavy)));
    assert!(range.is_empty());
}

#[test]
fn forgetting_the_nearest_item_keeps_the_items() {
    let mut range = ItemsInRange::new();
    range.add(CRATE, Weight::Medium, 5_000);
    range.clear_closest();
    assert_eq!(range.get_closest(), None);
    assert!(!range.is_empty());
    range.add(ROCK, Weight::Heavy, 9_000);
    assert_eq!(range.get_closest(), Some((ROCK, Weight::Heavy)));
}

#[test]
fn the_grab_sensor_fills_and_empties_the_range() {
    let items = vec![CRATE, ROCK, FEATHER];
    let mut range = ItemsInRange::new();
    detect_items(&mut range, &CollisionEvent::Started(SENSOR, CRATE), SENSOR, &items, false, seen(false, true, 4_000));
    detect_items(&mut range, &CollisionEvent::Started(ROCK, SENSOR), SENSOR, &items, false, seen(true, true, 2_000));
    detect_items(&mut range, &CollisionEvent::Started(SENSOR, FEATHER), SENSOR, &items, false, None);
    detect_items(&mut range, &CollisionEvent::Started(SENSOR, 99), SENSOR, &items, false, seen(false, false, 1));
    detect_items(&mut range, &CollisionEvent::Started(1, CRATE), SENSOR, &items, false, seen(false, false, 1));
    assert_eq!(range.remove(FEATHER), None);
    assert_eq!(range.remove(99), None);
    detect_items(&mut range, &CollisionEvent::Stopped(SENSOR, ROCK), SENSOR, &items, true, None);
    assert_eq!(grab_item(&mut range, false), None);
    assert_eq!(
        grab_item(&mut range, true),
        Some(Grab { entity: ROCK, weight: Weight::Heavy, carry_position: Vector3::new(0, 1_000, -1_000) })
    );
    assert_eq!(grab_item(&mut range, true), None);
    detect_items(&mut range, &CollisionEvent::Stopped(CRATE, SENSOR), SENSOR, &items, false, None);
    assert!(range.is_empty());
}

#[test]
fn nothing_comes_within_reach_while_the_player_carries() {
    let items = vec![CRATE];
    let mut range = ItemsInRange::new();
    detect_items(&mut range, &CollisionEvent::Started(SENSOR, CRATE), SENSOR, &items, true, seen(false, true, 4_000));
    assert!(range.is_empty());
    assert_eq!(grab_item(&mut range, true), None);
}

#[test]
fn weights_come_from_markers() {
    assert_eq!(weight_of(true, true), Weight::Heavy);
    assert_eq!(weight_of(true, false), Weight::Heavy);
    assert_eq!(weight_of(false, true), Weight::Medium);
    assert_eq!(weight_of(false, false), Weight::Light);
    assert_eq!(ItemId::WoodenCrate.get_weight(), Weight::Medium);
    assert_eq!(ItemId::default().held_position(), Vector3::new(0, 1_500, -1_650));
    assert_eq!(Item::default().item_id, ItemId::WoodenCrate);
}

#[test]
fn a_throw_goes_forwards_and_up() {
    let mut body = PlayerBody::new(Vector3::new(1_000, 2_000, 3_000), Vector3::new(0, 0, -1_000));
    let held = Some(HeldItem::new(ItemId::WoodenCrate, CRATE));
    assert_eq!(throw_item(&body, &held, false), None);
    assert_eq!(throw_item(&body, &None, true), None);
    let thrown = throw_item(&body, &held, true).unwrap();
    assert_eq!(thrown.throw_velocity, Vector3::new(0, 10_000, -15_000));
    assert_eq!(thrown.throw_position, Vector3::new(1_000, 2_000, 1_800));
    body.facing = Vector3::new(600, 0, 800);
    let thrown = throw_item(&body, &held, true).unwrap();
    assert_eq!(thrown, ThrownItem::new(Vector3::new(9_000, 10_000, 12_000), Vector3::new(1_720, 2_000, 3_960)));
    let mut velocity = Vector3::zero();
    let mut place = Vector3::zero();
    handle_thrown_momentum(&thrown, &mut velocity, &mut place);
    assert_eq!(velocity, thrown.throw_velocity);
    assert_eq!(place, thrown.throw_position);
}
