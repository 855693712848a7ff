//! Items that the player can pick up, carry and throw.

use vstd::prelude::*;
use crate::body::PlayerBody;
use crate::traversal::{classify_pair, spec_classify_pair, CollisionEvent};
use crate::vector::Vector3;

verus! {

/// Forward speed of a thrown item: 15 units.
pub const THROW_FORWARD_SPEED: i64 = 15_000;

/// Upward speed of a thrown item: 10 units.
pub const THROW_UPWARD_SPEED: i64 = 10_000;

/// How far in front of the player a thrown item starts: 1.2 units.
pub const THROW_REACH: i64 = 1_200;

/// Height at which a wooden crate is carried: 1.5 units.
pub const CRATE_HELD_HEIGHT: i64 = 1_500;

/// Depth at which a wooden crate is carried: 1.65 units in front.
pub const CRATE_HELD_DEPTH: i64 = -1_650;

/// Height at which an item sits right after it was grabbed: 1 unit.
pub const CARRY_HEIGHT: i64 = 1_000;

/// Depth at which an item sits right after it was grabbed: 1 unit in
/// front.
pub const CARRY_DEPTH: i64 = -1_000;

/// How heavy an item is.
#[derive(Clone, Copy, Debug, PartialEq, Eq, Structural)]
pub enum Weight {
    Light,
    Medium,
    Heavy,
}

/// The kinds of item.
#[derive(Clone, Copy, Debug, PartialEq, Eq, Structural)]
pub enum ItemId {
    WoodenCrate,
}

impl ItemId {
    /// Where the item sits while carried, relative to the player.
    pub fn held_position(&self) -> (place: Vector3)
        ensures
            place == (Vector3 { x: 0, y: CRATE_HELD_HEIGHT, z: CRATE_HELD_DEPTH }),
    {
        match *self {
            ItemId::WoodenCrate => Vector3 { x: 0, y: CRATE_HELD_HEIGHT, z: CRATE_HELD_DEPTH },
        }
    }

    pub fn get_weight(&self) -> (weight: Weight)
        ensures
            weight == Weight::Medium,
    {
        match self {
            ItemId::WoodenCrate => Weight::Medium,
        }
    }
}

impl Default for ItemId {
    fn default() -> (id: ItemId)
        ensures
            id == ItemId::WoodenCrate,
    {
        ItemId::WoodenCrate
    }
}

/// An entity that can be picked up.
#[derive(Clone, Copy, Debug, PartialEq, Eq, Structural)]
pub struct Item {
    pub item_id: ItemId,
}

impl Default for Item {
    fn default() -> (item: Item)
        ensures
            item.item_id == ItemId::WoodenCrate,
    {
        Item { item_id: ItemId::WoodenCrate }
    }
}

/// The item that the player carries.
#[derive(Clone, Copy, Debug, PartialEq, Eq, Structural)]
pub struct HeldItem {
    pub item: ItemId,
    pub entity: u64,
}

impl HeldItem {
    pub fn new(item: ItemId, entity: u64) -> (held: HeldItem)
        ensures
            held == (HeldItem { item, entity }),
    {
        HeldItem { item, entity }
    }
}

/// An item on the tick after it was thrown: the velocity and the place
/// that it is to be given.
#[derive(Clone, Copy, Debug, PartialEq, Eq, Structural)]
pub struct ThrownItem {
    pub throw_velocity: Vector3,
    pub throw_position: Vector3,
}

impl ThrownItem {
    pub fn new(throw_velocity: Vector3, throw_position: Vector3) -> (thrown: ThrownItem)
        ensures
            thrown == (ThrownItem { throw_velocity, throw_position }),
    {
        ThrownItem { throw_velocity, throw_position }
    }
}

/// The hash map of the engine's utilities, from the entities of the items
/// within reach to their weights. Verus does not look inside it; what it
/// holds goes by the name `item_table_contents`.
#[verifier::external_body]
pub struct ItemTable {
    inner: bevy::utils::HashMap<u64, Weight>,
}

/// The entries of an item table.
pub uninterp spec fn item_table_contents(table: ItemTable) -> Map<u64, Weight>;

/// The table that holds nothing.
pub open spec fn no_items() -> Map<u64, Weight> {
    Map::empty()
}

/// Calls `HashMap::default` of `bevy::utils`: the new map has no entries.
#[verifier::external_body]
fn table_new() -> (table: ItemTable)
    ensures
        item_table_contents(table) == no_items(),
{
    ItemTable { inner: bevy::utils::HashMap::default() }
}

/// Calls `HashMap::insert`: afterwards the map holds `weight` under
/// `entity` and is otherwise as before; the result is the value that
/// `entity` had before, if it had one.
#[verifier::external_body]
fn table_insert(table: &mut ItemTable, entity: u64, weight: Weight) -> (before: Option<Weight>)
    ensures
        item_table_contents(*final(table)) == item_table_contents(*old(table)).insert(
            entity,
            weight,
        ),
        before == if item_table_contents(*old(table)).contains_key(entity) {
            Some(item_table_contents(*old(table))[entity])
        } else {
            None
        },
{
    table.inner.insert(entity, weight)
}

/// Calls `HashMap::remove`: afterwards the map has no entry under
/// `entity` and is otherwise as before; the result is the value that
/// `entity` had, if it had one.
#[verifier::external_body]
fn table_remove(table: &mut ItemTable, entity: u64) -> (before: Option<Weight>)
    ensures
        item_table_contents(*final(table)) == item_table_contents(*old(table)).remove(entity),
        before == if item_table_contents(*old(table)).contains_key(entity) {
            Some(item_table_contents(*old(table))[entity])
        } else {
            None
        },
{
    table.inner.remove(&entity)
}

/// Calls `HashMap::remove_entry`: as `HashMap::remove`, but the result
/// holds the key beside the value.
#[verifier::external_body]
fn table_remove_entry(table: &mut ItemTable, entity: u64) -> (before: Option<(u64, Weight)>)
    ensures
        item_table_contents(*final(table)) == item_table_contents(*old(table)).remove(entity),
        before == if item_table_contents(*old(table)).contains_key(entity) {
            Some((entity, item_table_contents(*old(table))[entity]))
        } else {
            None
        },
{
    table.inner.remove_entry(&entity)
}

/// Calls `HashMap::is_empty`: whether the map has no entries.
#[verifier::external_body]
fn table_is_empty(table: &ItemTable) -> (empty: bool)
    ensures
        empty <==> item_table_contents(*table) =~= no_items(),
{
    table.inner.is_empty()
}

/// The items within reach of the grab sensor, and the nearest of those
/// that have come within reach.
pub struct ItemsInRange {
    items: ItemTable,
    closest_item: Option<(u64, i64)>,
}

/// The weight of an item from its markers: heavy before medium before
/// light.
pub open spec fn spec_weight(heavy: bool, medium: bool) -> Weight {
    if heavy {
        Weight::Heavy
    } else if medium {
        Weight::Medium
    } else {
        Weight::Light
    }
}

/// The nearest item after one at `distance` has come within reach: the new
/// one where there was none or it is strictly nearer, else the old one.
pub open spec fn spec_closer(
    closest: Option<(u64, i64)>,
    entity: u64,
    distance: i64,
) -> Option<(u64, i64)> {
    match closest {
        Some((_, closest_distance)) => if distance < closest_distance {
            Some((entity, distance))
        } else {
            closest
        },
        None => Some((entity, distance)),
    }
}

impl ItemsInRange {
    /// The items within reach, with their weights.
    pub closed spec fn items(&self) -> Map<u64, Weight> {
        item_table_contents(self.items)
    }

    /// The nearest item that has come within reach, with its distance.
    pub closed spec fn closest_item(&self) -> Option<(u64, i64)> {
        self.closest_item
    }

    /// What a grab takes: the nearest item, if it is still within reach.
    pub open spec fn spec_closest(&self) -> Option<(u64, Weight)> {
        match self.closest_item() {
            Some((entity, _)) => if self.items().contains_key(entity) {
                Some((entity, self.items()[entity]))
            } else {
                None
            },
            None => None,
        }
    }

    /// No item within reach and none remembered as nearest.
    pub fn new() -> (range: ItemsInRange)
        ensures
            range.items() == no_items(),
            range.closest_item() is None,
    {
        ItemsInRange { items: table_new(), closest_item: None }
    }

    /// Forgets which item was nearest.
    pub fn clear_closest(&mut self)
        ensures
            final(self).items() == old(self).items(),
            final(self).closest_item() is None,
    {
        self.closest_item = None;
    }

    /// Takes in an item that has come within reach at `distance`.
    pub fn add(&mut self, entity: u64, weight: Weight, distance: i64)
        ensures
            final(self).items() == old(self).items().insert(entity, weight),
            final(self).closest_item() == spec_closer(old(self).closest_item(), entity, distance),
    {
        let _ = table_insert(&mut self.items, entity, weight);
        match self.closest_item {
            Some((_, closest_distance)) => {
                if distance < closest_distance {
                    self.closest_item = Some((entity, distance));
                }
            },
            None => {
                self.closest_item = Some((entity, distance));
            },
        }
    }

    /// Drops an item that has gone out of reach and returns its weight, if
    /// it was within reach. The nearest item stays remembered.
    pub fn remove(&mut self, entity: u64) -> (weight: Option<Weight>)
        ensures
            final(self).items() == old(self).items().remove(entity),
            final(self).closest_item() == old(self).closest_item(),
            weight == if old(self).items().contains_key(entity) {
                Some(old(self).items()[entity])
            } else {
                None
            },
    {
        table_remove(&mut self.items, entity)
    }

    pub fn is_empty(&self) -> (empty: bool)
        ensures
            empty <==> self.items() =~= no_items(),
    {
        table_is_empty(&self.items)
    }

    /// Takes the nearest item out of the items within reach and returns it
    /// with its weight. Returns nothing where no item is remembered as
    /// nearest or that item has gone out of reach.
    pub fn get_closest(&mut self) -> (taken: Option<(u64, Weight)>)
        ensures
            taken == old(self).spec_closest(),
            final(self).closest_item() == old(self).closest_item(),
            final(self).items() == match old(self).closest_item() {
                Some((entity, _)) => old(self).items().remove(entity),
                None => old(self).items(),
            },
    {
        match self.closest_item {
            Some((entity, _)) => table_remove_entry(&mut self.items, entity),
            None => None,
        }
    }
}

impl Default for ItemsInRange {
    fn default() -> (range: ItemsInRange)
        ensures
            range.items() == no_items(),
            range.closest_item() is None,
    {
        ItemsInRange::new()
    }
}

/// What the host has looked up about an item that the grab sensor met:
/// its weight markers and its distance from the player.
#[derive(Clone, Copy, Debug, PartialEq, Eq, Structural)]
pub struct ItemSighting {
    pub heavy: bool,
    pub medium: bool,
    pub distance: i64,
}

/// An item that the player has just grabbed, and where it is carried,
/// relative to the player.
#[derive(Clone, Copy, Debug, PartialEq, Eq, Structural)]
pub struct Grab {
    pub entity: u64,
    pub weight: Weight,
    pub carry_position: Vector3,
}

/// The weight of an item from its markers.
pub fn weight_of(heavy: bool, medium: bool) -> (weight: Weight)
    ensures
        weight == spec_weight(heavy, medium),
{
    if heavy {
        Weight::Heavy
    } else if medium {
        Weight::Medium
    } else {
        Weight::Light
    }
}

/// Handles one collision event of the grab sensor while the player carries
/// nothing. `sighting` is what the host has looked up about the item that
/// the event names, or `None` where it names none or the item is gone. An
/// item whose overlap starts comes within reach; one whose overlap ends
/// goes out of reach. While the player carries an item nothing changes.
pub fn detect_items(
    items_in_range: &mut ItemsInRange,
    event: &CollisionEvent,
    sensor: u64,
    items: &Vec<u64>,
    holding: bool,
    sighting: Option<ItemSighting>,
)
    ensures
        final(items_in_range).items() == match (
            holding,
            spec_classify_pair(event.spec_pair().0, event.spec_pair().1, sensor, items@),
        ) {
            (false, Some(item)) => match *event {
                CollisionEvent::Started(_, _) => match sighting {
                    Some(seen) => old(items_in_range).items().insert(
                        item,
                        spec_weight(seen.heavy, seen.medium),
                    ),
                    None => old(items_in_range).items(),
                },
                CollisionEvent::Stopped(_, _) => old(items_in_range).items().remove(item),
            },
            _ => old(items_in_range).items(),
        },
        final(items_in_range).closest_item() == match (
            holding,
            spec_classify_pair(event.spec_pair().0, event.spec_pair().1, sensor, items@),
            *event,
            sighting,
        ) {
            (false, Some(item), CollisionEvent::Started(_, _), Some(seen)) => spec_closer(
                old(items_in_range).closest_item(),
                item,
                seen.distance,
            ),
            _ => old(items_in_range).closest_item(),
        },
{
    if holding {
        return ;
    }
    match classify_pair(event, sensor, items) {
        Some(item) => {
            match *event {
                CollisionEvent::Started(_, _) => {
                    match sighting {
                        Some(seen) => {
                            items_in_range.add(
                                item,
                                weight_of(seen.heavy, seen.medium),
                                seen.distance,
                            );
                        },
                        None => {},
                    }
                },
                CollisionEvent::Stopped(_, _) => {
                    let _ = items_in_range.remove(item);
                },
            }
        },
        None => {},
    }
}

/// Grabs the nearest item when the grab button has just gone down and an
/// item is within reach.
pub fn grab_item(items_in_range: &mut ItemsInRange, grab_just_pressed: bool) -> (grab: Option<Grab>)
    ensures
        grab == if grab_just_pressed {
            match old(items_in_range).spec_closest() {
                Some((entity, weight)) => Some(
                    Grab {
                        entity,
                        weight,
                        carry_position: Vector3 { x: 0, y: CARRY_HEIGHT, z: CARRY_DEPTH },
                    },
                ),
                None => None,
            }
        } else {
            None
        },
        final(items_in_range).closest_item() == old(items_in_range).closest_item(),
        final(items_in_range).items() == if grab_just_pressed {
            match old(items_in_range).closest_item() {
                Some((entity, _)) => old(items_in_range).items().remove(entity),
                None => old(items_in_range).items(),
            }
        } else {
            old(items_in_range).items()
        },
{
    if !items_in_range.is_empty() && grab_just_pressed {
        match items_in_range.get_closest() {
            Some((entity, weight)) => Some(
                Grab {
                    entity,
                    weight,
                    carry_position: Vector3 { x: 0, y: CARRY_HEIGHT, z: CARRY_DEPTH },
                },
            ),
            None => None,
        }
    } else {
        None
    }
}

impl PlayerBody {
    /// The velocity and the place of an item thrown by the body: forwards
    /// and up, starting a little in front of the body.
    pub open spec fn spec_throw(self) -> ThrownItem {
        ThrownItem {
            throw_velocity: self.facing.spec_scaled(THROW_FORWARD_SPEED as int).spec_plus(
                Vector3 { x: 0, y: THROW_UPWARD_SPEED, z: 0 },
            ),
            throw_position: self.position.spec_plus(self.facing.spec_scaled(THROW_REACH as int)),
        }
    }
}

/// Throws the held item when the grab button has just gone down while the
/// player carries one.
pub fn throw_item(body: &PlayerBody, held: &Option<HeldItem>, grab_just_pressed: bool) -> (thrown:
    Option<ThrownItem>)
    ensures
        thrown == if grab_just_pressed && held is Some {
            Some(body.spec_throw())
        } else {
            None
        },
{
    if grab_just_pressed && held.is_some() {
        Some(
            ThrownItem::new(
                body.facing.scaled(THROW_FORWARD_SPEED).plus(
                    Vector3 { x: 0, y: THROW_UPWARD_SPEED, z: 0 },
                ),
                body.position.plus(body.facing.scaled(THROW_REACH)),
            ),
        )
    } else {
        None
    }
}

/// Gives a thrown item the velocity and the place that the throw set for
/// it.
pub fn handle_thrown_momentum(thrown: &ThrownItem, velocity: &mut Vector3, place: &mut Vector3)
    ensures
        *final(velocity) == thrown.throw_velocity,
        *final(place) == thrown.throw_position,
{
    *velocity = thrown.throw_velocity;
    *place = thrown.throw_position;
}

} // verus!
