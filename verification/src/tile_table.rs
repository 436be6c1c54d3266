use vstd::prelude::*;
use bevy::prelude::Entity;
use bevy::utils::HashMap;

verus! {

/// `bevy::prelude::Entity`, the handle by which the engine knows what it
/// draws. The library passes such handles on and never looks inside one.
#[verifier::external_type_specification]
#[verifier::external_body]
pub struct ExEntity(Entity);

/// The most cells that `TileTable::with_capacity` is asked to make room for
/// in advance.
pub const MAX_RESERVED_TILES: usize = 0x1_0000;

/// For each cell of the board that is drawn, the entity that draws it, kept
/// in a `bevy::utils::HashMap` under the cell's row and column.
///
/// Verus is told nothing of the map itself; what it holds goes by the name
/// `tile_entities`.
#[verifier::external_body]
pub struct TileTable {
    inner: HashMap<(u16, u16), Entity>,
}

/// What a `TileTable` holds: the entity stored under each row and column.
pub uninterp spec fn tile_entities(table: TileTable) -> Map<(u16, u16), Entity>;

impl TileTable {
    /// Calls `HashMap::with_capacity`: the new table holds nothing. The
    /// capacity is bounded, so that the reservation stays far below the size
    /// at which the map gives up.
    #[verifier::external_body]
    pub(crate) fn with_capacity(capacity: usize) -> (table: TileTable)
        requires
            capacity <= MAX_RESERVED_TILES,
        ensures
            tile_entities(table) =~= Map::empty(),
    {
        TileTable { inner: HashMap::with_capacity(capacity) }
    }

    /// Calls `HashMap::insert`: afterwards `entity` is stored under `key`
    /// and nothing else has changed; what was stored under `key` before, if
    /// anything, is handed back. The map grows as it must; like any
    /// allocation, that ends the program when memory runs out.
    #[verifier::external_body]
    pub(crate) fn insert(&mut self, key: (u16, u16), entity: Entity) -> (previous: Option<Entity>)
        ensures
            tile_entities(*final(self)) == tile_entities(*old(self)).insert(key, entity),
            previous == (if tile_entities(*old(self)).contains_key(key) {
                Some(tile_entities(*old(self))[key])
            } else {
                None
            }),
    {
        self.inner.insert(key, entity)
    }

    /// Calls `HashMap::get`: the entity stored under `key`, if there is one.
    #[verifier::external_body]
    pub(crate) fn get(&self, key: (u16, u16)) -> (found: Option<&Entity>)
        ensures
            found == (if tile_entities(*self).contains_key(key) {
                Some(&tile_entities(*self)[key])
            } else {
                None
            }),
    {
        self.inner.get(&key)
    }
}

} // verus!
