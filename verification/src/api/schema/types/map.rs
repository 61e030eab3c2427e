use vstd::prelude::*;

verus! {

/// One tile of the game's map.
#[derive(Clone, Debug)]
pub struct GameMap {
    /// Name of the map.
    pub name: String,
    /// Skin of the map.
    pub skin: String,
    /// Position X of the map.
    pub x: i32,
    /// Position Y of the map.
    pub y: i32,
    pub content: Option<MapContent>,
}

#[derive(Clone, Debug)]
pub struct MapContent {
    /// Type of the content.
    pub content_type: MapContentType,
    /// Code of the content.
    pub code: String,
}

#[derive(Clone, Debug, PartialEq, Structural)]
pub enum MapContentType {
    Monster,
    Resource,
    Workshop,
    Bank,
    GrandExchange,
    TasksMaster,
    SantaClaus,
}

} // verus!
