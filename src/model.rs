use vstd::prelude::*;

verus! {

/// Which storage engine the persistence layer runs on.
#[derive(Clone, Copy, Debug, PartialEq, Eq, Structural)]
pub enum DatabaseType {
    Memory,
    RocksDB,
}

impl Default for DatabaseType {
    fn default() -> (r: DatabaseType)
        ensures
            r == DatabaseType::Memory,
    {
        DatabaseType::Memory
    }
}

/// A persisted user.
#[derive(Clone, Debug, Default)]
pub struct User {
    pub id: i32,
    pub label: Option<String>,
    pub name: String,
}

/// A user that is yet to be persisted.
#[derive(Clone, Debug, Default)]
pub struct NewUser {
    pub label: Option<String>,
    pub name: String,
}

/// A persisted chat message; `timestamp` is in seconds since the Unix epoch.
#[derive(Clone, Debug, Default)]
pub struct Message {
    pub id: i32,
    pub text: String,
    pub timestamp: i64,
    pub userId: Option<i32>,
}

/// A chat message that is yet to be persisted.
#[derive(Clone, Debug, Default)]
pub struct NewMessage {
    pub text: String,
    pub timestamp: i64,
    pub userId: Option<i32>,
}

/// A persisted image; `path` is relative to the assets directory.
#[derive(Clone, Debug, Default)]
pub struct ImageAsset {
    pub id: i32,
    pub height: i64,
    pub path: String,
    pub width: i64,
}

/// An image that is yet to be persisted.
#[derive(Clone, Debug, Default)]
pub struct NewImageAsset {
    pub height: i64,
    pub path: String,
    pub width: i64,
}

/// A persisted two-dimensional scene.
#[derive(Clone, Debug, Default)]
pub struct Scene2D {
    pub id: i32,
    pub name: String,
    pub backgroundId: i32,
}

/// A two-dimensional scene that is yet to be persisted.
#[derive(Clone, Debug, Default)]
pub struct NewScene2D {
    pub name: String,
    pub backgroundId: i32,
}

} // verus!
