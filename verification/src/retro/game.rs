//! The game a frontend hands a core: either the file's bytes or its path,
//! with optional metadata, plus the numeric game type of the special-format
//! loading path.

use vstd::prelude::*;

verus! {

/// Game content loaded from a file: its bytes, and the path and metadata
/// when the frontend provides them.
#[derive(Clone, Debug)]
pub struct GameData {
    pub data: Vec<u8>,
    pub path: Option<String>,
    pub meta: Option<String>,
}

impl GameData {
    /// Wraps loaded game content.
    pub fn new(data: Vec<u8>, path: Option<String>, meta: Option<String>) -> (r: GameData)
        ensures
            r.data@ == data@,
            r.path == path,
            r.meta == meta,
    {
        GameData { data, path, meta }
    }

    /// The game's bytes.
    pub fn data(&self) -> (r: &Vec<u8>)
        ensures
            r@ == self.data@,
    {
        &self.data
    }

    /// The absolute path to the game file, if available.
    pub fn path(&self) -> (r: &Option<String>)
        ensures
            r == &self.path,
    {
        &self.path
    }

    /// Implementation-specific metadata.
    pub fn meta(&self) -> (r: &Option<String>)
        ensures
            r == &self.meta,
    {
        &self.meta
    }
}

/// A game named by path alone, for cores that read the file themselves.
#[derive(Clone, Debug)]
pub struct GamePath {
    pub path: String,
    pub meta: Option<String>,
}

impl GamePath {
    /// Wraps a game path.
    pub fn new(path: String, meta: Option<String>) -> (r: GamePath)
        ensures
            r.path@ == path@,
            r.meta == meta,
    {
        GamePath { path, meta }
    }

    /// The absolute path to the game file.
    pub fn path(&self) -> (r: &String)
        ensures
            r@ == self.path@,
    {
        &self.path
    }

    /// Implementation-specific metadata.
    pub fn meta(&self) -> (r: &Option<String>)
        ensures
            r == &self.meta,
    {
        &self.meta
    }
}

/// What `retro_load_game` hands over: content data or a bare path.
#[derive(Clone, Debug)]
pub enum GameInfo {
    Data(GameData),
    Path(GamePath),
}

impl GameInfo {
    /// Game info around loaded content.
    pub fn from_data(data: GameData) -> (r: GameInfo)
        ensures
            r == GameInfo::Data(data),
    {
        GameInfo::Data(data)
    }

    /// Game info around a bare path.
    pub fn from_path(path: GamePath) -> (r: GameInfo)
        ensures
            r == GameInfo::Path(path),
    {
        GameInfo::Path(path)
    }

    /// Whether content data was handed over.
    pub fn is_data(&self) -> (r: bool)
        ensures
            r == (self is Data),
    {
        match self {
            GameInfo::Data(_) => true,
            GameInfo::Path(_) => false,
        }
    }

    /// Whether only a path was handed over.
    pub fn is_path(&self) -> (r: bool)
        ensures
            r == (self is Path),
    {
        !self.is_data()
    }

    /// The content data, when there is any.
    pub fn as_data(&self) -> (r: Option<&GameData>)
        ensures
            match r {
                Some(d) => self matches GameInfo::Data(dd) && d == dd,
                None => self is Path,
            },
    {
        match self {
            GameInfo::Data(d) => Some(d),
            GameInfo::Path(_) => None,
        }
    }

    /// The bare path, when that is all there is.
    pub fn as_path(&self) -> (r: Option<&GamePath>)
        ensures
            match r {
                Some(p) => self matches GameInfo::Path(pp) && p == pp,
                None => self is Data,
            },
    {
        match self {
            GameInfo::Data(_) => None,
            GameInfo::Path(p) => Some(p),
        }
    }

    /// A borrowed case split over the two kinds.
    pub fn as_ref(&self) -> (r: GameInfoKind<'_>)
        ensures
            match r {
                GameInfoKind::Data(d) => self matches GameInfo::Data(dd) && d == dd,
                GameInfoKind::Path(p) => self matches GameInfo::Path(pp) && p == pp,
            },
    {
        match self {
            GameInfo::Data(d) => GameInfoKind::Data(d),
            GameInfo::Path(p) => GameInfoKind::Path(p),
        }
    }
}

/// A borrowed view of [`GameInfo`].
#[derive(Clone, Copy, Debug)]
pub enum GameInfoKind<'a> {
    Data(&'a GameData),
    Path(&'a GamePath),
}

/// Game info for `retro_load_game_special`: unlike [`GameInfo`], possibly
/// empty.
#[derive(Clone, Debug)]
pub enum SpecialGameInfo {
    Empty,
    Data(GameData),
    Path(GamePath),
}

impl SpecialGameInfo {
    /// Special game info around loaded content.
    pub fn from_data(data: GameData) -> (r: SpecialGameInfo)
        ensures
            r == SpecialGameInfo::Data(data),
    {
        SpecialGameInfo::Data(data)
    }

    /// Special game info around a bare path.
    pub fn from_path(path: GamePath) -> (r: SpecialGameInfo)
        ensures
            r == SpecialGameInfo::Path(path),
    {
        SpecialGameInfo::Path(path)
    }

    /// Whether content data was handed over.
    pub fn is_data(&self) -> (r: bool)
        ensures
            r == (self is Data),
    {
        match self {
            SpecialGameInfo::Data(_) => true,
            _ => false,
        }
    }

    /// Whether only a path was handed over.
    pub fn is_path(&self) -> (r: bool)
        ensures
            r == (self is Path),
    {
        match self {
            SpecialGameInfo::Path(_) => true,
            _ => false,
        }
    }

    /// Whether nothing was handed over.
    pub fn is_none(&self) -> (r: bool)
        ensures
            r == (self is Empty),
    {
        match self {
            SpecialGameInfo::Empty => true,
            _ => false,
        }
    }

    /// A borrowed case split over the three kinds.
    pub fn as_ref(&self) -> (r: SpecialGameInfoKind<'_>)
        ensures
            match r {
                SpecialGameInfoKind::Empty => self is Empty,
                SpecialGameInfoKind::Data(d) => self matches SpecialGameInfo::Data(dd) && d == dd,
                SpecialGameInfoKind::Path(p) => self matches SpecialGameInfo::Path(pp) && p == pp,
            },
    {
        match self {
            SpecialGameInfo::Empty => SpecialGameInfoKind::Empty,
            SpecialGameInfo::Data(d) => SpecialGameInfoKind::Data(d),
            SpecialGameInfo::Path(p) => SpecialGameInfoKind::Path(p),
        }
    }
}

/// A borrowed view of [`SpecialGameInfo`].
#[derive(Clone, Copy, Debug)]
pub enum SpecialGameInfoKind<'a> {
    Empty,
    Data(&'a GameData),
    Path(&'a GamePath),
}

/// The numeric game type of `retro_load_game_special`.
#[derive(Clone, Copy, Debug, PartialEq, Eq, Hash, Structural)]
pub struct GameType(pub u32);

impl GameType {
    /// Wraps a raw game type number.
    pub fn new(n: u32) -> (r: GameType)
        ensures
            r.0 == n,
    {
        GameType(n)
    }

    /// The raw number.
    pub fn into_inner(self) -> (r: u32)
        ensures
            r == self.0,
    {
        self.0
    }
}

} // verus!
