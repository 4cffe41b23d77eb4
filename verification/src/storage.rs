use vstd::prelude::*;
use vstd::hash_map::StringHashMap;

pub mod v1;
pub mod v2;
pub mod v3;

verus! {

/// An in-memory stand-in for an SD card: a mapping from resolved paths to
/// text contents.  Every path handed to `write`/`read` is resolved against
/// the mount root before it is used as a key.
pub struct SDCard {
    pub(crate) root: String,
    pub(crate) buffer: StringHashMap<String>,
}

/// An in-memory stand-in for a SPI flash chip.  The `speed` field records
/// the bus speed the device was configured with; paths are used as keys
/// unchanged.
pub struct SPIFlash {
    pub(crate) speed: usize,
    pub(crate) buffer: StringHashMap<String>,
}

impl SDCard {
    /// The mount root the card was created with.
    pub closed spec fn root_view(&self) -> Seq<char> {
        self.root@
    }

    /// The key under which an entry for `path` is stored: the mount root
    /// followed by the path.
    pub open spec fn resolved(&self, path: Seq<char>) -> Seq<char> {
        self.root_view() + path
    }

    /// What the card holds, as a map from resolved path to content.
    pub closed spec fn contents(&self) -> Map<Seq<char>, Seq<char>> {
        self.buffer@.map_values(|v: String| v@)
    }
}

impl SPIFlash {
    /// The bus speed the flash was configured with.
    pub closed spec fn spec_speed(&self) -> usize {
        self.speed
    }

    /// A flash stores entries under the path itself, with no mount root.
    pub open spec fn resolved(&self, path: Seq<char>) -> Seq<char> {
        path
    }

    /// What the flash holds, as a map from path to content.
    pub closed spec fn contents(&self) -> Map<Seq<char>, Seq<char>> {
        self.buffer@.map_values(|v: String| v@)
    }
}

} // verus!
