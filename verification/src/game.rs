//! Configuration of the game host.
use vstd::prelude::*;

verus! {

/// Where the host looks for script sources. The directory is scanned by
/// the embedding program, which hands the loaded sources to the runtime.
pub struct GameConfig {
    pub source_dir: String,
}

impl GameConfig {
    pub fn new(source_dir: String) -> (r: GameConfig)
        ensures
            r.source_dir@ == source_dir@,
    {
        GameConfig { source_dir }
    }
}

impl Default for GameConfig {
    /// The conventional source directory, relative to the working
    /// directory of the host process.
    fn default() -> (r: GameConfig)
        ensures
            r.source_dir@ == "scripts"@,
    {
        GameConfig { source_dir: "scripts".to_owned() }
    }
}

} // verus!
