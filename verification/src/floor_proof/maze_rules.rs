use vstd::prelude::*;

verus! {

/// Parameters of a maze.
#[derive(Debug, Clone, Copy)]
pub struct MazeConfig {
    pub width: u32,
    pub height: u32,
    pub trap_density: u32,
    pub coin_density: u32,
}

/// Maze regeneration and hashing. Neither is implemented yet: regeneration
/// yields an empty grid and the hash is all zeros.
pub struct MazeRules;

impl MazeRules {
    /// The grid regenerated from `seed`; currently always empty.
    pub fn regenerate_maze(seed: &[u8; 32], config: &MazeConfig) -> (res: Vec<Vec<bool>>)
        ensures
            res@.len() == 0,
    {
        Vec::new()
    }

    /// The hash of a grid; currently always 32 zero bytes.
    pub fn maze_hash(maze: &[Vec<bool>]) -> (res: [u8; 32])
        ensures
            res@ == Seq::new(32, |i: int| 0u8),
    {
        let res = [0u8; 32];
        assert(res@ =~= Seq::new(32, |i: int| 0u8));
        res
    }
}

} // verus!
