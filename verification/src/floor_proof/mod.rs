pub mod maze_floor;
pub mod maze_rules;
pub mod prng;
pub mod record;
pub mod reward;
pub mod validation;
pub mod validation_result;

pub use maze_floor::GeneratedMazeFloor;
pub use prng::MazePrngVersion;
pub use record::FloorProof;
pub use reward::FloorReward;
pub use validation::FloorValidator;
pub use validation_result::{FloorInvalidReason, FloorValidationResult};
