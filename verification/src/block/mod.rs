pub mod block;
pub mod header;
pub mod merkle;

pub use block::Block;
pub use header::BlockHeader;
