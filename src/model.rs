pub mod position;
pub mod tile;
pub mod viewport;

pub use position::{GeoPoint, Px};
pub use tile::{Tile, TileLayer};
pub use viewport::Viewport;
