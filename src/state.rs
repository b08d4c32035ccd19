pub mod inertia;
pub mod layer;
pub mod movement;
pub mod panning;
