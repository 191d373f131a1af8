//! Integer core of a voxel ray-marching viewer: the procedural voxel volume,
//! the elevation tile list, the camera's motion intents, and the decisions
//! that keep the GPU surface, its workgroup grid and its bindings consistent.

pub mod bindings;
pub mod input;
pub mod phase;
pub mod surface;
pub mod tiles;
pub mod voxel;

pub use bindings::{
    compute_bindings, render_bindings, BindingKind, BindingSlot, SceneResource, Stages,
};
pub use input::{Key, MotionAxis, MotionIntent};
pub use phase::{LoopPhase, PhaseError};
pub use surface::{
    recovery_for, FrameRecovery, SurfaceFault, Viewport, FULL_SCREEN_VERTICES, WORKGROUP_SIZE,
};
pub use tiles::{generate_tile_list, Region};
pub use voxel::{
    generate_volume, voxel_index, AIR, DIRT, GRASS, HEIGHT, LENGTH, STONE, VOXEL_COUNT, WATER,
    WIDTH,
};
