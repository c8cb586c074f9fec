//! Decision logic for a windowed GPU renderer: the application lifecycle,
//! surface configuration, frame-acquisition handling and window placement.
//!
//! The platform layer (window system, GPU device) feeds events and plain
//! values in, and performs the effects that come back.

pub mod lifecycle;
pub mod placement;
pub mod surface;

pub use lifecycle::{Effects, Event, Key, KeyState, Lifecycle, Phase};
pub use placement::center_position;
pub use surface::{
    choose_format_index, clamp_extent, frame_action, initial_config, select_format, AcquireOutcome,
    AlphaMode, Extent, FrameAction, PresentMode, SetupError, SurfaceConfig, MAX_FRAME_LATENCY,
    TRIANGLE_INSTANCE_COUNT, TRIANGLE_VERTEX_COUNT,
};
