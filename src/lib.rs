//! A browser puppet viewer's load-to-render core: a single-slot hand-off of the
//! decoded model, the render loop's state machine, and the scene clock.

pub mod error;
pub mod load;
pub mod render_loop;
pub mod scene;
pub mod slot;
pub mod surface;
