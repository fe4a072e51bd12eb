//! The draw-time composition core of a renderer: render states, identity keys
//! for compiled programs, the program cache, shader-source composition for
//! line geometry and the order-independent-transparency resolve effect, and
//! the edge extraction behind wireframes.
pub mod cache;
pub mod effect;
pub mod ids;
pub mod lines;
pub mod render_states;
pub mod wireframe;
