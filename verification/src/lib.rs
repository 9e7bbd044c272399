//! A fighting-game core built around a verified animation-baking pipeline.
//!
//! The bake turns a hierarchical scene — nodes with bind transforms, parent
//! links and sparse animation channels — into dense per-frame tables of
//! world-space bone transforms, and `clip` gives playback a blend primitive
//! over the result. The stages live in `scene` (node table and hierarchy
//! checks), `channels` (frame-slot sampling), `fill` (bind-pose defaults and
//! forward fill), `compose` (parent-chain composition) and `bake` (the whole
//! pipeline and the mesh-bone filter); `trs` and `math` carry the
//! floating-point layer behind trusted glam wrappers. Around the pipeline
//! stand the gameplay pieces of the game loop: input notation and command
//! lists, the bounded input buffer, move frame data, collision boxes, and
//! round bookkeeping.

pub mod bake;
pub mod channels;
pub mod character;
pub mod clip;
pub mod command_list;
pub mod compose;
pub mod error;
pub mod fill;
pub mod graphics;
pub mod input_buffer;
pub mod match_state;
pub mod math;
pub mod move_data;
pub mod rect;
pub mod scene;
pub mod trs;
