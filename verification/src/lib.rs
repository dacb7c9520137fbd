//! A simple, type-safe and opinionated graphics crate: the backend-agnostic data types, render
//! state and validation rules, with their contracts.
pub mod backend;
pub mod blending;
pub mod buffer;
pub mod context;
pub mod conversions;
pub mod depth_test;
pub mod face_culling;
pub mod framebuffer;
pub mod pipeline;
pub mod pixel;
pub mod ranges;
pub mod render_gate;
pub mod render_state;
pub mod shader;
pub mod shading_gate;
pub mod tess;
pub mod tess_gate;
pub mod text;
pub mod texture;
pub mod vertex;
