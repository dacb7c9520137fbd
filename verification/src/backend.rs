//! Backend interfacing.
//!
//! An end-user **is not supposed to implement any of this.** Library authors might use some
//! traits from here, required by generic code, but no one but backend authors should implement
//! any symbols from here.
//!
//! # Conventions
//!
//! ## Constrained types
//!
//! When a public symbol, like [`Buffer`], has type variables and the first one is `B`, it’s likely
//! to be the _backend type_. Very often, that type will be constrained by a trait. For instance,
//! for [`Buffer`], it is constrained by [`BufferBackend`]. That trait will provide the interface
//! that backends need to implement to support the API type — in our case, [`Buffer`].
//!
//! ## Associated types and representation objects
//!
//! Most backend traits have associated types ending with the `Repr` suffix. Those types are the
//! concrete _representation_ of the general concept.
//!
//! ## Contracts
//!
//! The methods of the backend traits state, in their contracts, what the front types document of
//! them: what a buffer holds after a write, which errors a write reports, etc. Every backend must
//! keep these contracts; the front types are proved correct under them. The spec functions that
//! the contracts speak of describe the state of a backend; each backend defines them, and their
//! default, an unspecified value, states nothing.
//!
//! [`Buffer`]: crate::buffer::Buffer
//! [`BufferBackend`]: crate::backend::buffer::Buffer
pub mod buffer;
pub mod color_slot;
pub mod depth_slot;
pub mod framebuffer;
pub mod pipeline;
pub mod render_gate;
pub mod shader;
pub mod shading_gate;
pub mod tess;
pub mod tess_gate;
pub mod texture;
