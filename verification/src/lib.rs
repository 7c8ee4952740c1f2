//! Verified core of an offline ray-tracing renderer.
//!
//! The renderer casts rays through a pinhole camera into a scene of spheres
//! and planes, shades hits with Blinn-Phong lighting, shadows and recursive
//! reflections, and runs either on the host's cores or on a GPU compute
//! pipeline. The floating-point geometry and the device plumbing live in the
//! unverified executable around this crate; this library holds everything
//! whose behaviour is exact integer or byte-level logic, with contracts:
//!
//! - the GPU memory-budget guard and the allocation statistics ([`budget`]);
//! - the binary layout of the buffers handed to the compute shader, over
//!   IEEE-754 bit patterns carried as opaque 32-bit words ([`layout`]);
//! - the compute-dispatch sizing and the progressive sample schedule
//!   ([`schedule`]);
//! - the row-major assembly of pixel grids and the RGBA-to-RGB repacking of
//!   finished frames ([`frame`]);
//! - the shared render configuration ([`config`]).

pub mod budget;
pub mod config;
pub mod frame;
pub mod layout;
pub mod schedule;
