//! The GPU memory-budget guard and the allocation statistics.
//!
//! Before a render call touches the device, the renderer computes how many
//! bytes of device memory the call would need — the output and staging
//! buffers, the two uniform buffers, and the three storage buffers sized by
//! element count — and refuses the call outright when the total exceeds a
//! fixed ceiling, carrying the computed requirement so the caller can
//! suggest remedies. The statistics record the bytes of the latest call and
//! the peak over all calls; they are observational only.

use vstd::prelude::*;
use crate::layout::{CAMERA_WORDS, LIGHT_WORDS, PARAMS_WORDS, PLANE_WORDS, SPHERE_WORDS};
use crate::layout::{GpuCamera, GpuLight, GpuPlane, GpuSphere, RenderParams};
use crate::layout::{
    camera_words, le_bytes_of_words, lemma_le_bytes_of_words_len, lemma_lights_words_len,
    lemma_planes_words_len, lemma_spheres_words_len, lights_words, params_words, planes_words,
    spheres_words,
};

verus! {

/// Bytes of one pixel in the output and staging buffers: four `f32` channels.
pub const PIXEL_BYTES: u64 = 16;

/// Bytes of the render-parameter uniform buffer.
pub const PARAMS_BYTES: u64 = (PARAMS_WORDS * 4) as u64;

/// Bytes of the camera uniform buffer.
pub const CAMERA_BYTES: u64 = (CAMERA_WORDS * 4) as u64;

/// Bytes of one sphere in its storage buffer.
pub const SPHERE_BYTES: u64 = (SPHERE_WORDS * 4) as u64;

/// Bytes of one plane in its storage buffer.
pub const PLANE_BYTES: u64 = (PLANE_WORDS * 4) as u64;

/// Bytes of one light in its storage buffer.
pub const LIGHT_BYTES: u64 = (LIGHT_WORDS * 4) as u64;

/// The ceiling on the device memory of one render call, in mebibytes.
pub const MAX_MEMORY_MB: u64 = 2048;

/// The same ceiling in bytes.
pub const MAX_MEMORY_BYTES: u64 = MAX_MEMORY_MB * 1024 * 1024;

/// The device bytes that one render call needs: output and staging buffers
/// of one pixel each per grid cell, the two uniform buffers, and the three
/// storage buffers sized by element count.
pub open spec fn spec_required_bytes(
    width: u32,
    height: u32,
    num_spheres: nat,
    num_planes: nat,
    num_lights: nat,
) -> int {
    2 * (width * height * PIXEL_BYTES) + PARAMS_BYTES + CAMERA_BYTES
        + num_spheres * SPHERE_BYTES + num_planes * PLANE_BYTES + num_lights * LIGHT_BYTES
}

/// Why a render call on the compute-shader path failed before producing an
/// image. Only device acquisition and the memory budget can fail; the
/// intersection and shading logic itself is total.
pub enum GpuError {
    /// No compute-capable adapter was found.
    NoAdapter,
    /// An adapter was found but refused to open a logical device; the
    /// device's own message is carried along.
    DeviceRequest(String),
    /// The render call would need more device memory than
    /// [`MAX_MEMORY_BYTES`]; carries the computed requirement.
    OutOfMemory {
        /// The bytes the call would have needed.
        requested_bytes: u128,
    },
}

/// Computes the device bytes that a render call of the given frame size and
/// scene counts needs. Wide arithmetic: the result is exact even for frame
/// sizes far beyond the budget ceiling.
pub fn required_bytes(
    width: u32,
    height: u32,
    num_spheres: usize,
    num_planes: usize,
    num_lights: usize,
) -> (bytes: u128)
    ensures
        bytes == spec_required_bytes(
            width,
            height,
            num_spheres as nat,
            num_planes as nat,
            num_lights as nat,
        ),
{
    proof {
        assert((width as u128) * (height as u128) < 0x1_0000_0000_0000_0000u128)
            by (nonlinear_arith)
            requires
                width <= 0xffff_ffffu128,
                height <= 0xffff_ffffu128,
        ;
        assert((num_spheres as u128) * (SPHERE_BYTES as u128) < 0x1_0000_0000_0000_0000_0000u128)
            by (nonlinear_arith)
            requires
                num_spheres <= 0xffff_ffff_ffff_ffffu64,
        ;
        assert((num_planes as u128) * (PLANE_BYTES as u128) < 0x1_0000_0000_0000_0000_0000u128)
            by (nonlinear_arith)
            requires
                num_planes <= 0xffff_ffff_ffff_ffffu64,
        ;
        assert((num_lights as u128) * (LIGHT_BYTES as u128) < 0x1_0000_0000_0000_0000_0000u128)
            by (nonlinear_arith)
            requires
                num_lights <= 0xffff_ffff_ffff_ffffu64,
        ;
    }
    let pixels: u128 = (width as u128) * (height as u128);
    let transfer: u128 = pixels * 2 * (PIXEL_BYTES as u128);
    let uniforms: u128 = (PARAMS_BYTES + CAMERA_BYTES) as u128;
    let storage: u128 = (num_spheres as u128) * (SPHERE_BYTES as u128)
        + (num_planes as u128) * (PLANE_BYTES as u128)
        + (num_lights as u128) * (LIGHT_BYTES as u128);
    transfer + uniforms + storage
}

/// The budget guard: computes the device bytes a render call needs and
/// admits the call exactly when they stay within [`MAX_MEMORY_BYTES`],
/// otherwise refuses it before anything is allocated, carrying the
/// requirement.
pub fn check_memory_budget(
    width: u32,
    height: u32,
    num_spheres: usize,
    num_planes: usize,
    num_lights: usize,
) -> (result: Result<u64, GpuError>)
    ensures
        ({
            let need = spec_required_bytes(
                width,
                height,
                num_spheres as nat,
                num_planes as nat,
                num_lights as nat,
            );
            &&& need <= MAX_MEMORY_BYTES ==> (result matches Ok(bytes) && bytes == need)
            &&& need > MAX_MEMORY_BYTES ==> (result matches Err(GpuError::OutOfMemory {
                requested_bytes,
            }) && requested_bytes == need)
        }),
{
    let need: u128 = required_bytes(width, height, num_spheres, num_planes, num_lights);
    if need <= MAX_MEMORY_BYTES as u128 {
        Ok(need as u64)
    } else {
        Err(GpuError::OutOfMemory { requested_bytes: need })
    }
}

/// The budget charges a render call exactly the bytes that the layout
/// engine emits for it: the output and staging buffers at one pixel per
/// grid cell, plus the serialised parameter, camera, sphere, plane and
/// light buffers at four bytes per word. The guard and the marshaller can
/// therefore never drift apart.
pub proof fn lemma_budget_matches_layout(
    width: u32,
    height: u32,
    camera: GpuCamera,
    params: RenderParams,
    spheres: Seq<GpuSphere>,
    planes: Seq<GpuPlane>,
    lights: Seq<GpuLight>,
)
    ensures
        spec_required_bytes(width, height, spheres.len(), planes.len(), lights.len()) == 2 * (width
            * height * PIXEL_BYTES) + le_bytes_of_words(params_words(params)).len()
            + le_bytes_of_words(camera_words(camera)).len() + le_bytes_of_words(
            spheres_words(spheres),
        ).len() + le_bytes_of_words(planes_words(planes)).len() + le_bytes_of_words(
            lights_words(lights),
        ).len(),
{
    lemma_le_bytes_of_words_len(params_words(params));
    lemma_le_bytes_of_words_len(camera_words(camera));
    lemma_le_bytes_of_words_len(spheres_words(spheres));
    lemma_le_bytes_of_words_len(planes_words(planes));
    lemma_le_bytes_of_words_len(lights_words(lights));
    lemma_spheres_words_len(spheres);
    lemma_planes_words_len(planes);
    lemma_lights_words_len(lights);
    assert(spheres.len() * SPHERE_BYTES == 4 * (SPHERE_WORDS * spheres.len()))
        by (nonlinear_arith)
        requires
            SPHERE_BYTES == 4 * SPHERE_WORDS,
    ;
    assert(planes.len() * PLANE_BYTES == 4 * (PLANE_WORDS * planes.len()))
        by (nonlinear_arith)
        requires
            PLANE_BYTES == 4 * PLANE_WORDS,
    ;
    assert(lights.len() * LIGHT_BYTES == 4 * (LIGHT_WORDS * lights.len()))
        by (nonlinear_arith)
        requires
            LIGHT_BYTES == 4 * LIGHT_WORDS,
    ;
}

/// Device-memory statistics across render calls: the bytes of the latest
/// admitted call and the largest any call has needed. Diagnostic only;
/// nothing throttles on them.
pub struct MemoryInfo {
    /// Bytes of the latest admitted render call.
    pub total_allocated_bytes: u64,
    /// Largest bytes any admitted render call has needed.
    pub peak_allocated_bytes: u64,
}

impl MemoryInfo {
    /// Statistics of a renderer that has not rendered yet.
    pub fn new() -> (info: MemoryInfo)
        ensures
            info.total_allocated_bytes == 0,
            info.peak_allocated_bytes == 0,
    {
        MemoryInfo { total_allocated_bytes: 0, peak_allocated_bytes: 0 }
    }

    /// Records one admitted render call: the latest figure is replaced, the
    /// peak only ever grows.
    pub fn record(&mut self, bytes: u64)
        ensures
            final(self).total_allocated_bytes == bytes,
            final(self).peak_allocated_bytes == if bytes > old(self).peak_allocated_bytes {
                bytes as int
            } else {
                old(self).peak_allocated_bytes as int
            },
    {
        self.total_allocated_bytes = bytes;
        if bytes > self.peak_allocated_bytes {
            self.peak_allocated_bytes = bytes;
        }
    }
}

} // verus!
