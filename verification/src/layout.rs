//! The binary layout of the buffers handed to the compute shader.
//!
//! The compute shader reads the scene from six bound buffers whose field
//! order, 16-byte vector alignment and explicit padding are a binary
//! contract: any drift between what the host writes and what the shader
//! expects corrupts the image silently. This module is that contract's host
//! side, verified word by word.
//!
//! Scalars that the shader reads as `f32` are carried here as the opaque
//! 32-bit words of their IEEE-754 bit patterns. The layout engine never
//! interprets those words — it only places them — so every function here is
//! exact integer logic. The unverified rim converts `f32` values to words
//! with `f32::to_bits` before calling in.

use vstd::prelude::*;

verus! {

/// Words of one encoded material.
pub const MATERIAL_WORDS: usize = 8;

/// Words of one encoded sphere.
pub const SPHERE_WORDS: usize = 12;

/// Words of one encoded plane.
pub const PLANE_WORDS: usize = 16;

/// Words of one encoded light.
pub const LIGHT_WORDS: usize = 4;

/// Words of the encoded camera uniform.
pub const CAMERA_WORDS: usize = 16;

/// Words of the encoded render-parameter uniform.
pub const PARAMS_WORDS: usize = 12;

/// A three-component vector as the shader sees it: three IEEE-754 bit
/// patterns, one word per component.
#[derive(Clone, Copy)]
pub struct Vec3Bits {
    /// Bit pattern of the x component.
    pub x: u32,
    /// Bit pattern of the y component.
    pub y: u32,
    /// Bit pattern of the z component.
    pub z: u32,
}

/// A surface material in shader form: a colour and four shading
/// coefficients, each an IEEE-754 bit pattern.
#[derive(Clone, Copy)]
pub struct GpuMaterial {
    /// Bit patterns of the surface colour's three channels.
    pub color: Vec3Bits,
    /// Bit pattern of the diffuse coefficient.
    pub diffuse: u32,
    /// Bit pattern of the specular coefficient.
    pub specular: u32,
    /// Bit pattern of the shininess exponent.
    pub shininess: u32,
    /// Bit pattern of the reflectivity weight.
    pub reflectivity: u32,
}

/// A sphere in shader form.
#[derive(Clone, Copy)]
pub struct GpuSphere {
    /// Bit patterns of the centre.
    pub center: Vec3Bits,
    /// Bit pattern of the radius.
    pub radius: u32,
    /// The surface material.
    pub material: GpuMaterial,
}

/// A plane in shader form.
#[derive(Clone, Copy)]
pub struct GpuPlane {
    /// Bit patterns of a point on the plane.
    pub point: Vec3Bits,
    /// Bit patterns of the unit normal.
    pub normal: Vec3Bits,
    /// The surface material.
    pub material: GpuMaterial,
}

/// A point light in shader form.
#[derive(Clone, Copy)]
pub struct GpuLight {
    /// Bit patterns of the light's position.
    pub position: Vec3Bits,
    /// Bit pattern of the light's intensity.
    pub intensity: u32,
}

/// The camera uniform in shader form.
#[derive(Clone, Copy)]
pub struct GpuCamera {
    /// Bit patterns of the camera's position.
    pub position: Vec3Bits,
    /// Bit patterns of the point the camera looks at.
    pub look_at: Vec3Bits,
    /// Bit patterns of the up direction.
    pub up: Vec3Bits,
    /// Bit pattern of the vertical field of view in degrees.
    pub fov: u32,
    /// Bit pattern of the width-to-height ratio.
    pub aspect_ratio: u32,
}

/// The render-parameter uniform in shader form. The counts, sizes and the
/// recursion bound are genuine integers; the background colour and the
/// self-intersection epsilon are IEEE-754 bit patterns.
#[derive(Clone, Copy)]
pub struct RenderParams {
    /// Width of the pixel grid.
    pub width: u32,
    /// Height of the pixel grid.
    pub height: u32,
    /// Samples accumulated per pixel.
    pub samples: u32,
    /// Recursion bound of the shading engine.
    pub max_depth: u32,
    /// Bit patterns of the background colour.
    pub background_color: Vec3Bits,
    /// Bit pattern of the self-intersection epsilon.
    pub epsilon: u32,
    /// How many spheres the sphere buffer holds.
    pub num_spheres: u32,
    /// How many planes the plane buffer holds.
    pub num_planes: u32,
    /// How many lights the light buffer holds.
    pub num_lights: u32,
}

/// The eight words of one encoded material: colour, the four coefficients,
/// and one padding word.
pub open spec fn material_words(m: GpuMaterial) -> Seq<u32> {
    seq![m.color.x, m.color.y, m.color.z, m.diffuse, m.specular, m.shininess, m.reflectivity, 0]
}

/// The twelve words of one encoded sphere: centre, radius, material.
pub open spec fn sphere_words(s: GpuSphere) -> Seq<u32> {
    seq![s.center.x, s.center.y, s.center.z, s.radius] + material_words(s.material)
}

/// The sixteen words of one encoded plane: point and normal, each padded to
/// a 16-byte boundary, then the material.
pub open spec fn plane_words(p: GpuPlane) -> Seq<u32> {
    seq![p.point.x, p.point.y, p.point.z, 0, p.normal.x, p.normal.y, p.normal.z, 0]
        + material_words(p.material)
}

/// The four words of one encoded light: position, then intensity.
pub open spec fn light_words(l: GpuLight) -> Seq<u32> {
    seq![l.position.x, l.position.y, l.position.z, l.intensity]
}

/// The sixteen words of the encoded camera uniform: position and look-at
/// point, each padded to a 16-byte boundary, the up direction followed by
/// the field of view, then the aspect ratio padded to the struct's end.
pub open spec fn camera_words(c: GpuCamera) -> Seq<u32> {
    seq![
        c.position.x, c.position.y, c.position.z, 0,
        c.look_at.x, c.look_at.y, c.look_at.z, 0,
        c.up.x, c.up.y, c.up.z, c.fov,
        c.aspect_ratio, 0, 0, 0,
    ]
}

/// The twelve words of the encoded render-parameter uniform.
pub open spec fn params_words(p: RenderParams) -> Seq<u32> {
    seq![
        p.width, p.height, p.samples, p.max_depth,
        p.background_color.x, p.background_color.y, p.background_color.z, p.epsilon,
        p.num_spheres, p.num_planes, p.num_lights, 0,
    ]
}

/// The sphere storage buffer: every sphere's words, in order.
pub open spec fn spheres_words(spheres: Seq<GpuSphere>) -> Seq<u32>
    decreases spheres.len(),
{
    if spheres.len() == 0 {
        Seq::empty()
    } else {
        spheres_words(spheres.drop_last()) + sphere_words(spheres.last())
    }
}

/// The plane storage buffer: every plane's words, in order.
pub open spec fn planes_words(planes: Seq<GpuPlane>) -> Seq<u32>
    decreases planes.len(),
{
    if planes.len() == 0 {
        Seq::empty()
    } else {
        planes_words(planes.drop_last()) + plane_words(planes.last())
    }
}

/// The light storage buffer: every light's words, in order.
pub open spec fn lights_words(lights: Seq<GpuLight>) -> Seq<u32>
    decreases lights.len(),
{
    if lights.len() == 0 {
        Seq::empty()
    } else {
        lights_words(lights.drop_last()) + light_words(lights.last())
    }
}

/// Every sphere contributes exactly [`SPHERE_WORDS`] words.
pub proof fn lemma_spheres_words_len(spheres: Seq<GpuSphere>)
    ensures
        spheres_words(spheres).len() == SPHERE_WORDS * spheres.len(),
    decreases spheres.len(),
{
    if spheres.len() > 0 {
        lemma_spheres_words_len(spheres.drop_last());
    }
}

/// Every plane contributes exactly [`PLANE_WORDS`] words.
pub proof fn lemma_planes_words_len(planes: Seq<GpuPlane>)
    ensures
        planes_words(planes).len() == PLANE_WORDS * planes.len(),
    decreases planes.len(),
{
    if planes.len() > 0 {
        lemma_planes_words_len(planes.drop_last());
    }
}

/// Every light contributes exactly [`LIGHT_WORDS`] words.
pub proof fn lemma_lights_words_len(lights: Seq<GpuLight>)
    ensures
        lights_words(lights).len() == LIGHT_WORDS * lights.len(),
    decreases lights.len(),
{
    if lights.len() > 0 {
        lemma_lights_words_len(lights.drop_last());
    }
}

/// The stride contract of the sphere buffer: sphere `i` occupies exactly
/// the words `SPHERE_WORDS * i .. SPHERE_WORDS * (i + 1)`.
pub proof fn lemma_sphere_block_at_offset(spheres: Seq<GpuSphere>, i: int)
    requires
        0 <= i < spheres.len(),
    ensures
        spheres_words(spheres).subrange(SPHERE_WORDS * i, SPHERE_WORDS * (i + 1))
            == sphere_words(spheres[i]),
    decreases spheres.len(),
{
    lemma_spheres_words_len(spheres);
    lemma_spheres_words_len(spheres.drop_last());
    if i == spheres.len() - 1 {
        assert(spheres_words(spheres).subrange(SPHERE_WORDS * i, SPHERE_WORDS * (i + 1))
            =~= sphere_words(spheres[i]));
    } else {
        lemma_sphere_block_at_offset(spheres.drop_last(), i);
        assert(spheres_words(spheres).subrange(SPHERE_WORDS * i, SPHERE_WORDS * (i + 1))
            =~= spheres_words(spheres.drop_last()).subrange(
            SPHERE_WORDS * i,
            SPHERE_WORDS * (i + 1),
        ));
    }
}

/// The stride contract of the plane buffer: plane `i` occupies exactly the
/// words `PLANE_WORDS * i .. PLANE_WORDS * (i + 1)`.
pub proof fn lemma_plane_block_at_offset(planes: Seq<GpuPlane>, i: int)
    requires
        0 <= i < planes.len(),
    ensures
        planes_words(planes).subrange(PLANE_WORDS * i, PLANE_WORDS * (i + 1))
            == plane_words(planes[i]),
    decreases planes.len(),
{
    lemma_planes_words_len(planes);
    lemma_planes_words_len(planes.drop_last());
    if i == planes.len() - 1 {
        assert(planes_words(planes).subrange(PLANE_WORDS * i, PLANE_WORDS * (i + 1))
            =~= plane_words(planes[i]));
    } else {
        lemma_plane_block_at_offset(planes.drop_last(), i);
        assert(planes_words(planes).subrange(PLANE_WORDS * i, PLANE_WORDS * (i + 1))
            =~= planes_words(planes.drop_last()).subrange(PLANE_WORDS * i, PLANE_WORDS * (i + 1)));
    }
}

/// The stride contract of the light buffer: light `i` occupies exactly the
/// words `LIGHT_WORDS * i .. LIGHT_WORDS * (i + 1)`.
pub proof fn lemma_light_block_at_offset(lights: Seq<GpuLight>, i: int)
    requires
        0 <= i < lights.len(),
    ensures
        lights_words(lights).subrange(LIGHT_WORDS * i, LIGHT_WORDS * (i + 1))
            == light_words(lights[i]),
    decreases lights.len(),
{
    lemma_lights_words_len(lights);
    lemma_lights_words_len(lights.drop_last());
    if i == lights.len() - 1 {
        assert(lights_words(lights).subrange(LIGHT_WORDS * i, LIGHT_WORDS * (i + 1))
            =~= light_words(lights[i]));
    } else {
        lemma_light_block_at_offset(lights.drop_last(), i);
        assert(lights_words(lights).subrange(LIGHT_WORDS * i, LIGHT_WORDS * (i + 1))
            =~= lights_words(lights.drop_last()).subrange(LIGHT_WORDS * i, LIGHT_WORDS * (i + 1)));
    }
}

/// Encodes one sphere.
pub fn encode_sphere(sphere: &GpuSphere) -> (words: Vec<u32>)
    ensures
        words@ == sphere_words(*sphere),
{
    let words: Vec<u32> = vec![
        sphere.center.x, sphere.center.y, sphere.center.z, sphere.radius,
        sphere.material.color.x, sphere.material.color.y, sphere.material.color.z,
        sphere.material.diffuse, sphere.material.specular, sphere.material.shininess,
        sphere.material.reflectivity, 0,
    ];
    proof {
        assert(words@ =~= sphere_words(*sphere));
    }
    words
}

/// Encodes one plane.
pub fn encode_plane(plane: &GpuPlane) -> (words: Vec<u32>)
    ensures
        words@ == plane_words(*plane),
{
    let words: Vec<u32> = vec![
        plane.point.x, plane.point.y, plane.point.z, 0,
        plane.normal.x, plane.normal.y, plane.normal.z, 0,
        plane.material.color.x, plane.material.color.y, plane.material.color.z,
        plane.material.diffuse, plane.material.specular, plane.material.shininess,
        plane.material.reflectivity, 0,
    ];
    proof {
        assert(words@ =~= plane_words(*plane));
    }
    words
}

/// Encodes one light.
pub fn encode_light(light: &GpuLight) -> (words: Vec<u32>)
    ensures
        words@ == light_words(*light),
{
    let words: Vec<u32> = vec![
        light.position.x, light.position.y, light.position.z, light.intensity,
    ];
    proof {
        assert(words@ =~= light_words(*light));
    }
    words
}

/// Encodes the camera uniform.
pub fn encode_camera(camera: &GpuCamera) -> (words: Vec<u32>)
    ensures
        words@ == camera_words(*camera),
        words@.len() == CAMERA_WORDS,
{
    let words: Vec<u32> = vec![
        camera.position.x, camera.position.y, camera.position.z, 0,
        camera.look_at.x, camera.look_at.y, camera.look_at.z, 0,
        camera.up.x, camera.up.y, camera.up.z, camera.fov,
        camera.aspect_ratio, 0, 0, 0,
    ];
    proof {
        assert(words@ =~= camera_words(*camera));
    }
    words
}

/// Encodes the render-parameter uniform.
pub fn encode_params(params: &RenderParams) -> (words: Vec<u32>)
    ensures
        words@ == params_words(*params),
        words@.len() == PARAMS_WORDS,
{
    let words: Vec<u32> = vec![
        params.width, params.height, params.samples, params.max_depth,
        params.background_color.x, params.background_color.y, params.background_color.z,
        params.epsilon, params.num_spheres, params.num_planes, params.num_lights, 0,
    ];
    proof {
        assert(words@ =~= params_words(*params));
    }
    words
}

/// Encodes the sphere storage buffer.
pub fn encode_spheres(spheres: &Vec<GpuSphere>) -> (words: Vec<u32>)
    ensures
        words@ == spheres_words(spheres@),
        words@.len() == SPHERE_WORDS * spheres@.len(),
{
    let mut words: Vec<u32> = Vec::new();
    for i in 0..spheres.len()
        invariant
            words@ == spheres_words(spheres@.subrange(0, i as int)),
    {
        let mut block = encode_sphere(&spheres[i]);
        words.append(&mut block);
        proof {
            let done = spheres@.subrange(0, i + 1);
            assert(done.drop_last() =~= spheres@.subrange(0, i as int));
            assert(done.last() == spheres@[i as int]);
        }
    }
    proof {
        assert(spheres@.subrange(0, spheres@.len() as int) =~= spheres@);
        lemma_spheres_words_len(spheres@);
    }
    words
}

/// Encodes the plane storage buffer.
pub fn encode_planes(planes: &Vec<GpuPlane>) -> (words: Vec<u32>)
    ensures
        words@ == planes_words(planes@),
        words@.len() == PLANE_WORDS * planes@.len(),
{
    let mut words: Vec<u32> = Vec::new();
    for i in 0..planes.len()
        invariant
            words@ == planes_words(planes@.subrange(0, i as int)),
    {
        let mut block = encode_plane(&planes[i]);
        words.append(&mut block);
        proof {
            let done = planes@.subrange(0, i + 1);
            assert(done.drop_last() =~= planes@.subrange(0, i as int));
            assert(done.last() == planes@[i as int]);
        }
    }
    proof {
        assert(planes@.subrange(0, planes@.len() as int) =~= planes@);
        lemma_planes_words_len(planes@);
    }
    words
}

/// Encodes the light storage buffer.
pub fn encode_lights(lights: &Vec<GpuLight>) -> (words: Vec<u32>)
    ensures
        words@ == lights_words(lights@),
        words@.len() == LIGHT_WORDS * lights@.len(),
{
    let mut words: Vec<u32> = Vec::new();
    for i in 0..lights.len()
        invariant
            words@ == lights_words(lights@.subrange(0, i as int)),
    {
        let mut block = encode_light(&lights[i]);
        words.append(&mut block);
        proof {
            let done = lights@.subrange(0, i + 1);
            assert(done.drop_last() =~= lights@.subrange(0, i as int));
            assert(done.last() == lights@[i as int]);
        }
    }
    proof {
        assert(lights@.subrange(0, lights@.len() as int) =~= lights@);
        lemma_lights_words_len(lights@);
    }
    words
}

/// The four bytes of one word, least significant first — the byte order the
/// device consumes.
pub open spec fn le_bytes_of_word(word: u32) -> Seq<u8> {
    seq![
        (word & 0xff) as u8,
        ((word >> 8) & 0xff) as u8,
        ((word >> 16) & 0xff) as u8,
        ((word >> 24) & 0xff) as u8,
    ]
}

/// The bytes of a whole word buffer, in order.
pub open spec fn le_bytes_of_words(words: Seq<u32>) -> Seq<u8>
    decreases words.len(),
{
    if words.len() == 0 {
        Seq::empty()
    } else {
        le_bytes_of_words(words.drop_last()) + le_bytes_of_word(words.last())
    }
}

/// Every word contributes exactly four bytes.
pub proof fn lemma_le_bytes_of_words_len(words: Seq<u32>)
    ensures
        le_bytes_of_words(words).len() == 4 * words.len(),
    decreases words.len(),
{
    if words.len() > 0 {
        lemma_le_bytes_of_words_len(words.drop_last());
    }
}

/// The stride contract of serialisation: word `j` lands exactly on the
/// bytes `4 * j .. 4 * (j + 1)`, so a word offset in any layout above is a
/// byte offset on the device.
pub proof fn lemma_word_bytes_at_offset(words: Seq<u32>, j: int)
    requires
        0 <= j < words.len(),
    ensures
        le_bytes_of_words(words).subrange(4 * j, 4 * (j + 1)) == le_bytes_of_word(words[j]),
    decreases words.len(),
{
    lemma_le_bytes_of_words_len(words);
    lemma_le_bytes_of_words_len(words.drop_last());
    if j == words.len() - 1 {
        assert(le_bytes_of_words(words).subrange(4 * j, 4 * (j + 1))
            =~= le_bytes_of_word(words[j]));
    } else {
        lemma_word_bytes_at_offset(words.drop_last(), j);
        assert(le_bytes_of_words(words).subrange(4 * j, 4 * (j + 1))
            =~= le_bytes_of_words(words.drop_last()).subrange(4 * j, 4 * (j + 1)));
    }
}

/// Serialises one word into its four bytes, least significant first.
fn word_to_le_bytes(word: u32) -> (bytes: Vec<u8>)
    ensures
        bytes@ == le_bytes_of_word(word),
{
    let bytes: Vec<u8> = vec![
        (word & 0xff) as u8,
        ((word >> 8) & 0xff) as u8,
        ((word >> 16) & 0xff) as u8,
        ((word >> 24) & 0xff) as u8,
    ];
    proof {
        assert(bytes@ =~= le_bytes_of_word(word));
    }
    bytes
}

/// Serialises a word buffer into the byte string uploaded to the device.
pub fn words_to_bytes(words: &Vec<u32>) -> (bytes: Vec<u8>)
    ensures
        bytes@ == le_bytes_of_words(words@),
        bytes@.len() == 4 * words@.len(),
{
    let mut bytes: Vec<u8> = Vec::new();
    for i in 0..words.len()
        invariant
            bytes@ == le_bytes_of_words(words@.subrange(0, i as int)),
    {
        let mut quad = word_to_le_bytes(words[i]);
        bytes.append(&mut quad);
        proof {
            let done = words@.subrange(0, i + 1);
            assert(done.drop_last() =~= words@.subrange(0, i as int));
            assert(done.last() == words@[i as int]);
        }
    }
    proof {
        assert(words@.subrange(0, words@.len() as int) =~= words@);
        lemma_le_bytes_of_words_len(words@);
    }
    bytes
}

} // verus!
