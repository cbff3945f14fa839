//! The records that the ray tracer reads from its buffers.

use vstd::prelude::*;
use crate::encode::{
    aggregate, close_aggregate, lemma_member_kept, lemma_with_member, lemma_written,
    member_offset, with_member, write_member, ShaderType,
};
use crate::layout::{round_up, Alignment};
use crate::math::{F32, Mat4, Vec3, Vec4};

verus! {

/// The camera as the ray tracer sees it.
///
/// Encoded in 112 bytes: the focal plane at 0, the position at 16, the
/// matrix at 32, the clip distances at 96 and 100.
#[derive(Clone, Copy, Debug, PartialEq, Eq, Structural)]
pub struct Camera {
    /// Width, height and distance of the focal plane.
    pub focal_plane: Vec3,
    pub world_space_position: Vec3,
    /// The rotation of the camera; its position is not folded in.
    pub local_to_world_matrix: Mat4,
    pub near_clip: F32,
    pub far_clip: F32,
}

/// What the ray tracer is told for every frame.
///
/// Encoded in 176 bytes: the camera at 0, the four counters from 112 on, the
/// two colours at 128 and 144, the two strengths at 160 and 164.
#[derive(Clone, Copy, Debug, PartialEq, Eq, Structural)]
pub struct Globals {
    pub camera: Camera,
    /// How many frames have been added up since the picture last changed.
    pub frame: u32,
    pub random_seed: u32,
    pub max_ray_bounces: u32,
    pub max_samples_per_pixel: u32,
    pub skybox_color: Vec3,
    pub ambient_lighting_color: Vec3,
    pub ambient_lighting_strength: F32,
    pub focal_blur_strength: F32,
}

/// The material of one scene object.
///
/// Encoded in 32 bytes: the colour at 0, luminosity and smoothness at 16 and
/// 20.
#[derive(Clone, Copy, Debug, PartialEq, Eq, Structural)]
pub struct Material {
    pub color: Vec4,
    pub luminosity: F32,
    pub smoothness: F32,
}

/// A sphere in world space.
///
/// Encoded in 32 bytes: the position at 0, the radius at 16, the material at
/// 20.
#[derive(Clone, Copy, Debug, PartialEq, Eq, Structural)]
pub struct Sphere {
    pub position: Vec3,
    pub radius: F32,
    /// The place of the sphere's material among the materials.
    pub material_id: u32,
}

/// A triangle mesh: where its vertices start and how many triangles it has.
///
/// Encoded in 12 bytes, one word for each field.
#[derive(Clone, Copy, Debug, PartialEq, Eq, Structural)]
pub struct Mesh {
    /// The place of the mesh's first vertex among the vertices.
    pub index_offset: u32,
    pub triangle_count: u32,
    /// The place of the mesh's material among the materials.
    pub material_id: u32,
}

impl Camera {
    /// The members of the record, each laid out behind the one before it.
    pub open spec fn members(&self) -> Seq<u8> {
        let bytes = with_member(Seq::empty(), self.focal_plane);
        let bytes = with_member(bytes, self.world_space_position);
        let bytes = with_member(bytes, self.local_to_world_matrix);
        let bytes = with_member(bytes, self.near_clip);
        with_member(bytes, self.far_clip)
    }

    /// Where each member starts and where the last one ends, and that size
    /// and alignment of the record follow from its members.
    #[verifier::rlimit(50)]
    pub proof fn lemma_members(&self)
        ensures
            Self::alignment() == Vec3::alignment().spec_max(Mat4::alignment()).spec_max(F32::alignment()),
            Self::size() == round_up(self.members().len(), Self::alignment()),
            self.members().len() == 104,
            self.members().subrange(0, 12) == self.focal_plane.encoding(),
            self.members().subrange(16, 28) == self.world_space_position.encoding(),
            self.members().subrange(32, 96) == self.local_to_world_matrix.encoding(),
            self.members().subrange(96, 100) == self.near_clip.encoding(),
            self.members().subrange(100, 104) == self.far_clip.encoding(),
    {
        let empty = Seq::<u8>::empty();
        lemma_with_member(empty, self.focal_plane);
        assert(member_offset::<Vec3>(0) == 0);
        let up_to_focal_plane = with_member(empty, self.focal_plane);
        assert(up_to_focal_plane.len() == 16);
        lemma_with_member(up_to_focal_plane, self.world_space_position);
        assert(member_offset::<Vec3>(16) == 16);
        let up_to_world_space_position = with_member(up_to_focal_plane, self.world_space_position);
        assert(up_to_world_space_position.len() == 32);
        lemma_member_kept(up_to_focal_plane, self.world_space_position, 0, 12);
        lemma_with_member(up_to_world_space_position, self.local_to_world_matrix);
        assert(member_offset::<Mat4>(32) == 32);
        let up_to_local_to_world_matrix = with_member(
            up_to_world_space_position,
            self.local_to_world_matrix,
        );
        assert(up_to_local_to_world_matrix.len() == 96);
        lemma_member_kept(up_to_world_space_position, self.local_to_world_matrix, 0, 12);
        lemma_member_kept(up_to_world_space_position, self.local_to_world_matrix, 16, 28);
        lemma_with_member(up_to_local_to_world_matrix, self.near_clip);
        assert(member_offset::<F32>(96) == 96);
        let up_to_near_clip = with_member(up_to_local_to_world_matrix, self.near_clip);
        assert(up_to_near_clip.len() == 100);
        lemma_member_kept(up_to_local_to_world_matrix, self.near_clip, 0, 12);
        lemma_member_kept(up_to_local_to_world_matrix, self.near_clip, 16, 28);
        lemma_member_kept(up_to_local_to_world_matrix, self.near_clip, 32, 96);
        lemma_with_member(up_to_near_clip, self.far_clip);
        assert(member_offset::<F32>(100) == 100);
        let up_to_far_clip = with_member(up_to_near_clip, self.far_clip);
        assert(up_to_far_clip.len() == 104);
        lemma_member_kept(up_to_near_clip, self.far_clip, 0, 12);
        lemma_member_kept(up_to_near_clip, self.far_clip, 16, 28);
        lemma_member_kept(up_to_near_clip, self.far_clip, 32, 96);
        lemma_member_kept(up_to_near_clip, self.far_clip, 96, 100);
    }
}

impl ShaderType for Camera {
    /// The end of the last member, rounded up to the alignment.
    open spec fn size() -> nat {
        112
    }

    /// The largest alignment among the members.
    open spec fn alignment() -> Alignment {
        Alignment::Sixteen
    }

    open spec fn encoding(&self) -> Seq<u8> {
        aggregate(self.members(), Self::alignment())
    }

    proof fn lemma_layout() {
    }

    proof fn lemma_encoding_len(&self) {
        self.lemma_members();
    }

    fn byte_size() -> (n: usize) {
        112
    }

    fn byte_alignment() -> (a: Alignment) {
        Alignment::Sixteen
    }

    fn write_into(&self, out: &mut Vec<u8>) {
        let base = out.len();
        assert(out@.skip(base as int) =~= Seq::<u8>::empty());
        write_member(out, base, &self.focal_plane);
        write_member(out, base, &self.world_space_position);
        write_member(out, base, &self.local_to_world_matrix);
        write_member(out, base, &self.near_clip);
        write_member(out, base, &self.far_clip);
        close_aggregate(out, base, Alignment::Sixteen);
        proof {
            lemma_written(old(out)@, out@, self.encoding());
        }
    }
}

impl Globals {
    /// The members of the record, each laid out behind the one before it.
    pub open spec fn members(&self) -> Seq<u8> {
        let bytes = with_member(Seq::empty(), self.camera);
        let bytes = with_member(bytes, self.frame);
        let bytes = with_member(bytes, self.random_seed);
        let bytes = with_member(bytes, self.max_ray_bounces);
        let bytes = with_member(bytes, self.max_samples_per_pixel);
        let bytes = with_member(bytes, self.skybox_color);
        let bytes = with_member(bytes, self.ambient_lighting_color);
        let bytes = with_member(bytes, self.ambient_lighting_strength);
        with_member(bytes, self.focal_blur_strength)
    }

    /// Where each member starts and where the last one ends, and that size
    /// and alignment of the record follow from its members.
    #[verifier::rlimit(50)]
    pub proof fn lemma_members(&self)
        ensures
            Self::alignment() == Camera::alignment().spec_max(u32::alignment()).spec_max(Vec3::alignment()).spec_max(F32::alignment()),
            Self::size() == round_up(self.members().len(), Self::alignment()),
            self.members().len() == 168,
            self.members().subrange(0, 112) == self.camera.encoding(),
            self.members().subrange(112, 116) == self.frame.encoding(),
            self.members().subrange(116, 120) == self.random_seed.encoding(),
            self.members().subrange(120, 124) == self.max_ray_bounces.encoding(),
            self.members().subrange(124, 128) == self.max_samples_per_pixel.encoding(),
            self.members().subrange(128, 140) == self.skybox_color.encoding(),
            self.members().subrange(144, 156) == self.ambient_lighting_color.encoding(),
            self.members().subrange(160, 164) == self.ambient_lighting_strength.encoding(),
            self.members().subrange(164, 168) == self.focal_blur_strength.encoding(),
    {
        let empty = Seq::<u8>::empty();
        lemma_with_member(empty, self.camera);
        assert(member_offset::<Camera>(0) == 0);
        let up_to_camera = with_member(empty, self.camera);
        assert(up_to_camera.len() == 112);
        lemma_with_member(up_to_camera, self.frame);
        assert(member_offset::<u32>(112) == 112);
        let up_to_frame = with_member(up_to_camera, self.frame);
        assert(up_to_frame.len() == 116);
        lemma_member_kept(up_to_camera, self.frame, 0, 112);
        lemma_with_member(up_to_frame, self.random_seed);
        assert(member_offset::<u32>(116) == 116);
        let up_to_random_seed = with_member(up_to_frame, self.random_seed);
        assert(up_to_random_seed.len() == 120);
        lemma_member_kept(up_to_frame, self.random_seed, 0, 112);
        lemma_member_kept(up_to_frame, self.random_seed, 112, 116);
        lemma_with_member(up_to_random_seed, self.max_ray_bounces);
        assert(member_offset::<u32>(120) == 120);
        let up_to_max_ray_bounces = with_member(up_to_random_seed, self.max_ray_bounces);
        assert(up_to_max_ray_bounces.len() == 124);
        lemma_member_kept(up_to_random_seed, self.max_ray_bounces, 0, 112);
        lemma_member_kept(up_to_random_seed, self.max_ray_bounces, 112, 116);
        lemma_member_kept(up_to_random_seed, self.max_ray_bounces, 116, 120);
        lemma_with_member(up_to_max_ray_bounces, self.max_samples_per_pixel);
        assert(member_offset::<u32>(124) == 124);
        let up_to_max_samples_per_pixel = with_member(
            up_to_max_ray_bounces,
            self.max_samples_per_pixel,
        );
        assert(up_to_max_samples_per_pixel.len() == 128);
        lemma_member_kept(up_to_max_ray_bounces, self.max_samples_per_pixel, 0, 112);
        lemma_member_kept(up_to_max_ray_bounces, self.max_samples_per_pixel, 112, 116);
        lemma_member_kept(up_to_max_ray_bounces, self.max_samples_per_pixel, 116, 120);
        lemma_member_kept(up_to_max_ray_bounces, self.max_samples_per_pixel, 120, 124);
        lemma_with_member(up_to_max_samples_per_pixel, self.skybox_color);
        assert(member_offset::<Vec3>(128) == 128);
        let up_to_skybox_color = with_member(up_to_max_samples_per_pixel, self.skybox_color);
        assert(up_to_skybox_color.len() == 144);
        lemma_member_kept(up_to_max_samples_per_pixel, self.skybox_color, 0, 112);
        lemma_member_kept(up_to_max_samples_per_pixel, self.skybox_color, 112, 116);
        lemma_member_kept(up_to_max_samples_per_pixel, self.skybox_color, 116, 120);
        lemma_member_kept(up_to_max_samples_per_pixel, self.skybox_color, 120, 124);
        lemma_member_kept(up_to_max_samples_per_pixel, self.skybox_color, 124, 128);
        lemma_with_member(up_to_skybox_color, self.ambient_lighting_color);
        assert(member_offset::<Vec3>(144) == 144);
        let up_to_ambient_lighting_color = with_member(
            up_to_skybox_color,
            self.ambient_lighting_color,
        );
        assert(up_to_ambient_lighting_color.len() == 160);
        lemma_member_kept(up_to_skybox_color, self.ambient_lighting_color, 0, 112);
        lemma_member_kept(up_to_skybox_color, self.ambient_lighting_color, 112, 116);
        lemma_member_kept(up_to_skybox_color, self.ambient_lighting_color, 116, 120);
        lemma_member_kept(up_to_skybox_color, self.ambient_lighting_color, 120, 124);
        lemma_member_kept(up_to_skybox_color, self.ambient_lighting_color, 124, 128);
        lemma_member_kept(up_to_skybox_color, self.ambient_lighting_color, 128, 140);
        lemma_with_member(up_to_ambient_lighting_color, self.ambient_lighting_strength);
        assert(member_offset::<F32>(160) == 160);
        let up_to_ambient_lighting_strength = with_member(
            up_to_ambient_lighting_color,
            self.ambient_lighting_strength,
        );
        assert(up_to_ambient_lighting_strength.len() == 164);
        lemma_member_kept(up_to_ambient_lighting_color, self.ambient_lighting_strength, 0, 112);
        lemma_member_kept(up_to_ambient_lighting_color, self.ambient_lighting_strength, 112, 116);
        lemma_member_kept(up_to_ambient_lighting_color, self.ambient_lighting_strength, 116, 120);
        lemma_member_kept(up_to_ambient_lighting_color, self.ambient_lighting_strength, 120, 124);
        lemma_member_kept(up_to_ambient_lighting_color, self.ambient_lighting_strength, 124, 128);
        lemma_member_kept(up_to_ambient_lighting_color, self.ambient_lighting_strength, 128, 140);
        lemma_member_kept(up_to_ambient_lighting_color, self.ambient_lighting_strength, 144, 156);
        lemma_with_member(up_to_ambient_lighting_strength, self.focal_blur_strength);
        assert(member_offset::<F32>(164) == 164);
        let up_to_focal_blur_strength = with_member(
            up_to_ambient_lighting_strength,
            self.focal_blur_strength,
        );
        assert(up_to_focal_blur_strength.len() == 168);
        lemma_member_kept(up_to_ambient_lighting_strength, self.focal_blur_strength, 0, 112);
        lemma_member_kept(up_to_ambient_lighting_strength, self.focal_blur_strength, 112, 116);
        lemma_member_kept(up_to_ambient_lighting_strength, self.focal_blur_strength, 116, 120);
        lemma_member_kept(up_to_ambient_lighting_strength, self.focal_blur_strength, 120, 124);
        lemma_member_kept(up_to_ambient_lighting_strength, self.focal_blur_strength, 124, 128);
        lemma_member_kept(up_to_ambient_lighting_strength, self.focal_blur_strength, 128, 140);
        lemma_member_kept(up_to_ambient_lighting_strength, self.focal_blur_strength, 144, 156);
        lemma_member_kept(up_to_ambient_lighting_strength, self.focal_blur_strength, 160, 164);
    }
}

impl ShaderType for Globals {
    /// The end of the last member, rounded up to the alignment.
    open spec fn size() -> nat {
        176
    }

    /// The largest alignment among the members.
    open spec fn alignment() -> Alignment {
        Alignment::Sixteen
    }

    open spec fn encoding(&self) -> Seq<u8> {
        aggregate(self.members(), Self::alignment())
    }

    proof fn lemma_layout() {
    }

    proof fn lemma_encoding_len(&self) {
        self.lemma_members();
    }

    fn byte_size() -> (n: usize) {
        176
    }

    fn byte_alignment() -> (a: Alignment) {
        Alignment::Sixteen
    }

    fn write_into(&self, out: &mut Vec<u8>) {
        let base = out.len();
        assert(out@.skip(base as int) =~= Seq::<u8>::empty());
        write_member(out, base, &self.camera);
        write_member(out, base, &self.frame);
        write_member(out, base, &self.random_seed);
        write_member(out, base, &self.max_ray_bounces);
        write_member(out, base, &self.max_samples_per_pixel);
        write_member(out, base, &self.skybox_color);
        write_member(out, base, &self.ambient_lighting_color);
        write_member(out, base, &self.ambient_lighting_strength);
        write_member(out, base, &self.focal_blur_strength);
        close_aggregate(out, base, Alignment::Sixteen);
        proof {
            lemma_written(old(out)@, out@, self.encoding());
        }
    }
}

impl Material {
    /// The members of the record, each laid out behind the one before it.
    pub open spec fn members(&self) -> Seq<u8> {
        let bytes = with_member(Seq::empty(), self.color);
        let bytes = with_member(bytes, self.luminosity);
        with_member(bytes, self.smoothness)
    }

    /// Where each member starts and where the last one ends, and that size
    /// and alignment of the record follow from its members.
    pub proof fn lemma_members(&self)
        ensures
            Self::alignment() == Vec4::alignment().spec_max(F32::alignment()),
            Self::size() == round_up(self.members().len(), Self::alignment()),
            self.members().len() == 24,
            self.members().subrange(0, 16) == self.color.encoding(),
            self.members().subrange(16, 20) == self.luminosity.encoding(),
            self.members().subrange(20, 24) == self.smoothness.encoding(),
    {
        let empty = Seq::<u8>::empty();
        lemma_with_member(empty, self.color);
        assert(member_offset::<Vec4>(0) == 0);
        let up_to_color = with_member(empty, self.color);
        assert(up_to_color.len() == 16);
        lemma_with_member(up_to_color, self.luminosity);
        assert(member_offset::<F32>(16) == 16);
        let up_to_luminosity = with_member(up_to_color, self.luminosity);
        assert(up_to_luminosity.len() == 20);
        lemma_member_kept(up_to_color, self.luminosity, 0, 16);
        lemma_with_member(up_to_luminosity, self.smoothness);
        assert(member_offset::<F32>(20) == 20);
        let up_to_smoothness = with_member(up_to_luminosity, self.smoothness);
        assert(up_to_smoothness.len() == 24);
        lemma_member_kept(up_to_luminosity, self.smoothness, 0, 16);
        lemma_member_kept(up_to_luminosity, self.smoothness, 16, 20);
    }
}

impl ShaderType for Material {
    /// The end of the last member, rounded up to the alignment.
    open spec fn size() -> nat {
        32
    }

    /// The largest alignment among the members.
    open spec fn alignment() -> Alignment {
        Alignment::Sixteen
    }

    open spec fn encoding(&self) -> Seq<u8> {
        aggregate(self.members(), Self::alignment())
    }

    proof fn lemma_layout() {
    }

    proof fn lemma_encoding_len(&self) {
        self.lemma_members();
    }

    fn byte_size() -> (n: usize) {
        32
    }

    fn byte_alignment() -> (a: Alignment) {
        Alignment::Sixteen
    }

    fn write_into(&self, out: &mut Vec<u8>) {
        let base = out.len();
        assert(out@.skip(base as int) =~= Seq::<u8>::empty());
        write_member(out, base, &self.color);
        write_member(out, base, &self.luminosity);
        write_member(out, base, &self.smoothness);
        close_aggregate(out, base, Alignment::Sixteen);
        proof {
            lemma_written(old(out)@, out@, self.encoding());
        }
    }
}

impl Sphere {
    /// The members of the record, each laid out behind the one before it.
    pub open spec fn members(&self) -> Seq<u8> {
        let bytes = with_member(Seq::empty(), self.position);
        let bytes = with_member(bytes, self.radius);
        with_member(bytes, self.material_id)
    }

    /// Where each member starts and where the last one ends, and that size
    /// and alignment of the record follow from its members.
    pub proof fn lemma_members(&self)
        ensures
            Self::alignment() == Vec3::alignment().spec_max(F32::alignment()).spec_max(u32::alignment()),
            Self::size() == round_up(self.members().len(), Self::alignment()),
            self.members().len() == 24,
            self.members().subrange(0, 12) == self.position.encoding(),
            self.members().subrange(16, 20) == self.radius.encoding(),
            self.members().subrange(20, 24) == self.material_id.encoding(),
    {
        let empty = Seq::<u8>::empty();
        lemma_with_member(empty, self.position);
        assert(member_offset::<Vec3>(0) == 0);
        let up_to_position = with_member(empty, self.position);
        assert(up_to_position.len() == 16);
        lemma_with_member(up_to_position, self.radius);
        assert(member_offset::<F32>(16) == 16);
        let up_to_radius = with_member(up_to_position, self.radius);
        assert(up_to_radius.len() == 20);
        lemma_member_kept(up_to_position, self.radius, 0, 12);
        lemma_with_member(up_to_radius, self.material_id);
        assert(member_offset::<u32>(20) == 20);
        let up_to_material_id = with_member(up_to_radius, self.material_id);
        assert(up_to_material_id.len() == 24);
        lemma_member_kept(up_to_radius, self.material_id, 0, 12);
        lemma_member_kept(up_to_radius, self.material_id, 16, 20);
    }
}

impl ShaderType for Sphere {
    /// The end of the last member, rounded up to the alignment.
    open spec fn size() -> nat {
        32
    }

    /// The largest alignment among the members.
    open spec fn alignment() -> Alignment {
        Alignment::Sixteen
    }

    open spec fn encoding(&self) -> Seq<u8> {
        aggregate(self.members(), Self::alignment())
    }

    proof fn lemma_layout() {
    }

    proof fn lemma_encoding_len(&self) {
        self.lemma_members();
    }

    fn byte_size() -> (n: usize) {
        32
    }

    fn byte_alignment() -> (a: Alignment) {
        Alignment::Sixteen
    }

    fn write_into(&self, out: &mut Vec<u8>) {
        let base = out.len();
        assert(out@.skip(base as int) =~= Seq::<u8>::empty());
        write_member(out, base, &self.position);
        write_member(out, base, &self.radius);
        write_member(out, base, &self.material_id);
        close_aggregate(out, base, Alignment::Sixteen);
        proof {
            lemma_written(old(out)@, out@, self.encoding());
        }
    }
}

impl Mesh {
    /// The members of the record, each laid out behind the one before it.
    pub open spec fn members(&self) -> Seq<u8> {
        let bytes = with_member(Seq::empty(), self.index_offset);
        let bytes = with_member(bytes, self.triangle_count);
        with_member(bytes, self.material_id)
    }

    /// Where each member starts and where the last one ends, and that size
    /// and alignment of the record follow from its members.
    pub proof fn lemma_members(&self)
        ensures
            Self::alignment() == u32::alignment(),
            Self::size() == round_up(self.members().len(), Self::alignment()),
            self.members().len() == 12,
            self.members().subrange(0, 4) == self.index_offset.encoding(),
            self.members().subrange(4, 8) == self.triangle_count.encoding(),
            self.members().subrange(8, 12) == self.material_id.encoding(),
    {
        let empty = Seq::<u8>::empty();
        lemma_with_member(empty, self.index_offset);
        assert(member_offset::<u32>(0) == 0);
        let up_to_index_offset = with_member(empty, self.index_offset);
        assert(up_to_index_offset.len() == 4);
        lemma_with_member(up_to_index_offset, self.triangle_count);
        assert(member_offset::<u32>(4) == 4);
        let up_to_triangle_count = with_member(up_to_index_offset, self.triangle_count);
        assert(up_to_triangle_count.len() == 8);
        lemma_member_kept(up_to_index_offset, self.triangle_count, 0, 4);
        lemma_with_member(up_to_triangle_count, self.material_id);
        assert(member_offset::<u32>(8) == 8);
        let up_to_material_id = with_member(up_to_triangle_count, self.material_id);
        assert(up_to_material_id.len() == 12);
        lemma_member_kept(up_to_triangle_count, self.material_id, 0, 4);
        lemma_member_kept(up_to_triangle_count, self.material_id, 4, 8);
    }
}

impl ShaderType for Mesh {
    /// The end of the last member, rounded up to the alignment.
    open spec fn size() -> nat {
        12
    }

    /// The largest alignment among the members.
    open spec fn alignment() -> Alignment {
        Alignment::Four
    }

    open spec fn encoding(&self) -> Seq<u8> {
        aggregate(self.members(), Self::alignment())
    }

    proof fn lemma_layout() {
    }

    proof fn lemma_encoding_len(&self) {
        self.lemma_members();
    }

    fn byte_size() -> (n: usize) {
        12
    }

    fn byte_alignment() -> (a: Alignment) {
        Alignment::Four
    }

    fn write_into(&self, out: &mut Vec<u8>) {
        let base = out.len();
        assert(out@.skip(base as int) =~= Seq::<u8>::empty());
        write_member(out, base, &self.index_offset);
        write_member(out, base, &self.triangle_count);
        write_member(out, base, &self.material_id);
        close_aggregate(out, base, Alignment::Four);
        proof {
            lemma_written(old(out)@, out@, self.encoding());
        }
    }
}

} // verus!
