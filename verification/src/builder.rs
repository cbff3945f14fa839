//! Flattening: from the objects of a scene to the arrays that the ray
//! tracer reads.
//!
//! The objects are taken in their order. Each adds one material, and its
//! place among the materials is its material id. A sphere adds one sphere
//! record. A mesh adds its vertices behind those already there, its corner
//! indices moved by the number of vertices that were there, three for each
//! triangle, and one mesh record.
//!
//! What takes arithmetic on real numbers is done by the caller and handed
//! in as the object's [`WorldSurface`]: the radius of a sphere after
//! scaling, the vertices of a mesh after the object's transform.

use vstd::prelude::*;
use crate::guarantees::{
    corners_land, lemma_admissible_prefix, lemma_corners_within_exactly,
    lemma_flattened_materials, lemma_flattened_offsets, lemma_indices_valid_exactly,
    triangles_covered,
};
use crate::math::{F32, UVec3, Vec3};
use crate::records::{Material, Mesh, Sphere};
use crate::scene::{Object, Surface};
use crate::text::{decimal, decimal_text};

verus! {

/// The surface of an object in world space, as far as the object's transform
/// changes it.
#[derive(Clone, Debug, PartialEq)]
pub enum WorldSurface {
    /// A sphere: its radius after scaling.
    Sphere { radius: F32 },
    /// A mesh: its vertices after the object's transform, in their order.
    Mesh { vertices: Vec<Vec3> },
}

/// Why a scene cannot be flattened.
#[derive(Clone, Copy, Debug, PartialEq, Eq, Structural)]
pub enum SchemaError {
    /// The object at this place has no world surface, or one that is not of
    /// its kind: a sphere for a mesh, a mesh for a sphere, or a mesh of
    /// another number of vertices. At the place behind the last object:
    /// there are more world surfaces than objects.
    SurfaceMismatch { object: usize },
    /// With the object at this place, a count or an index leaves a word.
    TooLarge { object: usize },
}

impl SchemaError {
    /// The place of the object that was refused.
    pub open spec fn place(self) -> nat {
        match self {
            SchemaError::SurfaceMismatch { object } => object as nat,
            SchemaError::TooLarge { object } => object as nat,
        }
    }

    /// What `message` says.
    pub open spec fn text(self) -> Seq<char> {
        match self {
            SchemaError::SurfaceMismatch { .. } => "object "@ + decimal(self.place())
                + " has no world surface of its kind"@,
            SchemaError::TooLarge { .. } => "object "@ + decimal(self.place())
                + " is too large: a count or an index does not fit 32 bits"@,
        }
    }

    /// Says which object was refused, and why.
    pub fn message(&self) -> (text: String)
        ensures
            text@ == self.text(),
    {
        let mut text = String::from_str("object ");
        match self {
            SchemaError::SurfaceMismatch { object } => {
                text.append(decimal_text(*object).as_str());
                text.append(" has no world surface of its kind");
            },
            SchemaError::TooLarge { object } => {
                text.append(decimal_text(*object).as_str());
                text.append(" is too large: a count or an index does not fit 32 bits");
            },
        }
        text
    }
}

/// The five arrays, as sequences.
pub struct SceneBuffers {
    pub vertices: Seq<Vec3>,
    pub indices: Seq<u32>,
    pub meshes: Seq<Mesh>,
    pub spheres: Seq<Sphere>,
    pub materials: Seq<Material>,
}

/// The five arrays of a scene, while they are built and after.
#[derive(Clone, Debug, PartialEq)]
pub struct SceneBufferBuilder {
    /// The corners of all triangles, three for each.
    pub indices: Vec<u32>,
    /// The vertices of all meshes, in world space.
    pub vertices: Vec<Vec3>,
    pub meshes: Vec<Mesh>,
    pub spheres: Vec<Sphere>,
    /// One material for each object, in the order of the objects.
    pub materials: Vec<Material>,
}

impl View for SceneBufferBuilder {
    type V = SceneBuffers;

    open spec fn view(&self) -> SceneBuffers {
        SceneBuffers {
            vertices: self.vertices@,
            indices: self.indices@,
            meshes: self.meshes@,
            spheres: self.spheres@,
            materials: self.materials@,
        }
    }
}

/// One corner of a triangle: 0 for `x`, 1 for `y`, the last for `z`.
pub open spec fn corner(triangle: UVec3, k: int) -> u32 {
    if k == 0 {
        triangle.x
    } else if k == 1 {
        triangle.y
    } else {
        triangle.z
    }
}

/// The corners of `triangles` one after the other, each moved by `offset`.
pub open spec fn flat_indices(triangles: Seq<UVec3>, offset: u32) -> Seq<u32> {
    Seq::new(3 * triangles.len(), |k: int| (corner(triangles[k / 3], k % 3) + offset) as u32)
}

/// The material record of an object's material.
pub open spec fn material_record(material: crate::scene::Material) -> Material {
    Material {
        color: material.color,
        luminosity: material.luminosity,
        smoothness: material.smoothness,
    }
}

/// Whether `world` is the world surface of an object with surface
/// `surface`: a sphere for a sphere, and for a mesh as many vertices as the
/// mesh has.
pub open spec fn matches_surface(surface: Surface, world: WorldSurface) -> bool {
    match surface {
        Surface::Sphere { .. } => world is Sphere,
        Surface::MeshData { vertices, .. } => world is Mesh && world->vertices@.len()
            == vertices@.len(),
    }
}

/// Whether every corner of the mesh is one of its own vertices. A sphere has
/// no corners.
pub open spec fn corners_in_range(surface: Surface) -> bool {
    surface matches Surface::MeshData { vertices, indices } ==> forall|i: int, k: int|
        0 <= i < indices@.len() && 0 <= k < 3 ==> #[trigger] corner(indices@[i], k)
            < vertices@.len()
}

/// Whether the mesh has a vertex of its own for every corner of every
/// triangle.
pub open spec fn corners_unshared(surface: Surface) -> bool {
    surface matches Surface::MeshData { vertices, indices } ==> 3 * indices@.len()
        <= vertices@.len()
}

impl SceneBuffers {
    /// No object yet.
    pub open spec fn empty() -> SceneBuffers {
        SceneBuffers {
            vertices: Seq::empty(),
            indices: Seq::empty(),
            meshes: Seq::empty(),
            spheres: Seq::empty(),
            materials: Seq::empty(),
        }
    }

    /// Whether one more object fits: its world surface is of its kind, and
    /// every number that is written for it fits a word.
    pub open spec fn admits(self, obj: Object, world: WorldSurface) -> bool {
        &&& matches_surface(obj.surface, world)
        &&& self.materials.len() <= u32::MAX
        &&& obj.surface matches Surface::MeshData { indices, .. } ==> {
            &&& self.vertices.len() <= u32::MAX
            &&& indices@.len() <= u32::MAX
            &&& forall|i: int, k: int|
                0 <= i < indices@.len() && 0 <= k < 3 ==> #[trigger] corner(indices@[i], k)
                    + self.vertices.len() <= u32::MAX
        }
    }

    /// The arrays with one more object.
    pub open spec fn pushed(self, obj: Object, world: WorldSurface) -> SceneBuffers {
        let material_id = self.materials.len() as u32;
        let materials = self.materials.push(material_record(obj.material));
        match obj.surface {
            Surface::Sphere { .. } => SceneBuffers {
                spheres: self.spheres.push(
                    Sphere {
                        position: obj.transform.position,
                        radius: world->radius,
                        material_id,
                    },
                ),
                materials,
                ..self
            },
            Surface::MeshData { indices, .. } => SceneBuffers {
                vertices: self.vertices + world->vertices@,
                indices: self.indices + flat_indices(indices@, self.vertices.len() as u32),
                meshes: self.meshes.push(
                    Mesh {
                        index_offset: self.vertices.len() as u32,
                        triangle_count: indices@.len() as u32,
                        material_id,
                    },
                ),
                materials,
                ..self
            },
        }
    }

    /// Every material id is the place of a material.
    pub open spec fn material_ids_valid(self) -> bool {
        &&& forall|i: int|
            0 <= i < self.spheres.len() ==> (#[trigger] self.spheres[i]).material_id
                < self.materials.len()
        &&& forall|i: int|
            0 <= i < self.meshes.len() ==> (#[trigger] self.meshes[i]).material_id
                < self.materials.len()
    }

    /// Every index is the place of a vertex.
    pub open spec fn indices_valid(self) -> bool {
        forall|k: int| 0 <= k < self.indices.len() ==> #[trigger] self.indices[k]
            < self.vertices.len()
    }

    /// No mesh starts behind the vertices, and none starts before the one
    /// before it.
    pub open spec fn offsets_ordered(self) -> bool {
        &&& forall|i: int|
            0 <= i < self.meshes.len() ==> (#[trigger] self.meshes[i]).index_offset
                <= self.vertices.len()
        &&& forall|i: int, j: int|
            0 <= i <= j < self.meshes.len() ==> (#[trigger] self.meshes[i]).index_offset <= (
            #[trigger] self.meshes[j]).index_offset
    }

    /// Every mesh has its corners among the vertices from its offset on.
    pub open spec fn corners_within(self) -> bool {
        forall|i: int|
            0 <= i < self.meshes.len() ==> (#[trigger] self.meshes[i]).index_offset + 3
                * self.meshes[i].triangle_count <= self.vertices.len()
    }
}

/// The arrays of the objects `objects`, whose world surfaces are `world`.
pub open spec fn flattened(objects: Seq<Object>, world: Seq<WorldSurface>) -> SceneBuffers
    decreases objects.len(),
{
    if objects.len() == 0 {
        SceneBuffers::empty()
    } else {
        flattened(objects.drop_last(), world.drop_last()).pushed(objects.last(), world.last())
    }
}

/// Whether the objects can be flattened: each has its world surface, and
/// each fits behind those before it.
pub open spec fn admissible(objects: Seq<Object>, world: Seq<WorldSurface>) -> bool
    decreases objects.len(),
{
    &&& world.len() == objects.len()
    &&& objects.len() > 0 ==> {
        &&& admissible(objects.drop_last(), world.drop_last())
        &&& flattened(objects.drop_last(), world.drop_last()).admits(
            objects.last(),
            world.last(),
        )
    }
}

/// Whether every corner of `triangles`, moved by `offset`, fits a word.
fn corners_fit(triangles: &Vec<UVec3>, offset: u32) -> (ok: bool)
    ensures
        ok == (forall|i: int, k: int|
            0 <= i < triangles@.len() && 0 <= k < 3 ==> #[trigger] corner(triangles@[i], k)
                + offset <= u32::MAX),
{
    let room = u32::MAX - offset;
    let mut i: usize = 0;
    while i < triangles.len()
        invariant
            i <= triangles@.len(),
            room == u32::MAX - offset,
            forall|j: int, k: int|
                0 <= j < i && 0 <= k < 3 ==> #[trigger] corner(triangles@[j], k) + offset
                    <= u32::MAX,
        decreases triangles@.len() - i,
    {
        let triangle = triangles[i];
        if triangle.x > room || triangle.y > room || triangle.z > room {
            proof {
                let k: int = if triangle.x > room {
                    0
                } else if triangle.y > room {
                    1
                } else {
                    2
                };
                assert(corner(triangles@[i as int], k) + offset > u32::MAX);
            }
            return false;
        }
        assert forall|j: int, k: int| 0 <= j < i + 1 && 0 <= k < 3 implies #[trigger] corner(
            triangles@[j],
            k,
        ) + offset <= u32::MAX by {
            if j == i {
                assert(corner(triangle, k) <= room);
            }
        }
        i = i + 1;
    }
    true
}

impl SceneBufferBuilder {
    /// The arrays of no object.
    pub fn new() -> (builder: Self)
        ensures
            builder@ == SceneBuffers::empty(),
    {
        Self {
            indices: Vec::new(),
            vertices: Vec::new(),
            meshes: Vec::new(),
            spheres: Vec::new(),
            materials: Vec::new(),
        }
    }

    /// Whether `push` takes the object.
    pub fn accepts(&self, obj: &Object, world: &WorldSurface) -> (ok: bool)
        ensures
            ok == self@.admits(*obj, *world),
    {
        if self.materials.len() > u32::MAX as usize {
            return false;
        }
        match &obj.surface {
            Surface::Sphere { .. } => match world {
                WorldSurface::Sphere { .. } => true,
                WorldSurface::Mesh { .. } => false,
            },
            Surface::MeshData { vertices, indices } => match world {
                WorldSurface::Sphere { .. } => false,
                WorldSurface::Mesh { vertices: placed } => {
                    if placed.len() != vertices.len() || self.vertices.len() > u32::MAX as usize
                        || indices.len() > u32::MAX as usize {
                        return false;
                    }
                    corners_fit(indices, self.vertices.len() as u32)
                },
            },
        }
    }

    /// Adds one object: its material, and its sphere or its mesh.
    ///
    /// The sphere stands at the position of the object's transform, with
    /// the radius that `world` gives. The mesh has the vertices that
    /// `world` gives.
    pub fn push(&mut self, obj: &Object, world: &WorldSurface)
        requires
            old(self)@.admits(*obj, *world),
        ensures
            final(self)@ == old(self)@.pushed(*obj, *world),
    {
        let material_id = self.materials.len() as u32;
        self.materials.push(
            Material {
                color: obj.material.color,
                luminosity: obj.material.luminosity,
                smoothness: obj.material.smoothness,
            },
        );
        match &obj.surface {
            Surface::Sphere { .. } => {
                if let WorldSurface::Sphere { radius } = world {
                    self.spheres.push(
                        Sphere { position: obj.transform.position, radius: *radius, material_id },
                    );
                }
            },
            Surface::MeshData { indices, .. } => {
                if let WorldSurface::Mesh { vertices } = world {
                    let index_offset = self.vertices.len() as u32;
                    let mut i: usize = 0;
                    while i < vertices.len()
                        invariant
                            i <= vertices@.len(),
                            self.vertices@ == old(self).vertices@ + vertices@.take(i as int),
                            self.indices@ == old(self).indices@,
                            self.meshes@ == old(self).meshes@,
                            self.spheres@ == old(self).spheres@,
                            self.materials@ == old(self).materials@.push(
                                material_record(obj.material),
                            ),
                        decreases vertices@.len() - i,
                    {
                        self.vertices.push(vertices[i]);
                        i = i + 1;
                        assert(self.vertices@ =~= old(self).vertices@ + vertices@.take(i as int));
                    }
                    assert(vertices@.take(i as int) =~= vertices@);
                    let mut t: usize = 0;
                    while t < indices.len()
                        invariant
                            t <= indices@.len(),
                            index_offset == old(self).vertices@.len(),
                            forall|j: int, k: int|
                                0 <= j < indices@.len() && 0 <= k < 3 ==> #[trigger] corner(
                                    indices@[j],
                                    k,
                                ) + index_offset <= u32::MAX,
                            self.vertices@ == old(self).vertices@ + vertices@,
                            self.indices@ == old(self).indices@ + flat_indices(
                                indices@.take(t as int),
                                index_offset,
                            ),
                            self.meshes@ == old(self).meshes@,
                            self.spheres@ == old(self).spheres@,
                            self.materials@ == old(self).materials@.push(
                                material_record(obj.material),
                            ),
                        decreases indices@.len() - t,
                    {
                        let triangle = indices[t];
                        assert(corner(indices@[t as int], 0) + index_offset <= u32::MAX);
                        assert(corner(indices@[t as int], 1) + index_offset <= u32::MAX);
                        assert(corner(indices@[t as int], 2) + index_offset <= u32::MAX);
                        self.indices.push(triangle.x + index_offset);
                        self.indices.push(triangle.y + index_offset);
                        self.indices.push(triangle.z + index_offset);
                        t = t + 1;
                        assert(self.indices@ =~= old(self).indices@ + flat_indices(
                            indices@.take(t as int),
                            index_offset,
                        ));
                    }
                    assert(indices@.take(t as int) =~= indices@);
                    self.meshes.push(
                        Mesh { index_offset, triangle_count: indices.len() as u32, material_id },
                    );
                }
            },
        }
    }
}

/// Why the object at place `object` is refused, if it is: the objects
/// before it are taken to have been accepted.
pub open spec fn refused_at(objects: Seq<Object>, world: Seq<WorldSurface>, object: int) -> Option<
    SchemaError,
> {
    if object >= objects.len() {
        if world.len() > objects.len() {
            Some(SchemaError::SurfaceMismatch { object: objects.len() as usize })
        } else {
            None
        }
    } else if object >= world.len() || !matches_surface(objects[object].surface, world[object]) {
        Some(SchemaError::SurfaceMismatch { object: object as usize })
    } else if !flattened(objects.take(object), world.take(object)).admits(
        objects[object],
        world[object],
    ) {
        Some(SchemaError::TooLarge { object: object as usize })
    } else {
        None
    }
}

/// The first refusal among the objects from place `from` on, if there is
/// one.
pub open spec fn first_refusal(objects: Seq<Object>, world: Seq<WorldSurface>, from: int) -> Option<
    SchemaError,
>
    decreases objects.len() - from,
{
    if refused_at(objects, world, from) is Some || from >= objects.len() {
        refused_at(objects, world, from)
    } else {
        first_refusal(objects, world, from + 1)
    }
}

/// Whether `world` is the world surface of an object with surface
/// `surface`.
fn surface_matches(surface: &Surface, world: &WorldSurface) -> (ok: bool)
    ensures
        ok == matches_surface(*surface, *world),
{
    match surface {
        Surface::Sphere { .. } => match world {
            WorldSurface::Sphere { .. } => true,
            WorldSurface::Mesh { .. } => false,
        },
        Surface::MeshData { vertices, .. } => match world {
            WorldSurface::Sphere { .. } => false,
            WorldSurface::Mesh { vertices: placed } => placed.len() == vertices.len(),
        },
    }
}

/// Flattens the objects, in their order, or says which object is the first
/// that cannot be taken, and why.
///
/// An object cannot be taken without a world surface of its kind, nor when
/// a count or an index that is written for it leaves a word. A world
/// surface too many is reported at the place behind the last object.
pub fn try_flatten(objects: &Vec<Object>, world: &Vec<WorldSurface>) -> (flat: Result<
    SceneBufferBuilder,
    SchemaError,
>)
    ensures
        match flat {
            Ok(builder) => {
                &&& first_refusal(objects@, world@, 0) is None
                &&& admissible(objects@, world@)
                &&& builder@ == flattened(objects@, world@)
            },
            Err(e) => first_refusal(objects@, world@, 0) == Some(e) && !admissible(
                objects@,
                world@,
            ),
        },
{
    let mut builder = SceneBufferBuilder::new();
    let mut i: usize = 0;
    while i < objects.len()
        invariant
            i <= objects@.len(),
            i <= world@.len(),
            first_refusal(objects@, world@, 0) == first_refusal(objects@, world@, i as int),
            admissible(objects@.take(i as int), world@.take(i as int)),
            builder@ == flattened(objects@.take(i as int), world@.take(i as int)),
        decreases objects@.len() - i,
    {
        proof {
            if admissible(objects@, world@) {
                lemma_admissible_prefix(objects@, world@, i + 1);
            }
            if i < world@.len() {
                let next_objects = objects@.take(i + 1);
                let next_world = world@.take(i + 1);
                assert(next_objects.drop_last() =~= objects@.take(i as int));
                assert(next_world.drop_last() =~= world@.take(i as int));
                assert(next_objects.last() == objects@[i as int]);
                assert(next_world.last() == world@[i as int]);
            }
        }
        if i >= world.len() || !surface_matches(&objects[i].surface, &world[i]) {
            return Err(SchemaError::SurfaceMismatch { object: i });
        }
        if !builder.accepts(&objects[i], &world[i]) {
            return Err(SchemaError::TooLarge { object: i });
        }
        builder.push(&objects[i], &world[i]);
        i = i + 1;
    }
    if world.len() > objects.len() {
        return Err(SchemaError::SurfaceMismatch { object: i });
    }
    proof {
        assert(objects@.take(i as int) =~= objects@);
        assert(world@.take(i as int) =~= world@);
    }
    Ok(builder)
}

/// Flattens the objects, in their order.
///
/// There is one material for each object, and every material id is the
/// place of a material. The meshes come in the order of their offsets.
/// Every index is the place of a vertex exactly when every corner of every
/// mesh, counted from the first vertex of its mesh, is a vertex of the
/// scene: so it is where every mesh points at its own vertices. The corners
/// of every mesh lie among the vertices from its offset on exactly when the
/// scene has, from there on, three vertices for each triangle of the mesh.
pub fn flatten(objects: &Vec<Object>, world: &Vec<WorldSurface>) -> (builder: SceneBufferBuilder)
    requires
        admissible(objects@, world@),
    ensures
        builder@ == flattened(objects@, world@),
        builder@.materials.len() == objects@.len(),
        builder@.material_ids_valid(),
        builder@.offsets_ordered(),
        builder@.indices_valid() <==> corners_land(objects@),
        builder@.corners_within() <==> triangles_covered(objects@),
{
    proof {
        lemma_flattened_materials(objects@, world@);
        lemma_flattened_offsets(objects@, world@);
        lemma_indices_valid_exactly(objects@, world@);
        lemma_corners_within_exactly(objects@, world@);
    }
    match try_flatten(objects, world) {
        Ok(builder) => builder,
        Err(_) => SceneBufferBuilder::new(),
    }
}

} // verus!
