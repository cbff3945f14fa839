//! What holds of every flattened scene.

use vstd::prelude::*;
use crate::builder::{
    admissible, corner, corners_in_range, corners_unshared, flat_indices, flattened,
    SceneBuffers, WorldSurface,
};
use crate::scene::{Object, Surface};

verus! {

/// One more object makes one more material, and leaves every material id
/// the place of a material.
pub proof fn lemma_pushed_material_ids(buffers: SceneBuffers, obj: Object, world: WorldSurface)
    requires
        buffers.admits(obj, world),
        buffers.material_ids_valid(),
    ensures
        buffers.pushed(obj, world).materials.len() == buffers.materials.len() + 1,
        buffers.pushed(obj, world).spheres.len() + buffers.pushed(obj, world).meshes.len()
            == buffers.spheres.len() + buffers.meshes.len() + 1,
        buffers.pushed(obj, world).material_ids_valid(),
{
}

/// One more object leaves what the arrays held where it was: each array
/// only grows at its end.
pub proof fn lemma_pushed_grows(buffers: SceneBuffers, obj: Object, world: WorldSurface)
    ensures
        buffers.vertices.is_prefix_of(buffers.pushed(obj, world).vertices),
        buffers.indices.is_prefix_of(buffers.pushed(obj, world).indices),
        buffers.meshes.is_prefix_of(buffers.pushed(obj, world).meshes),
        buffers.spheres.is_prefix_of(buffers.pushed(obj, world).spheres),
        buffers.materials.is_prefix_of(buffers.pushed(obj, world).materials),
{
}

/// The vertices of a mesh stand from its offset on, behind all vertices of
/// the meshes before it, and its corners stand behind all corners before
/// them.
pub proof fn lemma_pushed_mesh(buffers: SceneBuffers, obj: Object, world: WorldSurface)
    requires
        buffers.admits(obj, world),
        obj.surface is MeshData,
    ensures
        buffers.pushed(obj, world).meshes.last().index_offset == buffers.vertices.len(),
        buffers.pushed(obj, world).meshes.last().triangle_count == obj.surface->indices@.len(),
        buffers.pushed(obj, world).vertices.skip(buffers.vertices.len() as int)
            == world->vertices@,
        buffers.pushed(obj, world).indices.skip(buffers.indices.len() as int) == flat_indices(
            obj.surface->indices@,
            buffers.vertices.len() as u32,
        ),
{
    let after = buffers.pushed(obj, world);
    assert(after.vertices.skip(buffers.vertices.len() as int) =~= world->vertices@);
    assert(after.indices.skip(buffers.indices.len() as int) =~= flat_indices(
        obj.surface->indices@,
        buffers.vertices.len() as u32,
    ));
}

/// One more object leaves the meshes in the order of their offsets.
pub proof fn lemma_pushed_offsets(buffers: SceneBuffers, obj: Object, world: WorldSurface)
    requires
        buffers.admits(obj, world),
        buffers.offsets_ordered(),
    ensures
        buffers.pushed(obj, world).offsets_ordered(),
{
}

/// One more object whose corners are its own vertices leaves every index
/// the place of a vertex.
pub proof fn lemma_pushed_indices(buffers: SceneBuffers, obj: Object, world: WorldSurface)
    requires
        buffers.admits(obj, world),
        buffers.indices_valid(),
        corners_in_range(obj.surface),
    ensures
        buffers.pushed(obj, world).indices_valid(),
{
    let after = buffers.pushed(obj, world);
    match obj.surface {
        Surface::Sphere { .. } => {},
        Surface::MeshData { vertices, indices } => {
            let offset = buffers.vertices.len() as u32;
            let flat = flat_indices(indices@, offset);
            assert forall|k: int| 0 <= k < after.indices.len() implies #[trigger] after.indices[k]
                < after.vertices.len() by {
                if k >= buffers.indices.len() {
                    let f = k - buffers.indices.len();
                    assert(after.indices[k] == flat[f]);
                    assert(corner(indices@[f / 3], f % 3) < vertices@.len());
                    assert(corner(indices@[f / 3], f % 3) + buffers.vertices.len() <= u32::MAX);
                } else {
                    assert(after.indices[k] == buffers.indices[k]);
                }
            }
        },
    }
}

/// One more object that has a vertex for every corner leaves the corners of
/// every mesh among the vertices from its offset on.
pub proof fn lemma_pushed_corners(buffers: SceneBuffers, obj: Object, world: WorldSurface)
    requires
        buffers.admits(obj, world),
        buffers.corners_within(),
        corners_unshared(obj.surface),
    ensures
        buffers.pushed(obj, world).corners_within(),
{
    let after = buffers.pushed(obj, world);
    assert forall|i: int| 0 <= i < after.meshes.len() implies (#[trigger] after.meshes[i]).index_offset
        + 3 * after.meshes[i].triangle_count <= after.vertices.len() by {
        if i < buffers.meshes.len() {
            assert(after.meshes[i] == buffers.meshes[i]);
        }
    }
}

/// The objects before the last `objects.len() - n` can be flattened if all
/// can.
pub proof fn lemma_admissible_prefix(objects: Seq<Object>, world: Seq<WorldSurface>, n: int)
    requires
        admissible(objects, world),
        0 <= n <= objects.len(),
    ensures
        admissible(objects.take(n), world.take(n)),
    decreases objects.len(),
{
    if n == objects.len() {
        assert(objects.take(n) =~= objects);
        assert(world.take(n) =~= world);
    } else {
        lemma_admissible_prefix(objects.drop_last(), world.drop_last(), n);
        assert(objects.drop_last().take(n) =~= objects.take(n));
        assert(world.drop_last().take(n) =~= world.take(n));
    }
}

/// Flattening makes one material for each object, one sphere or mesh record
/// for each object, and every material id the place of a material.
pub proof fn lemma_flattened_materials(objects: Seq<Object>, world: Seq<WorldSurface>)
    requires
        admissible(objects, world),
    ensures
        flattened(objects, world).materials.len() == objects.len(),
        flattened(objects, world).spheres.len() + flattened(objects, world).meshes.len()
            == objects.len(),
        flattened(objects, world).material_ids_valid(),
    decreases objects.len(),
{
    if objects.len() > 0 {
        lemma_flattened_materials(objects.drop_last(), world.drop_last());
        lemma_pushed_material_ids(
            flattened(objects.drop_last(), world.drop_last()),
            objects.last(),
            world.last(),
        );
    }
}

/// The arrays of the first `n` objects are the beginnings of the arrays of
/// all: objects that come later change nothing of what came before.
pub proof fn lemma_flattened_grows(objects: Seq<Object>, world: Seq<WorldSurface>, n: int)
    requires
        world.len() == objects.len(),
        0 <= n <= objects.len(),
    ensures
        flattened(objects.take(n), world.take(n)).vertices.is_prefix_of(
            flattened(objects, world).vertices,
        ),
        flattened(objects.take(n), world.take(n)).indices.is_prefix_of(
            flattened(objects, world).indices,
        ),
        flattened(objects.take(n), world.take(n)).meshes.is_prefix_of(
            flattened(objects, world).meshes,
        ),
        flattened(objects.take(n), world.take(n)).spheres.is_prefix_of(
            flattened(objects, world).spheres,
        ),
        flattened(objects.take(n), world.take(n)).materials.is_prefix_of(
            flattened(objects, world).materials,
        ),
    decreases objects.len(),
{
    if n == objects.len() {
        assert(objects.take(n) =~= objects);
        assert(world.take(n) =~= world);
    } else {
        let front = objects.drop_last();
        let front_world = world.drop_last();
        lemma_flattened_grows(front, front_world, n);
        assert(front.take(n) =~= objects.take(n));
        assert(front_world.take(n) =~= world.take(n));
        lemma_pushed_grows(flattened(front, front_world), objects.last(), world.last());
    }
}

/// Flattening leaves the meshes in the order of their offsets.
pub proof fn lemma_flattened_offsets(objects: Seq<Object>, world: Seq<WorldSurface>)
    requires
        admissible(objects, world),
    ensures
        flattened(objects, world).offsets_ordered(),
    decreases objects.len(),
{
    if objects.len() > 0 {
        lemma_flattened_offsets(objects.drop_last(), world.drop_last());
        lemma_pushed_offsets(
            flattened(objects.drop_last(), world.drop_last()),
            objects.last(),
            world.last(),
        );
    }
}

/// Where the corners of every mesh are vertices of that mesh, every index
/// of the flattened scene is the place of a vertex.
pub proof fn lemma_flattened_indices(objects: Seq<Object>, world: Seq<WorldSurface>)
    requires
        admissible(objects, world),
        forall|i: int| 0 <= i < objects.len() ==> corners_in_range((#[trigger] objects[i]).surface),
    ensures
        flattened(objects, world).indices_valid(),
    decreases objects.len(),
{
    if objects.len() > 0 {
        let front = objects.drop_last();
        assert forall|i: int| 0 <= i < front.len() implies corners_in_range(
            (#[trigger] front[i]).surface,
        ) by {
            assert(front[i] == objects[i]);
        }
        lemma_flattened_indices(front, world.drop_last());
        lemma_pushed_indices(flattened(front, world.drop_last()), objects.last(), world.last());
    }
}

/// Where every mesh has a vertex for every corner of every triangle, the
/// corners of every mesh of the flattened scene lie among the vertices from
/// its offset on.
pub proof fn lemma_flattened_corners(objects: Seq<Object>, world: Seq<WorldSurface>)
    requires
        admissible(objects, world),
        forall|i: int| 0 <= i < objects.len() ==> corners_unshared((#[trigger] objects[i]).surface),
    ensures
        flattened(objects, world).corners_within(),
    decreases objects.len(),
{
    if objects.len() > 0 {
        let front = objects.drop_last();
        assert forall|i: int| 0 <= i < front.len() implies corners_unshared(
            (#[trigger] front[i]).surface,
        ) by {
            assert(front[i] == objects[i]);
        }
        lemma_flattened_corners(front, world.drop_last());
        lemma_pushed_corners(flattened(front, world.drop_last()), objects.last(), world.last());
    }
}

/// How many vertices a surface has: a sphere has none.
pub open spec fn vertex_count(surface: Surface) -> nat {
    match surface {
        Surface::Sphere { .. } => 0,
        Surface::MeshData { vertices, .. } => vertices@.len(),
    }
}

/// How many vertices the meshes among `objects` have together.
pub open spec fn vertex_total(objects: Seq<Object>) -> nat
    decreases objects.len(),
{
    if objects.len() == 0 {
        0
    } else {
        vertex_total(objects.drop_last()) + vertex_count(objects.last().surface)
    }
}

/// Whether every corner of every mesh, counted from the first vertex of
/// its mesh, is a vertex of the scene.
pub open spec fn corners_land(objects: Seq<Object>) -> bool {
    forall|i: int, t: int, k: int|
        0 <= i < objects.len() && objects[i].surface is MeshData && 0 <= t
            < objects[i].surface->indices@.len() && 0 <= k < 3 ==> vertex_total(objects.take(i))
            + #[trigger] corner(objects[i].surface->indices@[t], k) < vertex_total(objects)
}

/// Whether the scene has, from the first vertex of every mesh on, three
/// vertices for each triangle of the mesh.
pub open spec fn triangles_covered(objects: Seq<Object>) -> bool {
    forall|i: int|
        0 <= i < objects.len() && (#[trigger] objects[i]).surface is MeshData ==> vertex_total(
            objects.take(i),
        ) + 3 * objects[i].surface->indices@.len() <= vertex_total(objects)
}

/// The flattened scene has the vertices of all its meshes, and no others.
pub proof fn lemma_vertex_total(objects: Seq<Object>, world: Seq<WorldSurface>)
    requires
        admissible(objects, world),
    ensures
        flattened(objects, world).vertices.len() == vertex_total(objects),
    decreases objects.len(),
{
    if objects.len() > 0 {
        lemma_vertex_total(objects.drop_last(), world.drop_last());
    }
}

/// The arrays of the scene up to and with object `i`, a mesh, are those of
/// the scene before it with the mesh behind them, and both are beginnings
/// of the arrays of the whole scene.
proof fn lemma_mesh_in_scene(objects: Seq<Object>, world: Seq<WorldSurface>, i: int)
    requires
        admissible(objects, world),
        0 <= i < objects.len(),
        objects[i].surface is MeshData,
    ensures
        flattened(objects.take(i), world.take(i)).admits(objects[i], world[i]),
        flattened(objects.take(i + 1), world.take(i + 1)) == flattened(
            objects.take(i),
            world.take(i),
        ).pushed(objects[i], world[i]),
        flattened(objects.take(i), world.take(i)).vertices.len() == vertex_total(objects.take(i)),
        flattened(objects.take(i + 1), world.take(i + 1)).indices.is_prefix_of(
            flattened(objects, world).indices,
        ),
        flattened(objects.take(i + 1), world.take(i + 1)).meshes.is_prefix_of(
            flattened(objects, world).meshes,
        ),
        flattened(objects, world).vertices.len() == vertex_total(objects),
{
    lemma_admissible_prefix(objects, world, i);
    lemma_admissible_prefix(objects, world, i + 1);
    lemma_vertex_total(objects.take(i), world.take(i));
    lemma_vertex_total(objects, world);
    lemma_flattened_grows(objects, world, i + 1);
    assert(objects.take(i + 1).drop_last() =~= objects.take(i));
    assert(world.take(i + 1).drop_last() =~= world.take(i));
    assert(objects.take(i + 1).last() == objects[i]);
    assert(world.take(i + 1).last() == world[i]);
}

/// Every index of the flattened scene is below `bound` if every corner,
/// counted from the first vertex of its mesh, is.
proof fn lemma_indices_below(objects: Seq<Object>, world: Seq<WorldSurface>, bound: nat)
    requires
        admissible(objects, world),
        forall|i: int, t: int, k: int|
            0 <= i < objects.len() && objects[i].surface is MeshData && 0 <= t
                < objects[i].surface->indices@.len() && 0 <= k < 3 ==> vertex_total(
                objects.take(i),
            ) + #[trigger] corner(objects[i].surface->indices@[t], k) < bound,
    ensures
        forall|p: int|
            0 <= p < flattened(objects, world).indices.len() ==> #[trigger] flattened(
                objects,
                world,
            ).indices[p] < bound,
    decreases objects.len(),
{
    if objects.len() > 0 {
        let front = objects.drop_last();
        let front_world = world.drop_last();
        let last = objects.len() - 1;
        assert forall|i: int, t: int, k: int|
            0 <= i < front.len() && front[i].surface is MeshData && 0 <= t
                < front[i].surface->indices@.len() && 0 <= k < 3 implies vertex_total(
            front.take(i),
        ) + #[trigger] corner(front[i].surface->indices@[t], k) < bound by {
            assert(front[i] == objects[i]);
            assert(front.take(i) =~= objects.take(i));
            assert(vertex_total(objects.take(i)) + corner(objects[i].surface->indices@[t], k)
                < bound);
        }
        lemma_indices_below(front, front_world, bound);
        lemma_vertex_total(front, front_world);
        assert(objects.take(last) =~= front);
        let before = flattened(front, front_world);
        let after = flattened(objects, world);
        assert forall|p: int| 0 <= p < after.indices.len() implies #[trigger] after.indices[p]
            < bound by {
            if p < before.indices.len() {
                assert(after.indices[p] == before.indices[p]);
            } else {
                let f = p - before.indices.len();
                let indices = objects[last].surface->indices@;
                assert(after.indices[p] == flat_indices(indices, before.vertices.len() as u32)[f]);
                assert(corner(indices[f / 3], f % 3) + before.vertices.len() <= u32::MAX);
                assert(vertex_total(objects.take(last)) + corner(indices[f / 3], f % 3) < bound);
            }
        }
    }
}

/// Every mesh of the flattened scene has its corners below `bound` if
/// every mesh has, counted from its first vertex.
proof fn lemma_corners_below(objects: Seq<Object>, world: Seq<WorldSurface>, bound: nat)
    requires
        admissible(objects, world),
        forall|i: int|
            0 <= i < objects.len() && (#[trigger] objects[i]).surface is MeshData
                ==> vertex_total(objects.take(i)) + 3 * objects[i].surface->indices@.len()
                <= bound,
    ensures
        forall|j: int|
            0 <= j < flattened(objects, world).meshes.len() ==> (#[trigger] flattened(
                objects,
                world,
            ).meshes[j]).index_offset + 3 * flattened(objects, world).meshes[j].triangle_count
                <= bound,
    decreases objects.len(),
{
    if objects.len() > 0 {
        let front = objects.drop_last();
        let front_world = world.drop_last();
        let last = objects.len() - 1;
        assert forall|i: int| 0 <= i < front.len() && (#[trigger] front[i]).surface is MeshData
            implies vertex_total(front.take(i)) + 3 * front[i].surface->indices@.len()
            <= bound by {
            assert(front[i] == objects[i]);
            assert(front.take(i) =~= objects.take(i));
        }
        lemma_corners_below(front, front_world, bound);
        lemma_vertex_total(front, front_world);
        assert(objects.take(last) =~= front);
        let before = flattened(front, front_world);
        let after = flattened(objects, world);
        assert forall|j: int| 0 <= j < after.meshes.len() implies (#[trigger] after.meshes[j]).index_offset
            + 3 * after.meshes[j].triangle_count <= bound by {
            if j < before.meshes.len() {
                assert(after.meshes[j] == before.meshes[j]);
            } else {
                assert(objects[last].surface is MeshData);
            }
        }
    }
}

/// Every index of the flattened scene is the place of a vertex exactly
/// when every corner of every mesh, counted from the first vertex of its
/// mesh, is a vertex of the scene.
pub proof fn lemma_indices_valid_exactly(objects: Seq<Object>, world: Seq<WorldSurface>)
    requires
        admissible(objects, world),
    ensures
        flattened(objects, world).indices_valid() <==> corners_land(objects),
{
    let flat = flattened(objects, world);
    lemma_vertex_total(objects, world);
    if corners_land(objects) {
        lemma_indices_below(objects, world, vertex_total(objects));
    }
    if flat.indices_valid() {
        assert forall|i: int, t: int, k: int|
            0 <= i < objects.len() && objects[i].surface is MeshData && 0 <= t
                < objects[i].surface->indices@.len() && 0 <= k < 3 implies vertex_total(
            objects.take(i),
        ) + #[trigger] corner(objects[i].surface->indices@[t], k) < vertex_total(objects) by {
            lemma_mesh_in_scene(objects, world, i);
            let before = flattened(objects.take(i), world.take(i));
            let with = flattened(objects.take(i + 1), world.take(i + 1));
            let indices = objects[i].surface->indices@;
            let p = before.indices.len() + 3 * t + k;
            assert((3 * t + k) / 3 == t && (3 * t + k) % 3 == k);
            assert(with.indices[p] == flat_indices(indices, before.vertices.len() as u32)[3 * t
                + k]);
            assert(corner(indices[t], k) + before.vertices.len() <= u32::MAX);
            assert(flat.indices[p] == with.indices[p]);
        }
    }
}

/// Every mesh of the flattened scene has its corners among the vertices
/// from its offset on exactly when the scene has, from the first vertex of
/// every mesh on, three vertices for each triangle of the mesh.
pub proof fn lemma_corners_within_exactly(objects: Seq<Object>, world: Seq<WorldSurface>)
    requires
        admissible(objects, world),
    ensures
        flattened(objects, world).corners_within() <==> triangles_covered(objects),
{
    let flat = flattened(objects, world);
    lemma_vertex_total(objects, world);
    if triangles_covered(objects) {
        lemma_corners_below(objects, world, vertex_total(objects));
    }
    if flat.corners_within() {
        assert forall|i: int| 0 <= i < objects.len() && (#[trigger] objects[i]).surface is MeshData
            implies vertex_total(objects.take(i)) + 3 * objects[i].surface->indices@.len()
            <= vertex_total(objects) by {
            lemma_mesh_in_scene(objects, world, i);
            let before = flattened(objects.take(i), world.take(i));
            let with = flattened(objects.take(i + 1), world.take(i + 1));
            let j = before.meshes.len() as int;
            assert(with.meshes[j].index_offset == before.vertices.len());
            assert(with.meshes[j].triangle_count == objects[i].surface->indices@.len());
            assert(flat.meshes[j] == with.meshes[j]);
        }
    }
}

} // verus!
