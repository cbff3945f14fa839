use raybaby::builder::{flatten, try_flatten, SceneBufferBuilder, SchemaError, WorldSurface};
use raybaby::math::{F32, UVec3, Vec3, Vec4};
use raybaby::records::{Material, Mesh, Sphere};
use raybaby::scene;

fn n(x: f32) -> F32 {
    F32::from_bits(x.to_bits())
}

fn v3(v: glam::Vec3) -> Vec3 {
    Vec3::new(n(v.x), n(v.y), n(v.z))
}

fn g3(v: Vec3) -> glam::Vec3 {
    glam::Vec3::new(
        f32::from_bits(v.x.to_bits()),
        f32::from_bits(v.y.to_bits()),
        f32::from_bits(v.z.to_bits()),
    )
}

fn material(r: f32, g: f32, b: f32) -> scene::Material {
    scene::Material {
        color: Vec4::new(n(r), n(g), n(b), n(1.0)),
        luminosity: n(0.5),
        smoothness: n(0.25),
    }
}

fn identity() -> scene::Transform {
    scene::Transform {
        position: v3(glam::Vec3::ZERO),
        rotation: v3(glam::Vec3::ZERO),
        scale: v3(glam::Vec3::ONE),
    }
}

fn sphere(radius: f32, transform: scene::Transform) -> scene::Object {
    scene::Object {
        surface: scene::Surface::Sphere { radius: n(radius) },
        transform,
        material: material(1.0, 0.0, 0.0),
    }
}

fn triangle(corners: [glam::Vec3; 3], transform: scene::Transform) -> scene::Object {
    scene::Object {
        surface: scene::Surface::MeshData {
            vertices: corners.iter().map(|c| v3(*c)).collect(),
            indices: vec![UVec3::new(0, 1, 2)],
        },
        transform,
        material: material(0.0, 1.0, 0.0),
    }
}

/// What the transform of an object makes of its surface, in real arithmetic.
fn world_surface(obj: &scene::Object) -> WorldSurface {
    let scale = g3(obj.transform.scale);
    let rotation = g3(obj.transform.rotation);
    match &obj.surface {
        scene::Surface::Sphere { radius } => WorldSurface::Sphere {
            radius: n(f32::from_bits(radius.to_bits()) * f32::max(scale.x, scale.y)),
        },
        scene::Surface::MeshData { vertices, .. } => {
            let affine = glam::Affine3A::from_scale_rotation_translation(
                scale,
                glam::Quat::from_euler(
                    glam::EulerRot::XYZ,
                    rotation.x.to_radians(),
                    rotation.y.to_radians(),
                    rotation.z.to_radians(),
                ),
                g3(obj.transform.position),
            );
            WorldSurface::Mesh {
                vertices: vertices.iter().map(|v| v3(affine.transform_point3(g3(*v)))).collect(),
            }
        }
    }
}

fn worlds(objects: &Vec<scene::Object>) -> Vec<WorldSurface> {
    objects.iter().map(world_surface).collect()
}

fn corners_a() -> [glam::Vec3; 3] {
    [
        glam::Vec3::new(0.0, 0.0, 0.0),
        glam::Vec3::new(1.0, 0.0, 0.0),
        glam::Vec3::new(0.0, 1.0, 0.0),
    ]
}

fn corners_b() -> [glam::Vec3; 3] {
    [
        glam::Vec3::new(2.0, 0.0, 1.0),
        glam::Vec3::new(3.0, 0.0, 1.0),
        glam::Vec3::new(2.0, 1.0, 1.0),
    ]
}

#[test]
fn one_sphere_at_the_origin() {
    let objects = vec![sphere(5.0, identity())];
    let flat = flatten(&objects, &worlds(&objects));
    assert_eq!(
        flat.spheres,
        vec![Sphere { position: v3(glam::Vec3::ZERO), radius: n(5.0), material_id: 0 }]
    );
    assert_eq!(flat.materials.len(), 1);
    assert!(flat.vertices.is_empty());
    assert!(flat.indices.is_empty());
    assert!(flat.meshes.is_empty());
}

#[test]
fn one_triangle_under_the_identity_transform() {
    let objects = vec![triangle(corners_a(), identity())];
    let flat = flatten(&objects, &worlds(&objects));
    assert_eq!(flat.vertices, corners_a().iter().map(|c| v3(*c)).collect::<Vec<Vec3>>());
    assert_eq!(flat.indices, vec![0, 1, 2]);
    assert_eq!(flat.meshes, vec![Mesh { index_offset: 0, triangle_count: 1, material_id: 0 }]);
    assert!(flat.spheres.is_empty());
    assert_eq!(flat.materials.len(), 1);
}

#[test]
fn two_triangles_one_behind_the_other() {
    let objects = vec![triangle(corners_a(), identity()), triangle(corners_b(), identity())];
    let flat = flatten(&objects, &worlds(&objects));
    assert_eq!(flat.meshes.len(), 2);
    assert_eq!(flat.meshes[1].index_offset, 3);
    assert_eq!(&flat.indices[3..], &[3, 4, 5]);
    assert_eq!(flat.indices, vec![0, 1, 2, 3, 4, 5]);
    assert_eq!(
        flat.meshes,
        vec![
            Mesh { index_offset: 0, triangle_count: 1, material_id: 0 },
            Mesh { index_offset: 3, triangle_count: 1, material_id: 1 },
        ]
    );
    assert_eq!(flat.vertices.len(), 6);
    assert_eq!(flat.vertices[3], v3(corners_b()[0]));
}

#[test]
fn materials_follow_the_objects() {
    let mut objects = vec![
        sphere(1.0, identity()),
        triangle(corners_a(), identity()),
        sphere(2.0, identity()),
        triangle(corners_b(), identity()),
    ];
    objects[2].material = material(0.0, 0.0, 1.0);
    let flat = flatten(&objects, &worlds(&objects));
    assert_eq!(flat.materials.len(), objects.len());
    for (record, obj) in flat.materials.iter().zip(objects.iter()) {
        assert_eq!(
            *record,
            Material {
                color: obj.material.color,
                luminosity: obj.material.luminosity,
                smoothness: obj.material.smoothness,
            }
        );
    }
    assert_eq!(flat.spheres.iter().map(|s| s.material_id).collect::<Vec<u32>>(), vec![0, 2]);
    assert_eq!(flat.meshes.iter().map(|m| m.material_id).collect::<Vec<u32>>(), vec![1, 3]);
    for id in flat.spheres.iter().map(|s| s.material_id) {
        assert!((id as usize) < flat.materials.len());
    }
    for id in flat.meshes.iter().map(|m| m.material_id) {
        assert!((id as usize) < flat.materials.len());
    }
    assert_eq!(flat.spheres.len() + flat.meshes.len(), objects.len());
}

#[test]
fn indices_stay_within_the_vertices() {
    let quad = scene::Object {
        surface: scene::Surface::MeshData {
            vertices: vec![
                v3(glam::Vec3::new(0.0, 0.0, 0.0)),
                v3(glam::Vec3::new(1.0, 0.0, 0.0)),
                v3(glam::Vec3::new(1.0, 1.0, 0.0)),
                v3(glam::Vec3::new(0.0, 1.0, 0.0)),
            ],
            indices: vec![UVec3::new(0, 1, 2), UVec3::new(2, 3, 0)],
        },
        transform: identity(),
        material: material(1.0, 1.0, 1.0),
    };
    let objects = vec![triangle(corners_a(), identity()), sphere(1.0, identity()), quad];
    let flat = flatten(&objects, &worlds(&objects));
    assert_eq!(flat.indices, vec![0, 1, 2, 3, 4, 5, 5, 6, 3]);
    for index in &flat.indices {
        assert!((*index as usize) < flat.vertices.len());
    }
    assert_eq!(flat.meshes[1], Mesh { index_offset: 3, triangle_count: 2, material_id: 2 });
    assert_eq!(flat.indices.len(), 3 * (1 + 2));
}

#[test]
fn corners_of_unshared_meshes_fit_behind_the_offset() {
    let objects = vec![
        triangle(corners_a(), identity()),
        sphere(1.0, identity()),
        triangle(corners_b(), identity()),
        triangle(corners_a(), identity()),
    ];
    let flat = flatten(&objects, &worlds(&objects));
    for mesh in &flat.meshes {
        assert!((mesh.index_offset + 3 * mesh.triangle_count) as usize <= flat.vertices.len());
    }
    let offsets: Vec<u32> = flat.meshes.iter().map(|m| m.index_offset).collect();
    assert_eq!(offsets, vec![0, 3, 6]);
    assert!(offsets.windows(2).all(|w| w[0] <= w[1]));
}

#[test]
fn a_sphere_is_scaled_by_the_larger_of_two_axes() {
    let mut transform = identity();
    transform.position = v3(glam::Vec3::new(1.0, 2.0, 3.0));
    transform.rotation = v3(glam::Vec3::new(90.0, 45.0, 10.0));
    transform.scale = v3(glam::Vec3::new(2.0, 3.0, 100.0));
    let objects = vec![sphere(5.0, transform)];
    let flat = flatten(&objects, &worlds(&objects));
    assert_eq!(
        flat.spheres,
        vec![Sphere {
            position: v3(glam::Vec3::new(1.0, 2.0, 3.0)),
            radius: n(15.0),
            material_id: 0
        }]
    );
}

#[test]
fn a_mesh_is_moved_by_its_transform() {
    let mut transform = identity();
    transform.position = v3(glam::Vec3::new(10.0, 20.0, 30.0));
    transform.scale = v3(glam::Vec3::new(2.0, 2.0, 2.0));
    let objects = vec![triangle(corners_a(), transform)];
    let flat = flatten(&objects, &worlds(&objects));
    assert_eq!(
        flat.vertices,
        vec![
            v3(glam::Vec3::new(10.0, 20.0, 30.0)),
            v3(glam::Vec3::new(12.0, 20.0, 30.0)),
            v3(glam::Vec3::new(10.0, 22.0, 30.0)),
        ]
    );
    assert_eq!(flat.indices, vec![0, 1, 2]);
}

#[test]
fn an_empty_scene_gives_empty_arrays() {
    let flat = flatten(&Vec::new(), &Vec::new());
    assert_eq!(flat, SceneBufferBuilder::new());
    assert!(flat.materials.is_empty() && flat.vertices.is_empty() && flat.indices.is_empty());
}

#[test]
fn pushing_object_by_object() {
    let a = triangle(corners_a(), identity());
    let b = sphere(2.0, identity());
    let mut builder = SceneBufferBuilder::new();
    assert!(builder.accepts(&a, &world_surface(&a)));
    builder.push(&a, &world_surface(&a));
    assert!(builder.accepts(&b, &world_surface(&b)));
    builder.push(&b, &world_surface(&b));
    let objects = vec![a, b];
    assert_eq!(builder, flatten(&objects, &worlds(&objects)));
    assert_eq!(Ok(builder), try_flatten(&objects, &worlds(&objects)));
}

#[test]
fn a_world_surface_of_the_wrong_kind_is_not_accepted() {
    let a = triangle(corners_a(), identity());
    let b = sphere(2.0, identity());
    let builder = SceneBufferBuilder::new();
    assert!(!builder.accepts(&a, &world_surface(&b)));
    assert!(!builder.accepts(&b, &world_surface(&a)));
    let short = WorldSurface::Mesh { vertices: vec![v3(glam::Vec3::ZERO)] };
    assert!(!builder.accepts(&a, &short));
    assert!(!builder.accepts(&b, &short));
    let objects = vec![b, a];
    let mut swapped = worlds(&objects);
    swapped.reverse();
    assert_eq!(
        try_flatten(&objects, &swapped),
        Err(SchemaError::SurfaceMismatch { object: 0 })
    );
    let mut wrong_count = worlds(&objects);
    wrong_count[1] = short;
    assert_eq!(
        try_flatten(&objects, &wrong_count),
        Err(SchemaError::SurfaceMismatch { object: 1 })
    );
}

#[test]
fn refusals_are_worded() {
    assert_eq!(
        SchemaError::SurfaceMismatch { object: 12 }.message(),
        "object 12 has no world surface of its kind"
    );
    assert_eq!(
        SchemaError::TooLarge { object: 0 }.message(),
        "object 0 is too large: a count or an index does not fit 32 bits"
    );
}

#[test]
fn every_object_needs_its_world_surface() {
    let objects = vec![sphere(1.0, identity()), triangle(corners_a(), identity())];
    let all = worlds(&objects);
    assert_eq!(
        try_flatten(&objects, &all[..1].to_vec()),
        Err(SchemaError::SurfaceMismatch { object: 1 })
    );
    assert_eq!(
        try_flatten(&objects, &Vec::new()),
        Err(SchemaError::SurfaceMismatch { object: 0 })
    );
    let mut many = all.clone();
    many.push(WorldSurface::Sphere { radius: n(1.0) });
    assert_eq!(
        try_flatten(&objects, &many),
        Err(SchemaError::SurfaceMismatch { object: 2 })
    );
    assert_eq!(
        try_flatten(&Vec::new(), &many),
        Err(SchemaError::SurfaceMismatch { object: 0 })
    );
    assert!(try_flatten(&objects, &all).is_ok());
    assert_eq!(try_flatten(&Vec::new(), &Vec::new()), Ok(SceneBufferBuilder::new()));
}

#[test]
fn an_index_that_leaves_the_word_is_not_accepted() {
    let first = triangle(corners_a(), identity());
    let mut far = triangle(corners_b(), identity());
    if let scene::Surface::MeshData { indices, .. } = &mut far.surface {
        indices[0] = UVec3::new(0, 1, u32::MAX - 2);
    }
    let mut builder = SceneBufferBuilder::new();
    // with no vertex before it the index fits as it stands
    assert!(builder.accepts(&far, &world_surface(&far)));
    builder.push(&first, &world_surface(&first));
    // behind three vertices it would have to become u32::MAX + 1
    assert!(!builder.accepts(&far, &world_surface(&far)));
    let objects = vec![first, far];
    assert_eq!(
        try_flatten(&objects, &worlds(&objects)),
        Err(SchemaError::TooLarge { object: 1 })
    );
}

fn quad_mesh() -> scene::Object {
    scene::Object {
        surface: scene::Surface::MeshData {
            vertices: vec![
                v3(glam::Vec3::new(0.0, 0.0, 0.0)),
                v3(glam::Vec3::new(1.0, 0.0, 0.0)),
                v3(glam::Vec3::new(1.0, 1.0, 0.0)),
                v3(glam::Vec3::new(0.0, 1.0, 0.0)),
            ],
            indices: vec![UVec3::new(0, 1, 2), UVec3::new(2, 3, 0)],
        },
        transform: identity(),
        material: material(1.0, 1.0, 1.0),
    }
}

#[test]
fn a_mesh_that_shares_vertices_has_more_corners_than_vertices() {
    // four vertices, two triangles: six corners from offset 0 on
    let objects = vec![quad_mesh()];
    let flat = flatten(&objects, &worlds(&objects));
    assert_eq!(flat.meshes, vec![Mesh { index_offset: 0, triangle_count: 2, material_id: 0 }]);
    assert_eq!(flat.vertices.len(), 4);
    assert!(flat.meshes[0].index_offset + 3 * flat.meshes[0].triangle_count > 4);
    // every index is still the place of a vertex
    assert!(flat.indices.iter().all(|i| (*i as usize) < flat.vertices.len()));

    // with enough vertices behind it the corners are covered
    let objects = vec![quad_mesh(), triangle(corners_a(), identity())];
    let flat = flatten(&objects, &worlds(&objects));
    assert!(flat
        .meshes
        .iter()
        .all(|m| (m.index_offset + 3 * m.triangle_count) as usize <= flat.vertices.len()));
}

#[test]
fn a_corner_beyond_its_mesh_is_an_index_beyond_the_vertices() {
    let mut stray = triangle(corners_a(), identity());
    if let scene::Surface::MeshData { indices, .. } = &mut stray.surface {
        indices[0] = UVec3::new(0, 1, 3);
    }
    // alone, the corner 3 lands behind the three vertices
    let objects = vec![stray.clone()];
    let flat = flatten(&objects, &worlds(&objects));
    assert_eq!(flat.indices, vec![0, 1, 3]);
    assert!(flat.indices.iter().any(|i| (*i as usize) >= flat.vertices.len()));

    // before another mesh, it lands on the first vertex of that mesh
    let objects = vec![stray, triangle(corners_b(), identity())];
    let flat = flatten(&objects, &worlds(&objects));
    assert_eq!(flat.indices, vec![0, 1, 3, 3, 4, 5]);
    assert!(flat.indices.iter().all(|i| (*i as usize) < flat.vertices.len()));
}
