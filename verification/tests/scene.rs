use fluid_scene::entity_fluid::{make_flatmesh, FluidEntity};
use fluid_scene::entity_obj::{
    convert_material, group_geometry, load_wavefront, EntityObj, IndexTriple, MeshError, ObjData,
    PolyGroup, SurfaceDesc,
};
use fluid_scene::geometry::test_data;
use fluid_scene::linalg::{normal_matrix, Mat3, Mat4, Vec2, Vec3, Vec4};
use fluid_scene::material::{
    DirectionalLight, DrawCall, MaterialBasic, MaterialPbr, MaterialPbrTex, PointLight, Primitive,
};
use fluid_scene::render::RenderContext;
use fluid_scene::world::{BasicWorld, Entity};
use fluid_scene::FX;

fn triple(p: usize) -> IndexTriple {
    IndexTriple { p, t: None, n: None }
}

fn flat_obj_data(polys: Vec<Vec<IndexTriple>>, with_material: bool) -> ObjData {
    let n_pos = polys.iter().flat_map(|p| p.iter()).map(|t| t.p + 1).max().unwrap_or(0);
    let position = (0..n_pos).map(|i| Vec3::new(i as i64, 0, 0)).collect();
    let material = if with_material {
        Some(SurfaceDesc { kd: Some(Vec3::new(1000, 2000, 3000)), map_kd: None })
    } else {
        None
    };
    ObjData {
        position,
        texture: Vec::new(),
        normal: Vec::new(),
        groups: vec![PolyGroup { polys, material }],
    }
}

#[test]
fn strip_indices_two_by_one() {
    // divW = 2, divH = 1: one row segment of 2*2 + 4 = 8 indices.
    let g = make_flatmesh(20000, 10000, 2, 1);
    assert_eq!(g.indices, vec![0, 0, 3, 1, 4, 2, 5, 5]);
    assert_eq!(g.vertices.len(), 6);
}

#[test]
fn strip_indices_one_by_two() {
    // divW = 1, divH = 2: two row segments of 6 indices each.
    let g = make_flatmesh(10000, 20000, 1, 2);
    assert_eq!(g.indices, vec![0, 0, 2, 1, 3, 3, 2, 2, 4, 3, 5, 5]);
    assert_eq!(g.vertices.len(), 6);
}

#[test]
fn strip_length_formula_and_bounds() {
    for (dw, dh) in [(1u32, 1u32), (2, 3), (5, 4), (7, 1)] {
        let g = make_flatmesh(30000, 30000, dw, dh);
        assert_eq!(g.indices.len() as u32, dh * (2 * dw + 4));
        assert_eq!(g.vertices.len() as u32, (dw + 1) * (dh + 1));
        let nv = g.vertices.len() as u32;
        assert!(g.indices.iter().all(|&i| i < nv));
    }
}

#[test]
fn flat_grid_vertices_centered() {
    // width 30000 over 3 cells: columns at -15000, -5000, 5000, 15000.
    let g = make_flatmesh(30000, 30000, 3, 3);
    for (k, v) in g.vertices.iter().enumerate() {
        let col = (k % 4) as i64;
        let row = (k / 4) as i64;
        assert_eq!(v.position.x, col * 10000 - 15000);
        assert_eq!(v.position.y, 0);
        assert_eq!(v.position.z, row * 10000 - 15000);
        assert_eq!(v.texture, Vec2 { x: 0, y: 0 });
        assert_eq!(v.normal, Vec3 { x: 0, y: FX, z: 0 });
    }
}

#[test]
fn fluid_entity_construction() {
    let e = FluidEntity::new(2, 2, 20000);
    assert_eq!(e.time, 0);
    assert_eq!(e.height_mag, 5000);
    assert_eq!(e.width, 20000);
    assert_eq!(e.geometry.vertices.len(), 9);
    assert_eq!(e.geometry.indices.len(), 2 * (2 * 2 + 4));
    assert_eq!(e.material.primitive, Primitive::TriangleStrip);
    assert_eq!(e.material.data.has_kdmap, 0);
    assert_eq!(e.material.data.d_num, 0);
    assert_eq!(e.material.data.p_num, 1);
}

#[test]
fn constant_field_renders_flat() {
    // A field held constant at c: every elevation is c * heightMag (the
    // fixed-point product c * 5000 / FX: 0.01 * 0.5 = 0.005) and every
    // normal is (0, negative, 0), the direction of (0, -1, 0).
    let mut e = FluidEntity::new(2, 2, 20000);
    let samples: Vec<i64> = vec![100; 9];
    e.update(&samples);
    assert_eq!(e.time, 1);
    for v in e.geometry.vertices.iter() {
        assert_eq!(v.position.y, 100 * 5000 / FX);
        assert_eq!(v.position.y, 50);
        assert_eq!(v.normal.x, 0);
        assert_eq!(v.normal.z, 0);
        assert_eq!(v.normal.y, -2 * FX * 5000);
    }
}

#[test]
fn linear_field_gradient() {
    // Field linear in x: sample at column x is 50 * x. The doubled
    // gradient is 100 at every lattice point, interior and boundary, so
    // the x normal component is -100 * dx with dx = 20000 / 2 = 10000.
    let mut e = FluidEntity::new(2, 2, 20000);
    let mut samples: Vec<i64> = Vec::new();
    for k in 0..9 {
        samples.push(50 * ((k % 3) as i64));
    }
    e.update(&samples);
    for v in e.geometry.vertices.iter() {
        assert_eq!(v.normal.x, -100 * 10000);
        assert_eq!(v.normal.z, 0);
    }
}

#[test]
fn update_keeps_topology_and_order() {
    let mut e = FluidEntity::new(3, 2, 20000);
    let before_indices = e.geometry.indices.clone();
    let before_xz: Vec<(i64, i64)> =
        e.geometry.vertices.iter().map(|v| (v.position.x, v.position.z)).collect();
    let samples: Vec<i64> = (0..12).map(|k| (k * 7 - 30) as i64).collect();
    e.update(&samples);
    assert_eq!(e.geometry.indices, before_indices);
    let after_xz: Vec<(i64, i64)> =
        e.geometry.vertices.iter().map(|v| (v.position.x, v.position.z)).collect();
    assert_eq!(before_xz, after_xz);
    assert_eq!(e.geometry.vertices.len(), before_xz.len());
}

#[test]
fn single_triangle_group() {
    // A 3-vertex polygon produces exactly one triangle: 3 indices.
    let data = flat_obj_data(vec![vec![triple(0), triple(1), triple(2)]], true);
    let g = group_geometry(&data, &data.groups[0]);
    assert_eq!(g.vertices.len(), 3);
    assert_eq!(g.indices, vec![0, 1, 2]);
}

#[test]
fn quad_group_fans_from_origin() {
    // A quad produces two triangles sharing the fan origin vertex.
    let data = flat_obj_data(vec![vec![triple(0), triple(1), triple(2), triple(3)]], true);
    let g = group_geometry(&data, &data.groups[0]);
    assert_eq!(g.vertices.len(), 4);
    assert_eq!(g.indices, vec![0, 1, 2, 0, 2, 3]);
}

#[test]
fn offsets_accumulate_across_polygons() {
    // Triangle then quad: the quad's fan is offset by the 3 corners that
    // came before it, and no vertex is shared across triples.
    let data = flat_obj_data(
        vec![
            vec![triple(0), triple(1), triple(2)],
            vec![triple(0), triple(2), triple(3), triple(4)],
        ],
        true,
    );
    let g = group_geometry(&data, &data.groups[0]);
    assert_eq!(g.vertices.len(), 7);
    assert_eq!(g.indices, vec![0, 1, 2, 3, 4, 5, 3, 5, 6]);
}

#[test]
fn missing_material_is_fatal() {
    let data = flat_obj_data(vec![vec![triple(0), triple(1), triple(2)]], false);
    let r = load_wavefront(&data);
    assert_eq!(r.err(), Some(MeshError::MissingMaterial));
    assert!(EntityObj::from_obj(&data).is_err());
}

#[test]
fn loaded_mesh_defaults() {
    // Missing texture and normal indices fall back to (0,0) and the x
    // axis; missing diffuse color falls back to white.
    let data = flat_obj_data(vec![vec![triple(0), triple(1), triple(2)]], true);
    let g = group_geometry(&data, &data.groups[0]);
    for v in g.vertices.iter() {
        assert_eq!(v.texture, Vec2 { x: 0, y: 0 });
        assert_eq!(v.normal, Vec3 { x: FX, y: 0, z: 0 });
    }
    let m = convert_material(&SurfaceDesc { kd: None, map_kd: None });
    assert_eq!(m.data.albedo, Vec3 { x: FX, y: FX, z: FX });
    assert_eq!(m.data.has_kdmap, 0);
    assert_eq!(m.primitive, Primitive::TriangleList);
    let m2 = convert_material(
        &SurfaceDesc { kd: Some(Vec3::new(1, 2, 3)), map_kd: Some(String::from("wood.png")) },
    );
    assert_eq!(m2.data.albedo, Vec3 { x: 1, y: 2, z: 3 });
    assert_eq!(m2.data.has_kdmap, 1);
}

#[test]
fn entity_obj_set_pos() {
    let data = flat_obj_data(vec![vec![triple(0), triple(1), triple(2)]], true);
    let mut e = EntityObj::from_obj(&data).unwrap();
    assert_eq!(e.model_view.m00, 100);
    assert_eq!(e.model_view.m33, FX as i128);
    e.set_pos(Vec3::new(10000, 5000, 20000));
    assert_eq!(e.position, Vec3 { x: 10000, y: 5000, z: 20000 });
    assert_eq!(e.model_view.m03, 10000);
    assert_eq!(e.model_view.m13, 5000);
    assert_eq!(e.model_view.m23, 20000);
    assert_eq!(e.model_view.m33, FX as i128);
    assert_eq!(e.model_view.m00, 100);
}

#[test]
fn world_draw_visits_in_insertion_order() {
    // Entities [fluid, obj with 2 parts, obj with 1 part] added in that
    // order: the trace reads fluid, obj1, obj1, obj2 every frame.
    let fluid = FluidEntity::new(1, 1, 20000);
    let mut data2 = flat_obj_data(vec![vec![triple(0), triple(1), triple(2)]], true);
    data2.groups.push(PolyGroup {
        polys: vec![vec![triple(0), triple(1), triple(2)]],
        material: Some(SurfaceDesc { kd: None, map_kd: None }),
    });
    let obj1 = EntityObj::from_obj(&data2).unwrap();
    let data1 = flat_obj_data(
        vec![vec![triple(0), triple(1), triple(2), triple(3)]],
        true,
    );
    let obj2 = EntityObj::from_obj(&data1).unwrap();
    let mut world = BasicWorld::new();
    world.add_entity(Entity::Fluid(fluid));
    world.add_entity(Entity::Obj(obj1));
    world.add_entity(Entity::Obj(obj2));
    let ctx = RenderContext::new(Mat4::identity());
    for _frame in 0..2 {
        let calls = ctx.draw_world(&world);
        assert_eq!(calls.len(), 4);
        let shapes: Vec<(Primitive, usize)> = calls
            .iter()
            .map(|c| match c {
                DrawCall::PbrTex { primitive, vertices, .. } => (*primitive, vertices.len()),
                _ => panic!("unexpected draw call kind"),
            })
            .collect();
        assert_eq!(shapes[0], (Primitive::TriangleStrip, 4));
        assert_eq!(shapes[1], (Primitive::TriangleList, 3));
        assert_eq!(shapes[2], (Primitive::TriangleList, 3));
        assert_eq!(shapes[3], (Primitive::TriangleList, 4));
    }
}

#[test]
fn world_update_reaches_every_entity_once() {
    let fluid = FluidEntity::new(1, 1, 20000);
    let mut world = BasicWorld::new();
    world.add_entity(Entity::Fluid(fluid));
    let samples: Vec<i64> = vec![20, 20, 20, 20];
    world.update(&samples);
    world.update(&samples);
    match &world.entities[0] {
        Entity::Fluid(f) => {
            assert_eq!(f.time, 2);
            assert_eq!(f.geometry.vertices[0].position.y, 20 * 5000 / FX);
        }
        _ => panic!("entity kind changed"),
    }
}

#[test]
fn material_round_trip_without_draws() {
    // Constructing materials and issuing zero draws must leave them
    // intact and drop cleanly.
    let basic = MaterialBasic::new();
    assert_eq!(basic.primitive, Primitive::TriangleStrip);
    let pbr = MaterialPbr::new(5000, 5000, Vec3::new(1, 2, 3), Vec3::new(0, 0, 0), FX,
        Primitive::TriangleList);
    assert_eq!(pbr.data.metallic, 5000);
    assert_eq!(pbr.data.d_num, 1);
    assert_eq!(pbr.data.p_num, 0);
    let tex = MaterialPbrTex::new(1, 2, Vec3::new(4, 5, 6), Vec3::new(0, 0, 0), FX,
        Primitive::TriangleStrip, Some(String::from("a.png")));
    assert_eq!(tex.data.has_kdmap, 1);
    drop(basic);
    drop(pbr);
    drop(tex);
}

#[test]
fn matrix_product_renormalizes() {
    // 2.0 * 3.0 = 6.0 in fixed-point: 20000 * 30000 / 10000 = 60000.
    let a = Mat4::from_scale(20000);
    let b = Mat4::from_scale(30000);
    let c = a.mul(&b);
    assert_eq!(c.m00, 60000);
    assert_eq!(c.m11, 60000);
    assert_eq!(c.m22, 60000);
    assert_eq!(c.m33, FX as i128);
    assert_eq!(c.m01, 0);
    let i = Mat4::identity();
    let d = i.mul(&a);
    assert_eq!(d, a);
}

#[test]
fn normal_matrix_of_scaling() {
    // The normal transform of a uniform scale s is 1/s on the diagonal.
    let m = Mat4::from_scale(20000);
    let n = normal_matrix(&m);
    // cofactor 20000^2 = 4e8, scaled by FX; determinant 20000^3 = 8e12.
    assert_eq!(n.m00, 4_000_000_000_000);
    assert_eq!(n.m11, 4_000_000_000_000);
    assert_eq!(n.m22, 4_000_000_000_000);
    assert_eq!(n.den, 8_000_000_000_000);
    // off-diagonal entries vanish; the value is 1/2, the inverse of 2.0
    assert_eq!(n.m01, 0);
    assert_eq!(n.m10, 0);
    assert_eq!((n.m00 * 2) / n.den, 1);
}

#[test]
fn normal_matrix_singular_falls_back_to_identity() {
    let m = Mat4::from_scale(0);
    let n = normal_matrix(&m);
    assert_eq!(n.m00, FX as i128);
    assert_eq!(n.m11, FX as i128);
    assert_eq!(n.m22, FX as i128);
    assert_eq!(n.den, FX as i128);
    assert_eq!(n.m01, 0);
}

#[test]
fn lights_through_identity_keep_their_values() {
    let nmat = Mat3 {
        m00: FX as i128, m01: 0, m02: 0,
        m10: 0, m11: FX as i128, m12: 0,
        m20: 0, m21: 0, m22: FX as i128,
        den: FX as i128,
    };
    let d = DirectionalLight {
        direction: Vec4::new(5774, -5774, 5774, 0),
        color: Vec4::new(FX as i128, FX as i128, FX as i128, FX as i128),
    };
    let t = d.transform(&nmat);
    assert_eq!(t.direction, Vec4 { x: 5774, y: -5774, z: 5774, w: 0 });
    assert_eq!(t.color, d.color);
    let p = PointLight {
        position: Vec4::new(0, -100, 100, 0),
        color: Vec4::new(FX as i128, FX as i128, FX as i128, FX as i128),
        distance_decay: Vec4::new(100_000, 8000, 0, 0),
    };
    let tp = p.transform(&Mat4::identity());
    assert_eq!(tp.position, Vec4 { x: 0, y: -100, z: 100, w: 0 });
    assert_eq!(tp.distance_decay, p.distance_decay);
}

#[test]
fn draw_computes_model_view_chain() {
    // With an identity view and projection, the basic draw's combined
    // matrix equals the model matrix.
    let ctx = RenderContext::new(Mat4::identity());
    let basic = MaterialBasic::new();
    let cube = test_data();
    let model = Mat4::from_scale(20000);
    let call = basic.draw(&ctx, &cube, model);
    match call {
        DrawCall::Basic { vertices, indices, primitive, data } => {
            assert_eq!(vertices.len(), 24);
            assert_eq!(indices.len(), 36);
            assert_eq!(primitive, Primitive::TriangleStrip);
            assert_eq!(data.u_model_view_proj, model);
        }
        _ => panic!("unexpected draw call kind"),
    }
}

#[test]
fn render_context_view_and_resize() {
    let mut ctx = RenderContext::new(Mat4::from_scale(5000));
    assert_eq!(ctx.view, Mat4::identity());
    ctx.set_view(Mat4::from_scale(20000));
    assert_eq!(ctx.view, Mat4::from_scale(20000));
    assert_eq!(ctx.projection, Mat4::from_scale(5000));
    ctx.resize(Mat4::from_scale(7000));
    assert_eq!(ctx.projection, Mat4::from_scale(7000));
    assert_eq!(ctx.view, Mat4::from_scale(20000));
}

#[test]
fn cube_sample_data() {
    let cube = test_data();
    assert_eq!(cube.vertices.len(), 24);
    assert_eq!(cube.indices.len(), 36);
    assert!(cube.indices.iter().all(|&i| i < 24));
    assert_eq!(cube.vertices[0].position, Vec3 { x: -FX, y: -FX, z: FX });
    assert_eq!(cube.vertices[0].normal, Vec3 { x: 0, y: 0, z: FX });
    assert_eq!(&cube.indices[0..6], &[0, 1, 2, 2, 3, 0]);
}
