use wave_engine::assets::r_assets::{
    pack_normal, register_vertices_if_free, try_register_vertices, EnumEntityType, EnumMaterial, EnumPrimitive, EnumPrimitiveMapMethod, EnumPrimitiveType,
    EnumSubPrimitivePortion, EnumVertexMemberOffset, MeshData, NormalBits, REntity, Vec2Bits, Vec3Bits, Vertex,
    C_VERTEX_SIZE,
};
use wave_engine::graphics::renderer::{EnumRendererApi, EnumRendererRenderPrimitiveAs};
use wave_engine::graphics::texture::{
    EnumTextureDataAlignment, EnumTextureFormat, EnumTextureInfo, EnumTextureTarget, TextureArray, TextureInfo,
};

fn v3(x: f32, y: f32, z: f32) -> Vec3Bits {
    Vec3Bits { x: x.to_bits(), y: y.to_bits(), z: z.to_bits() }
}

fn mesh(name: &str, n: usize, faces: Vec<[u32; 3]>) -> MeshData {
    MeshData {
        m_name: name.to_string(),
        m_num_vertices: n,
        m_positions: (0..n).map(|i| v3(i as f32, 0.0, 0.0)).collect(),
        m_normals: vec![],
        m_texture_coords: vec![Vec2Bits { x: 0.5f32.to_bits(), y: 1.0f32.to_bits() }],
        m_faces: faces,
    }
}

fn entity() -> REntity {
    let meshes = vec![mesh("body", 3, vec![[0, 1, 2]]), mesh("head", 4, vec![[0, 1, 2], [1, 2, 3]])];
    let (e, next) = REntity::new(&meshes, true, EnumPrimitive::Mesh(EnumMaterial::Smooth), "robot", 10);
    assert_eq!(next, 12);
    e
}

#[test]
fn vertex_layout() {
    assert_eq!(C_VERTEX_SIZE, 36);
    assert_eq!(EnumVertexMemberOffset::EntityIDOffset.offset(), 0);
    assert_eq!(EnumVertexMemberOffset::PositionOffset.offset(), 8);
    assert_eq!(EnumVertexMemberOffset::TexCoordsOffset.offset(), 28);
    let mut v = Vertex::default();
    assert_eq!((v.m_entity_id, v.m_texture_info, v.m_color.m_rgba), (0, -1, 0xFFFF_FFFF));
    v.register(5);
    v.m_texture_info = 3;
    v.clear();
    assert_eq!((v.get_id(), v.m_texture_info), (5, -1));
    assert_ne!(EnumEntityType::Object, EnumEntityType::Text);
    assert_ne!(EnumPrimitiveType::Mesh(true), EnumPrimitiveType::Mesh(false));
    assert_eq!(EnumPrimitive::default(), EnumPrimitive::Mesh(EnumMaterial::Smooth));
}

#[test]
fn normal_packing() {
    let up = NormalBits { m_x: 0, m_y: 100, m_z: 0, m_x_negative: false, m_y_negative: false, m_z_negative: false };
    let down = NormalBits { m_y_negative: true, ..up };
    assert_ne!(pack_normal(up), pack_normal(down));
    assert_eq!(pack_normal(NormalBits { m_x: 0, m_y: 0, m_z: 0, m_x_negative: false, m_y_negative: false, m_z_negative: false }), pack_normal(NormalBits { m_x: 0, m_y: 0, m_z: 0, m_x_negative: false, m_y_negative: false, m_z_negative: false }));
}

#[test]
fn entity_from_meshes() {
    let e = entity();
    assert_eq!(e.get_name(), "robot");
    assert_eq!(e.get_primitive_count(), 2);
    assert_eq!(e.get_total_vertex_count(), 7);
    assert_eq!(e.get_total_index_count(), 9);
    assert_eq!(e.get_size(), C_VERTEX_SIZE);
    assert_eq!(e.get_uuid(), u64::MAX);
    assert_eq!(e.get_primitive_mode(), EnumRendererRenderPrimitiveAs::Filled);
    assert!(!e.is_sent() && !e.has_changed() && !e.is_empty());
    let body = &e.m_sub_meshes[0];
    assert_eq!(body.get_name(), "body");
    assert_eq!(body.get_indices(), &vec![0, 1, 2]);
    assert_eq!(body.get_entity_id(), 10);
    let head = &e.m_sub_meshes[1];
    assert_eq!(head.get_indices(), &vec![3, 4, 5, 4, 5, 6]);
    assert_eq!(head.get_vertices_ref()[1].m_entity_id, 11);
    assert_eq!(head.get_vertices_ref()[1].m_position, v3(1.0, 0.0, 0.0));
    assert_eq!(head.get_vertices_ref()[0].m_texture_coords.x, 0.5f32.to_bits());
    assert_eq!(head.get_vertices_ref()[1].m_texture_coords, Vec2Bits { x: 0, y: 0 });
    let (plain, _) = REntity::new(&vec![mesh("p", 3, vec![[0, 1, 2]])], false, EnumPrimitive::Sprite, "s", 0);
    assert!(plain.m_sub_meshes[0].get_indices().is_empty());
    assert_eq!(plain.get_size(), 24);
}

#[test]
fn entity_drawing_state() {
    let mut e = entity();
    assert_eq!(e.visibility_request(EnumSubPrimitivePortion::Everything), None);
    e.toggle_primitive_mode(EnumRendererRenderPrimitiveAs::Filled);
    assert!(!e.has_changed());
    e.toggle_primitive_mode(EnumRendererRenderPrimitiveAs::Wireframe);
    assert!(e.has_changed());
    e.m_renderer_id = 4;
    e.mark_sent();
    assert!(e.is_sent() && !e.has_changed());
    assert_eq!(e.visibility_request(EnumSubPrimitivePortion::Everything), Some((4, None)));
    assert_eq!(e.visibility_request(EnumSubPrimitivePortion::Only(1)), Some((4, Some(1))));
    assert_eq!(e.visibility_request(EnumSubPrimitivePortion::Only(2)), None);
    assert_eq!(e.visibility_request(EnumSubPrimitivePortion::Nothing), None);
    assert_eq!(e.free(), Some(4));
    assert_eq!(e.free(), None);
}

#[test]
fn entity_equality_and_default() {
    let a = entity();
    let b = entity();
    assert!(a.eq(&b));
    // A new entity sits at the origin, unrotated, at scale 1.
    assert_eq!(a.m_transform, [v3(0.0, 0.0, 0.0), v3(0.0, 0.0, 0.0), v3(1.0, 1.0, 1.0)]);
    let (c, _) = REntity::new(&vec![mesh("x", 3, vec![])], true, EnumPrimitive::Mesh(EnumMaterial::Smooth), "x", 99);
    assert!(!a.eq(&c));
    let d = REntity::default();
    assert_eq!(d.get_primitive_count(), 1);
    assert!(d.get_total_vertex_count() > 0);
    assert!(d.has_changed());
}

fn layer(w: u32) -> TextureInfo {
    TextureInfo {
        m_type: EnumTextureInfo::Texture2D(EnumTextureTarget::Texture2D, 0, EnumTextureFormat::Rgba, w, w, EnumTextureDataAlignment::UnsignedByte, 0),
        m_width: w as usize,
        m_height: w as usize,
        m_depth: 4,
        m_data: vec![],
    }
}

#[test]
fn texture_array_mapping() {
    let mut e = entity();
    let arr = TextureArray::new(EnumRendererApi::OpenGL, vec![layer(4), layer(4)]);
    e.map_texture_array(&arr, EnumPrimitiveMapMethod::OnePerSubPrimitive);
    assert!(e.m_sub_meshes[0].m_vertices.iter().all(|v| v.m_texture_info == (4 << 16) + (1 << 8)));
    assert!(e.m_sub_meshes[1].m_vertices.iter().all(|v| v.m_texture_info == (4 << 16) + (2 << 8) + 1));
    e.unmap_texture_at(Some(vec![1]));
    assert!(e.m_sub_meshes[1].m_vertices.iter().all(|v| v.m_texture_info == -1));
    assert!(e.m_sub_meshes[0].m_vertices.iter().all(|v| v.m_texture_info != -1));
    e.unmap_texture_at(None);
    assert!(e.m_sub_meshes.iter().all(|p| p.m_vertices.iter().all(|v| v.m_texture_info == -1)));
    e.map_texture_array(&arr, EnumPrimitiveMapMethod::OnePerSubPrimitiveReversed);
    assert!(e.m_sub_meshes[0].m_vertices.iter().all(|v| v.m_texture_info == (4 << 16) + (2 << 8) + 1));
    e.unmap_texture_at(None);
    e.map_texture_array(&arr, EnumPrimitiveMapMethod::Randomized);
    assert!(e.m_sub_meshes.iter().all(|p| p.m_vertices.iter().all(|v| v.m_texture_info != -1)));
    assert_eq!(EnumPrimitiveMapMethod::default(), EnumPrimitiveMapMethod::OnePerSubPrimitive);
}

#[test]
fn texture_array_mapping_at_given_depths() {
    let mut e = entity();
    let arr = TextureArray::new(EnumRendererApi::OpenGL, vec![layer(4), layer(8)]);
    e.map_texture_array_at_depths(&arr, &vec![1, 0]);
    assert!(e.m_sub_meshes[0].m_vertices.iter().all(|v| v.m_texture_info == (4 << 16) + (2 << 8) + 1));
    assert!(e.m_sub_meshes[1].m_vertices.iter().all(|v| v.m_texture_info == (8 << 16) + (1 << 8)));
}

#[test]
fn reapply_after_changes() {
    let mut e = entity();
    e.m_renderer_id = 2;
    assert!(e.reapply_plan(false).is_none());
    e.mark_sent();
    e.toggle_primitive_mode(EnumRendererRenderPrimitiveAs::Points);
    let plan = e.reapply_plan(false).unwrap();
    assert_eq!(plan.m_uuid, 2);
    assert_eq!(plan.m_new_mode, Some(EnumRendererRenderPrimitiveAs::Points));
    e.commit_reapply();
    assert!(!e.has_changed());
    assert!(e.reapply_plan(false).is_none());
}

#[test]
fn vertices_take_a_free_entity_id() {
    let mut vs = vec![Vertex::default(), Vertex::default()];
    assert!(!register_vertices_if_free(&mut vs, &vec![3, 7], 7));
    assert!(vs.iter().all(|v| v.m_entity_id == 0));
    assert!(register_vertices_if_free(&mut vs, &vec![3, 7], 8));
    assert!(vs.iter().all(|v| v.m_entity_id == 8));
    let mut drawn = None;
    for _ in 0..100 {
        drawn = try_register_vertices(&mut vs, &vec![0]);
        if drawn.is_some() {
            break;
        }
    }
    let id = drawn.unwrap();
    assert_ne!(id, 0);
    assert!(vs.iter().all(|v| v.m_entity_id == id));
}

#[test]
fn first_draw_succeeds_when_no_id_is_taken() {
    let mut vs = vec![Vertex::default(), Vertex::default()];
    let id = try_register_vertices(&mut vs, &vec![]).expect("no identifier is taken");
    assert!(vs.iter().all(|v| v.m_entity_id == id));
}

#[test]
fn normals_pack_any_byte() {
    let n = NormalBits { m_x: 255, m_y: 200, m_z: 150, m_x_negative: true, m_y_negative: true, m_z_negative: true };
    assert_eq!(pack_normal(n), (255 << 24) + (200 << 16) + (150 << 8) + 1 + 2 + 8);
}
