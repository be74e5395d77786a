use wave_engine::assets::r_assets::{EnumMaterial, EnumPrimitive, MeshData, REntity, Vec2Bits, Vec3Bits};
use wave_engine::events::EnumEvent;
use wave_engine::graphics::vulkan::{driver_notice, EnumVkDriverNotice, EnumVkSeverity};
use wave_engine::strings::{path_extension, str_split, str_split_once};

#[test]
fn event_names() {
    assert_eq!(EnumEvent::WindowCloseEvent(12).to_string(), "WindowCloseEvent");
    assert_eq!(EnumEvent::FramebufferEvent(800, 600).to_string(), "FramebufferEvent");
    assert_eq!(EnumEvent::DragAndDrop(vec!["a.obj".to_string()]).to_string(), "DragAndDrop");
    assert_eq!(EnumEvent::UnknownEvent.to_string(), "UnknownEvent");
}

fn mesh(n: usize, faces: Vec<[u32; 3]>) -> MeshData {
    MeshData {
        m_name: "part".to_string(),
        m_num_vertices: n,
        m_positions: (0..n).map(|_| Vec3Bits { x: 0, y: 0, z: 0 }).collect(),
        m_normals: vec![],
        m_texture_coords: vec![Vec2Bits { x: 0, y: 0 }],
        m_faces: faces,
    }
}

#[test]
fn entity_description() {
    let meshes = vec![mesh(3, vec![[0, 1, 2]]), mesh(4, vec![[0, 1, 2], [1, 2, 3]])];
    let (mut e, _) = REntity::new(&meshes, true, EnumPrimitive::Mesh(EnumMaterial::Flat), "robot", 1);
    e.m_renderer_id = 42;
    let pad113 = " ".repeat(113);
    let pad115 = " ".repeat(115);
    let expected = format!(
        "UUID: 42\n{0}Type: Mesh(Flat)\n{0}Sent?: false\n{0}Data:\n{0}[1]:\n{1}Vertices:\t3\n{1}Indices:\t3\n{0}[2]:\n{1}Vertices:\t4\n{1}Indices:\t6",
        pad113, pad115
    );
    assert_eq!(e.to_string(), expected);
    assert_eq!(e.m_sub_meshes[1].to_string(), format!("Vertices:\t4\n{}Indices:\t6", pad115));
}

#[test]
fn splitting_text() {
    assert_eq!(str_split("a|b||c", '|'), vec!["a", "b", "", "c"]);
    assert_eq!(str_split("", '|'), vec![""]);
    assert_eq!(str_split("|", '|'), vec!["", ""]);
    assert_eq!(str_split_once("fn:msg:more", ':'), Some(("fn", "msg:more")));
    assert_eq!(str_split_once("nothing", ':'), None);
}

#[test]
fn driver_notices() {
    assert!(matches!(driver_notice(EnumVkSeverity::Info, "a|b|c:d"), EnumVkDriverNotice::Ignored));
    match driver_notice(EnumVkSeverity::Warning, "Validation|0x12|vkCreate: bad flag") {
        EnumVkDriverNotice::Warning(m) => {
            assert_eq!(m.m_type.as_deref(), Some("Validation"));
            assert_eq!(m.m_id, "0x12");
            assert_eq!(m.m_function, "vkCreate");
            assert_eq!(m.m_message, " bad flag");
        }
        other => panic!("unexpected {:?}", other),
    }
    match driver_notice(EnumVkSeverity::Warning, "Perf|7") {
        EnumVkDriverNotice::Warning(m) => {
            assert_eq!((m.m_function.as_str(), m.m_message.as_str()), ("Empty", "Empty"));
        }
        other => panic!("unexpected {:?}", other),
    }
    assert!(matches!(driver_notice(EnumVkSeverity::Warning, "lonely"), EnumVkDriverNotice::Malformed));
    match driver_notice(EnumVkSeverity::Error, "Validation|1|no colon here") {
        EnumVkDriverNotice::Fatal(m, text) => {
            assert_eq!(m.m_function, "Empty");
            assert_eq!(m.m_message, "no colon here");
            assert_eq!(text, "no colon here");
        }
        other => panic!("unexpected {:?}", other),
    }
    match driver_notice(EnumVkSeverity::Error, "device lost: gone") {
        EnumVkDriverNotice::Fatal(m, text) => {
            assert_eq!(m.m_type, None);
            assert_eq!(m.m_id, "device lost: gone");
            assert_eq!((m.m_function.as_str(), m.m_message.as_str()), ("device lost", " gone"));
            assert_eq!(text, "device lost: gone");
        }
        other => panic!("unexpected {:?}", other),
    }
    assert!(matches!(driver_notice(EnumVkSeverity::Error, "a|b"), EnumVkDriverNotice::Ignored));
}

#[test]
fn path_extensions() {
    assert_eq!(path_extension("res/shaders/a.vert"), Some("vert"));
    assert_eq!(path_extension("cache/a.vert.spv"), Some("spv"));
    assert_eq!(path_extension("res/shaders/a"), None);
    assert_eq!(path_extension("res/.hidden"), None);
    assert_eq!(path_extension("dir.d/file"), None);
}
