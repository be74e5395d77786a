use wave_engine::assets::asset_loader::{
    AssetLoader, EnumAssetHint, EnumAssetHintValue, EnumAssetPrimitiveMode, EnumImporterOption,
};
use wave_engine::graphics::renderer::EnumRendererApi;
use wave_engine::graphics::shader::{
    cache_path, check_cache, check_validity, parse_language, parse_version, EnumShaderError,
    EnumShaderLanguageType, EnumShaderSource, EnumShaderStage, EnumShaderState, Shader, ShaderStage, StageReport,
};
use wave_engine::graphics::texture::{
    EnumTextureDataAlignment, EnumTextureFormat, EnumTextureInfo, EnumTextureLoaderError, EnumTextureTarget,
};
use wave_engine::utils::texture_loader::{EnumTextureLoaderHint, EnumTextureLoaderHintValue, TextureLoader};

const VERT: &str = "#version 420 core\nlayout(location = 0) in vec3 p;\nvoid main() { gl_Position = vec4(p, 1.0); }";

#[test]
fn shader_stage_names_and_values() {
    assert_eq!(EnumShaderStage::Vertex.to_gl(), gl::VERTEX_SHADER);
    assert_eq!(EnumShaderStage::Fragment.to_gl(), gl::FRAGMENT_SHADER);
    assert_eq!(EnumShaderStage::Geometry.to_gl(), gl::GEOMETRY_SHADER);
    assert_eq!(EnumShaderStage::Compute.to_gl(), gl::COMPUTE_SHADER);
    assert_eq!(EnumShaderStage::Geometry.to_string(), "Geometry");
    assert_eq!(EnumShaderSource::FromFile("a.vert".to_string()).to_string(), "File : a.vert");
    assert_eq!(EnumShaderSource::FromStr("x".to_string()).to_string(), "Literal : x");
    assert_eq!(EnumShaderSource::FromStr("x".to_string()).into_string(), "x");
    let d = ShaderStage::default(EnumShaderStage::Fragment);
    assert_eq!(d.m_source, EnumShaderSource::FromFile("res/shaders/glsl_420.frag".to_string()));
    assert!(!d.cache_status());
    let a = ShaderStage::new(EnumShaderStage::Vertex, EnumShaderSource::FromStr(VERT.to_string()));
    let b = ShaderStage::new(EnumShaderStage::Vertex, EnumShaderSource::FromStr(VERT.to_string()));
    let c = ShaderStage::new(EnumShaderStage::Vertex, EnumShaderSource::FromFile(VERT.to_string()));
    assert!(a.eq(&b));
    assert!(!a.eq(&c));
}

#[test]
fn shader_source_checks() {
    assert_eq!(check_validity(VERT), Ok(()));
    assert_eq!(check_validity("void main() {}"), Err(EnumShaderError::InvalidShaderSource));
    assert_eq!(check_validity("#version 330"), Err(EnumShaderError::InvalidShaderSource));
    assert_eq!(parse_version(VERT), Some(420));
    assert_eq!(parse_version("// x\n#version 460\nvoid main() {}"), Some(460));
    assert_eq!(parse_version("#version +45 x"), Some(45));
    assert_eq!(parse_version("#version abc core"), None);
    assert_eq!(parse_version("#version 4"), None);
    assert_eq!(parse_version("no version"), None);
    assert_eq!(parse_language(Some("bin"), ""), EnumShaderLanguageType::Binary);
    assert_eq!(parse_language(Some("spv"), ""), EnumShaderLanguageType::SpirV);
    assert_eq!(parse_language(Some("vert"), "#extension GL_SPIRV : enable"), EnumShaderLanguageType::GlslSpirV);
    assert_eq!(parse_language(None, VERT), EnumShaderLanguageType::Glsl);
    assert_eq!(cache_path("glsl_420.vert", "vert"), "cache/glsl_420.vert.spv");
    assert_eq!(cache_path("a.spv", "spv"), "cache/a.spv");
    assert_eq!(check_cache(EnumRendererApi::OpenGL, false, false), Err(EnumShaderError::InvalidApi));
    assert_eq!(check_cache(EnumRendererApi::OpenGL, true, true), Err(EnumShaderError::ShaderModified));
    assert_eq!(check_cache(EnumRendererApi::Vulkan, false, false), Ok(()));
}

fn report(text: Result<&str, EnumShaderError>, name: &str, stem: &str, ext: &str, cache: bool) -> StageReport {
    StageReport {
        m_text: text.map(|t| t.to_string()),
        m_file_name: name.to_string(),
        m_file_stem: stem.to_string(),
        m_extension: ext.to_string(),
        m_cache_usable: cache,
        m_downgrade_read: Err(EnumShaderError::IoError("not found".to_string())),
    }
}

fn file_stage(stage: EnumShaderStage, path: &str) -> ShaderStage {
    ShaderStage::new(stage, EnumShaderSource::FromFile(path.to_string()))
}

#[test]
fn shader_stage_preparation() {
    assert_eq!(
        Shader::prepare_stages(vec![], &vec![], 460).map(|r| r.map(|_| ())),
        Some(Err(EnumShaderError::NoShaderStagesProvided))
    );
    let stages = vec![
        file_stage(EnumShaderStage::Vertex, "res/shaders/a.vert"),
        file_stage(EnumShaderStage::Fragment, "res/shaders/a.frag"),
    ];
    let reports = vec![
        report(Ok(VERT), "a.vert", "a", "vert", true),
        report(Ok(VERT), "a.frag", "a", "frag", true),
    ];
    let (out, version) = Shader::prepare_stages(stages, &reports, 450).unwrap().unwrap();
    assert_eq!(version, 450);
    assert!(out.iter().all(|s| s.m_is_cached));
    assert_eq!(out[0].m_source, EnumShaderSource::FromFile("cache/a.vert.spv".to_string()));
    assert_eq!(out[1].m_stage, EnumShaderStage::Fragment);

    let stages = vec![
        file_stage(EnumShaderStage::Vertex, "res/shaders/a.vert"),
        file_stage(EnumShaderStage::Fragment, "shaders/b.spv"),
        ShaderStage::new(EnumShaderStage::Geometry, EnumShaderSource::FromStr(VERT.to_string())),
        file_stage(EnumShaderStage::Compute, "res/shaders/c.cs"),
    ];
    let reports = vec![
        report(Ok(VERT), "a.vert", "a", "vert", true),
        report(Ok(VERT), "b.spv", "b", "spv", false),
        report(Ok(VERT), "", "", "", false),
        report(Ok(VERT), "c.cs", "c", "cs", false),
    ];
    let (out, _) = Shader::prepare_stages(stages, &reports, 420).unwrap().unwrap();
    assert!(out.iter().all(|s| !s.m_is_cached));
    assert_eq!(out[0].m_source, EnumShaderSource::FromFile("res/shaders/a.vert".to_string()));
    assert_eq!(out[1].m_source, EnumShaderSource::FromFile("res/shaders/b".to_string()));
    assert_eq!(out[2].m_source, EnumShaderSource::FromStr(VERT.to_string()));
    assert_eq!(out[3].m_source, EnumShaderSource::FromFile("res/shaders/c.cs".to_string()));
}

#[test]
fn shader_stage_preparation_failures() {
    let two = || vec![file_stage(EnumShaderStage::Vertex, "a.vert"), file_stage(EnumShaderStage::Fragment, "a.frag")];
    let r = Shader::prepare_stages(
        two(),
        &vec![report(Ok(VERT), "a.vert", "a", "vert", false), report(Err(EnumShaderError::FileNotFound), "a.frag", "a", "frag", false)],
        420,
    );
    assert_eq!(r.map(|r| r.map(|_| ())), Some(Err(EnumShaderError::FileNotFound)));
    let r = Shader::prepare_stages(
        two(),
        &vec![report(Ok("void main()"), "a.vert", "a", "vert", false), report(Err(EnumShaderError::FileNotFound), "a.frag", "a", "frag", false)],
        420,
    );
    assert_eq!(r.map(|r| r.map(|_| ())), Some(Err(EnumShaderError::InvalidShaderSource)));
    let r = Shader::prepare_stages(
        two(),
        &vec![report(Ok("#version x\nvoid main()"), "a.vert", "a", "vert", false), report(Ok(VERT), "a.frag", "a", "frag", false)],
        420,
    );
    assert!(r.is_none());
    let r = Shader::prepare_stages(
        two(),
        &vec![report(Ok(VERT), "a.vert", "a", "vert", false), report(Err(EnumShaderError::IoError("denied".to_string())), "a.frag", "a", "frag", false)],
        420,
    );
    assert_eq!(r.map(|r| r.map(|_| ())), Some(Err(EnumShaderError::IoError("denied".to_string()))));
    let r = Shader::prepare_stages(
        two(),
        &vec![report(Ok(VERT), "a.vert", "a", "vert", false), report(Ok(VERT), "a.frag", "a", "frag", false)],
        410,
    );
    assert_eq!(r.map(|r| r.map(|_| ())), Some(Err(EnumShaderError::IoError("not found".to_string()))));
    let mut lowered = report(Ok(VERT), "a.vert", "a", "vert", false);
    lowered.m_downgrade_read = Ok(());
    let r = Shader::prepare_stages(two(), &vec![lowered, report(Ok("#version 330\nvoid main()"), "a.frag", "a", "frag", false)], 410);
    assert_eq!(r.map(|r| r.map(|(_, v)| v)), Some(Ok(410)));
}

#[test]
fn shader_life_cycle() {
    let d = Shader::default();
    assert_eq!((d.m_state, d.get_version(), d.get_lang(), d.get_id()), (EnumShaderState::NotCreated, 420, EnumShaderLanguageType::Glsl, 0));
    let stages = vec![ShaderStage::new(EnumShaderStage::Vertex, EnumShaderSource::FromStr(VERT.to_string()))];
    let reports = vec![report(Ok(VERT), "", "", "", false)];
    assert!(matches!(
        Shader::new(stages.clone(), &reports, 460, "", EnumRendererApi::Vulkan),
        Err(EnumShaderError::InvalidApi)
    ));
    let vk = "#version 460\n#define Vulkan 1\nvoid main() {}";
    let vk_stages = vec![ShaderStage::new(EnumShaderStage::Vertex, EnumShaderSource::FromStr(vk.to_string()))];
    let mut s = Shader::new(vk_stages, &vec![report(Ok(vk), "", "", "", false)], 460, "", EnumRendererApi::OpenGL).unwrap();
    assert_eq!((s.m_state, s.get_version(), s.get_lang()), (EnumShaderState::Created, 460, EnumShaderLanguageType::GlslSpirV));
    assert!(!s.free());
    s.mark_sent(12);
    assert_eq!(s.get_id(), 12);
    assert!(s.free());
    assert_eq!(s.m_state, EnumShaderState::Deleted);
}

#[test]
fn texture_loader_settings_and_resolution() {
    let mut l = TextureLoader::new();
    assert!(!l.flips_uvs());
    l.set_hint(EnumTextureLoaderHint::FlipUvs(true));
    assert!(l.flips_uvs());
    l.set_hint(EnumTextureLoaderHint::FlipUvs(false));
    assert!(!l.flips_uvs());
    l.set_hint(EnumTextureLoaderHint::MaxMipMapLevel(2));
    let t = l.resolve(256, 256, 3, vec![9; 12]).unwrap();
    assert!(matches!(
        t.m_type,
        EnumTextureInfo::Texture2D(EnumTextureTarget::Texture2D, 2, EnumTextureFormat::Rgb, 256, 256, EnumTextureDataAlignment::UnsignedByte, 5)
    ));
    assert_eq!((t.m_width, t.m_height, t.m_depth, t.m_data.len()), (256, 256, 3, 12));
    assert_eq!(l.resolve(100, 100, 4, vec![]).map(|_| ()), Err(EnumTextureLoaderError::InvalidSize));
    l.set_hint(EnumTextureLoaderHint::MaxDimensions((64, 64, 4)));
    let t = l.resolve(512, 512, 4, vec![]).unwrap();
    assert_eq!(t.m_type.get_width(), 64);
    assert_eq!(t.m_type.get_slot(), 3);
    assert_eq!(t.m_type.get_format(), EnumTextureFormat::Rgba);
    l.set_hint(EnumTextureLoaderHint::TextureType(EnumTextureTarget::Texture3D));
    let t = l.resolve(1024, 1024, 1, vec![]).unwrap();
    assert!(matches!(t.m_type, EnumTextureInfo::Texture3D(EnumTextureTarget::Texture3D, 2, EnumTextureFormat::Red, 64, 64, 0, _, 3)));
    assert_eq!(l.check_hdr(), Err(EnumTextureLoaderError::InvalidFormat));
    l.set_hint(EnumTextureLoaderHint::IsHdr(true));
    assert_eq!(l.check_hdr(), Ok(()));
    assert_eq!(l.settings().m_mipmap, 2);
    l.reset_hints();
    assert!(l.m_hints.is_empty());
    assert_eq!(
        EnumTextureLoaderHint::MaxMipMapLevel(3).get_value(),
        EnumTextureLoaderHintValue::Level(3)
    );
    assert!(EnumTextureLoaderHint::IsHdr(true).is_equivalent(&EnumTextureLoaderHint::IsHdr(false)));
    assert!(!EnumTextureLoaderHint::IsHdr(true).is_equivalent(&EnumTextureLoaderHint::FlipUvs(true)));
}

#[test]
fn asset_loader_hints_and_options() {
    let mut a = AssetLoader::new();
    assert!(a.is_indexed());
    assert_eq!(
        a.resolved_hints(),
        vec![
            EnumAssetHint::VertexDataIs(EnumAssetPrimitiveMode::Indexed),
            EnumAssetHint::SplitLargeMeshes(None),
            EnumAssetHint::GenerateNormals(false),
            EnumAssetHint::GenerateUvs(false),
            EnumAssetHint::Triangulate(true),
            EnumAssetHint::ReduceMeshes(false),
            EnumAssetHint::OnlyTriangles(true),
        ]
    );
    a.set_hint(EnumAssetHint::VertexDataIs(EnumAssetPrimitiveMode::Plain));
    a.set_hint(EnumAssetHint::SplitLargeMeshes(Some(5000)));
    assert!(!a.is_indexed());
    let opts = a.importer_options();
    assert_eq!(opts[0], EnumImporterOption::FindDegenerates(true));
    assert_eq!(opts[1], EnumImporterOption::JoinIdenticalVertices(false));
    assert_eq!(opts[2], EnumImporterOption::SplitLargeMeshes(true, Some(5000)));
    assert_eq!(*opts.last().unwrap(), EnumImporterOption::MeasureTime(true));
    assert_eq!(opts.len(), 14);
    a.reset_hints();
    assert!(a.m_hints.is_empty());
    assert!(EnumAssetHint::Triangulate(true).is(&EnumAssetHint::Triangulate(false)));
    assert_eq!(EnumAssetHint::GenerateNormals(true).get_value(), EnumAssetHintValue::Flag(true));
    assert_eq!(EnumAssetPrimitiveMode::default(), EnumAssetPrimitiveMode::Indexed);
}

#[test]
fn shader_new_checks_its_stages() {
    assert!(matches!(
        Shader::new(vec![], &vec![], 460, "", EnumRendererApi::OpenGL),
        Err(EnumShaderError::NoShaderStagesProvided)
    ));
    let no_version = "void main() {}";
    let stages = vec![ShaderStage::new(EnumShaderStage::Vertex, EnumShaderSource::FromStr(no_version.to_string()))];
    assert!(matches!(
        Shader::new(stages, &vec![report(Ok(no_version), "", "", "", false)], 460, "", EnumRendererApi::OpenGL),
        Err(EnumShaderError::InvalidShaderSource)
    ));
    let stages = vec![file_stage(EnumShaderStage::Vertex, "res/shaders/missing.vert")];
    assert!(matches!(
        Shader::new(
            stages,
            &vec![report(Err(EnumShaderError::FileNotFound), "missing.vert", "missing", "vert", false)],
            460,
            "",
            EnumRendererApi::OpenGL
        ),
        Err(EnumShaderError::FileNotFound)
    ));
}

#[test]
fn shader_language_comes_from_the_first_prepared_stage() {
    let stages = vec![file_stage(EnumShaderStage::Vertex, "res/shaders/a.vert")];
    let reports = vec![report(Ok(VERT), "a.vert", "a", "vert", false)];
    let s = Shader::new(stages.clone(), &reports, 460, "#version 460\n#extension GL_SPIRV : enable", EnumRendererApi::OpenGL).unwrap();
    assert_eq!(s.get_lang(), EnumShaderLanguageType::GlslSpirV);
    let s = Shader::new(stages, &reports, 460, VERT, EnumRendererApi::OpenGL).unwrap();
    assert_eq!(s.get_lang(), EnumShaderLanguageType::Glsl);
    let spv = vec![file_stage(EnumShaderStage::Vertex, "res/shaders/a.spv")];
    let s = Shader::new(spv, &vec![report(Ok(VERT), "a.spv", "a", "spv", true)], 460, "", EnumRendererApi::OpenGL).unwrap();
    assert_eq!(s.get_lang(), EnumShaderLanguageType::SpirV);
}
