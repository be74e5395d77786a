use wave_engine::graphics::gl_shader::{
    binary_formats_text, check_binary_formats, check_binary_stage, check_compile_status, check_link_status, GlShader,
};
use wave_engine::graphics::shader::{EnumError, EnumShaderError, EnumShaderSource, EnumShaderStage, ShaderStage};

fn stage(kind: EnumShaderStage, path: &str) -> ShaderStage {
    ShaderStage::new(kind, EnumShaderSource::FromFile(path.to_string()))
}

#[test]
fn gl_shader_keeps_each_stage_once() {
    let mut cached = stage(EnumShaderStage::Fragment, "cache/a.frag.spv");
    cached.m_is_cached = true;
    let g = GlShader::new(vec![
        stage(EnumShaderStage::Vertex, "a.vert"),
        stage(EnumShaderStage::Vertex, "a.vert"),
        cached,
        stage(EnumShaderStage::Vertex, "b.vert"),
    ]);
    assert_eq!(g.m_shader_stages.len(), 3);
    assert_eq!(g.cached_stages(), vec![1]);
    assert_eq!(g.m_program_id, 0);
}

#[test]
fn gl_shader_ids_and_uniforms() {
    let mut g = GlShader::new(vec![stage(EnumShaderStage::Vertex, "a.vert")]);
    assert_eq!(
        g.record_shader_id(EnumShaderStage::Vertex, 0),
        Err(EnumShaderError::OpenGLShaderError(EnumError::ShaderSourcingError))
    );
    assert_eq!(g.shader_id(EnumShaderStage::Vertex), None);
    assert_eq!(g.record_shader_id(EnumShaderStage::Vertex, 4), Ok(()));
    assert_eq!(g.record_shader_id(EnumShaderStage::Fragment, 5), Ok(()));
    assert_eq!(g.record_shader_id(EnumShaderStage::Vertex, 6), Ok(()));
    assert_eq!(g.shader_id(EnumShaderStage::Vertex), Some(6));
    assert_eq!(g.shader_id(EnumShaderStage::Fragment), Some(5));
    assert_eq!(g.shader_id(EnumShaderStage::Compute), None);
    // A kind named again keeps only its latest name.
    assert_eq!(g.m_shader_ids, vec![(EnumShaderStage::Fragment, 5), (EnumShaderStage::Vertex, 6)]);
    g.set_program(9);
    assert_eq!(g.m_program_id, 9);
    assert_eq!(g.uniform_location("u_model"), None);
    assert_eq!(g.cache_uniform("u_model", -1), Err(EnumShaderError::OpenGLShaderError(EnumError::UniformNotFound)));
    assert_eq!(g.cache_uniform("u_model", 3), Ok(()));
    assert_eq!(g.uniform_location("u_model"), Some(3));
    assert_eq!(g.cache_uniform("u_model", 7), Ok(()));
    assert_eq!(g.uniform_location("u_model"), Some(7));
    assert_eq!(g.m_uniform_cache.len(), 1);
    assert_eq!(g.uniform_location("u_view"), None);
}

#[test]
fn gl_shader_description() {
    let mut cached = stage(EnumShaderStage::Fragment, "cache/a.frag.spv");
    cached.m_is_cached = true;
    let g = GlShader::new(vec![stage(EnumShaderStage::Vertex, "a.vert"), cached]);
    let pad = " ".repeat(117);
    assert_eq!(
        g.to_string(),
        format!(
            "\n{pad}[GlShader] |Vertex| (File : a.vert, false)\n{pad}[GlShader] |Fragment| (File : cache/a.frag.spv, true)"
        )
    );
}

#[test]
fn gl_shader_status_checks() {
    assert_eq!(check_compile_status(1), Ok(()));
    assert_eq!(check_compile_status(0), Err(EnumShaderError::OpenGLShaderError(EnumError::ShaderSyntaxError)));
    assert_eq!(check_compile_status(256), Err(EnumShaderError::OpenGLShaderError(EnumError::ShaderSyntaxError)));
    assert_eq!(check_link_status(0), Err(EnumShaderError::OpenGLShaderError(EnumError::ProgramCreationError)));
    assert_eq!(check_link_status(1), Ok(()));
    assert_eq!(check_binary_formats(0), Err(EnumShaderError::OpenGLShaderError(EnumError::NoBinaryFormatsError)));
    assert_eq!(check_binary_formats(2), Ok(()));
    assert_eq!(check_binary_stage(0, 1), Err(EnumShaderError::ShaderBinaryError));
    assert_eq!(check_binary_stage(1, 0), Err(EnumShaderError::OpenGLShaderError(EnumError::ShaderBinaryCompilationError)));
    assert_eq!(check_binary_stage(1, 1), Ok(()));
    assert_eq!(binary_formats_text(&vec![]), "[]");
    assert_eq!(binary_formats_text(&vec![0x9551]), "[0x9551]");
    assert_eq!(binary_formats_text(&vec![0x9551, 10, -1]), "[0x9551, 0xA, 0xFFFFFFFF]");
    assert_eq!(binary_formats_text(&vec![0]), format!("[0x{:X}]", 0));
}
