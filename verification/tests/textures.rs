use wave_engine::graphics::gl_enums::{
    GL_BGRA, GL_LINEAR, GL_LINEAR_MIPMAP_NEAREST, GL_REPEAT, GL_RGB, GL_RGB8, GL_RGBA, GL_RGBA8, GL_TEXTURE0,
    GL_TEXTURE_2D, GL_TEXTURE_2D_ARRAY, GL_TEXTURE_2D_MULTISAMPLE, GL_TEXTURE_MAG_FILTER, GL_TEXTURE_MIN_FILTER,
    GL_TEXTURE_WRAP_R, GL_TEXTURE_WRAP_S, GL_TEXTURE_WRAP_T, GL_UNPACK_ALIGNMENT, GL_UNSIGNED_BYTE,
    GL_UNSIGNED_INT_8_8_8_8,
};
use wave_engine::graphics::renderer::EnumRendererApi;
use wave_engine::graphics::texture::{
    convert_format_to_internal_format, convert_target_to_internal_target, convert_type_to_internal_type,
    EnumTexData, EnumTextureDataAlignment, EnumTextureFormat, EnumTextureHint, EnumTextureInfo, EnumTextureState,
    EnumTextureTarget, GlTexture, GlTextureCall, Texture, TextureArray, TextureInfo,
};

fn image(w: u32, h: u32, slot: u16) -> TextureInfo {
    TextureInfo {
        m_type: EnumTextureInfo::Texture2D(
            EnumTextureTarget::Texture2D,
            0,
            EnumTextureFormat::Rgba,
            w,
            h,
            EnumTextureDataAlignment::UnsignedByte,
            slot,
        ),
        m_width: w as usize,
        m_height: h as usize,
        m_depth: 4,
        m_data: vec![1, 2, 3, 4],
    }
}

#[test]
fn texture_info_getters() {
    let i = EnumTextureInfo::Texture3D(
        EnumTextureTarget::Texture3D,
        2,
        EnumTextureFormat::Bgr,
        8,
        9,
        10,
        EnumTextureDataAlignment::Short,
        3,
    );
    assert_eq!(i.get_target(), EnumTextureTarget::Texture3D);
    assert_eq!(i.get_format(), EnumTextureFormat::Bgr);
    assert_eq!(i.get_mipmap_level(), 2);
    assert_eq!((i.get_width(), i.get_height(), i.get_depth()), (8, 9, 10));
    assert_eq!(i.get_data_type(), EnumTextureDataAlignment::Short);
    assert_eq!(i.get_slot(), 3);
    assert_eq!(EnumTextureTarget::default(), EnumTextureTarget::Texture2D);
    assert_eq!(EnumTextureFormat::default(), EnumTextureFormat::Rgb);
}

#[test]
fn texture_conversions() {
    assert_eq!(convert_target_to_internal_target(EnumTextureTarget::Texture2D), (GL_TEXTURE_2D, None));
    assert_eq!(convert_target_to_internal_target(EnumTextureTarget::Texture2DMs(4)), (GL_TEXTURE_2D_MULTISAMPLE, Some(4)));
    assert_eq!(convert_format_to_internal_format(EnumTextureFormat::Rgb), (GL_RGB, GL_RGB8));
    assert_eq!(convert_format_to_internal_format(EnumTextureFormat::Rgba).0, GL_RGBA);
    assert_eq!(convert_format_to_internal_format(EnumTextureFormat::Bgra), (gl::BGRA_INTEGER, GL_BGRA));
    assert_eq!(convert_type_to_internal_type(EnumTextureDataAlignment::UnsignedByte), GL_UNSIGNED_BYTE);
    assert_eq!(convert_type_to_internal_type(EnumTextureDataAlignment::UnsignedInt8888), GL_UNSIGNED_INT_8_8_8_8);
}

#[test]
fn texture_array_stacks_layers_by_depth() {
    let mut arr = TextureArray::new(EnumRendererApi::OpenGL, vec![image(4, 4, 0), image(4, 4, 0)]);
    assert_eq!(arr.get_current_depth(), 2);
    assert_eq!(arr.m_textures[1].m_type.get_depth(), 1);
    assert_eq!(arr.m_textures[0].m_data, vec![1, 2, 3, 4]);
    arr.append(vec![image(2, 2, 0)]);
    assert_eq!(arr.get_current_depth(), 3);
    assert_eq!(arr.m_textures[2].m_type.get_depth(), 2);
    assert_eq!(arr.m_textures[2].m_type.get_width(), 2);
    let info = arr.as_texture_info();
    assert_eq!((info.m_width, info.m_height, info.m_depth), (4, 4, 3));
    match &info.m_type {
        EnumTextureInfo::TextureArray(v) => {
            assert_eq!(v.len(), 3);
            assert_eq!(v[2].0.get_depth(), 2);
            assert_eq!(v[2].1, vec![1, 2, 3, 4]);
        }
        _ => panic!("expected an array"),
    }
}

#[test]
fn gl_texture_store_calls() {
    let g = GlTexture::new(image(16, 8, 2));
    assert_eq!((g.m_internal_target, g.m_format, g.m_internal_format, g.m_slot), (GL_TEXTURE_2D, GL_RGBA, GL_RGBA8, 2));
    let mut t = Texture::new(image(16, 8, 2), 11);
    assert_eq!(t.m_state, EnumTextureState::Created);
    let calls = t.apply(5).unwrap();
    assert_eq!(
        calls,
        vec![
            GlTextureCall::ActiveTexture(GL_TEXTURE0 + 2),
            GlTextureCall::BindTexture(GL_TEXTURE_2D, 5),
            GlTextureCall::TexParameteri(GL_TEXTURE_2D, GL_TEXTURE_MAG_FILTER, GL_LINEAR as i32),
            GlTextureCall::TexParameteri(GL_TEXTURE_2D, GL_TEXTURE_MIN_FILTER, GL_LINEAR_MIPMAP_NEAREST as i32),
            GlTextureCall::TexParameteri(GL_TEXTURE_2D, GL_TEXTURE_WRAP_S, GL_REPEAT as i32),
            GlTextureCall::TexParameteri(GL_TEXTURE_2D, GL_TEXTURE_WRAP_T, GL_REPEAT as i32),
            GlTextureCall::TexParameteri(GL_TEXTURE_2D, GL_TEXTURE_WRAP_R, GL_REPEAT as i32),
            GlTextureCall::TexImage2D(GL_TEXTURE_2D, 0, GL_RGBA8 as i32, 16, 8, GL_RGBA, GL_UNSIGNED_BYTE, EnumTexData::Image),
        ]
    );
    assert_eq!(t.m_state, EnumTextureState::Sent);
    assert!(t.apply(6).is_none());
    assert_eq!(
        t.free().unwrap(),
        vec![GlTextureCall::BindTexture(GL_TEXTURE_2D, 0), GlTextureCall::DeleteTexture(5)]
    );
    assert_eq!(t.m_state, EnumTextureState::Deleted);
    assert!(t.free().is_none());
}

#[test]
fn odd_channel_count_relaxes_alignment() {
    let mut info = image(3, 3, 0);
    info.m_depth = 3;
    let mut g = GlTexture::new(info);
    let calls = g.apply(1);
    assert!(calls.contains(&GlTextureCall::PixelStorei(GL_UNPACK_ALIGNMENT, 1)));
    assert_eq!(g.m_id, 1);
}

#[test]
fn texture_array_upload_reserves_then_fills_layers() {
    let arr = TextureArray::new(EnumRendererApi::OpenGL, vec![image(4, 4, 0), image(4, 4, 0)]);
    let mut g = GlTexture::new(arr.as_texture_info());
    assert_eq!(g.m_internal_target, GL_TEXTURE_2D_ARRAY);
    let calls = g.apply(3);
    assert_eq!(*calls.last().unwrap(), GlTextureCall::GenerateMipmap(GL_TEXTURE_2D_ARRAY));
    assert!(calls.iter().any(|c| matches!(c, GlTextureCall::TexImage3D(_, _, _, 4, 4, 2, _, _, EnumTexData::Empty))));
    let layers = calls.iter().filter(|c| matches!(c, GlTextureCall::TexSubImage3D(..))).count();
    assert_eq!(layers, 2);
}

#[test]
fn texture_hints_and_size() {
    let mut t = Texture::new(image(4, 2, 0), 1);
    t.set_hint(EnumTextureHint::BatchTextures(true));
    t.set_hint(EnumTextureHint::BatchTextures(false));
    t.set_hint(EnumTextureHint::BatchTextures(true));
    assert_eq!(t.m_hints, vec![EnumTextureHint::BatchTextures(false), EnumTextureHint::BatchTextures(true)]);
    t.reset_hints();
    assert!(t.m_hints.is_empty());
    assert_eq!(t.get_size(), (4, 2));
    t.set_depth(9);
    assert_eq!(t.m_api.m_texture.m_depth, 9);
    assert_eq!(t.get_depth(), 0);
    let d = GlTexture::default();
    assert_eq!((d.m_slot, d.m_internal_target), (7, GL_TEXTURE_2D_ARRAY));
}
