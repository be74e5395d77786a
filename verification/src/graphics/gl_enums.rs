//! The OpenGL enumerant values the back end plans its calls with, as the
//! OpenGL registry defines them.

use vstd::prelude::*;

verus! {

pub const GL_NO_ERROR: u32 = 0x0;
pub const GL_FALSE: u8 = 0;
pub const GL_TRUE: u8 = 1;
pub const GL_INVALID_INDEX: u32 = 0xFFFFFFFF;

// Data types.
pub const GL_BYTE: u32 = 0x1400;
pub const GL_UNSIGNED_BYTE: u32 = 0x1401;
pub const GL_SHORT: u32 = 0x1402;
pub const GL_UNSIGNED_SHORT: u32 = 0x1403;
pub const GL_INT: u32 = 0x1404;
pub const GL_UNSIGNED_INT: u32 = 0x1405;
pub const GL_FLOAT: u32 = 0x1406;
pub const GL_DOUBLE: u32 = 0x140A;

// Buffer targets.
pub const GL_ARRAY_BUFFER: u32 = 0x8892;
pub const GL_ELEMENT_ARRAY_BUFFER: u32 = 0x8893;
pub const GL_UNIFORM_BUFFER: u32 = 0x8A11;
pub const GL_DRAW_INDIRECT_BUFFER: u32 = 0x8F3F;

// Capabilities.
pub const GL_CULL_FACE: u32 = 0x0B44;
pub const GL_DEPTH_TEST: u32 = 0x0B71;
pub const GL_BLEND: u32 = 0x0BE2;
pub const GL_MULTISAMPLE: u32 = 0x809D;
pub const GL_DEBUG_OUTPUT_SYNCHRONOUS: u32 = 0x8242;
pub const GL_FRAMEBUFFER_SRGB: u32 = 0x8DB9;
pub const GL_DEBUG_OUTPUT: u32 = 0x92E0;

// Faces and polygon modes.
pub const GL_FRONT: u32 = 0x0404;
pub const GL_BACK: u32 = 0x0405;
pub const GL_FRONT_AND_BACK: u32 = 0x0408;
pub const GL_POINT: u32 = 0x1B00;
pub const GL_LINE: u32 = 0x1B01;
pub const GL_FILL: u32 = 0x1B02;

// Blending factors.
pub const GL_ZERO: u32 = 0;
pub const GL_ONE: u32 = 1;
pub const GL_SRC_COLOR: u32 = 0x0300;
pub const GL_ONE_MINUS_SRC_COLOR: u32 = 0x0301;
pub const GL_SRC_ALPHA: u32 = 0x0302;
pub const GL_ONE_MINUS_SRC_ALPHA: u32 = 0x0303;
pub const GL_DST_ALPHA: u32 = 0x0304;
pub const GL_ONE_MINUS_DST_ALPHA: u32 = 0x0305;
pub const GL_DST_COLOR: u32 = 0x0306;
pub const GL_ONE_MINUS_DST_COLOR: u32 = 0x0307;
pub const GL_CONSTANT_COLOR: u32 = 0x8001;
pub const GL_ONE_MINUS_CONSTANT_COLOR: u32 = 0x8002;
pub const GL_CONSTANT_ALPHA: u32 = 0x8003;
pub const GL_ONE_MINUS_CONSTANT_ALPHA: u32 = 0x8004;

// Primitive modes.
pub const GL_POINTS: u32 = 0x0;
pub const GL_LINES: u32 = 0x1;
pub const GL_LINE_LOOP: u32 = 0x2;
pub const GL_LINE_STRIP: u32 = 0x3;
pub const GL_TRIANGLES: u32 = 0x4;
pub const GL_TRIANGLE_STRIP: u32 = 0x5;
pub const GL_TRIANGLE_FAN: u32 = 0x6;
pub const GL_LINES_ADJACENCY: u32 = 0xA;
pub const GL_LINE_STRIP_ADJACENCY: u32 = 0xB;
pub const GL_TRIANGLES_ADJACENCY: u32 = 0xC;
pub const GL_TRIANGLE_STRIP_ADJACENCY: u32 = 0xD;

// Debug message types and severities.
pub const GL_DEBUG_TYPE_ERROR: u32 = 0x824C;
pub const GL_DEBUG_TYPE_DEPRECATED_BEHAVIOR: u32 = 0x824D;
pub const GL_DEBUG_TYPE_UNDEFINED_BEHAVIOR: u32 = 0x824E;
pub const GL_DEBUG_TYPE_PORTABILITY: u32 = 0x824F;
pub const GL_DEBUG_TYPE_PERFORMANCE: u32 = 0x8250;
pub const GL_DEBUG_TYPE_OTHER: u32 = 0x8251;
pub const GL_DEBUG_TYPE_MARKER: u32 = 0x8268;
pub const GL_DEBUG_TYPE_PUSH_GROUP: u32 = 0x8269;
pub const GL_DEBUG_TYPE_POP_GROUP: u32 = 0x826A;
pub const GL_DEBUG_SEVERITY_NOTIFICATION: u32 = 0x826B;
pub const GL_DEBUG_SEVERITY_HIGH: u32 = 0x9146;
pub const GL_DEBUG_SEVERITY_MEDIUM: u32 = 0x9147;
pub const GL_DEBUG_SEVERITY_LOW: u32 = 0x9148;

// Texture targets and pixel formats.
pub const GL_TEXTURE_1D: u32 = 0x0DE0;
pub const GL_TEXTURE_2D: u32 = 0x0DE1;
pub const GL_TEXTURE_3D: u32 = 0x806F;
pub const GL_RED: u32 = 0x1903;
pub const GL_RGB: u32 = 0x1907;
pub const GL_RGBA: u32 = 0x1908;
pub const GL_BGR: u32 = 0x80E0;
pub const GL_BGRA: u32 = 0x80E1;
pub const GL_RG: u32 = 0x8227;

pub const GL_TEXTURE_RECTANGLE: u32 = 0x84F5;
pub const GL_PROXY_TEXTURE_RECTANGLE: u32 = 0x84F7;
pub const GL_TEXTURE_CUBE_MAP: u32 = 0x8513;
pub const GL_PROXY_TEXTURE_CUBE_MAP: u32 = 0x851B;
pub const GL_PROXY_TEXTURE_2D: u32 = 0x8064;
pub const GL_TEXTURE_1D_ARRAY: u32 = 0x8C18;
pub const GL_PROXY_TEXTURE_1D_ARRAY: u32 = 0x8C19;
pub const GL_TEXTURE_2D_ARRAY: u32 = 0x8C1A;
pub const GL_TEXTURE_CUBE_MAP_ARRAY: u32 = 0x9009;
pub const GL_TEXTURE_2D_MULTISAMPLE: u32 = 0x9100;
pub const GL_TEXTURE_2D_MULTISAMPLE_ARRAY: u32 = 0x9102;
pub const GL_R8: u32 = 0x8229;
pub const GL_RG8: u32 = 0x822B;
pub const GL_RGB8: u32 = 0x8051;
pub const GL_RGBA8: u32 = 0x8058;
pub const GL_BGR_INTEGER: u32 = 0x8D9A;
pub const GL_BGRA_INTEGER: u32 = 0x8D9B;
pub const GL_UNSIGNED_BYTE_3_3_2: u32 = 0x8032;
pub const GL_UNSIGNED_SHORT_4_4_4_4: u32 = 0x8033;
pub const GL_UNSIGNED_SHORT_5_5_5_1: u32 = 0x8034;
pub const GL_UNSIGNED_INT_8_8_8_8: u32 = 0x8035;
pub const GL_UNSIGNED_INT_10_10_10_2: u32 = 0x8036;
pub const GL_UNSIGNED_BYTE_2_3_3_REV: u32 = 0x8362;
pub const GL_UNSIGNED_SHORT_5_6_5: u32 = 0x8363;
pub const GL_UNSIGNED_SHORT_5_6_5_REV: u32 = 0x8364;
pub const GL_UNSIGNED_SHORT_4_4_4_4_REV: u32 = 0x8365;
pub const GL_UNSIGNED_SHORT_1_5_5_5_REV: u32 = 0x8366;
pub const GL_UNSIGNED_INT_8_8_8_8_REV: u32 = 0x8367;
pub const GL_UNSIGNED_INT_2_10_10_10_REV: u32 = 0x8368;

// Texture parameters.
pub const GL_TEXTURE0: u32 = 0x84C0;
pub const GL_TEXTURE_MAG_FILTER: u32 = 0x2800;
pub const GL_TEXTURE_MIN_FILTER: u32 = 0x2801;
pub const GL_TEXTURE_WRAP_S: u32 = 0x2802;
pub const GL_TEXTURE_WRAP_T: u32 = 0x2803;
pub const GL_TEXTURE_WRAP_R: u32 = 0x8072;
pub const GL_LINEAR: u32 = 0x2601;
pub const GL_LINEAR_MIPMAP_NEAREST: u32 = 0x2701;
pub const GL_REPEAT: u32 = 0x2901;
pub const GL_CLAMP_TO_BORDER: u32 = 0x812D;
pub const GL_UNPACK_ALIGNMENT: u32 = 0x0CF5;

} // verus!
