//! Shader program handles.
//!
//! Compiling and linking the GLSL programs needs a live GPU context, so the
//! embedding does it and hands the resulting ids over in these structs. The
//! pipeline only ever reads the fields back into its command stream.

use vstd::prelude::*;

verus! {

/// A linked shader program for plain triangles: just its GPU program id.
#[derive(Clone, Copy, PartialEq, Eq, Structural, Debug)]
pub struct TriShaderProgram {
    pub id: u32,
}

/// The glyph shader program together with the GPU objects the text pipeline
/// draws through: the projection uniform's location and the shared vertex
/// array and dynamic vertex buffer that every glyph quad is streamed into.
#[derive(Clone, Copy, PartialEq, Eq, Structural, Debug)]
pub struct CharShaderProgram {
    pub id: u32,
    pub projection: i32,
    pub vao: u32,
    pub vbo: u32,
}

} // verus!
