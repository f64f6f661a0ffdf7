use vstd::prelude::*;

use crate::layout::VertexAttribute;

verus! {

/// The two programmable stages that a shader program links together.
#[derive(PartialEq, Eq, Structural, Clone, Copy, Debug)]
pub enum StageKind {
    Vertex,
    Fragment,
}

/// A buffer binding point.
#[derive(PartialEq, Eq, Structural, Clone, Copy, Debug)]
pub enum BufferTarget {
    /// Vertex records.
    Array,
    /// Triangle indices.
    Element,
}

/// A texture parameter of the fixed sampling policy.
#[derive(PartialEq, Eq, Structural, Clone, Copy, Debug)]
pub enum TexParam {
    WrapS,
    WrapT,
    MinFilter,
    MagFilter,
}

/// A value for a texture parameter.
#[derive(PartialEq, Eq, Structural, Clone, Copy, Debug)]
pub enum TexValue {
    Repeat,
    Linear,
    LinearMipmapLinear,
}

/// One call on the graphics device. Plans are sequences of these, executed in
/// order. Bulk data (shader text, vertex words, indices, pixels) stays with the
/// object the plan belongs to; the command only says when to hand it over.
#[derive(PartialEq, Eq, Structural, Clone, Copy, Debug)]
pub enum Command {
    /// Create a shader object of the given kind; answered by `Reply::Handle`.
    CreateShader { kind: StageKind },
    /// Hand the source text of `kind` to `shader` and compile it.
    CompileShader { shader: u32, kind: StageKind },
    /// Query the compile status and info log of `shader`; answered by `Reply::Status`.
    QueryCompileStatus { shader: u32 },
    DeleteShader { shader: u32 },
    /// Create a program object; answered by `Reply::Handle`.
    CreateProgram,
    AttachShader { program: u32, shader: u32 },
    LinkProgram { program: u32 },
    /// Query the link status and info log of `program`; answered by `Reply::Status`.
    QueryLinkStatus { program: u32 },
    DetachShader { program: u32, shader: u32 },
    DeleteProgram { program: u32 },
    UseProgram { program: u32 },
    /// Set the sampler uniform at `location` of the current program to `unit`.
    SetSampler { location: i32, unit: u32 },
    BindVertexArray { array: u32 },
    BindBuffer { target: BufferTarget, buffer: u32 },
    /// Upload the owning object's vertex words to the bound array buffer (static use).
    UploadVertices,
    /// Upload the owning object's indices to the bound element buffer (static use).
    UploadIndices,
    /// Describe one vertex attribute of the bound vertex buffer.
    AttribPointer { attribute: VertexAttribute },
    EnableAttrib { location: u32 },
    ActiveTexture { unit: u32 },
    BindTexture { texture: u32 },
    TexParameter { param: TexParam, value: TexValue },
    /// Row alignment, in bytes, of pixel data handed to the device.
    UnpackAlignment { bytes: u32 },
    /// Upload the owning texture's 8-bit RGB pixels to the bound texture.
    UploadPixels { width: u32, height: u32 },
    GenerateMipmap,
    /// Indexed draw: triangle list, 32-bit unsigned indices, from offset 0.
    DrawTriangles { count: u32 },
    Viewport { x: i32, y: i32, width: i32, height: i32 },
    ClearColor,
    SwapBuffers,
    DeleteVertexArray { array: u32 },
    DeleteBuffer { buffer: u32 },
    DeleteTexture { texture: u32 },
}

/// What the device answered to the last command of a plan that asks something.
#[derive(Clone, Debug)]
pub enum Reply {
    /// A freshly created object name; zero means the device could not allocate one.
    Handle(u32),
    /// A compile or link status, read from the device, with its info log.
    Status { ok: bool, log: String },
}

} // verus!
