//! The OpenGL calls that the library decides on, as plain values.
//!
//! The library never talks to a GL context itself: each operation returns the
//! calls it makes, in order, and whoever owns the context performs them. A call
//! that produces a value (a new object name, a status, a log) is answered with a
//! [`GlReply`].
use vstd::prelude::*;

verus! {

/// `GL_FALSE`.
pub const GL_FALSE: u8 = 0;

/// `GL_FLOAT`.
pub const GL_FLOAT: u32 = 0x1406;

/// `GL_ARRAY_BUFFER`.
pub const GL_ARRAY_BUFFER: u32 = 0x8892;

/// `GL_DYNAMIC_DRAW`.
pub const GL_DYNAMIC_DRAW: u32 = 0x88E8;

/// `GL_FRAGMENT_SHADER`.
pub const GL_FRAGMENT_SHADER: u32 = 0x8B30;

/// `GL_VERTEX_SHADER`.
pub const GL_VERTEX_SHADER: u32 = 0x8B31;

/// `GL_COMPILE_STATUS`.
pub const GL_COMPILE_STATUS: u32 = 0x8B81;

/// `GL_LINK_STATUS`.
pub const GL_LINK_STATUS: u32 = 0x8B82;

/// Capacity, in bytes, of the buffer an info log is read into.
pub const INFO_LOG_CAPACITY: i32 = 512;

/// One OpenGL call with its arguments.
///
/// `BufferData` uploads nothing (a null data pointer); `BufferSubData` uploads
/// `size` bytes that the caller of the library supplies. In
/// `VertexAttribPointer`, GL's last argument is the address of an `i32` that
/// holds `offset`, not the offset itself.
#[derive(Clone, Debug, PartialEq, Eq)]
#[allow(inconsistent_fields)]
pub enum GlCommand {
    BindBuffer { target: u32, buffer: u32 },
    BufferData { target: u32, size: isize, usage: u32 },
    BufferSubData { target: u32, offset: isize, size: isize },
    VertexAttribPointer { index: u32, size: i32, kind: u32, normalized: u8, stride: i32, offset: i32 },
    EnableVertexAttribArray { index: u32 },
    DeleteBuffers { buffer: u32 },
    BindVertexArray { array: u32 },
    DeleteVertexArrays { array: u32 },
    UseProgram { program: u32 },
    DeleteProgram { program: u32 },
    /// Answered with [`GlReply::Name`].
    CreateShader { kind: u32 },
    ShaderSource { shader: u32, source: String },
    CompileShader { shader: u32 },
    /// Answered with [`GlReply::Status`].
    GetShaderiv { shader: u32, pname: u32 },
    /// Answered with [`GlReply::Log`].
    GetShaderInfoLog { shader: u32, max_length: i32 },
    /// Answered with [`GlReply::Name`].
    CreateProgram,
    AttachShader { program: u32, shader: u32 },
    LinkProgram { program: u32 },
    /// Answered with [`GlReply::Status`].
    GetProgramiv { program: u32, pname: u32 },
    /// Answered with [`GlReply::Log`].
    GetProgramInfoLog { program: u32, max_length: i32 },
    DeleteShader { shader: u32 },
    /// Answered with [`GlReply::Location`].
    GetUniformLocation { program: u32, name: String },
}

/// What a GL call that produces a value gave back.
#[derive(Clone, Debug, PartialEq, Eq)]
pub enum GlReply {
    /// The name of a newly created object.
    Name(u32),
    /// An integer parameter such as a compile or link status.
    Status(i32),
    /// The text of an info log.
    Log(String),
    /// The location of a uniform variable.
    Location(i32),
}

} // verus!
