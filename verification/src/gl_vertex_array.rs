//! Vertex array objects and the buffers attached to them.
use vstd::prelude::*;

use crate::command::GlCommand;
use crate::gl_buffers::{IndexBuffer, VertexBuffer};

verus! {

/// A vertex array object, by its GL name, with the vertex buffer and the
/// index buffer it owns, if any.
#[derive(Debug)]
pub struct VertexArray {
    pub id: u32,
    pub vbo: Option<VertexBuffer>,
    pub ebo: Option<IndexBuffer>,
}

impl VertexArray {
    /// The vertex array named `id`, as `glGenVertexArrays` gave it, with no
    /// buffers attached yet.
    pub fn new(id: u32) -> (array: Self)
        ensures
            array.id == id,
            array.vbo is None,
            array.ebo is None,
    {
        VertexArray { id, vbo: None, ebo: None }
    }

    /// Binds this vertex array.
    pub fn bind(&self) -> (cmd: GlCommand)
        ensures
            cmd == (GlCommand::BindVertexArray { array: self.id }),
    {
        GlCommand::BindVertexArray { array: self.id }
    }

    /// Unbinds whatever vertex array is bound.
    pub fn unbind(&self) -> (cmd: GlCommand)
        ensures
            cmd == (GlCommand::BindVertexArray { array: 0 }),
    {
        GlCommand::BindVertexArray { array: 0 }
    }

    /// Attaches `vbo` as this array's vertex buffer. A vertex buffer attached
    /// before is let go of and deleted: the returned call deletes it, and
    /// there is no call when there was none. Nothing else changes.
    pub fn set_vbo(&mut self, vbo: VertexBuffer) -> (cmds: Vec<GlCommand>)
        ensures
            final(self).vbo == Some(vbo),
            final(self).id == old(self).id,
            final(self).ebo == old(self).ebo,
            cmds@ == (match old(self).vbo {
                Some(replaced) => seq![GlCommand::DeleteBuffers { buffer: replaced.id }],
                None => Seq::<GlCommand>::empty(),
            }),
    {
        let mut cmds: Vec<GlCommand> = Vec::new();
        match &self.vbo {
            Some(replaced) => {
                cmds.push(replaced.release());
            },
            None => {},
        }
        self.vbo = Some(vbo);
        cmds
    }

    /// Attaches `ebo` as this array's index buffer, replacing any previous
    /// one without deleting it; nothing else changes.
    pub fn set_ebo(&mut self, ebo: IndexBuffer)
        ensures
            final(self).ebo == Some(ebo),
            final(self).id == old(self).id,
            final(self).vbo == old(self).vbo,
    {
        self.ebo = Some(ebo);
    }

    /// Deletes this vertex array and then the vertex buffer it owns, if any.
    /// The index buffer is not deleted here.
    pub fn release(&self) -> (cmds: Vec<GlCommand>)
        ensures
            cmds@ == (match self.vbo {
                Some(vbo) => seq![
                    GlCommand::DeleteVertexArrays { array: self.id },
                    GlCommand::DeleteBuffers { buffer: vbo.id },
                ],
                None => seq![GlCommand::DeleteVertexArrays { array: self.id }],
            }),
    {
        let mut cmds: Vec<GlCommand> = Vec::new();
        cmds.push(GlCommand::DeleteVertexArrays { array: self.id });
        match &self.vbo {
            Some(vbo) => {
                cmds.push(vbo.release());
            },
            None => {},
        }
        cmds
    }
}

} // verus!
