//! What has to happen once, before the first tick.

use vstd::prelude::*;
use crate::frame::{startup_commands, Command, RendererState};
use crate::renderer::Renderer;
use crate::seed::is_seed;
use crate::texture::Buffer;
use crate::upload::{seeds_texture, TextureUpload};

verus! {

/// The state to start from and the work that seeds it.
#[derive(Debug)]
pub struct Startup {
    /// The state before the first tick.
    pub state: RendererState,
    /// The first generation, row by row.
    pub pattern: Vec<u32>,
    /// The copy that brings the first generation into its state texture.
    pub upload: TextureUpload,
    /// The commands to record and to submit before the first tick.
    pub commands: Vec<Command>,
}

/// Whether `startup` starts a simulation of `renderer`'s grid from
/// `pattern`: both state textures have the grid's size, the first one is
/// current, and the only command submitted is the copy of `pattern` into it.
pub open spec fn starts_from(renderer: Renderer, pattern: Seq<u32>, startup: Startup) -> bool {
    &&& startup.state.wf()
    &&& startup.state.renderer() == renderer
    &&& startup.state.current() == Buffer::A
    &&& startup.pattern@ == pattern
    &&& seeds_texture(renderer, pattern, startup.upload)
    &&& startup.commands@ == startup_commands()
}

impl Renderer {
    /// Starts a simulation of this grid with `pattern` as its first
    /// generation: one value for each cell, row by row.
    pub fn start_from(&self, pattern: Vec<u32>) -> (startup: Startup)
        requires
            pattern@.len() == self.width() * self.height(),
        ensures
            starts_from(*self, pattern@, startup),
    {
        let upload = self.init_texture(pattern.as_slice());
        let mut commands: Vec<Command> = Vec::new();
        commands.push(Command::CopyBufferToTexture { target: Buffer::A });
        Startup { state: self.init_state(), pattern, upload, commands }
    }

    /// Starts a simulation of this grid with a fresh random pattern as its
    /// first generation.
    pub fn start(&self) -> (startup: Startup)
        ensures
            starts_from(*self, startup.pattern@, startup),
            is_seed(startup.pattern@, self.width() * self.height()),
    {
        let pattern = self.seed();
        self.start_from(pattern)
    }
}

} // verus!
