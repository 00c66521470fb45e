//! The Frame Driver: which state texture a tick reads, which it writes, and
//! what it hands to the display.

use vstd::prelude::*;
use crate::bytes::{in_memory, words_to_bytes};
use crate::display::{black, Rgba};
use crate::layout::{groups_needed, workgroup_count};
use crate::renderer::Renderer;
use crate::texture::{create_texture, state_texture, Buffer, TextureSpec};

verus! {

/// The number of vertices of the triangle that covers the whole viewport.
pub const TRIANGLE_VERTICES: u32 = 3;

/// One step of a command sequence that is submitted to the device queue.
#[derive(Clone, Copy, Debug, PartialEq, Eq, Structural)]
pub enum Command {
    /// Copy the staged seed into the state texture `target`.
    CopyBufferToTexture { target: Buffer },
    /// Run the simulation stage over the grid: read generation N from
    /// `source`, write generation N+1 to `destination`.
    Dispatch { source: Buffer, destination: Buffer, groups_x: u32, groups_y: u32, groups_z: u32 },
    /// Clear the presentable image to `clear` and draw the state texture
    /// `image` onto it.
    Draw { image: Buffer, clear: Rgba, vertices: u32, instances: u32 },
}

impl Command {
    /// Whether the command reads the contents of `texture`.
    pub open spec fn reads(self, texture: Buffer) -> bool {
        match self {
            Command::CopyBufferToTexture { .. } => false,
            Command::Dispatch { source, .. } => source == texture,
            Command::Draw { image, .. } => image == texture,
        }
    }

    /// Whether the command writes every cell of `texture`.
    pub open spec fn writes(self, texture: Buffer) -> bool {
        match self {
            Command::CopyBufferToTexture { target } => target == texture,
            Command::Dispatch { destination, .. } => destination == texture,
            Command::Draw { .. } => false,
        }
    }
}

/// The command sequence that is submitted once, before the first tick: the
/// copy that seeds the first state texture.
pub open spec fn startup_commands() -> Seq<Command> {
    seq![Command::CopyBufferToTexture { target: Buffer::A }]
}

/// The command sequence of one tick on a grid of `width` by `height` cells
/// with `current` holding the latest generation: one dispatch from `current`
/// into the other texture, in work groups that cover the grid, and then one
/// draw of the texture that the dispatch has written.
pub open spec fn tick_commands(current: Buffer, width: u32, height: u32) -> Seq<Command> {
    seq![
        Command::Dispatch {
            source: current,
            destination: current.flipped(),
            groups_x: groups_needed(width as int) as u32,
            groups_y: groups_needed(height as int) as u32,
            groups_z: 1,
        },
        Command::Draw {
            image: current.flipped(),
            clear: black(),
            vertices: TRIANGLE_VERTICES,
            instances: 1,
        },
    ]
}

/// What one tick asks of the device.
#[derive(Debug, PartialEq, Eq)]
pub struct Frame {
    /// The contents of the dimensions uniform: the grid's width, then its
    /// height.
    pub dimensions: Vec<u8>,
    /// The commands to record, in this order, and to submit as one unit.
    pub commands: Vec<Command>,
}

/// What lives from one tick to the next: the two state textures and the
/// flag that says which of them holds the latest generation.
#[derive(Debug)]
pub struct RendererState {
    renderer: Renderer,
    texture1: TextureSpec,
    texture2: TextureSpec,
    current_texture: Buffer,
}

impl RendererState {
    #[verifier::type_invariant]
    spec fn inv(self) -> bool {
        self.wf()
    }

    /// The grid that the state was made for.
    pub closed spec fn spec_renderer(&self) -> Renderer {
        self.renderer
    }

    /// The description of one of the two state textures.
    pub closed spec fn spec_texture(&self, which: Buffer) -> TextureSpec {
        match which {
            Buffer::A => self.texture1,
            Buffer::B => self.texture2,
        }
    }

    /// The texture that holds the latest generation.
    pub closed spec fn spec_current(&self) -> Buffer {
        self.current_texture
    }

    /// The dimension invariant: the grid is one that can be simulated, and
    /// both state textures have exactly its width and height.
    pub open spec fn wf(&self) -> bool {
        &&& self.renderer().wf()
        &&& self.texture(Buffer::A) == state_texture(
            self.renderer().width(),
            self.renderer().height(),
        )
        &&& self.texture(Buffer::B) == state_texture(
            self.renderer().width(),
            self.renderer().height(),
        )
    }

    /// The grid that the state was made for.
    #[verifier::when_used_as_spec(spec_renderer)]
    pub fn renderer(&self) -> (renderer: Renderer)
        ensures
            renderer == self.spec_renderer(),
            self.wf(),
    {
        proof {
            use_type_invariant(self);
        }
        self.renderer
    }

    /// The description of one of the two state textures.
    #[verifier::when_used_as_spec(spec_texture)]
    pub fn texture(&self, which: Buffer) -> (texture: TextureSpec)
        ensures
            texture == self.spec_texture(which),
            texture == state_texture(self.renderer().width(), self.renderer().height()),
    {
        proof {
            use_type_invariant(self);
        }
        match which {
            Buffer::A => self.texture1,
            Buffer::B => self.texture2,
        }
    }

    /// The texture that holds the latest generation.
    #[verifier::when_used_as_spec(spec_current)]
    pub fn current(&self) -> (current: Buffer)
        ensures
            current == self.spec_current(),
    {
        self.current_texture
    }

    /// The contents of the dimensions uniform: the grid's width, then its
    /// height, as they lie in memory.
    pub fn dimensions_uniform(&self) -> (bytes: Vec<u8>)
        ensures
            in_memory(seq![self.renderer().width(), self.renderer().height()], bytes@),
            bytes@.len() == 8,
    {
        let mut dimensions: Vec<u32> = Vec::new();
        dimensions.push(self.renderer.width());
        dimensions.push(self.renderer.height());
        assert(dimensions@ == seq![self.renderer().width(), self.renderer().height()]);
        words_to_bytes(dimensions.as_slice())
    }

    /// One tick. `acquired` tells whether the surface has handed out its
    /// next presentable image.
    ///
    /// Where it has, the tick is planned and the current texture flips: the
    /// simulation stage reads the current texture and writes the other one,
    /// the display stage draws the one just written, and that one is current
    /// from now on. Where it has not, there is no frame and nothing changes:
    /// the caller has to stop, since no later tick may stand in for this
    /// one. The grid and the textures stay as they are either way.
    pub fn redraw(&mut self, acquired: bool) -> (frame: Option<Frame>)
        ensures
            frame is Some <==> acquired,
            frame matches Some(f) ==> {
                &&& f.commands@ == tick_commands(
                    old(self).current(),
                    old(self).renderer().width(),
                    old(self).renderer().height(),
                )
                &&& in_memory(
                    seq![old(self).renderer().width(), old(self).renderer().height()],
                    f.dimensions@,
                )
            },
            final(self).current() == if acquired {
                old(self).current().flipped()
            } else {
                old(self).current()
            },
            final(self).renderer() == old(self).renderer(),
            final(self).texture(Buffer::A) == old(self).texture(Buffer::A),
            final(self).texture(Buffer::B) == old(self).texture(Buffer::B),
            final(self).wf(),
    {
        proof {
            use_type_invariant(&*self);
        }
        if !acquired {
            return None;
        }
        let source = self.current_texture;
        let destination = source.other();
        let dimensions = self.dimensions_uniform();
        let mut commands: Vec<Command> = Vec::new();
        commands.push(
            Command::Dispatch {
                source,
                destination,
                groups_x: workgroup_count(self.renderer.width()),
                groups_y: workgroup_count(self.renderer.height()),
                groups_z: 1,
            },
        );
        commands.push(
            Command::Draw {
                image: destination,
                clear: Rgba::black(),
                vertices: TRIANGLE_VERTICES,
                instances: 1,
            },
        );
        self.current_texture = destination;
        Some(Frame { dimensions, commands })
    }
}

impl Renderer {
    /// The state before the first tick: two state textures of the grid's
    /// size, the first of them current.
    pub fn init_state(&self) -> (state: RendererState)
        ensures
            state.wf(),
            state.renderer() == *self,
            state.current() == Buffer::A,
    {
        let width = self.width();
        let height = self.height();
        RendererState {
            renderer: *self,
            texture1: create_texture(width, height),
            texture2: create_texture(width, height),
            current_texture: Buffer::A,
        }
    }
}

/// The texture that is current after `ticks` ticks, where `start` was
/// current before the first of them.
pub open spec fn current_after(start: Buffer, ticks: nat) -> Buffer
    decreases ticks,
{
    if ticks == 0 {
        start
    } else {
        current_after(start, (ticks - 1) as nat).flipped()
    }
}

/// Everything that has been submitted by the end of tick number `ticks` on
/// a grid of `width` by `height` cells: the startup commands, then the
/// commands of each tick in turn.
pub open spec fn history(width: u32, height: u32, ticks: nat) -> Seq<Command>
    decreases ticks,
{
    if ticks == 0 {
        startup_commands()
    } else {
        history(width, height, (ticks - 1) as nat) + tick_commands(
            current_after(Buffer::A, (ticks - 1) as nat),
            width,
            height,
        )
    }
}

/// Whether one of the commands before place `at` writes `texture`.
pub open spec fn written_before(commands: Seq<Command>, at: int, texture: Buffer) -> bool {
    exists|j: int| 0 <= j < at && j < commands.len() && #[trigger] commands[j].writes(texture)
}

/// The dimension invariant, spelled out: in every well-formed state the two
/// state textures have one and the same size, which is the grid's width and
/// height in a single layer, and one and the same format.
pub proof fn lemma_textures_match_grid(state: RendererState)
    requires
        state.wf(),
    ensures
        state.texture(Buffer::A).size == state.texture(Buffer::B).size,
        state.texture(Buffer::A).size.width == state.renderer().width(),
        state.texture(Buffer::A).size.height == state.renderer().height(),
        state.texture(Buffer::A).size.depth_or_array_layers == 1,
        state.texture(Buffer::A).usage == state.texture(Buffer::B).usage,
        state.texture(Buffer::A).dimension == state.texture(Buffer::B).dimension,
        state.texture(Buffer::A).format == state.texture(Buffer::B).format,
        state.texture(Buffer::A).view_format == state.texture(Buffer::A).format,
        state.texture(Buffer::B).view_format == state.texture(Buffer::B).format,
{
}

/// Alternation: starting with the first texture current, the first texture
/// is current after an even number of ticks and the second after an odd
/// number.
pub proof fn lemma_alternation(ticks: nat)
    ensures
        current_after(Buffer::A, ticks) == if ticks % 2 == 0 {
            Buffer::A
        } else {
            Buffer::B
        },
    decreases ticks,
{
    if ticks > 0 {
        lemma_alternation((ticks - 1) as nat);
    }
}

/// Two ticks bring the current texture back to where it was, and one tick
/// never leaves it in place.
pub proof fn lemma_flip_is_an_involution(current: Buffer)
    ensures
        current.flipped() != current,
        current.flipped().flipped() == current,
{
}

/// Within the commands of one tick the dispatch comes first and reads the
/// current texture; the draw follows it and shows the texture that the
/// dispatch has written, never the one that it has read.
pub proof fn lemma_display_shows_new_generation(current: Buffer, width: u32, height: u32)
    ensures
        tick_commands(current, width, height).len() == 2,
        tick_commands(current, width, height)[0] is Dispatch,
        tick_commands(current, width, height)[1] is Draw,
        tick_commands(current, width, height)[0]->source == current,
        tick_commands(current, width, height)[1]->image == tick_commands(
            current,
            width,
            height,
        )[0]->destination,
        tick_commands(current, width, height)[1]->image != tick_commands(
            current,
            width,
            height,
        )[0]->source,
{
}

/// By the end of any tick the texture that is then current has been
/// written.
proof fn lemma_current_is_written(width: u32, height: u32, ticks: nat)
    ensures
        written_before(
            history(width, height, ticks),
            history(width, height, ticks).len() as int,
            current_after(Buffer::A, ticks),
        ),
    decreases ticks,
{
    let commands = history(width, height, ticks);
    if ticks == 0 {
        assert(commands[0].writes(Buffer::A));
    } else {
        let before = history(width, height, (ticks - 1) as nat);
        assert(commands[before.len() as int].writes(current_after(Buffer::A, ticks)));
    }
}

/// No read before write: in everything submitted up to the end of any tick,
/// each command that reads a state texture comes after a command that has
/// written that texture. The seeded texture is read only after its seeding
/// copy, and the unseeded one only after the first dispatch has filled it.
pub proof fn lemma_no_read_before_write(width: u32, height: u32, ticks: nat)
    ensures
        forall|i: int, texture: Buffer|
            0 <= i < history(width, height, ticks).len() && #[trigger] history(
                width,
                height,
                ticks,
            )[i].reads(texture) ==> written_before(history(width, height, ticks), i, texture),
    decreases ticks,
{
    let commands = history(width, height, ticks);
    if ticks > 0 {
        let before = history(width, height, (ticks - 1) as nat);
        let current = current_after(Buffer::A, (ticks - 1) as nat);
        lemma_no_read_before_write(width, height, (ticks - 1) as nat);
        lemma_current_is_written(width, height, (ticks - 1) as nat);
        assert forall|i: int, texture: Buffer|
            0 <= i < commands.len() && #[trigger] commands[i].reads(texture) implies written_before(
            commands,
            i,
            texture,
        ) by {
            if i < before.len() {
                assert(commands[i] == before[i]);
                let j = choose|j: int|
                    0 <= j < i && j < before.len() && #[trigger] before[j].writes(texture);
                assert(commands[j] == before[j]);
            } else if i == before.len() {
                assert(texture == current);
                let j = choose|j: int|
                    0 <= j < before.len() && #[trigger] before[j].writes(current);
                assert(commands[j] == before[j]);
            } else {
                assert(commands[before.len() as int].writes(texture));
            }
        }
    }
}

} // verus!
