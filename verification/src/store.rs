//! What the submitted commands do to the contents of the State Store.
//!
//! The frame protocol is sound if a device that carries the commands out one
//! after the other never reads a texture that nobody has written, and if the
//! texture that the protocol calls current holds the latest generation. Both
//! are proved here, over a model of the two textures' contents.

use vstd::prelude::*;
use crate::frame::{current_after, history, Command};
use crate::grid::Generation;
use crate::layout::WORKGROUP_SIZE;
use crate::renderer::Renderer;
use crate::texture::Buffer;
use crate::upload::{copied, seeds_in_order, TextureUpload};

verus! {

/// The contents of the two state textures. `None` stands for a texture that
/// has never been written: nothing may be made of what it holds.
pub struct Store {
    pub a: Option<Generation>,
    pub b: Option<Generation>,
}

impl Store {
    /// The store as it is allocated, before anything has been written.
    pub open spec fn blank() -> Store {
        Store { a: None, b: None }
    }

    /// The contents of `texture`.
    pub open spec fn get(self, texture: Buffer) -> Option<Generation> {
        match texture {
            Buffer::A => self.a,
            Buffer::B => self.b,
        }
    }

    /// The store with `texture` overwritten by `generation`.
    pub open spec fn put(self, texture: Buffer, generation: Generation) -> Store {
        match texture {
            Buffer::A => Store { a: Some(generation), b: self.b },
            Buffer::B => Store { a: self.a, b: Some(generation) },
        }
    }
}

/// Whether a dispatch of `groups_x` by `groups_y` work groups has a work
/// item for every cell of `generation`.
pub open spec fn covers(groups_x: u32, groups_y: u32, generation: Generation) -> bool {
    generation.width <= groups_x * WORKGROUP_SIZE && generation.height <= groups_y
        * WORKGROUP_SIZE
}

/// The store after `command` has been carried out on `store`, where
/// `upload` is what has been staged for a copy and `big` selects the byte
/// order of the machine.
///
/// A copy overwrites its target with what it reads from the staging buffer,
/// row by row at the row pitch. A dispatch overwrites its destination with
/// the generation that follows the one in its source. A draw leaves the
/// store as it is. `None` where the command goes wrong: a copy that is not
/// valid, a dispatch or a draw that reads a texture which has never been
/// written, a dispatch that writes the texture it reads, and a dispatch that
/// leaves cells out.
pub open spec fn execute(store: Store, command: Command, upload: TextureUpload, big: bool) -> Option<
    Store,
> {
    match command {
        Command::CopyBufferToTexture { target } => match copied(upload, big) {
            Some(generation) => Some(store.put(target, generation)),
            None => None,
        },
        Command::Dispatch { source, destination, groups_x, groups_y, groups_z } => {
            match store.get(source) {
                Some(generation) => if source != destination && groups_z == 1 && covers(
                    groups_x,
                    groups_y,
                    generation,
                ) {
                    Some(store.put(destination, generation.next()))
                } else {
                    None
                },
                None => None,
            }
        },
        Command::Draw { image, .. } => if store.get(image) is Some {
            Some(store)
        } else {
            None
        },
    }
}

/// The store after all of `commands` have been carried out in order, or
/// `None` where one of them goes wrong.
pub open spec fn execute_all(
    store: Store,
    commands: Seq<Command>,
    upload: TextureUpload,
    big: bool,
) -> Option<Store>
    decreases commands.len(),
{
    if commands.len() == 0 {
        Some(store)
    } else {
        match execute_all(store, commands.drop_last(), upload, big) {
            Some(before) => execute(before, commands.last(), upload, big),
            None => None,
        }
    }
}

/// The generation that is `ticks` steps on from `seed`.
pub open spec fn generation(seed: Generation, ticks: nat) -> Generation
    decreases ticks,
{
    if ticks == 0 {
        seed
    } else {
        generation(seed, (ticks - 1) as nat).next()
    }
}

/// Every generation has the size of the seed, and one value for each cell.
pub proof fn lemma_generations_keep_their_size(seed: Generation, ticks: nat)
    requires
        seed.wf(),
    ensures
        generation(seed, ticks).wf(),
        generation(seed, ticks).width == seed.width,
        generation(seed, ticks).height == seed.height,
    decreases ticks,
{
    if ticks > 0 {
        lemma_generations_keep_their_size(seed, (ticks - 1) as nat);
    }
}

/// The generation that `pattern` is on `renderer`'s grid, row by row.
pub open spec fn first_generation(renderer: Renderer, pattern: Seq<u32>) -> Generation {
    Generation {
        width: renderer.width() as nat,
        height: renderer.height() as nat,
        cells: pattern,
    }
}

/// The frame protocol is sound. Carried out in order on a blank store, the
/// startup commands and the commands of any number of ticks never go wrong:
/// the seeding copy is valid and stays within what has been staged, no
/// texture is read before it is written, no dispatch reads what it writes,
/// and every dispatch covers the grid. The copy puts `pattern` into the
/// first texture. By the end of tick `ticks` the current texture holds
/// generation `ticks` of `pattern`, which is what the last draw has shown,
/// and the other texture holds the generation before it.
pub proof fn lemma_current_texture_holds_latest_generation(
    renderer: Renderer,
    pattern: Seq<u32>,
    upload: TextureUpload,
    big: bool,
    ticks: nat,
)
    requires
        renderer.wf(),
        pattern.len() == renderer.width() * renderer.height(),
        seeds_in_order(renderer, pattern, upload, big),
    ensures
        execute_all(
            Store::blank(),
            history(renderer.width(), renderer.height(), ticks),
            upload,
            big,
        ) is Some,
        execute_all(
            Store::blank(),
            history(renderer.width(), renderer.height(), ticks),
            upload,
            big,
        ).unwrap().get(current_after(Buffer::A, ticks)) == Some(
            generation(first_generation(renderer, pattern), ticks),
        ),
        ticks > 0 ==> execute_all(
            Store::blank(),
            history(renderer.width(), renderer.height(), ticks),
            upload,
            big,
        ).unwrap().get(current_after(Buffer::A, ticks).flipped()) == Some(
            generation(first_generation(renderer, pattern), (ticks - 1) as nat),
        ),
        ticks > 0 ==> history(renderer.width(), renderer.height(), ticks).last() is Draw
            && history(renderer.width(), renderer.height(), ticks).last()->image == current_after(
            Buffer::A,
            ticks,
        ),
    decreases ticks,
{
    let width = renderer.width();
    let height = renderer.height();
    let seed = first_generation(renderer, pattern);
    let commands = history(width, height, ticks);
    reveal_with_fuel(execute_all, 3);
    if ticks == 0 {
        assert(commands.drop_last() =~= Seq::<Command>::empty());
    } else {
        let earlier = (ticks - 1) as nat;
        let before = history(width, height, earlier);
        lemma_current_texture_holds_latest_generation(renderer, pattern, upload, big, earlier);
        lemma_generations_keep_their_size(seed, earlier);
        let dispatch = commands[before.len() as int];
        let draw = commands[before.len() as int + 1];
        assert(commands.last() == draw);
        assert(commands.drop_last() =~= before.push(dispatch));
        assert(commands.drop_last().drop_last() =~= before);
        assert(commands.drop_last().last() == dispatch);
    }
}

} // verus!
