//! Frames as lists of drawing commands.
//!
//! A frame is recorded, not drawn: every function here appends to or returns
//! a list of [`Command`]s, which the caller replays on its renderer in order.

use vstd::prelude::*;
use crate::layout::{
    centered, centered_position, lemma_tile_inside_window, tile_count, tile_position, tile_total,
    tile_x, tile_y,
};

verus! {

/// Width of the window in pixels.
pub const SCREEN_WIDTH: u32 = 640;

/// Height of the window in pixels.
pub const SCREEN_HEIGHT: u32 = 480;

/// Edge of one background tile in pixels.
pub const TILE_SIZE: u32 = 40;

/// Seconds for which the still scene stays on screen.
pub const STILL_SECONDS: u32 = 3;

/// A loaded image: the handle under which the caller keeps it, and its size
/// in pixels.
#[derive(Clone, Copy, Debug, PartialEq, Eq, Structural)]
pub struct Texture {
    pub id: u32,
    pub width: u32,
    pub height: u32,
}

/// One step of drawing a frame.
#[derive(Clone, Copy, Debug, PartialEq, Eq, Structural)]
pub enum Command {
    /// Wipe the back buffer.
    Clear,
    /// Copy the whole texture `texture` into the rectangle of `width` by
    /// `height` pixels whose top left corner is at (`x`, `y`).
    Copy { texture: u32, x: i32, y: i32, width: u32, height: u32 },
    /// Show the back buffer.
    Present,
    /// Do nothing for `seconds` seconds.
    Wait { seconds: u32 },
}

/// A window's size and the edge of the tiles that cover it.
#[derive(Clone, Copy, Debug, PartialEq, Eq, Structural)]
pub struct Screen {
    pub width: u32,
    pub height: u32,
    pub tile_size: u32,
}

/// The command that copies `texture` at its own size to (`x`, `y`).
pub open spec fn copy_at(texture: Texture, x: int, y: int) -> Command {
    Command::Copy {
        texture: texture.id,
        x: x as i32,
        y: y as i32,
        width: texture.width,
        height: texture.height,
    }
}

/// The command that draws `image` at its own size in the middle of a window
/// of `width` by `height` pixels.
pub open spec fn centered_copy(width: u32, height: u32, image: Texture) -> Command {
    copy_at(
        image,
        centered(width as int, image.width as int),
        centered(height as int, image.height as int),
    )
}

/// The still scene: clear, the background four times at its own size in two
/// rows of two, the image in the middle, present, wait three seconds.
pub open spec fn still_scene(width: u32, height: u32, background: Texture, image: Texture) -> Seq<
    Command,
> {
    seq![
        Command::Clear,
        copy_at(background, 0, 0),
        copy_at(background, background.width as int, 0),
        copy_at(background, 0, background.height as int),
        copy_at(background, background.width as int, background.height as int),
        centered_copy(width, height, image),
        Command::Present,
        Command::Wait { seconds: STILL_SECONDS },
    ]
}

impl Screen {
    /// Number of background tiles in a frame.
    pub open spec fn tiles(&self) -> int {
        tile_total(self.width as int, self.height as int, self.tile_size as int)
    }

    /// A screen is well formed when it has a tile size to divide by, when its
    /// width and height are valid signed coordinates, and when a frame's
    /// commands can be counted in a `usize`.
    pub open spec fn wf(&self) -> bool {
        &&& self.tile_size > 0
        &&& self.width <= i32::MAX
        &&& self.height <= i32::MAX
        &&& self.tiles() + 3 <= usize::MAX
    }

    /// The command that draws background tile `i`.
    pub open spec fn tile_command(&self, background: Texture, i: int) -> Command {
        Command::Copy {
            texture: background.id,
            x: tile_x(i, self.width as int, self.tile_size as int) as i32,
            y: tile_y(i, self.width as int, self.tile_size as int) as i32,
            width: self.tile_size,
            height: self.tile_size,
        }
    }

    /// A whole frame: clear, every background tile in order, the image on
    /// top, present.
    pub open spec fn frame(&self, background: Texture, image: Texture) -> Seq<Command> {
        seq![Command::Clear] + Seq::new(
            self.tiles() as nat,
            |i: int| self.tile_command(background, i),
        ) + seq![centered_copy(self.width, self.height, image), Command::Present]
    }

    /// Checks the three numbers and makes a screen of them. The result is
    /// `None` exactly when the screen would not be well formed.
    pub fn new(width: u32, height: u32, tile_size: u32) -> (screen: Option<Screen>)
        ensures
            screen is Some <==> (Screen { width, height, tile_size }).wf(),
            screen matches Some(s) ==> s == (Screen { width, height, tile_size }),
    {
        if tile_size == 0 || width > 0x7fff_ffff || height > 0x7fff_ffff {
            return None;
        }
        let count: u64 = tile_count(width, height, tile_size);
        assert(count <= 0x7fff_ffff * 0x7fff_ffff) by (nonlinear_arith)
            requires
                count == (width as int / tile_size as int) * (height as int / tile_size as int),
                0 <= width as int / tile_size as int <= 0x7fff_ffff,
                0 <= height as int / tile_size as int <= 0x7fff_ffff,
        ;
        if count + 3 > usize::MAX as u64 {
            return None;
        }
        Some(Screen { width, height, tile_size })
    }

    /// The 640 by 480 window with tiles of 40 pixels.
    pub fn standard() -> (screen: Screen)
        ensures
            screen == (Screen { width: SCREEN_WIDTH, height: SCREEN_HEIGHT, tile_size: TILE_SIZE }),
            screen.wf(),
            screen.tiles() == 192,
    {
        let screen = Screen { width: SCREEN_WIDTH, height: SCREEN_HEIGHT, tile_size: TILE_SIZE };
        assert(screen.tiles() == 192) by (nonlinear_arith)
            requires
                screen.tiles() == (screen.width as int / screen.tile_size as int) * (
                screen.height as int / screen.tile_size as int),
                screen.width == 640,
                screen.height == 480,
                screen.tile_size == 40,
        ;
        screen
    }

    /// Records one frame: the back buffer is cleared, `background` is
    /// stretched over every tile of the grid, row by row, `image` is put in
    /// the middle at its own size, and the result is shown.
    pub fn draw_frame(&self, background: &Texture, image: &Texture) -> (commands: Vec<Command>)
        requires
            self.wf(),
        ensures
            commands@ == self.frame(*background, *image),
    {
        let mut commands: Vec<Command> = Vec::new();
        commands.push(Command::Clear);
        let count: u64 = tile_count(self.width, self.height, self.tile_size);
        let mut i: u64 = 0;
        while i < count
            invariant
                self.wf(),
                count == self.tiles(),
                i <= count,
                commands@ == seq![Command::Clear] + Seq::new(
                    i as nat,
                    |k: int| self.tile_command(*background, k),
                ),
            decreases count - i,
        {
            let position = tile_position(i, self.width, self.height, self.tile_size);
            let (x, y) = position.unwrap();
            render_texture_with_size(
                &mut commands,
                background,
                x as i32,
                y as i32,
                self.tile_size,
                self.tile_size,
            );
            i = i + 1;
        }
        let (x, y) = centered_position(self.width, self.height, image.width, image.height);
        render_texture(&mut commands, image, x, y);
        commands.push(Command::Present);
        commands
    }

    /// What a frame holds, position by position: it starts with a clear and
    /// ends with the centered image and a present, and between them stands
    /// one copy of the background for each whole tile of the grid, tile `i`
    /// at column `i % (width / tile_size)` and row `i / (width / tile_size)`.
    /// Every coordinate is the number that the layout gives: none is cut
    /// short by its type.
    pub proof fn lemma_frame_layout(&self, background: Texture, image: Texture)
        requires
            self.wf(),
        ensures
            self.frame(background, image).len() == (self.width / self.tile_size) * (self.height
                / self.tile_size) + 3,
            self.frame(background, image)[0] == Command::Clear,
            forall|i: int|
                0 <= i < (self.width / self.tile_size) * (self.height / self.tile_size) ==> (
                #[trigger] self.frame(background, image)[i + 1] matches Command::Copy {
                    texture,
                    x,
                    y,
                    width,
                    height,
                } && texture == background.id && x == (i % (self.width / self.tile_size) as int)
                    * self.tile_size && y == (i / (self.width / self.tile_size) as int)
                    * self.tile_size && width == self.tile_size && height == self.tile_size),
            self.frame(background, image)[self.tiles() + 1] matches Command::Copy {
                texture,
                x,
                y,
                width,
                height,
            } && texture == image.id && x == (self.width - image.width) / 2 && y == (self.height
                - image.height) / 2 && width == image.width && height == image.height,
            self.frame(background, image)[self.tiles() + 2] == Command::Present,
    {
        assert forall|i: int| 0 <= i < self.tiles() implies (#[trigger] self.tile_command(
            background,
            i,
        ) matches Command::Copy { x, y, .. } && x == tile_x(
            i,
            self.width as int,
            self.tile_size as int,
        ) && y == tile_y(i, self.width as int, self.tile_size as int)) by {
            lemma_tile_inside_window(
                i,
                self.width as int,
                self.height as int,
                self.tile_size as int,
            );
        }
    }
}

/// Records the still scene: the back buffer is cleared, `background` is drawn
/// four times at its own size, in two rows of two from the top left corner,
/// `image` is put in the middle of the window, and the result is shown once
/// and left on screen for three seconds.
///
/// The background's width and height become coordinates, so they have to be
/// valid signed ones.
pub fn draw_still_scene(
    width: u32,
    height: u32,
    background: &Texture,
    image: &Texture,
) -> (commands: Vec<Command>)
    requires
        background.width <= i32::MAX,
        background.height <= i32::MAX,
    ensures
        commands@ == still_scene(width, height, *background, *image),
{
    let right: i32 = background.width as i32;
    let down: i32 = background.height as i32;
    let mut commands: Vec<Command> = Vec::new();
    commands.push(Command::Clear);
    render_texture(&mut commands, background, 0, 0);
    render_texture(&mut commands, background, right, 0);
    render_texture(&mut commands, background, 0, down);
    render_texture(&mut commands, background, right, down);
    let (x, y) = centered_position(width, height, image.width, image.height);
    render_texture(&mut commands, image, x, y);
    commands.push(Command::Present);
    commands.push(Command::Wait { seconds: STILL_SECONDS });
    commands
}

/// Records a copy of `texture`, stretched to `width` by `height` pixels, with
/// its top left corner at (`x`, `y`).
pub fn render_texture_with_size(
    commands: &mut Vec<Command>,
    texture: &Texture,
    x: i32,
    y: i32,
    width: u32,
    height: u32,
)
    ensures
        final(commands)@ == old(commands)@.push(
            (Command::Copy { texture: texture.id, x, y, width, height }),
        ),
{
    commands.push(Command::Copy { texture: texture.id, x, y, width, height });
}

/// Records a copy of `texture` at its own size, with its top left corner at
/// (`x`, `y`).
pub fn render_texture(commands: &mut Vec<Command>, texture: &Texture, x: i32, y: i32)
    ensures
        final(commands)@ == old(commands)@.push(
            (Command::Copy {
                texture: texture.id,
                x,
                y,
                width: texture.width,
                height: texture.height,
            }),
        ),
{
    render_texture_with_size(commands, texture, x, y, texture.width, texture.height);
}

} // verus!
