//! Two-dimensional textures.

use vstd::prelude::*;

use crate::backend;
use crate::command::{trace, Command, CommandView, TextureParameter, TextureSetting};

verus! {

/// The code of the first texture unit. The code of unit `slot` is this
/// code plus `slot`.
pub const FIRST_UNIT: u32 = 0x84C0;

/// The highest slot whose unit code is still a 32-bit number.
pub const LAST_SLOT: u32 = 0xFFFF_7B3F;

/// What setting a fresh texture up takes: it is bound, sampled linearly and
/// clamped to its edges, given `pixels` as its image, and unbound again.
pub open spec fn setup_commands(id: u32, width: u32, height: u32, pixels: Seq<u8>) -> Seq<
    CommandView,
> {
    seq![
        CommandView::BindTexture { texture: id },
        CommandView::TexParameter {
            parameter: TextureParameter::MinFilter,
            setting: TextureSetting::Linear,
        },
        CommandView::TexParameter {
            parameter: TextureParameter::MagFilter,
            setting: TextureSetting::Linear,
        },
        CommandView::TexParameter {
            parameter: TextureParameter::WrapS,
            setting: TextureSetting::ClampToEdge,
        },
        CommandView::TexParameter {
            parameter: TextureParameter::WrapT,
            setting: TextureSetting::ClampToEdge,
        },
        CommandView::TexImage2D { width, height, pixels },
        CommandView::BindTexture { texture: 0 },
    ]
}

/// A GPU texture object.
///
/// The value owns the object: it is neither copied nor cloned, and
/// [`delete`](Self::delete) consumes it.
#[derive(Debug)]
pub struct Texture {
    id: u32,
}

impl Texture {
    /// Handle of the texture object.
    pub closed spec fn spec_id(&self) -> u32 {
        self.id
    }

    /// Takes ownership of the fresh texture object `id` and gives it the
    /// image `pixels`: `height` rows of `width` texels of four bytes each,
    /// the first row at the bottom.
    pub fn new(id: u32, width: u32, height: u32, pixels: Vec<u8>) -> (made: (Texture, Vec<Command>))
        requires
            pixels@.len() == 4 * width * height,
        ensures
            made.0.spec_id() == id,
            trace(made.1@) == setup_commands(id, width, height, pixels@),
    {
        let mut commands: Vec<Command> = Vec::new();
        commands.push(Command::BindTexture { texture: id });
        commands.push(
            Command::TexParameter {
                parameter: TextureParameter::MinFilter,
                setting: TextureSetting::Linear,
            },
        );
        commands.push(
            Command::TexParameter {
                parameter: TextureParameter::MagFilter,
                setting: TextureSetting::Linear,
            },
        );
        commands.push(
            Command::TexParameter {
                parameter: TextureParameter::WrapS,
                setting: TextureSetting::ClampToEdge,
            },
        );
        commands.push(
            Command::TexParameter {
                parameter: TextureParameter::WrapT,
                setting: TextureSetting::ClampToEdge,
            },
        );
        commands.push(Command::TexImage2D { width, height, pixels });
        commands.push(Command::BindTexture { texture: 0 });
        assert(trace(commands@) =~= setup_commands(id, width, height, pixels@));
        (Texture { id }, commands)
    }

    /// Handle of the texture object.
    #[verifier::when_used_as_spec(spec_id)]
    pub fn id(&self) -> (id: u32)
        ensures
            id == self.spec_id(),
    {
        self.id
    }

    /// Makes the texture the current one of texture unit `slot`.
    pub fn bind(&self, slot: u32) -> (commands: Vec<Command>)
        requires
            slot <= LAST_SLOT,
        ensures
            trace(commands@) == seq![
                CommandView::ActiveTexture { unit: (FIRST_UNIT + slot) as u32 },
                CommandView::BindTexture { texture: self.id() },
            ],
    {
        let mut commands: Vec<Command> = Vec::new();
        commands.push(Command::ActiveTexture { unit: backend::texture0() + slot });
        commands.push(Command::BindTexture { texture: self.id });
        assert(trace(commands@) =~= seq![
            CommandView::ActiveTexture { unit: (FIRST_UNIT + slot) as u32 },
            CommandView::BindTexture { texture: self.id() },
        ]);
        commands
    }

    /// Leaves no texture current in the selected texture unit.
    pub fn unbind(&self) -> (command: Command)
        ensures
            command@ == (CommandView::BindTexture { texture: 0 }),
    {
        Command::BindTexture { texture: 0 }
    }

    /// Gives the texture up: the texture object is deleted.
    pub fn delete(self) -> (command: Command)
        ensures
            command@ == (CommandView::DeleteTexture { texture: self.id() }),
    {
        Command::DeleteTexture { texture: self.id }
    }
}

} // verus!
