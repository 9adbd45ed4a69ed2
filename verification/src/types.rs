//! The records that describe what is drawn, and the handles that refer to
//! what was uploaded.
//!
//! This library stores and forwards floating-point values and never computes
//! with them: it holds them as their bit patterns.
use crate::color::RGBA8;
use crate::texture::PIXEL_SIZE;
use crate::utility::unordered_tracker::Key;
use vstd::prelude::*;

verus! {

/// A 32-bit floating-point number, held as its IEEE 754 bit pattern.
#[derive(Clone, Copy, Debug, PartialEq, Eq, Structural)]
pub struct F32Bits(pub u32);

/// A point in space, in pixels.
#[derive(Clone, Copy, Debug, PartialEq, Eq, Structural)]
pub struct Position {
    pub x: F32Bits,
    pub y: F32Bits,
    pub z: F32Bits,
}

/// A width and a height, in pixels.
#[derive(Clone, Copy, Debug, PartialEq, Eq, Structural)]
pub struct Extent {
    pub width: u16,
    pub height: u16,
}

/// The point `(0.0, 0.0, 0.0)`.
pub open spec fn origin() -> Position {
    Position { x: F32Bits(0), y: F32Bits(0), z: F32Bits(0) }
}

// ////////////////////////////////////////////////////////
// Window
// ////////////////////////////////////////////////////////
/// The width and the height of a window.
#[derive(Clone, Copy, Debug, PartialEq, Eq, Structural)]
pub struct WindowSize {
    pub width: i32,
    pub height: i32,
}

/// Configuration for the window.
#[derive(Debug, Clone)]
pub struct WindowSettings {
    /// The title of the window.
    pub title: String,
    /// The size of the window.
    pub size: WindowSize,
    /// Flag for if the window is resizable.
    pub resizable: bool,
}

// ////////////////////////////////////////////////////////
// Audio
// ////////////////////////////////////////////////////////
/// Configuration for audio.
#[derive(Debug, Copy, Clone)]
pub struct AudioDesc {

}

// ////////////////////////////////////////////////////////
// Batch
// ////////////////////////////////////////////////////////
/// Marks the keys that name batches.
#[derive(Copy, Clone, Debug, PartialEq, Eq, Structural)]
pub struct Batch;

/// Handle to reference a batch with.
#[derive(Copy, Clone, Debug, PartialEq)]
pub struct BatchToken {
    key: Key<Batch>,
}

impl BatchToken {
    pub closed spec fn spec_key(&self) -> Key<Batch> {
        self.key
    }

    pub fn new(key: Key<Batch>) -> (token: BatchToken)
        ensures
            token.spec_key() == key,
    {
        BatchToken { key }
    }

    #[verifier::when_used_as_spec(spec_key)]
    pub fn key(&self) -> (key: Key<Batch>)
        ensures
            key == self.spec_key(),
    {
        self.key
    }
}

// ////////////////////////////////////////////////////////
// Texture
// ////////////////////////////////////////////////////////
/// Why no sub texture was made.
#[derive(Clone, Copy, Debug, PartialEq, Eq, Structural)]
pub enum TextureError {
    /// The width or the height that was asked for is zero.
    SizeMustBePositive,
    /// The rectangle that was asked for does not lie within the texture.
    OutOfBounds,
}

/// Handle to reference an uploaded texture with: the rectangle that the
/// texture takes up, in texture-coordinate units. A mirrored texture has
/// the two bounds of one axis exchanged.
#[derive(Copy, Clone, Debug, PartialEq, Eq, Structural)]
pub struct Texture {
    pub xmin: u16,
    pub xmax: u16,
    pub ymin: u16,
    pub ymax: u16,
}

pub open spec fn least(a: int, b: int) -> int {
    if a <= b {
        a
    } else {
        b
    }
}

pub open spec fn greatest(a: int, b: int) -> int {
    if a >= b {
        a
    } else {
        b
    }
}

impl Default for Texture {
    /// A default texture reference for a basic white square.
    fn default() -> (texture: Texture)
        ensures
            texture == (Texture { xmin: 0, xmax: PIXEL_SIZE as u16, ymin: 0, ymax: PIXEL_SIZE as u16 }),
    {
        Texture { xmin: 0, xmax: PIXEL_SIZE as u16, ymin: 0, ymax: PIXEL_SIZE as u16 }
    }
}

impl Texture {
    /// The left edge of the texture, whether it is mirrored or not.
    pub open spec fn left(self) -> int {
        least(self.xmin as int, self.xmax as int)
    }

    pub open spec fn right(self) -> int {
        greatest(self.xmin as int, self.xmax as int)
    }

    pub open spec fn top(self) -> int {
        least(self.ymin as int, self.ymax as int)
    }

    pub open spec fn bottom(self) -> int {
        greatest(self.ymin as int, self.ymax as int)
    }

    /// What `sub_texture` returns: the rectangle of `width` by `height`
    /// pixels whose top left corner lies `minx` pixels right of and `miny`
    /// pixels below the top left corner of this texture, if it is not empty
    /// and lies within this texture.
    pub open spec fn sub_texture_spec(self, minx: u16, miny: u16, width: u16, height: u16) -> Result<
        Texture,
        TextureError,
    > {
        let left = self.left() + minx * PIXEL_SIZE;
        let right = self.left() + (minx + width) * PIXEL_SIZE;
        let top = self.top() + miny * PIXEL_SIZE;
        let bottom = self.top() + (miny + height) * PIXEL_SIZE;
        if width == 0 || height == 0 {
            Err(TextureError::SizeMustBePositive)
        } else if right > self.right() || bottom > self.bottom() {
            Err(TextureError::OutOfBounds)
        } else {
            Ok(Texture { xmin: left as u16, xmax: right as u16, ymin: top as u16, ymax: bottom as u16 })
        }
    }

    /// Mirrors the texture along the Y axis. Creates a new texture.
    pub fn mirror_y(&self) -> (mirrored: Texture)
        ensures
            mirrored == (Texture { xmin: self.xmax, xmax: self.xmin, ..*self }),
    {
        Texture { xmin: self.xmax, xmax: self.xmin, ymin: self.ymin, ymax: self.ymax }
    }

    /// Mirrors the texture along the X axis. Creates a new texture.
    pub fn mirror_x(&self) -> (mirrored: Texture)
        ensures
            mirrored == (Texture { ymin: self.ymax, ymax: self.ymin, ..*self }),
    {
        Texture { xmin: self.xmin, xmax: self.xmax, ymin: self.ymax, ymax: self.ymin }
    }

    /// Returns a sub texture from the given texture. Values are in pixels. The top left of the
    /// texture has the coordinates of 0, 0.
    ///
    /// Returns an error if the size is 0, or the bounds of the sub texture are outside of the
    /// texture that it is taken from.
    pub fn sub_texture(&self, minx: u16, miny: u16, width: u16, height: u16) -> (r: Result<
        Texture,
        TextureError,
    >)
        ensures
            r == self.sub_texture_spec(minx, miny, width, height),
    {
        if width == 0 || height == 0 {
            return Err(TextureError::SizeMustBePositive);
        }
        let left_bound: u32 = if self.xmin <= self.xmax {
            self.xmin as u32
        } else {
            self.xmax as u32
        };
        let right_bound: u32 = if self.xmin >= self.xmax {
            self.xmin as u32
        } else {
            self.xmax as u32
        };
        let top_bound: u32 = if self.ymin <= self.ymax {
            self.ymin as u32
        } else {
            self.ymax as u32
        };
        let bottom_bound: u32 = if self.ymin >= self.ymax {
            self.ymin as u32
        } else {
            self.ymax as u32
        };
        let left: u32 = left_bound + (minx as u32) * PIXEL_SIZE;
        let right: u32 = left_bound + (minx as u32 + width as u32) * PIXEL_SIZE;
        let top: u32 = top_bound + (miny as u32) * PIXEL_SIZE;
        let bottom: u32 = top_bound + (miny as u32 + height as u32) * PIXEL_SIZE;
        if right > right_bound || bottom > bottom_bound {
            return Err(TextureError::OutOfBounds);
        }
        Ok(Texture { xmin: left as u16, xmax: right as u16, ymin: top as u16, ymax: bottom as u16 })
    }

    /// A sub texture without width or without height is refused, whatever
    /// the texture and wherever the sub texture lies.
    pub proof fn lemma_empty_size_refused(self, minx: u16, miny: u16, width: u16, height: u16)
        requires
            width == 0 || height == 0,
        ensures
            self.sub_texture_spec(minx, miny, width, height) == Err::<Texture, TextureError>(
                TextureError::SizeMustBePositive,
            ),
    {
    }

    /// A sub texture that is not empty and reaches beyond the right or the
    /// bottom edge of the texture is refused as out of bounds.
    pub proof fn lemma_out_of_bounds_refused(self, minx: u16, miny: u16, width: u16, height: u16)
        requires
            width > 0,
            height > 0,
            self.left() + (minx + width) * PIXEL_SIZE > self.right() || self.top() + (miny
                + height) * PIXEL_SIZE > self.bottom(),
        ensures
            self.sub_texture_spec(minx, miny, width, height) == Err::<Texture, TextureError>(
                TextureError::OutOfBounds,
            ),
    {
    }

    /// A sub texture that is returned lies within the texture, has the size
    /// that was asked for and is not mirrored.
    pub proof fn lemma_sub_texture_within(self, minx: u16, miny: u16, width: u16, height: u16)
        requires
            self.sub_texture_spec(minx, miny, width, height) is Ok,
        ensures
            ({
                let sub = self.sub_texture_spec(minx, miny, width, height)->Ok_0;
                &&& self.left() <= sub.xmin < sub.xmax <= self.right()
                &&& self.top() <= sub.ymin < sub.ymax <= self.bottom()
                &&& sub.xmin == self.left() + minx * PIXEL_SIZE
                &&& sub.ymin == self.top() + miny * PIXEL_SIZE
                &&& sub.xmax - sub.xmin == width * PIXEL_SIZE
                &&& sub.ymax - sub.ymin == height * PIXEL_SIZE
            }),
    {
    }
}

// ////////////////////////////////////////////////////////
// Sprite
// ////////////////////////////////////////////////////////
/// The number of rotation units in one full turn.
pub const TURN: i64 = 65536;

/// A rotation, given in units of 1/65536th of a turn, without its whole
/// turns.
pub open spec fn wrap_turns(units: int) -> int {
    units % 65536
}

/// Whole turns make no difference to a rotation, and what is left of it
/// lies within one turn.
pub proof fn lemma_whole_turns_vanish(units: int, turns: int)
    ensures
        wrap_turns(units + turns * 65536) == wrap_turns(units),
        0 <= wrap_turns(units) < 65536,
        0 <= units < 65536 ==> wrap_turns(units) == units,
{
    vstd::arithmetic::div_mod::lemma_mod_multiples_vanish(turns, units, 65536);
    assert(units + turns * 65536 == 65536 * turns + units);
}

/// Takes the whole turns out of a rotation that is given in units of
/// 1/65536th of a turn. A rotation against the sense of the units comes out
/// as the rotation in their sense that leads to the same place.
pub fn rotation_from_units(units: i64) -> (rotation: u16)
    ensures
        rotation == wrap_turns(units as int),
{
    match units.checked_rem_euclid(TURN) {
        Some(rest) => rest as u16,
        None => 0,
    }
}

/// Configuration description for a sprite.
#[derive(Debug, Copy, Clone, PartialEq, Eq, Structural)]
pub struct Sprite {
    // Units are measured in pixels.
    pub pos: Position,
    // Units are measured in pixels.
    pub size: Extent,
    pub texture: Texture,
    pub color: RGBA8,
    // Units are 1/65536th of a turn.
    pub rotation: u16,
}

impl Default for Sprite {
    fn default() -> (sprite: Sprite)
        ensures
            sprite == (Sprite {
                pos: origin(),
                size: Extent { width: 100, height: 100 },
                texture: Texture {
                    xmin: 0,
                    xmax: PIXEL_SIZE as u16,
                    ymin: 0,
                    ymax: PIXEL_SIZE as u16,
                },
                color: RGBA8::white(),
                rotation: 0,
            }),
    {
        Sprite {
            pos: Position { x: F32Bits(0), y: F32Bits(0), z: F32Bits(0) },
            size: Extent { width: 100, height: 100 },
            texture: Texture::default(),
            color: RGBA8::white(),
            rotation: 0,
        }
    }
}

impl Sprite {
    /// A sprite of `size` pixels at `pos`, rotated by `rotation` units of
    /// 1/65536th of a turn. Of each extent the low sixteen bits are kept,
    /// of the rotation what is left without its whole turns.
    pub fn new(pos: Position, size: (u32, u32), texture: Texture, color: RGBA8, rotation: i64) -> (sprite:
        Sprite)
        ensures
            sprite == (Sprite {
                pos,
                size: Extent {
                    width: (size.0 % 0x1_0000) as u16,
                    height: (size.1 % 0x1_0000) as u16,
                },
                texture,
                color,
                rotation: wrap_turns(rotation as int) as u16,
            }),
    {
        let width: u32 = size.0;
        let height: u32 = size.1;
        let x: u32 = width & 0xFFFF;
        let y: u32 = height & 0xFFFF;
        assert(x == width % 0x1_0000) by (bit_vector)
            requires
                x == width & 0xFFFF,
        ;
        assert(y == height % 0x1_0000) by (bit_vector)
            requires
                y == height & 0xFFFF,
        ;
        Sprite {
            pos,
            size: Extent { width: x as u16, height: y as u16 },
            texture,
            color,
            rotation: rotation_from_units(rotation),
        }
    }
}

// ////////////////////////////////////////////////////////
// Text
// ////////////////////////////////////////////////////////
/// Handle to reference an uploaded font with.
#[derive(Copy, Clone, Debug, PartialEq, Eq, Structural)]
pub struct FontToken {
    key: usize,
}

impl FontToken {
    pub closed spec fn spec_key(&self) -> usize {
        self.key
    }

    pub fn new(key: usize) -> (token: FontToken)
        ensures
            token.spec_key() == key,
    {
        FontToken { key }
    }

    #[verifier::when_used_as_spec(spec_key)]
    pub fn key(&self) -> (key: usize)
        ensures
            key == self.spec_key(),
    {
        self.key
    }
}

impl Default for FontToken {
    // The engine default font.
    fn default() -> (token: FontToken)
        ensures
            token.spec_key() == 0,
    {
        FontToken { key: 0 }
    }
}

/// Configuration description for text.
#[derive(Clone, Debug)]
pub struct Text {
    pub string: String,
    // Units are measured in pixels.
    pub pos: Position,
    pub max_width: Option<F32Bits>,
    pub scale: u32,
    pub color: RGBA8,
    pub font: FontToken,
}

impl Default for Text {
    fn default() -> (text: Text)
        ensures
            text.string@ == Seq::<char>::empty(),
            text.pos == origin(),
            text.max_width == None::<F32Bits>,
            text.scale == 24,
            text.color == RGBA8::black(),
            text.font.spec_key() == 0,
    {
        Text {
            string: String::new(),
            pos: Position { x: F32Bits(0), y: F32Bits(0), z: F32Bits(0) },
            max_width: None,
            scale: 24,
            color: RGBA8::black(),
            font: FontToken::default(),
        }
    }
}

impl Text {
    pub fn new(
        string: String,
        pos: Position,
        max_width: Option<F32Bits>,
        scale: u32,
        color: RGBA8,
        font: FontToken,
    ) -> (text: Text)
        ensures
            text.string == string,
            text.pos == pos,
            text.max_width == max_width,
            text.scale == scale,
            text.color == color,
            text.font == font,
    {
        Text { string, pos, max_width, scale, color, font }
    }

    /// Replaces the text that is shown, and nothing else.
    pub fn set_string(&mut self, string: &str)
        ensures
            final(self).string@ == string@,
            final(self).pos == old(self).pos,
            final(self).max_width == old(self).max_width,
            final(self).scale == old(self).scale,
            final(self).color == old(self).color,
            final(self).font == old(self).font,
    {
        self.string = string.to_owned();
    }
}

} // verus!
