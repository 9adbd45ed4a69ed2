use tristage::color::RGBA8;
use tristage::texture::PIXEL_SIZE;
use tristage::types::{
    rotation_from_units, BatchToken, Extent, F32Bits, FontToken, Position, Sprite, Text, Texture,
    TextureError, WindowSettings, WindowSize,
};
use tristage::utility::unordered_tracker::UnorderedTracker;

fn texture(xmin: u16, xmax: u16, ymin: u16, ymax: u16) -> Texture {
    Texture { xmin, xmax, ymin, ymax }
}

fn bits(value: f32) -> F32Bits {
    F32Bits(value.to_bits())
}

#[test]
fn pixel_size_is_eight_units() {
    assert_eq!(PIXEL_SIZE, 8);
}

#[test]
fn default_texture_is_one_pixel() {
    assert_eq!(Texture::default(), texture(0, 8, 0, 8));
}

#[test]
fn sub_texture_without_size_is_refused() {
    let sources =
        [Texture::default(), texture(0, 800, 0, 800), texture(65535, 0, 65535, 0), texture(0, 0, 0, 0)];
    for source in sources.iter() {
        assert_eq!(source.sub_texture(0, 0, 0, 5), Err(TextureError::SizeMustBePositive));
        assert_eq!(source.sub_texture(0, 0, 5, 0), Err(TextureError::SizeMustBePositive));
        assert_eq!(source.sub_texture(9, 9, 0, 0), Err(TextureError::SizeMustBePositive));
    }
}

#[test]
fn sub_texture_beyond_the_right_edge_is_refused() {
    let source = texture(80, 160, 0, 160);
    // Ten pixels wide: a sub texture may end at pixel ten and not behind it.
    assert!(source.sub_texture(0, 0, 10, 1).is_ok());
    assert_eq!(source.sub_texture(0, 0, 11, 1), Err(TextureError::OutOfBounds));
    assert_eq!(source.sub_texture(10, 0, 1, 1), Err(TextureError::OutOfBounds));
    assert_eq!(source.sub_texture(5, 0, 6, 1), Err(TextureError::OutOfBounds));
}

#[test]
fn sub_texture_beyond_the_bottom_edge_is_refused() {
    let source = texture(0, 160, 40, 80);
    assert!(source.sub_texture(0, 0, 1, 5).is_ok());
    assert_eq!(source.sub_texture(0, 0, 1, 6), Err(TextureError::OutOfBounds));
    assert_eq!(source.sub_texture(0, 5, 1, 1), Err(TextureError::OutOfBounds));
}

#[test]
fn sub_texture_is_measured_in_pixels_from_the_top_left() {
    let source = texture(80, 880, 160, 960);
    assert_eq!(source.sub_texture(0, 0, 100, 100), Ok(source));
    assert_eq!(source.sub_texture(2, 3, 4, 5), Ok(texture(96, 128, 184, 224)));
}

#[test]
fn sub_texture_of_the_largest_request_does_not_wrap() {
    let source = texture(0, 65535, 0, 65535);
    assert_eq!(source.sub_texture(65535, 65535, 65535, 65535), Err(TextureError::OutOfBounds));
    assert_eq!(source.sub_texture(8192, 0, 1, 1), Err(TextureError::OutOfBounds));
    assert_eq!(source.sub_texture(8190, 8190, 1, 1), Ok(texture(65520, 65528, 65520, 65528)));
    assert_eq!(source.sub_texture(8191, 0, 1, 1), Err(TextureError::OutOfBounds));
}

#[test]
fn sub_texture_of_a_mirrored_texture_is_not_mirrored() {
    let source = texture(0, 80, 0, 80).mirror_y().mirror_x();
    assert_eq!(source, texture(80, 0, 80, 0));
    assert_eq!(source.sub_texture(1, 1, 2, 2), Ok(texture(8, 24, 8, 24)));
}

#[test]
fn mirrors_exchange_the_bounds_of_one_axis() {
    let source = texture(1, 2, 3, 4);
    assert_eq!(source.mirror_y(), texture(2, 1, 3, 4));
    assert_eq!(source.mirror_x(), texture(1, 2, 4, 3));
    assert_eq!(source.mirror_x().mirror_x(), source);
    assert_eq!(source.mirror_y().mirror_y(), source);
}

#[test]
fn rotation_drops_whole_turns() {
    assert_eq!(rotation_from_units(0), 0);
    assert_eq!(rotation_from_units(49152), 49152);
    assert_eq!(rotation_from_units(49152 + 65536), 49152);
    assert_eq!(rotation_from_units(65536), 0);
    assert_eq!(rotation_from_units(65535), 65535);
    assert_eq!(rotation_from_units(-1), 65535);
    assert_eq!(rotation_from_units(-26214), 39322);
    assert_eq!(rotation_from_units(i64::MAX), 65535);
    assert_eq!(rotation_from_units(i64::MIN), 0);
}

/// The part that stays with the caller: turns as a float to units.
fn units_of(turns: f64) -> i64 {
    (turns * 65536.0).round() as i64
}

#[test]
fn rotation_of_three_quarter_turns_round_trips() {
    let encoded = rotation_from_units(units_of(0.75));
    assert_eq!(encoded, 49152);
    let decoded = encoded as f64 / 65536.0;
    assert!((decoded - 0.75).abs() <= 1.0 / 65536.0);
    assert_eq!(rotation_from_units(units_of(1.75)), encoded);
    assert_eq!(rotation_from_units(units_of(-0.25)), encoded);
}

#[test]
fn sprite_new_keeps_sixteen_bits_of_each_extent() {
    let pos = Position { x: bits(1.5), y: bits(-2.0), z: bits(0.25) };
    let color = RGBA8::new(1, 2, 3, 4);
    let sprite = Sprite::new(pos, (100, 0x1_0005), texture(0, 8, 0, 8), color, 65536 + 7);
    assert_eq!(
        sprite,
        Sprite {
            pos,
            size: Extent { width: 100, height: 5 },
            texture: texture(0, 8, 0, 8),
            color,
            rotation: 7,
        }
    );
    let wide = Sprite::new(pos, (65535, u32::MAX), Texture::default(), color, -1);
    assert_eq!(wide.size, Extent { width: 65535, height: 65535 });
    assert_eq!(wide.rotation, 65535);
    assert_eq!(f32::from_bits(sprite.pos.y.0), -2.0);
}

#[test]
fn default_sprite_is_a_white_square_of_a_hundred_pixels() {
    let sprite = Sprite::default();
    assert_eq!(sprite.pos, Position { x: bits(0.0), y: bits(0.0), z: bits(0.0) });
    assert_eq!(sprite.size, Extent { width: 100, height: 100 });
    assert_eq!(sprite.texture, Texture::default());
    assert_eq!(sprite.color, RGBA8 { r: 255, g: 255, b: 255, a: 255 });
    assert_eq!(sprite.rotation, 0);
}

#[test]
fn colours() {
    assert_eq!(RGBA8::white(), RGBA8::new(255, 255, 255, 255));
    assert_eq!(RGBA8::black(), RGBA8::new(0, 0, 0, 255));
}

#[test]
fn tokens_hand_their_key_back() {
    assert_eq!(FontToken::default().key(), 0);
    assert_eq!(FontToken::new(3).key(), 3);
    let mut batches = UnorderedTracker::new();
    let first = batches.add();
    let second = batches.add();
    assert!(BatchToken::new(first).key() == first);
    assert_eq!(BatchToken::new(first), BatchToken::new(first));
    assert!(BatchToken::new(first) != BatchToken::new(second));
}

#[test]
fn default_text_is_empty_and_black() {
    let text = Text::default();
    assert_eq!(text.string, "");
    assert_eq!(text.pos, Position { x: bits(0.0), y: bits(0.0), z: bits(0.0) });
    assert_eq!(text.max_width, None);
    assert_eq!(text.scale, 24);
    assert_eq!(text.color, RGBA8::black());
    assert_eq!(text.font, FontToken::default());
}

#[test]
fn set_string_replaces_the_string_alone() {
    let pos = Position { x: bits(1.0), y: bits(2.0), z: bits(3.0) };
    let mut text = Text::new(
        String::from("before"),
        pos,
        Some(bits(120.0)),
        16,
        RGBA8::white(),
        FontToken::new(2),
    );
    text.set_string("after");
    assert_eq!(text.string, "after");
    assert_eq!(text.pos, pos);
    assert_eq!(text.max_width, Some(bits(120.0)));
    assert_eq!(text.scale, 16);
    assert_eq!(text.color, RGBA8::white());
    assert_eq!(text.font, FontToken::new(2));
    text.set_string("");
    assert_eq!(text.string, "");
}

#[test]
fn window_settings_hold_what_they_are_given() {
    let settings = WindowSettings {
        title: String::from("title"),
        size: WindowSize { width: 500, height: 500 },
        resizable: true,
    };
    let copy = settings.clone();
    assert_eq!(copy.title, "title");
    assert_eq!(copy.size, WindowSize { width: 500, height: 500 });
    assert!(copy.resizable);
}
