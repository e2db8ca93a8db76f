//! The one-dimensional textures that carry the array to the field shader:
//! one texel for each source, or for each sample of the colour ramp.

use vstd::prelude::*;
use crate::sound_source::SoundSource;
use crate::unorm::{unorm8_floor, unorm8_floor_spec, unorm8_round, unorm8_round_spec};

verus! {

/// A colour whose channels are normalized: 65535 is full intensity.
#[derive(Debug, Clone, Copy, PartialEq, Eq, Structural)]
pub struct RgbColor {
    pub r: u16,
    pub g: u16,
    pub b: u16,
}

/// The texel of a source's drive: its phase and amplitude, each rounded to a
/// byte, then two bytes that nothing reads.
pub open spec fn drive_texel_spec(source: SoundSource) -> [u8; 4] {
    [unorm8_round_spec(source.phase), unorm8_round_spec(source.amp), 0u8, 0u8]
}

/// The texel of a source's position: its three coordinates, then a word that
/// nothing reads.
pub open spec fn position_texel_spec(source: SoundSource) -> [u32; 4] {
    [source.pos[0], source.pos[1], source.pos[2], 0u32]
}

/// The texel of a colour drawn with opacity `alpha`: each channel and the
/// opacity truncated to a byte.
pub open spec fn color_texel_spec(color: RgbColor, alpha: u16) -> [u8; 4] {
    [
        unorm8_floor_spec(color.r),
        unorm8_floor_spec(color.g),
        unorm8_floor_spec(color.b),
        unorm8_floor_spec(alpha),
    ]
}

/// The drive texture of an array: the texels of its sources, in order.
pub open spec fn drive_texels_spec(sources: Seq<SoundSource>) -> Seq<[u8; 4]> {
    Seq::new(sources.len(), |i: int| drive_texel_spec(sources[i]))
}

/// The position texture of an array: the texels of its sources, in order.
pub open spec fn position_texels_spec(sources: Seq<SoundSource>) -> Seq<[u32; 4]> {
    Seq::new(sources.len(), |i: int| position_texel_spec(sources[i]))
}

/// The ramp texture: the texels of the samples, in order, all with one opacity.
pub open spec fn color_texels_spec(colors: Seq<RgbColor>, alpha: u16) -> Seq<[u8; 4]> {
    Seq::new(colors.len(), |i: int| color_texel_spec(colors[i], alpha))
}

/// Encodes the drive of one source.
pub fn drive_texel(source: &SoundSource) -> (t: [u8; 4])
    ensures
        t == drive_texel_spec(*source),
{
    let t: [u8; 4] = [unorm8_round(source.phase), unorm8_round(source.amp), 0, 0];
    assert(t =~= drive_texel_spec(*source));
    t
}

/// Encodes the position of one source.
pub fn position_texel(source: &SoundSource) -> (t: [u32; 4])
    ensures
        t == position_texel_spec(*source),
{
    let t: [u32; 4] = [source.pos[0], source.pos[1], source.pos[2], 0];
    assert(t =~= position_texel_spec(*source));
    t
}

/// Encodes one sample of the ramp with opacity `alpha`.
pub fn color_texel(color: &RgbColor, alpha: u16) -> (t: [u8; 4])
    ensures
        t == color_texel_spec(*color, alpha),
{
    let t: [u8; 4] = [
        unorm8_floor(color.r),
        unorm8_floor(color.g),
        unorm8_floor(color.b),
        unorm8_floor(alpha),
    ];
    assert(t =~= color_texel_spec(*color, alpha));
    t
}

/// Encodes the drive of every source.
pub fn drive_texels(sources: &[SoundSource]) -> (texels: Vec<[u8; 4]>)
    ensures
        texels@ == drive_texels_spec(sources@),
{
    let mut texels: Vec<[u8; 4]> = Vec::with_capacity(sources.len());
    let mut i: usize = 0;
    while i < sources.len()
        invariant
            i <= sources.len(),
            texels@ == drive_texels_spec(sources@.take(i as int)),
        decreases sources.len() - i,
    {
        texels.push(drive_texel(&sources[i]));
        i += 1;
        assert(texels@ =~= drive_texels_spec(sources@.take(i as int)));
    }
    assert(sources@.take(i as int) =~= sources@);
    texels
}

/// Encodes the position of every source.
pub fn position_texels(sources: &[SoundSource]) -> (texels: Vec<[u32; 4]>)
    ensures
        texels@ == position_texels_spec(sources@),
{
    let mut texels: Vec<[u32; 4]> = Vec::with_capacity(sources.len());
    let mut i: usize = 0;
    while i < sources.len()
        invariant
            i <= sources.len(),
            texels@ == position_texels_spec(sources@.take(i as int)),
        decreases sources.len() - i,
    {
        texels.push(position_texel(&sources[i]));
        i += 1;
        assert(texels@ =~= position_texels_spec(sources@.take(i as int)));
    }
    assert(sources@.take(i as int) =~= sources@);
    texels
}

/// Encodes every sample of the ramp with opacity `alpha`.
pub fn color_texels(colors: &[RgbColor], alpha: u16) -> (texels: Vec<[u8; 4]>)
    ensures
        texels@ == color_texels_spec(colors@, alpha),
{
    let mut texels: Vec<[u8; 4]> = Vec::with_capacity(colors.len());
    let mut i: usize = 0;
    while i < colors.len()
        invariant
            i <= colors.len(),
            texels@ == color_texels_spec(colors@.take(i as int), alpha),
        decreases colors.len() - i,
    {
        texels.push(color_texel(&colors[i], alpha));
        i += 1;
        assert(texels@ =~= color_texels_spec(colors@.take(i as int), alpha));
    }
    assert(colors@.take(i as int) =~= colors@);
    texels
}

} // verus!
