//! Textures: their samplers, their pixels and their levels.
use crate::pipelines::SamplerInfo;
use crate::utils::image::{blank_desc, image, level_size, ImageDesc};
use crate::vk;
use crate::vk::{Extent2D, Extent3D};
use vstd::arithmetic::power2::{lemma_pow2_pos, lemma_pow2_unfold, pow2};
use vstd::prelude::*;

verus! {

/// How a texture goes on beyond its edges.
#[derive(Clone, Copy, Debug, PartialEq, Eq, Structural)]
pub enum WrappingMode {
    ClampToEdge,
    Repeat,
    MirroredRepeat,
}

impl WrappingMode {
    /// The place of the mode among the address modes.
    pub open spec fn place(self) -> u32 {
        match self {
            WrappingMode::ClampToEdge => 0,
            WrappingMode::Repeat => 1,
            WrappingMode::MirroredRepeat => 2,
        }
    }

    /// The address mode.
    pub open spec fn address_mode(self) -> i32 {
        match self {
            WrappingMode::ClampToEdge => vk::ADDRESS_CLAMP_TO_EDGE,
            WrappingMode::Repeat => vk::ADDRESS_REPEAT,
            WrappingMode::MirroredRepeat => vk::ADDRESS_MIRRORED_REPEAT,
        }
    }

    fn wrap_index(self) -> (r: u32)
        ensures
            r == self.place(),
    {
        match self {
            WrappingMode::ClampToEdge => 0,
            WrappingMode::Repeat => 1,
            WrappingMode::MirroredRepeat => 2,
        }
    }
}

/// The address modes that there are samplers for.
pub open spec fn address_modes() -> Seq<i32> {
    seq![vk::ADDRESS_CLAMP_TO_EDGE, vk::ADDRESS_REPEAT, vk::ADDRESS_MIRRORED_REPEAT]
}

/// The number of samplers of the scene: one for each pair of address modes.
pub const SAMPLER_COUNT: usize = 9;

/// The sampler of textures that go on in the given ways.
pub open spec fn texture_sampler(address_mode_u: i32, address_mode_v: i32) -> SamplerInfo {
    SamplerInfo {
        address_mode_u,
        address_mode_v,
        address_mode_w: vk::ADDRESS_REPEAT,
        filter: vk::FILTER_LINEAR,
        mipmap_mode: vk::MIPMAP_LINEAR,
        all_levels: true,
    }
}

/// The samplers of the scene.
pub open spec fn scene_samplers() -> Seq<SamplerInfo> {
    Seq::new(
        SAMPLER_COUNT as nat,
        |i: int| texture_sampler(address_modes()[i / 3], address_modes()[i % 3]),
    )
}

/// Lists the samplers of the scene.
pub fn sampler_infos() -> (r: Vec<SamplerInfo>)
    ensures
        r@ == scene_samplers(),
{
    let modes: [i32; 3] = [
        vk::ADDRESS_CLAMP_TO_EDGE,
        vk::ADDRESS_REPEAT,
        vk::ADDRESS_MIRRORED_REPEAT,
    ];
    let mut samplers: Vec<SamplerInfo> = Vec::new();
    let mut u: usize = 0;
    while u < 3
        invariant
            u <= 3,
            modes@ =~= address_modes(),
            samplers@.len() == 3 * u,
            forall|i: int| 0 <= i < 3 * u ==> samplers@[i] == scene_samplers()[i],
        decreases 3 - u,
    {
        let mut v: usize = 0;
        while v < 3
            invariant
                u < 3,
                v <= 3,
                modes@ =~= address_modes(),
                samplers@.len() == 3 * u + v,
                forall|i: int| 0 <= i < 3 * u + v ==> samplers@[i] == scene_samplers()[i],
            decreases 3 - v,
        {
            assert((3 * u + v) / 3 == u && (3 * u + v) % 3 == v);
            samplers.push(
                SamplerInfo {
                    address_mode_u: modes[u],
                    address_mode_v: modes[v],
                    address_mode_w: vk::ADDRESS_REPEAT,
                    filter: vk::FILTER_LINEAR,
                    mipmap_mode: vk::MIPMAP_LINEAR,
                    all_levels: true,
                },
            );
            v = v + 1;
        }
        u = u + 1;
    }
    assert(samplers@ =~= scene_samplers());
    samplers
}

/// The sampler of a texture, by its number.
pub fn sampler_index(wrap_s: WrappingMode, wrap_t: WrappingMode) -> (r: u32)
    ensures
        r == wrap_s.place() * 3 + wrap_t.place(),
        r < SAMPLER_COUNT,
{
    wrap_s.wrap_index() * 3 + wrap_t.wrap_index()
}

/// An address mode has a texture go on beyond an edge in the way of a wrapping mode.
pub open spec fn goes_on(address_mode: i32, mode: WrappingMode) -> bool {
    match mode {
        WrappingMode::ClampToEdge => address_mode == vk::ADDRESS_CLAMP_TO_EDGE,
        WrappingMode::Repeat => address_mode == vk::ADDRESS_REPEAT,
        WrappingMode::MirroredRepeat => address_mode == vk::ADDRESS_MIRRORED_REPEAT,
    }
}

/// The sampler under the number of a texture goes on beyond the edges as the texture does, across
/// and down, and blends texels and levels.
pub proof fn law_sampler_fits_texture(wrap_s: WrappingMode, wrap_t: WrappingMode)
    ensures
        scene_samplers().len() == SAMPLER_COUNT,
        wrap_s.place() * 3 + wrap_t.place() < SAMPLER_COUNT,
        ({
            let sampler = scene_samplers()[(wrap_s.place() * 3 + wrap_t.place()) as int];
            &&& goes_on(sampler.address_mode_u, wrap_s)
            &&& goes_on(sampler.address_mode_v, wrap_t)
            &&& sampler.address_mode_w == vk::ADDRESS_REPEAT
            &&& sampler.filter == vk::FILTER_LINEAR
            &&& sampler.mipmap_mode == vk::MIPMAP_LINEAR
            &&& sampler.all_levels
        }),
        scene_samplers()[(wrap_s.place() * 3 + wrap_t.place()) as int] == texture_sampler(
            wrap_s.address_mode(),
            wrap_t.address_mode(),
        ),
{
    let i = (wrap_s.place() * 3 + wrap_t.place()) as int;
    assert(i / 3 == wrap_s.place() && i % 3 == wrap_t.place());
}

/// A texture of a material: which image, and how it goes on beyond its edges.
#[derive(Clone, Copy, Debug, PartialEq, Eq, Structural)]
pub struct TextureRef {
    pub source: usize,
    pub wrap_s: WrappingMode,
    pub wrap_t: WrappingMode,
}

/// How the pixels of an image are stored.
#[derive(Clone, Copy, Debug, PartialEq, Eq, Structural)]
pub enum PixelFormat {
    R8G8B8A8,
    R8G8B8,
    R8G8,
    R8,
    /// Any other format, by its number.
    Other(u32),
}

impl PixelFormat {
    /// The bytes of a pixel.
    pub open spec fn channels(self) -> int {
        match self {
            PixelFormat::R8G8B8A8 => 4,
            PixelFormat::R8G8B8 => 3,
            PixelFormat::R8G8 => 2,
            _ => 1,
        }
    }
}

/// A channel of a pixel: one that is stored, or else full alpha or no colour.
pub open spec fn channel(format: PixelFormat, pixels: Seq<u8>, pixel: int, k: int) -> u8 {
    if k < format.channels() {
        pixels[pixel * format.channels() + k]
    } else if k == 3 {
        255
    } else {
        0
    }
}

/// The pixels with four channels each. Bytes that are left over after the last whole pixel are
/// dropped, but for pixels that have four channels already, which are kept as they are.
pub open spec fn four_channels(format: PixelFormat, pixels: Seq<u8>) -> Seq<u8> {
    if format == PixelFormat::R8G8B8A8 {
        pixels
    } else {
        Seq::new(
            4 * (pixels.len() as int / format.channels()) as nat,
            |i: int| channel(format, pixels, i / 4, i % 4),
        )
    }
}

/// Gives the pixels of an image four channels each, unless they are in a format that is not
/// supported.
pub fn expand_pixels(format: PixelFormat, pixels: &Vec<u8>) -> (r: Option<Vec<u8>>)
    ensures
        match r {
            Some(expanded) => !(format is Other) && expanded@ == four_channels(format, pixels@),
            None => format is Other,
        },
{
    let step: usize = match format {
        PixelFormat::R8G8B8A8 => {
            return Some(copy_bytes(pixels));
        },
        PixelFormat::R8G8B8 => 3,
        PixelFormat::R8G8 => 2,
        PixelFormat::R8 => 1,
        PixelFormat::Other(_) => {
            return None;
        },
    };
    let mut expanded: Vec<u8> = Vec::new();
    let count: usize = pixels.len() / step;
    let mut i: usize = 0;
    while i < count
        invariant
            step == format.channels(),
            1 <= step <= 3,
            i <= count,
            count == pixels@.len() / step as nat,
            pixels@.len() <= usize::MAX,
            expanded@.len() == 4 * i,
            forall|j: int|
                0 <= j < 4 * i ==> expanded@[j] == channel(format, pixels@, j / 4, j % 4),
        decreases count - i,
    {
        assert(i * step + step <= pixels@.len()) by {
            vstd::arithmetic::div_mod::lemma_fundamental_div_mod(
                pixels@.len() as int,
                step as int,
            );
            assert(i * step + step <= step * count) by (nonlinear_arith)
                requires
                    i + 1 <= count,
                    step >= 0,
            ;
        }
        let at: usize = i * step;
        let g: u8 = if step >= 2 {
            pixels[at + 1]
        } else {
            0
        };
        let b: u8 = if step >= 3 {
            pixels[at + 2]
        } else {
            0
        };
        expanded.push(pixels[at]);
        expanded.push(g);
        expanded.push(b);
        expanded.push(255);
        i = i + 1;
        assert forall|j: int| 0 <= j < 4 * i implies expanded@[j] == channel(
            format,
            pixels@,
            j / 4,
            j % 4,
        ) by {
            if j >= 4 * (i - 1) {
                let k = j - 4 * (i - 1);
                assert(j / 4 == i - 1 && j % 4 == k);
            }
        }
    }
    assert(expanded@ =~= four_channels(format, pixels@));
    Some(expanded)
}

fn copy_bytes(bytes: &Vec<u8>) -> (r: Vec<u8>)
    ensures
        r@ == bytes@,
{
    let mut r: Vec<u8> = Vec::new();
    r.extend_from_slice(bytes.as_slice());
    assert(r@ =~= bytes@);
    r
}

/// Marks the images that hold colours rather than data: those that some material takes its base
/// colour or its emission from.
pub open spec fn holds_color(colors: Seq<Option<usize>>, image: int) -> bool {
    exists|i: int| 0 <= i < colors.len() && #[trigger] colors[i] == Some(image as usize)
}

/// Marks the images that are used as colours.
pub fn mark_colors(colors: &Vec<Option<usize>>, images: usize) -> (r: Vec<bool>)
    requires
        forall|i: int|
            0 <= i < colors@.len() ==> match #[trigger] colors@[i] {
                Some(image) => image < images,
                None => true,
            },
    ensures
        r@.len() == images,
        forall|image: int|
            0 <= image < images ==> #[trigger] r@[image] == holds_color(colors@, image),
{
    let mut marks: Vec<bool> = Vec::new();
    let mut n: usize = 0;
    while n < images
        invariant
            n <= images,
            marks@.len() == n,
            forall|image: int| 0 <= image < n ==> !#[trigger] marks@[image],
        decreases images - n,
    {
        marks.push(false);
        n = n + 1;
    }
    let mut i: usize = 0;
    while i < colors.len()
        invariant
            i <= colors@.len(),
            marks@.len() == images,
            forall|j: int|
                0 <= j < colors@.len() ==> match #[trigger] colors@[j] {
                    Some(image) => image < images,
                    None => true,
                },
            forall|image: int|
                0 <= image < images ==> #[trigger] marks@[image] == holds_color(
                    colors@.take(i as int),
                    image,
                ),
        decreases colors@.len() - i,
    {
        let ghost before = marks@;
        match colors[i] {
            Some(image) => {
                marks.set(image, true);
            },
            None => {},
        }
        assert forall|image: int| 0 <= image < images implies #[trigger] marks@[image]
            == holds_color(colors@.take(i + 1), image) by {
            let earlier = colors@.take(i as int);
            let later = colors@.take(i + 1);
            assert(later[i as int] == colors@[i as int]);
            if holds_color(earlier, image) {
                let k = choose|k: int|
                    0 <= k < earlier.len() && #[trigger] earlier[k] == Some(image as usize);
                assert(later[k] == Some(image as usize));
            }
            if holds_color(later, image) && colors@[i as int] != Some(image as usize) {
                let k = choose|k: int|
                    0 <= k < later.len() && #[trigger] later[k] == Some(image as usize);
                assert(earlier[k] == Some(image as usize));
            }
            assert(before[image] == holds_color(earlier, image));
        }
        i = i + 1;
    }
    assert(colors@.take(colors@.len() as int) =~= colors@);
    marks
}

/// The number of levels that take an image down to a single texel.
pub open spec fn is_level_count(levels: nat, width: u32, height: u32) -> bool {
    let longest = if width >= height {
        width
    } else {
        height
    };
    levels > 0 && pow2((levels - 1) as nat) <= longest < pow2(levels)
}

/// Counts the levels that take an image down to a single texel.
pub fn mip_levels(width: u32, height: u32) -> (r: u32)
    requires
        width > 0 || height > 0,
    ensures
        is_level_count(r as nat, width, height),
        r <= 32,
{
    let longest: u32 = if width >= height {
        width
    } else {
        height
    };
    let mut levels: u32 = 1;
    let mut rest: u32 = longest;
    proof {
        lemma_pow2_unfold(1);
        vstd::arithmetic::power2::lemma2_to64();
    }
    while rest > 1
        invariant
            1 <= levels <= 32,
            rest >= 1,
            rest < pow2((33 - levels) as nat),
            rest * pow2((levels - 1) as nat) <= longest,
            longest < (rest + 1) * pow2((levels - 1) as nat),
        decreases rest,
    {
        let half: u32 = rest / 2;
        proof {
            let p = pow2((levels - 1) as nat);
            lemma_pow2_unfold(levels as nat);
            assert(pow2(levels as nat) == 2 * p);
            assert(half * (2 * p) <= rest * p) by (nonlinear_arith)
                requires
                    half * 2 <= rest,
                    p >= 0,
            ;
            assert((rest + 1) * p <= (half + 1) * (2 * p)) by (nonlinear_arith)
                requires
                    rest + 1 <= 2 * (half + 1),
                    p >= 0,
            ;
            lemma_pow2_unfold((33 - levels) as nat);
            if levels == 32 {
                vstd::arithmetic::power2::lemma2_to64();
            }
        }
        rest = half;
        levels = levels + 1;
    }
    proof {
        lemma_pow2_unfold(levels as nat);
    }
    levels
}

/// The last level is a single texel, and the one before it is not.
pub proof fn law_levels_reach_one_texel(levels: nat, width: u32, height: u32)
    requires
        is_level_count(levels, width, height),
        width > 0,
        height > 0,
    ensures
        level_size(width, (levels - 1) as nat) == 1,
        level_size(height, (levels - 1) as nat) == 1,
        levels >= 2 ==> level_size(width, (levels - 2) as nat) > 1 || level_size(
            height,
            (levels - 2) as nat,
        ) > 1,
{
    let p = pow2((levels - 1) as nat) as int;
    lemma_pow2_pos((levels - 1) as nat);
    lemma_pow2_unfold(levels);
    assert(pow2(levels) == 2 * p);
    assert(width as int / p <= 1) by (nonlinear_arith)
        requires
            width < 2 * p,
            p > 0,
    ;
    assert(height as int / p <= 1) by (nonlinear_arith)
        requires
            height < 2 * p,
            p > 0,
    ;
    if levels == 1 {
        vstd::arithmetic::power2::lemma2_to64();
    } else {
        let q = pow2((levels - 2) as nat) as int;
        lemma_pow2_pos((levels - 2) as nat);
        lemma_pow2_unfold((levels - 1) as nat);
        assert(p == 2 * q);
        let longest = if width >= height {
            width
        } else {
            height
        };
        assert(longest as int / q >= 2) by (nonlinear_arith)
            requires
                longest >= 2 * q,
                q > 0,
        ;
        assert(longest as int / q <= longest) by (nonlinear_arith)
            requires
                longest >= 0,
                q > 0,
        ;
        if levels == 2 {
            vstd::arithmetic::power2::lemma2_to64();
        }
    }
}

/// The format of a texture: with the colour curve undone on reading, if it holds colours.
pub open spec fn texture_format(srgb: bool) -> i32 {
    if srgb {
        vk::FORMAT_R8G8B8A8_SRGB
    } else {
        vk::FORMAT_R8G8B8A8_UNORM
    }
}

/// Describes the image of a texture. Its levels are made from one another, so it is read from.
pub fn texture_desc(width: u32, height: u32, srgb: bool) -> (r: ImageDesc)
    requires
        width > 0 || height > 0,
    ensures
        is_level_count(r.mip_levels as nat, width, height),
        srgb ==> r.format == vk::FORMAT_R8G8B8A8_SRGB,
        !srgb ==> r.format == vk::FORMAT_R8G8B8A8_UNORM,
        r == (ImageDesc {
            image_type: vk::IMAGE_TYPE_2D,
            format: texture_format(srgb),
            extent: Extent3D { width, height, depth: 1 },
            mip_levels: r.mip_levels,
            usage: vk::IMAGE_USAGE_SAMPLED | vk::IMAGE_USAGE_TRANSFER_SRC,
            ..blank_desc()
        }),
{
    let format: i32 = if srgb {
        vk::FORMAT_R8G8B8A8_SRGB
    } else {
        vk::FORMAT_R8G8B8A8_UNORM
    };
    image().extent_2d(Extent2D { width, height }).format(format).mip_levels(
        mip_levels(width, height),
    ).usage(vk::IMAGE_USAGE_SAMPLED | vk::IMAGE_USAGE_TRANSFER_SRC)
}


/// Every whole pixel keeps the channels that it has, in their places; green and blue that it lacks
/// are none, and alpha that it lacks is full. There are four bytes for each whole pixel.
pub proof fn law_pixels_keep_channels(format: PixelFormat, pixels: Seq<u8>, i: int)
    requires
        !(format is Other),
        0 <= i,
        format is R8G8B8A8 ==> 4 * i + 3 < pixels.len(),
        format is R8G8B8 ==> 3 * i + 2 < pixels.len(),
        format is R8G8 ==> 2 * i + 1 < pixels.len(),
        format is R8 ==> i < pixels.len(),
    ensures
        ({
            let r = four_channels(format, pixels);
            &&& 4 * i + 3 < r.len()
            &&& match format {
                PixelFormat::R8G8B8A8 => r == pixels,
                PixelFormat::R8G8B8 => {
                    &&& r.len() == pixels.len() / 3 * 4
                    &&& r[4 * i] == pixels[3 * i]
                    &&& r[4 * i + 1] == pixels[3 * i + 1]
                    &&& r[4 * i + 2] == pixels[3 * i + 2]
                    &&& r[4 * i + 3] == 255
                },
                PixelFormat::R8G8 => {
                    &&& r.len() == pixels.len() / 2 * 4
                    &&& r[4 * i] == pixels[2 * i]
                    &&& r[4 * i + 1] == pixels[2 * i + 1]
                    &&& r[4 * i + 2] == 0
                    &&& r[4 * i + 3] == 255
                },
                _ => {
                    &&& r.len() == pixels.len() * 4
                    &&& r[4 * i] == pixels[i]
                    &&& r[4 * i + 1] == 0
                    &&& r[4 * i + 2] == 0
                    &&& r[4 * i + 3] == 255
                },
            }
        }),
{
    assert((4 * i) / 4 == i && (4 * i) % 4 == 0);
    assert((4 * i + 1) / 4 == i && (4 * i + 1) % 4 == 1);
    assert((4 * i + 2) / 4 == i && (4 * i + 2) % 4 == 2);
    assert((4 * i + 3) / 4 == i && (4 * i + 3) % 4 == 3);
}

} // verus!
