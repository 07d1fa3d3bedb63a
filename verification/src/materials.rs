//! Materials and objects, as the shaders read them.
use crate::geometry::push_words;
use crate::outside::{cast_words, native_words};
use crate::textures::{
    goes_on, holds_color, law_sampler_fits_texture, sampler_index, scene_samplers, TextureRef,
    SAMPLER_COUNT,
};
use crate::vk;
use vstd::prelude::*;

verus! {

/// An object of the scene. Every number is held as the bits of a single-precision number.
#[derive(Clone, Copy, Debug, PartialEq, Eq)]
pub struct ObjectData {
    /// The transform, column by column.
    pub transform: [u32; 16],
    /// The transform of normals, column by column.
    pub normal_transform: [u32; 9],
}

impl ObjectData {
    /// The words that the shader reads: the fields in order, without gaps.
    pub open spec fn words(self) -> Seq<u32> {
        self.transform@ + self.normal_transform@
    }
}

/// The words of objects, one after the other.
pub open spec fn objects_words(objects: Seq<ObjectData>) -> Seq<u32>
    decreases objects.len(),
{
    if objects.len() == 0 {
        Seq::empty()
    } else {
        objects_words(objects.drop_last()) + objects.last().words()
    }
}

/// The contents of the buffer of objects.
pub fn object_bytes(objects: &Vec<ObjectData>) -> (r: Vec<u8>)
    ensures
        native_words(objects_words(objects@), r@),
{
    let mut words: Vec<u32> = Vec::new();
    let mut i: usize = 0;
    while i < objects.len()
        invariant
            i <= objects@.len(),
            words@ == objects_words(objects@.take(i as int)),
        decreases objects@.len() - i,
    {
        let o = objects[i];
        push_words(&mut words, &o.transform);
        push_words(&mut words, &o.normal_transform);
        assert(objects@.take(i + 1).drop_last() =~= objects@.take(i as int));
        assert(words@ =~= objects_words(objects@.take(i as int)) + o.words());
        i = i + 1;
    }
    assert(objects@.take(objects@.len() as int) =~= objects@);
    cast_words(words.as_slice())
}

/// A material of the scene. Every number is held as the bits of a single-precision number.
#[derive(Clone, Copy, Debug, PartialEq, Eq)]
pub struct MaterialDesc {
    pub albedo_factor: [u32; 4],
    pub emissive_factor: [u32; 3],
    pub metallic_factor: u32,
    pub roughness_factor: u32,
    pub alpha_cutoff: Option<u32>,
    pub base_color: Option<TextureRef>,
    pub metallic_roughness: Option<TextureRef>,
    pub normal: Option<TextureRef>,
    pub occlusion: Option<TextureRef>,
    pub emissive: Option<TextureRef>,
}

/// A material as the shaders read it.
#[derive(Clone, Copy, Debug, PartialEq, Eq)]
pub struct MaterialData {
    pub albedo_factor: [u32; 4],
    pub emissive_factor: [u32; 3],
    pub metallic_factor: u32,
    pub roughness_factor: u32,
    pub alpha_cutoff: u32,
    pub base_color_texture: i32,
    pub metallic_roughness_texture: i32,
    pub normal_texture: i32,
    pub occlusion_texture: i32,
    pub emissive_texture: i32,
    pub albedo_sampler_index: u32,
    pub metallic_roughness_sampler_index: u32,
    pub normal_sampler_index: u32,
    pub occlusion_sampler_index: u32,
    pub emissive_sampler_index: u32,
}

/// A signed number as a word, in two's complement.
pub open spec fn signed_word(i: i32) -> u32 {
    if i >= 0 {
        i as u32
    } else {
        (0x1_0000_0000 + i) as u32
    }
}

fn to_word(i: i32) -> (r: u32)
    ensures
        r == signed_word(i),
{
    if i >= 0 {
        i as u32
    } else {
        0xffff_ffff - (-(i + 1)) as u32
    }
}

/// The number of the image of a texture, or -1 where there is none.
pub open spec fn texture_number(texture: Option<TextureRef>) -> i32 {
    match texture {
        Some(texture) => texture.source as i32,
        None => -1i32,
    }
}

/// The number of the sampler of a texture, or the first one where there is none.
pub open spec fn sampler_number(texture: Option<TextureRef>) -> u32 {
    match texture {
        Some(texture) => (texture.wrap_s.place() * 3 + texture.wrap_t.place()) as u32,
        None => 0,
    }
}

/// The number of an image fits.
pub open spec fn texture_fits(texture: Option<TextureRef>, images: nat) -> bool {
    match texture {
        Some(texture) => texture.source < images && texture.source <= i32::MAX,
        None => true,
    }
}

/// A number is that of the image of a texture, and -1 just where there is none.
pub open spec fn finds_image(number: i32, texture: Option<TextureRef>) -> bool {
    match texture {
        Some(texture) => number == texture.source,
        None => number == -1,
    }
}

/// A number is that of a sampler that goes on beyond the edges as a texture does, if there is one.
pub open spec fn finds_sampler(number: u32, texture: Option<TextureRef>) -> bool {
    &&& number < SAMPLER_COUNT
    &&& match texture {
        Some(texture) => {
            &&& goes_on(scene_samplers()[number as int].address_mode_u, texture.wrap_s)
            &&& goes_on(scene_samplers()[number as int].address_mode_v, texture.wrap_t)
        },
        None => number == 0,
    }
}

proof fn lemma_texture_is_found(texture: Option<TextureRef>)
    requires
        texture_fits(texture, usize::MAX as nat + 1),
    ensures
        finds_image(texture_number(texture), texture),
        finds_sampler(sampler_number(texture), texture),
        texture_number(texture) == -1 <==> texture is None,
{
    if let Some(texture) = texture {
        law_sampler_fits_texture(texture.wrap_s, texture.wrap_t);
    }
}

fn find_texture(texture: &Option<TextureRef>) -> (r: (i32, u32))
    requires
        texture_fits(*texture, usize::MAX as nat + 1),
    ensures
        r == (texture_number(*texture), sampler_number(*texture)),
        finds_image(r.0, *texture),
        finds_sampler(r.1, *texture),
{
    proof {
        lemma_texture_is_found(*texture);
    }
    match texture {
        Some(texture) => (texture.source as i32, sampler_index(texture.wrap_s, texture.wrap_t)),
        None => (-1, 0),
    }
}

impl MaterialDesc {
    /// All images that the material refers to exist.
    pub open spec fn fits(&self, images: nat) -> bool {
        &&& texture_fits(self.base_color, images)
        &&& texture_fits(self.metallic_roughness, images)
        &&& texture_fits(self.normal, images)
        &&& texture_fits(self.occlusion, images)
        &&& texture_fits(self.emissive, images)
    }

    /// The material as the shaders read it. Without a cutoff, half is the limit.
    pub open spec fn data(self) -> MaterialData {
        MaterialData {
            albedo_factor: self.albedo_factor,
            emissive_factor: self.emissive_factor,
            metallic_factor: self.metallic_factor,
            roughness_factor: self.roughness_factor,
            alpha_cutoff: match self.alpha_cutoff {
                Some(cutoff) => cutoff,
                None => vk::F32_HALF,
            },
            base_color_texture: texture_number(self.base_color),
            metallic_roughness_texture: texture_number(self.metallic_roughness),
            normal_texture: texture_number(self.normal),
            occlusion_texture: texture_number(self.occlusion),
            emissive_texture: texture_number(self.emissive),
            albedo_sampler_index: sampler_number(self.base_color),
            metallic_roughness_sampler_index: sampler_number(self.metallic_roughness),
            normal_sampler_index: sampler_number(self.normal),
            occlusion_sampler_index: sampler_number(self.occlusion),
            emissive_sampler_index: sampler_number(self.emissive),
        }
    }

    /// Works out the material as the shaders read it.
    pub fn to_data(&self) -> (r: MaterialData)
        requires
            self.fits(usize::MAX as nat + 1),
        ensures
            r == self.data(),
            r.albedo_factor == self.albedo_factor,
            r.emissive_factor == self.emissive_factor,
            r.metallic_factor == self.metallic_factor,
            r.roughness_factor == self.roughness_factor,
            match self.alpha_cutoff {
                Some(cutoff) => r.alpha_cutoff == cutoff,
                None => r.alpha_cutoff == vk::F32_HALF,
            },
            finds_image(r.base_color_texture, self.base_color),
            finds_image(r.metallic_roughness_texture, self.metallic_roughness),
            finds_image(r.normal_texture, self.normal),
            finds_image(r.occlusion_texture, self.occlusion),
            finds_image(r.emissive_texture, self.emissive),
            finds_sampler(r.albedo_sampler_index, self.base_color),
            finds_sampler(r.metallic_roughness_sampler_index, self.metallic_roughness),
            finds_sampler(r.normal_sampler_index, self.normal),
            finds_sampler(r.occlusion_sampler_index, self.occlusion),
            finds_sampler(r.emissive_sampler_index, self.emissive),
    {
        let base_color = find_texture(&self.base_color);
        let metallic_roughness = find_texture(&self.metallic_roughness);
        let normal = find_texture(&self.normal);
        let occlusion = find_texture(&self.occlusion);
        let emissive = find_texture(&self.emissive);
        MaterialData {
            albedo_factor: self.albedo_factor,
            emissive_factor: self.emissive_factor,
            metallic_factor: self.metallic_factor,
            roughness_factor: self.roughness_factor,
            alpha_cutoff: match self.alpha_cutoff {
                Some(cutoff) => cutoff,
                None => vk::F32_HALF,
            },
            base_color_texture: base_color.0,
            metallic_roughness_texture: metallic_roughness.0,
            normal_texture: normal.0,
            occlusion_texture: occlusion.0,
            emissive_texture: emissive.0,
            albedo_sampler_index: base_color.1,
            metallic_roughness_sampler_index: metallic_roughness.1,
            normal_sampler_index: normal.1,
            occlusion_sampler_index: occlusion.1,
            emissive_sampler_index: emissive.1,
        }
    }
}

impl MaterialData {
    /// The words that the shader reads: the fields in order, without gaps.
    pub open spec fn words(self) -> Seq<u32> {
        self.albedo_factor@ + self.emissive_factor@ + seq![
            self.metallic_factor,
            self.roughness_factor,
            self.alpha_cutoff,
            signed_word(self.base_color_texture),
            signed_word(self.metallic_roughness_texture),
            signed_word(self.normal_texture),
            signed_word(self.occlusion_texture),
            signed_word(self.emissive_texture),
            self.albedo_sampler_index,
            self.metallic_roughness_sampler_index,
            self.normal_sampler_index,
            self.occlusion_sampler_index,
            self.emissive_sampler_index,
        ]
    }
}

/// The words of materials, one after the other.
pub open spec fn materials_words(materials: Seq<MaterialDesc>) -> Seq<u32>
    decreases materials.len(),
{
    if materials.len() == 0 {
        Seq::empty()
    } else {
        materials_words(materials.drop_last()) + materials.last().data().words()
    }
}

/// The contents of the buffer of materials.
pub fn material_bytes(materials: &Vec<MaterialDesc>) -> (r: Vec<u8>)
    requires
        forall|i: int|
            0 <= i < materials@.len() ==> (#[trigger] materials@[i]).fits(usize::MAX as nat + 1),
    ensures
        native_words(materials_words(materials@), r@),
{
    let mut words: Vec<u32> = Vec::new();
    let mut i: usize = 0;
    while i < materials.len()
        invariant
            i <= materials@.len(),
            forall|j: int|
                0 <= j < materials@.len() ==> (#[trigger] materials@[j]).fits(
                    usize::MAX as nat + 1,
                ),
            words@ == materials_words(materials@.take(i as int)),
        decreases materials@.len() - i,
    {
        let m = materials[i].to_data();
        push_words(&mut words, &m.albedo_factor);
        push_words(&mut words, &m.emissive_factor);
        let rest: [u32; 13] = [
            m.metallic_factor,
            m.roughness_factor,
            m.alpha_cutoff,
            to_word(m.base_color_texture),
            to_word(m.metallic_roughness_texture),
            to_word(m.normal_texture),
            to_word(m.occlusion_texture),
            to_word(m.emissive_texture),
            m.albedo_sampler_index,
            m.metallic_roughness_sampler_index,
            m.normal_sampler_index,
            m.occlusion_sampler_index,
            m.emissive_sampler_index,
        ];
        push_words(&mut words, &rest);
        assert(materials@.take(i + 1).drop_last() =~= materials@.take(i as int));
        assert(words@ =~= materials_words(materials@.take(i as int)) + m.words());
        i = i + 1;
    }
    assert(materials@.take(materials@.len() as int) =~= materials@);
    cast_words(words.as_slice())
}

/// The image of a texture, where there is one.
pub open spec fn source_of(texture: Option<TextureRef>) -> Option<usize> {
    match texture {
        Some(texture) => Some(texture.source),
        None => None,
    }
}

/// The images that materials take colours from: base colour and emission of each.
pub open spec fn color_sources(materials: Seq<MaterialDesc>) -> Seq<Option<usize>> {
    Seq::new(
        2 * materials.len(),
        |i: int|
            if i % 2 == 0 {
                source_of(materials[i / 2].base_color)
            } else {
                source_of(materials[i / 2].emissive)
            },
    )
}

/// Lists the images that materials take colours from.
pub fn list_color_sources(materials: &Vec<MaterialDesc>) -> (r: Vec<Option<usize>>)
    ensures
        r@ == color_sources(materials@),
{
    let mut sources: Vec<Option<usize>> = Vec::new();
    let mut i: usize = 0;
    while i < materials.len()
        invariant
            i <= materials@.len(),
            sources@.len() == 2 * i,
            forall|j: int| 0 <= j < 2 * i ==> sources@[j] == color_sources(materials@)[j],
        decreases materials@.len() - i,
    {
        let base_color: Option<usize> = match &materials[i].base_color {
            Some(texture) => Some(texture.source),
            None => None,
        };
        let emissive: Option<usize> = match &materials[i].emissive {
            Some(texture) => Some(texture.source),
            None => None,
        };
        assert((2 * i) / 2 == i && (2 * i) % 2 == 0);
        assert((2 * i + 1) / 2 == i && (2 * i + 1) % 2 == 1);
        sources.push(base_color);
        sources.push(emissive);
        i = i + 1;
    }
    assert(sources@ =~= color_sources(materials@));
    sources
}


/// A word holds the number of the image of a texture, or, in two's complement, minus one just where
/// there is none.
pub open spec fn word_finds_image(word: u32, texture: Option<TextureRef>) -> bool {
    match texture {
        Some(texture) => word == texture.source,
        None => word == 0xffff_ffff,
    }
}

proof fn lemma_materials_words(materials: Seq<MaterialDesc>, i: int, k: int)
    requires
        0 <= i < materials.len(),
        0 <= k < 20,
    ensures
        materials_words(materials).len() == 20 * materials.len(),
        materials_words(materials)[20 * i + k] == materials[i].data().words()[k],
    decreases materials.len(),
{
    let earlier = materials.drop_last();
    if earlier.len() > 0 {
        lemma_materials_words(
            earlier,
            if i < earlier.len() {
                i
            } else {
                0
            },
            k,
        );
    } else {
        assert(materials_words(earlier).len() == 0);
    }
}

/// The shaders find every number of every material at its place among the words: the factors, the
/// cutoff, for each of the five textures the image of that same texture, or minus one just where
/// the material does not have it, and for each the sampler that goes on beyond the edges as that
/// same texture does.
pub proof fn law_shaders_find_materials(materials: Seq<MaterialDesc>, i: int)
    requires
        0 <= i < materials.len(),
        materials[i].fits(usize::MAX as nat + 1),
    ensures
        ({
            let words = materials_words(materials);
            let m = materials[i];
            let at = 20 * i;
            &&& words.len() == 20 * materials.len()
            &&& forall|k: int| 0 <= k < 4 ==> words[at + k] == #[trigger] m.albedo_factor@[k]
            &&& forall|k: int| 0 <= k < 3 ==> words[at + 4 + k] == #[trigger] m.emissive_factor@[k]
            &&& words[at + 7] == m.metallic_factor
            &&& words[at + 8] == m.roughness_factor
            &&& match m.alpha_cutoff {
                Some(cutoff) => words[at + 9] == cutoff,
                None => words[at + 9] == vk::F32_HALF,
            }
            &&& word_finds_image(words[at + 10], m.base_color)
            &&& word_finds_image(words[at + 11], m.metallic_roughness)
            &&& word_finds_image(words[at + 12], m.normal)
            &&& word_finds_image(words[at + 13], m.occlusion)
            &&& word_finds_image(words[at + 14], m.emissive)
            &&& finds_sampler(words[at + 15], m.base_color)
            &&& finds_sampler(words[at + 16], m.metallic_roughness)
            &&& finds_sampler(words[at + 17], m.normal)
            &&& finds_sampler(words[at + 18], m.occlusion)
            &&& finds_sampler(words[at + 19], m.emissive)
        }),
{
    let m = materials[i];
    lemma_texture_is_found(m.base_color);
    lemma_texture_is_found(m.metallic_roughness);
    lemma_texture_is_found(m.normal);
    lemma_texture_is_found(m.occlusion);
    lemma_texture_is_found(m.emissive);
    assert forall|k: int| 0 <= k < 20 implies #[trigger] materials_words(materials)[20 * i + k]
        == m.data().words()[k] by {
        lemma_materials_words(materials, i, k);
    }
    lemma_materials_words(materials, i, 0);
    let words = materials_words(materials);
    let own = m.data().words();
    assert forall|k: int| 0 <= k < 4 implies words[20 * i + k] == #[trigger] m.albedo_factor@[k] by {
        assert(words[20 * i + k] == own[k]);
    }
    assert forall|k: int| 0 <= k < 3 implies words[20 * i + 4 + k]
        == #[trigger] m.emissive_factor@[k] by {
        assert(words[20 * i + (4 + k)] == own[4 + k]);
    }
}

/// The shaders find the transforms of every object at their places among the words.
pub proof fn law_shaders_find_objects(objects: Seq<ObjectData>, i: int, k: int)
    requires
        0 <= i < objects.len(),
        0 <= k < 25,
    ensures
        objects_words(objects).len() == 25 * objects.len(),
        k < 16 ==> objects_words(objects)[25 * i + k] == objects[i].transform@[k],
        k >= 16 ==> objects_words(objects)[25 * i + k] == objects[i].normal_transform@[k - 16],
    decreases objects.len(),
{
    let earlier = objects.drop_last();
    if earlier.len() > 0 {
        law_shaders_find_objects(
            earlier,
            if i < earlier.len() {
                i
            } else {
                0
            },
            k,
        );
    } else {
        assert(objects_words(earlier).len() == 0);
    }
}

/// An image counts as one of colours just where some material takes its base colour or its emission
/// from it.
pub proof fn law_colors_come_from_materials(materials: Seq<MaterialDesc>, image: usize)
    ensures
        holds_color(color_sources(materials), image as int) <==> exists|m: int|
            0 <= m < materials.len() && {
                ||| (#[trigger] materials[m]).base_color matches Some(texture) && texture.source
                    == image
                ||| materials[m].emissive matches Some(texture) && texture.source == image
            },
{
    let colors = color_sources(materials);
    if holds_color(colors, image as int) {
        let i = choose|i: int| 0 <= i < colors.len() && #[trigger] colors[i] == Some(image);
        assert(0 <= i / 2 < materials.len());
        let m = materials[i / 2];
        assert(m == materials[i / 2]);
    }
    if exists|m: int|
        0 <= m < materials.len() && {
            ||| (#[trigger] materials[m]).base_color matches Some(texture) && texture.source
                == image
            ||| materials[m].emissive matches Some(texture) && texture.source == image
        } {
        let m = choose|m: int|
            0 <= m < materials.len() && {
                ||| (#[trigger] materials[m]).base_color matches Some(texture) && texture.source
                    == image
                ||| materials[m].emissive matches Some(texture) && texture.source == image
            };
        assert((2 * m) / 2 == m && (2 * m) % 2 == 0);
        assert((2 * m + 1) / 2 == m && (2 * m + 1) % 2 == 1);
        assert(colors[2 * m] == source_of(materials[m].base_color));
        assert(colors[2 * m + 1] == source_of(materials[m].emissive));
    }
}


/// The number of an image fits just if there is such an image and the shaders can be told of it: it
/// is then the same number to them.
pub proof fn law_texture_numbers_fit(texture: TextureRef, images: nat)
    ensures
        texture_fits(None, images),
        texture_fits(Some(texture), images) <==> texture.source < images && texture.source
            <= 0x7fff_ffff,
        texture_fits(Some(texture), images) ==> signed_word(texture_number(Some(texture)))
            == texture.source,
{
}

} // verus!
