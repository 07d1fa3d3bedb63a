//! Compiled shaders: where they are found and how they are read.
use crate::outside::{little_endian_words, word_byte};
use crate::pipelines::ShaderSlot;
use vstd::prelude::*;

verus! {

impl ShaderSlot {
    /// The name of the file of the shader: that of its module and that of its entry point.
    pub open spec fn file_name(self) -> Seq<char> {
        match self {
            ShaderSlot::MainVertex => "main_vertex.spv"@,
            ShaderSlot::MainFragment => "main_fragment.spv"@,
            ShaderSlot::ShadowVertex => "shadow_vertex.spv"@,
            ShaderSlot::ShadowFragment => "shadow_fragment.spv"@,
            ShaderSlot::AoMain => "ao_main.spv"@,
            ShaderSlot::AoReprojectMain => "ao_reproject_main.spv"@,
            ShaderSlot::DeferredMain => "deferred_main.spv"@,
            ShaderSlot::PostFxVertex => "postfx_vertex.spv"@,
            ShaderSlot::PostFxFragment => "postfx_fragment.spv"@,
        }
    }

    /// The name of the file of the shader.
    pub fn spv_name(&self) -> (r: &'static str)
        ensures
            r@ == self.file_name(),
    {
        match self {
            ShaderSlot::MainVertex => "main_vertex.spv",
            ShaderSlot::MainFragment => "main_fragment.spv",
            ShaderSlot::ShadowVertex => "shadow_vertex.spv",
            ShaderSlot::ShadowFragment => "shadow_fragment.spv",
            ShaderSlot::AoMain => "ao_main.spv",
            ShaderSlot::AoReprojectMain => "ao_reproject_main.spv",
            ShaderSlot::DeferredMain => "deferred_main.spv",
            ShaderSlot::PostFxVertex => "postfx_vertex.spv",
            ShaderSlot::PostFxFragment => "postfx_fragment.spv",
        }
    }
}

/// A word made of four bytes, the least significant first.
pub open spec fn word_of(a: u8, b: u8, c: u8, d: u8) -> u32 {
    (a as u32) | ((b as u32) << 8) | ((c as u32) << 16) | ((d as u32) << 24)
}

/// The words in bytes. Bytes that are left over after the last whole word are dropped.
pub open spec fn words_in(bytes: Seq<u8>) -> Seq<u32> {
    Seq::new(
        bytes.len() / 4,
        |i: int| word_of(bytes[4 * i], bytes[4 * i + 1], bytes[4 * i + 2], bytes[4 * i + 3]),
    )
}

/// Reads the words of a compiled shader.
pub fn shader_words(bytes: &Vec<u8>) -> (r: Vec<u32>)
    ensures
        r@ == words_in(bytes@),
{
    let count: usize = bytes.len() / 4;
    let mut words: Vec<u32> = Vec::new();
    let mut i: usize = 0;
    while i < count
        invariant
            i <= count,
            count == bytes@.len() / 4,
            bytes@.len() <= usize::MAX,
            words@.len() == i,
            forall|j: int| 0 <= j < i ==> words@[j] == words_in(bytes@)[j],
        decreases count - i,
    {
        let at: usize = 4 * i;
        words.push(
            (bytes[at] as u32) | ((bytes[at + 1] as u32) << 8) | ((bytes[at + 2] as u32) << 16) | ((
            bytes[at + 3] as u32) << 24),
        );
        i = i + 1;
    }
    assert(words@ =~= words_in(bytes@));
    words
}

proof fn lemma_word_bytes(a: u8, b: u8, c: u8, d: u8)
    ensures
        word_byte(word_of(a, b, c, d), 0) == a,
        word_byte(word_of(a, b, c, d), 1) == b,
        word_byte(word_of(a, b, c, d), 2) == c,
        word_byte(word_of(a, b, c, d), 3) == d,
{
    let w = word_of(a, b, c, d);
    assert(((w >> 0u32) & 0xff) as u8 == a && ((w >> 8u32) & 0xff) as u8 == b && ((w >> 16u32)
        & 0xff) as u8 == c && ((w >> 24u32) & 0xff) as u8 == d) by (bit_vector)
        requires
            w == (a as u32) | ((b as u32) << 8) | ((c as u32) << 16) | ((d as u32) << 24),
    ;
}

/// Nothing of a shader of whole words is lost: written out, the least significant byte first, its
/// words are its bytes again.
pub proof fn law_shader_words_keep_bytes(bytes: Seq<u8>)
    requires
        bytes.len() % 4 == 0,
    ensures
        little_endian_words(words_in(bytes)) == bytes,
{
    let again = little_endian_words(words_in(bytes));
    assert(again.len() == bytes.len());
    assert forall|i: int| 0 <= i < bytes.len() implies again[i] == bytes[i] by {
        let k = i / 4;
        lemma_word_bytes(bytes[4 * k], bytes[4 * k + 1], bytes[4 * k + 2], bytes[4 * k + 3]);
        assert(i == 4 * k + i % 4);
        assert(words_in(bytes)[k] == word_of(
            bytes[4 * k],
            bytes[4 * k + 1],
            bytes[4 * k + 2],
            bytes[4 * k + 3],
        ));
    }
    assert(again =~= bytes);
}


/// A shader is found in the file that is named after its module and its entry point.
pub proof fn law_shader_files_name_entry(shader: ShaderSlot)
    ensures
        ({
            let module = match shader {
                ShaderSlot::MainVertex | ShaderSlot::MainFragment => "main"@,
                ShaderSlot::ShadowVertex | ShaderSlot::ShadowFragment => "shadow"@,
                ShaderSlot::AoMain => "ao"@,
                ShaderSlot::AoReprojectMain => "ao_reproject"@,
                ShaderSlot::DeferredMain => "deferred"@,
                ShaderSlot::PostFxVertex | ShaderSlot::PostFxFragment => "postfx"@,
            };
            let entry = match shader {
                ShaderSlot::MainVertex | ShaderSlot::ShadowVertex | ShaderSlot::PostFxVertex
                    => "vertex"@,
                ShaderSlot::MainFragment | ShaderSlot::ShadowFragment | ShaderSlot::PostFxFragment
                    => "fragment"@,
                _ => "main"@,
            };
            shader.file_name() == module + "_"@ + entry + ".spv"@
        }),
{
    reveal_strlit("main");
    reveal_strlit("shadow");
    reveal_strlit("ao");
    reveal_strlit("ao_reproject");
    reveal_strlit("deferred");
    reveal_strlit("postfx");
    reveal_strlit("vertex");
    reveal_strlit("fragment");
    reveal_strlit("_");
    reveal_strlit(".spv");
    reveal_strlit("main_vertex.spv");
    reveal_strlit("main_fragment.spv");
    reveal_strlit("shadow_vertex.spv");
    reveal_strlit("shadow_fragment.spv");
    reveal_strlit("ao_main.spv");
    reveal_strlit("ao_reproject_main.spv");
    reveal_strlit("deferred_main.spv");
    reveal_strlit("postfx_vertex.spv");
    reveal_strlit("postfx_fragment.spv");
}

/// The words of a shader hold its bytes, four to a word, the least significant first, up to the last
/// whole word.
pub proof fn law_shader_words_are_little_endian(bytes: Seq<u8>, i: int)
    requires
        0 <= i < bytes.len() / 4,
    ensures
        words_in(bytes).len() == bytes.len() / 4,
        word_byte(words_in(bytes)[i], 0) == bytes[4 * i],
        word_byte(words_in(bytes)[i], 1) == bytes[4 * i + 1],
        word_byte(words_in(bytes)[i], 2) == bytes[4 * i + 2],
        word_byte(words_in(bytes)[i], 3) == bytes[4 * i + 3],
{
    lemma_word_bytes(bytes[4 * i], bytes[4 * i + 1], bytes[4 * i + 2], bytes[4 * i + 3]);
}

} // verus!
