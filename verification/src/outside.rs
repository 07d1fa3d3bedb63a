//! The calls into outside crates that only compute.
//!
//! Every item here is believed, not proved: its contract repeats what the source of the
//! outside function shows.
use crate::vk::{Extent2D, Extent3D};
use vstd::prelude::*;

verus! {

/// `ash::vk::make_api_version` packs the four parts of a version into one word: the variant
/// from bit 29, the major number from bit 22, the minor number from bit 12, the patch number
/// from bit 0.
#[verifier::external_body]
pub(crate) fn make_api_version(variant: u32, major: u32, minor: u32, patch: u32) -> (r: u32)
    ensures
        r == (variant << 29) | (major << 22) | (minor << 12) | patch,
{
    ash::vk::make_api_version(variant, major, minor, patch)
}

/// `From<Extent2D> for Extent3D` of `ash` keeps width and height and sets the depth to one.
#[verifier::external_body]
pub(crate) fn extent_3d(extent: Extent2D) -> (r: Extent3D)
    ensures
        r == (Extent3D { width: extent.width, height: extent.height, depth: 1 }),
{
    let flat = ash::vk::Extent2D { width: extent.width, height: extent.height };
    let deep: ash::vk::Extent3D = flat.into();
    Extent3D { width: deep.width, height: deep.height, depth: deep.depth }
}

/// `BitOr` on `ash::vk::ImageUsageFlags` is the bitwise union.
#[verifier::external_body]
pub(crate) fn image_usage_union(a: u32, b: u32) -> (r: u32)
    ensures
        r == a | b,
{
    (ash::vk::ImageUsageFlags::from_raw(a) | ash::vk::ImageUsageFlags::from_raw(b)).as_raw()
}

/// `BitOr` on `ash::vk::BufferUsageFlags` is the bitwise union.
#[verifier::external_body]
pub(crate) fn buffer_usage_union(a: u32, b: u32) -> (r: u32)
    ensures
        r == a | b,
{
    (ash::vk::BufferUsageFlags::from_raw(a) | ash::vk::BufferUsageFlags::from_raw(b)).as_raw()
}

/// `BitOr` on `ash::vk::InstanceCreateFlags` is the bitwise union.
#[verifier::external_body]
pub(crate) fn instance_flags_union(a: u32, b: u32) -> (r: u32)
    ensures
        r == a | b,
{
    (ash::vk::InstanceCreateFlags::from_raw(a) | ash::vk::InstanceCreateFlags::from_raw(b)).as_raw()
}

/// `ash::vk::QueueFlags::contains` tells whether every bit of the mask is set.
#[verifier::external_body]
pub(crate) fn queue_flags_contain(flags: u32, mask: u32) -> (r: bool)
    ensures
        r == (flags & mask == mask),
{
    ash::vk::QueueFlags::from_raw(flags).contains(ash::vk::QueueFlags::from_raw(mask))
}

/// `ash::ext::debug_utils::NAME` is the name of the debugging extension.
#[verifier::external_body]
pub(crate) fn debug_utils_name() -> (r: String)
    ensures
        r@ == "VK_EXT_debug_utils"@,
{
    ash::ext::debug_utils::NAME.to_string_lossy().into_owned()
}

/// `ash::khr::portability_enumeration::NAME` is the name of the instance extension that
/// lists devices of partial conformance.
#[verifier::external_body]
pub(crate) fn portability_enumeration_name() -> (r: String)
    ensures
        r@ == "VK_KHR_portability_enumeration"@,
{
    ash::khr::portability_enumeration::NAME.to_string_lossy().into_owned()
}

/// `ash::khr::swapchain::NAME` is the name of the swapchain extension.
#[verifier::external_body]
pub(crate) fn swapchain_name() -> (r: String)
    ensures
        r@ == "VK_KHR_swapchain"@,
{
    ash::khr::swapchain::NAME.to_string_lossy().into_owned()
}

/// `ash::khr::portability_subset::NAME` is the name of the extension that devices of partial
/// conformance demand.
#[verifier::external_body]
pub(crate) fn portability_subset_name() -> (r: String)
    ensures
        r@ == "VK_KHR_portability_subset"@,
{
    ash::khr::portability_subset::NAME.to_string_lossy().into_owned()
}

/// `ash::khr::dynamic_rendering_local_read::NAME` is the name of the extension for local
/// reads in dynamic rendering.
#[verifier::external_body]
pub(crate) fn local_read_name() -> (r: String)
    ensures
        r@ == "VK_KHR_dynamic_rendering_local_read"@,
{
    ash::khr::dynamic_rendering_local_read::NAME.to_string_lossy().into_owned()
}

/// Byte `k` of a word, counted from the least significant one.
pub open spec fn word_byte(w: u32, k: int) -> u8 {
    ((w >> ((8 * k) as u32)) & 0xff) as u8
}

/// The bytes of words, least significant first.
pub open spec fn little_endian_words(words: Seq<u32>) -> Seq<u8> {
    Seq::new(4 * words.len(), |i: int| word_byte(words[i / 4], i % 4))
}

/// The bytes of words, most significant first.
pub open spec fn big_endian_words(words: Seq<u32>) -> Seq<u8> {
    Seq::new(4 * words.len(), |i: int| word_byte(words[i / 4], 3 - i % 4))
}

/// The bytes of words as the machine at hand stores them.
pub open spec fn native_words(words: Seq<u32>, bytes: Seq<u8>) -> bool {
    bytes == little_endian_words(words) || bytes == big_endian_words(words)
}

/// `bytemuck::cast_slice` from `u32` to `u8` hands out the memory of the words: four bytes
/// each, in order, in the byte order of the machine. Which of the two orders that is depends on the
/// machine and is left open.
#[verifier::external_body]
pub(crate) fn cast_words(words: &[u32]) -> (r: Vec<u8>)
    ensures
        native_words(words@, r@),
{
    let bytes: &[u8] = bytemuck::cast_slice(words);
    bytes.to_vec()
}

/// Byte `k` of a device address, counted from the least significant one.
pub open spec fn address_byte(a: u64, k: int) -> u8 {
    ((a >> ((8 * k) as u64)) & 0xff) as u8
}

/// The bytes of a device address as the machine at hand stores them.
pub open spec fn native_address(address: u64, bytes: Seq<u8>) -> bool {
    ||| bytes == Seq::new(8, |i: int| address_byte(address, i))
    ||| bytes == Seq::new(8, |i: int| address_byte(address, 7 - i))
}

/// `bytemuck::bytes_of` on a `u64` hands out its eight bytes, in the byte order of the
/// machine. Which of the two orders that is depends on the machine and is left open.
#[verifier::external_body]
pub(crate) fn bytes_of_address(address: u64) -> (r: Vec<u8>)
    ensures
        native_address(address, r@),
{
    bytemuck::bytes_of(&address).to_vec()
}

/// `glam::uvec2` makes a vector of its two arguments, in order.
#[verifier::external_body]
pub(crate) fn uvec2(x: u32, y: u32) -> (r: [u32; 2])
    ensures
        r@ == seq![x, y],
{
    glam::uvec2(x, y).to_array()
}

/// `glam::ivec2` makes a vector of its two arguments, in order.
#[verifier::external_body]
pub(crate) fn ivec2(x: i32, y: i32) -> (r: [i32; 2])
    ensures
        r@ == seq![x, y],
{
    glam::ivec2(x, y).to_array()
}

} // verus!
