//! What depends on the size of the window: the swapchain and the images that a frame is drawn in.
use crate::camera::CASCADES;
use crate::commands::ImageSlot;
use crate::config::Config;
use crate::outside::uvec2;
use crate::pipelines::{
    binding_count, binding_type, sampler_info, write_one, DescriptorWrite, BINDING_COUNT,
    DEPTH_FORMAT, GBUFFER_FORMAT, SWAPCHAIN_FORMAT,
};
use crate::utils::context::{DestroyStep, VkDrop};
use crate::utils::image::{blank_desc, default_view, image, Image, ImageCreation, ImageDesc};
use crate::utils::requests::{answerable, answered, ask, Request};
use crate::vk;
use crate::vk::{
    AllocationCreateInfo, DescriptorImageInfo, Extent2D, Extent3D, ImageViewCreateInfo,
    MemoryUsage, SubresourceRange,
};
use vstd::prelude::*;

verus! {

/// What the window system says of the surface.
#[derive(Clone, Copy, Debug, PartialEq, Eq, Structural)]
pub struct SurfaceCapabilities {
    pub min_image_count: u32,
    pub current_extent: Extent2D,
}

/// What a swapchain is created with.
#[derive(Clone, Copy, Debug, PartialEq, Eq, Structural)]
pub struct SwapchainPlan {
    pub min_image_count: u32,
    pub image_format: i32,
    pub image_color_space: i32,
    pub image_extent: Extent2D,
    pub image_array_layers: u32,
    pub image_usage: u32,
    pub pre_transform: u32,
    pub composite_alpha: u32,
    pub present_mode: i32,
    /// The swapchain that is replaced, or zero.
    pub old_swapchain: u64,
}

/// A swapchain as large as the surface, of as few images as it allows.
pub open spec fn swapchain_plan(
    capabilities: SurfaceCapabilities,
    present_mode: i32,
    old_swapchain: u64,
) -> SwapchainPlan {
    SwapchainPlan {
        min_image_count: capabilities.min_image_count,
        image_format: SWAPCHAIN_FORMAT,
        image_color_space: vk::COLOR_SPACE_SRGB_NONLINEAR,
        image_extent: capabilities.current_extent,
        image_array_layers: 1,
        image_usage: vk::IMAGE_USAGE_COLOR_ATTACHMENT,
        pre_transform: vk::TRANSFORM_IDENTITY,
        composite_alpha: vk::COMPOSITE_ALPHA_OPAQUE,
        present_mode,
        old_swapchain,
    }
}

pub(crate) fn make_swapchain_plan(
    capabilities: SurfaceCapabilities,
    present_mode: i32,
    old_swapchain: u64,
) -> (r: SwapchainPlan)
    ensures
        r == swapchain_plan(capabilities, present_mode, old_swapchain),
{
    SwapchainPlan {
        min_image_count: capabilities.min_image_count,
        image_format: SWAPCHAIN_FORMAT,
        image_color_space: vk::COLOR_SPACE_SRGB_NONLINEAR,
        image_extent: capabilities.current_extent,
        image_array_layers: 1,
        image_usage: vk::IMAGE_USAGE_COLOR_ATTACHMENT,
        pre_transform: vk::TRANSFORM_IDENTITY,
        composite_alpha: vk::COMPOSITE_ALPHA_OPAQUE,
        present_mode,
        old_swapchain,
    }
}

/// The view of an image of the swapchain.
pub open spec fn swapchain_view(image: u64) -> ImageViewCreateInfo {
    ImageViewCreateInfo {
        image,
        view_type: vk::VIEW_TYPE_2D,
        format: SWAPCHAIN_FORMAT,
        range: SubresourceRange {
            aspect_mask: vk::ASPECT_COLOR,
            base_mip_level: 0,
            level_count: 1,
            base_array_layer: 0,
            layer_count: 1,
        },
    }
}

/// A view for each image of a swapchain.
pub open spec fn view_requests(images: Seq<u64>) -> Seq<Request> {
    images.map_values(|image: u64| Request::ImageView(swapchain_view(image)))
}

/// As many semaphores as asked for.
pub open spec fn semaphore_requests(count: nat) -> Seq<Request> {
    Seq::new(count, |i: int| Request::Semaphore)
}

pub(crate) fn push_view_requests(requests: &mut Vec<Request>, images: &Vec<u64>)
    ensures
        final(requests)@ == old(requests)@ + view_requests(images@),
{
    let mut i: usize = 0;
    while i < images.len()
        invariant
            i <= images@.len(),
            requests@ =~= old(requests)@ + view_requests(images@.take(i as int)),
        decreases images@.len() - i,
    {
        let info = ImageViewCreateInfo {
            image: images[i],
            view_type: vk::VIEW_TYPE_2D,
            format: SWAPCHAIN_FORMAT,
            range: SubresourceRange {
                aspect_mask: vk::ASPECT_COLOR,
                base_mip_level: 0,
                level_count: 1,
                base_array_layer: 0,
                layer_count: 1,
            },
        };
        requests.push(Request::ImageView(info));
        i = i + 1;
    }
    assert(images@.take(images@.len() as int) =~= images@);
}

pub(crate) fn push_semaphore_requests(requests: &mut Vec<Request>, count: usize)
    ensures
        final(requests)@ == old(requests)@ + semaphore_requests(count as nat),
{
    let mut i: usize = 0;
    while i < count
        invariant
            i <= count,
            requests@ =~= old(requests)@ + semaphore_requests(i as nat),
        decreases count - i,
    {
        requests.push(Request::Semaphore);
        i = i + 1;
    }
}

pub(crate) fn some_of(handles: &Vec<u64>, from: usize, count: usize) -> (r: Vec<u64>)
    requires
        from + count <= handles@.len(),
    ensures
        r@ == handles@.subrange(from as int, from + count),
{
    let total: usize = handles.len();
    let mut some: Vec<u64> = Vec::new();
    let mut i: usize = 0;
    while i < count
        invariant
            i <= count,
            from + count <= total == handles@.len(),
            some@ =~= handles@.subrange(from as int, from + i),
        decreases count - i,
    {
        some.push(handles[from + i]);
        i = i + 1;
    }
    some
}

/// Operations on sizes.
pub trait ExtentExt: Sized {
    /// The width and the height.
    spec fn coordinates(self) -> Seq<u32>;

    /// The size as a vector.
    fn as_uvec2(self) -> (r: [u32; 2])
        ensures
            r@ == self.coordinates(),
    ;
}

impl ExtentExt for Extent2D {
    open spec fn coordinates(self) -> Seq<u32> {
        seq![self.width, self.height]
    }

    fn as_uvec2(self) -> (r: [u32; 2]) {
        uvec2(self.width, self.height)
    }
}

/// The images that a frame is drawn in.
#[derive(Debug)]
pub struct ScreenImages {
    pub depth: Image,
    pub gbuffer: Image,
    pub ao: Image,
    /// The two images of ambient occlusion that frames take turns with.
    pub ao_history: (Image, Image),
    pub color_output: Image,
}

/// A flat image of one level.
pub open spec fn screen_desc(format: i32, size: Extent2D, usage: u32) -> ImageDesc {
    ImageDesc {
        image_type: vk::IMAGE_TYPE_2D,
        format,
        extent: Extent3D { width: size.width, height: size.height, depth: 1 },
        usage,
        ..blank_desc()
    }
}

/// The depth buffer.
pub open spec fn depth_desc(render_size: Extent2D) -> ImageDesc {
    screen_desc(
        DEPTH_FORMAT,
        render_size,
        vk::IMAGE_USAGE_DEPTH_STENCIL_ATTACHMENT | vk::IMAGE_USAGE_SAMPLED,
    )
}

/// The geometry buffer.
pub open spec fn gbuffer_desc(render_size: Extent2D) -> ImageDesc {
    screen_desc(
        GBUFFER_FORMAT,
        render_size,
        vk::IMAGE_USAGE_COLOR_ATTACHMENT | vk::IMAGE_USAGE_SAMPLED,
    )
}

/// Ambient occlusion, also that of earlier frames: of half the resolution.
pub open spec fn ao_desc(render_size_half: Extent2D) -> ImageDesc {
    screen_desc(
        vk::FORMAT_R32_SFLOAT,
        render_size_half,
        vk::IMAGE_USAGE_STORAGE | vk::IMAGE_USAGE_SAMPLED,
    )
}

/// The lit image.
pub open spec fn color_output_desc(render_size: Extent2D) -> ImageDesc {
    screen_desc(
        vk::FORMAT_R16G16B16A16_SFLOAT,
        render_size,
        vk::IMAGE_USAGE_COLOR_ATTACHMENT | vk::IMAGE_USAGE_STORAGE | vk::IMAGE_USAGE_SAMPLED,
    )
}

/// Memory that an image has for itself.
pub open spec fn own_memory() -> AllocationCreateInfo {
    AllocationCreateInfo { flags: vk::ALLOCATION_DEDICATED_MEMORY, usage: MemoryUsage::Auto }
}

/// An image of a description, in memory of its own.
pub open spec fn image_request(desc: ImageDesc) -> Request {
    Request::Image(ImageCreation { info: desc.info_for(desc.usage), allocation: own_memory() })
}

/// An image is of a description and has no views yet.
pub open spec fn image_made(image: Image, desc: ImageDesc) -> bool {
    &&& image.wf()
    &&& image.desc == desc
    &&& image.views().is_empty()
    &&& image.views@.len() == 0
}

fn request_image(desc: ImageDesc) -> (r: Request)
    ensures
        r == image_request(desc),
{
    Request::Image(desc.creation(vk::ALLOCATION_DEDICATED_MEMORY))
}

fn image_of(desc: ImageDesc, handle: u64) -> (r: Image)
    ensures
        image_made(r, desc),
        r.image == handle,
{
    let r = desc.into_image(handle);
    assert(r.views().is_empty());
    r
}

/// How many images a frame is drawn in, besides those of the swapchain.
pub const SCREEN_IMAGE_COUNT: usize = 6;

impl VkDrop for ScreenImages {
    open spec fn destruction(&self) -> Seq<DestroyStep> {
        self.depth.destruction() + self.color_output.destruction() + self.gbuffer.destruction()
            + self.ao.destruction() + self.ao_history.0.destruction()
            + self.ao_history.1.destruction()
    }

    fn destroy(&self) -> (r: Vec<DestroyStep>) {
        let mut steps = self.depth.destroy();
        let mut color_output = self.color_output.destroy();
        let mut gbuffer = self.gbuffer.destroy();
        let mut ao = self.ao.destroy();
        let mut first = self.ao_history.0.destroy();
        let mut second = self.ao_history.1.destroy();
        steps.append(&mut color_output);
        steps.append(&mut gbuffer);
        steps.append(&mut ao);
        steps.append(&mut first);
        steps.append(&mut second);
        steps
    }
}

impl ScreenImages {
    /// Every image holds at most one view of each description.
    pub open spec fn wf(&self) -> bool {
        &&& self.depth.wf()
        &&& self.gbuffer.wf()
        &&& self.ao.wf()
        &&& self.ao_history.0.wf()
        &&& self.ao_history.1.wf()
        &&& self.color_output.wf()
    }

    /// The images for the given sizes.
    pub open spec fn requests(render_size: Extent2D, render_size_half: Extent2D) -> Seq<Request> {
        seq![
            image_request(depth_desc(render_size)),
            image_request(gbuffer_desc(render_size)),
            image_request(ao_desc(render_size_half)),
            image_request(ao_desc(render_size_half)),
            image_request(ao_desc(render_size_half)),
            image_request(color_output_desc(render_size)),
        ]
    }

    /// The handles of the images, in the order in which they are asked for.
    pub open spec fn handles(&self) -> Seq<u64> {
        seq![
            self.depth.image,
            self.gbuffer.image,
            self.ao.image,
            self.ao_history.0.image,
            self.ao_history.1.image,
            self.color_output.image,
        ]
    }

    /// The images are those for the given sizes, and have no views yet.
    pub open spec fn made(&self, render_size: Extent2D, render_size_half: Extent2D) -> bool {
        &&& image_made(self.depth, depth_desc(render_size))
        &&& image_made(self.gbuffer, gbuffer_desc(render_size))
        &&& image_made(self.ao, ao_desc(render_size_half))
        &&& image_made(self.ao_history.0, ao_desc(render_size_half))
        &&& image_made(self.ao_history.1, ao_desc(render_size_half))
        &&& image_made(self.color_output, color_output_desc(render_size))
    }

    fn descs(render_size: Extent2D, render_size_half: Extent2D) -> (r: (
        ImageDesc,
        ImageDesc,
        ImageDesc,
        ImageDesc,
    ))
        ensures
            r == (
                depth_desc(render_size),
                gbuffer_desc(render_size),
                ao_desc(render_size_half),
                color_output_desc(render_size),
            ),
    {
        let depth = image().format(DEPTH_FORMAT).extent_2d(render_size).usage(
            vk::IMAGE_USAGE_DEPTH_STENCIL_ATTACHMENT | vk::IMAGE_USAGE_SAMPLED,
        );
        let gbuffer = image().format(GBUFFER_FORMAT).extent_2d(render_size).usage(
            vk::IMAGE_USAGE_COLOR_ATTACHMENT | vk::IMAGE_USAGE_SAMPLED,
        );
        let ao = image().extent_2d(render_size_half).format(vk::FORMAT_R32_SFLOAT).usage(
            vk::IMAGE_USAGE_STORAGE | vk::IMAGE_USAGE_SAMPLED,
        );
        let color_output = image().extent_2d(render_size).format(
            vk::FORMAT_R16G16B16A16_SFLOAT,
        ).usage(
            vk::IMAGE_USAGE_COLOR_ATTACHMENT | vk::IMAGE_USAGE_STORAGE | vk::IMAGE_USAGE_SAMPLED,
        );
        (depth, gbuffer, ao, color_output)
    }

    fn push_requests(
        requests: &mut Vec<Request>,
        render_size: Extent2D,
        render_size_half: Extent2D,
    )
        ensures
            final(requests)@ == old(requests)@ + Self::requests(render_size, render_size_half),
    {
        let (depth, gbuffer, ao, color_output) = Self::descs(render_size, render_size_half);
        requests.push(request_image(depth));
        requests.push(request_image(gbuffer));
        requests.push(request_image(ao));
        requests.push(request_image(ao));
        requests.push(request_image(ao));
        requests.push(request_image(color_output));
        assert(requests@ =~= old(requests)@ + Self::requests(render_size, render_size_half));
    }

    fn new(
        handles: &Vec<u64>,
        from: usize,
        render_size: Extent2D,
        render_size_half: Extent2D,
    ) -> (r: Self)
        requires
            from + SCREEN_IMAGE_COUNT <= handles@.len(),
        ensures
            r.wf(),
            r.made(render_size, render_size_half),
            r.handles() == handles@.subrange(from as int, from + SCREEN_IMAGE_COUNT),
    {
        let total: usize = handles.len();
        assert(from + SCREEN_IMAGE_COUNT <= total);
        let (depth, gbuffer, ao, color_output) = Self::descs(render_size, render_size_half);
        let r = ScreenImages {
            depth: image_of(depth, handles[from]),
            gbuffer: image_of(gbuffer, handles[from + 1]),
            ao: image_of(ao, handles[from + 2]),
            ao_history: (image_of(ao, handles[from + 3]), image_of(ao, handles[from + 4])),
            color_output: image_of(color_output, handles[from + 5]),
        };
        assert(r.handles() =~= handles@.subrange(from as int, from + SCREEN_IMAGE_COUNT));
        r
    }
}

/// What the driver is asked for when the screen resources are made for the first time: a view for
/// each image of the swapchain, a semaphore for each, and the images.
pub open spec fn first_requests(
    swapchain_images: Seq<u64>,
    render_size: Extent2D,
    render_size_half: Extent2D,
) -> Seq<Request> {
    view_requests(swapchain_images) + semaphore_requests(swapchain_images.len())
        + ScreenImages::requests(render_size, render_size_half)
}

/// What the driver is asked for when the screen resources are made anew: the same, but with the
/// images before the semaphores.
pub open spec fn rebuild_requests(
    swapchain_images: Seq<u64>,
    render_size: Extent2D,
    render_size_half: Extent2D,
) -> Seq<Request> {
    view_requests(swapchain_images) + ScreenImages::requests(render_size, render_size_half)
        + semaphore_requests(swapchain_images.len())
}

/// For each image of the screen, what creates a view of it, which can be called once.
#[derive(Debug)]
pub struct ViewMakers<V> {
    pub depth: V,
    pub gbuffer: V,
    pub color_output: V,
    pub ao: V,
    pub ao_history: (V, V),
}

/// What depends on the size of the window.
#[derive(Debug)]
pub struct ScreenResources {
    /// Whether all of this has to be made anew before the next frame.
    pub recreate: bool,
    pub swapchain: u64,
    pub swapchain_images: Vec<u64>,
    pub swapchain_views: Vec<u64>,
    /// One semaphore for each image of the swapchain: signalled once it has been drawn.
    pub render_complete_semaphores: Vec<u64>,
    pub images: ScreenImages,
    pub viewport_size: Extent2D,
    pub render_size: Extent2D,
    /// The size of a texel, as the bits of two single-precision numbers.
    pub texel_size: [u32; 2],
    pub render_size_half: Extent2D,
    /// The size of a texel at half the resolution.
    pub texel_size_half: [u32; 2],
}

/// One step on the way to new screen resources.
#[derive(Clone, Copy, Debug, PartialEq, Eq, Structural)]
pub enum ScreenStep {
    /// Wait until the device is idle.
    WaitIdle,
    DestroySemaphore(u64),
    DestroySwapchainView(u64),
    Destroy(DestroyStep),
    /// Ask the surface for its size, take it on, and create the swapchain that is planned then, in
    /// place of this one.
    ReplaceSwapchain(u64),
    DestroySwapchain(u64),
    /// Take on the new swapchain and make everything else for its images.
    Rebuild,
    /// Write the descriptors of the images.
    WriteDescriptors,
}

/// The steps that hand back what is made anew: once the device is idle, the semaphores, the views
/// of the swapchain and the images.
pub open spec fn teardown_steps(
    semaphores: Seq<u64>,
    views: Seq<u64>,
    images: Seq<DestroyStep>,
) -> Seq<ScreenStep> {
    seq![ScreenStep::WaitIdle] + semaphores.map_values(|s: u64| ScreenStep::DestroySemaphore(s))
        + views.map_values(|v: u64| ScreenStep::DestroySwapchainView(v)) + images.map_values(
        |d: DestroyStep| ScreenStep::Destroy(d),
    )
}

/// The steps to new screen resources: once what depends on the old ones is handed back, a new
/// swapchain takes the place of the old one, which is handed back then; the rest is made anew; and
/// the descriptors come last.
pub open spec fn recreate_steps(
    semaphores: Seq<u64>,
    views: Seq<u64>,
    images: Seq<DestroyStep>,
    swapchain: u64,
) -> Seq<ScreenStep> {
    teardown_steps(semaphores, views, images) + seq![
        ScreenStep::ReplaceSwapchain(swapchain),
        ScreenStep::DestroySwapchain(swapchain),
        ScreenStep::Rebuild,
        ScreenStep::WriteDescriptors,
    ]
}

/// The size of a texel was worked out for an image of the given size.
pub open spec fn texels_of<T: Fn([u32; 2]) -> [u32; 2]>(
    size: Extent2D,
    texel_size: [u32; 2],
    texels: T,
) -> bool {
    exists|v: [u32; 2]| v@ == size.coordinates() && #[trigger] texels.ensures((v,), texel_size)
}

/// A view of an image as a descriptor.
pub open spec fn view_info(view: u64, layout: i32) -> DescriptorImageInfo {
    DescriptorImageInfo { sampler: 0, image_view: view, image_layout: layout }
}

/// The whole of an image can be viewed: the view is held, or else the driver can create it.
pub open spec fn whole_viewable<V: FnOnce(ImageViewCreateInfo) -> u64>(
    image: Image,
    create: V,
) -> bool {
    !image.views().contains_key(default_view(image.desc)) ==> create.requires(
        (image.view_info(default_view(image.desc)),),
    )
}

/// The whole of an image was viewed.
pub open spec fn whole_viewed<V: FnOnce(ImageViewCreateInfo) -> u64>(
    before: Image,
    after: Image,
    create: V,
    view: u64,
) -> bool {
    Image::viewed(before, after, create, default_view(before.desc), view)
}

/// The two images of history as descriptors.
pub open spec fn history_infos(first: u64, second: u64) -> Seq<DescriptorImageInfo> {
    seq![view_info(first, vk::LAYOUT_GENERAL), view_info(second, vk::LAYOUT_GENERAL)]
}

impl ScreenResources {
    /// Each image of the swapchain has a view and a semaphore.
    pub open spec fn wf(&self) -> bool {
        &&& self.images.wf()
        &&& self.swapchain_views@.len() == self.swapchain_images@.len()
        &&& self.render_complete_semaphores@.len() == self.swapchain_images@.len()
    }

    /// Makes the swapchain and all images, for a surface and a render scale. `scale` multiplies a
    /// size by a factor, given by its bits, and rounds up; `texels` gives the bits of the
    /// reciprocals of a size.
    pub fn new<
        S: Fn(Extent2D, u32) -> Extent2D,
        T: Fn([u32; 2]) -> [u32; 2],
        C: FnOnce(SwapchainPlan) -> u64,
        L: FnOnce(u64) -> Vec<u64>,
        M: FnOnce(Vec<Request>) -> Vec<u64>,
    >(
        capabilities: SurfaceCapabilities,
        config: &Config,
        scale: S,
        texels: T,
        create_swapchain: C,
        list_images: L,
        make: M,
    ) -> (r: Self)
        requires
            forall|size: Extent2D, factor: u32| scale.requires((size, factor)),
            forall|size: [u32; 2]| texels.requires((size,)),
            create_swapchain.requires(
                (swapchain_plan(capabilities, vk::PRESENT_MODE_IMMEDIATE, 0),),
            ),
            forall|swapchain: u64| list_images.requires((swapchain,)),
            forall|images: Seq<u64>, size: Extent2D, half: Extent2D|
                answerable(make, #[trigger] first_requests(images, size, half)),
        ensures
            r.wf(),
            !r.recreate,
            r.viewport_size == capabilities.current_extent,
            scale.ensures((r.viewport_size, config.render_scale), r.render_size),
            scale.ensures((r.viewport_size, vk::F32_HALF), r.render_size_half),
            texels_of(r.render_size, r.texel_size, texels),
            texels_of(r.render_size_half, r.texel_size_half, texels),
            create_swapchain.ensures(
                (swapchain_plan(capabilities, vk::PRESENT_MODE_IMMEDIATE, 0),),
                r.swapchain,
            ),
            list_images.ensures((r.swapchain,), r.swapchain_images),
            answered(
                make,
                first_requests(r.swapchain_images@, r.render_size, r.render_size_half),
                r.swapchain_views@ + r.render_complete_semaphores@ + r.images.handles(),
            ),
            r.images.made(r.render_size, r.render_size_half),
    {
        let viewport_size = capabilities.current_extent;
        let render_size: Extent2D = scale(viewport_size, config.render_scale);
        let texel_size: [u32; 2] = texels(render_size.as_uvec2());
        let render_size_half: Extent2D = scale(viewport_size, vk::F32_HALF);
        let texel_size_half: [u32; 2] = texels(render_size_half.as_uvec2());
        let swapchain: u64 = create_swapchain(
            make_swapchain_plan(capabilities, vk::PRESENT_MODE_IMMEDIATE, 0),
        );
        let swapchain_images: Vec<u64> = list_images(swapchain);
        let count: usize = swapchain_images.len();
        let mut requests: Vec<Request> = Vec::new();
        push_view_requests(&mut requests, &swapchain_images);
        push_semaphore_requests(&mut requests, count);
        ScreenImages::push_requests(&mut requests, render_size, render_size_half);
        assert(requests@ =~= first_requests(swapchain_images@, render_size, render_size_half));
        let handles = ask(make, requests);
        let total: usize = handles.len();
        assert(total == count + count + SCREEN_IMAGE_COUNT);
        let swapchain_views = some_of(&handles, 0, count);
        let render_complete_semaphores = some_of(&handles, count, count);
        let images = ScreenImages::new(&handles, count + count, render_size, render_size_half);
        assert(handles@ =~= swapchain_views@ + render_complete_semaphores@ + images.handles());
        ScreenResources {
            recreate: false,
            swapchain,
            swapchain_images,
            swapchain_views,
            render_complete_semaphores,
            images,
            viewport_size,
            render_size,
            texel_size,
            render_size_half,
            texel_size_half,
        }
    }

    /// Lists the writes that fill the bindings of the images that depend on the size of the
    /// window. Views that are missing are created, each by a call of its own.
    pub fn update_descriptors<V: FnOnce(ImageViewCreateInfo) -> u64>(
        &mut self,
        makers: ViewMakers<V>,
    ) -> (r: Vec<DescriptorWrite>)
        requires
            old(self).wf(),
            whole_viewable(old(self).images.depth, makers.depth),
            whole_viewable(old(self).images.gbuffer, makers.gbuffer),
            whole_viewable(old(self).images.color_output, makers.color_output),
            whole_viewable(old(self).images.ao, makers.ao),
            whole_viewable(old(self).images.ao_history.0, makers.ao_history.0),
            whole_viewable(old(self).images.ao_history.1, makers.ao_history.1),
        ensures
            final(self).wf(),
            *final(self) == (ScreenResources { images: final(self).images, ..*old(self) }),
            r@.len() == 8,
            forall|i: int|
                0 <= i < 8 ==> {
                    &&& (#[trigger] r@[i]).binding == i + 5
                    &&& r@[i].descriptor_type == binding_type(i + 5)
                    &&& r@[i].infos@.len() == binding_count(i + 5, 0, 0)
                },
            r@[0].infos@[0].image_layout == vk::LAYOUT_DEPTH_READ_ONLY_OPTIMAL,
            r@[1].infos@[0].image_layout == vk::LAYOUT_READ_ONLY_OPTIMAL,
            r@[2].infos@[0].image_layout == vk::LAYOUT_GENERAL,
            r@[3].infos@[0].image_layout == vk::LAYOUT_READ_ONLY_OPTIMAL,
            r@[4].infos@[0].image_layout == vk::LAYOUT_GENERAL,
            r@[5].infos@[0].image_layout == vk::LAYOUT_READ_ONLY_OPTIMAL,
            r@[6].infos@ == history_infos(
                r@[6].infos@[0].image_view,
                r@[6].infos@[1].image_view,
            ),
            r@[7].infos@ == r@[6].infos@,
            forall|i: int| 0 <= i < 8 ==> (#[trigger] r@[i]).infos@[0].sampler == 0,
            r@[3].infos@[0].image_view == r@[2].infos@[0].image_view,
            r@[5].infos@[0].image_view == r@[4].infos@[0].image_view,
            whole_viewed(
                old(self).images.depth,
                final(self).images.depth,
                makers.depth,
                r@[0].infos@[0].image_view,
            ),
            whole_viewed(
                old(self).images.gbuffer,
                final(self).images.gbuffer,
                makers.gbuffer,
                r@[1].infos@[0].image_view,
            ),
            whole_viewed(
                old(self).images.color_output,
                final(self).images.color_output,
                makers.color_output,
                r@[2].infos@[0].image_view,
            ),
            whole_viewed(
                old(self).images.ao,
                final(self).images.ao,
                makers.ao,
                r@[4].infos@[0].image_view,
            ),
            whole_viewed(
                old(self).images.ao_history.0,
                final(self).images.ao_history.0,
                makers.ao_history.0,
                r@[6].infos@[0].image_view,
            ),
            whole_viewed(
                old(self).images.ao_history.1,
                final(self).images.ao_history.1,
                makers.ao_history.1,
                r@[6].infos@[1].image_view,
            ),
    {
        let ViewMakers {
            depth: view_depth,
            gbuffer: view_gbuffer,
            color_output: view_color,
            ao: view_ao,
            ao_history: view_history,
        } = makers;
        let (view_first, view_second) = view_history;
        let first = self.images.ao_history.0.info_default(view_first, vk::LAYOUT_GENERAL);
        let second = self.images.ao_history.1.info_default(view_second, vk::LAYOUT_GENERAL);
        let mut stored: Vec<DescriptorImageInfo> = Vec::new();
        stored.push(first);
        stored.push(second);
        let mut read: Vec<DescriptorImageInfo> = Vec::new();
        read.push(first);
        read.push(second);
        let depth = self.images.depth.info_default(view_depth, vk::LAYOUT_DEPTH_READ_ONLY_OPTIMAL);
        let gbuffer = self.images.gbuffer.info_default(view_gbuffer, vk::LAYOUT_READ_ONLY_OPTIMAL);
        let color_stored = self.images.color_output.info_default(view_color, vk::LAYOUT_GENERAL);
        let color_read = DescriptorImageInfo {
            image_layout: vk::LAYOUT_READ_ONLY_OPTIMAL,
            ..color_stored
        };
        let ao_stored = self.images.ao.info_default(view_ao, vk::LAYOUT_GENERAL);
        let ao_read = DescriptorImageInfo {
            image_layout: vk::LAYOUT_READ_ONLY_OPTIMAL,
            ..ao_stored
        };
        let mut writes: Vec<DescriptorWrite> = Vec::new();
        writes.push(write_one(5, vk::DESCRIPTOR_SAMPLED_IMAGE, depth));
        writes.push(write_one(6, vk::DESCRIPTOR_SAMPLED_IMAGE, gbuffer));
        writes.push(write_one(7, vk::DESCRIPTOR_STORAGE_IMAGE, color_stored));
        writes.push(write_one(8, vk::DESCRIPTOR_SAMPLED_IMAGE, color_read));
        writes.push(write_one(9, vk::DESCRIPTOR_STORAGE_IMAGE, ao_stored));
        writes.push(write_one(10, vk::DESCRIPTOR_SAMPLED_IMAGE, ao_read));
        writes.push(
            DescriptorWrite {
                binding: 11,
                descriptor_type: vk::DESCRIPTOR_STORAGE_IMAGE,
                infos: stored,
            },
        );
        writes.push(
            DescriptorWrite {
                binding: 12,
                descriptor_type: vk::DESCRIPTOR_SAMPLED_IMAGE,
                infos: read,
            },
        );
        assert(stored@ =~= history_infos(first.image_view, second.image_view));
        assert(read@ =~= stored@);
        writes
    }

    /// Starts over: lists the steps to new screen resources. `resize` plans the swapchain that
    /// takes the place of the one at hand, `rebuild` makes the rest, and `update_descriptors` lists
    /// the writes.
    pub fn recreate(&mut self) -> (r: Vec<ScreenStep>)
        requires
            old(self).wf(),
        ensures
            r@ == recreate_steps(
                old(self).render_complete_semaphores@,
                old(self).swapchain_views@,
                old(self).images.destruction(),
                old(self).swapchain,
            ),
            !final(self).recreate,
            final(self).render_complete_semaphores@.len() == 0,
            final(self).swapchain_views@.len() == 0,
            *final(self) == (ScreenResources {
                recreate: false,
                render_complete_semaphores: final(self).render_complete_semaphores,
                swapchain_views: final(self).swapchain_views,
                ..*old(self)
            }),
    {
        self.recreate = false;
        let mut steps: Vec<ScreenStep> = Vec::new();
        steps.push(ScreenStep::WaitIdle);
        let ghost semaphores = self.render_complete_semaphores@;
        let ghost views = self.swapchain_views@;
        let mut i: usize = 0;
        while i < self.render_complete_semaphores.len()
            invariant
                i <= semaphores.len(),
                self.render_complete_semaphores@ == semaphores,
                steps@ =~= seq![ScreenStep::WaitIdle] + semaphores.take(i as int).map_values(
                    |s: u64| ScreenStep::DestroySemaphore(s),
                ),
            decreases semaphores.len() - i,
        {
            steps.push(ScreenStep::DestroySemaphore(self.render_complete_semaphores[i]));
            i = i + 1;
        }
        assert(semaphores.take(semaphores.len() as int) =~= semaphores);
        let ghost before_views = steps@;
        let mut j: usize = 0;
        while j < self.swapchain_views.len()
            invariant
                j <= views.len(),
                self.swapchain_views@ == views,
                steps@ =~= before_views + views.take(j as int).map_values(
                    |v: u64| ScreenStep::DestroySwapchainView(v),
                ),
            decreases views.len() - j,
        {
            steps.push(ScreenStep::DestroySwapchainView(self.swapchain_views[j]));
            j = j + 1;
        }
        assert(views.take(views.len() as int) =~= views);
        let ghost before_images = steps@;
        let images = self.images.destroy();
        let mut k: usize = 0;
        while k < images.len()
            invariant
                k <= images@.len(),
                steps@ =~= before_images + images@.take(k as int).map_values(
                    |d: DestroyStep| ScreenStep::Destroy(d),
                ),
            decreases images@.len() - k,
        {
            steps.push(ScreenStep::Destroy(images[k]));
            k = k + 1;
        }
        assert(images@.take(images@.len() as int) =~= images@);
        steps.push(ScreenStep::ReplaceSwapchain(self.swapchain));
        steps.push(ScreenStep::DestroySwapchain(self.swapchain));
        steps.push(ScreenStep::Rebuild);
        steps.push(ScreenStep::WriteDescriptors);
        assert(steps@ =~= recreate_steps(semaphores, views, images@, self.swapchain));
        self.render_complete_semaphores.clear();
        self.swapchain_views.clear();
        steps
    }

    /// Takes on the size of the surface and plans the swapchain that takes the place of the
    /// one at hand, which is handed back as soon as the new one exists.
    pub fn resize<S: Fn(Extent2D, u32) -> Extent2D, T: Fn([u32; 2]) -> [u32; 2]>(
        &mut self,
        capabilities: SurfaceCapabilities,
        config: &Config,
        scale: S,
        texels: T,
    ) -> (r: SwapchainPlan)
        requires
            forall|size: Extent2D, factor: u32| scale.requires((size, factor)),
            forall|size: [u32; 2]| texels.requires((size,)),
        ensures
            r == swapchain_plan(capabilities, vk::PRESENT_MODE_IMMEDIATE, old(self).swapchain),
            final(self).viewport_size == capabilities.current_extent,
            scale.ensures(
                (final(self).viewport_size, config.render_scale),
                final(self).render_size,
            ),
            scale.ensures(
                (final(self).render_size, vk::F32_HALF),
                final(self).render_size_half,
            ),
            texels_of(final(self).render_size, final(self).texel_size, texels),
            texels_of(final(self).render_size_half, final(self).texel_size_half, texels),
            *final(self) == (ScreenResources {
                viewport_size: final(self).viewport_size,
                render_size: final(self).render_size,
                texel_size: final(self).texel_size,
                render_size_half: final(self).render_size_half,
                texel_size_half: final(self).texel_size_half,
                ..*old(self)
            }),
    {
        let render_size: Extent2D = scale(capabilities.current_extent, config.render_scale);
        let texel_size: [u32; 2] = texels(render_size.as_uvec2());
        let render_size_half: Extent2D = scale(render_size, vk::F32_HALF);
        let texel_size_half: [u32; 2] = texels(render_size_half.as_uvec2());
        self.viewport_size = capabilities.current_extent;
        self.render_size = render_size;
        self.texel_size = texel_size;
        self.render_size_half = render_size_half;
        self.texel_size_half = texel_size_half;
        make_swapchain_plan(capabilities, vk::PRESENT_MODE_IMMEDIATE, self.swapchain)
    }

    /// Takes on a new swapchain and makes everything else for its images.
    pub fn rebuild<M: FnOnce(Vec<Request>) -> Vec<u64>>(
        &mut self,
        swapchain: u64,
        swapchain_images: Vec<u64>,
        make: M,
    )
        requires
            answerable(
                make,
                rebuild_requests(
                    swapchain_images@,
                    old(self).render_size,
                    old(self).render_size_half,
                ),
            ),
        ensures
            final(self).wf(),
            final(self).swapchain == swapchain,
            final(self).swapchain_images@ == swapchain_images@,
            answered(
                make,
                rebuild_requests(
                    swapchain_images@,
                    old(self).render_size,
                    old(self).render_size_half,
                ),
                final(self).swapchain_views@ + final(self).images.handles()
                    + final(self).render_complete_semaphores@,
            ),
            final(self).images.made(old(self).render_size, old(self).render_size_half),
            *final(self) == (ScreenResources {
                swapchain,
                swapchain_images: final(self).swapchain_images,
                swapchain_views: final(self).swapchain_views,
                render_complete_semaphores: final(self).render_complete_semaphores,
                images: final(self).images,
                ..*old(self)
            }),
    {
        let count: usize = swapchain_images.len();
        let mut requests: Vec<Request> = Vec::new();
        push_view_requests(&mut requests, &swapchain_images);
        ScreenImages::push_requests(&mut requests, self.render_size, self.render_size_half);
        push_semaphore_requests(&mut requests, count);
        assert(requests@ =~= rebuild_requests(
            swapchain_images@,
            self.render_size,
            self.render_size_half,
        ));
        let handles = ask(make, requests);
        let total: usize = handles.len();
        assert(total == count + SCREEN_IMAGE_COUNT + count);
        self.swapchain = swapchain;
        self.swapchain_views = some_of(&handles, 0, count);
        self.images = ScreenImages::new(
            &handles,
            count,
            self.render_size,
            self.render_size_half,
        );
        self.render_complete_semaphores = some_of(&handles, count + SCREEN_IMAGE_COUNT, count);
        assert(handles@ =~= self.swapchain_views@ + self.images.handles()
            + self.render_complete_semaphores@);
        self.swapchain_images = swapchain_images;
    }
}

/// Nothing is handed back before the device is idle, and every semaphore, every view of the
/// swapchain and all that the images consist of is handed back.
pub proof fn law_teardown_is_complete(
    semaphores: Seq<u64>,
    views: Seq<u64>,
    images: Seq<DestroyStep>,
    i: int,
)
    ensures
        ({
            let steps = teardown_steps(semaphores, views, images);
            &&& steps.len() == 1 + semaphores.len() + views.len() + images.len()
            &&& steps[0] == ScreenStep::WaitIdle
            &&& 0 <= i < semaphores.len() ==> steps[1 + i] == ScreenStep::DestroySemaphore(
                semaphores[i],
            )
            &&& 0 <= i < views.len() ==> steps[1 + semaphores.len() + i]
                == ScreenStep::DestroySwapchainView(views[i])
            &&& 0 <= i < images.len() ==> steps[1 + semaphores.len() + views.len() + i]
                == ScreenStep::Destroy(images[i])
        }),
{
}

/// After the teardown the old swapchain is replaced and then handed back, each once; everything else
/// is rebuilt after that, once; and the descriptors are written last, once.
pub proof fn law_swapchain_is_replaced_once(
    semaphores: Seq<u64>,
    views: Seq<u64>,
    images: Seq<DestroyStep>,
    swapchain: u64,
    i: int,
)
    requires
        0 <= i < recreate_steps(semaphores, views, images, swapchain).len(),
    ensures
        ({
            let steps = recreate_steps(semaphores, views, images, swapchain);
            let n = teardown_steps(semaphores, views, images).len() as int;
            &&& steps.len() == n + 4
            &&& i < n ==> steps[i] == teardown_steps(semaphores, views, images)[i]
            &&& steps[i] is ReplaceSwapchain <==> i == n
            &&& steps[i] is DestroySwapchain <==> i == n + 1
            &&& steps[i] is Rebuild <==> i == n + 2
            &&& steps[i] is WriteDescriptors <==> i == n + 3
            &&& steps[n] == ScreenStep::ReplaceSwapchain(swapchain)
            &&& steps[n + 1] == ScreenStep::DestroySwapchain(swapchain)
        }),
{
}

/// The driver is asked for a view and a semaphore for each image of the swapchain and for the six
/// images of the screen, each once, and for nothing else; making everything anew asks for the same.
pub proof fn law_screen_objects_are_created_once(
    swapchain_images: Seq<u64>,
    render_size: Extent2D,
    render_size_half: Extent2D,
    i: int,
)
    ensures
        ({
            let n = swapchain_images.len() as int;
            let first = first_requests(swapchain_images, render_size, render_size_half);
            let again = rebuild_requests(swapchain_images, render_size, render_size_half);
            let images = ScreenImages::requests(render_size, render_size_half);
            &&& first.len() == 2 * n + SCREEN_IMAGE_COUNT
            &&& again.len() == first.len()
            &&& 0 <= i < n ==> {
                &&& first[i] == Request::ImageView(swapchain_view(swapchain_images[i]))
                &&& again[i] == first[i]
                &&& first[n + i] == Request::Semaphore
                &&& again[n + SCREEN_IMAGE_COUNT + i] == Request::Semaphore
            }
            &&& 0 <= i < SCREEN_IMAGE_COUNT ==> {
                &&& first[2 * n + i] == images[i]
                &&& again[n + i] == images[i]
            }
        }),
{
}

/// The images have the formats that the pipelines and the commands of a frame count on.
pub proof fn law_images_fit_slots(render_size: Extent2D, render_size_half: Extent2D, i: usize)
    ensures
        depth_desc(render_size).format == ImageSlot::Depth.format(),
        gbuffer_desc(render_size).format == ImageSlot::Gbuffer.format(),
        ao_desc(render_size_half).format == ImageSlot::Ao.format(),
        ao_desc(render_size_half).format == ImageSlot::AoHistory(i).format(),
        color_output_desc(render_size).format == ImageSlot::ColorOutput.format(),
        SWAPCHAIN_FORMAT == ImageSlot::Swapchain(i).format(),
{
}

/// The writes of the fixed resources and those of the screen together fill the descriptor set:
/// every binding, with descriptors of its type, and as many as it has room for.
pub proof fn law_writes_fill_set(
    fixed: Seq<DescriptorWrite>,
    screen: Seq<DescriptorWrite>,
    scene_images: Seq<DescriptorImageInfo>,
    scene_samplers: Seq<u64>,
    linear: u64,
    nearest: u64,
    shadowmap: Seq<DescriptorImageInfo>,
    binding: int,
)
    requires
        fixed.len() == 5,
        fixed[0].puts(0, scene_images),
        fixed[1].puts(1, scene_samplers.map_values(|s: u64| sampler_info(s))),
        fixed[2].puts(2, seq![sampler_info(linear)]),
        fixed[3].puts(3, seq![sampler_info(nearest)]),
        fixed[4].puts(4, shadowmap),
        screen.len() == 8,
        forall|i: int|
            0 <= i < 8 ==> {
                &&& (#[trigger] screen[i]).binding == i + 5
                &&& screen[i].descriptor_type == binding_type(i + 5)
                &&& screen[i].infos@.len() == binding_count(i + 5, 0, 0)
            },
        scene_images.len() <= u32::MAX,
        scene_samplers.len() <= u32::MAX,
        shadowmap.len() == CASCADES,
        0 <= binding < BINDING_COUNT,
    ensures
        (fixed + screen).len() == BINDING_COUNT,
        ({
            let write = (fixed + screen)[binding];
            &&& write.binding == binding
            &&& write.descriptor_type == binding_type(binding)
            &&& write.infos@.len() == binding_count(
                binding,
                scene_images.len() as u32,
                scene_samplers.len() as u32,
            )
        }),
{
    if binding >= 5 {
        assert((fixed + screen)[binding] == screen[binding - 5]);
    } else {
        assert((fixed + screen)[binding] == fixed[binding]);
    }
}


/// A swapchain is as large as the surface, of as few flat images as that allows, that can be drawn
/// into and are shown as they are, without anything shining through; it is shown in the way asked
/// for and takes the place of the one given.
pub proof fn law_swapchain_fits_surface(
    capabilities: SurfaceCapabilities,
    present_mode: i32,
    old_swapchain: u64,
)
    ensures
        ({
            let plan = swapchain_plan(capabilities, present_mode, old_swapchain);
            &&& plan.min_image_count == capabilities.min_image_count
            &&& plan.image_extent.width == capabilities.current_extent.width
            &&& plan.image_extent.height == capabilities.current_extent.height
            &&& plan.image_format == vk::FORMAT_B8G8R8A8_SRGB
            &&& plan.image_color_space == vk::COLOR_SPACE_SRGB_NONLINEAR
            &&& plan.image_array_layers == 1
            &&& plan.image_usage == vk::IMAGE_USAGE_COLOR_ATTACHMENT
            &&& plan.pre_transform == vk::TRANSFORM_IDENTITY
            &&& plan.composite_alpha == vk::COMPOSITE_ALPHA_OPAQUE
            &&& plan.present_mode == present_mode
            &&& plan.old_swapchain == old_swapchain
        }),
{
}

/// The view of an image of the swapchain shows all of that image, in the format in which it is drawn.
pub proof fn law_swapchain_view_shows_image(image: u64)
    ensures
        ({
            let view = swapchain_view(image);
            &&& view.image == image
            &&& view.view_type == vk::VIEW_TYPE_2D
            &&& view.format == ImageSlot::Swapchain(0).format()
            &&& view.range.aspect_mask == ImageSlot::Swapchain(0).aspect()
            &&& view.range.base_mip_level == 0
            &&& view.range.level_count == 1
            &&& view.range.base_array_layer == 0
            &&& view.range.layer_count == 1
        }),
{
}

/// A description is that of a flat image of a size, with one level, one layer and one sample, for
/// the given uses, that lives in memory of its own.
pub open spec fn flat_image(desc: ImageDesc, size: Extent2D, usage: u32) -> bool {
    &&& desc.flags == 0
    &&& desc.image_type == vk::IMAGE_TYPE_2D
    &&& desc.extent.width == size.width
    &&& desc.extent.height == size.height
    &&& desc.extent.depth == 1
    &&& desc.samples == vk::SAMPLES_TYPE_1
    &&& desc.mip_levels == 1
    &&& desc.array_layers == 1
    &&& desc.usage == usage
    &&& image_request(desc) matches Request::Image(creation) && {
        &&& creation.allocation.flags == vk::ALLOCATION_DEDICATED_MEMORY
        &&& creation.allocation.usage == MemoryUsage::Auto
        &&& creation.info.format == desc.format
        &&& creation.info.extent == desc.extent
        &&& creation.info.usage == usage
        &&& creation.info.mip_levels == 1
        &&& creation.info.array_layers == 1
        &&& creation.info.samples == vk::SAMPLES_TYPE_1
    }
}

/// The images of a frame can be used as its passes use them: depth and geometry are drawn into and
/// read, ambient occlusion is written by a pass that computes and read, and the lit image is too and
/// may be drawn into. Ambient occlusion has half the resolution, the others all of it.
pub proof fn law_images_serve_passes(render_size: Extent2D, render_size_half: Extent2D)
    ensures
        flat_image(
            depth_desc(render_size),
            render_size,
            vk::IMAGE_USAGE_DEPTH_STENCIL_ATTACHMENT | vk::IMAGE_USAGE_SAMPLED,
        ),
        flat_image(
            gbuffer_desc(render_size),
            render_size,
            vk::IMAGE_USAGE_COLOR_ATTACHMENT | vk::IMAGE_USAGE_SAMPLED,
        ),
        flat_image(
            ao_desc(render_size_half),
            render_size_half,
            vk::IMAGE_USAGE_STORAGE | vk::IMAGE_USAGE_SAMPLED,
        ),
        flat_image(
            color_output_desc(render_size),
            render_size,
            vk::IMAGE_USAGE_COLOR_ATTACHMENT | vk::IMAGE_USAGE_STORAGE | vk::IMAGE_USAGE_SAMPLED,
        ),
{
}

/// Every image of the screen gets the handle that answers the request for it.
pub proof fn law_images_get_their_handles(
    images: ScreenImages,
    render_size: Extent2D,
    render_size_half: Extent2D,
)
    requires
        images.made(render_size, render_size_half),
    ensures
        ({
            let requests = ScreenImages::requests(render_size, render_size_half);
            let handles = images.handles();
            &&& requests.len() == SCREEN_IMAGE_COUNT
            &&& handles.len() == SCREEN_IMAGE_COUNT
            &&& requests[0] == image_request(images.depth.desc)
            &&& handles[0] == images.depth.image
            &&& images.depth.desc.format == ImageSlot::Depth.format()
            &&& requests[1] == image_request(images.gbuffer.desc)
            &&& handles[1] == images.gbuffer.image
            &&& images.gbuffer.desc.format == ImageSlot::Gbuffer.format()
            &&& requests[2] == image_request(images.ao.desc)
            &&& handles[2] == images.ao.image
            &&& images.ao.desc.format == ImageSlot::Ao.format()
            &&& requests[3] == image_request(images.ao_history.0.desc)
            &&& handles[3] == images.ao_history.0.image
            &&& requests[4] == image_request(images.ao_history.1.desc)
            &&& handles[4] == images.ao_history.1.image
            &&& images.ao_history.0.desc == images.ao.desc
            &&& images.ao_history.1.desc == images.ao.desc
            &&& requests[5] == image_request(images.color_output.desc)
            &&& handles[5] == images.color_output.image
            &&& images.color_output.desc.format == ImageSlot::ColorOutput.format()
        }),
{
}

/// All images of the screen are handed back, with all their views.
pub proof fn law_destruction_covers_screen(images: ScreenImages, step: DestroyStep)
    ensures
        images.destruction().contains(step) <==> {
            ||| images.depth.destruction().contains(step)
            ||| images.color_output.destruction().contains(step)
            ||| images.gbuffer.destruction().contains(step)
            ||| images.ao.destruction().contains(step)
            ||| images.ao_history.0.destruction().contains(step)
            ||| images.ao_history.1.destruction().contains(step)
        },
        images.destruction().len() == images.depth.destruction().len()
            + images.color_output.destruction().len() + images.gbuffer.destruction().len()
            + images.ao.destruction().len() + images.ao_history.0.destruction().len()
            + images.ao_history.1.destruction().len(),
{
    let a = images.depth.destruction();
    let b = images.color_output.destruction();
    let c = images.gbuffer.destruction();
    let d = images.ao.destruction();
    let e = images.ao_history.0.destruction();
    let f = images.ao_history.1.destruction();
    lemma_contains_concat(a, b, step);
    lemma_contains_concat(a + b, c, step);
    lemma_contains_concat(a + b + c, d, step);
    lemma_contains_concat(a + b + c + d, e, step);
    lemma_contains_concat(a + b + c + d + e, f, step);
}

proof fn lemma_contains_concat(a: Seq<DestroyStep>, b: Seq<DestroyStep>, step: DestroyStep)
    ensures
        (a + b).contains(step) <==> a.contains(step) || b.contains(step),
{
    let all = a + b;
    if a.contains(step) {
        let k = choose|k: int| 0 <= k < a.len() && a[k] == step;
        assert(all[k] == step);
    }
    if b.contains(step) {
        let k = choose|k: int| 0 <= k < b.len() && b[k] == step;
        assert(all[a.len() + k] == step);
    }
    if all.contains(step) {
        let k = choose|k: int| 0 <= k < all.len() && all[k] == step;
        if k < a.len() {
            assert(a[k] == step);
        } else {
            assert(b[k - a.len()] == step);
        }
    }
}

/// A view stands in a descriptor with the layout that it is read in and no sampler; the images of
/// history stand there in their order; and a size reads as its width and then its height.
pub proof fn law_descriptors_hold_views(view: u64, layout: i32, first: u64, second: u64, size: Extent2D)
    ensures
        view_info(view, layout).image_view == view,
        view_info(view, layout).image_layout == layout,
        view_info(view, layout).sampler == 0,
        history_infos(first, second).len() == 2,
        history_infos(first, second)[0].image_view == first,
        history_infos(first, second)[1].image_view == second,
        history_infos(first, second)[0].image_layout == vk::LAYOUT_GENERAL,
        history_infos(first, second)[1].image_layout == vk::LAYOUT_GENERAL,
        size.coordinates().len() == 2,
        size.coordinates()[0] == size.width,
        size.coordinates()[1] == size.height,
{
}

} // verus!
