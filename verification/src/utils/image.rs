//! Images: how they are described, created, filled and viewed.
use crate::outside::{extent_3d, image_usage_union};
use crate::utils::context::{setup_steps, DestroyStep, SetupStep, VkCtx, VkDrop};
use crate::utils::upload::{
    carried_out, law_upload_is_in_order, list_upload, upload_run, upload_start, upload_steps,
    Staging, UploadState, UploadStep,
};
use crate::vk;
use crate::vk::{
    AllocationCreateInfo, BufferImageCopy, DescriptorImageInfo, Extent2D,
    Extent3D, ImageBarrier, ImageBlit, ImageCreateInfo, ImageViewCreateInfo, MemoryUsage, Offset3D,
    SubresourceLayers, SubresourceRange,
};
use vstd::arithmetic::power2::pow2;
use vstd::prelude::*;

verus! {

/// A description of an image that is yet to be created.
#[derive(Clone, Copy, Debug, PartialEq, Eq, Structural)]
pub struct ImageDesc {
    pub flags: u32,
    pub image_type: i32,
    pub format: i32,
    pub extent: Extent3D,
    pub samples: u32,
    pub mip_levels: u32,
    pub array_layers: u32,
    pub usage: u32,
}

/// The description that nothing has been said of yet: one sample, one level, one layer.
pub open spec fn blank_desc() -> ImageDesc {
    ImageDesc {
        flags: 0,
        image_type: vk::IMAGE_TYPE_1D,
        format: vk::FORMAT_UNDEFINED,
        extent: Extent3D { width: 0, height: 0, depth: 0 },
        samples: vk::SAMPLES_TYPE_1,
        mip_levels: 1,
        array_layers: 1,
        usage: 0,
    }
}

/// Starts the description of an image.
pub fn image() -> (r: ImageDesc)
    ensures
        r == blank_desc(),
{
    ImageDesc::default()
}

impl Default for ImageDesc {
    fn default() -> (r: Self)
        ensures
            r == blank_desc(),
    {
        ImageDesc {
            flags: 0,
            image_type: vk::IMAGE_TYPE_1D,
            format: vk::FORMAT_UNDEFINED,
            extent: Extent3D { width: 0, height: 0, depth: 0 },
            samples: vk::SAMPLES_TYPE_1,
            mip_levels: 1,
            array_layers: 1,
            usage: 0,
        }
    }
}

/// An image together with the memory it is to live in.
#[derive(Clone, Copy, Debug, PartialEq, Eq, Structural)]
pub struct ImageCreation {
    pub info: ImageCreateInfo,
    pub allocation: AllocationCreateInfo,
}

/// A command on an image.
#[derive(Clone, Copy, Debug, PartialEq, Eq, Structural)]
pub enum ImageCommand {
    /// Change the layout of some levels.
    Barrier(ImageBarrier),
    /// Copy bytes from a buffer into the image.
    Copy(BufferImageCopy),
    /// Scale one level into another.
    Blit(ImageBlit),
}

impl ImageDesc {
    /// What the image is created with, given how it will be used. The creation flags of the
    /// description are not handed on.
    pub open spec fn info_for(self, usage: u32) -> ImageCreateInfo {
        ImageCreateInfo {
            image_type: self.image_type,
            format: self.format,
            extent: self.extent,
            mip_levels: self.mip_levels,
            array_layers: self.array_layers,
            samples: self.samples,
            tiling: vk::TILING_OPTIMAL,
            usage,
            initial_layout: vk::LAYOUT_UNDEFINED,
        }
    }

    pub fn flags(self, flags: u32) -> (r: Self)
        ensures
            r == (ImageDesc { flags, ..self }),
    {
        ImageDesc { flags, ..self }
    }

    pub fn format(self, format: i32) -> (r: Self)
        ensures
            r == (ImageDesc { format, ..self }),
    {
        ImageDesc { format, ..self }
    }

    pub fn extent_1d(self, extent: u32) -> (r: Self)
        ensures
            r == (ImageDesc {
                image_type: vk::IMAGE_TYPE_1D,
                extent: Extent3D { width: extent, height: 1, depth: 1 },
                array_layers: 1,
                ..self
            }),
    {
        ImageDesc {
            image_type: vk::IMAGE_TYPE_1D,
            extent: Extent3D { width: extent, height: 1, depth: 1 },
            array_layers: 1,
            ..self
        }
    }

    pub fn extent_2d(self, extent: Extent2D) -> (r: Self)
        ensures
            r == (ImageDesc {
                image_type: vk::IMAGE_TYPE_2D,
                extent: Extent3D { width: extent.width, height: extent.height, depth: 1 },
                array_layers: 1,
                ..self
            }),
    {
        self.extent_2d_array(extent, 1)
    }

    pub fn extent_2d_array(self, extent: Extent2D, array_layers: u32) -> (r: Self)
        ensures
            r == (ImageDesc {
                image_type: vk::IMAGE_TYPE_2D,
                extent: Extent3D { width: extent.width, height: extent.height, depth: 1 },
                array_layers,
                ..self
            }),
    {
        ImageDesc {
            image_type: vk::IMAGE_TYPE_2D,
            extent: extent_3d(extent),
            array_layers,
            ..self
        }
    }

    pub fn extent_3d(self, extent: Extent3D) -> (r: Self)
        ensures
            r == (ImageDesc {
                image_type: vk::IMAGE_TYPE_3D,
                extent,
                array_layers: 1,
                ..self
            }),
    {
        ImageDesc { image_type: vk::IMAGE_TYPE_3D, extent, array_layers: 1, ..self }
    }

    pub fn samples(self, samples: u32) -> (r: Self)
        ensures
            r == (ImageDesc { samples, ..self }),
    {
        ImageDesc { samples, ..self }
    }

    pub fn mip_levels(self, mip_levels: u32) -> (r: Self)
        ensures
            r == (ImageDesc { mip_levels, ..self }),
    {
        ImageDesc { mip_levels, ..self }
    }

    pub fn usage(self, usage: u32) -> (r: Self)
        ensures
            r == (ImageDesc { usage, ..self }),
    {
        ImageDesc { usage, ..self }
    }

    /// What to create the image and its memory with.
    pub fn creation(&self, flags: u32) -> (r: ImageCreation)
        ensures
            r.info == self.info_for(self.usage),
            r.allocation == (AllocationCreateInfo { flags, usage: MemoryUsage::Auto }),
    {
        ImageCreation {
            info: ImageCreateInfo {
                image_type: self.image_type,
                format: self.format,
                extent: self.extent,
                mip_levels: self.mip_levels,
                array_layers: self.array_layers,
                samples: self.samples,
                tiling: vk::TILING_OPTIMAL,
                usage: self.usage,
                initial_layout: vk::LAYOUT_UNDEFINED,
            },
            allocation: AllocationCreateInfo { flags, usage: MemoryUsage::Auto },
        }
    }

    /// Has the driver create the image, in memory with the given allocation flags. No view of
    /// it exists yet.
    pub fn create<F: FnOnce(ImageCreateInfo, AllocationCreateInfo) -> u64>(
        self,
        create: F,
        flags: u32,
    ) -> (r: Image)
        requires
            create.requires(
                (
                    self.info_for(self.usage),
                    AllocationCreateInfo { flags, usage: MemoryUsage::Auto },
                ),
            ),
        ensures
            create.ensures(
                (
                    self.info_for(self.usage),
                    AllocationCreateInfo { flags, usage: MemoryUsage::Auto },
                ),
                r.image,
            ),
            r.wf(),
            r.desc == self,
            r.views() == Map::<ViewDesc, u64>::empty(),
    {
        let creation = self.creation(flags);
        let image: u64 = create(creation.info, creation.allocation);
        self.into_image(image)
    }

    /// What the image is created with if it is to be filled: it can be copied into, whatever usage
    /// was asked for.
    pub open spec fn filled_creation(self, flags: u32) -> ImageCreation {
        ImageCreation {
            info: self.info_for(self.usage | vk::IMAGE_USAGE_TRANSFER_DST),
            allocation: AllocationCreateInfo { flags, usage: MemoryUsage::Auto },
        }
    }

    /// Creates the image, in memory with the given allocation flags, and fills its first level
    /// with bytes. `upload` carries out the steps and gives the handle of the image that is created
    /// on the way. No view of it exists yet.
    pub fn create_with_data<U: FnOnce(Vec<UploadStep<ImageCreation, ImageCommand>>) -> u64>(
        self,
        ctx: &VkCtx,
        upload: U,
        flags: u32,
        bytes: Vec<u8>,
    ) -> (r: Image)
        requires
            forall|steps: Vec<UploadStep<ImageCreation, ImageCommand>>|
                steps@ == image_upload(self, flags, bytes) ==> #[trigger] upload.requires((steps,)),
        ensures
            carried_out(upload, image_upload(self, flags, bytes), r.image),
            r.wf(),
            r.desc == self,
            r.views() == Map::<ViewDesc, u64>::empty(),
            r.views@.len() == 0,
    {
        let writable = ImageDesc {
            usage: image_usage_union(self.usage, vk::IMAGE_USAGE_TRANSFER_DST),
            ..self
        };
        let view = ViewDesc::default_from_image(&self);
        let barrier = ImageBarrier {
            src_stage: vk::STAGE_NONE,
            src_access: vk::ACCESS_NONE,
            dst_stage: vk::STAGE_TRANSFER,
            dst_access: vk::ACCESS_TRANSFER_WRITE,
            old_layout: vk::LAYOUT_UNDEFINED,
            new_layout: vk::LAYOUT_TRANSFER_DST_OPTIMAL,
            range: SubresourceRange {
                aspect_mask: view.aspect_mask,
                base_mip_level: 0,
                level_count: self.mip_levels,
                base_array_layer: 0,
                layer_count: 1,
            },
        };
        let copy = BufferImageCopy {
            buffer_offset: 0,
            layers: SubresourceLayers {
                aspect_mask: view.aspect_mask,
                mip_level: 0,
                base_array_layer: 0,
                layer_count: 1,
            },
            extent: self.extent,
            layout: vk::LAYOUT_TRANSFER_DST_OPTIMAL,
        };
        let mut commands: Vec<ImageCommand> = Vec::new();
        commands.push(ImageCommand::Barrier(barrier));
        commands.push(ImageCommand::Copy(copy));
        assert(commands@ =~= upload_commands(self));
        let target = writable.creation(flags);
        assert(target == self.filled_creation(flags));
        let steps = list_upload(ctx, bytes, target, &commands);
        let ghost list = steps;
        let image: u64 = upload(steps);
        assert(upload.ensures((list,), image));
        self.into_image(image)
    }

    /// The image of this description, once the driver has created it under the given handle.
    pub fn into_image(self, image: u64) -> (r: Image)
        ensures
            r.wf(),
            r.image == image,
            r.desc == self,
            r.views() == Map::<ViewDesc, u64>::empty(),
            r.views@.len() == 0,
    {
        let default_view_desc = ViewDesc::default_from_image(&self);
        let r = Image { image, desc: self, default_view_desc, views: Vec::new() };
        assert(r.views() =~= Map::<ViewDesc, u64>::empty());
        r
    }
}

/// The barrier that makes every level of a fresh image ready to be copied into.
pub open spec fn upload_barrier(desc: ImageDesc) -> ImageBarrier {
    ImageBarrier {
        src_stage: vk::STAGE_NONE,
        src_access: vk::ACCESS_NONE,
        dst_stage: vk::STAGE_TRANSFER,
        dst_access: vk::ACCESS_TRANSFER_WRITE,
        old_layout: vk::LAYOUT_UNDEFINED,
        new_layout: vk::LAYOUT_TRANSFER_DST_OPTIMAL,
        range: SubresourceRange {
            aspect_mask: default_view(desc).aspect_mask,
            base_mip_level: 0,
            level_count: desc.mip_levels,
            base_array_layer: 0,
            layer_count: 1,
        },
    }
}

/// The copy that fills the whole first level.
pub open spec fn upload_copy(desc: ImageDesc) -> BufferImageCopy {
    BufferImageCopy {
        buffer_offset: 0,
        layers: SubresourceLayers {
            aspect_mask: default_view(desc).aspect_mask,
            mip_level: 0,
            base_array_layer: 0,
            layer_count: 1,
        },
        extent: desc.extent,
        layout: vk::LAYOUT_TRANSFER_DST_OPTIMAL,
    }
}

/// The commands that fill the first level of a fresh image.
pub open spec fn upload_commands(desc: ImageDesc) -> Seq<ImageCommand> {
    seq![ImageCommand::Barrier(upload_barrier(desc)), ImageCommand::Copy(upload_copy(desc))]
}

/// How an image is created and its first level filled with bytes.
pub open spec fn image_upload(desc: ImageDesc, flags: u32, bytes: Vec<u8>) -> Seq<
    UploadStep<ImageCreation, ImageCommand>,
> {
    upload_steps(bytes, desc.filled_creation(flags), upload_commands(desc))
}

/// The part of an image that a view shows.
#[derive(Clone, Copy, Debug, PartialEq, Eq, Hash, Structural)]
pub struct ViewDesc {
    pub view_type: i32,
    pub aspect_mask: u32,
    pub base_mip_level: u32,
    pub level_count: u32,
    pub base_array_layer: u32,
    pub layer_count: u32,
}

/// The view of a whole image: its dimensionality follows the image, a layered flat image being
/// viewed as an array, and its aspects follow the format.
pub open spec fn default_view(desc: ImageDesc) -> ViewDesc {
    ViewDesc {
        view_type: if desc.image_type == vk::IMAGE_TYPE_1D {
            vk::VIEW_TYPE_1D
        } else if desc.image_type == vk::IMAGE_TYPE_3D {
            vk::VIEW_TYPE_3D
        } else if desc.image_type == vk::IMAGE_TYPE_2D && desc.array_layers != 1 {
            vk::VIEW_TYPE_2D_ARRAY
        } else {
            vk::VIEW_TYPE_2D
        },
        aspect_mask: format_aspects(desc.format),
        base_mip_level: 0,
        level_count: desc.mip_levels,
        base_array_layer: 0,
        layer_count: desc.array_layers,
    }
}

/// The aspects that an image of the given format has.
pub open spec fn format_aspects(format: i32) -> u32 {
    if format == vk::FORMAT_D16_UNORM || format == vk::FORMAT_D32_SFLOAT {
        vk::ASPECT_DEPTH
    } else if format == vk::FORMAT_D16_UNORM_S8_UINT || format == vk::FORMAT_D24_UNORM_S8_UINT
        || format == vk::FORMAT_D32_SFLOAT_S8_UINT {
        vk::ASPECT_DEPTH | vk::ASPECT_STENCIL
    } else {
        vk::ASPECT_COLOR
    }
}

impl ViewDesc {
    /// The view of a whole image.
    pub fn default_from_image(desc: &ImageDesc) -> (r: Self)
        ensures
            r == default_view(*desc),
    {
        let view_type: i32 = if desc.image_type == vk::IMAGE_TYPE_1D {
            vk::VIEW_TYPE_1D
        } else if desc.image_type == vk::IMAGE_TYPE_2D {
            if desc.array_layers == 1 {
                vk::VIEW_TYPE_2D
            } else {
                vk::VIEW_TYPE_2D_ARRAY
            }
        } else if desc.image_type == vk::IMAGE_TYPE_3D {
            vk::VIEW_TYPE_3D
        } else {
            vk::VIEW_TYPE_2D
        };
        let format: i32 = desc.format;
        let aspect_mask: u32 = if format == vk::FORMAT_D16_UNORM || format == vk::FORMAT_D32_SFLOAT {
            vk::ASPECT_DEPTH
        } else if format == vk::FORMAT_D16_UNORM_S8_UINT || format == vk::FORMAT_D24_UNORM_S8_UINT
            || format == vk::FORMAT_D32_SFLOAT_S8_UINT {
            vk::ASPECT_DEPTH | vk::ASPECT_STENCIL
        } else {
            vk::ASPECT_COLOR
        };
        ViewDesc {
            view_type,
            aspect_mask,
            base_mip_level: 0,
            level_count: desc.mip_levels,
            base_array_layer: 0,
            layer_count: desc.array_layers,
        }
    }
}

/// An image that the driver holds, with the views created of it so far.
#[derive(Debug)]
pub struct Image {
    pub image: u64,
    pub desc: ImageDesc,
    pub default_view_desc: ViewDesc,
    /// The views and what they show, in the order of their creation.
    pub views: Vec<(ViewDesc, u64)>,
}

/// The views in a list of pairs, by their description.
pub open spec fn views_of(pairs: Seq<(ViewDesc, u64)>) -> Map<ViewDesc, u64> {
    Map::new(
        |d: ViewDesc| exists|i: int| 0 <= i < pairs.len() && #[trigger] pairs[i].0 == d,
        |d: ViewDesc| pairs[choose|i: int| 0 <= i < pairs.len() && #[trigger] pairs[i].0 == d].1,
    )
}

/// No description occurs twice.
pub open spec fn unique_views(pairs: Seq<(ViewDesc, u64)>) -> bool {
    forall|i: int, j: int|
        0 <= i < pairs.len() && 0 <= j < pairs.len() && (#[trigger] pairs[i]).0 == (
        #[trigger] pairs[j]).0 ==> i == j
}

impl Image {
    /// The views created so far, by what they show.
    pub open spec fn views(&self) -> Map<ViewDesc, u64> {
        views_of(self.views@)
    }

    /// At most one view is held of each description.
    pub open spec fn wf(&self) -> bool {
        &&& self.default_view_desc == default_view(self.desc)
        &&& unique_views(self.views@)
    }

    /// What a view is created with.
    pub open spec fn view_info(&self, desc: ViewDesc) -> ImageViewCreateInfo {
        ImageViewCreateInfo {
            image: self.image,
            view_type: desc.view_type,
            format: self.desc.format,
            range: SubresourceRange {
                aspect_mask: desc.aspect_mask,
                base_mip_level: desc.base_mip_level,
                level_count: desc.level_count,
                base_array_layer: desc.base_array_layer,
                layer_count: desc.layer_count,
            },
        }
    }

    /// What asking for a view does: one that is held is handed out again and nothing changes;
    /// any other is the one that the driver makes of its description, and is held from then on.
    pub open spec fn viewed<F: FnOnce(ImageViewCreateInfo) -> u64>(
        before: Image,
        after: Image,
        create: F,
        desc: ViewDesc,
        view: u64,
    ) -> bool {
        &&& after.wf()
        &&& after.image == before.image
        &&& after.desc == before.desc
        &&& if before.views().contains_key(desc) {
            &&& view == before.views()[desc]
            &&& after.views() == before.views()
            &&& after.views@ == before.views@
        } else {
            &&& create.ensures((before.view_info(desc),), view)
            &&& after.views() == before.views().insert(desc, view)
            &&& after.views@ == before.views@.push((desc, view))
        }
    }

    /// The view of a description. The driver is asked for it only if it is not held.
    pub fn view<F: FnOnce(ImageViewCreateInfo) -> u64>(&mut self, create: F, desc: ViewDesc) -> (r: u64)
        requires
            old(self).wf(),
            !old(self).views().contains_key(desc) ==> create.requires(
                (old(self).view_info(desc),),
            ),
        ensures
            Self::viewed(*old(self), *final(self), create, desc, r),
    {
        let mut i: usize = 0;
        while i < self.views.len()
            invariant
                self == old(self),
                self.wf(),
                i <= self.views@.len(),
                forall|j: int| 0 <= j < i ==> (#[trigger] self.views@[j]).0 != desc,
            decreases self.views@.len() - i,
        {
            if self.views[i].0 == desc {
                proof {
                    let pairs = self.views@;
                    assert(pairs[i as int].0 == desc);
                    let k = choose|k: int| 0 <= k < pairs.len() && #[trigger] pairs[k].0 == desc;
                    assert(pairs[k].0 == pairs[i as int].0);
                }
                return self.views[i].1;
            }
            i = i + 1;
        }
        let info = ImageViewCreateInfo {
            image: self.image,
            view_type: desc.view_type,
            format: self.desc.format,
            range: SubresourceRange {
                aspect_mask: desc.aspect_mask,
                base_mip_level: desc.base_mip_level,
                level_count: desc.level_count,
                base_array_layer: desc.base_array_layer,
                layer_count: desc.layer_count,
            },
        };
        let view: u64 = create(info);
        self.views.push((desc, view));
        proof {
            lemma_views_push(old(self).views@, desc, view);
        }
        view
    }

    /// The view of the whole image.
    pub fn view_default<F: FnOnce(ImageViewCreateInfo) -> u64>(&mut self, create: F) -> (r: u64)
        requires
            old(self).wf(),
            !old(self).views().contains_key(default_view(old(self).desc)) ==> create.requires(
                (old(self).view_info(default_view(old(self).desc)),),
            ),
        ensures
            Self::viewed(*old(self), *final(self), create, default_view(old(self).desc), r),
    {
        let desc = self.default_view_desc;
        self.view(create, desc)
    }

    /// The flat view of one layer, with all its levels.
    pub fn view_array_layer<F: FnOnce(ImageViewCreateInfo) -> u64>(
        &mut self,
        create: F,
        layer: u32,
    ) -> (r: u64)
        requires
            old(self).wf(),
            !old(self).views().contains_key(layer_view(old(self).desc, layer)) ==> create.requires(
                (old(self).view_info(layer_view(old(self).desc, layer)),),
            ),
        ensures
            Self::viewed(*old(self), *final(self), create, layer_view(old(self).desc, layer), r),
    {
        let desc = ViewDesc {
            view_type: vk::VIEW_TYPE_2D,
            base_array_layer: layer,
            layer_count: 1,
            ..self.default_view_desc
        };
        self.view(create, desc)
    }

    /// The view of one level, with all its layers.
    pub fn view_mip_level<F: FnOnce(ImageViewCreateInfo) -> u64>(
        &mut self,
        create: F,
        mip_level: u32,
    ) -> (r: u64)
        requires
            old(self).wf(),
            !old(self).views().contains_key(level_view(old(self).desc, mip_level)) ==> create.requires(
                (old(self).view_info(level_view(old(self).desc, mip_level)),),
            ),
        ensures
            Self::viewed(
                *old(self),
                *final(self),
                create,
                level_view(old(self).desc, mip_level),
                r,
            ),
    {
        let desc = ViewDesc { base_mip_level: mip_level, level_count: 1, ..self.default_view_desc };
        self.view(create, desc)
    }

    /// The view of the whole image, as a descriptor in the given layout.
    pub fn info_default<F: FnOnce(ImageViewCreateInfo) -> u64>(
        &mut self,
        create: F,
        layout: i32,
    ) -> (r: DescriptorImageInfo)
        requires
            old(self).wf(),
            !old(self).views().contains_key(default_view(old(self).desc)) ==> create.requires(
                (old(self).view_info(default_view(old(self).desc)),),
            ),
        ensures
            Self::viewed(
                *old(self),
                *final(self),
                create,
                default_view(old(self).desc),
                r.image_view,
            ),
            r.image_layout == layout,
            r.sampler == 0,
    {
        DescriptorImageInfo { sampler: 0, image_view: self.view_default(create), image_layout: layout }
    }

    /// The view of one layer, as a descriptor in the given layout.
    pub fn info_array_layer<F: FnOnce(ImageViewCreateInfo) -> u64>(
        &mut self,
        create: F,
        layout: i32,
        array_layer: u32,
    ) -> (r: DescriptorImageInfo)
        requires
            old(self).wf(),
            !old(self).views().contains_key(layer_view(old(self).desc, array_layer)) ==> create.requires(
                (old(self).view_info(layer_view(old(self).desc, array_layer)),),
            ),
        ensures
            Self::viewed(
                *old(self),
                *final(self),
                create,
                layer_view(old(self).desc, array_layer),
                r.image_view,
            ),
            r.image_layout == layout,
            r.sampler == 0,
    {
        DescriptorImageInfo {
            sampler: 0,
            image_view: self.view_array_layer(create, array_layer),
            image_layout: layout,
        }
    }

    /// The view of one level, as a descriptor in the given layout.
    pub fn info_mip_level<F: FnOnce(ImageViewCreateInfo) -> u64>(
        &mut self,
        create: F,
        layout: i32,
        mip_level: u32,
    ) -> (r: DescriptorImageInfo)
        requires
            old(self).wf(),
            !old(self).views().contains_key(level_view(old(self).desc, mip_level)) ==> create.requires(
                (old(self).view_info(level_view(old(self).desc, mip_level)),),
            ),
        ensures
            Self::viewed(
                *old(self),
                *final(self),
                create,
                level_view(old(self).desc, mip_level),
                r.image_view,
            ),
            r.image_layout == layout,
            r.sampler == 0,
    {
        DescriptorImageInfo {
            sampler: 0,
            image_view: self.view_mip_level(create, mip_level),
            image_layout: layout,
        }
    }
}

/// The flat view of one layer.
pub open spec fn layer_view(desc: ImageDesc, layer: u32) -> ViewDesc {
    ViewDesc {
        view_type: vk::VIEW_TYPE_2D,
        base_array_layer: layer,
        layer_count: 1,
        ..default_view(desc)
    }
}

/// The view of one level.
pub open spec fn level_view(desc: ImageDesc, mip_level: u32) -> ViewDesc {
    ViewDesc { base_mip_level: mip_level, level_count: 1, ..default_view(desc) }
}

proof fn lemma_views_push(pairs: Seq<(ViewDesc, u64)>, desc: ViewDesc, view: u64)
    requires
        unique_views(pairs),
        forall|j: int| 0 <= j < pairs.len() ==> (#[trigger] pairs[j]).0 != desc,
    ensures
        unique_views(pairs.push((desc, view))),
        !views_of(pairs).contains_key(desc),
        views_of(pairs.push((desc, view))) == views_of(pairs).insert(desc, view),
{
    let more = pairs.push((desc, view));
    let a = views_of(more);
    let b = views_of(pairs).insert(desc, view);
    assert(more[pairs.len() as int].0 == desc);
    assert forall|d: ViewDesc| a.contains_key(d) == b.contains_key(d) by {
        if a.contains_key(d) && d != desc {
            let i = choose|i: int| 0 <= i < more.len() && #[trigger] more[i].0 == d;
            assert(pairs[i].0 == d);
        }
        if b.contains_key(d) && d != desc {
            let i = choose|i: int| 0 <= i < pairs.len() && #[trigger] pairs[i].0 == d;
            assert(more[i].0 == d);
        }
    }
    assert forall|d: ViewDesc| a.contains_key(d) implies a[d] == b[d] by {
        let i = choose|i: int| 0 <= i < more.len() && #[trigger] more[i].0 == d;
        if d != desc {
            assert(pairs[i].0 == d);
            let j = choose|j: int| 0 <= j < pairs.len() && #[trigger] pairs[j].0 == d;
            assert(pairs[j].0 == pairs[i].0);
        } else {
            assert(i == pairs.len());
        }
    }
    assert(a =~= b);
}

/// The size of a level, given that of the first: halved once per level, never below one.
pub open spec fn level_size(size: u32, level: nat) -> u32 {
    if level == 0 {
        size
    } else if size as int / pow2(level) as int >= 1 {
        (size as int / pow2(level) as int) as u32
    } else {
        1
    }
}

/// Each level is half as large as the one before, rounded down, but at least one texel.
pub proof fn lemma_level_size_halves(size: u32, level: nat)
    ensures
        level_size(size, level + 1) == if level_size(size, level) / 2 >= 1 {
            level_size(size, level) / 2
        } else {
            1u32
        },
{
    vstd::arithmetic::power2::lemma_pow2_pos(level);
    vstd::arithmetic::power2::lemma_pow2_unfold(level + 1);
    let p = pow2(level) as int;
    assert(pow2(level + 1) == 2 * p);
    assert(p * 2 == 2 * p);
    vstd::arithmetic::div_mod::lemma_div_denominator(size as int, p, 2);
    assert((size as int / p) / 2 == size as int / (2 * p));
    if level == 0 {
        assert(pow2(0) == 1) by {
            vstd::arithmetic::power2::lemma2_to64();
        }
    }
    assert(0 <= size as int / p <= size) by {
        vstd::arithmetic::div_mod::lemma_div_pos_is_pos(size as int, p);
        vstd::arithmetic::div_mod::lemma_div_is_ordered_by_denominator(size as int, 1, p);
    }
}

/// One level of an image, all of it.
pub open spec fn one_level(aspect_mask: u32, level: u32) -> SubresourceRange {
    SubresourceRange {
        aspect_mask,
        base_mip_level: level,
        level_count: 1,
        base_array_layer: 0,
        layer_count: 1,
    }
}

/// One level of an image, as one end of a copy.
pub open spec fn level_layers(aspect_mask: u32, level: u32) -> SubresourceLayers {
    SubresourceLayers { aspect_mask, mip_level: level, base_array_layer: 0, layer_count: 1 }
}

/// The far corner of a level.
pub open spec fn level_corner(extent: Extent3D, level: nat) -> Offset3D {
    Offset3D {
        x: level_size(extent.width, level) as i32,
        y: level_size(extent.height, level) as i32,
        z: 1,
    }
}

/// Makes a written level readable by the blit into the next one.
pub open spec fn blit_source_barrier(aspect_mask: u32, level: u32) -> ImageBarrier {
    ImageBarrier {
        src_stage: vk::STAGE_TRANSFER,
        src_access: vk::ACCESS_TRANSFER_WRITE,
        dst_stage: vk::STAGE_TRANSFER,
        dst_access: vk::ACCESS_TRANSFER_READ,
        old_layout: vk::LAYOUT_TRANSFER_DST_OPTIMAL,
        new_layout: vk::LAYOUT_TRANSFER_SRC_OPTIMAL,
        range: one_level(aspect_mask, level),
    }
}

/// Scales a level into the next one.
pub open spec fn level_blit(desc: ImageDesc, level: u32) -> ImageBlit {
    let aspect_mask = format_aspects(desc.format);
    ImageBlit {
        src: level_layers(aspect_mask, level),
        src_from: Offset3D { x: 0, y: 0, z: 0 },
        src_to: level_corner(desc.extent, level as nat),
        src_layout: vk::LAYOUT_TRANSFER_SRC_OPTIMAL,
        dst: level_layers(aspect_mask, (level + 1) as u32),
        dst_from: Offset3D { x: 0, y: 0, z: 0 },
        dst_to: level_corner(desc.extent, (level + 1) as nat),
        dst_layout: vk::LAYOUT_TRANSFER_DST_OPTIMAL,
        filter: vk::FILTER_LINEAR,
    }
}

/// Hands a level that has been read by a blit to the fragment shader.
pub open spec fn blitted_barrier(aspect_mask: u32, level: u32, target_layout: i32) -> ImageBarrier {
    ImageBarrier {
        src_stage: vk::STAGE_TRANSFER,
        src_access: vk::ACCESS_TRANSFER_READ,
        dst_stage: vk::STAGE_FRAGMENT_SHADER,
        dst_access: vk::ACCESS_SHADER_SAMPLED_READ,
        old_layout: vk::LAYOUT_TRANSFER_SRC_OPTIMAL,
        new_layout: target_layout,
        range: one_level(aspect_mask, level),
    }
}

/// Hands the last level, which no blit reads, to the fragment shader.
pub open spec fn last_level_barrier(aspect_mask: u32, level: u32, target_layout: i32) -> ImageBarrier {
    ImageBarrier {
        src_stage: vk::STAGE_TRANSFER,
        src_access: vk::ACCESS_TRANSFER_WRITE,
        dst_stage: vk::STAGE_FRAGMENT_SHADER,
        dst_access: vk::ACCESS_SHADER_READ,
        old_layout: vk::LAYOUT_TRANSFER_DST_OPTIMAL,
        new_layout: target_layout,
        range: one_level(aspect_mask, level),
    }
}

/// The commands that fill all levels from the first: for each level but the last, make it a
/// blit source, blit it into the next, release it; then release the last.
pub open spec fn mipmap_commands(desc: ImageDesc, target_layout: i32) -> Seq<ImageCommand> {
    let aspect_mask = format_aspects(desc.format);
    Seq::new(
        (3 * (desc.mip_levels - 1) + 1) as nat,
        |j: int|
            {
                let level = (j / 3) as u32;
                if level == desc.mip_levels - 1 {
                    ImageCommand::Barrier(last_level_barrier(aspect_mask, level, target_layout))
                } else if j % 3 == 0 {
                    ImageCommand::Barrier(blit_source_barrier(aspect_mask, level))
                } else if j % 3 == 1 {
                    ImageCommand::Blit(level_blit(desc, level))
                } else {
                    ImageCommand::Barrier(blitted_barrier(aspect_mask, level, target_layout))
                }
            },
    )
}

fn half_or_one(size: u32) -> (r: u32)
    ensures
        r == if size / 2 >= 1 {
            size / 2
        } else {
            1u32
        },
{
    if size / 2 >= 1 {
        size / 2
    } else {
        1
    }
}

impl Image {
    fn level_barrier(
        &self,
        level: u32,
        src_access: u64,
        dst_stage: u64,
        dst_access: u64,
        old_layout: i32,
        new_layout: i32,
    ) -> (r: ImageCommand)
        requires
            self.wf(),
        ensures
            r == ImageCommand::Barrier(
                ImageBarrier {
                    src_stage: vk::STAGE_TRANSFER,
                    src_access,
                    dst_stage,
                    dst_access,
                    old_layout,
                    new_layout,
                    range: one_level(format_aspects(self.desc.format), level),
                },
            ),
    {
        ImageCommand::Barrier(
            ImageBarrier {
                src_stage: vk::STAGE_TRANSFER,
                src_access,
                dst_stage,
                dst_access,
                old_layout,
                new_layout,
                range: SubresourceRange {
                    aspect_mask: self.default_view_desc.aspect_mask,
                    base_mip_level: level,
                    level_count: 1,
                    base_array_layer: 0,
                    layer_count: 1,
                },
            },
        )
    }

    /// Lists the steps that fill every level from the first by repeated halving, leave every level
    /// in the target layout, and wait for that.
    pub fn generate_mipmaps(&self, ctx: &VkCtx, target_layout: i32) -> (r: Vec<
        SetupStep<ImageCommand>,
    >)
        requires
            self.wf(),
            self.desc.mip_levels >= 1,
        ensures
            r@ == setup_steps(mipmap_commands(self.desc, target_layout)),
    {
        let ghost goal = mipmap_commands(self.desc, target_layout);
        let aspect_mask: u32 = self.default_view_desc.aspect_mask;
        let mut w: u32 = self.desc.extent.width;
        let mut h: u32 = self.desc.extent.height;
        let mut commands: Vec<ImageCommand> = Vec::new();
        let mut i: u32 = 1;
        while i < self.desc.mip_levels
            invariant
                self.wf(),
                aspect_mask == format_aspects(self.desc.format),
                1 <= i <= self.desc.mip_levels,
                goal == mipmap_commands(self.desc, target_layout),
                w == level_size(self.desc.extent.width, (i - 1) as nat),
                h == level_size(self.desc.extent.height, (i - 1) as nat),
                commands@.len() == 3 * (i - 1),
                forall|j: int| 0 <= j < commands@.len() ==> commands@[j] == goal[j],
            decreases self.desc.mip_levels - i,
        {
            commands.push(
                self.level_barrier(
                    i - 1,
                    vk::ACCESS_TRANSFER_WRITE,
                    vk::STAGE_TRANSFER,
                    vk::ACCESS_TRANSFER_READ,
                    vk::LAYOUT_TRANSFER_DST_OPTIMAL,
                    vk::LAYOUT_TRANSFER_SRC_OPTIMAL,
                ),
            );
            proof {
                lemma_level_size_halves(self.desc.extent.width, (i - 1) as nat);
                lemma_level_size_halves(self.desc.extent.height, (i - 1) as nat);
            }
            let dst_w = half_or_one(w);
            let dst_h = half_or_one(h);
            commands.push(
                ImageCommand::Blit(
                    ImageBlit {
                        src: SubresourceLayers {
                            aspect_mask,
                            mip_level: i - 1,
                            base_array_layer: 0,
                            layer_count: 1,
                        },
                        src_from: Offset3D { x: 0, y: 0, z: 0 },
                        src_to: Offset3D { x: w as i32, y: h as i32, z: 1 },
                        src_layout: vk::LAYOUT_TRANSFER_SRC_OPTIMAL,
                        dst: SubresourceLayers {
                            aspect_mask,
                            mip_level: i,
                            base_array_layer: 0,
                            layer_count: 1,
                        },
                        dst_from: Offset3D { x: 0, y: 0, z: 0 },
                        dst_to: Offset3D { x: dst_w as i32, y: dst_h as i32, z: 1 },
                        dst_layout: vk::LAYOUT_TRANSFER_DST_OPTIMAL,
                        filter: vk::FILTER_LINEAR,
                    },
                ),
            );
            commands.push(
                self.level_barrier(
                    i - 1,
                    vk::ACCESS_TRANSFER_READ,
                    vk::STAGE_FRAGMENT_SHADER,
                    vk::ACCESS_SHADER_SAMPLED_READ,
                    vk::LAYOUT_TRANSFER_SRC_OPTIMAL,
                    target_layout,
                ),
            );
            w = dst_w;
            h = dst_h;
            i = i + 1;
        }
        commands.push(
            self.level_barrier(
                self.desc.mip_levels - 1,
                vk::ACCESS_TRANSFER_WRITE,
                vk::STAGE_FRAGMENT_SHADER,
                vk::ACCESS_SHADER_READ,
                vk::LAYOUT_TRANSFER_DST_OPTIMAL,
                target_layout,
            ),
        );
        assert(commands@ =~= goal);
        ctx.with_setup_cb(&commands)
    }
}

impl VkDrop for Image {
    /// The views, in the order of their creation, and then the image itself.
    open spec fn destruction(&self) -> Seq<DestroyStep> {
        Seq::new(self.views@.len(), |i: int| DestroyStep::ImageView(self.views@[i].1)).push(
            DestroyStep::Image(self.image),
        )
    }

    fn destroy(&self) -> (r: Vec<DestroyStep>) {
        let mut steps: Vec<DestroyStep> = Vec::new();
        let mut i: usize = 0;
        while i < self.views.len()
            invariant
                i <= self.views@.len(),
                steps@.len() == i,
                forall|j: int|
                    0 <= j < i ==> steps@[j] == DestroyStep::ImageView(self.views@[j].1),
            decreases self.views@.len() - i,
        {
            steps.push(DestroyStep::ImageView(self.views[i].1));
            i = i + 1;
        }
        steps.push(DestroyStep::Image(self.image));
        assert(steps@ =~= self.destruction());
        steps
    }
}

/// What a command asks of the layouts of an image's levels and what it leaves behind, or
/// nothing if the levels are not in the layouts that the command names.
pub open spec fn command_step(command: ImageCommand, levels: Seq<i32>) -> Option<Seq<i32>> {
    match command {
        ImageCommand::Barrier(b) => {
            let first = b.range.base_mip_level as int;
            let last = first + b.range.level_count;
            if last <= levels.len() && (b.old_layout == vk::LAYOUT_UNDEFINED || forall|k: int|
                first <= k < last ==> #[trigger] levels[k] == b.old_layout) {
                Some(
                    Seq::new(
                        levels.len(),
                        |k: int|
                            if first <= k < last {
                                b.new_layout
                            } else {
                                levels[k]
                            },
                    ),
                )
            } else {
                None
            }
        },
        ImageCommand::Copy(c) => {
            if c.layers.mip_level < levels.len() && levels[c.layers.mip_level as int] == c.layout
                && c.layout == vk::LAYOUT_TRANSFER_DST_OPTIMAL {
                Some(levels)
            } else {
                None
            }
        },
        ImageCommand::Blit(b) => {
            if b.src.mip_level < levels.len() && b.dst.mip_level < levels.len()
                && levels[b.src.mip_level as int] == b.src_layout && b.src_layout
                == vk::LAYOUT_TRANSFER_SRC_OPTIMAL && levels[b.dst.mip_level as int]
                == b.dst_layout && b.dst_layout == vk::LAYOUT_TRANSFER_DST_OPTIMAL {
                Some(levels)
            } else {
                None
            }
        },
    }
}

/// The layouts of an image's levels after commands, or nothing if one of them finds a level in
/// another layout than it names.
pub open spec fn command_run(commands: Seq<ImageCommand>, levels: Seq<i32>) -> Option<Seq<i32>>
    decreases commands.len(),
{
    if commands.len() == 0 {
        Some(levels)
    } else {
        match command_run(commands.drop_last(), levels) {
            Some(before) => command_step(commands.last(), before),
            None => None,
        }
    }
}

/// As many levels, all in one layout.
pub open spec fn all_levels(count: nat, layout: i32) -> Seq<i32> {
    Seq::new(count, |k: int| layout)
}

/// Filling a fresh image finds it in any layout and leaves every level ready to be copied into.
/// The last command copies the bytes, from the start of a staging buffer that holds them all the
/// while, over all of the first level of the first layer. The staging buffer is handed back once,
/// after that.
pub proof fn law_upload_fills_first_level(
    desc: ImageDesc,
    flags: u32,
    bytes: Vec<u8>,
    levels: Seq<i32>,
)
    requires
        bytes@.len() <= u64::MAX,
        desc.mip_levels >= 1,
        levels.len() == desc.mip_levels,
    ensures
        upload_run(image_upload(desc, flags, bytes), upload_start()) == Some(
            UploadState {
                staging: Staging::Destroyed,
                target: Some(desc.filled_creation(flags)),
                recording: None,
                recorded: None,
                running: Seq::empty(),
                done: upload_commands(desc).map_values(|c: ImageCommand| (c, bytes@)),
            },
        ),
        command_run(upload_commands(desc), levels) == Some(
            all_levels(desc.mip_levels as nat, vk::LAYOUT_TRANSFER_DST_OPTIMAL),
        ),
        upload_commands(desc).last() == ImageCommand::Copy(upload_copy(desc)),
        upload_copy(desc).buffer_offset == 0,
        upload_copy(desc).extent == desc.extent,
        upload_copy(desc).layers == level_layers(format_aspects(desc.format), 0),
{
    law_upload_is_in_order(bytes, desc.filled_creation(flags), upload_commands(desc));
    let barrier = ImageCommand::Barrier(upload_barrier(desc));
    let copy = ImageCommand::Copy(upload_copy(desc));
    let both = upload_commands(desc);
    let ready = all_levels(desc.mip_levels as nat, vk::LAYOUT_TRANSFER_DST_OPTIMAL);
    assert(both.drop_last() =~= seq![barrier]);
    assert(seq![barrier].drop_last() =~= Seq::<ImageCommand>::empty());
    assert(command_run(Seq::<ImageCommand>::empty(), levels) == Some(levels));
    assert(command_step(barrier, levels).unwrap() =~= ready);
    assert(command_run(seq![barrier], levels) == Some(ready));
}

/// Generating the levels of an image that is ready to be copied into finds each level in the
/// layout that each command names, and leaves every level in the target layout.
pub proof fn law_mipmaps_reach_target(desc: ImageDesc, target_layout: i32)
    requires
        desc.mip_levels >= 1,
    ensures
        command_run(
            mipmap_commands(desc, target_layout),
            all_levels(desc.mip_levels as nat, vk::LAYOUT_TRANSFER_DST_OPTIMAL),
        ) == Some(all_levels(desc.mip_levels as nat, target_layout)),
{
    let commands = mipmap_commands(desc, target_layout);
    let count = desc.mip_levels as nat;
    let done = (count - 1) as nat;
    lemma_mipmaps_prefix(desc, target_layout, done);
    assert(commands.drop_last() =~= commands.take(3 * done as int));
    let before = released_levels(count, done, target_layout);
    assert(command_step(commands.last(), before).unwrap() =~= all_levels(count, target_layout));
}

/// The layouts when the first levels have been released and the others wait to be written.
spec fn released_levels(count: nat, released: nat, target_layout: i32) -> Seq<i32> {
    Seq::new(
        count,
        |k: int|
            if k < released {
                target_layout
            } else {
                vk::LAYOUT_TRANSFER_DST_OPTIMAL
            },
    )
}

proof fn lemma_run_push(commands: Seq<ImageCommand>, command: ImageCommand, levels: Seq<i32>)
    ensures
        command_run(commands.push(command), levels) == match command_run(commands, levels) {
            Some(before) => command_step(command, before),
            None => None,
        },
{
    assert(commands.push(command).drop_last() =~= commands);
}

proof fn lemma_mipmap_level(
    desc: ImageDesc,
    target_layout: i32,
    level: nat,
    earlier: Seq<ImageCommand>,
    levels: Seq<i32>,
)
    requires
        level + 1 < desc.mip_levels,
        command_run(earlier, levels) == Some(
            released_levels(desc.mip_levels as nat, level, target_layout),
        ),
    ensures
        ({
            let commands = mipmap_commands(desc, target_layout);
            let n = 3 * level as int;
            command_run(
                earlier.push(commands[n]).push(commands[n + 1]).push(commands[n + 2]),
                levels,
            ) == Some(released_levels(desc.mip_levels as nat, level + 1, target_layout))
        }),
{
    let commands = mipmap_commands(desc, target_layout);
    let aspect_mask = format_aspects(desc.format);
    let n = 3 * level as int;
    let l = level as u32;
    assert(commands[n] == ImageCommand::Barrier(blit_source_barrier(aspect_mask, l)));
    assert(commands[n + 1] == ImageCommand::Blit(level_blit(desc, l)));
    assert(commands[n + 2] == ImageCommand::Barrier(
        blitted_barrier(aspect_mask, l, target_layout),
    ));
    let before = released_levels(desc.mip_levels as nat, level, target_layout);
    let between = before.update(level as int, vk::LAYOUT_TRANSFER_SRC_OPTIMAL);
    let after = released_levels(desc.mip_levels as nat, level + 1, target_layout);
    lemma_run_push(earlier, commands[n], levels);
    lemma_run_push(earlier.push(commands[n]), commands[n + 1], levels);
    lemma_run_push(earlier.push(commands[n]).push(commands[n + 1]), commands[n + 2], levels);
    assert(command_step(commands[n], before).unwrap() =~= between);
    assert(command_step(commands[n + 1], between) == Some(between));
    assert(command_step(commands[n + 2], between).unwrap() =~= after);
}

proof fn lemma_mipmaps_prefix(desc: ImageDesc, target_layout: i32, released: nat)
    requires
        desc.mip_levels >= 1,
        released < desc.mip_levels,
    ensures
        command_run(
            mipmap_commands(desc, target_layout).take(3 * released as int),
            all_levels(desc.mip_levels as nat, vk::LAYOUT_TRANSFER_DST_OPTIMAL),
        ) == Some(released_levels(desc.mip_levels as nat, released, target_layout)),
    decreases released,
{
    let commands = mipmap_commands(desc, target_layout);
    let count = desc.mip_levels as nat;
    let start = all_levels(count, vk::LAYOUT_TRANSFER_DST_OPTIMAL);
    if released == 0 {
        assert(commands.take(0) =~= Seq::<ImageCommand>::empty());
        assert(start =~= released_levels(count, 0, target_layout));
    } else {
        let level = (released - 1) as nat;
        let n = 3 * level as int;
        lemma_mipmaps_prefix(desc, target_layout, level);
        lemma_mipmap_level(desc, target_layout, level, commands.take(n), start);
        assert(commands.take(n).push(commands[n]).push(commands[n + 1]).push(commands[n + 2])
            =~= commands.take(3 * released as int));
    }
}

/// What asking an image for views went through: the image before each request and after the last,
/// what was asked for, and what was handed out.
pub open spec fn view_history<F: FnOnce(ImageViewCreateInfo) -> u64>(
    images: Seq<Image>,
    creates: Seq<F>,
    descs: Seq<ViewDesc>,
    views: Seq<u64>,
) -> bool {
    &&& images.len() == descs.len() + 1
    &&& creates.len() == descs.len()
    &&& views.len() == descs.len()
    &&& forall|k: int|
        0 <= k < descs.len() ==> Image::viewed(
            images[k],
            images[k + 1],
            creates[k],
            #[trigger] descs[k],
            views[k],
        )
}

proof fn lemma_views_stay<F: FnOnce(ImageViewCreateInfo) -> u64>(
    images: Seq<Image>,
    creates: Seq<F>,
    descs: Seq<ViewDesc>,
    views: Seq<u64>,
    desc: ViewDesc,
    i: int,
    j: int,
)
    requires
        view_history(images, creates, descs, views),
        0 <= i <= j <= descs.len(),
        images[i].views().contains_key(desc),
    ensures
        images[j].views().contains_key(desc),
        images[j].views()[desc] == images[i].views()[desc],
    decreases j - i,
{
    if i < j {
        lemma_views_stay(images, creates, descs, views, desc, i, j - 1);
        assert(Image::viewed(images[j - 1], images[j], creates[j - 1], descs[j - 1], views[j - 1]));
    }
}

/// However often and in whatever order an image is asked for views, equal descriptions give the
/// same view, and the driver is asked for at most one view of each description: when a description
/// comes up again its view is held, so that no call of the driver is allowed. A view that is held
/// is never changed or dropped.
pub proof fn law_view_is_created_once<F: FnOnce(ImageViewCreateInfo) -> u64>(
    images: Seq<Image>,
    creates: Seq<F>,
    descs: Seq<ViewDesc>,
    views: Seq<u64>,
    desc: ViewDesc,
    i: int,
    j: int,
)
    requires
        view_history(images, creates, descs, views),
        0 <= i < j <= descs.len(),
    ensures
        images[i].views().contains_key(desc) ==> images[j].views().contains_key(desc)
            && images[j].views()[desc] == images[i].views()[desc],
        images[j].views().contains_key(descs[i]),
        images[j].views()[descs[i]] == views[i],
        j < descs.len() && descs[j] == descs[i] ==> views[j] == views[i] && images[j + 1].views@
            == images[j].views@,
        images[j].image == images[i].image,
        images[j].desc == images[i].desc,
    decreases j - i,
{
    assert(Image::viewed(images[i], images[i + 1], creates[i], descs[i], views[i]));
    lemma_views_stay(images, creates, descs, views, descs[i], i + 1, j);
    if images[i].views().contains_key(desc) {
        lemma_views_stay(images, creates, descs, views, desc, i, j);
    }
    if j < descs.len() {
        assert(Image::viewed(images[j], images[j + 1], creates[j], descs[j], views[j]));
    }
    if i + 1 < j {
        law_view_is_created_once(images, creates, descs, views, desc, i, j - 1);
        assert(Image::viewed(images[j - 1], images[j], creates[j - 1], descs[j - 1], views[j - 1]));
    }
}

/// How often the driver was asked for a view in the first requests: whenever the view was not held.
pub open spec fn times_asked(images: Seq<Image>, descs: Seq<ViewDesc>, count: nat) -> nat
    decreases count,
{
    if count == 0 {
        0
    } else {
        times_asked(images, descs, (count - 1) as nat) + if images[count - 1].views().contains_key(
            descs[count - 1],
        ) {
            0nat
        } else {
            1
        }
    }
}

/// The driver has been asked for exactly as many views as the image has come to hold, of which there
/// is one for each description, and all descriptions that came up are among them.
pub proof fn law_driver_is_asked_once_per_view<F: FnOnce(ImageViewCreateInfo) -> u64>(
    images: Seq<Image>,
    creates: Seq<F>,
    descs: Seq<ViewDesc>,
    views: Seq<u64>,
    count: nat,
)
    requires
        view_history(images, creates, descs, views),
        count <= descs.len(),
        images[0].wf(),
    ensures
        images[count as int].views@.len() == images[0].views@.len() + times_asked(
            images,
            descs,
            count,
        ),
        unique_views(images[count as int].views@),
        forall|k: int|
            0 <= k < count ==> images[count as int].views().contains_key(#[trigger] descs[k]),
    decreases count,
{
    if count > 0 {
        law_driver_is_asked_once_per_view(images, creates, descs, views, (count - 1) as nat);
        let k = count - 1;
        assert(Image::viewed(images[k], images[k + 1], creates[k], descs[k], views[k]));
    }
}

/// Every view that an image holds is handed back exactly once, and the image after all of them.
pub proof fn law_destruction_covers_views(image: Image, desc: ViewDesc)
    requires
        image.wf(),
        image.views().contains_key(desc),
    ensures
        image.destruction().last() == DestroyStep::Image(image.image),
        image.destruction().len() == image.views@.len() + 1,
        exists|i: int|
            0 <= i < image.destruction().len() - 1 && #[trigger] image.destruction()[i]
                == DestroyStep::ImageView(image.views()[desc]) && image.views@[i].0 == desc,
        forall|i: int, j: int|
            0 <= i < image.views@.len() && 0 <= j < image.views@.len()
                && #[trigger] image.views@[i].0 == desc && #[trigger] image.views@[j].0 == desc
                ==> i == j,
        forall|i: int|
            0 <= i < image.views@.len() ==> #[trigger] image.destruction()[i]
                == DestroyStep::ImageView(image.views@[i].1),
{
    let pairs = image.views@;
    let i = choose|i: int| 0 <= i < pairs.len() && #[trigger] pairs[i].0 == desc;
    assert(image.destruction()[i] == DestroyStep::ImageView(image.views()[desc]));
}


/// Where what a level holds has come from.
pub enum LevelContents {
    /// Nothing has been written to it.
    Undefined,
    /// The bytes of a buffer, from this offset on.
    Buffer(u64),
    /// Another level, all of it.
    Level(int),
}

/// A level of an image, while commands are carried out.
pub struct LevelState {
    pub layout: i32,
    pub contents: LevelContents,
    /// Whether something was written to it that no barrier has waited for yet.
    pub unsynced: bool,
    /// The stage and the access that the last barrier has made it visible to.
    pub visible: (u64, u64),
}

/// A size halved a number of times, rounded down each time, but never below one.
pub open spec fn halved(size: u32, times: nat) -> u32
    decreases times,
{
    if times == 0 {
        size
    } else if halved(size, (times - 1) as nat) >= 2 {
        halved(size, (times - 1) as nat) / 2
    } else {
        1
    }
}

/// The aspects and the layers that there are in a flat image with one layer.
pub open spec fn whole_layer(desc: ImageDesc, layers: SubresourceLayers) -> bool {
    &&& layers.aspect_mask == format_aspects(desc.format)
    &&& layers.base_array_layer == 0
    &&& layers.layer_count == 1
}

/// A box covers all of a level of a flat image.
pub open spec fn whole_level(desc: ImageDesc, level: u32, from: Offset3D, to: Offset3D) -> bool {
    &&& from.x == 0 && from.y == 0 && from.z == 0
    &&& to.x == halved(desc.extent.width, level as nat)
    &&& to.y == halved(desc.extent.height, level as nat)
    &&& to.z == 1
}

/// A level can be written by a transfer: its layout is the one for that, and it is open for it.
pub open spec fn can_be_written(level: LevelState, layout: i32) -> bool {
    &&& level.layout == layout
    &&& layout == vk::LAYOUT_TRANSFER_DST_OPTIMAL
    &&& !level.unsynced
    &&& level.visible == (vk::STAGE_TRANSFER, vk::ACCESS_TRANSFER_WRITE)
}

/// A level can be read by a transfer: it holds something, and that is visible to the transfer.
pub open spec fn can_be_read(level: LevelState, layout: i32) -> bool {
    &&& level.layout == layout
    &&& layout == vk::LAYOUT_TRANSFER_SRC_OPTIMAL
    &&& !(level.contents is Undefined)
    &&& !level.unsynced
    &&& level.visible == (vk::STAGE_TRANSFER, vk::ACCESS_TRANSFER_READ)
}

/// What was done with a level last: it was written by a transfer, or else used as the last barrier
/// has made it visible to.
pub open spec fn last_use(level: LevelState) -> (u64, u64) {
    if level.unsynced {
        (vk::STAGE_TRANSFER, vk::ACCESS_TRANSFER_WRITE)
    } else {
        level.visible
    }
}

/// What a command does to the levels of the first layer of a flat image, or nothing if it finds
/// one as it must not be. A barrier waits for the last use, and keeps what a level holds unless
/// it says that it does not care. A level is written once, all of it, and read only once that has
/// been waited for.
pub open spec fn fill_step(
    desc: ImageDesc,
    command: ImageCommand,
    levels: Seq<LevelState>,
) -> Option<Seq<LevelState>> {
    match command {
        ImageCommand::Barrier(b) => {
            let first = b.range.base_mip_level as int;
            let last = first + b.range.level_count;
            let dropped = b.old_layout == vk::LAYOUT_UNDEFINED;
            if last <= levels.len() && b.range.aspect_mask == format_aspects(desc.format)
                && b.range.base_array_layer == 0 && b.range.layer_count == 1 && forall|k: int|
                first <= k < last ==> {
                    &&& dropped || (#[trigger] levels[k]).layout == b.old_layout
                    &&& b.src_stage == last_use(levels[k]).0
                    &&& b.src_access == last_use(levels[k]).1
                } {
                Some(
                    Seq::new(
                        levels.len(),
                        |k: int|
                            if first <= k < last {
                                LevelState {
                                    layout: b.new_layout,
                                    contents: if dropped {
                                        LevelContents::Undefined
                                    } else {
                                        levels[k].contents
                                    },
                                    unsynced: false,
                                    visible: (b.dst_stage, b.dst_access),
                                }
                            } else {
                                levels[k]
                            },
                    ),
                )
            } else {
                None
            }
        },
        ImageCommand::Copy(c) => {
            let to = c.layers.mip_level as int;
            if to < levels.len() && whole_layer(desc, c.layers) && c.extent.width == halved(
                desc.extent.width,
                to as nat,
            ) && c.extent.height == halved(desc.extent.height, to as nat) && c.extent.depth == 1
                && can_be_written(levels[to], c.layout) && levels[to].contents is Undefined {
                Some(
                    levels.update(
                        to,
                        LevelState {
                            contents: LevelContents::Buffer(c.buffer_offset),
                            unsynced: true,
                            ..levels[to]
                        },
                    ),
                )
            } else {
                None
            }
        },
        ImageCommand::Blit(b) => {
            let from = b.src.mip_level as int;
            let to = b.dst.mip_level as int;
            if from < levels.len() && to < levels.len() && whole_layer(desc, b.src) && whole_layer(
                desc,
                b.dst,
            ) && whole_level(desc, b.src.mip_level, b.src_from, b.src_to) && whole_level(
                desc,
                b.dst.mip_level,
                b.dst_from,
                b.dst_to,
            ) && can_be_read(levels[from], b.src_layout) && can_be_written(levels[to], b.dst_layout)
                && levels[to].contents is Undefined && b.filter == vk::FILTER_LINEAR {
                Some(
                    levels.update(
                        to,
                        LevelState {
                            contents: LevelContents::Level(from),
                            unsynced: true,
                            ..levels[to]
                        },
                    ),
                )
            } else {
                None
            }
        },
    }
}

/// The levels after commands, one after the other.
pub open spec fn fill_run(
    desc: ImageDesc,
    commands: Seq<ImageCommand>,
    levels: Seq<LevelState>,
) -> Option<Seq<LevelState>>
    decreases commands.len(),
{
    if commands.len() == 0 {
        Some(levels)
    } else {
        match fill_run(desc, commands.drop_last(), levels) {
            Some(before) => fill_step(desc, commands.last(), before),
            None => None,
        }
    }
}

/// The levels of a new image, which may be in any layout.
pub open spec fn new_levels(layouts: Seq<i32>) -> Seq<LevelState> {
    Seq::new(
        layouts.len(),
        |k: int|
            LevelState {
                layout: layouts[k],
                contents: LevelContents::Undefined,
                unsynced: false,
                visible: (vk::STAGE_NONE, vk::ACCESS_NONE),
            },
    )
}

proof fn lemma_fill_push(
    desc: ImageDesc,
    commands: Seq<ImageCommand>,
    command: ImageCommand,
    levels: Seq<LevelState>,
)
    ensures
        fill_run(desc, commands.push(command), levels) == match fill_run(desc, commands, levels) {
            Some(before) => fill_step(desc, command, before),
            None => None,
        },
{
    assert(commands.push(command).drop_last() =~= commands);
}

proof fn lemma_halved(size: u32, times: nat)
    ensures
        level_size(size, times) == halved(size, times),
        times > 0 || size <= i32::MAX ==> halved(size, times) <= i32::MAX,
    decreases times,
{
    if times > 0 {
        lemma_halved(size, (times - 1) as nat);
        lemma_level_size_halves(size, (times - 1) as nat);
    }
}

/// Where a level comes from.
spec fn origin(k: int) -> LevelContents {
    if k == 0 {
        LevelContents::Buffer(0)
    } else {
        LevelContents::Level(k - 1)
    }
}

/// The levels when the first ones are finished, the next one is written and the others are not.
spec fn filled_levels(count: nat, finished: nat, target_layout: i32) -> Seq<LevelState> {
    Seq::new(
        count,
        |k: int|
            if k < finished {
                LevelState {
                    layout: target_layout,
                    contents: origin(k),
                    unsynced: false,
                    visible: (vk::STAGE_FRAGMENT_SHADER, vk::ACCESS_SHADER_SAMPLED_READ),
                }
            } else {
                LevelState {
                    layout: vk::LAYOUT_TRANSFER_DST_OPTIMAL,
                    contents: if k == finished {
                        origin(k)
                    } else {
                        LevelContents::Undefined
                    },
                    unsynced: k == finished,
                    visible: (vk::STAGE_TRANSFER, vk::ACCESS_TRANSFER_WRITE),
                }
            },
    )
}

proof fn lemma_fill_upload(desc: ImageDesc, target_layout: i32, layouts: Seq<i32>)
    requires
        desc.mip_levels >= 1,
        desc.extent.depth == 1,
        layouts.len() == desc.mip_levels,
    ensures
        fill_run(desc, upload_commands(desc), new_levels(layouts)) == Some(
            filled_levels(desc.mip_levels as nat, 0, target_layout),
        ),
{
    let start = new_levels(layouts);
    let barrier = ImageCommand::Barrier(upload_barrier(desc));
    let copy = ImageCommand::Copy(upload_copy(desc));
    let none = Seq::<ImageCommand>::empty();
    lemma_fill_push(desc, none, barrier, start);
    lemma_fill_push(desc, none.push(barrier), copy, start);
    assert(upload_commands(desc) =~= none.push(barrier).push(copy));
    let open = fill_step(desc, barrier, start)->0;
    assert(fill_step(desc, copy, open)->0 =~= filled_levels(
        desc.mip_levels as nat,
        0,
        target_layout,
    ));
}

#[verifier::spinoff_prover]
proof fn lemma_fill_level(
    desc: ImageDesc,
    target_layout: i32,
    level: nat,
    earlier: Seq<ImageCommand>,
    start: Seq<LevelState>,
)
    requires
        level + 1 < desc.mip_levels,
        desc.extent.width <= i32::MAX,
        desc.extent.height <= i32::MAX,
        fill_run(desc, earlier, start) == Some(
            filled_levels(desc.mip_levels as nat, level, target_layout),
        ),
    ensures
        ({
            let commands = mipmap_commands(desc, target_layout);
            let n = 3 * level as int;
            fill_run(
                desc,
                earlier.push(commands[n]).push(commands[n + 1]).push(commands[n + 2]),
                start,
            ) == Some(filled_levels(desc.mip_levels as nat, level + 1, target_layout))
        }),
{
    let commands = mipmap_commands(desc, target_layout);
    let aspect_mask = format_aspects(desc.format);
    let n = 3 * level as int;
    let l = level as u32;
    assert(commands[n] == ImageCommand::Barrier(blit_source_barrier(aspect_mask, l)));
    assert(commands[n + 1] == ImageCommand::Blit(level_blit(desc, l)));
    assert(commands[n + 2] == ImageCommand::Barrier(
        blitted_barrier(aspect_mask, l, target_layout),
    ));
    lemma_halved(desc.extent.width, level);
    lemma_halved(desc.extent.height, level);
    lemma_halved(desc.extent.width, level + 1);
    lemma_halved(desc.extent.height, level + 1);
    lemma_fill_push(desc, earlier, commands[n], start);
    lemma_fill_push(desc, earlier.push(commands[n]), commands[n + 1], start);
    lemma_fill_push(desc, earlier.push(commands[n]).push(commands[n + 1]), commands[n + 2], start);
    let before = filled_levels(desc.mip_levels as nat, level, target_layout);
    let readable = before.update(
        level as int,
        LevelState {
            layout: vk::LAYOUT_TRANSFER_SRC_OPTIMAL,
            unsynced: false,
            visible: (vk::STAGE_TRANSFER, vk::ACCESS_TRANSFER_READ),
            ..before[level as int]
        },
    );
    let written = readable.update(
        level as int + 1,
        LevelState {
            contents: LevelContents::Level(level as int),
            unsynced: true,
            ..readable[level as int + 1]
        },
    );
    let after = filled_levels(desc.mip_levels as nat, level + 1, target_layout);
    assert(fill_step(desc, commands[n], before).unwrap() =~= readable);
    assert(fill_step(desc, commands[n + 1], readable) == Some(written));
    assert(fill_step(desc, commands[n + 2], written).unwrap() =~= after);
}

proof fn lemma_fill_prefix(
    desc: ImageDesc,
    target_layout: i32,
    finished: nat,
    start: Seq<LevelState>,
)
    requires
        finished < desc.mip_levels,
        desc.extent.width <= i32::MAX,
        desc.extent.height <= i32::MAX,
        fill_run(desc, upload_commands(desc), start) == Some(
            filled_levels(desc.mip_levels as nat, 0, target_layout),
        ),
    ensures
        fill_run(
            desc,
            upload_commands(desc) + mipmap_commands(desc, target_layout).take(3 * finished as int),
            start,
        ) == Some(filled_levels(desc.mip_levels as nat, finished, target_layout)),
    decreases finished,
{
    let upload = upload_commands(desc);
    let commands = mipmap_commands(desc, target_layout);
    if finished == 0 {
        assert(upload + commands.take(0) =~= upload);
    } else {
        let level = (finished - 1) as nat;
        let n = 3 * level as int;
        lemma_fill_prefix(desc, target_layout, level, start);
        lemma_fill_level(desc, target_layout, level, upload + commands.take(n), start);
        assert((upload + commands.take(n)).push(commands[n]).push(commands[n + 1]).push(
            commands[n + 2],
        ) =~= upload + commands.take(3 * finished as int));
    }
}

/// The number of the level that a command scales another one into.
pub open spec fn blits_into(command: ImageCommand, level: int) -> bool {
    command matches ImageCommand::Blit(b) && b.dst.mip_level == level
}

/// Uploading a flat image and generating its levels leaves every level of its first layer with
/// contents, ready to be sampled: the first holds the bytes of the staging buffer from its start,
/// and every other all of the level before it, scaled once, after that one had been filled.
pub proof fn law_every_level_is_filled(desc: ImageDesc, target_layout: i32, layouts: Seq<i32>)
    requires
        desc.mip_levels >= 1,
        desc.extent.width <= i32::MAX,
        desc.extent.height <= i32::MAX,
        desc.extent.depth == 1,
        layouts.len() == desc.mip_levels,
    ensures
        fill_run(
            desc,
            upload_commands(desc) + mipmap_commands(desc, target_layout),
            new_levels(layouts),
        ) matches Some(levels) && {
            &&& levels.len() == desc.mip_levels
            &&& levels[0].contents == LevelContents::Buffer(0)
            &&& forall|k: int|
                1 <= k < desc.mip_levels ==> (#[trigger] levels[k]).contents
                    == LevelContents::Level(k - 1)
            &&& forall|k: int|
                0 <= k < desc.mip_levels ==> {
                    &&& (#[trigger] levels[k]).layout == target_layout
                    &&& !levels[k].unsynced
                    &&& levels[k].visible.0 == vk::STAGE_FRAGMENT_SHADER
                    &&& levels[k].visible.1 == if k < desc.mip_levels - 1 {
                        vk::ACCESS_SHADER_SAMPLED_READ
                    } else {
                        vk::ACCESS_SHADER_READ
                    }
                }
        },
{
    let start = new_levels(layouts);
    let upload = upload_commands(desc);
    let commands = mipmap_commands(desc, target_layout);
    let last = (desc.mip_levels - 1) as nat;
    lemma_fill_upload(desc, target_layout, layouts);
    lemma_fill_prefix(desc, target_layout, last, start);
    lemma_fill_push(desc, upload + commands.take(3 * last as int), commands.last(), start);
    assert((upload + commands.take(3 * last as int)).push(commands.last()) =~= upload + commands);
}

/// Every level but the first is scaled into by exactly one command.
pub proof fn law_level_is_scaled_once(desc: ImageDesc, target_layout: i32, level: int)
    requires
        1 <= level < desc.mip_levels,
    ensures
        exists|j: int|
            {
                &&& 0 <= j < mipmap_commands(desc, target_layout).len()
                &&& #[trigger] blits_into(mipmap_commands(desc, target_layout)[j], level)
                &&& forall|i: int|
                    0 <= i < mipmap_commands(desc, target_layout).len() && #[trigger] blits_into(
                        mipmap_commands(desc, target_layout)[i],
                        level,
                    ) ==> i == j
            },
{
    let commands = mipmap_commands(desc, target_layout);
    let j = 3 * (level - 1) + 1;
    assert(j / 3 == level - 1 && j % 3 == 1);
    assert(blits_into(commands[j], level));
    assert forall|i: int| 0 <= i < commands.len() && #[trigger] blits_into(
        commands[i],
        level,
    ) implies i == j by {
        assert(i == 3 * (i / 3) + i % 3);
    }
}


/// Views show what they are for: the whole view all levels and layers, the view of a layer all
/// levels of that layer, flat, and the view of a level all layers of that level. Each shows all
/// that the format consists of.
pub proof fn law_views_show_their_part(desc: ImageDesc, layer: u32, level: u32)
    ensures
        ({
            let all = default_view(desc);
            &&& all.base_mip_level == 0 && all.level_count == desc.mip_levels
            &&& all.base_array_layer == 0 && all.layer_count == desc.array_layers
            &&& all.aspect_mask == format_aspects(desc.format)
            &&& desc.image_type == vk::IMAGE_TYPE_1D ==> all.view_type == vk::VIEW_TYPE_1D
            &&& desc.image_type == vk::IMAGE_TYPE_3D ==> all.view_type == vk::VIEW_TYPE_3D
            &&& desc.image_type == vk::IMAGE_TYPE_2D && desc.array_layers == 1 ==> all.view_type
                == vk::VIEW_TYPE_2D
            &&& desc.image_type == vk::IMAGE_TYPE_2D && desc.array_layers != 1 ==> all.view_type
                == vk::VIEW_TYPE_2D_ARRAY
        }),
        ({
            let one = layer_view(desc, layer);
            &&& one.view_type == vk::VIEW_TYPE_2D
            &&& one.base_array_layer == layer && one.layer_count == 1
            &&& one.base_mip_level == 0 && one.level_count == desc.mip_levels
            &&& one.aspect_mask == format_aspects(desc.format)
        }),
        ({
            let one = level_view(desc, level);
            &&& one.view_type == default_view(desc).view_type
            &&& one.base_mip_level == level && one.level_count == 1
            &&& one.base_array_layer == 0 && one.layer_count == desc.array_layers
            &&& one.aspect_mask == format_aspects(desc.format)
        }),
{
}

/// Formats of depth have depth, those that name a stencil have it as well, and all others have
/// colour.
pub proof fn law_formats_have_aspects(format: i32)
    ensures
        format == vk::FORMAT_D16_UNORM || format == vk::FORMAT_D32_SFLOAT <==> format_aspects(format)
            == vk::ASPECT_DEPTH,
        format == vk::FORMAT_D16_UNORM_S8_UINT || format == vk::FORMAT_D24_UNORM_S8_UINT || format
            == vk::FORMAT_D32_SFLOAT_S8_UINT <==> format_aspects(format) == vk::ASPECT_DEPTH
            | vk::ASPECT_STENCIL,
        format_aspects(format) == vk::ASPECT_DEPTH || format_aspects(format) == vk::ASPECT_DEPTH
            | vk::ASPECT_STENCIL || format_aspects(format) == vk::ASPECT_COLOR,
{
    assert(vk::ASPECT_DEPTH | vk::ASPECT_STENCIL != vk::ASPECT_DEPTH) by (bit_vector);
    assert(vk::ASPECT_DEPTH | vk::ASPECT_STENCIL != vk::ASPECT_COLOR) by (bit_vector);
}

/// An image is created as it was described, in no layout yet, and one that is to be filled can be
/// copied into besides. A view is created of the image that it is of, in its format, and shows what
/// it describes.
pub proof fn law_images_are_created_as_described(
    image: Image,
    desc: ImageDesc,
    view: ViewDesc,
    flags: u32,
    usage: u32,
)
    ensures
        ({
            let info = desc.info_for(usage);
            &&& info.image_type == desc.image_type
            &&& info.format == desc.format
            &&& info.extent == desc.extent
            &&& info.mip_levels == desc.mip_levels
            &&& info.array_layers == desc.array_layers
            &&& info.samples == desc.samples
            &&& info.tiling == vk::TILING_OPTIMAL
            &&& info.usage == usage
            &&& info.initial_layout == vk::LAYOUT_UNDEFINED
        }),
        desc.filled_creation(flags).info == desc.info_for(
            desc.usage | vk::IMAGE_USAGE_TRANSFER_DST,
        ),
        desc.filled_creation(flags).allocation.flags == flags,
        desc.filled_creation(flags).allocation.usage == MemoryUsage::Auto,
        ({
            let info = image.view_info(view);
            &&& info.image == image.image
            &&& info.format == image.desc.format
            &&& info.view_type == view.view_type
            &&& info.range.aspect_mask == view.aspect_mask
            &&& info.range.base_mip_level == view.base_mip_level
            &&& info.range.level_count == view.level_count
            &&& info.range.base_array_layer == view.base_array_layer
            &&& info.range.layer_count == view.layer_count
        }),
        blank_desc().mip_levels == 1,
        blank_desc().array_layers == 1,
        blank_desc().samples == vk::SAMPLES_TYPE_1,
        blank_desc().flags == 0,
        blank_desc().usage == 0,
        blank_desc().format == vk::FORMAT_UNDEFINED,
{
}

} // verus!
