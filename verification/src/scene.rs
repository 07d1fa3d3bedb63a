//! The scene: what is drawn, from which buffers and textures.
use crate::geometry::{index_bytes, vertex_bytes, vertices_words, PrimitiveSource, VertexData};
use crate::materials::{
    color_sources, list_color_sources, material_bytes, materials_words, object_bytes,
    objects_words, sampler_number, texture_fits, texture_number, MaterialDesc, ObjectData,
};
use crate::outside::native_words;
use crate::pipelines::SamplerInfo;
use crate::textures::{
    expand_pixels, four_channels, holds_color, is_level_count, mark_colors, sampler_infos,
    scene_samplers, texture_desc, texture_format, PixelFormat, TextureRef, SAMPLER_COUNT,
};
use crate::utils::buffer::{buffer_upload, Buffer, BufferCreation};
use crate::utils::context::{setup_steps, SetupStep, VkCtx};
use crate::utils::image::{
    blank_desc, fill_run, image_upload, law_every_level_is_filled, mipmap_commands, new_levels,
    upload_commands, Image, ImageCommand, ImageCreation, ImageDesc, LevelContents,
};
use crate::utils::requests::{answerable, answered, ask};
use crate::utils::upload::{carried_out, UploadStep};
use crate::vk;
use crate::vk::{BufferCopy, Extent3D};
use std::collections::VecDeque;
use vstd::prelude::*;

verus! {

/// What frames need to know of a primitive: which object it belongs to, which material it has, and
/// the corners of its box in the world, as bits of single-precision numbers.
#[derive(Clone, Copy, Debug, PartialEq, Eq)]
pub struct PrimitiveData {
    pub object_id: u32,
    pub material_id: u32,
    pub bounds: [[u32; 3]; 8],
}

/// An image of the scene as it was loaded.
#[derive(Debug)]
pub struct TextureSource {
    pub width: u32,
    pub height: u32,
    pub format: PixelFormat,
    pub pixels: Vec<u8>,
}

/// A scene as it was loaded.
#[derive(Debug)]
pub struct SceneSource {
    /// One object for each node.
    pub objects: Vec<ObjectData>,
    pub materials: Vec<MaterialDesc>,
    pub textures: Vec<TextureSource>,
    /// The mesh of each node that has one.
    pub node_meshes: Vec<Option<usize>>,
    pub meshes: Vec<Vec<PrimitiveSource>>,
}

/// A primitive of the mesh of a node.
#[derive(Clone, Copy, Debug, PartialEq, Eq, Structural)]
pub struct PrimitiveRef {
    pub node: usize,
    pub mesh: usize,
    pub primitive: usize,
}

/// The primitives of a mesh, at a node.
pub open spec fn mesh_refs(node: usize, mesh: usize, count: nat) -> Seq<PrimitiveRef> {
    Seq::new(count, |i: int| PrimitiveRef { node, mesh, primitive: i as usize })
}

/// The primitives of the first nodes, node by node.
pub open spec fn primitive_refs(
    node_meshes: Seq<Option<usize>>,
    meshes: Seq<Vec<PrimitiveSource>>,
    nodes: nat,
) -> Seq<PrimitiveRef>
    decreases nodes,
{
    if nodes == 0 {
        Seq::empty()
    } else {
        primitive_refs(node_meshes, meshes, (nodes - 1) as nat) + match node_meshes[nodes - 1] {
            Some(mesh) => mesh_refs((nodes - 1) as usize, mesh, meshes[mesh as int]@.len()),
            None => Seq::empty(),
        }
    }
}

/// The vertices of the first primitives of a list, altogether.
pub open spec fn vertex_total(
    refs: Seq<PrimitiveRef>,
    meshes: Seq<Vec<PrimitiveSource>>,
    count: nat,
) -> nat
    decreases count,
{
    if count == 0 {
        0
    } else {
        let r = refs[count - 1];
        vertex_total(refs, meshes, (count - 1) as nat)
            + meshes[r.mesh as int]@[r.primitive as int].vertex_count()
    }
}

/// The triangles of the first primitives of a list, altogether.
pub open spec fn triangle_total(
    refs: Seq<PrimitiveRef>,
    meshes: Seq<Vec<PrimitiveSource>>,
    count: nat,
) -> nat
    decreases count,
{
    if count == 0 {
        0
    } else {
        let r = refs[count - 1];
        triangle_total(refs, meshes, (count - 1) as nat)
            + meshes[r.mesh as int]@[r.primitive as int].indices@.len() / 3
    }
}

impl SceneSource {
    /// The primitives that are drawn, node by node.
    pub open spec fn refs(&self) -> Seq<PrimitiveRef> {
        primitive_refs(self.node_meshes@, self.meshes@, self.node_meshes@.len())
    }

    /// The primitive that is meant.
    pub open spec fn primitive(&self, r: PrimitiveRef) -> PrimitiveSource {
        self.meshes@[r.mesh as int]@[r.primitive as int]
    }

    /// A primitive has numbers that the device can handle.
    pub open spec fn primitive_fits(&self, r: PrimitiveRef) -> bool {
        &&& self.primitive(r).indices@.len() <= u32::MAX
        &&& match self.primitive(r).material {
            Some(material) => material <= u32::MAX,
            None => true,
        }
    }

    /// All that is mentioned exists, no texture is empty, and the numbers of things are ones that
    /// the device can handle.
    pub open spec fn wf(&self) -> bool {
        &&& self.node_meshes@.len() <= u32::MAX
        &&& forall|i: int|
            0 <= i < self.node_meshes@.len() ==> match #[trigger] self.node_meshes@[i] {
                Some(mesh) => mesh < self.meshes@.len(),
                None => true,
            }
        &&& forall|i: int|
            0 <= i < self.materials@.len() ==> (#[trigger] self.materials@[i]).fits(
                self.textures@.len(),
            )
        &&& forall|i: int|
            0 <= i < self.textures@.len() ==> (#[trigger] self.textures@[i]).width > 0
                || self.textures@[i].height > 0
        &&& forall|i: int|
            0 <= i < self.refs().len() ==> self.primitive_fits(#[trigger] self.refs()[i])
        &&& vertex_total(self.refs(), self.meshes@, self.refs().len()) <= u32::MAX
        &&& triangle_total(self.refs(), self.meshes@, self.refs().len()) <= u32::MAX
    }

    /// The first texture that is in a format that is not supported is in this one.
    pub open spec fn first_bad_format(&self, format: u32) -> bool {
        exists|i: int|
            {
                &&& 0 <= i < self.textures@.len()
                &&& (#[trigger] self.textures@[i]).format == PixelFormat::Other(format)
                &&& forall|j: int|
                    0 <= j < i ==> !((#[trigger] self.textures@[j]).format is Other)
            }
    }

    /// Lists the primitives that are drawn, node by node.
    pub fn list_primitives(&self) -> (r: Vec<PrimitiveRef>)
        requires
            forall|i: int|
                0 <= i < self.node_meshes@.len() ==> match #[trigger] self.node_meshes@[i] {
                    Some(mesh) => mesh < self.meshes@.len(),
                    None => true,
                },
        ensures
            r@ == self.refs(),
            forall|i: int|
                0 <= i < r@.len() ==> {
                    &&& (#[trigger] r@[i]).node < self.node_meshes@.len()
                    &&& r@[i].mesh < self.meshes@.len()
                    &&& r@[i].primitive < self.meshes@[r@[i].mesh as int]@.len()
                },
    {
        let mut refs: Vec<PrimitiveRef> = Vec::new();
        let mut node: usize = 0;
        while node < self.node_meshes.len()
            invariant
                node <= self.node_meshes@.len(),
                forall|i: int|
                    0 <= i < self.node_meshes@.len() ==> match #[trigger] self.node_meshes@[i] {
                        Some(mesh) => mesh < self.meshes@.len(),
                        None => true,
                    },
                refs@ == primitive_refs(self.node_meshes@, self.meshes@, node as nat),
                forall|i: int|
                    0 <= i < refs@.len() ==> {
                        &&& (#[trigger] refs@[i]).node < self.node_meshes@.len()
                        &&& refs@[i].mesh < self.meshes@.len()
                        &&& refs@[i].primitive < self.meshes@[refs@[i].mesh as int]@.len()
                    },
            decreases self.node_meshes@.len() - node,
        {
            let ghost before = refs@;
            match self.node_meshes[node] {
                Some(mesh) => {
                    let count: usize = self.meshes[mesh].len();
                    let mut primitive: usize = 0;
                    while primitive < count
                        invariant
                            node < self.node_meshes@.len(),
                            mesh < self.meshes@.len(),
                            count == self.meshes@[mesh as int]@.len(),
                            primitive <= count,
                            refs@ =~= before + mesh_refs(node, mesh, primitive as nat),
                            forall|i: int|
                                0 <= i < refs@.len() ==> {
                                    &&& (#[trigger] refs@[i]).node < self.node_meshes@.len()
                                    &&& refs@[i].mesh < self.meshes@.len()
                                    &&& refs@[i].primitive
                                        < self.meshes@[refs@[i].mesh as int]@.len()
                                },
                        decreases count - primitive,
                    {
                        refs.push(PrimitiveRef { node, mesh, primitive });
                        primitive = primitive + 1;
                    }
                },
                None => {},
            }
            node = node + 1;
            assert(refs@ =~= primitive_refs(self.node_meshes@, self.meshes@, node as nat));
        }
        refs
    }
}

proof fn lemma_totals_grow(
    refs: Seq<PrimitiveRef>,
    meshes: Seq<Vec<PrimitiveSource>>,
    few: nat,
    many: nat,
)
    requires
        few <= many,
    ensures
        vertex_total(refs, meshes, few) <= vertex_total(refs, meshes, many),
        triangle_total(refs, meshes, few) <= triangle_total(refs, meshes, many),
    decreases many,
{
    if few < many {
        lemma_totals_grow(refs, meshes, few, (many - 1) as nat);
    }
}

fn check_texture(texture: &Option<TextureRef>, images: usize) -> (r: bool)
    ensures
        r == texture_fits(*texture, images as nat),
{
    match texture {
        Some(texture) => texture.source < images && texture.source <= i32::MAX as usize,
        None => true,
    }
}

impl SceneSource {
    fn check_materials(&self) -> (r: bool)
        ensures
            r == forall|i: int|
                0 <= i < self.materials@.len() ==> (#[trigger] self.materials@[i]).fits(
                    self.textures@.len(),
                ),
    {
        let images: usize = self.textures.len();
        let mut i: usize = 0;
        while i < self.materials.len()
            invariant
                i <= self.materials@.len(),
                images == self.textures@.len(),
                forall|j: int|
                    0 <= j < i ==> (#[trigger] self.materials@[j]).fits(self.textures@.len()),
            decreases self.materials@.len() - i,
        {
            let m = &self.materials[i];
            let fits = check_texture(&m.base_color, images) && check_texture(
                &m.metallic_roughness,
                images,
            ) && check_texture(&m.normal, images) && check_texture(&m.occlusion, images)
                && check_texture(&m.emissive, images);
            if !fits {
                assert(!self.materials@[i as int].fits(self.textures@.len()));
                return false;
            }
            i = i + 1;
        }
        true
    }

    fn check_textures(&self) -> (r: bool)
        ensures
            r == forall|i: int|
                0 <= i < self.textures@.len() ==> (#[trigger] self.textures@[i]).width > 0
                    || self.textures@[i].height > 0,
    {
        let mut i: usize = 0;
        while i < self.textures.len()
            invariant
                i <= self.textures@.len(),
                forall|j: int|
                    0 <= j < i ==> (#[trigger] self.textures@[j]).width > 0
                        || self.textures@[j].height > 0,
            decreases self.textures@.len() - i,
        {
            if self.textures[i].width == 0 && self.textures[i].height == 0 {
                return false;
            }
            i = i + 1;
        }
        true
    }

    fn check_nodes(&self) -> (r: bool)
        ensures
            r == forall|i: int|
                0 <= i < self.node_meshes@.len() ==> match #[trigger] self.node_meshes@[i] {
                    Some(mesh) => mesh < self.meshes@.len(),
                    None => true,
                },
    {
        let mut i: usize = 0;
        while i < self.node_meshes.len()
            invariant
                i <= self.node_meshes@.len(),
                forall|j: int|
                    0 <= j < i ==> match #[trigger] self.node_meshes@[j] {
                        Some(mesh) => mesh < self.meshes@.len(),
                        None => true,
                    },
            decreases self.node_meshes@.len() - i,
        {
            match self.node_meshes[i] {
                Some(mesh) => if mesh >= self.meshes.len() {
                    assert(self.node_meshes@[i as int] == Some(mesh));
                    return false;
                },
                None => {},
            }
            i = i + 1;
        }
        true
    }

    /// Whether all that is mentioned exists, no texture is empty, and the numbers of things are
    /// ones that the device can handle.
    pub fn check(&self) -> (r: bool)
        ensures
            r == self.wf(),
    {
        if self.node_meshes.len() > u32::MAX as usize || !self.check_nodes()
            || !self.check_materials() || !self.check_textures() {
            return false;
        }
        let refs = self.list_primitives();
        let mut vertices: u64 = 0;
        let mut triangles: u64 = 0;
        let mut i: usize = 0;
        while i < refs.len()
            invariant
                i <= refs@.len(),
                refs@ == self.refs(),
                forall|j: int|
                    0 <= j < refs@.len() ==> {
                        &&& (#[trigger] refs@[j]).mesh < self.meshes@.len()
                        &&& refs@[j].primitive < self.meshes@[refs@[j].mesh as int]@.len()
                    },
                forall|j: int| 0 <= j < i ==> self.primitive_fits(#[trigger] refs@[j]),
                vertices == vertex_total(refs@, self.meshes@, i as nat),
                triangles == triangle_total(refs@, self.meshes@, i as nat),
                vertices <= u32::MAX,
                triangles <= u32::MAX,
            decreases refs@.len() - i,
        {
            let at = refs[i];
            let p = &self.meshes[at.mesh][at.primitive];
            assert(*p == self.primitive(at));
            let material_fits = match p.material {
                Some(material) => material <= u32::MAX as usize,
                None => true,
            };
            let count: usize = p.count_vertices();
            proof {
                lemma_totals_grow(refs@, self.meshes@, i as nat + 1, refs@.len());
            }
            if !material_fits || p.indices.len() > u32::MAX as usize || count > u32::MAX as usize {
                assert(!material_fits || p.indices@.len() > u32::MAX ==> !self.primitive_fits(
                    self.refs()[i as int],
                ));
                return false;
            }
            vertices = vertices + count as u64;
            triangles = triangles + (p.indices.len() / 3) as u64;
            if vertices > u32::MAX as u64 || triangles > u32::MAX as u64 {
                return false;
            }
            i = i + 1;
        }
        true
    }
}

/// The scene on the device.
#[derive(Debug)]
pub struct SceneResources {
    pub vertex_buffers: Vec<Buffer>,
    pub index_buffers: Vec<Buffer>,
    pub index_counts: Vec<u32>,
    pub images: Vec<Image>,
    pub samplers: Vec<u64>,
    pub object_buffer: Buffer,
    pub material_buffer: Buffer,
    pub primitives: Vec<PrimitiveData>,
    pub vertices_count: u32,
    pub triangles_count: u32,
}

/// Why a scene cannot be brought to the device.
#[derive(Clone, Copy, Debug, PartialEq, Eq, Structural)]
pub enum SceneError {
    /// The pixels of a texture are in a format that is not supported.
    BadFormat(u32),
}

/// All that it takes to make the image of a texture: how to create and fill it, and then how to
/// make its levels.
#[derive(Debug)]
pub struct TextureUpload {
    pub steps: Vec<UploadStep<ImageCreation, ImageCommand>>,
    pub mipmaps: Vec<SetupStep<ImageCommand>>,
}

impl TextureUpload {
    /// Whether this makes the texture of a description with the given pixels.
    pub open spec fn makes(&self, desc: ImageDesc, pixels: Seq<u8>) -> bool {
        &&& exists|bytes: Vec<u8>|
            bytes@ == pixels && self.steps@ == #[trigger] image_upload(
                desc,
                vk::ALLOCATION_DEDICATED_MEMORY,
                bytes,
            )
        &&& self.mipmaps@ == setup_steps(
            mipmap_commands(desc, vk::LAYOUT_SHADER_READ_ONLY_OPTIMAL),
        )
    }
}

/// A buffer holds words, having been created for the given uses.
pub open spec fn uploaded<U: FnOnce(Vec<UploadStep<BufferCreation, BufferCopy>>) -> u64>(
    upload: U,
    usage: u32,
    words: Seq<u32>,
    buffer: Buffer,
) -> bool {
    &&& buffer.size == 4 * words.len()
    &&& buffer.address is None
    &&& exists|bytes: Vec<u8>|
        native_words(words, bytes@) && carried_out(
            upload,
            #[trigger] buffer_upload(usage, bytes),
            buffer.buffer,
        )
}

fn upload_bytes<U: FnOnce(Vec<UploadStep<BufferCreation, BufferCopy>>) -> u64>(
    ctx: &VkCtx,
    upload: U,
    usage: u32,
    bytes: Vec<u8>,
    Ghost(words): Ghost<Seq<u32>>,
) -> (r: Buffer)
    requires
        forall|steps: Vec<UploadStep<BufferCreation, BufferCopy>>| upload.requires((steps,)),
        native_words(words, bytes@),
    ensures
        uploaded(upload, usage, words, r),
{
    let ghost data = bytes;
    let r = Buffer::from_data(ctx, upload, usage, bytes);
    assert(carried_out(upload, buffer_upload(usage, data), r.buffer));
    r
}

/// What makes the objects of a scene. Everything in it can be called once, so that every object is
/// made once: `U` carries out the upload of a buffer, `S` creates samplers, and `T` makes the image
/// of a texture.
#[derive(Debug)]
pub struct SceneMakers<U, S, T> {
    pub objects: U,
    pub samplers: S,
    pub materials: U,
    /// One for each texture.
    pub textures: VecDeque<T>,
    /// One for each primitive.
    pub vertices: VecDeque<U>,
    /// One for each primitive.
    pub indices: VecDeque<U>,
}

impl<
    U: FnOnce(Vec<UploadStep<BufferCreation, BufferCopy>>) -> u64,
    S: FnOnce(Vec<SamplerInfo>) -> Vec<u64>,
    T: FnOnce(TextureUpload) -> u64,
> SceneMakers<U, S, T> {
    /// There are as many as a scene needs.
    pub open spec fn fit(&self, source: SceneSource) -> bool {
        &&& forall|steps: Vec<UploadStep<BufferCreation, BufferCopy>>|
            self.objects.requires((steps,))
        &&& answerable(self.samplers, scene_samplers())
        &&& forall|steps: Vec<UploadStep<BufferCreation, BufferCopy>>|
            self.materials.requires((steps,))
        &&& textures_fit(self.textures@, source)
        &&& uploads_fit(self.vertices@, source.refs().len())
        &&& uploads_fit(self.indices@, source.refs().len())
    }
}

/// There is one maker for each texture.
pub open spec fn textures_fit<T: FnOnce(TextureUpload) -> u64>(
    makers: Seq<T>,
    source: SceneSource,
) -> bool {
    &&& makers.len() == source.textures@.len()
    &&& forall|i: int, plan: TextureUpload|
        0 <= i < makers.len() ==> #[trigger] makers[i].requires((plan,))
}

/// There are as many uploads as needed.
pub open spec fn uploads_fit<U: FnOnce(Vec<UploadStep<BufferCreation, BufferCopy>>) -> u64>(
    makers: Seq<U>,
    count: nat,
) -> bool {
    &&& makers.len() == count
    &&& forall|i: int, steps: Vec<UploadStep<BufferCreation, BufferCopy>>|
        0 <= i < makers.len() ==> #[trigger] makers[i].requires((steps,))
}

/// The image of a texture was made.
pub open spec fn texture_made<T: FnOnce(TextureUpload) -> u64>(
    create: T,
    source: TextureSource,
    srgb: bool,
    image: Image,
) -> bool {
    &&& image.wf()
    &&& image.views().is_empty()
    &&& is_level_count(image.desc.mip_levels as nat, source.width, source.height)
    &&& image.desc == (ImageDesc {
        image_type: vk::IMAGE_TYPE_2D,
        format: texture_format(srgb),
        extent: Extent3D { width: source.width, height: source.height, depth: 1 },
        mip_levels: image.desc.mip_levels,
        usage: vk::IMAGE_USAGE_SAMPLED | vk::IMAGE_USAGE_TRANSFER_SRC,
        ..blank_desc()
    })
    &&& exists|upload: TextureUpload|
        upload.makes(image.desc, four_channels(source.format, source.pixels@))
            && #[trigger] create.ensures((upload,), image.image)
}

/// The uses of buffers that shaders read by address.
pub const DATA_USAGE: u32 = vk::BUFFER_USAGE_SHADER_DEVICE_ADDRESS
    | vk::BUFFER_USAGE_STORAGE_BUFFER;

impl SceneResources {
    /// Every primitive has its buffers.
    pub open spec fn wf(&self) -> bool {
        &&& self.vertex_buffers@.len() == self.primitives@.len()
        &&& self.index_buffers@.len() == self.primitives@.len()
        &&& self.index_counts@.len() == self.primitives@.len()
    }

    /// A primitive is on the device: its numbers, its box, its vertices and its indices.
    pub open spec fn primitive_made<
        U: FnOnce(Vec<UploadStep<BufferCreation, BufferCopy>>) -> u64,
        B: Fn(usize, &Vec<VertexData>) -> [[u32; 3]; 8],
    >(
        &self,
        source: SceneSource,
        i: int,
        vertex_uploads: Seq<U>,
        index_uploads: Seq<U>,
        bounds: B,
    ) -> bool {
        let r = source.refs()[i];
        let p = source.primitive(r);
        &&& self.primitives@[i].object_id == r.node
        &&& self.primitives@[i].material_id == match p.material {
            Some(material) => material,
            None => 0,
        }
        &&& self.index_counts@[i] == p.indices@.len()
        &&& uploaded(
            index_uploads[i],
            vk::BUFFER_USAGE_INDEX_BUFFER,
            p.indices@,
            self.index_buffers@[i],
        )
        &&& exists|vertices: Vec<VertexData>|
            {
                &&& p.are_vertices(vertices@)
                &&& #[trigger] bounds.ensures((r.node, &vertices), self.primitives@[i].bounds)
                &&& uploaded(
                    vertex_uploads[i],
                    vk::BUFFER_USAGE_VERTEX_BUFFER,
                    vertices_words(vertices@),
                    self.vertex_buffers@[i],
                )
            }
    }

    fn make_samplers<S: FnOnce(Vec<SamplerInfo>) -> Vec<u64>>(create_samplers: S) -> (r: Vec<u64>)
        requires
            answerable(create_samplers, scene_samplers()),
        ensures
            answered(create_samplers, scene_samplers(), r@),
    {
        ask(create_samplers, sampler_infos())
    }

    fn make_texture<T: FnOnce(TextureUpload) -> u64>(
        ctx: &VkCtx,
        source: &TextureSource,
        srgb: bool,
        create_texture: T,
    ) -> (r: Option<Image>)
        requires
            source.width > 0 || source.height > 0,
            forall|upload: TextureUpload| create_texture.requires((upload,)),
        ensures
            match r {
                Some(image) => !(source.format is Other) && texture_made(
                    create_texture,
                    *source,
                    srgb,
                    image,
                ),
                None => source.format is Other,
            },
    {
        match expand_pixels(source.format, &source.pixels) {
            Some(pixels) => {
                let desc = texture_desc(source.width, source.height, srgb);
                let blank = desc.into_image(0);
                let mipmaps = blank.generate_mipmaps(ctx, vk::LAYOUT_SHADER_READ_ONLY_OPTIMAL);
                let ghost data = pixels;
                let ghost levels = mipmaps;
                let ghost maker = create_texture;
                let carry_out = |steps: Vec<UploadStep<ImageCreation, ImageCommand>>| -> (
                    handle: u64)
                    requires
                        create_texture.requires((TextureUpload { steps, mipmaps },)),
                    ensures
                        create_texture.ensures((TextureUpload { steps, mipmaps },), handle),
                    { create_texture(TextureUpload { steps, mipmaps }) };
                let ghost performed = carry_out;
                let image = desc.create_with_data(
                    ctx,
                    carry_out,
                    vk::ALLOCATION_DEDICATED_MEMORY,
                    pixels,
                );
                proof {
                    let steps = choose|steps: Vec<UploadStep<ImageCreation, ImageCommand>>|
                        steps@ == image_upload(desc, vk::ALLOCATION_DEDICATED_MEMORY, data)
                            && #[trigger] performed.ensures((steps,), image.image);
                    let made = TextureUpload { steps, mipmaps: levels };
                    assert(performed.ensures((steps,), image.image));
                    assert(made.makes(desc, four_channels(source.format, source.pixels@)));
                    assert(image.views().is_empty());
                    assert(maker.ensures((made,), image.image));
                }
                Some(image)
            },
            None => None,
        }
    }
}

impl SceneResources {
    fn make_textures<T: FnOnce(TextureUpload) -> u64>(
        ctx: &VkCtx,
        source: &SceneSource,
        makers: VecDeque<T>,
    ) -> (r: Result<Vec<Image>, SceneError>)
        requires
            source.wf(),
            textures_fit(makers@, *source),
        ensures
            match r {
                Ok(images) => {
                    &&& images@.len() == source.textures@.len()
                    &&& forall|i: int|
                        0 <= i < images@.len() ==> !((#[trigger] source.textures@[i]).format is Other)
                            && texture_made(
                            makers@[i],
                            source.textures@[i],
                            holds_color(color_sources(source.materials@), i),
                            images@[i],
                        )
                },
                Err(SceneError::BadFormat(format)) => source.first_bad_format(format),
            },
    {
        let sources = list_color_sources(&source.materials);
        assert forall|i: int| 0 <= i < sources@.len() implies match #[trigger] sources@[i] {
            Some(image) => image < source.textures@.len(),
            None => true,
        } by {
            assert(source.materials@[i / 2].fits(source.textures@.len()));
        }
        let images_srgb = mark_colors(&sources, source.textures.len());
        let ghost all = makers@;
        let mut makers = makers;
        let mut images: Vec<Image> = Vec::new();
        let mut i: usize = 0;
        while i < source.textures.len()
            invariant
                source.wf(),
                i <= source.textures@.len(),
                images@.len() == i,
                images_srgb@.len() == source.textures@.len(),
                textures_fit(all, *source),
                makers@ =~= all.skip(i as int),
                forall|j: int|
                    0 <= j < images_srgb@.len() ==> #[trigger] images_srgb@[j] == holds_color(
                        color_sources(source.materials@),
                        j,
                    ),
                forall|j: int|
                    0 <= j < i ==> !((#[trigger] source.textures@[j]).format is Other)
                        && texture_made(
                        all[j],
                        source.textures@[j],
                        holds_color(color_sources(source.materials@), j),
                        images@[j],
                    ),
            decreases source.textures@.len() - i,
        {
            if let Some(make) = makers.pop_front() {
                assert(make == all[i as int]);
                match Self::make_texture(ctx, &source.textures[i], images_srgb[i], make) {
                    Some(image) => {
                        images.push(image);
                    },
                    None => {
                        let format: u32 = match source.textures[i].format {
                            PixelFormat::Other(format) => format,
                            _ => 0,
                        };
                        assert(source.textures@[i as int].format == PixelFormat::Other(format));
                        return Err(SceneError::BadFormat(format));
                    },
                }
            }
            i = i + 1;
        }
        Ok(images)
    }

    /// Brings a scene to the device: its objects, samplers, materials, textures and primitives.
    /// `bounds` works out the box of the vertices of a node in the world. This fails if and only
    /// if the pixels of some texture are in a format that is not supported.
    pub fn create<
        U: FnOnce(Vec<UploadStep<BufferCreation, BufferCopy>>) -> u64,
        S: FnOnce(Vec<SamplerInfo>) -> Vec<u64>,
        T: FnOnce(TextureUpload) -> u64,
        B: Fn(usize, &Vec<VertexData>) -> [[u32; 3]; 8] + Copy,
    >(ctx: &VkCtx, source: &SceneSource, makers: SceneMakers<U, S, T>, bounds: B) -> (r: Result<
        Self,
        SceneError,
    >)
        requires
            source.wf(),
            makers.fit(*source),
            forall|node: usize, vertices: &Vec<VertexData>| bounds.requires((node, vertices)),
        ensures
            match r {
                Ok(scene) => {
                    &&& scene.wf()
                    &&& uploaded(
                        makers.objects,
                        DATA_USAGE,
                        objects_words(source.objects@),
                        scene.object_buffer,
                    )
                    &&& uploaded(
                        makers.materials,
                        DATA_USAGE,
                        materials_words(source.materials@),
                        scene.material_buffer,
                    )
                    &&& answered(makers.samplers, scene_samplers(), scene.samplers@)
                    &&& scene.images@.len() == source.textures@.len()
                    &&& forall|i: int|
                        0 <= i < scene.images@.len() ==> !((
                        #[trigger] source.textures@[i]).format is Other) && texture_made(
                            makers.textures@[i],
                            source.textures@[i],
                            holds_color(color_sources(source.materials@), i),
                            scene.images@[i],
                        )
                    &&& scene.primitives@.len() == source.refs().len()
                    &&& forall|i: int|
                        #![trigger scene.primitives@[i]]
                        0 <= i < scene.primitives@.len() ==> scene.primitive_made(
                            *source,
                            i,
                            makers.vertices@,
                            makers.indices@,
                            bounds,
                        )
                    &&& scene.vertices_count == vertex_total(
                        source.refs(),
                        source.meshes@,
                        source.refs().len(),
                    )
                    &&& scene.triangles_count == triangle_total(
                        source.refs(),
                        source.meshes@,
                        source.refs().len(),
                    )
                },
                Err(SceneError::BadFormat(format)) => source.first_bad_format(format),
            },
    {
        let ghost all_vertices = makers.vertices@;
        let ghost all_indices = makers.indices@;
        let SceneMakers {
            objects: upload_objects,
            samplers: create_samplers,
            materials: upload_materials,
            textures: make_textures,
            vertices: mut vertex_uploads,
            indices: mut index_uploads,
        } = makers;
        let object_buffer = upload_bytes(
            ctx,
            upload_objects,
            DATA_USAGE,
            object_bytes(&source.objects),
            Ghost(objects_words(source.objects@)),
        );
        let samplers = Self::make_samplers(create_samplers);
        let textures: usize = source.textures.len();
        assert forall|i: int| 0 <= i < source.materials@.len() implies (
        #[trigger] source.materials@[i]).fits(usize::MAX as nat + 1) by {
            assert(source.materials@[i].fits(source.textures@.len()));
            assert(textures == source.textures@.len());
        }
        let material_buffer = upload_bytes(
            ctx,
            upload_materials,
            DATA_USAGE,
            material_bytes(&source.materials),
            Ghost(materials_words(source.materials@)),
        );
        let images = match Self::make_textures(ctx, source, make_textures) {
            Ok(images) => images,
            Err(error) => {
                return Err(error);
            },
        };
        let refs = source.list_primitives();
        let mut scene = SceneResources {
            vertex_buffers: Vec::new(),
            index_buffers: Vec::new(),
            index_counts: Vec::new(),
            images,
            samplers,
            object_buffer,
            material_buffer,
            primitives: Vec::new(),
            vertices_count: 0,
            triangles_count: 0,
        };
        let ghost start = scene;
        let mut i: usize = 0;
        while i < refs.len()
            invariant
                source.wf(),
                refs@ == source.refs(),
                i <= refs@.len(),
                uploads_fit(all_vertices, refs@.len()),
                uploads_fit(all_indices, refs@.len()),
                vertex_uploads@ =~= all_vertices.skip(i as int),
                index_uploads@ =~= all_indices.skip(i as int),
                forall|node: usize, vertices: &Vec<VertexData>| bounds.requires((node, vertices)),
                forall|j: int|
                    0 <= j < refs@.len() ==> {
                        &&& (#[trigger] refs@[j]).node < source.node_meshes@.len()
                        &&& refs@[j].mesh < source.meshes@.len()
                        &&& refs@[j].primitive < source.meshes@[refs@[j].mesh as int]@.len()
                    },
                scene.images == start.images,
                scene.samplers == start.samplers,
                scene.object_buffer == start.object_buffer,
                scene.material_buffer == start.material_buffer,
                scene.primitives@.len() == i,
                scene.wf(),
                forall|j: int|
                    #![trigger scene.primitives@[j]]
                    0 <= j < i ==> scene.primitive_made(
                        *source,
                        j,
                        all_vertices,
                        all_indices,
                        bounds,
                    ),
                scene.vertices_count == vertex_total(refs@, source.meshes@, i as nat),
                scene.triangles_count == triangle_total(refs@, source.meshes@, i as nat),
            decreases refs@.len() - i,
        {
            let at = refs[i];
            let ghost before = scene;
            proof {
                lemma_totals_grow(refs@, source.meshes@, i as nat + 1, refs@.len());
            }
            if let (Some(upload_vertices), Some(upload_indices)) = (
                vertex_uploads.pop_front(),
                index_uploads.pop_front(),
            ) {
                assert(upload_vertices == all_vertices[i as int]);
                assert(upload_indices == all_indices[i as int]);
                scene.push_primitive(
                    ctx,
                    source,
                    at,
                    upload_vertices,
                    upload_indices,
                    bounds,
                    Ghost(i as int),
                    Ghost(all_vertices),
                    Ghost(all_indices),
                );
            }
            proof {
                assert forall|j: int| 0 <= j < i implies scene.primitive_made(
                    *source,
                    j,
                    all_vertices,
                    all_indices,
                    bounds,
                ) by {
                    assert(before.primitives@[j] == scene.primitives@[j]);
                    assert(before.primitive_made(*source, j, all_vertices, all_indices, bounds));
                    assert(before.index_counts@[j] == scene.index_counts@[j]);
                    assert(before.index_buffers@[j] == scene.index_buffers@[j]);
                    assert(before.vertex_buffers@[j] == scene.vertex_buffers@[j]);
                }
            }
            i = i + 1;
        }
        Ok(scene)
    }

    fn push_primitive<
        U: FnOnce(Vec<UploadStep<BufferCreation, BufferCopy>>) -> u64,
        B: Fn(usize, &Vec<VertexData>) -> [[u32; 3]; 8] + Copy,
    >(
        &mut self,
        ctx: &VkCtx,
        source: &SceneSource,
        at: PrimitiveRef,
        upload_vertices: U,
        upload_indices: U,
        bounds: B,
        Ghost(i): Ghost<int>,
        Ghost(vertex_uploads): Ghost<Seq<U>>,
        Ghost(index_uploads): Ghost<Seq<U>>,
    )
        requires
            source.wf(),
            old(self).wf(),
            i == old(self).primitives@.len(),
            i < source.refs().len(),
            at == source.refs()[i],
            at.node < source.node_meshes@.len(),
            at.mesh < source.meshes@.len(),
            at.primitive < source.meshes@[at.mesh as int]@.len(),
            upload_vertices == vertex_uploads[i],
            upload_indices == index_uploads[i],
            forall|steps: Vec<UploadStep<BufferCreation, BufferCopy>>|
                upload_vertices.requires((steps,)),
            forall|steps: Vec<UploadStep<BufferCreation, BufferCopy>>|
                upload_indices.requires((steps,)),
            forall|node: usize, vertices: &Vec<VertexData>| bounds.requires((node, vertices)),
            old(self).vertices_count + source.primitive(at).vertex_count() <= u32::MAX,
            old(self).triangles_count + source.primitive(at).indices@.len() / 3 <= u32::MAX,
        ensures
            final(self).wf(),
            final(self).primitive_made(*source, i, vertex_uploads, index_uploads, bounds),
            final(self).images == old(self).images,
            final(self).samplers == old(self).samplers,
            final(self).object_buffer == old(self).object_buffer,
            final(self).material_buffer == old(self).material_buffer,
            final(self).primitives@.len() == i + 1,
            final(self).primitives@.take(i) == old(self).primitives@,
            final(self).index_counts@.take(i) == old(self).index_counts@,
            final(self).index_buffers@.take(i) == old(self).index_buffers@,
            final(self).vertex_buffers@.take(i) == old(self).vertex_buffers@,
            final(self).vertices_count == old(self).vertices_count + source.primitive(
                at,
            ).vertex_count(),
            final(self).triangles_count == old(self).triangles_count + source.primitive(
                at,
            ).indices@.len() / 3,
    {
        assert(source.primitive_fits(source.refs()[i]));
        let p = &source.meshes[at.mesh][at.primitive];
        assert(*p == source.primitive(at));
        let vertices = p.vertices();
        self.vertices_count = self.vertices_count + vertices.len() as u32;
        self.triangles_count = self.triangles_count + p.indices.len() as u32 / 3;
        let corners: [[u32; 3]; 8] = bounds(at.node, &vertices);
        let material: usize = match p.material {
            Some(material) => material,
            None => 0,
        };
        self.primitives.push(
            PrimitiveData {
                object_id: at.node as u32,
                material_id: material as u32,
                bounds: corners,
            },
        );
        self.vertex_buffers.push(
            upload_bytes(
                ctx,
                upload_vertices,
                vk::BUFFER_USAGE_VERTEX_BUFFER,
                vertex_bytes(&vertices),
                Ghost(vertices_words(vertices@)),
            ),
        );
        self.index_buffers.push(
            upload_bytes(
                ctx,
                upload_indices,
                vk::BUFFER_USAGE_INDEX_BUFFER,
                index_bytes(&p.indices),
                Ghost(p.indices@),
            ),
        );
        self.index_counts.push(p.indices.len() as u32);
        assert(bounds.ensures((at.node, &vertices), self.primitives@[i].bounds));
        assert(self.primitives@.take(i) =~= old(self).primitives@);
        assert(self.index_counts@.take(i) =~= old(self).index_counts@);
        assert(self.index_buffers@.take(i) =~= old(self).index_buffers@);
        assert(self.vertex_buffers@.take(i) =~= old(self).vertex_buffers@);
    }
}

/// Every primitive of the mesh of a node is drawn, nothing else is, and nothing twice.
pub proof fn law_primitives_are_drawn_once(
    node_meshes: Seq<Option<usize>>,
    meshes: Seq<Vec<PrimitiveSource>>,
    nodes: nat,
    r: PrimitiveRef,
)
    requires
        nodes <= node_meshes.len() <= usize::MAX,
        forall|m: int| 0 <= m < meshes.len() ==> (#[trigger] meshes[m])@.len() <= usize::MAX,
        forall|i: int|
            0 <= i < node_meshes.len() ==> match #[trigger] node_meshes[i] {
                Some(mesh) => mesh < meshes.len(),
                None => true,
            },
    ensures
        primitive_refs(node_meshes, meshes, nodes).contains(r) <==> {
            &&& r.node < nodes
            &&& node_meshes[r.node as int] == Some(r.mesh)
            &&& r.primitive < meshes[r.mesh as int]@.len()
        },
        primitive_refs(node_meshes, meshes, nodes).no_duplicates(),
    decreases nodes,
{
    if nodes > 0 {
        law_primitives_are_drawn_once(node_meshes, meshes, (nodes - 1) as nat, r);
        let node = (nodes - 1) as usize;
        let earlier = primitive_refs(node_meshes, meshes, (nodes - 1) as nat);
        let all = primitive_refs(node_meshes, meshes, nodes);
        match node_meshes[nodes - 1] {
            Some(mesh) => {
                let last = mesh_refs(node, mesh, meshes[mesh as int]@.len());
                assert(all == earlier + last);
                if earlier.contains(r) {
                    let k = choose|k: int| 0 <= k < earlier.len() && earlier[k] == r;
                    assert(all[k] == r);
                }
                if r.node == node && r.mesh == mesh && r.primitive < meshes[mesh as int]@.len() {
                    assert(last[r.primitive as int] == r);
                    assert(all[earlier.len() + r.primitive] == r);
                }
                if all.contains(r) {
                    let k = choose|k: int| 0 <= k < all.len() && all[k] == r;
                    if k < earlier.len() {
                        assert(earlier[k] == r);
                    } else {
                        assert(last[k - earlier.len()] == r);
                    }
                }
                assert forall|i: int, j: int|
                    0 <= i < all.len() && 0 <= j < all.len() && i != j implies all[i] != all[j] by {
                    if i < earlier.len() && j < earlier.len() {
                        assert(all[i] == earlier[i] && all[j] == earlier[j]);
                    } else if i >= earlier.len() && j >= earlier.len() {
                        assert(all[i] == last[i - earlier.len()]);
                        assert(all[j] == last[j - earlier.len()]);
                    } else {
                        let k = if i < earlier.len() {
                            i
                        } else {
                            j
                        };
                        assert(earlier.contains(all[k]));
                        law_primitives_are_drawn_once(
                            node_meshes,
                            meshes,
                            (nodes - 1) as nat,
                            all[k],
                        );
                    }
                }
            },
            None => {
                assert(all =~= earlier);
            },
        }
    }
}

/// With an object for each node, and every material that is named among those of the scene, a
/// primitive on the device belongs to an object that exists, and has a material that exists if it
/// names one.
pub proof fn law_primitives_refer_to_scene<
    U: FnOnce(Vec<UploadStep<BufferCreation, BufferCopy>>) -> u64,
    B: Fn(usize, &Vec<VertexData>) -> [[u32; 3]; 8],
>(
    source: SceneSource,
    scene: SceneResources,
    i: int,
    vertex_uploads: Seq<U>,
    index_uploads: Seq<U>,
    bounds: B,
)
    requires
        source.wf(),
        source.objects@.len() == source.node_meshes@.len(),
        forall|m: int, p: int|
            0 <= m < source.meshes@.len() && 0 <= p < source.meshes@[m]@.len() ==> match (
            #[trigger] source.meshes@[m]@[p]).material {
                Some(material) => material < source.materials@.len(),
                None => true,
            },
        0 <= i < source.refs().len(),
        scene.primitive_made(source, i, vertex_uploads, index_uploads, bounds),
    ensures
        scene.primitives@[i].object_id < source.objects@.len(),
        source.primitive(source.refs()[i]).material is Some ==> scene.primitives@[i].material_id
            < source.materials@.len(),
{
    lemma_refs_exist(source.node_meshes@, source.meshes@, source.node_meshes@.len(), i);
    assert(source.primitive_fits(source.refs()[i]));
}

proof fn lemma_refs_exist(
    node_meshes: Seq<Option<usize>>,
    meshes: Seq<Vec<PrimitiveSource>>,
    nodes: nat,
    i: int,
)
    requires
        nodes <= node_meshes.len() <= u32::MAX,
        forall|k: int|
            0 <= k < node_meshes.len() ==> match #[trigger] node_meshes[k] {
                Some(mesh) => mesh < meshes.len(),
                None => true,
            },
        0 <= i < primitive_refs(node_meshes, meshes, nodes).len(),
    ensures
        ({
            let r = primitive_refs(node_meshes, meshes, nodes)[i];
            &&& r.node < nodes
            &&& r.mesh < meshes.len()
            &&& r.primitive < meshes[r.mesh as int]@.len()
        }),
    decreases nodes,
{
    if nodes > 0 {
        let earlier = primitive_refs(node_meshes, meshes, (nodes - 1) as nat);
        if i < earlier.len() {
            lemma_refs_exist(node_meshes, meshes, (nodes - 1) as nat, i);
        }
    }
}

/// What a material tells the shaders about a texture is the number of an image of the scene, or
/// that there is none, and the number of a sampler that exists.
pub proof fn law_materials_refer_to_scene(source: SceneSource, i: int, texture: Option<TextureRef>)
    requires
        source.wf(),
        0 <= i < source.materials@.len(),
        texture == source.materials@[i].base_color || texture
            == source.materials@[i].metallic_roughness || texture == source.materials@[i].normal
            || texture == source.materials@[i].occlusion || texture
            == source.materials@[i].emissive,
    ensures
        -1 <= texture_number(texture) < source.textures@.len(),
        texture_number(texture) == -1 <==> texture is None,
        sampler_number(texture) < SAMPLER_COUNT,
{
    assert(source.materials@[i].fits(source.textures@.len()));
}


/// The vertices and triangles of a scene add up, primitive by primitive: each more counts all its
/// own vertices, and a triangle for every three of its indices.
pub proof fn law_totals_add_up(
    refs: Seq<PrimitiveRef>,
    meshes: Seq<Vec<PrimitiveSource>>,
    few: nat,
    more: nat,
)
    requires
        few + more <= refs.len(),
    ensures
        vertex_total(refs, meshes, few + more) == vertex_total(refs, meshes, few) + vertex_total(
            refs.skip(few as int),
            meshes,
            more,
        ),
        triangle_total(refs, meshes, few + more) == triangle_total(refs, meshes, few)
            + triangle_total(refs.skip(few as int), meshes, more),
        more == 1 ==> {
            let p = meshes[refs[few as int].mesh as int]@[refs[few as int].primitive as int];
            let vertices = vertex_total(refs, meshes, few + 1) - vertex_total(refs, meshes, few);
            let triangles = triangle_total(refs, meshes, few + 1) - triangle_total(
                refs,
                meshes,
                few,
            );
            &&& vertices == p.vertex_count()
            &&& 3 * triangles <= p.indices@.len() < 3 * triangles + 3
        },
    decreases more,
{
    if more > 0 {
        law_totals_add_up(refs, meshes, few, (more - 1) as nat);
        assert(refs.skip(few as int)[more - 1] == refs[few + more - 1]);
        assert(few + (more - 1) as nat == (few + more - 1) as nat);
    }
}

/// The primitives are drawn in the order of their nodes, and within a node in the order of its mesh.
pub proof fn law_primitives_are_in_order(
    node_meshes: Seq<Option<usize>>,
    meshes: Seq<Vec<PrimitiveSource>>,
    nodes: nat,
    i: int,
    j: int,
)
    requires
        nodes <= node_meshes.len() <= usize::MAX,
        forall|m: int| 0 <= m < meshes.len() ==> (#[trigger] meshes[m])@.len() <= usize::MAX,
        forall|k: int|
            0 <= k < node_meshes.len() ==> match #[trigger] node_meshes[k] {
                Some(mesh) => mesh < meshes.len(),
                None => true,
            },
        0 <= i < j < primitive_refs(node_meshes, meshes, nodes).len(),
    ensures
        ({
            let refs = primitive_refs(node_meshes, meshes, nodes);
            &&& refs[i].node < refs[j].node || (refs[i].node == refs[j].node && refs[i].primitive
                < refs[j].primitive)
            &&& refs[j].node < nodes
        }),
    decreases nodes,
{
    if nodes > 0 {
        let earlier = primitive_refs(node_meshes, meshes, (nodes - 1) as nat);
        let all = primitive_refs(node_meshes, meshes, nodes);
        if j < earlier.len() {
            law_primitives_are_in_order(node_meshes, meshes, (nodes - 1) as nat, i, j);
        } else if i < earlier.len() {
            assert(all[i] == earlier[i]);
            assert(earlier.contains(earlier[i]));
            law_primitives_are_drawn_once(node_meshes, meshes, (nodes - 1) as nat, earlier[i]);
        }
    }
}

/// A primitive on the device belongs to the object of its node, has the material that it names, or
/// the first, and as many indices as it was loaded with; its buffers hold its own indices and its
/// own vertices, each for its own use, and its box is that of those vertices at its node.
pub proof fn law_primitive_is_brought<
    U: FnOnce(Vec<UploadStep<BufferCreation, BufferCopy>>) -> u64,
    B: Fn(usize, &Vec<VertexData>) -> [[u32; 3]; 8],
>(
    source: SceneSource,
    scene: SceneResources,
    i: int,
    vertex_uploads: Seq<U>,
    index_uploads: Seq<U>,
    bounds: B,
)
    requires
        scene.primitive_made(source, i, vertex_uploads, index_uploads, bounds),
    ensures
        ({
            let at = source.refs()[i];
            let p = source.meshes@[at.mesh as int]@[at.primitive as int];
            &&& scene.primitives@[i].object_id == at.node
            &&& match p.material {
                Some(material) => scene.primitives@[i].material_id == material,
                None => scene.primitives@[i].material_id == 0,
            }
            &&& scene.index_counts@[i] == p.indices@.len()
            &&& uploaded(
                index_uploads[i],
                vk::BUFFER_USAGE_INDEX_BUFFER,
                p.indices@,
                scene.index_buffers@[i],
            )
            &&& exists|vertices: Vec<VertexData>|
                {
                    &&& p.are_vertices(vertices@)
                    &&& #[trigger] bounds.ensures((at.node, &vertices), scene.primitives@[i].bounds)
                    &&& uploaded(
                        vertex_uploads[i],
                        vk::BUFFER_USAGE_VERTEX_BUFFER,
                        vertices_words(vertices@),
                        scene.vertex_buffers@[i],
                    )
                }
        }),
{
}

/// Objects and materials are read by address, from buffers of data.
pub proof fn law_data_is_read_by_address<
    U: FnOnce(Vec<UploadStep<BufferCreation, BufferCopy>>) -> u64,
>(upload: U, words: Seq<u32>, buffer: Buffer)
    requires
        uploaded(upload, DATA_USAGE, words, buffer),
    ensures
        uploaded(
            upload,
            vk::BUFFER_USAGE_SHADER_DEVICE_ADDRESS | vk::BUFFER_USAGE_STORAGE_BUFFER,
            words,
            buffer,
        ),
{
}

/// A buffer that words were brought into is as large as they are and was filled with their bytes,
/// from the start to the end, for the uses asked for.
pub proof fn law_buffer_holds_words<U: FnOnce(Vec<UploadStep<BufferCreation, BufferCopy>>) -> u64>(
    upload: U,
    usage: u32,
    words: Seq<u32>,
    buffer: Buffer,
)
    requires
        uploaded(upload, usage, words, buffer),
    ensures
        buffer.size == 4 * words.len(),
        exists|bytes: Vec<u8>|
            {
                &&& native_words(words, bytes@)
                &&& bytes@.len() == buffer.size
                &&& carried_out(upload, #[trigger] buffer_upload(usage, bytes), buffer.buffer)
            },
{
}

/// The image of a texture has the size of the texture, all levels down to a single texel, and the
/// colour curve if it holds colours; it can be sampled, and its levels can be made from one another.
/// It is filled with the pixels, four channels each, in memory of its own, and then its levels are
/// made; each of them ends up in the layout in which shaders read it.
pub proof fn law_texture_is_brought<T: FnOnce(TextureUpload) -> u64>(
    create: T,
    source: TextureSource,
    srgb: bool,
    image: Image,
    layouts: Seq<i32>,
)
    requires
        texture_made(create, source, srgb, image),
        source.width <= i32::MAX,
        source.height <= i32::MAX,
        layouts.len() == image.desc.mip_levels,
    ensures
        image.desc.extent.width == source.width,
        image.desc.extent.height == source.height,
        image.desc.extent.depth == 1,
        image.desc.format == if srgb {
            vk::FORMAT_R8G8B8A8_SRGB
        } else {
            vk::FORMAT_R8G8B8A8_UNORM
        },
        image.desc.image_type == vk::IMAGE_TYPE_2D,
        image.desc.array_layers == 1,
        image.desc.samples == vk::SAMPLES_TYPE_1,
        image.desc.usage == vk::IMAGE_USAGE_SAMPLED | vk::IMAGE_USAGE_TRANSFER_SRC,
        is_level_count(image.desc.mip_levels as nat, source.width, source.height),
        exists|upload: TextureUpload, bytes: Vec<u8>, commands: Seq<ImageCommand>|
            {
                &&& #[trigger] create.ensures((upload,), image.image)
                &&& upload.steps@ == #[trigger] image_upload(
                    image.desc,
                    vk::ALLOCATION_DEDICATED_MEMORY,
                    bytes,
                )
                &&& bytes@ == four_channels(source.format, source.pixels@)
                &&& upload.mipmaps@ == #[trigger] setup_steps(commands)
                &&& fill_run(
                    image.desc,
                    upload_commands(image.desc) + commands,
                    new_levels(layouts),
                ) matches Some(levels) && forall|k: int|
                    0 <= k < image.desc.mip_levels ==> (#[trigger] levels[k]).layout
                        == vk::LAYOUT_SHADER_READ_ONLY_OPTIMAL && !(levels[k].contents is Undefined)
            },
{
    let upload = choose|upload: TextureUpload|
        upload.makes(image.desc, four_channels(source.format, source.pixels@))
            && #[trigger] create.ensures((upload,), image.image);
    let bytes = choose|bytes: Vec<u8>|
        bytes@ == four_channels(source.format, source.pixels@) && upload.steps@
            == #[trigger] image_upload(image.desc, vk::ALLOCATION_DEDICATED_MEMORY, bytes);
    let commands = mipmap_commands(image.desc, vk::LAYOUT_SHADER_READ_ONLY_OPTIMAL);
    law_every_level_is_filled(image.desc, vk::LAYOUT_SHADER_READ_ONLY_OPTIMAL, layouts);
    assert(upload.steps@ == image_upload(image.desc, vk::ALLOCATION_DEDICATED_MEMORY, bytes));
    assert(upload.mipmaps@ == setup_steps(commands));
    let levels = fill_run(
        image.desc,
        upload_commands(image.desc) + commands,
        new_levels(layouts),
    )->0;
    assert forall|k: int| 0 <= k < image.desc.mip_levels implies (#[trigger] levels[k]).layout
        == vk::LAYOUT_SHADER_READ_ONLY_OPTIMAL && !(levels[k].contents is Undefined) by {
        if k >= 1 {
            assert(levels[k].contents == LevelContents::Level(k - 1));
        }
    }
}


/// A primitive can be brought to the device just if the number of its indices and that of its
/// material are words.
pub proof fn law_primitive_numbers_fit(source: SceneSource, at: PrimitiveRef)
    ensures
        source.primitive_fits(at) <==> {
            let p = source.meshes@[at.mesh as int]@[at.primitive as int];
            &&& p.indices@.len() < 0x1_0000_0000
            &&& p.material matches Some(material) ==> material < 0x1_0000_0000
        },
{
}

/// A scene that is refused for the format of a texture is refused for one format alone, that of the
/// first texture that cannot be read, and there is one just if some texture cannot be read.
pub proof fn law_first_bad_format_is_reported(source: SceneSource, format: u32, other: u32, i: int)
    requires
        0 <= i < source.textures@.len(),
    ensures
        source.first_bad_format(format) && source.first_bad_format(other) ==> format == other,
        source.textures@[i].format == PixelFormat::Other(format) && (forall|j: int|
            0 <= j < i ==> !((#[trigger] source.textures@[j]).format is Other))
            ==> source.first_bad_format(format),
        source.first_bad_format(format) ==> exists|j: int|
            0 <= j < source.textures@.len() && (#[trigger] source.textures@[j]).format
                == PixelFormat::Other(format),
{
    if source.first_bad_format(format) && source.first_bad_format(other) {
        let a = choose|a: int|
            {
                &&& 0 <= a < source.textures@.len()
                &&& (#[trigger] source.textures@[a]).format == PixelFormat::Other(format)
                &&& forall|j: int|
                    0 <= j < a ==> !((#[trigger] source.textures@[j]).format is Other)
            };
        let b = choose|b: int|
            {
                &&& 0 <= b < source.textures@.len()
                &&& (#[trigger] source.textures@[b]).format == PixelFormat::Other(other)
                &&& forall|j: int|
                    0 <= j < b ==> !((#[trigger] source.textures@[j]).format is Other)
            };
        assert(source.textures@[a].format is Other);
        assert(source.textures@[b].format is Other);
        assert(a == b);
    }
}

} // verus!
