//! Geometry: the vertices of a primitive, its box, and the tree of nodes.
use crate::outside::{cast_words, native_words};
use crate::pipelines::{vertex_attributes, VERTEX_STRIDE};
use crate::vk;
use vstd::prelude::*;

verus! {

/// A vertex. Every number is held as the bits of a single-precision number.
#[derive(Clone, Copy, Debug, PartialEq, Eq)]
pub struct VertexData {
    pub position: [u32; 3],
    pub normal: [u32; 3],
    pub tangent: [u32; 4],
    pub color: [u32; 3],
    pub uv: [u32; 2],
}

impl VertexData {
    /// The words that the shader reads: the fields in order, without gaps.
    pub open spec fn words(self) -> Seq<u32> {
        self.position@ + self.normal@ + self.tangent@ + self.color@ + self.uv@
    }
}

/// The words of vertices, one after the other.
pub open spec fn vertices_words(vertices: Seq<VertexData>) -> Seq<u32>
    decreases vertices.len(),
{
    if vertices.len() == 0 {
        Seq::empty()
    } else {
        vertices_words(vertices.drop_last()) + vertices.last().words()
    }
}

pub(crate) fn push_words(out: &mut Vec<u32>, words: &[u32])
    ensures
        final(out)@ == old(out)@ + words@,
{
    let ghost before = out@;
    out.extend_from_slice(words);
    assert(out@ =~= before + words@);
}

/// The contents of a vertex buffer.
pub fn vertex_bytes(vertices: &Vec<VertexData>) -> (r: Vec<u8>)
    ensures
        native_words(vertices_words(vertices@), r@),
{
    let mut words: Vec<u32> = Vec::new();
    let mut i: usize = 0;
    while i < vertices.len()
        invariant
            i <= vertices@.len(),
            words@ == vertices_words(vertices@.take(i as int)),
        decreases vertices@.len() - i,
    {
        let v = vertices[i];
        push_words(&mut words, &v.position);
        push_words(&mut words, &v.normal);
        push_words(&mut words, &v.tangent);
        push_words(&mut words, &v.color);
        push_words(&mut words, &v.uv);
        assert(vertices@.take(i + 1).drop_last() =~= vertices@.take(i as int));
        assert(words@ =~= vertices_words(vertices@.take(i as int)) + v.words());
        i = i + 1;
    }
    assert(vertices@.take(vertices@.len() as int) =~= vertices@);
    cast_words(words.as_slice())
}

/// The contents of an index buffer.
pub fn index_bytes(indices: &Vec<u32>) -> (r: Vec<u8>)
    ensures
        native_words(indices@, r@),
{
    cast_words(indices.as_slice())
}

/// A primitive of a mesh. Every number is held as the bits of a single-precision number.
#[derive(Debug)]
pub struct PrimitiveSource {
    pub positions: Vec<[u32; 3]>,
    pub normals: Vec<[u32; 3]>,
    pub tangents: Option<Vec<[u32; 4]>>,
    pub colors: Option<Vec<[u32; 3]>>,
    pub tex_coords: Option<Vec<[u32; 2]>>,
    pub indices: Vec<u32>,
    pub material: Option<usize>,
}

/// The tangent of vertices that come without one.
pub open spec fn default_tangent() -> Seq<u32> {
    seq![vk::F32_ONE, vk::F32_ZERO, vk::F32_ZERO, vk::F32_ONE]
}

/// The colour of vertices that come without one.
pub open spec fn default_color() -> Seq<u32> {
    seq![vk::F32_ONE, vk::F32_ONE, vk::F32_ONE]
}

/// The texture coordinates of vertices that come without any.
pub open spec fn default_uv() -> Seq<u32> {
    seq![vk::F32_ZERO, vk::F32_ZERO]
}

/// The smaller of two numbers.
pub open spec fn smaller(a: nat, b: nat) -> nat {
    if a <= b {
        a
    } else {
        b
    }
}

impl PrimitiveSource {
    /// How many vertices have all their attributes. What is missing altogether is made up for
    /// every position.
    pub open spec fn vertex_count(&self) -> nat {
        let positions = self.positions@.len();
        let tangents = match self.tangents {
            Some(tangents) => tangents@.len(),
            None => positions,
        };
        let colors = match self.colors {
            Some(colors) => colors@.len(),
            None => positions,
        };
        let tex_coords = match self.tex_coords {
            Some(tex_coords) => tex_coords@.len(),
            None => positions,
        };
        smaller(
            smaller(smaller(smaller(positions, self.normals@.len()), tangents), colors),
            tex_coords,
        )
    }

    /// Whether this is a vertex of the primitive.
    pub open spec fn is_vertex(&self, i: int, vertex: VertexData) -> bool {
        &&& vertex.position == self.positions@[i]
        &&& vertex.normal == self.normals@[i]
        &&& match self.tangents {
            Some(tangents) => vertex.tangent == tangents@[i],
            None => vertex.tangent@ == default_tangent(),
        }
        &&& match self.colors {
            Some(colors) => vertex.color == colors@[i],
            None => vertex.color@ == default_color(),
        }
        &&& match self.tex_coords {
            Some(tex_coords) => vertex.uv == tex_coords@[i],
            None => vertex.uv@ == default_uv(),
        }
    }

    /// Whether these are the vertices of the primitive.
    pub open spec fn are_vertices(&self, vertices: Seq<VertexData>) -> bool {
        &&& vertices.len() == self.vertex_count()
        &&& forall|i: int| 0 <= i < vertices.len() ==> self.is_vertex(i, #[trigger] vertices[i])
    }

    /// Counts the vertices that have all their attributes.
    pub fn count_vertices(&self) -> (r: usize)
        ensures
            r == self.vertex_count(),
    {
        let positions: usize = self.positions.len();
        let mut count: usize = positions;
        if self.normals.len() < count {
            count = self.normals.len();
        }
        match &self.tangents {
            Some(tangents) => if tangents.len() < count {
                count = tangents.len();
            },
            None => {},
        }
        match &self.colors {
            Some(colors) => if colors.len() < count {
                count = colors.len();
            },
            None => {},
        }
        match &self.tex_coords {
            Some(tex_coords) => if tex_coords.len() < count {
                count = tex_coords.len();
            },
            None => {},
        }
        count
    }

    /// Puts the attributes of the primitive together, vertex by vertex.
    pub fn vertices(&self) -> (r: Vec<VertexData>)
        ensures
            self.are_vertices(r@),
    {
        let count: usize = self.count_vertices();
        let mut vertices: Vec<VertexData> = Vec::new();
        let mut i: usize = 0;
        while i < count
            invariant
                i <= count,
                count == self.vertex_count(),
                vertices@.len() == i,
                forall|j: int| 0 <= j < i ==> self.is_vertex(j, #[trigger] vertices@[j]),
            decreases count - i,
        {
            let tangent: [u32; 4] = match &self.tangents {
                Some(tangents) => tangents[i],
                None => [vk::F32_ONE, vk::F32_ZERO, vk::F32_ZERO, vk::F32_ONE],
            };
            let color: [u32; 3] = match &self.colors {
                Some(colors) => colors[i],
                None => [vk::F32_ONE, vk::F32_ONE, vk::F32_ONE],
            };
            let uv: [u32; 2] = match &self.tex_coords {
                Some(tex_coords) => tex_coords[i],
                None => [vk::F32_ZERO, vk::F32_ZERO],
            };
            assert(self.tangents is None ==> tangent@ =~= default_tangent());
            assert(self.colors is None ==> color@ =~= default_color());
            assert(self.tex_coords is None ==> uv@ =~= default_uv());
            vertices.push(
                VertexData {
                    position: self.positions[i],
                    normal: self.normals[i],
                    tangent,
                    color,
                    uv,
                },
            );
            i = i + 1;
        }
        vertices
    }
}

/// A corner of a box: bit 2 of its number picks the side in x, bit 1 in y, bit 0 in z.
pub open spec fn box_corner(min: Seq<u32>, max: Seq<u32>, corner: int) -> Seq<u32> {
    seq![
        if corner / 4 % 2 == 1 {
            max[0]
        } else {
            min[0]
        },
        if corner / 2 % 2 == 1 {
            max[1]
        } else {
            min[1]
        },
        if corner % 2 == 1 {
            max[2]
        } else {
            min[2]
        },
    ]
}

/// The corners of the box between two points, from the smallest to the largest.
pub fn box_corners(min: [u32; 3], max: [u32; 3]) -> (r: [[u32; 3]; 8])
    ensures
        forall|i: int| 0 <= i < 8 ==> (#[trigger] r@[i])@ == box_corner(min@, max@, i),
{
    let r: [[u32; 3]; 8] = [
        [min[0], min[1], min[2]],
        [min[0], min[1], max[2]],
        [min[0], max[1], min[2]],
        [min[0], max[1], max[2]],
        [max[0], min[1], min[2]],
        [max[0], min[1], max[2]],
        [max[0], max[1], min[2]],
        [max[0], max[1], max[2]],
    ];
    assert(r@[0]@ =~= box_corner(min@, max@, 0));
    assert(r@[1]@ =~= box_corner(min@, max@, 1));
    assert(r@[2]@ =~= box_corner(min@, max@, 2));
    assert(r@[3]@ =~= box_corner(min@, max@, 3));
    assert(r@[4]@ =~= box_corner(min@, max@, 4));
    assert(r@[5]@ =~= box_corner(min@, max@, 5));
    assert(r@[6]@ =~= box_corner(min@, max@, 6));
    assert(r@[7]@ =~= box_corner(min@, max@, 7));
    r
}

/// A step of the walk over the tree of nodes: a node takes on its transform, that of its parent
/// followed by its own.
#[derive(Clone, Copy, Debug, PartialEq, Eq)]
pub struct WalkStep {
    pub node: usize,
    /// The node that the transform builds on, or nothing for a root.
    pub parent: Option<usize>,
}

/// The children of each node.
pub open spec fn child_lists(children: Seq<Vec<usize>>) -> Seq<Seq<usize>> {
    children.map_values(|list: Vec<usize>| list@)
}

/// The walk over a node and all below it, each node before its children. There is none if the
/// nodes go deeper than allowed.
pub open spec fn walk(
    children: Seq<Seq<usize>>,
    node: usize,
    parent: Option<usize>,
    depth: nat,
) -> Option<Seq<WalkStep>>
    decreases depth, 0nat,
{
    if depth == 0 {
        None
    } else {
        match walk_children(
            children,
            node,
            children[node as int].len(),
            (depth - 1) as nat,
        ) {
            Some(below) => Some(seq![WalkStep { node, parent }] + below),
            None => None,
        }
    }
}

/// The walk over the first children of a node.
pub open spec fn walk_children(
    children: Seq<Seq<usize>>,
    node: usize,
    count: nat,
    depth: nat,
) -> Option<Seq<WalkStep>>
    decreases depth, count + 1,
{
    if count == 0 {
        Some(Seq::empty())
    } else {
        match (
            walk_children(children, node, (count - 1) as nat, depth),
            walk(children, children[node as int][count - 1], Some(node), depth),
        ) {
            (Some(earlier), Some(last)) => Some(earlier + last),
            _ => None,
        }
    }
}

/// The walk over the first trees of a scene.
pub open spec fn walk_roots(
    children: Seq<Seq<usize>>,
    roots: Seq<usize>,
    count: nat,
    depth: nat,
) -> Option<Seq<WalkStep>>
    decreases count,
{
    if count == 0 {
        Some(Seq::empty())
    } else {
        match (
            walk_roots(children, roots, (count - 1) as nat, depth),
            walk(children, roots[count - 1], None, depth),
        ) {
            (Some(earlier), Some(last)) => Some(earlier + last),
            _ => None,
        }
    }
}

/// All nodes that are mentioned exist.
pub open spec fn nodes_exist(children: Seq<Seq<usize>>, roots: Seq<usize>) -> bool {
    &&& forall|i: int, j: int|
        0 <= i < children.len() && 0 <= j < children[i].len() ==> #[trigger] children[i][j]
            < children.len()
    &&& forall|i: int| 0 <= i < roots.len() ==> #[trigger] roots[i] < children.len()
}

fn walk_node(
    children: &Vec<Vec<usize>>,
    node: usize,
    parent: Option<usize>,
    depth: usize,
    out: &mut Vec<WalkStep>,
) -> (r: bool)
    requires
        nodes_exist(child_lists(children@), Seq::empty()),
        node < children@.len(),
    ensures
        r == (walk(child_lists(children@), node, parent, depth as nat) is Some),
        r ==> final(out)@ == old(out)@ + walk(
            child_lists(children@),
            node,
            parent,
            depth as nat,
        )->0,
    decreases depth,
{
    let ghost lists = child_lists(children@);
    if depth == 0 {
        return false;
    }
    let ghost before = out@;
    out.push(WalkStep { node, parent });
    let ghost start = out@;
    let mut i: usize = 0;
    assert(out@ =~= start + walk_children(lists, node, 0, (depth - 1) as nat)->0);
    while i < children[node].len()
        invariant
            depth > 0,
            node < children@.len(),
            lists == child_lists(children@),
            nodes_exist(lists, Seq::empty()),
            i <= lists[node as int].len(),
            walk_children(lists, node, i as nat, (depth - 1) as nat) is Some,
            out@ == start + walk_children(lists, node, i as nat, (depth - 1) as nat)->0,
        decreases lists[node as int].len() - i,
    {
        let child: usize = children[node][i];
        assert(lists[node as int][i as int] == child);
        let ghost so_far = out@;
        let done = walk_node(children, child, Some(node), depth - 1, out);
        if !done {
            proof {
                lemma_walk_children_stops(
                    lists,
                    node,
                    i as nat + 1,
                    lists[node as int].len(),
                    (depth - 1) as nat,
                );
            }
            return false;
        }
        i = i + 1;
        assert(out@ =~= start + walk_children(lists, node, i as nat, (depth - 1) as nat)->0);
    }
    assert(out@ =~= before + walk(lists, node, parent, depth as nat)->0);
    true
}

proof fn lemma_walk_children_stops(
    children: Seq<Seq<usize>>,
    node: usize,
    few: nat,
    many: nat,
    depth: nat,
)
    requires
        few <= many,
        walk_children(children, node, few, depth) is None,
    ensures
        walk_children(children, node, many, depth) is None,
    decreases many,
{
    if few < many {
        lemma_walk_children_stops(children, node, few, (many - 1) as nat, depth);
    }
}

proof fn lemma_walk_roots_stops(
    children: Seq<Seq<usize>>,
    roots: Seq<usize>,
    few: nat,
    many: nat,
    depth: nat,
)
    requires
        few <= many,
        walk_roots(children, roots, few, depth) is None,
    ensures
        walk_roots(children, roots, many, depth) is None,
    decreases many,
{
    if few < many {
        lemma_walk_roots_stops(children, roots, few, (many - 1) as nat, depth);
    }
}

/// Lists the nodes of a scene in the order in which they take on their transforms. There is no
/// such order if nodes go deeper than there are nodes, that is if some node is below itself.
pub fn walk_transform(children: &Vec<Vec<usize>>, roots: &Vec<usize>) -> (r: Option<Vec<WalkStep>>)
    requires
        nodes_exist(child_lists(children@), roots@),
    ensures
        match r {
            Some(steps) => walk_roots(
                child_lists(children@),
                roots@,
                roots@.len(),
                children@.len(),
            ) == Some(steps@),
            None => walk_roots(child_lists(children@), roots@, roots@.len(), children@.len())
                is None,
        },
{
    let ghost lists = child_lists(children@);
    let mut out: Vec<WalkStep> = Vec::new();
    let mut i: usize = 0;
    assert(out@ =~= walk_roots(lists, roots@, 0, children@.len())->0);
    while i < roots.len()
        invariant
            lists == child_lists(children@),
            nodes_exist(lists, roots@),
            i <= roots@.len(),
            walk_roots(lists, roots@, i as nat, children@.len()) is Some,
            out@ == walk_roots(lists, roots@, i as nat, children@.len())->0,
        decreases roots@.len() - i,
    {
        let done = walk_node(children, roots[i], None, children.len(), &mut out);
        if !done {
            proof {
                lemma_walk_roots_stops(
                    lists,
                    roots@,
                    i as nat + 1,
                    roots@.len(),
                    children@.len(),
                );
            }
            return None;
        }
        i = i + 1;
    }
    Some(out)
}

/// Every step but those on top builds on a step before it, for a node that it is a child of.
/// Those on top build on the given parent.
pub open spec fn in_order(
    children: Seq<Seq<usize>>,
    steps: Seq<WalkStep>,
    top: Option<usize>,
) -> bool {
    forall|k: int|
        0 <= k < steps.len() ==> match (#[trigger] steps[k]).parent {
            None => top is None,
            Some(p) => {
                &&& children[p as int].contains(steps[k].node)
                &&& top == Some(p) || exists|j: int| 0 <= j < k && (#[trigger] steps[j]).node == p
            },
        }
}

/// Every child of a node that is walked over is walked over after it.
pub open spec fn complete(children: Seq<Seq<usize>>, steps: Seq<WalkStep>) -> bool {
    forall|k: int, c: int|
        #![trigger steps[k], children[steps[k].node as int][c]]
        0 <= k < steps.len() && 0 <= c < children[steps[k].node as int].len() ==> exists|m: int|
            k < m < steps.len() && #[trigger] steps[m] == (WalkStep {
                node: children[steps[k].node as int][c],
                parent: Some(steps[k].node),
            })
}

/// The first children of a node have been walked over.
spec fn children_walked(
    children: Seq<Seq<usize>>,
    node: usize,
    count: nat,
    steps: Seq<WalkStep>,
) -> bool {
    forall|c: int|
        #![trigger children[node as int][c]]
        0 <= c < count ==> exists|m: int|
            0 <= m < steps.len() && #[trigger] steps[m] == (WalkStep {
                node: children[node as int][c],
                parent: Some(node),
            })
}

proof fn lemma_in_order_concat(
    children: Seq<Seq<usize>>,
    a: Seq<WalkStep>,
    b: Seq<WalkStep>,
    top: Option<usize>,
)
    requires
        in_order(children, a, top),
        in_order(children, b, top),
        complete(children, a),
        complete(children, b),
    ensures
        in_order(children, a + b, top),
        complete(children, a + b),
{
    let steps = a + b;
    assert forall|k: int| 0 <= k < steps.len() implies match (#[trigger] steps[k]).parent {
        None => top is None,
        Some(p) => {
            &&& children[p as int].contains(steps[k].node)
            &&& top == Some(p) || exists|j: int| 0 <= j < k && (#[trigger] steps[j]).node == p
        },
    } by {
        if k < a.len() {
            assert(steps[k] == a[k]);
            if let Some(p) = a[k].parent {
                if top != Some(p) {
                    let j = choose|j: int| 0 <= j < k && (#[trigger] a[j]).node == p;
                    assert(steps[j].node == p);
                }
            }
        } else {
            let l = k - a.len();
            assert(steps[k] == b[l]);
            if let Some(p) = b[l].parent {
                if top != Some(p) {
                    let j = choose|j: int| 0 <= j < l && (#[trigger] b[j]).node == p;
                    assert(steps[j + a.len()].node == p);
                }
            }
        }
    }
    assert forall|k: int, c: int|
        #![trigger steps[k], children[steps[k].node as int][c]]
        0 <= k < steps.len() && 0 <= c < children[steps[k].node as int].len() implies exists|m: int|
        k < m < steps.len() && #[trigger] steps[m] == (WalkStep {
            node: children[steps[k].node as int][c],
            parent: Some(steps[k].node),
        }) by {
        let child = WalkStep {
            node: children[steps[k].node as int][c],
            parent: Some(steps[k].node),
        };
        if k < a.len() {
            assert(steps[k] == a[k]);
            let m = choose|m: int| k < m < a.len() && #[trigger] a[m] == child;
            assert(steps[m] == child);
        } else {
            let l = k - a.len();
            assert(steps[k] == b[l]);
            let m = choose|m: int| l < m < b.len() && #[trigger] b[m] == child;
            assert(steps[m + a.len()] == child);
        }
    }
}

proof fn lemma_node_on_top(
    children: Seq<Seq<usize>>,
    node: usize,
    parent: Option<usize>,
    below: Seq<WalkStep>,
)
    requires
        in_order(children, below, Some(node)),
        match parent {
            Some(p) => children[p as int].contains(node),
            None => true,
        },
    ensures
        in_order(children, seq![WalkStep { node, parent }] + below, parent),
{
    let steps = seq![WalkStep { node, parent }] + below;
    assert(steps[0] == WalkStep { node, parent });
    assert forall|k: int| 0 <= k < steps.len() implies match (#[trigger] steps[k]).parent {
        None => parent is None,
        Some(p) => {
            &&& children[p as int].contains(steps[k].node)
            &&& parent == Some(p) || exists|j: int| 0 <= j < k && (#[trigger] steps[j]).node == p
        },
    } by {
        if k > 0 {
            assert(steps[k] == below[k - 1]);
            if let Some(p) = below[k - 1].parent {
                if p == node {
                    assert(steps[0].node == p);
                } else {
                    let j = choose|j: int| 0 <= j < k - 1 && (#[trigger] below[j]).node == p;
                    assert(steps[j + 1].node == p);
                }
            }
        }
    }
}

proof fn lemma_node_complete(
    children: Seq<Seq<usize>>,
    node: usize,
    parent: Option<usize>,
    below: Seq<WalkStep>,
)
    requires
        complete(children, below),
        children_walked(children, node, children[node as int].len(), below),
    ensures
        complete(children, seq![WalkStep { node, parent }] + below),
{
    let steps = seq![WalkStep { node, parent }] + below;
    assert forall|k: int, c: int|
        #![trigger steps[k], children[steps[k].node as int][c]]
        0 <= k < steps.len() && 0 <= c < children[steps[k].node as int].len() implies exists|m: int|
        k < m < steps.len() && #[trigger] steps[m] == (WalkStep {
            node: children[steps[k].node as int][c],
            parent: Some(steps[k].node),
        }) by {
        let child = WalkStep {
            node: children[steps[k].node as int][c],
            parent: Some(steps[k].node),
        };
        if k == 0 {
            let m = choose|m: int| 0 <= m < below.len() && #[trigger] below[m] == child;
            assert(steps[m + 1] == child);
        } else {
            assert(steps[k] == below[k - 1]);
            let m = choose|m: int| k - 1 < m < below.len() && #[trigger] below[m] == child;
            assert(steps[m + 1] == child);
        }
    }
}

proof fn lemma_walk(
    children: Seq<Seq<usize>>,
    node: usize,
    parent: Option<usize>,
    depth: nat,
)
    requires
        walk(children, node, parent, depth) is Some,
        match parent {
            Some(p) => children[p as int].contains(node),
            None => true,
        },
    ensures
        ({
            let steps = walk(children, node, parent, depth)->0;
            &&& steps.len() > 0
            &&& steps[0] == WalkStep { node, parent }
            &&& in_order(children, steps, parent)
            &&& complete(children, steps)
        }),
    decreases depth, 0nat,
{
    let count = children[node as int].len();
    lemma_walk_children(children, node, count, (depth - 1) as nat);
    let below = walk_children(children, node, count, (depth - 1) as nat)->0;
    lemma_node_on_top(children, node, parent, below);
    lemma_node_complete(children, node, parent, below);
}

proof fn lemma_walk_children(children: Seq<Seq<usize>>, node: usize, count: nat, depth: nat)
    requires
        walk_children(children, node, count, depth) is Some,
        count <= children[node as int].len(),
    ensures
        in_order(
            children,
            walk_children(children, node, count, depth)->0,
            Some(node),
        ),
        complete(children, walk_children(children, node, count, depth)->0),
        children_walked(
            children,
            node,
            count,
            walk_children(children, node, count, depth)->0,
        ),
    decreases depth, count + 1,
{
    if count > 0 {
        let earlier = walk_children(children, node, (count - 1) as nat, depth)->0;
        let child = children[node as int][count - 1];
        let last = walk(children, child, Some(node), depth)->0;
        lemma_walk_children(children, node, (count - 1) as nat, depth);
        assert(children[node as int].contains(child));
        lemma_walk(children, child, Some(node), depth);
        lemma_in_order_concat(children, earlier, last, Some(node));
        let steps = earlier + last;
        assert forall|c: int|
            #![trigger children[node as int][c]]
            0 <= c < count implies exists|m: int|
            0 <= m < steps.len() && #[trigger] steps[m] == (WalkStep {
                node: children[node as int][c],
                parent: Some(node),
            }) by {
            let wanted = WalkStep { node: children[node as int][c], parent: Some(node) };
            if c < count - 1 {
                let m = choose|m: int| 0 <= m < earlier.len() && #[trigger] earlier[m] == wanted;
                assert(steps[m] == wanted);
            } else {
                assert(steps[earlier.len() as int] == last[0]);
            }
        }
    }
}

/// Each node takes on its transform after the one that it builds on, which is its parent's, and
/// no node of the scene is left out: every root is walked over, and every child of a node that is.
pub proof fn law_walk_follows_tree(
    children: Seq<Seq<usize>>,
    roots: Seq<usize>,
    count: nat,
    depth: nat,
)
    requires
        walk_roots(children, roots, count, depth) is Some,
        count <= roots.len(),
    ensures
        ({
            let steps = walk_roots(children, roots, count, depth)->0;
            &&& in_order(children, steps, None)
            &&& complete(children, steps)
            &&& forall|i: int|
                0 <= i < count ==> steps.contains(
                    WalkStep { node: #[trigger] roots[i], parent: None },
                )
        }),
    decreases count,
{
    if count > 0 {
        let earlier = walk_roots(children, roots, (count - 1) as nat, depth)->0;
        let last = walk(children, roots[count - 1], None, depth)->0;
        law_walk_follows_tree(children, roots, (count - 1) as nat, depth);
        lemma_walk(children, roots[count - 1], None, depth);
        lemma_in_order_concat(children, earlier, last, None);
        let steps = earlier + last;
        assert forall|i: int| 0 <= i < count implies steps.contains(
            WalkStep { node: #[trigger] roots[i], parent: None },
        ) by {
            let wanted = WalkStep { node: roots[i], parent: None };
            if i < count - 1 {
                let m = choose|m: int| 0 <= m < earlier.len() && earlier[m] == wanted;
                assert(steps[m] == wanted);
            } else {
                assert(steps[earlier.len() as int] == last[0]);
            }
        }
    }
}

/// Nodes can be ranked so that each is above its children: no node is below itself.
pub open spec fn ranked(children: Seq<Seq<usize>>, rank: spec_fn(usize) -> nat) -> bool {
    forall|i: usize, j: int|
        #![trigger children[i as int][j]]
        i < children.len() && 0 <= j < children[i as int].len() ==> rank(children[i as int][j])
            < rank(i)
}

proof fn lemma_walk_ends(
    children: Seq<Seq<usize>>,
    rank: spec_fn(usize) -> nat,
    node: usize,
    parent: Option<usize>,
    depth: nat,
)
    requires
        nodes_exist(children, Seq::empty()),
        ranked(children, rank),
        node < children.len(),
        rank(node) < depth,
    ensures
        walk(children, node, parent, depth) is Some,
    decreases depth, 0nat,
{
    lemma_walk_children_ends(
        children,
        rank,
        node,
        children[node as int].len(),
        (depth - 1) as nat,
    );
}

proof fn lemma_walk_children_ends(
    children: Seq<Seq<usize>>,
    rank: spec_fn(usize) -> nat,
    node: usize,
    count: nat,
    depth: nat,
)
    requires
        nodes_exist(children, Seq::empty()),
        ranked(children, rank),
        node < children.len(),
        count <= children[node as int].len(),
        rank(node) <= depth,
    ensures
        walk_children(children, node, count, depth) is Some,
    decreases depth, count + 1,
{
    if count > 0 {
        lemma_walk_children_ends(children, rank, node, (count - 1) as nat, depth);
        let child = children[node as int][count - 1];
        assert(rank(child) < rank(node));
        lemma_walk_ends(children, rank, child, Some(node), depth);
    }
}

/// A scene in which no node is below itself can be walked.
pub proof fn law_walk_of_tree_ends(
    children: Seq<Seq<usize>>,
    roots: Seq<usize>,
    count: nat,
    rank: spec_fn(usize) -> nat,
)
    requires
        nodes_exist(children, roots),
        ranked(children, rank),
        forall|i: usize| i < children.len() ==> #[trigger] rank(i) < children.len(),
        count <= roots.len(),
    ensures
        walk_roots(children, roots, count, children.len()) is Some,
    decreases count,
{
    if count > 0 {
        law_walk_of_tree_ends(children, roots, (count - 1) as nat, rank);
        assert(roots[count - 1] < children.len());
        lemma_walk_ends(children, rank, roots[count - 1], None, children.len());
    }
}

/// Vertices take up as many bytes as the pipelines step over.
pub proof fn law_vertices_have_stride(vertices: Seq<VertexData>)
    ensures
        4 * vertices_words(vertices).len() == VERTEX_STRIDE * vertices.len(),
    decreases vertices.len(),
{
    if vertices.len() > 0 {
        law_vertices_have_stride(vertices.drop_last());
    }
}

/// The attributes that the pipelines read lie where the vertex has them.
pub proof fn law_attributes_find_fields(vertex: VertexData)
    ensures
        ({
            let at = |i: int| vertex_attributes()[i].offset as int / 4;
            let words = vertex.words();
            &&& words.subrange(at(0), at(1)) == vertex.position@
            &&& words.subrange(at(1), at(2)) == vertex.normal@
            &&& words.subrange(at(2), at(3)) == vertex.tangent@
            &&& words.subrange(at(3), at(4)) == vertex.color@
            &&& words.subrange(at(4), words.len() as int) == vertex.uv@
        }),
{
    let words = vertex.words();
    assert(words.subrange(0, 3) =~= vertex.position@);
    assert(words.subrange(3, 6) =~= vertex.normal@);
    assert(words.subrange(6, 10) =~= vertex.tangent@);
    assert(words.subrange(10, 13) =~= vertex.color@);
    assert(words.subrange(13, 15) =~= vertex.uv@);
}


/// The shaders find the attributes of every vertex at their places among the words.
pub proof fn law_shaders_find_vertices(vertices: Seq<VertexData>, i: int, k: int)
    requires
        0 <= i < vertices.len(),
        0 <= k < 15,
    ensures
        ({
            let words = vertices_words(vertices);
            let v = vertices[i];
            &&& words.len() == 15 * vertices.len()
            &&& k < 3 ==> words[15 * i + k] == v.position@[k]
            &&& 3 <= k < 6 ==> words[15 * i + k] == v.normal@[k - 3]
            &&& 6 <= k < 10 ==> words[15 * i + k] == v.tangent@[k - 6]
            &&& 10 <= k < 13 ==> words[15 * i + k] == v.color@[k - 10]
            &&& 13 <= k ==> words[15 * i + k] == v.uv@[k - 13]
        }),
    decreases vertices.len(),
{
    let earlier = vertices.drop_last();
    if earlier.len() > 0 {
        law_shaders_find_vertices(
            earlier,
            if i < earlier.len() {
                i
            } else {
                0
            },
            k,
        );
    } else {
        assert(vertices_words(earlier).len() == 0);
    }
}

/// A primitive has as many vertices as the shortest of its attributes, of those that it has.
pub proof fn law_vertices_are_whole(source: PrimitiveSource)
    ensures
        ({
            let count = source.vertex_count();
            &&& count <= source.positions@.len()
            &&& count <= source.normals@.len()
            &&& source.tangents matches Some(tangents) ==> count <= tangents@.len()
            &&& source.colors matches Some(colors) ==> count <= colors@.len()
            &&& source.tex_coords matches Some(tex_coords) ==> count <= tex_coords@.len()
            &&& {
                ||| count == source.positions@.len()
                ||| count == source.normals@.len()
                ||| source.tangents matches Some(tangents) && count == tangents@.len()
                ||| source.colors matches Some(colors) && count == colors@.len()
                ||| source.tex_coords matches Some(tex_coords) && count == tex_coords@.len()
            }
        }),
{
}

/// Every vertex has the attributes of its own place: its position, its normal, and of the others
/// those that the primitive has. Without tangents it gets one along x, without colours white, and
/// without texture coordinates the origin.
pub proof fn law_vertices_take_attributes(
    source: PrimitiveSource,
    vertices: Seq<VertexData>,
    i: int,
)
    requires
        source.are_vertices(vertices),
        0 <= i < vertices.len(),
    ensures
        vertices[i].position == source.positions@[i],
        vertices[i].normal == source.normals@[i],
        match source.tangents {
            Some(tangents) => vertices[i].tangent == tangents@[i],
            None => {
                let tangent = vertices[i].tangent@;
                &&& tangent[0] == vk::F32_ONE && tangent[1] == vk::F32_ZERO
                &&& tangent[2] == vk::F32_ZERO && tangent[3] == vk::F32_ONE
            },
        },
        match source.colors {
            Some(colors) => vertices[i].color == colors@[i],
            None => forall|k: int| 0 <= k < 3 ==> #[trigger] vertices[i].color@[k] == vk::F32_ONE,
        },
        match source.tex_coords {
            Some(tex_coords) => vertices[i].uv == tex_coords@[i],
            None => forall|k: int| 0 <= k < 2 ==> #[trigger] vertices[i].uv@[k] == vk::F32_ZERO,
        },
{
    assert(source.is_vertex(i, vertices[i]));
}

/// The corners of a box: the first is the smallest and the last the largest, and each has an
/// opposite in x, one in y and one in z, from which it differs in that direction alone.
pub proof fn law_box_corners_span_box(min: Seq<u32>, max: Seq<u32>, corner: int)
    requires
        min.len() == 3,
        max.len() == 3,
        0 <= corner < 8,
    ensures
        box_corner(min, max, 0) == min,
        box_corner(min, max, 7) == max,
        corner < 4 ==> {
            let (here, next) = (box_corner(min, max, corner), box_corner(min, max, corner + 4));
            &&& here[0] == min[0] && next[0] == max[0]
            &&& here[1] == next[1] && here[2] == next[2]
        },
        corner == 0 || corner == 1 || corner == 4 || corner == 5 ==> {
            let (here, next) = (box_corner(min, max, corner), box_corner(min, max, corner + 2));
            &&& here[1] == min[1] && next[1] == max[1]
            &&& here[0] == next[0] && here[2] == next[2]
        },
        corner == 0 || corner == 2 || corner == 4 || corner == 6 ==> {
            let (here, next) = (box_corner(min, max, corner), box_corner(min, max, corner + 1));
            &&& here[2] == min[2] && next[2] == max[2]
            &&& here[0] == next[0] && here[1] == next[1]
        },
{
    assert(box_corner(min, max, 0) =~= min);
    assert(box_corner(min, max, 7) =~= max);
}

/// The children of the nodes of a walk, counted for every time that it comes to them.
pub open spec fn children_met(children: Seq<Seq<usize>>, steps: Seq<WalkStep>) -> nat
    decreases steps.len(),
{
    if steps.len() == 0 {
        0
    } else {
        children_met(children, steps.drop_last()) + children[steps.last().node as int].len()
    }
}

proof fn lemma_children_met(children: Seq<Seq<usize>>, a: Seq<WalkStep>, b: Seq<WalkStep>)
    ensures
        children_met(children, a + b) == children_met(children, a) + children_met(children, b),
    decreases b.len(),
{
    if b.len() == 0 {
        assert(a + b =~= a);
    } else {
        lemma_children_met(children, a, b.drop_last());
        assert((a + b).drop_last() =~= a + b.drop_last());
    }
}

proof fn lemma_walk_counts(
    children: Seq<Seq<usize>>,
    node: usize,
    parent: Option<usize>,
    depth: nat,
)
    ensures
        walk(children, node, parent, depth) matches Some(steps) ==> {
            &&& steps.len() == 1 + children_met(children, steps)
            &&& steps[0] == (WalkStep { node, parent })
        },
    decreases depth, 0nat,
{
    if depth > 0 && walk(children, node, parent, depth) is Some {
        let count = children[node as int].len();
        lemma_walk_children_counts(children, node, count, (depth - 1) as nat);
        let below = walk_children(children, node, count, (depth - 1) as nat)->0;
        let first = seq![WalkStep { node, parent }];
        lemma_children_met(children, first, below);
        assert(first.drop_last() =~= Seq::empty());
        assert(children_met(children, first.drop_last()) == 0);
        assert(children_met(children, first) == count);
    }
}

proof fn lemma_walk_children_counts(
    children: Seq<Seq<usize>>,
    node: usize,
    count: nat,
    depth: nat,
)
    ensures
        walk_children(children, node, count, depth) matches Some(steps) ==> steps.len() == count
            + children_met(children, steps),
    decreases depth, count + 1,
{
    if count > 0 && walk_children(children, node, count, depth) is Some {
        let last = children[node as int][count - 1];
        lemma_walk_children_counts(children, node, (count - 1) as nat, depth);
        lemma_walk_counts(children, last, Some(node), depth);
        lemma_children_met(
            children,
            walk_children(children, node, (count - 1) as nat, depth)->0,
            walk(children, last, Some(node), depth)->0,
        );
    }
}

/// The walk comes to nothing more often than it has to: once to each root, and once to each child
/// for every time that it comes to the parent.
pub proof fn law_walk_repeats_nothing(
    children: Seq<Seq<usize>>,
    roots: Seq<usize>,
    count: nat,
    depth: nat,
)
    requires
        count <= roots.len(),
    ensures
        walk_roots(children, roots, count, depth) matches Some(steps) ==> steps.len() == count
            + children_met(children, steps),
    decreases count,
{
    if count > 0 && walk_roots(children, roots, count, depth) is Some {
        law_walk_repeats_nothing(children, roots, (count - 1) as nat, depth);
        lemma_walk_counts(children, roots[count - 1], None, depth);
        lemma_children_met(
            children,
            walk_roots(children, roots, (count - 1) as nat, depth)->0,
            walk(children, roots[count - 1], None, depth)->0,
        );
    }
}


/// The walk comes to the trees of a scene one after the other, and within a node to the trees of its
/// children one after the other, in the order in which they are listed, each from its top.
pub proof fn law_walk_keeps_order(
    children: Seq<Seq<usize>>,
    roots: Seq<usize>,
    node: usize,
    parent: Option<usize>,
    few: nat,
    many: nat,
    depth: nat,
)
    requires
        few < many,
        many <= roots.len(),
    ensures
        walk_roots(children, roots, many, depth) matches Some(steps) ==> {
            let earlier = walk_roots(children, roots, few, depth);
            &&& earlier is Some
            &&& earlier->0.len() < steps.len()
            &&& steps.take(earlier->0.len() as int) == earlier->0
            &&& steps[earlier->0.len() as int] == (WalkStep {
                node: roots[few as int],
                parent: None,
            })
        },
        many <= children[node as int].len() ==> {
            walk_children(children, node, many, depth) matches Some(steps) ==> {
                let earlier = walk_children(children, node, few, depth);
                &&& earlier is Some
                &&& earlier->0.len() < steps.len()
                &&& steps.take(earlier->0.len() as int) == earlier->0
                &&& steps[earlier->0.len() as int] == (WalkStep {
                    node: children[node as int][few as int],
                    parent: Some(node),
                })
            }
        },
        walk(children, node, parent, depth) matches Some(steps) ==> {
            &&& steps[0] == (WalkStep { node, parent })
            &&& depth > 0
            &&& walk_children(
                children,
                node,
                children[node as int].len(),
                (depth - 1) as nat,
            ) == Some(steps.skip(1))
        },
    decreases many,
{
    lemma_walk_counts(children, node, parent, depth);
    if walk(children, node, parent, depth) is Some {
        let below = walk_children(
            children,
            node,
            children[node as int].len(),
            (depth - 1) as nat,
        )->0;
        assert((seq![WalkStep { node, parent }] + below).skip(1) =~= below);
    }
    let last = (many - 1) as nat;
    lemma_walk_counts(children, roots[last as int], None, depth);
    lemma_walk_counts(children, children[node as int][last as int], Some(node), depth);
    if few < last {
        law_walk_keeps_order(children, roots, node, parent, few, last, depth);
    }
    if let Some(steps) = walk_roots(children, roots, many, depth) {
        let most = walk_roots(children, roots, last, depth)->0;
        assert(steps.take(most.len() as int) =~= most);
        let earlier = walk_roots(children, roots, few, depth)->0;
        assert(steps.take(earlier.len() as int) =~= most.take(earlier.len() as int));
    }
    if let Some(steps) = walk_children(children, node, many, depth) {
        let most = walk_children(children, node, last, depth)->0;
        assert(steps.take(most.len() as int) =~= most);
        let earlier = walk_children(children, node, few, depth)->0;
        if many <= children[node as int].len() {
            assert(steps.take(earlier.len() as int) =~= most.take(earlier.len() as int));
        }
    }
}

} // verus!
