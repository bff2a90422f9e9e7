//! The shell: layers along the sides of the screen, a wallpaper, and a tree
//! of containers that divide the main area among the normal surfaces.

use vstd::prelude::*;

use crate::protocol::SurfaceId;
use crate::types::side::Side;
use crate::wm::surfaces::{find, spec_ids, Surface};

verus! {

/// The largest number of children that a container can have: their indices
/// are bytes.
pub const MAX_CHILDREN: usize = 256;

/// A surface anchored to one side of the screen.
#[derive(Debug, Clone, Copy, PartialEq, Eq, Structural)]
pub struct ShellLayer {
    /// The side, after the global rotation has been applied.
    pub anchor: Side,
    /// The width of the band.
    pub size: i32,
    pub surface: SurfaceId,
}

/// The direction in which a container lays out its children.
#[derive(Debug, Clone, Copy, PartialEq, Eq, Structural)]
pub enum ContainerKind {
    Horizontal,
    Vertical,
}

/// An inner node of the tree: it divides its rectangle among its children.
#[derive(Debug)]
pub struct Container {
    pub kind: ContainerKind,
    pub children: Vec<ShellNode>,
}

/// A node of the tree.
#[derive(Debug)]
pub enum ShellNode {
    Container(Container),
    Surface(SurfaceId),
}

/// A node of the tree as a mathematical value.
pub enum NodeView {
    Container { kind: ContainerKind, children: Seq<NodeView> },
    Surface(SurfaceId),
}

/// The views of a list of nodes.
pub open spec fn spec_views(nodes: Seq<ShellNode>) -> Seq<NodeView>
    decreases nodes,
{
    if nodes.len() == 0 {
        Seq::empty()
    } else {
        spec_views(nodes.drop_last()).push(nodes.last()@)
    }
}

impl View for ShellNode {
    type V = NodeView;

    open spec fn view(&self) -> NodeView
        decreases self,
    {
        match self {
            ShellNode::Container(container) => NodeView::Container {
                kind: container.kind,
                children: spec_views(container.children@),
            },
            ShellNode::Surface(id) => NodeView::Surface(*id),
        }
    }
}

/// The views of a list of nodes, element by element.
pub proof fn lemma_views(nodes: Seq<ShellNode>)
    ensures
        spec_views(nodes).len() == nodes.len(),
        forall|i: int| 0 <= i < nodes.len() ==> (#[trigger] spec_views(nodes)[i]) == nodes[i]@,
    decreases nodes.len(),
{
    reveal_with_fuel(spec_views, 2);
    if nodes.len() > 0 {
        lemma_views(nodes.drop_last());
    }
}

/// Every container of the list, at any depth, and the list itself has at
/// least one child and no more than `MAX_CHILDREN`.
pub open spec fn spec_wf(children: Seq<NodeView>) -> bool
    decreases children,
{
    &&& 1 <= children.len() <= MAX_CHILDREN
    &&& forall|i: int|
        0 <= i < children.len() ==> match #[trigger] children[i] {
            NodeView::Container { children: inner, .. } => spec_wf(inner),
            NodeView::Surface(_) => true,
        }
}

/// The surfaces of the list in the order of the walk: child by child, each
/// container with all that it holds before the next child.
pub open spec fn spec_surfaces(children: Seq<NodeView>) -> Seq<SurfaceId>
    decreases children,
{
    if children.len() == 0 {
        Seq::empty()
    } else {
        spec_surfaces(children.drop_last()) + (match children.last() {
            NodeView::Container { children: inner, .. } => spec_surfaces(inner),
            NodeView::Surface(id) => seq![id],
        })
    }
}

/// The surface that `path` leads to: `path` holds one index per level. A
/// path that ends at a container, runs past a surface or holds an index
/// that no child has leads to nothing.
pub open spec fn spec_get_path(children: Seq<NodeView>, path: Seq<u8>) -> Option<SurfaceId>
    decreases path.len(),
{
    if path.len() == 0 || path[0] >= children.len() {
        None
    } else {
        match children[path[0] as int] {
            NodeView::Container { children: inner, .. } => spec_get_path(inner, path.skip(1)),
            NodeView::Surface(id) => if path.len() == 1 {
                Some(id)
            } else {
                None
            },
        }
    }
}

/// The path repaired from level `i` on, so that it leads to a surface: an
/// index that no child has becomes that of the last child; a path that runs
/// past a surface is cut off; one that ends at a container goes on to first
/// children.
pub open spec fn spec_fix_path(children: Seq<NodeView>, path: Seq<u8>, i: int) -> Seq<u8>
    decreases children,
{
    let extended = if i < path.len() {
        path
    } else {
        path.push(0)
    };
    let clamped = if extended[i] < children.len() {
        extended
    } else {
        extended.update(i, (children.len() - 1) as u8)
    };
    if 1 <= children.len() <= MAX_CHILDREN && 0 <= i <= path.len() {
        match children[clamped[i] as int] {
            NodeView::Container { children: inner, .. } => spec_fix_path(inner, clamped, i + 1),
            NodeView::Surface(_) => clamped.take(i + 1),
        }
    } else {
        path
    }
}

/// The list without the surfaces that are not in `keep`, and without the
/// containers that are left with no child.
pub open spec fn spec_retain(children: Seq<NodeView>, keep: Set<SurfaceId>) -> Seq<NodeView>
    decreases children,
{
    if children.len() == 0 {
        Seq::empty()
    } else {
        let front = spec_retain(children.drop_last(), keep);
        match children.last() {
            NodeView::Container { kind, children: inner } => if spec_retain(inner, keep).len()
                > 0 {
                front.push(NodeView::Container { kind, children: spec_retain(inner, keep) })
            } else {
                front
            },
            NodeView::Surface(id) => if keep.contains(id) {
                front.push(NodeView::Surface(id))
            } else {
                front
            },
        }
    }
}

/// The list after a surface is appended to the container that `path` leads
/// to; the empty path is the list itself. A path that does not lead to a
/// container changes nothing.
pub open spec fn spec_push_at(children: Seq<NodeView>, path: Seq<u8>, id: SurfaceId) -> Seq<NodeView>
    decreases path.len(),
{
    if path.len() == 0 {
        children.push(NodeView::Surface(id))
    } else if path[0] >= children.len() {
        children
    } else {
        match children[path[0] as int] {
            NodeView::Container { kind, children: inner } => children.update(
                path[0] as int,
                NodeView::Container { kind, children: spec_push_at(inner, path.skip(1), id) },
            ),
            NodeView::Surface(_) => children,
        }
    }
}

/// The number of children of the container that `path` leads to, if it
/// leads to one.
pub open spec fn spec_len_at(children: Seq<NodeView>, path: Seq<u8>) -> Option<int>
    decreases path.len(),
{
    if path.len() == 0 {
        Some(children.len() as int)
    } else if path[0] >= children.len() {
        None
    } else {
        match children[path[0] as int] {
            NodeView::Container { children: inner, .. } => spec_len_at(inner, path.skip(1)),
            NodeView::Surface(_) => None,
        }
    }
}

/// A repaired path leads to a surface.
pub proof fn lemma_fixed_path_resolves(children: Seq<NodeView>, path: Seq<u8>, i: int)
    requires
        spec_wf(children),
        0 <= i <= path.len(),
    ensures
        spec_fix_path(children, path, i).len() > i,
        spec_fix_path(children, path, i).take(i) == path.take(i),
        spec_get_path(children, spec_fix_path(children, path, i).skip(i)).is_some(),
    decreases children,
{
    let extended = if i < path.len() {
        path
    } else {
        path.push(0)
    };
    let clamped = if extended[i] < children.len() {
        extended
    } else {
        extended.update(i, (children.len() - 1) as u8)
    };
    let fixed = spec_fix_path(children, path, i);
    match children[clamped[i] as int] {
        NodeView::Container { children: inner, .. } => {
            lemma_fixed_path_resolves(inner, clamped, i + 1);
            assert(fixed[i] == fixed.take(i + 1)[i]);
            assert(fixed.skip(i).skip(1) =~= fixed.skip(i + 1));
        },
        NodeView::Surface(_) => {},
    }
}

/// What is left after `spec_retain` is well formed unless it is empty, and
/// its surfaces are the surfaces of the list that are in `keep`, in their
/// order.
pub proof fn lemma_retain(children: Seq<NodeView>, keep: Set<SurfaceId>)
    requires
        children.len() <= MAX_CHILDREN,
        forall|i: int|
            0 <= i < children.len() ==> match #[trigger] children[i] {
                NodeView::Container { children: inner, .. } => spec_wf(inner),
                NodeView::Surface(_) => true,
            },
    ensures
        spec_retain(children, keep).len() <= children.len(),
        spec_retain(children, keep).len() > 0 ==> spec_wf(spec_retain(children, keep)),
        spec_surfaces(spec_retain(children, keep)) == spec_surfaces(children).filter(
            |id: SurfaceId| keep.contains(id),
        ),
    decreases children,
{
    let pred = |id: SurfaceId| keep.contains(id);
    if children.len() > 0 {
        let front = children.drop_last();
        lemma_retain(front, keep);
        let kept_front = spec_retain(front, keep);
        let kept = spec_retain(children, keep);
        let last_surfaces = match children.last() {
            NodeView::Container { children: inner, .. } => spec_surfaces(inner),
            NodeView::Surface(id) => seq![id],
        };
        Seq::filter_distributes_over_add(spec_surfaces(front), last_surfaces, pred);
        let last = children[children.len() - 1];
        match last {
            NodeView::Container { kind, children: inner } => {
                lemma_retain(inner, keep);
                let kept_inner = spec_retain(inner, keep);
                if kept_inner.len() > 0 {
                    let node = NodeView::Container { kind, children: kept_inner };
                    assert(kept == kept_front.push(node));
                    assert(kept.drop_last() =~= kept_front);
                    lemma_wf_push(kept_front, node);
                }
            },
            NodeView::Surface(id) => {
                reveal_with_fuel(Seq::filter, 2);
                if keep.contains(id) {
                    let node = NodeView::Surface(id);
                    assert(kept.drop_last() =~= kept_front);
                    lemma_wf_push(kept_front, node);
                }
            },
        }
    }
}

/// A well-formed list, or an empty one, with one more well-formed node is
/// well formed, as long as it is not too long.
pub proof fn lemma_wf_push(children: Seq<NodeView>, node: NodeView)
    requires
        children.len() < MAX_CHILDREN,
        children.len() > 0 ==> spec_wf(children),
        node matches NodeView::Container { children: inner, .. } ==> spec_wf(inner),
    ensures
        spec_wf(children.push(node)),
{
    let all = children.push(node);
}

/// Whether the surface `id` is the node or below it.
pub open spec fn spec_holds(node: NodeView, id: SurfaceId) -> bool {
    match node {
        NodeView::Container { children, .. } => spec_surfaces(children).contains(id),
        NodeView::Surface(surface) => surface == id,
    }
}

/// A surface is among those of a list exactly if one of the nodes holds it.
pub proof fn lemma_surfaces_member(children: Seq<NodeView>, id: SurfaceId)
    ensures
        spec_surfaces(children).contains(id) <==> exists|i: int|
            0 <= i < children.len() && spec_holds(#[trigger] children[i], id),
    decreases children.len(),
{
    if children.len() > 0 {
        let front = children.drop_last();
        let last = children.last();
        lemma_surfaces_member(front, id);
        let head = spec_surfaces(front);
        let tail = match last {
            NodeView::Container { children: inner, .. } => spec_surfaces(inner),
            NodeView::Surface(id) => seq![id],
        };
        lemma_contains_concat(head, tail, id);
        assert(tail.contains(id) <==> spec_holds(last, id)) by {
            if last is Surface {
                if tail.contains(id) {
                    let k = choose|k: int| 0 <= k < tail.len() && tail[k] == id;
                }
                if spec_holds(last, id) {
                    assert(tail[0] == id);
                }
            }
        }
        if spec_surfaces(children).contains(id) {
            if head.contains(id) {
                let i = choose|i: int| 0 <= i < front.len() && spec_holds(#[trigger] front[i], id);
            }
        }
        if exists|i: int| 0 <= i < children.len() && spec_holds(#[trigger] children[i], id) {
            let i = choose|i: int| 0 <= i < children.len() && spec_holds(#[trigger] children[i], id);
            if i < front.len() {
                assert(spec_holds(front[i], id));
            }
        }
    }
}

/// A value is in a concatenation exactly if it is in one of the two parts.
pub proof fn lemma_contains_concat<A>(a: Seq<A>, b: Seq<A>, x: A)
    ensures
        (a + b).contains(x) <==> a.contains(x) || b.contains(x),
{
    if (a + b).contains(x) {
        let k = choose|k: int| 0 <= k < (a + b).len() && (a + b)[k] == x;
    }
    if a.contains(x) {
        let k = choose|k: int| 0 <= k < a.len() && a[k] == x;
        assert((a + b)[k] == x);
    }
    if b.contains(x) {
        let k = choose|k: int| 0 <= k < b.len() && b[k] == x;
        assert((a + b)[a.len() + k] == x);
    }
}

/// A path that leads to a surface has a last index, and what comes before it
/// leads to the container that holds the surface.
pub proof fn lemma_parent_of_surface(children: Seq<NodeView>, path: Seq<u8>)
    requires
        spec_get_path(children, path).is_some(),
    ensures
        path.len() >= 1,
        spec_len_at(children, path.drop_last()).is_some(),
        path.last() < spec_len_at(children, path.drop_last()).unwrap(),
    decreases path.len(),
{
    if path.len() != 1 {
        match children[path[0] as int] {
            NodeView::Container { children: inner, .. } => {
                lemma_parent_of_surface(inner, path.skip(1));
                assert(path.drop_last().skip(1) =~= path.skip(1).drop_last());
            },
            NodeView::Surface(_) => {},
        }
    }
}

/// Appending a surface to a container that has room keeps the tree well
/// formed, and the path to the container followed by the index of the new
/// child leads to the surface.
pub proof fn lemma_push_at(children: Seq<NodeView>, path: Seq<u8>, id: SurfaceId)
    requires
        spec_wf(children),
        spec_len_at(children, path).is_some(),
        spec_len_at(children, path).unwrap() < MAX_CHILDREN,
    ensures
        spec_wf(spec_push_at(children, path, id)),
        spec_push_at(children, path, id).len() >= children.len(),
        spec_get_path(
            spec_push_at(children, path, id),
            path.push(spec_len_at(children, path).unwrap() as u8),
        ) == Some(id),
        spec_surfaces(spec_push_at(children, path, id)).to_multiset() == spec_surfaces(
            children,
        ).to_multiset().insert(id),
    decreases path.len(),
{
    let pushed = spec_push_at(children, path, id);
    let n = spec_len_at(children, path).unwrap();
    let full = path.push(n as u8);
    if path.len() == 0 {
        lemma_wf_push(children, NodeView::Surface(id));
        assert(pushed.drop_last() =~= children);
        vstd::seq_lib::lemma_multiset_commutative(spec_surfaces(children), seq![id]);
        assert(seq![id].to_multiset() =~= vstd::multiset::Multiset::singleton(id)) by {
            broadcast use vstd::seq_lib::group_to_multiset_ensures;

        }
    } else {
        let index = path[0] as int;
        match children[index] {
            NodeView::Container { kind, children: inner } => {
                lemma_push_at(inner, path.skip(1), id);
                let node = NodeView::Container {
                    kind,
                    children: spec_push_at(inner, path.skip(1), id),
                };
                assert(full.skip(1) =~= path.skip(1).push(n as u8));
                lemma_surfaces_update(children, index, node, id);
            },
            NodeView::Surface(_) => {},
        }
    }
}

/// The surfaces of a list in which one container gained the surface `id`.
pub proof fn lemma_surfaces_update(children: Seq<NodeView>, index: int, node: NodeView, id: SurfaceId)
    requires
        0 <= index < children.len(),
        children[index] is Container,
        node is Container,
        spec_surfaces(node->children).to_multiset() == spec_surfaces(
            children[index]->children,
        ).to_multiset().insert(id),
    ensures
        spec_surfaces(children.update(index, node)).to_multiset() == spec_surfaces(
            children,
        ).to_multiset().insert(id),
    decreases children.len(),
{
    let updated = children.update(index, node);
    let front = children.drop_last();
    let last_surfaces = match children.last() {
        NodeView::Container { children: inner, .. } => spec_surfaces(inner),
        NodeView::Surface(id) => seq![id],
    };
    vstd::seq_lib::lemma_multiset_commutative(spec_surfaces(front), last_surfaces);
    if index == children.len() - 1 {
        assert(updated.drop_last() =~= front);
        vstd::seq_lib::lemma_multiset_commutative(spec_surfaces(front), spec_surfaces(node->children));
    } else {
        lemma_surfaces_update(front, index, node, id);
        assert(updated.drop_last() =~= front.update(index, node));
        vstd::seq_lib::lemma_multiset_commutative(
            spec_surfaces(front.update(index, node)),
            last_surfaces,
        );
    }
}

impl Container {
    /// The children as mathematical values.
    pub open spec fn children_view(&self) -> Seq<NodeView> {
        spec_views(self.children@)
    }

    /// The container without the surfaces that are not in the table, and
    /// without the containers that this leaves empty; `None` if nothing is
    /// left of the container itself.
    pub fn retain(&self, surfaces: &Vec<Surface>) -> (kept: Option<Container>)
        ensures
            match kept {
                Some(container) => container.kind == self.kind && container.children_view()
                    == spec_retain(self.children_view(), spec_ids(surfaces@))
                    && container.children_view().len() > 0,
                None => spec_retain(self.children_view(), spec_ids(surfaces@)).len() == 0,
            },
        decreases self,
    {
        let ghost keep = spec_ids(surfaces@);
        let mut children: Vec<ShellNode> = Vec::new();
        let mut i: usize = 0;
        proof {
            lemma_views(self.children@);
        }
        while i < self.children.len()
            invariant
                i <= self.children.len(),
                keep == spec_ids(surfaces@),
                self.children_view().len() == self.children@.len(),
                forall|k: int|
                    0 <= k < self.children@.len() ==> (#[trigger] self.children_view()[k])
                        == self.children@[k]@,
                spec_views(children@) == spec_retain(self.children_view().take(i as int), keep),
            decreases self.children.len() - i,
        {
            proof {
                assert(self.children_view().take(i + 1).drop_last() =~= self.children_view().take(
                    i as int,
                ));
            }
            let ghost before = children@;
            proof {
                reveal_with_fuel(spec_views, 2);
                reveal_with_fuel(spec_retain, 2);
            }
            match &self.children[i] {
                ShellNode::Container(inner) => {
                    let ghost node_view = self.children@[i as int]@;
                    if let Some(kept_inner) = inner.retain(surfaces) {
                        let node = ShellNode::Container(kept_inner);
                        children.push(node);
                        proof {
                            assert(children@.drop_last() =~= before);
                        }
                    }
                },
                ShellNode::Surface(id) => {
                    if find(surfaces, *id).is_some() {
                        children.push(ShellNode::Surface(*id));
                        proof {
                            assert(children@.drop_last() =~= before);
                        }
                    }
                },
            }
            i = i + 1;
        }
        proof {
            assert(self.children_view().take(i as int) =~= self.children_view());
            lemma_views(children@);
        }
        if children.len() == 0 {
            None
        } else {
            Some(Container { kind: self.kind, children })
        }
    }

    /// Repairs `path` from level `i` on, so that it leads to a surface.
    pub fn fix_path(&self, path: &mut Vec<u8>, i: usize)
        requires
            spec_wf(self.children_view()),
            i <= old(path)@.len(),
        ensures
            final(path)@ == spec_fix_path(self.children_view(), old(path)@, i as int),
        decreases self,
    {
        proof {
            lemma_views(self.children@);
        }
        if i >= path.len() {
            // Arbitrary choice.
            path.push(0);
        }
        if path[i] as usize >= self.children.len() {
            // Containers have at least one item.
            path[i] = (self.children.len() - 1) as u8;
        }
        let depth = path.len();
        let index = path[i] as usize;
        proof {
            assert(self.children_view()[index as int] == self.children@[index as int]@);
        }
        match &self.children[index] {
            ShellNode::Surface(_) => {
                path.truncate(i + 1);
            },
            ShellNode::Container(container) => {
                container.fix_path(path, i + 1);
            },
        }
    }

    /// The surface that the rest of `path` from level `i` on leads to.
    pub fn get_path(&self, path: &[u8], i: usize) -> (found: Option<SurfaceId>)
        requires
            i <= path@.len(),
        ensures
            found == spec_get_path(self.children_view(), path@.skip(i as int)),
        decreases path@.len() - i,
    {
        proof {
            lemma_views(self.children@);
        }
        if i >= path.len() {
            // Path is not deep enough.
            return None;
        }
        let index = path[i] as usize;
        proof {
            assert(path@.skip(i as int).skip(1) =~= path@.skip(i + 1));
        }
        if index >= self.children.len() {
            return None;
        }
        match &self.children[index] {
            ShellNode::Container(container) => container.get_path(path, i + 1),
            // If `None`, path is too deep.
            ShellNode::Surface(id) => if i + 1 == path.len() {
                Some(*id)
            } else {
                None
            },
        }
    }

    /// The number of children of the container that the levels `i` to `end`
    /// of `path` lead to, if they lead to one.
    pub fn len_at(&self, path: &[u8], i: usize, end: usize) -> (len: Option<usize>)
        requires
            i <= end <= path@.len(),
        ensures
            len.is_some() == spec_len_at(
                self.children_view(),
                path@.subrange(i as int, end as int),
            ).is_some(),
            len matches Some(n) ==> spec_len_at(
                self.children_view(),
                path@.subrange(i as int, end as int),
            ) == Some(n as int),
        decreases end - i,
    {
        proof {
            lemma_views(self.children@);
        }
        if i == end {
            return Some(self.children.len());
        }
        let index = path[i] as usize;
        proof {
            assert(path@.subrange(i as int, end as int).skip(1) =~= path@.subrange(
                i + 1,
                end as int,
            ));
        }
        if index >= self.children.len() {
            return None;
        }
        match &self.children[index] {
            ShellNode::Container(container) => container.len_at(path, i + 1, end),
            ShellNode::Surface(_) => None,
        }
    }

    /// Appends the surface `id` to the container that the levels `i` to
    /// `end` of `path` lead to.
    pub fn push_at(&mut self, path: &[u8], i: usize, end: usize, id: SurfaceId)
        requires
            i <= end <= path@.len(),
        ensures
            final(self).kind == old(self).kind,
            final(self).children_view() == spec_push_at(
                old(self).children_view(),
                path@.subrange(i as int, end as int),
                id,
            ),
        decreases end - i,
    {
        proof {
            lemma_views(self.children@);
        }
        if i == end {
            self.children.push(ShellNode::Surface(id));
            proof {
                lemma_views(self.children@);
            }
        } else {
            let index = path[i] as usize;
            proof {
                assert(path@.subrange(i as int, end as int).skip(1) =~= path@.subrange(
                    i + 1,
                    end as int,
                ));
            }
            if index < self.children.len() {
                match &mut self.children[index] {
                    ShellNode::Container(container) => {
                        container.push_at(path, i + 1, end, id);
                    },
                    ShellNode::Surface(_) => {},
                }
                proof {
                    lemma_views(self.children@);
                }
            }
        }
    }
}

/// The shell: what is on the screen and how it is arranged.
#[derive(Debug)]
pub struct Shell {
    /// The layers, in the order in which they claim their bands.
    pub layers: Vec<ShellLayer>,
    /// The tree of the normal surfaces, if there is any.
    pub root: Option<Container>,
    pub wallpaper: Option<SurfaceId>,
}

/// The shell as a mathematical value.
pub struct ShellView {
    pub layers: Seq<ShellLayer>,
    /// The children of the root container; empty if there is no root.
    pub root: Option<(ContainerKind, Seq<NodeView>)>,
    pub wallpaper: Option<SurfaceId>,
}

/// The layers whose surfaces are in `keep`, in their order.
pub open spec fn spec_retain_layers(layers: Seq<ShellLayer>, keep: Set<SurfaceId>) -> Seq<ShellLayer> {
    layers.filter(|layer: ShellLayer| keep.contains(layer.surface))
}

impl View for Shell {
    type V = ShellView;

    open spec fn view(&self) -> ShellView {
        ShellView {
            layers: self.layers@,
            root: match self.root {
                Some(root) => Some((root.kind, root.children_view())),
                None => None,
            },
            wallpaper: self.wallpaper,
        }
    }
}

impl ShellView {
    /// The root, if there is one, and every container below it has at least
    /// one child.
    pub open spec fn wf(self) -> bool {
        self.root matches Some((_, children)) ==> spec_wf(children)
    }

    /// The shell without the surfaces that are not in `keep`: layers and
    /// wallpaper go with their surfaces, containers with their last child.
    pub open spec fn retain(self, keep: Set<SurfaceId>) -> ShellView {
        ShellView {
            layers: spec_retain_layers(self.layers, keep),
            root: match self.root {
                Some((kind, children)) => if spec_retain(children, keep).len() > 0 {
                    Some((kind, spec_retain(children, keep)))
                } else {
                    None
                },
                None => None,
            },
            wallpaper: match self.wallpaper {
                Some(id) if keep.contains(id) => Some(id),
                _ => None,
            },
        }
    }

    /// The surface that `path` leads to in the tree.
    pub open spec fn get_path(self, path: Seq<u8>) -> Option<SurfaceId> {
        match self.root {
            Some((_, children)) => spec_get_path(children, path),
            None => None,
        }
    }

    /// The focus path repaired: none without a tree; otherwise the path, if
    /// there is one, is made to lead to a surface.
    pub open spec fn fix_path(self, path: Option<Seq<u8>>) -> Option<Seq<u8>> {
        match self.root {
            Some((_, children)) => match path {
                Some(path) => Some(spec_fix_path(children, path, 0)),
                None => None,
            },
            None => None,
        }
    }

    /// Whether the surface `id` has a place in the shell: as a layer, as the
    /// wallpaper or in the tree.
    pub open spec fn has_surface(self, id: SurfaceId) -> bool {
        ||| exists|k: int| 0 <= k < self.layers.len() && (#[trigger] self.layers[k]).surface == id
        ||| self.wallpaper == Some(id)
        ||| self.root matches Some((_, children)) && spec_surfaces(children).contains(id)
    }

    /// All surfaces of the shell in the order in which the layout walks
    /// them: layers, wallpaper, tree.
    pub open spec fn surfaces(self) -> Seq<SurfaceId> {
        self.layers.map_values(|layer: ShellLayer| layer.surface) + (match self.wallpaper {
            Some(id) => seq![id],
            None => Seq::empty(),
        }) + (match self.root {
            Some((_, children)) => spec_surfaces(children),
            None => Seq::empty(),
        })
    }
}

impl Shell {
    /// A shell with nothing on the screen.
    pub fn new() -> (shell: Shell)
        ensures
            shell@ == (ShellView { layers: Seq::empty(), root: None, wallpaper: None }),
    {
        Shell { layers: Vec::new(), root: None, wallpaper: None }
    }

    /// Removes the surfaces that are not in the table from every place they
    /// occupy, and the containers that this leaves empty.
    pub fn retain(&mut self, surfaces: &Vec<Surface>)
        ensures
            final(self)@ == old(self)@.retain(spec_ids(surfaces@)),
    {
        let ghost keep = spec_ids(surfaces@);
        let ghost pred = |layer: ShellLayer| keep.contains(layer.surface);
        let mut layers: Vec<ShellLayer> = Vec::new();
        let mut i: usize = 0;
        while i < self.layers.len()
            invariant
                i <= self.layers.len(),
                keep == spec_ids(surfaces@),
                pred == (|layer: ShellLayer| keep.contains(layer.surface)),
                layers@ == self.layers@.take(i as int).filter(pred),
                self.layers == old(self).layers,
            decreases self.layers.len() - i,
        {
            let layer = self.layers[i];
            proof {
                reveal_with_fuel(Seq::filter, 2);
                assert(self.layers@.take(i + 1).drop_last() =~= self.layers@.take(i as int));
            }
            if find(surfaces, layer.surface).is_some() {
                layers.push(layer);
            }
            i = i + 1;
        }
        proof {
            assert(self.layers@.take(i as int) =~= self.layers@);
        }
        self.layers = layers;
        let kept_root = match &self.root {
            Some(root) => root.retain(surfaces),
            None => None,
        };
        self.root = kept_root;
        let kept_wallpaper = match self.wallpaper {
            Some(id) => if find(surfaces, id).is_some() {
                Some(id)
            } else {
                None
            },
            None => None,
        };
        self.wallpaper = kept_wallpaper;
    }

    /// The surface that `path` leads to in the tree.
    pub fn get_path(&self, path: &[u8]) -> (found: Option<SurfaceId>)
        ensures
            found == self@.get_path(path@),
    {
        match &self.root {
            Some(root) => {
                proof {
                    assert(path@.skip(0) =~= path@);
                }
                root.get_path(path, 0)
            },
            None => None,
        }
    }

    /// Repairs the focus path after the tree has changed.
    pub fn fix_path(&self, path: &mut Option<Vec<u8>>)
        requires
            self@.wf(),
        ensures
            (match *final(path) {
                Some(path) => Some(path@),
                None => None,
            }) == self@.fix_path(
                match *old(path) {
                    Some(path) => Some(path@),
                    None => None,
                },
            ),
    {
        match &self.root {
            Some(root) => {
                if let Some(path) = path {
                    root.fix_path(path, 0);
                }
            },
            None => {
                *path = None;
            },
        }
    }
}

} // verus!
