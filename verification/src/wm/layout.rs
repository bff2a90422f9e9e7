//! The layout: which rectangle each surface of the shell gets.
//!
//! The walk starts from the framebuffer without its border. Every layer cuts
//! its band off the side it is anchored to. What is left goes to the
//! wallpaper and to the tree, where every container divides its rectangle
//! into equal bands, one per child; the last child gets what the division
//! leaves over.

use vstd::prelude::*;

use crate::protocol::server_to_client::SurfaceDescription;
use crate::protocol::SurfaceId;
use crate::types::pos2::Pos2;
use crate::types::rectangle::Rectangle;
use crate::types::rotation::Rotation;
use crate::types::side::Side;
use crate::types::vec2::{div_toward_zero, Vec2};
use crate::wm::shell::{
    lemma_views, Container, ContainerKind, NodeView, ShellLayer, ShellNode, MAX_CHILDREN,
};
use crate::wm::surfaces::{find, spec_unique, Surface};
use crate::{FB_HEIGHT, FB_WIDTH};

verus! {

/// The widest border that a configuration may ask for.
pub const MAX_INSET: i32 = 0x10_0000;

/// The most that the widths of all layers may add up to, each taken without
/// its sign. Together with `MAX_INSET` it keeps every coordinate of the
/// layout within the range of the coordinates.
pub const LAYER_BUDGET: i32 = 0x4000_0000;

/// The bound that no coordinate and no extent of the layout exceeds.
pub const COORDINATE_LIMIT: i32 = 0x4040_0000;

/// One step of the walk: a surface and the rectangle it gets. The wallpaper
/// is also told whether it can be seen.
pub struct Assignment {
    pub surface: SurfaceId,
    pub rect: Rectangle,
    pub visible: Option<bool>,
}

/// The rectangle with the given origin and extent.
pub open spec fn spec_rect(r: (int, int, int, int)) -> Rectangle {
    Rectangle { origin: Pos2 { x: r.0 as i32, y: r.1 as i32 }, size: Vec2 { x: r.2 as i32, y: r.3 as i32 } }
}

/// The absolute value of an integer.
pub open spec fn spec_abs(v: int) -> int {
    if v < 0 {
        -v
    } else {
        v
    }
}

/// Origin, extent and far corner of the rectangle are within the coordinate
/// limit.
pub open spec fn spec_bounded(rect: Rectangle) -> bool {
    &&& -COORDINATE_LIMIT <= rect.origin.x <= COORDINATE_LIMIT
    &&& -COORDINATE_LIMIT <= rect.origin.y <= COORDINATE_LIMIT
    &&& -COORDINATE_LIMIT <= rect.size.x <= COORDINATE_LIMIT
    &&& -COORDINATE_LIMIT <= rect.size.y <= COORDINATE_LIMIT
    &&& -COORDINATE_LIMIT <= rect.origin.x + rect.size.x <= COORDINATE_LIMIT
    &&& -COORDINATE_LIMIT <= rect.origin.y + rect.size.y <= COORDINATE_LIMIT
}

/// The rectangle that the walk starts from: the framebuffer without a border
/// of the given width.
pub open spec fn spec_start_rect(inset: int) -> Rectangle {
    spec_rect((inset, inset, FB_WIDTH - 2 * inset, FB_HEIGHT - 2 * inset))
}

/// The sum of the widths of the layers, each without its sign.
pub open spec fn spec_budget(layers: Seq<ShellLayer>) -> int
    decreases layers.len(),
{
    if layers.len() == 0 {
        0
    } else {
        spec_budget(layers.drop_last()) + spec_abs(layers.last().size as int)
    }
}

/// What is left of `rect` after the layers have cut off their bands.
pub open spec fn spec_after_layers(layers: Seq<ShellLayer>, rect: Rectangle) -> Rectangle
    decreases layers.len(),
{
    if layers.len() == 0 {
        rect
    } else {
        spec_rect(
            layers.last().anchor.remainder(
                layers.last().size as int,
                spec_after_layers(layers.drop_last(), rect),
            ),
        )
    }
}

/// The bands of the layers, in their order.
pub open spec fn spec_assign_layers(layers: Seq<ShellLayer>, rect: Rectangle) -> Seq<Assignment>
    decreases layers.len(),
{
    if layers.len() == 0 {
        Seq::empty()
    } else {
        spec_assign_layers(layers.drop_last(), rect).push(
            Assignment {
                surface: layers.last().surface,
                rect: spec_rect(
                    layers.last().anchor.band(
                        layers.last().size as int,
                        spec_after_layers(layers.drop_last(), rect),
                    ),
                ),
                visible: None,
            },
        )
    }
}

/// The side from which a container of the given kind cuts the bands of its
/// children: the left for a horizontal one, the top for a vertical one, each
/// turned by the global rotation.
pub open spec fn spec_child_side(kind: ContainerKind, rotation: Rotation) -> Side {
    Side::at(
        (match kind {
            ContainerKind::Horizontal => Side::Left,
            ContainerKind::Vertical => Side::Top,
        }).index() + rotation.quarter_turns(),
    )
}

/// The width of the band of every child but the last: the extent of the
/// rectangle along the axis of `side`, divided by the number of children and
/// rounded toward zero.
pub open spec fn spec_child_size(side: Side, rect: Rectangle, count: int) -> int {
    div_toward_zero(
        if side.is_vertical() {
            rect.size.y as int
        } else {
            rect.size.x as int
        },
        count,
    )
}

/// The rectangles of the surfaces below a node that gets `rect`.
pub open spec fn spec_assign_node(node: NodeView, rect: Rectangle, rotation: Rotation) -> Seq<Assignment>
    decreases node, 0int,
{
    match node {
        NodeView::Surface(id) => seq![Assignment { surface: id, rect, visible: None }],
        NodeView::Container { kind, children } => spec_assign_from(
            children,
            rotation,
            spec_child_side(kind, rotation),
            spec_child_size(spec_child_side(kind, rotation), rect, children.len() as int),
            rect,
            0,
        ),
    }
}

/// The rectangles of the surfaces below the children from the `k`-th on,
/// when `rect` is what the children before have left: every child but the
/// last gets a band of width `size` from `side`, the last gets the rest.
pub open spec fn spec_assign_from(
    children: Seq<NodeView>,
    rotation: Rotation,
    side: Side,
    size: int,
    rect: Rectangle,
    k: int,
) -> Seq<Assignment>
    decreases children, children.len() - k,
{
    if k < 0 || k >= children.len() {
        Seq::empty()
    } else if k == children.len() - 1 {
        spec_assign_node(children[k], rect, rotation)
    } else {
        spec_assign_node(children[k], spec_rect(side.band(size, rect)), rotation)
            + spec_assign_from(
            children,
            rotation,
            side,
            size,
            spec_rect(side.remainder(size, rect)),
            k + 1,
        )
    }
}

/// A surface after one step of the walk.
pub open spec fn spec_assign_one(surface: Surface, step: Assignment) -> Surface {
    if surface.id == step.surface {
        Surface {
            description: SurfaceDescription {
                base_rect: step.rect,
                visible: match step.visible {
                    Some(visible) => visible,
                    None => surface.description.visible,
                },
                ..surface.description
            },
            ..surface
        }
    } else {
        surface
    }
}

/// A surface after the steps of a walk, in order.
pub open spec fn spec_assign_all(surface: Surface, steps: Seq<Assignment>) -> Surface
    decreases steps.len(),
{
    if steps.len() == 0 {
        surface
    } else {
        spec_assign_one(spec_assign_all(surface, steps.drop_last()), steps.last())
    }
}

/// The table after the steps of a walk.
pub open spec fn spec_table_after(surfaces: Seq<Surface>, steps: Seq<Assignment>) -> Seq<Surface> {
    Seq::new(surfaces.len(), |i: int| spec_assign_all(surfaces[i], steps))
}

/// The rectangle that the walk assigns to the surface `id`: that of its last
/// step for the surface.
pub open spec fn spec_last_rect(steps: Seq<Assignment>, id: SurfaceId) -> Option<Rectangle>
    decreases steps.len(),
{
    if steps.len() == 0 {
        None
    } else if steps.last().surface == id {
        Some(steps.last().rect)
    } else {
        spec_last_rect(steps.drop_last(), id)
    }
}

/// Whether the walk makes the surface `id` visible or not, if it says so.
pub open spec fn spec_last_visible(steps: Seq<Assignment>, id: SurfaceId) -> Option<bool>
    decreases steps.len(),
{
    if steps.len() == 0 {
        None
    } else if steps.last().surface == id && steps.last().visible.is_some() {
        steps.last().visible
    } else {
        spec_last_visible(steps.drop_last(), id)
    }
}

/// The last step of a walk in two parts that names a surface is that of the
/// second part if it names the surface, else that of the first.
pub proof fn lemma_last_rect_concat(first: Seq<Assignment>, second: Seq<Assignment>, id: SurfaceId)
    ensures
        spec_last_rect(first + second, id) == (if spec_last_rect(second, id).is_some() {
            spec_last_rect(second, id)
        } else {
            spec_last_rect(first, id)
        }),
    decreases second.len(),
{
    if second.len() > 0 {
        lemma_last_rect_concat(first, second.drop_last(), id);
        assert((first + second).drop_last() =~= first + second.drop_last());
    }
}

/// The walk below a node names every surface that the node holds.
pub proof fn lemma_node_is_covered(node: NodeView, rect: Rectangle, rotation: Rotation, id: SurfaceId)
    requires
        crate::wm::shell::spec_holds(node, id),
    ensures
        spec_last_rect(spec_assign_node(node, rect, rotation), id).is_some(),
    decreases node, 0int,
{
    match node {
        NodeView::Surface(surface) => {
            let step = Assignment { surface, rect, visible: None };
        },
        NodeView::Container { kind, children } => {
            crate::wm::shell::lemma_surfaces_member(children, id);
            let i = choose|i: int|
                0 <= i < children.len() && crate::wm::shell::spec_holds(#[trigger] children[i], id);
            lemma_children_are_covered(
                children,
                rotation,
                spec_child_side(kind, rotation),
                spec_child_size(spec_child_side(kind, rotation), rect, children.len() as int),
                rect,
                0,
                i,
                id,
            );
        },
    }
}

/// The walk over the children from the `k`-th on names every surface that
/// one of these children holds.
pub proof fn lemma_children_are_covered(
    children: Seq<NodeView>,
    rotation: Rotation,
    side: Side,
    size: int,
    rect: Rectangle,
    k: int,
    i: int,
    id: SurfaceId,
)
    requires
        0 <= k <= i < children.len(),
        crate::wm::shell::spec_holds(children[i], id),
    ensures
        spec_last_rect(spec_assign_from(children, rotation, side, size, rect, k), id).is_some(),
    decreases children, children.len() - k,
{
    if k == children.len() - 1 {
        lemma_node_is_covered(children[k], rect, rotation, id);
    } else {
        let first = spec_assign_node(children[k], spec_rect(side.band(size, rect)), rotation);
        let rest = spec_assign_from(
            children,
            rotation,
            side,
            size,
            spec_rect(side.remainder(size, rect)),
            k + 1,
        );
        lemma_last_rect_concat(first, rest, id);
        if i == k {
            lemma_node_is_covered(children[k], spec_rect(side.band(size, rect)), rotation, id);
        } else {
            lemma_children_are_covered(
                children,
                rotation,
                side,
                size,
                spec_rect(side.remainder(size, rect)),
                k + 1,
                i,
                id,
            );
        }
    }
}

/// The walk over the layers names the surface of every layer.
pub proof fn lemma_layers_are_covered(layers: Seq<ShellLayer>, rect: Rectangle, k: int)
    requires
        0 <= k < layers.len(),
    ensures
        spec_last_rect(spec_assign_layers(layers, rect), layers[k].surface).is_some(),
    decreases layers.len(),
{
    let steps = spec_assign_layers(layers, rect);
    assert(steps.drop_last() =~= spec_assign_layers(layers.drop_last(), rect));
    if k < layers.len() - 1 {
        lemma_layers_are_covered(layers.drop_last(), rect, k);
    }
}

/// What a walk does to a surface: it gets the rectangle of the last step
/// that names it, and the visibility of the last step that names it and
/// speaks of visibility; everything else stays.
pub proof fn lemma_assign_all(surface: Surface, steps: Seq<Assignment>)
    ensures
        spec_assign_all(surface, steps) == (Surface {
            description: SurfaceDescription {
                base_rect: match spec_last_rect(steps, surface.id) {
                    Some(rect) => rect,
                    None => surface.description.base_rect,
                },
                visible: match spec_last_visible(steps, surface.id) {
                    Some(visible) => visible,
                    None => surface.description.visible,
                },
                ..surface.description
            },
            ..surface
        }),
    decreases steps.len(),
{
    if steps.len() > 0 {
        lemma_assign_all(surface, steps.drop_last());
    }
}

/// A walk in two parts is the first part and then the second.
pub proof fn lemma_assign_concat(surface: Surface, first: Seq<Assignment>, second: Seq<Assignment>)
    ensures
        spec_assign_all(surface, first + second) == spec_assign_all(
            spec_assign_all(surface, first),
            second,
        ),
    decreases second.len(),
{
    if second.len() > 0 {
        lemma_assign_concat(surface, first, second.drop_last());
        assert((first + second).drop_last() =~= first + second.drop_last());
    }
}

/// The same walk a second time changes nothing.
pub proof fn lemma_assign_idempotent(surface: Surface, steps: Seq<Assignment>)
    ensures
        spec_assign_all(spec_assign_all(surface, steps), steps) == spec_assign_all(surface, steps),
{
    lemma_assign_all(surface, steps);
    lemma_assign_all(spec_assign_all(surface, steps), steps);
}

/// The table after a walk in two parts.
pub proof fn lemma_table_concat(surfaces: Seq<Surface>, first: Seq<Assignment>, second: Seq<Assignment>)
    ensures
        spec_table_after(surfaces, first + second) == spec_table_after(
            spec_table_after(surfaces, first),
            second,
        ),
{
    assert forall|i: int| 0 <= i < surfaces.len() implies spec_assign_all(
        surfaces[i],
        first + second,
    ) == spec_assign_all(spec_assign_all(surfaces[i], first), second) by {
        lemma_assign_concat(surfaces[i], first, second);
    }
    assert(spec_table_after(surfaces, first + second) =~= spec_table_after(
        spec_table_after(surfaces, first),
        second,
    ));
}

/// A walk changes no identifier, so a table without duplicates stays one.
pub proof fn lemma_table_ids(surfaces: Seq<Surface>, steps: Seq<Assignment>)
    ensures
        spec_table_after(surfaces, steps).len() == surfaces.len(),
        forall|i: int|
            0 <= i < surfaces.len() ==> (#[trigger] spec_table_after(surfaces, steps)[i]).id
                == surfaces[i].id,
        spec_unique(surfaces) ==> spec_unique(spec_table_after(surfaces, steps)),
{
    assert forall|i: int| 0 <= i < surfaces.len() implies (#[trigger] spec_table_after(
        surfaces,
        steps,
    )[i]).id == surfaces[i].id by {
        lemma_assign_all(surfaces[i], steps);
    }
}

/// A walk of one step.
pub proof fn lemma_assign_single(surface: Surface, step: Assignment)
    ensures
        spec_assign_all(surface, seq![step]) == spec_assign_one(surface, step),
{
    reveal_with_fuel(spec_assign_all, 2);
}

/// Gives the surface `id` its rectangle, and its visibility if one is given.
/// A surface that is not in the table is passed over.
pub fn assign(surfaces: &mut Vec<Surface>, id: SurfaceId, rect: Rectangle, visible: Option<bool>)
    requires
        spec_unique(old(surfaces)@),
    ensures
        final(surfaces)@ == spec_table_after(
            old(surfaces)@,
            seq![Assignment { surface: id, rect, visible }],
        ),
        spec_unique(final(surfaces)@),
{
    let ghost step = Assignment { surface: id, rect, visible };
    proof {
        lemma_table_ids(surfaces@, seq![step]);
    }
    if let Some(i) = find(surfaces, id) {
        let mut surface = surfaces[i];
        surface.description.base_rect = rect;
        if let Some(visible) = visible {
            surface.description.visible = visible;
        }
        surfaces[i] = surface;
        proof {
            assert forall|j: int| 0 <= j < surfaces@.len() implies surfaces@[j]
                == spec_assign_all(old(surfaces)@[j], seq![step]) by {
                lemma_assign_single(old(surfaces)@[j], step);
            }
        }
    } else {
        proof {
            assert forall|j: int| 0 <= j < surfaces@.len() implies surfaces@[j]
                == spec_assign_all(old(surfaces)@[j], seq![step]) by {
                lemma_assign_single(old(surfaces)@[j], step);
            }
        }
    }
}

/// Each coordinate and extent of `rect` is within `slack` of that of `start`.
pub open spec fn spec_near(rect: Rectangle, start: Rectangle, slack: int) -> bool {
    &&& start.origin.x - slack <= rect.origin.x <= start.origin.x + slack
    &&& start.origin.y - slack <= rect.origin.y <= start.origin.y + slack
    &&& start.size.x - slack <= rect.size.x <= start.size.x + slack
    &&& start.size.y - slack <= rect.size.y <= start.size.y + slack
    &&& start.origin.x + start.size.x - slack <= rect.origin.x + rect.size.x <= start.origin.x
        + start.size.x + slack
    &&& start.origin.y + start.size.y - slack <= rect.origin.y + rect.size.y <= start.origin.y
        + start.size.y + slack
}

/// One layer more: a band of width `amount` can be cut off a rectangle that
/// is within `slack` of the start of the walk, and what is left is within
/// `slack` and the width of the band of it.
pub proof fn lemma_take_near(side: Side, amount: int, rect: Rectangle, inset: int, slack: int)
    requires
        -MAX_INSET <= inset <= MAX_INSET,
        0 <= slack,
        slack + spec_abs(amount) <= LAYER_BUDGET,
        spec_near(rect, spec_start_rect(inset), slack),
    ensures
        side.can_take(amount, rect),
        spec_near(spec_rect(side.remainder(amount, rect)), spec_start_rect(inset), slack + spec_abs(amount)),
        spec_bounded(spec_rect(side.band(amount, rect))),
        spec_bounded(spec_rect(side.remainder(amount, rect))),
        spec_bounded(rect),
{
    let start = spec_start_rect(inset);
    match side {
        Side::Top => {},
        Side::Right => {},
        Side::Bottom => {},
        Side::Left => {},
    }
}

/// The budget of the layers bounds how far they can move the rectangle of
/// the walk.
pub proof fn lemma_layers_near(layers: Seq<ShellLayer>, inset: int)
    requires
        -MAX_INSET <= inset <= MAX_INSET,
        spec_budget(layers) <= LAYER_BUDGET,
    ensures
        0 <= spec_budget(layers),
        spec_near(
            spec_after_layers(layers, spec_start_rect(inset)),
            spec_start_rect(inset),
            spec_budget(layers),
        ),
        spec_bounded(spec_after_layers(layers, spec_start_rect(inset))),
        layers.len() > 0 ==> 0 <= spec_budget(layers.drop_last()) <= spec_budget(layers)
            && layers.last().anchor.can_take(
            layers.last().size as int,
            spec_after_layers(layers.drop_last(), spec_start_rect(inset)),
        ) && spec_bounded(
            spec_rect(
                layers.last().anchor.band(
                    layers.last().size as int,
                    spec_after_layers(layers.drop_last(), spec_start_rect(inset)),
                ),
            ),
        ),
    decreases layers.len(),
{
    if layers.len() > 0 {
        lemma_budget_nonnegative(layers.drop_last());
        lemma_layers_near(layers.drop_last(), inset);
        lemma_take_near(
            layers.last().anchor,
            layers.last().size as int,
            spec_after_layers(layers.drop_last(), spec_start_rect(inset)),
            inset,
            spec_budget(layers.drop_last()),
        );
    } else {
        lemma_take_near(Side::Top, 0, spec_start_rect(inset), inset, 0);
    }
}

/// A budget is never negative.
pub proof fn lemma_budget_nonnegative(layers: Seq<ShellLayer>)
    ensures
        0 <= spec_budget(layers),
    decreases layers.len(),
{
    if layers.len() > 0 {
        lemma_budget_nonnegative(layers.drop_last());
    }
}

/// The sum of the widths of the layers, each without its sign.
pub fn budget(layers: &Vec<ShellLayer>) -> (total: Option<i32>)
    ensures
        match total {
            Some(total) => total == spec_budget(layers@) && 0 <= total <= LAYER_BUDGET,
            None => spec_budget(layers@) > LAYER_BUDGET,
        },
{
    let mut total: i32 = 0;
    let mut i: usize = 0;
    while i < layers.len()
        invariant
            i <= layers.len(),
            total == spec_budget(layers@.take(i as int)),
            0 <= total <= LAYER_BUDGET,
        decreases layers.len() - i,
    {
        proof {
            assert(layers@.take(i + 1).drop_last() =~= layers@.take(i as int));
            lemma_budget_prefix(layers@, i + 1);
        }
        let size = layers[i].size;
        if size < -LAYER_BUDGET || size > LAYER_BUDGET {
            return None;
        }
        let width = if size < 0 {
            -size
        } else {
            size
        };
        if width > LAYER_BUDGET - total {
            return None;
        }
        total = total + width;
        i = i + 1;
    }
    proof {
        assert(layers@.take(i as int) =~= layers@);
    }
    Some(total)
}

/// The budget of the first layers is no more than that of all.
pub proof fn lemma_budget_prefix(layers: Seq<ShellLayer>, n: int)
    requires
        0 <= n <= layers.len(),
    ensures
        spec_budget(layers.take(n)) <= spec_budget(layers),
    decreases layers.len() - n,
{
    if n < layers.len() {
        lemma_budget_prefix(layers, n + 1);
        assert(layers.take(n + 1).drop_last() =~= layers.take(n));
    } else {
        assert(layers.take(n) =~= layers);
    }
}

/// Lets every layer cut its band off what the layers before it have left of
/// the framebuffer without its border, and gives the band to the layer's
/// surface. The result is what is left after the last layer.
pub fn assign_layers(layers: &Vec<ShellLayer>, inset: i32, surfaces: &mut Vec<Surface>) -> (rest:
    Rectangle)
    requires
        spec_unique(old(surfaces)@),
        -MAX_INSET <= inset <= MAX_INSET,
        spec_budget(layers@) <= LAYER_BUDGET,
    ensures
        rest == spec_after_layers(layers@, spec_start_rect(inset as int)),
        spec_bounded(rest),
        final(surfaces)@ == spec_table_after(
            old(surfaces)@,
            spec_assign_layers(layers@, spec_start_rect(inset as int)),
        ),
        spec_unique(final(surfaces)@),
{
    let ghost start = spec_start_rect(inset as int);
    let mut rect = Rectangle {
        origin: Pos2 { x: 0, y: 0 },
        size: Vec2 { x: FB_WIDTH, y: FB_HEIGHT },
    }.inset(inset);
    let mut i: usize = 0;
    proof {
        lemma_layers_near(layers@.take(0), inset as int);
    }
    while i < layers.len()
        invariant
            i <= layers.len(),
            start == spec_start_rect(inset as int),
            -MAX_INSET <= inset <= MAX_INSET,
            spec_budget(layers@) <= LAYER_BUDGET,
            rect == spec_after_layers(layers@.take(i as int), start),
            spec_unique(surfaces@),
            surfaces@ == spec_table_after(
                old(surfaces)@,
                spec_assign_layers(layers@.take(i as int), start),
            ),
        decreases layers.len() - i,
    {
        let layer = layers[i];
        let ghost before = spec_assign_layers(layers@.take(i as int), start);
        proof {
            assert(layers@.take(i + 1).drop_last() =~= layers@.take(i as int));
            lemma_budget_prefix(layers@, i + 1);
            lemma_layers_near(layers@.take(i + 1), inset as int);
        }
        let slice = layer.anchor.take(layer.size, &mut rect);
        assign(surfaces, layer.surface, slice, None);
        proof {
            let step = Assignment { surface: layer.surface, rect: slice, visible: None };
            assert(before.push(step) =~= before + seq![step]);
            lemma_table_concat(old(surfaces)@, before, seq![step]);
        }
        i = i + 1;
    }
    proof {
        assert(layers@.take(i as int) =~= layers@);
        lemma_layers_near(layers@, inset as int);
    }
    rect
}

/// The extent of a rectangle along the axis of a side.
pub open spec fn spec_extent(side: Side, rect: Rectangle) -> int {
    if side.is_vertical() {
        rect.size.y as int
    } else {
        rect.size.x as int
    }
}

/// `size` is a share of `extent`: `product`, which stands for the bands of
/// the children still to come, lies between `size` and `extent`, all of one
/// sign.
pub open spec fn spec_share(size: int, product: int, extent: int) -> bool {
    (0 <= size <= product <= extent) || (extent <= product <= size <= 0)
}

/// A band that is a share of a bounded rectangle can be cut off it, and both
/// the band and what is left are bounded.
pub proof fn lemma_share_bounded(side: Side, size: int, product: int, rect: Rectangle)
    requires
        spec_bounded(rect),
        spec_share(size, product, spec_extent(side, rect)),
    ensures
        side.can_take(size, rect),
        spec_bounded(spec_rect(side.band(size, rect))),
        spec_bounded(spec_rect(side.remainder(size, rect))),
        spec_extent(side, spec_rect(side.remainder(size, rect))) == spec_extent(side, rect) - size,
{
    match side {
        Side::Top => {},
        Side::Right => {},
        Side::Bottom => {},
        Side::Left => {},
    }
}

/// The quotient of an extent by a count, rounded toward zero, is a share of
/// the extent for that many bands.
pub proof fn lemma_quotient_is_share(extent: int, count: int)
    requires
        1 <= count,
    ensures
        spec_share(div_toward_zero(extent, count), div_toward_zero(extent, count) * count, extent),
{
    let q = div_toward_zero(extent, count);
    if extent >= 0 {
        vstd::arithmetic::div_mod::lemma_fundamental_div_mod(extent, count);
        vstd::arithmetic::div_mod::lemma_mod_bound(extent, count);
        assert(0 <= q && q <= q * count && q * count <= extent) by (nonlinear_arith)
            requires
                extent == count * q + extent % count,
                0 <= extent % count < count,
                1 <= count,
                0 <= extent,
        ;
    } else {
        let p = (-extent) / count;
        vstd::arithmetic::div_mod::lemma_fundamental_div_mod(-extent, count);
        vstd::arithmetic::div_mod::lemma_mod_bound(-extent, count);
        assert(q <= 0 && q * count <= q && extent <= q * count) by (nonlinear_arith)
            requires
                -extent == count * p + (-extent) % count,
                0 <= (-extent) % count < count,
                1 <= count,
                extent < 0,
                q == -p,
        ;
    }
}

/// After one of at least two bands is cut off, the band is still a share of
/// what is left for the bands to come.
pub proof fn lemma_share_step(size: int, remaining: int, extent: int)
    requires
        2 <= remaining,
        spec_share(size, size * remaining, extent),
    ensures
        spec_share(size, size * (remaining - 1), extent - size),
{
    assert(size * (remaining - 1) == size * remaining - size) by (nonlinear_arith);
    assert(size >= 0 ==> size * (remaining - 1) >= size) by (nonlinear_arith)
        requires
            2 <= remaining,
    ;
    assert(size <= 0 ==> size * (remaining - 1) <= size) by (nonlinear_arith)
        requires
            2 <= remaining,
    ;
}

/// Gives every surface below `node` its part of `rect`.
pub fn reassign_node(node: &ShellNode, rect: &Rectangle, rotation: Rotation, surfaces: &mut Vec<Surface>)
    requires
        spec_unique(old(surfaces)@),
        spec_bounded(*rect),
        node@ matches NodeView::Container { children, .. } ==> crate::wm::shell::spec_wf(children),
    ensures
        final(surfaces)@ == spec_table_after(
            old(surfaces)@,
            spec_assign_node(node@, *rect, rotation),
        ),
        spec_unique(final(surfaces)@),
    decreases node,
{
    match node {
        ShellNode::Container(container) => {
            reassign_container(container, rect, rotation, surfaces);
        },
        ShellNode::Surface(id) => {
            assign(surfaces, *id, *rect, None);
        },
    }
}

/// Divides `rect` among the children of the container: every child but the
/// last gets a band of equal width, cut from the left for a horizontal
/// container and from the top for a vertical one (as the global rotation
/// turns these sides); the last child gets what is left, which absorbs the
/// rounding.
pub fn reassign_container(
    container: &Container,
    rect: &Rectangle,
    rotation: Rotation,
    surfaces: &mut Vec<Surface>,
)
    requires
        spec_unique(old(surfaces)@),
        spec_bounded(*rect),
        crate::wm::shell::spec_wf(container.children_view()),
    ensures
        final(surfaces)@ == spec_table_after(
            old(surfaces)@,
            spec_assign_node(
                NodeView::Container { kind: container.kind, children: container.children_view() },
                *rect,
                rotation,
            ),
        ),
        spec_unique(final(surfaces)@),
    decreases container,
{
    let child_side = match container.kind {
        ContainerKind::Horizontal => Side::Left,
        ContainerKind::Vertical => Side::Top,
    }.rotate(rotation);
    let count = container.children.len();
    proof {
        lemma_views(container.children@);
    }
    let extent = match child_side {
        Side::Top | Side::Bottom => rect.size.y,
        Side::Left | Side::Right => rect.size.x,
    };
    let child_size = extent / (count as i32);
    let ghost views = container.children_view();
    let ghost full = spec_assign_from(views, rotation, child_side, child_size as int, *rect, 0);
    let ghost mut done: Seq<Assignment> = Seq::empty();
    let mut rect = *rect;
    let mut k: usize = 0;
    proof {
        lemma_quotient_is_share(extent as int, count as int);
    }
    while k < count - 1
        invariant
            1 <= count <= MAX_CHILDREN,
            count == container.children@.len(),
            k <= count - 1,
            views == container.children_view(),
            views.len() == count,
            crate::wm::shell::spec_wf(views),
            forall|i: int| 0 <= i < count ==> (#[trigger] views[i]) == container.children@[i]@,
            spec_bounded(rect),
            spec_share(
                child_size as int,
                child_size * (count - k),
                spec_extent(child_side, rect),
            ),
            full == done + spec_assign_from(
                views,
                rotation,
                child_side,
                child_size as int,
                rect,
                k as int,
            ),
            spec_unique(surfaces@),
            surfaces@ == spec_table_after(old(surfaces)@, done),
        decreases count - 1 - k,
    {
        proof {
            lemma_share_bounded(child_side, child_size as int, child_size * (count - k), rect);
            lemma_share_step(child_size as int, count - k, spec_extent(child_side, rect));
        }
        let child_rect = child_side.take(child_size, &mut rect);
        let ghost steps = spec_assign_node(views[k as int], child_rect, rotation);
        reassign_node(&container.children[k], &child_rect, rotation, surfaces);
        proof {
            lemma_table_concat(old(surfaces)@, done, steps);
            let rest = spec_assign_from(
                views,
                rotation,
                child_side,
                child_size as int,
                rect,
                k + 1,
            );
            done = done + steps;
        }
        k = k + 1;
    }
    let ghost steps = spec_assign_node(views[k as int], rect, rotation);
    reassign_node(&container.children[k], &rect, rotation, surfaces);
    proof {
        lemma_table_concat(old(surfaces)@, done, steps);
    }
}

} // verus!
