//! The surface manager: it owns the surfaces and the shell, assigns every
//! surface its place, and decides which client gets which message.
//!
//! The manager does no I/O. Every operation returns the messages that it
//! wants sent, in order. The caller sends them one by one and reports back:
//! a description that reached its task is acknowledged; when a send fails,
//! the rest of the list is dropped and the task is removed, which yields a
//! new list.

use vstd::prelude::*;

use crate::input::keyboard::Key;
use crate::input::stylus::{Phase as StylusInputPhase, StylusState};
use crate::input::touch::{Phase as TouchInputPhase, TouchState};
use crate::input::{Event as InputDeviceEvent, EventView as InputDeviceEventView};
use crate::protocol::client_to_server::SurfaceInit;
use crate::protocol::server_to_client::{
    Event, EventView, InputEvent, InputEventView, StylusEvent, StylusPhase, SurfaceDescription,
    SurfaceEvent, SurfaceEventView, TouchEvent, TouchPhase,
};
use crate::protocol::{Id, SurfaceId, TaskId};
use crate::types::rectangle::Rectangle;
use crate::types::rotation::Rotation;
use crate::types::side::Side;
use crate::wm::layout::{
    assign, assign_layers, budget, lemma_assign_all, lemma_assign_idempotent,
    lemma_budget_nonnegative, lemma_last_rect_concat, lemma_layers_are_covered,
    lemma_node_is_covered, lemma_table_concat, lemma_table_ids, reassign_container, spec_abs,
    spec_after_layers, spec_assign_all, spec_assign_layers, spec_assign_node, spec_budget,
    spec_last_rect, spec_start_rect, spec_table_after, Assignment, LAYER_BUDGET, MAX_INSET,
};
use crate::wm::shell::{
    lemma_fixed_path_resolves, lemma_parent_of_surface, lemma_push_at, lemma_retain, lemma_views,
    spec_get_path, spec_len_at, spec_retain_layers, spec_wf, Container, ContainerKind, NodeView,
    Shell, ShellLayer, ShellNode, ShellView, MAX_CHILDREN,
};
use crate::wm::surfaces::{
    find, spec_ids, spec_unique, spec_with_surface, spec_without_surface, spec_without_task,
    with_surface, without_surface, without_task, Surface,
};

verus! {

/// What the manager is configured with.
#[derive(Debug, Clone, Copy, PartialEq, Eq, Structural)]
pub struct ManagerConfig {
    /// How the screen is turned.
    pub global_rotation: Rotation,
    /// The width of the border that stays free around the screen.
    pub inset: i32,
}

/// A message and the task whose channel it goes to.
#[derive(Debug, Clone, PartialEq, Eq)]
pub struct Outgoing {
    pub task: TaskId,
    pub event: Event,
}

/// `Outgoing` with text as a sequence of characters.
pub struct OutgoingView {
    pub task: TaskId,
    pub event: EventView,
}

impl View for Outgoing {
    type V = OutgoingView;

    open spec fn view(&self) -> OutgoingView {
        OutgoingView { task: self.task, event: self.event@ }
    }
}

/// The views of a list of messages.
pub open spec fn spec_outgoing(messages: Seq<Outgoing>) -> Seq<OutgoingView> {
    messages.map_values(|message: Outgoing| message@)
}

/// The message that tells the owner of `surface` its description.
pub open spec fn spec_description_message(surface: Surface) -> OutgoingView {
    OutgoingView {
        task: surface.task,
        event: EventView::Surface {
            id: surface.id,
            event: SurfaceEventView::Description(surface.description),
        },
    }
}

/// The message that tells `task` that `surface` is closed.
pub open spec fn spec_quit_message(task: TaskId, surface: SurfaceId) -> OutgoingView {
    OutgoingView {
        task,
        event: EventView::Surface { id: surface, event: SurfaceEventView::Quit },
    }
}

/// The descriptions that are owed: one message for every surface of the
/// table whose owner was not told its present description, in the order of
/// the table.
pub open spec fn spec_dirty(surfaces: Seq<Surface>) -> Seq<OutgoingView>
    decreases surfaces.len(),
{
    if surfaces.len() == 0 {
        Seq::empty()
    } else if surfaces.last().notified != Some(surfaces.last().description) {
        spec_dirty(surfaces.drop_last()).push(spec_description_message(surfaces.last()))
    } else {
        spec_dirty(surfaces.drop_last())
    }
}

/// The steps of the walk over the shell: the layers, then the wallpaper,
/// which can be seen exactly if there is no tree, then the tree.
pub open spec fn spec_walk(shell: ShellView, config: ManagerConfig) -> Seq<Assignment> {
    let start = spec_start_rect(config.inset as int);
    let rest = spec_after_layers(shell.layers, start);
    spec_assign_layers(shell.layers, start) + (match shell.wallpaper {
        Some(id) => seq![Assignment { surface: id, rect: rest, visible: Some(shell.root.is_none()) }],
        None => Seq::empty(),
    }) + (match shell.root {
        Some((kind, children)) => spec_assign_node(
            NodeView::Container { kind, children },
            rest,
            config.global_rotation,
        ),
        None => Seq::empty(),
    })
}

/// The table after the owner of `id` was told `description`.
pub open spec fn spec_acknowledged(
    surfaces: Seq<Surface>,
    id: SurfaceId,
    description: SurfaceDescription,
) -> Seq<Surface> {
    Seq::new(
        surfaces.len(),
        |i: int|
            if surfaces[i].id == id {
                Surface { notified: Some(description), ..surfaces[i] }
            } else {
                surfaces[i]
            },
    )
}

/// What the manager holds.
pub struct ManagerView {
    pub config: ManagerConfig,
    /// The identifier that the next surface or task gets.
    pub next_id: Id,
    pub surfaces: Seq<Surface>,
    pub tasks: Seq<TaskId>,
    /// The path from the root to the surface that has the keyboard.
    pub focus: Option<Seq<u8>>,
    pub shell: ShellView,
}

impl ManagerView {
    /// Every living surface has a place in the shell.
    pub open spec fn every_surface_placed(self) -> bool {
        forall|i: int|
            0 <= i < self.surfaces.len() ==> self.shell.has_surface((#[trigger] self.surfaces[i]).id)
    }

    /// The manager is consistent: its numbers are within their limits and
    /// its shell is sound, and every living surface has a place in the shell.
    pub open spec fn wf(self) -> bool {
        self.sound() && self.every_surface_placed()
    }

    /// The border and the layers are within their limits, the tree has no
    /// empty container, no surface is in the table twice, and the focus path
    /// leads to a surface exactly if there is a tree.
    pub open spec fn sound(self) -> bool {
        &&& -MAX_INSET <= self.config.inset <= MAX_INSET
        &&& spec_budget(self.shell.layers) <= LAYER_BUDGET
        &&& self.shell.wf()
        &&& spec_unique(self.surfaces)
        &&& match self.shell.root {
            Some((_, children)) => self.focus matches Some(path) && spec_get_path(
                children,
                path,
            ).is_some(),
            None => self.focus.is_none(),
        }
    }

    /// The surface that has the keyboard.
    pub open spec fn focused_surface(self) -> Option<SurfaceId> {
        match self.focus {
            Some(path) => self.shell.get_path(path),
            None => None,
        }
    }

    /// Whether a surface can be created as `options` ask: a layer must leave
    /// the sum of the layer widths within the budget, and a normal surface
    /// needs room in the container of the focused surface.
    pub open spec fn can_create(self, options: SurfaceInit) -> bool {
        match options {
            SurfaceInit::Layer { size, .. } => spec_budget(self.shell.layers) + spec_abs(
                size as int,
            ) <= LAYER_BUDGET,
            SurfaceInit::Normal => match (self.shell.root, self.focus) {
                (Some((_, children)), Some(path)) => path.len() >= 1 && spec_len_at(
                    children,
                    path.drop_last(),
                ).is_some() && spec_len_at(children, path.drop_last()).unwrap() < MAX_CHILDREN,
                _ => true,
            },
            SurfaceInit::Wallpaper => true,
        }
    }

    /// The manager after the layout walk: every surface has the place that
    /// the walk assigns to it.
    pub open spec fn laid_out(self) -> ManagerView {
        ManagerView {
            surfaces: spec_table_after(self.surfaces, spec_walk(self.shell, self.config)),
            ..self
        }
    }

    /// The manager after the shell was pruned: surfaces that are not in the
    /// table have left the shell, and the focus path is repaired.
    pub open spec fn pruned(self) -> ManagerView {
        ManagerView {
            shell: self.shell.retain(spec_ids(self.surfaces)),
            focus: self.shell.retain(spec_ids(self.surfaces)).fix_path(self.focus),
            ..self
        }
    }

    /// The manager without the task `task` and its surfaces, laid out anew.
    /// A task that the manager does not know changes nothing but the layout.
    pub open spec fn without_task(self, task: TaskId) -> ManagerView {
        if self.tasks.contains(task) {
            (ManagerView {
                tasks: spec_other_tasks(self.tasks, task),
                surfaces: spec_without_task(self.surfaces, task),
                ..self
            }).pruned().laid_out()
        } else {
            self.laid_out()
        }
    }

    /// The manager without the surface `id`, laid out anew.
    pub open spec fn without_surface(self, id: SurfaceId) -> ManagerView {
        (ManagerView { surfaces: spec_without_surface(self.surfaces, id), ..self }).pruned().laid_out()
    }

    /// The shell with a new surface in the place that `options` ask for, and
    /// the focus path after it: a layer goes behind the other layers, its
    /// anchor turned by the global rotation; a normal surface becomes the
    /// last sibling of the focused surface, or the only child of a new
    /// horizontal root, and gets the focus; a wallpaper replaces the one
    /// there is.
    pub open spec fn placed(self, id: SurfaceId, options: SurfaceInit) -> (ShellView, Option<Seq<u8>>) {
        match options {
            SurfaceInit::Layer { anchor, size } => (
                ShellView {
                    layers: self.shell.layers.push(
                        ShellLayer {
                            anchor: Side::at(
                                anchor.index() + self.config.global_rotation.quarter_turns(),
                            ),
                            size,
                            surface: id,
                        },
                    ),
                    ..self.shell
                },
                self.focus,
            ),
            SurfaceInit::Normal => match (self.shell.root, self.focus) {
                (Some((kind, children)), Some(path)) => (
                    ShellView {
                        root: Some(
                            (kind, crate::wm::shell::spec_push_at(children, path.drop_last(), id)),
                        ),
                        ..self.shell
                    },
                    Some(
                        path.drop_last().push(
                            spec_len_at(children, path.drop_last()).unwrap() as u8,
                        ),
                    ),
                ),
                _ => (
                    ShellView {
                        root: Some((ContainerKind::Horizontal, seq![NodeView::Surface(id)])),
                        ..self.shell
                    },
                    Some(seq![0u8]),
                ),
            },
            SurfaceInit::Wallpaper => (ShellView { wallpaper: Some(id), ..self.shell }, self.focus),
        }
    }

    /// The surface that a new wallpaper replaces.
    pub open spec fn replaced(self, options: SurfaceInit) -> Option<SurfaceId> {
        match options {
            SurfaceInit::Wallpaper => self.shell.wallpaper,
            _ => None,
        }
    }

    /// The message that a creation sends before the descriptions: a new
    /// wallpaper tells the owner of the one it replaces to quit.
    pub open spec fn creation_quit(self, options: SurfaceInit) -> Seq<OutgoingView> {
        match self.replaced(options) {
            Some(old) => if old != SurfaceId(self.next_id) {
                match spec_owner(self.surfaces, old) {
                    Some(task) => seq![spec_quit_message(task, old)],
                    None => Seq::empty(),
                }
            } else {
                Seq::empty()
            },
            None => Seq::empty(),
        }
    }

    /// The record of a surface that has just been created: its place is not
    /// set yet, and its owner has been told nothing.
    pub open spec fn new_surface(self, task: TaskId) -> Surface {
        Surface {
            id: SurfaceId(self.next_id),
            description: SurfaceDescription {
                base_rect: Rectangle {
                    origin: crate::types::pos2::Pos2 { x: 0, y: 0 },
                    size: crate::types::vec2::Vec2 { x: 0, y: 0 },
                },
                rotation: self.config.global_rotation,
                scale: 1,
                visible: true,
            },
            task,
            notified: None,
        }
    }

    /// The wallpaper that a creation takes away: the one that a new
    /// wallpaper replaces.
    pub open spec fn removed_by(self, options: SurfaceInit) -> Option<SurfaceId> {
        match self.replaced(options) {
            Some(old) if old != SurfaceId(self.next_id) => Some(old),
            _ => None,
        }
    }

    /// The manager with the new surface in the table and in the shell,
    /// before the shell is laid out.
    pub open spec fn created(self, task: TaskId, options: SurfaceInit) -> ManagerView {
        let table = spec_with_surface(self.surfaces, self.new_surface(task));
        ManagerView {
            surfaces: match self.removed_by(options) {
                Some(old) => spec_without_surface(table, old),
                None => table,
            },
            shell: self.placed(SurfaceId(self.next_id), options).0,
            focus: self.placed(SurfaceId(self.next_id), options).1,
            ..self
        }
    }

    /// The manager after a surface was created for `task`.
    pub open spec fn with_surface(self, task: TaskId, options: SurfaceInit) -> ManagerView {
        match self.removed_by(options) {
            Some(_) => self.created(task, options).pruned().laid_out(),
            None => self.created(task, options).laid_out(),
        }
    }
}

/// Where every description that is owed has been acknowledged, every living
/// surface was last told the place that the manager assigns to it.
pub proof fn lemma_quiescent(surfaces: Seq<Surface>, i: int)
    requires
        spec_dirty(surfaces).len() == 0,
        0 <= i < surfaces.len(),
    ensures
        surfaces[i].notified == Some(surfaces[i].description),
    decreases surfaces.len(),
{
    if i < surfaces.len() - 1 {
        lemma_quiescent(surfaces.drop_last(), i);
    }
}

/// Laying out twice is laying out once: a second walk over the same shell
/// changes no surface. If every surface has been told its place after the
/// first walk, the second walk leaves no description owed.
pub proof fn lemma_reassign_idempotent(surfaces: Seq<Surface>, told: Seq<Surface>, steps: Seq<Assignment>)
    requires
        told.len() == surfaces.len(),
        forall|i: int|
            0 <= i < surfaces.len() ==> (#[trigger] told[i]) == (Surface {
                notified: Some(spec_assign_all(surfaces[i], steps).description),
                ..spec_assign_all(surfaces[i], steps)
            }),
    ensures
        spec_table_after(spec_table_after(surfaces, steps), steps) == spec_table_after(
            surfaces,
            steps,
        ),
        spec_table_after(told, steps) == told,
        spec_dirty(spec_table_after(told, steps)).len() == 0,
{
    assert forall|i: int| 0 <= i < surfaces.len() implies spec_assign_all(
        spec_assign_all(surfaces[i], steps),
        steps,
    ) == spec_assign_all(surfaces[i], steps) by {
        lemma_assign_idempotent(surfaces[i], steps);
    }
    assert forall|i: int| 0 <= i < told.len() implies spec_assign_all(told[i], steps)
        == told[i] by {
        lemma_assign_all(surfaces[i], steps);
        lemma_assign_all(told[i], steps);
    }
    lemma_nothing_owed(told);
}

/// Nothing is owed where every surface was told its description.
pub proof fn lemma_nothing_owed(surfaces: Seq<Surface>)
    requires
        forall|i: int|
            0 <= i < surfaces.len() ==> (#[trigger] surfaces[i]).notified == Some(
                surfaces[i].description,
            ),
    ensures
        spec_dirty(surfaces).len() == 0,
    decreases surfaces.len(),
{
    if surfaces.len() > 0 {
        lemma_nothing_owed(surfaces.drop_last());
    }
}

/// The tasks of the list but `task`.
pub open spec fn spec_other_tasks(tasks: Seq<TaskId>, task: TaskId) -> Seq<TaskId> {
    tasks.filter(|t: TaskId| t != task)
}

/// The task that owns the surface `id`, if the surface is in the table.
pub open spec fn spec_owner(surfaces: Seq<Surface>, id: SurfaceId) -> Option<TaskId>
    decreases surfaces.len(),
{
    if surfaces.len() == 0 {
        None
    } else if surfaces.last().id == id {
        Some(surfaces.last().task)
    } else {
        spec_owner(surfaces.drop_last(), id)
    }
}

/// In a table without duplicates the owner of a surface is the task of its
/// one entry; a surface without an entry has no owner.
pub proof fn lemma_owner(surfaces: Seq<Surface>, id: SurfaceId)
    requires
        spec_unique(surfaces),
    ensures
        forall|i: int|
            0 <= i < surfaces.len() && (#[trigger] surfaces[i]).id == id ==> spec_owner(
                surfaces,
                id,
            ) == Some(surfaces[i].task),
        (forall|i: int| 0 <= i < surfaces.len() ==> (#[trigger] surfaces[i]).id != id)
            ==> spec_owner(surfaces, id).is_none(),
    decreases surfaces.len(),
{
    if surfaces.len() > 0 {
        let front = surfaces.drop_last();
        lemma_owner(front, id);
        assert forall|i: int| 0 <= i < surfaces.len() && (#[trigger] surfaces[i]).id
            == id implies spec_owner(surfaces, id) == Some(surfaces[i].task) by {
            if i < surfaces.len() - 1 {
                assert(front[i] == surfaces[i]);
            }
        }
    }
}

/// The layers that stay have no more budget than all of them.
pub proof fn lemma_budget_filter(layers: Seq<ShellLayer>, keep: Set<SurfaceId>)
    ensures
        0 <= spec_budget(spec_retain_layers(layers, keep)) <= spec_budget(layers),
    decreases layers.len(),
{
    reveal_with_fuel(Seq::filter, 2);
    lemma_budget_nonnegative(spec_retain_layers(layers, keep));
    if layers.len() > 0 {
        lemma_budget_filter(layers.drop_last(), keep);
        let pred = |layer: ShellLayer| keep.contains(layer.surface);
        let kept_front = layers.drop_last().filter(pred);
        if pred(layers.last()) {
            assert(kept_front.push(layers.last()).drop_last() =~= kept_front);
        }
    }
}

/// Pruning keeps a manager sound.
pub proof fn lemma_pruned_sound(manager: ManagerView)
    requires
        manager.sound(),
    ensures
        manager.pruned().sound(),
{
    let keep = spec_ids(manager.surfaces);
    lemma_budget_filter(manager.shell.layers, keep);
    match manager.shell.root {
        Some((kind, children)) => {
            lemma_retain(children, keep);
            let kept = crate::wm::shell::spec_retain(children, keep);
            if kept.len() > 0 {
                let path = manager.focus.unwrap();
                lemma_fixed_path_resolves(kept, path, 0);
                assert(crate::wm::shell::spec_fix_path(kept, path, 0).skip(0)
                    =~= crate::wm::shell::spec_fix_path(kept, path, 0));
            }
        },
        None => {},
    }
}

/// Laying out keeps a manager sound, and every surface in its place.
pub proof fn lemma_laid_out_wf(manager: ManagerView)
    requires
        manager.sound(),
    ensures
        manager.laid_out().sound(),
        manager.every_surface_placed() ==> manager.laid_out().every_surface_placed(),
{
    lemma_table_ids(manager.surfaces, spec_walk(manager.shell, manager.config));
}

/// A surface that is alive and has a place in the shell keeps a place when
/// the shell is pruned.
pub proof fn lemma_pruned_placed(manager: ManagerView)
    requires
        manager.sound(),
        manager.every_surface_placed(),
    ensures
        manager.pruned().every_surface_placed(),
{
    let keep = spec_ids(manager.surfaces);
    let pruned = manager.pruned();
    let pred = |layer: ShellLayer| keep.contains(layer.surface);
    assert forall|i: int| 0 <= i < pruned.surfaces.len() implies pruned.shell.has_surface(
        (#[trigger] pruned.surfaces[i]).id,
    ) by {
        let id = manager.surfaces[i].id;
        if exists|k: int|
            0 <= k < manager.shell.layers.len() && (#[trigger] manager.shell.layers[k]).surface
                == id {
            let k = choose|k: int|
                0 <= k < manager.shell.layers.len() && (#[trigger] manager.shell.layers[k]).surface
                    == id;
            manager.shell.layers.lemma_filter_contains(pred, k);
            let kept = manager.shell.layers.filter(pred);
            let j = choose|j: int| 0 <= j < kept.len() && kept[j] == manager.shell.layers[k];
        } else if manager.shell.wallpaper != Some(id) {
            let children = manager.shell.root.unwrap().1;
            lemma_retain(children, keep);
            let all = crate::wm::shell::spec_surfaces(children);
            let at = choose|at: int| 0 <= at < all.len() && all[at] == id;
            all.lemma_filter_contains(|id: SurfaceId| keep.contains(id), at);
            let kept = crate::wm::shell::spec_retain(children, keep);
        }
    }
}

/// After the layout every living surface has the rectangle that the walk
/// assigns to it: the walk names every surface that has a place in the
/// shell.
pub proof fn lemma_every_surface_is_laid_out(manager: ManagerView, i: int)
    requires
        manager.wf(),
        0 <= i < manager.surfaces.len(),
    ensures
        spec_last_rect(spec_walk(manager.shell, manager.config), manager.surfaces[i].id).is_some(),
        manager.laid_out().surfaces[i].description.base_rect == spec_last_rect(
            spec_walk(manager.shell, manager.config),
            manager.surfaces[i].id,
        ).unwrap(),
{
    let id = manager.surfaces[i].id;
    let shell = manager.shell;
    let start = spec_start_rect(manager.config.inset as int);
    let rest = spec_after_layers(shell.layers, start);
    let layer_steps = spec_assign_layers(shell.layers, start);
    let wallpaper_steps = match shell.wallpaper {
        Some(id) => seq![Assignment { surface: id, rect: rest, visible: Some(shell.root.is_none()) }],
        None => Seq::empty(),
    };
    let root_steps = match shell.root {
        Some((kind, children)) => spec_assign_node(
            NodeView::Container { kind, children },
            rest,
            manager.config.global_rotation,
        ),
        None => Seq::empty(),
    };
    lemma_last_rect_concat(layer_steps, wallpaper_steps, id);
    lemma_last_rect_concat(layer_steps + wallpaper_steps, root_steps, id);
    lemma_assign_all(manager.surfaces[i], spec_walk(shell, manager.config));
    if exists|k: int| 0 <= k < shell.layers.len() && (#[trigger] shell.layers[k]).surface == id {
        let k = choose|k: int| 0 <= k < shell.layers.len() && (#[trigger] shell.layers[k]).surface == id;
        lemma_layers_are_covered(shell.layers, start, k);
    } else if shell.wallpaper != Some(id) {
        let (kind, children) = shell.root.unwrap();
        lemma_node_is_covered(
            NodeView::Container { kind, children },
            rest,
            manager.config.global_rotation,
            id,
        );
    }
}

/// Whether the event is the key combination that closes the focused
/// surface: a press of X with Opt and Shift.
pub open spec fn spec_is_close_hotkey(event: InputDeviceEventView) -> bool {
    event matches InputDeviceEventView::Key(key) && key.event.spec_press() && key.key == Some(Key::X)
        && key.modifiers.has(crate::input::keyboard::Modifier::Opt) && key.modifiers.spec_shift(
        false,
    )
}

/// The state of the contact that a touch event speaks of.
pub open spec fn spec_touch_state(touch: Seq<Option<TouchState>>, id: crate::input::touch::Id) -> Option<
    TouchState,
> {
    if id.0 < crate::input::touch::SLOT_COUNT {
        touch[id.0 as int]
    } else {
        None
    }
}

/// Whether the state that an event is sent with is there: that of the
/// contact for the start or change of a touch, that of the tool for every
/// stylus event but `Leave`.
pub open spec fn spec_can_enrich(
    event: InputDeviceEventView,
    touch: Seq<Option<TouchState>>,
    stylus: Option<StylusState>,
) -> bool {
    match event {
        InputDeviceEventView::Touch(event) => event.phase != TouchInputPhase::End
            ==> spec_touch_state(touch, event.touch_id).is_some(),
        InputDeviceEventView::Stylus(event) => event.phase != StylusInputPhase::Leave
            ==> stylus.is_some(),
        _ => true,
    }
}

/// The event as a surface gets it: touch and stylus events carry the state
/// of the contact or of the tool at that moment. The presence of a device is
/// of no concern to a surface.
pub open spec fn spec_enriched(
    event: InputDeviceEventView,
    touch: Seq<Option<TouchState>>,
    stylus: Option<StylusState>,
) -> Option<InputEventView> {
    match event {
        InputDeviceEventView::Key(event) => Some(InputEventView::Key(event)),
        InputDeviceEventView::Text(text) => Some(InputEventView::Text(text)),
        InputDeviceEventView::Button(event) => Some(InputEventView::Button(event)),
        InputDeviceEventView::Touch(event) => Some(
            InputEventView::Touch(
                TouchEvent {
                    id: event.touch_id,
                    phase: match event.phase {
                        TouchInputPhase::Start => TouchPhase::Start(
                            spec_touch_state(touch, event.touch_id).unwrap(),
                        ),
                        TouchInputPhase::Change => TouchPhase::Change(
                            spec_touch_state(touch, event.touch_id).unwrap(),
                        ),
                        TouchInputPhase::End => TouchPhase::End,
                    },
                },
            ),
        ),
        InputDeviceEventView::Stylus(event) => Some(
            InputEventView::Stylus(
                StylusEvent {
                    phase: match event.phase {
                        StylusInputPhase::Hover => StylusPhase::Hover(stylus.unwrap()),
                        StylusInputPhase::Touch => StylusPhase::Touch(stylus.unwrap()),
                        StylusInputPhase::Change => StylusPhase::Change(stylus.unwrap()),
                        StylusInputPhase::Lift => StylusPhase::Lift(stylus.unwrap()),
                        StylusInputPhase::Leave => StylusPhase::Leave,
                    },
                },
            ),
        ),
        InputDeviceEventView::DevicePresence(_) => None,
    }
}

/// The messages that route an event: one, to the owner of the focused
/// surface, if there is a focused surface and the event concerns surfaces.
pub open spec fn spec_routed(
    manager: ManagerView,
    event: InputDeviceEventView,
    touch: Seq<Option<TouchState>>,
    stylus: Option<StylusState>,
) -> Seq<OutgoingView> {
    match (manager.focused_surface(), spec_enriched(event, touch, stylus)) {
        (Some(id), Some(input)) => match spec_owner(manager.surfaces, id) {
            Some(task) => seq![
                OutgoingView {
                    task,
                    event: EventView::Surface { id, event: SurfaceEventView::Input(input) },
                },
            ],
            None => Seq::empty(),
        },
        _ => Seq::empty(),
    }
}

/// The surface manager.
#[derive(Debug)]
pub struct Manager {
    config: ManagerConfig,
    id_counter: Id,
    surfaces: Vec<Surface>,
    tasks: Vec<TaskId>,
    /// A path into the root of the shell where each item is an index into
    /// the children of a container, e.g., `Some(vec![1])` is the second
    /// child of the root container.
    keyboard_focused_container: Option<Vec<u8>>,
    shell: Shell,
}

impl View for Manager {
    type V = ManagerView;

    closed spec fn view(&self) -> ManagerView {
        ManagerView {
            config: self.config,
            next_id: self.id_counter,
            surfaces: self.surfaces@,
            tasks: self.tasks@,
            focus: match self.keyboard_focused_container {
                Some(path) => Some(path@),
                None => None,
            },
            shell: self.shell@,
        }
    }
}

impl Manager {
    /// A manager with no task and no surface.
    pub fn new(config: ManagerConfig) -> (manager: Manager)
        requires
            -MAX_INSET <= config.inset <= MAX_INSET,
        ensures
            manager@.wf(),
            manager@.config == config,
            manager@.next_id.spec_get() == 1,
            manager@.surfaces.len() == 0,
            manager@.tasks.len() == 0,
            manager@.focus.is_none(),
            manager@.shell == (ShellView { layers: Seq::empty(), root: None, wallpaper: None }),
    {
        Manager {
            config,
            id_counter: Id::start(),
            surfaces: Vec::new(),
            tasks: Vec::new(),
            keyboard_focused_container: None,
            shell: Shell::new(),
        }
    }

    fn next_id(&mut self) -> (id: Id)
        ensures
            id == old(self)@.next_id,
            final(self)@.next_id.spec_get() == Id::spec_next(old(self)@.next_id.spec_get()),
            final(self)@ == (ManagerView { next_id: final(self)@.next_id, ..old(self)@ }),
    {
        let ret = self.id_counter;
        self.id_counter = self.id_counter.step();
        ret
    }

    /// Registers a task for a new connection and returns its identifier.
    pub fn spawn_task(&mut self) -> (task: TaskId)
        requires
            old(self)@.wf(),
        ensures
            final(self)@.wf(),
            task == TaskId(old(self)@.next_id),
            final(self)@.next_id.spec_get() == Id::spec_next(old(self)@.next_id.spec_get()),
            final(self)@ == (ManagerView {
                next_id: final(self)@.next_id,
                tasks: old(self)@.tasks.push(task),
                ..old(self)@
            }),
    {
        let task = TaskId(self.next_id());
        self.tasks.push(task);
        task
    }

    /// The configuration.
    pub fn config(&self) -> (config: ManagerConfig)
        ensures
            config == self@.config,
    {
        self.config
    }

    /// The record of the surface `id`, if it is alive.
    pub fn surface(&self, id: SurfaceId) -> (surface: Option<Surface>)
        ensures
            match surface {
                Some(surface) => surface.id == id && self@.surfaces.contains(surface),
                None => !spec_ids(self@.surfaces).contains(id),
            },
    {
        match find(&self.surfaces, id) {
            Some(i) => {
                Some(self.surfaces[i])
            },
            None => None,
        }
    }

    /// Whether the manager knows the task.
    pub fn has_task(&self, task: TaskId) -> (known: bool)
        ensures
            known == self@.tasks.contains(task),
    {
        let mut i: usize = 0;
        while i < self.tasks.len()
            invariant
                i <= self.tasks.len(),
                forall|k: int| 0 <= k < i ==> self.tasks@[k] != task,
            decreases self.tasks.len() - i,
        {
            if self.tasks[i] == task {
                return true;
            }
            i = i + 1;
        }
        false
    }

    /// Whether a surface can be created as `options` ask.
    pub fn can_create(&self, options: SurfaceInit) -> (possible: bool)
        requires
            self@.wf(),
        ensures
            possible == self@.can_create(options),
    {
        match options {
            SurfaceInit::Layer { anchor: _, size } => {
                if size < -LAYER_BUDGET || size > LAYER_BUDGET {
                    proof {
                        lemma_budget_nonnegative(self.shell.layers@);
                    }
                    return false;
                }
                let width = if size < 0 {
                    -size
                } else {
                    size
                };
                match budget(&self.shell.layers) {
                    Some(total) => width <= LAYER_BUDGET - total,
                    None => false,
                }
            },
            SurfaceInit::Normal => {
                match (&self.shell.root, &self.keyboard_focused_container) {
                    (Some(root), Some(path)) => {
                        proof {
                            lemma_parent_of_surface(root.children_view(), path@);
                        }
                        match root.len_at(path.as_slice(), 0, path.len() - 1) {
                            Some(len) => len < MAX_CHILDREN,
                            None => false,
                        }
                    },
                    _ => true,
                }
            },
            SurfaceInit::Wallpaper => true,
        }
    }

    /// Appends the descriptions that are owed to `messages`.
    fn push_dirty(&self, messages: &mut Vec<Outgoing>)
        ensures
            spec_outgoing(final(messages)@) == spec_outgoing(old(messages)@) + spec_dirty(
                self@.surfaces,
            ),
    {
        let ghost start = spec_outgoing(messages@);
        let mut i: usize = 0;
        while i < self.surfaces.len()
            invariant
                i <= self.surfaces.len(),
                spec_outgoing(messages@) == start + spec_dirty(self.surfaces@.take(i as int)),
            decreases self.surfaces.len() - i,
        {
            let surface = self.surfaces[i];
            proof {
                assert(self.surfaces@.take(i + 1).drop_last() =~= self.surfaces@.take(i as int));
            }
            let told = match surface.notified {
                Some(description) => description == surface.description,
                None => false,
            };
            if !told {
                let ghost before = spec_outgoing(messages@);
                let message = Outgoing {
                    task: surface.task,
                    event: Event::Surface {
                        id: surface.id,
                        event: SurfaceEvent::Description(surface.description),
                    },
                };
                messages.push(message);
                proof {
                    assert(spec_outgoing(messages@) =~= before.push(
                        spec_description_message(surface),
                    ));
                }
            }
            i = i + 1;
        }
        proof {
            assert(self.surfaces@.take(i as int) =~= self.surfaces@);
        }
    }

    /// Walks the shell and gives every surface its place.
    fn layout(&mut self)
        requires
            old(self)@.sound(),
        ensures
            final(self)@ == old(self)@.laid_out(),
            final(self)@.sound(),
            old(self)@.every_surface_placed() ==> final(self)@.every_surface_placed(),
    {
        let ghost table = self.surfaces@;
        let ghost start = spec_start_rect(self.config.inset as int);
        let ghost layer_steps = spec_assign_layers(self.shell.layers@, start);
        proof {
            lemma_laid_out_wf(self@);
        }
        let rest = assign_layers(&self.shell.layers, self.config.inset, &mut self.surfaces);
        let ghost wallpaper_steps = match self.shell.wallpaper {
            Some(id) => seq![
                Assignment { surface: id, rect: rest, visible: Some(self.shell.root.is_none()) },
            ],
            None => Seq::empty(),
        };
        if let Some(wallpaper) = self.shell.wallpaper {
            let visible = self.shell.root.is_none();
            assign(&mut self.surfaces, wallpaper, rest, Some(visible));
        }
        proof {
            lemma_table_concat(table, layer_steps, wallpaper_steps);
        }
        let ghost root_steps = match self.shell@.root {
            Some((kind, children)) => spec_assign_node(
                NodeView::Container { kind, children },
                rest,
                self.config.global_rotation,
            ),
            None => Seq::empty(),
        };
        if let Some(root) = &self.shell.root {
            reassign_container(root, &rest, self.config.global_rotation, &mut self.surfaces);
        }
        proof {
            lemma_table_concat(table, layer_steps + wallpaper_steps, root_steps);
        }
    }

    /// Computes the place of every surface anew and returns the descriptions
    /// that are owed: one for every surface whose owner was not told its
    /// present place.
    pub fn reassign_areas(&mut self) -> (messages: Vec<Outgoing>)
        requires
            old(self)@.wf(),
        ensures
            final(self)@.wf(),
            final(self)@ == old(self)@.laid_out(),
            spec_outgoing(messages@) == spec_dirty(final(self)@.surfaces),
    {
        self.layout();
        let mut messages: Vec<Outgoing> = Vec::new();
        self.push_dirty(&mut messages);
        messages
    }

    /// Takes note that the owner of the surface `id` was told `description`.
    pub fn acknowledge(&mut self, id: SurfaceId, description: SurfaceDescription)
        requires
            old(self)@.wf(),
        ensures
            final(self)@.wf(),
            final(self)@ == (ManagerView {
                surfaces: spec_acknowledged(old(self)@.surfaces, id, description),
                ..old(self)@
            }),
    {
        if let Some(i) = find(&self.surfaces, id) {
            let mut surface = self.surfaces[i];
            surface.notified = Some(description);
            self.surfaces[i] = surface;
        }
        proof {
            assert(self.surfaces@ =~= spec_acknowledged(old(self)@.surfaces, id, description));
        }
    }

    /// Takes the surfaces that are no longer alive out of the shell and
    /// repairs the focus path.
    fn prune_shell(&mut self)
        requires
            old(self)@.sound(),
        ensures
            final(self)@ == old(self)@.pruned(),
            final(self)@.sound(),
            old(self)@.every_surface_placed() ==> final(self)@.every_surface_placed(),
    {
        proof {
            lemma_pruned_sound(self@);
            if self@.every_surface_placed() {
                lemma_pruned_placed(self@);
            }
        }
        self.shell.retain(&self.surfaces);
        self.shell.fix_path(&mut self.keyboard_focused_container);
    }

    /// Replaces the table, which leaves the manager sound if the new table
    /// has no duplicates.
    fn set_surfaces(&mut self, surfaces: Vec<Surface>)
        requires
            old(self)@.sound(),
            spec_unique(surfaces@),
        ensures
            final(self)@ == (ManagerView { surfaces: surfaces@, ..old(self)@ }),
            final(self)@.sound(),
    {
        self.surfaces = surfaces;
    }

    /// Removes a task, whose connection is gone or whose channel failed, and
    /// every surface it owned; the shell is pruned and laid out anew. The
    /// result holds the descriptions that are owed after that.
    pub fn remove_task(&mut self, task: TaskId) -> (messages: Vec<Outgoing>)
        requires
            old(self)@.wf(),
        ensures
            final(self)@.wf(),
            final(self)@ == old(self)@.without_task(task),
            spec_outgoing(messages@) == spec_dirty(final(self)@.surfaces),
    {
        if self.has_task(task) {
            let mut tasks: Vec<TaskId> = Vec::new();
            let mut i: usize = 0;
            while i < self.tasks.len()
                invariant
                    i <= self.tasks.len(),
                    tasks@ == spec_other_tasks(self.tasks@.take(i as int), task),
                decreases self.tasks.len() - i,
            {
                let t = self.tasks[i];
                proof {
                    reveal_with_fuel(Seq::filter, 2);
                    assert(self.tasks@.take(i + 1).drop_last() =~= self.tasks@.take(i as int));
                }
                if t != task {
                    tasks.push(t);
                }
                i = i + 1;
            }
            proof {
                assert(self.tasks@.take(i as int) =~= self.tasks@);
            }
            self.tasks = tasks;
            let surfaces = without_task(&self.surfaces, task);
            self.set_surfaces(surfaces);
            self.prune_shell();
        }
        self.reassign_areas()
    }

    /// Closes the surface `id`: its owner is told to quit, the surface leaves
    /// the table and the shell, and the shell is laid out anew. The result is
    /// `None`, and nothing changes, if there is no such surface.
    pub fn remove_surface(&mut self, id: SurfaceId) -> (messages: Option<Vec<Outgoing>>)
        requires
            old(self)@.wf(),
        ensures
            final(self)@.wf(),
            match spec_owner(old(self)@.surfaces, id) {
                Some(task) => final(self)@ == old(self)@.without_surface(id) && messages.is_some()
                    && spec_outgoing(messages.unwrap()@) == seq![spec_quit_message(task, id)]
                    + spec_dirty(final(self)@.surfaces),
                None => final(self)@ == old(self)@ && messages.is_none(),
            },
    {
        proof {
            lemma_owner(self.surfaces@, id);
        }
        let Some(i) = find(&self.surfaces, id) else {
            return None;
        };
        let task = self.surfaces[i].task;
        let surfaces = without_surface(&self.surfaces, id);
        self.set_surfaces(surfaces);
        let mut messages: Vec<Outgoing> = Vec::new();
        let quit = Outgoing { task, event: Event::Surface { id, event: SurfaceEvent::Quit } };
        messages.push(quit);
        self.prune_shell();
        self.layout();
        self.push_dirty(&mut messages);
        Some(messages)
    }

    /// The surface that has the keyboard.
    pub fn focused_surface(&self) -> (focused: Option<SurfaceId>)
        ensures
            focused == self@.focused_surface(),
    {
        match &self.keyboard_focused_container {
            Some(path) => self.shell.get_path(path.as_slice()),
            None => None,
        }
    }

    /// Creates a surface for `task` in the place that `options` ask for and
    /// lays the shell out anew. The surface gets the next identifier. The
    /// result holds the notice to quit for a wallpaper that was replaced,
    /// then the descriptions that are owed.
    pub fn create_surface(&mut self, task: TaskId, options: SurfaceInit) -> (messages: Vec<Outgoing>)
        requires
            old(self)@.wf(),
            old(self)@.can_create(options),
        ensures
            final(self)@.wf(),
            final(self)@.next_id.spec_get() == Id::spec_next(old(self)@.next_id.spec_get()),
            final(self)@ == (ManagerView {
                next_id: final(self)@.next_id,
                ..old(self)@.with_surface(task, options)
            }),
            spec_outgoing(messages@) == old(self)@.creation_quit(options) + spec_dirty(
                final(self)@.surfaces,
            ),
    {
        let ghost before = self@;
        let surface_id = SurfaceId(self.next_id());
        let surface = Surface {
            id: surface_id,
            description: SurfaceDescription {
                // Will be set by the layout.
                base_rect: Rectangle::zero(),
                rotation: self.config.global_rotation,
                scale: 1,
                visible: true,
            },
            task,
            notified: None,
        };
        let mut messages: Vec<Outgoing> = Vec::new();
        match options {
            SurfaceInit::Layer { anchor, size } => {
                let table = with_surface(&self.surfaces, surface);
                self.set_surfaces(table);
                let anchor = anchor.rotate(self.config.global_rotation);
                let layer = ShellLayer { anchor, size, surface: surface_id };
                proof {
                    assert(self.shell.layers@.push(layer).drop_last() =~= self.shell.layers@);
                }
                self.shell.layers.push(layer);
                proof {
                    let shell = self@.shell;
                }
            },
            SurfaceInit::Normal => {
                // As a rule, normal surfaces can have the keyboard and any
                // others cannot.
                let table = with_surface(&self.surfaces, surface);
                self.set_surfaces(table);
                match (&mut self.shell.root, &mut self.keyboard_focused_container) {
                    (Some(root), Some(path)) => {
                        let ghost children = root.children_view();
                        let ghost old_path = path@;
                        proof {
                            lemma_parent_of_surface(children, old_path);
                        }
                        // The container of the focused node is found by
                        // leaving out the last path segment.
                        let end = path.len() - 1;
                        let len = root.len_at(path.as_slice(), 0, end);
                        let index = match len {
                            Some(len) => len as u8,
                            None => 0,
                        };
                        root.push_at(path.as_slice(), 0, end, surface_id);
                        path[end] = index;
                        proof {
                            lemma_push_at(children, old_path.drop_last(), surface_id);
                            assert(path@ =~= old_path.drop_last().push(index));
                            let pushed = crate::wm::shell::spec_push_at(
                                children,
                                old_path.drop_last(),
                                surface_id,
                            );
                            assert forall|id: SurfaceId|
                                id == surface_id || crate::wm::shell::spec_surfaces(
                                    children,
                                ).contains(id) implies crate::wm::shell::spec_surfaces(
                                pushed,
                            ).contains(id) by {
                                vstd::seq_lib::to_multiset_contains(
                                    crate::wm::shell::spec_surfaces(children),
                                    id,
                                );
                                vstd::seq_lib::to_multiset_contains(
                                    crate::wm::shell::spec_surfaces(pushed),
                                    id,
                                );
                            }
                        }
                    },
                    _ => {
                        let children = vec![ShellNode::Surface(surface_id)];
                        proof {
                            lemma_views(children@);
                            assert(crate::wm::shell::spec_views(children@) =~= seq![
                                NodeView::Surface(surface_id),
                            ]);
                        }
                        self.shell.root = Some(
                            Container { kind: ContainerKind::Horizontal, children },
                        );
                        let path = vec![0u8];
                        assert(path@ =~= seq![0u8]);
                        self.keyboard_focused_container = Some(path);
                        proof {
                            assert(crate::wm::shell::spec_surfaces(
                                seq![NodeView::Surface(surface_id)],
                            ) =~= seq![surface_id]) by {
                                reveal_with_fuel(crate::wm::shell::spec_surfaces, 2);
                            }
                            assert(seq![surface_id][0] == surface_id);
                        }
                    },
                }
                proof {
                    let shell = self@.shell;
                }
            },
            SurfaceInit::Wallpaper => {
                let old = self.shell.wallpaper;
                self.shell.wallpaper = Some(surface_id);
                let replaced = match old {
                    Some(old) => if old != surface_id {
                        Some(old)
                    } else {
                        None
                    },
                    None => None,
                };
                match replaced {
                    Some(old) => {
                        proof {
                            lemma_owner(self.surfaces@, old);
                        }
                        if let Some(i) = find(&self.surfaces, old) {
                            let quit = Outgoing {
                                task: self.surfaces[i].task,
                                event: Event::Surface { id: old, event: SurfaceEvent::Quit },
                            };
                            messages.push(quit);
                        }
                        let table = with_surface(&self.surfaces, surface);
                        let ghost inserted = table@;
                        let table = without_surface(&table, old);
                        self.set_surfaces(table);
                        proof {
                            let shell = self@.shell;
                        }
                        self.prune_shell();
                    },
                    None => {
                        let table = with_surface(&self.surfaces, surface);
                        self.set_surfaces(table);
                        proof {
                            let shell = self@.shell;
                        }
                    },
                }
            },
        }
        self.layout();
        self.push_dirty(&mut messages);
        messages
    }

    /// Routes an input event. The key combination Opt+Shift+X closes the
    /// focused surface. Every other event that concerns surfaces goes to the
    /// owner of the focused surface, touch and stylus events with the state
    /// of the contact or tool; without a focused surface the event is
    /// dropped.
    pub fn handle_input(
        &mut self,
        event: InputDeviceEvent,
        touch: &crate::input::touch::State,
        stylus: Option<StylusState>,
    ) -> (messages: Vec<Outgoing>)
        requires
            old(self)@.wf(),
            spec_can_enrich(event@, touch@.states, stylus),
        ensures
            final(self)@.wf(),
            if spec_is_close_hotkey(event@) && old(self)@.focused_surface().is_some() {
                match spec_owner(old(self)@.surfaces, old(self)@.focused_surface().unwrap()) {
                    Some(task) => final(self)@ == old(self)@.without_surface(
                        old(self)@.focused_surface().unwrap(),
                    ) && spec_outgoing(messages@) == seq![
                        spec_quit_message(task, old(self)@.focused_surface().unwrap()),
                    ] + spec_dirty(final(self)@.surfaces),
                    None => final(self)@ == old(self)@ && messages@.len() == 0,
                }
            } else {
                final(self)@ == old(self)@ && spec_outgoing(messages@) == spec_routed(
                    old(self)@,
                    event@,
                    touch@.states,
                    stylus,
                )
            },
    {
        let focused = self.focused_surface();
        if let InputDeviceEvent::Key(key_event) = &event {
            if key_event.event.press() {
                if let Some(surface_id) = focused {
                    if let Some(key) = key_event.key {
                        let is_x = match key {
                            Key::X => true,
                            _ => false,
                        };
                        if is_x && key_event.modifiers.opt() && key_event.modifiers.shift(false) {
                            return match self.remove_surface(surface_id) {
                                Some(messages) => messages,
                                None => Vec::new(),
                            };
                        }
                    }
                }
            }
        }
        let Some(surface_id) = focused else {
            return Vec::new();
        };
        let input = match event {
            InputDeviceEvent::Key(v) => InputEvent::Key(v),
            InputDeviceEvent::Text(v) => InputEvent::Text(v),
            InputDeviceEvent::Button(v) => InputEvent::Button(v),
            InputDeviceEvent::Touch(event) => {
                let phase = match event.phase {
                    TouchInputPhase::Start => match touch.get(event.touch_id.0) {
                        Some(state) => TouchPhase::Start(state),
                        None => TouchPhase::End,
                    },
                    TouchInputPhase::Change => match touch.get(event.touch_id.0) {
                        Some(state) => TouchPhase::Change(state),
                        None => TouchPhase::End,
                    },
                    TouchInputPhase::End => TouchPhase::End,
                };
                InputEvent::Touch(TouchEvent { id: event.touch_id, phase })
            },
            InputDeviceEvent::Stylus(event) => {
                let phase = match (event.phase, stylus) {
                    (StylusInputPhase::Hover, Some(state)) => StylusPhase::Hover(state),
                    (StylusInputPhase::Touch, Some(state)) => StylusPhase::Touch(state),
                    (StylusInputPhase::Change, Some(state)) => StylusPhase::Change(state),
                    (StylusInputPhase::Lift, Some(state)) => StylusPhase::Lift(state),
                    _ => StylusPhase::Leave,
                };
                InputEvent::Stylus(StylusEvent { phase })
            },
            InputDeviceEvent::DevicePresence(_) => {
                return Vec::new();
            },
        };
        proof {
            touch.lemma_states_len();
            lemma_owner(self.surfaces@, surface_id);
        }
        let mut messages: Vec<Outgoing> = Vec::new();
        if let Some(i) = find(&self.surfaces, surface_id) {
            let message = Outgoing {
                task: self.surfaces[i].task,
                event: Event::Surface { id: surface_id, event: SurfaceEvent::Input(input) },
            };
            messages.push(message);
        }
        messages
    }
}

} // verus!
