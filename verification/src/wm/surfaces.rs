//! The table of living surfaces.

use vstd::prelude::*;

use crate::protocol::server_to_client::SurfaceDescription;
use crate::protocol::{SurfaceId, TaskId};

verus! {

/// The server's record of a surface.
#[derive(Debug, Clone, Copy, PartialEq, Eq, Structural)]
pub struct Surface {
    pub id: SurfaceId,
    /// The place that the layout assigns to the surface.
    pub description: SurfaceDescription,
    /// The task that owns the surface.
    pub task: TaskId,
    /// The description that the owner was last told, if any.
    pub notified: Option<SurfaceDescription>,
}

/// The identifiers of the surfaces of a table.
pub open spec fn spec_ids(surfaces: Seq<Surface>) -> Set<SurfaceId> {
    Set::new(|id: SurfaceId| exists|i: int| 0 <= i < surfaces.len() && #[trigger] surfaces[i].id == id)
}

/// No identifier occurs twice in the table.
pub open spec fn spec_unique(surfaces: Seq<Surface>) -> bool {
    forall|i: int, j: int|
        0 <= i < j < surfaces.len() ==> (#[trigger] surfaces[i]).id != (#[trigger] surfaces[j]).id
}

/// The position of the surface `id` in the table.
pub fn find(surfaces: &Vec<Surface>, id: SurfaceId) -> (found: Option<usize>)
    ensures
        match found {
            Some(i) => i < surfaces@.len() && surfaces@[i as int].id == id && spec_ids(
                surfaces@,
            ).contains(id),
            None => !spec_ids(surfaces@).contains(id) && forall|k: int|
                0 <= k < surfaces@.len() ==> (#[trigger] surfaces@[k]).id != id,
        },
{
    let mut i: usize = 0;
    while i < surfaces.len()
        invariant
            i <= surfaces.len(),
            forall|k: int| 0 <= k < i ==> (#[trigger] surfaces@[k]).id != id,
        decreases surfaces.len() - i,
    {
        if surfaces[i].id == id {
            return Some(i);
        }
        i = i + 1;
    }
    None
}

/// Whether a surface is neither owned by the task nor has the identifier,
/// where one is given.
pub open spec fn spec_keep(surface: Surface, by_task: Option<TaskId>, by_id: Option<SurfaceId>) -> bool {
    by_task != Some(surface.task) && by_id != Some(surface.id)
}

/// The table without the surfaces that `task` owns.
pub open spec fn spec_without_task(surfaces: Seq<Surface>, task: TaskId) -> Seq<Surface> {
    surfaces.filter(|surface: Surface| spec_keep(surface, Some(task), None))
}

/// The table without the surface `id`.
pub open spec fn spec_without_surface(surfaces: Seq<Surface>, id: SurfaceId) -> Seq<Surface> {
    surfaces.filter(|surface: Surface| spec_keep(surface, None, Some(id)))
}

/// The table with `surface` in the place of the entry of the same
/// identifier; it goes to the end.
pub open spec fn spec_with_surface(surfaces: Seq<Surface>, surface: Surface) -> Seq<Surface> {
    spec_without_surface(surfaces, surface.id).push(surface)
}

/// The surfaces of the table that satisfy `keep`, in their order. The result
/// has no duplicates if the table has none, and every identifier in it is
/// one of the table.
fn filtered(surfaces: &Vec<Surface>, by_task: Option<TaskId>, by_id: Option<SurfaceId>) -> (kept: Vec<
    Surface,
>)
    requires
        spec_unique(surfaces@),
    ensures
        kept@ == surfaces@.filter(|surface: Surface| spec_keep(surface, by_task, by_id)),
        spec_unique(kept@),
        forall|j: int|
            0 <= j < kept@.len() ==> spec_ids(surfaces@).contains((#[trigger] kept@[j]).id),
        by_id matches Some(id) ==> !spec_ids(kept@).contains(id),
{
    let ghost pred = |surface: Surface| spec_keep(surface, by_task, by_id);
    let mut kept: Vec<Surface> = Vec::new();
    let mut i: usize = 0;
    while i < surfaces.len()
        invariant
            i <= surfaces.len(),
            spec_unique(surfaces@),
            pred == (|surface: Surface| spec_keep(surface, by_task, by_id)),
            kept@ == surfaces@.take(i as int).filter(pred),
            spec_unique(kept@),
            forall|j: int|
                0 <= j < kept@.len() ==> exists|k: int|
                    0 <= k < i && (#[trigger] surfaces@[k]).id == (#[trigger] kept@[j]).id,
            forall|j: int| 0 <= j < kept@.len() ==> pred(#[trigger] kept@[j]),
        decreases surfaces.len() - i,
    {
        let surface = surfaces[i];
        proof {
            reveal_with_fuel(Seq::filter, 2);
            assert(surfaces@.take(i + 1).drop_last() =~= surfaces@.take(i as int));
        }
        let drop_task = match by_task {
            Some(task) => surface.task == task,
            None => false,
        };
        let drop_id = match by_id {
            Some(id) => surface.id == id,
            None => false,
        };
        if !drop_task && !drop_id {
            let ghost before = kept@;
            kept.push(surface);
        }
        i = i + 1;
    }
    proof {
        assert(surfaces@.take(i as int) =~= surfaces@);
        if let Some(id) = by_id {
            if spec_ids(kept@).contains(id) {
                let j = choose|j: int| 0 <= j < kept@.len() && #[trigger] kept@[j].id == id;
            }
        }
    }
    kept
}

/// The table without the surfaces that `task` owns.
pub fn without_task(surfaces: &Vec<Surface>, task: TaskId) -> (kept: Vec<Surface>)
    requires
        spec_unique(surfaces@),
    ensures
        kept@ == spec_without_task(surfaces@, task),
        spec_unique(kept@),
        forall|j: int|
            0 <= j < kept@.len() ==> spec_ids(surfaces@).contains((#[trigger] kept@[j]).id),
{
    filtered(surfaces, Some(task), None)
}

/// The table without the surface `id`.
pub fn without_surface(surfaces: &Vec<Surface>, id: SurfaceId) -> (kept: Vec<Surface>)
    requires
        spec_unique(surfaces@),
    ensures
        kept@ == spec_without_surface(surfaces@, id),
        spec_unique(kept@),
        !spec_ids(kept@).contains(id),
        forall|j: int|
            0 <= j < kept@.len() ==> spec_ids(surfaces@).contains((#[trigger] kept@[j]).id),
{
    filtered(surfaces, None, Some(id))
}

/// The table with `surface` in the place of any entry of the same
/// identifier.
pub fn with_surface(surfaces: &Vec<Surface>, surface: Surface) -> (table: Vec<Surface>)
    requires
        spec_unique(surfaces@),
    ensures
        table@ == spec_with_surface(surfaces@, surface),
        spec_unique(table@),
        table@.len() >= 1,
        table@.last() == surface,
        forall|j: int|
            0 <= j < table@.len() - 1 ==> spec_ids(surfaces@).contains((#[trigger] table@[j]).id),
{
    let mut table = without_surface(surfaces, surface.id);
    let ghost before = table@;
    table.push(surface);
    table
}

} // verus!
