use vstd::prelude::*;
use crate::components::{
    CurrentHovered, MouseHoverHint, MouseInput, MouseSelectable, SelectableRegion,
};
use crate::geometry::{hit_test, pointer_hits, Point};
use crate::targeting::index_of;

verus! {

/// Whether `regions[i]` is the first region under a pointer at `world`.
pub open spec fn is_first_hit(world: Point, regions: Seq<SelectableRegion>, i: int) -> bool {
    &&& 0 <= i < regions.len()
    &&& pointer_hits(world, regions[i].position, regions[i].selectable.select_rect)
    &&& forall|j: int|
        0 <= j < i ==> !pointer_hits(
            world,
            (#[trigger] regions[j]).position,
            regions[j].selectable.select_rect,
        )
}

/// Whether a pointer at `world` is over no region.
pub open spec fn nothing_hit(world: Point, regions: Seq<SelectableRegion>) -> bool {
    forall|j: int|
        0 <= j < regions.len() ==> !pointer_hits(
            world,
            (#[trigger] regions[j]).position,
            regions[j].selectable.select_rect,
        )
}

/// The index of the first region under the pointer, `None` where it is over
/// no region.
pub open spec fn first_hit(world: Point, regions: Seq<SelectableRegion>) -> Option<int> {
    if exists|i: int| is_first_hit(world, regions, i) {
        Some(choose|i: int| is_first_hit(world, regions, i))
    } else {
        None
    }
}

/// At most one index is the first hit.
pub proof fn lemma_first_hit_unique(
    world: Point,
    regions: Seq<SelectableRegion>,
    i: int,
    k: int,
)
    requires
        is_first_hit(world, regions, i),
        is_first_hit(world, regions, k),
    ensures
        i == k,
{
    if i < k {
        assert(!pointer_hits(world, regions[i].position, regions[i].selectable.select_rect));
    } else if k < i {
        assert(!pointer_hits(world, regions[k].position, regions[k].selectable.select_rect));
    }
}

/// `first_hit` is `Some(i)` exactly for the index that `is_first_hit` holds of.
pub proof fn lemma_first_hit_is(world: Point, regions: Seq<SelectableRegion>, i: int)
    requires
        is_first_hit(world, regions, i),
    ensures
        first_hit(world, regions) == Some(i),
{
    let k = choose|k: int| is_first_hit(world, regions, k);
    lemma_first_hit_unique(world, regions, i, k);
}

/// Where the pointer is over no region, `first_hit` is `None`.
pub proof fn lemma_first_hit_none(world: Point, regions: Seq<SelectableRegion>)
    requires
        nothing_hit(world, regions),
    ensures
        first_hit(world, regions) is None,
{
    if exists|i: int| is_first_hit(world, regions, i) {
        let k = choose|k: int| is_first_hit(world, regions, k);
        assert(!pointer_hits(world, regions[k].position, regions[k].selectable.select_rect));
    }
}

/// The pointer state after a tick in which the device reported `cursor`
/// and the camera resolved it to `resolved`.
pub open spec fn pointer_after(mouse: MouseInput, cursor: Option<Point>, resolved: Option<Point>)
    -> MouseInput {
    MouseInput {
        camera_position: match cursor {
            Some(p) => p,
            None => mouse.camera_position,
        },
        world_position: match (cursor, resolved) {
            (Some(_), Some(w)) => w,
            _ => mouse.world_position,
        },
    }
}

/// Takes in what the pointing device reported in this tick.
///
/// `cursor` is the pointer's place in the window, absent while the pointer
/// is outside it; `resolved` is that place in world coordinates, absent where
/// the camera could not resolve it. What is absent leaves the stored value
/// as it was, and without a cursor `resolved` is not looked at.
pub fn listen_mouse_input(mouse: &mut MouseInput, cursor: Option<Point>, resolved: Option<Point>)
    ensures
        *final(mouse) == pointer_after(*old(mouse), cursor, resolved),
{
    match cursor {
        Some(p) => {
            mouse.camera_position = p;
            match resolved {
                Some(w) => {
                    mouse.world_position = w;
                },
                None => {},
            }
        },
        None => {},
    }
}

/// Scans the regions in order and returns the index of the first one under
/// a pointer at `world`.
pub fn recompute_hover(world: &Point, selectables: &Vec<SelectableRegion>) -> (r: Option<usize>)
    ensures
        index_of(r) == first_hit(*world, selectables@),
        match r {
            Some(i) => is_first_hit(*world, selectables@, i as int),
            None => nothing_hit(*world, selectables@),
        },
{
    let mut i: usize = 0;
    while i < selectables.len()
        invariant
            i <= selectables.len(),
            forall|j: int|
                0 <= j < i ==> !pointer_hits(
                    *world,
                    (#[trigger] selectables@[j]).position,
                    selectables@[j].selectable.select_rect,
                ),
        decreases selectables.len() - i,
    {
        let region = &selectables[i];
        if hit_test(world, &region.position, &region.selectable.select_rect) {
            proof {
                lemma_first_hit_is(*world, selectables@, i as int);
            }
            return Some(i);
        }
        i += 1;
    }
    proof {
        lemma_first_hit_none(*world, selectables@);
    }
    None
}

/// What a tick makes of the hover highlight: over a hovered region it is
/// shown at the region's position with the extents of the region's
/// rectangle as its scale, in tenths; otherwise it is hidden where it was.
pub open spec fn highlight_for(before: MouseHoverHint, hovered: Option<SelectableRegion>)
    -> MouseHoverHint {
    match hovered {
        Some(region) => MouseHoverHint {
            visible: true,
            position: region.position,
            scale_x_tenths: region.selectable.select_rect.spec_width() as i64,
            scale_y_tenths: region.selectable.select_rect.spec_height() as i64,
        },
        None => MouseHoverHint { visible: false, ..before },
    }
}

/// The region at an optional index.
pub open spec fn region_at(regions: Seq<SelectableRegion>, i: Option<int>) -> Option<
    SelectableRegion,
> {
    match i {
        Some(i) => Some(regions[i]),
        None => None,
    }
}

/// The selectable of the region at an optional index.
pub open spec fn selectable_at(regions: Seq<SelectableRegion>, i: Option<int>) -> Option<
    MouseSelectable,
> {
    match i {
        Some(i) => Some(regions[i].selectable),
        None => None,
    }
}

/// The region behind an optional reference.
pub open spec fn region_of(region: Option<&SelectableRegion>) -> Option<SelectableRegion> {
    match region {
        Some(r) => Some(*r),
        None => None,
    }
}

/// Picks the region at an optional index.
pub(crate) fn pick_region(selectables: &Vec<SelectableRegion>, hovered: Option<usize>) -> (region: Option<
    &SelectableRegion,
>)
    requires
        hovered matches Some(i) ==> i < selectables.len(),
    ensures
        region_of(region) == region_at(selectables@, index_of(hovered)),
{
    match hovered {
        Some(i) => Some(&selectables[i]),
        None => None,
    }
}

/// Records a copy of the selectable of the hovered region, or that none is
/// hovered.
pub fn set_hovered(current_hovered: &mut CurrentHovered, hovered: Option<&SelectableRegion>)
    ensures
        final(current_hovered).selectable == match hovered {
            Some(region) => Some(region.selectable),
            None => None,
        },
{
    match hovered {
        Some(region) => {
            current_hovered.selectable = Some(region.selectable.snapshot());
        },
        None => {
            current_hovered.selectable = None;
        },
    }
}

/// Moves the hover highlight onto the hovered region, or hides it.
pub fn update_highlight(hover_hint: &mut MouseHoverHint, hovered: Option<&SelectableRegion>)
    ensures
        *final(hover_hint) == highlight_for(*old(hover_hint), region_of(hovered)),
        final(hover_hint).visible == (hovered is Some),
{
    match hovered {
        Some(region) => {
            hover_hint.visible = true;
            hover_hint.position = region.position;
            hover_hint.scale_x_tenths = region.selectable.select_rect.width();
            hover_hint.scale_y_tenths = region.selectable.select_rect.height();
        },
        None => {
            hover_hint.visible = false;
        },
    }
}

/// Finds the region under the pointer, records a copy of its selectable as
/// the hovered one and moves the hover highlight onto it.
///
/// Returns the index of the hovered region.
pub fn mouse_event(
    mouse: &MouseInput,
    selectables: &Vec<SelectableRegion>,
    current_hovered: &mut CurrentHovered,
    hover_hint: &mut MouseHoverHint,
) -> (hovered: Option<usize>)
    ensures
        index_of(hovered) == first_hit(mouse.world_position, selectables@),
        final(current_hovered).selectable == selectable_at(selectables@, index_of(hovered)),
        *final(hover_hint) == highlight_for(
            *old(hover_hint),
            region_at(selectables@, index_of(hovered)),
        ),
        final(hover_hint).visible == (final(current_hovered).selectable is Some),
{
    let hovered = recompute_hover(&mouse.world_position, selectables);
    let region = pick_region(selectables, hovered);
    set_hovered(current_hovered, region);
    update_highlight(hover_hint, region);
    hovered
}

} // verus!
