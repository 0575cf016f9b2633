//! Resolution of desktop identifiers to positions in the current desktop list.

use vstd::prelude::*;
use crate::event::{DesktopID, HRESULT, VirtualDesktopEvent};

verus! {

/// Whether `index` is the position at which `id` resolves in `desktops`: the
/// last position that holds it.
pub open spec fn resolves_to(desktops: Seq<DesktopID>, id: DesktopID, index: int) -> bool {
    &&& 0 <= index < desktops.len()
    &&& desktops[index] == id
    &&& forall|later: int| index < later < desktops.len() ==> desktops[later] != id
}

/// The position of `id` in `desktops`, or `None` where the list does not hold it.
pub open spec fn position_of(desktops: Seq<DesktopID>, id: DesktopID) -> Option<int> {
    if desktops.contains(id) {
        Some(choose|index: int| resolves_to(desktops, id, index))
    } else {
        None
    }
}

/// The event that a change of the current desktop gives rise to: one that names
/// both positions where the listing succeeded and holds both identifiers, and
/// none otherwise.
pub open spec fn changed_event(
    listing: Result<Seq<DesktopID>, HRESULT>,
    old_id: DesktopID,
    new_id: DesktopID,
) -> Option<VirtualDesktopEvent> {
    match listing {
        Ok(desktops) => match (position_of(desktops, old_id), position_of(desktops, new_id)) {
            (Some(old_index), Some(new_index)) => Some(
                VirtualDesktopEvent::DesktopChanged(old_index as usize, new_index as usize),
            ),
            _ => None,
        },
        Err(_) => None,
    }
}

/// The listing as a value of contracts: the list by its view, the error as it is.
pub open spec fn listing_view(listing: Result<Vec<DesktopID>, HRESULT>) -> Result<
    Seq<DesktopID>,
    HRESULT,
> {
    match listing {
        Ok(desktops) => Ok(desktops@),
        Err(status) => Err(status),
    }
}

/// At most one position is the one at which an identifier resolves.
pub proof fn lemma_resolution_is_unique(
    desktops: Seq<DesktopID>,
    id: DesktopID,
    first: int,
    second: int,
)
    requires
        resolves_to(desktops, id, first),
        resolves_to(desktops, id, second),
    ensures
        first == second,
{
    if first < second {
        assert(desktops[second] != id);
    } else if second < first {
        assert(desktops[first] != id);
    }
}

/// An identifier that the list holds resolves to some position.
pub proof fn lemma_held_identifier_resolves(desktops: Seq<DesktopID>, id: DesktopID)
    requires
        desktops.contains(id),
    ensures
        exists|index: int| resolves_to(desktops, id, index),
    decreases desktops.len(),
{
    let last = desktops.len() - 1;
    if desktops[last] == id {
        assert(resolves_to(desktops, id, last));
    } else {
        let front = desktops.drop_last();
        let held = choose|i: int| 0 <= i < desktops.len() && desktops[i] == id;
        assert(front[held] == id);
        lemma_held_identifier_resolves(front, id);
        let index = choose|index: int| resolves_to(front, id, index);
        assert(front[index] == desktops[index]);
        assert forall|later: int| index < later < desktops.len() implies desktops[later] != id by {
            if later < last {
                assert(front[later] == desktops[later]);
            }
        }
        assert(resolves_to(desktops, id, index));
    }
}

/// `position_of` gives exactly the position at which the identifier resolves.
pub proof fn lemma_position_of(desktops: Seq<DesktopID>, id: DesktopID)
    ensures
        position_of(desktops, id) is Some <==> desktops.contains(id),
        forall|index: int|
            resolves_to(desktops, id, index) <==> position_of(desktops, id) == Some(index),
{
    if desktops.contains(id) {
        lemma_held_identifier_resolves(desktops, id);
        let chosen = choose|index: int| resolves_to(desktops, id, index);
        assert forall|index: int| resolves_to(desktops, id, index) implies index == chosen by {
            lemma_resolution_is_unique(desktops, id, index, chosen);
        }
    } else {
        assert forall|index: int| !resolves_to(desktops, id, index) by {
            if 0 <= index < desktops.len() && desktops[index] == id {
                assert(desktops.contains(id));
            }
        }
    }
}

/// In a list without repetitions, an identifier resolves to the one position
/// that holds it.
pub proof fn lemma_position_in_distinct_list(desktops: Seq<DesktopID>, index: int)
    requires
        desktops.no_duplicates(),
        0 <= index < desktops.len(),
    ensures
        position_of(desktops, desktops[index]) == Some(index),
{
    assert(resolves_to(desktops, desktops[index], index));
    lemma_position_of(desktops, desktops[index]);
}

/// A change of the current desktop gives an event if and only if the listing
/// succeeded and holds both identifiers; the event then names the position of
/// each. Where only one of the two resolves, there is no event.
///
/// The list is one that a `Vec` can hold, so that a position is a `usize`.
pub proof fn lemma_changed_event_needs_both(
    listing: Result<Seq<DesktopID>, HRESULT>,
    old_id: DesktopID,
    new_id: DesktopID,
)
    requires
        listing matches Ok(desktops) ==> desktops.len() <= usize::MAX,
    ensures
        changed_event(listing, old_id, new_id) is Some <==> listing is Ok
            && listing->Ok_0.contains(old_id) && listing->Ok_0.contains(new_id),
        changed_event(listing, old_id, new_id) matches Some(event) ==> {
            &&& event matches VirtualDesktopEvent::DesktopChanged(old_index, new_index)
            &&& resolves_to(listing->Ok_0, old_id, old_index as int)
            &&& resolves_to(listing->Ok_0, new_id, new_index as int)
        },
        changed_event(listing, old_id, new_id) matches Some(event) ==> !(event
            is DesktopCreated) && !(event is DesktopDestroyed) && !(event is WindowChanged),
{
    if let Ok(desktops) = listing {
        lemma_position_of(desktops, old_id);
        lemma_position_of(desktops, new_id);
        if desktops.contains(old_id) && desktops.contains(new_id) {
            let old_index = position_of(desktops, old_id)->Some_0;
            let new_index = position_of(desktops, new_id)->Some_0;
            assert(resolves_to(desktops, old_id, old_index));
            assert(resolves_to(desktops, new_id, new_index));
        }
    }
}

/// Scans the list for `id` and returns the position at which it resolves.
pub fn find_index(desktops: &Vec<DesktopID>, id: DesktopID) -> (found: Option<usize>)
    ensures
        found is Some <==> desktops@.contains(id),
        found matches Some(index) ==> resolves_to(desktops@, id, index as int),
        found matches Some(index) ==> position_of(desktops@, id) == Some(index as int),
        found is None ==> position_of(desktops@, id) is None,
{
    let mut found: Option<usize> = None;
    let mut i: usize = 0;
    while i < desktops.len()
        invariant
            i <= desktops.len(),
            found matches Some(index) ==> resolves_to(desktops@.take(i as int), id, index as int),
            found is None ==> !desktops@.take(i as int).contains(id),
        decreases desktops.len() - i,
    {
        let ghost seen = desktops@.take(i as int);
        let ghost next = desktops@.take(i + 1);
        if desktops[i] == id {
            found = Some(i);
            assert(resolves_to(next, id, i as int));
        } else {
            proof {
                match found {
                    Some(index) => {
                        assert(next[index as int] == seen[index as int]);
                        assert forall|later: int| index < later < next.len() implies next[later]
                            != id by {
                            if later < i {
                                assert(seen[later] == next[later]);
                            }
                        }
                        assert(resolves_to(next, id, index as int));
                    },
                    None => {
                        if next.contains(id) {
                            let at = choose|k: int| 0 <= k < next.len() && next[k] == id;
                            assert(seen[at] == id);
                            assert(false);
                        }
                    },
                }
            }
        }
        i += 1;
    }
    proof {
        assert(desktops@.take(i as int) == desktops@);
        lemma_position_of(desktops@, id);
    }
    found
}

/// Resolves both ends of a change of the current desktop against the listing.
///
/// Both positions or nothing: an event that names only one is never made.
pub fn desktop_changed_event(
    listing: &Result<Vec<DesktopID>, HRESULT>,
    old_id: DesktopID,
    new_id: DesktopID,
) -> (event: Option<VirtualDesktopEvent>)
    ensures
        event == changed_event(listing_view(*listing), old_id, new_id),
        event is Some <==> (listing matches Ok(desktops) && desktops@.contains(old_id)
            && desktops@.contains(new_id)),
        event matches Some(made) ==> {
            &&& made matches VirtualDesktopEvent::DesktopChanged(old_index, new_index)
            &&& resolves_to(listing->Ok_0@, old_id, old_index as int)
            &&& resolves_to(listing->Ok_0@, new_id, new_index as int)
        },
{
    match listing {
        Ok(desktops) => {
            let old_index = find_index(desktops, old_id);
            let new_index = find_index(desktops, new_id);
            match (old_index, new_index) {
                (Some(old_index), Some(new_index)) => Some(
                    VirtualDesktopEvent::DesktopChanged(old_index, new_index),
                ),
                _ => None,
            }
        },
        Err(_) => None,
    }
}

} // verus!
