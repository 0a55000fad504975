//! What the renderer reads of each element: one placement record per element
//! id, in an array of fixed capacity.
use vstd::prelude::*;

use crate::dom::distinct_ids;
use crate::dom::Dom;
use crate::element::ElementView;

verus! {

/// Where and how an element is drawn.
#[derive(Clone, Copy, Debug, PartialEq, Eq, Structural)]
pub struct Placement {
    pub x: i64,
    pub y: i64,
    pub scale: i64,
    pub angle: i64,
}

/// The placement that an element's present state gives.
pub open spec fn placement_of(element: ElementView) -> Placement {
    Placement {
        x: element.x() as i64,
        y: element.y() as i64,
        scale: element.scale() as i64,
        angle: element.angle() as i64,
    }
}

/// The placement of every element whose id is below `capacity`, at the index
/// of its id; `None` at the indices of the other ids. Elements whose id is
/// `capacity` or more are left out.
pub fn placements(dom: &Dom, capacity: usize) -> (r: Vec<Option<Placement>>)
    requires
        dom.wf(),
    ensures
        r@.len() == capacity,
        forall|i: int|
            0 <= i < dom@.len() && (#[trigger] dom@[i]).id() < capacity ==> r@[dom@[i].id() as int]
                == Some(placement_of(dom@[i])),
        forall|k: int|
            0 <= k < capacity && (#[trigger] r@[k]).is_some() ==> exists|i: int|
                0 <= i < dom@.len() && (#[trigger] dom@[i]).id() == k,
{
    let mut r: Vec<Option<Placement>> = Vec::new();
    let mut k: usize = 0;
    while k < capacity
        invariant
            k <= capacity,
            r@.len() == k,
            forall|j: int| 0 <= j < k ==> (#[trigger] r@[j]).is_none(),
        decreases capacity - k,
    {
        r.push(None);
        k = k + 1;
    }
    let n = dom.len();
    let mut i: usize = 0;
    while i < n
        invariant
            n == dom@.len(),
            i <= n,
            r@.len() == capacity,
            distinct_ids(dom@),
            forall|j: int|
                0 <= j < i && (#[trigger] dom@[j]).id() < capacity ==> r@[dom@[j].id() as int]
                    == Some(placement_of(dom@[j])),
            forall|k: int|
                0 <= k < capacity && (#[trigger] r@[k]).is_some() ==> exists|j: int|
                    0 <= j < i && (#[trigger] dom@[j]).id() == k,
        decreases n - i,
    {
        let element = dom.get_index(i);
        let id = element.get_id();
        if id < capacity {
            let placement = Placement {
                x: element.get_x(),
                y: element.get_y(),
                scale: element.get_scale(),
                angle: element.get_angle(),
            };
            r.set(id, Some(placement));
        }
        i = i + 1;
    }
    r
}

} // verus!
