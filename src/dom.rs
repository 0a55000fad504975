//! The element map: element id to element, each id at most once.
use vstd::prelude::*;

use crate::element::Element;
use crate::element::lemma_element_update_idempotent;
use crate::element::ElementView;

verus! {

/// Whether some element of `elements` has id `id`.
pub open spec fn contains_id(elements: Seq<ElementView>, id: usize) -> bool {
    exists|i: int| 0 <= i < elements.len() && (#[trigger] elements[i]).id() == id
}

/// Whether no two elements of `elements` share an id.
pub open spec fn distinct_ids(elements: Seq<ElementView>) -> bool {
    forall|i: int, j: int|
        0 <= i < elements.len() && 0 <= j < elements.len() && i != j ==> (#[trigger] elements[i]).id()
            != (#[trigger] elements[j]).id()
}

/// `elements` with `element` in place of the element of the same id, or with
/// `element` added at the end where there is none.
pub open spec fn inserted(elements: Seq<ElementView>, element: ElementView) -> Seq<ElementView> {
    if contains_id(elements, element.id()) {
        elements.map_values(|e: ElementView| if e.id() == element.id() { element } else { e })
    } else {
        elements.push(element)
    }
}

/// Every element of `elements` updated at time `t`.
pub open spec fn all_updated(elements: Seq<ElementView>, t: int) -> Seq<ElementView> {
    elements.map_values(|e: ElementView| e.updated(t))
}

/// Inserting keeps the ids distinct.
pub proof fn lemma_inserted_distinct(elements: Seq<ElementView>, element: ElementView)
    requires
        distinct_ids(elements),
    ensures
        distinct_ids(inserted(elements, element)),
        contains_id(inserted(elements, element), element.id()),
{
    let r = inserted(elements, element);
    if contains_id(elements, element.id()) {
        let k = choose|k: int| 0 <= k < elements.len() && (#[trigger] elements[k]).id() == element.id();
        assert(r[k] == element);
        assert forall|i: int, j: int|
            0 <= i < r.len() && 0 <= j < r.len() && i != j implies (#[trigger] r[i]).id() != (
            #[trigger] r[j]).id() by {
            assert(r[i].id() == elements[i].id());
            assert(r[j].id() == elements[j].id());
        }
    } else {
        assert(r[elements.len() as int] == element);
        assert forall|i: int, j: int|
            0 <= i < r.len() && 0 <= j < r.len() && i != j implies (#[trigger] r[i]).id() != (
            #[trigger] r[j]).id() by {
            if i < elements.len() {
                assert(r[i] == elements[i]);
            }
            if j < elements.len() {
                assert(r[j] == elements[j]);
            }
        }
    }
}

/// Updating every element keeps the ids where they were.
pub proof fn lemma_all_updated_keeps_ids(elements: Seq<ElementView>, t: int)
    ensures
        all_updated(elements, t).len() == elements.len(),
        forall|i: int|
            0 <= i < elements.len() ==> (#[trigger] all_updated(elements, t)[i]).id()
                == elements[i].id(),
        distinct_ids(elements) ==> distinct_ids(all_updated(elements, t)),
{
    assert forall|i: int| 0 <= i < elements.len() implies (#[trigger] all_updated(
        elements,
        t,
    )[i]).id() == elements[i].id() by {
        elements[i].lemma_updated_keeps_id(t);
    }
}

/// Updating every element twice at the same time gives what updating them once gives.
pub proof fn lemma_all_updated_idempotent(elements: Seq<ElementView>, t: int)
    ensures
        all_updated(all_updated(elements, t), t) == all_updated(elements, t),
{
    assert forall|i: int| 0 <= i < elements.len() implies #[trigger] all_updated(
        all_updated(elements, t),
        t,
    )[i] == all_updated(elements, t)[i] by {
        lemma_element_update_idempotent(elements[i], t);
    }
    assert(all_updated(all_updated(elements, t), t) =~= all_updated(elements, t));
}

/// The elements of a scene, keyed by id.
#[derive(Clone, Debug)]
pub struct Dom {
    elements: Vec<Element>,
}

impl View for Dom {
    type V = Seq<ElementView>;

    closed spec fn view(&self) -> Seq<ElementView> {
        self.elements@.map_values(|e: Element| e@)
    }
}

impl Dom {
    /// The map's invariant: each id at most once.
    pub open spec fn wf(&self) -> bool {
        distinct_ids(self@)
    }

    pub fn new() -> (r: Dom)
        ensures
            r@ == Seq::<ElementView>::empty(),
            r.wf(),
    {
        let r = Dom { elements: Vec::new() };
        assert(r@ =~= Seq::<ElementView>::empty());
        r
    }

    /// The number of elements.
    pub fn len(&self) -> (r: usize)
        ensures
            r == self@.len(),
    {
        self.elements.len()
    }

    /// The element at position `index`, in order of first insertion.
    pub fn get_index(&self, index: usize) -> (r: &Element)
        requires
            index < self@.len(),
        ensures
            r@ == self@[index as int],
    {
        &self.elements[index]
    }

    /// Puts `element` in the map, in place of the element with its id if there is one.
    pub fn insert(&mut self, element: Element)
        requires
            old(self).wf(),
        ensures
            final(self)@ == inserted(old(self)@, element@),
            final(self).wf(),
    {
        let id = element.get_id();
        let n = self.elements.len();
        let mut found = false;
        let mut i: usize = 0;
        while i < n
            invariant
                n == old(self)@.len(),
                i <= n,
                self.elements@.len() == n,
                forall|j: int|
                    0 <= j < i ==> (#[trigger] self.elements@[j])@ == (if old(self)@[j].id() == id {
                        element@
                    } else {
                        old(self)@[j]
                    }),
                forall|j: int| i <= j < n ==> (#[trigger] self.elements@[j])@ == old(self)@[j],
                found == (exists|j: int| 0 <= j < i && (#[trigger] old(self)@[j]).id() == id),
                id == element@.id(),
            decreases n - i,
        {
            if self.elements[i].get_id() == id {
                self.elements.set(i, element.box_clone());
                found = true;
            }
            i = i + 1;
        }
        if !found {
            self.elements.push(element);
            assert(self@ =~= old(self)@.push(element@));
        } else {
            assert(self@ =~= old(self)@.map_values(
                |e: ElementView| if e.id() == element@.id() { element@ } else { e },
            ));
        }
        proof {
            lemma_inserted_distinct(old(self)@, element@);
        }
    }

    /// The element with id `id`, if there is one.
    pub fn get(&self, id: usize) -> (r: Option<&Element>)
        requires
            self.wf(),
        ensures
            r.is_none() == !contains_id(self@, id),
            r matches Some(e) ==> e@.id() == id && exists|i: int|
                0 <= i < self@.len() && self@[i] == e@,
    {
        let n = self.elements.len();
        let mut i: usize = 0;
        while i < n
            invariant
                n == self@.len(),
                i <= n,
                forall|j: int| 0 <= j < i ==> (#[trigger] self@[j]).id() != id,
            decreases n - i,
        {
            if self.elements[i].get_id() == id {
                assert(self@[i as int] == self.elements@[i as int]@);
                return Some(&self.elements[i]);
            }
            i = i + 1;
        }
        None
    }

    /// Applies each element's keyframes that are active at `time_since_start`.
    pub fn update_all(&mut self, time_since_start: u64)
        requires
            old(self).wf(),
        ensures
            final(self)@ == all_updated(old(self)@, time_since_start as int),
            final(self).wf(),
    {
        let n = self.elements.len();
        let mut i: usize = 0;
        while i < n
            invariant
                n == old(self)@.len(),
                i <= n,
                self.elements@.len() == n,
                forall|j: int|
                    0 <= j < i ==> (#[trigger] self.elements@[j])@ == old(self)@[j].updated(
                        time_since_start as int,
                    ),
                forall|j: int| i <= j < n ==> (#[trigger] self.elements@[j])@ == old(self)@[j],
            decreases n - i,
        {
            let mut element = self.elements[i].box_clone();
            element.update_data_with_keyframes(time_since_start);
            self.elements.set(i, element);
            i = i + 1;
        }
        assert(self@ =~= all_updated(old(self)@, time_since_start as int));
        proof {
            lemma_all_updated_keeps_ids(old(self)@, time_since_start as int);
        }
    }

    /// A copy of the map: every element copied, keyframes included.
    pub fn box_clone(&self) -> (r: Dom)
        ensures
            r@ == self@,
    {
        let n = self.elements.len();
        let mut elements: Vec<Element> = Vec::new();
        let mut i: usize = 0;
        while i < n
            invariant
                n == self@.len(),
                i <= n,
                elements@.len() == i,
                forall|j: int| 0 <= j < i ==> (#[trigger] elements@[j])@ == self@[j],
            decreases n - i,
        {
            elements.push(self.elements[i].box_clone());
            i = i + 1;
        }
        let r = Dom { elements };
        assert(r@ =~= self@);
        r
    }
}

} // verus!
