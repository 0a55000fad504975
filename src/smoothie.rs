//! The authoring surface: creates elements, schedules keyframes on them and
//! hands the finished scene over.
use vstd::prelude::*;

use crate::dom::distinct_ids;
use crate::dom::inserted;
use crate::dom::Dom;
use crate::easing::Easing;
use crate::element::Arrow;
use crate::element::ArrowView;
use crate::element::Element;
use crate::element::ElementView;
use crate::element::Property;
use crate::keyframe::Keyframe;
use crate::scene::Scene;
use crate::scene::SceneState;
use crate::UNIT;

verus! {

/// The arrow that the builder creates with id `id`: at the origin, at scale
/// one, unrotated, filled and not stroked, with no keyframes.
pub open spec fn new_arrow(id: usize) -> ArrowView {
    ArrowView {
        x: 0,
        y: 0,
        stroke: false,
        fill: true,
        scale: UNIT as int,
        angle: 0,
        keyframes: Seq::empty(),
        id,
    }
}

/// The keyframe that animating `target`'s `property` to `to` schedules.
pub open spec fn scheduled_keyframe(
    target: ArrowView,
    property: Property,
    to: i64,
    start_time: u64,
    duration: u64,
    easing: Easing,
) -> Keyframe {
    Keyframe {
        property,
        start_value: target.property(property) as i64,
        end_value: to,
        start_time,
        duration,
        easing,
    }
}

/// The builder of an animation.
pub struct Smoothie {
    elements: Dom,
    current_element_id: usize,
    current_time: u64,
    scene: Scene,
}

/// The mathematical value of a [`Smoothie`].
pub struct SmoothieView {
    /// The elements registered so far, keyed by id.
    pub elements: Seq<ElementView>,
    /// The id that the next element gets.
    pub next_id: usize,
    /// The animation cursor, in microseconds.
    pub current_time: u64,
}

impl View for Smoothie {
    type V = SmoothieView;

    closed spec fn view(&self) -> SmoothieView {
        SmoothieView {
            elements: self.elements@,
            next_id: self.current_element_id,
            current_time: self.current_time,
        }
    }
}

impl Smoothie {
    /// The builder's invariant: each element id registered at most once, and
    /// the scene not yet started.
    pub closed spec fn wf(&self) -> bool {
        &&& distinct_ids(self@.elements)
        &&& self.scene@.state == SceneState::Idle
    }

    /// A builder with no elements, the first id zero and the cursor at zero.
    pub fn new() -> (r: Smoothie)
        ensures
            r.wf(),
            r@.elements == Seq::<ElementView>::empty(),
            r@.next_id == 0,
            r@.current_time == 0,
    {
        Smoothie {
            elements: Dom::new(),
            current_element_id: 0,
            current_time: 0,
            scene: Scene::new(),
        }
    }

    /// Creates a new arrow with the next id.
    pub fn arrow(&mut self) -> (r: Arrow)
        requires
            old(self)@.next_id < usize::MAX,
        ensures
            r@ == new_arrow(old(self)@.next_id),
            final(self)@ == (SmoothieView { next_id: (old(self)@.next_id + 1) as usize, ..old(self)@ }),
            final(self).wf() == old(self).wf(),
    {
        let arrow = Arrow {
            x: 0,
            y: 0,
            angle: 0,
            scale: UNIT,
            stroke: false,
            fill: true,
            keyframes: Vec::new(),
            id: self.current_element_id,
        };
        assert(arrow@.keyframes =~= Seq::<Keyframe>::empty());
        self.current_element_id = self.current_element_id + 1;
        arrow
    }

    /// The id that the next element created gets.
    pub fn get_next_element_id(&self) -> (r: usize)
        ensures
            r == self@.next_id,
    {
        self.current_element_id
    }

    /// Registers a copy of `element`, in place of the one with its id if there is one.
    pub fn add_element(&mut self, element: &Element)
        requires
            old(self).wf(),
        ensures
            final(self).wf(),
            final(self)@ == (SmoothieView {
                elements: inserted(old(self)@.elements, element@),
                ..old(self)@
            }),
    {
        self.elements.insert(element.box_clone());
    }

    /// The animation cursor: where the next `animate` starts.
    pub fn get_current_animation_time(&self) -> (r: u64)
        ensures
            r == self@.current_time,
    {
        self.current_time
    }

    /// Moves the animation cursor on by `duration`.
    pub fn increment_animation_time(&mut self, duration: u64)
        requires
            old(self)@.current_time + duration <= u64::MAX,
        ensures
            final(self)@ == (SmoothieView {
                current_time: (old(self)@.current_time + duration) as u64,
                ..old(self)@
            }),
            final(self).wf() == old(self).wf(),
    {
        self.current_time = self.current_time + duration;
    }

    /// Schedules `target`'s `property` to go from its present value to `to`
    /// over `duration` from `start_time`: the keyframe is added to `target`, a
    /// copy of `target` with it is registered, and `target`'s property is then
    /// set to `to`. The cursor does not move.
    pub fn animate_at(
        &mut self,
        target: &mut Arrow,
        property: Property,
        to: i64,
        start_time: u64,
        duration: u64,
        easing: Easing,
    )
        requires
            old(self).wf(),
        ensures
            final(self).wf(),
            ({
                let with_keyframe = ArrowView {
                    keyframes: old(target)@.keyframes.push(
                        scheduled_keyframe(
                            old(target)@,
                            property,
                            to,
                            start_time,
                            duration,
                            easing,
                        ),
                    ),
                    ..old(target)@
                };
                &&& final(self)@ == (SmoothieView {
                    elements: inserted(old(self)@.elements, ElementView::Arrow(with_keyframe)),
                    ..old(self)@
                })
                &&& final(target)@ == with_keyframe.with_property(property, to as int)
            }),
    {
        let from = target.property(property);
        target.add_keyframe((property, from, to, start_time, duration, easing));
        self.add_element(&Element::Arrow(target.box_clone()));
        target.set_property(property, to);
    }

    /// As [`Smoothie::animate_at`] at the cursor, then moves the cursor on by
    /// `duration`, so that the next animation starts where this one ends.
    pub fn animate(
        &mut self,
        target: &mut Arrow,
        property: Property,
        to: i64,
        duration: u64,
        easing: Easing,
    )
        requires
            old(self).wf(),
            old(self)@.current_time + duration <= u64::MAX,
        ensures
            final(self).wf(),
            ({
                let with_keyframe = ArrowView {
                    keyframes: old(target)@.keyframes.push(
                        scheduled_keyframe(
                            old(target)@,
                            property,
                            to,
                            old(self)@.current_time,
                            duration,
                            easing,
                        ),
                    ),
                    ..old(target)@
                };
                &&& final(self)@ == (SmoothieView {
                    elements: inserted(old(self)@.elements, ElementView::Arrow(with_keyframe)),
                    next_id: old(self)@.next_id,
                    current_time: (old(self)@.current_time + duration) as u64,
                })
                &&& final(target)@ == with_keyframe.with_property(property, to as int)
            }),
    {
        let start_time = self.current_time;
        self.animate_at(target, property, to, start_time, duration, easing);
        self.increment_animation_time(duration);
    }

    /// Ends authoring: the registered elements go to the scene, which starts
    /// running.
    pub fn serve(self) -> (r: Scene)
        requires
            self.wf(),
        ensures
            r@.state == SceneState::Running,
            r@.elements == self@.elements,
            r.wf(),
    {
        let mut scene = self.scene;
        scene.start(self.elements);
        scene
    }
}

/// A new builder for an animation.
pub fn shake() -> (r: Smoothie)
    ensures
        r.wf(),
        r@.elements == Seq::<ElementView>::empty(),
        r@.next_id == 0,
        r@.current_time == 0,
{
    Smoothie::new()
}

} // verus!
