//! Drawable elements and their animatable properties.
use vstd::prelude::*;

use crate::keyframe::Keyframe;

verus! {

/// An animatable numeric property of an element.
#[derive(Clone, Copy, Debug, PartialEq, Eq, Structural)]
pub enum Property {
    X,
    Y,
    Scale,
    /// Radians, in fixed point.
    Angle,
}

/// An arrow shape, drawn within `[-1, 1]` around its position before scaling.
#[derive(Clone, Debug)]
pub struct Arrow {
    pub x: i64,
    pub y: i64,
    pub stroke: bool,
    pub fill: bool,
    pub scale: i64,
    pub angle: i64,
    pub(crate) keyframes: Vec<Keyframe>,
    pub(crate) id: usize,
}

/// The mathematical value of an [`Arrow`].
pub struct ArrowView {
    pub x: int,
    pub y: int,
    pub stroke: bool,
    pub fill: bool,
    pub scale: int,
    pub angle: int,
    pub keyframes: Seq<Keyframe>,
    pub id: usize,
}

impl ArrowView {
    /// The current value of `property`.
    pub open spec fn property(self, property: Property) -> int {
        match property {
            Property::X => self.x,
            Property::Y => self.y,
            Property::Scale => self.scale,
            Property::Angle => self.angle,
        }
    }

    /// The arrow with `property` set to `value` and all else kept.
    pub open spec fn with_property(self, property: Property, value: int) -> ArrowView {
        match property {
            Property::X => ArrowView { x: value, ..self },
            Property::Y => ArrowView { y: value, ..self },
            Property::Scale => ArrowView { scale: value, ..self },
            Property::Angle => ArrowView { angle: value, ..self },
        }
    }

    /// Setting one property changes that property alone.
    pub proof fn lemma_with_property(self, property: Property, value: int, other: Property)
        ensures
            self.with_property(property, value).property(other) == if other == property {
                value
            } else {
                self.property(other)
            },
            self.with_property(property, value).stroke == self.stroke,
            self.with_property(property, value).fill == self.fill,
            self.with_property(property, value).keyframes == self.keyframes,
            self.with_property(property, value).id == self.id,
    {
    }

    /// The arrow after its keyframes have been applied at time `t`.
    pub open spec fn updated(self, t: int) -> ArrowView {
        apply_keyframes(self, self.keyframes, t)
    }
}

/// Applies, in order, each keyframe of `keyframes` that is active at `t`.
pub open spec fn apply_keyframes(arrow: ArrowView, keyframes: Seq<Keyframe>, t: int) -> ArrowView
    decreases keyframes.len(),
{
    if keyframes.len() == 0 {
        arrow
    } else {
        let before = apply_keyframes(arrow, keyframes.drop_last(), t);
        let k = keyframes.last();
        if k.active_at(t) {
            before.with_property(k.property, k.value_at(t))
        } else {
            before
        }
    }
}

/// The value of `property` after `keyframes` have been applied at `t` to an
/// arrow whose value of it was `current`: that of the last active keyframe on
/// `property`, or `current` where there is none.
pub open spec fn last_keyframe_value(
    keyframes: Seq<Keyframe>,
    property: Property,
    t: int,
    current: int,
) -> int
    decreases keyframes.len(),
{
    if keyframes.len() == 0 {
        current
    } else {
        let k = keyframes.last();
        if k.active_at(t) && k.property == property {
            k.value_at(t)
        } else {
            last_keyframe_value(keyframes.drop_last(), property, t, current)
        }
    }
}

/// Applying keyframes sets each property to its last active keyframe's value
/// and leaves everything but the four properties as it was.
pub proof fn lemma_apply_keyframes_shape(arrow: ArrowView, keyframes: Seq<Keyframe>, t: int)
    ensures
        apply_keyframes(arrow, keyframes, t).stroke == arrow.stroke,
        apply_keyframes(arrow, keyframes, t).fill == arrow.fill,
        apply_keyframes(arrow, keyframes, t).keyframes == arrow.keyframes,
        apply_keyframes(arrow, keyframes, t).id == arrow.id,
        forall|p: Property|
            #[trigger] apply_keyframes(arrow, keyframes, t).property(p) == last_keyframe_value(
                keyframes,
                p,
                t,
                arrow.property(p),
            ),
    decreases keyframes.len(),
{
    if keyframes.len() > 0 {
        lemma_apply_keyframes_shape(arrow, keyframes.drop_last(), t);
        let before = apply_keyframes(arrow, keyframes.drop_last(), t);
        let k = keyframes.last();
        assert forall|p: Property|
            #[trigger] apply_keyframes(arrow, keyframes, t).property(p) == last_keyframe_value(
                keyframes,
                p,
                t,
                arrow.property(p),
            ) by {
            before.lemma_with_property(k.property, k.value_at(t), p);
        }
    }
}

/// Taking the last active value twice gives the same as taking it once.
proof fn lemma_last_keyframe_value_absorbs(
    keyframes: Seq<Keyframe>,
    property: Property,
    t: int,
    current: int,
)
    ensures
        last_keyframe_value(
            keyframes,
            property,
            t,
            last_keyframe_value(keyframes, property, t, current),
        ) == last_keyframe_value(keyframes, property, t, current),
    decreases keyframes.len(),
{
    if keyframes.len() > 0 {
        let k = keyframes.last();
        if !(k.active_at(t) && k.property == property) {
            lemma_last_keyframe_value_absorbs(keyframes.drop_last(), property, t, current);
        }
    }
}

/// Two arrow values that agree on every field are the same value.
proof fn lemma_arrow_view_ext(a: ArrowView, b: ArrowView)
    requires
        a.stroke == b.stroke,
        a.fill == b.fill,
        a.keyframes == b.keyframes,
        a.id == b.id,
        forall|p: Property| a.property(p) == b.property(p),
    ensures
        a == b,
{
    assert(a.property(Property::X) == b.property(Property::X));
    assert(a.property(Property::Y) == b.property(Property::Y));
    assert(a.property(Property::Scale) == b.property(Property::Scale));
    assert(a.property(Property::Angle) == b.property(Property::Angle));
}

/// Updating an arrow twice at the same time gives what updating it once gives.
pub proof fn lemma_update_idempotent(arrow: ArrowView, t: int)
    ensures
        arrow.updated(t).updated(t) == arrow.updated(t),
{
    let once = arrow.updated(t);
    lemma_apply_keyframes_shape(arrow, arrow.keyframes, t);
    lemma_apply_keyframes_shape(once, once.keyframes, t);
    assert forall|p: Property| once.updated(t).property(p) == once.property(p) by {
        lemma_last_keyframe_value_absorbs(arrow.keyframes, p, t, arrow.property(p));
    }
    lemma_arrow_view_ext(once.updated(t), once);
}

/// An arrow none of whose keyframes is active at `t` is left as it is.
pub proof fn lemma_no_active_keyframe_keeps_arrow(arrow: ArrowView, t: int)
    requires
        forall|i: int| 0 <= i < arrow.keyframes.len() ==> !(#[trigger] arrow.keyframes[i]).active_at(t),
    ensures
        arrow.updated(t) == arrow,
{
    lemma_no_active_keyframe_applies_nothing(arrow, arrow.keyframes, t);
}

proof fn lemma_no_active_keyframe_applies_nothing(arrow: ArrowView, keyframes: Seq<Keyframe>, t: int)
    requires
        forall|i: int| 0 <= i < keyframes.len() ==> !(#[trigger] keyframes[i]).active_at(t),
    ensures
        apply_keyframes(arrow, keyframes, t) == arrow,
    decreases keyframes.len(),
{
    if keyframes.len() > 0 {
        let rest = keyframes.drop_last();
        assert forall|i: int| 0 <= i < rest.len() implies !(#[trigger] rest[i]).active_at(t) by {
            assert(rest[i] == keyframes[i]);
        }
        lemma_no_active_keyframe_applies_nothing(arrow, rest, t);
        assert(!keyframes[keyframes.len() - 1].active_at(t));
    }
}

impl View for Arrow {
    type V = ArrowView;

    open(crate) spec fn view(&self) -> ArrowView {
        ArrowView {
            x: self.x as int,
            y: self.y as int,
            stroke: self.stroke,
            fill: self.fill,
            scale: self.scale as int,
            angle: self.angle as int,
            keyframes: self.keyframes@,
            id: self.id,
        }
    }
}

impl Arrow {
    /// Reads `property`.
    pub fn property(&self, property: Property) -> (r: i64)
        ensures
            r == self@.property(property),
    {
        match property {
            Property::X => self.x,
            Property::Y => self.y,
            Property::Scale => self.scale,
            Property::Angle => self.angle,
        }
    }

    /// Writes `property`; this is the setter that keyframes are bound to.
    pub fn set_property(&mut self, property: Property, value: i64)
        ensures
            final(self)@ == old(self)@.with_property(property, value as int),
    {
        match property {
            Property::X => self.x = value,
            Property::Y => self.y = value,
            Property::Scale => self.scale = value,
            Property::Angle => self.angle = value,
        }
    }

    /// Adds a keyframe given as (property, start value, end value, start time,
    /// duration, easing) after the arrow's other keyframes.
    pub fn add_keyframe(
        &mut self,
        keyframe_data: (Property, i64, i64, u64, u64, crate::easing::Easing),
    )
        ensures
            final(self)@ == (ArrowView {
                keyframes: old(self)@.keyframes.push(
                    Keyframe {
                        property: keyframe_data.0,
                        start_value: keyframe_data.1,
                        end_value: keyframe_data.2,
                        start_time: keyframe_data.3,
                        duration: keyframe_data.4,
                        easing: keyframe_data.5,
                    },
                ),
                ..old(self)@
            }),
    {
        let (property, start_value, end_value, start_time, duration, easing) = keyframe_data;
        self.keyframes.push(
            Keyframe { property, start_value, end_value, start_time, duration, easing },
        );
    }

    /// Applies, in order, every keyframe that is active at `time_since_start`;
    /// properties that no active keyframe sets keep their values.
    pub fn update_data_with_keyframes(&mut self, time_since_start: u64)
        ensures
            final(self)@ == old(self)@.updated(time_since_start as int),
    {
        let n = self.keyframes.len();
        let mut i: usize = 0;
        while i < n
            invariant
                n == old(self)@.keyframes.len(),
                i <= n,
                self.keyframes@ == old(self)@.keyframes,
                self@ == apply_keyframes(
                    old(self)@,
                    old(self)@.keyframes.take(i as int),
                    time_since_start as int,
                ),
            decreases n - i,
        {
            let keyframe = self.keyframes[i];
            assert(old(self)@.keyframes.take(i + 1).drop_last() =~= old(self)@.keyframes.take(
                i as int,
            ));
            if keyframe.is_active(time_since_start) {
                proof {
                    keyframe.lemma_value_between(time_since_start as int);
                }
                keyframe.update_keyframe_data(self, time_since_start);
            }
            i = i + 1;
        }
        assert(old(self)@.keyframes.take(n as int) =~= old(self)@.keyframes);
    }

    /// A copy of the arrow, keyframes included.
    pub fn box_clone(&self) -> (r: Arrow)
        ensures
            r@ == self@,
    {
        let keyframes = self.keyframes.clone();
        assert(keyframes@ =~= self.keyframes@);
        Arrow {
            x: self.x,
            y: self.y,
            stroke: self.stroke,
            fill: self.fill,
            scale: self.scale,
            angle: self.angle,
            keyframes,
            id: self.id,
        }
    }

    pub fn get_scale(&self) -> (r: i64)
        ensures
            r == self@.scale,
    {
        self.scale
    }

    pub fn get_angle(&self) -> (r: i64)
        ensures
            r == self@.angle,
    {
        self.angle
    }

    pub fn get_id(&self) -> (r: usize)
        ensures
            r == self@.id,
    {
        self.id
    }

    /// The arrow's keyframes, in the order they were added.
    pub fn keyframes(&self) -> (r: &Vec<Keyframe>)
        ensures
            r@ == self@.keyframes,
    {
        &self.keyframes
    }
}

/// A drawable element: one of the supported shapes.
#[derive(Clone, Debug)]
pub enum Element {
    Arrow(Arrow),
}

/// The mathematical value of an [`Element`].
pub enum ElementView {
    Arrow(ArrowView),
}

impl ElementView {
    pub open spec fn id(self) -> usize {
        match self {
            ElementView::Arrow(a) => a.id,
        }
    }

    pub open spec fn x(self) -> int {
        match self {
            ElementView::Arrow(a) => a.x,
        }
    }

    pub open spec fn y(self) -> int {
        match self {
            ElementView::Arrow(a) => a.y,
        }
    }

    pub open spec fn scale(self) -> int {
        match self {
            ElementView::Arrow(a) => a.scale,
        }
    }

    pub open spec fn angle(self) -> int {
        match self {
            ElementView::Arrow(a) => a.angle,
        }
    }

    /// The element after its keyframes have been applied at time `t`.
    pub open spec fn updated(self, t: int) -> ElementView {
        match self {
            ElementView::Arrow(a) => ElementView::Arrow(a.updated(t)),
        }
    }

    /// Updating keeps the element's identity.
    pub proof fn lemma_updated_keeps_id(self, t: int)
        ensures
            self.updated(t).id() == self.id(),
    {
        match self {
            ElementView::Arrow(a) => lemma_apply_keyframes_shape(a, a.keyframes, t),
        }
    }
}

/// Updating an element twice at the same time gives what updating it once gives.
pub proof fn lemma_element_update_idempotent(element: ElementView, t: int)
    ensures
        element.updated(t).updated(t) == element.updated(t),
{
    match element {
        ElementView::Arrow(a) => lemma_update_idempotent(a, t),
    }
}

impl View for Element {
    type V = ElementView;

    open spec fn view(&self) -> ElementView {
        match self {
            Element::Arrow(a) => ElementView::Arrow(a@),
        }
    }
}

impl Element {
    pub fn get_id(&self) -> (r: usize)
        ensures
            r == self@.id(),
    {
        match self {
            Element::Arrow(a) => a.get_id(),
        }
    }

    pub fn get_x(&self) -> (r: i64)
        ensures
            r == self@.x(),
    {
        match self {
            Element::Arrow(a) => a.x,
        }
    }

    pub fn get_y(&self) -> (r: i64)
        ensures
            r == self@.y(),
    {
        match self {
            Element::Arrow(a) => a.y,
        }
    }

    pub fn get_scale(&self) -> (r: i64)
        ensures
            r == self@.scale(),
    {
        match self {
            Element::Arrow(a) => a.get_scale(),
        }
    }

    pub fn get_angle(&self) -> (r: i64)
        ensures
            r == self@.angle(),
    {
        match self {
            Element::Arrow(a) => a.get_angle(),
        }
    }

    /// Applies the element's keyframes that are active at `time_since_start`.
    pub fn update_data_with_keyframes(&mut self, time_since_start: u64)
        ensures
            final(self)@ == old(self)@.updated(time_since_start as int),
    {
        match self {
            Element::Arrow(a) => a.update_data_with_keyframes(time_since_start),
        }
    }

    /// A copy of the element, keyframes included.
    pub fn box_clone(&self) -> (r: Element)
        ensures
            r@ == self@,
    {
        match self {
            Element::Arrow(a) => Element::Arrow(a.box_clone()),
        }
    }
}

} // verus!
