//! The order in which the elements of a dragged window are stacked.

use smallvec::SmallVec;
use vstd::prelude::*;

verus! {

/// Elements held back until those above them have been stacked. A window rarely has more than
/// four of them.
#[verifier::external_body]
pub struct LowerElements {
    elements: SmallVec<[u64; 4]>,
}

/// The elements held back, in the order in which they came.
pub uninterp spec fn held_back(lower: LowerElements) -> Seq<u64>;

/// Calls `SmallVec::new_const`: nothing is held back yet.
#[verifier::external_body]
fn none_held_back() -> (r: LowerElements)
    ensures
        held_back(r) == Seq::<u64>::empty(),
{
    LowerElements { elements: SmallVec::new_const() }
}

/// Calls `SmallVec::push`: the element comes after those that are held back already.
#[verifier::external_body]
fn hold_back(lower: &mut LowerElements, element: u64)
    ensures
        held_back(*final(lower)) == held_back(*old(lower)).push(element),
{
    lower.elements.push(element);
}

/// Calls `SmallVec::into_iter`: hands the elements out in the order in which they came.
#[verifier::external_body]
fn hand_out(lower: LowerElements) -> (r: Vec<u64>)
    ensures
        r@ == held_back(lower),
{
    lower.elements.into_iter().collect()
}

/// An element of a window.
#[derive(Debug, Clone, Copy, PartialEq, Eq, Structural)]
pub struct WindowElement {
    pub id: u64,
    /// The element belongs below the shadow of the window.
    pub lower: bool,
}

/// The elements that belong below the shadow, or the others, in the order in which they came.
pub open spec fn layer(elements: Seq<WindowElement>, lower: bool) -> Seq<u64>
    decreases elements.len(),
{
    if elements.len() == 0 {
        seq![]
    } else {
        let before = layer(elements.drop_last(), lower);
        if elements.last().lower == lower {
            before.push(elements.last().id)
        } else {
            before
        }
    }
}

/// The shadow, if there is one.
pub open spec fn shadow_layer(shadow: Option<u64>) -> Seq<u64> {
    match shadow {
        Some(shadow) => seq![shadow],
        None => seq![],
    }
}

/// The elements of a window and its shadow, from the top.
pub open spec fn stacked(elements: Seq<WindowElement>, shadow: Option<u64>) -> Seq<u64> {
    layer(elements, false) + shadow_layer(shadow) + layer(elements, true)
}

/// Stacks the elements of a window from the top: those above the shadow, the shadow, and those
/// below it, each in the order in which they came.
pub fn stack_elements(elements: &Vec<WindowElement>, shadow: Option<u64>) -> (r: Vec<u64>)
    ensures
        r@ == stacked(elements@, shadow),
        r@ == layer(elements@, false) + shadow_layer(shadow) + layer(elements@, true),
{
    let mut stacked: Vec<u64> = Vec::new();
    let mut lower = none_held_back();
    let mut i: usize = 0;
    while i < elements.len()
        invariant
            i <= elements.len(),
            stacked@ == layer(elements@.take(i as int), false),
            held_back(lower) == layer(elements@.take(i as int), true),
        decreases elements.len() - i,
    {
        let element = elements[i];
        if element.lower {
            hold_back(&mut lower, element.id);
        } else {
            stacked.push(element.id);
        }
        assert(elements@.take(i + 1).drop_last() =~= elements@.take(i as int));
        i = i + 1;
    }
    assert(elements@.take(i as int) =~= elements@);
    if let Some(shadow) = shadow {
        stacked.push(shadow);
    }
    assert(stacked@ =~= layer(elements@, false) + shadow_layer(shadow));
    let rest = hand_out(lower);
    let mut k: usize = 0;
    let ghost above = stacked@;
    while k < rest.len()
        invariant
            k <= rest.len(),
            stacked@ == above + rest@.take(k as int),
        decreases rest.len() - k,
    {
        stacked.push(rest[k]);
        assert(above + rest@.take(k + 1) =~= (above + rest@.take(k as int)).push(rest[k as int]));
        k = k + 1;
    }
    assert(rest@.take(k as int) =~= rest@);
    stacked
}

/// No element is lost or drawn twice: an element is stacked as often as it came.
pub proof fn law_stacking_keeps_every_element(
    elements: Seq<WindowElement>,
    shadow: Option<u64>,
)
    ensures
        stacked(elements, shadow).to_multiset() == elements.map_values(|e: WindowElement| e.id).to_multiset().add(
            shadow_layer(shadow).to_multiset(),
        ),
{
    lemma_layers_partition(elements);
    vstd::seq_lib::lemma_multiset_commutative(
        layer(elements, false) + shadow_layer(shadow),
        layer(elements, true),
    );
    vstd::seq_lib::lemma_multiset_commutative(layer(elements, false), shadow_layer(shadow));
}

proof fn lemma_layers_partition(elements: Seq<WindowElement>)
    ensures
        layer(elements, false).to_multiset().add(layer(elements, true).to_multiset())
            =~= elements.map_values(|e: WindowElement| e.id).to_multiset(),
    decreases elements.len(),
{
    broadcast use vstd::seq_lib::group_to_multiset_ensures;

    let ids = elements.map_values(|e: WindowElement| e.id);
    if elements.len() == 0 {
        assert(ids =~= Seq::<u64>::empty());
    } else {
        let init = elements.drop_last();
        lemma_layers_partition(init);
        assert(ids =~= init.map_values(|e: WindowElement| e.id).push(elements.last().id));
    }
}

/// An element is in the layer it belongs to, and in no other.
pub proof fn law_an_element_is_in_one_layer(element: WindowElement, lower: bool)
    ensures
        element.lower == lower ==> layer(seq![element], lower) == seq![element.id],
        element.lower != lower ==> layer(seq![element], lower) == Seq::<u64>::empty(),
{
    assert(seq![element].drop_last() =~= Seq::<WindowElement>::empty());
    reveal_with_fuel(layer, 2);
    assert(Seq::<u64>::empty().push(element.id) =~= seq![element.id]);
}

/// Elements keep their order: those that come later are below those that came before, in either
/// layer.
pub proof fn law_layers_keep_the_order(
    first: Seq<WindowElement>,
    then: Seq<WindowElement>,
    lower: bool,
)
    ensures
        layer(first + then, lower) == layer(first, lower) + layer(then, lower),
    decreases then.len(),
{
    if then.len() == 0 {
        assert(first + then =~= first);
        assert(layer(first, lower) + layer(then, lower) =~= layer(first, lower));
    } else {
        law_layers_keep_the_order(first, then.drop_last(), lower);
        assert((first + then).drop_last() =~= first + then.drop_last());
        assert((first + then).last() == then.last());
        assert(layer(first + then, lower) =~= layer(first, lower) + layer(then, lower));
    }
}

/// The stack from the top: everything above the shadow, then the shadow if there is one, then
/// everything below it. An element above the shadow that comes last does not go below anything
/// that is below the shadow, and one below it goes to the very bottom.
pub proof fn law_the_shadow_is_between(
    elements: Seq<WindowElement>,
    last: WindowElement,
    shadow: Option<u64>,
)
    ensures
        ({
            let before = stacked(elements, shadow);
            let after = stacked(elements.push(last), shadow);
            let above = layer(elements, false).len() as int;
            &&& last.lower ==> after == before.push(last.id)
            &&& !last.lower ==> after == before.insert(above, last.id)
            &&& above <= before.len()
            &&& shadow is Some ==> above < before.len() && before[above] == shadow.unwrap()
            &&& stacked(seq![], shadow) == shadow_layer(shadow)
            &&& shadow is None ==> shadow_layer(shadow).len() == 0
            &&& shadow matches Some(s) ==> shadow_layer(shadow) == seq![s]
        }),
{
    assert(elements.push(last).drop_last() =~= elements);
    let before = stacked(elements, shadow);
    let after = stacked(elements.push(last), shadow);
    let above = layer(elements, false).len() as int;
    if last.lower {
        assert(after =~= before.push(last.id));
    } else {
        assert(after =~= before.insert(above, last.id));
    }
    assert(stacked(seq![], shadow) =~= shadow_layer(shadow));
}

} // verus!
