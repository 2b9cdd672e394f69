//! The acceptance rule for a chemical composition: which of its element fractions
//! is reported first when a composition is refused, and when the sum is checked.

use vstd::prelude::*;

verus! {

/// An element fraction of a composition: hydrogen (X), helium (Y) or metals (Z).
/// Fractions are validated in this order.
#[derive(Clone, Copy, Debug, PartialEq, Eq, Structural)]
pub enum Element {
    Hydrogen,
    Helium,
    Metals,
}

/// Position of an element in the validation order X, Y, Z.
pub open spec fn element_rank(e: Element) -> int {
    match e {
        Element::Hydrogen => 0,
        Element::Helium => 1,
        Element::Metals => 2,
    }
}

/// The symbol by which an element fraction is named in messages.
pub open spec fn element_symbol(e: Element) -> Seq<char> {
    match e {
        Element::Hydrogen => "x"@,
        Element::Helium => "y"@,
        Element::Metals => "z"@,
    }
}

impl Element {
    /// The symbol of this element fraction: `"x"`, `"y"` or `"z"`.
    pub fn symbol(&self) -> (s: &'static str)
        ensures
            s@ == element_symbol(*self),
            *self == Element::Hydrogen ==> s@ == "x"@,
            *self == Element::Helium ==> s@ == "y"@,
            *self == Element::Metals ==> s@ == "z"@,
    {
        match self {
            Element::Hydrogen => "x",
            Element::Helium => "y",
            Element::Metals => "z",
        }
    }
}

/// Why a composition is refused.
#[derive(Clone, Copy, Debug, PartialEq, Eq, Structural)]
pub enum CompositionFault {
    /// The fraction of this element is negative.
    NegativeFraction(Element),
    /// The fractions do not sum to one within tolerance.
    InvalidSum,
}

/// Whether the fraction of `e` is flagged negative, given the flags of X, Y and Z.
pub open spec fn flagged_negative(e: Element, x_negative: bool, y_negative: bool, z_negative: bool) -> bool {
    match e {
        Element::Hydrogen => x_negative,
        Element::Helium => y_negative,
        Element::Metals => z_negative,
    }
}

/// The first element, in the order X, Y, Z, whose fraction is flagged negative.
pub open spec fn first_negative(x_negative: bool, y_negative: bool, z_negative: bool) -> Option<Element> {
    if x_negative {
        Some(Element::Hydrogen)
    } else if y_negative {
        Some(Element::Helium)
    } else if z_negative {
        Some(Element::Metals)
    } else {
        None
    }
}

/// `first_negative` names exactly the element that is flagged negative while every
/// element before it in the order X, Y, Z is not; it is `None` exactly when no
/// fraction is flagged.
pub proof fn lemma_first_negative_is_first(
    e: Element,
    x_negative: bool,
    y_negative: bool,
    z_negative: bool,
)
    ensures
        first_negative(x_negative, y_negative, z_negative) == Some(e) <==> (flagged_negative(
            e,
            x_negative,
            y_negative,
            z_negative,
        ) && forall|d: Element|
            element_rank(d) < element_rank(e) ==> !#[trigger] flagged_negative(
                d,
                x_negative,
                y_negative,
                z_negative,
            )),
        first_negative(x_negative, y_negative, z_negative) is None <==> (!x_negative && !y_negative
            && !z_negative),
{
    assert(element_rank(Element::Hydrogen) == 0);
    assert(element_rank(Element::Helium) == 1);
    assert(flagged_negative(Element::Hydrogen, x_negative, y_negative, z_negative) == x_negative);
    assert(flagged_negative(Element::Helium, x_negative, y_negative, z_negative) == y_negative);
}

/// Decides the verdict on a composition from what was observed of its fractions:
/// whether each of X, Y, Z is negative, and whether `X + Y + Z` differs from one by
/// more than the tolerance. The first negative fraction in the order X, Y, Z is
/// reported; the sum is judged only when no fraction is negative.
pub fn check_composition(
    x_negative: bool,
    y_negative: bool,
    z_negative: bool,
    sum_out_of_tolerance: bool,
) -> (verdict: Result<(), CompositionFault>)
    ensures
        verdict == match first_negative(x_negative, y_negative, z_negative) {
            Some(e) => Err(CompositionFault::NegativeFraction(e)),
            None => if sum_out_of_tolerance {
                Err(CompositionFault::InvalidSum)
            } else {
                Ok(())
            },
        },
{
    if x_negative {
        Err(CompositionFault::NegativeFraction(Element::Hydrogen))
    } else if y_negative {
        Err(CompositionFault::NegativeFraction(Element::Helium))
    } else if z_negative {
        Err(CompositionFault::NegativeFraction(Element::Metals))
    } else if sum_out_of_tolerance {
        Err(CompositionFault::InvalidSum)
    } else {
        Ok(())
    }
}

} // verus!
