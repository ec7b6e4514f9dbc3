//! Shrink-to-fit sizing: how large a pick list is, given how wide its labels
//! were measured.
use vstd::prelude::*;
use crate::geometry::{saturate, Size};
use crate::layout::{Limits, Node};
use crate::length::Length;

verus! {

/// The width of the content of a shrinking pick list that has no options.
pub const FALLBACK_WIDTH: u32 = 100;

/// The greatest of `widths`, and 0 where there is none.
pub open spec fn widest(widths: Seq<u32>) -> u32
    decreases widths.len(),
{
    if widths.len() == 0 {
        0
    } else {
        let before = widest(widths.drop_last());
        if widths.last() > before {
            widths.last()
        } else {
            before
        }
    }
}

/// The width of the content of a pick list whose labels measure `widths`.
///
/// A shrinking pick list is as wide as its widest label, whichever of them is
/// selected, and [`FALLBACK_WIDTH`] wide where it has no option. With any
/// other width policy the labels do not count.
pub open spec fn content_width(width: Length, widths: Seq<u32>) -> u32 {
    match width {
        Length::Shrink => if widths.len() == 0 {
            FALLBACK_WIDTH
        } else {
            widest(widths)
        },
        _ => 0,
    }
}

/// The size that a pick list would take if nothing bounded it: as high as its
/// text, and as wide as its content, one text size more for the arrow that
/// shows that it opens, and the padding between the two.
pub open spec fn intrinsic_size(width: Length, padding: u16, text_size: u16, widths: Seq<u32>) -> Size {
    Size {
        width: saturate(content_width(width, widths) + text_size + padding),
        height: text_size as u32,
    }
}

/// The size of a pick list within `limits`.
///
/// The limits are first narrowed to the width policy and lessened by the
/// padding on all sides; the intrinsic size is brought within them; the
/// padding is then added back.
pub open spec fn fitted_size(
    width: Length,
    padding: u16,
    text_size: u16,
    limits: Limits,
    widths: Seq<u32>,
) -> Size {
    limits.spec_width(width).spec_height(Length::Shrink).spec_pad(padding).spec_resolve(
        intrinsic_size(width, padding, text_size, widths),
    ).spec_pad(padding)
}

/// Computes [`widest`].
pub fn widest_of(widths: &[u32]) -> (greatest: u32)
    ensures
        greatest == widest(widths@),
{
    let mut greatest: u32 = 0;
    let mut i: usize = 0;
    while i < widths.len()
        invariant
            i <= widths@.len(),
            greatest == widest(widths@.take(i as int)),
        decreases widths@.len() - i,
    {
        proof {
            assert(widths@.take(i + 1).drop_last() == widths@.take(i as int));
        }
        if widths[i] > greatest {
            greatest = widths[i];
        }
        i += 1;
    }
    proof {
        assert(widths@.take(widths@.len() as int) == widths@);
    }
    greatest
}

/// Sizes a pick list whose labels measure `widths`; see [`fitted_size`].
pub fn fit(width: Length, padding: u16, text_size: u16, limits: &Limits, widths: &[u32]) -> (node:
    Node)
    ensures
        node.size == fitted_size(width, padding, text_size, *limits, widths@),
{
    let content: u32 = match width {
        Length::Shrink => if widths.len() == 0 {
            FALLBACK_WIDTH
        } else {
            widest_of(widths)
        },
        _ => 0,
    };
    let intrinsic = Size {
        width: content.saturating_add(text_size as u32).saturating_add(padding as u32),
        height: text_size as u32,
    };
    let within = limits.width(width).height(Length::Shrink).pad(padding);
    Node::new(within.resolve(intrinsic).pad(padding))
}

} // verus!
