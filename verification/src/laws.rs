//! What holds of a pick list whatever it is given.
use vstd::prelude::*;
use vstd::std_specs::cmp::PartialEqSpec;
use vstd::std_specs::hash::DefaultHasherAdditionalSpecFns;
use std::fmt::Display;
use crate::hasher::Hasher;
use crate::layout::Limits;
use crate::length::Length;
use crate::renderer::Renderer;
use crate::sizing::{fitted_size, widest};
use crate::widget::{compares, finds, PickList};

verus! {

/// Opening highlights the selected value. Where `==` on `T` is what
/// `eq_spec` says, a search for a value that `index` is the first option to
/// equal finds `index`.
pub proof fn lemma_finds_the_first_equal<T: PartialEq>(
    options: Seq<T>,
    value: T,
    index: usize,
    found: Option<usize>,
)
    requires
        T::obeys_eq_spec(),
        index < options.len(),
        options[index as int].eq_spec(&value),
        forall|j: int| 0 <= j < index ==> !options[j].eq_spec(&value),
        finds(options, Some(value), found),
    ensures
        found == Some(index),
{
    match found {
        Some(other) => {
            assert(compares(&options[other as int], &value, true));
            if other < index {
                assert(!options[other as int].eq_spec(&value));
            } else if index < other {
                assert(compares(&options[index as int], &value, false));
            }
        },
        None => {
            assert(compares(&options[index as int], &value, false));
        },
    }
}

/// Opening highlights nothing where the selected value is not among the
/// options. Where `==` on `T` is what `eq_spec` says, a search for a value
/// that no option equals finds nothing.
pub proof fn lemma_finds_none_where_absent<T: PartialEq>(
    options: Seq<T>,
    value: T,
    found: Option<usize>,
)
    requires
        T::obeys_eq_spec(),
        forall|j: int| 0 <= j < options.len() ==> !options[j].eq_spec(&value),
        finds(options, Some(value), found),
    ensures
        found is None,
{
    if let Some(other) = found {
        assert(compares(&options[other as int], &value, true));
    }
}

/// Opening highlights nothing where no value is selected.
pub proof fn lemma_finds_none_without_selection<T: PartialEq>(options: Seq<T>, found: Option<usize>)
    requires
        finds(options, None, found),
    ensures
        found is None,
{
}

/// A shrinking pick list is as wide as its widest label asks: [`widest`] is
/// one of the widths, and none of them is greater.
pub proof fn lemma_widest_is_greatest(widths: Seq<u32>)
    requires
        widths.len() > 0,
    ensures
        exists|i: int| 0 <= i < widths.len() && widths[i] == widest(widths),
        forall|i: int| 0 <= i < widths.len() ==> widths[i] <= widest(widths),
    decreases widths.len(),
{
    let before = widths.drop_last();
    if before.len() > 0 {
        lemma_widest_is_greatest(before);
        let at = choose|i: int| 0 <= i < before.len() && before[i] == widest(before);
        assert(widths[at] == before[at]);
        assert forall|i: int| 0 <= i < widths.len() implies widths[i] <= widest(widths) by {
            if i < before.len() {
                assert(widths[i] == before[i]);
            }
        }
        if widths.last() > widest(before) {
            assert(widths[widths.len() - 1] == widest(widths));
        } else {
            assert(widths[at] == widest(widths));
        }
    } else {
        assert(widest(before) == 0);
        assert(widths[0] == widest(widths));
    }
}

/// Widths that are no greater, one by one, have a widest that is no greater.
pub proof fn lemma_widest_is_monotonic(lesser: Seq<u32>, greater: Seq<u32>)
    requires
        lesser.len() == greater.len(),
        forall|i: int| 0 <= i < lesser.len() ==> lesser[i] <= greater[i],
    ensures
        widest(lesser) <= widest(greater),
    decreases lesser.len(),
{
    if lesser.len() > 0 {
        lemma_widest_is_monotonic(lesser.drop_last(), greater.drop_last());
    }
}

/// Shrink sizing is monotonic in the measured widths: a pick list whose
/// labels measure no wider, one by one, than those of another is no wider
/// than the other, all else being the same.
pub proof fn lemma_shrink_width_is_monotonic(
    lesser: Seq<u32>,
    greater: Seq<u32>,
    padding: u16,
    text_size: u16,
    limits: Limits,
)
    requires
        lesser.len() == greater.len(),
        forall|i: int| 0 <= i < lesser.len() ==> lesser[i] <= greater[i],
    ensures
        fitted_size(Length::Shrink, padding, text_size, limits, lesser).width <= fitted_size(
            Length::Shrink,
            padding,
            text_size,
            limits,
            greater,
        ).width,
{
    lemma_widest_is_monotonic(lesser, greater);
}

/// Whether `part` stands in `whole` as a run of characters.
pub open spec fn is_part_of(part: Seq<char>, whole: Seq<char>) -> bool {
    exists|at: int|
        0 <= at && at + part.len() <= whole.len() && #[trigger] whole.subrange(
            at,
            at + part.len(),
        ) == part
}

/// Shrink sizing is monotonic in the labels. Take a way of measuring that
/// never finds a part of a label wider than the whole. Then a pick list each
/// of whose labels is a part of the label that another has in its place is no
/// wider than the other, all else being the same.
pub proof fn lemma_shrink_width_grows_with_labels(
    measure: spec_fn(Seq<char>) -> u32,
    lesser: Seq<Seq<char>>,
    greater: Seq<Seq<char>>,
    padding: u16,
    text_size: u16,
    limits: Limits,
)
    requires
        forall|part: Seq<char>, whole: Seq<char>| #[trigger]
            is_part_of(part, whole) ==> measure(part) <= measure(whole),
        lesser.len() == greater.len(),
        forall|i: int| 0 <= i < lesser.len() ==> is_part_of(lesser[i], greater[i]),
    ensures
        fitted_size(
            Length::Shrink,
            padding,
            text_size,
            limits,
            lesser.map_values(measure),
        ).width <= fitted_size(
            Length::Shrink,
            padding,
            text_size,
            limits,
            greater.map_values(measure),
        ).width,
{
    lemma_shrink_width_is_monotonic(
        lesser.map_values(measure),
        greater.map_values(measure),
        padding,
        text_size,
        limits,
    );
}

/// The fingerprint is stable. Two shrinking pick lists with the same labels
/// in the same order leave a hasher as they found it in the same state, and
/// so with the same fingerprint, whatever else differs between them: the
/// values behind the labels, the selected value, the padding.
pub proof fn lemma_shrink_fingerprint_is_that_of_the_labels<
    'a,
    T: Display + PartialEq,
    M,
    R: Renderer,
    F: Fn(T) -> M,
    'b,
    U: Display + PartialEq,
    N,
    Q: Renderer,
    G: Fn(U) -> N,
>(
    first: PickList<'a, T, R, F>,
    second: PickList<'b, U, Q, G>,
    labels: Seq<Seq<char>>,
    written: Seq<Seq<u8>>,
)
    requires
        first.width == Length::Shrink,
        second.width == Length::Shrink,
    ensures
        first.spec_hash_layout(written, labels) == second.spec_hash_layout(written, labels),
        Hasher::spec_finish(first.spec_hash_layout(written, labels)) == Hasher::spec_finish(
            second.spec_hash_layout(written, labels),
        ),
{
}

/// With a width policy other than `Shrink` the fingerprint is that of the
/// width policy: two pick lists with the same one leave a hasher as they
/// found it in the same state, whatever their labels are.
pub proof fn lemma_fixed_fingerprint_is_that_of_the_width<
    'a,
    T: Display + PartialEq,
    M,
    R: Renderer,
    F: Fn(T) -> M,
    'b,
    U: Display + PartialEq,
    N,
    Q: Renderer,
    G: Fn(U) -> N,
>(
    first: PickList<'a, T, R, F>,
    second: PickList<'b, U, Q, G>,
    first_labels: Seq<Seq<char>>,
    second_labels: Seq<Seq<char>>,
    written: Seq<Seq<u8>>,
)
    requires
        first.width != Length::Shrink,
        first.width == second.width,
    ensures
        first.spec_hash_layout(written, first_labels) == second.spec_hash_layout(
            written,
            second_labels,
        ),
{
}

} // verus!
