//! Choosing the text size at which a label fits its box.
//!
//! The search starts at a given size and tries ever smaller sizes, one step
//! apart, until the text fits or the next size would fall below the
//! smallest one allowed. How large a text comes out at a size is for the
//! host to say.
use vstd::prelude::*;
use crate::shape::LabelBox;
use crate::shape::LabelBoxView;

verus! {

/// By how much the text size shrinks from one try to the next: 2.5 points.
pub const FONT_STEP: i32 = 2_500;

/// The width and the height of a text that was laid out, in thousandths of
/// a point.
#[derive(Clone, Copy, Debug, PartialEq, Eq)]
pub struct TextSize {
    pub width: i64,
    pub height: i64,
}

/// Whether a text of the measured size has room in the box.
pub open spec fn fits(measured: TextSize, limit: LabelBoxView) -> bool {
    measured.width <= limit.width && measured.height <= limit.height
}

/// What to do after one try.
#[derive(Clone, Copy, Debug, PartialEq, Eq)]
pub enum FitStep {
    /// The text fits at the size that was tried.
    Fits,
    /// The text does not fit: try this smaller size next.
    Shrink(i32),
    /// The text does not fit, and the next size would be too small: the
    /// label is left out.
    GiveUp,
}

pub open spec fn fit_step_spec(
    size: i32,
    min_size: i32,
    measured: TextSize,
    limit: LabelBoxView,
) -> FitStep {
    if fits(measured, limit) {
        FitStep::Fits
    } else if size - FONT_STEP < min_size {
        FitStep::GiveUp
    } else {
        FitStep::Shrink((size - FONT_STEP) as i32)
    }
}

/// The size that the search settles on when it starts at `size` and a text
/// of size `s` measures `seen(s)`.
pub open spec fn best_fit_spec(
    seen: spec_fn(i32) -> TextSize,
    limit: LabelBoxView,
    size: i32,
    min_size: i32,
) -> Option<i32>
    decreases size - min_size,
{
    if fits(seen(size), limit) {
        Some(size)
    } else if size - FONT_STEP < min_size {
        None
    } else {
        best_fit_spec(seen, limit, (size - FONT_STEP) as i32, min_size)
    }
}

/// Whether the search that starts at `size` tries the size `tried`.
pub open spec fn tries(
    seen: spec_fn(i32) -> TextSize,
    limit: LabelBoxView,
    size: i32,
    min_size: i32,
    tried: i32,
) -> bool
    decreases size - min_size,
{
    tried == size || (!fits(seen(size), limit) && size - FONT_STEP >= min_size && tries(
        seen,
        limit,
        (size - FONT_STEP) as i32,
        min_size,
        tried,
    ))
}

/// Decides what follows a try at `size` that measured `measured`.
pub fn fit_step(size: i32, min_size: i32, measured: TextSize, limit: &LabelBox) -> (step: FitStep)
    ensures
        step == fit_step_spec(size, min_size, measured, limit@),
{
    if (measured.width as i128) <= limit.width && (measured.height as i128) <= limit.height {
        FitStep::Fits
    } else {
        let next: i64 = (size as i64) - (FONT_STEP as i64);
        if next < (min_size as i64) {
            FitStep::GiveUp
        } else {
            FitStep::Shrink(next as i32)
        }
    }
}

/// The `k`-th size of a search from `start`.
pub open spec fn size_after(start: i32, k: nat) -> int {
    start - k * FONT_STEP
}

/// While the first `k` tries of a search fail, the search goes on from its
/// `k`-th size, and has tried the sizes before it and no others.
proof fn lemma_search_goes_on(
    seen: spec_fn(i32) -> TextSize,
    limit: LabelBoxView,
    start: i32,
    min_size: i32,
    k: nat,
)
    requires
        k == 0 || size_after(start, k) >= min_size,
        forall|j: nat| j < k ==> !fits(#[trigger] seen(size_after(start, j) as i32), limit),
    ensures
        best_fit_spec(seen, limit, start, min_size) == best_fit_spec(
            seen,
            limit,
            size_after(start, k) as i32,
            min_size,
        ),
        forall|tried: i32| #[trigger]
            tries(seen, limit, start, min_size, tried) ==> tries(
                seen,
                limit,
                size_after(start, k) as i32,
                min_size,
                tried,
            ) || exists|j: nat| j < k && tried == #[trigger] size_after(start, j),
    decreases k,
{
    if k > 0 {
        let before = (k - 1) as nat;
        assert(size_after(start, before) == size_after(start, k) + FONT_STEP) by (nonlinear_arith)
            requires
                before == k - 1,
        ;
        lemma_search_goes_on(seen, limit, start, min_size, before);
        let size = size_after(start, before) as i32;
        assert(!fits(seen(size_after(start, before) as i32), limit));
        assert forall|tried: i32| #[trigger]
            tries(seen, limit, start, min_size, tried) implies tries(
            seen,
            limit,
            size_after(start, k) as i32,
            min_size,
            tried,
        ) || exists|j: nat| j < k && tried == #[trigger] size_after(start, j) by {
            if tries(seen, limit, size, min_size, tried) {
                if tried == size {
                    assert(before < k && tried == size_after(start, before));
                }
            } else {
                let j = choose|j: nat| j < before && tried == #[trigger] size_after(start, j);
                assert(j < k && tried == size_after(start, j));
            }
        }
    }
}

/// Finds the largest text size at which a label fits `limit`, among `start`
/// and the sizes that lie a whole number of steps below it and not below
/// `min_size`. `measure` lays the text out at a size and reports how large it
/// came out.
///
/// The result is what the search gives on the sizes that `measure`
/// reported: `seen` stands for those reports.
pub fn best_fit_font<M: Fn(i32) -> TextSize>(
    measure: M,
    limit: &LabelBox,
    start: i32,
    min_size: i32,
) -> (found: Option<i32>)
    requires
        forall|size: i32| measure.requires((size,)),
    ensures
        exists|seen: spec_fn(i32) -> TextSize|
            {
                &&& found == #[trigger] best_fit_spec(seen, limit@, start, min_size)
                &&& forall|size: i32| #[trigger]
                    tries(seen, limit@, start, min_size, size) ==> measure.ensures(
                        (size,),
                        seen(size),
                    )
            },
{
    let mut size: i32 = start;
    let ghost mut seen: spec_fn(i32) -> TextSize = |s: i32| TextSize { width: 0, height: 0 };
    let ghost mut k: nat = 0;
    loop
        invariant
            size == size_after(start, k),
            k == 0 || size >= min_size,
            forall|size: i32| measure.requires((size,)),
            forall|j: nat|
                j < k ==> !fits(#[trigger] seen(size_after(start, j) as i32), limit@)
                    && measure.ensures(
                    (size_after(start, j) as i32,),
                    seen(size_after(start, j) as i32),
                ),
        decreases size - min_size + FONT_STEP,
    {
        let measured = measure(size);
        let ghost earlier = seen;
        proof {
            seen = |s: i32| if s == size { measured } else { earlier(s) };
            assert forall|j: nat| j < k implies !fits(
                #[trigger] seen(size_after(start, j) as i32),
                limit@,
            ) && measure.ensures(
                (size_after(start, j) as i32,),
                seen(size_after(start, j) as i32),
            ) by {
                assert(size_after(start, j) >= size + FONT_STEP) by (nonlinear_arith)
                    requires
                        j < k,
                        size == size_after(start, k),
                ;
                assert(seen(size_after(start, j) as i32) == earlier(size_after(start, j) as i32));
            }
            lemma_search_goes_on(seen, limit@, start, min_size, k);
        }
        match fit_step(size, min_size, measured, limit) {
            FitStep::Fits => {
                proof {
                    assert(best_fit_spec(seen, limit@, start, min_size) == Some(size));
                    assert forall|tried: i32| #[trigger]
                        tries(seen, limit@, start, min_size, tried) implies measure.ensures(
                        (tried,),
                        seen(tried),
                    ) by {
                        if tries(seen, limit@, size, min_size, tried) {
                            assert(tried == size);
                        } else {
                            let j = choose|j: nat| j < k && tried == #[trigger] size_after(start, j);
                            assert(measure.ensures(
                                (size_after(start, j) as i32,),
                                seen(size_after(start, j) as i32),
                            ));
                        }
                    }
                }
                return Some(size);
            },
            FitStep::GiveUp => {
                proof {
                    assert(best_fit_spec(seen, limit@, start, min_size) == None::<i32>);
                    assert forall|tried: i32| #[trigger]
                        tries(seen, limit@, start, min_size, tried) implies measure.ensures(
                        (tried,),
                        seen(tried),
                    ) by {
                        if tries(seen, limit@, size, min_size, tried) {
                            assert(tried == size);
                        } else {
                            let j = choose|j: nat| j < k && tried == #[trigger] size_after(start, j);
                            assert(measure.ensures(
                                (size_after(start, j) as i32,),
                                seen(size_after(start, j) as i32),
                            ));
                        }
                    }
                }
                return None;
            },
            FitStep::Shrink(next) => {
                proof {
                    assert(size_after(start, k + 1) == size - FONT_STEP) by (nonlinear_arith)
                        requires
                            size == size_after(start, k),
                    ;
                    k = k + 1;
                }
                size = next;
            },
        }
    }
}

/// Where the box is too small for the text at the starting size and at
/// every size that is not below the smallest one allowed, no size is found.
pub proof fn lemma_nothing_fits(
    seen: spec_fn(i32) -> TextSize,
    limit: LabelBoxView,
    start: i32,
    min_size: i32,
)
    requires
        forall|size: i32| size == start || size >= min_size ==> !fits(#[trigger] seen(size), limit),
    ensures
        best_fit_spec(seen, limit, start, min_size) is None,
    decreases start - min_size,
{
    if start - FONT_STEP >= min_size {
        lemma_nothing_fits(seen, limit, (start - FONT_STEP) as i32, min_size);
    }
}

/// Where the text fits at the starting size, that size is found, unreduced.
pub proof fn lemma_start_fits(
    seen: spec_fn(i32) -> TextSize,
    limit: LabelBoxView,
    start: i32,
    min_size: i32,
)
    requires
        fits(seen(start), limit),
    ensures
        best_fit_spec(seen, limit, start, min_size) == Some(start),
{
}

/// A size that is found is one at which the text fits; it is the starting
/// size or lies whole steps below it and not below the smallest size
/// allowed; and at every size that was tried before it the text did not fit.
pub proof fn lemma_found_is_first_fit(
    seen: spec_fn(i32) -> TextSize,
    limit: LabelBoxView,
    start: i32,
    min_size: i32,
)
    requires
        best_fit_spec(seen, limit, start, min_size) is Some,
    ensures
        ({
            let found = best_fit_spec(seen, limit, start, min_size)->0;
            &&& fits(seen(found), limit)
            &&& found <= start
            &&& (start - found) % (FONT_STEP as int) == 0
            &&& found == start || found >= min_size
            &&& forall|size: i32| #[trigger]
                tries(seen, limit, start, min_size, size) && size != found ==> size > found
                    && !fits(seen(size), limit)
        }),
    decreases start - min_size,
{
    let found = best_fit_spec(seen, limit, start, min_size)->0;
    if !fits(seen(start), limit) {
        let next = (start - FONT_STEP) as i32;
        lemma_found_is_first_fit(seen, limit, next, min_size);
        assert((start - found) % (FONT_STEP as int) == 0) by {
            assert((next - found) % 2500 == 0);
            assert(start - found == (next - found) + 2500);
        }
        assert forall|size: i32| #[trigger]
            tries(seen, limit, start, min_size, size) && size != found implies size > found
            && !fits(seen(size), limit) by {
            if size != start {
                assert(tries(seen, limit, next, min_size, size));
            }
        }
    } else {
        assert forall|size: i32| #[trigger]
            tries(seen, limit, start, min_size, size) && size != found implies size > found
            && !fits(seen(size), limit) by {
        }
    }
}

/// Two ways of measuring that agree on every size that the search tries
/// lead to the same result.
pub proof fn lemma_same_measures_same_fit(
    seen: spec_fn(i32) -> TextSize,
    other: spec_fn(i32) -> TextSize,
    limit: LabelBoxView,
    start: i32,
    min_size: i32,
)
    requires
        forall|size: i32| #[trigger]
            tries(seen, limit, start, min_size, size) ==> seen(size) == other(size),
    ensures
        best_fit_spec(seen, limit, start, min_size) == best_fit_spec(
            other,
            limit,
            start,
            min_size,
        ),
    decreases start - min_size,
{
    assert(tries(seen, limit, start, min_size, start));
    if !fits(seen(start), limit) && start - FONT_STEP >= min_size {
        let next = (start - FONT_STEP) as i32;
        assert forall|size: i32| #[trigger]
            tries(seen, limit, next, min_size, size) implies seen(size) == other(size) by {
            assert(tries(seen, limit, start, min_size, size));
        }
        lemma_same_measures_same_fit(seen, other, limit, next, min_size);
    }
}

} // verus!
