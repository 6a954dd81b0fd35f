//! Validation of page range expressions such as `1,2-3,7-20`.
use vstd::prelude::*;

use crate::text::{
    chars_of, lemma_split_nonempty, parse_unsigned, parse_unsigned_chars, remove_spaces,
    remove_spaces_chars, split, split_chars, views,
};

verus! {

/// The largest page number a range expression may name (`u16::MAX`).
pub open spec fn max_page() -> nat {
    65535
}

/// The page numbers written in one comma separated step (`a` or `a-b`).
pub open spec fn step_numbers(step: Seq<char>) -> Seq<Seq<char>> {
    split(step, '-')
}

/// A step names at most two pages, each a number that fits a `u16`.
pub open spec fn step_is_valid(step: Seq<char>) -> bool {
    let nums = step_numbers(step);
    &&& nums.len() <= 2
    &&& forall|i: int| 0 <= i < nums.len() ==> #[trigger] parse_unsigned(nums[i], max_page()) is Some
}

/// The values of the numbers of a step, in the order they are written.
pub open spec fn step_values(step: Seq<char>) -> Seq<nat> {
    step_numbers(step).map_values(|p: Seq<char>| parse_unsigned(p, max_page())->0)
}

/// All page numbers of all steps, in the order they are written.
pub open spec fn page_order(steps: Seq<Seq<char>>) -> Seq<nat>
    decreases steps.len(),
{
    if steps.len() == 0 {
        Seq::empty()
    } else {
        page_order(steps.drop_last()) + step_values(steps.last())
    }
}

pub open spec fn non_decreasing(s: Seq<nat>) -> bool {
    forall|i: int, j: int| 0 <= i <= j < s.len() ==> s[i] <= s[j]
}

/// The steps of a range expression: spaces removed, then split at commas.
pub open spec fn range_steps(range: Seq<char>) -> Seq<Seq<char>> {
    split(remove_spaces(range), ',')
}

/// A range expression is valid when every step is valid and the page numbers,
/// read from left to right, never decrease.
pub open spec fn range_is_valid(range: Seq<char>) -> bool {
    let steps = range_steps(range);
    &&& forall|i: int| 0 <= i < steps.len() ==> #[trigger] step_is_valid(steps[i])
    &&& non_decreasing(page_order(steps))
}

/// Checks a page range expression: spaces are ignored, steps are separated by
/// commas, each step is a page or `from-to`, and page numbers never decrease.
pub fn page_range_is_valid(range: &str) -> (res: bool)
    ensures
        res == range_is_valid(range@),
{
    let chars = chars_of(range);
    let squeezed = remove_spaces_chars(&chars);
    let steps = split_chars(&squeezed, ',');
    let ghost steps_v = range_steps(range@);
    assert(views(steps@) == steps_v);
    let mut order: Vec<u64> = Vec::new();
    let mut k: usize = 0;
    while k < steps.len()
        invariant
            k <= steps.len(),
            views(steps@) == steps_v,
            steps_v == range_steps(range@),
            forall|i: int| 0 <= i < k ==> #[trigger] step_is_valid(steps_v[i]),
            order@.len() == page_order(steps_v.take(k as int)).len(),
            forall|i: int|
                0 <= i < order@.len() ==> order@[i] as nat == #[trigger] page_order(
                    steps_v.take(k as int),
                )[i],
        decreases steps.len() - k,
    {
        let ghost prev = order@;
        let ghost step = steps_v[k as int];
        assert(steps[k as int]@ == step);
        let pages = split_chars(&steps[k], '-');
        if pages.len() > 2 {
            assert(!step_is_valid(step));
            return false;
        }
        let mut j: usize = 0;
        while j < pages.len()
            invariant
                j <= pages.len() <= 2,
                k < steps_v.len(),
                step == steps_v[k as int],
                steps_v == range_steps(range@),
                views(pages@) == step_numbers(step),
                order@.len() == prev.len() + j,
                forall|i: int| 0 <= i < prev.len() ==> order@[i] == prev[i],
                forall|i: int|
                    0 <= i < j ==> #[trigger] parse_unsigned(step_numbers(step)[i], max_page()) is Some,
                forall|i: int|
                    0 <= i < j ==> order@[prev.len() + i] as nat == #[trigger] step_values(step)[i],
            decreases pages.len() - j,
        {
            assert(pages[j as int]@ == step_numbers(step)[j as int]);
            match parse_unsigned_chars(&pages[j], 65535) {
                Some(v) => {
                    order.push(v);
                },
                None => {
                    assert(!step_is_valid(step));
                    return false;
                },
            }
            j = j + 1;
        }
        proof {
            assert(steps_v.take(k + 1).drop_last() =~= steps_v.take(k as int));
            assert(steps_v.take(k + 1).last() == step);
            assert(step_is_valid(step));
            let po = page_order(steps_v.take(k + 1));
            assert(po == page_order(steps_v.take(k as int)) + step_values(step));
            assert forall|i: int| 0 <= i < order@.len() implies order@[i] as nat == #[trigger] po[i] by {
                if i >= prev.len() {
                    assert(step_values(step)[i - prev.len()] == order@[prev.len() + (i - prev.len())] as nat);
                }
            }
        }
        k = k + 1;
    }
    assert(steps_v.take(steps.len() as int) =~= steps_v);
    let ghost po = page_order(steps_v);
    proof {
        lemma_split_nonempty(remove_spaces(range@), ',');
        lemma_page_order_nonempty(steps_v);
    }
    let mut i: usize = 0;
    while i + 1 < order.len()
        invariant
            i < order.len(),
            po == page_order(range_steps(range@)),
            order@.len() == po.len(),
            forall|a: int| 0 <= a < order@.len() ==> order@[a] as nat == #[trigger] po[a],
            forall|a: int, b: int| 0 <= a <= b <= i ==> po[a] <= po[b],
        decreases order.len() - i,
    {
        if order[i] > order[i + 1] {
            assert(po[i as int] > po[i + 1]);
            return false;
        }
        assert(po[i as int] <= po[i + 1]);
        i = i + 1;
    }
    true
}

/// Every step contributes at least one number, so a non-empty list of valid
/// steps has a non-empty page order.
proof fn lemma_page_order_nonempty(steps: Seq<Seq<char>>)
    requires
        steps.len() >= 1,
    ensures
        page_order(steps).len() >= 1,
    decreases steps.len(),
{
    lemma_split_nonempty(steps.last(), '-');
    if steps.len() > 1 {
        lemma_page_order_nonempty(steps.drop_last());
    }
}

} // verus!
