//! Laws of page selections: the written form of a selection reads back as the
//! same selection.
use vstd::prelude::*;

use crate::jobs::options::pagerange::{
    all_selected, lemma_run_end, max_u32, none_selected, page_difference, page_limit, page_range,
    range_is_well_numbered, range_names, range_steps, range_text, render_from, run_end, run_item,
    selected_pages, selects_all, single_page, step_names, steps_name,
};
use crate::pagerange::{
    max_page, non_decreasing, page_order, range_is_valid, step_is_valid, step_numbers,
    step_values,
};
use crate::text::{
    lemma_remove_spaces_identity, remove_spaces,
    all_digits, decimal, is_digit, is_whitespace, join, lemma_decimal, lemma_join_prepend,
    lemma_parse_decimal, lemma_split_append, lemma_split_join, lemma_split_no_sep,
    lemma_trim_identity, parse_unsigned, split, trim, unsigned_digits,
};

verus! {

/// The steps that `render_from` writes from index `i` on.
pub open spec fn items_from(pages: Seq<bool>, i: int) -> Seq<Seq<char>>
    decreases pages.len() - i,
{
    if i < 0 || i >= pages.len() {
        Seq::empty()
    } else if !pages[i] {
        items_from(pages, i + 1)
    } else {
        let j = run_end(pages, i);
        proof {
            lemma_run_end(pages, i);
        }
        seq![run_item((i + 1) as nat, (j + 1) as nat)] + items_from(pages, j + 1)
    }
}

/// The normal form of a selection as it is stored in the job options: its
/// text without the final comma.
pub open spec fn normal_form(pages: Seq<bool>) -> Seq<char> {
    let t = range_text(pages);
    if t.len() == 0 {
        t
    } else {
        t.drop_last()
    }
}

proof fn lemma_render_is_join(pages: Seq<bool>, i: int)
    requires
        0 <= i <= pages.len(),
    ensures
        items_from(pages, i).len() == 0 ==> render_from(pages, i) == Seq::<char>::empty(),
        items_from(pages, i).len() > 0 ==> render_from(pages, i) =~= join(items_from(pages, i), ',')
            + seq![','],
    decreases pages.len() - i,
{
    if i < pages.len() {
        if !pages[i] {
            lemma_render_is_join(pages, i + 1);
        } else {
            let j = run_end(pages, i);
            lemma_run_end(pages, i);
            lemma_render_is_join(pages, j + 1);
            let ri = run_item((i + 1) as nat, (j + 1) as nat);
            let rest = items_from(pages, j + 1);
            if rest.len() > 0 {
                lemma_join_prepend(ri, rest, ',');
            } else {
                assert(seq![ri] + rest =~= seq![ri]);
            }
        }
    }
}

proof fn lemma_decimal_chars(n: nat)
    ensures
        decimal(n).len() >= 1,
        forall|k: int| 0 <= k < decimal(n).len() ==> is_digit(#[trigger] decimal(n)[k]),
        !decimal(n).contains(','),
        !decimal(n).contains('-'),
        !is_whitespace(decimal(n)[0]),
        !is_whitespace(decimal(n).last()),
        unsigned_digits(decimal(n)) == decimal(n),
{
    lemma_decimal(n);
    assert(all_digits(decimal(n)));
    assert(is_digit(decimal(n)[0]));
    assert(is_digit(decimal(n)[decimal(n).len() - 1]));
}

/// A written run names exactly the pages it spans.
proof fn lemma_run_item_names(a: nat, b: nat, p: nat)
    requires
        1 <= a <= b <= max_u32(),
    ensures
        step_names(run_item(a, b), p) == (a <= p <= b),
        run_item(a, b).len() >= 1,
        is_digit(run_item(a, b)[0]),
        is_digit(run_item(a, b).last()),
        !run_item(a, b).contains(','),
{
    lemma_decimal_chars(a);
    lemma_decimal_chars(b);
    lemma_parse_decimal(a, max_u32());
    lemma_parse_decimal(b, max_u32());
    let da = decimal(a);
    let db = decimal(b);
    if a == b {
        lemma_trim_identity(da);
        lemma_split_no_sep(da, '-');
        assert(page_difference(da) is None);
    } else {
        let item = da + seq!['-'] + db;
        assert(item[0] == da[0]);
        assert(item.last() == db.last());
        assert(item[da.len() as int] == '-');
        assert(!is_digit(item[da.len() as int]));
        assert(!all_digits(item));
        assert(unsigned_digits(item) == item);
        assert(single_page(item) is None);
        lemma_trim_identity(item);
        lemma_split_append(da, db, '-');
        lemma_split_no_sep(da, '-');
        assert(split(item, '-') =~= seq![da, db]);
        assert(page_difference(item) == Some((a, b)));
        assert(!item.contains(',')) by {
            if item.contains(',') {
                let k = choose|k: int| 0 <= k < item.len() && item[k] == ',';
                if k < da.len() {
                    assert(da[k] == ',');
                } else if k > da.len() {
                    assert(db[k - da.len() - 1] == ',');
                }
            }
        }
    }
}

proof fn lemma_steps_name_prepend(x: Seq<char>, rest: Seq<Seq<char>>, p: nat)
    ensures
        steps_name(seq![x] + rest, p) == (step_names(x, p) || steps_name(rest, p)),
{
    let all = seq![x] + rest;
    if step_names(x, p) {
        assert(step_names(all[0], p));
    }
    if steps_name(rest, p) {
        let w = choose|w: int| 0 <= w < rest.len() && #[trigger] step_names(rest[w], p);
        assert(step_names(all[w + 1], p));
    }
    if steps_name(all, p) {
        let w = choose|w: int| 0 <= w < all.len() && #[trigger] step_names(all[w], p);
        if w > 0 {
            assert(step_names(rest[w - 1], p));
        }
    }
}

/// The written runs from index `i` on name exactly the selected pages from
/// there on, and every step holds digits and at most one `-`.
proof fn lemma_items_cover(pages: Seq<bool>, i: int)
    requires
        0 <= i <= pages.len(),
        pages.len() <= max_u32(),
    ensures
        forall|p: nat| #[trigger]
            steps_name(items_from(pages, i), p) == (i + 1 <= p <= pages.len() && pages[p - 1]),
        forall|k: int|
            0 <= k < items_from(pages, i).len() ==> {
                &&& (#[trigger] items_from(pages, i)[k]).len() >= 1
                &&& is_digit(items_from(pages, i)[k][0])
                &&& is_digit(items_from(pages, i)[k].last())
                &&& !items_from(pages, i)[k].contains(',')
            },
    decreases pages.len() - i,
{
    if i == pages.len() {
        assert forall|p: nat| #[trigger]
            steps_name(items_from(pages, i), p) == (i + 1 <= p <= pages.len() && pages[p - 1]) by {
            if steps_name(items_from(pages, i), p) {
                let w = choose|w: int|
                    0 <= w < items_from(pages, i).len() && #[trigger] step_names(
                        items_from(pages, i)[w],
                        p,
                    );
            }
        }
    } else if !pages[i] {
        lemma_items_cover(pages, i + 1);
        assert forall|p: nat| #[trigger]
            steps_name(items_from(pages, i), p) == (i + 1 <= p <= pages.len() && pages[p - 1]) by {
            assert(steps_name(items_from(pages, i + 1), p) == (i + 2 <= p <= pages.len() && pages[p
                - 1]));
        }
    } else {
        let j = run_end(pages, i);
        lemma_run_end(pages, i);
        lemma_items_cover(pages, j + 1);
        let ri = run_item((i + 1) as nat, (j + 1) as nat);
        let rest = items_from(pages, j + 1);
        assert(items_from(pages, i) == seq![ri] + rest);
        assert forall|p: nat| #[trigger]
            steps_name(items_from(pages, i), p) == (i + 1 <= p <= pages.len() && pages[p - 1]) by {
            lemma_steps_name_prepend(ri, rest, p);
            lemma_run_item_names((i + 1) as nat, (j + 1) as nat, p);
            assert(steps_name(rest, p) == (j + 2 <= p <= pages.len() && pages[p - 1]));
            if i + 1 <= p <= j + 1 {
                assert(pages[p - 1] || p - 1 == i);
            }
        }
        lemma_run_item_names((i + 1) as nat, (j + 1) as nat, 0);
        assert forall|k: int| 0 <= k < items_from(pages, i).len() implies {
            &&& (#[trigger] items_from(pages, i)[k]).len() >= 1
            &&& is_digit(items_from(pages, i)[k][0])
            &&& is_digit(items_from(pages, i)[k].last())
            &&& !items_from(pages, i)[k].contains(',')
        } by {
            if k > 0 {
                assert(items_from(pages, i)[k] == rest[k - 1]);
            }
        }
    }
}

proof fn lemma_join_ends(items: Seq<Seq<char>>)
    requires
        items.len() >= 1,
        forall|k: int| 0 <= k < items.len() ==> (#[trigger] items[k]).len() >= 1,
    ensures
        join(items, ',').len() >= 1,
        join(items, ',')[0] == items[0][0],
        join(items, ',').last() == items.last().last(),
    decreases items.len(),
{
    if items.len() > 1 {
        lemma_join_ends(items.drop_last());
        assert(items.drop_last()[0] == items[0]);
    }
}

/// Writing a selection in normal form and reading it back with
/// `PageRange::new` for the same number of pages gives the same selection,
/// and the normal form never names page 0.
pub proof fn lemma_normal_form_round_trip(pages: Seq<bool>)
    requires
        pages.len() <= max_u32(),
        all_selected(pages) || !none_selected(pages),
    ensures
        range_is_well_numbered(normal_form(pages)),
        page_range(normal_form(pages), pages.len() as usize) == Some(pages),
{
    let n = pages.len() as usize;
    if all_selected(pages) {
        assert(normal_form(pages) =~= Seq::<char>::empty());
        assert(Seq::new(n as nat, |i: int| true) =~= pages);
    } else {
        let items = items_from(pages, 0);
        lemma_items_cover(pages, 0);
        lemma_render_is_join(pages, 0);
        let k = choose|k: int| 0 <= k < pages.len() && pages[k];
        assert(steps_name(items, (k + 1) as nat));
        assert(items.len() > 0);
        let t = join(items, ',');
        assert(normal_form(pages) =~= t);
        lemma_join_ends(items);
        assert(!is_whitespace(t[0]));
        assert(!is_whitespace(t.last()));
        lemma_trim_identity(t);
        lemma_split_join(items, ',');
        assert(range_steps(t) == items);
        assert(!selects_all(t)) by {
            if t =~= seq!['-'] {
                assert(t[0] == '-');
            }
        }
        assert(!range_names(t, 0));
        assert(page_limit(n) == n);
        let sel = selected_pages(t, n);
        assert(sel =~= pages) by {
            assert forall|i: int| 0 <= i < n implies sel[i] == pages[i] by {
                assert(range_names(t, (i + 1) as nat) == pages[i]);
            }
        }
        assert(!none_selected(sel)) by {
            assert(sel[k]);
        }
    }
}


/// What the job options store for a range expression: the normal form of the
/// selected pages, or the empty text when the expression selects none.
pub open spec fn normalized(range: Seq<char>, pagecount: usize) -> Seq<char> {
    match page_range(range, pagecount) {
        Some(pages) => normal_form(pages),
        None => Seq::empty(),
    }
}

/// Storing a range twice stores the same as storing it once: the normal
/// form of a range expression is its own normal form.
pub proof fn lemma_normalized_idempotent(range: Seq<char>, pagecount: usize)
    requires
        pagecount <= max_u32(),
    ensures
        range_is_well_numbered(normalized(range, pagecount)),
        normalized(normalized(range, pagecount), pagecount) == normalized(range, pagecount),
{
    match page_range(range, pagecount) {
        Some(pages) => {
            assert(pages.len() == pagecount);
            lemma_normal_form_round_trip(pages);
        },
        None => {
            let all = Seq::new(pagecount as nat, |i: int| true);
            assert(normalized(range, pagecount) =~= Seq::<char>::empty());
            assert(page_range(Seq::<char>::empty(), pagecount) == Some(all));
            assert(all_selected(all));
            assert(normal_form(all) =~= Seq::<char>::empty());
        },
    }
}


/// Storing a range keeps the pages it selects: the stored normal form reads
/// back as the same selection, for every expression that selects a page.
pub proof fn lemma_normalized_keeps_selection(range: Seq<char>, pagecount: usize)
    requires
        pagecount <= max_u32(),
        page_range(range, pagecount) is Some,
    ensures
        page_range(normalized(range, pagecount), pagecount) == page_range(range, pagecount),
{
    let pages = page_range(range, pagecount)->0;
    assert(pages.len() == pagecount);
    if selects_all(range) {
        assert(all_selected(pages));
    }
    lemma_normal_form_round_trip(pages);
}

proof fn lemma_page_order_prepend(x: Seq<char>, rest: Seq<Seq<char>>)
    ensures
        page_order(seq![x] + rest) =~= step_values(x) + page_order(rest),
    decreases rest.len(),
{
    let all = seq![x] + rest;
    if rest.len() == 0 {
        assert(all.drop_last() =~= Seq::<Seq<char>>::empty());
        assert(all.last() == x);
        assert(page_order(all) == page_order(all.drop_last()) + step_values(all.last()));
        assert(page_order(rest) =~= Seq::<nat>::empty());
    } else {
        lemma_page_order_prepend(x, rest.drop_last());
        assert(all.drop_last() =~= seq![x] + rest.drop_last());
        assert(all.last() == rest.last());
        assert(page_order(all) == page_order(all.drop_last()) + step_values(all.last()));
        assert(page_order(rest) == page_order(rest.drop_last()) + step_values(rest.last()));
    }
}

/// A written run is a valid step for `page_range_is_valid`, and its values are
/// its first and (when different) last page.
proof fn lemma_run_item_valid(a: nat, b: nat)
    requires
        1 <= a <= b <= max_page(),
    ensures
        step_is_valid(run_item(a, b)),
        a == b ==> step_values(run_item(a, b)) =~= seq![a],
        a < b ==> step_values(run_item(a, b)) =~= seq![a, b],
        !run_item(a, b).contains(' '),
{
    lemma_decimal_chars(a);
    lemma_decimal_chars(b);
    lemma_parse_decimal(a, max_page());
    lemma_parse_decimal(b, max_page());
    let da = decimal(a);
    let db = decimal(b);
    assert(!da.contains(' ')) by {
        if da.contains(' ') {
            let k = choose|k: int| 0 <= k < da.len() && da[k] == ' ';
            assert(is_digit(da[k]));
        }
    }
    assert(!db.contains(' ')) by {
        if db.contains(' ') {
            let k = choose|k: int| 0 <= k < db.len() && db[k] == ' ';
            assert(is_digit(db[k]));
        }
    }
    if a == b {
        lemma_split_no_sep(da, '-');
        assert(step_numbers(da) =~= seq![da]);
    } else {
        let item = da + seq!['-'] + db;
        lemma_split_append(da, db, '-');
        lemma_split_no_sep(da, '-');
        assert(step_numbers(item) =~= seq![da, db]);
        assert(!item.contains(' ')) by {
            if item.contains(' ') {
                let k = choose|k: int| 0 <= k < item.len() && item[k] == ' ';
                if k < da.len() {
                    assert(da[k] == ' ');
                } else if k > da.len() {
                    assert(db[k - da.len() - 1] == ' ');
                }
            }
        }
    }
}

pub open spec fn strictly_increasing_from(s: Seq<nat>, low: nat) -> bool {
    &&& forall|k: int| 0 <= k < s.len() ==> #[trigger] s[k] >= low
    &&& forall|k: int, l: int| 0 <= k < l < s.len() ==> s[k] < s[l]
}

/// The written runs from index `i` on are valid steps without spaces, and
/// their page numbers rise strictly, starting above `i`.
proof fn lemma_items_valid(pages: Seq<bool>, i: int)
    requires
        0 <= i <= pages.len(),
        pages.len() <= max_page(),
    ensures
        forall|k: int|
            0 <= k < items_from(pages, i).len() ==> step_is_valid(#[trigger] items_from(pages, i)[k])
                && !items_from(pages, i)[k].contains(' '),
        strictly_increasing_from(page_order(items_from(pages, i)), (i + 1) as nat),
    decreases pages.len() - i,
{
    if i == pages.len() {
        assert(items_from(pages, i) =~= Seq::<Seq<char>>::empty());
        assert(page_order(items_from(pages, i)) =~= Seq::<nat>::empty());
    } else if !pages[i] {
        lemma_items_valid(pages, i + 1);
    } else {
        let j = run_end(pages, i);
        lemma_run_end(pages, i);
        lemma_items_valid(pages, j + 1);
        let ri = run_item((i + 1) as nat, (j + 1) as nat);
        let rest = items_from(pages, j + 1);
        assert(items_from(pages, i) == seq![ri] + rest);
        lemma_run_item_valid((i + 1) as nat, (j + 1) as nat);
        lemma_page_order_prepend(ri, rest);
        let head = step_values(ri);
        let tail = page_order(rest);
        let all = page_order(items_from(pages, i));
        assert(all =~= head + tail);
        assert forall|k: int| 0 <= k < items_from(pages, i).len() implies step_is_valid(
            #[trigger] items_from(pages, i)[k],
        ) && !items_from(pages, i)[k].contains(' ') by {
            if k > 0 {
                assert(items_from(pages, i)[k] == rest[k - 1]);
            }
        }
        assert forall|k: int, l: int| 0 <= k < l < all.len() implies all[k] < all[l] by {
            if l < head.len() {
            } else if k < head.len() {
                assert(head[k] <= j + 1);
                assert(tail[l - head.len()] >= j + 2);
            } else {
                assert(tail[k - head.len()] < tail[l - head.len()]);
            }
        }
        assert forall|k: int| 0 <= k < all.len() implies #[trigger] all[k] >= i + 1 by {
            if k >= head.len() {
                assert(tail[k - head.len()] >= j + 2);
            }
        }
    }
}

/// The normal form of a selection that leaves pages out is a valid range
/// expression for `page_range_is_valid` when the document has at most
/// `u16::MAX` pages: what is written into the printer stream as the pages to
/// print passes the range check.
pub proof fn lemma_normal_form_is_valid(pages: Seq<bool>)
    requires
        pages.len() <= max_page(),
        !all_selected(pages),
        !none_selected(pages),
    ensures
        range_is_valid(normal_form(pages)),
{
    let items = items_from(pages, 0);
    lemma_items_cover(pages, 0);
    lemma_items_valid(pages, 0);
    lemma_render_is_join(pages, 0);
    let k = choose|k: int| 0 <= k < pages.len() && pages[k];
    assert(steps_name(items, (k + 1) as nat));
    assert(items.len() > 0);
    let t = join(items, ',');
    assert(normal_form(pages) =~= t);
    lemma_join_no_space(items);
    lemma_remove_spaces_identity(t);
    lemma_split_join(items, ',');
    let order = page_order(items);
    assert(non_decreasing(order)) by {
        assert forall|a: int, b: int| 0 <= a <= b < order.len() implies order[a] <= order[b] by {
            if a < b {
                assert(order[a] < order[b]);
            }
        }
    }
}

proof fn lemma_join_no_space(items: Seq<Seq<char>>)
    requires
        forall|k: int| 0 <= k < items.len() ==> !(#[trigger] items[k]).contains(' '),
    ensures
        !join(items, ',').contains(' '),
    decreases items.len(),
{
    if items.len() > 1 {
        lemma_join_no_space(items.drop_last());
        let left = join(items.drop_last(), ',');
        let right = items.last();
        assert(!right.contains(' '));
        let whole = left + seq![','] + right;
        assert(join(items, ',') == whole);
        if whole.contains(' ') {
            let k = choose|k: int| 0 <= k < whole.len() && whole[k] == ' ';
            if k < left.len() {
                assert(left[k] == ' ');
            } else if k > left.len() {
                assert(right[k - left.len() - 1] == ' ');
            }
        }
    }
}

} // verus!
