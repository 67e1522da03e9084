//! Cells of a given width, and the wrapping of a run of cells into rows of
//! a bounded width.
use vstd::prelude::*;

verus! {

/// What takes a number of columns on a row.
pub trait Cell: Copy {
    /// The number of columns that the cell takes.
    spec fn span(self) -> nat;

    /// The number of columns that the cell takes.
    fn columns(&self) -> (w: usize)
        ensures
            w == self.span(),
    ;
}

/// The sum of the widths of `s`.
pub open spec fn total_width<C: Cell>(s: Seq<C>) -> nat
    decreases s.len(),
{
    if s.len() == 0 {
        0
    } else {
        total_width(s.drop_last()) + s.last().span()
    }
}

/// A prefix is no wider than the whole.
pub proof fn lemma_total_width_prefix<C: Cell>(s: Seq<C>, k: int)
    requires
        0 <= k <= s.len(),
    ensures
        total_width(s.take(k)) <= total_width(s),
    decreases s.len() - k,
{
    if k == s.len() {
        assert(s.take(k) =~= s);
    } else {
        lemma_total_width_prefix(s, k + 1);
        assert(s.take(k + 1).drop_last() =~= s.take(k));
    }
}

/// The width of a run is the width of a prefix plus that of the rest.
pub proof fn lemma_total_width_split<C: Cell>(s: Seq<C>, k: int)
    requires
        0 <= k <= s.len(),
    ensures
        total_width(s) == total_width(s.take(k)) + total_width(s.skip(k)),
    decreases s.len(),
{
    if k == s.len() {
        assert(s.take(k) =~= s);
        assert(s.skip(k) =~= Seq::<C>::empty());
    } else {
        lemma_total_width_split(s.drop_last(), k);
        assert(s.drop_last().take(k) =~= s.take(k));
        assert(s.drop_last().skip(k) =~= s.skip(k).drop_last());
    }
}

/// Where wrapping stands after a prefix of the input: the rows already
/// closed, and the row still being filled.
pub struct Wrapping<C> {
    pub closed: Seq<Seq<C>>,
    pub row: Seq<C>,
}

/// Places one cell. A row that is not empty and that `c` would push past
/// `width` is closed first; `c` is then appended unless it alone is wider
/// than `width`, in which case it is dropped.
pub open spec fn wrap_step<C: Cell>(width: usize, w: Wrapping<C>, c: C) -> Wrapping<C> {
    let full = w.row.len() > 0 && total_width(w.row) + c.span() > width;
    let closed = if full { w.closed.push(w.row) } else { w.closed };
    let row = if full { Seq::<C>::empty() } else { w.row };
    Wrapping { closed, row: if c.span() <= width { row.push(c) } else { row } }
}

/// Places the cells of `s` from left to right.
pub open spec fn wrap_all<C: Cell>(width: usize, s: Seq<C>) -> Wrapping<C>
    decreases s.len(),
{
    if s.len() == 0 {
        Wrapping { closed: Seq::empty(), row: Seq::empty() }
    } else {
        wrap_step(width, wrap_all(width, s.drop_last()), s.last())
    }
}

/// The rows that `s` wraps into at the given width: the closed rows followed
/// by the last one, which may be empty.
pub open spec fn wrapped<C: Cell>(width: usize, s: Seq<C>) -> Seq<Seq<C>> {
    let w = wrap_all(width, s);
    w.closed.push(w.row)
}

/// Whether a cell is no wider than `width`.
pub open spec fn fits<C: Cell>(width: usize) -> spec_fn(C) -> bool {
    |c: C| c.span() <= width
}

/// Every row of a wrapping fits the width, and only the row being filled can
/// be empty.
pub proof fn lemma_wrap_rows_fit<C: Cell>(width: usize, s: Seq<C>)
    ensures
        total_width(wrap_all(width, s).row) <= width,
        forall|i: int|
            0 <= i < wrap_all(width, s).closed.len() ==> {
                &&& (#[trigger] wrap_all(width, s).closed[i]).len() > 0
                &&& total_width(wrap_all(width, s).closed[i]) <= width
            },
        forall|i: int|
            0 <= i < wrapped(width, s).len() ==> total_width(#[trigger] wrapped(width, s)[i])
                <= width,
    decreases s.len(),
{
    if s.len() > 0 {
        let before = wrap_all(width, s.drop_last());
        let c = s.last();
        lemma_wrap_rows_fit(width, s.drop_last());
        let full = before.row.len() > 0 && total_width(before.row) + c.span() > width;
        let row = if full { Seq::<C>::empty() } else { before.row };
        if c.span() <= width {
            assert(row.push(c).drop_last() =~= row);
            assert(total_width(Seq::<C>::empty()) == 0);
            assert(total_width(row.push(c)) == total_width(row) + c.span());
        }
    }
    let w = wrap_all(width, s);
    assert forall|i: int| 0 <= i < wrapped(width, s).len() implies total_width(
        #[trigger] wrapped(width, s)[i],
    ) <= width by {
        if i < w.closed.len() {
            assert(wrapped(width, s)[i] == w.closed[i]);
        }
    }
}

/// Wrapping loses nothing but the cells that are wider than the width: the
/// rows, joined in order, are the input without them.
pub proof fn lemma_wrap_keeps_fitting<C: Cell>(width: usize, s: Seq<C>)
    ensures
        wrapped(width, s).flatten() == s.filter(fits::<C>(width)),
    decreases s.len(),
{
    broadcast use Seq::lemma_flatten_push;

    if s.len() == 0 {
        assert(wrapped(width, s) =~= Seq::<Seq<C>>::empty().push(Seq::empty()));
        assert(Seq::<Seq<C>>::empty().flatten() =~= Seq::<C>::empty());
        assert(wrapped(width, s).flatten() =~= Seq::<C>::empty());
    } else {
        let before = wrap_all(width, s.drop_last());
        let c = s.last();
        lemma_wrap_keeps_fitting(width, s.drop_last());
        assert(before.closed.push(before.row).flatten() == s.drop_last().filter(
            fits::<C>(width),
        ));
        let full = before.row.len() > 0 && total_width(before.row) + c.span() > width;
        let closed = if full { before.closed.push(before.row) } else { before.closed };
        let row = if full { Seq::<C>::empty() } else { before.row };
        assert(closed.push(row).flatten() =~= before.closed.push(before.row).flatten());
        if c.span() <= width {
            assert(closed.push(row.push(c)).flatten() =~= closed.push(row).flatten().push(c));
        }
        reveal_with_fuel(Seq::filter, 2);
    }
}

/// Where no cell of the input is wider than the width, every row of its
/// wrapping fits the width, and the rows, joined in order, are the input
/// itself.
pub proof fn lemma_wrap_reproduces_input<C: Cell>(width: usize, s: Seq<C>)
    requires
        forall|i: int| 0 <= i < s.len() ==> (#[trigger] s[i]).span() <= width,
    ensures
        wrapped(width, s).flatten() == s,
        forall|i: int|
            0 <= i < wrapped(width, s).len() ==> total_width(#[trigger] wrapped(width, s)[i])
                <= width,
{
    lemma_wrap_keeps_fitting(width, s);
    lemma_wrap_rows_fit(width, s);
    lemma_filter_all(s, fits::<C>(width));
}

/// Where no cell of the input is wider than the width, wrapping is greedy:
/// no row but the only row of an empty input is empty, and the first cell
/// of every row but the first would not have fitted at the end of the row
/// before it.
pub proof fn lemma_wrap_is_greedy<C: Cell>(width: usize, s: Seq<C>)
    requires
        forall|i: int| 0 <= i < s.len() ==> (#[trigger] s[i]).span() <= width,
    ensures
        s.len() > 0 ==> forall|i: int|
            0 <= i < wrapped(width, s).len() ==> (#[trigger] wrapped(width, s)[i]).len() > 0,
        forall|i: int|
            0 < i < wrapped(width, s).len() ==> total_width(wrapped(width, s)[i - 1]) + (
            #[trigger] wrapped(width, s)[i]).first().span() > width,
    decreases s.len(),
{
    if s.len() > 0 {
        let before = wrap_all(width, s.drop_last());
        let c = s.last();
        let rows = wrapped(width, s);
        lemma_wrap_is_greedy(width, s.drop_last());
        lemma_wrap_rows_fit(width, s.drop_last());
        let old_rows = wrapped(width, s.drop_last());
        assert(old_rows.last() == before.row);
        if before.row.len() > 0 && total_width(before.row) + c.span() > width {
            assert(rows =~= old_rows.push(seq![c]));
            assert forall|i: int| 0 <= i < rows.len() implies (#[trigger] rows[i]).len() > 0 by {
                if i < old_rows.len() - 1 {
                    assert(old_rows[i] == before.closed[i]);
                }
            }
            assert forall|i: int| 0 < i < rows.len() implies total_width(rows[i - 1]) + (
            #[trigger] rows[i]).first().span() > width by {
                if i < old_rows.len() {
                    assert(rows[i] == old_rows[i]);
                }
            }
        } else {
            assert(rows =~= old_rows.drop_last().push(before.row.push(c)));
            assert forall|i: int| 0 <= i < rows.len() implies (#[trigger] rows[i]).len() > 0 by {
                if i < old_rows.len() - 1 {
                    assert(old_rows[i] == before.closed[i]);
                }
            }
            if before.row.len() == 0 {
                // Only an empty input leaves the row that is being filled
                // empty, so there is no row before it.
                if s.drop_last().len() > 0 {
                    assert(old_rows[old_rows.len() - 1].len() > 0);
                }
                assert(before.closed.len() == 0) by {
                    lemma_wrap_of_nothing::<C>(width, s.drop_last());
                }
            }
            assert forall|i: int| 0 < i < rows.len() implies total_width(rows[i - 1]) + (
            #[trigger] rows[i]).first().span() > width by {
                assert(rows[i - 1] == old_rows[i - 1]);
                if i < old_rows.len() - 1 {
                    assert(rows[i] == old_rows[i]);
                } else {
                    assert(rows[i].first() == old_rows[i].first());
                }
            }
        }
    }
}

/// An empty input wraps into one empty row.
pub proof fn lemma_wrap_of_nothing<C: Cell>(width: usize, s: Seq<C>)
    requires
        s.len() == 0,
    ensures
        wrapped(width, s) == seq![Seq::<C>::empty()],
        wrap_all(width, s).closed.len() == 0,
{
    assert(wrapped(width, s) =~= seq![Seq::<C>::empty()]);
}

/// A filter that every element passes changes nothing.
proof fn lemma_filter_all<A>(s: Seq<A>, pred: spec_fn(A) -> bool)
    requires
        forall|i: int| 0 <= i < s.len() ==> pred(#[trigger] s[i]),
    ensures
        s.filter(pred) == s,
    decreases s.len(),
{
    reveal_with_fuel(Seq::filter, 2);
    if s.len() > 0 {
        lemma_filter_all(s.drop_last(), pred);
        assert(s.drop_last().push(s.last()) =~= s);
    }
}

/// The number of cells at the start of `s` that together are no wider than
/// `width`: counting stops at the first cell that would not fit.
pub open spec fn fitting_len<C: Cell>(s: Seq<C>, width: nat) -> nat
    decreases s.len(),
{
    if s.len() == 0 || s.first().span() > width {
        0
    } else {
        1 + fitting_len(s.drop_first(), (width - s.first().span()) as nat)
    }
}

/// The longest run of cells at the start of `s` that is no wider than
/// `width`.
pub open spec fn truncated<C: Cell>(s: Seq<C>, width: nat) -> Seq<C> {
    s.take(fitting_len(s, width) as int)
}

/// What is cut off to a width is a prefix of the input that fits the width,
/// and the whole input where that fits. The cell behind what is left, where
/// there is one, would not have fitted.
pub proof fn lemma_truncated_fits<C: Cell>(s: Seq<C>, width: nat)
    ensures
        fitting_len(s, width) <= s.len(),
        total_width(truncated(s, width)) <= width,
        total_width(s) <= width ==> truncated(s, width) == s,
        fitting_len(s, width) < s.len() ==> total_width(truncated(s, width)) + s[fitting_len(
            s,
            width,
        ) as int].span() > width,
    decreases s.len(),
{
    if s.len() == 0 || s.first().span() > width {
        assert(s.take(0) =~= Seq::<C>::empty());
        if s.len() > 0 {
            lemma_total_width_split(s, 1);
            assert(s.take(1) =~= seq![s.first()]);
            assert(seq![s.first()].drop_last() =~= Seq::<C>::empty());
            assert(total_width(Seq::<C>::empty()) == 0);
        } else {
            assert(s.take(0) =~= s);
        }
    } else {
        let rest = s.drop_first();
        let left = (width - s.first().span()) as nat;
        let k = fitting_len(rest, left) as int;
        lemma_truncated_fits(rest, left);
        lemma_total_width_split(s.take(k + 1), 1);
        assert(s.take(k + 1).take(1) =~= seq![s.first()]);
        assert(s.take(k + 1).skip(1) =~= rest.take(k));
        assert(seq![s.first()].drop_last() =~= Seq::<C>::empty());
        assert(total_width(Seq::<C>::empty()) == 0);
        lemma_total_width_split(s, 1);
        assert(s.take(1) =~= seq![s.first()]);
        assert(s.skip(1) =~= rest);
        if total_width(s) <= width {
            assert(rest.take(k) == rest);
            assert(k == rest.len());
            assert(s.take(k + 1) =~= s);
        }
    }
}

/// `s` where it is no wider than `width`. Where it is wider, it is cut
/// off to make room for `suffix`, and `suffix` stands behind what is left;
/// where not even `suffix` fits, it is only cut off.
pub open spec fn trimmed<C: Cell>(s: Seq<C>, width: nat, suffix: Seq<C>) -> Seq<C> {
    if total_width(s) <= width {
        s
    } else if total_width(suffix) <= width {
        truncated(s, (width - total_width(suffix)) as nat) + suffix
    } else {
        truncated(s, width)
    }
}

/// What is trimmed to a width fits it.
pub proof fn lemma_trimmed_fits<C: Cell>(s: Seq<C>, width: nat, suffix: Seq<C>)
    ensures
        total_width(trimmed(s, width, suffix)) <= width,
{
    if total_width(s) > width {
        if total_width(suffix) <= width {
            let room = (width - total_width(suffix)) as nat;
            let cut = truncated(s, room);
            lemma_truncated_fits(s, room);
            lemma_total_width_split(cut + suffix, cut.len() as int);
            assert((cut + suffix).take(cut.len() as int) =~= cut);
            assert((cut + suffix).skip(cut.len() as int) =~= suffix);
        } else {
            lemma_truncated_fits(s, width);
        }
    }
}

/// The views of a sequence of values, one by one.
pub open spec fn views_of<T: View>(items: Seq<T>) -> Seq<T::V> {
    items.map_values(|t: T| t@)
}

/// Wraps `cells` into rows no wider than `width`.
///
/// Cells are placed greedily from left to right. Before one is placed, a
/// row that is not empty and would grow past `width` is closed and a new one
/// begun. A cell that is by itself wider than `width` is left out. The last
/// row is always returned, so an empty input gives one empty row.
pub fn wrap<C: Cell>(width: usize, cells: &Vec<C>) -> (rows: Vec<Vec<C>>)
    ensures
        views_of(rows@) == wrapped(width, cells@),
        rows@.len() >= 1,
        forall|i: int| 0 <= i < rows@.len() ==> total_width(#[trigger] rows@[i]@) <= width,
        views_of(rows@).flatten() == cells@.filter(fits::<C>(width)),
        (forall|i: int| 0 <= i < cells@.len() ==> (#[trigger] cells@[i]).span() <= width)
            ==> views_of(rows@).flatten() == cells@,
{
    let mut ret: Vec<Vec<C>> = Vec::new();
    let mut row: Vec<C> = Vec::new();
    let mut used: usize = 0;
    let n = cells.len();
    let mut i: usize = 0;
    while i < n
        invariant
            n == cells@.len(),
            i <= n,
            views_of(ret@) == wrap_all(width, cells@.take(i as int)).closed,
            row@ == wrap_all(width, cells@.take(i as int)).row,
            used == total_width(row@),
            used <= width,
        decreases n - i,
    {
        let cell = cells[i];
        let w = cell.columns();
        proof {
            assert(cells@.take(i + 1).drop_last() =~= cells@.take(i as int));
            assert(cells@.take(i + 1).last() == cell);
        }
        if row.len() > 0 && w > width - used {
            let ghost closed = views_of(ret@);
            ret.push(row);
            assert(views_of(ret@) =~= closed.push(row@));
            row = Vec::new();
            used = 0;
            assert(total_width(row@) == 0);
        }
        if width >= w {
            proof {
                assert(row@.push(cell).drop_last() =~= row@);
                assert(total_width(row@.push(cell)) == total_width(row@) + cell.span());
            }
            row.push(cell);
            used = used + w;
        }
        i = i + 1;
    }
    proof {
        assert(cells@.take(n as int) =~= cells@);
    }
    let ghost closed = views_of(ret@);
    ret.push(row);
    proof {
        assert(views_of(ret@) =~= closed.push(row@));
        lemma_wrap_rows_fit(width, cells@);
        lemma_wrap_keeps_fitting(width, cells@);
        assert forall|i: int| 0 <= i < ret@.len() implies total_width(#[trigger] ret@[i]@)
            <= width by {
            assert(ret@[i]@ == views_of(ret@)[i]);
            assert(views_of(ret@)[i] == wrapped(width, cells@)[i]);
        }
        if forall|i: int| 0 <= i < cells@.len() ==> (#[trigger] cells@[i]).span() <= width {
            lemma_wrap_reproduces_input(width, cells@);
        }
    }
    ret
}

/// A vector of the same cells.
pub fn copy<C: Cell>(cells: &Vec<C>) -> (r: Vec<C>)
    ensures
        r@ == cells@,
{
    let mut r: Vec<C> = Vec::new();
    append(&mut r, cells);
    r
}

/// Appends the cells of `other` to `cells`.
pub fn append<C: Cell>(cells: &mut Vec<C>, other: &Vec<C>)
    ensures
        final(cells)@ == old(cells)@ + other@,
{
    let n = other.len();
    let mut i: usize = 0;
    while i < n
        invariant
            n == other@.len(),
            i <= n,
            cells@ == old(cells)@ + other@.take(i as int),
        decreases n - i,
    {
        cells.push(other[i]);
        assert(other@.take(i + 1) =~= other@.take(i as int).push(other@[i as int]));
        i = i + 1;
    }
    assert(other@.take(n as int) =~= other@);
}

/// Whether the cells take no column at all.
pub fn is_blank<C: Cell>(cells: &Vec<C>) -> (b: bool)
    ensures
        b == (total_width(cells@) == 0),
{
    let n = cells.len();
    let mut i: usize = 0;
    while i < n
        invariant
            n == cells@.len(),
            i <= n,
            total_width(cells@.take(i as int)) == 0,
        decreases n - i,
    {
        proof {
            assert(cells@.take(i + 1).drop_last() =~= cells@.take(i as int));
        }
        if cells[i].columns() != 0 {
            proof {
                lemma_total_width_prefix(cells@, i + 1);
            }
            return false;
        }
        i = i + 1;
    }
    assert(cells@.take(n as int) =~= cells@);
    true
}

/// The width of the cells where that is no more than `limit`.
pub fn width_within<C: Cell>(cells: &Vec<C>, limit: usize) -> (w: Option<usize>)
    ensures
        match w {
            Some(w) => w == total_width(cells@) && w <= limit,
            None => total_width(cells@) > limit,
        },
{
    let n = cells.len();
    let mut used: usize = 0;
    let mut i: usize = 0;
    while i < n
        invariant
            n == cells@.len(),
            i <= n,
            used == total_width(cells@.take(i as int)),
            used <= limit,
        decreases n - i,
    {
        let w = cells[i].columns();
        proof {
            assert(cells@.take(i + 1).drop_last() =~= cells@.take(i as int));
        }
        if w > limit - used {
            proof {
                lemma_total_width_prefix(cells@, i + 1);
            }
            return None;
        }
        used = used + w;
        i = i + 1;
    }
    assert(cells@.take(n as int) =~= cells@);
    Some(used)
}

/// The cells cut off behind the last one that still fits `width`.
pub fn truncate<C: Cell>(cells: &Vec<C>, width: usize) -> (r: Vec<C>)
    ensures
        r@ == truncated(cells@, width as nat),
        total_width(r@) <= width,
{
    let mut out: Vec<C> = Vec::new();
    let mut left: usize = width;
    let n = cells.len();
    let mut i: usize = 0;
    assert(cells@.skip(0) =~= cells@);
    while i < n && cells[i].columns() <= left
        invariant
            n == cells@.len(),
            i <= n,
            out@ == cells@.take(i as int),
            left <= width,
            fitting_len(cells@, width as nat) == i + fitting_len(cells@.skip(i as int), left as nat),
        decreases n - i,
    {
        proof {
            assert(cells@.skip(i as int).first() == cells@[i as int]);
            assert(cells@.skip(i as int).drop_first() =~= cells@.skip(i + 1));
            assert(cells@.take(i + 1) =~= cells@.take(i as int).push(cells@[i as int]));
        }
        out.push(cells[i]);
        left = left - cells[i].columns();
        i = i + 1;
    }
    proof {
        if i < n {
            assert(cells@.skip(i as int).first() == cells@[i as int]);
        }
        lemma_truncated_fits(cells@, width as nat);
    }
    out
}

/// The cells cut off where they are wider than `width`, with `suffix`
/// behind what is left where there is room for it.
pub fn trim<C: Cell>(cells: &Vec<C>, width: usize, suffix: &Vec<C>) -> (r: Vec<C>)
    ensures
        r@ == trimmed(cells@, width as nat, suffix@),
        total_width(r@) <= width,
{
    proof {
        lemma_trimmed_fits(cells@, width as nat, suffix@);
    }
    if width_within(cells, width).is_some() {
        return copy(cells);
    }
    match width_within(suffix, width) {
        Some(w) => {
            let mut cut = truncate(cells, width - w);
            append(&mut cut, suffix);
            cut
        },
        None => truncate(cells, width),
    }
}

} // verus!
