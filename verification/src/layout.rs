//! Where each part of a screen goes: rectangles of terminal cells and how the
//! layout engine divides them.
use ratatui::layout::{Constraint, Direction, Layout, Rect};
use vstd::prelude::*;

verus! {

/// A rectangle of terminal cells.
#[derive(Clone, Copy, Debug, PartialEq, Eq, Structural)]
pub struct Area {
    pub x: u16,
    pub y: u16,
    pub width: u16,
    pub height: u16,
}

/// The direction in which an area is divided.
#[derive(Clone, Copy, Debug, PartialEq, Eq, Structural)]
pub enum Axis {
    /// Side by side.
    Horizontal,
    /// One above the other.
    Vertical,
}

/// How much of an area a part asks for.
#[derive(Clone, Copy, Debug, PartialEq, Eq, Structural)]
pub enum Extent {
    /// Exactly this many cells.
    Length(u16),
    /// At least this many cells.
    Min(u16),
    /// This percentage of the area.
    Percentage(u16),
    /// A share of what the other parts leave, in this proportion.
    Fill(u16),
}

/// The area that is left of `area` after a margin of `margin` cells on every
/// side, as ratatui's `Rect::inner` computes it: empty where the margin does
/// not fit.
pub open spec fn inner_area(area: Area, margin: u16) -> Area {
    let doubled: int = if 2 * margin > u16::MAX { u16::MAX as int } else { 2 * margin };
    if area.width < doubled || area.height < doubled {
        Area { x: 0, y: 0, width: 0, height: 0 }
    } else {
        Area {
            x: if area.x + margin > u16::MAX { u16::MAX } else { (area.x + margin) as u16 },
            y: if area.y + margin > u16::MAX { u16::MAX } else { (area.y + margin) as u16 },
            width: (area.width - doubled) as u16,
            height: (area.height - doubled) as u16,
        }
    }
}

/// Where an area starts along `axis`.
pub open spec fn start_along(a: Area, axis: Axis) -> int {
    match axis {
        Axis::Horizontal => a.x as int,
        Axis::Vertical => a.y as int,
    }
}

/// How many cells an area spans along `axis`.
pub open spec fn size_along(a: Area, axis: Axis) -> int {
    match axis {
        Axis::Horizontal => a.width as int,
        Axis::Vertical => a.height as int,
    }
}

/// A part of `inner` along `axis`: it keeps the position and size of `inner`
/// across the axis.
pub open spec fn spans_across(inner: Area, axis: Axis, part: Area) -> bool {
    match axis {
        Axis::Horizontal => part.y == inner.y && part.height == inner.height,
        Axis::Vertical => part.x == inner.x && part.width == inner.width,
    }
}

/// A part lies inside `inner` along `axis`: it starts no earlier and ends no
/// later than `inner` does.
pub open spec fn lies_within(inner: Area, axis: Axis, part: Area) -> bool {
    &&& start_along(inner, axis) <= start_along(part, axis)
    &&& start_along(part, axis) + size_along(part, axis) <= start_along(inner, axis) + size_along(
        inner,
        axis,
    )
}

/// The edge of `a` along `axis` lies within the coordinates of a terminal.
pub open spec fn ends_in_range(a: Area, axis: Axis) -> bool {
    start_along(a, axis) + size_along(a, axis) <= u16::MAX
}

/// The number of cells an extent asks for exactly; none for the others.
pub open spec fn length_of(e: Extent) -> int {
    match e {
        Extent::Length(n) => n as int,
        _ => 0,
    }
}

/// Every extent asks for an exact number of cells.
pub open spec fn all_lengths(extents: Seq<Extent>) -> bool {
    forall|i: int| 0 <= i < extents.len() ==> (#[trigger] extents[i]) is Length
}

/// The cells that the extents ask for together.
pub open spec fn total_length(extents: Seq<Extent>) -> int
    decreases extents.len(),
{
    if extents.len() == 0 {
        0
    } else {
        total_length(extents.drop_last()) + length_of(extents.last())
    }
}

/// Divides `area` with ratatui's `Layout::split`, built with `Layout::new` and
/// `Layout::margin`. Claims, as the source of `Layout::try_split`,
/// `configure_variable_in_area_constraints` and `changes_to_rects` shows:
/// one part for each extent; each part keeps the position and size of the
/// inner area across the axis and lies within the inner area along it (every
/// solver variable is bound to the area with `REQUIRED` strength). Where every
/// extent is an exact length, the lengths add up to at most the inner area's
/// size along the axis, and the inner area ends within the terminal's
/// coordinates (ratatui caps its end with a saturating add), the parts follow
/// one another from the inner area's start with exactly those lengths, the
/// spare cells left at the end: with the default `Flex::Start`, exact lengths
/// (`LENGTH_SIZE_EQ`), empty spacers between parts (`SPACER_SIZE_EQ`) and an
/// empty first spacer (`REQUIRED - 1`) all outweigh the growth of the last
/// spacer (`GROW`) and the equal-size pull between parts (`ALL_SEGMENT_GROW`),
/// so that placement is the solver's only optimum. One over-full case is
/// stated too: three exact lengths `m`, `b`, `m` that ask for one cell more
/// than the inner area has, with `m` larger than `b`. The solver must then
/// take one cell (100 solver units) from the segments, since a segment's
/// length (`LENGTH_SIZE_EQ`) weighs less than an empty spacer between parts
/// (`SPACER_SIZE_EQ`) and the outer spacers cannot shrink below zero (every
/// variable lies between the area's ends, `REQUIRED`); every unit taken costs
/// the same, and the equal-size pull between neighbouring parts
/// (`ALL_SEGMENT_GROW`) is least when the middle part keeps all of `b`, since
/// it is the smaller one. The middle part then has exactly `b` cells, and,
/// after `changes_to_rects` rounds its ends, starts `m` or `m - 1` cells
/// after the inner area's start, as the first part gave up none or all of
/// the missing cell. Where the parts go otherwise is the solver's choice,
/// which may differ between runs; nothing more is stated of it, and in
/// particular not that parts never overlap, since the spacers between parts
/// are not held to a non-negative size with `REQUIRED` strength.
#[verifier::external_body]
fn split_area(area: Area, axis: Axis, margin: u16, extents: &Vec<Extent>) -> (parts: Vec<Area>)
    ensures
        parts@.len() == extents@.len(),
        forall|i: int| 0 <= i < parts@.len() ==> spans_across(inner_area(area, margin), axis, #[trigger] parts@[i]),
        forall|i: int| 0 <= i < parts@.len() ==> lies_within(inner_area(area, margin), axis, #[trigger] parts@[i]),
        all_lengths(extents@) && total_length(extents@) <= size_along(inner_area(area, margin), axis)
            && ends_in_range(inner_area(area, margin), axis)
            ==> forall|i: int| 0 <= i < parts@.len() ==> start_along(#[trigger] parts@[i], axis) == start_along(inner_area(area, margin), axis) + total_length(extents@.take(i)) && size_along(parts@[i], axis) == length_of(extents@[i]),
        forall|m: u16, b: u16|
            extents@ == #[trigger] centered_extents(m, b) && 2 * m + b == size_along(inner_area(area, margin), axis) + 1
                && m > b && ends_in_range(inner_area(area, margin), axis)
                ==> size_along(parts@[1], axis) == b && (start_along(parts@[1], axis) == start_along(inner_area(area, margin), axis) + m - 1
                || start_along(parts@[1], axis) == start_along(inner_area(area, margin), axis) + m),
{
    let constraints = extents.iter().map(|e| match *e {
        Extent::Length(n) => Constraint::Length(n),
        Extent::Min(n) => Constraint::Min(n),
        Extent::Percentage(n) => Constraint::Percentage(n),
        Extent::Fill(n) => Constraint::Fill(n),
    });
    let direction = match axis { Axis::Horizontal => Direction::Horizontal, Axis::Vertical => Direction::Vertical };
    let rect = Rect { x: area.x, y: area.y, width: area.width, height: area.height };
    let parts = Layout::new(direction, constraints).margin(margin).split(rect);
    parts.iter().map(|r| Area { x: r.x, y: r.y, width: r.width, height: r.height }).collect()
}

/// The extents of the main screen: a title bar and a footer of three rows,
/// the body in between.
pub fn main_frame_extents() -> (extents: Vec<Extent>)
    ensures
        extents@ == seq![Extent::Length(3), Extent::Min(1), Extent::Length(3)],
{
    let extents = vec![Extent::Length(3), Extent::Min(1), Extent::Length(3)];
    assert(extents@ =~= seq![Extent::Length(3), Extent::Min(1), Extent::Length(3)]);
    extents
}

/// The title bar, the body and the footer of the main screen, divided by the
/// layout engine with [`main_frame_extents`]; each spans the whole width.
pub fn split_main_frame(frame_area: Area) -> (parts: Vec<Area>)
    ensures
        parts@.len() == 3,
        forall|i: int| 0 <= i < 3 ==> spans_across(frame_area, Axis::Vertical, #[trigger] parts@[i]),
        forall|i: int| 0 <= i < 3 ==> lies_within(frame_area, Axis::Vertical, #[trigger] parts@[i]),
{
    let extents = main_frame_extents();
    split_area(frame_area, Axis::Vertical, 0, &extents)
}

/// The extents of two equal columns.
pub fn column_extents() -> (extents: Vec<Extent>)
    ensures
        extents@ == seq![Extent::Percentage(50), Extent::Percentage(50)],
{
    let extents = vec![Extent::Percentage(50), Extent::Percentage(50)];
    assert(extents@ =~= seq![Extent::Percentage(50), Extent::Percentage(50)]);
    extents
}

/// Two halves of an area side by side, divided by the layout engine with
/// [`column_extents`]: the profile list and its preview, or the two parts of
/// the footer. Each spans the whole height.
pub fn split_columns(area: Area) -> (parts: Vec<Area>)
    ensures
        parts@.len() == 2,
        forall|i: int| 0 <= i < 2 ==> spans_across(area, Axis::Horizontal, #[trigger] parts@[i]),
        forall|i: int| 0 <= i < 2 ==> lies_within(area, Axis::Horizontal, #[trigger] parts@[i]),
{
    let extents = column_extents();
    split_area(area, Axis::Horizontal, 0, &extents)
}

/// The extents of the clone prompt's rows: the url box of three rows between
/// two equal fillers.
pub fn clone_popup_extents() -> (extents: Vec<Extent>)
    ensures
        extents@ == seq![Extent::Fill(1), Extent::Length(3), Extent::Fill(1)],
{
    let extents = vec![Extent::Fill(1), Extent::Length(3), Extent::Fill(1)];
    assert(extents@ =~= seq![Extent::Fill(1), Extent::Length(3), Extent::Fill(1)]);
    extents
}

/// The rows of the clone prompt inside a margin of one cell, divided by the
/// layout engine with [`clone_popup_extents`]: the url box sits in the middle one.
pub fn clone_popup_rows(area: Area) -> (parts: Vec<Area>)
    ensures
        parts@.len() == 3,
        forall|i: int| 0 <= i < 3 ==> spans_across(inner_area(area, 1), Axis::Vertical, #[trigger] parts@[i]),
        forall|i: int| 0 <= i < 3 ==> lies_within(inner_area(area, 1), Axis::Vertical, #[trigger] parts@[i]),
{
    let extents = clone_popup_extents();
    split_area(area, Axis::Vertical, 1, &extents)
}

/// The extents of the profile form's four rows: a quarter each.
pub fn edit_popup_extents() -> (extents: Vec<Extent>)
    ensures
        extents@ == seq![
            Extent::Percentage(25),
            Extent::Percentage(25),
            Extent::Percentage(25),
            Extent::Percentage(25),
        ],
{
    let extents = vec![
        Extent::Percentage(25),
        Extent::Percentage(25),
        Extent::Percentage(25),
        Extent::Percentage(25),
    ];
    assert(extents@ =~= seq![
        Extent::Percentage(25),
        Extent::Percentage(25),
        Extent::Percentage(25),
        Extent::Percentage(25),
    ]);
    extents
}

/// The four rows of the profile form inside a margin of one cell, divided by
/// the layout engine with [`edit_popup_extents`]: alias, username, email, token.
pub fn edit_popup_rows(area: Area) -> (parts: Vec<Area>)
    ensures
        parts@.len() == 4,
        forall|i: int| 0 <= i < 4 ==> spans_across(inner_area(area, 1), Axis::Vertical, #[trigger] parts@[i]),
        forall|i: int| 0 <= i < 4 ==> lies_within(inner_area(area, 1), Axis::Vertical, #[trigger] parts@[i]),
{
    let extents = edit_popup_extents();
    split_area(area, Axis::Vertical, 1, &extents)
}

/// Three parts in a row: `outer` cells, `inner` cells, `outer` cells.
pub open spec fn centered_extents(outer: u16, inner: u16) -> Seq<Extent> {
    seq![Extent::Length(outer), Extent::Length(inner), Extent::Length(outer)]
}

/// The extents that centre `size` cells in `outer` cells: half of `outer`
/// less half of `size` on each side.
pub fn centered_extents_for(size: u16, outer: u16) -> (extents: Vec<Extent>)
    requires
        size / 2 <= outer / 2,
    ensures
        extents@ == centered_extents((outer / 2 - size / 2) as u16, size),
{
    let margin = outer / 2 - size / 2;
    let extents = vec![Extent::Length(margin), Extent::Length(size), Extent::Length(margin)];
    assert(extents@ =~= centered_extents(margin, size));
    extents
}

proof fn lemma_centered_extents(outer: u16, inner: u16)
    ensures
        all_lengths(centered_extents(outer, inner)),
        total_length(centered_extents(outer, inner)) == 2 * outer + inner,
        total_length(centered_extents(outer, inner).take(1)) == outer,
{
    let e = centered_extents(outer, inner);
    let e1 = seq![Extent::Length(outer), Extent::Length(inner)];
    let e2 = seq![Extent::Length(outer)];
    assert(e.drop_last() =~= e1);
    assert(e1.drop_last() =~= e2);
    assert(e2.drop_last() =~= Seq::<Extent>::empty());
    assert(total_length(Seq::<Extent>::empty()) == 0);
    assert(total_length(e2) == outer);
    assert(total_length(e1) == outer + inner);
    assert(total_length(e) == 2 * outer + inner);
    assert(e.take(1) =~= e2);
}

/// Whether the three parts that centre `size` cells in `outer` cells fit:
/// always, except when `outer` is even and `size` odd (then they ask for one
/// cell more than there is).
pub open spec fn centering_fits(size: u16, outer: u16) -> bool {
    !(outer % 2 == 0 && size % 2 == 1)
}

/// The area of `width` by `height` cells centred in `r`: the layout engine
/// cuts `r` into three rows with half of `r`'s height less half of `height`
/// above and below, and the middle row into three columns in the same way.
/// The popup always lies within `r`. Where the rows fit (see
/// [`centering_fits`]) and `r` ends within the terminal's coordinates, the
/// popup has `height` rows starting that far below `r`'s top. Where they ask
/// for one row more than `r` has (`r`'s height even, `height` odd) and the
/// rows above the popup outnumber its own, the popup still has `height` rows,
/// starting that far or one row less below `r`'s top. The same holds of the
/// columns. Otherwise the layout engine decides that coordinate (when the
/// rows above are no more than the popup's, it shrinks the popup). Half of
/// the size must not exceed half of `r`'s.
pub fn fixed_size_centered_rect(width: u16, height: u16, r: Area) -> (popup: Area)
    requires
        height / 2 <= r.height / 2,
        width / 2 <= r.width / 2,
    ensures
        lies_within(r, Axis::Vertical, popup),
        lies_within(r, Axis::Horizontal, popup),
        centering_fits(height, r.height) && ends_in_range(r, Axis::Vertical) ==> popup.y == r.y + (
        r.height / 2 - height / 2) && popup.height == height,
        centering_fits(width, r.width) && ends_in_range(r, Axis::Horizontal) ==> popup.x == r.x + (
        r.width / 2 - width / 2) && popup.width == width,
        !centering_fits(height, r.height) && r.height / 2 - height / 2 > height && ends_in_range(
            r,
            Axis::Vertical,
        ) ==> popup.height == height && (popup.y == r.y + (r.height / 2 - height / 2) - 1
            || popup.y == r.y + (r.height / 2 - height / 2)),
        !centering_fits(width, r.width) && r.width / 2 - width / 2 > width && ends_in_range(
            r,
            Axis::Horizontal,
        ) ==> popup.width == width && (popup.x == r.x + (r.width / 2 - width / 2) - 1 || popup.x
            == r.x + (r.width / 2 - width / 2)),
{
    let rows_extents = centered_extents_for(height, r.height);
    let rows = split_area(r, Axis::Vertical, 0, &rows_extents);
    let row = rows[1];
    let cols_extents = centered_extents_for(width, row.width);
    let cols = split_area(row, Axis::Horizontal, 0, &cols_extents);
    proof {
        let rm = (r.height / 2 - height / 2) as u16;
        let cm = (r.width / 2 - width / 2) as u16;
        assert(inner_area(r, 0) == r);
        assert(inner_area(row, 0) == row);
        lemma_centered_extents(rm, height);
        lemma_centered_extents(cm, width);
        if !centering_fits(height, r.height) {
            assert(2 * rm + height == r.height + 1);
        }
        if !centering_fits(width, r.width) {
            assert(2 * cm + width == r.width + 1);
        }
        assert(spans_across(r, Axis::Vertical, rows@[1]));
        assert(lies_within(r, Axis::Vertical, rows@[1]));
        assert(spans_across(row, Axis::Horizontal, cols@[1]));
        assert(lies_within(row, Axis::Horizontal, cols@[1]));
    }
    cols[1]
}

} // verus!
