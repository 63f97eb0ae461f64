//! Which screen the display goes to.
use crate::scalar::{
    coordinate_absolute, coordinate_at_most, coordinate_is_at_most, coordinate_is_less,
    coordinate_less, coordinate_magnitude, Coordinate,
};
use vstd::prelude::*;
use vstd::string::StringExecFns;

verus! {

/// 0.5: how far the window may be from its place, in points.
pub const PLACE_TOLERANCE: Coordinate = 0x3fe0_0000_0000_0000;

/// 112.0: the width of the window in points.
pub const WINDOW_WIDTH_POINTS: Coordinate = 0x405c_0000_0000_0000;

/// 24.0: how far the window reaches beyond the capsule, above and below.
pub const CAPSULE_MARGIN_POINTS: Coordinate = 0x4038_0000_0000_0000;

/// 12.0: how far the capsule stays below the top of the screen.
pub const TOP_OFFSET_POINTS: Coordinate = 0x4028_0000_0000_0000;

/// A place on the desktop.
#[derive(Clone, Copy, Debug, PartialEq, Eq, Structural)]
pub struct Point {
    pub x: Coordinate,
    pub y: Coordinate,
}

/// The part of the desktop that a screen shows, from its left and bottom edge to, but not
/// at, its right and top edge.
#[derive(Clone, Copy, Debug, PartialEq, Eq, Structural)]
pub struct ScreenBounds {
    pub left: Coordinate,
    pub right: Coordinate,
    pub bottom: Coordinate,
    pub top: Coordinate,
}

/// A screen, and how far the window is from the place that it would have there.
#[derive(Debug)]
pub struct Screen {
    pub name: String,
    pub bounds: ScreenBounds,
    pub drift: Point,
}

/// The part of a screen that windows may cover.
#[derive(Clone, Copy, Debug, PartialEq, Eq, Structural)]
pub struct VisibleFrame {
    pub left: Coordinate,
    pub bottom: Coordinate,
    pub width: Coordinate,
    pub height: Coordinate,
}

/// What the place of the window is worked out of. Its left edge goes to
/// `left + (width - window_width) / 2` of the visible frame, and its top edge to
/// `bottom + height + capsule_margin - top_offset`.
#[derive(Clone, Copy, Debug, PartialEq, Eq, Structural)]
pub struct PlaceOperands {
    pub visible: VisibleFrame,
    pub window_width: Coordinate,
    pub capsule_margin: Coordinate,
    pub top_offset: Coordinate,
}

/// What to do with the window.
#[derive(Clone, Copy, Debug, PartialEq, Eq, Structural)]
pub struct Placement {
    /// The screen that the window belongs to.
    pub screen: usize,
    /// Whether that is news.
    pub report: bool,
    /// Whether the window is out of place.
    pub move_window: bool,
}

impl ScreenBounds {
    /// Whether the screen shows `point`.
    pub open spec fn holds(self, point: Point) -> bool {
        &&& coordinate_is_at_most(self.left, point.x)
        &&& coordinate_is_less(point.x, self.right)
        &&& coordinate_is_at_most(self.bottom, point.y)
        &&& coordinate_is_less(point.y, self.top)
    }

    /// Decides whether the screen shows `point`.
    pub fn contains(&self, point: &Point) -> (r: bool)
        ensures
            r == self.holds(*point),
    {
        coordinate_at_most(self.left, point.x) && coordinate_less(point.x, self.right)
            && coordinate_at_most(self.bottom, point.y) && coordinate_less(point.y, self.top)
    }
}

/// Whether `index` is the screen for `pointer`: the first that shows it, or the primary
/// screen, which comes first, where none does.
pub open spec fn is_screen_for(screens: Seq<Screen>, pointer: Point, index: int) -> bool {
    &&& 0 <= index < screens.len()
    &&& screens[index].bounds.holds(pointer) || index == 0
    &&& forall|other: int|
        0 <= other < screens.len() && (other < index || !screens[index].bounds.holds(pointer))
            ==> !(#[trigger] screens[other]).bounds.holds(pointer)
}

/// Picks the screen for `pointer`.
pub fn choose_screen(pointer: &Point, screens: &Vec<Screen>) -> (choice: Option<usize>)
    ensures
        choice is None <==> screens@.len() == 0,
        choice matches Some(index) ==> is_screen_for(screens@, *pointer, index as int),
{
    if screens.len() == 0 {
        return None;
    }
    let mut i: usize = 0;
    while i < screens.len()
        invariant
            i <= screens.len(),
            forall|other: int|
                0 <= other < i ==> !(#[trigger] screens@[other]).bounds.holds(*pointer),
        decreases screens.len() - i,
    {
        if screens[i].bounds.contains(pointer) {
            return Some(i);
        }
        i += 1;
    }
    Some(0)
}

/// The pointer and the screens determine the choice.
pub proof fn law_screen_choice_is_unique(
    screens: Seq<Screen>,
    pointer: Point,
    one: int,
    other: int,
)
    requires
        is_screen_for(screens, pointer, one),
        is_screen_for(screens, pointer, other),
    ensures
        one == other,
{
    if one < other {
        assert(!screens[one].bounds.holds(pointer));
        assert(!screens[other].bounds.holds(pointer));
    }
    if other < one {
        assert(!screens[other].bounds.holds(pointer));
        assert(!screens[one].bounds.holds(pointer));
    }
}

/// Says what the place of the window in `visible` is worked out of.
pub fn place_operands(visible: &VisibleFrame) -> (operands: PlaceOperands)
    ensures
        operands.visible == *visible,
        operands.window_width == WINDOW_WIDTH_POINTS,
        operands.capsule_margin == CAPSULE_MARGIN_POINTS,
        operands.top_offset == TOP_OFFSET_POINTS,
{
    PlaceOperands {
        visible: *visible,
        window_width: WINDOW_WIDTH_POINTS,
        capsule_margin: CAPSULE_MARGIN_POINTS,
        top_offset: TOP_OFFSET_POINTS,
    }
}

/// Whether a window that is off by `drift` is out of place.
pub open spec fn is_out_of_place(drift: Point) -> bool {
    ||| coordinate_is_less(PLACE_TOLERANCE, coordinate_magnitude(drift.x))
    ||| coordinate_is_less(PLACE_TOLERANCE, coordinate_magnitude(drift.y))
}

/// Decides whether a window that is off by `drift` is out of place.
pub fn out_of_place(drift: &Point) -> (r: bool)
    ensures
        r == is_out_of_place(*drift),
{
    coordinate_less(PLACE_TOLERANCE, coordinate_absolute(drift.x)) || coordinate_less(
        PLACE_TOLERANCE,
        coordinate_absolute(drift.y),
    )
}

/// The digit for `n`, which is below ten.
pub open spec fn digit(n: nat) -> char {
    ('0' as u32 + n) as char
}

/// `n` in decimal.
pub open spec fn decimal(n: nat) -> Seq<char>
    decreases n,
{
    if n < 10 {
        seq![digit(n)]
    } else {
        decimal(n / 10).push(digit(n % 10))
    }
}

/// Writes the digit for `n`.
fn write_digit(n: usize) -> (s: &'static str)
    requires
        n < 10,
    ensures
        s@ == seq![digit(n as nat)],
{
    proof {
        reveal_strlit("0");
        reveal_strlit("1");
        reveal_strlit("2");
        reveal_strlit("3");
        reveal_strlit("4");
        reveal_strlit("5");
        reveal_strlit("6");
        reveal_strlit("7");
        reveal_strlit("8");
        reveal_strlit("9");
    }
    let s = match n {
        0 => "0",
        1 => "1",
        2 => "2",
        3 => "3",
        4 => "4",
        5 => "5",
        6 => "6",
        7 => "7",
        8 => "8",
        _ => "9",
    };
    assert(s@ =~= seq![digit(n as nat)]);
    s
}

/// Writes `n` in decimal.
fn write_decimal(n: usize) -> (s: String)
    ensures
        s@ == decimal(n as nat),
    decreases n,
{
    if n < 10 {
        String::from_str(write_digit(n))
    } else {
        let s = write_decimal(n / 10).concat(write_digit(n % 10));
        assert(s@ =~= decimal((n / 10) as nat).push(digit((n % 10) as nat)));
        s
    }
}

/// How a screen is called: by its name, and by its place among the screens.
pub open spec fn label(name: Seq<char>, index: nat) -> Seq<char> {
    name + seq![' ', '('] + decimal(index) + seq![')']
}

/// Writes down how a screen is called.
pub fn screen_label(name: &str, index: usize) -> (s: String)
    ensures
        s@ == label(name@, index as nat),
{
    proof {
        reveal_strlit(" (");
        reveal_strlit(")");
    }
    let mut s = String::from_str(name);
    s.append(" (");
    s.append(write_decimal(index).as_str());
    s.append(")");
    assert(s@ =~= label(name@, index as nat));
    s
}

proof fn lemma_decimal_digits(n: nat)
    ensures
        decimal(n).len() > 0,
        forall|i: int| 0 <= i < decimal(n).len() ==> #[trigger] decimal(n)[i] != '(',
    decreases n,
{
    if n >= 10 {
        lemma_decimal_digits(n / 10);
    }
}

proof fn lemma_decimal_is_injective(one: nat, other: nat)
    requires
        decimal(one) == decimal(other),
    ensures
        one == other,
    decreases one,
{
    let a = decimal(one);
    lemma_decimal_digits(one / 10);
    lemma_decimal_digits(other / 10);
    assert(digit(one % 10) == a.last());
    assert(digit(other % 10) == a.last());
    if one >= 10 && other >= 10 {
        assert(decimal(one / 10) =~= a.drop_last());
        assert(decimal(other / 10) =~= a.drop_last());
        lemma_decimal_is_injective(one / 10, other / 10);
    }
}

/// No two screens are called the same: the label gives away the name and the place.
pub proof fn law_labels_tell_screens_apart(
    name: Seq<char>,
    index: nat,
    other_name: Seq<char>,
    other_index: nat,
)
    requires
        label(name, index) == label(other_name, other_index),
    ensures
        name == other_name,
        index == other_index,
{
    let l = label(name, index);
    let a = decimal(index);
    let b = decimal(other_index);
    lemma_decimal_digits(index);
    lemma_decimal_digits(other_index);
    assert(l[l.len() - 2 - a.len()] == '(');
    assert(l[l.len() - 2 - b.len()] == '(');
    if a.len() < b.len() {
        let i = b.len() - 1 - a.len();
        assert(b[i] == l[other_name.len() + 2 + i]);
        assert(b[i] == '(');
    }
    if b.len() < a.len() {
        let i = a.len() - 1 - b.len();
        assert(a[i] == l[name.len() + 2 + i]);
        assert(a[i] == '(');
    }
    assert(a =~= l.subrange((name.len() + 2) as int, l.len() - 1));
    assert(b =~= l.subrange((other_name.len() + 2) as int, l.len() - 1));
    lemma_decimal_is_injective(index, other_index);
    assert(name =~= l.take(name.len() as int));
    assert(other_name =~= l.take(name.len() as int));
}

} // verus!
