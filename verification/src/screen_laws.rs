//! Where the window goes, in terms of the places that the coordinates stand for.
use crate::indicator::is_placing;
use crate::scalar::coordinate_magnitude;
use crate::scalar_laws::{
    coordinate_has_number, coordinate_number, law_coordinate_magnitudes_are_absolute_values,
    law_coordinates_are_ordered_as_numbers,
};
use crate::screen::{
    decimal, is_out_of_place, is_screen_for, label, law_labels_tell_screens_apart,
    law_screen_choice_is_unique, Placement, Point, Screen, ScreenBounds, PLACE_TOLERANCE,
};
use vstd::prelude::*;

verus! {

/// A screen shows a point exactly if the point lies between its left and right edge and between
/// its bottom and top edge, at the left and bottom edge too.
pub proof fn law_screens_show_what_lies_between_their_edges(bounds: ScreenBounds, point: Point)
    requires
        coordinate_has_number(bounds.left),
        coordinate_has_number(bounds.right),
        coordinate_has_number(bounds.bottom),
        coordinate_has_number(bounds.top),
        coordinate_has_number(point.x),
        coordinate_has_number(point.y),
    ensures
        bounds.holds(point) <==> coordinate_number(bounds.left) <= coordinate_number(point.x)
            < coordinate_number(bounds.right) && coordinate_number(bounds.bottom)
            <= coordinate_number(point.y) < coordinate_number(bounds.top),
{
    law_coordinates_are_ordered_as_numbers(bounds.left, point.x);
    law_coordinates_are_ordered_as_numbers(point.x, bounds.right);
    law_coordinates_are_ordered_as_numbers(bounds.bottom, point.y);
    law_coordinates_are_ordered_as_numbers(point.y, bounds.top);
}

/// A screen shows nothing if one of its edges is no number, and no screen shows a point that
/// has a coordinate which is none.
pub proof fn law_screens_show_only_numbers(bounds: ScreenBounds, point: Point)
    requires
        bounds.holds(point),
    ensures
        coordinate_has_number(bounds.left),
        coordinate_has_number(bounds.right),
        coordinate_has_number(bounds.bottom),
        coordinate_has_number(bounds.top),
        coordinate_has_number(point.x),
        coordinate_has_number(point.y),
{
    law_coordinates_are_ordered_as_numbers(bounds.left, point.x);
    law_coordinates_are_ordered_as_numbers(point.x, bounds.right);
    law_coordinates_are_ordered_as_numbers(bounds.bottom, point.y);
    law_coordinates_are_ordered_as_numbers(point.y, bounds.top);
}

/// Screens that lie above or beside one another show no point in common.
pub proof fn law_screens_apart_share_no_point(one: ScreenBounds, other: ScreenBounds, point: Point)
    requires
        coordinate_number(one.top) <= coordinate_number(other.bottom) || coordinate_number(
            one.right,
        ) <= coordinate_number(other.left),
    ensures
        !(one.holds(point) && other.holds(point)),
{
    if one.holds(point) && other.holds(point) {
        law_screens_show_only_numbers(one, point);
        law_screens_show_only_numbers(other, point);
        law_screens_show_what_lies_between_their_edges(one, point);
        law_screens_show_what_lies_between_their_edges(other, point);
    }
}

/// If any screen shows the pointer, the chosen one does, and it comes before any other that
/// does; if none does, the choice is the primary screen.
pub proof fn law_chosen_screens_show_the_pointer(
    screens: Seq<Screen>,
    pointer: Point,
    index: int,
    other: int,
)
    requires
        is_screen_for(screens, pointer, index),
        0 <= other < screens.len(),
    ensures
        0 <= index < screens.len(),
        screens[other].bounds.holds(pointer) ==> screens[index].bounds.holds(pointer) && index
            <= other,
        !screens[index].bounds.holds(pointer) ==> index == 0,
{
}

/// A window is out of place exactly if it is off by more than the tolerance, to either side.
pub proof fn law_windows_may_be_off_by_the_tolerance(drift: Point)
    requires
        coordinate_has_number(drift.x),
        coordinate_has_number(drift.y),
    ensures
        ({
            let x = coordinate_number(drift.x);
            let y = coordinate_number(drift.y);
            let tolerance = coordinate_number(PLACE_TOLERANCE);
            is_out_of_place(drift) <==> !(-tolerance <= x <= tolerance) || !(-tolerance <= y
                <= tolerance)
        }),
{
    let x = coordinate_magnitude(drift.x);
    let y = coordinate_magnitude(drift.y);
    law_coordinate_magnitudes_are_absolute_values(drift.x);
    law_coordinate_magnitudes_are_absolute_values(drift.y);
    law_coordinates_are_ordered_as_numbers(PLACE_TOLERANCE, x);
    law_coordinates_are_ordered_as_numbers(PLACE_TOLERANCE, y);
    assert(coordinate_has_number(PLACE_TOLERANCE));
}

/// The number that a row of digits stands for.
pub open spec fn value_of_digits(digits: Seq<char>) -> int
    decreases digits.len(),
{
    if digits.len() == 0 {
        0
    } else {
        10 * value_of_digits(digits.drop_last()) + (digits.last() as int - '0' as int)
    }
}

/// A number in decimal is a row of digits that stands for it, with no zero in front but that
/// of the number zero.
pub proof fn law_decimals_read_back(n: nat)
    ensures
        value_of_digits(decimal(n)) == n,
        decimal(n).len() > 0,
        forall|i: int| 0 <= i < decimal(n).len() ==> '0' <= #[trigger] decimal(n)[i] <= '9',
        decimal(n)[0] == '0' ==> n == 0 && decimal(n).len() == 1,
    decreases n,
{
    reveal_with_fuel(value_of_digits, 2);
    if n >= 10 {
        law_decimals_read_back(n / 10);
        assert(decimal(n).drop_last() =~= decimal(n / 10));
        assert(decimal(n)[0] == decimal(n / 10)[0]);
    } else {
        assert(decimal(n).drop_last() =~= Seq::<char>::empty());
    }
}

/// A label is the name, a space, and the place in decimal between brackets.
pub proof fn law_labels_hold_name_and_place(name: Seq<char>, index: nat)
    ensures
        ({
            let l = label(name, index);
            let digits = l.subrange((name.len() + 2) as int, l.len() - 1);
            &&& l.len() > name.len() + 3
            &&& l.take(name.len() as int) == name
            &&& l[name.len() as int] == ' '
            &&& l[(name.len() + 1) as int] == '('
            &&& l.last() == ')'
            &&& value_of_digits(digits) == index
        }),
{
    law_decimals_read_back(index);
    let l = label(name, index);
    assert(l.take(name.len() as int) =~= name);
    assert(l.subrange((name.len() + 2) as int, l.len() - 1) =~= decimal(index));
}

/// The first screen is reported; after that, a screen is reported exactly if it is another one
/// than before.
pub proof fn law_changes_of_screen_are_reported(
    before: Option<Seq<char>>,
    screens: Seq<Screen>,
    pointer: Point,
    first: Placement,
    between: Option<Seq<char>>,
    later_pointer: Point,
    second: Placement,
    after: Option<Seq<char>>,
)
    requires
        is_placing(before, pointer, screens, Some(first), between),
        is_placing(between, later_pointer, screens, Some(second), after),
    ensures
        before is None ==> first.report,
        second.report <==> second.screen != first.screen,
{
    let one = screens[first.screen as int].name@;
    let other = screens[second.screen as int].name@;
    if label(one, first.screen as nat) == label(other, second.screen as nat) {
        law_labels_tell_screens_apart(one, first.screen as nat, other, second.screen as nat);
    }
}

/// The window goes to the screen with the pointer, is moved exactly if it is out of place
/// there, and to place it again for the same pointer is no news.
pub proof fn law_windows_go_to_the_pointer(
    before: Option<Seq<char>>,
    screens: Seq<Screen>,
    pointer: Point,
    first: Placement,
    between: Option<Seq<char>>,
    second: Placement,
    after: Option<Seq<char>>,
)
    requires
        is_placing(before, pointer, screens, Some(first), between),
        is_placing(between, pointer, screens, Some(second), after),
    ensures
        is_screen_for(screens, pointer, first.screen as int),
        first.move_window == is_out_of_place(screens[first.screen as int].drift),
        second.screen == first.screen,
        second.move_window == first.move_window,
        !second.report,
        after == between,
{
    law_screen_choice_is_unique(screens, pointer, first.screen as int, second.screen as int);
}

/// Without a screen the window stays where it is, and where it was is remembered.
pub proof fn law_windows_stay_without_a_screen(
    before: Option<Seq<char>>,
    pointer: Point,
    screens: Seq<Screen>,
    placement: Option<Placement>,
    after: Option<Seq<char>>,
)
    requires
        is_placing(before, pointer, screens, placement, after),
    ensures
        placement is None <==> screens.len() == 0,
        placement is None ==> after == before,
{
}

} // verus!
