//! The creature on a desktop: where its window first appears, and a tick in
//! the desktop's coordinates on whatever monitor the window is on.

use crate::chance::{choose_pastime, roll};
use crate::oneko::{tick, Oneko, OnekoView};
use crate::sprite_sheet::{millis, SpriteSheet};
use crate::states::IdleChoice;
use std::time::Duration;
use vstd::prelude::*;

verus! {

/// A new window keeps at least this far from the left and the top of its
/// monitor, and its top left corner as far from the right and the bottom.
pub const MARGIN: u32 = 50;

/// The columns, or the rows, of a monitor of extent `monitor` in which the
/// top left corner of a new window of extent `window` may lie: from `MARGIN`
/// up to, and without, this number.
pub open spec fn spawn_end(monitor: u32, window: u32) -> int {
    monitor - MARGIN - window
}

/// Whether a monitor of `size` at `origin` has room for a new window: there
/// is a place for its corner on each axis, and every such place is a
/// coordinate of the desktop.
pub open spec fn has_spawn_room(origin: (i32, i32), size: (u32, u32), window: (u32, u32)) -> bool {
    &&& MARGIN < spawn_end(size.0, window.0) <= i32::MAX
    &&& MARGIN < spawn_end(size.1, window.1) <= i32::MAX
    &&& origin.0 + spawn_end(size.0, window.0) - 1 <= i32::MAX
    &&& origin.1 + spawn_end(size.1, window.1) - 1 <= i32::MAX
}

/// A place for a new window of size `window` on the monitor of `size` at
/// `origin`, picked at random, or nothing where the monitor has no room.
pub fn spawn_position(origin: (i32, i32), size: (u32, u32), window: (u32, u32)) -> (place: Option<
    (i32, i32),
>)
    ensures
        place is Some <==> has_spawn_room(origin, size, window),
        place matches Some(p) ==> {
            &&& origin.0 + MARGIN <= p.0 < origin.0 + spawn_end(size.0, window.0)
            &&& origin.1 + MARGIN <= p.1 < origin.1 + spawn_end(size.1, window.1)
        },
{
    let end_x: i64 = size.0 as i64 - MARGIN as i64 - window.0 as i64;
    let end_y: i64 = size.1 as i64 - MARGIN as i64 - window.1 as i64;
    let last: i64 = i32::MAX as i64;
    if end_x <= MARGIN as i64 || end_y <= MARGIN as i64 || end_x > last || end_y > last {
        return None;
    }
    if origin.0 as i64 + end_x - 1 > last || origin.1 as i64 + end_y - 1 > last {
        return None;
    }
    let x: i32 = roll(MARGIN as i32, end_x as i32);
    let y: i32 = roll(MARGIN as i32, end_y as i32);
    Some(((origin.0 as i64 + x as i64) as i32, (origin.1 as i64 + y as i64) as i32))
}

/// What a tick on the desktop asks of the window.
pub struct Update {
    /// The time to wait before the next tick.
    pub delay: Duration,
    /// Where to move the window, if it is to be moved.
    pub position: Option<(i32, i32)>,
}

/// The point `p` of the desktop as seen from the monitor at `origin`.
pub open spec fn seen_from(origin: (i32, i32), p: (i32, i32)) -> (int, int) {
    (p.0 - origin.0, p.1 - origin.1)
}

/// Whether both coordinates of `p` are 32-bit numbers.
pub open spec fn is_point(p: (int, int)) -> bool {
    &&& i32::MIN <= p.0 <= i32::MAX
    &&& i32::MIN <= p.1 <= i32::MAX
}

/// Whether a creature of `size` whose window is at `window` can tick on the
/// monitor of size `monitor` at `origin`: the window and the pointer have
/// coordinates on the monitor, the creature fits on it, every place on it
/// has coordinates on the desktop, and the counter can count the tick.
pub open spec fn can_update(
    creature: OnekoView,
    size: (u32, u32),
    window: (i32, i32),
    cursor: (i32, i32),
    origin: (i32, i32),
    monitor: (i32, i32),
) -> bool {
    &&& is_point(seen_from(origin, window))
    &&& is_point(seen_from(origin, cursor))
    &&& size.0 <= monitor.0
    &&& size.1 <= monitor.1
    &&& origin.0 + monitor.0 - size.0 <= i32::MAX
    &&& origin.1 + monitor.1 - size.1 <= i32::MAX
    &&& creature.counter < u32::MAX
}

/// Where the window goes after a tick that left the creature at `position`
/// on the monitor at `origin`. A window that would go to the desktop's very
/// corner, `(0, 0)`, is left where it is.
pub open spec fn window_move(origin: (i32, i32), position: (int, int)) -> Option<(i32, i32)> {
    let x = origin.0 + position.0;
    let y = origin.1 + position.1;
    if x == 0 && y == 0 {
        None
    } else {
        Some((x as i32, y as i32))
    }
}

/// Whether a tick on the desktop with the pastime `choice` takes the
/// creature from `before` to `after` and yields `r`.
///
/// The tick is `tick` in the coordinates of the monitor. Where the creature
/// cannot tick there is no update, and the creature stays as it is.
pub open spec fn is_update(
    before: OnekoView,
    after: OnekoView,
    r: Option<Update>,
    size: (u32, u32),
    window: (i32, i32),
    cursor: (i32, i32),
    origin: (i32, i32),
    monitor: (i32, i32),
    choice: IdleChoice,
) -> bool {
    if can_update(before, size, window, cursor, origin, monitor) {
        let cat = seen_from(origin, window);
        let mouse = seen_from(origin, cursor);
        let outcome = tick(
            before,
            size,
            (cat.0 as i32, cat.1 as i32),
            (mouse.0 as i32, mouse.1 as i32),
            monitor,
            choice,
        );
        &&& r matches Some(update)
        &&& after == outcome.creature
        &&& update.delay == millis(outcome.delay)
        &&& update.position == window_move(origin, outcome.position)
    } else {
        r is None && after == before
    }
}

/// One tick of `creature`, whose window is at `window` on the desktop and
/// on the monitor of size `monitor` at `origin`, with the pointer at
/// `cursor` and the pastime that the dice picked handed in.
pub fn update_with(
    creature: &mut Oneko,
    sheet: &SpriteSheet,
    window: (i32, i32),
    cursor: (i32, i32),
    origin: (i32, i32),
    monitor: (i32, i32),
    choice: IdleChoice,
) -> (r: Option<Update>)
    ensures
        is_update(
            old(creature)@,
            final(creature)@,
            r,
            sheet@.cell,
            window,
            cursor,
            origin,
            monitor,
            choice,
        ),
{
    let size: (u32, u32) = sheet.get_size();
    let first: i64 = i32::MIN as i64;
    let last: i64 = i32::MAX as i64;
    let cat_x: i64 = window.0 as i64 - origin.0 as i64;
    let cat_y: i64 = window.1 as i64 - origin.1 as i64;
    let mouse_x: i64 = cursor.0 as i64 - origin.0 as i64;
    let mouse_y: i64 = cursor.1 as i64 - origin.1 as i64;
    if cat_x < first || cat_x > last || cat_y < first || cat_y > last {
        return None;
    }
    if mouse_x < first || mouse_x > last || mouse_y < first || mouse_y > last {
        return None;
    }
    if size.0 as i64 > monitor.0 as i64 || size.1 as i64 > monitor.1 as i64 {
        return None;
    }
    if origin.0 as i64 + monitor.0 as i64 - size.0 as i64 > last || origin.1 as i64
        + monitor.1 as i64 - size.1 as i64 > last {
        return None;
    }
    if creature.frame_count() == u32::MAX {
        return None;
    }
    let (delay, position) = creature.act_with(
        size,
        (cat_x as i32, cat_y as i32),
        (mouse_x as i32, mouse_y as i32),
        monitor,
        choice,
    );
    let x: i64 = origin.0 as i64 + position.0 as i64;
    let y: i64 = origin.1 as i64 + position.1 as i64;
    let position: Option<(i32, i32)> = if x == 0 && y == 0 {
        None
    } else {
        Some((x as i32, y as i32))
    };
    Some(Update { delay, position })
}

/// One tick of `creature` on the desktop, with the dice picking the pastime.
pub fn update(
    creature: &mut Oneko,
    sheet: &SpriteSheet,
    window: (i32, i32),
    cursor: (i32, i32),
    origin: (i32, i32),
    monitor: (i32, i32),
) -> (r: Option<Update>)
    ensures
        is_update(
            old(creature)@,
            final(creature)@,
            r,
            sheet@.cell,
            window,
            cursor,
            origin,
            monitor,
            IdleChoice::Scratch,
        ) || is_update(
            old(creature)@,
            final(creature)@,
            r,
            sheet@.cell,
            window,
            cursor,
            origin,
            monitor,
            IdleChoice::Tired,
        ),
{
    let options: [IdleChoice; 2] = [IdleChoice::Scratch, IdleChoice::Tired];
    let choice: IdleChoice = choose_pastime(&options).unwrap();
    update_with(creature, sheet, window, cursor, origin, monitor, choice)
}

} // verus!
