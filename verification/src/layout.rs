//! The column layout: one primary window on the left, the auxiliary
//! windows stacked on top of each other in the column to its right.

use vstd::prelude::*;
use crate::math::Vector2;
use crate::winapi::key::VirtualKey;

verus! {

/// Where a window goes and how large it is.
pub struct WindowPlacement {
    pub position: Vector2,
    pub size: Vector2,
}

/// Integer division that rounds toward zero, as `/` on `i32` does.
pub open spec fn div_toward_zero(a: int, b: int) -> int {
    if a >= 0 { a / b } else { -((-a) / b) }
}

/// Height of each auxiliary window when `count` of them share a column of
/// height `desktop_height`.
pub open spec fn auxiliary_height(desktop_height: int, count: int) -> int {
    div_toward_zero(desktop_height, count)
}

/// The primary window covers the left `primary_width` pixels of the desktop
/// over its full height.
pub open spec fn primary_placement(desktop_size: Vector2, primary_width: int) -> (int, int, int, int) {
    (0, 0, primary_width, desktop_size.y as int)
}

/// The `index`-th auxiliary window: right of the primary window, below the
/// auxiliary windows before it, as wide as the rest of the desktop.
pub open spec fn auxiliary_placement(desktop_size: Vector2, primary_width: int, count: int, index: int) -> (int, int, int, int) {
    let h = auxiliary_height(desktop_size.y as int, count);
    (primary_width, h * index, desktop_size.x - primary_width, h)
}

/// A placement as (x, y, width, height).
pub open spec fn placement_tuple(p: WindowPlacement) -> (int, int, int, int) {
    (p.position.x as int, p.position.y as int, p.size.x as int, p.size.y as int)
}

/// What the inputs of `place_auxiliary` must satisfy: at least one auxiliary
/// window (the height is divided by their number), no more than `i32` can
/// count, and a remaining width that fits in `i32`.
pub open spec fn tiling_inputs_ok(desktop_size: Vector2, primary_width: int, count: int) -> bool {
    &&& 1 <= count <= i32::MAX
    &&& i32::MIN <= desktop_size.x - primary_width <= i32::MAX
}

/// `|div_toward_zero(a, n) * i| <= |a|` for `0 <= i <= n`.
proof fn lemma_scaled_height_bounded(a: int, n: int, i: int)
    requires
        n >= 1,
        0 <= i <= n,
    ensures
        a >= 0 ==> 0 <= div_toward_zero(a, n) * i <= a,
        a < 0 ==> a <= div_toward_zero(a, n) * i <= 0,
{
    if a >= 0 {
        let q = a / n;
        assert(q >= 0 && q * n <= a) by (nonlinear_arith)
            requires a >= 0, n >= 1, q == a / n;
        assert(0 <= q * i <= q * n) by (nonlinear_arith)
            requires q >= 0, 0 <= i <= n;
    } else {
        let b = -a;
        let q = b / n;
        assert(q >= 0 && q * n <= b) by (nonlinear_arith)
            requires b > 0, n >= 1, q == b / n;
        assert(0 <= q * i <= q * n) by (nonlinear_arith)
            requires q >= 0, 0 <= i <= n;
        assert((-q) * i == -(q * i)) by (nonlinear_arith);
    }
}

/// The primary column and the auxiliary column split the desktop width
/// between them: the primary window starts at the top left corner, is
/// `primary_width` wide and as high as the desktop; the auxiliary column
/// starts where the primary window ends and reaches exactly the right edge
/// of the desktop.
pub proof fn lemma_columns_split_desktop_width(desktop_size: Vector2, primary_width: int, count: int, index: int)
    requires
        tiling_inputs_ok(desktop_size, primary_width, count),
        0 <= index < count,
    ensures
        ({
            let p = primary_placement(desktop_size, primary_width);
            let a = auxiliary_placement(desktop_size, primary_width, count, index);
            &&& p.0 == 0
            &&& p.1 == 0
            &&& p.2 == primary_width
            &&& p.3 == desktop_size.y
            &&& p.0 + p.2 == a.0
            &&& a.0 == primary_width
            &&& a.0 + a.2 == desktop_size.x
            &&& p.2 + a.2 == desktop_size.x
        }),
{
}

/// The auxiliary windows are stacked without gaps: the first one starts at
/// the top of the desktop and each one starts where the one before it ends.
pub proof fn lemma_auxiliary_windows_stack(desktop_size: Vector2, primary_width: int, count: int, index: int)
    requires
        tiling_inputs_ok(desktop_size, primary_width, count),
        0 <= index < count - 1,
    ensures
        auxiliary_placement(desktop_size, primary_width, count, 0).1 == 0,
        ({
            let a = auxiliary_placement(desktop_size, primary_width, count, index);
            let b = auxiliary_placement(desktop_size, primary_width, count, index + 1);
            &&& a.1 + a.3 == b.1
            &&& a.0 == b.0
            &&& a.2 == b.2
            &&& a.3 == b.3
        }),
{
    let h = auxiliary_height(desktop_size.y as int, count);
    assert(h * (index + 1) == h * index + h) by (nonlinear_arith);
}

/// On a desktop of non-negative height, auxiliary windows never overlap:
/// an earlier one ends at or above the top of a later one.
pub proof fn lemma_auxiliary_windows_disjoint(desktop_size: Vector2, primary_width: int, count: int, i: int, j: int)
    requires
        tiling_inputs_ok(desktop_size, primary_width, count),
        desktop_size.y >= 0,
        0 <= i < j < count,
    ensures
        ({
            let a = auxiliary_placement(desktop_size, primary_width, count, i);
            let b = auxiliary_placement(desktop_size, primary_width, count, j);
            a.1 + a.3 <= b.1
        }),
{
    let h = auxiliary_height(desktop_size.y as int, count);
    assert(h >= 0) by (nonlinear_arith)
        requires h == (desktop_size.y as int) / count, desktop_size.y >= 0, count >= 1;
    assert(h * i + h <= h * j) by (nonlinear_arith)
        requires h >= 0, i < j;
}

/// On a desktop of non-negative height, the auxiliary column ends inside the
/// desktop and leaves fewer rows uncovered at the bottom than there are
/// auxiliary windows.
pub proof fn lemma_auxiliary_column_fills_height(desktop_size: Vector2, primary_width: int, count: int)
    requires
        tiling_inputs_ok(desktop_size, primary_width, count),
        desktop_size.y >= 0,
    ensures
        ({
            let last = auxiliary_placement(desktop_size, primary_width, count, count - 1);
            let bottom = last.1 + last.3;
            &&& bottom <= desktop_size.y
            &&& desktop_size.y - bottom < count
        }),
{
    let y = desktop_size.y as int;
    let h = auxiliary_height(y, count);
    assert(h * count <= y && y - h * count < count) by (nonlinear_arith)
        requires h == y / count, y >= 0, count >= 1;
    assert(h * (count - 1) + h == h * count) by (nonlinear_arith);
}

/// On a desktop of negative height the auxiliary heights round toward zero:
/// the column's lower end stays between the desktop's height and zero, less
/// than the number of windows away from the desktop's height.
pub proof fn lemma_auxiliary_column_negative_height(desktop_size: Vector2, primary_width: int, count: int)
    requires
        tiling_inputs_ok(desktop_size, primary_width, count),
        desktop_size.y < 0,
    ensures
        ({
            let last = auxiliary_placement(desktop_size, primary_width, count, count - 1);
            let bottom = last.1 + last.3;
            &&& desktop_size.y <= bottom <= 0
            &&& bottom - desktop_size.y < count
        }),
{
    let y = desktop_size.y as int;
    let b = -y;
    let q = b / count;
    let h = auxiliary_height(y, count);
    assert(h == -q);
    assert(q * count <= b && b - q * count < count && q >= 0) by (nonlinear_arith)
        requires q == b / count, b > 0, count >= 1;
    assert(h * count == -(q * count)) by (nonlinear_arith)
        requires h == -q;
    assert(h * (count - 1) + h == h * count) by (nonlinear_arith);
}

/// All auxiliary windows have the same height: the desktop height divided by
/// their number, rounded toward zero; with a non-negative height this is the
/// largest height of which `count` fit into the desktop.
pub proof fn lemma_auxiliary_height_is_even_share(desktop_size: Vector2, primary_width: int, count: int, index: int)
    requires
        tiling_inputs_ok(desktop_size, primary_width, count),
        0 <= index < count,
    ensures
        ({
            let a = auxiliary_placement(desktop_size, primary_width, count, index);
            &&& desktop_size.y >= 0 ==> a.3 * count <= desktop_size.y < (a.3 + 1) * count
            &&& desktop_size.y >= 0 ==> a.3 >= 0
            &&& desktop_size.y < 0 ==> a.3 <= 0 && (a.3 - 1) * count < desktop_size.y <= a.3 * count
            &&& a.1 == a.3 * index
        }),
{
    let y = desktop_size.y as int;
    let h = auxiliary_height(y, count);
    if y >= 0 {
        assert(h * count <= y < (h + 1) * count && h >= 0) by (nonlinear_arith)
            requires h == y / count, y >= 0, count >= 1;
    } else {
        let b = -y;
        let q = b / count;
        assert(q * count <= b < (q + 1) * count && q >= 0) by (nonlinear_arith)
            requires q == b / count, b > 0, count >= 1;
        assert(h == -q);
        assert((h - 1) * count < y <= h * count) by (nonlinear_arith)
            requires h == -q, q * count <= -y, -y < (q + 1) * count, count >= 1;
    }
}

/// The placement of the primary window on a desktop of the given size, the
/// primary window being `primary_width` pixels wide.
pub fn place_primary(desktop_size: &Vector2, primary_width: i32) -> (placement: WindowPlacement)
    ensures
        placement_tuple(placement) == primary_placement(*desktop_size, primary_width as int),
{
    WindowPlacement { position: Vector2::new(0, 0), size: Vector2::new(primary_width, desktop_size.y) }
}

/// The placements of `auxiliary_count` auxiliary windows, in their order,
/// next to a primary window `primary_width` pixels wide on a desktop of the
/// given size.
pub fn place_auxiliary(desktop_size: &Vector2, primary_width: i32, auxiliary_count: usize) -> (placements: Vec<WindowPlacement>)
    requires
        tiling_inputs_ok(*desktop_size, primary_width as int, auxiliary_count as int),
    ensures
        placements@.len() == auxiliary_count,
        forall|i: int|
            0 <= i < auxiliary_count ==> #[trigger] placement_tuple(placements@[i])
                == auxiliary_placement(*desktop_size, primary_width as int, auxiliary_count as int, i),
{
    let count = auxiliary_count as i32;
    let auxiliary_size = Vector2::new(desktop_size.x - primary_width, desktop_size.y / count);
    assert(auxiliary_size.y == auxiliary_height(desktop_size.y as int, count as int));
    let mut placements: Vec<WindowPlacement> = Vec::new();
    let mut i: usize = 0;
    while i < auxiliary_count
        invariant
            tiling_inputs_ok(*desktop_size, primary_width as int, auxiliary_count as int),
            auxiliary_size.x == desktop_size.x - primary_width,
            auxiliary_size.y == auxiliary_height(desktop_size.y as int, auxiliary_count as int),
            i <= auxiliary_count,
            placements@.len() == i,
            forall|j: int|
                0 <= j < i ==> #[trigger] placement_tuple(placements@[j])
                    == auxiliary_placement(*desktop_size, primary_width as int, auxiliary_count as int, j),
        decreases auxiliary_count - i,
    {
        proof {
            lemma_scaled_height_bounded(desktop_size.y as int, auxiliary_count as int, i as int);
        }
        let y = auxiliary_size.y * (i as i32);
        placements.push(WindowPlacement {
            position: Vector2::new(primary_width, y),
            size: Vector2::new(auxiliary_size.x, auxiliary_size.y),
        });
        i = i + 1;
    }
    placements
}

/// A change of the share of the desktop width that the primary window gets.
pub enum ResizeCommand {
    /// Give the primary window a smaller share.
    ShrinkPrimary,
    /// Give the primary window a larger share.
    GrowPrimary,
}

/// The resize command bound to a hotkey: H shrinks the primary window, K
/// grows it, other keys do nothing.
pub open spec fn spec_hotkey_command(key: VirtualKey) -> Option<ResizeCommand> {
    match key {
        VirtualKey::H => Some(ResizeCommand::ShrinkPrimary),
        VirtualKey::K => Some(ResizeCommand::GrowPrimary),
        _ => None,
    }
}

/// The resize command that a hotkey asks for, if any.
pub fn hotkey_command(key: VirtualKey) -> (command: Option<ResizeCommand>)
    ensures
        command == spec_hotkey_command(key),
{
    match key {
        VirtualKey::H => Some(ResizeCommand::ShrinkPrimary),
        VirtualKey::K => Some(ResizeCommand::GrowPrimary),
        _ => None,
    }
}

/// H shrinks the primary window, K grows it, and the Windows keys are bound
/// to nothing.
pub proof fn lemma_hotkey_bindings()
    ensures
        spec_hotkey_command(VirtualKey::H) == Some(ResizeCommand::ShrinkPrimary),
        spec_hotkey_command(VirtualKey::K) == Some(ResizeCommand::GrowPrimary),
        spec_hotkey_command(VirtualKey::LeftWin) is None,
        spec_hotkey_command(VirtualKey::RightWin) is None,
{
}

} // verus!
