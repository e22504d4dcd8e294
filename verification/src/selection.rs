//! Which of the enumerated top-level windows get tiled, and which of them
//! becomes the primary window.

use vstd::prelude::*;

verus! {

/// `k` is the position of the first occurrence of `w` in `s`.
pub open spec fn is_first_index(s: Seq<usize>, w: usize, k: int) -> bool {
    &&& 0 <= k < s.len()
    &&& s[k] == w
    &&& forall|j: int| 0 <= j < k ==> s[j] != w
}

/// `s` with its first occurrence of `w` taken out (`s` itself when `w`
/// does not occur in it).
pub open spec fn without_first(s: Seq<usize>, w: usize) -> Seq<usize> {
    if exists|k: int| is_first_index(s, w, k) {
        s.remove(choose|k: int| is_first_index(s, w, k))
    } else {
        s
    }
}

/// Handles of the windows to tile: the primary window, when there is one,
/// and the auxiliary windows in their order.
pub struct WindowSelection {
    pub primary: Option<usize>,
    pub auxiliary: Vec<usize>,
}

impl WindowSelection {
    /// All selected windows, the primary one first.
    pub open spec fn tiled(self) -> Seq<usize> {
        match self.primary {
            Some(p) => seq![p] + self.auxiliary@,
            None => self.auxiliary@,
        }
    }
}

/// The first occurrence of a value is unique.
proof fn lemma_first_index_unique(s: Seq<usize>, w: usize, k1: int, k2: int)
    requires
        is_first_index(s, w, k1),
        is_first_index(s, w, k2),
    ensures
        k1 == k2,
{
    if k1 < k2 {
        assert(s[k1] != w);
    } else if k2 < k1 {
        assert(s[k2] != w);
    }
}

/// Splits the enumerated windows into the primary window and the auxiliary
/// windows: the window manager's own window (its first occurrence) is left
/// out, the first remaining window becomes the primary one and the others
/// stay auxiliary, in their order.
pub fn select_windows(all_windows: Vec<usize>, main_window: usize) -> (selection: WindowSelection)
    ensures
        selection.tiled() == without_first(all_windows@, main_window),
        selection.primary is None <==> without_first(all_windows@, main_window).len() == 0,
        selection.primary matches Some(p) ==> p == without_first(all_windows@, main_window)[0],
        selection.primary is Some ==> selection.auxiliary@ == without_first(all_windows@, main_window).drop_first(),
        selection.primary is None ==> selection.auxiliary@.len() == 0,
{
    let ghost original = all_windows@;
    let mut windows = all_windows;
    let mut i: usize = 0;
    while i < windows.len()
        invariant_except_break
            windows@ == original,
            i <= windows.len(),
            forall|j: int| 0 <= j < i ==> windows@[j] != main_window,
        ensures
            windows@ == without_first(original, main_window),
        decreases windows.len() - i,
    {
        if windows[i] == main_window {
            proof {
                assert(is_first_index(original, main_window, i as int));
                let k = choose|k: int| is_first_index(original, main_window, k);
                lemma_first_index_unique(original, main_window, i as int, k);
            }
            windows.remove(i);
            break;
        }
        i = i + 1;
    }
    let mut auxiliary = windows;
    let primary = if auxiliary.len() == 0 {
        None
    } else {
        Some(auxiliary.remove(0))
    };
    let selection = WindowSelection { primary, auxiliary };
    proof {
        if selection.primary is Some {
            assert(selection.tiled() =~= without_first(original, main_window));
        }
    }
    selection
}

/// Enumerated top-level windows never repeat a handle; then the window
/// manager's own window is never tiled.
pub proof fn lemma_main_window_never_tiled(all_windows: Seq<usize>, main_window: usize)
    requires
        all_windows.no_duplicates(),
    ensures
        !without_first(all_windows, main_window).contains(main_window),
{
    if exists|k: int| is_first_index(all_windows, main_window, k) {
        let k = choose|k: int| is_first_index(all_windows, main_window, k);
        let rest = all_windows.remove(k);
        if rest.contains(main_window) {
            let m = choose|m: int| 0 <= m < rest.len() && rest[m] == main_window;
            if m < k {
                assert(all_windows[m] == main_window);
            } else {
                assert(all_windows[m + 1] == main_window);
            }
        }
    } else {
        if all_windows.contains(main_window) {
            let m = choose|m: int| 0 <= m < all_windows.len() && all_windows[m] == main_window;
            lemma_no_first_means_absent(all_windows, main_window, all_windows.len() as int);
        }
    }
}

/// When `w` has no first occurrence in `s`, it has no occurrence before `n`.
proof fn lemma_no_first_means_absent(s: Seq<usize>, w: usize, n: int)
    requires
        !(exists|k: int| is_first_index(s, w, k)),
        0 <= n <= s.len(),
    ensures
        forall|j: int| 0 <= j < n ==> s[j] != w,
    decreases n,
{
    if n > 0 {
        lemma_no_first_means_absent(s, w, n - 1);
        if s[n - 1] == w {
            assert(is_first_index(s, w, n - 1));
        }
    }
}

/// Every enumerated window other than the window manager's own one is
/// tiled: leaving out one occurrence shortens the list by one exactly when
/// the window occurs in it.
pub proof fn lemma_selection_keeps_all_other_windows(all_windows: Seq<usize>, main_window: usize)
    ensures
        all_windows.contains(main_window) ==> without_first(all_windows, main_window).len() == all_windows.len() - 1,
        !all_windows.contains(main_window) ==> without_first(all_windows, main_window) == all_windows,
        forall|w: usize| w != main_window ==>
            (#[trigger] without_first(all_windows, main_window).contains(w) <==> all_windows.contains(w)),
{
    if all_windows.contains(main_window) {
        let m = choose|m: int| 0 <= m < all_windows.len() && all_windows[m] == main_window;
        if !(exists|k: int| is_first_index(all_windows, main_window, k)) {
            lemma_no_first_means_absent(all_windows, main_window, all_windows.len() as int);
        }
    } else {
        if exists|k: int| is_first_index(all_windows, main_window, k) {
            let k = choose|k: int| is_first_index(all_windows, main_window, k);
            assert(all_windows[k] == main_window);
        }
    }
    if exists|k: int| is_first_index(all_windows, main_window, k) {
        let k = choose|k: int| is_first_index(all_windows, main_window, k);
        let rest = all_windows.remove(k);
        assert forall|w: usize| w != main_window implies
            (#[trigger] rest.contains(w) <==> all_windows.contains(w)) by {
            if all_windows.contains(w) {
                let m = choose|m: int| 0 <= m < all_windows.len() && all_windows[m] == w;
                if m < k {
                    assert(rest[m] == w);
                } else {
                    assert(m != k);
                    assert(rest[m - 1] == w);
                }
            }
            if rest.contains(w) {
                let m = choose|m: int| 0 <= m < rest.len() && rest[m] == w;
                if m < k {
                    assert(all_windows[m] == w);
                } else {
                    assert(all_windows[m + 1] == w);
                }
            }
        }
    }
}

/// Leaving out the main window removes its first occurrence and nothing
/// else: the windows before it keep their places, and the windows after it
/// move up by one, in their order.
pub proof fn lemma_selection_removes_first_occurrence(all_windows: Seq<usize>, main_window: usize, k: int)
    requires
        0 <= k < all_windows.len(),
        all_windows[k] == main_window,
        forall|j: int| 0 <= j < k ==> all_windows[j] != main_window,
    ensures
        without_first(all_windows, main_window).len() == all_windows.len() - 1,
        forall|i: int| 0 <= i < k ==> #[trigger] without_first(all_windows, main_window)[i] == all_windows[i],
        forall|i: int|
            k <= i < all_windows.len() - 1 ==> #[trigger] without_first(all_windows, main_window)[i] == all_windows[i + 1],
{
    assert(is_first_index(all_windows, main_window, k));
    let c = choose|c: int| is_first_index(all_windows, main_window, c);
    lemma_first_index_unique(all_windows, main_window, k, c);
}

} // verus!
