use vstd::prelude::*;

use crate::error::AttachError;
use crate::handle::WindowHandle;

verus! {

/// What a single Z-order enumeration pass records about one top-level window:
/// its handle and whether it has an immediate child of the icon-view class.
///
/// A record is only meaningful within the pass that produced it; shell window
/// identities are not stable across desktop sessions, so the adjacency below
/// is recomputed on every attachment attempt and never cached.
#[derive(Clone, Copy, PartialEq, Eq, Structural, Debug)]
pub struct TopLevelWindow {
    pub handle: WindowHandle,
    /// Whether the window has an immediate child window of the icon-view
    /// class, making it the adjacency anchor for the background container.
    pub owns_icon_view: bool,
}

/// Index of the first window at or after `from` that owns an icon-view child;
/// the length of the sequence when there is none.
pub open spec fn icon_view_owner_from(ws: Seq<TopLevelWindow>, from: int) -> int
    decreases ws.len() - from,
{
    if from >= ws.len() {
        ws.len() as int
    } else if ws[from].owns_icon_view {
        from
    } else {
        icon_view_owner_from(ws, from + 1)
    }
}

/// Index of the first enumerated window that owns an icon-view child.
pub open spec fn icon_view_owner_index(ws: Seq<TopLevelWindow>) -> int {
    icon_view_owner_from(ws, 0)
}

pub proof fn lemma_icon_view_owner_from(ws: Seq<TopLevelWindow>, from: int)
    requires
        0 <= from <= ws.len(),
    ensures
        from <= icon_view_owner_from(ws, from) <= ws.len(),
        icon_view_owner_from(ws, from) < ws.len() ==> ws[icon_view_owner_from(ws,
            from)].owns_icon_view,
        forall|j: int| from <= j < icon_view_owner_from(ws, from) ==> !ws[j].owns_icon_view,
    decreases ws.len() - from,
{
    if from < ws.len() && !ws[from].owns_icon_view {
        lemma_icon_view_owner_from(ws, from + 1);
    }
}

/// The tie-break rule over one enumeration pass: the background container is
/// the window immediately following the first icon-view owner in the same
/// enumeration order.  `NotFound` when no window owns an icon-view child, or
/// when the first owner closes the enumeration and so has no following
/// sibling.
pub open spec fn spec_find_background(ws: Seq<TopLevelWindow>) -> Result<
    WindowHandle,
    AttachError,
> {
    if icon_view_owner_index(ws) + 1 < ws.len() {
        Ok(ws[icon_view_owner_index(ws) + 1].handle)
    } else {
        Err(AttachError::NotFound)
    }
}

/// Applies the adjacency rule to the windows met during one enumeration pass,
/// in the order they were met.
///
/// Class-name search alone cannot identify the background container, because
/// its class is shared by unrelated windows; only being the Z-order sibling
/// immediately after the icon-view owner does.  Succeeds exactly when some
/// window owns an icon-view child and is not the last window enumerated.
pub fn find_background_container(windows: &Vec<TopLevelWindow>) -> (r: Result<
    WindowHandle,
    AttachError,
>)
    ensures
        r == spec_find_background(windows@),
        r is Ok <==> exists|i: int|
            0 <= i && i + 1 < windows@.len() && windows@[i].owns_icon_view,
{
    proof {
        lemma_icon_view_owner_from(windows@, 0);
    }
    let n = windows.len();
    let mut i: usize = 0;
    while i < n
        invariant
            i <= n,
            n == windows@.len(),
            icon_view_owner_index(windows@) == icon_view_owner_from(windows@, i as int),
        decreases n - i,
    {
        if windows[i].owns_icon_view {
            assert(icon_view_owner_from(windows@, i as int) == i as int);
            if i + 1 < n {
                proof {
                    let w = i as int;
                    assert(0 <= w && w + 1 < windows@.len() && windows@[w].owns_icon_view);
                }
                return Ok(windows[i + 1].handle);
            } else {
                proof {
                    lemma_icon_view_owner_from(windows@, 0);
                    if exists|k: int|
                        0 <= k && k + 1 < windows@.len() && windows@[k].owns_icon_view {
                        let k = choose|k: int|
                            0 <= k && k + 1 < windows@.len() && windows@[k].owns_icon_view;
                        assert(!windows@[k].owns_icon_view);  // k < first owner index i == n - 1
                    }
                }
                return Err(AttachError::NotFound);
            }
        }
        assert(icon_view_owner_from(windows@, i as int) == icon_view_owner_from(
            windows@,
            i as int + 1,
        ));
        i += 1;
    }
    proof {
        lemma_icon_view_owner_from(windows@, 0);
        assert(icon_view_owner_from(windows@, n as int) == n as int);
        if exists|k: int| 0 <= k && k + 1 < windows@.len() && windows@[k].owns_icon_view {
            let k = choose|k: int|
                0 <= k && k + 1 < windows@.len() && windows@[k].owns_icon_view;
            assert(!windows@[k].owns_icon_view);
        }
    }
    Err(AttachError::NotFound)
}

/// For every enumeration order: when window `i` is the first to own an
/// icon-view child, the finder selects the handle enumerated immediately
/// after it, and returns `NotFound` when nothing follows it.
pub proof fn lemma_finder_selects_following_sibling(ws: Seq<TopLevelWindow>, i: int)
    requires
        0 <= i < ws.len(),
        ws[i].owns_icon_view,
        forall|j: int| 0 <= j < i ==> !ws[j].owns_icon_view,
    ensures
        icon_view_owner_index(ws) == i,
        i + 1 < ws.len() ==> spec_find_background(ws) == Ok::<WindowHandle, AttachError>(
            ws[i + 1].handle,
        ),
        i + 1 == ws.len() ==> spec_find_background(ws) == Err::<WindowHandle, AttachError>(
            AttachError::NotFound,
        ),
{
    lemma_icon_view_owner_from(ws, 0);
    let k = icon_view_owner_index(ws);
    if k < i {
        assert(!ws[k].owns_icon_view);
    }
    if k > i {
        assert(!ws[i].owns_icon_view);
    }
}

/// For every enumeration order: when no window owns an icon-view child, the
/// finder returns `NotFound`, and the orchestrator therefore never commands a
/// reparent for that attempt.
pub proof fn lemma_finder_no_owner(ws: Seq<TopLevelWindow>)
    requires
        forall|j: int| 0 <= j < ws.len() ==> !ws[j].owns_icon_view,
    ensures
        spec_find_background(ws) == Err::<WindowHandle, AttachError>(AttachError::NotFound),
{
    lemma_icon_view_owner_from(ws, 0);
    let k = icon_view_owner_index(ws);
    if k + 1 < ws.len() {
        assert(ws[k].owns_icon_view);
    }
}

} // verus!
