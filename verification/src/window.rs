//! Window enumeration records and the window command handler.
//!
//! The handler resolves a window by case-insensitive title match and
//! decides which show-state or move operation the caller should apply;
//! the caller performs the operation and prints the envelope.

use vstd::prelude::*;
use vstd::string::StringExecFns;
use crate::envelope::{CommandResult, Payload};
use crate::text::{contains_ci, contains_fold, lower_of, lowercase, str_eq};

verus! {

/// One visible top-level window: its opaque handle, title, and pixel
/// geometry relative to the desktop.
#[derive(Debug, PartialEq)]
pub struct WindowInfo {
    pub handle: usize,
    pub title: String,
    pub x: i32,
    pub y: i32,
    pub width: i32,
    pub height: i32,
}

/// The operation the caller should apply to live window state.
#[derive(Debug, PartialEq, Clone, Copy)]
pub enum WindowOp {
    /// Re-position the window, keeping its observed size.
    Move { handle: usize, x: i32, y: i32, width: i32, height: i32 },
    /// Restore the window, then bring it to the foreground.
    Focus { handle: usize },
    Maximize { handle: usize },
    Minimize { handle: usize },
}

/// A recorded window is well formed: a non-empty title and non-negative
/// width and height.
pub open spec fn window_wf(w: WindowInfo) -> bool {
    w.title@.len() > 0 && w.width >= 0 && w.height >= 0
}

/// Every window of the list is well formed.
pub open spec fn all_wf(ws: Seq<WindowInfo>) -> bool {
    forall|i: int| 0 <= i < ws.len() ==> window_wf(#[trigger] ws[i])
}

/// The name filter a window command matches against: the given name, or
/// empty when absent (which matches every window).
pub open spec fn name_view(name: Option<&str>) -> Seq<char> {
    match name {
        Some(n) => n@,
        None => ""@,
    }
}

/// The window's title contains the filter, case-insensitively.
pub open spec fn window_matches(w: WindowInfo, filt: Seq<char>) -> bool {
    contains_ci(w.title@, filt)
}

/// The matching predicate as a function value, for filtering.
pub open spec fn window_pred(filt: Seq<char>) -> spec_fn(WindowInfo) -> bool {
    |w: WindowInfo| window_matches(w, filt)
}

/// The sub-list of windows matching a filter, in enumeration order.
pub open spec fn matching_windows(ws: Seq<WindowInfo>, filt: Seq<char>) -> Seq<WindowInfo> {
    ws.filter(window_pred(filt))
}

/// One step of window enumeration: record a visible window with a
/// non-empty title, computing its size from the rectangle corners; skip
/// invisible and untitled windows.
///
/// Well-formed rectangle corners yield a well-formed record, so a list
/// built only by this step holds well-formed windows throughout.
pub fn record_window(
    list: &mut Vec<WindowInfo>,
    handle: usize,
    visible: bool,
    title: String,
    left: i32,
    top: i32,
    right: i32,
    bottom: i32,
)
    requires
        left <= right,
        top <= bottom,
        right - left <= i32::MAX,
        bottom - top <= i32::MAX,
    ensures
        visible && title@.len() > 0 ==> final(list)@ == old(list)@.push(
            (WindowInfo {
                handle,
                title,
                x: left,
                y: top,
                width: (right - left) as i32,
                height: (bottom - top) as i32,
            }),
        ),
        !(visible && title@.len() > 0) ==> final(list)@ == old(list)@,
        all_wf(old(list)@) ==> all_wf(final(list)@),
{
    if visible && !title.as_str().is_empty() {
        let w = WindowInfo {
            handle,
            title,
            x: left,
            y: top,
            width: right - left,
            height: bottom - top,
        };
        proof {
            assert(window_wf(w));
        }
        list.push(w);
        proof {
            assert forall|i: int| all_wf(old(list)@) && 0 <= i < list@.len()
                implies window_wf(#[trigger] list@[i]) by {
                if i < old(list)@.len() {
                    assert(list@[i] == old(list)@[i]);
                }
            }
        }
    }
}

/// The position of the first window whose title matches, if any does.
pub fn find_first_match(windows: &Vec<WindowInfo>, filt: &str) -> (r: Option<usize>)
    ensures
        r matches Some(i) ==> i < windows@.len() && window_matches(windows@[i as int], filt@)
            && (forall|j: int| 0 <= j < i ==> !window_matches(windows@[j], filt@)),
        r is None ==> forall|j: int|
            0 <= j < windows@.len() ==> !window_matches(windows@[j], filt@),
{
    let mut i: usize = 0;
    while i < windows.len()
        invariant
            i <= windows@.len(),
            forall|j: int| 0 <= j < i ==> !window_matches(windows@[j], filt@),
        decreases windows@.len() - i,
    {
        if contains_fold(windows[i].title.as_str(), filt) {
            return Some(i);
        }
        i += 1;
    }
    None
}

/// The windows whose title matches the filter, in enumeration order.
pub fn filter_matching(windows: Vec<WindowInfo>, filt: &str) -> (r: Vec<WindowInfo>)
    ensures
        r@ == matching_windows(windows@, filt@),
{
    let ghost orig = windows@;
    let mut rest = windows;
    let mut out: Vec<WindowInfo> = Vec::new();
    let ghost mut done: Seq<WindowInfo> = Seq::empty();
    proof {
        reveal(Seq::filter);
        assert(orig =~= done + rest@);
    }
    while rest.len() > 0
        invariant
            orig == done + rest@,
            out@ == matching_windows(done, filt@),
        decreases rest@.len(),
    {
        let ghost prev_rest = rest@;
        let w = rest.remove(0);
        let is_match = contains_fold(w.title.as_str(), filt);
        proof {
            reveal(Seq::filter);
            let d1 = done + seq![w];
            assert(d1.drop_last() =~= done);
            assert(d1.last() == w);
            if window_pred(filt@)(w) {
                assert(matching_windows(d1, filt@) == matching_windows(done, filt@).push(w));
            } else {
                assert(matching_windows(d1, filt@) == matching_windows(done, filt@));
            }
            assert(prev_rest =~= seq![w] + rest@);
            assert(orig =~= d1 + rest@);
            done = d1;
        }
        if is_match {
            out.push(w);
        }
    }
    proof {
        assert(orig =~= done);
    }
    out
}

/// Filtering a non-empty sequence whose head matches keeps that head
/// first.
proof fn lemma_filter_head(s: Seq<WindowInfo>, pred: spec_fn(WindowInfo) -> bool)
    requires
        s.len() > 0,
        pred(s[0]),
    ensures
        s.filter(pred).len() > 0,
        s.filter(pred)[0] == s[0],
    decreases s.len(),
{
    reveal(Seq::filter);
    if s.len() == 1 {
        assert(s.drop_last() =~= Seq::<WindowInfo>::empty());
        assert(s.last() == s[0]);
    } else {
        let dl = s.drop_last();
        assert(dl[0] == s[0]);
        lemma_filter_head(dl, pred);
    }
}

/// The first matching window in enumeration order is the head of the
/// filtered list.
proof fn lemma_first_match(ws: Seq<WindowInfo>, filt: Seq<char>, k: int)
    requires
        0 <= k < ws.len(),
        window_matches(ws[k], filt),
        forall|j: int| 0 <= j < k ==> !window_matches(ws[j], filt),
    ensures
        matching_windows(ws, filt).len() > 0,
        matching_windows(ws, filt)[0] == ws[k],
{
    let pred = window_pred(filt);
    let pre = ws.take(k);
    let suf = ws.skip(k);
    assert(ws =~= pre + suf);
    assert forall|i: int| 0 <= i < pre.len() implies !pred(pre[i]) by {
        assert(pre[i] == ws[i]);
    }
    assert(pre.all(|w: WindowInfo| !pred(w)));
    pre.lemma_all_neg_filter_empty(pred);
    Seq::filter_distributes_over_add(pre, suf, pred);
    assert(suf[0] == ws[k]);
    lemma_filter_head(suf, pred);
    assert(matching_windows(ws, filt) =~= suf.filter(pred));
}

/// Filtering keeps only windows of the list, so every list the handler
/// reports — filtered or not — holds well-formed entries whenever the
/// enumerated list does.
pub proof fn lemma_matching_preserves_wf(ws: Seq<WindowInfo>, filt: Seq<char>)
    requires
        all_wf(ws),
    ensures
        all_wf(matching_windows(ws, filt)),
{
    let m = matching_windows(ws, filt);
    assert forall|i: int| 0 <= i < m.len() implies window_wf(#[trigger] m[i]) by {
        assert(m.contains(m[i]));
        ws.lemma_filter_contains_rev(window_pred(filt), m[i]);
        let j = choose|j: int| 0 <= j < ws.len() && ws[j] == m[i];
        assert(window_wf(ws[j]));
    }
}

/// The mutating action verbs are pairwise distinct, so exactly one
/// branch of the handler can answer for a given action.
proof fn lemma_window_actions_distinct()
    ensures
        "move"@ != "focus"@,
        "move"@ != "maximize"@,
        "move"@ != "minimize"@,
        "focus"@ != "maximize"@,
        "focus"@ != "minimize"@,
        "maximize"@ != "minimize"@,
{
    reveal_strlit("move");
    reveal_strlit("focus");
    reveal_strlit("maximize");
    reveal_strlit("minimize");
    assert("move"@.len() == 4);
    assert("focus"@.len() == 5);
    assert("maximize"@.len() == 8);
    assert("minimize"@.len() == 8);
    assert("maximize"@[1] != "minimize"@[1]);
}

/// `find` with a filter that lowercases to the empty string — the empty
/// filter in particular, as the lowercasing wrapper's contract states of
/// an empty string — returns exactly the set `list` returns: it matches
/// every window, so nothing is dropped.
pub proof fn lemma_find_empty_matches_list(ws: Seq<WindowInfo>, filt: Seq<char>)
    ensures
        lower_of(filt).len() == 0 ==> matching_windows(ws, filt) == ws,
    decreases ws.len(),
{
    if lower_of(filt).len() == 0 {
        reveal(Seq::filter);
        if ws.len() == 0 {
            assert(matching_windows(ws, filt) =~= ws);
        } else {
            let dl = ws.drop_last();
            lemma_find_empty_matches_list(dl, filt);
            crate::text::lemma_empty_needle_matches(
                lower_of(ws.last().title@),
                lower_of(filt),
            );
            assert(window_pred(filt)(ws.last()));
            assert(matching_windows(ws, filt) =~= ws);
        }
    }
}

/// An absent name filter is the empty filter.
pub proof fn lemma_absent_name_is_empty()
    ensures
        name_view(None::<&str>).len() == 0,
{
    reveal_strlit("");
}

/// The payload names exactly the resolved window: its handle and title.
pub open spec fn window_ref_of(data: Option<Payload>, w: WindowInfo) -> bool {
    data matches Some(p) && p matches Payload::WindowRef { handle, title } && handle == w.handle
        && title@ == w.title@
}

/// The action is one of the four that mutate window state.
pub open spec fn is_mutating_action(action: Seq<char>) -> bool {
    action == "move"@ || action == "focus"@ || action == "maximize"@ || action == "minimize"@
}

/// Window command handler.
///
/// `list` reports every enumerated window; `find` reports those whose
/// title contains the filter, case-insensitively. Any other action that
/// is not one of the four mutating verbs fails as unknown, whatever the
/// filter matches. The mutating actions resolve the first matching
/// window in enumeration order and decide the operation the caller
/// should apply:
/// - `move` needs both coordinates, keeps the window's observed size,
///   and decides no operation at all when a coordinate is missing;
/// - `focus`, `maximize` and `minimize` map to the corresponding
///   show-state operation;
/// - with no matching window, the handler fails and decides no
///   operation.
#[allow(unused_variables)]
pub fn handle_window(
    action: &str,
    name: Option<&str>,
    x: Option<i32>,
    y: Option<i32>,
    width: Option<i32>,
    height: Option<i32>,
    windows: Vec<WindowInfo>,
) -> (r: (Option<WindowOp>, CommandResult))
    ensures
        r.1.wf(),
        action@ == "list"@ ==> r.0 is None && r.1.status@ == "success"@ && r.1.error is None
            && (r.1.data matches Some(p) && p matches Payload::Windows(v) && v@ == windows@),
        action@ != "list"@ && action@ == "find"@ ==> r.0 is None && r.1.status@ == "success"@
            && r.1.error is None
            && (r.1.data matches Some(p) && p matches Payload::Windows(v)
                && v@ == matching_windows(windows@, name_view(name))),
        action@ != "list"@ && action@ != "find"@ && !is_mutating_action(action@) ==> r.0 is None
            && r.1.status@ == "error"@ && r.1.data is None
            && (r.1.error matches Some(e) && e@ == "unknown action"@),
        action@ != "list"@ && action@ != "find"@ && is_mutating_action(action@)
            && matching_windows(windows@, name_view(name)).len() == 0 ==> r.0 is None
            && r.1.status@ == "error"@ && r.1.data is None
            && (r.1.error matches Some(e)
                && e@ == "no window found matching '"@ + lower_of(name_view(name)) + "'"@),
        action@ != "list"@ && action@ != "find"@ && action@ == "move"@ && matching_windows(windows@, name_view(name)).len() > 0 && x is Some
            && y is Some ==> (r.0 matches Some(op) && op == (WindowOp::Move {
                handle: matching_windows(windows@, name_view(name))[0].handle,
                x: x->0,
                y: y->0,
                width: matching_windows(windows@, name_view(name))[0].width,
                height: matching_windows(windows@, name_view(name))[0].height,
            })) && r.1.status@ == "moved"@ && r.1.error is None
            && window_ref_of(r.1.data, matching_windows(windows@, name_view(name))[0]),
        action@ != "list"@ && action@ != "find"@ && action@ == "move"@ && matching_windows(windows@, name_view(name)).len() > 0
            && (x is None || y is None) ==> r.0 is None && r.1.status@ == "error"@
            && r.1.data is None
            && (r.1.error matches Some(e) && e@ == "error: missing x/y"@),
        action@ != "list"@ && action@ != "find"@ && action@ == "focus"@ && matching_windows(windows@, name_view(name)).len() > 0
            ==> (r.0 matches Some(op) && op == (WindowOp::Focus {
                handle: matching_windows(windows@, name_view(name))[0].handle,
            })) && r.1.status@ == "focused"@ && r.1.error is None
            && window_ref_of(r.1.data, matching_windows(windows@, name_view(name))[0]),
        action@ != "list"@ && action@ != "find"@ && action@ == "maximize"@ && matching_windows(windows@, name_view(name)).len() > 0
            ==> (r.0 matches Some(op) && op == (WindowOp::Maximize {
                handle: matching_windows(windows@, name_view(name))[0].handle,
            })) && r.1.status@ == "maximized"@ && r.1.error is None
            && window_ref_of(r.1.data, matching_windows(windows@, name_view(name))[0]),
        action@ != "list"@ && action@ != "find"@ && action@ == "minimize"@ && matching_windows(windows@, name_view(name)).len() > 0
            ==> (r.0 matches Some(op) && op == (WindowOp::Minimize {
                handle: matching_windows(windows@, name_view(name))[0].handle,
            })) && r.1.status@ == "minimized"@ && r.1.error is None
            && window_ref_of(r.1.data, matching_windows(windows@, name_view(name))[0]),
{
    proof {
        crate::envelope::lemma_statuses_not_error();
        lemma_window_actions_distinct();
    }
    if str_eq(action, "list") {
        return (None, CommandResult::success("success", Some(Payload::Windows(windows))));
    }
    let filt: &str = match name {
        Some(n) => n,
        None => "",
    };
    if str_eq(action, "find") {
        let found = filter_matching(windows, filt);
        return (None, CommandResult::success("success", Some(Payload::Windows(found))));
    }
    let is_move = str_eq(action, "move");
    let is_focus = str_eq(action, "focus");
    let is_maximize = str_eq(action, "maximize");
    let is_minimize = str_eq(action, "minimize");
    if !is_move && !is_focus && !is_maximize && !is_minimize {
        return (None, CommandResult::error("unknown action"));
    }
    match find_first_match(&windows, filt) {
        None => {
            proof {
                let pred = window_pred(filt@);
                assert(windows@.all(|w: WindowInfo| !pred(w)));
                windows@.lemma_all_neg_filter_empty(pred);
            }
            let lowered = lowercase(filt);
            let msg = String::from_str("no window found matching '").concat(
                lowered.as_str(),
            ).concat("'");
            (None, CommandResult::error(msg.as_str()))
        },
        Some(idx) => {
            proof {
                lemma_first_match(windows@, filt@, idx as int);
            }
            let t_handle: usize = windows[idx].handle;
            let t_width: i32 = windows[idx].width;
            let t_height: i32 = windows[idx].height;
            let t_title: String = windows[idx].title.clone();
            if is_move {
                if x.is_some() && y.is_some() {
                    let op = WindowOp::Move {
                        handle: t_handle,
                        x: x.unwrap(),
                        y: y.unwrap(),
                        width: t_width,
                        height: t_height,
                    };
                    (
                        Some(op),
                        CommandResult::success(
                            "moved",
                            Some(Payload::WindowRef { handle: t_handle, title: t_title }),
                        ),
                    )
                } else {
                    (None, CommandResult::error("error: missing x/y"))
                }
            } else if is_focus {
                (
                    Some(WindowOp::Focus { handle: t_handle }),
                    CommandResult::success(
                        "focused",
                        Some(Payload::WindowRef { handle: t_handle, title: t_title }),
                    ),
                )
            } else if is_maximize {
                (
                    Some(WindowOp::Maximize { handle: t_handle }),
                    CommandResult::success(
                        "maximized",
                        Some(Payload::WindowRef { handle: t_handle, title: t_title }),
                    ),
                )
            } else {
                (
                    Some(WindowOp::Minimize { handle: t_handle }),
                    CommandResult::success(
                        "minimized",
                        Some(Payload::WindowRef { handle: t_handle, title: t_title }),
                    ),
                )
            }
        },
    }
}

} // verus!
