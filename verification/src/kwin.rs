//! Decisions on the data the KWin shuttle script reports: turning its window
//! records into `WindowInfo`s and picking the output a window is moved to.
use crate::types::{OutputId, ShuttleDirection, WindowId, WindowInfo};
use crate::text::str_equals;
use vstd::prelude::*;

verus! {

/// One window record as the KWin script lists it (empty `output` when the
/// window is on no known output).
#[derive(Debug, Clone)]
pub struct KWinWindow {
    pub id: String,
    pub caption: String,
    pub output: String,
}

/// One output record as the KWin script lists it.
#[derive(Debug, Clone)]
pub struct KWinOutput {
    pub name: String,
    pub x: i32,
    pub y: i32,
    pub width: u32,
    pub height: u32,
}

/// Why no target output could be picked.
#[derive(Debug, Clone, Copy, PartialEq, Eq)]
pub enum ShuttleError {
    /// Shuttling needs a top and a bottom screen; only `found` outputs exist.
    TooFewOutputs { found: usize },
}

/// The `WindowInfo` a KWin window record stands for.
pub open spec fn window_info_of(w: KWinWindow) -> WindowInfo {
    WindowInfo {
        id: WindowId(w.id),
        caption: w.caption,
        output: if w.output@.len() == 0 { None } else { Some(OutputId(w.output)) },
    }
}

/// Convert the KWin script's window records, in order.
pub fn parse_windows(windows: &Vec<KWinWindow>) -> (r: Vec<WindowInfo>)
    ensures
        r@.len() == windows@.len(),
        forall|i: int| 0 <= i < r@.len() ==> #[trigger] r@[i] == window_info_of(windows@[i]),
{
    let mut out: Vec<WindowInfo> = Vec::new();
    let mut i: usize = 0;
    while i < windows.len()
        invariant
            i <= windows@.len(),
            out@.len() == i,
            forall|j: int| 0 <= j < i ==> #[trigger] out@[j] == window_info_of(windows@[j]),
        decreases windows@.len() - i,
    {
        let w = &windows[i];
        let output = if w.output.as_str().is_empty() {
            None
        } else {
            Some(OutputId(w.output.clone()))
        };
        out.push(WindowInfo { id: WindowId(w.id.clone()), caption: w.caption.clone(), output });
        i = i + 1;
    }
    out
}

/// Whether index `i` is the output a window shuttled in `direction` goes to,
/// for outputs with vertical positions `ys`: the top screen (lowest y, the
/// first listed among equals) for `Up`, the bottom screen (highest y, the last
/// listed among equals) for `Down`.
pub open spec fn is_shuttle_target(ys: Seq<i32>, direction: ShuttleDirection, i: int) -> bool {
    &&& 0 <= i < ys.len()
    &&& match direction {
        ShuttleDirection::Up => {
            &&& forall|j: int| 0 <= j < ys.len() ==> ys[i] <= #[trigger] ys[j]
            &&& forall|j: int| 0 <= j < i ==> ys[i] < #[trigger] ys[j]
        },
        ShuttleDirection::Down => {
            &&& forall|j: int| 0 <= j < ys.len() ==> #[trigger] ys[j] <= ys[i]
            &&& forall|j: int| i < j < ys.len() ==> #[trigger] ys[j] < ys[i]
        },
    }
}

/// The vertical positions of the outputs, in order.
pub open spec fn output_ys(outputs: Seq<KWinOutput>) -> Seq<i32> {
    outputs.map_values(|o: KWinOutput| o.y)
}

/// Only one index is ever the shuttle target.
pub proof fn lemma_shuttle_target_unique(ys: Seq<i32>, direction: ShuttleDirection, i: int, k: int)
    requires
        is_shuttle_target(ys, direction, i),
        is_shuttle_target(ys, direction, k),
    ensures
        i == k,
{
    match direction {
        ShuttleDirection::Up => {
            assert(ys[i] <= ys[k] && ys[k] <= ys[i]);
        },
        ShuttleDirection::Down => {
            assert(ys[i] <= ys[k] && ys[k] <= ys[i]);
        },
    }
}

/// Pick the output a window moves to: with outputs ordered by y (ties kept in
/// listed order), the first for `Up` and the last for `Down`.
pub fn pick_target_output(outputs: &Vec<KWinOutput>, direction: ShuttleDirection) -> (r: Result<
    String,
    ShuttleError,
>)
    ensures
        match r {
            Ok(name) => outputs@.len() >= 2 && exists|i: int|
                is_shuttle_target(output_ys(outputs@), direction, i) && name@
                    == #[trigger] outputs@[i].name@,
            Err(ShuttleError::TooFewOutputs { found }) => outputs@.len() < 2 && found
                == outputs@.len(),
        },
{
    let n = outputs.len();
    if n < 2 {
        return Err(ShuttleError::TooFewOutputs { found: n });
    }
    let ghost ys = output_ys(outputs@);
    let mut best: usize = 0;
    let mut i: usize = 1;
    while i < n
        invariant
            n == outputs@.len(),
            ys == output_ys(outputs@),
            1 <= i <= n,
            best < i,
            is_shuttle_target(ys.subrange(0, i as int), direction, best as int),
        decreases n - i,
    {
        let y = outputs[i].y;
        let better = match direction {
            ShuttleDirection::Up => y < outputs[best].y,
            ShuttleDirection::Down => y >= outputs[best].y,
        };
        if better {
            best = i;
        }
        i = i + 1;
        assert(ys.subrange(0, i as int) =~= ys.subrange(0, i - 1).push(ys[i - 1]));
    }
    assert(ys.subrange(0, n as int) =~= ys);
    let name = outputs[best].name.clone();
    assert(is_shuttle_target(output_ys(outputs@), direction, best as int)
        && name@ == outputs@[best as int].name@);
    Ok(name)
}

/// Whether the KWin script's reply to a move request reports success (the
/// script answers "ok", or an error message).
pub fn move_reply_ok(reply: &str) -> (b: bool)
    ensures
        b == (reply@ == "ok"@),
{
    str_equals(reply, "ok")
}

} // verus!
