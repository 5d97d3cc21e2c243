//! Mock backends that stand in for the hardware and desktop services when the
//! panel runs with `--mock`: a fixed dual-screen layout, three fake windows
//! and a tick counter that drives synthetic stats.
use crate::types::{Geometry, OutputId, OutputInfo, ShuttleDirection, WindowId, WindowInfo};
use vstd::prelude::*;
use vstd::string::StringExecFns;

verus! {

/// Mock display detector returning a fake dual-screen setup.
pub struct MockDisplayDetector;

impl MockDisplayDetector {
    /// The two fake outputs: a 1920×1080 top screen at the origin and a
    /// 480×800 bottom screen right below it.
    pub fn list_outputs(&self) -> (r: Vec<OutputInfo>)
        ensures
            r@.len() == 2,
            r@[0].id.0@ == "MOCK-TOP"@,
            r@[0].name@ == "Mock Top Screen"@,
            r@[0].enabled,
            r@[0].geometry == (Geometry { x: 0, y: 0, width: 1920, height: 1080 }),
            r@[1].id.0@ == "MOCK-BOTTOM"@,
            r@[1].name@ == "Mock Bottom Screen"@,
            r@[1].enabled,
            r@[1].geometry == (Geometry { x: 0, y: 1080, width: 480, height: 800 }),
    {
        let mut outputs: Vec<OutputInfo> = Vec::new();
        outputs.push(
            OutputInfo {
                id: OutputId(String::from_str("MOCK-TOP")),
                name: String::from_str("Mock Top Screen"),
                enabled: true,
                geometry: Geometry { x: 0, y: 0, width: 1920, height: 1080 },
            },
        );
        outputs.push(
            OutputInfo {
                id: OutputId(String::from_str("MOCK-BOTTOM")),
                name: String::from_str("Mock Bottom Screen"),
                enabled: true,
                geometry: Geometry { x: 0, y: 1080, width: 480, height: 800 },
            },
        );
        outputs
    }
}

/// Mock input injector: keystrokes are only logged.
pub struct MockInputInjector;

/// Mock stats provider returning synthetic data that slowly changes.
pub struct MockStatsProvider {
    tick: u32,
}

impl MockStatsProvider {
    /// The number of snapshots taken so far, modulo 2^32.
    pub closed spec fn ticks(self) -> u32 {
        self.tick
    }

    pub fn new() -> (p: Self)
        ensures
            p.ticks() == 0,
    {
        Self { tick: 0 }
    }

    /// Advance to the next snapshot and return its tick, which drives the
    /// phase of the synthetic values (the counter wraps around).
    pub fn advance(&mut self) -> (t: u32)
        ensures
            t == final(self).ticks(),
            t == next_tick(old(self).ticks()),
    {
        self.tick = self.tick.wrapping_add(1);
        self.tick
    }
}

/// The tick after `t`, wrapping around after `u32::MAX`.
pub open spec fn next_tick(t: u32) -> u32 {
    if t == u32::MAX {
        0
    } else {
        (t + 1) as u32
    }
}

/// The tick of a fresh provider after `k` calls of `advance`.
pub open spec fn ticks_after(k: nat) -> u32
    decreases k,
{
    if k == 0 {
        0
    } else {
        next_tick(ticks_after((k - 1) as nat))
    }
}

/// A fresh provider's `k`-th snapshot is driven by tick `k` modulo 2^32: the
/// ticks, and so the synthetic values computed from them, depend only on how
/// many snapshots were taken, so two fresh providers give the same sequence.
pub proof fn lemma_fresh_ticks(k: nat)
    ensures
        ticks_after(k) == k % 0x1_0000_0000,
    decreases k,
{
    if k > 0 {
        lemma_fresh_ticks((k - 1) as nat);
        let p = (k - 1) as nat;
        assert(p % 0x1_0000_0000 == 0xffff_ffff ==> k % 0x1_0000_0000 == 0) by {
            vstd::arithmetic::div_mod::lemma_fundamental_div_mod(p as int, 0x1_0000_0000);
            vstd::arithmetic::div_mod::lemma_fundamental_div_mod(k as int, 0x1_0000_0000);
            if p % 0x1_0000_0000 == 0xffff_ffff {
                vstd::arithmetic::div_mod::lemma_fundamental_div_mod_converse(
                    k as int,
                    0x1_0000_0000,
                    p as int / 0x1_0000_0000 + 1,
                    0,
                );
            }
        }
        assert(p % 0x1_0000_0000 < 0xffff_ffff ==> k % 0x1_0000_0000 == p % 0x1_0000_0000 + 1) by {
            vstd::arithmetic::div_mod::lemma_fundamental_div_mod(p as int, 0x1_0000_0000);
            if p % 0x1_0000_0000 < 0xffff_ffff {
                vstd::arithmetic::div_mod::lemma_fundamental_div_mod_converse(
                    k as int,
                    0x1_0000_0000,
                    p as int / 0x1_0000_0000,
                    (p % 0x1_0000_0000 + 1) as int,
                );
            }
        }
    }
}

/// Mock window manager with a fixed set of fake windows.
pub struct MockWindowManager {
    windows: Vec<WindowInfo>,
}

/// The window with id `id`, caption `caption`, on output `output`.
pub open spec fn is_window(w: WindowInfo, id: Seq<char>, caption: Seq<char>, output: Seq<char>) -> bool {
    &&& w.id.0@ == id
    &&& w.caption@ == caption
    &&& w.output matches Some(o) && o.0@ == output
}

/// The three fake windows: Firefox and a terminal on the top screen, a file
/// manager on the bottom one.
pub open spec fn mock_windows(ws: Seq<WindowInfo>) -> bool {
    &&& ws.len() == 3
    &&& is_window(ws[0], "1"@, "Firefox"@, "MOCK-TOP"@)
    &&& is_window(ws[1], "2"@, "Terminal"@, "MOCK-TOP"@)
    &&& is_window(ws[2], "3"@, "File Manager"@, "MOCK-BOTTOM"@)
}

impl MockWindowManager {
    /// The windows this manager reports.
    pub closed spec fn windows(self) -> Seq<WindowInfo> {
        self.windows@
    }

    pub fn new() -> (m: Self)
        ensures
            mock_windows(m.windows()),
    {
        let mut windows: Vec<WindowInfo> = Vec::new();
        windows.push(
            WindowInfo {
                id: WindowId(String::from_str("1")),
                caption: String::from_str("Firefox"),
                output: Some(OutputId(String::from_str("MOCK-TOP"))),
            },
        );
        windows.push(
            WindowInfo {
                id: WindowId(String::from_str("2")),
                caption: String::from_str("Terminal"),
                output: Some(OutputId(String::from_str("MOCK-TOP"))),
            },
        );
        windows.push(
            WindowInfo {
                id: WindowId(String::from_str("3")),
                caption: String::from_str("File Manager"),
                output: Some(OutputId(String::from_str("MOCK-BOTTOM"))),
            },
        );
        Self { windows }
    }

    /// List all open windows.
    pub fn list_windows(&self) -> (r: Vec<WindowInfo>)
        ensures
            r@ == self.windows(),
    {
        let mut out: Vec<WindowInfo> = Vec::new();
        let mut i: usize = 0;
        while i < self.windows.len()
            invariant
                i <= self.windows@.len(),
                out@ == self.windows@.subrange(0, i as int),
            decreases self.windows@.len() - i,
        {
            out.push(self.windows[i].duplicate());
            i = i + 1;
            assert(out@ =~= self.windows@.subrange(0, i as int));
        }
        assert(self.windows@.subrange(0, self.windows@.len() as int) =~= self.windows@);
        out
    }

    /// The output a shuttled window is (pretend-)moved to.
    pub fn shuttle_target(&self, direction: ShuttleDirection) -> (r: &'static str)
        ensures
            r@ == match direction {
                ShuttleDirection::Up => "MOCK-TOP"@,
                ShuttleDirection::Down => "MOCK-BOTTOM"@,
            },
    {
        match direction {
            ShuttleDirection::Up => "MOCK-TOP",
            ShuttleDirection::Down => "MOCK-BOTTOM",
        }
    }
}

} // verus!
