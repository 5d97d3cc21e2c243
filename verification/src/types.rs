use vstd::prelude::*;

verus! {

/// Unique identifier for a display output (e.g. KScreen output ID or connector name).
#[derive(Debug, Clone, PartialEq, Eq, Hash)]
pub struct OutputId(pub String);

/// Physical geometry of a display output.
#[derive(Debug, Clone)]
pub struct Geometry {
    pub x: i32,
    pub y: i32,
    pub width: u32,
    pub height: u32,
}

/// Information about a single display output.
#[derive(Debug, Clone)]
pub struct OutputInfo {
    pub id: OutputId,
    pub name: String,
    pub enabled: bool,
    pub geometry: Geometry,
}

/// Identifies a window managed by KWin.
#[derive(Debug, Clone, PartialEq, Eq, Hash)]
pub struct WindowId(pub String);

/// Information about a single window, as reported by the KWin script.
#[derive(Debug, Clone)]
pub struct WindowInfo {
    pub id: WindowId,
    pub caption: String,
    /// Which output the window is currently on, if known.
    pub output: Option<OutputId>,
}

/// Which direction to shuttle a window.
#[derive(Debug, Clone, Copy, PartialEq, Eq)]
pub enum ShuttleDirection {
    /// Move window to the top (primary) screen.
    Up,
    /// Move window to the bottom (companion) screen.
    Down,
}

/// Memory usage in bytes.
#[derive(Debug, Clone, Copy, Default)]
pub struct MemoryInfo {
    /// Used memory in bytes.
    pub used_bytes: u64,
    /// Total memory in bytes.
    pub total_bytes: u64,
}

impl OutputId {
    /// A field-by-field copy, known to equal `self`.
    pub fn duplicate(&self) -> (r: OutputId)
        ensures
            r == *self,
    {
        OutputId(self.0.clone())
    }
}

impl WindowId {
    /// A field-by-field copy, known to equal `self`.
    pub fn duplicate(&self) -> (r: WindowId)
        ensures
            r == *self,
    {
        WindowId(self.0.clone())
    }
}

impl WindowInfo {
    /// A field-by-field copy, known to equal `self`.
    pub fn duplicate(&self) -> (r: WindowInfo)
        ensures
            r == *self,
    {
        let output = match &self.output {
            Some(o) => Some(o.duplicate()),
            None => None,
        };
        WindowInfo { id: self.id.duplicate(), caption: self.caption.clone(), output }
    }
}

} // verus!
