//! Commands from the UI to the backend, and the decisions the backend takes
//! on their arguments.
use crate::config::AppEntry;
use crate::types::ShuttleDirection;
use crate::text::str_equals;
use vstd::prelude::*;

verus! {

/// Commands sent from the UI thread to the async backend.
#[derive(Debug, Clone, PartialEq, Eq)]
pub enum UICommand {
    KeyPressed(String),
    ShuttleWindow { id: String, direction: String },
    RefreshWindows,
    LaunchApp { index: i32 },
    CloseApp,
}

/// The shuttle direction a UI direction name stands for: "up" or "down".
pub open spec fn direction_of(name: Seq<char>) -> Option<ShuttleDirection> {
    if name == "up"@ {
        Some(ShuttleDirection::Up)
    } else if name == "down"@ {
        Some(ShuttleDirection::Down)
    } else {
        None
    }
}

pub fn parse_direction(name: &str) -> (r: Option<ShuttleDirection>)
    ensures
        r == direction_of(name@),
{
    if str_equals(name, "up") {
        Some(ShuttleDirection::Up)
    } else if str_equals(name, "down") {
        Some(ShuttleDirection::Down)
    } else {
        None
    }
}

/// The app entry a UI index selects: none for a negative index or one past
/// the end of the list.
pub fn select_app(apps: &Vec<AppEntry>, index: i32) -> (r: Option<&AppEntry>)
    ensures
        match r {
            Some(e) => 0 <= index < apps@.len() && *e == apps@[index as int],
            None => index < 0 || index >= apps@.len(),
        },
{
    if index < 0 {
        return None;
    }
    let idx = index as usize;
    if idx < apps.len() {
        Some(&apps[idx])
    } else {
        None
    }
}

} // verus!
