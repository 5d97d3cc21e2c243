use flip_companion::kwin::{parse_windows, pick_target_output, KWinOutput, KWinWindow, ShuttleError};
use flip_companion::types::{OutputId, ShuttleDirection, WindowId, WindowInfo};
use serde_json::Value;

fn field(v: &Value, name: &str) -> String {
    v.get(name).and_then(Value::as_str).unwrap_or_default().to_string()
}

/// Reads the KWin script's window list the way the D-Bus client does, then
/// converts it with the library.
fn parse_windows_json(json: &str) -> Result<Vec<WindowInfo>, serde_json::Error> {
    let v: Vec<Value> = serde_json::from_str(json)?;
    let records: Vec<KWinWindow> = v
        .iter()
        .map(|w| KWinWindow { id: field(w, "id"), caption: field(w, "caption"), output: field(w, "output") })
        .collect();
    Ok(parse_windows(&records))
}

fn outputs_from_json(json: &str) -> Vec<KWinOutput> {
    let v: Vec<Value> = serde_json::from_str(json).unwrap();
    v.iter()
        .map(|o| KWinOutput {
            name: field(o, "name"),
            x: o["x"].as_i64().unwrap() as i32,
            y: o["y"].as_i64().unwrap() as i32,
            width: o["width"].as_u64().unwrap() as u32,
            height: o["height"].as_u64().unwrap() as u32,
        })
        .collect()
}

fn pick(json: &str, direction: ShuttleDirection) -> Result<String, ShuttleError> {
    pick_target_output(&outputs_from_json(json), direction)
}

#[test]
fn parse_windows_basic() {
    let json = r#"[
        {"id": "abc-123", "caption": "Firefox", "output": "HDMI-1"},
        {"id": "def-456", "caption": "Terminal", "output": ""}
    ]"#;

    let windows = parse_windows_json(json).unwrap();
    assert_eq!(windows.len(), 2);

    assert_eq!(windows[0].id, WindowId("abc-123".into()));
    assert_eq!(windows[0].caption, "Firefox");
    assert_eq!(windows[0].output, Some(OutputId("HDMI-1".into())));

    assert_eq!(windows[1].id, WindowId("def-456".into()));
    assert_eq!(windows[1].caption, "Terminal");
    assert_eq!(windows[1].output, None);
}

#[test]
fn parse_windows_empty() {
    let windows = parse_windows_json("[]").unwrap();
    assert!(windows.is_empty());
}

#[test]
fn pick_target_output_up() {
    let json = r#"[
        {"name": "eDP-1", "x": 0, "y": 0, "width": 1920, "height": 1080},
        {"name": "eDP-2", "x": 0, "y": 1080, "width": 1920, "height": 1080}
    ]"#;

    let name = pick(json, ShuttleDirection::Up).unwrap();
    assert_eq!(name, "eDP-1");
}

#[test]
fn pick_target_output_down() {
    let json = r#"[
        {"name": "eDP-1", "x": 0, "y": 0, "width": 1920, "height": 1080},
        {"name": "eDP-2", "x": 0, "y": 1080, "width": 1920, "height": 1080}
    ]"#;

    let name = pick(json, ShuttleDirection::Down).unwrap();
    assert_eq!(name, "eDP-2");
}

#[test]
fn pick_target_output_unsorted_inputs() {
    // Outputs arrive in reverse order — the pick goes by y, not by position.
    let json = r#"[
        {"name": "Bottom", "x": 0, "y": 1080, "width": 1920, "height": 1080},
        {"name": "Top", "x": 0, "y": 0, "width": 1920, "height": 1080}
    ]"#;

    assert_eq!(pick(json, ShuttleDirection::Up).unwrap(), "Top");
    assert_eq!(pick(json, ShuttleDirection::Down).unwrap(), "Bottom");
}

#[test]
fn pick_target_output_single_display_fails() {
    let json = r#"[{"name": "eDP-1", "x": 0, "y": 0, "width": 1920, "height": 1080}]"#;
    assert!(pick(json, ShuttleDirection::Up).is_err());
    assert_eq!(
        pick(json, ShuttleDirection::Down),
        Err(ShuttleError::TooFewOutputs { found: 1 })
    );
    assert_eq!(pick("[]", ShuttleDirection::Up), Err(ShuttleError::TooFewOutputs { found: 0 }));
}

fn out(name: &str, y: i32) -> KWinOutput {
    KWinOutput { name: name.into(), x: 0, y, width: 100, height: 100 }
}

#[test]
fn pick_target_output_ties_follow_listed_order() {
    let outputs = vec![out("a", 5), out("b", 0), out("c", 0), out("d", 9), out("e", 9)];
    assert_eq!(pick_target_output(&outputs, ShuttleDirection::Up).unwrap(), "b");
    assert_eq!(pick_target_output(&outputs, ShuttleDirection::Down).unwrap(), "e");
    let same = vec![out("x", 3), out("y", 3), out("z", 3)];
    assert_eq!(pick_target_output(&same, ShuttleDirection::Up).unwrap(), "x");
    assert_eq!(pick_target_output(&same, ShuttleDirection::Down).unwrap(), "z");
    let negative = vec![out("p", -10), out("q", i32::MIN), out("r", i32::MAX)];
    assert_eq!(pick_target_output(&negative, ShuttleDirection::Up).unwrap(), "q");
    assert_eq!(pick_target_output(&negative, ShuttleDirection::Down).unwrap(), "r");
}

#[test]
fn move_reply_must_be_ok() {
    assert!(flip_companion::kwin::move_reply_ok("ok"));
    assert!(!flip_companion::kwin::move_reply_ok("window not found"));
    assert!(!flip_companion::kwin::move_reply_ok(""));
}
