use flip_companion::stats_history::{clock_text_from, StatsHistory, HISTORY_LEN};

#[test]
fn empty_history_gives_empty_vec() {
    let h = StatsHistory::<f32>::new();
    assert!(h.cpu_history().is_empty());
}

#[test]
fn single_point() {
    let mut h = StatsHistory::new();
    h.push(50.0f32, 0.0, 0.0);
    assert_eq!(h.cpu_history(), vec![50.0]);
}

#[test]
fn ring_buffer_capped_at_30() {
    let mut h = StatsHistory::new();
    for i in 0..50 {
        h.push(i as f32, 0.0, 0.0);
    }
    let hist = h.cpu_history();
    assert_eq!(hist.len(), 30);
    assert_eq!(hist[0] as u32, 20);
}

#[test]
fn clock_text_format() {
    let secs = std::time::SystemTime::now()
        .duration_since(std::time::UNIX_EPOCH)
        .unwrap_or_default()
        .as_secs();
    let hour = ((secs / 3600) % 24) as u32;
    let minute = ((secs / 60) % 60) as u32;
    let t = clock_text_from(hour, minute);
    assert_eq!(t.len(), 5);
    assert_eq!(t.as_bytes()[2], b':');
}

#[test]
fn clock_text_pads_to_two_digits() {
    assert_eq!(clock_text_from(9, 5), "09:05");
    assert_eq!(clock_text_from(0, 0), "00:00");
    assert_eq!(clock_text_from(23, 59), "23:59");
    assert_eq!(clock_text_from(10, 10), "10:10");
    assert_eq!(clock_text_from(123, 7), "123:07");
}

#[test]
fn history_keeps_last_values_in_order() {
    let mut h = StatsHistory::new();
    for i in 0..(HISTORY_LEN as u32 + 7) {
        h.push(i, 1000 + i, 2000 + i);
    }
    let expected: Vec<u32> = (7..(HISTORY_LEN as u32 + 7)).collect();
    assert_eq!(h.cpu_history(), expected);
    assert_eq!(h.gpu_history(), expected.iter().map(|v| v + 1000).collect::<Vec<_>>());
    assert_eq!(h.mem_history(), expected.iter().map(|v| v + 2000).collect::<Vec<_>>());
    assert_eq!(h.tick_count(), HISTORY_LEN + 7);
}

#[test]
fn history_below_capacity_keeps_everything() {
    let mut h = StatsHistory::new();
    for i in 0..HISTORY_LEN as u32 {
        h.push(i, i, i);
    }
    assert_eq!(h.cpu_history(), (0..HISTORY_LEN as u32).collect::<Vec<_>>());
    h.push(99, 99, 99);
    assert_eq!(h.cpu_history()[0], 1);
    assert_eq!(*h.cpu_history().last().unwrap(), 99);
    assert_eq!(h.cpu_history().len(), HISTORY_LEN);
}
