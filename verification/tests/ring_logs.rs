//! The log relay: ring-buffer eviction, severity tagging, and the session's
//! duplicate-free log view.

use pcli2_rig::config::Config;
use pcli2_rig::ring::{LogView, RingBuffer, Severity};
use pcli2_rig::session::SessionState;

fn line_texts(rb: &RingBuffer) -> Vec<String> {
    rb.entries.iter().map(|e| e.text.clone()).collect()
}

#[test]
fn ring_buffer_keeps_last_capacity_lines_in_order() {
    // After inserting capacity + k lines, exactly the last `capacity` lines
    // remain, in their original relative order.
    let mut rb = RingBuffer::new(3);
    for t in ["one", "two", "three", "four", "five"] {
        rb.push_line(t.to_string(), Severity::Other);
    }
    assert_eq!(line_texts(&rb), vec!["three", "four", "five"]);
    assert_eq!(rb.entries.len(), 3);
    assert_eq!(rb.next_seq, 5);
    assert_eq!(rb.entries[0].seq, 2);
    assert_eq!(rb.entries[2].seq, 4);
}

#[test]
fn ring_buffer_below_capacity_keeps_everything() {
    let mut rb = RingBuffer::new(10);
    rb.push_line("a".to_string(), Severity::Other);
    rb.push_line("b".to_string(), Severity::Other);
    assert_eq!(line_texts(&rb), vec!["a", "b"]);
}

#[test]
fn relay_line_tags_severity_and_trims() {
    let mut rb = RingBuffer::new(8);
    rb.relay_line("  something ERROR happened \n");
    rb.relay_line("a WARN line");
    rb.relay_line("an INFO line");
    rb.relay_line("a DEBUG line");
    rb.relay_line("plain line");
    assert_eq!(rb.entries[0].text, "\u{2717} something ERROR happened");
    assert_eq!(rb.entries[0].severity, Severity::Error);
    assert_eq!(rb.entries[1].text, "\u{26a0} a WARN line");
    assert_eq!(rb.entries[1].severity, Severity::Warn);
    assert_eq!(rb.entries[2].text, "\u{2713} an INFO line");
    assert_eq!(rb.entries[2].severity, Severity::Info);
    assert_eq!(rb.entries[3].text, "\u{2022} a DEBUG line");
    assert_eq!(rb.entries[3].severity, Severity::Debug);
    assert_eq!(rb.entries[4].text, "plain line");
    assert_eq!(rb.entries[4].severity, Severity::Other);
}

#[test]
fn relay_line_skips_blank_emissions() {
    let mut rb = RingBuffer::new(4);
    rb.relay_line("   \n\t ");
    rb.relay_line("");
    assert!(rb.entries.is_empty());
    assert_eq!(rb.next_seq, 0);
}

#[test]
fn log_view_pulls_each_line_exactly_once() {
    let mut rb = RingBuffer::new(10);
    let mut view = LogView::new(10);
    rb.push_line("a".to_string(), Severity::Other);
    rb.push_line("b".to_string(), Severity::Other);
    view.sync_from(&rb);
    assert_eq!(view.lines, vec!["a", "b"]);
    // A second drain with nothing new adds nothing.
    view.sync_from(&rb);
    assert_eq!(view.lines, vec!["a", "b"]);
    rb.push_line("c".to_string(), Severity::Other);
    view.sync_from(&rb);
    assert_eq!(view.lines, vec!["a", "b", "c"]);
}

#[test]
fn log_view_loses_lines_only_to_eviction() {
    let mut rb = RingBuffer::new(2);
    let mut view = LogView::new(10);
    rb.push_line("a".to_string(), Severity::Other);
    view.sync_from(&rb);
    // Three more lines: "b" is evicted from the buffer before this drain,
    // so only the surviving unseen lines arrive.
    rb.push_line("b".to_string(), Severity::Other);
    rb.push_line("c".to_string(), Severity::Other);
    rb.push_line("d".to_string(), Severity::Other);
    view.sync_from(&rb);
    assert_eq!(view.lines, vec!["a", "c", "d"]);
}

#[test]
fn log_view_trims_its_own_bound() {
    let mut rb = RingBuffer::new(10);
    let mut view = LogView::new(3);
    for t in ["1", "2", "3", "4", "5"] {
        rb.push_line(t.to_string(), Severity::Other);
    }
    view.sync_from(&rb);
    assert_eq!(view.lines, vec!["3", "4", "5"]);
}

#[test]
fn session_sync_logs_merges_the_shared_buffer() {
    let mut s = SessionState::new(Config::default());
    let mut rb = RingBuffer::new(50);
    rb.relay_line("first INFO line");
    s.sync_logs(&rb);
    rb.relay_line("second line");
    s.sync_logs(&rb);
    assert_eq!(s.log_view.lines, vec!["\u{2713} first INFO line", "second line"]);
    assert_eq!(s.logs(), &vec!["\u{2713} first INFO line".to_string(), "second line".to_string()]);
}
