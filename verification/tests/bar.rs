use pbr::{kb_fmt, move_cursor_up, terminal_size, MemSink, PbIter, ProgressBar, Units};

fn captured(pb: &ProgressBar<MemSink>) -> Vec<String> {
    pb.handle.lines.clone()
}

#[test]
fn kb_fmt_kilobytes() {
    assert_eq!(kb_fmt(1536), "1.50 KB");
}

#[test]
fn kb_fmt_gigabytes() {
    assert_eq!(kb_fmt(1_500_000_000), "1.40 GB");
}

#[test]
fn kb_fmt_plain_bytes_no_decimals() {
    assert_eq!(kb_fmt(0), "0 B");
    assert_eq!(kb_fmt(512), "512 B");
    assert_eq!(kb_fmt(1023), "1023 B");
}

#[test]
fn kb_fmt_megabytes_and_terabytes() {
    assert_eq!(kb_fmt(1_048_576), "1.00 MB");
    assert_eq!(kb_fmt(2 * 1024 * 1024 * 1024 * 1024), "2.00 TB");
}

#[test]
fn move_cursor_up_is_ansi_sequence() {
    assert_eq!(move_cursor_up(3), "\u{1b}[3A");
    assert_eq!(move_cursor_up(0), "\u{1b}[0A");
    assert_eq!(move_cursor_up(127), "\u{1b}[127A");
}

#[test]
fn terminal_size_is_unavailable_here() {
    assert!(terminal_size().is_none());
}

#[test]
fn scenario_half_done_bar_with_percent_box() {
    // total=10, width=20, default glyphs, only the percent and bar boxes on:
    // after 5 increments the percent box reads "50.00 %" and the bar holds
    // 5 fill cells of the 9 reserved, the leading edge at the boundary.
    let mut pb = ProgressBar::on(MemSink::new(), 10);
    pb.set_width(Some(20));
    pb.show_speed = false;
    pb.show_counter = false;
    pb.show_time_left = false;
    for k in 0..5u64 {
        pb.add_at(1, k + 1);
    }
    let frames = captured(&pb);
    assert_eq!(frames.len(), 5);
    assert_eq!(frames[4], "\r[====>----] 50.00 % ");
}

#[test]
fn full_default_line_at_one_second() {
    // Every default box at width 80, 5 of 10 after exactly one second:
    // counter, glyph bar, percent, speed and time-left all have exact text.
    let mut pb = ProgressBar::on(MemSink::new(), 10);
    pb.set_width(Some(80));
    pb.set_at(5, 1_000_000_000);
    let expected = format!(
        "\r5 / 10 [{}>{}] 50.00 % 5.00/s 1s ",
        "=".repeat(25),
        "-".repeat(26)
    );
    assert_eq!(captured(&pb)[0], expected);
}

#[test]
fn percent_is_zero_for_zero_total() {
    let mut pb = ProgressBar::on(MemSink::new(), 0);
    pb.set_width(Some(30));
    pb.show_speed = false;
    pb.show_counter = false;
    pb.show_time_left = false;
    pb.set_at(5, 10);
    let frames = captured(&pb);
    // The ratio is unbounded, so the bar box is omitted; the percent box
    // still renders 0.00.
    assert_eq!(frames[0], format!("\r 0.00 %{}", " ".repeat(23)));
}

#[test]
fn refresh_rate_suppresses_second_increment() {
    // With a cap of 1000 ns, two increments fewer than 1000 ns apart
    // (neither completing the total) produce exactly one frame.
    let mut pb = ProgressBar::on(MemSink::new(), 10);
    pb.set_width(Some(40));
    pb.set_max_refresh_nanos(Some(1000));
    pb.add_at(1, 5000);
    pb.add_at(1, 5400);
    assert_eq!(captured(&pb).len(), 1);
    // A later increment beyond the cap draws again.
    pb.add_at(1, 6500);
    assert_eq!(captured(&pb).len(), 2);
}

#[test]
fn completing_increment_bypasses_refresh_gate() {
    let mut pb = ProgressBar::on(MemSink::new(), 2);
    pb.set_width(Some(40));
    pb.set_max_refresh_nanos(Some(1_000_000));
    pb.add_at(1, 10);
    // Within the cap, but this increment reaches the total: it must draw.
    pb.add_at(1, 20);
    assert_eq!(captured(&pb).len(), 2);
}

#[test]
fn set_max_refresh_backdates_last_refresh() {
    let mut pb = ProgressBar::on(MemSink::new(), 10);
    assert_eq!(pb.last_refresh_ns, 0);
    pb.set_max_refresh_nanos(Some(500));
    assert_eq!(pb.max_refresh_ns, Some(500));
    assert_eq!(pb.last_refresh_ns, -500);
    pb.set_max_refresh_nanos(None);
    assert_eq!(pb.max_refresh_ns, None);
    assert_eq!(pb.last_refresh_ns, -500);
}

#[test]
fn finish_when_done_emits_one_frame_and_one_sentinel() {
    let mut pb = ProgressBar::on(MemSink::new(), 3);
    pb.set_width(Some(40));
    pb.set_at(3, 100);
    assert_eq!(captured(&pb).len(), 1);
    pb.finish_at(200);
    let frames = captured(&pb);
    assert_eq!(frames.len(), 3);
    assert!(!frames[1].is_empty());
    assert_eq!(frames[2], "");
    assert!(pb.is_finish);
    // A second finish is an explicit no-op: no frame, no second sentinel.
    pb.finish_at(300);
    assert_eq!(captured(&pb).len(), 3);
    assert_eq!(captured(&pb).iter().filter(|s| s.is_empty()).count(), 1);
}

#[test]
fn finish_forces_counter_to_total() {
    let mut pb = ProgressBar::on(MemSink::new(), 10);
    pb.set_width(Some(40));
    pb.add_at(4, 50);
    pb.finish_at(60);
    assert_eq!(pb.current, 10);
    assert!(pb.is_finish);
}

#[test]
fn glyph_round_trip_empty_and_full() {
    // With a custom five-glyph format, a bar at zero shows only start,
    // remainder cells and end; at the total it shows start, all plain fill
    // cells and end (no leading edge).
    let mut pb = ProgressBar::on(MemSink::new(), 10);
    pb.set_width(Some(20));
    pb.format("(#@~)");
    pb.show_percent = false;
    pb.show_speed = false;
    pb.show_counter = false;
    pb.show_time_left = false;
    pb.set_at(0, 10);
    pb.set_at(10, 20);
    let frames = captured(&pb);
    assert_eq!(frames[0], format!("\r({})  ", "~".repeat(16)));
    assert_eq!(frames[1], format!("\r({})  ", "#".repeat(16)));
}

#[test]
fn short_format_string_is_ignored() {
    let mut pb = ProgressBar::on(MemSink::new(), 10);
    pb.format("[=>-]");
    pb.format("ab");
    assert_eq!(pb.bar_start, '[');
    assert_eq!(pb.bar_current, '=');
    assert_eq!(pb.bar_current_n, '>');
    assert_eq!(pb.bar_remain, '-');
    assert_eq!(pb.bar_end, ']');
}

#[test]
fn partial_fill_has_leading_edge_at_boundary() {
    let mut pb = ProgressBar::on(MemSink::new(), 4);
    pb.set_width(Some(20));
    pb.show_percent = false;
    pb.show_speed = false;
    pb.show_counter = false;
    pb.show_time_left = false;
    pb.set_at(1, 10);
    // 16 cells, ceil(1/4 * 16) = 4 filled: three plain fills, the edge, then
    // the remainder.
    assert_eq!(captured(&pb)[0], "\r[===>------------]  ");
}

#[test]
fn tick_advances_and_clamps() {
    let mut pb = ProgressBar::on(MemSink::new(), 100);
    pb.set_width(Some(5));
    pb.tick_format("abc");
    assert!(pb.show_tick);
    pb.show_bar = false;
    pb.show_percent = false;
    pb.show_speed = false;
    pb.show_time_left = false;
    pb.show_counter = false;
    for k in 0..4u64 {
        pb.add_at(1, k + 1);
    }
    let frames = captured(&pb);
    assert_eq!(frames[0], "\ra    ");
    assert_eq!(frames[1], "\rb    ");
    assert_eq!(frames[2], "\rc    ");
    // The tick does not wrap: it stays on the last glyph.
    assert_eq!(frames[3], "\rc    ");
}

#[test]
fn default_tick_format_does_not_enable_tick() {
    let mut pb = ProgressBar::on(MemSink::new(), 10);
    pb.tick_format("\\|/-");
    assert!(!pb.show_tick);
    pb.tick_format("");
    assert!(!pb.show_tick);
}

#[test]
fn message_line_breaks_become_spaces() {
    let mut pb = ProgressBar::on(MemSink::new(), 10);
    pb.message("loading\nstage\rtwo");
    let got: String = pb.message.iter().collect();
    assert_eq!(got, "loading stage two");
}

#[test]
fn message_appears_in_prefix() {
    let mut pb = ProgressBar::on(MemSink::new(), 10);
    pb.set_width(Some(40));
    pb.show_bar = false;
    pb.show_percent = false;
    pb.show_speed = false;
    pb.show_counter = false;
    pb.show_time_left = false;
    pb.message("copy ");
    pb.add_at(1, 10);
    assert_eq!(captured(&pb)[0], format!("\rcopy  {}", " ".repeat(34)));
}

#[test]
fn byte_units_shape_speed_and_counter() {
    let mut pb = ProgressBar::on(MemSink::new(), 1_048_576);
    pb.set_width(Some(80));
    pb.set_units(Units::Bytes);
    pb.show_time_left = false;
    pb.set_at(1536, 1_000_000_000);
    let frame = captured(&pb)[0].clone();
    assert!(frame.contains("1.50 KB / 1.00 MB "));
    assert!(frame.contains("1.50 KB/s"));
}

#[test]
fn time_left_switches_to_minutes() {
    // 1 of 1000 after one second: 999 seconds left, shown as whole minutes.
    let mut pb = ProgressBar::on(MemSink::new(), 1000);
    pb.set_width(Some(80));
    pb.show_bar = false;
    pb.show_percent = false;
    pb.show_speed = false;
    pb.show_counter = false;
    pb.show_message = false;
    pb.set_at(1, 1_000_000_000);
    assert_eq!(captured(&pb)[0], format!("\r 17m{}", " ".repeat(76)));
}

#[test]
fn width_too_small_omits_bar_without_truncation() {
    let mut pb = ProgressBar::on(MemSink::new(), 10);
    pb.set_width(Some(5));
    pb.show_speed = false;
    pb.show_counter = false;
    pb.show_time_left = false;
    pb.set_at(5, 10);
    // " 50.00 %" does not leave room for a bar; the line overflows the
    // width and is left unpadded and untruncated.
    assert_eq!(captured(&pb)[0], "\r 50.00 %");
}

#[test]
fn saturating_add_never_wraps() {
    let mut pb = ProgressBar::on(MemSink::new(), 10);
    pb.set_width(Some(40));
    pb.set_at(u64::MAX - 1, 10);
    pb.add_at(5, 20);
    assert_eq!(pb.current, u64::MAX);
}

#[test]
fn pbiter_counts_items() {
    let data = vec![10i32, 20, 30];
    let mut it = PbIter::on(MemSink::new(), data.into_iter());
    it.progress_bar.set_width(Some(40));
    assert_eq!(it.progress_bar.total, 3);
    assert_eq!(it.next(), Some(10));
    assert_eq!(it.next(), Some(20));
    assert_eq!(it.next(), Some(30));
    assert_eq!(it.next(), None);
    assert_eq!(it.progress_bar.current, 3);
}

#[test]
fn duration_rate_is_stored_in_nanos() {
    let mut pb = ProgressBar::on(MemSink::new(), 10);
    pb.set_max_refresh_rate(Some(std::time::Duration::from_nanos(500)));
    assert_eq!(pb.max_refresh_ns, Some(500));
    pb.set_max_refresh_rate(Some(std::time::Duration::from_millis(2)));
    assert_eq!(pb.max_refresh_ns, Some(2_000_000));
    pb.set_max_refresh_rate(None);
    assert_eq!(pb.max_refresh_ns, None);
}

#[test]
fn clock_driven_updates_emit_frames() {
    // The convenience methods read the real monotonic clock; with no
    // refresh cap every update draws exactly one frame.
    let mut pb = ProgressBar::on(MemSink::new(), 3);
    pb.set_width(Some(30));
    assert_eq!(pb.inc(), 1);
    assert_eq!(pb.add(1), 2);
    assert_eq!(pb.set(3), 3);
    assert_eq!(captured(&pb).len(), 3);
    pb.finish();
    assert_eq!(captured(&pb).len(), 5);
    assert_eq!(captured(&pb)[4], "");
    assert!(pb.is_finish);
}

#[test]
fn reset_start_time_moves_anchor_forward() {
    let mut pb = ProgressBar::on(MemSink::new(), 10);
    assert_eq!(pb.start_ns, 0);
    let wait = std::time::Instant::now();
    while wait.elapsed().as_nanos() < 1000 {}
    pb.reset_start_time();
    assert!(pb.start_ns > 0);
}
