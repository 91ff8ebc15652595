use pbr::{CoordState, MemSink, MultiBar, WriteMsg};

fn done_msg() -> WriteMsg {
    WriteMsg { done: true, level: 0, string: String::new() }
}

fn content_msg(level: usize, text: &str) -> WriteMsg {
    WriteMsg { done: false, level, string: String::from(text) }
}

#[test]
fn done_sentinel_decrements_and_freezes_lines() {
    let mut cs = CoordState::new();
    cs.nbars = 2;
    let redraw = cs.apply(&content_msg(1, "one"));
    assert!(redraw);
    assert_eq!(cs.nlines, 2);
    let redraw = cs.apply(&done_msg());
    assert!(!redraw);
    assert_eq!(cs.nbars, 1);
    assert_eq!(cs.nlines, 2);
    let line: String = cs.lines[1].iter().collect();
    assert_eq!(line, "one");
}

#[test]
fn listen_stays_live_until_every_done_arrives() {
    // Three live bars: after two done sentinels, in whatever interleaving,
    // the live-bar count is still positive; the third brings it to zero.
    let mut cs = CoordState::new();
    cs.nbars = 3;
    cs.apply(&done_msg());
    cs.apply(&content_msg(0, "x"));
    cs.apply(&done_msg());
    assert!(cs.nbars > 0);
    cs.apply(&done_msg());
    assert_eq!(cs.nbars, 0);
}

#[test]
fn extra_done_sentinels_do_not_underflow() {
    let mut cs = CoordState::new();
    cs.nbars = 1;
    cs.apply(&done_msg());
    cs.apply(&done_msg());
    assert_eq!(cs.nbars, 0);
}

#[test]
fn content_update_extends_line_table() {
    let mut cs = CoordState::new();
    cs.apply(&content_msg(2, "third"));
    assert_eq!(cs.nlines, 3);
    let l0: String = cs.lines[0].iter().collect();
    let l2: String = cs.lines[2].iter().collect();
    assert_eq!(l0, "");
    assert_eq!(l2, "third");
}

#[test]
fn println_reserves_levels_in_order() {
    let mut mb = MultiBar::on(MemSink::new());
    mb.println("header");
    mb.println("separator");
    assert_eq!(mb.state.nlines, 2);
    assert_eq!(mb.state.nbars, 0);
    let l0: String = mb.state.lines[0].iter().collect();
    assert_eq!(l0, "header");
}

#[test]
fn create_bar_allocates_next_level() {
    let mut mb = MultiBar::on(MemSink::new());
    mb.println("head");
    let p1 = mb.create_bar(10);
    let p2 = mb.create_bar(20);
    assert_eq!(p1.handle.level, 1);
    assert_eq!(p2.handle.level, 2);
    assert!(p1.is_multibar);
    assert_eq!(p1.total, 10);
    assert_eq!(mb.state.nbars, 2);
    assert_eq!(mb.state.nlines, 3);
}

#[test]
fn reverse_finish_order_still_drains_all_bars() {
    // Bars at levels 1, 2 and 3, finished in reverse order: listen keeps
    // processing until all three sentinels arrived, and the final frame
    // shows every line at its total.
    let mut mb = MultiBar::on(MemSink::new());
    mb.println("head");
    let mut p1 = mb.create_bar(3);
    let mut p2 = mb.create_bar(4);
    let mut p3 = mb.create_bar(5);
    for b in [&mut p1, &mut p2, &mut p3] {
        b.set_width(Some(40));
        b.show_speed = false;
        b.show_time_left = false;
    }
    p3.finish_at(100);
    p2.finish_at(200);
    p1.finish_at(300);
    mb.listen();
    assert_eq!(mb.state.nbars, 0);
    let frames = &mb.handle.lines;
    // One redraw per content update; sentinels draw nothing.
    assert_eq!(frames.len(), 3);
    let last = frames.last().unwrap();
    assert!(last.contains("head"));
    assert!(last.contains("3 / 3 "));
    assert!(last.contains("4 / 4 "));
    assert!(last.contains("5 / 5 "));
    assert!(last.contains("100.00 %"));
}

#[test]
fn listen_returns_at_once_with_no_bars() {
    let mut mb = MultiBar::on(MemSink::new());
    mb.println("only text");
    mb.listen();
    assert_eq!(mb.handle.lines.len(), 0);
}

#[test]
fn frames_reposition_with_cursor_up_after_first() {
    let mut mb = MultiBar::on(MemSink::new());
    let mut p1 = mb.create_bar(2);
    p1.set_width(Some(20));
    p1.add_at(1, 10);
    p1.finish_at(20);
    mb.listen();
    let frames = &mb.handle.lines;
    assert_eq!(frames.len(), 2);
    // The first frame has nothing above it to reposition past.
    assert!(frames[0].starts_with("\r"));
    assert!(frames[0].ends_with("\n"));
    // Later frames move the cursor up over the managed region first.
    assert!(frames[1].starts_with("\u{1b}[1A"));
}

#[test]
fn pipe_forwards_done_sentinel_for_empty_payload() {
    let mut mb = MultiBar::on(MemSink::new());
    let mut p1 = mb.create_bar(1);
    p1.set_width(Some(20));
    p1.finish_at(10);
    // The finish above queued one content frame and one sentinel: listen
    // drains both, draws once, and terminates.
    mb.listen();
    assert_eq!(mb.state.nbars, 0);
    assert_eq!(mb.handle.lines.len(), 1);
}

#[test]
fn interleaved_updates_keep_levels_stable() {
    // Updates from two bars interleave in arrival order, each message
    // redraws only its own level, and the last frame shows both totals.
    let mut mb = MultiBar::on(MemSink::new());
    let mut p1 = mb.create_bar(2);
    let mut p2 = mb.create_bar(2);
    for b in [&mut p1, &mut p2] {
        b.set_width(Some(30));
        b.show_speed = false;
        b.show_time_left = false;
    }
    p1.add_at(1, 10);
    p2.add_at(1, 15);
    p1.add_at(1, 20);
    p1.finish_at(25);
    p2.add_at(1, 30);
    p2.finish_at(35);
    mb.listen();
    assert_eq!(mb.state.nbars, 0);
    let frames = &mb.handle.lines;
    // Six content updates (two increments and one finish frame per bar).
    assert_eq!(frames.len(), 6);
    let last = frames.last().unwrap();
    assert_eq!(last.matches("2 / 2 ").count(), 2);
    assert_eq!(last.matches("100.00 %").count(), 2);
    // Both managed lines are present, each led into by the in-place
    // carriage-return convention and ended by a newline.
    assert_eq!(last.matches('\n').count(), 2);
}

#[test]
fn write_msg_make_tags_and_flags() {
    let m = WriteMsg::make(4, "line");
    assert!(!m.done);
    assert_eq!(m.level, 4);
    assert_eq!(m.string, "line");
    let s = WriteMsg::make(7, "");
    assert!(s.done);
    assert_eq!(s.level, 7);
    assert_eq!(s.string, "");
}
