use empty_status::aggregator::{
    check_unique_handles, i3bar_order, make_chunk, Aggregator, PROTOCOL_HEADER,
};
use empty_status::machine::actor::{display_name, ActorSched};
use empty_status::machine::types::{Health, Render};
use empty_status::protocol::{chunk_to_json, clean_click_line, process_chunk, OutputChunk};
use empty_status::machine::types::UnitDecision;
use empty_status::render::markup::Markup;

#[test]
fn protocol_header_is_fixed() {
    assert_eq!(PROTOCOL_HEADER, "{\"version\":1,\"click_events\":true}\n[");
}

#[test]
fn chunk_json_layout_and_escaping() {
    let c = OutputChunk::new("Time::1", "a\"b\\c".to_owned());
    let json = chunk_to_json(&c);
    assert_eq!(
        json,
        "{\"full_text\":\"a\\\"b\\\\c\",\"name\":\"Time::1\",\"markup\":\"pango\",\
         \"border\":\"#373B41\",\"separator\":\"false\",\"separator_block_width\":0}"
    );
    // The emitted object is well-formed JSON with the protocol's fields.
    let v: serde_json::Value = serde_json::from_str(&json).unwrap();
    assert_eq!(v["full_text"], "a\"b\\c");
    assert_eq!(v["name"], "Time::1");
    assert_eq!(v["markup"], "pango");
    assert_eq!(v["separator_block_width"], 0);
}

#[test]
fn chunk_json_escapes_control_characters() {
    let c = OutputChunk::new("u", "a\nb\tc\u{1}".to_owned());
    let json = chunk_to_json(&c);
    let v: serde_json::Value = serde_json::from_str(&json).unwrap();
    assert_eq!(v["full_text"], "a\nb\tc\u{1}");
}

#[test]
fn chunk_json_includes_optional_colors() {
    let mut c = OutputChunk::new("u", "t".to_owned());
    c.background = Some("#111111".to_owned());
    c.color = Some("#222222".to_owned());
    let json = chunk_to_json(&c);
    let v: serde_json::Value = serde_json::from_str(&json).unwrap();
    assert_eq!(v["background"], "#111111");
    assert_eq!(v["color"], "#222222");
}

#[test]
fn process_chunk_pads_both_sides() {
    let c = process_chunk("u", "txt".to_owned(), 2);
    assert_eq!(c.full_text, "  txt  ");
    let none = process_chunk("u", "txt".to_owned(), -3);
    assert_eq!(none.full_text, "txt");
}

#[test]
fn make_chunk_encodes_health_in_border() {
    let good = make_chunk("u", 1, &Render::ok(Markup::text("x".to_owned())));
    assert_eq!(good.border, "#373B41");
    assert_eq!(good.full_text, " x ");
    let degraded = make_chunk("u", 0, &Render {
        body: Markup::text("x".to_owned()),
        health: Health::Degraded,
    });
    assert_eq!(degraded.border, "#F0C674");
    let bad = make_chunk("u", 0, &Render::error(Markup::text("x".to_owned())));
    assert_eq!(bad.border, "#CC6666");
}

#[test]
fn display_order_is_reverse_of_configuration() {
    assert_eq!(i3bar_order(&vec![0, 1, 2]), vec![2, 1, 0]);
    assert_eq!(i3bar_order(&vec![]), Vec::<u64>::new());
}

#[test]
fn clean_click_line_strips_framing() {
    assert_eq!(clean_click_line("  ,{\"name\":\"a\"},  ").unwrap(), "{\"name\":\"a\"}");
    assert_eq!(clean_click_line("{\"name\":\"a\"}").unwrap(), "{\"name\":\"a\"}");
    assert_eq!(clean_click_line(",,{\"x\":1},,").unwrap(), "{\"x\":1}");
    assert!(clean_click_line("   ").is_none());
    assert!(clean_click_line("").is_none());
}

#[test]
fn duplicate_handles_are_rejected() {
    assert!(check_unique_handles(&vec![0, 1, 2]).is_ok());
    assert!(check_unique_handles(&vec![]).is_ok());
    assert_eq!(check_unique_handles(&vec![0, 1, 0]), Err(0));
    assert_eq!(check_unique_handles(&vec![3, 3]), Err(3));
}

#[test]
fn aggregator_keeps_latest_per_unit() {
    let handles = vec![0u64, 1u64];
    let initial = vec![
        OutputChunk::new("A::0", "a0".to_owned()),
        OutputChunk::new("B::1", "b0".to_owned()),
    ];
    let mut agg = Aggregator::new(&handles, initial);
    // Display order is reversed: the first configured unit is rightmost.
    let line = agg.emit_line();
    assert!(line.starts_with('['));
    assert!(line.ends_with("],\n"));
    let body: serde_json::Value = serde_json::from_str(line.trim_end_matches(",\n")).unwrap();
    assert_eq!(body[0]["name"], "B::1");
    assert_eq!(body[1]["name"], "A::0");

    assert!(agg.update(1, OutputChunk::new("B::1", "b1".to_owned())));
    let line2 = agg.emit_line();
    let body2: serde_json::Value = serde_json::from_str(line2.trim_end_matches(",\n")).unwrap();
    assert_eq!(body2[0]["full_text"], "b1");
    assert_eq!(body2[1]["full_text"], "a0");
    // An unknown handle changes nothing.
    assert!(!agg.update(9, OutputChunk::new("X::9", "x".to_owned())));
    assert_eq!(agg.emit_line(), line2);
}

#[test]
fn end_to_end_two_units_scenario() {
    // Two units: handle 0 polls every 1.0s, handle 1 every 0.5s; the global
    // floor is 0.25s and the padding one space.
    let padding = 1;
    let name0 = display_name("Cpu", 0);
    let name1 = display_name("Time", 1);
    let mut sched0 = ActorSched::new(1000, 250, 0);
    let mut sched1 = ActorSched::new(500, 250, 0);

    // Startup: an initial line is emitted at once from the loading renders,
    // so the host never observes an empty bar.
    let loading0 = empty_status::machine::actor::render_availability(
        "Cpu",
        empty_status::machine::types::Availability::Loading,
    );
    let loading1 = empty_status::machine::actor::render_availability(
        "Time",
        empty_status::machine::types::Availability::Loading,
    );
    let initial = vec![
        make_chunk(&name0, padding, &loading0),
        make_chunk(&name1, padding, &loading1),
    ];
    let mut agg = Aggregator::new(&vec![0, 1], initial);
    let first_line = agg.emit_line();
    assert!(first_line.contains("cpu loading"));
    assert!(first_line.contains("time loading"));

    // Both units' first polls are due immediately.
    assert!(sched0.poll_due(0));
    assert!(sched1.poll_due(0));

    // Unit 1's first poll succeeds: its entry updates on the next tick.
    sched1.begin_poll();
    let render1 = empty_status::machine::actor::render_availability(
        "Time",
        empty_status::machine::types::Availability::Ready(Markup::text("12:00".to_owned())),
    );
    let _ = sched1.finish_poll(0, UnitDecision::Idle);
    assert_eq!(sched1.next_poll_at, 500);
    agg.update(1, make_chunk(&name1, padding, &render1));
    let line = agg.emit_line();
    assert!(line.contains("12:00"));
    assert!(line.contains("cpu loading"));

    // A click addressed to unit 1's display name toggles its mode and
    // forces its next poll to now rather than the 0.5s cadence.
    let click_name = "Time::1";
    assert_eq!(click_name, name1);
    let mut time_unit = empty_status::units::time::Time::from_cfg(
        empty_status::units::time::TimeConfig { format: "%H:%M".to_owned() },
    );
    assert!(!time_unit.doing_uptime);
    let delivered = sched1.on_click(make_click(click_name));
    let c = delivered.expect("no poll in flight: the click applies at once");
    assert_eq!(c.name, name1);
    time_unit.handle_click();
    assert!(time_unit.doing_uptime);
    sched1.apply_decision(100, UnitDecision::PollNow);
    assert_eq!(sched1.next_poll_at, 100);
    assert!(sched1.poll_due(100));
}

fn make_click(name: &str) -> empty_status::protocol::ClickEvent {
    empty_status::protocol::ClickEvent {
        name: name.to_owned(),
        instance: None,
        button: 1,
        modifiers: vec![],
        x: 0,
        y: 0,
        relative_x: 0,
        relative_y: 0,
        width: 1,
        height: 1,
    }
}
