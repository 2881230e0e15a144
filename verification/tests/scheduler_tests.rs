use empty_status::machine::actor::{
    display_name, format_unit_error, render_availability, render_poll_error, render_poll_failure,
    ActorSched, POLL_TIMEOUT_MS,
};
use empty_status::machine::types::{Availability, Health, PollError, TransportError, UnitDecision};
use empty_status::protocol::ClickEvent;
use empty_status::render::markup::Markup;
use empty_status::render::pango::to_pango;

fn click(name: &str, button: i32) -> ClickEvent {
    ClickEvent {
        name: name.to_owned(),
        instance: None,
        button,
        modifiers: vec![],
        x: 0,
        y: 0,
        relative_x: 0,
        relative_y: 0,
        width: 10,
        height: 10,
    }
}

#[test]
fn clicks_coalesce_during_poll() {
    let mut sched = ActorSched::new(500, 250, 0);
    sched.begin_poll();
    // Two clicks arrive while the poll is in flight: neither is applied at
    // once, and only the most recent is kept.
    assert!(sched.on_click(click("Time::1", 1)).is_none());
    assert!(sched.on_click(click("Time::1", 3)).is_none());
    let flushed = sched.finish_poll(100, UnitDecision::Idle);
    let applied = flushed.expect("the buffered click is applied after the poll");
    assert_eq!(applied.button, 3);
    // The buffer is now empty: the click is applied exactly once.
    assert!(sched.pending_click.is_none());
}

#[test]
fn click_applies_immediately_when_no_poll_in_flight() {
    let mut sched = ActorSched::new(500, 250, 0);
    let delivered = sched.on_click(click("Cpu::0", 1));
    assert_eq!(delivered.unwrap().button, 1);
    assert!(sched.pending_click.is_none());
}

#[test]
fn backoff_is_floored_by_the_global_minimum() {
    let sched = ActorSched::new(100, 250, 7);
    assert_eq!(sched.backoff_ms, 250);
    assert_eq!(sched.next_poll_at, 7);
    let sched2 = ActorSched::new(1000, 250, 7);
    assert_eq!(sched2.backoff_ms, 1000);
}

#[test]
fn poll_now_wins_over_backoff() {
    let mut sched = ActorSched::new(500, 250, 0);
    sched.begin_poll();
    let _ = sched.finish_poll(100, UnitDecision::PollNow);
    assert_eq!(sched.next_poll_at, 100);
    sched.begin_poll();
    let _ = sched.finish_poll(200, UnitDecision::Idle);
    assert_eq!(sched.next_poll_at, 700);
}

#[test]
fn poll_tick_pulls_deadline_to_now() {
    let mut sched = ActorSched::new(500, 250, 0);
    sched.apply_decision(0, UnitDecision::Idle);
    assert_eq!(sched.next_poll_at, 0);
    let mut sched2 = ActorSched::new(500, 250, 0);
    sched2.begin_poll();
    let _ = sched2.finish_poll(0, UnitDecision::Idle);
    assert_eq!(sched2.next_poll_at, 500);
    sched2.on_poll_tick(300);
    assert_eq!(sched2.next_poll_at, 300);
    assert!(sched2.poll_due(300));
}

#[test]
fn timeout_isolation_between_units() {
    // Unit A's poll never returns; unit B keeps publishing fresh renders.
    let mut stuck = ActorSched::new(500, 250, 0);
    let mut healthy = ActorSched::new(250, 250, 0);
    assert!(stuck.poll_due(0));
    stuck.begin_poll();

    let mut renders = Vec::new();
    let mut now = 0u64;
    while now < 2000 {
        if healthy.poll_due(now) {
            healthy.begin_poll();
            let body = Markup::text(format!("tick {now}"));
            let render = render_availability("Cpu", Availability::Ready(body));
            let _ = healthy.finish_poll(now, UnitDecision::Idle);
            renders.push(render);
        }
        now += 250;
    }
    // The stalled unit never blocked the healthy one.
    assert!(renders.len() >= 8);
    assert_eq!(renders.last().unwrap().health, Health::Good);

    // After the fixed timeout elapses, the stalled unit renders a timeout
    // error on its own schedule.
    let now = POLL_TIMEOUT_MS;
    let _ = stuck.finish_poll(now, UnitDecision::Idle);
    let render = render_availability(
        "Weather",
        Availability::Failed(PollError::Transport(TransportError::Timeout)),
    );
    assert_eq!(render.health, Health::Error);
    assert_eq!(to_pango(&render.body), "<span color='#CC6666'>weather: timeout</span>");
}

#[test]
fn render_availability_loading_and_ready() {
    let loading: Availability<Markup, PollError<Markup>> = Availability::loading();
    let r = render_availability("Time", loading);
    assert_eq!(r.health, Health::Degraded);
    assert_eq!(to_pango(&r.body), "<span color='#B294BB'>time loading</span>");

    let ready = render_availability("Time", Availability::Ready(Markup::text("12:00".to_owned())));
    assert_eq!(ready.health, Health::Good);
    assert_eq!(to_pango(&ready.body), "12:00");
}

#[test]
fn render_poll_error_variants() {
    let t = render_poll_error("Net", PollError::Transport(TransportError::Timeout));
    assert_eq!(t.health, Health::Error);
    assert_eq!(to_pango(&t.body), "<span color='#CC6666'>net: timeout</span>");

    let m = render_poll_error(
        "Net",
        PollError::Transport(TransportError::Transport("refused".to_owned())),
    );
    assert_eq!(to_pango(&m.body), "<span color='#CC6666'>net: refused</span>");

    let h = render_poll_error("Net", PollError::Transport(TransportError::Http { status: 503 }));
    assert_eq!(to_pango(&h.body), "<span color='#CC6666'>net: HTTP 503</span>");

    let u = render_poll_error("Net", PollError::Unit(Markup::text("bad json".to_owned())));
    assert_eq!(u.health, Health::Error);
    // The name prefix and the unit's formatted message are separate text
    // runs under one error style.
    assert_eq!(
        to_pango(&u.body),
        "<span color='#CC6666'>net: </span><span color='#CC6666'>bad json</span>"
    );
}

#[test]
fn unit_error_formatter_collapses_rate_limit_messages() {
    let m = format_unit_error("server said HTTP 429 too many requests");
    assert_eq!(to_pango(&m), "HTTP 429");
    let long = "x".repeat(200);
    let t = format_unit_error(&long);
    assert_eq!(to_pango(&t), "x".repeat(80));
    let short = format_unit_error("oops");
    assert_eq!(to_pango(&short), "oops");
}

#[test]
fn poll_failures_render_and_back_off() {
    let (render, decision) = render_poll_failure(
        "Weather",
        PollError::Transport(TransportError::Timeout),
    );
    assert_eq!(decision, UnitDecision::Idle);
    assert_eq!(render.health, Health::Error);
    assert_eq!(to_pango(&render.body), "<span color='#CC6666'>weather: timeout</span>");

    let (unit_render, d2) = render_poll_failure(
        "Weather",
        PollError::Unit("got HTTP 429 from the api".to_owned()),
    );
    assert_eq!(d2, UnitDecision::Idle);
    assert_eq!(
        to_pango(&unit_render.body),
        "<span color='#CC6666'>weather: </span><span color='#CC6666'>HTTP 429</span>"
    );
}

#[test]
fn display_names_are_kind_and_handle() {
    assert_eq!(display_name("Time", 1), "Time::1");
    assert_eq!(display_name("Weather", 12), "Weather::12");
}
