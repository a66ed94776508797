use std::sync::mpsc;

use statusline::{
    Action, Aggregator, Event, MessagePasser, Phase, UpdaterConfig, WriteUpdater, XRootUpdater,
};

fn config() -> UpdaterConfig<'static> {
    UpdaterConfig { prefix: "[ ", postfix: " ]", separator: " | " }
}

fn strings(items: &[&str]) -> Vec<String> {
    items.iter().map(|s| s.to_string()).collect()
}

fn message(id: usize, value: &str) -> Event {
    Event::Message(id, value.to_string())
}

/// Feeds one round: the first message, the debounce window, the rest polled,
/// and the empty poll. Returns every action asked for.
fn round(agg: &mut Aggregator, msgs: Vec<Event>) -> Vec<Action> {
    let mut out = Vec::new();
    let mut iter = msgs.into_iter();
    out.push(agg.step(iter.next().unwrap()));
    out.push(agg.step(Event::Elapsed));
    for m in iter {
        out.push(agg.step(m));
    }
    out.push(agg.step(Event::Empty));
    out
}

fn renders(acts: &[Action]) -> usize {
    acts.iter().filter(|a| **a == Action::Render).count()
}

#[test]
fn render_joins_with_prefix_separator_postfix() {
    let line = config().render(&strings(&["a", "b", "c"]));
    assert_eq!(line, "[ a | b | c ]");
}

#[test]
fn render_keeps_empty_slot_as_empty_field() {
    let line = config().render(&strings(&["a", "", "c"]));
    assert_eq!(line, "[ a |  | c ]");
}

#[test]
fn render_of_no_slots_is_prefix_and_postfix() {
    assert_eq!(config().render(&[]), "[  ]");
}

#[test]
fn render_of_one_slot_has_no_separator() {
    assert_eq!(config().render(&strings(&["only"])), "[ only ]");
}

#[test]
fn render_with_empty_config_is_concatenation() {
    let cfg = UpdaterConfig { prefix: "", postfix: "", separator: "" };
    assert_eq!(cfg.render(&strings(&["x", "y", "z"])), "xyz");
}

#[test]
fn config_with_plain_text_is_valid() {
    assert!(config().is_valid());
}

#[test]
fn config_with_nul_in_separator_is_invalid() {
    let cfg = UpdaterConfig { prefix: "[", postfix: "]", separator: "a\0b" };
    assert!(!cfg.is_valid());
}

#[test]
fn config_with_nul_in_prefix_or_postfix_is_invalid() {
    assert!(!UpdaterConfig { prefix: "\0", postfix: "", separator: "" }.is_valid());
    assert!(!UpdaterConfig { prefix: "", postfix: "x\0", separator: "" }.is_valid());
}

#[test]
fn write_updater_line_uses_its_config() {
    let mut sink: Vec<u8> = Vec::new();
    let u = WriteUpdater::new(&mut sink, config());
    assert_eq!(u.line(&strings(&["1", "2"])), "[ 1 | 2 ]");
    assert_eq!(u.config.separator, " | ");
}

#[test]
fn xroot_updater_line_uses_its_config() {
    let cfg = UpdaterConfig { prefix: "<", postfix: ">", separator: "," };
    let u = XRootUpdater::new(cfg);
    assert_eq!(u.line(&strings(&["a", "b"])), "<a,b>");
}

#[test]
fn new_aggregator_has_empty_slots_and_waits() {
    let agg = Aggregator::new(3, 50);
    assert_eq!(agg.len(), 3);
    assert_eq!(agg.slots(), &strings(&["", "", ""])[..]);
    assert_eq!(agg.phase(), Phase::Idle);
    assert_eq!(agg.action(), Action::Wait);
}

#[test]
fn round_steps_through_sleep_poll_render() {
    let mut agg = Aggregator::new(2, 50);
    assert_eq!(agg.step(message(0, "a")), Action::Sleep(50));
    assert_eq!(agg.step(Event::Elapsed), Action::Poll);
    assert_eq!(agg.step(message(1, "b")), Action::Poll);
    assert_eq!(agg.step(Event::Empty), Action::Render);
    assert_eq!(agg.slots(), &strings(&["a", "b"])[..]);
    assert_eq!(agg.step(Event::Rendered), Action::Wait);
    assert_eq!(agg.phase(), Phase::Idle);
}

#[test]
fn debounce_window_is_configurable() {
    let mut agg = Aggregator::new(1, 7);
    assert_eq!(agg.step(message(0, "x")), Action::Sleep(7));
}

#[test]
fn latest_value_wins_across_interleaved_producers() {
    let mut agg = Aggregator::new(3, 50);
    let acts = round(
        &mut agg,
        vec![message(0, "a1"), message(2, "c1"), message(0, "a2"), message(1, "b1"), message(2, "c2")],
    );
    assert_eq!(renders(&acts), 1);
    assert_eq!(agg.slots(), &strings(&["a2", "b1", "c2"])[..]);
    agg.step(Event::Rendered);
    round(&mut agg, vec![message(1, "b2"), message(0, "a3")]);
    assert_eq!(agg.slots(), &strings(&["a3", "b2", "c2"])[..]);
}

#[test]
fn burst_from_one_producer_renders_once_with_last_value() {
    let mut agg = Aggregator::new(3, 50);
    let acts = round(&mut agg, vec![message(1, "v1"), message(1, "v2"), message(1, "v3"), message(1, "v4")]);
    assert_eq!(renders(&acts), 1);
    assert_eq!(*acts.last().unwrap(), Action::Render);
    assert_eq!(agg.slots(), &strings(&["", "v4", ""])[..]);
}

#[test]
fn burst_from_every_producer_renders_once_with_all_values() {
    let mut agg = Aggregator::new(3, 50);
    let acts = round(&mut agg, vec![message(2, "c"), message(0, "a"), message(1, "b")]);
    assert_eq!(renders(&acts), 1);
    assert_eq!(*acts.last().unwrap(), Action::Render);
    let line = config().render(agg.slots());
    assert_eq!(line, "[ a | b | c ]");
}

#[test]
fn silent_producer_stays_empty_in_every_render() {
    let mut agg = Aggregator::new(3, 50);
    round(&mut agg, vec![message(0, "a"), message(2, "c")]);
    assert_eq!(config().render(agg.slots()), "[ a |  | c ]");
    agg.step(Event::Rendered);
    round(&mut agg, vec![message(2, "c2")]);
    assert_eq!(config().render(agg.slots()), "[ a |  | c2 ]");
}

#[test]
fn closed_channel_while_waiting_exits_without_render() {
    let mut agg = Aggregator::new(2, 50);
    assert_eq!(agg.step(Event::Closed), Action::Exit);
    assert_eq!(agg.phase(), Phase::Finished);
    assert_eq!(agg.step(Event::Empty), Action::Exit);
    assert_eq!(agg.step(Event::Rendered), Action::Exit);
}

#[test]
fn closed_channel_while_draining_exits_without_render() {
    let mut agg = Aggregator::new(2, 50);
    agg.step(message(0, "a"));
    agg.step(Event::Elapsed);
    assert_eq!(agg.step(Event::Closed), Action::Exit);
    assert_eq!(agg.step(Event::Empty), Action::Exit);
}

#[test]
fn render_failure_aborts_without_another_render() {
    let mut agg = Aggregator::new(1, 50);
    round(&mut agg, vec![message(0, "a")]);
    assert_eq!(agg.step(Event::RenderFailed), Action::Abort);
    assert_eq!(agg.phase(), Phase::Failed);
    assert_eq!(agg.step(Event::Empty), Action::Abort);
    assert_eq!(agg.step(Event::Rendered), Action::Abort);
}

#[test]
fn out_of_order_events_leave_phase_alone() {
    let mut agg = Aggregator::new(1, 50);
    assert_eq!(agg.step(Event::Elapsed), Action::Wait);
    assert_eq!(agg.step(Event::Empty), Action::Wait);
    assert_eq!(agg.step(Event::Rendered), Action::Wait);
}

#[test]
fn driven_loop_renders_at_most_once_per_message_and_ends() {
    let mut agg = Aggregator::new(2, 50);
    let mut events = vec![
        message(0, "a"),
        Event::Elapsed,
        message(1, "b"),
        message(0, "a2"),
        Event::Empty,
        Event::Rendered,
        message(1, "b2"),
        Event::Elapsed,
        Event::Empty,
        Event::Rendered,
        Event::Closed,
    ]
    .into_iter();
    let mut action = agg.action();
    let (mut steps, mut renders_seen) = (0usize, 0usize);
    while action != Action::Exit {
        let event = events.next().unwrap();
        action = agg.step(event);
        steps += 1;
        if action == Action::Render {
            renders_seen += 1;
        }
    }
    assert_eq!(renders_seen, 2);
    assert_eq!(steps, 11);
    assert!(steps <= 4 * 4 + 1);
    assert!(events.next().is_none());
    assert_eq!(agg.slots(), &strings(&["a2", "b2"])[..]);
}

#[test]
fn equal_layouts_write_identical_lines() {
    let (mut buf_a, mut buf_b): (Vec<u8>, Vec<u8>) = (Vec::new(), Vec::new());
    let a = WriteUpdater::new(&mut buf_a, config());
    let b = WriteUpdater::new(&mut buf_b, config());
    let slots = strings(&["x", "", "z"]);
    assert_eq!(a.line(&slots), b.line(&slots.clone()));
    assert_eq!(a.line(&slots), "[ x |  | z ]");
}

#[test]
fn message_passer_sends_its_id_with_the_value() {
    let (tx, rx) = mpsc::channel();
    let mp = MessagePasser::new(4, tx);
    assert_eq!(mp.id(), 4);
    assert!(mp.send("hello".to_string()).is_ok());
    assert_eq!(rx.recv().unwrap(), (4, "hello".to_string()));
}

#[test]
fn message_passer_reports_a_gone_receiver() {
    let (tx, rx) = mpsc::channel();
    let mp = MessagePasser::new(0, tx);
    drop(rx);
    assert_eq!(mp.send("lost".to_string()), Err((0, "lost".to_string())));
}

#[test]
fn message_passer_builds_the_pair_it_sends() {
    let (tx, _rx) = mpsc::channel();
    let mp = MessagePasser::new(2, tx);
    assert_eq!(mp.message("v".to_string()), (2, "v".to_string()));
}
