use scroll_view::{
    drive, map_key, poll_step, step, AppState, Event, KeyInput, LoopAction, LoopInput,
    PollAction, PollInput, ScrollbarPosition,
};

fn received(events: &[Event]) -> Vec<LoopInput> {
    events.iter().map(|e| LoopInput::Received(*e)).collect()
}

#[test]
fn key_table() {
    assert_eq!(map_key(KeyInput::Char('q'), true), Some(Event::Exit));
    assert_eq!(map_key(KeyInput::Char('a'), true), Some(Event::Key('a')));
    assert_eq!(map_key(KeyInput::Char('Q'), true), Some(Event::Key('Q')));
    assert_eq!(map_key(KeyInput::Up, true), Some(Event::ScrollUp));
    assert_eq!(map_key(KeyInput::Down, true), Some(Event::ScrollDown));
    assert_eq!(map_key(KeyInput::Enter, true), Some(Event::LineBreak));
    assert_eq!(map_key(KeyInput::Other, true), None);
}

#[test]
fn releases_are_ignored() {
    assert_eq!(map_key(KeyInput::Char('q'), false), None);
    assert_eq!(map_key(KeyInput::Enter, false), None);
}

#[test]
fn poller_turns() {
    assert_eq!(
        poll_step(PollInput::Key(KeyInput::Char('x'), true)),
        PollAction::Forward(Event::Key('x'))
    );
    assert_eq!(poll_step(PollInput::Key(KeyInput::Char('x'), false)), PollAction::Skip);
    assert_eq!(poll_step(PollInput::Key(KeyInput::Other, true)), PollAction::Skip);
    assert_eq!(poll_step(PollInput::NotKey), PollAction::Skip);
    assert_eq!(poll_step(PollInput::Shutdown), PollAction::Stop);
    assert_eq!(poll_step(PollInput::SourceEnded), PollAction::SignalAndStop);
}

#[test]
fn seed_state() {
    let s = AppState::new();
    assert_eq!(s.text, "Hello, World!\n");
    assert_eq!(s.line_count, 1);
    assert_eq!(s.scroll_position, 0);
    assert_eq!(s.scroll_state, ScrollbarPosition { content_length: 0, position: 0 });
}

#[test]
fn typed_characters_append_in_order() {
    let mut s = AppState::new();
    let draws = drive(&mut s, &received(&[Event::Key('a'), Event::Key('q'), Event::Key('é')]));
    assert_eq!(draws, 3);
    assert_eq!(s.text, "Hello, World!\naqé");
    assert_eq!(s.line_count, 1);
}

#[test]
fn scroll_up_at_top_stays() {
    let mut s = AppState::new();
    assert_eq!(step(&mut s, LoopInput::Received(Event::ScrollUp)), LoopAction::Draw);
    assert_eq!(s.scroll_position, 0);
    assert_eq!(s.scroll_state.position, 0);
}

#[test]
fn scroll_down_at_line_count_stays() {
    let mut s = AppState::new();
    step(&mut s, LoopInput::Received(Event::ScrollDown));
    assert_eq!(s.scroll_position, 1);
    step(&mut s, LoopInput::Received(Event::ScrollDown));
    assert_eq!(s.scroll_position, 1);
    step(&mut s, LoopInput::Received(Event::ScrollUp));
    assert_eq!(s.scroll_position, 0);
}

#[test]
fn seed_then_typing_and_scrolling() {
    let mut s = AppState::new();
    let inputs = received(&[
        Event::Key('h'),
        Event::Key('i'),
        Event::LineBreak,
        Event::ScrollDown,
        Event::ScrollDown,
    ]);
    let draws = drive(&mut s, &inputs);
    assert_eq!(draws, 5);
    assert_eq!(s.text, "Hello, World!\nhi\n");
    assert_eq!(s.line_count, 2);
    assert_eq!(s.scroll_position, 2);
}

#[test]
fn exit_first_changes_nothing() {
    let mut s = AppState::new();
    let draws = drive(&mut s, &received(&[Event::Exit, Event::Key('x')]));
    assert_eq!(draws, 0);
    assert_eq!(s.text, "Hello, World!\n");
    assert_eq!(s.line_count, 1);
    assert_eq!(s.scroll_position, 0);
    assert_eq!(step(&mut s, LoopInput::Received(Event::Exit)), LoopAction::SignalAndStop);
    assert_eq!(poll_step(PollInput::Shutdown), PollAction::Stop);
}

#[test]
fn nothing_is_drawn_after_exit() {
    let mut s = AppState::new();
    let inputs = received(&[Event::Key('a'), Event::LineBreak, Event::Exit, Event::Key('b')]);
    assert_eq!(drive(&mut s, &inputs), 2);
    assert_eq!(s.text, "Hello, World!\na\n");
    assert_eq!(s.line_count, 2);
}

#[test]
fn shutdown_stops_without_drawing() {
    let mut s = AppState::new();
    let inputs = vec![LoopInput::Tick, LoopInput::QueueClosed, LoopInput::Shutdown, LoopInput::Tick];
    assert_eq!(drive(&mut s, &inputs), 2);
    assert_eq!(s.text, "Hello, World!\n");
}

#[test]
fn tick_and_closed_queue_only_redraw() {
    let mut s = AppState::new();
    assert_eq!(step(&mut s, LoopInput::Tick), LoopAction::Draw);
    assert_eq!(step(&mut s, LoopInput::QueueClosed), LoopAction::Draw);
    assert_eq!(s.text, "Hello, World!\n");
    assert_eq!(s.line_count, 1);
}

#[test]
fn frame_skips_scrolled_lines() {
    let mut s = AppState::new();
    drive(
        &mut s,
        &received(&[Event::Key('a'), Event::LineBreak, Event::Key('b'), Event::ScrollDown]),
    );
    let f = s.frame();
    assert_eq!(f.lines, vec!["a".to_string(), "b".to_string()]);
    assert_eq!(f.scrollbar, ScrollbarPosition { content_length: 2, position: 1 });
    assert_eq!(s.scroll_state.content_length, 2);
}

#[test]
fn frame_of_seed_state() {
    let mut s = AppState::new();
    let f = s.frame();
    assert_eq!(f.lines, vec!["Hello, World!".to_string()]);
    assert_eq!(f.scrollbar, ScrollbarPosition { content_length: 1, position: 0 });
}

#[test]
fn frame_drops_carriage_return_before_newline() {
    let mut s = AppState::new();
    drive(
        &mut s,
        &received(&[Event::Key('x'), Event::Key('\r'), Event::LineBreak, Event::Key('y'), Event::Key('\r')]),
    );
    let f = s.frame();
    assert_eq!(f.lines, vec!["Hello, World!".to_string(), "x".to_string(), "y\r".to_string()]);
}

#[test]
fn frame_past_the_last_line_is_empty() {
    let mut s = AppState::new();
    drive(&mut s, &received(&[Event::LineBreak, Event::ScrollDown, Event::ScrollDown]));
    assert_eq!(s.scroll_position, 2);
    assert!(s.frame().lines.is_empty());
}

#[test]
fn scrollbar_follows_scroll_position() {
    let mut s = AppState::new();
    for e in [Event::LineBreak, Event::ScrollDown, Event::ScrollDown, Event::ScrollUp] {
        step(&mut s, LoopInput::Received(e));
        s.frame();
    }
    assert_eq!(s.line_count, 2);
    assert_eq!(s.scroll_position, 1);
    assert_eq!(s.frame().scrollbar, ScrollbarPosition { content_length: 2, position: 1 });

    let mut t = AppState::new();
    step(&mut t, LoopInput::Received(Event::ScrollDown));
    assert_eq!(t.frame().scrollbar, ScrollbarPosition { content_length: 1, position: 1 });
}

#[test]
fn many_ticks_only_redraw() {
    let mut s = AppState::new();
    let inputs = vec![LoopInput::Tick; 100];
    assert_eq!(drive(&mut s, &inputs), 100);
    assert_eq!(s.text, "Hello, World!\n");
    assert_eq!(s.line_count, 1);
}

#[test]
fn bounded_queue_drops_nothing() {
    let rt = tokio::runtime::Builder::new_current_thread().enable_all().build().unwrap();
    rt.block_on(async {
        let (tx, mut rx) = tokio::sync::mpsc::channel::<Event>(16);
        let producer = tokio::spawn(async move {
            for i in 0..20u32 {
                let c = char::from_digit(i % 10, 10).unwrap();
                tx.send(Event::Key(c)).await.unwrap();
            }
        });
        let mut s = AppState::new();
        let mut seen: usize = 0;
        while let Some(e) = rx.recv().await {
            assert_eq!(step(&mut s, LoopInput::Received(e)), LoopAction::Draw);
            seen += 1;
        }
        producer.await.unwrap();
        assert_eq!(seen, 20);
        assert_eq!(s.text, "Hello, World!\n01234567890123456789");
    });
}
