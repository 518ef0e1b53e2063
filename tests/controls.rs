use teloren::control::{
    choose_character, handle_key, is_render_tick, next_phase, steer, words, zoom_in, zoom_of_level,
    zoom_out, ChatLine, CharacterChoice, Command, Controls, Heading, HeldAction, Key, Outgoing,
    Phase, PhaseEvent, Reaction,
};
use teloren::hud::PanelMode;
use teloren::transform::{screen_to_world, GridSize, PlanePos, WorldPos, Zoom};

fn grid80() -> GridSize {
    GridSize { width: 80, height: 25 }
}

fn origin() -> WorldPos {
    WorldPos { x: 0, y: 0, z: 0 }
}

fn text(v: &[char]) -> String {
    v.iter().collect()
}

fn press(c: &mut Controls, chat: &mut ChatLine, k: Key) -> Reaction {
    handle_key(c, chat, k, &Vec::new(), origin(), grid80())
}

#[test]
fn zoom_levels_are_powers_of_one_and_a_half() {
    assert_eq!(zoom_of_level(0), Zoom { num: 1, den: 1 });
    assert_eq!(zoom_of_level(2), Zoom { num: 9, den: 4 });
    assert_eq!(zoom_of_level(-3), Zoom { num: 8, den: 27 });
    assert_eq!(zoom_of_level(12), Zoom { num: 531441, den: 4096 });
    assert_eq!(zoom_in(0), -1);
    assert_eq!(zoom_in(-12), -12);
    assert_eq!(zoom_out(0), 1);
    assert_eq!(zoom_out(12), 12);
}

#[test]
fn zoom_keys_change_level() {
    let mut c = Controls::new();
    let mut chat = ChatLine::new();
    press(&mut c, &mut chat, Key::Char('+'));
    press(&mut c, &mut chat, Key::Char('+'));
    assert_eq!(c.zoom_level, -2);
    press(&mut c, &mut chat, Key::Char('-'));
    assert_eq!(c.zoom(), Zoom { num: 2, den: 3 });
}

#[test]
fn render_every_sixth_tick() {
    assert!(is_render_tick(0));
    assert!(!is_render_tick(5));
    assert!(is_render_tick(6));
    assert!(!is_render_tick(13));
}

#[test]
fn press_on_viewer_clears_target() {
    let mut c = Controls::new();
    let mut chat = ChatLine::new();
    press(&mut c, &mut chat, Key::Press { x: 40, y: 12 });
    let t = c.target;
    assert_eq!(t, Some(screen_to_world(40, 12, origin(), Zoom::unit(), grid80())));
    let keys = c.key_heading();
    let (left, heading) = steer(t, PlanePos { x: 0, y: 0 }, keys);
    assert_eq!(left, None);
    assert_eq!(heading, Heading::Keys { x: 0, y: 0 });
}

#[test]
fn far_target_gives_heading() {
    let t = Some(PlanePos { x: 1000, y: -256 });
    let (left, heading) = steer(t, PlanePos { x: 0, y: 0 }, Heading::Keys { x: 1, y: 0 });
    assert_eq!(left, t);
    assert_eq!(heading, Heading::Toward { dx: 1000, dy: -256 });
    let (gone, _) = steer(Some(PlanePos { x: 255, y: 0 }), PlanePos { x: 0, y: 0 }, Heading::Keys { x: 0, y: 0 });
    assert_eq!(gone, None);
    let (kept, _) = steer(Some(PlanePos { x: 256, y: 0 }), PlanePos { x: 0, y: 0 }, Heading::Keys { x: 0, y: 0 });
    assert!(kept.is_some());
}

#[test]
fn movement_keys_stay_in_unit_range() {
    let mut c = Controls::new();
    let mut chat = ChatLine::new();
    for _ in 0..3 {
        press(&mut c, &mut chat, Key::Char('w'));
    }
    press(&mut c, &mut chat, Key::Char('a'));
    assert_eq!(c.key_heading(), Heading::Keys { x: -1, y: 1 });
    c.begin_tick();
    assert_eq!(c.key_heading(), Heading::Keys { x: 0, y: 0 });
}

#[test]
fn held_actions_toggle() {
    let mut c = Controls::new();
    let mut chat = ChatLine::new();
    match press(&mut c, &mut chat, Key::Char(' ')) {
        Reaction::Client(cmd) => assert_eq!(cmd, Command::Hold(HeldAction::Jump, true)),
        _ => panic!("expected a client command"),
    }
    match press(&mut c, &mut chat, Key::Char(' ')) {
        Reaction::Client(cmd) => assert_eq!(cmd, Command::Hold(HeldAction::Jump, false)),
        _ => panic!("expected a client command"),
    }
    match press(&mut c, &mut chat, Key::Char('q')) {
        Reaction::Client(cmd) => assert_eq!(cmd, Command::Quit),
        _ => panic!("expected a client command"),
    }
    press(&mut c, &mut chat, Key::Char('t'));
    assert_eq!(c.panel, PanelMode::Inventory);
}

#[test]
fn chat_typing_sends_message_and_command() {
    let mut c = Controls::new();
    let mut chat = ChatLine::new();
    press(&mut c, &mut chat, Key::Char('\n'));
    assert!(chat.enabled);
    for ch in "hix".chars() {
        press(&mut c, &mut chat, Key::Char(ch));
    }
    press(&mut c, &mut chat, Key::Char('\x08'));
    assert_eq!(c, Controls::new());
    match press(&mut c, &mut chat, Key::Char('\n')) {
        Reaction::Send(Outgoing::Message(m)) => assert_eq!(text(&m), "hi"),
        _ => panic!("expected a message"),
    }
    assert!(!chat.enabled);
    press(&mut c, &mut chat, Key::Char('\n'));
    for ch in "/tp  ann\tbob ".chars() {
        press(&mut c, &mut chat, Key::Char(ch));
    }
    match press(&mut c, &mut chat, Key::Char('\n')) {
        Reaction::Send(Outgoing::Command(w)) => {
            let w: Vec<String> = w.iter().map(|x| text(x)).collect();
            assert_eq!(w, vec!["/tp", "ann", "bob"]);
        }
        _ => panic!("expected a command"),
    }
    press(&mut c, &mut chat, Key::Char('\n'));
    assert!(matches!(press(&mut c, &mut chat, Key::Char('\n')), Reaction::Quiet));
    assert!(!chat.enabled);
}

#[test]
fn words_split_on_white_space() {
    let w = words(&"  a\u{3000}bc \n d ".chars().collect());
    assert_eq!(w.iter().map(|x| text(x)).collect::<Vec<_>>(), vec!["a", "bc", "d"]);
    assert!(words(&"   ".chars().collect()).is_empty());
}

#[test]
fn inventory_keys_select_and_swap() {
    let slots = vec![Some("a".to_string()), None, Some("b".to_string())];
    let mut c = Controls::new();
    let mut chat = ChatLine::new();
    handle_key(&mut c, &mut chat, Key::Down, &slots, origin(), grid80());
    assert_eq!(c.selected, 2);
    handle_key(&mut c, &mut chat, Key::Right, &slots, origin(), grid80());
    handle_key(&mut c, &mut chat, Key::Up, &slots, origin(), grid80());
    assert_eq!(c.selected, 0);
    handle_key(&mut c, &mut chat, Key::Right, &slots, origin(), grid80());
    assert_eq!(c.take_slot_actions(), (None, None));
    handle_key(&mut c, &mut chat, Key::Left, &slots, origin(), grid80());
    assert_eq!(c.take_slot_actions(), (Some((2, 0)), Some(0)));
    assert_eq!(c.marks.count, 0);
    assert_eq!(c.take_slot_actions(), (None, None));
}

#[test]
fn phases_follow_events() {
    assert_eq!(next_phase(Phase::AwaitingCharacter, PhaseEvent::Tick), Phase::AwaitingCharacter);
    assert_eq!(next_phase(Phase::AwaitingCharacter, PhaseEvent::QuitRequested), Phase::AwaitingCharacter);
    assert_eq!(next_phase(Phase::AwaitingCharacter, PhaseEvent::CharacterConfirmed), Phase::Active);
    assert_eq!(next_phase(Phase::Active, PhaseEvent::Tick), Phase::Active);
    assert_eq!(next_phase(Phase::Active, PhaseEvent::QuitRequested), Phase::Terminating);
}

#[test]
fn character_choice() {
    let wanted = "bob".to_string();
    assert_eq!(choose_character(&Vec::new(), &wanted), CharacterChoice::KeepWaiting);
    let names = vec!["ann".to_string(), "bob".to_string(), "bob".to_string()];
    assert_eq!(choose_character(&names, &wanted), CharacterChoice::Request(1));
    assert_eq!(choose_character(&names, &"eve".to_string()), CharacterChoice::NotFound);
}
