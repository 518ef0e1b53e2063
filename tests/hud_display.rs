use teloren::display::Display;
use teloren::glyph::Rgb;
use teloren::hud::{
    chat_entry, chat_text, chat_window, compose_hud, controls_line, log_chat, next_occupied,
    prev_occupied, ChatKind, HudFrame, HudStatus, Invite, PanelMode, Resource, TextLine,
};
use teloren::screen::{Cell, Grid, Ink};
use teloren::transform::GridSize;

fn s(t: &str) -> String {
    t.to_string()
}

fn text(v: &[char]) -> String {
    v.iter().collect()
}

fn status() -> HudStatus {
    HudStatus {
        jump: false,
        primary: true,
        secondary: false,
        glide: false,
        health: Resource { current: 87, maximum: 100 },
        energy: Resource { current: 0, maximum: 250 },
    }
}

#[test]
fn chat_window_shows_last_ten_newest_first() {
    let log: Vec<String> = (1..=12).map(|i| format!("message {}", i)).collect();
    let w = chat_window(&log);
    assert_eq!(w.len(), 10);
    for (i, line) in w.iter().enumerate() {
        assert_eq!(text(line), format!("message {}", 12 - i));
    }
    assert!(!w.iter().any(|l| text(l) == "message 1" || text(l) == "message 2"));
}

#[test]
fn chat_window_with_few_messages() {
    let log = vec![s("a"), s("b"), s("c")];
    let w = chat_window(&log);
    assert_eq!(w.iter().map(|l| text(l)).collect::<Vec<_>>(), vec![s("c"), s("b"), s("a")]);
    assert!(chat_window(&Vec::new()).is_empty());
}

#[test]
fn chat_lines_are_cut_to_width() {
    let long: String = std::iter::repeat('x').take(60).collect();
    assert_eq!(chat_text(&long).len(), 48);
    let wide: String = std::iter::repeat('\u{e9}').take(50).collect();
    assert_eq!(text(&chat_text(&wide)), std::iter::repeat('\u{e9}').take(48).collect::<String>());
    assert_eq!(text(&chat_text(&s("short"))), "short");
}

#[test]
fn chat_entries_by_kind() {
    assert_eq!(chat_entry(ChatKind::World, "hi"), Some(s("hi")));
    assert_eq!(chat_entry(ChatKind::Group, "hi"), Some(s("[Group] hi")));
    assert_eq!(chat_entry(ChatKind::Other, "hi"), None);
    let mut log = Vec::new();
    log_chat(&mut log, ChatKind::Group, "x");
    log_chat(&mut log, ChatKind::Other, "y");
    log_chat(&mut log, ChatKind::World, "z");
    assert_eq!(log, vec![s("[Group] x"), s("z")]);
}

#[test]
fn controls_legend_lines() {
    let st = status();
    assert_eq!(text(&controls_line(&st, 0)), "/------- Controls ------\\");
    assert_eq!(text(&controls_line(&st, 2)), "| SPACE - Jump INACTIVE |");
    assert_eq!(text(&controls_line(&st, 3)), "|  x - Attack1 ACTIVE   |");
    assert_eq!(text(&controls_line(&st, 11)), "|Current Health - 87/100 |");
    assert_eq!(text(&controls_line(&st, 12)), "|Current Energy - 0/250 |");
    for k in 0..15u16 {
        if k != 11 && k != 12 {
            assert_eq!(controls_line(&st, k).len(), 25);
        }
    }
}

#[test]
fn selection_moves_between_occupied_slots() {
    let slots = vec![None, Some(s("sword")), None, None, Some(s("apple")), None];
    assert_eq!(next_occupied(&slots, 0), 1);
    assert_eq!(next_occupied(&slots, 1), 4);
    assert_eq!(next_occupied(&slots, 4), 4);
    assert_eq!(prev_occupied(&slots, 4), 1);
    assert_eq!(prev_occupied(&slots, 1), 1);
    assert_eq!(prev_occupied(&slots, 9), 4);
    assert_eq!(next_occupied(&Vec::new(), 3), 3);
}

fn find<'a>(lines: &'a [TextLine], x: u16, y: u16) -> Vec<String> {
    lines.iter().filter(|l| l.x == x && l.y == y).map(|l| text(&l.text)).collect()
}

#[test]
fn hud_layout_in_controls_mode() {
    let frame = HudFrame { mode: PanelMode::Controls, status: status(), slots: vec![], selected: 0, invite: None };
    let log = vec![s("one"), s("two")];
    let input: Vec<char> = "hel".chars().collect();
    let lines = compose_hud(25, &frame, &log, &input);
    assert_eq!(find(&lines, 0, 25), vec![" ".repeat(30), s("/------- Controls ------\\")]);
    assert_eq!(find(&lines, 0, 40), vec![s("... T - Toggle Inv ... ")]);
    assert_eq!(find(&lines, 0, 41), vec![" ".repeat(98)]);
    assert_eq!(find(&lines, 30, 26), vec![" ".repeat(64), s("two")]);
    assert_eq!(find(&lines, 30, 27), vec![" ".repeat(64), s("one")]);
    assert_eq!(find(&lines, 24, 37), vec![" ".repeat(64), s("> hel")]);
    assert_eq!(lines.len(), 15 + 15 + 2 + 4 + 2);
}

#[test]
fn hud_layout_in_inventory_mode_with_invite() {
    let frame = HudFrame {
        mode: PanelMode::Inventory,
        status: status(),
        slots: vec![Some(s("sword")), None, Some(s("apple"))],
        selected: 2,
        invite: Some(Invite { kind: s("Group"), from: s("ann") }),
    };
    let lines = compose_hud(25, &frame, &Vec::new(), &Vec::new());
    assert_eq!(find(&lines, 0, 26), vec![" ".repeat(30), s("Item: sword        ")]);
    assert_eq!(find(&lines, 0, 27), vec![" ".repeat(30)]);
    assert_eq!(find(&lines, 0, 28), vec![" ".repeat(30), s("Item: apple<--")]);
    assert_eq!(find(&lines, 0, 41), vec![s("Group Invite from ann. Accept[U]/Decline[I]")]);
}

#[test]
fn display_starts_by_clearing_and_hiding_cursor() {
    let mut d = Display::new(GridSize { width: 2, height: 2 });
    assert_eq!(text(&d.flush()), "\x1b[2J\x1b[?25l");
    assert!(d.flush().is_empty());
}

#[test]
fn display_moves_cursor_one_based() {
    let mut d = Display::new(GridSize { width: 80, height: 25 });
    d.flush();
    d.at(0, 0);
    d.write_str("hi");
    d.at(29, 124);
    assert_eq!(text(&d.flush()), "\x1b[1;1Hhi\x1b[125;30H");
}

#[test]
fn display_clear_fills_every_row() {
    let mut d = Display::new(GridSize { width: 3, height: 2 });
    d.flush();
    d.clear_with('.');
    assert_eq!(text(&d.flush()), "\x1b[1;1H...\x1b[2;1H...");
}

#[test]
fn display_draws_grid_with_colours() {
    let mut grid = Grid::new(GridSize { width: 2, height: 1 });
    grid.put(0, 0, Cell { glyph: '#', ink: Ink::True(Rgb { r: 10, g: 200, b: 3 }) });
    grid.put(1, 0, Cell { glyph: '@', ink: Ink::White });
    let mut d = Display::new(GridSize { width: 2, height: 1 });
    d.flush();
    d.draw_grid(&grid);
    assert_eq!(text(&d.flush()), "\x1b[1;1H\x1b[38;2;10;200;3m#\x1b[38;5;7m@");
}

#[test]
fn display_draws_blank_grid_in_sky_colour() {
    let grid = Grid::new(GridSize { width: 1, height: 2 });
    let mut d = Display::new(GridSize { width: 1, height: 2 });
    d.flush();
    d.draw_grid(&grid);
    assert_eq!(text(&d.flush()), "\x1b[1;1H\x1b[38;2;0;255;255m \x1b[2;1H\x1b[38;2;0;255;255m ");
}

#[test]
fn display_draws_lines_and_closes() {
    let mut d = Display::new(GridSize { width: 2, height: 1 });
    d.flush();
    let lines = vec![TextLine { x: 3, y: 4, text: "ab".chars().collect() }, TextLine { x: 65535, y: 0, text: vec!['z'] }];
    d.draw_lines(&lines);
    d.close();
    assert_eq!(text(&d.flush()), "\x1b[5;4Hab\x1b[2J\x1b[?25h");
}
