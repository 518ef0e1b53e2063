//! The decisions of the control loop: what each key does, where the player
//! is steered, when a frame is drawn, and the session's phases.
use vstd::prelude::*;
use crate::hud::{PanelMode, spec_next_occupied, spec_prev_occupied, next_occupied, prev_occupied, toggle_panel};
use crate::transform::{
    axis_to_offset, screen_to_world, GridSize, PlanePos, WorldPos, Zoom, SUBDIV,
};

verus! {

/// The zoom level farthest from one in either direction.
pub const ZOOM_LEVEL_MAX: i32 = 12;

/// A frame is drawn once every this many ticks.
pub const RENDER_EVERY: u64 = 6;

pub open spec fn pow(b: nat, e: nat) -> nat
    decreases e,
{
    if e == 0 {
        1
    } else {
        b * pow(b, (e - 1) as nat)
    }
}

/// The zoom factor of a level: `1.5` to the power of the level.
pub open spec fn spec_zoom_of_level(level: int) -> Zoom {
    if level >= 0 {
        Zoom { num: pow(3, level as nat) as u32, den: pow(2, level as nat) as u32 }
    } else {
        Zoom { num: pow(2, (-level) as nat) as u32, den: pow(3, (-level) as nat) as u32 }
    }
}

proof fn lemma_pow_bounds(e: nat)
    requires
        e <= 12,
    ensures
        1 <= pow(2, e) <= pow(3, e) <= 531441,
    decreases e,
{
    if e > 0 {
        lemma_pow_bounds((e - 1) as nat);
    }
    lemma_pow_mono(3, e, 12);
    assert(pow(3, 12) == 531441) by {
        reveal_with_fuel(pow, 13);
    }
}

proof fn lemma_pow_mono(b: nat, e1: nat, e2: nat)
    requires
        b >= 1,
        e1 <= e2,
    ensures
        pow(b, e1) <= pow(b, e2),
    decreases e2,
{
    if e1 < e2 {
        lemma_pow_mono(b, e1, (e2 - 1) as nat);
        assert(pow(b, (e2 - 1) as nat) >= 1) by {
            lemma_pow_mono(b, 0, (e2 - 1) as nat);
        }
        assert(b * pow(b, (e2 - 1) as nat) >= pow(b, (e2 - 1) as nat)) by (nonlinear_arith)
            requires b >= 1, pow(b, (e2 - 1) as nat) >= 1;
    }
}

fn pow_u32(b: u32, e: u32) -> (r: u32)
    requires
        b == 2 || b == 3,
        e <= 12,
    ensures
        r == pow(b as nat, e as nat),
{
    let mut r: u32 = 1;
    let mut i: u32 = 0;
    while i < e
        invariant
            i <= e,
            e <= 12,
            b == 2 || b == 3,
            r == pow(b as nat, i as nat),
        decreases e - i,
    {
        proof {
            lemma_pow_bounds((i + 1) as nat);
        }
        r = r * b;
        i = i + 1;
    }
    r
}

/// The zoom factor of `level`.
pub fn zoom_of_level(level: i32) -> (r: Zoom)
    requires
        -ZOOM_LEVEL_MAX <= level <= ZOOM_LEVEL_MAX,
    ensures
        r == spec_zoom_of_level(level as int),
        r.wf(),
{
    if level >= 0 {
        proof {
            lemma_pow_bounds(level as nat);
        }
        Zoom { num: pow_u32(3, level as u32), den: pow_u32(2, level as u32) }
    } else {
        proof {
            lemma_pow_bounds((-level) as nat);
        }
        Zoom { num: pow_u32(2, (-level) as u32), den: pow_u32(3, (-level) as u32) }
    }
}

/// Zooming in divides the zoom factor by `1.5`, down to the smallest level.
pub fn zoom_in(level: i32) -> (r: i32)
    requires
        -ZOOM_LEVEL_MAX <= level <= ZOOM_LEVEL_MAX,
    ensures
        r == if level > -ZOOM_LEVEL_MAX { level - 1 } else { level as int },
{
    if level > -ZOOM_LEVEL_MAX {
        level - 1
    } else {
        level
    }
}

/// Zooming out multiplies the zoom factor by `1.5`, up to the largest level.
pub fn zoom_out(level: i32) -> (r: i32)
    requires
        -ZOOM_LEVEL_MAX <= level <= ZOOM_LEVEL_MAX,
    ensures
        r == if level < ZOOM_LEVEL_MAX { level + 1 } else { level as int },
{
    if level < ZOOM_LEVEL_MAX {
        level + 1
    } else {
        level
    }
}

/// Whether tick number `tick` ends with a frame drawn.
pub fn is_render_tick(tick: u64) -> (r: bool)
    ensures
        r == (tick % RENDER_EVERY == 0),
{
    tick % RENDER_EVERY == 0
}

/// Where the player is heading this tick.
#[derive(Clone, Copy, Debug, PartialEq, Eq, Structural)]
pub enum Heading {
    /// The sum of the movement keys pressed, each component in `-1..=1`.
    Keys { x: i8, y: i8 },
    /// Toward a target: the offset to it, in sub-units, to be normalised.
    Toward { dx: i64, dy: i64 },
}

/// Steering toward a target. A target closer than one block is reached: it
/// is dropped and the heading from the keys stays. Else the heading points
/// at the target.
pub open spec fn spec_steer(target: Option<PlanePos>, player: PlanePos, keys: Heading) -> (Option<PlanePos>, Heading) {
    match target {
        None => (None, keys),
        Some(t) => {
            let dx = t.x - player.x;
            let dy = t.y - player.y;
            if dx * dx + dy * dy < SUBDIV * SUBDIV {
                (None, keys)
            } else {
                (Some(t), Heading::Toward { dx: dx as i64, dy: dy as i64 })
            }
        },
    }
}

/// Bound, in sub-units, on how far a target may lie from the player.
pub open spec fn near_enough(t: PlanePos, p: PlanePos) -> bool {
    -0x1_0000_0000_0000 <= t.x - p.x <= 0x1_0000_0000_0000 && -0x1_0000_0000_0000 <= t.y - p.y
        <= 0x1_0000_0000_0000
}

/// Whether a target lies close enough to the player to steer toward it.
pub fn target_in_reach(t: PlanePos, p: PlanePos) -> (r: bool)
    ensures
        r == near_enough(t, p),
{
    let lim: i128 = 0x1_0000_0000_0000;
    let dx = t.x as i128 - p.x as i128;
    let dy = t.y as i128 - p.y as i128;
    -lim <= dx && dx <= lim && -lim <= dy && dy <= lim
}

pub fn steer(target: Option<PlanePos>, player: PlanePos, keys: Heading) -> (r: (Option<PlanePos>, Heading))
    requires
        target matches Some(t) ==> near_enough(t, player),
    ensures
        r == spec_steer(target, player, keys),
{
    match target {
        None => (None, keys),
        Some(t) => {
            let dx = t.x - player.x;
            let dy = t.y - player.y;
            assert(0 <= dx * dx <= 0x1_0000_0000_0000_0000_0000_0000) by (nonlinear_arith)
                requires -0x1_0000_0000_0000 <= dx <= 0x1_0000_0000_0000;
            assert(0 <= dy * dy <= 0x1_0000_0000_0000_0000_0000_0000) by (nonlinear_arith)
                requires -0x1_0000_0000_0000 <= dy <= 0x1_0000_0000_0000;
            let d2: i128 = (dx as i128) * (dx as i128) + (dy as i128) * (dy as i128);
            if d2 < (SUBDIV * SUBDIV) as i128 {
                (None, keys)
            } else {
                (Some(t), Heading::Toward { dx, dy })
            }
        },
    }
}


/// A key or pointer event, as the control loop sees it.
#[derive(Clone, Copy, Debug, PartialEq, Eq, Structural)]
pub enum Key {
    Char(char),
    Up,
    Down,
    Left,
    Right,
    /// A pointer press on grid cell `(x, y)`, counted from zero.
    Press { x: u16, y: u16 },
    Other,
}

/// An action that the player can hold.
#[derive(Clone, Copy, Debug, PartialEq, Eq, Structural)]
pub enum HeldAction {
    Jump,
    Primary,
    Secondary,
}

/// What a key asks of the game client.
#[derive(Clone, Copy, Debug, PartialEq, Eq, Structural)]
pub enum Command {
    Nothing,
    AcceptInvite,
    DeclineInvite,
    /// Start (`true`) or stop (`false`) holding an action.
    Hold(HeldAction, bool),
    ToggleGlide,
    Respawn,
    Quit,
}

/// The slots marked for a swap and for use: the first and second marks,
/// how many marks were made, and the slot to use.
#[derive(Clone, Copy, Debug, PartialEq, Eq, Structural)]
pub struct SlotMarks {
    pub first: Option<usize>,
    pub second: Option<usize>,
    pub count: u8,
    pub use_slot: Option<usize>,
    pub use_item: bool,
}

/// The player's controls between ticks.
#[derive(Clone, Copy, Debug, PartialEq, Eq, Structural)]
pub struct Controls {
    pub panel: PanelMode,
    pub selected: usize,
    pub jump: bool,
    pub primary: bool,
    pub secondary: bool,
    pub glide: bool,
    pub zoom_level: i32,
    pub target: Option<PlanePos>,
    pub move_x: i8,
    pub move_y: i8,
    pub marks: SlotMarks,
}

impl Controls {
    pub open spec fn wf(self) -> bool {
        &&& -ZOOM_LEVEL_MAX <= self.zoom_level <= ZOOM_LEVEL_MAX
        &&& -1 <= self.move_x <= 1
        &&& -1 <= self.move_y <= 1
        &&& self.marks.count <= 2
    }

    /// The controls at the start of a session.
    pub fn new() -> (r: Controls)
        ensures
            r.wf(),
            r.panel == PanelMode::Controls,
            r.selected == 0,
            !r.jump && !r.primary && !r.secondary && !r.glide,
            r.zoom_level == 0,
            r.target is None,
            r.move_x == 0 && r.move_y == 0,
            r.marks == (SlotMarks { first: None, second: None, count: 0, use_slot: None, use_item: false }),
    {
        Controls {
            panel: PanelMode::Controls,
            selected: 0,
            jump: false,
            primary: false,
            secondary: false,
            glide: false,
            zoom_level: 0,
            target: None,
            move_x: 0,
            move_y: 0,
            marks: SlotMarks { first: None, second: None, count: 0, use_slot: None, use_item: false },
        }
    }

    /// The zoom factor of the current level.
    pub fn zoom(&self) -> (r: Zoom)
        requires
            self.wf(),
        ensures
            r == spec_zoom_of_level(self.zoom_level as int),
            r.wf(),
    {
        zoom_of_level(self.zoom_level)
    }

    /// Forgets the movement keys of the last tick.
    pub fn begin_tick(&mut self)
        requires
            old(self).wf(),
        ensures
            final(self).wf(),
            *final(self) == (Controls { move_x: 0, move_y: 0, ..*old(self) }),
    {
        self.move_x = 0;
        self.move_y = 0;
    }

    /// The heading from the movement keys of this tick.
    pub fn key_heading(&self) -> (r: Heading)
        ensures
            r == (Heading::Keys { x: self.move_x, y: self.move_y }),
    {
        Heading::Keys { x: self.move_x, y: self.move_y }
    }
}

pub open spec fn step_up(v: i8) -> i8 {
    if v < 1 {
        (v + 1) as i8
    } else {
        v
    }
}

pub open spec fn step_down(v: i8) -> i8 {
    if v > -1 {
        (v - 1) as i8
    } else {
        v
    }
}

pub open spec fn spec_mark(m: SlotMarks, selected: usize) -> SlotMarks {
    if m.count == 0 {
        SlotMarks { first: Some(selected), count: 1, ..m }
    } else if m.count == 1 {
        SlotMarks { second: Some(selected), count: 2, ..m }
    } else {
        m
    }
}

/// What a key does to the controls, outside chat typing, and what it asks of
/// the client. A pointer press sets the target to the world point under
/// the pressed cell.
pub open spec fn spec_apply_key(
    c: Controls,
    key: Key,
    slots: Seq<Option<String>>,
    viewer: WorldPos,
    grid: GridSize,
) -> (Controls, Command) {
    match key {
        Key::Char(ch) => {
            if ch == 'w' {
                (Controls { move_y: step_up(c.move_y), ..c }, Command::Nothing)
            } else if ch == 's' {
                (Controls { move_y: step_down(c.move_y), ..c }, Command::Nothing)
            } else if ch == 'd' {
                (Controls { move_x: step_up(c.move_x), ..c }, Command::Nothing)
            } else if ch == 'a' {
                (Controls { move_x: step_down(c.move_x), ..c }, Command::Nothing)
            } else if ch == 'u' {
                (c, Command::AcceptInvite)
            } else if ch == 'i' {
                (c, Command::DeclineInvite)
            } else if ch == 't' {
                (Controls { panel: match c.panel {
                    PanelMode::Controls => PanelMode::Inventory,
                    PanelMode::Inventory => PanelMode::Controls,
                }, ..c }, Command::Nothing)
            } else if ch == ' ' {
                (Controls { jump: !c.jump, ..c }, Command::Hold(HeldAction::Jump, !c.jump))
            } else if ch == 'x' {
                (Controls { primary: !c.primary, ..c }, Command::Hold(HeldAction::Primary, !c.primary))
            } else if ch == 'z' {
                (Controls { secondary: !c.secondary, ..c }, Command::Hold(HeldAction::Secondary, !c.secondary))
            } else if ch == 'g' {
                (Controls { glide: !c.glide, ..c }, Command::ToggleGlide)
            } else if ch == 'r' {
                (c, Command::Respawn)
            } else if ch == '+' {
                (Controls {
                    zoom_level: if c.zoom_level > -ZOOM_LEVEL_MAX { (c.zoom_level - 1) as i32 } else { c.zoom_level },
                    ..c
                }, Command::Nothing)
            } else if ch == '-' {
                (Controls {
                    zoom_level: if c.zoom_level < ZOOM_LEVEL_MAX { (c.zoom_level + 1) as i32 } else { c.zoom_level },
                    ..c
                }, Command::Nothing)
            } else if ch == 'q' {
                (c, Command::Quit)
            } else {
                (c, Command::Nothing)
            }
        },
        Key::Down => (Controls { selected: spec_next_occupied(slots, c.selected as int) as usize, ..c }, Command::Nothing),
        Key::Up => (Controls { selected: spec_prev_occupied(slots, c.selected as int) as usize, ..c }, Command::Nothing),
        Key::Right => (Controls { marks: spec_mark(c.marks, c.selected), ..c }, Command::Nothing),
        Key::Left => (Controls {
            marks: SlotMarks { use_slot: Some(c.selected), use_item: true, ..c.marks },
            ..c
        }, Command::Nothing),
        Key::Press { x, y } => {
            let z = spec_zoom_of_level(c.zoom_level as int);
            (Controls {
                target: Some(PlanePos {
                    x: (viewer.x + axis_to_offset(x as int, z, grid.width as int, false)) as i64,
                    y: (viewer.y + axis_to_offset(y as int, z, grid.height as int, true)) as i64,
                }),
                ..c
            }, Command::Nothing)
        },
        Key::Other => (c, Command::Nothing),
    }
}

impl Controls {
    /// Applies a key that is not typed into the chat line.
    pub fn apply_key(&mut self, key: Key, slots: &Vec<Option<String>>, viewer: WorldPos, grid: GridSize) -> (r: Command)
        requires
            old(self).wf(),
        ensures
            final(self).wf(),
            (*final(self), r) == spec_apply_key(*old(self), key, slots@, viewer, grid),
    {
        match key {
            Key::Char(ch) => {
                if ch == 'w' {
                    if self.move_y < 1 {
                        self.move_y = self.move_y + 1;
                    }
                    Command::Nothing
                } else if ch == 's' {
                    if self.move_y > -1 {
                        self.move_y = self.move_y - 1;
                    }
                    Command::Nothing
                } else if ch == 'd' {
                    if self.move_x < 1 {
                        self.move_x = self.move_x + 1;
                    }
                    Command::Nothing
                } else if ch == 'a' {
                    if self.move_x > -1 {
                        self.move_x = self.move_x - 1;
                    }
                    Command::Nothing
                } else if ch == 'u' {
                    Command::AcceptInvite
                } else if ch == 'i' {
                    Command::DeclineInvite
                } else if ch == 't' {
                    self.panel = toggle_panel(self.panel);
                    Command::Nothing
                } else if ch == ' ' {
                    self.jump = !self.jump;
                    Command::Hold(HeldAction::Jump, self.jump)
                } else if ch == 'x' {
                    self.primary = !self.primary;
                    Command::Hold(HeldAction::Primary, self.primary)
                } else if ch == 'z' {
                    self.secondary = !self.secondary;
                    Command::Hold(HeldAction::Secondary, self.secondary)
                } else if ch == 'g' {
                    self.glide = !self.glide;
                    Command::ToggleGlide
                } else if ch == 'r' {
                    Command::Respawn
                } else if ch == '+' {
                    self.zoom_level = zoom_in(self.zoom_level);
                    Command::Nothing
                } else if ch == '-' {
                    self.zoom_level = zoom_out(self.zoom_level);
                    Command::Nothing
                } else if ch == 'q' {
                    Command::Quit
                } else {
                    Command::Nothing
                }
            },
            Key::Down => {
                self.selected = next_occupied(slots, self.selected);
                Command::Nothing
            },
            Key::Up => {
                self.selected = prev_occupied(slots, self.selected);
                Command::Nothing
            },
            Key::Right => {
                if self.marks.count == 0 {
                    self.marks.first = Some(self.selected);
                    self.marks.count = 1;
                } else if self.marks.count == 1 {
                    self.marks.second = Some(self.selected);
                    self.marks.count = 2;
                }
                Command::Nothing
            },
            Key::Left => {
                self.marks.use_slot = Some(self.selected);
                self.marks.use_item = true;
                Command::Nothing
            },
            Key::Press { x, y } => {
                let z = zoom_of_level(self.zoom_level);
                self.target = Some(screen_to_world(x, y, viewer, z, grid));
                Command::Nothing
            },
            Key::Other => Command::Nothing,
        }
    }

    /// After a tick: once two slots are marked and a slot to use is set, the
    /// two marked slots are swapped and the marks start over; the slot to
    /// use is then used if use was asked for. Returns the swap and the use.
    pub fn take_slot_actions(&mut self) -> (r: (Option<(usize, usize)>, Option<usize>))
        requires
            old(self).wf(),
        ensures
            final(self).wf(),
            ({
                let m = old(self).marks;
                if m.first is Some && m.second is Some && m.use_slot is Some {
                    &&& r.0 == Some((m.first->Some_0, m.second->Some_0))
                    &&& r.1 == (if m.use_item { m.use_slot } else { None })
                    &&& *final(self) == (Controls {
                        marks: SlotMarks { first: None, second: None, count: 0, ..m },
                        ..*old(self)
                    })
                } else {
                    &&& r == (None::<(usize, usize)>, None::<usize>)
                    &&& *final(self) == *old(self)
                }
            }),
    {
        match (self.marks.first, self.marks.second, self.marks.use_slot) {
            (Some(a), Some(b), Some(u)) => {
                self.marks.first = None;
                self.marks.second = None;
                self.marks.count = 0;
                let used = if self.marks.use_item { Some(u) } else { None };
                (Some((a, b)), used)
            },
            _ => (None, None),
        }
    }
}


/// The characters with Unicode's `White_Space` property.
pub open spec fn is_white_space(c: char) -> bool {
    ||| '\t' <= c <= '\r'
    ||| c == ' '
    ||| c == '\u{85}'
    ||| c == '\u{a0}'
    ||| c == '\u{1680}'
    ||| '\u{2000}' <= c <= '\u{200a}'
    ||| c == '\u{2028}'
    ||| c == '\u{2029}'
    ||| c == '\u{202f}'
    ||| c == '\u{205f}'
    ||| c == '\u{3000}'
}

/// Relies on `char::is_whitespace`: true exactly for the characters with
/// the `White_Space` property.
#[verifier::external_body]
fn is_whitespace(c: char) -> (r: bool)
    ensures
        r == is_white_space(c),
{
    c.is_whitespace()
}

/// The words of the first `n` characters of `s`, split at white space: the
/// words completed so far and the word being read.
pub open spec fn spec_split(s: Seq<char>, n: int) -> (Seq<Seq<char>>, Seq<char>)
    decreases n,
{
    if n <= 0 || n > s.len() {
        (Seq::empty(), Seq::empty())
    } else {
        let (done, cur) = spec_split(s, n - 1);
        if is_white_space(s[n - 1]) {
            if cur.len() > 0 {
                (done.push(cur), Seq::empty())
            } else {
                (done, cur)
            }
        } else {
            (done, cur.push(s[n - 1]))
        }
    }
}

/// The words of `s`: its longest runs without white space, in order.
pub open spec fn spec_words(s: Seq<char>) -> Seq<Seq<char>> {
    let (done, cur) = spec_split(s, s.len() as int);
    if cur.len() > 0 {
        done.push(cur)
    } else {
        done
    }
}

pub open spec fn words_view(w: Seq<Vec<char>>) -> Seq<Seq<char>> {
    w.map_values(|v: Vec<char>| v@)
}

pub fn words(s: &Vec<char>) -> (r: Vec<Vec<char>>)
    ensures
        words_view(r@) == spec_words(s@),
{
    let mut done: Vec<Vec<char>> = Vec::new();
    let mut cur: Vec<char> = Vec::new();
    let mut i: usize = 0;
    while i < s.len()
        invariant
            i <= s.len(),
            (words_view(done@), cur@) == spec_split(s@, i as int),
        decreases s.len() - i,
    {
        let c = s[i];
        if is_whitespace(c) {
            if cur.len() > 0 {
                let mut w: Vec<char> = Vec::new();
                std::mem::swap(&mut w, &mut cur);
                let ghost before = done@;
                done.push(w);
                assert(words_view(done@) =~= words_view(before).push(w@));
            }
        } else {
            cur.push(c);
        }
        i = i + 1;
    }
    if cur.len() > 0 {
        let ghost before = done@;
        done.push(cur);
        assert(words_view(done@) =~= spec_words(s@));
    }
    done
}

/// What a finished chat line sends.
pub enum Outgoing {
    /// A chat message.
    Message(Vec<char>),
    /// A command: the line's words, the first naming the command.
    Command(Vec<Vec<char>>),
}

/// The chat input line: whether typing goes to it, and what has been typed.
pub struct ChatLine {
    pub enabled: bool,
    pub text: Vec<char>,
}

impl ChatLine {
    pub fn new() -> (r: ChatLine)
        ensures
            !r.enabled,
            r.text@ == Seq::<char>::empty(),
    {
        ChatLine { enabled: false, text: Vec::new() }
    }

    /// Types `c` into the line, as `spec_type_char` says.
    pub fn type_char(&mut self, c: char) -> (r: Option<Outgoing>)
        ensures
            (final(self).enabled, final(self).text@, sent_view(r)) == spec_type_char(
                old(self).enabled,
                old(self).text@,
                c,
            ),
    {
        if c == '\n' {
            self.enabled = false;
            if self.text.len() == 0 {
                None
            } else {
                let mut t: Vec<char> = Vec::new();
                std::mem::swap(&mut t, &mut self.text);
                if t[0] == '/' {
                    Some(Outgoing::Command(words(&t)))
                } else {
                    Some(Outgoing::Message(t))
                }
            }
        } else if c == '\x08' {
            if self.text.len() > 0 {
                self.text.pop();
            }
            None
        } else {
            self.text.push(c);
            None
        }
    }
}

/// What a finished chat line sends, as sequences.
pub enum SentView {
    Message(Seq<char>),
    Command(Seq<Seq<char>>),
}

pub open spec fn sent_view(o: Option<Outgoing>) -> Option<SentView> {
    match o {
        Some(Outgoing::Message(m)) => Some(SentView::Message(m@)),
        Some(Outgoing::Command(w)) => Some(SentView::Command(words_view(w@))),
        None => None,
    }
}

/// Typing `c` into a chat line that is open or not (`enabled`) and holds
/// `text`: whether it stays open, what it then holds, and what is sent. A
/// newline ends the line: a line that starts with `/` is sent as a command
/// split into words, any other non-empty line as a message, and typing goes
/// back to the controls. A backspace removes the last character. Any other
/// character is added.
pub open spec fn spec_type_char(enabled: bool, text: Seq<char>, c: char) -> (bool, Seq<char>, Option<SentView>) {
    if c == '\n' {
        if text.len() == 0 {
            (false, text, None)
        } else if text[0] == '/' {
            (false, Seq::empty(), Some(SentView::Command(spec_words(text))))
        } else {
            (false, Seq::empty(), Some(SentView::Message(text)))
        }
    } else if c == '\x08' {
        (enabled, if text.len() > 0 { text.drop_last() } else { text }, None)
    } else {
        (enabled, text.push(c), None)
    }
}

/// What a key leads to.
pub enum Reaction {
    /// A request to the game client.
    Client(Command),
    /// A finished chat line to send.
    Send(Outgoing),
    /// Nothing beyond a change of state.
    Quiet,
}

/// Handles one key: while the chat line is open, characters are typed into
/// it; else a newline opens it, and every other key goes to the controls.
pub fn handle_key(
    controls: &mut Controls,
    chat: &mut ChatLine,
    key: Key,
    slots: &Vec<Option<String>>,
    viewer: WorldPos,
    grid: GridSize,
) -> (r: Reaction)
    requires
        old(controls).wf(),
    ensures
        final(controls).wf(),
        match key {
            Key::Char(c) if old(chat).enabled => {
                let (open, text, sent) = spec_type_char(true, old(chat).text@, c);
                &&& *final(controls) == *old(controls)
                &&& final(chat).enabled == open
                &&& final(chat).text@ == text
                &&& match r {
                    Reaction::Send(o) => sent == sent_view(Some(o)),
                    Reaction::Quiet => sent is None,
                    Reaction::Client(_) => false,
                }
            },
            Key::Char('\n') => *final(controls) == *old(controls) && final(chat).enabled
                && final(chat).text@ == old(chat).text@ && r is Quiet,
            _ => final(chat).enabled == old(chat).enabled && final(chat).text@ == old(chat).text@
                && (r matches Reaction::Client(cmd) && (*final(controls), cmd) == spec_apply_key(
                *old(controls),
                key,
                slots@,
                viewer,
                grid,
            )),
        },
{
    match key {
        Key::Char(c) if chat.enabled => match chat.type_char(c) {
            Some(o) => Reaction::Send(o),
            None => Reaction::Quiet,
        },
        Key::Char('\n') => {
            chat.enabled = true;
            Reaction::Quiet
        },
        _ => Reaction::Client(controls.apply_key(key, slots, viewer, grid)),
    }
}


/// The phases of a session.
#[derive(Clone, Copy, Debug, PartialEq, Eq, Structural)]
pub enum Phase {
    /// Ticking with no input until the chosen character is confirmed.
    AwaitingCharacter,
    /// Playing: reading keys, ticking, drawing.
    Active,
    /// Giving the terminal back and leaving.
    Terminating,
}

/// What moves a session from one phase to the next.
#[derive(Clone, Copy, Debug, PartialEq, Eq, Structural)]
pub enum PhaseEvent {
    CharacterConfirmed,
    QuitRequested,
    Tick,
}

pub open spec fn spec_next_phase(p: Phase, e: PhaseEvent) -> Phase {
    match (p, e) {
        (Phase::AwaitingCharacter, PhaseEvent::CharacterConfirmed) => Phase::Active,
        (Phase::Active, PhaseEvent::QuitRequested) => Phase::Terminating,
        _ => p,
    }
}

pub fn next_phase(p: Phase, e: PhaseEvent) -> (r: Phase)
    ensures
        r == spec_next_phase(p, e),
{
    match (p, e) {
        (Phase::AwaitingCharacter, PhaseEvent::CharacterConfirmed) => Phase::Active,
        (Phase::Active, PhaseEvent::QuitRequested) => Phase::Terminating,
        _ => p,
    }
}

/// What to do with the list of characters while waiting for one.
#[derive(Clone, Copy, Debug, PartialEq, Eq, Structural)]
pub enum CharacterChoice {
    /// The list has not arrived yet.
    KeepWaiting,
    /// Ask for the character at this place of the list.
    Request(usize),
    /// The list holds no character of that name.
    NotFound,
}

/// Picks the first character named `wanted` once the list has arrived.
pub fn choose_character(names: &Vec<String>, wanted: &String) -> (r: CharacterChoice)
    ensures
        names.len() == 0 ==> r == CharacterChoice::KeepWaiting,
        names.len() > 0 ==> match r {
            CharacterChoice::Request(i) => i < names.len() && names@[i as int]@ == wanted@
                && forall|j: int| 0 <= j < i ==> (#[trigger] names@[j])@ != wanted@,
            CharacterChoice::NotFound => forall|j: int| 0 <= j < names.len() ==> (#[trigger] names@[j])@ != wanted@,
            CharacterChoice::KeepWaiting => false,
        },
{
    if names.len() == 0 {
        return CharacterChoice::KeepWaiting;
    }
    let mut i: usize = 0;
    while i < names.len()
        invariant
            i <= names.len(),
            forall|j: int| 0 <= j < i ==> (#[trigger] names@[j])@ != wanted@,
        decreases names.len() - i,
    {
        if names[i] == *wanted {
            return CharacterChoice::Request(i);
        }
        i = i + 1;
    }
    CharacterChoice::NotFound
}

} // verus!
