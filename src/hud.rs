//! The heads-up display: the panel below the view, the chat window and the
//! input line, as lines of text at fixed places.
use vstd::prelude::*;
use crate::display::{dec, push_all, push_str, repeat, spec_digits};

verus! {

/// How many chat lines show at once.
pub const CHAT_LINES: usize = 10;

/// How many characters of a chat line show.
pub const CHAT_WIDTH: usize = 48;

/// A line of text to draw with its first character at column `x`, row `y`.
pub struct TextLine {
    pub x: u16,
    pub y: u16,
    pub text: Vec<char>,
}

/// The first `CHAT_WIDTH` characters of a message.
pub open spec fn spec_chat_text(m: Seq<char>) -> Seq<char> {
    if m.len() > CHAT_WIDTH {
        m.subrange(0, CHAT_WIDTH as int)
    } else {
        m
    }
}

pub open spec fn min_nat(a: nat, b: nat) -> nat {
    if a < b {
        a
    } else {
        b
    }
}

/// The chat window of a log: the last `CHAT_LINES` messages (or all, when
/// fewer), newest first, each cut to `CHAT_WIDTH` characters.
pub open spec fn spec_chat_window(log: Seq<Seq<char>>) -> Seq<Seq<char>> {
    Seq::new(
        min_nat(CHAT_LINES as nat, log.len()),
        |i: int| spec_chat_text(log[log.len() - 1 - i]),
    )
}

/// Copies the characters of `s`.
pub fn chars_of(s: &str) -> (r: Vec<char>)
    ensures
        r@ == s@,
{
    let mut r: Vec<char> = Vec::new();
    push_str(&mut r, s);
    r
}

/// The text of `m` that the chat window shows.
pub fn chat_text(m: &String) -> (r: Vec<char>)
    ensures
        r@ == spec_chat_text(m@),
{
    let s = m.as_str();
    let n = s.unicode_len();
    if n > CHAT_WIDTH {
        chars_of(s.substring_char(0, CHAT_WIDTH))
    } else {
        chars_of(s)
    }
}

/// The lines the chat window shows, newest first.
pub fn chat_window(log: &Vec<String>) -> (r: Vec<Vec<char>>)
    ensures
        r@.map_values(|l: Vec<char>| l@) == spec_chat_window(log@.map_values(|m: String| m@)),
{
    let n = log.len();
    let k: usize = if n < CHAT_LINES { n } else { CHAT_LINES };
    let ghost want = spec_chat_window(log@.map_values(|m: String| m@));
    let mut r: Vec<Vec<char>> = Vec::new();
    let mut i: usize = 0;
    while i < k
        invariant
            i <= k,
            k <= n,
            n == log.len(),
            k == min_nat(CHAT_LINES as nat, n as nat),
            want == spec_chat_window(log@.map_values(|m: String| m@)),
            r@.len() == i,
            forall|j: int| 0 <= j < i ==> (#[trigger] r@[j])@ == want[j],
        decreases k - i,
    {
        let line = chat_text(&log[n - 1 - i]);
        r.push(line);
        i = i + 1;
    }
    assert(r@.map_values(|l: Vec<char>| l@) =~= want);
    r
}

/// Where a chat message comes from.
#[derive(Clone, Copy, Debug, PartialEq, Eq, Structural)]
pub enum ChatKind {
    World,
    Group,
    Other,
}

pub open spec fn spec_group_prefix() -> Seq<char> {
    "[Group] "@
}

/// The log line a chat message becomes: a world message as it is, a group
/// message marked as such; other messages are not logged.
pub open spec fn spec_chat_entry(kind: ChatKind, message: Seq<char>) -> Option<Seq<char>> {
    match kind {
        ChatKind::World => Some(message),
        ChatKind::Group => Some(spec_group_prefix() + message),
        ChatKind::Other => None,
    }
}

pub fn chat_entry(kind: ChatKind, message: &str) -> (r: Option<String>)
    ensures
        r matches Some(s) ==> spec_chat_entry(kind, message@) == Some(s@),
        r is None ==> spec_chat_entry(kind, message@) is None,
{
    match kind {
        ChatKind::World => Some(String::from_str(message)),
        ChatKind::Group => {
            let mut s = String::from_str("[Group] ");
            s.append(message);
            Some(s)
        },
        ChatKind::Other => None,
    }
}

/// Appends a chat message to the log, as `spec_chat_entry` says.
pub fn log_chat(log: &mut Vec<String>, kind: ChatKind, message: &str)
    ensures
        final(log)@.map_values(|m: String| m@) == match spec_chat_entry(kind, message@) {
            Some(l) => old(log)@.map_values(|m: String| m@).push(l),
            None => old(log)@.map_values(|m: String| m@),
        },
{
    match chat_entry(kind, message) {
        Some(s) => {
            log.push(s);
            assert(log@.map_values(|m: String| m@) =~= old(log)@.map_values(|m: String| m@).push(
                spec_chat_entry(kind, message@)->Some_0,
            ));
        },
        None => {},
    }
}

/// The chat window after any number of messages: exactly the last
/// `min(CHAT_LINES, length)` messages show, newest on the first line.
pub proof fn lemma_chat_window_shows_latest(log: Seq<Seq<char>>)
    ensures
        spec_chat_window(log).len() == min_nat(CHAT_LINES as nat, log.len()),
        forall|i: int|
            0 <= i < spec_chat_window(log).len() ==> #[trigger] spec_chat_window(log)[i]
                == spec_chat_text(log[log.len() - 1 - i]),
{
}

/// Logging one more message moves the window down by one: the new message
/// shows first, and the lines that showed before follow it, the oldest
/// dropping out once the window is full.
pub proof fn lemma_chat_window_push(log: Seq<Seq<char>>, m: Seq<char>)
    ensures
        spec_chat_window(log.push(m))[0] == spec_chat_text(m),
        forall|i: int|
            0 < i < spec_chat_window(log.push(m)).len() ==> #[trigger] spec_chat_window(log.push(m))[i]
                == spec_chat_window(log)[i - 1],
{
}


/// A depleting resource: what is left of it, and its maximum.
#[derive(Clone, Copy, Debug, PartialEq, Eq, Structural)]
pub struct Resource {
    pub current: u32,
    pub maximum: u32,
}

/// What the controls panel shows besides its fixed text.
#[derive(Clone, Copy, Debug, PartialEq, Eq, Structural)]
pub struct HudStatus {
    pub jump: bool,
    pub primary: bool,
    pub secondary: bool,
    pub glide: bool,
    pub health: Resource,
    pub energy: Resource,
}

/// Which panel occupies the space below the view.
#[derive(Clone, Copy, Debug, PartialEq, Eq, Structural)]
pub enum PanelMode {
    Controls,
    Inventory,
}

pub fn toggle_panel(m: PanelMode) -> (r: PanelMode)
    ensures
        r == (match m {
            PanelMode::Controls => PanelMode::Inventory,
            PanelMode::Inventory => PanelMode::Controls,
        }),
{
    match m {
        PanelMode::Controls => PanelMode::Inventory,
        PanelMode::Inventory => PanelMode::Controls,
    }
}

/// Appends the decimal digits of `n`.
pub fn push_dec(out: &mut Vec<char>, n: u32)
    ensures
        final(out)@ == old(out)@ + dec(n as nat),
    decreases n,
{
    if n >= 10 {
        push_dec(out, n / 10);
    }
    let d: u32 = n % 10;
    let c = if d == 0 {
        '0'
    } else if d == 1 {
        '1'
    } else if d == 2 {
        '2'
    } else if d == 3 {
        '3'
    } else if d == 4 {
        '4'
    } else if d == 5 {
        '5'
    } else if d == 6 {
        '6'
    } else if d == 7 {
        '7'
    } else if d == 8 {
        '8'
    } else {
        '9'
    };
    assert(c == spec_digits()[d as int]);
    out.push(c);
    if n < 10 {
        assert(out@ =~= old(out)@ + dec(n as nat));
    } else {
        assert(out@ =~= old(out)@ + dec(n as nat));
    }
}

/// A resource line of the controls panel: `|label current/maximum |`.
pub open spec fn spec_resource_line(label: Seq<char>, r: Resource) -> Seq<char> {
    "|"@ + label + dec(r.current as nat) + "/"@ + dec(r.maximum as nat) + " |"@
}

fn resource_line(label: &str, r: Resource) -> (l: Vec<char>)
    ensures
        l@ == spec_resource_line(label@, r),
{
    let mut l = chars_of("|");
    push_str(&mut l, label);
    push_dec(&mut l, r.current);
    push_str(&mut l, "/");
    push_dec(&mut l, r.maximum);
    push_str(&mut l, " |");
    l
}

/// The lines of the controls panel, top to bottom.
pub open spec fn spec_controls_panel(st: HudStatus) -> Seq<Seq<char>> {
    seq![
        "/------- Controls ------\\"@,
        "|  wasd/click - Move    |"@,
        if st.jump { "| SPACE - Jump ACTIVE   |"@ } else { "| SPACE - Jump INACTIVE |"@ },
        if st.primary { "|  x - Attack1 ACTIVE   |"@ } else { "|  x - Attack1 INACTIVE |"@ },
        if st.secondary { "|  z - Attack2 ACTIVE   |"@ } else { "|  z - Attack2 INACTIVE |"@ },
        if st.glide { "|  g - Glide ACTIVE     |"@ } else { "|  g - Glide INACTIVE   |"@ },
        "|      r - Respawn      |"@,
        "|      q - Quit         |"@,
        "|      + - Zoom in      |"@,
        "|      - - Zoom out     |"@,
        "| return - Chat         |"@,
        spec_resource_line("Current Health - "@, st.health),
        spec_resource_line("Current Energy - "@, st.energy),
        "|Up/Down - Navigate Inv.|"@,
        "| Left/Right - Use/Swap |"@,
    ]
}

/// Line `k` of the controls panel.
pub fn controls_line(st: &HudStatus, k: u16) -> (r: Vec<char>)
    requires
        k < PANEL_ROWS,
    ensures
        r@ == spec_controls_panel(*st)[k as int],
{
    if k == 0 {
        chars_of("/------- Controls ------\\")
    } else if k == 1 {
        chars_of("|  wasd/click - Move    |")
    } else if k == 2 {
        if st.jump { chars_of("| SPACE - Jump ACTIVE   |") } else { chars_of("| SPACE - Jump INACTIVE |") }
    } else if k == 3 {
        if st.primary { chars_of("|  x - Attack1 ACTIVE   |") } else { chars_of("|  x - Attack1 INACTIVE |") }
    } else if k == 4 {
        if st.secondary { chars_of("|  z - Attack2 ACTIVE   |") } else { chars_of("|  z - Attack2 INACTIVE |") }
    } else if k == 5 {
        if st.glide { chars_of("|  g - Glide ACTIVE     |") } else { chars_of("|  g - Glide INACTIVE   |") }
    } else if k == 6 {
        chars_of("|      r - Respawn      |")
    } else if k == 7 {
        chars_of("|      q - Quit         |")
    } else if k == 8 {
        chars_of("|      + - Zoom in      |")
    } else if k == 9 {
        chars_of("|      - - Zoom out     |")
    } else if k == 10 {
        chars_of("| return - Chat         |")
    } else if k == 11 {
        resource_line("Current Health - ", st.health)
    } else if k == 12 {
        resource_line("Current Energy - ", st.energy)
    } else if k == 13 {
        chars_of("|Up/Down - Navigate Inv.|")
    } else {
        chars_of("| Left/Right - Use/Swap |")
    }
}


/// The mark after the selected inventory item, and the blank after others.
pub open spec fn spec_item_mark(selected: bool) -> Seq<char> {
    if selected {
        "<--"@
    } else {
        "        "@
    }
}

pub open spec fn spec_item_line(name: Seq<char>, selected: bool) -> Seq<char> {
    "Item: "@ + name + spec_item_mark(selected)
}

/// The inventory panel for the first `n` slots, `h` being the row just
/// under the view: one line for each slot that holds an item, in slot order,
/// on the row after the slot's index.
pub open spec fn spec_inventory_lines(h: int, slots: Seq<Option<Seq<char>>>, selected: int, n: int) -> Seq<(int, int, Seq<char>)>
    decreases n,
{
    if n <= 0 || n > slots.len() {
        Seq::empty()
    } else {
        let prev = spec_inventory_lines(h, slots, selected, n - 1);
        match slots[n - 1] {
            Some(name) => prev.push((0int, h + n, spec_item_line(name, n - 1 == selected))),
            None => prev,
        }
    }
}

/// The names of the items in the slots.
pub open spec fn slot_names(slots: Seq<Option<String>>) -> Seq<Option<Seq<char>>> {
    slots.map_values(
        |s: Option<String>|
            match s {
                Some(t) => Some(t@),
                None => None,
            },
    )
}

/// Appends the inventory panel's lines to `r`.
fn push_inventory_lines(r: &mut Vec<TextLine>, h: u16, slots: &Vec<Option<String>>, selected: usize)
    requires
        h + slots.len() < 0xffff,
    ensures
        lines_view(final(r)@) == lines_view(old(r)@) + spec_inventory_lines(
            h as int,
            slot_names(slots@),
            selected as int,
            slots.len() as int,
        ),
{
    let ghost names = slot_names(slots@);
    let ghost start = lines_view(r@);
    let mut i: usize = 0;
    while i < slots.len()
        invariant
            i <= slots.len(),
            h + slots.len() < 0xffff,
            names == slot_names(slots@),
            lines_view(r@) == start + spec_inventory_lines(h as int, names, selected as int, i as int),
        decreases slots.len() - i,
    {
        match &slots[i] {
            Some(name) => {
                let mut l = chars_of("Item: ");
                push_str(&mut l, name.as_str());
                if i == selected {
                    push_str(&mut l, "<--");
                } else {
                    push_str(&mut l, "        ");
                }
                let line = TextLine { x: 0, y: h + i as u16 + 1, text: l };
                proof {
                    lemma_lines_view_push(r@, line);
                }
                r.push(line);
            },
            None => {},
        }
        i = i + 1;
    }
}

/// The first slot after `cur` that holds an item; `cur` when none does.
pub open spec fn spec_next_occupied<T>(slots: Seq<Option<T>>, cur: int) -> int {
    if exists|i: int| cur < i < slots.len() && #[trigger] slots[i] is Some {
        choose|i: int|
            cur < i < slots.len() && #[trigger] slots[i] is Some && forall|j: int|
                cur < j < i ==> !(#[trigger] slots[j] is Some)
    } else {
        cur
    }
}

/// The last slot before `cur` that holds an item; `cur` when none does.
pub open spec fn spec_prev_occupied<T>(slots: Seq<Option<T>>, cur: int) -> int {
    if exists|i: int| 0 <= i < cur && i < slots.len() && #[trigger] slots[i] is Some {
        choose|i: int|
            0 <= i < cur && i < slots.len() && #[trigger] slots[i] is Some && forall|j: int|
                i < j < cur && j < slots.len() ==> !(#[trigger] slots[j] is Some)
    } else {
        cur
    }
}

/// Moves the selection down to the next slot that holds an item.
pub fn next_occupied(slots: &Vec<Option<String>>, cur: usize) -> (r: usize)
    ensures
        r == spec_next_occupied(slots@, cur as int),
        r != cur ==> cur < r < slots.len() && slots@[r as int] is Some && forall|j: int|
            cur < j < r ==> !(#[trigger] slots@[j] is Some),
{
    let mut i: usize = cur;
    while i < slots.len()
        invariant
            cur <= i,
            forall|j: int| cur < j <= i && j < slots.len() ==> !(#[trigger] slots@[j] is Some),
        decreases slots.len() - i,
    {
        if i + 1 < slots.len() && slots[i + 1].is_some() {
            let r = i + 1;
            assert(exists|k: int| cur < k < slots.len() && #[trigger] slots@[k] is Some) by {
                assert(slots@[r as int] is Some);
            }
            proof {
                lemma_first_after_unique(slots@, cur as int, r as int);
            }
            return r;
        }
        i = i + 1;
    }
    assert(!exists|k: int| cur < k < slots.len() && #[trigger] slots@[k] is Some);
    cur
}

proof fn lemma_first_after_unique<T>(slots: Seq<Option<T>>, cur: int, r: int)
    requires
        cur < r < slots.len(),
        slots[r] is Some,
        forall|j: int| cur < j < r ==> !(#[trigger] slots[j] is Some),
    ensures
        spec_next_occupied(slots, cur) == r,
{
    let c = spec_next_occupied(slots, cur);
    assert(slots[r] is Some);
    if c < r {
        assert(!(slots[c] is Some));
    } else if c > r {
        assert(!(slots[r] is Some));
    }
}

proof fn lemma_last_before_unique<T>(slots: Seq<Option<T>>, cur: int, r: int)
    requires
        0 <= r < cur,
        r < slots.len(),
        slots[r] is Some,
        forall|j: int| r < j < cur && j < slots.len() ==> !(#[trigger] slots[j] is Some),
    ensures
        spec_prev_occupied(slots, cur) == r,
{
    let c = spec_prev_occupied(slots, cur);
    assert(slots[r] is Some);
    if c < r {
        assert(!(slots[r] is Some));
    } else if c > r {
        assert(!(slots[c] is Some));
    }
}

/// Moves the selection up to the previous slot that holds an item.
pub fn prev_occupied(slots: &Vec<Option<String>>, cur: usize) -> (r: usize)
    ensures
        r == spec_prev_occupied(slots@, cur as int),
        r != cur ==> r < cur && r < slots.len() && slots@[r as int] is Some,
{
    let mut i: usize = if cur < slots.len() { cur } else { slots.len() };
    while i > 0
        invariant
            i <= cur,
            i <= slots.len(),
            forall|j: int| i <= j < cur && j < slots.len() ==> !(#[trigger] slots@[j] is Some),
        decreases i,
    {
        if slots[i - 1].is_some() {
            let r = i - 1;
            proof {
                lemma_last_before_unique(slots@, cur as int, r as int);
            }
            return r;
        }
        i = i - 1;
    }
    assert(!exists|k: int| 0 <= k < cur && k < slots.len() && #[trigger] slots@[k] is Some);
    cur
}


/// Width of the blank that clears a chat line or the input line.
pub const CLEAR_WIDTH: usize = 64;

/// Width of the blank that clears the invitation line.
pub const INVITE_WIDTH: usize = 98;

/// Width of the blank that clears a panel line.
pub const PANEL_WIDTH: usize = 30;

/// Rows the panel below the view occupies.
pub const PANEL_ROWS: u16 = 15;

/// Column at which chat lines start.
pub const CHAT_X: u16 = 30;

/// Column and row, below the view, of the input line.
pub const INPUT_X: u16 = 24;
pub const INPUT_ROW: u16 = 12;

/// Rows below the view of the toggle hint and of the invitation line.
pub const HINT_ROW: u16 = 15;
pub const INVITE_ROW: u16 = 16;

/// A pending invitation: what it is for, and who sent it.
pub struct Invite {
    pub kind: String,
    pub from: String,
}

pub open spec fn line_view(l: TextLine) -> (int, int, Seq<char>) {
    (l.x as int, l.y as int, l.text@)
}

pub open spec fn lines_view(v: Seq<TextLine>) -> Seq<(int, int, Seq<char>)> {
    v.map_values(|l: TextLine| line_view(l))
}

/// `n` spaces.
pub fn blank(n: usize) -> (r: Vec<char>)
    ensures
        r@ == repeat(' ', n as nat),
{
    let mut r: Vec<char> = Vec::new();
    let mut i: usize = 0;
    while i < n
        invariant
            i <= n,
            r@ == repeat(' ', i as nat),
        decreases n - i,
    {
        r.push(' ');
        i = i + 1;
        assert(r@ =~= repeat(' ', i as nat));
    }
    r
}

proof fn lemma_lines_view_push(v: Seq<TextLine>, l: TextLine)
    ensures
        lines_view(v.push(l)) == lines_view(v).push(line_view(l)),
{
    assert(lines_view(v.push(l)) =~= lines_view(v).push(line_view(l)));
}

/// The panel below the view, `h` being the row just under it: every panel
/// row is first cleared, then either the controls legend fills it from the
/// top or each item gets the row after its slot index.
pub open spec fn spec_panel_lines(
    h: int,
    mode: PanelMode,
    st: HudStatus,
    slots: Seq<Option<Seq<char>>>,
    selected: int,
) -> Seq<(int, int, Seq<char>)> {
    Seq::new(PANEL_ROWS as nat, |k: int| (0int, h + k, repeat(' ', PANEL_WIDTH as nat))) + match mode {
        PanelMode::Controls => Seq::new(PANEL_ROWS as nat, |k: int| (0int, h + k, spec_controls_panel(st)[k])),
        PanelMode::Inventory => spec_inventory_lines(h, slots, selected, slots.len() as int),
    }
}

fn panel_lines(h: u16, mode: PanelMode, st: &HudStatus, slots: &Vec<Option<String>>, selected: usize) -> (r: Vec<TextLine>)
    requires
        h + slots.len() < 0xffff,
        h + PANEL_ROWS <= 0xffff,
    ensures
        lines_view(r@) == spec_panel_lines(h as int, mode, *st, slot_names(slots@), selected as int),
{
    let mut r: Vec<TextLine> = Vec::new();
    let mut k: u16 = 0;
    while k < PANEL_ROWS
        invariant
            k <= PANEL_ROWS,
            h + PANEL_ROWS <= 0xffff,
            lines_view(r@) == Seq::new(k as nat, |j: int| (0int, h + j, repeat(' ', PANEL_WIDTH as nat))),
        decreases PANEL_ROWS - k,
    {
        let line = TextLine { x: 0, y: h + k, text: blank(PANEL_WIDTH) };
        proof {
            lemma_lines_view_push(r@, line);
        }
        r.push(line);
        k = k + 1;
        assert(lines_view(r@) =~= Seq::new(k as nat, |j: int| (0int, h + j, repeat(' ', PANEL_WIDTH as nat))));
    }
    let ghost clear = lines_view(r@);
    match mode {
        PanelMode::Controls => {
            let mut k: u16 = 0;
            while k < PANEL_ROWS
                invariant
                    k <= PANEL_ROWS,
                    h + PANEL_ROWS <= 0xffff,
                    lines_view(r@) == clear + Seq::new(k as nat, |j: int| (0int, h + j, spec_controls_panel(*st)[j])),
                decreases PANEL_ROWS - k,
            {
                let line = TextLine { x: 0, y: h + k, text: controls_line(st, k) };
                proof {
                    lemma_lines_view_push(r@, line);
                }
                r.push(line);
                k = k + 1;
                assert(lines_view(r@) =~= clear + Seq::new(k as nat, |j: int| (0int, h + j, spec_controls_panel(*st)[j])));
            }
        },
        PanelMode::Inventory => {
            push_inventory_lines(&mut r, h, slots, selected);
        },
    }
    r
}

pub open spec fn spec_invite_text(kind: Seq<char>, from: Seq<char>) -> Seq<char> {
    kind + " Invite from "@ + from + ". Accept[U]/Decline[I]"@
}

/// The toggle hint, then the invitation line: the invitation when one is
/// pending, else a blank that clears the line.
pub open spec fn spec_status_lines(h: int, invite: Option<(Seq<char>, Seq<char>)>) -> Seq<(int, int, Seq<char>)> {
    seq![
        (0int, h + HINT_ROW, "... T - Toggle Inv ... "@),
        (0int, h + INVITE_ROW, match invite {
            Some(p) => spec_invite_text(p.0, p.1),
            None => repeat(' ', INVITE_WIDTH as nat),
        }),
    ]
}

pub open spec fn invite_view(invite: Option<Invite>) -> Option<(Seq<char>, Seq<char>)> {
    match invite {
        Some(i) => Some((i.kind@, i.from@)),
        None => None,
    }
}

/// The chat window, `h` being the row just under the view: line `i` of the
/// window goes to row `h + 1 + i` at `CHAT_X`, after a blank that clears it.
pub open spec fn spec_chat_lines(h: int, window: Seq<Seq<char>>) -> Seq<(int, int, Seq<char>)> {
    Seq::new(
        2 * window.len(),
        |k: int|
            if k % 2 == 0 {
                (CHAT_X as int, h + 1 + k / 2, repeat(' ', CLEAR_WIDTH as nat))
            } else {
                (CHAT_X as int, h + 1 + k / 2, window[k / 2])
            },
    )
}

/// The input line: cleared, then the prompt and what has been typed.
pub open spec fn spec_input_lines(h: int, input: Seq<char>) -> Seq<(int, int, Seq<char>)> {
    seq![
        (INPUT_X as int, h + INPUT_ROW, repeat(' ', CLEAR_WIDTH as nat)),
        (INPUT_X as int, h + INPUT_ROW, "> "@ + input),
    ]
}

/// Everything the heads-up display draws in one pass, in drawing order.
pub open spec fn spec_hud(
    h: int,
    mode: PanelMode,
    st: HudStatus,
    slots: Seq<Option<Seq<char>>>,
    selected: int,
    invite: Option<(Seq<char>, Seq<char>)>,
    log: Seq<Seq<char>>,
    input: Seq<char>,
) -> Seq<(int, int, Seq<char>)> {
    spec_panel_lines(h, mode, st, slots, selected) + spec_status_lines(h, invite) + spec_chat_lines(
        h,
        spec_chat_window(log),
    ) + spec_input_lines(h, input)
}

/// The inputs of one heads-up display pass.
pub struct HudFrame {
    pub mode: PanelMode,
    pub status: HudStatus,
    pub slots: Vec<Option<String>>,
    pub selected: usize,
    pub invite: Option<Invite>,
}

/// Lays out the heads-up display below a view of `h` rows.
pub fn compose_hud(h: u16, frame: &HudFrame, log: &Vec<String>, input: &Vec<char>) -> (r: Vec<TextLine>)
    requires
        h + frame.slots.len() + INVITE_ROW < 0xffff,
    ensures
        lines_view(r@) == spec_hud(
            h as int,
            frame.mode,
            frame.status,
            slot_names(frame.slots@),
            frame.selected as int,
            invite_view(frame.invite),
            log@.map_values(|m: String| m@),
            input@,
        ),
{
    let mut r = panel_lines(h, frame.mode, &frame.status, &frame.slots, frame.selected);
    let hint = TextLine { x: 0, y: h + HINT_ROW, text: chars_of("... T - Toggle Inv ... ") };
    proof {
        lemma_lines_view_push(r@, hint);
    }
    r.push(hint);
    let text = match &frame.invite {
        Some(i) => {
            let mut t = chars_of(i.kind.as_str());
            push_str(&mut t, " Invite from ");
            push_str(&mut t, i.from.as_str());
            push_str(&mut t, ". Accept[U]/Decline[I]");
            t
        },
        None => blank(INVITE_WIDTH),
    };
    let inv = TextLine { x: 0, y: h + INVITE_ROW, text };
    proof {
        lemma_lines_view_push(r@, inv);
    }
    r.push(inv);
    let ghost before_chat = lines_view(r@);
    let ghost window = spec_chat_window(log@.map_values(|m: String| m@));
    let lines = chat_window(log);
    assert(lines@.len() == window.len());
    assert(window.len() <= CHAT_LINES);
    let mut i: usize = 0;
    while i < lines.len()
        invariant
            i <= lines.len(),
            lines.len() <= CHAT_LINES,
            h + INVITE_ROW < 0xffff,
            lines@.map_values(|l: Vec<char>| l@) == window,
            lines_view(r@) == before_chat + spec_chat_lines(h as int, window).subrange(0, 2 * i as int),
        decreases lines.len() - i,
    {
        let row = h + 1 + i as u16;
        let c = TextLine { x: CHAT_X, y: row, text: blank(CLEAR_WIDTH) };
        proof {
            lemma_lines_view_push(r@, c);
        }
        r.push(c);
        let mut t: Vec<char> = Vec::new();
        push_all(&mut t, &lines[i]);
        let l = TextLine { x: CHAT_X, y: row, text: t };
        proof {
            lemma_lines_view_push(r@, l);
        }
        r.push(l);
        i = i + 1;
        assert(lines_view(r@) =~= before_chat + spec_chat_lines(h as int, window).subrange(0, 2 * i as int));
    }
    assert(spec_chat_lines(h as int, window).subrange(0, 2 * lines.len() as int) =~= spec_chat_lines(h as int, window));
    let c = TextLine { x: INPUT_X, y: h + INPUT_ROW, text: blank(CLEAR_WIDTH) };
    proof {
        lemma_lines_view_push(r@, c);
    }
    r.push(c);
    let mut t = chars_of("> ");
    push_all(&mut t, input);
    let l = TextLine { x: INPUT_X, y: h + INPUT_ROW, text: t };
    proof {
        lemma_lines_view_push(r@, l);
    }
    r.push(l);
    assert(lines_view(r@) =~= spec_hud(
        h as int,
        frame.mode,
        frame.status,
        slot_names(frame.slots@),
        frame.selected as int,
        invite_view(frame.invite),
        log@.map_values(|m: String| m@),
        input@,
    ));
    r
}

} // verus!
