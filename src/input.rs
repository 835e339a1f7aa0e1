//! The keypad: the logical buttons of the device, the keyboard keys that
//! stand for them, the ordered layout table, the scan that turns a keyboard
//! snapshot into a button press, and the random button stream of fuzz mode.
use vstd::prelude::*;
use rand::seq::SliceRandom;

verus! {

/// A button of the device, independent of the key that produced it.
#[derive(Clone, Copy, Debug, PartialEq, Eq, Structural)]
pub enum ButtonInput {
    MoveLeft,
    MoveRight,
    MoveUp,
    MoveDown,
    Exe,
    Menu,
    List,
    Digit(u8),
    Shift,
    Parentheses,
    Fraction,
    Add,
    Subtract,
    Multiply,
    Power,
    Delete,
    Point,
}

/// What the keypad reports. Key repeat is suppressed, so only presses exist.
#[derive(Clone, Copy, Debug, PartialEq, Eq, Structural)]
pub enum ButtonEvent {
    Press(ButtonInput),
}

/// The keyboard keys that the layout uses. The two shift keys are read
/// separately, as a modifier.
#[derive(Clone, Copy, Debug, PartialEq, Eq, Structural)]
pub enum PhysicalKey {
    Left,
    Right,
    Up,
    Down,
    Enter,
    Escape,
    Space,
    Key0,
    Key1,
    Key2,
    Key3,
    Key4,
    Key5,
    Key6,
    Key7,
    Key8,
    Key9,
    Tab,
    LeftBracket,
    RightBracket,
    Slash,
    Equal,
    Minus,
    Backspace,
    Period,
}

/// One line of the layout: `input` fires when `key` is freshly pressed and
/// a shift key is held exactly when `shifted` says so.
#[derive(Clone, Copy, Debug, PartialEq, Eq, Structural)]
pub struct KeyMapping {
    pub shifted: bool,
    pub key: PhysicalKey,
    pub input: ButtonInput,
}

/// A layout line, written as a function for the table below.
pub open spec fn entry(shifted: bool, key: PhysicalKey, input: ButtonInput) -> KeyMapping {
    KeyMapping { shifted, key, input }
}

/// The keyboard layout, in scan order. Where two lines could fire at once,
/// the earlier one wins.
pub open spec fn mapping_table() -> Seq<KeyMapping> {
    seq![
        entry(false, PhysicalKey::Left, ButtonInput::MoveLeft),
        entry(false, PhysicalKey::Right, ButtonInput::MoveRight),
        entry(false, PhysicalKey::Up, ButtonInput::MoveUp),
        entry(false, PhysicalKey::Down, ButtonInput::MoveDown),
        entry(false, PhysicalKey::Enter, ButtonInput::Exe),
        entry(false, PhysicalKey::Escape, ButtonInput::Menu),
        entry(false, PhysicalKey::Space, ButtonInput::List),
        entry(false, PhysicalKey::Key0, ButtonInput::Digit(0)),
        entry(false, PhysicalKey::Key1, ButtonInput::Digit(1)),
        entry(false, PhysicalKey::Key2, ButtonInput::Digit(2)),
        entry(false, PhysicalKey::Key3, ButtonInput::Digit(3)),
        entry(false, PhysicalKey::Key4, ButtonInput::Digit(4)),
        entry(false, PhysicalKey::Key5, ButtonInput::Digit(5)),
        entry(false, PhysicalKey::Key6, ButtonInput::Digit(6)),
        entry(false, PhysicalKey::Key7, ButtonInput::Digit(7)),
        entry(false, PhysicalKey::Key8, ButtonInput::Digit(8)),
        entry(false, PhysicalKey::Key9, ButtonInput::Digit(9)),
        entry(false, PhysicalKey::Tab, ButtonInput::Shift),
        entry(false, PhysicalKey::LeftBracket, ButtonInput::Parentheses),
        entry(false, PhysicalKey::RightBracket, ButtonInput::Parentheses),
        entry(false, PhysicalKey::Slash, ButtonInput::Fraction),
        entry(true, PhysicalKey::Equal, ButtonInput::Add),
        entry(false, PhysicalKey::Minus, ButtonInput::Subtract),
        entry(true, PhysicalKey::Key8, ButtonInput::Multiply),
        entry(true, PhysicalKey::Key6, ButtonInput::Power),
        entry(false, PhysicalKey::Backspace, ButtonInput::Delete),
        entry(false, PhysicalKey::Period, ButtonInput::Point),
    ]
}

/// The layout gives fuzz mode something to draw: at least one line is not
/// `Menu`, so the random stream never runs dry.
pub proof fn layout_has_fuzz_candidate()
    ensures
        exists|k: int|
            0 <= k < mapping_table().len() && (#[trigger] mapping_table()[k]).input
                != ButtonInput::Menu,
{
    assert(mapping_table()[0].input != ButtonInput::Menu);
}

/// Builds the keyboard layout table.
pub fn button_mapping() -> (r: Vec<KeyMapping>)
    ensures
        r@ == mapping_table(),
{
    let mut t: Vec<KeyMapping> = Vec::new();
    t.push(KeyMapping { shifted: false, key: PhysicalKey::Left, input: ButtonInput::MoveLeft });
    t.push(KeyMapping { shifted: false, key: PhysicalKey::Right, input: ButtonInput::MoveRight });
    t.push(KeyMapping { shifted: false, key: PhysicalKey::Up, input: ButtonInput::MoveUp });
    t.push(KeyMapping { shifted: false, key: PhysicalKey::Down, input: ButtonInput::MoveDown });
    t.push(KeyMapping { shifted: false, key: PhysicalKey::Enter, input: ButtonInput::Exe });
    t.push(KeyMapping { shifted: false, key: PhysicalKey::Escape, input: ButtonInput::Menu });
    t.push(KeyMapping { shifted: false, key: PhysicalKey::Space, input: ButtonInput::List });
    t.push(KeyMapping { shifted: false, key: PhysicalKey::Key0, input: ButtonInput::Digit(0) });
    t.push(KeyMapping { shifted: false, key: PhysicalKey::Key1, input: ButtonInput::Digit(1) });
    t.push(KeyMapping { shifted: false, key: PhysicalKey::Key2, input: ButtonInput::Digit(2) });
    t.push(KeyMapping { shifted: false, key: PhysicalKey::Key3, input: ButtonInput::Digit(3) });
    t.push(KeyMapping { shifted: false, key: PhysicalKey::Key4, input: ButtonInput::Digit(4) });
    t.push(KeyMapping { shifted: false, key: PhysicalKey::Key5, input: ButtonInput::Digit(5) });
    t.push(KeyMapping { shifted: false, key: PhysicalKey::Key6, input: ButtonInput::Digit(6) });
    t.push(KeyMapping { shifted: false, key: PhysicalKey::Key7, input: ButtonInput::Digit(7) });
    t.push(KeyMapping { shifted: false, key: PhysicalKey::Key8, input: ButtonInput::Digit(8) });
    t.push(KeyMapping { shifted: false, key: PhysicalKey::Key9, input: ButtonInput::Digit(9) });
    t.push(KeyMapping { shifted: false, key: PhysicalKey::Tab, input: ButtonInput::Shift });
    t.push(KeyMapping { shifted: false, key: PhysicalKey::LeftBracket, input: ButtonInput::Parentheses });
    t.push(KeyMapping { shifted: false, key: PhysicalKey::RightBracket, input: ButtonInput::Parentheses });
    t.push(KeyMapping { shifted: false, key: PhysicalKey::Slash, input: ButtonInput::Fraction });
    t.push(KeyMapping { shifted: true, key: PhysicalKey::Equal, input: ButtonInput::Add });
    t.push(KeyMapping { shifted: false, key: PhysicalKey::Minus, input: ButtonInput::Subtract });
    t.push(KeyMapping { shifted: true, key: PhysicalKey::Key8, input: ButtonInput::Multiply });
    t.push(KeyMapping { shifted: true, key: PhysicalKey::Key6, input: ButtonInput::Power });
    t.push(KeyMapping { shifted: false, key: PhysicalKey::Backspace, input: ButtonInput::Delete });
    t.push(KeyMapping { shifted: false, key: PhysicalKey::Period, input: ButtonInput::Point });
    assert(t@ =~= mapping_table());
    t
}

/// A line fires when its key is among the fresh presses and the shift
/// modifier is held exactly when the line asks for it.
pub open spec fn fires(e: KeyMapping, pressed: Seq<PhysicalKey>, shift_down: bool) -> bool {
    pressed.contains(e.key) && e.shifted == shift_down
}

/// The index of the first line at or after `start` that fires, or the
/// table's length where none does.
pub open spec fn first_fired_from(
    table: Seq<KeyMapping>,
    pressed: Seq<PhysicalKey>,
    shift_down: bool,
    start: int,
) -> int
    decreases table.len() - start,
{
    if start < 0 || start >= table.len() {
        table.len() as int
    } else if fires(table[start], pressed, shift_down) {
        start
    } else {
        first_fired_from(table, pressed, shift_down, start + 1)
    }
}

pub open spec fn first_fired(table: Seq<KeyMapping>, pressed: Seq<PhysicalKey>, shift_down: bool) -> int {
    first_fired_from(table, pressed, shift_down, 0)
}

/// The button that one scan of the table yields: that of the first line
/// that fires, if any does.
pub open spec fn scan_result(
    table: Seq<KeyMapping>,
    pressed: Seq<PhysicalKey>,
    shift_down: bool,
) -> Option<ButtonInput> {
    let k = first_fired(table, pressed, shift_down);
    if k < table.len() {
        Some(table[k].input)
    } else {
        None
    }
}

/// `first_fired_from` finds a line that fires, and none before it fires.
pub proof fn lemma_first_fired_from(
    table: Seq<KeyMapping>,
    pressed: Seq<PhysicalKey>,
    shift_down: bool,
    start: int,
)
    requires
        0 <= start <= table.len(),
    ensures
        start <= first_fired_from(table, pressed, shift_down, start) <= table.len(),
        first_fired_from(table, pressed, shift_down, start) < table.len() ==> fires(
            table[first_fired_from(table, pressed, shift_down, start)],
            pressed,
            shift_down,
        ),
        forall|m: int|
            start <= m < first_fired_from(table, pressed, shift_down, start) ==> !fires(
                #[trigger] table[m],
                pressed,
                shift_down,
            ),
    decreases table.len() - start,
{
    if start < table.len() && !fires(table[start], pressed, shift_down) {
        lemma_first_fired_from(table, pressed, shift_down, start + 1);
    }
}

/// Scan order decides between lines that fire together: when lines `i < j`
/// both fire, the line that wins comes no later than `i`, so the later line
/// never wins; and when no line before `i` fires, the button of line `i` is
/// the one returned.
pub proof fn earlier_entry_wins(
    table: Seq<KeyMapping>,
    pressed: Seq<PhysicalKey>,
    shift_down: bool,
    i: int,
    j: int,
)
    requires
        0 <= i < j < table.len(),
        fires(table[i], pressed, shift_down),
        fires(table[j], pressed, shift_down),
    ensures
        first_fired(table, pressed, shift_down) <= i,
        scan_result(table, pressed, shift_down) == Some(
            table[first_fired(table, pressed, shift_down)].input,
        ),
        (forall|m: int| 0 <= m < i ==> !fires(#[trigger] table[m], pressed, shift_down))
            ==> scan_result(table, pressed, shift_down) == Some(table[i].input),
{
    lemma_first_fired_from(table, pressed, shift_down, 0);
}

fn key_in(pressed: &Vec<PhysicalKey>, key: PhysicalKey) -> (r: bool)
    ensures
        r == pressed@.contains(key),
{
    let mut i: usize = 0;
    while i < pressed.len()
        invariant
            i <= pressed@.len(),
            forall|m: int| 0 <= m < i ==> pressed@[m] != key,
        decreases pressed@.len() - i,
    {
        if pressed[i] == key {
            return true;
        }
        i = i + 1;
    }
    false
}

/// Scans the table once, in order, against the keys freshly pressed in
/// this cycle and the state of the shift modifier. The first line that
/// fires gives the result; `None` means that no line fired.
pub fn scan_keys(table: &Vec<KeyMapping>, pressed: &Vec<PhysicalKey>, shift_down: bool) -> (r:
    Option<ButtonInput>)
    ensures
        r == scan_result(table@, pressed@, shift_down),
{
    let mut i: usize = 0;
    while i < table.len()
        invariant
            i <= table@.len(),
            first_fired(table@, pressed@, shift_down) == first_fired_from(
                table@,
                pressed@,
                shift_down,
                i as int,
            ),
        decreases table@.len() - i,
    {
        let e = table[i];
        if e.shifted == shift_down && key_in(pressed, e.key) {
            return Some(e.input);
        }
        i = i + 1;
    }
    None
}

/// The buttons of the lines other than `Menu`, in table order.
pub open spec fn fuzz_buttons(table: Seq<KeyMapping>) -> Seq<ButtonInput>
    decreases table.len(),
{
    if table.len() == 0 {
        Seq::empty()
    } else if table.last().input == ButtonInput::Menu {
        fuzz_buttons(table.drop_last())
    } else {
        fuzz_buttons(table.drop_last()).push(table.last().input)
    }
}

/// A button is a fuzz candidate exactly when some line of the table gives
/// it and it is not `Menu`.
pub proof fn lemma_fuzz_buttons(table: Seq<KeyMapping>)
    ensures
        forall|b: ButtonInput|
            fuzz_buttons(table).contains(b) <==> (b != ButtonInput::Menu && exists|k: int|
                0 <= k < table.len() && (#[trigger] table[k]).input == b),
    decreases table.len(),
{
    if table.len() > 0 {
        let rest = table.drop_last();
        lemma_fuzz_buttons(rest);
        assert forall|b: ButtonInput|
            fuzz_buttons(table).contains(b) <==> (b != ButtonInput::Menu && exists|k: int|
                0 <= k < table.len() && (#[trigger] table[k]).input == b) by {
            if fuzz_buttons(table).contains(b) {
                if fuzz_buttons(rest).contains(b) {
                    let k = choose|k: int| 0 <= k < rest.len() && (#[trigger] rest[k]).input == b;
                    assert(table[k] == rest[k]);
                } else {
                    let n = fuzz_buttons(rest).len();
                    let idx = choose|idx: int|
                        0 <= idx < fuzz_buttons(table).len() && fuzz_buttons(table)[idx] == b;
                    assert(idx == n) by {
                        if idx < n {
                            assert(fuzz_buttons(rest)[idx] == b);
                        }
                    }
                    assert(table[table.len() - 1].input == b);
                }
            }
            if b != ButtonInput::Menu && exists|k: int|
                0 <= k < table.len() && (#[trigger] table[k]).input == b {
                let k = choose|k: int| 0 <= k < table.len() && (#[trigger] table[k]).input == b;
                if k < table.len() - 1 {
                    assert(rest[k] == table[k]);
                    assert(fuzz_buttons(rest).contains(b));
                    let idx = choose|idx: int|
                        0 <= idx < fuzz_buttons(rest).len() && fuzz_buttons(rest)[idx] == b;
                    assert(fuzz_buttons(table)[idx] == b);
                } else {
                    let s = fuzz_buttons(table);
                    assert(s[s.len() - 1] == b);
                }
            }
        }
    }
}

/// Collects the buttons of the lines other than `Menu`, in table order.
pub fn fuzz_candidates(table: &Vec<KeyMapping>) -> (r: Vec<ButtonInput>)
    ensures
        r@ == fuzz_buttons(table@),
{
    let mut r: Vec<ButtonInput> = Vec::new();
    let mut i: usize = 0;
    while i < table.len()
        invariant
            i <= table@.len(),
            r@ == fuzz_buttons(table@.subrange(0, i as int)),
        decreases table@.len() - i,
    {
        let e = table[i];
        proof {
            assert(table@.subrange(0, i as int + 1).drop_last() =~= table@.subrange(0, i as int));
        }
        if e.input != ButtonInput::Menu {
            r.push(e.input);
        }
        i = i + 1;
    }
    assert(table@.subrange(0, table@.len() as int) =~= table@);
    r
}

/// Relies on rand's `SliceRandom::choose` for slices, with the thread-local
/// generator: `None` only for an empty slice, else one of its elements.
#[verifier::external_body]
fn choose_button(options: &[ButtonInput]) -> (r: Option<ButtonInput>)
    ensures
        options@.len() == 0 <==> r.is_none(),
        r matches Some(b) ==> options@.contains(b),
{
    options.choose(&mut rand::thread_rng()).copied()
}

/// One draw of fuzz mode: a button of the table picked at random, each line
/// other than `Menu` equally likely (the same as drawing a line and drawing
/// again while it is `Menu`).
pub fn random_fuzz_button(table: &Vec<KeyMapping>) -> (r: ButtonInput)
    requires
        exists|k: int| 0 <= k < table@.len() && (#[trigger] table@[k]).input != ButtonInput::Menu,
    ensures
        r != ButtonInput::Menu,
        exists|k: int| 0 <= k < table@.len() && (#[trigger] table@[k]).input == r,
{
    let candidates = fuzz_candidates(table);
    proof {
        lemma_fuzz_buttons(table@);
        let k = choose|k: int| 0 <= k < table@.len() && (#[trigger] table@[k]).input != ButtonInput::Menu;
        assert(fuzz_buttons(table@).contains(table@[k].input));
    }
    let picked = choose_button(candidates.as_slice());
    proof {
        lemma_fuzz_buttons(table@);
    }
    picked.unwrap()
}

} // verus!
