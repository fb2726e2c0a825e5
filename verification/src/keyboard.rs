//! Keyboard routing: which world hotkeys end the application or launch
//! Termux, and what each pressed key becomes for the guest (text, or an
//! Android key code).

use vstd::prelude::*;

verus! {

broadcast use vstd::string::group_string_axioms;

/// A key as the world's keyboard reports it.
pub enum KeyInput {
    /// A key that produces text.
    Character(String),
    Space,
    Enter,
    Backspace,
    Tab,
    Escape,
    ArrowUp,
    ArrowDown,
    ArrowLeft,
    ArrowRight,
    /// Any other key; the guest does not see it.
    Other,
}

/// What a key becomes for the guest.
pub enum GuestInput {
    Text(String),
    KeyEvent(i32),
}

/// A guest input as plain values.
pub enum GuestInputView {
    Text(Seq<char>),
    KeyEvent(i32),
}

impl View for GuestInput {
    type V = GuestInputView;

    open spec fn view(&self) -> GuestInputView {
        match self {
            GuestInput::Text(s) => GuestInputView::Text(s@),
            GuestInput::KeyEvent(c) => GuestInputView::KeyEvent(*c),
        }
    }
}

/// Android's key code for Enter.
pub const KEYCODE_ENTER: i32 = 66;

/// Android's key code for Backspace (delete).
pub const KEYCODE_DEL: i32 = 67;

/// Android's key code for Tab.
pub const KEYCODE_TAB: i32 = 61;

/// Android's key code for Escape.
pub const KEYCODE_ESCAPE: i32 = 111;

/// Android's key code for the up arrow.
pub const KEYCODE_DPAD_UP: i32 = 19;

/// Android's key code for the down arrow.
pub const KEYCODE_DPAD_DOWN: i32 = 20;

/// Android's key code for the left arrow.
pub const KEYCODE_DPAD_LEFT: i32 = 21;

/// Android's key code for the right arrow.
pub const KEYCODE_DPAD_RIGHT: i32 = 22;

/// What key `k` becomes for the guest: its text for a text key, a space for
/// Space, Android's key code for Enter, Backspace, Tab, Escape and the
/// arrows, nothing otherwise.
pub open spec fn guest_input_of(k: KeyInput) -> Option<GuestInputView> {
    match k {
        KeyInput::Character(s) => Some(GuestInputView::Text(s@)),
        KeyInput::Space => Some(GuestInputView::Text(" "@)),
        KeyInput::Enter => Some(GuestInputView::KeyEvent(66)),
        KeyInput::Backspace => Some(GuestInputView::KeyEvent(67)),
        KeyInput::Tab => Some(GuestInputView::KeyEvent(61)),
        KeyInput::Escape => Some(GuestInputView::KeyEvent(111)),
        KeyInput::ArrowUp => Some(GuestInputView::KeyEvent(19)),
        KeyInput::ArrowDown => Some(GuestInputView::KeyEvent(20)),
        KeyInput::ArrowLeft => Some(GuestInputView::KeyEvent(21)),
        KeyInput::ArrowRight => Some(GuestInputView::KeyEvent(22)),
        KeyInput::Other => None,
    }
}

/// The view of an optional guest input.
pub open spec fn opt_input_view(o: Option<GuestInput>) -> Option<GuestInputView> {
    match o {
        Some(g) => Some(g@),
        None => None,
    }
}

/// What key `key` becomes for the guest.
pub fn guest_input_for(key: &KeyInput) -> (r: Option<GuestInput>)
    ensures
        opt_input_view(r) == guest_input_of(*key),
{
    match key {
        KeyInput::Character(s) => Some(GuestInput::Text(s.clone())),
        KeyInput::Space => Some(GuestInput::Text(" ".to_owned())),
        KeyInput::Enter => Some(GuestInput::KeyEvent(KEYCODE_ENTER)),
        KeyInput::Backspace => Some(GuestInput::KeyEvent(KEYCODE_DEL)),
        KeyInput::Tab => Some(GuestInput::KeyEvent(KEYCODE_TAB)),
        KeyInput::Escape => Some(GuestInput::KeyEvent(KEYCODE_ESCAPE)),
        KeyInput::ArrowUp => Some(GuestInput::KeyEvent(KEYCODE_DPAD_UP)),
        KeyInput::ArrowDown => Some(GuestInput::KeyEvent(KEYCODE_DPAD_DOWN)),
        KeyInput::ArrowLeft => Some(GuestInput::KeyEvent(KEYCODE_DPAD_LEFT)),
        KeyInput::ArrowRight => Some(GuestInput::KeyEvent(KEYCODE_DPAD_RIGHT)),
        KeyInput::Other => None,
    }
}

/// A world hotkey.
#[derive(PartialEq, Eq, Structural, Clone, Copy, Debug)]
pub enum Hotkey {
    /// Control+Q: end the application.
    Quit,
    /// Control+T: launch Termux; keys are not forwarded this frame.
    LaunchTermux,
    /// No hotkey: forward the pressed keys.
    Nothing,
}

/// The hotkey of this frame: Q or T just pressed while a Control key (left
/// or right) is held, Q first.
pub fn hotkey_action(ctrl_held: bool, q_just_pressed: bool, t_just_pressed: bool) -> (r: Hotkey)
    ensures
        r == (if q_just_pressed && ctrl_held {
            Hotkey::Quit
        } else if t_just_pressed && ctrl_held {
            Hotkey::LaunchTermux
        } else {
            Hotkey::Nothing
        }),
{
    if q_just_pressed && ctrl_held {
        Hotkey::Quit
    } else if t_just_pressed && ctrl_held {
        Hotkey::LaunchTermux
    } else {
        Hotkey::Nothing
    }
}

/// What a frame's key events (each with whether it is a press) become for
/// the guest, in order: releases and keys the guest does not see drop out.
pub open spec fn forwarded(events: Seq<(bool, KeyInput)>) -> Seq<GuestInputView>
    decreases events.len(),
{
    if events.len() == 0 {
        Seq::<GuestInputView>::empty()
    } else {
        let prev = forwarded(events.drop_last());
        let (pressed, k) = events.last();
        if pressed && guest_input_of(k) is Some {
            prev.push(guest_input_of(k)->0)
        } else {
            prev
        }
    }
}

/// What each key means to the guest: a text key its own text, Space a single
/// space, and Android's key codes 66 (Enter), 67 (Backspace), 61 (Tab), 111
/// (Escape), 19, 20, 21 and 22 (up, down, left, right); any other key
/// nothing.
pub proof fn law_key_meanings(text: String)
    ensures
        guest_input_of(KeyInput::Character(text)) == Some(GuestInputView::Text(text@)),
        guest_input_of(KeyInput::Space) == Some(GuestInputView::Text(seq![' '])),
        guest_input_of(KeyInput::Enter) == Some(GuestInputView::KeyEvent(66i32)),
        guest_input_of(KeyInput::Backspace) == Some(GuestInputView::KeyEvent(67i32)),
        guest_input_of(KeyInput::Tab) == Some(GuestInputView::KeyEvent(61i32)),
        guest_input_of(KeyInput::Escape) == Some(GuestInputView::KeyEvent(111i32)),
        guest_input_of(KeyInput::ArrowUp) == Some(GuestInputView::KeyEvent(19i32)),
        guest_input_of(KeyInput::ArrowDown) == Some(GuestInputView::KeyEvent(20i32)),
        guest_input_of(KeyInput::ArrowLeft) == Some(GuestInputView::KeyEvent(21i32)),
        guest_input_of(KeyInput::ArrowRight) == Some(GuestInputView::KeyEvent(22i32)),
        guest_input_of(KeyInput::Other) is None,
{
    reveal_strlit(" ");
    assert(" "@ =~= seq![' ']);
}

/// A released key contributes nothing, whatever the key: adding a release
/// to a frame's events leaves what the guest receives unchanged. A pressed
/// key adds its own meaning behind what came before, and nothing when the
/// guest does not see it.
pub proof fn law_only_presses_forward(events: Seq<(bool, KeyInput)>, k: KeyInput)
    ensures
        forwarded(events.push((false, k))) == forwarded(events),
        forwarded(events.push((true, k))) == match guest_input_of(k) {
            Some(g) => forwarded(events).push(g),
            None => forwarded(events),
        },
{
    assert(events.push((false, k)).drop_last() =~= events);
    assert(events.push((true, k)).drop_last() =~= events);
}

/// The events of two stretches forward what each stretch forwards on its
/// own, one after the other; so a frame made only of releases forwards
/// nothing.
pub proof fn law_forwarding_composes(a: Seq<(bool, KeyInput)>, b: Seq<(bool, KeyInput)>)
    ensures
        forwarded(a + b) == forwarded(a) + forwarded(b),
        (forall|i: int| 0 <= i < b.len() ==> !(#[trigger] b[i]).0) ==> forwarded(b).len() == 0,
    decreases b.len(),
{
    if b.len() == 0 {
        assert(a + b =~= a);
        assert(forwarded(a) + forwarded(b) =~= forwarded(a));
    } else {
        let b0 = b.drop_last();
        law_forwarding_composes(a, b0);
        assert((a + b).drop_last() =~= a + b0);
        assert((a + b).last() == b.last());
        let (pressed, k) = b.last();
        if guest_input_of(k) is Some && pressed {
            assert(forwarded(a) + forwarded(b0).push(guest_input_of(k)->0) =~= (forwarded(a)
                + forwarded(b0)).push(guest_input_of(k)->0));
        }
        if forall|i: int| 0 <= i < b.len() ==> !(#[trigger] b[i]).0 {
            assert forall|i: int| 0 <= i < b0.len() implies !(#[trigger] b0[i]).0 by {
                assert(b0[i] == b[i]);
            }
            assert(!b[b.len() - 1].0);
        }
    }
}

/// The guest inputs of a frame's key events, in order./// The guest inputs of a frame's key events, in order.
pub fn key_events_to_inputs(events: &Vec<(bool, KeyInput)>) -> (r: Vec<GuestInput>)
    ensures
        r@.map_values(|g: GuestInput| g@) == forwarded(events@),
{
    let mut out: Vec<GuestInput> = Vec::new();
    for i in 0..events.len()
        invariant
            out@.map_values(|g: GuestInput| g@) == forwarded(events@.take(i as int)),
    {
        assert(events@.take(i + 1).drop_last() == events@.take(i as int));
        assert(events@.take(i + 1).last() == events@[i as int]);
        let ghost before = out@;
        let pressed = events[i].0;
        if pressed {
            match guest_input_for(&events[i].1) {
                Some(g) => {
                    out.push(g);
                    assert(out@.map_values(|g: GuestInput| g@) =~= before.map_values(
                        |g: GuestInput| g@,
                    ).push(g@));
                },
                None => {},
            }
        }
    }
    assert(events@.take(events@.len() as int) == events@);
    out
}

} // verus!
