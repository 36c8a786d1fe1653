//! The input events that the overlay forwards to its server.

use vstd::prelude::*;

verus! {

/// The kind of an input event.
#[derive(Clone, Copy, PartialEq, Eq, Structural, Debug)]
pub enum InputEventType {
    KeyDown,
    KeyUp,
    Char,
    MouseDown,
    MouseUp,
    MouseMove,
    MouseWheel,
}

impl InputEventType {
    pub open spec fn spec_name(self) -> Seq<char> {
        match self {
            InputEventType::KeyDown => "keyDown"@,
            InputEventType::KeyUp => "keyUp"@,
            InputEventType::Char => "char"@,
            InputEventType::MouseDown => "mouseDown"@,
            InputEventType::MouseUp => "mouseUp"@,
            InputEventType::MouseMove => "mouseMove"@,
            InputEventType::MouseWheel => "mouseWheel"@,
        }
    }

    /// The name under which the event type is sent.
    pub fn name(&self) -> (name: &'static str)
        ensures
            name@ == self.spec_name(),
    {
        match self {
            InputEventType::KeyDown => "keyDown",
            InputEventType::KeyUp => "keyUp",
            InputEventType::Char => "char",
            InputEventType::MouseDown => "mouseDown",
            InputEventType::MouseUp => "mouseUp",
            InputEventType::MouseMove => "mouseMove",
            InputEventType::MouseWheel => "mouseWheel",
        }
    }
}

/// A modifier attached to an input event.
#[derive(Clone, Copy, PartialEq, Eq, Structural, Debug)]
pub enum InputModifier {
    Shift,
    Control,
    Alt,
    Meta,
    NumLock,
    CapsLock,
    IsKeypad,
    Left,
    Right,
    LeftButtonDown,
    RightButtonDown,
    MiddleButtonDown,
}

impl InputModifier {
    pub open spec fn spec_name(self) -> Seq<char> {
        match self {
            InputModifier::Shift => "shift"@,
            InputModifier::Control => "control"@,
            InputModifier::Alt => "alt"@,
            InputModifier::Meta => "meta"@,
            InputModifier::NumLock => "numLock"@,
            InputModifier::CapsLock => "capsLock"@,
            InputModifier::IsKeypad => "isKeypad"@,
            InputModifier::Left => "left"@,
            InputModifier::Right => "right"@,
            InputModifier::LeftButtonDown => "leftButtonDown"@,
            InputModifier::RightButtonDown => "rightButtonDown"@,
            InputModifier::MiddleButtonDown => "middleButtonDown"@,
        }
    }

    /// The name under which the modifier is sent.
    pub fn name(&self) -> (name: &'static str)
        ensures
            name@ == self.spec_name(),
    {
        match self {
            InputModifier::Shift => "shift",
            InputModifier::Control => "control",
            InputModifier::Alt => "alt",
            InputModifier::Meta => "meta",
            InputModifier::NumLock => "numLock",
            InputModifier::CapsLock => "capsLock",
            InputModifier::IsKeypad => "isKeypad",
            InputModifier::Left => "left",
            InputModifier::Right => "right",
            InputModifier::LeftButtonDown => "leftButtonDown",
            InputModifier::RightButtonDown => "rightButtonDown",
            InputModifier::MiddleButtonDown => "middleButtonDown",
        }
    }
}

/// The mouse button of a mouse event.
#[derive(Clone, Copy, PartialEq, Eq, Structural, Debug)]
pub enum MouseButton {
    Left,
    Right,
    Middle,
}

impl MouseButton {
    pub open spec fn spec_name(self) -> Seq<char> {
        match self {
            MouseButton::Left => "left"@,
            MouseButton::Right => "right"@,
            MouseButton::Middle => "middle"@,
        }
    }

    /// The name under which the button is sent.
    pub fn name(&self) -> (name: &'static str)
        ensures
            name@ == self.spec_name(),
    {
        match self {
            MouseButton::Left => "left",
            MouseButton::Right => "right",
            MouseButton::Middle => "middle",
        }
    }
}

/// An input event as it is sent to the server. A field that an event does not
/// set keeps its default: no type, an empty key code, zero, `false`, no button.
pub struct InputEvent {
    pub event_type: Option<InputEventType>,
    pub key_code: String,
    pub modifiers: Vec<InputModifier>,
    pub click_count: i32,
    pub delta_y: i32,
    pub can_scroll: bool,
    pub x: i32,
    pub y: i32,
    pub button: Option<MouseButton>,
}

/// The mathematical value of an [`InputEvent`].
pub struct InputEventView {
    pub event_type: Option<InputEventType>,
    pub key_code: Seq<char>,
    pub modifiers: Seq<InputModifier>,
    pub click_count: i32,
    pub delta_y: i32,
    pub can_scroll: bool,
    pub x: i32,
    pub y: i32,
    pub button: Option<MouseButton>,
}

impl View for InputEvent {
    type V = InputEventView;

    open spec fn view(&self) -> InputEventView {
        InputEventView {
            event_type: self.event_type,
            key_code: self.key_code@,
            modifiers: self.modifiers@,
            click_count: self.click_count,
            delta_y: self.delta_y,
            can_scroll: self.can_scroll,
            x: self.x,
            y: self.y,
            button: self.button,
        }
    }
}

/// The event with every field at its default.
pub open spec fn default_input_event_view() -> InputEventView {
    InputEventView {
        event_type: None,
        key_code: Seq::empty(),
        modifiers: Seq::empty(),
        click_count: 0,
        delta_y: 0,
        can_scroll: false,
        x: 0,
        y: 0,
        button: None,
    }
}

impl InputEvent {
    /// An event with every field at its default.
    pub fn new() -> (event: InputEvent)
        ensures
            event@ == default_input_event_view(),
    {
        InputEvent {
            event_type: None,
            key_code: String::new(),
            modifiers: Vec::new(),
            click_count: 0,
            delta_y: 0,
            can_scroll: false,
            x: 0,
            y: 0,
            button: None,
        }
    }
}

/// Each event type is sent under its own fixed name, and no two share a name, so the
/// server can tell them apart.
pub proof fn lemma_input_event_type_names(a: InputEventType, b: InputEventType)
    ensures
        InputEventType::KeyDown.spec_name() == "keyDown"@,
        InputEventType::KeyUp.spec_name() == "keyUp"@,
        InputEventType::Char.spec_name() == "char"@,
        InputEventType::MouseDown.spec_name() == "mouseDown"@,
        InputEventType::MouseUp.spec_name() == "mouseUp"@,
        InputEventType::MouseMove.spec_name() == "mouseMove"@,
        InputEventType::MouseWheel.spec_name() == "mouseWheel"@,
        a.spec_name() == b.spec_name() ==> a == b,
{
    reveal_strlit("char");
    reveal_strlit("keyDown");
    reveal_strlit("keyUp");
    reveal_strlit("mouseDown");
    reveal_strlit("mouseMove");
    reveal_strlit("mouseUp");
    reveal_strlit("mouseWheel");
    if a.spec_name() == b.spec_name() {
        assert(a.spec_name().len() == b.spec_name().len());
        assert(a.spec_name()[0] == b.spec_name()[0]);
        assert(a.spec_name()[5] == b.spec_name()[5]);
    }
}

/// Each modifier is sent under its own fixed name, and no two share a name, so the
/// server can tell them apart.
pub proof fn lemma_input_modifier_names(a: InputModifier, b: InputModifier)
    ensures
        InputModifier::Shift.spec_name() == "shift"@,
        InputModifier::Control.spec_name() == "control"@,
        InputModifier::Alt.spec_name() == "alt"@,
        InputModifier::Meta.spec_name() == "meta"@,
        InputModifier::NumLock.spec_name() == "numLock"@,
        InputModifier::CapsLock.spec_name() == "capsLock"@,
        InputModifier::IsKeypad.spec_name() == "isKeypad"@,
        InputModifier::Left.spec_name() == "left"@,
        InputModifier::Right.spec_name() == "right"@,
        InputModifier::LeftButtonDown.spec_name() == "leftButtonDown"@,
        InputModifier::RightButtonDown.spec_name() == "rightButtonDown"@,
        InputModifier::MiddleButtonDown.spec_name() == "middleButtonDown"@,
        a.spec_name() == b.spec_name() ==> a == b,
{
    reveal_strlit("alt");
    reveal_strlit("capsLock");
    reveal_strlit("control");
    reveal_strlit("isKeypad");
    reveal_strlit("left");
    reveal_strlit("leftButtonDown");
    reveal_strlit("meta");
    reveal_strlit("middleButtonDown");
    reveal_strlit("numLock");
    reveal_strlit("right");
    reveal_strlit("rightButtonDown");
    reveal_strlit("shift");
    if a.spec_name() == b.spec_name() {
        assert(a.spec_name().len() == b.spec_name().len());
        assert(a.spec_name()[0] == b.spec_name()[0]);
        assert(a.spec_name()[5] == b.spec_name()[5]);
    }
}

/// Each mouse button is sent under its own fixed name, and no two share a name, so the
/// server can tell them apart.
pub proof fn lemma_mouse_button_names(a: MouseButton, b: MouseButton)
    ensures
        MouseButton::Left.spec_name() == "left"@,
        MouseButton::Right.spec_name() == "right"@,
        MouseButton::Middle.spec_name() == "middle"@,
        a.spec_name() == b.spec_name() ==> a == b,
{
    reveal_strlit("left");
    reveal_strlit("middle");
    reveal_strlit("right");
    if a.spec_name() == b.spec_name() {
        assert(a.spec_name().len() == b.spec_name().len());
        assert(a.spec_name()[0] == b.spec_name()[0]);
        assert(a.spec_name()[5] == b.spec_name()[5]);
    }
}

} // verus!
