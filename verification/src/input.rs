//! Controller inputs.

use vstd::prelude::*;

verus! {

#[derive(Debug, Clone, Copy, PartialEq, Eq, Structural)]
pub enum Button {
    A,
    B,
    Start,
    Select,
    Up,
    Down,
    Left,
    Right,
    Home,
}

impl Button {
    /// The button's name, as printed in labels.
    pub open spec fn called(self) -> Seq<char> {
        match self {
            Button::A => "A"@,
            Button::B => "B"@,
            Button::Start => "Start"@,
            Button::Select => "Select"@,
            Button::Up => "Up"@,
            Button::Down => "Down"@,
            Button::Left => "Left"@,
            Button::Right => "Right"@,
            Button::Home => "Home"@,
        }
    }

    pub fn name(self) -> (s: &'static str)
        ensures
            s@ == self.called(),
    {
        match self {
            Button::A => "A",
            Button::B => "B",
            Button::Start => "Start",
            Button::Select => "Select",
            Button::Up => "Up",
            Button::Down => "Down",
            Button::Left => "Left",
            Button::Right => "Right",
            Button::Home => "Home",
        }
    }
}

/// Which buttons are down.
#[derive(Debug, Clone, Copy, PartialEq, Eq, Structural)]
pub struct ButtonSet {
    pub a: bool,
    pub b: bool,
    pub start: bool,
    pub select: bool,
    pub up: bool,
    pub down: bool,
    pub left: bool,
    pub right: bool,
    pub home: bool,
}

impl ButtonSet {
    pub open spec fn holds(self, button: Button) -> bool {
        match button {
            Button::A => self.a,
            Button::B => self.b,
            Button::Start => self.start,
            Button::Select => self.select,
            Button::Up => self.up,
            Button::Down => self.down,
            Button::Left => self.left,
            Button::Right => self.right,
            Button::Home => self.home,
        }
    }

    pub open spec fn nothing() -> ButtonSet {
        ButtonSet {
            a: false,
            b: false,
            start: false,
            select: false,
            up: false,
            down: false,
            left: false,
            right: false,
            home: false,
        }
    }

    pub open spec fn with_spec(self, button: Button) -> ButtonSet {
        match button {
            Button::A => ButtonSet { a: true, ..self },
            Button::B => ButtonSet { b: true, ..self },
            Button::Start => ButtonSet { start: true, ..self },
            Button::Select => ButtonSet { select: true, ..self },
            Button::Up => ButtonSet { up: true, ..self },
            Button::Down => ButtonSet { down: true, ..self },
            Button::Left => ButtonSet { left: true, ..self },
            Button::Right => ButtonSet { right: true, ..self },
            Button::Home => ButtonSet { home: true, ..self },
        }
    }

    /// No button is down.
    pub fn none() -> (s: ButtonSet)
        ensures
            s == ButtonSet::nothing(),
            forall|b: Button| !s.holds(b),
    {
        ButtonSet {
            a: false,
            b: false,
            start: false,
            select: false,
            up: false,
            down: false,
            left: false,
            right: false,
            home: false,
        }
    }

    /// One more button down.
    pub fn with(self, button: Button) -> (s: ButtonSet)
        ensures
            s == self.with_spec(button),
            forall|b: Button| s.holds(b) == (b == button || self.holds(b)),
    {
        let mut s = self;
        match button {
            Button::A => s.a = true,
            Button::B => s.b = true,
            Button::Start => s.start = true,
            Button::Select => s.select = true,
            Button::Up => s.up = true,
            Button::Down => s.down = true,
            Button::Left => s.left = true,
            Button::Right => s.right = true,
            Button::Home => s.home = true,
        }
        s
    }

    pub open spec fn only_spec(button: Button) -> ButtonSet {
        ButtonSet::nothing().with_spec(button)
    }

    /// One button down.
    pub fn only(button: Button) -> (s: ButtonSet)
        ensures
            s == ButtonSet::only_spec(button),
            forall|b: Button| s.holds(b) == (b == button),
    {
        ButtonSet::none().with(button)
    }

    pub fn is_empty(&self) -> (r: bool)
        ensures
            r == (forall|b: Button| !self.holds(b)),
    {
        let r = !(self.a || self.b || self.start || self.select || self.up || self.down
            || self.left || self.right || self.home);
        proof {
            if !r {
                assert(self.holds(Button::A) || self.holds(Button::B) || self.holds(Button::Start)
                    || self.holds(Button::Select) || self.holds(Button::Up) || self.holds(
                    Button::Down,
                ) || self.holds(Button::Left) || self.holds(Button::Right) || self.holds(
                    Button::Home,
                ));
            }
        }
        r
    }
}

/// Buttons held for a time.
#[derive(Debug, Clone, Copy, PartialEq, Eq, Structural)]
pub struct TimedInput {
    pub buttons: ButtonSet,
    pub millis: u64,
}

#[derive(Debug, Clone, PartialEq, Eq)]
pub enum ControllerCommand {
    /// One short press.
    Press(Button),
    Hold { buttons: ButtonSet, millis: u64 },
    Sequence(Vec<TimedInput>),
}

/// What a command sends.
pub enum CommandV {
    Press(Button),
    Hold { buttons: ButtonSet, millis: u64 },
    Sequence(Seq<TimedInput>),
}

impl View for ControllerCommand {
    type V = CommandV;

    open spec fn view(&self) -> CommandV {
        match *self {
            ControllerCommand::Press(b) => CommandV::Press(b),
            ControllerCommand::Hold { buttons, millis } => CommandV::Hold { buttons, millis },
            ControllerCommand::Sequence(inputs) => CommandV::Sequence(inputs@),
        }
    }
}

/// What a list of commands sends, in order.
pub open spec fn commands_of(s: Seq<ControllerCommand>) -> Seq<CommandV> {
    s.map_values(|c: ControllerCommand| c@)
}

#[derive(Debug, Clone, Copy, PartialEq, Eq, Structural)]
pub enum Direction {
    Up,
    Down,
    Left,
    Right,
}

} // verus!
