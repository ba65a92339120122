//! Minimal ASCII status indicator: a small state machine with an animation frame.
use vstd::prelude::*;

verus! {

/// Status state of the indicator.
#[derive(Debug, Clone, Copy, PartialEq, Eq, Structural)]
pub enum CompanionState {
    Idle,
    Loading,
    Searching,
    Success,
    Error,
    Thinking,
}

/// Minimal status indicator (ASCII only).
pub struct Mascot {
    state: CompanionState,
    frame: usize,
}

/// The glyph shown for a state at a given animation frame.
pub open spec fn glyph(state: CompanionState, frame: nat) -> Seq<char> {
    match state {
        CompanionState::Idle => "-"@,
        CompanionState::Loading | CompanionState::Searching => spinner_glyph(frame % 4),
        CompanionState::Success => "+"@,
        CompanionState::Error => "!"@,
        CompanionState::Thinking => dots_glyph(frame % 3),
    }
}

/// The four spinner glyphs, in order.
pub open spec fn spinner_glyph(i: nat) -> Seq<char> {
    if i == 0 { "-"@ } else if i == 1 { "\\"@ } else if i == 2 { "|"@ } else { "/"@ }
}

/// The three "thinking" glyphs, in order.
pub open spec fn dots_glyph(i: nat) -> Seq<char> {
    if i == 0 { "."@ } else if i == 1 { ".."@ } else { "..."@ }
}

impl Mascot {
    pub closed spec fn spec_state(&self) -> CompanionState {
        self.state
    }

    pub closed spec fn spec_frame(&self) -> nat {
        self.frame as nat
    }

    pub fn new() -> (m: Self)
        ensures
            m.spec_state() == CompanionState::Idle,
            m.spec_frame() == 0,
    {
        Mascot { state: CompanionState::Idle, frame: 0 }
    }

    pub fn set_state(&mut self, state: CompanionState)
        ensures
            final(self).spec_state() == state,
            final(self).spec_frame() == if old(self).spec_state() == state {
                old(self).spec_frame()
            } else {
                0
            },
    {
        if self.state != state {
            self.state = state;
            self.frame = 0;
        }
    }

    pub fn state(&self) -> (s: CompanionState)
        ensures
            s == self.spec_state(),
    {
        self.state
    }

    pub fn tick(&mut self)
        ensures
            final(self).spec_state() == old(self).spec_state(),
            final(self).spec_frame() == if old(self).spec_frame() == usize::MAX as nat {
                0
            } else {
                old(self).spec_frame() + 1
            },
    {
        if self.frame == usize::MAX {
            self.frame = 0;
        } else {
            self.frame = self.frame + 1;
        }
    }

    pub fn view(&self) -> (r: &'static str)
        ensures
            r@ == glyph(self.spec_state(), self.spec_frame()),
    {
        match self.state {
            CompanionState::Idle => "-",
            CompanionState::Loading | CompanionState::Searching => {
                let i = self.frame % 4;
                if i == 0 {
                    "-"
                } else if i == 1 {
                    "\\"
                } else if i == 2 {
                    "|"
                } else {
                    "/"
                }
            },
            CompanionState::Success => "+",
            CompanionState::Error => "!",
            CompanionState::Thinking => {
                let i = self.frame % 3;
                if i == 0 {
                    "."
                } else if i == 1 {
                    ".."
                } else {
                    "..."
                }
            },
        }
    }

    /// Status bar version of the indicator.
    pub fn view_status(&self) -> (r: &'static str)
        ensures
            r@ == glyph(self.spec_state(), self.spec_frame()),
    {
        self.view()
    }

    /// Same indicator (kept for older callers).
    pub fn view_mini(&self) -> (r: &'static str)
        ensures
            r@ == glyph(self.spec_state(), self.spec_frame()),
    {
        self.view()
    }

    /// Same indicator (kept for older callers).
    pub fn view_compact(&self) -> (r: &'static str)
        ensures
            r@ == glyph(self.spec_state(), self.spec_frame()),
    {
        self.view()
    }

    /// Same indicator (kept for older callers).
    pub fn view_with_label(&self) -> (r: &'static str)
        ensures
            r@ == glyph(self.spec_state(), self.spec_frame()),
    {
        self.view()
    }
}

impl Default for Mascot {
    fn default() -> (m: Self)
        ensures
            m.spec_state() == CompanionState::Idle,
            m.spec_frame() == 0,
    {
        Mascot::new()
    }
}

/// The text of the minimal splash screen.
pub open spec fn splash_text() -> Seq<char> {
    "\n\n    a z u l\n\n    / search\n    ? help\n"@
}

/// Minimal splash for the empty state.
pub fn mini_splash() -> (r: &'static str)
    ensures
        r@ == splash_text(),
{
    "\n\n    a z u l\n\n    / search\n    ? help\n"
}

/// The splash screen (the minimal one).
pub fn splash_art() -> (r: &'static str)
    ensures
        r@ == splash_text(),
{
    mini_splash()
}

/// The farewell text.
pub fn bye_art() -> (r: &'static str)
    ensures
        r@ == "bye"@,
{
    "bye"
}

/// Every glyph is non-empty.
pub proof fn law_glyph_nonempty(state: CompanionState, frame: nat)
    ensures
        glyph(state, frame).len() > 0,
{
    reveal_strlit("-");
    reveal_strlit("\\");
    reveal_strlit("|");
    reveal_strlit("/");
    reveal_strlit("+");
    reveal_strlit("!");
    reveal_strlit(".");
    reveal_strlit("..");
    reveal_strlit("...");
}

} // verus!
