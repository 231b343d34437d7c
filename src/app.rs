use vstd::prelude::*;
use crate::ui::keyboard::{KeyboardUI, VisualKey, renders_layout};

verus! {

/// What the application reacts to; no event carries data yet.
#[derive(Clone, Copy, Debug, PartialEq, Eq, Structural)]
pub enum Message {
    Idle,
}

/// The application's state: the one keyboard it shows.
pub struct TypingApp {
    pub keyboard: KeyboardUI,
}

impl Default for TypingApp {
    fn default() -> (a: Self)
        ensures
            a.keyboard.structure.wf(),
            a.keyboard.structure.is_qwerty(),
    {
        TypingApp { keyboard: KeyboardUI::default() }
    }
}

impl TypingApp {
    /// Reacts to a message. No message changes anything yet.
    pub fn update(&mut self, _message: Message)
        ensures
            *final(self) == *old(self),
    {
    }

    /// What the window shows: the keyboard, rendered.
    pub fn view(&self) -> (r: Vec<Vec<VisualKey>>)
        ensures
            renders_layout(r@, self.keyboard.structure),
    {
        self.keyboard.build()
    }
}

} // verus!
