use vstd::prelude::*;

verus! {

/// How many log lines the control panel keeps.
pub const LOG_CAPACITY: usize = 300;

/// The log after one more message: the message comes first, and the oldest
/// line drops off the end.
pub open spec fn log_after(log: Seq<Option<String>>, message: String) -> Seq<Option<String>> {
    seq![Some(message)] + log.take(LOG_CAPACITY - 1)
}

/// The selection after an event of `gamepad`: the first gamepad heard from is
/// selected; a selection, once made, is kept.
pub open spec fn selection_after(current: Option<usize>, gamepad: usize) -> Option<usize> {
    match current {
        Some(g) => Some(g),
        None => Some(gamepad),
    }
}

/// The state of the gamepad control panel: the gamepad whose details are
/// shown, and a fixed number of log lines, newest first, empty slots last.
pub struct GamepadPanelState {
    current_gamepad: Option<usize>,
    log_messages: Vec<Option<String>>,
}

impl GamepadPanelState {
    pub closed spec fn wf(&self) -> bool {
        self.log_messages@.len() == LOG_CAPACITY
    }

    pub closed spec fn current_spec(&self) -> Option<usize> {
        self.current_gamepad
    }

    pub closed spec fn log_spec(&self) -> Seq<Option<String>> {
        self.log_messages@
    }

    /// No gamepad selected, every log slot empty.
    pub fn new() -> (r: GamepadPanelState)
        ensures
            r.wf(),
            r.current_spec() is None,
            r.log_spec() == Seq::new(LOG_CAPACITY as nat, |i: int| None::<String>),
    {
        let mut log_messages: Vec<Option<String>> = Vec::new();
        let mut i: usize = 0;
        while i < LOG_CAPACITY
            invariant
                i <= LOG_CAPACITY,
                log_messages@ =~= Seq::new(i as nat, |k: int| None::<String>),
            decreases LOG_CAPACITY - i,
        {
            log_messages.push(None);
            i = i + 1;
        }
        GamepadPanelState { current_gamepad: None, log_messages }
    }

    pub fn current_gamepad(&self) -> (r: Option<usize>)
        ensures
            r == self.current_spec(),
    {
        self.current_gamepad
    }

    /// The log lines, newest first.
    pub fn log_messages(&self) -> (r: &Vec<Option<String>>)
        ensures
            r@ == self.log_spec(),
    {
        &self.log_messages
    }

    pub fn is_selected(&self, gamepad: usize) -> (r: bool)
        ensures
            r == (self.current_spec() == Some(gamepad)),
    {
        match self.current_gamepad {
            Some(g) => g == gamepad,
            None => false,
        }
    }

    /// Shows the details of `gamepad` from now on.
    pub fn select(&mut self, gamepad: usize)
        requires
            old(self).wf(),
        ensures
            final(self).wf(),
            final(self).current_spec() == Some(gamepad),
            final(self).log_spec() == old(self).log_spec(),
    {
        self.current_gamepad = Some(gamepad);
    }

    /// Puts `message` at the top of the log, dropping the oldest line.
    pub fn log(&mut self, message: String)
        requires
            old(self).wf(),
        ensures
            final(self).wf(),
            final(self).log_spec() == log_after(old(self).log_spec(), message),
            final(self).current_spec() == old(self).current_spec(),
    {
        let ghost before = self.log_messages@;
        self.log_messages.insert(0, Some(message));
        self.log_messages.pop();
        assert(self.log_messages@ =~= log_after(before, message));
    }

    /// Handles one input event of `gamepad`, described by `message`: logs it,
    /// and selects the gamepad if none is selected yet.
    pub fn record_event(&mut self, gamepad: usize, message: String)
        requires
            old(self).wf(),
        ensures
            final(self).wf(),
            final(self).log_spec() == log_after(old(self).log_spec(), message),
            final(self).current_spec() == selection_after(old(self).current_spec(), gamepad),
    {
        self.log(message);
        if self.current_gamepad.is_none() {
            self.current_gamepad = Some(gamepad);
        }
    }
}

} // verus!
