use vstd::prelude::*;

verus! {

/// One step that the client performs against the service.
#[derive(Debug, Clone)]
pub enum Command {
    ActivateContext,
    ShowInputMethod,
    HideInputMethod,
    SetPreedit(String, i32),
    StartEventProcessing,
    StopEventProcessing,
    Reset,
}

/// The steps of showing: the context is activated before the keyboard is
/// shown, the optional pre-edit text is seeded, and event processing starts.
pub open spec fn show_plan(seed: Option<(String, i32)>) -> Seq<Command> {
    let head = seq![Command::ActivateContext, Command::ShowInputMethod];
    let seeded = match seed {
        Some(s) => head.push(Command::SetPreedit(s.0, s.1)),
        None => head,
    };
    seeded.push(Command::StartEventProcessing)
}

/// The steps of hiding: the context is activated before the keyboard is
/// hidden, then event processing stops.
pub open spec fn hide_plan() -> Seq<Command> {
    seq![Command::ActivateContext, Command::HideInputMethod, Command::StopEventProcessing]
}

/// Whether the keyboard was last shown or hidden; hidden at first.
pub struct InputMethodState {
    pub shown: bool,
}

impl InputMethodState {
    pub fn new() -> (r: InputMethodState)
        ensures
            !r.shown,
    {
        InputMethodState { shown: false }
    }

    /// Moves to the shown state and returns the steps that get there.
    pub fn to_shown(&mut self, seed: Option<(String, i32)>) -> (r: Vec<Command>)
        ensures
            final(self).shown,
            r@ == show_plan(seed),
    {
        let mut steps: Vec<Command> = Vec::new();
        steps.push(Command::ActivateContext);
        steps.push(Command::ShowInputMethod);
        match seed {
            Some((text, cursor)) => steps.push(Command::SetPreedit(text, cursor)),
            None => {},
        }
        steps.push(Command::StartEventProcessing);
        self.shown = true;
        proof {
            assert(steps@ =~= show_plan(seed));
        }
        steps
    }

    /// Moves to the hidden state and returns the steps that get there.
    pub fn to_hidden(&mut self) -> (r: Vec<Command>)
        ensures
            !final(self).shown,
            r@ == hide_plan(),
    {
        self.shown = false;
        let r = vec![Command::ActivateContext, Command::HideInputMethod, Command::StopEventProcessing];
        proof {
            assert(r@ =~= hide_plan());
        }
        r
    }

    /// The steps of a reset, which leaves the shown or hidden state as it is.
    pub fn reset_steps(&self) -> (r: Vec<Command>)
        ensures
            r@ == seq![Command::Reset],
    {
        let r = vec![Command::Reset];
        proof {
            assert(r@ =~= seq![Command::Reset]);
        }
        r
    }
}

} // verus!
