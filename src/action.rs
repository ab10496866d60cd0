use vstd::prelude::*;

verus! {

/// A user command, posted by a button or a global hotkey.
#[derive(Clone, Copy, Debug, PartialEq, Eq, Structural)]
pub enum Action {
    New,
    Save,
    Undo,
    Redo,
    Cancel,
}

/// The wire code of an action: 1 = new, 2 = save, 3 = undo, 4 = redo, 5 = cancel.
pub open spec fn code_of(a: Action) -> u32 {
    match a {
        Action::New => 1,
        Action::Save => 2,
        Action::Undo => 3,
        Action::Redo => 4,
        Action::Cancel => 5,
    }
}

/// The action a wire code names; 0 and codes above 5 name none.
pub open spec fn action_of(code: u32) -> Option<Action> {
    if code == 1 {
        Some(Action::New)
    } else if code == 2 {
        Some(Action::Save)
    } else if code == 3 {
        Some(Action::Undo)
    } else if code == 4 {
        Some(Action::Redo)
    } else if code == 5 {
        Some(Action::Cancel)
    } else {
        None
    }
}

pub fn action_code(a: Action) -> (r: u32)
    ensures
        r == code_of(a),
        1 <= r <= 5,
{
    match a {
        Action::New => 1,
        Action::Save => 2,
        Action::Undo => 3,
        Action::Redo => 4,
        Action::Cancel => 5,
    }
}

pub fn action_from_code(code: u32) -> (r: Option<Action>)
    ensures
        r == action_of(code),
        r is Some <==> 1 <= code <= 5,
{
    match code {
        1 => Some(Action::New),
        2 => Some(Action::Save),
        3 => Some(Action::Undo),
        4 => Some(Action::Redo),
        5 => Some(Action::Cancel),
        _ => None,
    }
}

/// Decoding the code of an action gives the action back.
pub proof fn lemma_code_round_trip(a: Action)
    ensures
        action_of(code_of(a)) == Some(a),
{
}

/// The action flag: a one-slot mailbox between the command dispatcher and
/// the periodic controller. A post overwrites whatever is pending; a take
/// reads the pending action and clears the slot.
pub struct ActionMailbox {
    pub pending: Option<Action>,
}

impl ActionMailbox {
    pub fn new() -> (r: Self)
        ensures
            r.pending is None,
    {
        ActionMailbox { pending: None }
    }

    /// Stores `a` as the pending action; only the latest post survives.
    pub fn post(&mut self, a: Action)
        ensures
            final(self).pending == Some(a),
    {
        self.pending = Some(a);
    }

    /// Stores the action named by a wire code; an unknown code leaves the
    /// slot as it was and returns false.
    pub fn post_code(&mut self, code: u32) -> (r: bool)
        ensures
            r <==> action_of(code) is Some,
            r ==> final(self).pending == action_of(code),
            !r ==> *final(self) == *old(self),
    {
        match action_from_code(code) {
            Some(a) => {
                self.post(a);
                true
            },
            None => false,
        }
    }

    /// Reads the pending action and clears the slot.
    pub fn take(&mut self) -> (r: Option<Action>)
        ensures
            r == old(self).pending,
            final(self).pending is None,
    {
        let r = self.pending;
        self.pending = None;
        r
    }
}

} // verus!
