use vstd::prelude::*;

verus! {

/// An operation that would discard the open document, deferred until that
/// is allowed.
#[derive(Clone, Copy, Debug, PartialEq, Eq, Structural)]
pub enum CloseFileAction {
    OpenFile,
    NewFile,
    CloseWindow,
}

/// Guard in front of every operation that discards the open document: one
/// remembered intent, and a bypass that holds for one check.
#[derive(Debug)]
pub struct Attempt {
    action: Option<CloseFileAction>,
    override_once: bool,
}

/// What an `Attempt` holds, as plain values.
pub struct AttemptView {
    pub action: Option<CloseFileAction>,
    pub override_once: bool,
}

impl View for Attempt {
    type V = AttemptView;

    closed spec fn view(&self) -> AttemptView {
        AttemptView { action: self.action, override_once: self.override_once }
    }
}

/// The state with no remembered intent and no bypass.
pub open spec fn idle_attempt() -> AttemptView {
    AttemptView { action: None, override_once: false }
}

/// The state after a check with `condition`, and whether the check passed.
pub open spec fn checked(a: AttemptView, condition: bool) -> (AttemptView, bool) {
    if condition || a.override_once {
        (AttemptView { override_once: false, ..a }, true)
    } else {
        (a, false)
    }
}

/// The state after resolving with `condition`, and the intent to carry out.
///
/// With nothing remembered nothing happens, and the bypass is kept. Otherwise
/// the check decides; an intent that passes is handed out and forgotten, but
/// for closing the window, which ends the process anyway.
pub open spec fn resolved(a: AttemptView, condition: bool) -> (AttemptView, Option<CloseFileAction>) {
    match a.action {
        None => (a, None),
        Some(act) => {
            let (c, ok) = checked(a, condition);
            if !ok {
                (c, None)
            } else if act == CloseFileAction::CloseWindow {
                (c, Some(act))
            } else {
                (AttemptView { action: None, ..c }, Some(act))
            }
        },
    }
}

impl Default for Attempt {
    /// Nothing remembered, no bypass.
    fn default() -> (r: Attempt)
        ensures
            r@ == idle_attempt(),
    {
        Attempt { action: None, override_once: false }
    }
}

impl Attempt {
    /// Whether the guarded operation may go ahead: it may when `condition`
    /// holds or the bypass is set; passing uses the bypass up.
    pub fn check_condition(&mut self, condition: bool) -> (r: bool)
        ensures
            (final(self)@, r) == checked(old(self)@, condition),
    {
        if condition || self.override_once {
            self.override_once = false;
            true
        } else {
            false
        }
    }

    /// Remembers `action`, in place of any intent remembered before.
    pub fn set_action(&mut self, action: CloseFileAction)
        ensures
            final(self)@ == (AttemptView { action: Some(action), ..old(self)@ }),
    {
        self.action = Some(action);
    }

    /// The remembered intent, if any.
    pub fn action(&self) -> (r: Option<CloseFileAction>)
        ensures
            r == self@.action,
    {
        self.action
    }

    /// Forgets the remembered intent.
    pub fn reset_attempt(&mut self)
        ensures
            final(self)@ == (AttemptView { action: None, ..old(self)@ }),
    {
        self.action = None;
    }

    /// Lets the next check pass whatever its condition.
    pub fn allow_once(&mut self)
        ensures
            final(self)@ == (AttemptView { override_once: true, ..old(self)@ }),
    {
        self.override_once = true;
    }

    /// Whether the next check passes whatever its condition.
    pub fn is_overridden(&self) -> (r: bool)
        ensures
            r == self@.override_once,
    {
        self.override_once
    }

    /// Hands out the remembered intent if the check with `condition` lets it
    /// go ahead (see `resolved`).
    pub fn resolve(&mut self, condition: bool) -> (r: Option<CloseFileAction>)
        ensures
            (final(self)@, r) == resolved(old(self)@, condition),
    {
        match self.action {
            None => None,
            Some(act) => {
                if !self.check_condition(condition) {
                    None
                } else {
                    match act {
                        CloseFileAction::CloseWindow => {},
                        _ => {
                            self.action = None;
                        },
                    }
                    Some(act)
                }
            },
        }
    }
}

} // verus!
