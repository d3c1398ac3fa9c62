use vstd::prelude::*;

verus! {

/// Whether the application may become the foreground application.
#[derive(Clone, Copy, Debug, PartialEq, Eq, Structural)]
pub enum ActivationPolicy {
    Regular,
    Accessory,
    Prohibited,
}

/// The process-wide user-interface state that showing an alert touches.
#[derive(Clone, Copy, Debug, PartialEq, Eq, Structural)]
pub struct UiState {
    pub policy: ActivationPolicy,
    /// The window that has keyboard focus, by native window number.
    pub key_window: Option<u64>,
}

/// The policy in force while an alert is shown: a prohibited application
/// is allowed to come forward as an accessory.
pub open spec fn policy_while_shown(p: ActivationPolicy) -> ActivationPolicy {
    if p == ActivationPolicy::Prohibited {
        ActivationPolicy::Accessory
    } else {
        p
    }
}

impl ActivationPolicy {
    /// The native constant of the policy.
    pub fn code(self) -> (r: i64)
        ensures
            r == policy_code(self),
    {
        match self {
            ActivationPolicy::Regular => 0,
            ActivationPolicy::Accessory => 1,
            ActivationPolicy::Prohibited => 2,
        }
    }

    /// The policy of a native constant; unknown constants are `None`.
    pub fn from_code(code: i64) -> (r: Option<ActivationPolicy>)
        ensures
            r matches Some(p) ==> policy_code(p) == code,
            r is None <==> !(0 <= code <= 2),
    {
        if code == 0 {
            Some(ActivationPolicy::Regular)
        } else if code == 1 {
            Some(ActivationPolicy::Accessory)
        } else if code == 2 {
            Some(ActivationPolicy::Prohibited)
        } else {
            None
        }
    }
}

pub open spec fn policy_code(p: ActivationPolicy) -> int {
    match p {
        ActivationPolicy::Regular => 0,
        ActivationPolicy::Accessory => 1,
        ActivationPolicy::Prohibited => 2,
    }
}

/// Remembers the activation policy found when it was taken.
#[derive(Clone, Copy, Debug)]
pub struct PolicyGuard {
    pub initial: ActivationPolicy,
}

impl PolicyGuard {
    pub fn acquire(ui: &mut UiState) -> (g: PolicyGuard)
        ensures
            g.initial == old(ui).policy,
            final(ui).policy == policy_while_shown(old(ui).policy),
            final(ui).key_window == old(ui).key_window,
    {
        let initial = ui.policy;
        if initial == ActivationPolicy::Prohibited {
            ui.policy = ActivationPolicy::Accessory;
        }
        PolicyGuard { initial }
    }

    /// Puts the remembered policy back.
    pub fn release(self, ui: &mut UiState)
        ensures
            final(ui).policy == self.initial,
            final(ui).key_window == old(ui).key_window,
    {
        ui.policy = self.initial;
    }
}

/// Remembers the key window found when it was taken.
#[derive(Clone, Copy, Debug)]
pub struct FocusGuard {
    pub key_window: Option<u64>,
}

/// The key window after a focus guard that remembered `saved` is released:
/// the remembered window is made key again; with none remembered nothing moves.
pub open spec fn key_window_after_release(saved: Option<u64>, current: Option<u64>) -> Option<u64> {
    if saved is Some {
        saved
    } else {
        current
    }
}

/// The state after guards that found `prior` are released in state `current`.
pub open spec fn restored(prior: UiState, current: UiState) -> UiState {
    UiState {
        policy: prior.policy,
        key_window: key_window_after_release(prior.key_window, current.key_window),
    }
}

impl FocusGuard {
    pub fn acquire(ui: &UiState) -> (g: FocusGuard)
        ensures
            g.key_window == ui.key_window,
    {
        FocusGuard { key_window: ui.key_window }
    }

    pub fn release(self, ui: &mut UiState)
        ensures
            final(ui).key_window == key_window_after_release(self.key_window, old(ui).key_window),
            final(ui).policy == old(ui).policy,
    {
        if self.key_window.is_some() {
            ui.key_window = self.key_window;
        }
    }
}

/// Both guards an alert holds: the policy guard is taken first and released last.
#[derive(Clone, Copy, Debug)]
pub struct UiGuards {
    pub policy: PolicyGuard,
    pub focus: FocusGuard,
}

impl UiGuards {
    /// The state that was found when the guards were taken.
    pub open spec fn prior(self) -> UiState {
        UiState { policy: self.policy.initial, key_window: self.focus.key_window }
    }

    pub fn acquire(ui: &mut UiState) -> (g: UiGuards)
        ensures
            g.prior() == *old(ui),
            final(ui).policy == policy_while_shown(old(ui).policy),
            final(ui).key_window == old(ui).key_window,
    {
        let policy = PolicyGuard::acquire(ui);
        let focus = FocusGuard::acquire(ui);
        UiGuards { policy, focus }
    }

    /// Releases the guards in the reverse of the order in which they were taken.
    pub fn release(self, ui: &mut UiState)
        ensures
            *final(ui) == restored(self.prior(), *old(ui)),
    {
        let UiGuards { policy, focus } = self;
        focus.release(ui);
        policy.release(ui);
    }
}

} // verus!
