//! Whether a runtime is the active one, per registration width.

use vstd::prelude::*;
use vstd::string::*;

verus! {

/// Activity of one logical runtime, derived from a snapshot of the
/// active-runtime configuration.
///
/// The native width is the 64-bit registration, the narrow width the
/// 32-bit one; a platform without widths reports
/// `ActiveIndependentRuntime`.
#[derive(Debug, Clone, Copy, PartialEq, Eq, Structural)]
pub enum ActiveState {
    NotActive,
    ActiveIndependentRuntime,
    ActiveNativeOnly,
    ActiveNarrowOnly,
    ActiveBoth,
}

impl ActiveState {
    /// The state of a runtime that is, or is not, the active one of each
    /// width.
    pub open spec fn of_widths(is_native_active: bool, is_narrow_active: bool) -> ActiveState {
        if is_native_active && is_narrow_active {
            ActiveState::ActiveBoth
        } else if is_native_active {
            ActiveState::ActiveNativeOnly
        } else if is_narrow_active {
            ActiveState::ActiveNarrowOnly
        } else {
            ActiveState::NotActive
        }
    }

    /// Is some width of the runtime not active, so that activation is
    /// to be offered?
    pub open spec fn offers_activation(self) -> bool {
        self != ActiveState::ActiveIndependentRuntime && self != ActiveState::ActiveBoth
    }

    /// The label shown for this state.
    pub open spec fn label(self) -> Seq<char> {
        match self {
            ActiveState::NotActive => ""@,
            ActiveState::ActiveIndependentRuntime => "Active"@,
            ActiveState::ActiveNativeOnly => "Active - 64-bit only"@,
            ActiveState::ActiveNarrowOnly => "Active - 32-bit only"@,
            ActiveState::ActiveBoth => "Active"@,
        }
    }

    /// Turn a pair of booleans (one for native, one for narrow) into an
    /// active state.
    pub fn from_native_and_narrow_activity(is_native_active: bool, is_narrow_active: bool) -> (state: ActiveState)
        ensures
            state == ActiveState::of_widths(is_native_active, is_narrow_active),
    {
        match (is_native_active, is_narrow_active) {
            (true, true) => ActiveState::ActiveBoth,
            (true, false) => ActiveState::ActiveNativeOnly,
            (false, true) => ActiveState::ActiveNarrowOnly,
            (false, false) => ActiveState::NotActive,
        }
    }

    /// Is this state at least somewhat inactive, such that activation
    /// should be offered?
    pub fn should_provide_make_active_button(&self) -> (offer: bool)
        ensures
            offer == self.offers_activation(),
    {
        match self {
            ActiveState::NotActive => true,
            ActiveState::ActiveIndependentRuntime => false,
            ActiveState::ActiveNativeOnly => true,
            ActiveState::ActiveNarrowOnly => true,
            ActiveState::ActiveBoth => false,
        }
    }

    /// The label shown for this state; empty when the runtime is not
    /// active.
    pub fn to_string(&self) -> (text: String)
        ensures
            text@ == self.label(),
    {
        match self {
            ActiveState::NotActive => String::from_str(""),
            ActiveState::ActiveIndependentRuntime => String::from_str("Active"),
            ActiveState::ActiveNativeOnly => String::from_str("Active - 64-bit only"),
            ActiveState::ActiveNarrowOnly => String::from_str("Active - 32-bit only"),
            ActiveState::ActiveBoth => String::from_str("Active"),
        }
    }
}

/// A runtime with widths is offered for activation exactly when one of
/// its widths is not active, and its state tells the two widths apart.
pub proof fn lemma_offered_unless_both_active(is_native_active: bool, is_narrow_active: bool)
    ensures
        ActiveState::of_widths(is_native_active, is_narrow_active).offers_activation() <==> !(
        is_native_active && is_narrow_active),
        ActiveState::of_widths(is_native_active, is_narrow_active) == ActiveState::NotActive
            <==> (!is_native_active && !is_narrow_active),
        ActiveState::of_widths(is_native_active, is_narrow_active)
            != ActiveState::ActiveIndependentRuntime,
{
}

} // verus!
