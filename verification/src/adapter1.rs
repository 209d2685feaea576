//! Keeping the adapter scanning.
//!
//! At fixed intervals the adapter is asked whether it is powered and whether
//! it is discovering, and is told to do either where it is not. This module
//! decides what to ask or tell next; the calls themselves are the caller's.

use vstd::prelude::*;

verus! {

/// Seconds between the end of one check and the start of the next.
pub const CHECK_INTERVAL_SECS: u64 = 30;

/// What happened last, as far as the check is concerned.
#[derive(Clone, Copy, Debug, PartialEq, Eq, Structural)]
pub enum AdapterEvent {
    /// A check is due.
    CheckDue,
    /// The adapter said whether it is powered.
    Powered(bool),
    /// The adapter took the power setting.
    PowerSet,
    /// The adapter said whether it is discovering.
    Discovering(bool),
    /// The adapter started discovering.
    DiscoveryStarted,
    /// The last call failed.
    CallFailed,
}

/// What to do next.
#[derive(Clone, Copy, Debug, PartialEq, Eq, Structural)]
pub enum AdapterAction {
    /// Ask the adapter whether it is powered.
    ReadPowered,
    /// Switch the adapter on or off.
    SetPowered(bool),
    /// Ask the adapter whether it is discovering.
    ReadDiscovering,
    /// Tell the adapter to start discovering.
    StartDiscovery,
    /// The check is over; the next one is due after the interval.
    Rest,
}

/// The action that answers an event.
///
/// A check asks for the power state first and switches the adapter on if it
/// is off; then it asks whether the adapter is discovering and starts
/// discovery if it is not. A failed call ends the check; nothing is retried
/// before the next check.
pub open spec fn next_action(event: AdapterEvent) -> AdapterAction {
    match event {
        AdapterEvent::CheckDue => AdapterAction::ReadPowered,
        AdapterEvent::Powered(false) => AdapterAction::SetPowered(true),
        AdapterEvent::Powered(true) => AdapterAction::ReadDiscovering,
        AdapterEvent::PowerSet => AdapterAction::ReadDiscovering,
        AdapterEvent::Discovering(false) => AdapterAction::StartDiscovery,
        AdapterEvent::Discovering(true) => AdapterAction::Rest,
        AdapterEvent::DiscoveryStarted => AdapterAction::Rest,
        AdapterEvent::CallFailed => AdapterAction::Rest,
    }
}

/// The event with which the adapter answers an action, if all goes well and
/// it is in the given state.
pub open spec fn answer(action: AdapterAction, powered: bool, discovering: bool) -> AdapterEvent {
    match action {
        AdapterAction::ReadPowered => AdapterEvent::Powered(powered),
        AdapterAction::SetPowered(_) => AdapterEvent::PowerSet,
        AdapterAction::ReadDiscovering => AdapterEvent::Discovering(discovering),
        AdapterAction::StartDiscovery => AdapterEvent::DiscoveryStarted,
        AdapterAction::Rest => AdapterEvent::CheckDue,
    }
}

/// The state of the adapter after it has carried out an action.
pub open spec fn carried_out(action: AdapterAction, powered: bool, discovering: bool) -> (bool, bool) {
    match action {
        AdapterAction::SetPowered(on) => (on, discovering),
        AdapterAction::StartDiscovery => (powered, true),
        _ => (powered, discovering),
    }
}

/// The state of the adapter after `calls` further calls of a check that has
/// come to `event`, if no call fails.
pub open spec fn state_after(event: AdapterEvent, powered: bool, discovering: bool, calls: nat) -> (
    bool,
    bool,
)
    decreases calls,
{
    let action = next_action(event);
    if calls == 0 || action == AdapterAction::Rest {
        (powered, discovering)
    } else {
        let (p, d) = carried_out(action, powered, discovering);
        state_after(answer(action, p, d), p, d, (calls - 1) as nat)
    }
}

/// Decides what to do next to keep the adapter discovering.
pub fn ensure_discovering(event: AdapterEvent) -> (action: AdapterAction)
    ensures
        action == next_action(event),
{
    match event {
        AdapterEvent::CheckDue => AdapterAction::ReadPowered,
        AdapterEvent::Powered(powered) => if powered {
            AdapterAction::ReadDiscovering
        } else {
            AdapterAction::SetPowered(true)
        },
        AdapterEvent::PowerSet => AdapterAction::ReadDiscovering,
        AdapterEvent::Discovering(discovering) => if discovering {
            AdapterAction::Rest
        } else {
            AdapterAction::StartDiscovery
        },
        AdapterEvent::DiscoveryStarted => AdapterAction::Rest,
        AdapterEvent::CallFailed => AdapterAction::Rest,
    }
}

/// A check whose calls all succeed leaves the adapter powered and
/// discovering, after four calls at most.
pub proof fn lemma_check_settles(powered: bool, discovering: bool)
    ensures
        state_after(AdapterEvent::CheckDue, powered, discovering, 4) == (true, true),
{
    reveal_with_fuel(state_after, 5);
}

} // verus!
