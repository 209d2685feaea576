use bluezadvertising::adapter1::{
    ensure_discovering, AdapterAction, AdapterEvent, CHECK_INTERVAL_SECS,
};

#[test]
fn a_check_starts_with_the_power_state() {
    assert_eq!(ensure_discovering(AdapterEvent::CheckDue), AdapterAction::ReadPowered);
}

#[test]
fn an_adapter_that_is_off_is_switched_on() {
    assert_eq!(ensure_discovering(AdapterEvent::Powered(false)), AdapterAction::SetPowered(true));
    assert_eq!(ensure_discovering(AdapterEvent::PowerSet), AdapterAction::ReadDiscovering);
}

#[test]
fn an_adapter_that_is_on_is_asked_whether_it_discovers() {
    assert_eq!(ensure_discovering(AdapterEvent::Powered(true)), AdapterAction::ReadDiscovering);
}

#[test]
fn discovery_is_started_only_where_it_is_off() {
    assert_eq!(ensure_discovering(AdapterEvent::Discovering(false)), AdapterAction::StartDiscovery);
    assert_eq!(ensure_discovering(AdapterEvent::Discovering(true)), AdapterAction::Rest);
    assert_eq!(ensure_discovering(AdapterEvent::DiscoveryStarted), AdapterAction::Rest);
}

#[test]
fn a_failed_call_ends_the_check() {
    assert_eq!(ensure_discovering(AdapterEvent::CallFailed), AdapterAction::Rest);
}

fn run_check(mut powered: bool, mut discovering: bool) -> (bool, bool, Vec<AdapterAction>) {
    let mut log = Vec::new();
    let mut event = AdapterEvent::CheckDue;
    loop {
        let action = ensure_discovering(event);
        log.push(action);
        event = match action {
            AdapterAction::ReadPowered => AdapterEvent::Powered(powered),
            AdapterAction::SetPowered(on) => {
                powered = on;
                AdapterEvent::PowerSet
            }
            AdapterAction::ReadDiscovering => AdapterEvent::Discovering(discovering),
            AdapterAction::StartDiscovery => {
                discovering = true;
                AdapterEvent::DiscoveryStarted
            }
            AdapterAction::Rest => return (powered, discovering, log),
        };
        assert!(log.len() <= 5);
    }
}

#[test]
fn a_check_leaves_the_adapter_discovering() {
    for powered in [false, true] {
        for discovering in [false, true] {
            let (p, d, log) = run_check(powered, discovering);
            assert!(p && d);
            assert_eq!(log.last(), Some(&AdapterAction::Rest));
            assert_eq!(
                log.contains(&AdapterAction::SetPowered(true)),
                !powered,
                "powered {}",
                powered
            );
            assert_eq!(log.contains(&AdapterAction::StartDiscovery), !discovering);
        }
    }
}

#[test]
fn a_check_of_an_idle_adapter_takes_four_calls() {
    let (_, _, log) = run_check(false, false);
    assert_eq!(
        log,
        vec![
            AdapterAction::ReadPowered,
            AdapterAction::SetPowered(true),
            AdapterAction::ReadDiscovering,
            AdapterAction::StartDiscovery,
            AdapterAction::Rest,
        ]
    );
}

#[test]
fn checks_are_thirty_seconds_apart() {
    assert_eq!(CHECK_INTERVAL_SECS, 30);
}
