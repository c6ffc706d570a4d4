use ornithology_pi::server::{
    service_beacon, service_profile, Outcome, Role, Setup, Stage, Teardown, CHANNEL,
    CHARACTERISTIC_UUID, SERVICE_UUID, TEARDOWN_PAUSE_SECS,
};
use ornithology_pi::{Command, Server, Signal};

const SETUP: [Setup; 8] = [
    Setup::OpenAdapter,
    Setup::PowerOn,
    Setup::MakeDiscoverable,
    Setup::KeepDiscoverable,
    Setup::DisablePairing,
    Setup::RegisterAgent,
    Setup::Advertise,
    Setup::RegisterProfile,
];

/// A service that has taken the steps of the set-up before `step` and was
/// given the command to take `step`.
fn at_setup(step: Setup) -> Server {
    let (mut server, mut command) = Server::start();
    while command != Command::Setup(step) {
        command = server.step(Signal::Done);
    }
    server
}

fn listening() -> Server {
    let mut server = at_setup(Setup::RegisterProfile);
    assert_eq!(server.step(Signal::Done), Command::AwaitConnection);
    server
}

#[test]
fn constants_are_the_fixed_identifiers_and_channel() {
    assert_eq!(SERVICE_UUID, 0xF00DC0DE00001);
    assert_eq!(CHARACTERISTIC_UUID, 0xF00DC0DE00002);
    assert_eq!(CHANNEL, 7);
    assert_eq!(TEARDOWN_PAUSE_SECS, 1);
}

#[test]
fn profile_is_an_open_server_endpoint_on_the_channel() {
    let profile = service_profile();
    assert_eq!(profile.uuid, SERVICE_UUID);
    assert_eq!(profile.name, "ornithology-pi");
    assert_eq!(profile.channel, 7);
    assert_eq!(profile.role, Role::Server);
    assert!(!profile.require_authentication);
    assert!(!profile.require_authorization);
    assert!(profile.auto_connect);
}

#[test]
fn beacon_names_the_service() {
    let beacon = service_beacon();
    assert_eq!(beacon.service_uuid, SERVICE_UUID);
    assert!(beacon.discoverable);
    assert_eq!(beacon.local_name, "ornithology-pi");
}

#[test]
fn setup_takes_its_steps_in_order_and_then_listens() {
    let (mut server, first) = Server::start();
    assert_eq!(first, Command::Setup(Setup::OpenAdapter));
    assert_eq!(server.stage(), Stage::Starting(Setup::OpenAdapter));
    for step in &SETUP[1..] {
        assert_eq!(server.step(Signal::Done), Command::Setup(*step));
        assert_eq!(server.stage(), Stage::Starting(*step));
    }
    assert_eq!(server.step(Signal::Done), Command::AwaitConnection);
    assert_eq!(server.stage(), Stage::Listening);
}

#[test]
fn early_setup_failure_ends_the_service_at_once() {
    for step in &SETUP[..6] {
        let mut server = at_setup(*step);
        assert_eq!(server.step(Signal::Failed), Command::Exit(Outcome::SetupFailed(*step)));
        assert_eq!(server.stage(), Stage::Stopped(Outcome::SetupFailed(*step)));
    }
}

#[test]
fn failed_advertising_takes_the_agent_back() {
    let outcome = Outcome::SetupFailed(Setup::Advertise);
    let mut server = at_setup(Setup::Advertise);
    assert_eq!(server.step(Signal::Failed), Command::Teardown(Teardown::UnregisterAgent));
    assert_eq!(server.step(Signal::Done), Command::Teardown(Teardown::Pause));
    assert_eq!(server.step(Signal::Done), Command::Exit(outcome));
    assert_eq!(server.stage(), Stage::Stopped(outcome));
}

#[test]
fn failed_registration_takes_beacon_and_agent_back() {
    let outcome = Outcome::SetupFailed(Setup::RegisterProfile);
    let mut server = at_setup(Setup::RegisterProfile);
    assert_eq!(server.step(Signal::Failed), Command::Teardown(Teardown::StopAdvertising));
    assert_eq!(server.step(Signal::Done), Command::Teardown(Teardown::UnregisterAgent));
    assert_eq!(server.step(Signal::Done), Command::Teardown(Teardown::Pause));
    assert_eq!(server.step(Signal::Done), Command::Exit(outcome));
}

#[test]
fn accepted_connection_is_served_and_listening_goes_on() {
    let mut server = listening();
    assert_eq!(server.step(Signal::Connected), Command::Serve);
    assert_eq!(server.stage(), Stage::Serving);
    assert_eq!(server.step(Signal::Done), Command::AwaitConnection);
    assert_eq!(server.step(Signal::Connected), Command::Serve);
    assert_eq!(server.step(Signal::Failed), Command::AwaitConnection);
    assert_eq!(server.stage(), Stage::Listening);
}

#[test]
fn failed_accept_keeps_listening() {
    let mut server = listening();
    for _ in 0..3 {
        assert_eq!(server.step(Signal::AcceptFailed), Command::AwaitConnection);
        assert_eq!(server.stage(), Stage::Listening);
    }
}

#[test]
fn shutdown_while_listening_tears_down_in_order() {
    let mut server = listening();
    assert_eq!(server.step(Signal::Shutdown), Command::Teardown(Teardown::UnregisterProfile));
    assert_eq!(server.step(Signal::Done), Command::Teardown(Teardown::StopAdvertising));
    assert_eq!(server.step(Signal::Done), Command::Teardown(Teardown::UnregisterAgent));
    assert_eq!(server.step(Signal::Done), Command::Teardown(Teardown::Pause));
    assert_eq!(server.step(Signal::Done), Command::Exit(Outcome::ShutDown));
    assert_eq!(server.stage(), Stage::Stopped(Outcome::ShutDown));
}

#[test]
fn shutdown_while_handing_over_tears_down() {
    let mut server = listening();
    server.step(Signal::Connected);
    assert_eq!(server.step(Signal::Shutdown), Command::Teardown(Teardown::UnregisterProfile));
}

#[test]
fn shutdown_during_setup_undoes_what_was_set_up() {
    let mut early = at_setup(Setup::PowerOn);
    assert_eq!(early.step(Signal::Shutdown), Command::Exit(Outcome::ShutDown));
    let mut late = at_setup(Setup::RegisterProfile);
    assert_eq!(late.step(Signal::Shutdown), Command::Teardown(Teardown::StopAdvertising));
}

#[test]
fn teardown_goes_on_when_a_step_fails() {
    let mut server = listening();
    server.step(Signal::Shutdown);
    assert_eq!(server.step(Signal::Failed), Command::Teardown(Teardown::StopAdvertising));
    assert_eq!(server.step(Signal::Shutdown), Command::Teardown(Teardown::UnregisterAgent));
    assert_eq!(server.step(Signal::Connected), Command::Teardown(Teardown::Pause));
    assert_eq!(server.step(Signal::AcceptFailed), Command::Exit(Outcome::ShutDown));
}

#[test]
fn end_of_requests_tears_down() {
    let mut server = listening();
    assert_eq!(server.step(Signal::Failed), Command::Teardown(Teardown::UnregisterProfile));
    server.step(Signal::Done);
    server.step(Signal::Done);
    server.step(Signal::Done);
    assert_eq!(server.step(Signal::Done), Command::Exit(Outcome::RequestsEnded));
}

#[test]
fn stopped_service_stays_stopped() {
    let mut server = at_setup(Setup::OpenAdapter);
    let outcome = Outcome::SetupFailed(Setup::OpenAdapter);
    assert_eq!(server.step(Signal::Failed), Command::Exit(outcome));
    for signal in [Signal::Done, Signal::Connected, Signal::Shutdown, Signal::Failed] {
        assert_eq!(server.step(signal), Command::Exit(outcome));
        assert_eq!(server.stage(), Stage::Stopped(outcome));
    }
}

#[test]
fn out_of_turn_reports_during_setup_count_as_failure() {
    let mut server = at_setup(Setup::DisablePairing);
    assert_eq!(
        server.step(Signal::Connected),
        Command::Exit(Outcome::SetupFailed(Setup::DisablePairing))
    );
}
