//! The life of the service.
//!
//! The service is set up step by step, from the radio adapter to the point
//! where connections come in, then accepts connections until it is told to
//! shut down, and then takes down what it had set up, in a fixed order.
//! A step that fails during the set-up ends the service; a connection that
//! cannot be accepted does not.
//!
//! `Server` decides; the caller acts. Each call returns the next command,
//! and the caller reports how it went with the next call.

use vstd::prelude::*;

verus! {

/// The identifier of the service.
pub const SERVICE_UUID: u128 = 0xF00DC0DE00001;

/// The identifier of the service's characteristic.
pub const CHARACTERISTIC_UUID: u128 = 0xF00DC0DE00002;

/// The channel on which the service accepts connections.
pub const CHANNEL: u8 = 7;

/// How long the service waits after the teardown before it ends, in
/// seconds.
pub const TEARDOWN_PAUSE_SECS: u64 = 1;

/// The name under which the service is announced and registered.
pub open spec fn service_name() -> Seq<char> {
    "ornithology-pi"@
}

/// Which side of a connection an endpoint takes.
#[derive(Clone, Copy, Debug, PartialEq, Eq)]
pub enum Role {
    Client,
    Server,
}

/// The endpoint at which the service accepts connections.
#[derive(Debug, PartialEq, Eq)]
pub struct Profile {
    pub uuid: u128,
    pub name: String,
    pub channel: u16,
    pub role: Role,
    pub require_authentication: bool,
    pub require_authorization: bool,
    pub auto_connect: bool,
}

/// The beacon that makes the service discoverable.
#[derive(Debug, PartialEq, Eq)]
pub struct Beacon {
    pub service_uuid: u128,
    pub discoverable: bool,
    pub local_name: String,
}

/// The service's endpoint: its identifier and name, on `CHANNEL`, in the
/// server's role, open to any peer, accepting by itself.
pub fn service_profile() -> (profile: Profile)
    ensures
        profile.uuid == SERVICE_UUID,
        profile.name@ == service_name(),
        profile.channel == CHANNEL,
        profile.role == Role::Server,
        !profile.require_authentication,
        !profile.require_authorization,
        profile.auto_connect,
{
    Profile {
        uuid: SERVICE_UUID,
        name: String::from_str("ornithology-pi"),
        channel: CHANNEL as u16,
        role: Role::Server,
        require_authentication: false,
        require_authorization: false,
        auto_connect: true,
    }
}

/// The service's beacon: discoverable, with the service's identifier and
/// name.
pub fn service_beacon() -> (beacon: Beacon)
    ensures
        beacon.service_uuid == SERVICE_UUID,
        beacon.discoverable,
        beacon.local_name@ == service_name(),
{
    Beacon {
        service_uuid: SERVICE_UUID,
        discoverable: true,
        local_name: String::from_str("ornithology-pi"),
    }
}

/// A step of the set-up, in the order in which they are taken.
#[derive(Clone, Copy, Debug, PartialEq, Eq)]
pub enum Setup {
    /// Find the radio adapter.
    OpenAdapter,
    /// Switch the adapter on.
    PowerOn,
    /// Make the adapter discoverable.
    MakeDiscoverable,
    /// Keep it discoverable without a time limit.
    KeepDiscoverable,
    /// Let peers connect without pairing.
    DisablePairing,
    /// Register the pairing handler that asks nothing of anyone.
    RegisterAgent,
    /// Start sending `service_beacon()`.
    Advertise,
    /// Register `service_profile()`; connection requests come in from then
    /// on.
    RegisterProfile,
}

/// A step of the teardown, in the order in which they are taken.
#[derive(Clone, Copy, Debug, PartialEq, Eq)]
pub enum Teardown {
    /// Take the endpoint back.
    UnregisterProfile,
    /// Stop the beacon.
    StopAdvertising,
    /// Take the pairing handler back.
    UnregisterAgent,
    /// Wait `TEARDOWN_PAUSE_SECS`.
    Pause,
}

/// How the service ended.
#[derive(Clone, Copy, Debug, PartialEq, Eq)]
pub enum Outcome {
    /// It was shut down.
    ShutDown,
    /// This step of the set-up failed.
    SetupFailed(Setup),
    /// No more connection requests can come in.
    RequestsEnded,
}

/// What the caller reports.
#[derive(Clone, Copy, Debug, PartialEq, Eq)]
pub enum Signal {
    /// The command was carried out.
    Done,
    /// The command failed.
    Failed,
    /// A connection request came and was accepted.
    Connected,
    /// A connection request came and could not be accepted.
    AcceptFailed,
    /// The service is to shut down.
    Shutdown,
}

/// What the caller does next.
#[derive(Clone, Copy, Debug, PartialEq, Eq)]
pub enum Command {
    /// Take this step of the set-up; report `Done` or `Failed`.
    Setup(Setup),
    /// Wait for the next connection request and accept it, or for the word
    /// to shut down; report `Connected`, `AcceptFailed`, `Shutdown`, or
    /// `Failed` where no request can come any more.
    AwaitConnection,
    /// Hand the accepted stream to a task of its own, which runs a
    /// `Connection` on it, and report `Done` without waiting for that task.
    Serve,
    /// Take this step of the teardown; report `Done` or `Failed`.
    Teardown(Teardown),
    /// End. The service is over.
    Exit(Outcome),
}

/// Where the service stands.
#[derive(Clone, Copy, Debug, PartialEq, Eq)]
pub enum Stage {
    /// This step of the set-up is under way.
    Starting(Setup),
    /// The service waits for a connection.
    Listening,
    /// An accepted connection is being handed to its task.
    Serving,
    /// This step of the teardown is under way; the service will end as the
    /// outcome says.
    Stopping(Teardown, Outcome),
    /// Over.
    Stopped(Outcome),
}

/// The step of the set-up that follows `step`, `None` after the last.
pub open spec fn setup_after(step: Setup) -> Option<Setup> {
    match step {
        Setup::OpenAdapter => Some(Setup::PowerOn),
        Setup::PowerOn => Some(Setup::MakeDiscoverable),
        Setup::MakeDiscoverable => Some(Setup::KeepDiscoverable),
        Setup::KeepDiscoverable => Some(Setup::DisablePairing),
        Setup::DisablePairing => Some(Setup::RegisterAgent),
        Setup::RegisterAgent => Some(Setup::Advertise),
        Setup::Advertise => Some(Setup::RegisterProfile),
        Setup::RegisterProfile => None,
    }
}

/// The step of the teardown that follows `step`, `None` after the last.
pub open spec fn teardown_after(step: Teardown) -> Option<Teardown> {
    match step {
        Teardown::UnregisterProfile => Some(Teardown::StopAdvertising),
        Teardown::StopAdvertising => Some(Teardown::UnregisterAgent),
        Teardown::UnregisterAgent => Some(Teardown::Pause),
        Teardown::Pause => None,
    }
}

/// Where the teardown begins when the set-up is given up at `step`: at what
/// undoes the last step that was taken before it and needs undoing. `None`
/// where nothing needs undoing.
pub open spec fn teardown_from(step: Setup) -> Option<Teardown> {
    match step {
        Setup::RegisterProfile => Some(Teardown::StopAdvertising),
        Setup::Advertise => Some(Teardown::UnregisterAgent),
        _ => None,
    }
}

/// The service stops with `outcome`, beginning the teardown at `first`.
pub open spec fn stopping(first: Option<Teardown>, outcome: Outcome) -> (Stage, Command) {
    match first {
        Some(step) => (Stage::Stopping(step, outcome), Command::Teardown(step)),
        None => (Stage::Stopped(outcome), Command::Exit(outcome)),
    }
}

/// The service goes on listening.
pub open spec fn listening() -> (Stage, Command) {
    (Stage::Listening, Command::AwaitConnection)
}

/// What `step` does at `stage` on `signal`.
pub open spec fn advance(stage: Stage, signal: Signal) -> (Stage, Command) {
    match stage {
        Stage::Starting(step) => match signal {
            Signal::Done => match setup_after(step) {
                Some(following) => (Stage::Starting(following), Command::Setup(following)),
                None => listening(),
            },
            Signal::Shutdown => stopping(teardown_from(step), Outcome::ShutDown),
            _ => stopping(teardown_from(step), Outcome::SetupFailed(step)),
        },
        Stage::Listening => match signal {
            Signal::Connected => (Stage::Serving, Command::Serve),
            Signal::AcceptFailed => listening(),
            Signal::Done => listening(),
            Signal::Shutdown => stopping(Some(Teardown::UnregisterProfile), Outcome::ShutDown),
            Signal::Failed => stopping(Some(Teardown::UnregisterProfile), Outcome::RequestsEnded),
        },
        Stage::Serving => match signal {
            Signal::Shutdown => stopping(Some(Teardown::UnregisterProfile), Outcome::ShutDown),
            _ => listening(),
        },
        Stage::Stopping(step, outcome) => stopping(teardown_after(step), outcome),
        Stage::Stopped(outcome) => (Stage::Stopped(outcome), Command::Exit(outcome)),
    }
}

/// The service: where it stands.
pub struct Server {
    stage: Stage,
}

impl View for Server {
    type V = Stage;

    closed spec fn view(&self) -> Stage {
        self.stage
    }
}

/// The step of the set-up that follows `step`.
fn following_setup(step: Setup) -> (following: Option<Setup>)
    ensures
        following == setup_after(step),
{
    match step {
        Setup::OpenAdapter => Some(Setup::PowerOn),
        Setup::PowerOn => Some(Setup::MakeDiscoverable),
        Setup::MakeDiscoverable => Some(Setup::KeepDiscoverable),
        Setup::KeepDiscoverable => Some(Setup::DisablePairing),
        Setup::DisablePairing => Some(Setup::RegisterAgent),
        Setup::RegisterAgent => Some(Setup::Advertise),
        Setup::Advertise => Some(Setup::RegisterProfile),
        Setup::RegisterProfile => None,
    }
}

/// The step of the teardown that follows `step`.
fn following_teardown(step: Teardown) -> (following: Option<Teardown>)
    ensures
        following == teardown_after(step),
{
    match step {
        Teardown::UnregisterProfile => Some(Teardown::StopAdvertising),
        Teardown::StopAdvertising => Some(Teardown::UnregisterAgent),
        Teardown::UnregisterAgent => Some(Teardown::Pause),
        Teardown::Pause => None,
    }
}

/// Where the teardown begins when the set-up is given up at `step`.
fn first_teardown(step: Setup) -> (first: Option<Teardown>)
    ensures
        first == teardown_from(step),
{
    match step {
        Setup::RegisterProfile => Some(Teardown::StopAdvertising),
        Setup::Advertise => Some(Teardown::UnregisterAgent),
        _ => None,
    }
}

impl Server {
    /// A service at the first step of its set-up, with the command to take
    /// it.
    pub fn start() -> (begun: (Server, Command))
        ensures
            begun.0@ == Stage::Starting(Setup::OpenAdapter),
            begun.1 == Command::Setup(Setup::OpenAdapter),
    {
        (Server { stage: Stage::Starting(Setup::OpenAdapter) }, Command::Setup(Setup::OpenAdapter))
    }

    /// Where the service stands.
    pub fn stage(&self) -> (stage: Stage)
        ensures
            stage == self@,
    {
        self.stage
    }

    /// Begins to stop with `outcome`, at the teardown step `first`.
    fn stop(&mut self, first: Option<Teardown>, outcome: Outcome) -> (command: Command)
        ensures
            (final(self)@, command) == stopping(first, outcome),
    {
        match first {
            Some(step) => {
                self.stage = Stage::Stopping(step, outcome);
                Command::Teardown(step)
            },
            None => {
                self.stage = Stage::Stopped(outcome);
                Command::Exit(outcome)
            },
        }
    }

    /// Goes on listening.
    fn listen(&mut self) -> (command: Command)
        ensures
            (final(self)@, command) == listening(),
    {
        self.stage = Stage::Listening;
        Command::AwaitConnection
    }

    /// Takes the caller's report on the last command and gives the next
    /// command.
    pub fn step(&mut self, signal: Signal) -> (command: Command)
        ensures
            (final(self)@, command) == advance(old(self)@, signal),
    {
        match self.stage {
            Stage::Starting(step) => match signal {
                Signal::Done => match following_setup(step) {
                    Some(following) => {
                        self.stage = Stage::Starting(following);
                        Command::Setup(following)
                    },
                    None => self.listen(),
                },
                Signal::Shutdown => self.stop(first_teardown(step), Outcome::ShutDown),
                _ => self.stop(first_teardown(step), Outcome::SetupFailed(step)),
            },
            Stage::Listening => match signal {
                Signal::Connected => {
                    self.stage = Stage::Serving;
                    Command::Serve
                },
                Signal::AcceptFailed => self.listen(),
                Signal::Done => self.listen(),
                Signal::Shutdown => self.stop(Some(Teardown::UnregisterProfile), Outcome::ShutDown),
                Signal::Failed => self.stop(
                    Some(Teardown::UnregisterProfile),
                    Outcome::RequestsEnded,
                ),
            },
            Stage::Serving => match signal {
                Signal::Shutdown => self.stop(Some(Teardown::UnregisterProfile), Outcome::ShutDown),
                _ => self.listen(),
            },
            Stage::Stopping(step, outcome) => self.stop(following_teardown(step), outcome),
            Stage::Stopped(outcome) => Command::Exit(outcome),
        }
    }
}

/// The stage reached from `stage` by `signals`, one after the other.
pub open spec fn reached(stage: Stage, signals: Seq<Signal>) -> Stage
    decreases signals.len(),
{
    if signals.len() == 0 {
        stage
    } else {
        reached(advance(stage, signals[0]).0, signals.drop_first())
    }
}

/// The number of teardown steps from `step` to the end, `step` included.
pub open spec fn teardown_left(step: Teardown) -> nat {
    match step {
        Teardown::UnregisterProfile => 4,
        Teardown::StopAdvertising => 3,
        Teardown::UnregisterAgent => 2,
        Teardown::Pause => 1,
    }
}

/// Whether the service at `stage` is stopping or has stopped, with
/// `outcome`.
pub open spec fn ends_with(stage: Stage, outcome: Outcome) -> bool {
    match stage {
        Stage::Stopping(_, o) => o == outcome,
        Stage::Stopped(o) => o == outcome,
        _ => false,
    }
}

/// Eight steps that succeed, taken in their order, bring the service to the
/// point where it listens.
pub proof fn lemma_setup_reaches_listening()
    ensures
        reached(Stage::Starting(Setup::OpenAdapter), Seq::new(8, |i: int| Signal::Done))
            == Stage::Listening,
{
    let all = Seq::new(8, |i: int| Signal::Done);
    assert(all.skip(8).len() == 0);
    assert(reached(Stage::Listening, all.skip(8)) == Stage::Listening);
    assert(all.skip(7).drop_first() =~= all.skip(8));
    assert(reached(Stage::Starting(Setup::RegisterProfile), all.skip(7)) == Stage::Listening);
    assert(all.skip(6).drop_first() =~= all.skip(7));
    assert(reached(Stage::Starting(Setup::Advertise), all.skip(6)) == Stage::Listening);
    assert(all.skip(5).drop_first() =~= all.skip(6));
    assert(reached(Stage::Starting(Setup::RegisterAgent), all.skip(5)) == Stage::Listening);
    assert(all.skip(4).drop_first() =~= all.skip(5));
    assert(reached(Stage::Starting(Setup::DisablePairing), all.skip(4)) == Stage::Listening);
    assert(all.skip(3).drop_first() =~= all.skip(4));
    assert(reached(Stage::Starting(Setup::KeepDiscoverable), all.skip(3)) == Stage::Listening);
    assert(all.skip(2).drop_first() =~= all.skip(3));
    assert(reached(Stage::Starting(Setup::MakeDiscoverable), all.skip(2)) == Stage::Listening);
    assert(all.skip(1).drop_first() =~= all.skip(2));
    assert(reached(Stage::Starting(Setup::PowerOn), all.skip(1)) == Stage::Listening);
    assert(all.skip(0).drop_first() =~= all.skip(1));
    assert(all.skip(0) =~= all);
}

/// A service that is stopping never does anything else again: whatever is
/// reported, it stays on its way to the end, and its outcome stays.
pub proof fn lemma_stopping_is_final(stage: Stage, outcome: Outcome, signals: Seq<Signal>)
    requires
        ends_with(stage, outcome),
    ensures
        ends_with(reached(stage, signals), outcome),
    decreases signals.len(),
{
    if signals.len() > 0 {
        lemma_stopping_is_final(advance(stage, signals[0]).0, outcome, signals.drop_first());
    }
}

/// A step of the set-up that fails ends the set-up: the service never
/// listens after it, whatever is reported from then on, and it ends with
/// that step as its outcome.
pub proof fn lemma_failed_setup_never_listens(step: Setup, signals: Seq<Signal>)
    ensures
        ends_with(
            reached(advance(Stage::Starting(step), Signal::Failed).0, signals),
            Outcome::SetupFailed(step),
        ),
{
    lemma_stopping_is_final(
        advance(Stage::Starting(step), Signal::Failed).0,
        Outcome::SetupFailed(step),
        signals,
    );
}

/// A connection that cannot be accepted leaves the service listening.
pub proof fn lemma_failed_accept_keeps_listening()
    ensures
        advance(Stage::Listening, Signal::AcceptFailed) == listening(),
{
}

/// Once the teardown has begun, the service ends after as many reports as
/// there are steps left, whatever they say, with the outcome that was set
/// when it began.
pub proof fn lemma_teardown_ends(step: Teardown, outcome: Outcome, signals: Seq<Signal>)
    requires
        signals.len() == teardown_left(step),
    ensures
        reached(Stage::Stopping(step, outcome), signals) == Stage::Stopped(outcome),
    decreases signals.len(),
{
    let rest = signals.drop_first();
    match teardown_after(step) {
        Some(following) => {
            lemma_teardown_ends(following, outcome, rest);
        },
        None => {
            assert(rest.len() == 0);
            assert(reached(Stage::Stopped(outcome), rest) == Stage::Stopped(outcome));
        },
    }
}

/// The word to shut down, given while the service listens, begins the
/// teardown at its first step: the endpoint, the beacon and the pairing
/// handler are taken back in this order, the pause follows, and the service
/// ends as shut down.
pub proof fn lemma_shutdown_tears_down(reports: Seq<Signal>)
    requires
        reports.len() == 4,
    ensures
        advance(Stage::Listening, Signal::Shutdown) == (
            Stage::Stopping(Teardown::UnregisterProfile, Outcome::ShutDown),
            Command::Teardown(Teardown::UnregisterProfile),
        ),
        reached(Stage::Stopping(Teardown::UnregisterProfile, Outcome::ShutDown), reports)
            == Stage::Stopped(Outcome::ShutDown),
{
    lemma_teardown_ends(Teardown::UnregisterProfile, Outcome::ShutDown, reports);
}

} // verus!
