use vstd::prelude::*;
use crate::config::{
    credentials_fit, is_setup_ap_config, is_station_config, station_configuration,
    ap_configuration, RadioConfig,
};
use crate::status::{
    access_point_address, ap_mode_status, connected_status, station_address, WiFiStatus,
};

verus! {

/// Error reported by the platform radio driver, with its error code.
#[derive(Clone, Copy, Debug, PartialEq, Eq)]
pub struct RadioError {
    pub code: i32,
}

/// Why a connect-or-fallback attempt failed.
#[derive(Clone, Copy, Debug, PartialEq, Eq)]
pub enum WifiError {
    /// The network name or passphrase does not fit the platform's buffers.
    CredentialTooLong,
    /// The radio driver failed, and no fallback was left.
    Radio(RadioError),
}

/// Where a session stands: the step it waits on, or how it ended.
#[derive(Clone, Copy, Debug, PartialEq, Eq)]
pub enum Phase {
    ConfigureStation,
    StartStation,
    Associate,
    ReportConnected,
    ConfigureAp,
    StartAp,
    ReportAp,
    Done(Result<(), RadioError>),
}

/// One piece of outside work that the session asks its driver to perform.
/// The driver performs it and hands the outcome back to `advance`.
#[derive(Debug)]
pub enum RadioAction {
    /// Apply this configuration to the radio.
    Configure(RadioConfig),
    /// Start the radio and wait until the platform reports it up.
    Start,
    /// Associate to the configured network.
    Connect,
    /// Send this status on the status channel.
    Report(WiFiStatus),
}

/// Mathematical model of a session.
pub struct SessionModel {
    pub ssid: Seq<char>,
    pub password: Seq<char>,
    pub phase: Phase,
    /// Statuses reported so far, oldest first.
    pub reported: Seq<WiFiStatus>,
}

/// A session that tries the given network first.
pub open spec fn station_start(ssid: Seq<char>, password: Seq<char>) -> SessionModel {
    SessionModel { ssid, password, phase: Phase::ConfigureStation, reported: Seq::empty() }
}

/// A session that brings up the setup access point directly.
pub open spec fn ap_start() -> SessionModel {
    SessionModel {
        ssid: Seq::empty(),
        password: Seq::empty(),
        phase: Phase::ConfigureAp,
        reported: Seq::empty(),
    }
}

/// Phase after the current step ended with `outcome`. A failed configure or
/// start ends the session with that error; a failed association falls back to
/// the access point at once. Handing a status to the channel always
/// completes the session: an observer that has gone away is no radio failure.
pub open spec fn next_phase(phase: Phase, outcome: Result<(), RadioError>) -> Phase {
    match phase {
        Phase::ConfigureStation => match outcome {
            Ok(_) => Phase::StartStation,
            Err(e) => Phase::Done(Err(e)),
        },
        Phase::StartStation => match outcome {
            Ok(_) => Phase::Associate,
            Err(e) => Phase::Done(Err(e)),
        },
        Phase::Associate => match outcome {
            Ok(_) => Phase::ReportConnected,
            Err(_) => Phase::ConfigureAp,
        },
        Phase::ConfigureAp => match outcome {
            Ok(_) => Phase::StartAp,
            Err(e) => Phase::Done(Err(e)),
        },
        Phase::StartAp => match outcome {
            Ok(_) => Phase::ReportAp,
            Err(e) => Phase::Done(Err(e)),
        },
        Phase::ReportConnected | Phase::ReportAp => Phase::Done(Ok(())),
        Phase::Done(r) => Phase::Done(r),
    }
}

/// The session after its current step ended with `outcome`.
pub open spec fn step(m: SessionModel, outcome: Result<(), RadioError>) -> SessionModel {
    SessionModel {
        phase: next_phase(m.phase, outcome),
        reported: match m.phase {
            Phase::ReportConnected => m.reported.push(connected_status()),
            Phase::ReportAp => m.reported.push(ap_mode_status()),
            _ => m.reported,
        },
        ..m
    }
}

/// The session after its steps ended with `outcomes`, in order.
pub open spec fn run(m: SessionModel, outcomes: Seq<Result<(), RadioError>>) -> SessionModel
    decreases outcomes.len(),
{
    if outcomes.len() == 0 {
        m
    } else {
        run(step(m, outcomes[0]), outcomes.drop_first())
    }
}

/// `a` is the work that a session in state `m` asks for.
pub open spec fn is_action_for(a: RadioAction, m: SessionModel) -> bool {
    match m.phase {
        Phase::ConfigureStation => a matches RadioAction::Configure(c) && is_station_config(
            c,
            m.ssid,
            m.password,
        ),
        Phase::StartStation | Phase::StartAp => a is Start,
        Phase::Associate => a is Connect,
        Phase::ReportConnected => a matches RadioAction::Report(s) && s == connected_status(),
        Phase::ConfigureAp => a matches RadioAction::Configure(c) && is_setup_ap_config(c),
        Phase::ReportAp => a matches RadioAction::Report(s) && s == ap_mode_status(),
        Phase::Done(_) => false,
    }
}

/// The statuses reported agree with the phase: none until a report step has
/// completed, none after a failure, and exactly one terminal status after
/// success.
pub open spec fn reports_consistent(m: SessionModel) -> bool {
    match m.phase {
        Phase::Done(Ok(_)) => {
            &&& m.reported.len() == 1
            &&& (m.reported[0] == connected_status() || m.reported[0] == ap_mode_status())
        },
        _ => m.reported.len() == 0,
    }
}

/// Most steps left before a session in `phase` is finished.
pub open spec fn steps_left(phase: Phase) -> nat {
    match phase {
        Phase::ConfigureStation => 6,
        Phase::StartStation => 5,
        Phase::Associate => 4,
        Phase::ConfigureAp => 3,
        Phase::StartAp => 2,
        Phase::ReportConnected | Phase::ReportAp => 1,
        Phase::Done(_) => 0,
    }
}

proof fn lemma_step_keeps_reports_consistent(m: SessionModel, outcome: Result<(), RadioError>)
    requires
        reports_consistent(m),
    ensures
        reports_consistent(step(m, outcome)),
{
}

/// Whatever the outcomes of its steps, a session whose reports agree with
/// its phase keeps them so.
pub proof fn lemma_run_keeps_reports_consistent(
    m: SessionModel,
    outcomes: Seq<Result<(), RadioError>>,
)
    requires
        reports_consistent(m),
    ensures
        reports_consistent(run(m, outcomes)),
    decreases outcomes.len(),
{
    if outcomes.len() > 0 {
        lemma_step_keeps_reports_consistent(m, outcomes[0]);
        lemma_run_keeps_reports_consistent(step(m, outcomes[0]), outcomes.drop_first());
    }
}

/// A connect-or-fallback attempt, whatever the driver reports, has reported
/// at most one status; once it has succeeded it has reported exactly one,
/// `Connected` or `ApMode`; once it has failed it has reported none.
pub proof fn lemma_connect_reports_exactly_once(
    ssid: Seq<char>,
    password: Seq<char>,
    outcomes: Seq<Result<(), RadioError>>,
)
    ensures
        run(station_start(ssid, password), outcomes).reported.len() <= 1,
        run(station_start(ssid, password), outcomes).phase == Phase::Done(Ok(())) ==> {
            let r = run(station_start(ssid, password), outcomes).reported;
            &&& r.len() == 1
            &&& r[0].is_terminal_spec()
            &&& (r[0] == connected_status() || r[0] == ap_mode_status())
        },
        run(station_start(ssid, password), outcomes).phase matches Phase::Done(Err(_))
            ==> run(station_start(ssid, password), outcomes).reported.len() == 0,
{
    lemma_run_keeps_reports_consistent(station_start(ssid, password), outcomes);
}

/// Bringing up the setup access point, once it has succeeded, has reported
/// exactly `ApMode` at the access point's address, and nothing else.
pub proof fn lemma_ap_mode_reports_once(outcomes: Seq<Result<(), RadioError>>)
    ensures
        run(ap_start(), outcomes).phase == Phase::Done(Ok(())) ==> run(
            ap_start(),
            outcomes,
        ).reported == seq![ap_mode_status()],
        run(ap_start(), outcomes).phase matches Phase::Done(Err(_)) ==> run(
            ap_start(),
            outcomes,
        ).reported.len() == 0,
{
    lemma_run_keeps_ap_only(ap_start(), outcomes);
    lemma_run_keeps_reports_consistent(ap_start(), outcomes);
    let r = run(ap_start(), outcomes).reported;
    if run(ap_start(), outcomes).phase == Phase::Done(Ok(())) {
        assert(r =~= seq![ap_mode_status()]);
    }
}

/// A session that never tries a client association: it is in an access
/// point phase, or it is finished and has reported nothing but `ApMode`.
pub open spec fn ap_only(m: SessionModel) -> bool {
    &&& (m.phase is ConfigureAp || m.phase is StartAp || m.phase is ReportAp || m.phase is Done)
    &&& forall|i: int| 0 <= i < m.reported.len() ==> m.reported[i] == ap_mode_status()
}

/// A session that brings up the access point never moves to a client step.
pub proof fn lemma_run_keeps_ap_only(m: SessionModel, outcomes: Seq<Result<(), RadioError>>)
    requires
        ap_only(m),
    ensures
        ap_only(run(m, outcomes)),
    decreases outcomes.len(),
{
    if outcomes.len() > 0 {
        let n = step(m, outcomes[0]);
        assert forall|i: int| 0 <= i < n.reported.len() implies n.reported[i] == ap_mode_status() by {
            if i < m.reported.len() {
                assert(n.reported[i] == m.reported[i]);
            }
        }
        lemma_run_keeps_ap_only(n, outcomes.drop_first());
    }
}

/// Whatever the outcomes, a session is finished after `steps_left` of its
/// phase (six at most), and stays finished.
pub proof fn lemma_session_finishes(m: SessionModel, outcomes: Seq<Result<(), RadioError>>)
    requires
        outcomes.len() >= steps_left(m.phase),
    ensures
        run(m, outcomes).phase is Done,
    decreases outcomes.len(),
{
    if outcomes.len() > 0 {
        lemma_session_finishes(step(m, outcomes[0]), outcomes.drop_first());
    }
}

/// A failed association falls back to the setup access point at once, with
/// no retry, whatever the driver's error.
pub proof fn lemma_failed_association_falls_back(m: SessionModel, e: RadioError)
    requires
        m.phase == Phase::Associate,
    ensures
        step(m, Err(e)).phase == Phase::ConfigureAp,
        step(m, Err(e)).reported == m.reported,
{
}

/// The decisions of one connect-or-fallback attempt, apart from the radio:
/// the driver asks `next_action`, performs it, and reports its outcome to
/// `advance`, until the session is finished.
pub struct ConnectSession {
    ssid: String,
    password: String,
    phase: Phase,
    reported: Ghost<Seq<WiFiStatus>>,
}

impl View for ConnectSession {
    type V = SessionModel;

    closed spec fn view(&self) -> SessionModel {
        SessionModel {
            ssid: self.ssid@,
            password: self.password@,
            phase: self.phase,
            reported: self.reported@,
        }
    }
}

impl ConnectSession {
    /// Starts an attempt to join `ssid` as a client, falling back to the
    /// setup access point if association fails. Fails with
    /// `CredentialTooLong`, before any radio work, where either credential
    /// exceeds its buffer.
    pub fn connect_or_ap_mode(ssid: &str, password: &str) -> (r: Result<ConnectSession, WifiError>)
        ensures
            r is Ok <==> credentials_fit(ssid, password),
            r matches Ok(s) ==> s@ == station_start(ssid@, password@),
            r matches Err(e) ==> e == WifiError::CredentialTooLong,
    {
        match station_configuration(ssid, password) {
            Some(RadioConfig::Station { ssid, password }) => Ok(
                ConnectSession {
                    ssid,
                    password,
                    phase: Phase::ConfigureStation,
                    reported: Ghost(Seq::empty()),
                },
            ),
            _ => Err(WifiError::CredentialTooLong),
        }
    }

    /// Starts bringing up the setup access point, with no client attempt.
    pub fn start_ap_mode() -> (r: ConnectSession)
        ensures
            r@ == ap_start(),
    {
        ConnectSession {
            ssid: String::new(),
            password: String::new(),
            phase: Phase::ConfigureAp,
            reported: Ghost(Seq::empty()),
        }
    }

    /// The work to perform next, or `None` once the session is finished.
    pub fn next_action(&self) -> (r: Option<RadioAction>)
        ensures
            r is None <==> self@.phase is Done,
            r matches Some(a) ==> is_action_for(a, self@),
    {
        match self.phase {
            Phase::ConfigureStation => Some(
                RadioAction::Configure(
                    RadioConfig::Station {
                        ssid: self.ssid.clone(),
                        password: self.password.clone(),
                    },
                ),
            ),
            Phase::StartStation | Phase::StartAp => Some(RadioAction::Start),
            Phase::Associate => Some(RadioAction::Connect),
            Phase::ReportConnected => Some(
                RadioAction::Report(WiFiStatus::Connected { ip: station_address() }),
            ),
            Phase::ConfigureAp => Some(RadioAction::Configure(ap_configuration())),
            Phase::ReportAp => Some(
                RadioAction::Report(WiFiStatus::ApMode { ip: access_point_address() }),
            ),
            Phase::Done(_) => None,
        }
    }

    /// Records how the work asked for by `next_action` ended.
    pub fn advance(&mut self, outcome: Result<(), RadioError>)
        ensures
            final(self)@ == step(old(self)@, outcome),
    {
        let ghost before = self.reported@;
        let next = match self.phase {
            Phase::ConfigureStation => match outcome {
                Ok(_) => Phase::StartStation,
                Err(e) => Phase::Done(Err(e)),
            },
            Phase::StartStation => match outcome {
                Ok(_) => Phase::Associate,
                Err(e) => Phase::Done(Err(e)),
            },
            Phase::Associate => match outcome {
                Ok(_) => Phase::ReportConnected,
                Err(_) => Phase::ConfigureAp,
            },
            Phase::ConfigureAp => match outcome {
                Ok(_) => Phase::StartAp,
                Err(e) => Phase::Done(Err(e)),
            },
            Phase::StartAp => match outcome {
                Ok(_) => Phase::ReportAp,
                Err(e) => Phase::Done(Err(e)),
            },
            Phase::ReportConnected => {
                self.reported = Ghost(before.push(connected_status()));
                Phase::Done(Ok(()))
            },
            Phase::ReportAp => {
                self.reported = Ghost(before.push(ap_mode_status()));
                Phase::Done(Ok(()))
            },
            Phase::Done(r) => Phase::Done(r),
        };
        self.phase = next;
    }

    /// How the session ended, or `None` while work is left.
    pub fn result(&self) -> (r: Option<Result<(), RadioError>>)
        ensures
            r is None <==> self@.phase !is Done,
            self@.phase matches Phase::Done(x) ==> r == Some(x),
    {
        match self.phase {
            Phase::Done(x) => Some(x),
            _ => None,
        }
    }
}

} // verus!
