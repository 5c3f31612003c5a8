//! The decisions behind the application's commands: which protocols a
//! connection tries and what its outcome is, how power actions map to
//! Redfish resets and IPMI chassis commands, and the boot-override setting.

use vstd::prelude::*;
use crate::text::{str_eq, concat, u16_decimal, decimal_spec, digits_value, law_decimal};
use crate::keychain::StoredCredentials;

verus! {

/// What the user asks to connect with.
#[derive(Debug)]
pub struct ConnectionParams {
    pub host: String,
    pub port: u16,
    pub username: String,
    pub password: String,
    pub protocol_mode: String,
    pub skip_tls_verify: bool,
}

impl ConnectionParams {
    /// The settings of these parameters that are kept in the keychain.
    pub fn stored_credentials(&self) -> (c: StoredCredentials)
        ensures
            c.host@ == self.host@,
            c.port == self.port,
            c.username@ == self.username@,
            c.protocol_mode@ == self.protocol_mode@,
            c.skip_tls_verify == self.skip_tls_verify,
    {
        StoredCredentials {
            host: self.host.clone(),
            port: self.port,
            username: self.username.clone(),
            protocol_mode: self.protocol_mode.clone(),
            skip_tls_verify: self.skip_tls_verify,
        }
    }
}

/// The Redfish base URL of a host: `https://{host}`, with `:{port}` unless the port is 443.
pub open spec fn redfish_base_url_spec(host: Seq<char>, port: u16) -> Seq<char> {
    if port == 443 {
        "https://"@ + host
    } else {
        "https://"@ + host + ":"@ + decimal_spec(port as nat)
    }
}

/// The Redfish base URL of a host.
pub fn redfish_base_url(host: &str, port: u16) -> (u: String)
    ensures
        u@ == redfish_base_url_spec(host@, port),
{
    let with_host = concat("https://", host);
    if port == 443 {
        with_host
    } else {
        let with_colon = concat(with_host.as_str(), ":");
        let digits = u16_decimal(port);
        concat(with_colon.as_str(), digits.as_str())
    }
}

/// Why a connection failed.
#[derive(Debug, Clone, Copy, PartialEq, Eq)]
pub enum ConnectFailure {
    /// Redfish failed and was the only protocol allowed.
    Redfish,
    /// IPMI failed and Redfish was not connected.
    Ipmi,
    /// No protocol connected.
    AllFailed,
}

/// Where a connection attempt stands.
#[derive(Debug, Clone, Copy, PartialEq, Eq)]
pub enum ConnectPhase {
    /// Redfish is to be tried.
    Redfish,
    /// IPMI is to be tried.
    Ipmi,
    /// Nothing more is tried.
    Finished,
}

/// What the application does next in a connection.
#[derive(Debug, Clone, Copy, PartialEq, Eq)]
pub enum ConnectAction {
    /// Log in over Redfish and report whether it worked.
    AttemptRedfish,
    /// Open an IPMI session and report whether it worked.
    AttemptIpmi,
    /// The connection is up: mark it connected and save the settings.
    Succeed,
    /// The connection failed.
    Fail(ConnectFailure),
}

/// A connection in progress. The protocol mode "IPMI Only" skips Redfish,
/// "Redfish Only" skips IPMI; any other mode tries Redfish, then IPMI.
#[derive(Debug, Clone, Copy, PartialEq, Eq)]
pub struct ConnectFlow {
    pub try_redfish: bool,
    pub try_ipmi: bool,
    pub redfish_only: bool,
    pub use_redfish: bool,
    pub any_connected: bool,
    pub phase: ConnectPhase,
    pub failure: Option<ConnectFailure>,
}

/// The flow at the start, for a mode that is or is not "IPMI Only" and "Redfish Only".
pub open spec fn initial_flow(ipmi_only: bool, redfish_only: bool) -> ConnectFlow {
    ConnectFlow {
        try_redfish: !ipmi_only,
        try_ipmi: !redfish_only,
        redfish_only: redfish_only,
        use_redfish: !ipmi_only,
        any_connected: false,
        phase: if !ipmi_only { ConnectPhase::Redfish } else if !redfish_only { ConnectPhase::Ipmi } else { ConnectPhase::Finished },
        failure: None,
    }
}

/// The flow after the Redfish attempt: success counts; failure ends the flow
/// when Redfish was the only protocol allowed, else IPMI comes next if allowed.
pub open spec fn flow_after_redfish(f: ConnectFlow, ok: bool) -> ConnectFlow {
    if ok {
        ConnectFlow {
            any_connected: true,
            phase: if f.try_ipmi { ConnectPhase::Ipmi } else { ConnectPhase::Finished },
            ..f
        }
    } else if f.redfish_only {
        ConnectFlow { use_redfish: false, phase: ConnectPhase::Finished, failure: Some(ConnectFailure::Redfish), ..f }
    } else {
        ConnectFlow {
            use_redfish: false,
            phase: if f.try_ipmi { ConnectPhase::Ipmi } else { ConnectPhase::Finished },
            ..f
        }
    }
}

/// The flow after the IPMI attempt: success counts; failure is the
/// connection's failure unless Redfish is up.
pub open spec fn flow_after_ipmi(f: ConnectFlow, ok: bool) -> ConnectFlow {
    if ok {
        ConnectFlow { any_connected: true, phase: ConnectPhase::Finished, ..f }
    } else if !f.use_redfish {
        ConnectFlow { phase: ConnectPhase::Finished, failure: Some(ConnectFailure::Ipmi), ..f }
    } else {
        ConnectFlow { phase: ConnectPhase::Finished, ..f }
    }
}

/// The next action of a flow.
pub open spec fn flow_action(f: ConnectFlow) -> ConnectAction {
    match f.phase {
        ConnectPhase::Redfish => ConnectAction::AttemptRedfish,
        ConnectPhase::Ipmi => ConnectAction::AttemptIpmi,
        ConnectPhase::Finished => match f.failure {
            Some(e) => ConnectAction::Fail(e),
            None => if f.any_connected { ConnectAction::Succeed } else { ConnectAction::Fail(ConnectFailure::AllFailed) },
        },
    }
}

impl ConnectFlow {
    /// Starts a connection in the given protocol mode.
    pub fn new(protocol_mode: &str) -> (f: Self)
        ensures
            f == initial_flow(protocol_mode@ == "IPMI Only"@, protocol_mode@ == "Redfish Only"@),
    {
        let ipmi_only = str_eq(protocol_mode, "IPMI Only");
        let redfish_only = str_eq(protocol_mode, "Redfish Only");
        ConnectFlow {
            try_redfish: !ipmi_only,
            try_ipmi: !redfish_only,
            redfish_only,
            use_redfish: !ipmi_only,
            any_connected: false,
            phase: if !ipmi_only { ConnectPhase::Redfish } else if !redfish_only { ConnectPhase::Ipmi } else { ConnectPhase::Finished },
            failure: None,
        }
    }

    /// What the application does next.
    pub fn next_action(&self) -> (a: ConnectAction)
        ensures
            a == flow_action(*self),
    {
        match self.phase {
            ConnectPhase::Redfish => ConnectAction::AttemptRedfish,
            ConnectPhase::Ipmi => ConnectAction::AttemptIpmi,
            ConnectPhase::Finished => match self.failure {
                Some(e) => ConnectAction::Fail(e),
                None => if self.any_connected { ConnectAction::Succeed } else { ConnectAction::Fail(ConnectFailure::AllFailed) },
            },
        }
    }

    /// Records whether the Redfish login worked.
    pub fn record_redfish(&mut self, ok: bool)
        requires
            old(self).phase == ConnectPhase::Redfish,
        ensures
            *final(self) == flow_after_redfish(*old(self), ok),
    {
        if ok {
            self.any_connected = true;
        } else {
            self.use_redfish = false;
            if self.redfish_only {
                self.failure = Some(ConnectFailure::Redfish);
                self.phase = ConnectPhase::Finished;
                return;
            }
        }
        self.phase = if self.try_ipmi { ConnectPhase::Ipmi } else { ConnectPhase::Finished };
    }

    /// Records whether the IPMI session opened.
    pub fn record_ipmi(&mut self, ok: bool)
        requires
            old(self).phase == ConnectPhase::Ipmi,
        ensures
            *final(self) == flow_after_ipmi(*old(self), ok),
    {
        if ok {
            self.any_connected = true;
        } else if !self.use_redfish {
            self.failure = Some(ConnectFailure::Ipmi);
        }
        self.phase = ConnectPhase::Finished;
    }
}

/// A power action of the user interface.
#[derive(Debug, Clone, Copy, PartialEq, Eq)]
pub enum PowerAction {
    On,
    Off,
    Cycle,
    GracefulShutdown,
    ForceOff,
    HardReset,
}

/// Network function of the chassis commands.
pub const CHASSIS_NETFN: u8 = 0x00;
/// The command this library sends for chassis power control.
pub const CHASSIS_POWER_CMD: u8 = 0x30;

/// The Redfish reset type of an action.
pub open spec fn reset_type_spec(a: PowerAction) -> Seq<char> {
    match a {
        PowerAction::On => "On"@,
        PowerAction::Off => "ForceOff"@,
        PowerAction::Cycle => "PowerCycle"@,
        PowerAction::GracefulShutdown => "GracefulShutdown"@,
        PowerAction::ForceOff => "ForceOff"@,
        PowerAction::HardReset => "ForceRestart"@,
    }
}

/// The data byte of the IPMI power command of an action.
pub open spec fn chassis_control_spec(a: PowerAction) -> u8 {
    match a {
        PowerAction::On => 0x01,
        PowerAction::Off => 0x00,
        PowerAction::Cycle => 0x03,
        PowerAction::GracefulShutdown => 0x05,
        PowerAction::ForceOff => 0x00,
        PowerAction::HardReset => 0x02,
    }
}

/// The words that name an action in its confirmation ("Power on", ...).
pub open spec fn action_words_spec(a: PowerAction) -> Seq<char> {
    match a {
        PowerAction::On => "Power on"@,
        PowerAction::Off => "Power off"@,
        PowerAction::Cycle => "Power cycle"@,
        PowerAction::GracefulShutdown => "Graceful shutdown"@,
        PowerAction::ForceOff => "Force off"@,
        PowerAction::HardReset => "Hard reset"@,
    }
}

/// How a power action is carried out.
#[derive(Debug)]
pub enum PowerRequest {
    /// Post the reset action with this reset type over Redfish.
    Redfish(String),
    /// Send this IPMI command (network function, command, data).
    Ipmi(u8, u8, Vec<u8>),
}

impl PowerAction {
    /// The Redfish reset type of the action.
    pub fn reset_type(self) -> (r: &'static str)
        ensures
            r@ == reset_type_spec(self),
    {
        match self {
            PowerAction::On => "On",
            PowerAction::Off => "ForceOff",
            PowerAction::Cycle => "PowerCycle",
            PowerAction::GracefulShutdown => "GracefulShutdown",
            PowerAction::ForceOff => "ForceOff",
            PowerAction::HardReset => "ForceRestart",
        }
    }

    /// The data byte of the IPMI power command of the action.
    pub fn chassis_control(self) -> (r: u8)
        ensures
            r == chassis_control_spec(self),
            r == 0x01 <==> self == PowerAction::On,
            r == 0x00 <==> (self == PowerAction::Off || self == PowerAction::ForceOff),
    {
        match self {
            PowerAction::On => 0x01,
            PowerAction::Off => 0x00,
            PowerAction::Cycle => 0x03,
            PowerAction::GracefulShutdown => 0x05,
            PowerAction::ForceOff => 0x00,
            PowerAction::HardReset => 0x02,
        }
    }

    fn action_words(self) -> (r: &'static str)
        ensures
            r@ == action_words_spec(self),
    {
        match self {
            PowerAction::On => "Power on",
            PowerAction::Off => "Power off",
            PowerAction::Cycle => "Power cycle",
            PowerAction::GracefulShutdown => "Graceful shutdown",
            PowerAction::ForceOff => "Force off",
            PowerAction::HardReset => "Hard reset",
        }
    }

    /// How the action is carried out: over Redfish when a Redfish session
    /// exists, else by the IPMI power command.
    pub fn request(self, redfish_connected: bool) -> (r: PowerRequest)
        ensures
            redfish_connected ==> (r matches PowerRequest::Redfish(t) && t@ == reset_type_spec(self)),
            !redfish_connected ==> (r matches PowerRequest::Ipmi(netfn, cmd, data) && netfn == CHASSIS_NETFN
                && cmd == CHASSIS_POWER_CMD && data@ == seq![chassis_control_spec(self)]),
            !redfish_connected ==> (r matches PowerRequest::Ipmi(netfn, cmd, data) && netfn == 0x00 && cmd == 0x30
                && data@.len() == 1 && (data@[0] == 0x01 <==> self == PowerAction::On)
                && (data@[0] == 0x00 <==> (self == PowerAction::Off || self == PowerAction::ForceOff))),
    {
        if redfish_connected {
            PowerRequest::Redfish(self.reset_type().to_owned())
        } else {
            PowerRequest::Ipmi(CHASSIS_NETFN, CHASSIS_POWER_CMD, vec![self.chassis_control()])
        }
    }

    /// The confirmation of a sent action: "{words} sent", with " via IPMI" when IPMI carried it.
    pub fn confirmation(self, via_ipmi: bool) -> (r: String)
        ensures
            r@ == action_words_spec(self) + " sent"@ + (if via_ipmi { " via IPMI"@ } else { Seq::empty() }),
    {
        let sent = concat(self.action_words(), " sent");
        if via_ipmi {
            concat(sent.as_str(), " via IPMI")
        } else {
            proof { assert(sent@ + Seq::<char>::empty() =~= sent@); }
            sent
        }
    }
}

/// The `BootSourceOverrideEnabled` value of a boot override.
pub fn boot_override_enabled(persistent: bool) -> (r: &'static str)
    ensures
        r@ == (if persistent { "Continuous"@ } else { "Once"@ }),
{
    if persistent { "Continuous" } else { "Once" }
}


/// The flow once every attempt it asks for has been made, given whether the
/// Redfish login and the IPMI session would succeed.
pub open spec fn run_flow(f: ConnectFlow, redfish_ok: bool, ipmi_ok: bool) -> ConnectFlow {
    let after_redfish = if f.phase == ConnectPhase::Redfish { flow_after_redfish(f, redfish_ok) } else { f };
    if after_redfish.phase == ConnectPhase::Ipmi { flow_after_ipmi(after_redfish, ipmi_ok) } else { after_redfish }
}

/// Whether a flow attempts Redfish at some point.
pub open spec fn attempts_redfish(f: ConnectFlow) -> bool {
    f.phase == ConnectPhase::Redfish
}

/// Whether a flow attempts IPMI at some point.
pub open spec fn attempts_ipmi(f: ConnectFlow, redfish_ok: bool) -> bool {
    let after_redfish = if f.phase == ConnectPhase::Redfish { flow_after_redfish(f, redfish_ok) } else { f };
    after_redfish.phase == ConnectPhase::Ipmi
}

/// How a connection in protocol mode `mode` ends:
/// - it ends after at most one Redfish and one IPMI attempt;
/// - "IPMI Only" never tries Redfish and "Redfish Only" never tries IPMI;
/// - it succeeds exactly when a protocol that the mode allows connects;
/// - a failure is Redfish's when Redfish was the only protocol allowed, else
///   IPMI's; "all attempts failed" never comes.
pub proof fn lemma_connect_outcome(mode: Seq<char>, redfish_ok: bool, ipmi_ok: bool)
    ensures
        ({
            let ipmi_only = mode == "IPMI Only"@;
            let redfish_only = mode == "Redfish Only"@;
            let f0 = initial_flow(ipmi_only, redfish_only);
            let f = run_flow(f0, redfish_ok, ipmi_ok);
            &&& f.phase == ConnectPhase::Finished
            &&& attempts_redfish(f0) <==> !ipmi_only
            &&& attempts_ipmi(f0, redfish_ok) <==> !redfish_only
            &&& (flow_action(f) == ConnectAction::Succeed <==> ((!ipmi_only && redfish_ok) || (!redfish_only && ipmi_ok)))
            &&& (flow_action(f) == ConnectAction::Fail(ConnectFailure::Redfish) <==> (redfish_only && !redfish_ok))
            &&& (flow_action(f) == ConnectAction::Fail(ConnectFailure::Ipmi) <==> (!redfish_only && !ipmi_ok && (ipmi_only || !redfish_ok)))
            &&& flow_action(f) != ConnectAction::Fail(ConnectFailure::AllFailed)
        }),
{
    reveal_strlit("IPMI Only");
    reveal_strlit("Redfish Only");
    assert("IPMI Only"@ != "Redfish Only"@) by {
        assert("IPMI Only"@[0] != "Redfish Only"@[0]);
    }
}


/// The power actions and what carries them. Over IPMI each action is the
/// Chassis Control command (network function 0x00, command 0x30) with the
/// control code of the IPMI table: power up (0x01) exactly for "power on",
/// power down (0x00) exactly for "power off" and "force off", hard reset
/// (0x02), power cycle (0x03) and soft shutdown (0x05); so "power on" and
/// "power off" never send the same code. Over Redfish each action is
/// a ComputerSystem.Reset with the reset type "On", "ForceOff", "PowerCycle",
/// "GracefulShutdown", "ForceOff" or "ForceRestart". The confirmation names
/// the action: "Power on", "Power off", "Power cycle", "Graceful shutdown",
/// "Force off" or "Hard reset".
pub proof fn law_power_action_codes(a: PowerAction)
    ensures
        chassis_control_spec(a) == 0x01 <==> a == PowerAction::On,
        chassis_control_spec(a) == 0x00 <==> (a == PowerAction::Off || a == PowerAction::ForceOff),
        chassis_control_spec(a) == 0x03 <==> a == PowerAction::Cycle,
        chassis_control_spec(a) == 0x02 <==> a == PowerAction::HardReset,
        chassis_control_spec(a) == 0x05 <==> a == PowerAction::GracefulShutdown,
        chassis_control_spec(PowerAction::On) != chassis_control_spec(PowerAction::Off),
        a == PowerAction::On ==> reset_type_spec(a) == "On"@,
        (a == PowerAction::Off || a == PowerAction::ForceOff) ==> reset_type_spec(a) == "ForceOff"@,
        a == PowerAction::Cycle ==> reset_type_spec(a) == "PowerCycle"@,
        a == PowerAction::GracefulShutdown ==> reset_type_spec(a) == "GracefulShutdown"@,
        a == PowerAction::HardReset ==> reset_type_spec(a) == "ForceRestart"@,
        a == PowerAction::On ==> action_words_spec(a) == "Power on"@,
        a == PowerAction::Off ==> action_words_spec(a) == "Power off"@,
        a == PowerAction::Cycle ==> action_words_spec(a) == "Power cycle"@,
        a == PowerAction::GracefulShutdown ==> action_words_spec(a) == "Graceful shutdown"@,
        a == PowerAction::ForceOff ==> action_words_spec(a) == "Force off"@,
        a == PowerAction::HardReset ==> action_words_spec(a) == "Hard reset"@,
{
}


/// The Redfish base URL of a host is `https://` and the host, followed, for
/// any port but 443, by `:` and the decimal digits of the port.
pub proof fn law_redfish_base_url(host: Seq<char>, port: u16)
    ensures
        ({
            let u = redfish_base_url_spec(host, port);
            let k: int = 8 + host.len() as int;
            &&& u.subrange(0, 8) == "https://"@
            &&& u.subrange(8, k) == host
            &&& port == 443 ==> u.len() == k
            &&& port != 443 ==> {
                &&& u.len() > k + 1
                &&& u[k] == ':'
                &&& digits_value(u.subrange(k + 1, u.len() as int)) == port
                &&& forall|i: int| k + 1 <= i < u.len() ==> '0' <= #[trigger] u[i] <= '9'
            }
        }),
{
    reveal_strlit("https://");
    reveal_strlit(":");
    let u = redfish_base_url_spec(host, port);
    let k: int = 8 + host.len() as int;
    assert(u.subrange(0, 8) =~= "https://"@);
    assert(u.subrange(8, k) =~= host);
    if port != 443 {
        law_decimal(port as nat);
        assert(u.subrange(k + 1, u.len() as int) =~= decimal_spec(port as nat));
    }
}

} // verus!
