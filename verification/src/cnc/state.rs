//! The controller state and the sequence that starts and connects to
//! LinuxCNC.
use vstd::prelude::*;
use crate::cnc::commands::Command;
use crate::options::InputOptions;
use crate::text::{lemma_split_nonempty, split_on, split_text, string_views, trim, trim_text};

verus! {

/// The direction the spindle turns in.
#[derive(Debug, PartialEq, Eq, Structural, Clone, Copy)]
pub enum SpindleState {
    Off,
    Cw,
    Ccw,
}

/// The spindle. Speed and limits are held as `f64` bit patterns.
pub struct Spindle {
    pub state: SpindleState,
    pub speed_bits: u64,
    pub limit_bits: (u64, u64),
}

impl Default for Spindle {
    /// A stopped spindle with zero speed and zero limits (`0.0` has the bit
    /// pattern `0`).
    fn default() -> (s: Self)
        ensures
            s.state == SpindleState::Off,
            s.speed_bits == 0,
            s.limit_bits == (0u64, 0u64),
    {
        Spindle { state: SpindleState::Off, speed_bits: 0, limit_bits: (0, 0) }
    }
}

/// A machine axis. Position and limits are held as `f64` bit patterns.
pub struct Axis {
    pub is_homed: bool,
    pub current_position_bits: u64,
    pub limit_bits: (u64, u64),
    pub name: String,
}

/// A loaded G-code program.
pub struct Program {
    pub name: String,
    pub file: String,
    pub current_line: String,
}

/// What the machine is being used for.
#[derive(Debug, PartialEq, Eq, Structural, Clone, Copy)]
pub enum CncMode {
    Preparation,
    Milling,
}

/// The machine's switches.
pub struct Machine {
    pub estop: bool,
    pub power: bool,
    pub connected: bool,
}

impl Default for Machine {
    /// Emergency stop released, power off, not connected.
    fn default() -> (m: Self)
        ensures
            !m.estop,
            !m.power,
            !m.connected,
    {
        Machine { estop: false, power: false, connected: false }
    }
}

/// The state of one browser session's controller. The two flags stand for
/// the channel ends the state owns: the receiving end of the upstream
/// command channel, which the connection takes over once, and the
/// receiving end of the controller's replies, which is handed to a logger.
pub struct CncState {
    pub config: InputOptions,
    pub mode: CncMode,
    pub axes: Vec<Axis>,
    pub spindle: Spindle,
    pub program_loaded: Option<Program>,
    pub machine: Machine,
    pub upstream_rx_available: bool,
    pub downstream_rx_attached: bool,
}

/// What a command asks of the state.
#[derive(Debug, PartialEq, Eq, Structural, Clone, Copy)]
pub enum CommandAction {
    TurnOn,
    TurnOff,
    Keep,
}

/// An IP address, as the controller's host names it: four octets, or eight
/// 16-bit groups.
#[derive(Debug, PartialEq, Eq, Structural, Clone, Copy)]
pub enum IpAddress {
    V4(u8, u8, u8, u8),
    V6(u16, u16, u16, u16, u16, u16, u16, u16),
}

/// The phases of starting LinuxCNC and connecting to it. Once the
/// controller's host is parsed, the phases carry its address.
#[derive(Debug, PartialEq, Eq, Structural, Clone, Copy)]
pub enum StartupPhase {
    QueryingPids,
    Launching,
    ParsingHost,
    Connecting(IpAddress),
    Waiting(IpAddress),
    Ready,
}

/// What the outside world reports back to the start-up sequence.
pub enum StartupEvent {
    /// The output of the remote `pgrep linuxcnc`.
    PidsListed(String),
    /// LinuxCNC was launched.
    Launched,
    /// The controller's host parsed as this IP address. A host that is not
    /// an IP address has no such event: the sequence cannot go on.
    HostParsed(IpAddress),
    /// The TCP connection to the controller failed.
    ConnectFailed,
    /// The TCP connection to the controller is open.
    Connected,
    /// The pause before retrying is over.
    Slept,
}

/// What the start-up sequence asks the outside world to do.
pub enum StartupAction {
    /// Run a command on the controller's host over ssh and report its output.
    RunRemote(String),
    /// Launch LinuxCNC with the given command over ssh.
    Launch(String),
    /// Parse the controller's host as an IP address and report it.
    ParseHost(String),
    /// Open a TCP connection to the controller.
    Connect { address: IpAddress, port: u16 },
    /// Wait this many milliseconds.
    Sleep { millis: u64 },
    /// Start the reader and writer of the connection, log the controller's
    /// replies when `log_downstream`, and send these commands in order.
    Initialize { commands: Vec<String>, log_downstream: bool },
}

/// The abstract content of a start-up action.
pub enum ActionView {
    RunRemote(Seq<char>),
    Launch(Seq<char>),
    ParseHost(Seq<char>),
    Connect(IpAddress, u16),
    Sleep(u64),
    Initialize(Seq<Seq<char>>, bool),
}

impl View for StartupAction {
    type V = ActionView;

    open spec fn view(&self) -> ActionView {
        match self {
            StartupAction::RunRemote(c) => ActionView::RunRemote(c@),
            StartupAction::Launch(c) => ActionView::Launch(c@),
            StartupAction::ParseHost(h) => ActionView::ParseHost(h@),
            StartupAction::Connect { address, port } => ActionView::Connect(*address, *port),
            StartupAction::Sleep { millis } => ActionView::Sleep(*millis),
            StartupAction::Initialize { commands, log_downstream } => ActionView::Initialize(
                string_views(commands@),
                *log_downstream,
            ),
        }
    }
}

/// The command that lists LinuxCNC's processes.
pub open spec fn pgrep_command() -> Seq<char> {
    "pgrep linuxcnc"@
}

/// The commands that open a session with the controller, in order.
pub open spec fn init_commands() -> Seq<Seq<char>> {
    seq!["hello EMC azl 1\n"@, "set enable EMCTOO\n"@, "get joint_limit\n"@]
}

/// The process ids in `pgrep` output: the trimmed output split into lines.
pub open spec fn pids_of(output: Seq<char>) -> Seq<Seq<char>> {
    split_on(trim(output), '\n')
}

/// Whether the start-up sequence expects this event in this phase.
pub open spec fn expects(phase: StartupPhase, event: StartupEvent) -> bool {
    match (phase, event) {
        (StartupPhase::QueryingPids, StartupEvent::PidsListed(_)) => true,
        (StartupPhase::Launching, StartupEvent::Launched) => true,
        (StartupPhase::ParsingHost, StartupEvent::HostParsed(_)) => true,
        (StartupPhase::Connecting(_), StartupEvent::ConnectFailed) => true,
        (StartupPhase::Connecting(_), StartupEvent::Connected) => true,
        (StartupPhase::Waiting(_), StartupEvent::Slept) => true,
        _ => false,
    }
}

/// Whether a state may take this step: the event is expected, and a
/// connection needs the upstream channel end to still be there.
pub open spec fn step_allowed(s: CncState, phase: StartupPhase, event: StartupEvent) -> bool {
    &&& expects(phase, event)
    &&& event is Connected ==> s.upstream_rx_available
}

/// The action that asks for the controller's host to be parsed.
pub open spec fn parse_host(config: InputOptions) -> ActionView {
    ActionView::ParseHost(config.lcnc_rsh_host@)
}

/// The next phase and action of the start-up sequence. After the pid query,
/// LinuxCNC is launched when no process was listed; then the controller's
/// host is parsed, and only a parsed address is connected to, at the
/// configured port; a failed connection is retried at the same address
/// after one second; an open connection is initialised.
pub open spec fn startup_next(config: InputOptions, phase: StartupPhase, event: StartupEvent) -> (
    StartupPhase,
    ActionView,
) {
    match (phase, event) {
        (_, StartupEvent::PidsListed(output)) => if pids_of(output@).len() == 0 {
            (StartupPhase::Launching, ActionView::Launch(config.cmd@))
        } else {
            (StartupPhase::ParsingHost, parse_host(config))
        },
        (_, StartupEvent::Launched) => (StartupPhase::ParsingHost, parse_host(config)),
        (_, StartupEvent::HostParsed(address)) => (
            StartupPhase::Connecting(address),
            ActionView::Connect(address, config.lcnc_rsh_port),
        ),
        (StartupPhase::Connecting(address), StartupEvent::ConnectFailed) => (
            StartupPhase::Waiting(address),
            ActionView::Sleep(1000),
        ),
        (StartupPhase::Waiting(address), StartupEvent::Slept) => (
            StartupPhase::Connecting(address),
            ActionView::Connect(address, config.lcnc_rsh_port),
        ),
        (_, StartupEvent::Connected) => (
            StartupPhase::Ready,
            ActionView::Initialize(init_commands(), true),
        ),
        _ => (phase, ActionView::Sleep(0)),
    }
}

/// The state once the controller is connected: the connection has taken
/// over the upstream channel end and the replies' end has gone to the
/// logger; everything else is as it was.
pub open spec fn connected_state(s: CncState) -> CncState {
    CncState { upstream_rx_available: false, downstream_rx_attached: false, ..s }
}

/// The process ids listed in the output of `pgrep linuxcnc`.
pub fn get_lcnc_pids(output: &str) -> (pids: Vec<String>)
    ensures
        string_views(pids@) == pids_of(output@),
{
    split_text(trim_text(output), '\n')
}

impl CncState {
    /// The state of a new session: preparation mode, no axes, a stopped
    /// spindle, no program, the machine's defaults, and both channel ends
    /// in place.
    pub fn new(config: InputOptions) -> (s: Self)
        ensures
            s.config == config,
            s.mode == CncMode::Preparation,
            s.axes@.len() == 0,
            s.spindle.state == SpindleState::Off,
            s.spindle.speed_bits == 0,
            s.spindle.limit_bits == (0u64, 0u64),
            s.program_loaded is None,
            !s.machine.estop && !s.machine.power && !s.machine.connected,
            s.upstream_rx_available,
            !s.downstream_rx_attached,
    {
        CncState {
            config,
            mode: CncMode::Preparation,
            axes: Vec::new(),
            spindle: Spindle::default(),
            program_loaded: None,
            machine: Machine::default(),
            upstream_rx_available: true,
            downstream_rx_attached: false,
        }
    }

    /// What a command asks of the state: `Lcnc(true)` starts the
    /// controller, `Lcnc(false)` stops it, every other command leaves the
    /// state as it is.
    pub fn handle_command(&self, command: &Command) -> (action: CommandAction)
        ensures
            action == (match command {
                Command::Lcnc(true) => CommandAction::TurnOn,
                Command::Lcnc(false) => CommandAction::TurnOff,
                _ => CommandAction::Keep,
            }),
    {
        match command {
            Command::Lcnc(is_on) => if *is_on {
                CommandAction::TurnOn
            } else {
                CommandAction::TurnOff
            },
            _ => CommandAction::Keep,
        }
    }

    /// Stopping the controller leaves the state unchanged.
    pub fn turn_off_lcnc(self) -> (s: Self)
        ensures
            s == self,
    {
        self
    }

    /// The address of the controller's ssh service, `{host}:22`.
    pub fn ssh_address(&self) -> (address: String)
        ensures
            address@ == self.config.lcnc_rsh_host@ + ":22"@,
    {
        let mut address = self.config.lcnc_rsh_host.clone();
        address.append(":22");
        address
    }

    /// Hands the receiving end of the controller's replies to a logger:
    /// `true` when there was one to hand over; afterwards there is none, and
    /// the rest of the state is as it was.
    pub fn run_downstream_recv_loop(&mut self) -> (taken: bool)
        ensures
            taken == old(self).downstream_rx_attached,
            *final(self) == (CncState { downstream_rx_attached: false, ..*old(self) }),
    {
        let taken = self.downstream_rx_attached;
        self.downstream_rx_attached = false;
        taken
    }

    /// Starts the start-up sequence: it first lists LinuxCNC's processes.
    pub fn turn_on_lcnc(&self) -> (start: (StartupPhase, StartupAction))
        ensures
            start.0 == StartupPhase::QueryingPids,
            start.1@ == ActionView::RunRemote(pgrep_command()),
    {
        (StartupPhase::QueryingPids, StartupAction::RunRemote("pgrep linuxcnc".to_owned()))
    }

    /// One step of the start-up sequence. Only the connection changes the
    /// state: it takes over the upstream channel end and hands the replies'
    /// end to the logger.
    pub fn startup_step(&mut self, phase: StartupPhase, event: StartupEvent) -> (next: (
        StartupPhase,
        StartupAction,
    ))
        requires
            step_allowed(*old(self), phase, event),
        ensures
            (next.0, next.1@) == startup_next(old(self).config, phase, event),
            event is Connected ==> *final(self) == connected_state(*old(self)),
            !(event is Connected) ==> *final(self) == *old(self),
    {
        match event {
            StartupEvent::PidsListed(output) => {
                let pids = get_lcnc_pids(output.as_str());
                if pids.len() == 0 {
                    (StartupPhase::Launching, StartupAction::Launch(self.config.cmd.clone()))
                } else {
                    (
                        StartupPhase::ParsingHost,
                        StartupAction::ParseHost(self.config.lcnc_rsh_host.clone()),
                    )
                }
            },
            StartupEvent::Launched => (
                StartupPhase::ParsingHost,
                StartupAction::ParseHost(self.config.lcnc_rsh_host.clone()),
            ),
            StartupEvent::HostParsed(address) => (
                StartupPhase::Connecting(address),
                StartupAction::Connect { address, port: self.config.lcnc_rsh_port },
            ),
            StartupEvent::ConnectFailed => {
                match phase {
                    StartupPhase::Connecting(address) => (
                        StartupPhase::Waiting(address),
                        StartupAction::Sleep { millis: 1000 },
                    ),
                    _ => (phase, StartupAction::Sleep { millis: 0 }),
                }
            },
            StartupEvent::Slept => {
                match phase {
                    StartupPhase::Waiting(address) => (
                        StartupPhase::Connecting(address),
                        StartupAction::Connect { address, port: self.config.lcnc_rsh_port },
                    ),
                    _ => (phase, StartupAction::Sleep { millis: 0 }),
                }
            },
            StartupEvent::Connected => {
                self.downstream_rx_attached = true;
                let log_downstream = self.run_downstream_recv_loop();
                self.upstream_rx_available = false;
                let mut commands: Vec<String> = Vec::new();
                commands.push("hello EMC azl 1\n".to_owned());
                commands.push("set enable EMCTOO\n".to_owned());
                commands.push("get joint_limit\n".to_owned());
                assert(string_views(commands@) =~= init_commands());
                (StartupPhase::Ready, StartupAction::Initialize { commands, log_downstream })
            },
        }
    }
}

/// A state connects at most once: after the connection, no further
/// connection step is allowed, whatever the phase.
pub proof fn lemma_connects_once(s: CncState, phase: StartupPhase)
    ensures
        !step_allowed(connected_state(s), phase, StartupEvent::Connected),
{
}

/// Every connection attempt goes to the address that the host parsed as,
/// at the configured port: a `Connect` action comes only from the parsed
/// address, or from a retry that carries the same address on.
pub proof fn lemma_connect_only_to_parsed_address(
    config: InputOptions,
    phase: StartupPhase,
    event: StartupEvent,
)
    requires
        expects(phase, event),
    ensures
        startup_next(config, phase, event).1 matches ActionView::Connect(address, port) ==> {
            &&& port == config.lcnc_rsh_port
            &&& (event == StartupEvent::HostParsed(address) || phase == StartupPhase::Waiting(
                address,
            ))
        },
        startup_next(config, phase, event).0 matches StartupPhase::Waiting(address) ==> phase
            == StartupPhase::Connecting(address),
{
}

/// The pid list is never empty, since `str::split` yields at least one
/// piece; so after the pid query the sequence always goes on to parse the
/// host and never launches LinuxCNC.
pub proof fn lemma_pids_never_empty(config: InputOptions, output: String)
    ensures
        pids_of(output@).len() >= 1,
        startup_next(config, StartupPhase::QueryingPids, StartupEvent::PidsListed(output)) == (
            StartupPhase::ParsingHost,
            parse_host(config),
        ),
{
    lemma_split_nonempty(trim(output@), '\n');
}

/// Every action of the start-up sequence names what the options configure:
/// the host that is parsed is always the controller's host, LinuxCNC is
/// launched with the configured command, every connection goes to the
/// configured controller port, and only `pgrep linuxcnc` is run to list
/// processes.
pub proof fn lemma_actions_use_configured_values(
    config: InputOptions,
    phase: StartupPhase,
    event: StartupEvent,
)
    requires
        expects(phase, event),
    ensures
        startup_next(config, phase, event).1 matches ActionView::ParseHost(h) ==> h
            == config.lcnc_rsh_host@,
        startup_next(config, phase, event).1 matches ActionView::Launch(c) ==> c == config.cmd@,
        startup_next(config, phase, event).1 matches ActionView::Connect(_, port) ==> port
            == config.lcnc_rsh_port,
        !(startup_next(config, phase, event).1 is RunRemote),
        startup_next(config, phase, event).1 matches ActionView::Sleep(ms) ==> ms == 1000,
        startup_next(config, phase, event).1 matches ActionView::Initialize(cmds, log) ==> log
            && cmds == seq!["hello EMC azl 1\n"@, "set enable EMCTOO\n"@, "get joint_limit\n"@],
        event is Connected <==> startup_next(config, phase, event).1 is Initialize,
{
}

} // verus!
