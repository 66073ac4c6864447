//! The command line: its commands, what they print and the steps they take.

use vstd::prelude::*;

use crate::audio::{audio_error_text, is_boost_level, AudioError};
use crate::device::protocol::{
    battery_text, connection_text, mic_position, mic_position_text, HeadsetStatus,
};
use crate::device::{device_error_text, DeviceError};
use crate::ipc::{
    message_line, message_of, messages_arrive, response_line, response_of, responses_arrive,
    IpcMessage, IpcResponse, ResponseView,
};
use crate::text;
use crate::tray::{status_response, status_responses_arrive, AppState};

verus! {

/// How long a one-off status request waits for the headset, in milliseconds.
pub const STATUS_TIMEOUT_MS: i32 = 1000;

#[derive(Debug, Clone, Copy, PartialEq, Eq, Structural)]
pub enum Command {
    /// Show headset status
    Status,
    /// Set microphone dB boost (0, 5, or 10)
    Boost { db: u8 },
    /// Stop the running instance
    Stop,
}

/// What is wrong with the argument of the boost command, if anything.
pub open spec fn boost_argument_error(s: Seq<char>) -> Option<Seq<char>> {
    match text::u8_value(s) {
        Some(db) => if is_boost_level(db) {
            None
        } else {
            Some("boost must be 0, 5, or 10 dB"@)
        },
        None => Some("'"@ + s + "' is not a valid number"@),
    }
}

/// Parses the argument of the boost command.
pub fn parse_boost_db(s: &str) -> (r: Result<u8, String>)
    ensures
        match r {
            Ok(db) => boost_argument_error(s@) is None && text::u8_value(s@) == Some(db)
                && is_boost_level(db),
            Err(msg) => boost_argument_error(s@) == Some(msg@),
        },
{
    match text::parse_u8(s) {
        Some(db) => if db == 0 || db == 5 || db == 10 {
            proof {
                assert(crate::audio::BOOST_LEVELS[0] == 0);
                assert(crate::audio::BOOST_LEVELS[1] == 5);
                assert(crate::audio::BOOST_LEVELS[2] == 10);
            }
            Ok(db)
        } else {
            Err("boost must be 0, 5, or 10 dB".to_owned())
        },
        None => {
            let mut msg = "'".to_owned();
            msg.append(s);
            msg.append("' is not a valid number");
            Err(msg)
        },
    }
}

/// What a step of a command says about a failure.
#[derive(Debug)]
pub enum Complaint {
    Nothing,
    /// An error for the log.
    Log(String),
    /// A line for the standard error.
    Print(String),
}

/// A complaint by its contents.
#[verifier::ext_equal]
pub enum ComplaintView {
    Nothing,
    Log(Seq<char>),
    Print(Seq<char>),
}

impl View for Complaint {
    type V = ComplaintView;

    open spec fn view(&self) -> ComplaintView {
        match self {
            Complaint::Nothing => ComplaintView::Nothing,
            Complaint::Log(msg) => ComplaintView::Log(msg@),
            Complaint::Print(msg) => ComplaintView::Print(msg@),
        }
    }
}

/// What a command does next.
#[derive(Debug, Clone, Copy, PartialEq, Eq, Structural)]
pub enum CliAction {
    /// See whether an instance is running.
    ProbeInstance,
    /// Send this message to the running instance.
    Send(IpcMessage),
    OpenDevice,
    RequestStatus,
    ReadStatus { timeout_ms: i32 },
    FindAudio,
    GetBoost,
    SetBoost(u8),
    Exit { code: i32 },
}

/// What has happened, in answer to an action.
#[derive(Debug)]
pub enum CliEvent {
    Start,
    InstanceProbed { running: bool },
    /// What the running instance replied, or the message of the error.
    Replied(Result<IpcResponse, String>),
    DeviceOpened(Result<(), DeviceError>),
    StatusRequested(Result<(), DeviceError>),
    StatusRead(Result<Option<HeadsetStatus>, DeviceError>),
    AudioFound(Result<bool, AudioError>),
    BoostRead(Result<u8, AudioError>),
    BoostSet(Result<(), AudioError>),
}

/// A step of a command: the lines for the standard output, a complaint, and what to do next.
#[derive(Debug)]
pub struct CliStep {
    pub lines: Vec<String>,
    pub complaint: Complaint,
    pub action: CliAction,
}

/// A step by its contents.
#[verifier::ext_equal]
pub struct StepView {
    pub lines: Seq<Seq<char>>,
    pub complaint: ComplaintView,
    pub action: CliAction,
}

impl View for CliStep {
    type V = StepView;

    open spec fn view(&self) -> StepView {
        StepView {
            lines: Seq::new(self.lines@.len(), |i: int| self.lines@[i]@),
            complaint: self.complaint@,
            action: self.action,
        }
    }
}

/// A step that prints nothing and goes on.
pub open spec fn go_on(action: CliAction) -> StepView {
    StepView { lines: seq![], complaint: ComplaintView::Nothing, action }
}

/// The end of a command that succeeds, printing these lines.
pub open spec fn succeed(lines: Seq<Seq<char>>) -> StepView {
    StepView { lines, complaint: ComplaintView::Nothing, action: CliAction::Exit { code: 0 } }
}

/// The end of a command that fails.
pub open spec fn fail(complaint: ComplaintView) -> StepView {
    StepView { lines: seq![], complaint, action: CliAction::Exit { code: 1 } }
}

/// The line that tells where the microphone is.
pub open spec fn mic_line(mic_up: bool) -> Seq<char> {
    "Mic: "@ + mic_position_text(mic_up)
}

/// The line that tells of the battery.
pub open spec fn battery_line(percent: u8, status: Seq<char>) -> Seq<char> {
    "Battery: "@ + text::decimal(percent as nat) + "% ("@ + status + ")"@
}

/// The line that tells of the boost.
pub open spec fn boost_line(db: u8) -> Seq<char> {
    "Boost: +"@ + text::decimal(db as nat) + " dB"@
}

/// The line that confirms a boost.
pub open spec fn boost_set_line(db: u8) -> Seq<char> {
    "Boost set to +"@ + text::decimal(db as nat) + " dB"@
}

/// How a command ends when the running instance has replied.
pub open spec fn reply_step(command: Command, response: ResponseView) -> StepView {
    match response {
        ResponseView::Status {
            mic_up,
            battery_percent,
            battery_status,
            boost_db,
            connected,
        } => succeed(
            seq![
                mic_line(mic_up),
                battery_line(battery_percent, battery_status),
                boost_line(boost_db),
                if connected {
                    "Status: Connected"@
                } else {
                    "Status: Disconnected"@
                },
            ],
        ),
        ResponseView::Done => succeed(
            seq![
                match command {
                    Command::Boost { db } => boost_set_line(db),
                    Command::Stop => "Instance stopped"@,
                    Command::Status => "OK"@,
                },
            ],
        ),
        ResponseView::Error(msg) => fail(ComplaintView::Print("Error: "@ + msg)),
    }
}

/// The message that asks the running instance for the command.
pub open spec fn message_for(command: Command) -> IpcMessage {
    match command {
        Command::Status => IpcMessage::Status,
        Command::Boost { db } => IpcMessage::Boost(db),
        Command::Stop => IpcMessage::Stop,
    }
}

/// The first step of a command that cannot use a running instance: the status and the boost open
/// the headset themselves.
pub open spec fn direct_step(command: Command) -> StepView {
    match command {
        Command::Status | Command::Boost { .. } => go_on(CliAction::OpenDevice),
        Command::Stop => fail(ComplaintView::Print("No running instance found"@)),
    }
}

/// The step of a command after an event.
pub open spec fn cli_step(command: Command, event: CliEvent) -> StepView {
    match event {
        CliEvent::Start => go_on(CliAction::ProbeInstance),
        CliEvent::InstanceProbed { running } => if running {
            go_on(CliAction::Send(message_for(command)))
        } else {
            direct_step(command)
        },
        CliEvent::Replied(Ok(response)) => reply_step(command, response@),
        CliEvent::Replied(Err(_)) => direct_step(command),
        CliEvent::DeviceOpened(Ok(())) => if command is Boost {
            go_on(CliAction::FindAudio)
        } else {
            go_on(CliAction::RequestStatus)
        },
        CliEvent::DeviceOpened(Err(e)) => fail(ComplaintView::Log(device_error_text(e@))),
        CliEvent::StatusRequested(Ok(())) => go_on(
            CliAction::ReadStatus { timeout_ms: STATUS_TIMEOUT_MS },
        ),
        CliEvent::StatusRequested(Err(e)) => fail(
            ComplaintView::Log("Failed to request status: "@ + device_error_text(e@)),
        ),
        CliEvent::StatusRead(Ok(Some(status))) => StepView {
            lines: seq![
                mic_line(status.mic_up),
                battery_line(status.battery_percent, battery_text(status.battery_status)),
                "Connection: "@ + connection_text(status.connection),
            ],
            complaint: ComplaintView::Nothing,
            action: CliAction::FindAudio,
        },
        CliEvent::StatusRead(Ok(None)) => fail(ComplaintView::Log("No response from headset"@)),
        CliEvent::StatusRead(Err(e)) => fail(
            ComplaintView::Log("Failed to read status: "@ + device_error_text(e@)),
        ),
        CliEvent::AudioFound(found) => match command {
            Command::Boost { db } => match found {
                Ok(true) => go_on(CliAction::SetBoost(db)),
                Ok(false) => fail(ComplaintView::Log("Corsair audio device not found"@)),
                Err(e) => fail(ComplaintView::Log(audio_error_text(e@))),
            },
            _ => if found matches Ok(true) {
                go_on(CliAction::GetBoost)
            } else {
                succeed(seq![])
            },
        },
        CliEvent::BoostRead(Ok(db)) => succeed(seq![boost_line(db)]),
        CliEvent::BoostRead(Err(_)) => succeed(seq!["Boost: N/A"@]),
        CliEvent::BoostSet(Ok(())) => match command {
            Command::Boost { db } => succeed(seq![boost_set_line(db)]),
            _ => succeed(seq![]),
        },
        CliEvent::BoostSet(Err(e)) => fail(
            ComplaintView::Log("Failed to set boost: "@ + audio_error_text(e@)),
        ),
    }
}

fn going_on(action: CliAction) -> (r: CliStep)
    ensures
        r@ == go_on(action),
{
    CliStep { lines: Vec::new(), complaint: Complaint::Nothing, action }
}

fn success(lines: Vec<String>) -> (r: CliStep)
    ensures
        r@ == succeed(Seq::new(lines@.len(), |i: int| lines@[i]@)),
{
    CliStep { lines, complaint: Complaint::Nothing, action: CliAction::Exit { code: 0 } }
}

fn one_line(line: String) -> (r: CliStep)
    ensures
        r@ == succeed(seq![line@]),
{
    let mut lines: Vec<String> = Vec::new();
    lines.push(line);
    let r = success(lines);
    assert(r@ =~= succeed(seq![line@]));
    r
}

fn failure(complaint: Complaint) -> (r: CliStep)
    ensures
        r@ == fail(complaint@),
{
    CliStep { lines: Vec::new(), complaint, action: CliAction::Exit { code: 1 } }
}

fn joined(prefix: &str, rest: &str) -> (r: String)
    ensures
        r@ == prefix@ + rest@,
{
    let mut out = prefix.to_owned();
    out.append(rest);
    out
}

fn with_level(prefix: &str, level: u8, suffix: &str) -> (r: String)
    ensures
        r@ == prefix@ + text::decimal(level as nat) + suffix@,
{
    let mut out = prefix.to_owned();
    text::append_decimal(&mut out, level);
    out.append(suffix);
    out
}

fn battery(percent: u8, status: &str) -> (r: String)
    ensures
        r@ == battery_line(percent, status@),
{
    let mut out = with_level("Battery: ", percent, "% (");
    out.append(status);
    out.append(")");
    out
}

/// What a command prints when the running instance has replied, and how it ends.
pub fn print_response(command: &Command, response: &IpcResponse) -> (r: CliStep)
    ensures
        r@ == reply_step(*command, response@),
{
    match response {
        IpcResponse::Status { mic_up, battery_percent, battery_status, boost_db, connected } => {
            let mut lines: Vec<String> = Vec::new();
            lines.push(joined("Mic: ", mic_position(*mic_up)));
            lines.push(battery(*battery_percent, battery_status.as_str()));
            lines.push(with_level("Boost: +", *boost_db, " dB"));
            if *connected {
                lines.push("Status: Connected".to_owned());
            } else {
                lines.push("Status: Disconnected".to_owned());
            }
            let r = success(lines);
            assert(r@.lines =~= reply_step(*command, response@).lines);
            r
        },
        IpcResponse::Done => match command {
            Command::Boost { db } => one_line(with_level("Boost set to +", *db, " dB")),
            Command::Stop => one_line("Instance stopped".to_owned()),
            Command::Status => one_line("OK".to_owned()),
        },
        IpcResponse::Error(msg) => failure(Complaint::Print(joined("Error: ", msg.as_str()))),
    }
}

fn directly(command: Command) -> (r: CliStep)
    ensures
        r@ == direct_step(command),
{
    match command {
        Command::Status | Command::Boost { .. } => going_on(CliAction::OpenDevice),
        Command::Stop => failure(Complaint::Print("No running instance found".to_owned())),
    }
}

fn status_lines(status: &HeadsetStatus) -> (r: CliStep)
    ensures
        r@ == (StepView {
            lines: seq![
                mic_line(status.mic_up),
                battery_line(status.battery_percent, battery_text(status.battery_status)),
                "Connection: "@ + connection_text(status.connection),
            ],
            complaint: ComplaintView::Nothing,
            action: CliAction::FindAudio,
        }),
{
    let mut lines: Vec<String> = Vec::new();
    lines.push(joined("Mic: ", mic_position(status.mic_up)));
    lines.push(battery(status.battery_percent, status.battery_status.to_string().as_str()));
    lines.push(joined("Connection: ", status.connection.to_string().as_str()));
    CliStep { lines, complaint: Complaint::Nothing, action: CliAction::FindAudio }
}

/// The step of a command after an event. A running instance is asked first; where there is none,
/// or it cannot be reached, the status and the boost open the headset directly.
pub fn run_cli(command: Command, event: CliEvent) -> (r: CliStep)
    ensures
        r@ == cli_step(command, event),
{
    match event {
        CliEvent::Start => going_on(CliAction::ProbeInstance),
        CliEvent::InstanceProbed { running } => if running {
            going_on(
                CliAction::Send(
                    match command {
                        Command::Status => IpcMessage::Status,
                        Command::Boost { db } => IpcMessage::Boost(db),
                        Command::Stop => IpcMessage::Stop,
                    },
                ),
            )
        } else {
            directly(command)
        },
        CliEvent::Replied(Ok(response)) => print_response(&command, &response),
        CliEvent::Replied(Err(_)) => directly(command),
        CliEvent::DeviceOpened(Ok(())) => match command {
            Command::Boost { .. } => going_on(CliAction::FindAudio),
            _ => going_on(CliAction::RequestStatus),
        },
        CliEvent::DeviceOpened(Err(e)) => failure(Complaint::Log(e.to_string())),
        CliEvent::StatusRequested(Ok(())) => going_on(
            CliAction::ReadStatus { timeout_ms: STATUS_TIMEOUT_MS },
        ),
        CliEvent::StatusRequested(Err(e)) => failure(
            Complaint::Log(joined("Failed to request status: ", e.to_string().as_str())),
        ),
        CliEvent::StatusRead(Ok(Some(status))) => status_lines(&status),
        CliEvent::StatusRead(Ok(None)) => failure(
            Complaint::Log("No response from headset".to_owned()),
        ),
        CliEvent::StatusRead(Err(e)) => failure(
            Complaint::Log(joined("Failed to read status: ", e.to_string().as_str())),
        ),
        CliEvent::AudioFound(found) => match command {
            Command::Boost { db } => match found {
                Ok(true) => going_on(CliAction::SetBoost(db)),
                Ok(false) => failure(
                    Complaint::Log("Corsair audio device not found".to_owned()),
                ),
                Err(e) => failure(Complaint::Log(e.to_string())),
            },
            _ => match found {
                Ok(true) => going_on(CliAction::GetBoost),
                _ => success(Vec::new()),
            },
        },
        CliEvent::BoostRead(Ok(db)) => one_line(with_level("Boost: +", db, " dB")),
        CliEvent::BoostRead(Err(_)) => one_line("Boost: N/A".to_owned()),
        CliEvent::BoostSet(Ok(())) => match command {
            Command::Boost { db } => one_line(with_level("Boost set to +", db, " dB")),
            _ => success(Vec::new()),
        },
        CliEvent::BoostSet(Err(e)) => failure(
            Complaint::Log(joined("Failed to set boost: ", e.to_string().as_str())),
        ),
    }
}

/// The event can happen to the command: the steps of the other commands do not ask for it.
pub open spec fn concerns(event: CliEvent, command: Command) -> bool {
    match event {
        CliEvent::Start | CliEvent::InstanceProbed { .. } | CliEvent::Replied(_) => true,
        CliEvent::DeviceOpened(_) | CliEvent::AudioFound(_) => !(command is Stop),
        CliEvent::BoostSet(_) => command is Boost,
        _ => command is Status,
    }
}

/// The event is an answer to the action.
pub open spec fn answers(event: CliEvent, action: CliAction) -> bool {
    match action {
        CliAction::ProbeInstance => event is InstanceProbed,
        CliAction::Send(_) => event is Replied,
        CliAction::OpenDevice => event is DeviceOpened,
        CliAction::RequestStatus => event is StatusRequested,
        CliAction::ReadStatus { .. } => event is StatusRead,
        CliAction::FindAudio => event is AudioFound,
        CliAction::GetBoost => event is BoostRead,
        CliAction::SetBoost(_) => event is BoostSet,
        CliAction::Exit { .. } => false,
    }
}

/// How many steps an action is away from the end at most.
pub open spec fn steps_left(action: CliAction) -> nat {
    match action {
        CliAction::ProbeInstance => 7,
        CliAction::Send(_) => 6,
        CliAction::OpenDevice => 5,
        CliAction::RequestStatus => 4,
        CliAction::ReadStatus { .. } => 3,
        CliAction::FindAudio => 2,
        CliAction::GetBoost | CliAction::SetBoost(_) => 1,
        CliAction::Exit { .. } => 0,
    }
}

/// Every command comes to an end: each answer to the action of a step concerns the command, and
/// its step is nearer to the end.
pub proof fn commands_come_to_an_end(command: Command, event: CliEvent, answer: CliEvent)
    requires
        concerns(event, command),
        answers(answer, cli_step(command, event).action),
    ensures
        concerns(answer, command),
        steps_left(cli_step(command, answer).action) < steps_left(cli_step(command, event).action),
{
}

/// A command complains exactly when it fails, and then its exit code is 1; otherwise it is 0.
pub proof fn exit_codes_tell_failures(command: Command, event: CliEvent)
    ensures
        ({
            let step = cli_step(command, event);
            match step.action {
                CliAction::Exit { code } => code == if step.complaint is Nothing {
                    0
                } else {
                    1int
                },
                _ => step.complaint is Nothing,
            }
        }),
{
}

/// An instance that cannot be reached is treated as none.
pub proof fn unreachable_instances_are_passed_over(command: Command, error: String)
    ensures
        cli_step(command, CliEvent::Replied(Err(error))) == cli_step(
            command,
            CliEvent::InstanceProbed { running: false },
        ),
{
}

/// Without an instance that can be reached, the status and the boost open the headset directly, and
/// go on only once it is open.
pub proof fn without_an_instance_the_headset_is_opened(command: Command, error: DeviceError)
    requires
        !(command is Stop),
    ensures
        cli_step(command, CliEvent::InstanceProbed { running: false }) == go_on(
            CliAction::OpenDevice,
        ),
        cli_step(command, CliEvent::DeviceOpened(Err(error))) == fail(
            ComplaintView::Log(device_error_text(error@)),
        ),
        cli_step(command, CliEvent::DeviceOpened(Ok(()))) == go_on(
            if command is Boost {
                CliAction::FindAudio
            } else {
                CliAction::RequestStatus
            },
        ),
{
}

/// Exactly the supported levels are accepted as an argument of the boost command.
pub proof fn boost_levels_are_accepted(db: u8)
    ensures
        boost_argument_error(text::decimal(db as nat)) is None <==> is_boost_level(db),
{
    text::lemma_decimal_reads_back(db);
}

/// What the command line asks for is what the running instance is asked for.
pub proof fn commands_arrive(command: Command)
    requires
        command matches Command::Boost { db } ==> is_boost_level(db),
    ensures
        message_of(message_line(message_for(command))) == Some(message_for(command)),
{
    messages_arrive(message_for(command));
}

/// A command that the running instance confirms succeeds and says so.
pub proof fn confirmed_commands_succeed(command: Command)
    ensures
        reply_step(command, response_of(response_line(ResponseView::Done))) == succeed(
            seq![
                match command {
                    Command::Boost { db } => boost_set_line(db),
                    Command::Stop => "Instance stopped"@,
                    Command::Status => "OK"@,
                },
            ],
        ),
{
    responses_arrive(ResponseView::Done);
}

/// A command that the running instance refuses fails and tells why, but for white space at the end.
pub proof fn refused_commands_fail(command: Command, msg: Seq<char>)
    ensures
        reply_step(command, response_of(response_line(ResponseView::Error(msg)))) == fail(
            ComplaintView::Print("Error: "@ + text::trim_end(msg)),
        ),
{
    responses_arrive(ResponseView::Error(msg));
}

/// The status command shows what the tray knows, whatever that is.
pub proof fn the_status_is_that_of_the_tray(state: AppState)
    ensures
        reply_step(Command::Status, response_of(response_line(status_response(state)))) == succeed(
            seq![
                mic_line(state.last_mic_up == Some(true)),
                battery_line(state.battery_percent, battery_text(state.battery_status)),
                boost_line(state.boost_db),
                if state.device_open {
                    "Status: Connected"@
                } else {
                    "Status: Disconnected"@
                },
            ],
        ),
{
    status_responses_arrive(state);
}

/// A boost that has found the capture device goes on to set exactly the level asked for, 0 as any
/// other, and prints nothing yet.
pub proof fn boosts_are_set(db: u8)
    ensures
        ({
            let step = cli_step(Command::Boost { db }, CliEvent::AudioFound(Ok(true)));
            &&& step.action == CliAction::SetBoost(db)
            &&& step.lines.len() == 0
            &&& step.complaint is Nothing
        }),
{
}

/// The boost command succeeds, and says that the boost is set, only once the boost has been set or
/// the running instance has answered, and it tries to set a level only once the capture device has
/// been found.
pub proof fn boosts_are_confirmed_once_set(db: u8, event: CliEvent)
    ensures
        ({
            let step = cli_step(Command::Boost { db }, event);
            let set = event matches CliEvent::BoostSet(Ok(()));
            let confirmed = event matches CliEvent::Replied(Ok(response)) && response is Done;
            &&& step.action == (CliAction::Exit { code: 0 }) && concerns(
                event,
                Command::Boost { db },
            ) ==> set || (event matches CliEvent::Replied(Ok(response)) && !(response is Error))
            &&& set || confirmed ==> step.action == (CliAction::Exit { code: 0 }) && step.lines
                == seq![boost_set_line(db)]
            &&& step.lines.contains(boost_set_line(db)) ==> set || confirmed
            &&& step.action is SetBoost ==> (event matches CliEvent::AudioFound(Ok(true)))
        }),
{
    let step = cli_step(Command::Boost { db }, event);
    let line = boost_set_line(db);
    lemma_boost_set_line_is_its_own(db, step);
    if step.lines.contains(line) {
        let i = choose|i: int| 0 <= i < step.lines.len() && step.lines[i] == line;
        assert(step.lines[i] == line);
        match event {
            CliEvent::Replied(Ok(response)) => {
                lemma_line_starts(db);
                match response@ {
                    ResponseView::Status { mic_up, battery_percent, battery_status, boost_db, .. } => {
                        lemma_status_line_starts(
                            mic_up,
                            battery_percent,
                            battery_status,
                            boost_db,
                        );
                        assert(i == 0 || i == 1 || i == 2 || i == 3);
                    },
                    _ => {},
                }
            },
            CliEvent::StatusRead(Ok(Some(status))) => {
                lemma_line_starts(db);
                lemma_status_line_starts(
                    status.mic_up,
                    status.battery_percent,
                    battery_text(status.battery_status),
                    0,
                );
                reveal_strlit("Connection: ");
                assert(i == 0 || i == 1 || i == 2);
            },
            CliEvent::BoostRead(Ok(other)) => {
                lemma_line_starts(db);
                lemma_status_line_starts(true, 0, seq![], other);
            },
            CliEvent::BoostRead(Err(_)) => {
                lemma_line_starts(db);
                reveal_strlit("Boost: N/A");
            },
            _ => {},
        }
    }
}

proof fn lemma_boost_set_line_is_its_own(db: u8, step: StepView)
    ensures
        step.lines == seq![boost_set_line(db)] ==> step.lines.contains(boost_set_line(db)),
{
    if step.lines == seq![boost_set_line(db)] {
        assert(step.lines[0] == boost_set_line(db));
    }
}

proof fn lemma_line_starts(db: u8)
    ensures
        boost_set_line(db).len() > 6,
        boost_set_line(db)[0] == 'B',
        boost_set_line(db)[1] == 'o',
        boost_set_line(db)[5] == ' ',
{
    reveal_strlit("Boost set to +");
    let line = boost_set_line(db);
    assert(line[0] == "Boost set to +"@[0]);
    assert(line[1] == "Boost set to +"@[1]);
    assert(line[5] == "Boost set to +"@[5]);
}

proof fn lemma_status_line_starts(mic_up: bool, percent: u8, status: Seq<char>, db: u8)
    ensures
        mic_line(mic_up)[0] == 'M',
        battery_line(percent, status)[1] == 'a',
        boost_line(db)[5] == ':',
        "Status: Connected"@[0] == 'S',
        "Status: Disconnected"@[0] == 'S',
{
    reveal_strlit("Mic: ");
    reveal_strlit("Battery: ");
    reveal_strlit("Boost: +");
    reveal_strlit("Status: Connected");
    reveal_strlit("Status: Disconnected");
    assert(mic_line(mic_up)[0] == "Mic: "@[0]);
    assert(battery_line(percent, status)[1] == "Battery: "@[1]);
    assert(boost_line(db)[5] == "Boost: +"@[5]);
}

/// The running instance is sent the command itself, with its level, and only where it was found to
/// be running.
pub proof fn commands_are_sent_as_they_are(command: Command, event: CliEvent, msg: IpcMessage)
    ensures
        cli_step(command, event).action == CliAction::Send(msg) <==> {
            &&& event == (CliEvent::InstanceProbed { running: true })
            &&& match command {
                Command::Status => msg is Status,
                Command::Boost { db } => msg == IpcMessage::Boost(db),
                Command::Stop => msg is Stop,
            }
        },
        event == (CliEvent::InstanceProbed { running: true }) ==> cli_step(command, event).action
            is Send,
{
}

/// The stop command never touches the headset or the audio: without an instance that can be reached
/// it fails.
pub proof fn stops_need_an_instance(event: CliEvent)
    requires
        concerns(event, Command::Stop),
    ensures
        ({
            let step = cli_step(Command::Stop, event);
            &&& step.action is ProbeInstance || step.action is Send || step.action is Exit
            &&& (event == (CliEvent::InstanceProbed { running: false }) || event matches
                CliEvent::Replied(Err(_))) ==> step.action == (CliAction::Exit { code: 1 })
        }),
{
}

/// A status that was read directly is shown as it was read, in three lines, and the boost is looked
/// up after it.
pub proof fn direct_statuses_are_shown(status: HeadsetStatus)
    ensures
        ({
            let step = cli_step(Command::Status, CliEvent::StatusRead(Ok(Some(status))));
            &&& step.lines.len() == 3
            &&& step.lines[0] == if status.mic_up {
                "Mic: Muted (UP)"@
            } else {
                "Mic: Active (DOWN)"@
            }
            &&& step.lines[1] == battery_line(
                status.battery_percent,
                battery_text(status.battery_status),
            )
            &&& step.lines[2] == "Connection: "@ + connection_text(status.connection)
            &&& step.complaint is Nothing
            &&& step.action is FindAudio
        }),
{
    reveal_strlit("Mic: ");
    reveal_strlit("Muted (UP)");
    reveal_strlit("Active (DOWN)");
    reveal_strlit("Mic: Muted (UP)");
    reveal_strlit("Mic: Active (DOWN)");
    let step = cli_step(Command::Status, CliEvent::StatusRead(Ok(Some(status))));
    assert(step.lines[0] == if status.mic_up {
        "Mic: Muted (UP)"@
    } else {
        "Mic: Active (DOWN)"@
    });
}

/// The status command shows the boost wherever the capture device is there, the level that was read
/// or that there is none to show, and ends well without one.
pub proof fn the_boost_is_shown_where_there_is_one(found: Result<bool, AudioError>, db: u8)
    ensures
        ({
            let step = cli_step(Command::Status, CliEvent::AudioFound(found));
            &&& found == Ok::<bool, AudioError>(true) <==> step.action is GetBoost
            &&& found != Ok::<bool, AudioError>(true) <==> step.action == (CliAction::Exit {
                code: 0,
            })
            &&& step.lines.len() == 0
            &&& cli_step(Command::Status, CliEvent::BoostRead(Ok(db))) == succeed(
                seq![boost_line(db)],
            )
        }),
{
}

/// A failure ends the command with code 1 and tells what went wrong, in the words of the device or
/// of the audio where the error came from there.
pub proof fn failures_are_told(command: Command, device: DeviceError, audio: AudioError)
    requires
        command is Boost,
    ensures
        cli_step(command, CliEvent::AudioFound(Err(audio))) == (StepView {
            lines: seq![],
            complaint: ComplaintView::Log(audio_error_text(audio@)),
            action: CliAction::Exit { code: 1 },
        }),
        cli_step(command, CliEvent::AudioFound(Ok(false))) == (StepView {
            lines: seq![],
            complaint: ComplaintView::Log("Corsair audio device not found"@),
            action: CliAction::Exit { code: 1 },
        }),
        cli_step(command, CliEvent::BoostSet(Err(audio))) == (StepView {
            lines: seq![],
            complaint: ComplaintView::Log("Failed to set boost: "@ + audio_error_text(audio@)),
            action: CliAction::Exit { code: 1 },
        }),
        cli_step(Command::Status, CliEvent::StatusRequested(Err(device))) == (StepView {
            lines: seq![],
            complaint: ComplaintView::Log(
                "Failed to request status: "@ + device_error_text(device@),
            ),
            action: CliAction::Exit { code: 1 },
        }),
        cli_step(Command::Status, CliEvent::StatusRead(Err(device))) == (StepView {
            lines: seq![],
            complaint: ComplaintView::Log("Failed to read status: "@ + device_error_text(device@)),
            action: CliAction::Exit { code: 1 },
        }),
        cli_step(Command::Status, CliEvent::StatusRead(Ok(None))) == (StepView {
            lines: seq![],
            complaint: ComplaintView::Log("No response from headset"@),
            action: CliAction::Exit { code: 1 },
        }),
{
}

/// A status is asked for once the headset is open, and read for one second.
pub proof fn statuses_are_requested_and_read()
    ensures
        cli_step(Command::Status, CliEvent::DeviceOpened(Ok(()))).action is RequestStatus,
        cli_step(Command::Status, CliEvent::StatusRequested(Ok(()))).action == (
        CliAction::ReadStatus { timeout_ms: 1000 }),
{
}

/// The battery line can be read back: the level stands before the percent sign and the status in
/// the brackets after it.
pub proof fn battery_lines_tell_the_level(percent: u8, status: Seq<char>)
    ensures
        ({
            let line = battery_line(percent, status);
            &&& "Battery: "@.is_prefix_of(line)
            &&& text::around_first(line.skip("Battery: "@.len() as int), '%') matches Some(
                (digits, rest),
            )
            &&& text::u8_value(digits) == Some(percent)
            &&& rest == " ("@ + status + ")"@
        }),
{
    reveal_strlit("% (");
    reveal_strlit(" (");
    let rest = " ("@ + status + ")"@;
    assert("% ("@ == seq!['%'] + " ("@);
    assert(battery_line(percent, status) == "Battery: "@ + (text::decimal(percent as nat)
        + seq!['%'] + rest));
    text::lemma_number_reads_back("Battery: "@, percent, '%', rest);
}

/// The level can be read back from the lines that tell of the boost.
pub proof fn boost_lines_tell_the_level(db: u8)
    ensures
        ({
            let shown = boost_line(db);
            let set = boost_set_line(db);
            &&& "Boost: +"@.is_prefix_of(shown)
            &&& "Boost set to +"@.is_prefix_of(set)
            &&& text::around_first(shown.skip("Boost: +"@.len() as int), ' ') matches Some(
                (digits, unit),
            )
            &&& text::u8_value(digits) == Some(db)
            &&& unit == "dB"@
            &&& text::around_first(set.skip("Boost set to +"@.len() as int), ' ') matches Some(
                (digits, unit),
            )
            &&& text::u8_value(digits) == Some(db)
            &&& unit == "dB"@
        }),
{
    reveal_strlit(" dB");
    reveal_strlit("dB");
    assert(" dB"@ == seq![' '] + "dB"@);
    let level = text::decimal(db as nat) + seq![' '] + "dB"@;
    assert(boost_line(db) == "Boost: +"@ + level);
    assert(boost_set_line(db) == "Boost set to +"@ + level);
    text::lemma_number_reads_back("Boost: +"@, db, ' ', "dB"@);
    text::lemma_number_reads_back("Boost set to +"@, db, ' ', "dB"@);
}

/// The argument of the boost command is accepted exactly if it is the number 0, 5 or 10, and what is
/// wrong with another is told in its own words.
pub proof fn boost_arguments_are_levels(s: Seq<char>)
    ensures
        boost_argument_error(s) is None <==> text::u8_value(s) == Some(0u8) || text::u8_value(s)
            == Some(5u8) || text::u8_value(s) == Some(10u8),
        text::u8_value(s) is None ==> boost_argument_error(s) == Some(
            "'"@ + s + "' is not a valid number"@,
        ),
{
    assert(crate::audio::BOOST_LEVELS[0] == 0);
    assert(crate::audio::BOOST_LEVELS[1] == 5);
    assert(crate::audio::BOOST_LEVELS[2] == 10);
}

/// The boost command sets the level before it says so: once the capture device is found it goes on
/// to set that level, whichever it is, and it ends well only after that was done.
pub proof fn boosts_are_set_before_they_are_confirmed(
    db: u8,
    event: CliEvent,
    found: CliStep,
    step: CliStep,
)
    requires
        call_ensures(run_cli, (Command::Boost { db }, CliEvent::AudioFound(Ok(true))), found),
        call_ensures(run_cli, (Command::Boost { db }, event), step),
        concerns(event, Command::Boost { db }),
        !(event is Replied),
    ensures
        found.action == CliAction::SetBoost(db),
        found.lines@.len() == 0,
        step.action == (CliAction::Exit { code: 0 }) ==> (event matches CliEvent::BoostSet(Ok(_))),
        step.lines@.len() > 0 ==> (event matches CliEvent::BoostSet(Ok(_))),
{
    boosts_are_set(db);
    boosts_are_confirmed_once_set(db, event);
    assert(found@.lines.len() == found.lines@.len());
    assert(step@.lines.len() == step.lines@.len());
}

/// A status that the running instance sends is shown as it was sent, whatever it holds.
pub proof fn replied_statuses_are_shown(
    command: Command,
    mic_up: bool,
    percent: u8,
    status: Seq<char>,
    db: u8,
    connected: bool,
)
    ensures
        ({
            let step = reply_step(
                command,
                ResponseView::Status {
                    mic_up,
                    battery_percent: percent,
                    battery_status: status,
                    boost_db: db,
                    connected,
                },
            );
            &&& step.lines.len() == 4
            &&& step.lines[0] == if mic_up {
                "Mic: Muted (UP)"@
            } else {
                "Mic: Active (DOWN)"@
            }
            &&& step.lines[1] == battery_line(percent, status)
            &&& step.lines[2] == boost_line(db)
            &&& step.lines[3] == if connected {
                "Status: Connected"@
            } else {
                "Status: Disconnected"@
            }
            &&& step.complaint is Nothing
            &&& step.action == (CliAction::Exit { code: 0 })
        }),
{
    reveal_strlit("Mic: ");
    reveal_strlit("Muted (UP)");
    reveal_strlit("Active (DOWN)");
    reveal_strlit("Mic: Muted (UP)");
    reveal_strlit("Mic: Active (DOWN)");
    assert(mic_line(mic_up) == if mic_up {
        "Mic: Muted (UP)"@
    } else {
        "Mic: Active (DOWN)"@
    });
}

} // verus!
