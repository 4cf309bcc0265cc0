//! The bootstrap and turn-loop state machine. The machine decides;
//! the transport driver around it acts. Each call of `step` takes the
//! event the driver observed and returns the one command the driver
//! must perform next: connect a channel, wait out the startup delay,
//! run a bot hook, read or send a frame, or terminate the process.
//!
//! The bootstrap order is fixed: connect the game channel, wait the
//! startup delay once, connect the log channel, initialize the bot,
//! then enter the steady state, where every received frame is decoded,
//! decided on, and answered with exactly one outbound action frame.
//! Every failure is fatal: the machine issues `Exit` and accepts no
//! further event.

use vstd::prelude::*;
use crate::endpoint::{spec_game_url, spec_log_url, game_url, log_url};
use crate::errors::ProtocolError;
use crate::json::is_json_value;
use crate::wire::{ClientInfo, ClientMessage, action_frame, decode, encode};

verus! {

/// Where the run stands.
#[derive(Clone, Copy, Debug, PartialEq, Eq, Structural)]
pub enum Phase {
    /// Establishing the game channel.
    ConnectingGame,
    /// Waiting out the one-time startup delay.
    Delaying,
    /// Establishing the log channel.
    ConnectingLog,
    /// Running the bot's initialization hook.
    Initializing,
    /// Steady state: blocked on the next inbound frame.
    AwaitingFrame,
    /// Steady state: the bot is deciding on the received snapshot.
    Deciding,
    /// Steady state: the action frame is going out.
    SendingAction,
    /// The run failed; no further event is accepted.
    Fatal(ProtocolError),
}

/// What the driver observed since the last command.
pub enum Event {
    /// The game channel came up.
    GameConnected,
    /// The game channel could not be established.
    GameConnectFailed,
    /// The startup delay elapsed.
    DelayDone,
    /// The log channel came up.
    LogConnected,
    /// The log channel could not be established.
    LogConnectFailed,
    /// The bot's initialization hook returned.
    BotInitialized,
    /// One inbound frame arrived, with its text.
    FrameRead(String),
    /// The read on the game channel failed.
    ReadFailed,
    /// The bot decided; the payload is its action as JSON text.
    ActionDecided(String),
    /// The outbound frame was written.
    FrameSent,
    /// The write on the game channel failed.
    SendFailed,
}

/// What the driver must do next.
pub enum Command {
    /// Connect the game channel to the given address.
    ConnectGame(String),
    /// Wait out the startup delay once.
    Delay,
    /// Connect the log channel to the given address.
    ConnectLog(String),
    /// Instantiate the bot and run its initialization hook.
    InitBot,
    /// Block reading the next inbound frame from the game channel.
    ReadFrame,
    /// Hand the decoded snapshot to the bot's decision hook.
    Decide(ClientInfo),
    /// Write the given frame to the game channel.
    SendFrame(String),
    /// Terminate the process over the given failure.
    Exit(ProtocolError),
}

/// The abstract value of an `Event`.
pub enum EventView {
    GameConnected,
    GameConnectFailed,
    DelayDone,
    LogConnected,
    LogConnectFailed,
    BotInitialized,
    FrameRead(Seq<char>),
    ReadFailed,
    ActionDecided(Seq<char>),
    FrameSent,
    SendFailed,
}

/// The abstract value of a `Command`.
pub enum CommandView {
    ConnectGame(Seq<char>),
    Delay,
    ConnectLog(Seq<char>),
    InitBot,
    ReadFrame,
    Decide(Seq<char>),
    SendFrame(Seq<char>),
    Exit(ProtocolError),
}

impl View for Event {
    type V = EventView;

    open spec fn view(&self) -> EventView {
        match self {
            Event::GameConnected => EventView::GameConnected,
            Event::GameConnectFailed => EventView::GameConnectFailed,
            Event::DelayDone => EventView::DelayDone,
            Event::LogConnected => EventView::LogConnected,
            Event::LogConnectFailed => EventView::LogConnectFailed,
            Event::BotInitialized => EventView::BotInitialized,
            Event::FrameRead(frame) => EventView::FrameRead(frame@),
            Event::ReadFailed => EventView::ReadFailed,
            Event::ActionDecided(payload) => EventView::ActionDecided(payload@),
            Event::FrameSent => EventView::FrameSent,
            Event::SendFailed => EventView::SendFailed,
        }
    }
}

impl View for Command {
    type V = CommandView;

    open spec fn view(&self) -> CommandView {
        match self {
            Command::ConnectGame(url) => CommandView::ConnectGame(url@),
            Command::Delay => CommandView::Delay,
            Command::ConnectLog(url) => CommandView::ConnectLog(url@),
            Command::InitBot => CommandView::InitBot,
            Command::ReadFrame => CommandView::ReadFrame,
            Command::Decide(info) => CommandView::Decide(info@),
            Command::SendFrame(frame) => CommandView::SendFrame(frame@),
            Command::Exit(err) => CommandView::Exit(*err),
        }
    }
}

/// Which events can be observed in which phase. The driver only ever
/// reports the outcome of the command the machine last issued, so
/// each phase admits the outcomes of its own command and nothing
/// else; the `Fatal` phase admits no event at all.
pub open spec fn fits(p: Phase, e: EventView) -> bool {
    match (p, e) {
        (Phase::ConnectingGame, EventView::GameConnected) => true,
        (Phase::ConnectingGame, EventView::GameConnectFailed) => true,
        (Phase::Delaying, EventView::DelayDone) => true,
        (Phase::ConnectingLog, EventView::LogConnected) => true,
        (Phase::ConnectingLog, EventView::LogConnectFailed) => true,
        (Phase::Initializing, EventView::BotInitialized) => true,
        (Phase::AwaitingFrame, EventView::FrameRead(_)) => true,
        (Phase::AwaitingFrame, EventView::ReadFailed) => true,
        (Phase::Deciding, EventView::ActionDecided(_)) => true,
        (Phase::SendingAction, EventView::FrameSent) => true,
        (Phase::SendingAction, EventView::SendFailed) => true,
        _ => false,
    }
}

/// The phase after one step. Meaningful only where the event fits the
/// phase; elsewhere the machine stands still.
pub open spec fn spec_next(p: Phase, e: EventView) -> Phase {
    match (p, e) {
        (Phase::ConnectingGame, EventView::GameConnected) => Phase::Delaying,
        (Phase::ConnectingGame, EventView::GameConnectFailed) => Phase::Fatal(
            ProtocolError::Connection,
        ),
        (Phase::Delaying, EventView::DelayDone) => Phase::ConnectingLog,
        (Phase::ConnectingLog, EventView::LogConnected) => Phase::Initializing,
        (Phase::ConnectingLog, EventView::LogConnectFailed) => Phase::Fatal(
            ProtocolError::Connection,
        ),
        (Phase::Initializing, EventView::BotInitialized) => Phase::AwaitingFrame,
        (Phase::AwaitingFrame, EventView::FrameRead(frame)) => if is_json_value(frame) {
            Phase::Deciding
        } else {
            Phase::Fatal(ProtocolError::Deserialization)
        },
        (Phase::AwaitingFrame, EventView::ReadFailed) => Phase::Fatal(ProtocolError::Reception),
        (Phase::Deciding, EventView::ActionDecided(payload)) => if is_json_value(payload) {
            Phase::SendingAction
        } else {
            Phase::Fatal(ProtocolError::Serialization)
        },
        (Phase::SendingAction, EventView::FrameSent) => Phase::AwaitingFrame,
        (Phase::SendingAction, EventView::SendFailed) => Phase::Fatal(ProtocolError::Transmission),
        _ => p,
    }
}

/// The command issued by one step. Meaningful only where the event
/// fits the phase.
pub open spec fn spec_command(p: Phase, port: u16, e: EventView) -> CommandView {
    match (p, e) {
        (Phase::ConnectingGame, EventView::GameConnected) => CommandView::Delay,
        (Phase::ConnectingGame, EventView::GameConnectFailed) => CommandView::Exit(
            ProtocolError::Connection,
        ),
        (Phase::Delaying, EventView::DelayDone) => CommandView::ConnectLog(spec_log_url(port)),
        (Phase::ConnectingLog, EventView::LogConnected) => CommandView::InitBot,
        (Phase::ConnectingLog, EventView::LogConnectFailed) => CommandView::Exit(
            ProtocolError::Connection,
        ),
        (Phase::Initializing, EventView::BotInitialized) => CommandView::ReadFrame,
        (Phase::AwaitingFrame, EventView::FrameRead(frame)) => if is_json_value(frame) {
            CommandView::Decide(frame)
        } else {
            CommandView::Exit(ProtocolError::Deserialization)
        },
        (Phase::AwaitingFrame, EventView::ReadFailed) => CommandView::Exit(
            ProtocolError::Reception,
        ),
        (Phase::Deciding, EventView::ActionDecided(payload)) => if is_json_value(payload) {
            CommandView::SendFrame(action_frame(payload))
        } else {
            CommandView::Exit(ProtocolError::Serialization)
        },
        (Phase::SendingAction, EventView::FrameSent) => CommandView::ReadFrame,
        (Phase::SendingAction, EventView::SendFailed) => CommandView::Exit(
            ProtocolError::Transmission,
        ),
        _ => CommandView::Exit(ProtocolError::Connection),
    }
}

/// The protocol machine: the current phase and the one startup
/// parameter, the port both endpoints are derived from.
pub struct Protocol {
    /// Where the run stands.
    pub phase: Phase,
    /// The server port shared by both channels.
    pub port: u16,
}

impl Protocol {
    /// Starts a run: the machine begins by establishing the game
    /// channel, at the game endpoint of the given port.
    pub fn start(port: u16) -> (r: (Protocol, Command))
        ensures
            r.0.phase == Phase::ConnectingGame,
            r.0.port == port,
            r.1@ == CommandView::ConnectGame(spec_game_url(port)),
    {
        let machine = Protocol { phase: Phase::ConnectingGame, port };
        let url = game_url(port);
        (machine, Command::ConnectGame(url))
    }

    /// Whether the machine accepts the given event in its current
    /// phase. The driver checks this before calling `step`.
    pub fn accepts(&self, e: &Event) -> (r: bool)
        ensures
            r == fits(self.phase, e@),
    {
        match (self.phase, e) {
            (Phase::ConnectingGame, Event::GameConnected) => true,
            (Phase::ConnectingGame, Event::GameConnectFailed) => true,
            (Phase::Delaying, Event::DelayDone) => true,
            (Phase::ConnectingLog, Event::LogConnected) => true,
            (Phase::ConnectingLog, Event::LogConnectFailed) => true,
            (Phase::Initializing, Event::BotInitialized) => true,
            (Phase::AwaitingFrame, Event::FrameRead(_)) => true,
            (Phase::AwaitingFrame, Event::ReadFailed) => true,
            (Phase::Deciding, Event::ActionDecided(_)) => true,
            (Phase::SendingAction, Event::FrameSent) => true,
            (Phase::SendingAction, Event::SendFailed) => true,
            _ => false,
        }
    }

    /// One step of the protocol: takes the event the driver observed,
    /// moves to the next phase and returns the next command.
    pub fn step(&mut self, e: Event) -> (cmd: Command)
        requires
            fits(old(self).phase, e@),
        ensures
            final(self).port == old(self).port,
            final(self).phase == spec_next(old(self).phase, e@),
            cmd@ == spec_command(old(self).phase, old(self).port, e@),
    {
        let phase = self.phase;
        match (phase, e) {
            (Phase::ConnectingGame, Event::GameConnected) => {
                self.phase = Phase::Delaying;
                Command::Delay
            }
            (Phase::ConnectingGame, Event::GameConnectFailed) => {
                self.phase = Phase::Fatal(ProtocolError::Connection);
                Command::Exit(ProtocolError::Connection)
            }
            (Phase::Delaying, Event::DelayDone) => {
                self.phase = Phase::ConnectingLog;
                Command::ConnectLog(log_url(self.port))
            }
            (Phase::ConnectingLog, Event::LogConnected) => {
                self.phase = Phase::Initializing;
                Command::InitBot
            }
            (Phase::ConnectingLog, Event::LogConnectFailed) => {
                self.phase = Phase::Fatal(ProtocolError::Connection);
                Command::Exit(ProtocolError::Connection)
            }
            (Phase::Initializing, Event::BotInitialized) => {
                self.phase = Phase::AwaitingFrame;
                Command::ReadFrame
            }
            (Phase::AwaitingFrame, Event::FrameRead(frame)) => {
                match decode(frame.as_str()) {
                    Ok(info) => {
                        self.phase = Phase::Deciding;
                        Command::Decide(info)
                    }
                    Err(err) => {
                        self.phase = Phase::Fatal(err);
                        Command::Exit(err)
                    }
                }
            }
            (Phase::AwaitingFrame, Event::ReadFailed) => {
                self.phase = Phase::Fatal(ProtocolError::Reception);
                Command::Exit(ProtocolError::Reception)
            }
            (Phase::Deciding, Event::ActionDecided(payload)) => {
                match encode(&ClientMessage::Action(payload)) {
                    Ok(frame) => {
                        self.phase = Phase::SendingAction;
                        Command::SendFrame(frame)
                    }
                    Err(err) => {
                        self.phase = Phase::Fatal(err);
                        Command::Exit(err)
                    }
                }
            }
            (Phase::SendingAction, Event::FrameSent) => {
                self.phase = Phase::AwaitingFrame;
                Command::ReadFrame
            }
            (Phase::SendingAction, Event::SendFailed) => {
                self.phase = Phase::Fatal(ProtocolError::Transmission);
                Command::Exit(ProtocolError::Transmission)
            }
            _ => {
                proof {
                    assert(false);
                }
                vstd::pervasive::unreached()
            }
        }
    }
}

} // verus!
