//! The self-update: what is announced while the update script runs.
//!
//! The caller starts the script and reads its output; for each thing that
//! happens it asks `UpdateRun::on_event` what to announce and whether the run
//! goes on.

use crate::text::text_of;
use vstd::prelude::*;

verus! {

/// Where a run of the update script stands.
#[derive(Clone, Copy, Debug, PartialEq, Eq, Structural)]
pub enum UpdatePhase {
    /// Nothing was announced yet.
    Idle,
    /// The start was announced; the script is being started.
    Starting,
    /// The script runs and its output is passed on.
    Streaming,
    /// The output has ended; the script's end is awaited.
    Waiting,
    /// The run is over.
    Done,
}

/// What happens in a run of the update script.
#[derive(Clone, Debug)]
pub enum UpdateEvent {
    /// The update was asked for.
    Requested,
    /// The script is running.
    Spawned,
    /// The script could not be started, and why.
    SpawnFailed(String),
    /// A line on the script's standard output.
    Stdout(String),
    /// A line on the script's standard error.
    Stderr(String),
    /// One of the script's outputs has ended or failed.
    StreamClosed,
    /// The script has ended: whether with success, and its status as text.
    Exited(bool, String),
    /// The script's end could not be awaited, and why.
    WaitFailed(String),
}

/// An event as plain values.
pub enum EventView {
    Requested,
    Spawned,
    SpawnFailed(Seq<char>),
    Stdout(Seq<char>),
    Stderr(Seq<char>),
    StreamClosed,
    Exited(bool, Seq<char>),
    WaitFailed(Seq<char>),
}

impl View for UpdateEvent {
    type V = EventView;

    open spec fn view(&self) -> EventView {
        match self {
            UpdateEvent::Requested => EventView::Requested,
            UpdateEvent::Spawned => EventView::Spawned,
            UpdateEvent::SpawnFailed(why) => EventView::SpawnFailed(why@),
            UpdateEvent::Stdout(line) => EventView::Stdout(line@),
            UpdateEvent::Stderr(line) => EventView::Stderr(line@),
            UpdateEvent::StreamClosed => EventView::StreamClosed,
            UpdateEvent::Exited(success, status) => EventView::Exited(*success, status@),
            UpdateEvent::WaitFailed(why) => EventView::WaitFailed(why@),
        }
    }
}

/// The phase after an event, and what the event makes the run announce. An
/// event that does not belong to the phase changes nothing and announces
/// nothing.
pub open spec fn update_step(phase: UpdatePhase, event: EventView) -> (
    UpdatePhase,
    Option<Seq<char>>,
) {
    match (phase, event) {
        (UpdatePhase::Idle, EventView::Requested) => (
            UpdatePhase::Starting,
            Some("🚀 Starting update process..."@),
        ),
        (UpdatePhase::Starting, EventView::Spawned) => (UpdatePhase::Streaming, None),
        (UpdatePhase::Starting, EventView::SpawnFailed(why)) => (
            UpdatePhase::Done,
            Some("❌ Failed to start script: "@ + why),
        ),
        (UpdatePhase::Streaming, EventView::Stdout(line)) => (
            UpdatePhase::Streaming,
            Some("STDOUT: "@ + line),
        ),
        (UpdatePhase::Streaming, EventView::Stderr(line)) => (
            UpdatePhase::Streaming,
            Some("STDERR: "@ + line),
        ),
        (UpdatePhase::Streaming, EventView::StreamClosed) => (UpdatePhase::Waiting, None),
        (UpdatePhase::Waiting, EventView::Exited(success, status)) => if success {
            (UpdatePhase::Done, Some("✅ Update complete! Service restarting..."@))
        } else {
            (UpdatePhase::Done, Some("❌ Update failed with status: "@ + status))
        },
        (UpdatePhase::Waiting, EventView::WaitFailed(why)) => (
            UpdatePhase::Done,
            Some("❌ Failed to wait on child: "@ + why),
        ),
        _ => (phase, None),
    }
}

/// One run of the update script.
#[derive(Clone, Copy, Debug)]
pub struct UpdateRun {
    phase: UpdatePhase,
}

impl UpdateRun {
    /// Where the run stands.
    pub closed spec fn stands(&self) -> UpdatePhase {
        self.phase
    }

    /// A run of which nothing was announced yet.
    pub fn new() -> (run: Self)
        ensures
            run.stands() == UpdatePhase::Idle,
    {
        UpdateRun { phase: UpdatePhase::Idle }
    }

    /// Where the run stands.
    pub fn phase(&self) -> (phase: UpdatePhase)
        ensures
            phase == self.stands(),
    {
        self.phase
    }

    /// Whether the run is over.
    pub fn is_done(&self) -> (done: bool)
        ensures
            done == (self.stands() == UpdatePhase::Done),
    {
        match self.phase {
            UpdatePhase::Done => true,
            _ => false,
        }
    }

    /// Takes in what happened and returns what is to be announced.
    pub fn on_event(&mut self, event: &UpdateEvent) -> (message: Option<String>)
        ensures
            (final(self).stands(), text_of(message)) == update_step(old(self).stands(), event@),
    {
        match (self.phase, event) {
            (UpdatePhase::Idle, UpdateEvent::Requested) => {
                self.phase = UpdatePhase::Starting;
                Some("🚀 Starting update process...".to_owned())
            },
            (UpdatePhase::Starting, UpdateEvent::Spawned) => {
                self.phase = UpdatePhase::Streaming;
                None
            },
            (UpdatePhase::Starting, UpdateEvent::SpawnFailed(why)) => {
                self.phase = UpdatePhase::Done;
                let mut text = "❌ Failed to start script: ".to_owned();
                text.append(why.as_str());
                Some(text)
            },
            (UpdatePhase::Streaming, UpdateEvent::Stdout(line)) => {
                let mut text = "STDOUT: ".to_owned();
                text.append(line.as_str());
                Some(text)
            },
            (UpdatePhase::Streaming, UpdateEvent::Stderr(line)) => {
                let mut text = "STDERR: ".to_owned();
                text.append(line.as_str());
                Some(text)
            },
            (UpdatePhase::Streaming, UpdateEvent::StreamClosed) => {
                self.phase = UpdatePhase::Waiting;
                None
            },
            (UpdatePhase::Waiting, UpdateEvent::Exited(success, status)) => {
                self.phase = UpdatePhase::Done;
                if *success {
                    Some("✅ Update complete! Service restarting...".to_owned())
                } else {
                    let mut text = "❌ Update failed with status: ".to_owned();
                    text.append(status.as_str());
                    Some(text)
                }
            },
            (UpdatePhase::Waiting, UpdateEvent::WaitFailed(why)) => {
                self.phase = UpdatePhase::Done;
                let mut text = "❌ Failed to wait on child: ".to_owned();
                text.append(why.as_str());
                Some(text)
            },
            _ => None,
        }
    }
}

/// What a listener to the announcements receives.
#[derive(Clone, Debug)]
pub enum Received {
    /// An announcement.
    Message(String),
    /// The listener fell behind and announcements were lost.
    Lagged,
    /// There will be no more announcements.
    Closed,
}

/// What a listener is shown for what it received; `None` ends the listening.
pub open spec fn shown(received: Received) -> Option<Seq<char>> {
    match received {
        Received::Message(text) => Some(text@),
        Received::Lagged => Some("⚠️ Log stream lagged, some lines were skipped"@),
        Received::Closed => None,
    }
}

/// What a listener is shown for what it received; `None` ends the listening.
pub fn log_event(received: Received) -> (data: Option<String>)
    ensures
        text_of(data) == shown(received),
{
    match received {
        Received::Message(text) => Some(text),
        Received::Lagged => Some("⚠️ Log stream lagged, some lines were skipped".to_owned()),
        Received::Closed => None,
    }
}

/// A run that is over stays over and announces nothing more.
pub proof fn law_done_is_final(event: EventView)
    ensures
        update_step(UpdatePhase::Done, event) == (UpdatePhase::Done, None::<Seq<char>>),
{
}

} // verus!
