//! The shell the UI thread owns: one label of shared text and three
//! buttons. Clicks resolve to spawn actions performed outside; worker
//! reports and polled notifications come back as plain values and land in
//! the label. The UI thread itself never blocks: it polls, writes, and
//! returns.

use vstd::prelude::*;
use vstd::string::*;

use crate::bridge::NotificationQueue;
use crate::playback::PlaybackKind;

verus! {

/// The buttons the window offers.
#[derive(Clone, Copy, Debug, PartialEq, Eq, Structural)]
pub enum Button {
    /// "Play Video": camera playback.
    PlayVideo,
    /// "Play Video Stream": RTP stream playback.
    PlayVideoStream,
    /// "Start UDP Stream Notifications": start the listener.
    StartNotifications,
}

/// What the UI thread must spawn in answer to a click; the work itself runs
/// on a fresh background thread, fire-and-forget.
#[derive(Clone, Copy, Debug, PartialEq, Eq, Structural)]
pub enum UiAction {
    /// Spawn a one-shot playback worker for this topology.
    SpawnWorker { kind: PlaybackKind },
    /// Spawn the notification listener on the fixed port.
    SpawnListener,
}

/// The shell state: the shared label text, and whether a listener was
/// started (the channel's receiving end is held for the rest of the
/// process).
pub struct Shell {
    pub label: String,
    pub listener_started: bool,
}

/// The text a worker's report carries to the label: the success text of a
/// finished pipeline or the failure message — both land in the same label,
/// told apart only by their content.
pub open spec fn report_text(report: Result<String, String>) -> Seq<char> {
    match report {
        Ok(message) => message@,
        Err(message) => message@,
    }
}

/// The shell after a worker's report was written under the label lock.
pub open spec fn worker_write(shell: Shell, report: Result<String, String>) -> Shell {
    match report {
        Ok(message) => Shell { label: message, listener_started: shell.listener_started },
        Err(message) => Shell { label: message, listener_started: shell.listener_started },
    }
}

impl Shell {
    /// The shell at startup: the greeting in the label, no listener yet.
    pub fn new() -> (shell: Shell)
        ensures
            shell.label@ == "Hello, Egui!"@,
            !shell.listener_started,
    {
        Shell { label: String::from_str("Hello, Egui!"), listener_started: false }
    }

    /// The decision a click resolves to. Every click yields exactly one
    /// spawn action and leaves the label alone; the notifications button
    /// also records that a listener now exists. Clicking it again yields
    /// one more listener action, with no coordination against the first:
    /// the second bind fails on its own thread and the shell never hears
    /// of it.
    pub fn handle_click(&mut self, button: Button) -> (action: UiAction)
        ensures
            final(self).label == old(self).label,
            button is PlayVideo ==> action == (UiAction::SpawnWorker {
                kind: PlaybackKind::Camera,
            }) && final(self).listener_started == old(self).listener_started,
            button is PlayVideoStream ==> action == (UiAction::SpawnWorker {
                kind: PlaybackKind::RtpStream,
            }) && final(self).listener_started == old(self).listener_started,
            button is StartNotifications ==> action is SpawnListener
                && final(self).listener_started,
    {
        match button {
            Button::PlayVideo => UiAction::SpawnWorker { kind: PlaybackKind::Camera },
            Button::PlayVideoStream => UiAction::SpawnWorker { kind: PlaybackKind::RtpStream },
            Button::StartNotifications => {
                self.listener_started = true;
                UiAction::SpawnListener
            },
        }
    }

    /// A finished worker writes its report under the label lock: the label
    /// becomes exactly the reported text, success and failure alike, and
    /// nothing else of the shell moves.
    pub fn apply_worker_result(&mut self, report: Result<String, String>)
        ensures
            *final(self) == worker_write(*old(self), report),
            final(self).label@ == report_text(report),
            final(self).listener_started == old(self).listener_started,
    {
        match report {
            Ok(message) => {
                self.label = message;
            },
            Err(message) => {
                self.label = message;
            },
        }
    }

    /// One per-frame poll. At most one pending message leaves the queue; if
    /// one was pending, the label becomes exactly its text and a repaint is
    /// requested; with nothing pending, nothing changes and no repaint is
    /// asked for. The poll never waits on the producer.
    pub fn poll_notifications(&mut self, queue: &mut NotificationQueue) -> (repaint: bool)
        ensures
            old(queue)@.len() == 0 ==> {
                &&& !repaint
                &&& *final(self) == *old(self)
                &&& final(queue)@ == old(queue)@
            },
            old(queue)@.len() > 0 ==> {
                &&& repaint
                &&& final(self).label@ == old(queue)@[0]
                &&& final(self).listener_started == old(self).listener_started
                &&& final(queue)@ == old(queue)@.skip(1)
            },
    {
        match queue.pop() {
            Some(message) => {
                self.label = message;
                true
            },
            None => false,
        }
    }
}

/// The caption of each button, as the window shows it.
pub fn button_caption(button: Button) -> (caption: &'static str)
    ensures
        button is PlayVideo ==> caption@ == "Play Video"@,
        button is PlayVideoStream ==> caption@ == "Play Video Stream"@,
        button is StartNotifications ==> caption@ == "Start UDP Stream Notifications"@,
{
    match button {
        Button::PlayVideo => "Play Video",
        Button::PlayVideoStream => "Play Video Stream",
        Button::StartNotifications => "Start UDP Stream Notifications",
    }
}

/// The endpoint the notification listener binds.
pub fn listen_address() -> (address: &'static str)
    ensures
        address@ == "0.0.0.0:34254"@,
{
    "0.0.0.0:34254"
}

/// The message reported when the listener socket could not be bound; the
/// listener thread logs it itself — it is never written to the label.
pub fn bind_failure_message(detail: &str) -> (message: String)
    ensures
        message@ == "Failed to bind UDP socket: "@ + detail@,
{
    let mut message = String::from_str("Failed to bind UDP socket: ");
    message.append(detail);
    message
}

/// Law: worker-result writes serialise under the label lock. After two
/// reports land in either order, the label holds exactly the text of the
/// later one — and so always the text of one of the two attempted writes,
/// never an interleaving of both.
pub proof fn lemma_one_write_wins(
    shell: Shell,
    first: Result<String, String>,
    second: Result<String, String>,
)
    ensures
        worker_write(worker_write(shell, first), second).label@ == report_text(second),
        worker_write(worker_write(shell, first), second).label@ == report_text(first)
            || worker_write(worker_write(shell, first), second).label@ == report_text(second),
{
}

} // verus!
