//! The playback trigger: each click builds one fixed pipeline topology in a
//! background worker. The worker is a state machine over the outcomes of the
//! outside steps (initialise the framework, create each element, add, link,
//! start playing, wait on the bus); every failure finishes it with an exact
//! human-readable message, every success path with the fixed success text.

use vstd::prelude::*;
use vstd::string::*;

verus! {

/// Which fixed topology a playback request builds.
#[derive(Clone, Copy, Debug, PartialEq, Eq, Structural)]
pub enum PlaybackKind {
    /// Camera capture, converted and rendered on screen.
    Camera,
    /// An RTP/H264 stream received over UDP, depacketised, decoded,
    /// converted and rendered on screen.
    RtpStream,
    /// A local file, decoded and played on the default audio output; this
    /// variant starts playback and returns without waiting on the bus.
    AudioFile,
}

/// The fixed port the RTP stream source listens on.
pub const RTP_STREAM_PORT: u16 = 5000;

/// The fixed port the notification listener binds.
pub const NOTIFY_PORT: u16 = 34254;

/// The capability descriptor the RTP stream source is configured with.
pub struct RtpCaps {
    pub media_type: &'static str,
    pub media: &'static str,
    pub encoding: &'static str,
}

/// The fixed capabilities of the expected RTP stream.
pub fn rtp_stream_caps() -> (caps: RtpCaps)
    ensures
        caps.media_type@ == "application/x-rtp"@,
        caps.media@ == "video"@,
        caps.encoding@ == "H264"@,
{
    RtpCaps { media_type: "application/x-rtp", media: "video", encoding: "H264" }
}

/// How many elements the fixed topology of `kind` holds.
pub open spec fn spec_element_count(kind: PlaybackKind) -> int {
    match kind {
        PlaybackKind::Camera => 3,
        PlaybackKind::RtpStream => 5,
        PlaybackKind::AudioFile => 3,
    }
}

/// The factory name of element `index` in the fixed topology of `kind`,
/// source first, sink last.
pub open spec fn spec_element_name(kind: PlaybackKind, index: int) -> Seq<char> {
    match kind {
        PlaybackKind::Camera => if index == 0 {
            "avfvideosrc"@
        } else if index == 1 {
            "videoconvert"@
        } else {
            "glimagesink"@
        },
        PlaybackKind::RtpStream => if index == 0 {
            "udpsrc"@
        } else if index == 1 {
            "rtph264depay"@
        } else if index == 2 {
            "avdec_h264"@
        } else if index == 3 {
            "videoconvert"@
        } else {
            "glimagesink"@
        },
        PlaybackKind::AudioFile => if index == 0 {
            "filesrc"@
        } else if index == 1 {
            "decodebin"@
        } else {
            "autoaudiosink"@
        },
    }
}

/// Whether the worker, once playback started, stays to watch the bus for
/// end-of-stream or error; the audio variant returns right after the play
/// command instead.
pub open spec fn spec_waits_on_bus(kind: PlaybackKind) -> bool {
    !(kind is AudioFile)
}

/// The fixed text reported when the pipeline of `kind` played successfully.
pub open spec fn spec_success_message(kind: PlaybackKind) -> Seq<char> {
    match kind {
        PlaybackKind::Camera => "Playing video from camera..."@,
        PlaybackKind::RtpStream => "Playing video stream..."@,
        PlaybackKind::AudioFile => "Playing audio..."@,
    }
}

/// The message reported when the framework itself could not be initialised.
pub open spec fn spec_init_failure(detail: Seq<char>) -> Seq<char> {
    "Failed to initialize GStreamer: "@ + detail
}

/// The message reported when creating the element called `name` failed.
pub open spec fn spec_make_failure(name: Seq<char>, detail: Seq<char>) -> Seq<char> {
    "Failed to create "@ + name + " element: "@ + detail
}

/// The message reported when the elements could not join the pipeline.
pub open spec fn spec_add_failure() -> Seq<char> {
    "Failed to add elements to the pipeline"@
}

/// The message reported when link `index` (between element `index` and its
/// successor) could not be made.
pub open spec fn spec_link_failure(kind: PlaybackKind, index: int) -> Seq<char> {
    match kind {
        PlaybackKind::Camera => if index == 0 {
            "Failed to link source and converter"@
        } else {
            "Failed to link converter and sink"@
        },
        PlaybackKind::RtpStream => if index == 0 {
            "Failed to link source and depay"@
        } else if index == 1 {
            "Failed to link depay and decoder"@
        } else if index == 2 {
            "Failed to link decoder and converter"@
        } else {
            "Failed to link converter and sink"@
        },
        PlaybackKind::AudioFile => if index == 0 {
            "Failed to link source and decoder"@
        } else {
            "Failed to link decoder and sink"@
        },
    }
}

/// The message reported when the pipeline refused to start playing.
pub open spec fn spec_play_failure() -> Seq<char> {
    "Failed to set pipeline state to playing"@
}

/// How many elements the fixed topology of `kind` holds.
pub fn element_count(kind: PlaybackKind) -> (count: usize)
    ensures
        count == spec_element_count(kind),
{
    match kind {
        PlaybackKind::Camera => 3,
        PlaybackKind::RtpStream => 5,
        PlaybackKind::AudioFile => 3,
    }
}

/// The factory name of element `index` in the fixed topology of `kind`.
pub fn element_name(kind: PlaybackKind, index: usize) -> (name: &'static str)
    requires
        index < spec_element_count(kind),
    ensures
        name@ == spec_element_name(kind, index as int),
{
    match kind {
        PlaybackKind::Camera => if index == 0 {
            "avfvideosrc"
        } else if index == 1 {
            "videoconvert"
        } else {
            "glimagesink"
        },
        PlaybackKind::RtpStream => if index == 0 {
            "udpsrc"
        } else if index == 1 {
            "rtph264depay"
        } else if index == 2 {
            "avdec_h264"
        } else if index == 3 {
            "videoconvert"
        } else {
            "glimagesink"
        },
        PlaybackKind::AudioFile => if index == 0 {
            "filesrc"
        } else if index == 1 {
            "decodebin"
        } else {
            "autoaudiosink"
        },
    }
}

/// Whether the worker for `kind` watches the bus after playback starts.
pub fn waits_on_bus(kind: PlaybackKind) -> (waits: bool)
    ensures
        waits == spec_waits_on_bus(kind),
{
    match kind {
        PlaybackKind::AudioFile => false,
        _ => true,
    }
}

/// The fixed success text for `kind`.
pub fn success_message(kind: PlaybackKind) -> (message: &'static str)
    ensures
        message@ == spec_success_message(kind),
{
    match kind {
        PlaybackKind::Camera => "Playing video from camera...",
        PlaybackKind::RtpStream => "Playing video stream...",
        PlaybackKind::AudioFile => "Playing audio...",
    }
}

/// The initialisation failure message around the framework's own account.
pub fn init_failure_message(detail: &str) -> (message: String)
    ensures
        message@ == spec_init_failure(detail@),
{
    let mut message = String::from_str("Failed to initialize GStreamer: ");
    message.append(detail);
    message
}

/// The element-creation failure message naming the element that was missing.
pub fn make_failure_message(name: &str, detail: &str) -> (message: String)
    ensures
        message@ == spec_make_failure(name@, detail@),
{
    let mut message = String::from_str("Failed to create ");
    message.append(name);
    message.append(" element: ");
    message.append(detail);
    message
}

/// The fixed failure message for link `index` of `kind`.
pub fn link_failure_message(kind: PlaybackKind, index: usize) -> (message: String)
    ensures
        message@ == spec_link_failure(kind, index as int),
{
    let text: &'static str = match kind {
        PlaybackKind::Camera => if index == 0 {
            "Failed to link source and converter"
        } else {
            "Failed to link converter and sink"
        },
        PlaybackKind::RtpStream => if index == 0 {
            "Failed to link source and depay"
        } else if index == 1 {
            "Failed to link depay and decoder"
        } else if index == 2 {
            "Failed to link decoder and converter"
        } else {
            "Failed to link converter and sink"
        },
        PlaybackKind::AudioFile => if index == 0 {
            "Failed to link source and decoder"
        } else {
            "Failed to link decoder and sink"
        },
    };
    String::from_str(text)
}

/// Where the worker stands in the pipeline build.
#[derive(Clone, Copy, Debug, PartialEq, Eq, Structural)]
pub enum BuildPhase {
    /// The framework is not initialised yet.
    Init,
    /// Element `index` of the topology is the next to create.
    Make { index: usize },
    /// All elements exist and are about to join the pipeline.
    Add,
    /// Link `index` (element `index` to its successor) is the next to make.
    Link { index: usize },
    /// The pipeline is assembled and about to be set playing.
    Play,
    /// The pipeline plays; the worker waits on the bus.
    Bus,
    /// The worker has its report and does no further outside work.
    Done,
}

impl BuildPhase {
    /// The phases before playback starts: initialisation and assembly.
    pub open spec fn is_setup(self) -> bool {
        self is Init || self is Make || self is Add || self is Link || self is Play
    }
}

/// The pipeline's own lifecycle as the worker sees it: it never leaves
/// `Idle` except into `Playing`, and leaves `Playing` only for `Ended` or
/// `Errored`.
#[derive(Clone, Copy, Debug, PartialEq, Eq, Structural)]
pub enum PipelineStage {
    /// Under construction, or abandoned before it ever played.
    Idle,
    /// Playing; also the final stage for a worker that does not watch the
    /// bus and for one whose setup ended here.
    Playing,
    /// End of stream was observed on the bus.
    Ended,
    /// An error was observed on the bus.
    Errored,
}

/// The outside work the worker asks for next.
#[derive(Clone, Copy, Debug, PartialEq, Eq)]
pub enum PipelineStep {
    /// Initialise the media framework.
    Initialize,
    /// Create the element with this factory name.
    MakeElement { name: &'static str },
    /// Add every created element to the pipeline.
    AddElements,
    /// Link element `index` to element `index + 1`.
    LinkElements { index: usize },
    /// Set the pipeline playing.
    StartPlaying,
    /// Block on the bus until end-of-stream or an error arrives.
    AwaitBus,
}

/// What the bus reported to a waiting worker.
#[derive(Debug, PartialEq, Eq)]
pub enum BusEvent {
    /// The stream ended normally.
    EndOfStream,
    /// The pipeline reported an error, described by this text.
    Error { description: String },
}

/// The phase after a successful setup step.
pub open spec fn spec_next_phase(kind: PlaybackKind, phase: BuildPhase) -> BuildPhase {
    match phase {
        BuildPhase::Init => BuildPhase::Make { index: 0 },
        BuildPhase::Make { index } => if index + 1 < spec_element_count(kind) {
            BuildPhase::Make { index: (index + 1) as usize }
        } else {
            BuildPhase::Add
        },
        BuildPhase::Add => BuildPhase::Link { index: 0 },
        BuildPhase::Link { index } => if index + 2 < spec_element_count(kind) {
            BuildPhase::Link { index: (index + 1) as usize }
        } else {
            BuildPhase::Play
        },
        BuildPhase::Play => if spec_waits_on_bus(kind) {
            BuildPhase::Bus
        } else {
            BuildPhase::Done
        },
        BuildPhase::Bus => BuildPhase::Done,
        BuildPhase::Done => BuildPhase::Done,
    }
}

/// The failure message a step failing in `phase` produces; `detail` is the
/// outside account of the failure, carried only where the original message
/// has a dynamic part.
pub open spec fn spec_failure_message(
    kind: PlaybackKind,
    phase: BuildPhase,
    detail: Seq<char>,
) -> Seq<char> {
    match phase {
        BuildPhase::Init => spec_init_failure(detail),
        BuildPhase::Make { index } => spec_make_failure(
            spec_element_name(kind, index as int),
            detail,
        ),
        BuildPhase::Add => spec_add_failure(),
        BuildPhase::Link { index } => spec_link_failure(kind, index as int),
        BuildPhase::Play => spec_play_failure(),
        _ => Seq::empty(),
    }
}

/// One playback worker: the state of one background build of the fixed
/// topology for `kind`. The thread around it performs each `PipelineStep`
/// outside and feeds the outcome back in.
pub struct PlaybackWorker {
    /// Which topology this worker builds.
    pub kind: PlaybackKind,
    /// Where the build stands.
    pub phase: BuildPhase,
    /// The pipeline's lifecycle stage.
    pub stage: PipelineStage,
    /// The report, present exactly once the worker is done: the text the
    /// worker thread writes to the shared label.
    pub outcome: Option<Result<String, String>>,
}

impl PlaybackWorker {
    /// The worker's invariant: phase indices stay inside the topology, a
    /// report exists exactly in the `Done` phase, and the lifecycle stage
    /// agrees with the phase.
    pub open spec fn wf(&self) -> bool {
        &&& (self.phase matches BuildPhase::Make { index } ==> index < spec_element_count(
            self.kind,
        ))
        &&& (self.phase matches BuildPhase::Link { index } ==> index + 1 < spec_element_count(
            self.kind,
        ))
        &&& (self.phase is Done <==> self.outcome is Some)
        &&& (self.phase.is_setup() ==> self.stage is Idle)
        &&& (self.phase is Bus ==> self.stage is Playing && spec_waits_on_bus(self.kind))
        &&& (self.outcome matches Some(report) ==> match report {
            Ok(_) => self.stage is Ended || self.stage is Playing,
            Err(_) => self.stage is Idle || self.stage is Errored,
        })
    }

    /// A fresh worker for one click: nothing built, nothing reported.
    pub fn new(kind: PlaybackKind) -> (worker: Self)
        ensures
            worker.wf(),
            worker.kind == kind,
            worker.phase is Init,
            worker.stage is Idle,
            worker.outcome is None,
    {
        PlaybackWorker {
            kind,
            phase: BuildPhase::Init,
            stage: PipelineStage::Idle,
            outcome: None,
        }
    }

    /// Whether the worker has its report.
    pub fn is_done(&self) -> (done: bool)
        ensures
            done == (self.phase is Done),
    {
        matches!(self.phase, BuildPhase::Done)
    }

    /// The outside work to perform next.
    pub fn next_step(&self) -> (step: PipelineStep)
        requires
            self.wf(),
            !(self.phase is Done),
        ensures
            self.phase is Init ==> step is Initialize,
            self.phase matches BuildPhase::Make { index } ==> step matches
                PipelineStep::MakeElement { name } && name@ == spec_element_name(
                self.kind,
                index as int,
            ),
            self.phase is Add ==> step is AddElements,
            self.phase matches BuildPhase::Link { index } ==> step == (
            PipelineStep::LinkElements { index }),
            self.phase is Play ==> step is StartPlaying,
            self.phase is Bus ==> step is AwaitBus,
    {
        match self.phase {
            BuildPhase::Init => PipelineStep::Initialize,
            BuildPhase::Make { index } => PipelineStep::MakeElement {
                name: element_name(self.kind, index),
            },
            BuildPhase::Add => PipelineStep::AddElements,
            BuildPhase::Link { index } => PipelineStep::LinkElements { index },
            BuildPhase::Play => PipelineStep::StartPlaying,
            BuildPhase::Bus => {
                PipelineStep::AwaitBus
            },
            BuildPhase::Done => {
                proof {
                    assert(false);
                }
                PipelineStep::Initialize
            },
        }
    }

    /// One setup step was attempted outside; `ok` says whether it succeeded
    /// and `detail` carries the outside account of a failure (it is ignored
    /// on success and wherever the fixed message has no dynamic part). A
    /// failure finishes the worker with that step's exact message and the
    /// pipeline never plays; a success advances the build, and once playback
    /// starts a worker that does not watch the bus finishes with the success
    /// text.
    pub fn apply_step_result(&mut self, ok: bool, detail: &str)
        requires
            old(self).wf(),
            old(self).phase.is_setup(),
        ensures
            final(self).wf(),
            final(self).kind == old(self).kind,
            !ok ==> {
                &&& final(self).phase is Done
                &&& final(self).stage is Idle
                &&& final(self).outcome matches Some(report) && report matches Err(message)
                    && message@ == spec_failure_message(
                    old(self).kind,
                    old(self).phase,
                    detail@,
                )
            },
            ok ==> final(self).phase == spec_next_phase(old(self).kind, old(self).phase),
            ok && !(old(self).phase is Play) ==> final(self).stage is Idle
                && final(self).outcome is None,
            ok && old(self).phase is Play ==> final(self).stage is Playing,
            ok && old(self).phase is Play && spec_waits_on_bus(old(self).kind)
                ==> final(self).outcome is None,
            ok && old(self).phase is Play && !spec_waits_on_bus(old(self).kind) ==> {
                &&& final(self).outcome matches Some(report) && report matches Ok(message)
                    && message@ == spec_success_message(old(self).kind)
            },
    {
        if !ok {
            let message = match self.phase {
                BuildPhase::Init => init_failure_message(detail),
                BuildPhase::Make { index } => make_failure_message(
                    element_name(self.kind, index),
                    detail,
                ),
                BuildPhase::Add => String::from_str("Failed to add elements to the pipeline"),
                BuildPhase::Link { index } => link_failure_message(self.kind, index),
                BuildPhase::Play => String::from_str("Failed to set pipeline state to playing"),
                _ => {
                    proof {
                        assert(false);
                    }
                    String::new()
                },
            };
            self.phase = BuildPhase::Done;
            self.outcome = Some(Err(message));
        } else {
            match self.phase {
                BuildPhase::Init => {
                    self.phase = BuildPhase::Make { index: 0 };
                },
                BuildPhase::Make { index } => {
                    let count = element_count(self.kind);
                    if index + 1 < count {
                        self.phase = BuildPhase::Make { index: index + 1 };
                    } else {
                        self.phase = BuildPhase::Add;
                    }
                },
                BuildPhase::Add => {
                    self.phase = BuildPhase::Link { index: 0 };
                },
                BuildPhase::Link { index } => {
                    let count = element_count(self.kind);
                    if index + 2 < count {
                        self.phase = BuildPhase::Link { index: index + 1 };
                    } else {
                        self.phase = BuildPhase::Play;
                    }
                },
                BuildPhase::Play => {
                    self.stage = PipelineStage::Playing;
                    if waits_on_bus(self.kind) {
                        self.phase = BuildPhase::Bus;
                    } else {
                        self.phase = BuildPhase::Done;
                        self.outcome = Some(
                            Ok(String::from_str(success_message(self.kind))),
                        );
                    }
                },
                _ => {
                    proof {
                        assert(false);
                    }
                },
            }
        }
    }

    /// The bus reported: end-of-stream finishes the worker with the success
    /// text, a pipeline error finishes it with the error's own description.
    pub fn apply_bus_event(&mut self, event: BusEvent)
        requires
            old(self).wf(),
            old(self).phase is Bus,
        ensures
            final(self).wf(),
            final(self).kind == old(self).kind,
            final(self).phase is Done,
            event is EndOfStream ==> {
                &&& final(self).stage is Ended
                &&& final(self).outcome matches Some(report) && report matches Ok(message)
                    && message@ == spec_success_message(old(self).kind)
            },
            event matches BusEvent::Error { description } ==> final(self).stage is Errored
                && final(self).outcome == Some(Err::<String, String>(description)),
    {
        match event {
            BusEvent::EndOfStream => {
                self.stage = PipelineStage::Ended;
                self.outcome = Some(Ok(String::from_str(success_message(self.kind))));
            },
            BusEvent::Error { description } => {
                self.stage = PipelineStage::Errored;
                self.outcome = Some(Err(description));
            },
        }
        self.phase = BuildPhase::Done;
    }

    /// The finished worker's report: the text its thread writes to the
    /// shared label.
    pub fn into_result(self) -> (report: Result<String, String>)
        requires
            self.wf(),
            self.phase is Done,
        ensures
            self.outcome == Some(report),
    {
        match self.outcome {
            Some(report) => report,
            None => {
                proof {
                    assert(false);
                }
                Err(String::new())
            },
        }
    }
}

/// Law: a playback failure is never silent. Whatever setup step fails, the
/// message the worker reports is visible text beginning with "Failed".
pub proof fn lemma_failure_is_visible(kind: PlaybackKind, phase: BuildPhase, detail: Seq<char>)
    requires
        phase.is_setup(),
    ensures
        spec_failure_message(kind, phase, detail).len() >= 6,
        spec_failure_message(kind, phase, detail).subrange(0, 6) == "Failed"@,
{
    reveal_strlit("Failed");
    reveal_strlit("Failed to initialize GStreamer: ");
    reveal_strlit("Failed to create ");
    reveal_strlit("Failed to add elements to the pipeline");
    reveal_strlit("Failed to set pipeline state to playing");
    reveal_strlit("Failed to link source and converter");
    reveal_strlit("Failed to link converter and sink");
    reveal_strlit("Failed to link source and depay");
    reveal_strlit("Failed to link depay and decoder");
    reveal_strlit("Failed to link decoder and converter");
    reveal_strlit("Failed to link source and decoder");
    reveal_strlit("Failed to link decoder and sink");
    assert(spec_failure_message(kind, phase, detail).subrange(0, 6) =~= "Failed"@);
}

} // verus!

