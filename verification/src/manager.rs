//! The playback engine: one playback session at a time, and the state that
//! the controls see.
//!
//! The engine owns no device, file or thread. It keeps the state of the
//! session and decides, for each request and each observation, what is to be
//! done to the output sink and to the analysis worker. Whoever owns those
//! carries out the [`Command`]s in the order given, tells the engine what the
//! sink reports where a decision depends on it, and reports how a load went.

use vstd::prelude::*;
use crate::sample::{clamp_to_unit, clamp_unit, in_unit, ZERO_BITS};

verus! {

/// Number of points of the transform that a session's worker uses.
pub const DEFAULT_FFT_SIZE: usize = 1024;

/// Number of samples in the chunks that a session's tap cuts.
pub const SAMPLES_PER_CHUNK: usize = DEFAULT_FFT_SIZE;

/// Number of chunks that may wait between the tap and the worker.
pub const SAMPLE_CHUNK_CHANNEL_CAPACITY: usize = 5;

/// Where playback stands.
#[derive(Debug, Clone, Copy, PartialEq, Eq, Structural)]
pub enum PlaybackState {
    /// No session.
    Idle,
    /// The session's stream has played to its end.
    Loaded,
    /// The session is playing.
    Playing,
    /// The session is paused.
    Paused,
}

/// Why an operation of the engine failed.
#[derive(Debug, Clone, Copy, PartialEq, Eq, Structural)]
pub enum PlaybackError {
    /// The file path is empty or blank.
    InvalidInput,
    /// The file could not be opened.
    IoError,
    /// The file's contents could not be decoded.
    DecodeError,
    /// The worker's thread could not be started.
    ThreadSpawnError,
    /// The output device or a sink on it could not be opened.
    DeviceError,
}

impl PlaybackError {
    /// What the error says, in words.
    pub open spec fn text(self) -> Seq<char> {
        match self {
            PlaybackError::InvalidInput => "File path cannot be empty."@,
            PlaybackError::IoError => "Failed to open file"@,
            PlaybackError::DecodeError => "Failed to decode file"@,
            PlaybackError::ThreadSpawnError => "Failed to spawn processing thread"@,
            PlaybackError::DeviceError => "Failed to open audio output"@,
        }
    }

    /// What the error says, in words.
    pub fn describe(&self) -> (text: &'static str)
        ensures
            text@ == self.text(),
    {
        match self {
            PlaybackError::InvalidInput => "File path cannot be empty.",
            PlaybackError::IoError => "Failed to open file",
            PlaybackError::DecodeError => "Failed to decode file",
            PlaybackError::ThreadSpawnError => "Failed to spawn processing thread",
            PlaybackError::DeviceError => "Failed to open audio output",
        }
    }
}

/// Something to be done to the sink or to the worker of the session.
#[derive(Debug, Clone, Copy, PartialEq, Eq, Structural)]
pub enum Command {
    /// Stop the sink and discard it, and with it the tap that feeds it.
    StopSink,
    /// Send the worker the stop signal.
    SignalStop,
    /// Wait until the worker's thread has ended.
    JoinWorker,
    /// Pause the sink.
    PauseSink,
    /// Let the sink play.
    ResumeSink,
    /// Set the sink's volume to this value.
    SetSinkVolume(u32),
}

/// What is to be done for a load that was accepted.
#[derive(Debug, Clone)]
pub struct LoadPlan {
    /// The commands that retire the previous session, to be carried out
    /// first and in this order.
    pub teardown: Vec<Command>,
    /// Number of points of the transform that the new worker uses.
    pub fft_size: usize,
    /// Number of samples in the chunks that the new tap cuts.
    pub samples_per_chunk: usize,
    /// Number of chunks that may wait between the new tap and the worker.
    pub chunk_channel_capacity: usize,
    /// The volume that the new sink is set to before it plays, as a pattern.
    pub volume: u32,
}

/// How the steps of a load went, after the previous session was retired.
#[derive(Debug, Clone, Copy, PartialEq, Eq, Structural)]
pub enum LoadOutcome {
    /// The file could not be opened.
    OpenFailed,
    /// The file was opened and could not be decoded.
    DecodeFailed,
    /// The source was decoded and the worker's thread could not be started.
    SpawnFailed,
    /// The worker was started and the sink could not be created.
    SinkFailed,
    /// The worker was started and the sink plays the tapped source.
    Started,
}

/// Whether a character is white space: the characters that Unicode gives the
/// property `White_Space`.
pub open spec fn is_whitespace(c: char) -> bool {
    let code = c as u32;
    ||| 0x09 <= code <= 0x0D
    ||| code == 0x20
    ||| code == 0x85
    ||| code == 0xA0
    ||| code == 0x1680
    ||| 0x2000 <= code <= 0x200A
    ||| code == 0x2028
    ||| code == 0x2029
    ||| code == 0x202F
    ||| code == 0x205F
    ||| code == 0x3000
}

/// Whether a text holds nothing but white space. The empty text does.
pub open spec fn is_blank_text(text: Seq<char>) -> bool {
    forall|i: int| 0 <= i < text.len() ==> is_whitespace(#[trigger] text[i])
}

/// Tells whether a character is white space.
pub fn is_whitespace_char(c: char) -> (white: bool)
    ensures
        white == is_whitespace(c),
{
    let code: u32 = c as u32;
    (0x09 <= code && code <= 0x0D) || code == 0x20 || code == 0x85 || code == 0xA0 || code
        == 0x1680 || (0x2000 <= code && code <= 0x200A) || code == 0x2028 || code == 0x2029
        || code == 0x202F || code == 0x205F || code == 0x3000
}

/// Tells whether a text holds nothing but white space.
pub fn is_blank(text: &str) -> (blank: bool)
    ensures
        blank == is_blank_text(text@),
{
    let mut blank: bool = true;
    for c in it: text.chars()
        invariant
            it.seq() == text@,
            blank == (forall|i: int| 0 <= i < it.index() ==> is_whitespace(#[trigger] text@[i])),
    {
        if !is_whitespace_char(c) {
            blank = false;
        }
    }
    blank
}

/// The view of an optional text.
pub open spec fn text_of(text: Option<String>) -> Option<Seq<char>> {
    match text {
        Some(t) => Some(t@),
        None => None,
    }
}

/// What the engine is, as a mathematical value.
pub struct EngineModel {
    /// Where playback stands.
    pub state: PlaybackState,
    /// Path of the file of the last session that started.
    pub file_path: Option<Seq<char>>,
    /// The output volume, as a pattern.
    pub volume: u32,
    /// Whether a worker is attached: its thread's handle and the sending end
    /// of its stop signal, which are held and given up together.
    pub worker_attached: bool,
    /// Path of a load that was accepted and whose outcome is not known yet.
    pub loading: Option<Seq<char>>,
}

impl EngineModel {
    /// Whether a sink exists. A session that is not idle has one, and only
    /// such a session.
    pub open spec fn sink_active(self) -> bool {
        self.state != PlaybackState::Idle
    }

    /// What holds of every engine: a sink is never without a worker or
    /// without the path of its file; the volume is a number between `0.0`
    /// and `1.0`, bounds included; and while a load is under way the
    /// previous session is retired.
    pub open spec fn well_formed(self) -> bool {
        &&& self.sink_active() ==> self.worker_attached && self.file_path is Some
        &&& in_unit(self.volume)
        &&& self.loading matches Some(path) ==> {
            &&& self.state == PlaybackState::Idle
            &&& !self.worker_attached
            &&& !is_blank_text(path)
        }
    }

    /// The commands that retire the session, in the order in which they are
    /// carried out: the sink goes first, which also removes the tap and with
    /// it the worker's supply of chunks; then the worker is signalled; then
    /// its thread is waited for.
    pub open spec fn teardown_commands(self) -> Seq<Command> {
        let sink = if self.sink_active() {
            seq![Command::StopSink]
        } else {
            Seq::<Command>::empty()
        };
        let worker = if self.worker_attached {
            seq![Command::SignalStop, Command::JoinWorker]
        } else {
            Seq::<Command>::empty()
        };
        sink + worker
    }

    /// The engine after its session was retired: idle, without a worker and
    /// without a load under way. The path and the volume stay.
    pub open spec fn retired(self) -> EngineModel {
        EngineModel {
            state: PlaybackState::Idle,
            worker_attached: false,
            loading: None,
            ..self
        }
    }
}

/// The playback engine.
pub struct AudioManager {
    state: PlaybackState,
    current_file_path: Option<String>,
    current_volume: u32,
    worker_attached: bool,
    pending_path: Option<String>,
}

impl View for AudioManager {
    type V = EngineModel;

    closed spec fn view(&self) -> EngineModel {
        EngineModel {
            state: self.state,
            file_path: text_of(self.current_file_path),
            volume: self.current_volume,
            worker_attached: self.worker_attached,
            loading: text_of(self.pending_path),
        }
    }
}

impl AudioManager {
    #[verifier::type_invariant]
    spec fn inv(self) -> bool {
        self@.well_formed()
    }

    /// An idle engine. `volume` is clamped to the interval from `0.0` to
    /// `1.0`, a NaN to `0.0`; without one the volume is `0.0`.
    /// `output_opened` says whether
    /// the output device could be opened: without a device there is no
    /// engine.
    pub fn new(volume: Option<u32>, output_opened: bool) -> (made: Result<Self, PlaybackError>)
        ensures
            output_opened ==> {
                &&& made matches Ok(engine)
                &&& engine@ == (EngineModel {
                    state: PlaybackState::Idle,
                    file_path: None,
                    volume: clamp_unit(
                        match volume {
                            Some(v) => v,
                            None => ZERO_BITS,
                        },
                    ),
                    worker_attached: false,
                    loading: None,
                })
                &&& engine@.well_formed()
            },
            !output_opened ==> made == Err::<Self, PlaybackError>(PlaybackError::DeviceError),
    {
        if !output_opened {
            return Err(PlaybackError::DeviceError);
        }
        let requested: u32 = match volume {
            Some(v) => v,
            None => ZERO_BITS,
        };
        Ok(
            AudioManager {
                state: PlaybackState::Idle,
                current_file_path: None,
                current_volume: clamp_to_unit(requested),
                worker_attached: false,
                pending_path: None,
            },
        )
    }

    /// Sets the volume, clamped to the interval from `0.0` to `1.0`; a NaN
    /// gives `0.0`. Where a sink exists the command to apply the volume to
    /// it is returned: the volume that is stored, and so in the interval.
    pub fn set_output_volume(&mut self, volume: u32) -> (command: Option<Command>)
        ensures
            final(self)@ == (EngineModel { volume: clamp_unit(volume), ..old(self)@ }),
            final(self)@.well_formed(),
            in_unit(final(self)@.volume),
            command == if old(self)@.sink_active() {
                Some(Command::SetSinkVolume(clamp_unit(volume)))
            } else {
                None
            },
    {
        proof {
            use_type_invariant(&*self);
        }
        let clamped: u32 = clamp_to_unit(volume);
        self.current_volume = clamped;
        match self.state {
            PlaybackState::Idle => None,
            _ => Some(Command::SetSinkVolume(clamped)),
        }
    }

    /// Retires the session, if there is one, and abandons a load that is
    /// under way. Returns the commands that carry the retirement out, to be
    /// performed in the order given. On an engine without a session it
    /// returns no command and changes nothing.
    pub fn stop_playback_and_processing(&mut self) -> (commands: Vec<Command>)
        ensures
            commands@ == old(self)@.teardown_commands(),
            final(self)@ == old(self)@.retired(),
            final(self)@.well_formed(),
    {
        proof {
            use_type_invariant(&*self);
        }
        let mut commands: Vec<Command> = Vec::new();
        match self.state {
            PlaybackState::Idle => {},
            _ => {
                commands.push(Command::StopSink);
            },
        }
        if self.worker_attached {
            commands.push(Command::SignalStop);
            commands.push(Command::JoinWorker);
        }
        assert(commands@ =~= old(self)@.teardown_commands());
        self.state = PlaybackState::Idle;
        self.worker_attached = false;
        self.pending_path = None;
        commands
    }

    /// Accepts the request to play the file at `file_path`, or refuses it.
    ///
    /// A path that is empty or blank is refused with `InvalidInput`, and
    /// nothing changes. Any other path is accepted: the session is retired
    /// as [`Self::stop_playback_and_processing`] does, the commands for that
    /// are returned in the plan, and the load is under way. When they have
    /// been carried out, the file is to be opened and decoded, a worker
    /// started on a channel of the plan's capacity, and a sink created that
    /// plays the tapped source at the plan's volume, which is the engine's;
    /// [`Self::finish_load`] takes the outcome.
    pub fn load_and_play_file(&mut self, file_path: &str) -> (accepted: Result<
        LoadPlan,
        PlaybackError,
    >)
        ensures
            is_blank_text(file_path@) ==> {
                &&& accepted == Err::<LoadPlan, PlaybackError>(PlaybackError::InvalidInput)
                &&& final(self)@ == old(self)@
            },
            !is_blank_text(file_path@) ==> {
                &&& accepted matches Ok(plan)
                &&& plan.teardown@ == old(self)@.teardown_commands()
                &&& plan.fft_size == DEFAULT_FFT_SIZE
                &&& plan.samples_per_chunk == SAMPLES_PER_CHUNK
                &&& plan.chunk_channel_capacity == SAMPLE_CHUNK_CHANNEL_CAPACITY
                &&& plan.volume == old(self)@.volume
                &&& in_unit(plan.volume)
                &&& final(self)@ == (EngineModel {
                    loading: Some(file_path@),
                    ..old(self)@.retired()
                })
            },
            final(self)@.well_formed(),
    {
        proof {
            use_type_invariant(&*self);
        }
        if is_blank(file_path) {
            return Err(PlaybackError::InvalidInput);
        }
        let teardown: Vec<Command> = self.stop_playback_and_processing();
        self.pending_path = Some(file_path.to_owned());
        Ok(
            LoadPlan {
                teardown,
                fft_size: DEFAULT_FFT_SIZE,
                samples_per_chunk: SAMPLES_PER_CHUNK,
                chunk_channel_capacity: SAMPLE_CHUNK_CHANNEL_CAPACITY,
                volume: self.current_volume,
            },
        )
    }

    /// Takes the outcome of the load that is under way.
    ///
    /// A load that started leaves the engine playing, with its worker
    /// attached and the path of the file recorded. A load that failed leaves
    /// the engine idle, with the path of the last session that started: a
    /// file that could not be opened gives `IoError`, one that could not be
    /// decoded `DecodeError`, a worker that could not be started
    /// `ThreadSpawnError`, and a sink that could not be created
    /// `DeviceError`. After the last of these the worker that was started
    /// stays attached, to be retired with the next teardown.
    pub fn finish_load(&mut self, outcome: LoadOutcome) -> (finished: Result<(), PlaybackError>)
        requires
            old(self)@.loading is Some,
        ensures
            final(self)@.well_formed(),
            final(self)@.loading is None,
            final(self)@.volume == old(self)@.volume,
            match outcome {
                LoadOutcome::Started => {
                    &&& finished == Ok::<(), PlaybackError>(())
                    &&& final(self)@.state == PlaybackState::Playing
                    &&& final(self)@.worker_attached
                    &&& final(self)@.file_path == old(self)@.loading
                },
                LoadOutcome::SinkFailed => {
                    &&& finished == Err::<(), PlaybackError>(PlaybackError::DeviceError)
                    &&& final(self)@.state == PlaybackState::Idle
                    &&& final(self)@.worker_attached
                    &&& final(self)@.file_path == old(self)@.file_path
                },
                _ => {
                    &&& finished == Err::<(), PlaybackError>(
                        match outcome {
                            LoadOutcome::OpenFailed => PlaybackError::IoError,
                            LoadOutcome::DecodeFailed => PlaybackError::DecodeError,
                            _ => PlaybackError::ThreadSpawnError,
                        },
                    )
                    &&& final(self)@.state == PlaybackState::Idle
                    &&& !final(self)@.worker_attached
                    &&& final(self)@.file_path == old(self)@.file_path
                },
            },
    {
        proof {
            use_type_invariant(&*self);
        }
        let mut pending: Option<String> = None;
        std::mem::swap(&mut self.pending_path, &mut pending);
        match outcome {
            LoadOutcome::OpenFailed => Err(PlaybackError::IoError),
            LoadOutcome::DecodeFailed => Err(PlaybackError::DecodeError),
            LoadOutcome::SpawnFailed => Err(PlaybackError::ThreadSpawnError),
            LoadOutcome::SinkFailed => {
                self.worker_attached = true;
                Err(PlaybackError::DeviceError)
            },
            LoadOutcome::Started => {
                self.worker_attached = true;
                self.current_file_path = pending;
                self.state = PlaybackState::Playing;
                Ok(())
            },
        }
    }

    /// Pauses a session that is playing. In every other state nothing
    /// happens.
    pub fn pause_playback(&mut self) -> (command: Option<Command>)
        ensures
            final(self)@.well_formed(),
            if old(self)@.state == PlaybackState::Playing {
                &&& command == Some(Command::PauseSink)
                &&& final(self)@ == (EngineModel { state: PlaybackState::Paused, ..old(self)@ })
            } else {
                &&& command is None
                &&& final(self)@ == old(self)@
            },
    {
        proof {
            use_type_invariant(&*self);
        }
        match self.state {
            PlaybackState::Playing => {
                self.state = PlaybackState::Paused;
                Some(Command::PauseSink)
            },
            _ => None,
        }
    }

    /// Lets a paused session play on, and lets a session that has played to
    /// its end play what its sink still holds: `sink_is_empty` says whether
    /// the sink has nothing left to play. In every other case nothing
    /// happens.
    pub fn resume_playback(&mut self, sink_is_empty: bool) -> (command: Option<Command>)
        ensures
            final(self)@.well_formed(),
            if resumes(old(self)@.state, sink_is_empty) {
                &&& command == Some(Command::ResumeSink)
                &&& final(self)@ == (EngineModel { state: PlaybackState::Playing, ..old(self)@ })
            } else {
                &&& command is None
                &&& final(self)@ == old(self)@
            },
    {
        proof {
            use_type_invariant(&*self);
        }
        let resume: bool = match self.state {
            PlaybackState::Paused => true,
            PlaybackState::Loaded => !sink_is_empty,
            _ => false,
        };
        if resume {
            self.state = PlaybackState::Playing;
            Some(Command::ResumeSink)
        } else {
            None
        }
    }

    /// Where playback stands.
    pub fn get_state(&self) -> (state: PlaybackState)
        ensures
            state == self@.state,
            self@.well_formed(),
    {
        proof {
            use_type_invariant(self);
        }
        self.state
    }

    /// Path of the file of the last session that started.
    pub fn get_current_file_path(&self) -> (path: Option<&String>)
        ensures
            match path {
                Some(p) => self@.file_path == Some(p@),
                None => self@.file_path is None,
            },
    {
        self.current_file_path.as_ref()
    }

    /// The output volume, as a pattern.
    pub fn current_volume(&self) -> (volume: u32)
        ensures
            volume == self@.volume,
    {
        self.current_volume
    }

    /// Whether a worker is attached.
    pub fn has_worker(&self) -> (attached: bool)
        ensures
            attached == self@.worker_attached,
    {
        self.worker_attached
    }

    /// Whether a load is under way.
    pub fn is_loading(&self) -> (loading: bool)
        ensures
            loading == self@.loading is Some,
    {
        self.pending_path.is_some()
    }

    /// Notes whether the sink has nothing left to play. A session that is
    /// playing and whose sink is empty has reached the end of its stream: it
    /// becomes
    /// `Loaded`, and its worker is signalled to stop. The worker stays
    /// attached until the session is retired. In every other case nothing
    /// happens.
    pub fn check_and_update_finished_state(&mut self, sink_is_empty: bool) -> (command: Option<
        Command,
    >)
        ensures
            final(self)@.well_formed(),
            if old(self)@.state == PlaybackState::Playing && sink_is_empty {
                &&& command == Some(Command::SignalStop)
                &&& final(self)@ == (EngineModel { state: PlaybackState::Loaded, ..old(self)@ })
            } else {
                &&& command is None
                &&& final(self)@ == old(self)@
            },
    {
        proof {
            use_type_invariant(&*self);
        }
        match self.state {
            PlaybackState::Playing => {
                if sink_is_empty {
                    self.state = PlaybackState::Loaded;
                    Some(Command::SignalStop)
                } else {
                    None
                }
            },
            _ => None,
        }
    }
}

/// Whether a request to resume is followed in the given state: by a paused
/// session always, and by one that has played to its end where its sink
/// still holds audio.
pub open spec fn resumes(state: PlaybackState, sink_is_empty: bool) -> bool {
    ||| state == PlaybackState::Paused
    ||| state == PlaybackState::Loaded && !sink_is_empty
}

/// Retiring is idempotent: an engine whose session was retired has nothing
/// left to retire, and retiring it again changes nothing.
pub proof fn lemma_teardown_is_idempotent(engine: EngineModel)
    ensures
        engine.retired().teardown_commands() == Seq::<Command>::empty(),
        engine.retired().retired() == engine.retired(),
{
    assert(engine.retired().teardown_commands() =~= Seq::<Command>::empty());
}

/// Retiring stops the sink first and waits for the worker last, and it
/// waits for every worker that is attached: once the commands are carried
/// out no worker of the session is running.
pub proof fn lemma_teardown_joins_worker(engine: EngineModel)
    requires
        engine.well_formed(),
    ensures
        !engine.retired().worker_attached,
        !engine.retired().sink_active(),
        engine.worker_attached ==> engine.teardown_commands().last() == Command::JoinWorker,
        engine.sink_active() ==> engine.teardown_commands().first() == Command::StopSink,
        engine.teardown_commands().contains(Command::JoinWorker) <==> engine.worker_attached,
        engine.teardown_commands().contains(Command::StopSink) <==> engine.sink_active(),
{
    let commands = engine.teardown_commands();
    if engine.worker_attached {
        assert(commands[commands.len() - 1] == Command::JoinWorker);
    }
    if engine.sink_active() {
        assert(commands[0] == Command::StopSink);
    }
}

/// One worker at a time: while a load is under way, which is the only time
/// at which a worker is started, no worker is attached and no sink exists.
/// The previous session's worker was waited for before.
pub proof fn lemma_load_starts_from_retired(engine: EngineModel)
    requires
        engine.well_formed(),
        engine.loading is Some,
    ensures
        !engine.worker_attached,
        !engine.sink_active(),
        engine.teardown_commands() == Seq::<Command>::empty(),
{
    assert(engine.teardown_commands() =~= Seq::<Command>::empty());
}

} // verus!
