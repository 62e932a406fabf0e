use audio_visualizer::manager::{
    is_blank, is_whitespace_char, AudioManager, Command, LoadOutcome, LoadPlan, PlaybackError,
    PlaybackState, DEFAULT_FFT_SIZE, SAMPLES_PER_CHUNK, SAMPLE_CHUNK_CHANNEL_CAPACITY,
};

fn engine() -> AudioManager {
    match AudioManager::new(Some(0.25f32.to_bits()), true) {
        Ok(engine) => engine,
        Err(e) => panic!("no engine: {:?}", e),
    }
}

fn play(engine: &mut AudioManager, path: &str) -> Vec<Command> {
    let plan: LoadPlan = engine.load_and_play_file(path).expect("the path is accepted");
    assert!(engine.is_loading());
    assert_eq!(engine.finish_load(LoadOutcome::Started), Ok(()));
    plan.teardown
}

fn fail(engine: &mut AudioManager, path: &str, outcome: LoadOutcome) -> PlaybackError {
    engine.load_and_play_file(path).expect("the path is accepted");
    assert!(engine.is_loading());
    engine.finish_load(outcome).expect_err("the load failed")
}

#[test]
fn state_machine_walk() {
    let mut engine: AudioManager = engine();
    assert_eq!(engine.get_state(), PlaybackState::Idle);
    assert_eq!(engine.get_current_file_path(), None);

    let teardown: Vec<Command> = play(&mut engine, "a.mp3");
    assert_eq!(teardown, Vec::<Command>::new());
    assert_eq!(engine.get_state(), PlaybackState::Playing);
    assert_eq!(engine.get_current_file_path(), Some(&"a.mp3".to_string()));

    assert_eq!(engine.pause_playback(), Some(Command::PauseSink));
    assert_eq!(engine.get_state(), PlaybackState::Paused);

    assert_eq!(engine.resume_playback(false), Some(Command::ResumeSink));
    assert_eq!(engine.get_state(), PlaybackState::Playing);

    assert_eq!(engine.check_and_update_finished_state(false), None);
    assert_eq!(engine.get_state(), PlaybackState::Playing);
    assert_eq!(engine.check_and_update_finished_state(true), Some(Command::SignalStop));
    assert_eq!(engine.get_state(), PlaybackState::Loaded);
    assert!(engine.has_worker());
}

#[test]
fn loading_while_playing_retires_the_old_session_first() {
    let mut engine: AudioManager = engine();
    play(&mut engine, "a.mp3");
    let plan: LoadPlan = engine.load_and_play_file("b.mp3").expect("the path is accepted");
    assert_eq!(plan.teardown, vec![Command::StopSink, Command::SignalStop, Command::JoinWorker]);
    assert_eq!(engine.get_state(), PlaybackState::Idle);
    assert!(!engine.has_worker());
    assert!(engine.is_loading());
    assert_eq!(engine.get_current_file_path(), Some(&"a.mp3".to_string()));
    assert_eq!(engine.finish_load(LoadOutcome::Started), Ok(()));
    assert_eq!(engine.get_state(), PlaybackState::Playing);
    assert_eq!(engine.get_current_file_path(), Some(&"b.mp3".to_string()));
    assert!(engine.has_worker());
    assert!(!engine.is_loading());
}

#[test]
fn load_plan_names_the_sizes() {
    let mut engine: AudioManager = engine();
    let plan: LoadPlan = engine.load_and_play_file("a.mp3").expect("the path is accepted");
    assert_eq!(plan.fft_size, 1024);
    assert_eq!(plan.samples_per_chunk, 1024);
    assert_eq!(plan.chunk_channel_capacity, 5);
    assert_eq!(f32::from_bits(plan.volume), 0.25);
    assert_eq!(DEFAULT_FFT_SIZE, 1024);
    assert_eq!(SAMPLES_PER_CHUNK, 1024);
    assert_eq!(SAMPLE_CHUNK_CHANNEL_CAPACITY, 5);
}

#[test]
fn loading_from_paused_and_from_loaded() {
    let mut engine: AudioManager = engine();
    play(&mut engine, "a.mp3");
    engine.pause_playback();
    let from_paused: Vec<Command> = play(&mut engine, "b.mp3");
    assert_eq!(from_paused, vec![Command::StopSink, Command::SignalStop, Command::JoinWorker]);
    assert_eq!(engine.get_state(), PlaybackState::Playing);
    engine.check_and_update_finished_state(true);
    assert_eq!(engine.get_state(), PlaybackState::Loaded);
    let from_loaded: Vec<Command> = play(&mut engine, "c.mp3");
    assert_eq!(from_loaded, vec![Command::StopSink, Command::SignalStop, Command::JoinWorker]);
    assert_eq!(engine.get_state(), PlaybackState::Playing);
    assert_eq!(engine.get_current_file_path(), Some(&"c.mp3".to_string()));
}

#[test]
fn a_blank_path_is_refused_and_changes_nothing() {
    let mut engine: AudioManager = engine();
    play(&mut engine, "a.mp3");
    for path in ["", " ", "   ", "\t\n", "\u{a0}\u{3000}"] {
        match engine.load_and_play_file(path) {
            Err(e) => assert_eq!(e, PlaybackError::InvalidInput),
            Ok(_) => panic!("{:?} was accepted", path),
        }
        assert_eq!(engine.get_state(), PlaybackState::Playing);
        assert!(engine.has_worker());
        assert!(!engine.is_loading());
        assert_eq!(engine.get_current_file_path(), Some(&"a.mp3".to_string()));
    }
}

#[test]
fn a_path_with_blanks_around_it_is_accepted() {
    let mut engine: AudioManager = engine();
    play(&mut engine, "  a.mp3 ");
    assert_eq!(engine.get_current_file_path(), Some(&"  a.mp3 ".to_string()));
}

#[test]
fn each_failure_of_a_load_gives_its_error() {
    let mut engine: AudioManager = engine();
    assert_eq!(fail(&mut engine, "a.mp3", LoadOutcome::OpenFailed), PlaybackError::IoError);
    assert_eq!(engine.get_state(), PlaybackState::Idle);
    assert!(!engine.has_worker());
    assert_eq!(fail(&mut engine, "a.mp3", LoadOutcome::DecodeFailed), PlaybackError::DecodeError);
    assert_eq!(engine.get_state(), PlaybackState::Idle);
    assert!(!engine.has_worker());
    assert_eq!(
        fail(&mut engine, "a.mp3", LoadOutcome::SpawnFailed),
        PlaybackError::ThreadSpawnError
    );
    assert_eq!(engine.get_state(), PlaybackState::Idle);
    assert!(!engine.has_worker());
    assert_eq!(engine.get_current_file_path(), None);
    assert!(!engine.is_loading());
}

#[test]
fn a_sink_that_cannot_be_created_leaves_the_worker_to_be_retired() {
    let mut engine: AudioManager = engine();
    assert_eq!(fail(&mut engine, "a.mp3", LoadOutcome::SinkFailed), PlaybackError::DeviceError);
    assert_eq!(engine.get_state(), PlaybackState::Idle);
    assert!(engine.has_worker());
    assert_eq!(engine.get_current_file_path(), None);
    assert_eq!(
        engine.stop_playback_and_processing(),
        vec![Command::SignalStop, Command::JoinWorker]
    );
    assert!(!engine.has_worker());
}

#[test]
fn a_failed_load_keeps_the_path_of_the_last_session() {
    let mut engine: AudioManager = engine();
    play(&mut engine, "a.mp3");
    assert_eq!(fail(&mut engine, "missing.mp3", LoadOutcome::OpenFailed), PlaybackError::IoError);
    assert_eq!(engine.get_state(), PlaybackState::Idle);
    assert_eq!(engine.get_current_file_path(), Some(&"a.mp3".to_string()));
}

#[test]
fn no_device_no_engine() {
    match AudioManager::new(None, false) {
        Err(e) => assert_eq!(e, PlaybackError::DeviceError),
        Ok(_) => panic!("an engine without a device"),
    }
}

#[test]
fn teardown_is_idempotent() {
    let mut engine: AudioManager = engine();
    assert_eq!(engine.stop_playback_and_processing(), Vec::<Command>::new());
    play(&mut engine, "a.mp3");
    assert_eq!(
        engine.stop_playback_and_processing(),
        vec![Command::StopSink, Command::SignalStop, Command::JoinWorker]
    );
    assert_eq!(engine.get_state(), PlaybackState::Idle);
    assert!(!engine.has_worker());
    assert_eq!(engine.stop_playback_and_processing(), Vec::<Command>::new());
    assert_eq!(engine.get_state(), PlaybackState::Idle);
    assert_eq!(engine.get_current_file_path(), Some(&"a.mp3".to_string()));
}

#[test]
fn teardown_abandons_a_load_under_way() {
    let mut engine: AudioManager = engine();
    engine.load_and_play_file("a.mp3").expect("the path is accepted");
    assert!(engine.is_loading());
    assert_eq!(engine.stop_playback_and_processing(), Vec::<Command>::new());
    assert!(!engine.is_loading());
}

#[test]
fn pause_and_resume_do_nothing_in_other_states() {
    let mut engine: AudioManager = engine();
    assert_eq!(engine.pause_playback(), None);
    assert_eq!(engine.resume_playback(false), None);
    assert_eq!(engine.check_and_update_finished_state(true), None);
    assert_eq!(engine.get_state(), PlaybackState::Idle);

    play(&mut engine, "a.mp3");
    assert_eq!(engine.resume_playback(false), None);
    assert_eq!(engine.get_state(), PlaybackState::Playing);
    engine.pause_playback();
    assert_eq!(engine.pause_playback(), None);
    assert_eq!(engine.check_and_update_finished_state(true), None);
    assert_eq!(engine.get_state(), PlaybackState::Paused);
}

#[test]
fn a_finished_session_replays_what_its_sink_still_holds() {
    let mut engine: AudioManager = engine();
    play(&mut engine, "a.mp3");
    engine.check_and_update_finished_state(true);
    assert_eq!(engine.get_state(), PlaybackState::Loaded);
    assert_eq!(engine.resume_playback(true), None);
    assert_eq!(engine.get_state(), PlaybackState::Loaded);
    assert_eq!(engine.pause_playback(), None);
    assert_eq!(engine.resume_playback(false), Some(Command::ResumeSink));
    assert_eq!(engine.get_state(), PlaybackState::Playing);
}

#[test]
fn volume_is_clamped_and_applied_to_a_sink() {
    let mut engine: AudioManager = engine();
    assert_eq!(f32::from_bits(engine.current_volume()), 0.25);
    assert_eq!(engine.set_output_volume(1.5f32.to_bits()), None);
    assert_eq!(f32::from_bits(engine.current_volume()), 1.0);
    play(&mut engine, "a.mp3");
    assert_eq!(
        engine.set_output_volume((-3.0f32).to_bits()),
        Some(Command::SetSinkVolume(0.0f32.to_bits()))
    );
    assert_eq!(engine.current_volume(), 0);
    assert_eq!(
        engine.set_output_volume(0.6f32.to_bits()),
        Some(Command::SetSinkVolume(0.6f32.to_bits()))
    );
    assert_eq!(f32::from_bits(engine.current_volume()), 0.6);
    assert_eq!(engine.get_state(), PlaybackState::Playing);
}

#[test]
fn initial_volume_is_clamped() {
    let loud: AudioManager = AudioManager::new(Some(7.0f32.to_bits()), true).ok().expect("engine");
    assert_eq!(f32::from_bits(loud.current_volume()), 1.0);
    let silent: AudioManager = AudioManager::new(None, true).ok().expect("engine");
    assert_eq!(silent.current_volume(), 0);
    let negative: AudioManager =
        AudioManager::new(Some((-0.5f32).to_bits()), true).ok().expect("engine");
    assert_eq!(negative.current_volume(), 0);
}

#[test]
fn white_space_is_what_unicode_says() {
    let mut code: u32 = 0;
    while code <= 0x10_FFFF {
        if let Some(c) = char::from_u32(code) {
            assert_eq!(is_whitespace_char(c), c.is_whitespace(), "U+{:04X}", code);
        }
        code += 1;
    }
}

#[test]
fn blank_is_what_trims_to_nothing() {
    for text in ["", " ", "\t \r\n", "a", " a ", "\u{2003}", "\u{200b}", "\u{feff}", " \u{1680} "] {
        assert_eq!(is_blank(text), text.trim().is_empty(), "{:?}", text);
    }
}

#[test]
fn errors_say_what_went_wrong() {
    assert_eq!(PlaybackError::InvalidInput.describe(), "File path cannot be empty.");
    assert_eq!(PlaybackError::IoError.describe(), "Failed to open file");
    assert_eq!(PlaybackError::DecodeError.describe(), "Failed to decode file");
    assert_eq!(PlaybackError::ThreadSpawnError.describe(), "Failed to spawn processing thread");
    assert_eq!(PlaybackError::DeviceError.describe(), "Failed to open audio output");
}

#[test]
fn a_volume_that_is_no_number_becomes_zero() {
    let mut engine: AudioManager = engine();
    assert_eq!(engine.set_output_volume(f32::NAN.to_bits()), None);
    assert_eq!(engine.current_volume(), 0);
    let plan: LoadPlan = engine.load_and_play_file("a.mp3").expect("the path is accepted");
    assert_eq!(plan.volume, 0);
    assert_eq!(engine.finish_load(LoadOutcome::Started), Ok(()));
    assert_eq!(engine.set_output_volume(0.5f32.to_bits()), Some(Command::SetSinkVolume(0x3F00_0000)));
    assert_eq!(
        engine.set_output_volume(0xFFC0_0001),
        Some(Command::SetSinkVolume(0x0000_0000))
    );
    assert_eq!(engine.current_volume(), 0);
    let made: AudioManager = AudioManager::new(Some(f32::NAN.to_bits()), true).ok().expect("engine");
    assert_eq!(made.current_volume(), 0);
}

#[test]
fn the_volume_is_always_in_the_unit_interval() {
    let mut engine: AudioManager = engine();
    play(&mut engine, "a.mp3");
    let values: Vec<f32> = vec![
        f32::NAN,
        -f32::NAN,
        f32::INFINITY,
        f32::NEG_INFINITY,
        f32::MAX,
        f32::MIN,
        -0.0,
        0.0,
        1.0,
        0.3,
        -1.0e-40,
        1.000_000_1,
    ];
    for value in values {
        let command: Option<Command> = engine.set_output_volume(value.to_bits());
        let stored: f32 = f32::from_bits(engine.current_volume());
        assert!(0.0 <= stored && stored <= 1.0, "{} gave {}", value, stored);
        assert_eq!(command, Some(Command::SetSinkVolume(engine.current_volume())));
    }
}
