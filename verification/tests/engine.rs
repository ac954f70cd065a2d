//! The sessions, carried through against a scripted engine.

use espeakng::selection::{MAX_VOICE_ATTEMPTS, RETRY_DELAY_STEP_MS};
use espeakng::{
    decode_samples, handle_error, ESpeakNgError, Error, FileSynthesis, Initialisation,
    OtherError, Parameter, PhonemeExtraction, PhonemeGenOptions, PhonemeMode, RawVoice, Reply,
    Request, Speaker, Synthesis, TextMode, Voice, VoiceSelection,
};

const HELLO_WORLD: &str = "h@l'oU w'3:ld";
const HELLO_WORLD_MBROLA: &str = "h 61\n@ 35\nl 77\n@U 127\nw 65\n3: 190\nl 80\nd 62\n_ 282\n";
const VOICE_NOT_FOUND: u32 = 0x1000_06FF;
const NOT_INITIALIZED: u32 = 0x1000_04FF;

/// An engine that answers from a script and keeps a log of what it was asked.
struct Engine {
    log: Vec<String>,
    up: bool,
    voice: String,
    files: Vec<String>,
    misses: u32,
    pauses: Vec<u64>,
    volume: i32,
    fail_synthesis: Option<u32>,
    trace_redirected: bool,
    stream_open: bool,
    refuse_stream: bool,
    duplicated: bool,
    trace: Vec<u8>,
    written: Vec<u8>,
    audio: Vec<i16>,
}

impl Engine {
    fn new() -> Engine {
        Engine {
            log: Vec::new(),
            up: false,
            voice: String::new(),
            files: vec![String::from("voices/mb/mb-en1")],
            misses: 0,
            pauses: Vec::new(),
            volume: 100,
            fail_synthesis: None,
            trace_redirected: false,
            stream_open: false,
            refuse_stream: false,
            duplicated: false,
            trace: HELLO_WORLD_MBROLA.as_bytes().to_vec(),
            written: Vec::new(),
            audio: vec![0, 1, -1, 256, i16::MIN, i16::MAX],
        }
    }

    fn perform(&mut self, request: &Request) -> Reply {
        match request {
            Request::SetSynthCallback => {
                self.log.push(String::from("callback"));
                Reply::Done
            }
            Request::InitializePath { path } => {
                self.log.push(format!("path {:?}", path));
                Reply::Done
            }
            Request::Initialize => {
                self.log.push(String::from("core"));
                self.up = true;
                Reply::Status(0)
            }
            Request::InitializeOutput { output_mode, buffer_length } => {
                self.log.push(format!("output {} {}", output_mode, buffer_length));
                Reply::Status(0)
            }
            Request::SetVoiceByName { name } => {
                self.log.push(format!("voice {:?}", name));
                assert_eq!(name.last(), Some(&0u8));
                let text = String::from_utf8(name[..name.len() - 1].to_vec()).unwrap();
                if self.misses > 0 {
                    self.misses -= 1;
                    Reply::Status(VOICE_NOT_FOUND)
                } else {
                    self.voice = text;
                    Reply::Status(0)
                }
            }
            Request::ProbeVoiceFile { path } => {
                self.log.push(format!("probe {}", path));
                Reply::Found(self.files.contains(path))
            }
            Request::Pause { millis } => {
                self.pauses.push(*millis);
                Reply::Done
            }
            Request::GetCurrentVoice => {
                self.log.push(String::from("current voice"));
                Reply::CurrentVoice(voice(&self.voice))
            }
            Request::GetParameter { id, current } => {
                assert_eq!(*id, 2);
                Reply::Value(if *current == 0 { 100 } else { self.volume })
            }
            Request::SetParameter { id, value, relative } => {
                assert_eq!(*id, 2);
                self.volume = if *relative == 0 { *value } else { self.volume + *value };
                Reply::Status(0)
            }
            Request::Synthesize {
                text,
                size,
                position,
                position_type,
                end_position,
                flags,
                capture,
            } => {
                self.log.push(format!("synthesize capture={}", capture));
                assert_eq!(*size, text.len());
                assert_eq!(text.last(), Some(&0u8));
                assert_eq!((*position, *position_type, *end_position, *flags), (0, 1, 0, 1));
                Reply::Status(self.fail_synthesis.unwrap_or(0))
            }
            Request::Synchronize => {
                self.log.push(String::from("synchronize"));
                Reply::Status(0)
            }
            Request::TakeAudio => Reply::Samples(self.audio.clone()),
            Request::WriteFile { bytes } => {
                self.written = bytes.clone();
                Reply::Done
            }
            Request::TextToPhonemes { text, text_mode, phoneme_mode } => {
                assert_eq!(text.as_slice(), b"Hello world\0");
                assert_eq!((*text_mode, *phoneme_mode), (1, 0));
                let mut answer = HELLO_WORLD.as_bytes().to_vec();
                answer.push(0);
                answer.extend_from_slice(b"left over");
                Reply::Phonemes(answer)
            }
            Request::CreateMemoryFile => {
                self.log.push(String::from("memory file"));
                Reply::Descriptor(7)
            }
            Request::OpenStream { descriptor, duplicate } => {
                self.log.push(format!("open {}", descriptor));
                self.duplicated = *duplicate;
                self.stream_open = !self.refuse_stream;
                if self.refuse_stream {
                    errno::set_errno(errno::Errno(9));
                }
                Reply::Opened(self.stream_open)
            }
            Request::SetPhonemeTrace { format } => {
                self.log.push(format!("trace {}", format));
                self.trace_redirected = true;
                Reply::Done
            }
            Request::ResetPhonemeTrace => {
                self.log.push(String::from("trace reset"));
                self.trace_redirected = false;
                Reply::Done
            }
            Request::DetachStream => {
                self.log.push(String::from("detach"));
                self.stream_open = false;
                Reply::Done
            }
            Request::CloseStream => {
                self.log.push(String::from("close"));
                self.stream_open = false;
                Reply::Done
            }
            Request::ReadTrace => {
                self.log.push(String::from("read"));
                Reply::Contents(self.trace.clone())
            }
            Request::Terminate => {
                self.up = false;
                Reply::Done
            }
            Request::GetStatusCodeMessage { .. } => Reply::Done,
        }
    }

    fn start(&mut self, voice_path: Option<&str>) -> Result<Speaker, Error> {
        let mut session = Speaker::initialise(voice_path);
        while let Some(request) = session.request() {
            let reply = self.perform(&request);
            session = session.advance(reply);
        }
        session.finish().unwrap()
    }

    fn select(&mut self, mut session: VoiceSelection) -> Result<(), Error> {
        while let Some(request) = session.request() {
            let reply = self.perform(&request);
            session = session.advance(reply);
        }
        session.finish().unwrap()
    }

    fn synthesize(&mut self, mut session: Synthesis) -> Result<Vec<i16>, Error> {
        while let Some(request) = session.request() {
            let reply = self.perform(&request);
            session = session.advance(reply);
        }
        session.finish().unwrap()
    }

    fn synthesize_to_file(&mut self, mut session: FileSynthesis) -> Result<(), Error> {
        while let Some(request) = session.request() {
            let reply = self.perform(&request);
            session = session.advance(reply);
        }
        session.finish().unwrap()
    }

    fn phonemes(&mut self, mut session: PhonemeExtraction) -> Result<Option<String>, Error> {
        while let Some(request) = session.request() {
            let reply = self.perform(&request);
            assert!(!session.is_finished());
            session = session.advance(reply);
        }
        session.finish().unwrap()
    }
}

fn voice(identifier: &str) -> Voice {
    let mut name = identifier.as_bytes().to_vec();
    name.push(0);
    Voice::from_raw(&RawVoice {
        name: b"English\0".to_vec(),
        identifier: name,
        languages: b"\x02en\0\0".to_vec(),
        gender: 1,
        age: 0,
    })
    .unwrap()
}

fn init(engine: &mut Engine) -> Speaker {
    engine.start(None).unwrap()
}

#[test]
fn set() {
    let mut engine = Engine::new();
    let mut speaker = init(&mut engine);
    let change = speaker.set_parameter(Parameter::Volume, 1, true);
    match engine.perform(&change) {
        Reply::Status(code) => handle_error(code).unwrap(),
        other => panic!("unexpected reply {:?}", other),
    }

    let default = match engine.perform(&speaker.get_parameter(Parameter::Volume, true)) {
        Reply::Value(value) => value,
        other => panic!("unexpected reply {:?}", other),
    };
    let current = match engine.perform(&speaker.get_parameter(Parameter::Volume, false)) {
        Reply::Value(value) => value,
        other => panic!("unexpected reply {:?}", other),
    };
    assert_eq!(default + 1, current);
}

#[test]
fn espeak() {
    let mut engine = Engine::new();
    let mut speaker = init(&mut engine);
    let session = speaker.text_to_phonemes(
        "Hello world",
        PhonemeGenOptions::Standard {
            text_mode: TextMode::Utf8,
            phoneme_mode: PhonemeMode::empty(),
        },
    );
    assert_eq!(engine.phonemes(session).unwrap().unwrap(), HELLO_WORLD);
}

#[test]
fn mbrola() {
    let mut engine = Engine::new();
    let mut speaker = init(&mut engine);
    let selection = speaker.set_voice_raw("mb/mb-en1");
    engine.select(selection).unwrap();

    let session = speaker.text_to_phonemes("Hello world", PhonemeGenOptions::Mbrola);
    assert_eq!(engine.phonemes(session).unwrap().unwrap(), HELLO_WORLD_MBROLA);
    assert!(!engine.trace_redirected);
    assert!(!engine.stream_open);
}

#[test]
fn get_voice() {
    let mut engine = Engine::new();
    let speaker = init(&mut engine);
    let record = RawVoice {
        name: b"English\0".to_vec(),
        identifier: {
            let mut identifier = engine.voice.clone().into_bytes();
            identifier.push(0);
            identifier
        },
        languages: b"\x02en\0\0".to_vec(),
        gender: 0,
        age: 0,
    };
    assert_eq!(speaker.get_current_voice(&record).unwrap().filename, Speaker::DEFAULT_VOICE);
    assert_eq!(Speaker::DEFAULT_VOICE, "gmw/en");
}

#[test]
fn initialisation_calls_the_engine_in_order() {
    let mut engine = Engine::new();
    engine.start(Some("/usr/share/data")).unwrap();
    assert_eq!(
        engine.log,
        vec![
            String::from("callback"),
            format!("path {:?}", Some(b"/usr/share/data\0".to_vec())),
            String::from("core"),
            String::from("output 1 0"),
            format!("voice {:?}", b"gmw/en\0".to_vec()),
        ]
    );
}

#[test]
fn initialisation_without_a_path_uses_the_default_directory() {
    let session = Initialisation::new(None);
    let session = session.advance(Reply::Done);
    assert!(matches!(session.request(), Some(Request::InitializePath { path: None })));
}

#[test]
fn initialisation_stops_at_the_first_failure() {
    let session = Initialisation::new(None);
    let session = session.advance(Reply::Done).advance(Reply::Done);
    assert!(matches!(session.request(), Some(Request::Initialize)));
    let session = session.advance(Reply::Status(NOT_INITIALIZED));
    assert!(session.is_finished());
    assert!(session.request().is_none());
    assert!(matches!(
        session.finish(),
        Some(Err(Error::ESpeakNg(ESpeakNgError::NotInitialized)))
    ));
}

#[test]
fn initialisation_fails_when_the_default_voice_is_missing() {
    let session = Initialisation::new(None)
        .advance(Reply::Done)
        .advance(Reply::Done)
        .advance(Reply::Status(0))
        .advance(Reply::Status(0));
    assert!(matches!(session.request(), Some(Request::SetVoiceByName { .. })));
    let session = session.advance(Reply::Status(VOICE_NOT_FOUND));
    assert!(matches!(
        session.finish(),
        Some(Err(Error::ESpeakNg(ESpeakNgError::VoiceNotFound)))
    ));
}

#[test]
fn unfinished_sessions_have_no_result() {
    assert!(Initialisation::new(None).finish().is_none());
    assert!(VoiceSelection::new("gmw/en").finish().is_none());
    assert!(Synthesis::new("a", true).finish().is_none());
    assert!(FileSynthesis::new("a").finish().is_none());
    assert!(PhonemeExtraction::new("a", PhonemeGenOptions::Mbrola).finish().is_none());
}

#[test]
fn a_reply_of_the_wrong_kind_changes_nothing() {
    let session = Initialisation::new(None).advance(Reply::Status(0)).advance(Reply::Found(true));
    assert!(matches!(session.request(), Some(Request::SetSynthCallback)));
    let session = VoiceSelection::new("gmw/en").advance(Reply::Done);
    assert!(matches!(session.request(), Some(Request::SetVoiceByName { .. })));
    let session = Synthesis::new("a", true).advance(Reply::Samples(vec![1]));
    assert!(matches!(session.request(), Some(Request::Synthesize { .. })));
}

#[test]
fn ordinary_voice_is_selected_in_one_call() {
    let mut engine = Engine::new();
    let mut speaker = init(&mut engine);
    engine.log.clear();
    let selection = speaker.set_voice_raw("gmw/en-US");
    engine.select(selection).unwrap();
    assert_eq!(engine.log, vec![format!("voice {:?}", b"gmw/en-US\0".to_vec())]);
    assert_eq!(engine.voice, "gmw/en-US");
}

#[test]
fn ordinary_voice_is_not_retried() {
    let mut engine = Engine::new();
    let mut speaker = init(&mut engine);
    engine.misses = 1;
    let selection = speaker.set_voice_raw("gmw/en-US");
    assert!(matches!(
        engine.select(selection),
        Err(Error::ESpeakNg(ESpeakNgError::VoiceNotFound))
    ));
    assert!(engine.pauses.is_empty());
}

#[test]
fn set_voice_selects_by_filename() {
    let mut engine = Engine::new();
    let mut speaker = init(&mut engine);
    let selection = speaker.set_voice(&voice("gmw/fr"));
    engine.select(selection).unwrap();
    assert_eq!(engine.voice, "gmw/fr");
}

#[test]
fn diphone_voice_is_probed_on_disk_first() {
    let mut engine = Engine::new();
    let mut speaker = init(&mut engine);
    engine.log.clear();
    let selection = speaker.set_voice_raw("mb/mb-de9");
    assert!(matches!(
        engine.select(selection),
        Err(Error::ESpeakNg(ESpeakNgError::VoiceNotFound))
    ));
    assert_eq!(engine.log, vec![String::from("probe voices/mb/mb-de9")]);
}

#[test]
fn diphone_voice_is_retried_with_growing_pauses() {
    let mut engine = Engine::new();
    let mut speaker = init(&mut engine);
    engine.misses = 3;
    let selection = speaker.set_voice_raw("mb/mb-en1");
    engine.select(selection).unwrap();
    assert_eq!(engine.voice, "mb/mb-en1");
    assert_eq!(
        engine.pauses,
        vec![RETRY_DELAY_STEP_MS, 2 * RETRY_DELAY_STEP_MS, 3 * RETRY_DELAY_STEP_MS]
    );
}

#[test]
fn diphone_voice_retries_are_bounded() {
    let mut engine = Engine::new();
    let mut speaker = init(&mut engine);
    engine.log.clear();
    engine.misses = 1000;
    let selection = speaker.set_voice_raw("mb/mb-en1");
    assert!(matches!(
        engine.select(selection),
        Err(Error::ESpeakNg(ESpeakNgError::VoiceNotFound))
    ));
    let calls = engine.log.iter().filter(|entry| entry.starts_with("voice")).count();
    assert_eq!(calls, MAX_VOICE_ATTEMPTS as usize);
    assert_eq!(engine.pauses.len(), MAX_VOICE_ATTEMPTS as usize - 1);
}

#[test]
fn diphone_voice_other_failure_is_not_retried() {
    let session = VoiceSelection::new("mb/mb-en1").advance(Reply::Found(true));
    let session = session.advance(Reply::Status(NOT_INITIALIZED));
    assert!(matches!(
        session.finish(),
        Some(Err(Error::ESpeakNg(ESpeakNgError::NotInitialized)))
    ));
}

#[test]
fn unknown_status_carries_the_os_error_that_is_set() {
    let session = VoiceSelection::new("gmw/en").advance_with(Reply::Status(22), 4);
    match session.finish() {
        Some(Err(Error::OtherC(Some(found)))) => assert_eq!(found, errno::Errno(4)),
        other => panic!("unexpected result {:?}", other),
    }
    let session = VoiceSelection::new("gmw/en").advance_with(Reply::Status(22), 0);
    assert!(matches!(session.finish(), Some(Err(Error::OtherC(None)))));
}

#[test]
fn unknown_status_reads_the_os_error_when_none_is_given() {
    errno::set_errno(errno::Errno(11));
    let session = VoiceSelection::new("gmw/en").advance(Reply::Status(22));
    match session.finish() {
        Some(Err(Error::OtherC(Some(found)))) => assert_eq!(found, errno::Errno(11)),
        other => panic!("unexpected result {:?}", other),
    }
    errno::set_errno(errno::Errno(0));
    let session = Synthesis::new("a", true).advance(Reply::Status(22));
    assert!(matches!(session.finish(), Some(Err(Error::OtherC(None)))));
}

#[test]
fn known_status_is_the_same_whatever_the_os_error() {
    for os_error in [0, 1, -5, i32::MAX] {
        let session = Initialisation::new(None)
            .advance_with(Reply::Done, os_error)
            .advance_with(Reply::Done, os_error)
            .advance_with(Reply::Status(0), os_error)
            .advance_with(Reply::Status(0x1000_05FF), os_error);
        assert!(matches!(
            session.finish(),
            Some(Err(Error::ESpeakNg(ESpeakNgError::AudioError)))
        ));
    }
}

#[test]
fn synthesis_returns_the_collected_audio() {
    let mut engine = Engine::new();
    let mut speaker = init(&mut engine);
    engine.log.clear();
    let session = speaker.synthesize("Hello world");
    assert_eq!(engine.synthesize(session).unwrap(), engine.audio);
    assert_eq!(
        engine.log,
        vec![String::from("synthesize capture=true"), String::from("synchronize")]
    );
}

#[test]
fn synthesis_sends_the_text_with_its_terminator() {
    match Synthesis::new("héllo", true).request() {
        Some(Request::Synthesize { text, size, flags, position_type, .. }) => {
            assert_eq!(text, b"h\xc3\xa9llo\0".to_vec());
            assert_eq!(size, 7);
            assert_eq!(flags, 1);
            assert_eq!(position_type, 1);
        }
        other => panic!("unexpected request {:?}", other),
    }
}

#[test]
fn synthesis_failure_skips_the_wait() {
    let mut engine = Engine::new();
    let mut speaker = init(&mut engine);
    engine.log.clear();
    engine.fail_synthesis = Some(0x1000_05FF);
    let session = speaker.synthesize("Hello world");
    assert!(matches!(
        engine.synthesize(session),
        Err(Error::ESpeakNg(ESpeakNgError::AudioError))
    ));
    assert_eq!(engine.log, vec![String::from("synthesize capture=true")]);
}

#[test]
fn synthesis_wait_failure_is_reported() {
    let session = Synthesis::new("a", true).advance(Reply::Status(0));
    assert!(matches!(session.request(), Some(Request::Synchronize)));
    let session = session.advance(Reply::Status(0x1000_0EFF));
    assert!(matches!(
        session.finish(),
        Some(Err(Error::ESpeakNg(ESpeakNgError::SpeechStopped)))
    ));
}

#[test]
fn file_gets_the_samples_of_a_direct_synthesis() {
    let mut engine = Engine::new();
    let mut speaker = init(&mut engine);
    let direct = {
        let session = speaker.synthesize("Hello world");
        engine.synthesize(session).unwrap()
    };
    let session = speaker.synthesize_to_file("Hello world");
    engine.synthesize_to_file(session).unwrap();
    assert_eq!(decode_samples(&engine.written), direct);
    assert_eq!(engine.written.len(), 2 * direct.len());
}

#[test]
fn file_write_failure_is_reported() {
    let session = FileSynthesis::new("a")
        .advance(Reply::Status(0))
        .advance(Reply::Status(0))
        .advance(Reply::Samples(vec![1, 2]));
    match session.request() {
        Some(Request::WriteFile { bytes }) => assert_eq!(bytes, vec![1, 0, 2, 0]),
        other => panic!("unexpected request {:?}", other),
    }
    let session = session.advance(Reply::Failed(String::from("disk full")));
    match session.finish() {
        Some(Err(Error::Other(OtherError::Io(text)))) => assert_eq!(text, "disk full"),
        other => panic!("unexpected result {:?}", other),
    }
}

#[test]
fn file_is_not_written_after_a_failed_synthesis() {
    let mut engine = Engine::new();
    let mut speaker = init(&mut engine);
    engine.fail_synthesis = Some(0x1000_05FF);
    let session = speaker.synthesize_to_file("Hello world");
    assert!(matches!(
        engine.synthesize_to_file(session),
        Err(Error::ESpeakNg(ESpeakNgError::AudioError))
    ));
    assert!(engine.written.is_empty());
}

#[test]
fn diphone_phonemes_need_a_diphone_voice() {
    let mut engine = Engine::new();
    let mut speaker = init(&mut engine);
    engine.log.clear();
    let session = speaker.text_to_phonemes("Hello world", PhonemeGenOptions::Mbrola);
    assert!(matches!(engine.phonemes(session), Err(Error::MbrolaWithoutMbrolaVoice)));
    assert_eq!(engine.log, vec![String::from("current voice")]);

    engine.log.clear();
    let session = speaker.text_to_phonemes("Hello world", PhonemeGenOptions::MbrolaFile(3));
    assert!(matches!(engine.phonemes(session), Err(Error::MbrolaWithoutMbrolaVoice)));
    assert_eq!(engine.log, vec![String::from("current voice")]);
}

#[test]
fn diphone_phonemes_go_through_a_memory_file() {
    let mut engine = Engine::new();
    let mut speaker = init(&mut engine);
    engine.voice = String::from("mb/mb-en1");
    engine.log.clear();
    let session = speaker.text_to_phonemes("Hello world", PhonemeGenOptions::Mbrola);
    engine.phonemes(session).unwrap();
    assert_eq!(
        engine.log,
        vec![
            String::from("current voice"),
            String::from("memory file"),
            String::from("open 7"),
            String::from("trace 16"),
            String::from("synthesize capture=false"),
            String::from("synchronize"),
            String::from("trace reset"),
            String::from("detach"),
            String::from("read"),
        ]
    );
}

#[test]
fn diphone_phonemes_into_the_callers_file_return_no_text() {
    let mut engine = Engine::new();
    let mut speaker = init(&mut engine);
    engine.voice = String::from("mb/mb-en1");
    engine.log.clear();
    let session = speaker.text_to_phonemes("Hello world", PhonemeGenOptions::MbrolaFile(3));
    assert_eq!(engine.phonemes(session).unwrap(), None);
    assert_eq!(
        engine.log,
        vec![
            String::from("current voice"),
            String::from("open 3"),
            String::from("trace 16"),
            String::from("synthesize capture=false"),
            String::from("synchronize"),
            String::from("trace reset"),
            String::from("close"),
        ]
    );
    assert!(engine.duplicated);
}

#[test]
fn diphone_synthesis_failure_is_reported_after_cleanup() {
    let mut engine = Engine::new();
    let mut speaker = init(&mut engine);
    engine.voice = String::from("mb/mb-en1");
    engine.fail_synthesis = Some(0x1000_05FF);
    engine.log.clear();
    let session = speaker.text_to_phonemes("Hello world", PhonemeGenOptions::Mbrola);
    assert!(matches!(
        engine.phonemes(session),
        Err(Error::ESpeakNg(ESpeakNgError::AudioError))
    ));
    assert_eq!(
        engine.log,
        vec![
            String::from("current voice"),
            String::from("memory file"),
            String::from("open 7"),
            String::from("trace 16"),
            String::from("synthesize capture=false"),
            String::from("trace reset"),
            String::from("detach"),
        ]
    );
    assert!(!engine.trace_redirected);
    assert!(!engine.stream_open);

    engine.log.clear();
    let session = speaker.text_to_phonemes("Hello world", PhonemeGenOptions::MbrolaFile(3));
    assert!(matches!(
        engine.phonemes(session),
        Err(Error::ESpeakNg(ESpeakNgError::AudioError))
    ));
    assert_eq!(engine.log.last(), Some(&String::from("close")));
    assert!(!engine.trace_redirected);
}

#[test]
fn diphone_stream_that_cannot_be_opened_is_an_os_error() {
    let mut engine = Engine::new();
    let mut speaker = init(&mut engine);
    engine.voice = String::from("mb/mb-en1");
    engine.refuse_stream = true;
    engine.log.clear();
    let session = speaker.text_to_phonemes("Hello world", PhonemeGenOptions::Mbrola);
    match engine.phonemes(session) {
        Err(Error::OtherC(Some(found))) => assert_eq!(found, errno::Errno(9)),
        other => panic!("unexpected result {:?}", other),
    }
    assert_eq!(engine.log.last(), Some(&String::from("open 7")));
}

#[test]
fn diphone_stream_failure_without_an_os_error_carries_none() {
    let session = PhonemeExtraction::new("a", PhonemeGenOptions::Mbrola)
        .advance(Reply::CurrentVoice(voice("mb/mb-en1")))
        .advance(Reply::Descriptor(-1));
    assert!(matches!(
        session.request(),
        Some(Request::OpenStream { descriptor: -1, duplicate: false })
    ));
    let session = session.advance_with(Reply::Opened(false), 0);
    assert!(matches!(session.finish(), Some(Err(Error::OtherC(None)))));
}

#[test]
fn diphone_stream_on_the_callers_file_is_opened_on_a_duplicate() {
    let session = PhonemeExtraction::new("a", PhonemeGenOptions::MbrolaFile(3))
        .advance(Reply::CurrentVoice(voice("mb/mb-en1")));
    assert!(matches!(
        session.request(),
        Some(Request::OpenStream { descriptor: 3, duplicate: true })
    ));
}

#[test]
fn diphone_trace_that_is_not_text_is_an_error() {
    let mut engine = Engine::new();
    let mut speaker = init(&mut engine);
    engine.voice = String::from("mb/mb-en1");
    engine.trace = vec![b'h', b' ', 0xff, b'1'];
    let session = speaker.text_to_phonemes("Hello world", PhonemeGenOptions::Mbrola);
    assert!(matches!(
        engine.phonemes(session),
        Err(Error::Other(OtherError::InvalidUtf8 { valid_up_to: 2 }))
    ));
}

#[test]
fn diphone_trace_that_cannot_be_read_is_an_error() {
    let session = PhonemeExtraction::new("a", PhonemeGenOptions::Mbrola)
        .advance(Reply::CurrentVoice(voice("mb/mb-en1")))
        .advance(Reply::Descriptor(5))
        .advance(Reply::Opened(true))
        .advance(Reply::Done)
        .advance(Reply::Status(0))
        .advance(Reply::Status(0))
        .advance(Reply::Done)
        .advance(Reply::Done);
    assert!(matches!(session.request(), Some(Request::ReadTrace)));
    let session = session.advance(Reply::Failed(String::from("bad descriptor")));
    match session.finish() {
        Some(Err(Error::Other(OtherError::Io(text)))) => assert_eq!(text, "bad descriptor"),
        other => panic!("unexpected result {:?}", other),
    }
}

#[test]
fn terminate_gives_the_handle_up() {
    let mut engine = Engine::new();
    let speaker = init(&mut engine);
    assert!(engine.up);
    let request = speaker.terminate();
    assert!(matches!(request, Request::Terminate));
    engine.perform(&request);
    assert!(!engine.up);
}
