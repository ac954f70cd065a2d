//! The handle through which the engine is used.

use vstd::prelude::*;
use vstd::string::*;

use crate::engine::{Request, RequestView};
use crate::marshal::{c_text, string_from_c_bytes};
use crate::phonemes::{PhonemeExtraction, PhonemeExtractionView};
use crate::selection::{VoiceSelection, VoiceSelectionView};
use crate::startup::{path_view, Initialisation, InitialisationView};
use crate::structs::{
    Parameter, PhonemeGenOptions, RawVoice, RawVoiceView, Voice, VoiceView,
};
use crate::synthesis::{FileSynthesis, FileSynthesisView, Synthesis, SynthesisView};

verus! {

/// The one handle on the engine. The engine keeps its state in globals, so
/// a process has one `Speaker` at most: it comes out of a finished
/// [`Initialisation`] and nowhere else, and an operation borrows it mutably
/// until it is over.
#[derive(Debug)]
pub struct Speaker {
    token: (),
}

/// The views of a sequence of native voice records, in order.
pub open spec fn record_views(records: Seq<RawVoice>) -> Seq<RawVoiceView> {
    Seq::new(records.len(), |i: int| records[i]@)
}

/// The voices that a sequence of native records describes, in its order,
/// or `None` where a record describes no voice.
pub open spec fn spec_voices(records: Seq<RawVoiceView>) -> Option<Seq<VoiceView>> {
    if forall|i: int| 0 <= i < records.len() ==> (#[trigger] Voice::spec_from_raw(records[i]))
        is Some {
        Some(Seq::new(records.len(), |i: int| Voice::spec_from_raw(records[i]).unwrap()))
    } else {
        None
    }
}

impl Speaker {
    /// The identifier of the voice that is selected when the engine starts.
    pub const DEFAULT_VOICE: &'static str = "gmw/en";

    /// The handle on an engine that has just been initialised.
    pub(crate) fn started() -> Speaker {
        Speaker { token: () }
    }

    /// Starts to bring the engine up, with its data in `voice_path` or,
    /// without one, in the engine's default directory. The session ends
    /// with the handle, and with the voice [`Speaker::DEFAULT_VOICE`]
    /// selected.
    pub fn initialise(voice_path: Option<&str>) -> (r: Initialisation)
        ensures
            r@ == InitialisationView::start(path_view(voice_path)),
            r@.selection.filename == Speaker::DEFAULT_VOICE@,
    {
        Initialisation::new(voice_path)
    }

    /// Converts the record of the engine's current voice. The record is
    /// there whenever the engine is up; a record that describes no voice
    /// gives `None`.
    pub fn get_current_voice(&self, record: &RawVoice) -> (r: Option<Voice>)
        ensures
            match r {
                Some(voice) => Voice::spec_from_raw(record@) == Some(voice@),
                None => Voice::spec_from_raw(record@) is None,
            },
    {
        Voice::from_raw(record)
    }

    /// Converts the records of the voices that the engine lists, in the
    /// engine's order. One record that describes no voice gives `None`.
    pub fn get_voices(records: &[RawVoice]) -> (r: Option<Vec<Voice>>)
        ensures
            match r {
                Some(voices) => spec_voices(record_views(records@)) == Some(Voice::views(voices@)),
                None => spec_voices(record_views(records@)) is None,
            },
    {
        let mut voices: Vec<Voice> = Vec::new();
        let mut i: usize = 0;
        while i < records.len()
            invariant
                i <= records@.len(),
                voices@.len() == i,
                forall|k: int|
                    0 <= k < i ==> Voice::spec_from_raw(#[trigger] record_views(records@)[k])
                        == Some(voices@[k]@),
            decreases records@.len() - i,
        {
            match Voice::from_raw(&records[i]) {
                Some(voice) => {
                    voices.push(voice);
                },
                None => {
                    assert(Voice::spec_from_raw(record_views(records@)[i as int]) is None);
                    return None;
                },
            }
            i = i + 1;
        }
        proof {
            let views = record_views(records@);
            assert forall|k: int| 0 <= k < views.len() implies (#[trigger] Voice::spec_from_raw(
                views[k],
            )) is Some by {
                assert(Voice::spec_from_raw(record_views(records@)[k]) == Some(voices@[k]@));
            }
            assert(spec_voices(views).unwrap() =~= Voice::views(voices@));
        }
        Some(voices)
    }

    /// Starts to select a voice: the one that `voice.filename` names.
    pub fn set_voice(&mut self, voice: &Voice) -> (r: VoiceSelection)
        ensures
            r@ == VoiceSelectionView::start(voice@.filename),
    {
        self.set_voice_raw(voice.filename.as_str())
    }

    /// Starts to select the voice that `filename` names.
    pub fn set_voice_raw(&mut self, filename: &str) -> (r: VoiceSelection)
        ensures
            r@ == VoiceSelectionView::start(filename@),
    {
        VoiceSelection::new(filename)
    }

    /// Asks for the value of a setting: the engine's default where
    /// `default` is set, the current value where it is not. The engine's
    /// answer is the value.
    pub fn get_parameter(&mut self, param: Parameter, default: bool) -> (r: Request)
        ensures
            r@ == (RequestView::GetParameter {
                id: param.spec_id(),
                current: if default {
                    0i32
                } else {
                    1i32
                },
            }),
    {
        Request::GetParameter { id: param.id(), current: if default {
            0
        } else {
            1
        } }
    }

    /// Asks for a setting to be changed: to `new_value`, or by `new_value`
    /// where `relative` is set. The engine's answer is a status, which
    /// [`crate::handle_error`] turns into the result.
    pub fn set_parameter(&mut self, param: Parameter, new_value: i32, relative: bool) -> (r:
        Request)
        ensures
            r@ == (RequestView::SetParameter {
                id: param.spec_id(),
                value: new_value,
                relative: if relative {
                    1i32
                } else {
                    0i32
                },
            }),
    {
        Request::SetParameter { id: param.id(), value: new_value, relative: if relative {
            1
        } else {
            0
        } }
    }

    /// Copies the engine's version and the directory of its data out of the
    /// C strings that the engine hands out.
    pub fn info(version: &[u8], voice_path: &[u8]) -> (r: (String, String))
        ensures
            r.0@ == c_text(version@),
            r.1@ == c_text(voice_path@),
    {
        (string_from_c_bytes(version), string_from_c_bytes(voice_path))
    }

    /// Starts to synthesize `text`. The session ends with the audio.
    pub fn synthesize(&mut self, text: &str) -> (r: Synthesis)
        ensures
            r@ == SynthesisView::start(text@, true),
    {
        Synthesis::new(text, true)
    }

    /// Starts to synthesize `text` into a file. The session ends when the
    /// audio is written.
    pub fn synthesize_to_file(&mut self, text: &str) -> (r: FileSynthesis)
        ensures
            r@ == FileSynthesisView::start(text@),
    {
        FileSynthesis::new(text)
    }

    /// Starts to extract the phonemes of `text` in the way that `option`
    /// selects. The session ends with the phonemes as text, or without
    /// text where `option` names a file for them.
    pub fn text_to_phonemes(&mut self, text: &str, option: PhonemeGenOptions) -> (r:
        PhonemeExtraction)
        ensures
            r@ == PhonemeExtractionView::start(text@, option),
    {
        PhonemeExtraction::new(text, option)
    }

    /// Gives the handle up and asks for the engine to be shut down. There
    /// is no way back: the engine cannot be initialised again.
    pub fn terminate(self) -> (r: Request)
        ensures
            r@ == RequestView::Terminate,
    {
        Request::Terminate
    }
}

} // verus!
