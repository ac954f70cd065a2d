//! The value types that describe voices, parameters and phoneme options.

use vstd::prelude::*;

use crate::marshal::{c_text, parse_lang_array, spec_parse_lang_array, string_from_c_bytes};

verus! {

/// How the characters of a text are encoded.
#[derive(Clone, Copy, Debug, PartialEq, Eq, Structural)]
pub enum TextMode {
    /// UTF-8.
    Utf8,
}

impl TextMode {
    /// The number by which the engine knows the encoding.
    pub open spec fn spec_code(self) -> i32 {
        1
    }

    /// The number by which the engine knows the encoding.
    pub fn code(self) -> (c: i32)
        ensures
            c == self.spec_code(),
    {
        1
    }
}

impl Default for TextMode {
    fn default() -> (r: TextMode)
        ensures
            r == TextMode::Utf8,
    {
        TextMode::Utf8
    }
}

/// How the phonemes of the standard notation are written: a set of flags.
#[derive(Clone, Copy, Debug, PartialEq, Eq)]
pub struct PhonemeMode {
    bits: u32,
}

impl View for PhonemeMode {
    type V = u32;

    /// The flags as bits.
    closed spec fn view(&self) -> u32 {
        self.bits
    }
}

impl PhonemeMode {
    /// Bit of the flag that ties the letters of a phoneme name of more than
    /// one letter together (U+361).
    pub const INCLUDE_TIES: u32 = 1;

    /// Bit of the flag that puts a zero-width joiner between the letters of
    /// a phoneme name of more than one letter.
    pub const INCLUDE_ZERO_WIDTH_JOINERS: u32 = 2;

    /// Bit of the flag that separates phonemes by underscores.
    pub const SEPARATE_WITH_UNDERSCORES: u32 = 4;

    /// The bits of all flags.
    pub const ALL: u32 = 7;

    #[verifier::type_invariant]
    spec fn inv(self) -> bool {
        self.bits <= PhonemeMode::ALL
    }

    /// No flag.
    pub fn empty() -> (r: PhonemeMode)
        ensures
            r@ == 0,
    {
        PhonemeMode { bits: 0 }
    }

    /// Every flag.
    pub fn all() -> (r: PhonemeMode)
        ensures
            r@ == PhonemeMode::ALL,
    {
        PhonemeMode { bits: PhonemeMode::ALL }
    }

    /// The flag that ties the letters of a phoneme name together.
    pub fn include_ties() -> (r: PhonemeMode)
        ensures
            r@ == PhonemeMode::INCLUDE_TIES,
    {
        PhonemeMode { bits: PhonemeMode::INCLUDE_TIES }
    }

    /// The flag that joins the letters of a phoneme name by zero-width
    /// joiners.
    pub fn include_zero_width_joiners() -> (r: PhonemeMode)
        ensures
            r@ == PhonemeMode::INCLUDE_ZERO_WIDTH_JOINERS,
    {
        PhonemeMode { bits: PhonemeMode::INCLUDE_ZERO_WIDTH_JOINERS }
    }

    /// The flag that separates phonemes by underscores.
    pub fn separate_with_underscores() -> (r: PhonemeMode)
        ensures
            r@ == PhonemeMode::SEPARATE_WITH_UNDERSCORES,
    {
        PhonemeMode { bits: PhonemeMode::SEPARATE_WITH_UNDERSCORES }
    }

    /// The flags as bits.
    pub fn bits(&self) -> (r: u32)
        ensures
            r == self@,
            r <= PhonemeMode::ALL,
    {
        proof {
            use_type_invariant(self);
        }
        self.bits
    }

    /// The flags that `bits` holds, unless a bit is set that is no flag.
    pub fn from_bits(bits: u32) -> (r: Option<PhonemeMode>)
        ensures
            bits <= PhonemeMode::ALL <==> r is Some,
            r matches Some(mode) ==> mode@ == bits,
    {
        if bits <= PhonemeMode::ALL {
            Some(PhonemeMode { bits })
        } else {
            None
        }
    }

    /// The flags that `bits` holds; bits that are no flag are dropped.
    pub fn from_bits_truncate(bits: u32) -> (r: PhonemeMode)
        ensures
            r@ == bits & PhonemeMode::ALL,
    {
        assert(bits & 7 <= 7) by (bit_vector);
        PhonemeMode { bits: bits & PhonemeMode::ALL }
    }

    /// Whether no flag is set.
    pub fn is_empty(&self) -> (r: bool)
        ensures
            r == (self@ == 0),
    {
        self.bits == 0
    }

    /// Whether every flag of `other` is set in `self`.
    pub fn contains(&self, other: PhonemeMode) -> (r: bool)
        ensures
            r == (self@ & other@ == other@),
    {
        self.bits & other.bits == other.bits
    }

    /// The flags that are set in `self` or in `other`.
    pub fn union(self, other: PhonemeMode) -> (r: PhonemeMode)
        ensures
            r@ == self@ | other@,
    {
        proof {
            use_type_invariant(&self);
            use_type_invariant(&other);
        }
        let a = self.bits;
        let b = other.bits;
        assert(a | b <= 7) by (bit_vector)
            requires
                a <= 7,
                b <= 7,
        ;
        PhonemeMode { bits: a | b }
    }
}

impl Default for PhonemeMode {
    fn default() -> (r: PhonemeMode)
        ensures
            r@ == 0,
    {
        PhonemeMode::empty()
    }
}

/// How phonemes are to be made of a text.
#[derive(Clone, Copy, Debug)]
pub enum PhonemeGenOptions {
    /// In the engine's standard notation, returned as text.
    Standard { text_mode: TextMode, phoneme_mode: PhonemeMode },
    /// In the notation of the diphone synthesizer, returned as text.
    Mbrola,
    /// In the notation of the diphone synthesizer, written to the file
    /// behind this descriptor. The descriptor stays with the caller, who
    /// keeps it open and writable for as long as the extraction runs.
    MbrolaFile(i32),
}

/// A speaker's gender, where a voice states one.
#[derive(Clone, Copy, Debug, PartialEq, Eq, Structural)]
pub enum Gender {
    Male,
    Female,
}

impl Gender {
    /// The gender that the byte of a native voice record stands for:
    /// 1 is male and 2 is female; every other byte, 0 included, states none.
    pub open spec fn spec_from_repr(raw: u8) -> Option<Gender> {
        if raw == 1 {
            Some(Gender::Male)
        } else if raw == 2 {
            Some(Gender::Female)
        } else {
            None
        }
    }

    /// Reads the gender byte of a native voice record.
    pub fn from_repr(raw: u8) -> (r: Option<Gender>)
        ensures
            r == Gender::spec_from_repr(raw),
    {
        if raw == 1 {
            Some(Gender::Male)
        } else if raw == 2 {
            Some(Gender::Female)
        } else {
            None
        }
    }
}

/// A language that a voice speaks.
#[derive(Debug, PartialEq, Eq, Clone)]
pub struct Language {
    pub name: String,
    /// How well the voice suits the language; lower is better.
    pub priority: i8,
}

/// What a [`Language`] holds, as plain values.
pub struct LanguageView {
    pub name: Seq<char>,
    pub priority: i8,
}

impl View for Language {
    type V = LanguageView;

    open spec fn view(&self) -> LanguageView {
        LanguageView { name: self.name@, priority: self.priority }
    }
}

/// The views of a sequence of languages, in order.
pub open spec fn language_views(languages: Seq<Language>) -> Seq<LanguageView> {
    Seq::new(languages.len(), |i: int| languages[i]@)
}

/// A voice of the engine. A voice is made from a native record only, so that
/// its `filename` names a voice that the engine has listed.
#[derive(Debug, PartialEq, Eq, Clone)]
#[non_exhaustive]
pub struct Voice {
    pub name: String,
    /// The identifier by which the engine selects the voice.
    pub filename: String,
    /// The languages in the order of the native record.
    pub languages: Vec<Language>,
    pub gender: Option<Gender>,
    pub age: u8,
}

/// What a [`Voice`] holds, as plain values.
pub struct VoiceView {
    pub name: Seq<char>,
    pub filename: Seq<char>,
    pub languages: Seq<LanguageView>,
    pub gender: Option<Gender>,
    pub age: u8,
}

impl View for Voice {
    type V = VoiceView;

    open spec fn view(&self) -> VoiceView {
        VoiceView {
            name: self.name@,
            filename: self.filename@,
            languages: language_views(self.languages@),
            gender: self.gender,
            age: self.age,
        }
    }
}

/// A native voice record, copied out of the engine's memory byte for byte.
#[derive(Debug, Clone)]
pub struct RawVoice {
    /// The C string of the voice's name; bytes from the first zero on are
    /// not part of it.
    pub name: Vec<u8>,
    /// The C string of the voice's identifier.
    pub identifier: Vec<u8>,
    /// The packed list of languages, up to and including its final zero.
    pub languages: Vec<u8>,
    pub gender: u8,
    pub age: u8,
}

/// What a [`RawVoice`] holds, as plain values.
pub struct RawVoiceView {
    pub name: Seq<u8>,
    pub identifier: Seq<u8>,
    pub languages: Seq<u8>,
    pub gender: u8,
    pub age: u8,
}

impl View for RawVoice {
    type V = RawVoiceView;

    open spec fn view(&self) -> RawVoiceView {
        RawVoiceView {
            name: self.name@,
            identifier: self.identifier@,
            languages: self.languages@,
            gender: self.gender,
            age: self.age,
        }
    }
}

impl Voice {
    /// The voice that a native record describes: name and identifier are
    /// the texts of its C strings, the gender byte is read by
    /// [`Gender::spec_from_repr`], the age is copied, and the languages are
    /// those of the packed list. A record whose list does not parse
    /// describes no voice.
    pub open spec fn spec_from_raw(raw: RawVoiceView) -> Option<VoiceView> {
        match spec_parse_lang_array(raw.languages) {
            None => None,
            Some(languages) => Some(
                VoiceView {
                    name: c_text(raw.name),
                    filename: c_text(raw.identifier),
                    languages,
                    gender: Gender::spec_from_repr(raw.gender),
                    age: raw.age,
                },
            ),
        }
    }

    /// Converts a native voice record into an owned voice.
    pub fn from_raw(raw: &RawVoice) -> (r: Option<Voice>)
        ensures
            match r {
                Some(voice) => Voice::spec_from_raw(raw@) == Some(voice@),
                None => Voice::spec_from_raw(raw@) is None,
            },
    {
        match parse_lang_array(raw.languages.as_slice()) {
            None => None,
            Some(languages) => Some(
                Voice {
                    name: string_from_c_bytes(raw.name.as_slice()),
                    filename: string_from_c_bytes(raw.identifier.as_slice()),
                    languages,
                    gender: Gender::from_repr(raw.gender),
                    age: raw.age,
                },
            ),
        }
    }

    /// The views of a sequence of voices, in order.
    pub open spec fn views(voices: Seq<Voice>) -> Seq<VoiceView> {
        Seq::new(voices.len(), |i: int| voices[i]@)
    }
}

/// A setting of the engine.
#[derive(Clone, Copy, Debug, PartialEq, Eq, Structural)]
pub enum Parameter {
    /// Words per minute, from 80 to 450.
    Rate,
    /// Volume of speech, from 0 to 100; above that the engine may compress
    /// or distort.
    Volume,
    /// Base pitch, from 0 to 100, normally 50.
    Pitch,
    /// The pitch range, from 0 (monotone) to 100, normally 50.
    Range,
    /// Which punctuation characters are spoken: a [`PunctationType`].
    Punctuation,
    /// How capital letters are announced: 0 not at all, 1 by a sound, 2 by
    /// spelling, 3 and above by raising the pitch by that many Hz.
    Capitals,
    /// The pause between words, in units of 10 ms at the default rate.
    Wordgap,
}

impl Parameter {
    /// The number by which the engine knows the setting.
    pub open spec fn spec_id(self) -> u32 {
        match self {
            Parameter::Rate => 1,
            Parameter::Volume => 2,
            Parameter::Pitch => 3,
            Parameter::Range => 4,
            Parameter::Punctuation => 5,
            Parameter::Capitals => 6,
            Parameter::Wordgap => 7,
        }
    }

    /// The legal values of the setting, lowest and highest, where the
    /// engine documents both.
    pub open spec fn spec_value_range(self) -> Option<(i32, i32)> {
        match self {
            Parameter::Rate => Some((80i32, 450i32)),
            Parameter::Volume | Parameter::Pitch | Parameter::Range => Some((0i32, 100i32)),
            Parameter::Punctuation => Some((0i32, 2i32)),
            Parameter::Capitals | Parameter::Wordgap => None,
        }
    }

    /// The number by which the engine knows the setting.
    pub fn id(self) -> (r: u32)
        ensures
            r == self.spec_id(),
            1 <= r <= 7,
    {
        match self {
            Parameter::Rate => 1,
            Parameter::Volume => 2,
            Parameter::Pitch => 3,
            Parameter::Range => 4,
            Parameter::Punctuation => 5,
            Parameter::Capitals => 6,
            Parameter::Wordgap => 7,
        }
    }

    /// The legal values of the setting, lowest and highest, where the
    /// engine documents both.
    pub fn value_range(self) -> (r: Option<(i32, i32)>)
        ensures
            r == self.spec_value_range(),
            r matches Some((low, high)) ==> low <= high,
    {
        match self {
            Parameter::Rate => Some((80, 450)),
            Parameter::Volume | Parameter::Pitch | Parameter::Range => Some((0, 100)),
            Parameter::Punctuation => Some((0, 2)),
            Parameter::Capitals | Parameter::Wordgap => None,
        }
    }
}

/// Which punctuation characters the engine speaks.
#[derive(Clone, Copy, Debug, PartialEq, Eq, Structural)]
pub enum PunctationType {
    /// No punctuation is spoken.
    Nothing,
    /// All punctuation is spoken.
    All,
    /// Only the characters on the engine's punctuation list are spoken.
    Selected,
}

impl PunctationType {
    /// The value of [`Parameter::Punctuation`] that selects this type.
    pub open spec fn spec_code(self) -> i32 {
        match self {
            PunctationType::Nothing => 0,
            PunctationType::All => 1,
            PunctationType::Selected => 2,
        }
    }

    /// The value of [`Parameter::Punctuation`] that selects this type.
    pub fn code(self) -> (r: i32)
        ensures
            r == self.spec_code(),
    {
        match self {
            PunctationType::Nothing => 0,
            PunctationType::All => 1,
            PunctationType::Selected => 2,
        }
    }
}

} // verus!
