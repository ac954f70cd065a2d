//! Conversion between the engine's C encodings and owned values:
//! null-terminated strings and the packed list of a voice's languages.

use vstd::prelude::*;
use vstd::slice::*;
use vstd::string::*;
use vstd::utf8::*;

use crate::structs::{language_views, Language, LanguageView};

verus! {

/// The length of the C string at the start of `bytes`: the number of bytes
/// before the first zero, or all of them where there is no zero.
pub open spec fn c_str_len(bytes: Seq<u8>) -> nat
    decreases bytes.len(),
{
    if bytes.len() == 0 || bytes[0] == 0 {
        0
    } else {
        1 + c_str_len(bytes.drop_first())
    }
}

/// The C string at the start of `bytes`, without its terminator.
pub open spec fn c_str(bytes: Seq<u8>) -> Seq<u8> {
    bytes.take(c_str_len(bytes) as int)
}

/// `c_str_len` is the only index that has no zero before it and that either
/// holds a zero or is the end.
pub proof fn lemma_c_str_len(bytes: Seq<u8>)
    ensures
        c_str_len(bytes) <= bytes.len(),
        forall|i: int| 0 <= i < c_str_len(bytes) ==> bytes[i] != 0,
        c_str_len(bytes) < bytes.len() ==> bytes[c_str_len(bytes) as int] == 0,
    decreases bytes.len(),
{
    if bytes.len() == 0 || bytes[0] == 0 {
    } else {
        let rest = bytes.drop_first();
        lemma_c_str_len(rest);
        assert forall|i: int| 0 <= i < c_str_len(bytes) implies bytes[i] != 0 by {
            if i > 0 {
                assert(bytes[i] == rest[i - 1]);
            }
        }
        if c_str_len(bytes) < bytes.len() {
            assert(bytes[c_str_len(bytes) as int] == rest[c_str_len(rest) as int]);
        }
    }
}

/// An index with no zero before it, which holds a zero or is the end, is
/// `c_str_len`.
pub proof fn lemma_c_str_len_is(bytes: Seq<u8>, n: int)
    requires
        0 <= n <= bytes.len(),
        forall|i: int| 0 <= i < n ==> bytes[i] != 0,
        n < bytes.len() ==> bytes[n] == 0,
    ensures
        c_str_len(bytes) == n,
    decreases bytes.len(),
{
    if n == 0 {
    } else {
        let rest = bytes.drop_first();
        assert(bytes[0] != 0);
        assert forall|i: int| 0 <= i < n - 1 implies rest[i] != 0 by {
            assert(rest[i] == bytes[i + 1]);
        }
        lemma_c_str_len_is(rest, n - 1);
    }
}

/// The text as the engine takes it: its UTF-8 bytes and a zero after them.
pub open spec fn null_terminated(text: Seq<char>) -> Seq<u8> {
    encode_utf8(text).push(0u8)
}

/// Copies a text into a null-terminated byte sequence.
pub fn null_term(s: &str) -> (r: Vec<u8>)
    ensures
        r@ == null_terminated(s@),
        r@.len() == s.spec_bytes().len() + 1,
{
    let mut bytes = s.as_bytes_vec();
    bytes.push(0);
    bytes
}

/// A text without a zero byte survives null-termination: the C string of
/// what `null_term` returns is the text's UTF-8 encoding.
pub proof fn lemma_null_term_round_trip(text: Seq<char>)
    requires
        forall|i: int| 0 <= i < encode_utf8(text).len() ==> encode_utf8(text)[i] != 0,
    ensures
        c_str(null_terminated(text)) == encode_utf8(text),
{
    let bytes = encode_utf8(text);
    let terminated = null_terminated(text);
    assert forall|i: int| 0 <= i < bytes.len() implies terminated[i] != 0 by {
        assert(terminated[i] == bytes[i]);
    }
    lemma_c_str_len_is(terminated, bytes.len() as int);
    assert(terminated.take(bytes.len() as int) =~= bytes);
}

/// The length of the C string at the start of `bytes`.
pub fn c_strlen(bytes: &[u8]) -> (n: usize)
    ensures
        n == c_str_len(bytes@),
        n <= bytes@.len(),
{
    let mut n: usize = 0;
    while n < bytes.len() && bytes[n] != 0
        invariant
            n <= bytes@.len(),
            forall|i: int| 0 <= i < n ==> bytes@[i] != 0,
        decreases bytes@.len() - n,
    {
        n = n + 1;
    }
    proof {
        lemma_c_str_len_is(bytes@, n as int);
    }
    n
}

/// The text that `String::from_utf8_lossy` makes of a byte sequence: the
/// decoded text where the bytes are UTF-8, and otherwise a text in which the
/// replacement character stands for each ill-formed part.
pub uninterp spec fn lossy_utf8(bytes: Seq<u8>) -> Seq<char>;

/// Decodes bytes with `String::from_utf8_lossy`. The result is named by
/// [`lossy_utf8`]; bytes that are UTF-8 decode to the text they encode.
#[verifier::external_body]
fn decode_lossy(bytes: &[u8]) -> (r: String)
    ensures
        r@ == lossy_utf8(bytes@),
        valid_utf8(bytes@) ==> r@ == decode_utf8(bytes@),
{
    String::from_utf8_lossy(bytes).into_owned()
}

/// The text that a byte sequence holds: the text that the bytes encode
/// where they are UTF-8, and otherwise what decoding with replacement makes
/// of them.
pub open spec fn text_of(bytes: Seq<u8>) -> Seq<char> {
    if valid_utf8(bytes) {
        decode_utf8(bytes)
    } else {
        lossy_utf8(bytes)
    }
}

/// The text of the C string at the start of `bytes`.
pub open spec fn c_text(bytes: Seq<u8>) -> Seq<char> {
    text_of(c_str(bytes))
}

/// A text without a zero byte comes back from its C string as it went in.
pub proof fn lemma_c_text_round_trip(text: Seq<char>)
    requires
        forall|i: int| 0 <= i < encode_utf8(text).len() ==> encode_utf8(text)[i] != 0,
    ensures
        c_text(null_terminated(text)) == text,
        c_text(encode_utf8(text)) == text,
{
    lemma_null_term_round_trip(text);
    encode_utf8_valid_utf8(text);
    encode_utf8_decode_utf8(text);
    let bytes = encode_utf8(text);
    lemma_c_str_len_is(bytes, bytes.len() as int);
    assert(bytes.take(bytes.len() as int) == bytes);
}

/// Whether `n` is the length of the longest prefix of `bytes` that is
/// UTF-8.
pub open spec fn is_valid_up_to(bytes: Seq<u8>, n: nat) -> bool {
    &&& n <= bytes.len()
    &&& valid_utf8(bytes.take(n as int))
    &&& forall|m: int| n < m <= bytes.len() ==> !valid_utf8(#[trigger] bytes.take(m))
}

/// The length of the longest prefix of `bytes` that is UTF-8.
pub open spec fn valid_up_to(bytes: Seq<u8>) -> nat {
    choose|n: nat| is_valid_up_to(bytes, n)
}

/// There is one longest prefix that is UTF-8.
pub proof fn lemma_valid_up_to(bytes: Seq<u8>, n: nat)
    requires
        is_valid_up_to(bytes, n),
    ensures
        valid_up_to(bytes) == n,
{
    let m = valid_up_to(bytes);
    assert(is_valid_up_to(bytes, m));
    if n < m {
        assert(!valid_utf8(bytes.take(m as int)));
    }
    if m < n {
        assert(!valid_utf8(bytes.take(n as int)));
    }
}

/// Decodes bytes with `String::from_utf8`: the text that the bytes encode
/// where they are UTF-8, and otherwise the error's `valid_up_to`, the
/// length of the longest prefix that is UTF-8.
#[verifier::external_body]
fn decode_strict(bytes: Vec<u8>) -> (r: Result<String, usize>)
    ensures
        r is Ok <==> valid_utf8(bytes@),
        r matches Ok(text) ==> text@ == decode_utf8(bytes@),
        r matches Err(n) ==> is_valid_up_to(bytes@, n as nat),
{
    match String::from_utf8(bytes) {
        Ok(text) => Ok(text),
        Err(e) => Err(e.utf8_error().valid_up_to()),
    }
}

/// The text that a byte sequence encodes, or the length of its longest
/// prefix that is UTF-8 where the whole is not.
pub fn string_from_utf8(bytes: Vec<u8>) -> (r: Result<String, usize>)
    ensures
        r is Ok <==> valid_utf8(bytes@),
        r matches Ok(text) ==> text@ == decode_utf8(bytes@),
        r matches Err(n) ==> n == valid_up_to(bytes@) && n < bytes@.len(),
{
    let ghost all = bytes@;
    let r = decode_strict(bytes);
    proof {
        if let Err(n) = r {
            lemma_valid_up_to(all, n as nat);
            assert(all.take(all.len() as int) == all);
        }
    }
    r
}

/// Copies the C string at the start of `bytes` into an owned text. Bytes
/// that are not UTF-8 are replaced, never rejected.
pub fn string_from_c_bytes(bytes: &[u8]) -> (r: String)
    ensures
        r@ == c_text(bytes@),
{
    let n = c_strlen(bytes);
    let head = slice_subrange(bytes, 0, n);
    assert(head@ == c_str(bytes@));
    decode_lossy(head)
}

/// One entry of a packed language list, as it lies in native memory.
pub struct LangRecord {
    pub priority: i8,
    pub name: Seq<u8>,
}

/// The byte of a native record read as a signed number.
pub open spec fn byte_as_i8(byte: u8) -> i8 {
    if byte < 128 {
        byte as i8
    } else {
        (byte - 256) as i8
    }
}

/// The entries of a packed language list. Each entry is a priority byte
/// other than zero and a null-terminated name; a zero where a priority byte
/// is due ends the list, and what follows it is not read. A sequence that
/// ends before that zero is no list.
pub open spec fn lang_records(bytes: Seq<u8>) -> Option<Seq<LangRecord>>
    decreases bytes.len(),
{
    if bytes.len() == 0 {
        None
    } else if bytes[0] == 0 {
        Some(Seq::empty())
    } else {
        let body = bytes.drop_first();
        let n = c_str_len(body) as int;
        if n >= body.len() {
            None
        } else {
            match lang_records(body.skip(n + 1)) {
                None => None,
                Some(rest) => Some(
                    seq![LangRecord { priority: byte_as_i8(bytes[0]), name: body.take(n) }] + rest,
                ),
            }
        }
    }
}

/// The languages that a sequence of entries names, in its order, or `None`
/// where a name is not UTF-8.
pub open spec fn languages_of(records: Seq<LangRecord>) -> Option<Seq<LanguageView>> {
    if forall|i: int| 0 <= i < records.len() ==> valid_utf8(#[trigger] records[i].name) {
        Some(
            Seq::new(
                records.len(),
                |i: int|
                    LanguageView {
                        name: decode_utf8(records[i].name),
                        priority: records[i].priority,
                    },
            ),
        )
    } else {
        None
    }
}

/// The languages of a packed language list, or `None` where the bytes are
/// no list or a name is not UTF-8.
pub open spec fn spec_parse_lang_array(bytes: Seq<u8>) -> Option<Seq<LanguageView>> {
    match lang_records(bytes) {
        None => None,
        Some(records) => languages_of(records),
    }
}

/// What `lang_records` makes of `bytes`, given that `done` are the entries
/// before index `at` and that an entry or the final zero is due there.
spec fn records_from(bytes: Seq<u8>, at: int, done: Seq<LangRecord>) -> Option<Seq<LangRecord>> {
    match lang_records(bytes.skip(at)) {
        None => None,
        Some(rest) => Some(done + rest),
    }
}

/// Reads the byte of a native record as a signed number.
fn priority_of(byte: u8) -> (r: i8)
    ensures
        r == byte_as_i8(byte),
{
    if byte < 128 {
        byte as i8
    } else {
        let below: u8 = byte - 128;
        (below as i8) + i8::MIN
    }
}

/// Parses the packed list of a voice's languages.
///
/// The list is scanned byte by byte: a zero where a priority byte is due
/// ends it, and no count limits it. The result is `None` where the bytes end
/// before that zero or a name is not UTF-8.
pub fn parse_lang_array(bytes: &[u8]) -> (r: Option<Vec<Language>>)
    ensures
        match r {
            Some(languages) => spec_parse_lang_array(bytes@) == Some(language_views(languages@)),
            None => spec_parse_lang_array(bytes@) is None,
        },
{
    let mut languages: Vec<Language> = Vec::new();
    let ghost mut done: Seq<LangRecord> = Seq::empty();
    let mut at: usize = 0;
    assert(bytes@.skip(0) == bytes@);
    loop
        invariant
            at <= bytes@.len(),
            lang_records(bytes@) == records_from(bytes@, at as int, done),
            languages@.len() == done.len(),
            forall|k: int| 0 <= k < done.len() ==> valid_utf8(#[trigger] done[k].name),
            forall|k: int|
                0 <= k < done.len() ==> (#[trigger] languages@[k])@ == (LanguageView {
                    name: decode_utf8(done[k].name),
                    priority: done[k].priority,
                }),
        decreases bytes@.len() - at,
    {
        let ghost tail = bytes@.skip(at as int);
        if at >= bytes.len() {
            return None;
        }
        assert(tail[0] == bytes@[at as int]);
        if bytes[at] == 0 {
            proof {
                assert(done + Seq::<LangRecord>::empty() == done);
                assert(language_views(languages@) == languages_of(done).unwrap());
            }
            return Some(languages);
        }
        let priority = priority_of(bytes[at]);
        let body = slice_subrange(bytes, at + 1, bytes.len());
        assert(body@ == tail.drop_first());
        let n = c_strlen(body);
        if n >= body.len() {
            return None;
        }
        let name = slice_to_vec(slice_subrange(body, 0, n));
        let ghost record = LangRecord { priority, name: name@ };
        assert(name@ == body@.take(n as int));
        assert(body@.skip(n as int + 1) == bytes@.skip(at as int + 1 + n as int + 1));
        match decode_strict(name) {
            Ok(text) => {
                languages.push(Language { name: text, priority });
                proof {
                    let next = at as int + 1 + n as int + 1;
                    match lang_records(bytes@.skip(next)) {
                        None => {},
                        Some(rest) => {
                            assert(done + (seq![record] + rest) == done.push(record) + rest);
                        },
                    }
                    done = done.push(record);
                }
                at = at + 1 + n + 1;
            },
            Err(_) => {
                proof {
                    match lang_records(bytes@.skip(at as int + 1 + n as int + 1)) {
                        None => {},
                        Some(rest) => {
                            let all = done + (seq![record] + rest);
                            assert(lang_records(bytes@) == Some(all));
                            assert(all[done.len() as int] == record);
                            assert(!valid_utf8(all[done.len() as int].name));
                        },
                    }
                }
                return None;
            },
        }
    }
}

/// Where the reading of a packed language list stands.
#[derive(Clone, Copy, Debug, PartialEq, Eq, Structural)]
pub enum ScanState {
    /// A priority byte, or the zero that ends the list, is due.
    Boundary,
    /// A name is being read.
    InName,
    /// The zero that ends the list has been read.
    Complete,
}

/// Where the reading stands after one more byte.
pub open spec fn scan_step(state: ScanState, byte: u8) -> ScanState {
    match state {
        ScanState::Boundary => if byte == 0 {
            ScanState::Complete
        } else {
            ScanState::InName
        },
        ScanState::InName => if byte == 0 {
            ScanState::Boundary
        } else {
            ScanState::InName
        },
        ScanState::Complete => ScanState::Complete,
    }
}

/// Where the reading stands after `bytes`, begun in `state`.
pub open spec fn scan_from(state: ScanState, bytes: Seq<u8>) -> ScanState
    decreases bytes.len(),
{
    if bytes.len() == 0 {
        state
    } else {
        scan_step(scan_from(state, bytes.drop_last()), bytes.last())
    }
}

/// Where the reading of a list stands after `bytes`.
pub open spec fn scan(bytes: Seq<u8>) -> ScanState {
    scan_from(ScanState::Boundary, bytes)
}

/// Reading one byte is one step.
proof fn lemma_scan_one(state: ScanState, byte: u8)
    ensures
        scan_from(state, seq![byte]) == scan_step(state, byte),
{
    let one = seq![byte];
    assert(one.drop_last() == Seq::<u8>::empty());
    assert(scan_from(state, one.drop_last()) == state);
}

/// Reading two sequences one after the other is reading them joined.
proof fn lemma_scan_concat(state: ScanState, a: Seq<u8>, b: Seq<u8>)
    ensures
        scan_from(state, a + b) == scan_from(scan_from(state, a), b),
    decreases b.len(),
{
    if b.len() == 0 {
        assert(a + b == a);
    } else {
        assert((a + b).drop_last() == a + b.drop_last());
        assert((a + b).last() == b.last());
        lemma_scan_concat(state, a, b.drop_last());
    }
}

/// Once the list has ended, no byte reopens it.
proof fn lemma_scan_complete(bytes: Seq<u8>)
    ensures
        scan_from(ScanState::Complete, bytes) == ScanState::Complete,
    decreases bytes.len(),
{
    if bytes.len() > 0 {
        lemma_scan_complete(bytes.drop_last());
    }
}

/// A name lasts as long as no zero comes.
proof fn lemma_scan_name(bytes: Seq<u8>)
    requires
        forall|i: int| 0 <= i < bytes.len() ==> bytes[i] != 0,
    ensures
        scan_from(ScanState::InName, bytes) == ScanState::InName,
    decreases bytes.len(),
{
    if bytes.len() > 0 {
        lemma_scan_name(bytes.drop_last());
    }
}

/// Reading byte by byte finds the end of a list exactly where the list
/// ends: the reading is complete after `bytes` if and only if `bytes` hold a
/// whole list.
pub proof fn lemma_scan_finds_end(bytes: Seq<u8>)
    ensures
        scan(bytes) == ScanState::Complete <==> lang_records(bytes) is Some,
    decreases bytes.len(),
{
    if bytes.len() == 0 {
    } else {
        let head = seq![bytes[0]];
        let body = bytes.drop_first();
        assert(bytes == head + body);
        lemma_scan_one(ScanState::Boundary, bytes[0]);
        lemma_scan_concat(ScanState::Boundary, head, body);
        if bytes[0] == 0 {
            lemma_scan_complete(body);
        } else {
            let n = c_str_len(body) as int;
            lemma_c_str_len(body);
            if n >= body.len() {
                lemma_scan_name(body);
            } else {
                let name = body.take(n);
                let end = seq![0u8];
                let rest = body.skip(n + 1);
                assert(body == name + end + rest);
                lemma_scan_name(name);
                lemma_scan_one(ScanState::InName, 0u8);
                lemma_scan_concat(ScanState::InName, name, end);
                lemma_scan_concat(ScanState::InName, name + end, rest);
                lemma_scan_finds_end(rest);
            }
        }
    }
}

/// A reader that takes a packed language list from a source that yields
/// one byte at a time and has no length, such as native memory: it says
/// after each byte whether the list has ended.
#[derive(Debug)]
pub struct LangArrayReader {
    bytes: Vec<u8>,
    state: ScanState,
}

impl View for LangArrayReader {
    type V = Seq<u8>;

    /// The bytes that were taken.
    closed spec fn view(&self) -> Seq<u8> {
        self.bytes@
    }
}

impl LangArrayReader {
    #[verifier::type_invariant]
    spec fn inv(self) -> bool {
        &&& self.state == scan(self.bytes@)
        &&& forall|n: int|
            0 <= n < self.bytes@.len() ==> scan(#[trigger] self.bytes@.take(n))
                != ScanState::Complete
    }

    /// A reader that has taken nothing.
    pub fn new() -> (r: LangArrayReader)
        ensures
            r@ == Seq::<u8>::empty(),
    {
        LangArrayReader { bytes: Vec::new(), state: ScanState::Boundary }
    }

    /// Whether the list has ended, so that no further byte belongs to it.
    /// The reader has taken a whole list then, and nothing after it: no
    /// shorter prefix of what it holds is a whole list.
    pub fn is_complete(&self) -> (r: bool)
        ensures
            r == (lang_records(self@) is Some),
            r == (scan(self@) == ScanState::Complete),
            forall|n: int| 0 <= n < self@.len() ==> lang_records(#[trigger] self@.take(n)) is None,
    {
        proof {
            use_type_invariant(self);
            lemma_scan_finds_end(self.bytes@);
            assert forall|n: int| 0 <= n < self.bytes@.len() implies lang_records(
                #[trigger] self.bytes@.take(n),
            ) is None by {
                lemma_scan_finds_end(self.bytes@.take(n));
            }
        }
        self.state == ScanState::Complete
    }

    /// Takes the next byte of the list. A byte that comes after the end of
    /// the list is dropped.
    pub fn push(self, byte: u8) -> (r: LangArrayReader)
        ensures
            r@ == if lang_records(self@) is Some {
                self@
            } else {
                self@.push(byte)
            },
    {
        proof {
            use_type_invariant(&self);
            lemma_scan_finds_end(self.bytes@);
        }
        let LangArrayReader { bytes, state } = self;
        let mut bytes = bytes;
        let next = match state {
            ScanState::Boundary => if byte == 0 {
                ScanState::Complete
            } else {
                ScanState::InName
            },
            ScanState::InName => if byte == 0 {
                ScanState::Boundary
            } else {
                ScanState::InName
            },
            ScanState::Complete => {
                return LangArrayReader { bytes, state };
            },
        };
        let ghost before = bytes@;
        bytes.push(byte);
        proof {
            assert(bytes@.drop_last() == before);
            assert forall|n: int| 0 <= n < bytes@.len() implies scan(#[trigger] bytes@.take(n))
                != ScanState::Complete by {
                if n < before.len() {
                    assert(bytes@.take(n) == before.take(n));
                } else {
                    assert(bytes@.take(n) == before);
                }
            }
        }
        LangArrayReader { bytes, state: next }
    }

    /// The bytes that were taken.
    pub fn into_bytes(self) -> (r: Vec<u8>)
        ensures
            r@ == self@,
    {
        self.bytes
    }

    /// The languages of the list that was taken, or `None` where the list
    /// has not ended or a name is not UTF-8.
    pub fn finish(self) -> (r: Option<Vec<Language>>)
        ensures
            match r {
                Some(languages) => spec_parse_lang_array(self@) == Some(language_views(languages@)),
                None => spec_parse_lang_array(self@) is None,
            },
    {
        parse_lang_array(self.bytes.as_slice())
    }
}

} // verus!
