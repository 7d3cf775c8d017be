//! The error translator.
//!
//! The two native libraries report failure through opaque numeric codes drawn
//! from two unrelated domains. Each code is translated to a category by an
//! exact-match table; the conversion domain additionally treats the whole
//! ranges 200..=299 and 300..=399 as invalid-dictionary categories. The
//! translation is total: every integer yields a category, with an
//! unrecognized fallback.

use vstd::prelude::*;

verus! {

/// A failure of the binding layer itself or of a native call.
#[derive(Clone, Copy, PartialEq, Eq, Structural, Debug)]
pub enum BindingError {
    /// The native library image (or a required dependency) could not be loaded.
    LoadFailure,
    /// An expected entry point is absent from the library's export table.
    SymbolNotFound,
    /// A text argument cannot be represented as a null-terminated native string.
    EncodingError,
    /// A requested or computed output capacity exceeds what a native call can take.
    BufferTooLarge,
    /// The synthesis engine reported a nonzero/null result, with its code.
    Synthesis(AqErr),
    /// The conversion engine reported a nonzero/null result, with its code.
    Conversion(AqK2Kerr),
}

/// A raw error code from the speech-synthesis engine.
#[derive(Clone, Copy, PartialEq, Eq, Structural, Debug)]
pub struct AqErr(pub i32);

/// The category a synthesis error code translates to.
#[derive(Clone, Copy, PartialEq, Eq, Structural, Debug)]
pub enum AqErrKind {
    OtherError,
    OutOfMemory,
    UndefinedReadingSymbol,
    NegativeProsodyLength,
    UndefinedDelimiter,
    InvalidTag,
    TagTooLong,
    InvalidTagValue,
    WavePlaybackFailed,
    WavePlaybackAsyncFailed,
    NothingToSpeak,
    NotationTooLong,
    TooManyReadingSymbols,
    InternalBufferOverflow,
    HeapShortage,
    Unrecognized,
}

/// The exact-match translation table of the synthesis domain: defined on
/// {100..=111, 200..=204}, everything else unrecognized.
pub open spec fn synthesis_kind(code: int) -> AqErrKind {
    if code == 100 { AqErrKind::OtherError }
    else if code == 101 { AqErrKind::OutOfMemory }
    else if code == 102 { AqErrKind::UndefinedReadingSymbol }
    else if code == 103 { AqErrKind::NegativeProsodyLength }
    else if code == 104 { AqErrKind::UndefinedDelimiter }
    else if code == 105 { AqErrKind::UndefinedReadingSymbol }
    else if code == 106 { AqErrKind::InvalidTag }
    else if code == 107 { AqErrKind::TagTooLong }
    else if code == 108 { AqErrKind::InvalidTagValue }
    else if code == 109 { AqErrKind::WavePlaybackFailed }
    else if code == 110 { AqErrKind::WavePlaybackAsyncFailed }
    else if code == 111 { AqErrKind::NothingToSpeak }
    else if code == 200 { AqErrKind::NotationTooLong }
    else if code == 201 { AqErrKind::TooManyReadingSymbols }
    else if code == 202 { AqErrKind::InternalBufferOverflow }
    else if code == 203 { AqErrKind::HeapShortage }
    else if code == 204 { AqErrKind::InternalBufferOverflow }
    else { AqErrKind::Unrecognized }
}

/// The message of each synthesis category.
pub open spec fn synthesis_message(k: AqErrKind) -> Seq<char> {
    match k {
        AqErrKind::OtherError => "other error"@,
        AqErrKind::OutOfMemory => "out of memory"@,
        AqErrKind::UndefinedReadingSymbol => "undefined reading symbol in phonetic notation"@,
        AqErrKind::NegativeProsodyLength => "prosody data has a negative duration"@,
        AqErrKind::UndefinedDelimiter => "internal error: undefined delimiter code"@,
        AqErrKind::InvalidTag => "invalid tag in phonetic notation"@,
        AqErrKind::TagTooLong => "tag too long or closing bracket missing"@,
        AqErrKind::InvalidTagValue => "invalid value inside a tag"@,
        AqErrKind::WavePlaybackFailed => "wave playback failed (sound driver problem)"@,
        AqErrKind::WavePlaybackAsyncFailed => "asynchronous wave playback failed (sound driver problem)"@,
        AqErrKind::NothingToSpeak => "no data to speak"@,
        AqErrKind::NotationTooLong => "phonetic notation too long"@,
        AqErrKind::TooManyReadingSymbols => "too many reading symbols in one phrase"@,
        AqErrKind::InternalBufferOverflow => "phonetic notation too long (internal buffer overflow)"@,
        AqErrKind::HeapShortage => "heap memory shortage"@,
        AqErrKind::Unrecognized => "unrecognized error"@,
    }
}

impl AqErr {
    /// Translate this code against the synthesis table.
    pub fn kind(&self) -> (k: AqErrKind)
        ensures
            k == synthesis_kind(self.0 as int),
    {
        if self.0 == 100 { AqErrKind::OtherError }
        else if self.0 == 101 { AqErrKind::OutOfMemory }
        else if self.0 == 102 { AqErrKind::UndefinedReadingSymbol }
        else if self.0 == 103 { AqErrKind::NegativeProsodyLength }
        else if self.0 == 104 { AqErrKind::UndefinedDelimiter }
        else if self.0 == 105 { AqErrKind::UndefinedReadingSymbol }
        else if self.0 == 106 { AqErrKind::InvalidTag }
        else if self.0 == 107 { AqErrKind::TagTooLong }
        else if self.0 == 108 { AqErrKind::InvalidTagValue }
        else if self.0 == 109 { AqErrKind::WavePlaybackFailed }
        else if self.0 == 110 { AqErrKind::WavePlaybackAsyncFailed }
        else if self.0 == 111 { AqErrKind::NothingToSpeak }
        else if self.0 == 200 { AqErrKind::NotationTooLong }
        else if self.0 == 201 { AqErrKind::TooManyReadingSymbols }
        else if self.0 == 202 { AqErrKind::InternalBufferOverflow }
        else if self.0 == 203 { AqErrKind::HeapShortage }
        else if self.0 == 204 { AqErrKind::InternalBufferOverflow }
        else { AqErrKind::Unrecognized }
    }

    /// The message of this code's category.
    pub fn msg(&self) -> (r: &'static str)
        ensures
            r@ == synthesis_message(synthesis_kind(self.0 as int)),
    {
        match self.kind() {
            AqErrKind::OtherError => "other error",
            AqErrKind::OutOfMemory => "out of memory",
            AqErrKind::UndefinedReadingSymbol => "undefined reading symbol in phonetic notation",
            AqErrKind::NegativeProsodyLength => "prosody data has a negative duration",
            AqErrKind::UndefinedDelimiter => "internal error: undefined delimiter code",
            AqErrKind::InvalidTag => "invalid tag in phonetic notation",
            AqErrKind::TagTooLong => "tag too long or closing bracket missing",
            AqErrKind::InvalidTagValue => "invalid value inside a tag",
            AqErrKind::WavePlaybackFailed => "wave playback failed (sound driver problem)",
            AqErrKind::WavePlaybackAsyncFailed => "asynchronous wave playback failed (sound driver problem)",
            AqErrKind::NothingToSpeak => "no data to speak",
            AqErrKind::NotationTooLong => "phonetic notation too long",
            AqErrKind::TooManyReadingSymbols => "too many reading symbols in one phrase",
            AqErrKind::InternalBufferOverflow => "phonetic notation too long (internal buffer overflow)",
            AqErrKind::HeapShortage => "heap memory shortage",
            AqErrKind::Unrecognized => "unrecognized error",
        }
    }
}

/// A raw error code from the kanji-to-phonetic conversion engine.
#[derive(Clone, Copy, PartialEq, Eq, Structural, Debug)]
pub struct AqK2Kerr(pub i32);

/// The category a conversion error code translates to.
#[derive(Clone, Copy, PartialEq, Eq, Structural, Debug)]
pub enum AqK2KerrKind {
    OtherError,
    NullArgument,
    NotInitialized,
    InputTooLong,
    NoSystemDictionary,
    UnconvertibleCharacter,
    InvalidSystemDictionary,
    InvalidUserDictionary,
    Unrecognized,
}

/// The translation table of the conversion domain: exact matches on
/// {100, 101, 104, 105, 106, 107}, then the ranges 200..=299 and 300..=399,
/// everything else unrecognized.
pub open spec fn conversion_kind(code: int) -> AqK2KerrKind {
    if code == 100 { AqK2KerrKind::OtherError }
    else if code == 101 { AqK2KerrKind::NullArgument }
    else if code == 104 { AqK2KerrKind::NotInitialized }
    else if code == 105 { AqK2KerrKind::InputTooLong }
    else if code == 106 { AqK2KerrKind::NoSystemDictionary }
    else if code == 107 { AqK2KerrKind::UnconvertibleCharacter }
    else if 200 <= code <= 299 { AqK2KerrKind::InvalidSystemDictionary }
    else if 300 <= code <= 399 { AqK2KerrKind::InvalidUserDictionary }
    else { AqK2KerrKind::Unrecognized }
}

/// The message of each conversion category.
pub open spec fn conversion_message(k: AqK2KerrKind) -> Seq<char> {
    match k {
        AqK2KerrKind::OtherError => "other error"@,
        AqK2KerrKind::NullArgument => "null argument in call"@,
        AqK2KerrKind::NotInitialized => "not initialized (initialization routine not called)"@,
        AqK2KerrKind::InputTooLong => "input text too long"@,
        AqK2KerrKind::NoSystemDictionary => "system dictionary not specified"@,
        AqK2KerrKind::UnconvertibleCharacter => "input contains an unconvertible character code"@,
        AqK2KerrKind::InvalidSystemDictionary => "invalid system dictionary"@,
        AqK2KerrKind::InvalidUserDictionary => "invalid user dictionary"@,
        AqK2KerrKind::Unrecognized => "unrecognized error"@,
    }
}

impl AqK2Kerr {
    /// Translate this code against the conversion table.
    pub fn kind(&self) -> (k: AqK2KerrKind)
        ensures
            k == conversion_kind(self.0 as int),
    {
        if self.0 == 100 { AqK2KerrKind::OtherError }
        else if self.0 == 101 { AqK2KerrKind::NullArgument }
        else if self.0 == 104 { AqK2KerrKind::NotInitialized }
        else if self.0 == 105 { AqK2KerrKind::InputTooLong }
        else if self.0 == 106 { AqK2KerrKind::NoSystemDictionary }
        else if self.0 == 107 { AqK2KerrKind::UnconvertibleCharacter }
        else if 200 <= self.0 && self.0 <= 299 { AqK2KerrKind::InvalidSystemDictionary }
        else if 300 <= self.0 && self.0 <= 399 { AqK2KerrKind::InvalidUserDictionary }
        else { AqK2KerrKind::Unrecognized }
    }

    /// The message of this code's category.
    pub fn msg(&self) -> (r: &'static str)
        ensures
            r@ == conversion_message(conversion_kind(self.0 as int)),
    {
        match self.kind() {
            AqK2KerrKind::OtherError => "other error",
            AqK2KerrKind::NullArgument => "null argument in call",
            AqK2KerrKind::NotInitialized => "not initialized (initialization routine not called)",
            AqK2KerrKind::InputTooLong => "input text too long",
            AqK2KerrKind::NoSystemDictionary => "system dictionary not specified",
            AqK2KerrKind::UnconvertibleCharacter => "input contains an unconvertible character code",
            AqK2KerrKind::InvalidSystemDictionary => "invalid system dictionary",
            AqK2KerrKind::InvalidUserDictionary => "invalid user dictionary",
            AqK2KerrKind::Unrecognized => "unrecognized error",
        }
    }
}

impl BindingError {
    /// A short message for every failure of the layer; native failures
    /// carry their translated category's message.
    pub fn msg(&self) -> (r: &'static str)
        ensures
            self is LoadFailure ==> r@ == "native library could not be loaded"@,
            self is SymbolNotFound ==> r@ == "entry point not found in native library"@,
            self is EncodingError ==> r@ == "text contains an embedded null byte"@,
            self is BufferTooLarge ==> r@ == "requested buffer capacity too large for native call"@,
            self matches BindingError::Synthesis(e) ==>
                r@ == synthesis_message(synthesis_kind(e.0 as int)),
            self matches BindingError::Conversion(e) ==>
                r@ == conversion_message(conversion_kind(e.0 as int)),
    {
        match self {
            BindingError::LoadFailure => "native library could not be loaded",
            BindingError::SymbolNotFound => "entry point not found in native library",
            BindingError::EncodingError => "text contains an embedded null byte",
            BindingError::BufferTooLarge => "requested buffer capacity too large for native call",
            BindingError::Synthesis(e) => e.msg(),
            BindingError::Conversion(e) => e.msg(),
        }
    }
}

} // verus!
