use aquestalk_rs::errors::AqErr;
use aquestalk_rs::errors::AqErrKind;
use aquestalk_rs::errors::AqK2Kerr;
use aquestalk_rs::errors::AqK2KerrKind;
use aquestalk_rs::errors::BindingError;

#[test]
fn synthesis_exact_codes() {
    let expected = [
        (100, AqErrKind::OtherError),
        (101, AqErrKind::OutOfMemory),
        (102, AqErrKind::UndefinedReadingSymbol),
        (103, AqErrKind::NegativeProsodyLength),
        (104, AqErrKind::UndefinedDelimiter),
        (105, AqErrKind::UndefinedReadingSymbol),
        (106, AqErrKind::InvalidTag),
        (107, AqErrKind::TagTooLong),
        (108, AqErrKind::InvalidTagValue),
        (109, AqErrKind::WavePlaybackFailed),
        (110, AqErrKind::WavePlaybackAsyncFailed),
        (111, AqErrKind::NothingToSpeak),
        (200, AqErrKind::NotationTooLong),
        (201, AqErrKind::TooManyReadingSymbols),
        (202, AqErrKind::InternalBufferOverflow),
        (203, AqErrKind::HeapShortage),
        (204, AqErrKind::InternalBufferOverflow),
    ];
    for (code, kind) in expected {
        assert_eq!(AqErr(code).kind(), kind);
    }
}

#[test]
fn synthesis_codes_sharing_a_category() {
    assert_eq!(AqErr(102).kind(), AqErr(105).kind());
    assert_eq!(AqErr(102).msg(), AqErr(105).msg());
    assert_eq!(AqErr(202).kind(), AqErr(204).kind());
    assert_eq!(AqErr(202).msg(), AqErr(204).msg());
}

#[test]
fn synthesis_unrecognized_codes() {
    for code in [0, 1, -1, 99, 112, 150, 199, 205, 300, i32::MIN, i32::MAX] {
        assert_eq!(AqErr(code).kind(), AqErrKind::Unrecognized);
        assert_eq!(AqErr(code).msg(), "unrecognized error");
    }
}

#[test]
fn synthesis_messages() {
    assert_eq!(AqErr(101).msg(), "out of memory");
    assert_eq!(AqErr(111).msg(), "no data to speak");
    assert_eq!(AqErr(200).msg(), "phonetic notation too long");
    assert_eq!(AqErr(203).msg(), "heap memory shortage");
}

#[test]
fn conversion_exact_codes() {
    let expected = [
        (100, AqK2KerrKind::OtherError),
        (101, AqK2KerrKind::NullArgument),
        (104, AqK2KerrKind::NotInitialized),
        (105, AqK2KerrKind::InputTooLong),
        (106, AqK2KerrKind::NoSystemDictionary),
        (107, AqK2KerrKind::UnconvertibleCharacter),
    ];
    for (code, kind) in expected {
        assert_eq!(AqK2Kerr(code).kind(), kind);
    }
}

#[test]
fn conversion_system_dictionary_range() {
    for code in [200, 201, 250, 298, 299] {
        assert_eq!(AqK2Kerr(code).kind(), AqK2KerrKind::InvalidSystemDictionary);
        assert_eq!(AqK2Kerr(code).msg(), "invalid system dictionary");
    }
}

#[test]
fn conversion_user_dictionary_range() {
    for code in [300, 301, 350, 398, 399] {
        assert_eq!(AqK2Kerr(code).kind(), AqK2KerrKind::InvalidUserDictionary);
        assert_eq!(AqK2Kerr(code).msg(), "invalid user dictionary");
    }
}

#[test]
fn conversion_unrecognized_codes() {
    for code in [0, 1, -1, 99, 102, 103, 108, 150, 199, 400, 1000, i32::MIN, i32::MAX] {
        assert_eq!(AqK2Kerr(code).kind(), AqK2KerrKind::Unrecognized);
        assert_eq!(AqK2Kerr(code).msg(), "unrecognized error");
    }
}

#[test]
fn binding_error_messages() {
    assert_eq!(BindingError::LoadFailure.msg(), "native library could not be loaded");
    assert_eq!(BindingError::SymbolNotFound.msg(), "entry point not found in native library");
    assert_eq!(BindingError::EncodingError.msg(), "text contains an embedded null byte");
    assert_eq!(
        BindingError::BufferTooLarge.msg(),
        "requested buffer capacity too large for native call"
    );
    assert_eq!(BindingError::Synthesis(AqErr(101)).msg(), "out of memory");
    assert_eq!(BindingError::Conversion(AqK2Kerr(305)).msg(), "invalid user dictionary");
}
