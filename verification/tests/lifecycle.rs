use aquestalk_rs::aqkanji2koe::AqK2Kinstance;
use aquestalk_rs::aquestalk1::AqWAV;
use aquestalk_rs::binding::Binding;
use aquestalk_rs::errors::AqErr;
use aquestalk_rs::errors::AqK2Kerr;
use aquestalk_rs::errors::BindingError;
use aquestalk_rs::marshal::convert_capacity;
use aquestalk_rs::marshal::encode_z;
use aquestalk_rs::platform::convert_entry_name;
use aquestalk_rs::platform::platform_win;
use aquestalk_rs::platform::Platform;

#[test]
fn synthesis_success_freed_exactly_once() {
    let mut binding = Binding::new();
    assert_eq!(binding.holders, 1);
    let mut wav = AqWAV::from_synthe(&mut binding, false, 4000).unwrap();
    assert_eq!(wav.len, 4000);
    assert!(!wav.released);
    assert_eq!(wav.free_calls, 0);
    assert_eq!(binding.holders, 2);
    let unload_now = wav.release(&mut binding);
    assert!(!unload_now);
    assert!(wav.released);
    assert_eq!(wav.free_calls, 1);
    assert_eq!(binding.holders, 1);
    assert!(!binding.unloaded);
    let unload_last = binding.release();
    assert!(unload_last);
    assert!(binding.unloaded);
    assert_eq!(binding.unload_calls, 1);
}

#[test]
fn synthesis_null_result_is_translated() {
    let mut binding = Binding::new();
    let r = AqWAV::from_synthe(&mut binding, true, 105);
    assert_eq!(r.unwrap_err(), BindingError::Synthesis(AqErr(105)));
    // A failed call leaves no extra holder behind.
    assert_eq!(binding.holders, 1);
    assert!(binding.release());
}

#[test]
fn synthesis_nonpositive_length_is_refused() {
    let mut binding = Binding::new();
    let r = AqWAV::from_synthe(&mut binding, false, 0);
    assert_eq!(r.unwrap_err(), BindingError::Synthesis(AqErr(0)));
    assert_eq!(binding.holders, 1);
}

#[test]
fn loader_drop_keeps_library_mapped_while_buffer_lives() {
    let mut binding = Binding::new();
    let mut wav = AqWAV::from_synthe(&mut binding, false, 16).unwrap();
    // The original loader object goes away first: the library must stay.
    let unload_on_loader_drop = binding.release();
    assert!(!unload_on_loader_drop);
    assert!(!binding.unloaded);
    // Only the last holder (the buffer) unmaps it.
    let unload_on_buffer_drop = wav.release(&mut binding);
    assert!(unload_on_buffer_drop);
    assert!(binding.unloaded);
    assert_eq!(binding.unload_calls, 1);
}

#[test]
fn create_failure_and_success() {
    let mut binding = Binding::new();
    let failed = AqK2Kinstance::from_create(&mut binding, true, 106);
    assert_eq!(failed.unwrap_err(), BindingError::Conversion(AqK2Kerr(106)));
    assert_eq!(binding.holders, 1);
    let mut ins = AqK2Kinstance::from_create(&mut binding, false, 0).unwrap();
    assert!(!ins.released);
    assert_eq!(binding.holders, 2);
    let unload_now = ins.release(&mut binding);
    assert!(!unload_now);
    assert!(ins.released);
    assert_eq!(ins.release_calls, 1);
    assert_eq!(binding.holders, 1);
}

#[test]
fn convert_success_takes_text_up_to_terminator() {
    let mut binding = Binding::new();
    let ins = AqK2Kinstance::from_create(&mut binding, false, 0).unwrap();
    let mut buffer = b"yukkuri".to_vec();
    buffer.push(0);
    buffer.extend_from_slice(&[0x55; 8]);
    let out = ins.convert_outcome(0, buffer).unwrap();
    assert_eq!(out.as_bytes(), &b"yukkuri".to_vec());
    assert_eq!(out.len(), 7);
    assert!(!out.is_empty());
}

#[test]
fn convert_failure_is_translated_and_consumes_buffer() {
    let mut binding = Binding::new();
    let ins = AqK2Kinstance::from_create(&mut binding, false, 0).unwrap();
    let buffer = vec![0u8; 256];
    // The buffer is moved into the call; on the failure path it is dropped
    // there, back to the process allocator.
    let out = ins.convert_outcome(105, buffer);
    assert_eq!(out.unwrap_err(), BindingError::Conversion(AqK2Kerr(105)));
}

#[test]
fn convert_rejects_invalid_utf8_result() {
    let mut binding = Binding::new();
    let ins = AqK2Kinstance::from_create(&mut binding, false, 0).unwrap();
    // A terminated result that is not valid UTF-8 is never wrapped as text.
    let buffer = vec![0xFF, 0x00, 0x41, 0x41];
    let out = ins.convert_outcome(0, buffer);
    assert_eq!(out.unwrap_err(), BindingError::EncodingError);
    // An overlong encoding before the terminator is refused too.
    let overlong = vec![0xC0, 0xAF, 0x00];
    let out2 = ins.convert_outcome(0, overlong);
    assert_eq!(out2.unwrap_err(), BindingError::EncodingError);
}

#[test]
fn convert_accepts_multibyte_utf8_result() {
    let mut binding = Binding::new();
    let ins = AqK2Kinstance::from_create(&mut binding, false, 0).unwrap();
    let text = "ゆっくりしていってね";
    let mut buffer = text.as_bytes().to_vec();
    buffer.push(0);
    buffer.extend_from_slice(&[0x20; 16]);
    let out = ins.convert_outcome(0, buffer).unwrap();
    assert_eq!(out.as_bytes(), &text.as_bytes().to_vec());
    assert_eq!(std::str::from_utf8(out.as_bytes()).unwrap(), text);
}

#[test]
fn convert_without_terminator_is_refused() {
    let mut binding = Binding::new();
    let ins = AqK2Kinstance::from_create(&mut binding, false, 0).unwrap();
    let buffer = vec![0x41u8; 32];
    let out = ins.convert_outcome(0, buffer);
    assert_eq!(out.unwrap_err(), BindingError::EncodingError);
}

#[test]
fn conversion_round_trip_scenario() {
    // Create an instance, convert with no explicit buffer size, get a zero
    // error code: the result is non-empty and null-terminated, and the
    // capacity was at least twice the input length plus one and at least 256.
    let input = "ゆっくりしていってね";
    let mut binding = Binding::new();
    let ins = AqK2Kinstance::from_create(&mut binding, false, 0).unwrap();
    let capacity = convert_capacity(input.len(), None);
    assert!(capacity >= 2 * (input.len() + 1));
    assert!(capacity >= 256);
    let marshalled = encode_z(&input.as_bytes().to_vec()).unwrap();
    assert_eq!(marshalled.last(), Some(&0u8));
    // The native engine writes the phonetic notation, null-terminated, into
    // the buffer this layer allocated.
    let mut buffer = vec![0u8; capacity];
    let notation = "yukkuri_shiteitte'ne".as_bytes();
    buffer[..notation.len()].copy_from_slice(notation);
    let out = ins.convert_outcome(0, buffer).unwrap();
    assert!(!out.is_empty());
    assert_eq!(out.as_bytes(), &notation.to_vec());
}

#[test]
fn release_with_additional_outstanding_holders() {
    // Loader plus two instances share one binding: each release runs its
    // native routine exactly once and the library stays mapped until the
    // very last holder is gone.
    let mut binding = Binding::new();
    let mut first = AqK2Kinstance::from_create(&mut binding, false, 0).unwrap();
    let mut second = AqK2Kinstance::from_create(&mut binding, false, 0).unwrap();
    assert_eq!(binding.holders, 3);
    assert!(!first.release(&mut binding));
    assert_eq!(first.release_calls, 1);
    assert!(!binding.unloaded);
    // The loader object goes away next; the second instance still lives.
    assert!(!binding.release());
    assert!(!binding.unloaded);
    assert!(second.release(&mut binding));
    assert_eq!(second.release_calls, 1);
    assert!(binding.unloaded);
    assert_eq!(binding.unload_calls, 1);
}

#[test]
fn platform_table() {
    assert!(platform_win(Platform::Windows));
    assert!(!platform_win(Platform::Other));
    assert_eq!(convert_entry_name(Platform::Windows), "AqKanji2Koe_Convert_utf8");
    assert_eq!(convert_entry_name(Platform::Other), "AqKanji2Koe_Convert");
}

#[test]
fn entry_name_table() {
    assert_eq!(aquestalk_rs::platform::synthe_entry_name(), "AquesTalk_Synthe_Utf8");
    assert_eq!(aquestalk_rs::platform::freewav_entry_name(), "AquesTalk_FreeWave");
    assert_eq!(aquestalk_rs::platform::create_entry_name(), "AqKanji2Koe_Create");
    assert_eq!(aquestalk_rs::platform::create_ptr_entry_name(), "AqKanji2Koe_Create_Ptr");
    assert_eq!(aquestalk_rs::platform::release_entry_name(), "AqKanji2Koe_Release");
    assert_eq!(aquestalk_rs::platform::setdevkey_entry_name(), "AqKanji2Koe_SetDevKey");
}
