//! A safety-hardening layer around two runtime-loaded native speech
//! libraries: a text-to-speech synthesis engine and a kanji-to-phonetic
//! converter.
//!
//! The native calls themselves are made by an unverified shell around this
//! crate; everything that can be stated as plain data lives here: the error
//! translator for the two native error domains, the marshalling of text into
//! null-terminated native strings, the output-buffer capacity rule, the
//! platform-conditional choice of entry-point names, and a model of the
//! shared-binding reference count and the exactly-once release of every
//! native resource.

pub mod aqkanji2koe;
pub mod aquestalk1;
pub mod binding;
pub mod errors;
pub mod marshal;
pub mod platform;

pub use aqkanji2koe::AqK2Kinstance;
pub use aqkanji2koe::AqK2Kstr;
pub use aquestalk1::AqWAV;
pub use binding::Binding;
pub use errors::AqErr;
pub use errors::AqErrKind;
pub use errors::AqK2Kerr;
pub use errors::AqK2KerrKind;
pub use errors::BindingError;
pub use platform::Platform;
pub use platform::platform_win;
