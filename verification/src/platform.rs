//! Platform-conditional configuration for the conversion engine.
//!
//! The native kanji-to-phonetic library exports its UTF-8 conversion routine
//! under one name on Windows and under another everywhere else. The choice is
//! made once, from a platform value the caller determines at build time, never
//! by probing both names at run time.

use vstd::prelude::*;

verus! {

/// The target platform family, as far as the binding layer cares about it.
#[derive(Clone, Copy, PartialEq, Eq, Structural, Debug)]
pub enum Platform {
    Windows,
    Other,
}

/// True exactly on the Windows platform family.
pub fn platform_win(p: Platform) -> (b: bool)
    ensures
        b <==> p is Windows,
{
    match p {
        Platform::Windows => true,
        Platform::Other => false,
    }
}

/// The export name of the UTF-8 conversion entry point for platform `p`:
/// one literal name on Windows, a different literal name elsewhere.
pub fn convert_entry_name(p: Platform) -> (r: &'static str)
    ensures
        p is Windows ==> r@ == "AqKanji2Koe_Convert_utf8"@,
        p !is Windows ==> r@ == "AqKanji2Koe_Convert"@,
{
    match p {
        Platform::Windows => "AqKanji2Koe_Convert_utf8",
        Platform::Other => "AqKanji2Koe_Convert",
    }
}

/// The export name of the synthesis entry point; the same on every platform.
pub fn synthe_entry_name() -> (r: &'static str)
    ensures
        r@ == "AquesTalk_Synthe_Utf8"@,
{
    "AquesTalk_Synthe_Utf8"
}

/// The export name of the synthesis engine's buffer free routine.
pub fn freewav_entry_name() -> (r: &'static str)
    ensures
        r@ == "AquesTalk_FreeWave"@,
{
    "AquesTalk_FreeWave"
}

/// The export name of the conversion engine's create-from-directory routine.
pub fn create_entry_name() -> (r: &'static str)
    ensures
        r@ == "AqKanji2Koe_Create"@,
{
    "AqKanji2Koe_Create"
}

/// The export name of the conversion engine's create-from-memory routine.
pub fn create_ptr_entry_name() -> (r: &'static str)
    ensures
        r@ == "AqKanji2Koe_Create_Ptr"@,
{
    "AqKanji2Koe_Create_Ptr"
}

/// The export name of the conversion engine's instance release routine.
pub fn release_entry_name() -> (r: &'static str)
    ensures
        r@ == "AqKanji2Koe_Release"@,
{
    "AqKanji2Koe_Release"
}

/// The export name of the conversion engine's license unlock routine.
pub fn setdevkey_entry_name() -> (r: &'static str)
    ensures
        r@ == "AqKanji2Koe_SetDevKey"@,
{
    "AqKanji2Koe_SetDevKey"
}

} // verus!
