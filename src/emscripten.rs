//! The Emscripten probe.
use vstd::prelude::*;

use crate::info::{info_of_type, Info};
use crate::os_type::Type;

verus! {

/// Identifies Emscripten; nothing more is known of it.
pub fn current_platform() -> (r: Info)
    ensures
        r@ == info_of_type(Type::Emscripten),
{
    Info::with_type(Type::Emscripten)
}

} // verus!
