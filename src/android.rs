//! The Android probe.
use vstd::prelude::*;

use crate::info::{info_of_type, Info};
use crate::os_type::Type;

verus! {

/// Identifies Android; nothing more is known of it.
pub fn current_platform() -> (r: Info)
    ensures
        r@ == info_of_type(Type::Android),
{
    Info::with_type(Type::Android)
}

} // verus!
