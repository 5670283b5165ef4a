//! Error-code arithmetic of the codec library: negative errno values
//! and four-character tags.

use vstd::prelude::*;

verus! {

/// The end-of-stream error code: the negated tag of `E`, `O`, `F`,
/// space.
pub const AVERROR_EOF: i32 = -541478725;

/// The timestamp value meaning "no timestamp".
pub const AV_NOPTS_VALUE: i64 = -9223372036854775808;

/// The `errno`-style would-block code of the platform.
pub const EAGAIN: u32 = 11;

/// A positive `errno` value as the codec library reports it: negated.
pub fn av_error(e: u32) -> (r: i32)
    requires
        e <= 0x7fffffff,
    ensures
        r == -(e as int),
{
    -(e as i32)
}

/// The value of a four-character tag: the first character in the low
/// byte, the fourth in the high byte.
pub open spec fn spec_mk_tag(a: char, b: char, c: char, d: char) -> int {
    a as int + 0x100 * (b as int) + 0x10000 * (c as int) + 0x1000000 * (d as int)
}

/// Packs four ASCII characters into one tag value.
pub fn mk_tag(a: char, b: char, c: char, d: char) -> (r: i32)
    requires
        (a as int) < 128,
        (b as int) < 128,
        (c as int) < 128,
        (d as int) < 128,
    ensures
        r == spec_mk_tag(a, b, c, d),
{
    (a as u32 + 0x100 * (b as u32) + 0x10000 * (c as u32) + 0x1000000 * (d as u32)) as i32
}

/// The error code carrying a four-character tag: the negated tag.
pub fn ff_err_tag(a: char, b: char, c: char, d: char) -> (r: i32)
    requires
        (a as int) < 128,
        (b as int) < 128,
        (c as int) < 128,
        (d as int) < 128,
    ensures
        r == -spec_mk_tag(a, b, c, d),
{
    let t = mk_tag(a, b, c, d);
    -t
}

} // verus!
