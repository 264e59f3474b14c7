//! Translation of a frame's address from the address space of the running
//! process, where the system had moved the image by a random slide, to the
//! addresses that the image's file uses.

use vstd::prelude::*;

verus! {

/// The inputs for which a translated address exists: the static base and the
/// offset whose sum fits in 64 bits. Where the image was loaded plays no
/// part.
pub open spec fn translatable(static_base: u64, offset: u64) -> bool {
    static_base + offset <= u64::MAX
}

/// How far the system moved the image: the distance from the base that the
/// file names to the base the image was loaded at, counted in 64 bits. For an
/// image that was loaded below the file's base it is the distance that wraps
/// around.
pub open spec fn slide_of(runtime_base: u64, static_base: u64) -> u64 {
    if static_base <= runtime_base {
        (runtime_base - static_base) as u64
    } else {
        (runtime_base - static_base + 0x1_0000_0000_0000_0000) as u64
    }
}

/// The runtime base with the slide taken off, counted in 64 bits.
pub open spec fn unslid_base(runtime_base: u64, slide: u64) -> u64 {
    if slide <= runtime_base {
        (runtime_base - slide) as u64
    } else {
        (runtime_base - slide + 0x1_0000_0000_0000_0000) as u64
    }
}

/// Taking the slide off the runtime base gives the static base, wherever the
/// image was loaded: the translation does not depend on the runtime base.
pub proof fn lemma_slide_taken_off(runtime_base: u64, static_base: u64)
    ensures
        unslid_base(runtime_base, slide_of(runtime_base, static_base)) == static_base,
{
}

/// How far the system moved the image.
pub fn aslr_slide(runtime_base: u64, static_base: u64) -> (slide: u64)
    ensures
        slide == slide_of(runtime_base, static_base),
{
    runtime_base.wrapping_sub(static_base)
}

/// The address, in the file's own address space, of the code that ran at
/// `offset` from `runtime_base`: the runtime base with the slide taken off,
/// plus the offset. That is `static_base + offset`, whatever the runtime
/// base. `None` where that sum does not fit in 64 bits.
pub fn aslr_translate(runtime_base: u64, static_base: u64, offset: u64) -> (address: Option<u64>)
    ensures
        translatable(static_base, offset) ==> address == Some((static_base + offset) as u64),
        !translatable(static_base, offset) ==> address is None,
{
    let slide = aslr_slide(runtime_base, static_base);
    let unslid: u64 = runtime_base.wrapping_sub(slide);
    proof {
        lemma_slide_taken_off(runtime_base, static_base);
    }
    unslid.checked_add(offset)
}

} // verus!
