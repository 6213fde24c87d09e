use vstd::prelude::*;

verus! {

/// Extended style bit that gives a window a taskbar button and a place in the
/// task-switcher rotation.  Cleared when the window is embedded.
pub const APP_WINDOW_BIT: u32 = 0x0004_0000;

/// Extended style bit that marks a window as a tool window, keeping it out of
/// the taskbar and the task-switcher rotation.  Set when the window is
/// embedded.
pub const TOOL_WINDOW_BIT: u32 = 0x0000_0080;

/// The extended style an embedded window must carry: the app-window bit
/// cleared, the tool-window bit set, every other bit as it was.
pub open spec fn spec_embedded_style(old_style: u32) -> u32 {
    (old_style & !APP_WINDOW_BIT) | TOOL_WINDOW_BIT
}

/// Computes the restyled extended style bits for an embedded window.
///
/// The caller reads the window's current extended style, passes it through
/// here, and writes the result back; the style is mutated once and never read
/// back by this crate.
pub fn embedded_style(old_style: u32) -> (new_style: u32)
    ensures
        new_style == spec_embedded_style(old_style),
{
    (old_style & !APP_WINDOW_BIT) | TOOL_WINDOW_BIT
}

/// Restyling flips exactly the two presentation bits: the app-window bit ends
/// up clear, the tool-window bit ends up set, and the bits outside those two
/// masks are carried over unchanged.
pub proof fn lemma_embedded_style_flips_two_bits(old_style: u32)
    ensures
        spec_embedded_style(old_style) & APP_WINDOW_BIT == 0,
        spec_embedded_style(old_style) & TOOL_WINDOW_BIT == TOOL_WINDOW_BIT,
        spec_embedded_style(old_style) & !(APP_WINDOW_BIT | TOOL_WINDOW_BIT) == old_style & !(
        APP_WINDOW_BIT | TOOL_WINDOW_BIT),
{
    assert(((old_style & !0x0004_0000u32) | 0x0000_0080u32) & 0x0004_0000u32 == 0) by (bit_vector);
    assert(((old_style & !0x0004_0000u32) | 0x0000_0080u32) & 0x0000_0080u32 == 0x0000_0080u32)
        by (bit_vector);
    assert(((old_style & !0x0004_0000u32) | 0x0000_0080u32) & !(0x0004_0000u32 | 0x0000_0080u32)
        == old_style & !(0x0004_0000u32 | 0x0000_0080u32)) by (bit_vector);
}

/// The per-bit reading of the same fact: any single style bit that is neither
/// the app-window bit nor the tool-window bit keeps its old value.
pub proof fn lemma_embedded_style_preserves_other_bit(old_style: u32, i: u32)
    requires
        i < 32,
        (1u32 << i) & (APP_WINDOW_BIT | TOOL_WINDOW_BIT) == 0,
    ensures
        spec_embedded_style(old_style) & (1u32 << i) == old_style & (1u32 << i),
{
    assert(((old_style & !0x0004_0000u32) | 0x0000_0080u32) & (1u32 << i) == old_style & (1u32
        << i)) by (bit_vector)
        requires
            i < 32,
            (1u32 << i) & (0x0004_0000u32 | 0x0000_0080u32) == 0,
    ;
}

} // verus!
