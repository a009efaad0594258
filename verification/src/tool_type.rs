use vstd::prelude::*;

verus! {

/// Available tool types for a tablet tool.
///
/// The tool type describes the default usage of the tool as advertised by the
/// manufacturer; several physical tools may share one type. The native layer
/// reports the type as an integer code, decoded by [`translate`].
#[derive(Debug, Clone, Copy, PartialEq, Eq, Hash, Structural)]
pub enum TabletToolType {
    /// A generic pen.
    Pen,
    /// An eraser.
    Eraser,
    /// A paintbrush-like tool.
    Brush,
    /// A physical drawing tool such as an inking pen.
    Pencil,
    /// An airbrush-like tool.
    Airbrush,
    /// A mouse bound to the tablet.
    Mouse,
    /// A mouse tool with a lens.
    Lens,
    /// A rotary device with positional and rotation data.
    Totem,
}

/// Native code for the pen tool type.
pub const TOOL_TYPE_PEN: u32 = 1;
/// Native code for the eraser tool type.
pub const TOOL_TYPE_ERASER: u32 = 2;
/// Native code for the brush tool type.
pub const TOOL_TYPE_BRUSH: u32 = 3;
/// Native code for the pencil tool type.
pub const TOOL_TYPE_PENCIL: u32 = 4;
/// Native code for the airbrush tool type.
pub const TOOL_TYPE_AIRBRUSH: u32 = 5;
/// Native code for the mouse tool type.
pub const TOOL_TYPE_MOUSE: u32 = 6;
/// Native code for the lens tool type.
pub const TOOL_TYPE_LENS: u32 = 7;
/// Native code for the totem tool type.
pub const TOOL_TYPE_TOTEM: u32 = 8;

/// The codes the translator recognizes.
pub open spec fn known_code(code: u32) -> bool {
    ||| code == TOOL_TYPE_PEN
    ||| code == TOOL_TYPE_ERASER
    ||| code == TOOL_TYPE_BRUSH
    ||| code == TOOL_TYPE_PENCIL
    ||| code == TOOL_TYPE_AIRBRUSH
    ||| code == TOOL_TYPE_MOUSE
    ||| code == TOOL_TYPE_LENS
    ||| code == TOOL_TYPE_TOTEM
}

/// The variant a native code stands for, or `None` outside the known set.
pub open spec fn spec_translate(code: u32) -> Option<TabletToolType> {
    if code == TOOL_TYPE_PEN {
        Some(TabletToolType::Pen)
    } else if code == TOOL_TYPE_ERASER {
        Some(TabletToolType::Eraser)
    } else if code == TOOL_TYPE_BRUSH {
        Some(TabletToolType::Brush)
    } else if code == TOOL_TYPE_PENCIL {
        Some(TabletToolType::Pencil)
    } else if code == TOOL_TYPE_AIRBRUSH {
        Some(TabletToolType::Airbrush)
    } else if code == TOOL_TYPE_MOUSE {
        Some(TabletToolType::Mouse)
    } else if code == TOOL_TYPE_LENS {
        Some(TabletToolType::Lens)
    } else if code == TOOL_TYPE_TOTEM {
        Some(TabletToolType::Totem)
    } else {
        None
    }
}

/// The one native code a variant corresponds to.
pub open spec fn spec_code_of(t: TabletToolType) -> u32 {
    match t {
        TabletToolType::Pen => TOOL_TYPE_PEN,
        TabletToolType::Eraser => TOOL_TYPE_ERASER,
        TabletToolType::Brush => TOOL_TYPE_BRUSH,
        TabletToolType::Pencil => TOOL_TYPE_PENCIL,
        TabletToolType::Airbrush => TOOL_TYPE_AIRBRUSH,
        TabletToolType::Mouse => TOOL_TYPE_MOUSE,
        TabletToolType::Lens => TOOL_TYPE_LENS,
        TabletToolType::Totem => TOOL_TYPE_TOTEM,
    }
}

/// Maps a native tool-type code to its variant.
///
/// Every known code yields its one corresponding variant; any other code —
/// including codes a newer native layer may introduce — yields `None`, never
/// a failure.
pub fn translate(code: u32) -> (r: Option<TabletToolType>)
    ensures
        r == spec_translate(code),
{
    if code == TOOL_TYPE_PEN {
        Some(TabletToolType::Pen)
    } else if code == TOOL_TYPE_ERASER {
        Some(TabletToolType::Eraser)
    } else if code == TOOL_TYPE_BRUSH {
        Some(TabletToolType::Brush)
    } else if code == TOOL_TYPE_PENCIL {
        Some(TabletToolType::Pencil)
    } else if code == TOOL_TYPE_AIRBRUSH {
        Some(TabletToolType::Airbrush)
    } else if code == TOOL_TYPE_MOUSE {
        Some(TabletToolType::Mouse)
    } else if code == TOOL_TYPE_LENS {
        Some(TabletToolType::Lens)
    } else if code == TOOL_TYPE_TOTEM {
        Some(TabletToolType::Totem)
    } else {
        None
    }
}

/// Translation is total: a code yields a variant exactly when it lies in the
/// known set; every code outside it yields `None`.
pub proof fn lemma_translate_total(code: u32)
    ensures
        known_code(code) <==> spec_translate(code) is Some,
        !known_code(code) ==> spec_translate(code) is None,
{
}

/// Each variant corresponds to exactly one native code: decoding a variant's
/// own code returns that variant, and any code that decodes to a variant is
/// that variant's code.
pub proof fn lemma_code_round_trip(t: TabletToolType, code: u32)
    ensures
        spec_translate(spec_code_of(t)) == Some(t),
        spec_translate(code) == Some(t) ==> code == spec_code_of(t),
{
}

} // verus!
