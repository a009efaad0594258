use vstd::prelude::*;
use crate::native::NativeLayer;
use crate::native::after_acquire;
use crate::native::after_release;
use crate::native::release_frees;
use crate::tool_type::TabletToolType;
use crate::tool_type::spec_translate;
use crate::tool_type::translate;

verus! {

/// The properties a native tool object reports, held as plain values: the
/// serial number and tool-model id (zero when the tool reports none), the
/// native tool-type code, the button codes the tool declares, and its
/// capability flags.
pub struct ToolInfo {
    /// Serial number; zero when the tool reports none.
    pub serial: u64,
    /// Tool-model id; zero when the tool does not support one.
    pub tool_id: u64,
    /// The native tool-type code.
    pub type_code: u32,
    /// The input codes of the buttons the tool declares.
    pub buttons: Vec<u32>,
    /// Whether the tool supports distance.
    pub has_distance: bool,
    /// Whether the tool supports pressure.
    pub has_pressure: bool,
    /// Whether the tool supports z-rotation.
    pub has_rotation: bool,
    /// Whether the tool has a slider axis.
    pub has_slider: bool,
    /// Whether the tool supports tilt.
    pub has_tilt: bool,
    /// Whether the tool has a relative wheel.
    pub has_wheel: bool,
    /// Whether the tool reports a contact ellipse.
    pub has_size: bool,
    /// Whether the physical tool can be uniquely identified.
    pub is_unique: bool,
}

/// What a wrapper looks like to a contract: the raw handle it holds a
/// reference to, and every property the wrapped tool reports.
#[verifier::ext_equal]
pub struct ToolView {
    /// The raw handle of the underlying object.
    pub handle: int,
    /// Serial number; zero when the tool reports none.
    pub serial: u64,
    /// Tool-model id; zero when the tool does not support one.
    pub tool_id: u64,
    /// The native tool-type code.
    pub type_code: u32,
    /// The input codes of the buttons the tool declares.
    pub buttons: Seq<u32>,
    /// Whether the tool supports distance.
    pub has_distance: bool,
    /// Whether the tool supports pressure.
    pub has_pressure: bool,
    /// Whether the tool supports z-rotation.
    pub has_rotation: bool,
    /// Whether the tool has a slider axis.
    pub has_slider: bool,
    /// Whether the tool supports tilt.
    pub has_tilt: bool,
    /// Whether the tool has a relative wheel.
    pub has_wheel: bool,
    /// Whether the tool reports a contact ellipse.
    pub has_size: bool,
    /// Whether the physical tool can be uniquely identified.
    pub is_unique: bool,
}

/// An object representing a tool in use on a tablet device.
///
/// A wrapper owns exactly one reference to its underlying native object:
/// construction takes over a reference that is already outstanding,
/// [`TabletTool::clone_ref`] acquires a further one for the new instance, and
/// [`TabletTool::release`] consumes the wrapper and gives its reference back.
/// The raw handle never leaves this module, and every accessor needs a
/// wrapper that has not been released, so a freed object cannot be read.
pub struct TabletTool {
    handle: usize,
    info: ToolInfo,
}

impl View for TabletTool {
    type V = ToolView;

    closed spec fn view(&self) -> ToolView {
        ToolView {
            handle: self.handle as int,
            serial: self.info.serial,
            tool_id: self.info.tool_id,
            type_code: self.info.type_code,
            buttons: self.info.buttons@,
            has_distance: self.info.has_distance,
            has_pressure: self.info.has_pressure,
            has_rotation: self.info.has_rotation,
            has_slider: self.info.has_slider,
            has_tilt: self.info.has_tilt,
            has_wheel: self.info.has_wheel,
            has_size: self.info.has_size,
            is_unique: self.info.is_unique,
        }
    }
}

/// Copies a list of button codes element by element.
fn copy_codes(v: &Vec<u32>) -> (r: Vec<u32>)
    ensures
        r@ == v@,
{
    let mut r: Vec<u32> = Vec::new();
    let mut i: usize = 0;
    while i < v.len()
        invariant
            i <= v.len(),
            r@.len() == i,
            forall|j: int| 0 <= j < i ==> r@[j] == v@[j],
        decreases v.len() - i,
    {
        r.push(v[i]);
        i = i + 1;
    }
    proof {
        assert(r@ =~= v@);
    }
    r
}

impl TabletTool {
    /// Wraps a raw handle the native layer handed out, together with the
    /// properties the tool reports. The wrapper takes ownership of one
    /// reference that is already outstanding: no extra acquire happens here.
    pub fn from_raw(handle: usize, info: ToolInfo) -> (t: TabletTool)
        ensures
            t@.handle == handle as int,
            t@.serial == info.serial,
            t@.tool_id == info.tool_id,
            t@.type_code == info.type_code,
            t@.buttons == info.buttons@,
            t@.has_distance == info.has_distance,
            t@.has_pressure == info.has_pressure,
            t@.has_rotation == info.has_rotation,
            t@.has_slider == info.has_slider,
            t@.has_tilt == info.has_tilt,
            t@.has_wheel == info.has_wheel,
            t@.has_size == info.has_size,
            t@.is_unique == info.is_unique,
    {
        TabletTool { handle, info }
    }

    /// Whether this wrapper is a clone of `other`: both hold a reference to
    /// the same underlying object and report exactly the same properties.
    pub open spec fn is_clone_of(self, other: TabletTool) -> bool {
        self@ == other@
    }

    /// Clones the wrapper: acquires one further reference to the same
    /// underlying object and returns a new instance owning it.
    pub fn clone_ref(&self, layer: &mut NativeLayer) -> (t: TabletTool)
        requires
            old(layer).spec_live(self@.handle),
            old(layer).spec_count(self@.handle) < u64::MAX,
        ensures
            final(layer)@ == after_acquire(old(layer)@, self@.handle),
            t.is_clone_of(*self),
    {
        layer.acquire(self.handle);
        let t = TabletTool {
            handle: self.handle,
            info: ToolInfo {
                serial: self.info.serial,
                tool_id: self.info.tool_id,
                type_code: self.info.type_code,
                buttons: copy_codes(&self.info.buttons),
                has_distance: self.info.has_distance,
                has_pressure: self.info.has_pressure,
                has_rotation: self.info.has_rotation,
                has_slider: self.info.has_slider,
                has_tilt: self.info.has_tilt,
                has_wheel: self.info.has_wheel,
                has_size: self.info.has_size,
                is_unique: self.info.is_unique,
            },
        };
        proof {
            assert(t@ =~= self@);
        }
        t
    }

    /// Consumes the wrapper and gives its reference back to the native layer;
    /// returns whether that was the last reference, so that the underlying
    /// object is now freed.
    pub fn release(self, layer: &mut NativeLayer) -> (freed: bool)
        requires
            old(layer).spec_live(self@.handle),
        ensures
            final(layer)@ == after_release(old(layer)@, self@.handle),
            freed == release_frees(old(layer)@, self@.handle),
    {
        layer.release(self.handle)
    }

    /// Returns the serial number of the tool; zero when the tool does not
    /// report one.
    pub fn serial(&self) -> (r: u64)
        ensures
            r == self@.serial,
    {
        self.info.serial
    }

    /// Returns the tool id; zero when the tool does not support one. A
    /// nonzero id identifies the tool's model with more precision than
    /// [`TabletTool::tool_type`].
    pub fn tool_id(&self) -> (r: u64)
        ensures
            r == self@.tool_id,
    {
        self.info.tool_id
    }

    /// Returns the tool type decoded from the native type code; `None` means
    /// the code is not a known type.
    pub fn tool_type(&self) -> (r: Option<TabletToolType>)
        ensures
            r == spec_translate(self@.type_code),
    {
        translate(self.info.type_code)
    }

    /// Checks whether the tool declares a button with the given input code.
    /// Codes are passed through unvalidated: an undeclared code simply yields
    /// `false`.
    pub fn has_button(&self, button: u32) -> (r: bool)
        ensures
            r == self@.buttons.contains(button),
    {
        let mut i: usize = 0;
        while i < self.info.buttons.len()
            invariant
                i <= self.info.buttons.len(),
                forall|j: int| 0 <= j < i ==> self.info.buttons@[j] != button,
            decreases self.info.buttons.len() - i,
        {
            if self.info.buttons[i] == button {
                proof {
                    assert(self@.buttons[i as int] == button);
                }
                return true;
            }
            i = i + 1;
        }
        false
    }

    /// Returns whether the tablet tool supports distance.
    pub fn has_distance(&self) -> (r: bool)
        ensures
            r == self@.has_distance,
    {
        self.info.has_distance
    }

    /// Returns whether the tablet tool supports pressure.
    pub fn has_pressure(&self) -> (r: bool)
        ensures
            r == self@.has_pressure,
    {
        self.info.has_pressure
    }

    /// Returns whether the tablet tool supports z-rotation.
    pub fn has_rotation(&self) -> (r: bool)
        ensures
            r == self@.has_rotation,
    {
        self.info.has_rotation
    }

    /// Returns whether the tablet tool has a slider axis.
    pub fn has_slider(&self) -> (r: bool)
        ensures
            r == self@.has_slider,
    {
        self.info.has_slider
    }

    /// Returns whether the tablet tool supports tilt.
    pub fn has_tilt(&self) -> (r: bool)
        ensures
            r == self@.has_tilt,
    {
        self.info.has_tilt
    }

    /// Returns whether the tablet tool has a relative wheel.
    pub fn has_wheel(&self) -> (r: bool)
        ensures
            r == self@.has_wheel,
    {
        self.info.has_wheel
    }

    /// Returns whether the tablet tool reports a contact ellipse. Where the
    /// hardware supports only one of major and minor, the native layer
    /// emulates the other as a circular contact.
    pub fn has_size(&self) -> (r: bool)
        ensures
            r == self@.has_size,
    {
        self.info.has_size
    }

    /// Returns whether the physical tool can be uniquely identified, so that
    /// keeping a wrapper allows tracking it across proximity-out sequences
    /// and across compatible tablets.
    pub fn is_unique(&self) -> (r: bool)
        ensures
            r == self@.is_unique,
    {
        self.info.is_unique
    }
}

/// The serial number and tool id are stable: each read returns the value the
/// wrapper's view holds — zero exactly when the tool reports none — so two
/// reads of either on the same wrapper agree.
pub proof fn lemma_serial_tool_id_stable(t: TabletTool, s1: u64, s2: u64, id1: u64, id2: u64)
    requires
        s1 == t@.serial,
        s2 == t@.serial,
        id1 == t@.tool_id,
        id2 == t@.tool_id,
    ensures
        s1 == s2,
        id1 == id2,
{
}

/// Boolean capability accessors are idempotent: each accessor's contract
/// fixes its result as one flag of the wrapper's view, so two reads of a
/// capability — here the pressure capability, the argument is the same for
/// every flag — on the same live wrapper return equal values.
pub proof fn lemma_has_pressure_idempotent(t: TabletTool, first: bool, second: bool)
    requires
        first == t@.has_pressure,
        second == t@.has_pressure,
    ensures
        first == second,
{
}

/// Referential consistency: a wrapper and its clone report identical serial,
/// tool id, tool type, button set and capability flags.
pub proof fn lemma_clone_reports_alike(orig: TabletTool, dup: TabletTool)
    requires
        dup.is_clone_of(orig),
    ensures
        dup@.serial == orig@.serial,
        dup@.tool_id == orig@.tool_id,
        spec_translate(dup@.type_code) == spec_translate(orig@.type_code),
        dup@.buttons == orig@.buttons,
        dup@.has_distance == orig@.has_distance,
        dup@.has_pressure == orig@.has_pressure,
        dup@.has_rotation == orig@.has_rotation,
        dup@.has_slider == orig@.has_slider,
        dup@.has_tilt == orig@.has_tilt,
        dup@.has_wheel == orig@.has_wheel,
        dup@.has_size == orig@.has_size,
        dup@.is_unique == orig@.is_unique,
{
}

} // verus!
