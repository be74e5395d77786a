//! Engine events and the masks that layers use to select them.

use vstd::prelude::*;

use crate::input::{EnumAction, EnumKey, EnumModifiers, EnumMouseButton};
use crate::strings::append_spaces;

verus! {

/// Marker trait for every kind of engine event.
pub trait TraitEvent {
}

/// An event delivered by the window system to the engine's layers.
///
/// Scroll offsets are carried as the bit patterns of their `f64` values and
/// dropped files as their path strings; the engine's logic never reads them.
#[derive(Debug, Clone, PartialEq)]
pub enum EnumEvent {
    WindowIconifyEvent(bool),
    WindowMaximizeEvent(bool),
    WindowCloseEvent(u64),
    FramebufferEvent(u32, u32),
    WindowPosEvent(i32, i32),
    WindowFocusEvent(bool),
    KeyEvent(EnumKey, EnumAction, Option<u32>, EnumModifiers),
    MouseBtnEvent(EnumMouseButton, EnumAction, EnumModifiers),
    MouseScrollEvent(u64, u64),
    DragAndDrop(Vec<String>),
    UnknownEvent,
}

impl TraitEvent for EnumEvent {
}

/// The name an event is shown with: its kind, without its data.
pub open spec fn spec_event_name(e: EnumEvent) -> Seq<char> {
    match e {
        EnumEvent::WindowIconifyEvent(_) => "WindowIconifyEvent"@,
        EnumEvent::WindowMaximizeEvent(_) => "WindowMaximizeEvent"@,
        EnumEvent::WindowCloseEvent(_) => "WindowCloseEvent"@,
        EnumEvent::FramebufferEvent(_, _) => "FramebufferEvent"@,
        EnumEvent::WindowPosEvent(_, _) => "WindowPosEvent"@,
        EnumEvent::WindowFocusEvent(_) => "WindowFocusEvent"@,
        EnumEvent::KeyEvent(_, _, _, _) => "KeyEvent"@,
        EnumEvent::MouseBtnEvent(_, _, _) => "MouseBtnEvent"@,
        EnumEvent::MouseScrollEvent(_, _) => "MouseScrollEvent"@,
        EnumEvent::DragAndDrop(_) => "DragAndDrop"@,
        EnumEvent::UnknownEvent => "UnknownEvent"@,
    }
}

impl EnumEvent {
    pub fn to_string(&self) -> (r: String)
        ensures
            r@ == spec_event_name(*self),
    {
        let s = match self {
            EnumEvent::WindowIconifyEvent(_) => "WindowIconifyEvent",
            EnumEvent::WindowMaximizeEvent(_) => "WindowMaximizeEvent",
            EnumEvent::WindowCloseEvent(_) => "WindowCloseEvent",
            EnumEvent::FramebufferEvent(_, _) => "FramebufferEvent",
            EnumEvent::WindowPosEvent(_, _) => "WindowPosEvent",
            EnumEvent::WindowFocusEvent(_) => "WindowFocusEvent",
            EnumEvent::KeyEvent(_, _, _, _) => "KeyEvent",
            EnumEvent::MouseBtnEvent(_, _, _) => "MouseBtnEvent",
            EnumEvent::MouseScrollEvent(_, _) => "MouseScrollEvent",
            EnumEvent::DragAndDrop(_) => "DragAndDrop",
            EnumEvent::UnknownEvent => "UnknownEvent",
        };
        s.to_owned()
    }
}

/// Errors raised while registering or dispatching events.
#[derive(Debug, Copy, Clone, PartialEq, Eq, Structural, Hash)]
pub enum EnumEventError {
    InvalidEventCallback,
    PollingDisabled,
}

/// A set of event kinds, stored as a 16-bit mask.
///
/// Every bit of the mask is a known flag, so the complement of a mask is the
/// bitwise complement of its bits.
#[derive(Debug, Copy, Clone, PartialEq, Eq, Structural, Hash)]
pub struct EnumEventMask(pub u16);

pub open spec fn mask_nothing() -> u16 { 0b0000000000000000u16 }
pub open spec fn mask_all() -> u16 { 0b1111111111111111u16 }
pub open spec fn mask_window() -> u16 { 0b1011111100000000u16 }
pub open spec fn mask_window_iconify() -> u16 { 0b1000000100000000u16 }
pub open spec fn mask_window_maximize() -> u16 { 0b1000001000000000u16 }
pub open spec fn mask_window_focus() -> u16 { 0b1000010000000000u16 }
pub open spec fn mask_window_close() -> u16 { 0b1000100000000000u16 }
pub open spec fn mask_window_size() -> u16 { 0b1001000000000000u16 }
pub open spec fn mask_window_pos() -> u16 { 0b1010000000000000u16 }
pub open spec fn mask_input() -> u16 { 0b0000000111111111u16 }
pub open spec fn mask_drag_and_drop() -> u16 { 0b0000000100000001u16 }
pub open spec fn mask_keyboard() -> u16 { 0b0000000100000010u16 }
pub open spec fn mask_mouse() -> u16 { 0b0000000100011100u16 }
pub open spec fn mask_cursor_pos() -> u16 { 0b0000000100000100u16 }
pub open spec fn mask_mouse_btn() -> u16 { 0b0000000100001000u16 }
pub open spec fn mask_mouse_scroll() -> u16 { 0b0000000100010000u16 }

/// `a` holds every bit of `b`.
pub open spec fn bits_contain(a: u16, b: u16) -> bool {
    a & b == b
}

/// The mask that selects events of the same kind as `event`.
pub open spec fn spec_event_mask(event: EnumEvent) -> u16 {
    match event {
        EnumEvent::WindowIconifyEvent(_) => mask_window_iconify(),
        EnumEvent::WindowMaximizeEvent(_) => mask_window_maximize(),
        EnumEvent::WindowCloseEvent(_) => mask_window_close(),
        EnumEvent::FramebufferEvent(_, _) => mask_window_size(),
        EnumEvent::WindowPosEvent(_, _) => mask_window_pos(),
        EnumEvent::WindowFocusEvent(_) => mask_window_focus(),
        EnumEvent::KeyEvent(_, _, _, _) => mask_keyboard(),
        EnumEvent::MouseBtnEvent(_, _, _) => mask_mouse_btn(),
        EnumEvent::MouseScrollEvent(_, _) => mask_mouse_scroll(),
        EnumEvent::DragAndDrop(_) => mask_drag_and_drop(),
        EnumEvent::UnknownEvent => mask_nothing(),
    }
}

/// The kind of an event, numbered in the order of `EnumEvent`'s variants;
/// an unknown event has kind 10.
pub open spec fn spec_event_kind(e: EnumEvent) -> int {
    match e {
        EnumEvent::WindowIconifyEvent(_) => 0,
        EnumEvent::WindowMaximizeEvent(_) => 1,
        EnumEvent::WindowCloseEvent(_) => 2,
        EnumEvent::FramebufferEvent(_, _) => 3,
        EnumEvent::WindowPosEvent(_, _) => 4,
        EnumEvent::WindowFocusEvent(_) => 5,
        EnumEvent::KeyEvent(_, _, _, _) => 6,
        EnumEvent::MouseBtnEvent(_, _, _) => 7,
        EnumEvent::MouseScrollEvent(_, _) => 8,
        EnumEvent::DragAndDrop(_) => 9,
        EnumEvent::UnknownEvent => 10,
    }
}

/// Each kind's mask holds itself and no other kind's mask, and the empty
/// mask holds none.
proof fn lemma_kind_masks_apart()
    by (bit_vector)
    ensures
        bits_contain(mask_window_iconify(), mask_window_iconify()),
        !bits_contain(mask_window_iconify(), mask_window_maximize()),
        !bits_contain(mask_window_iconify(), mask_window_close()),
        !bits_contain(mask_window_iconify(), mask_window_size()),
        !bits_contain(mask_window_iconify(), mask_window_pos()),
        !bits_contain(mask_window_iconify(), mask_window_focus()),
        !bits_contain(mask_window_iconify(), mask_keyboard()),
        !bits_contain(mask_window_iconify(), mask_mouse_btn()),
        !bits_contain(mask_window_iconify(), mask_mouse_scroll()),
        !bits_contain(mask_window_iconify(), mask_drag_and_drop()),
        !bits_contain(mask_nothing(), mask_window_iconify()),
        !bits_contain(mask_window_maximize(), mask_window_iconify()),
        bits_contain(mask_window_maximize(), mask_window_maximize()),
        !bits_contain(mask_window_maximize(), mask_window_close()),
        !bits_contain(mask_window_maximize(), mask_window_size()),
        !bits_contain(mask_window_maximize(), mask_window_pos()),
        !bits_contain(mask_window_maximize(), mask_window_focus()),
        !bits_contain(mask_window_maximize(), mask_keyboard()),
        !bits_contain(mask_window_maximize(), mask_mouse_btn()),
        !bits_contain(mask_window_maximize(), mask_mouse_scroll()),
        !bits_contain(mask_window_maximize(), mask_drag_and_drop()),
        !bits_contain(mask_nothing(), mask_window_maximize()),
        !bits_contain(mask_window_close(), mask_window_iconify()),
        !bits_contain(mask_window_close(), mask_window_maximize()),
        bits_contain(mask_window_close(), mask_window_close()),
        !bits_contain(mask_window_close(), mask_window_size()),
        !bits_contain(mask_window_close(), mask_window_pos()),
        !bits_contain(mask_window_close(), mask_window_focus()),
        !bits_contain(mask_window_close(), mask_keyboard()),
        !bits_contain(mask_window_close(), mask_mouse_btn()),
        !bits_contain(mask_window_close(), mask_mouse_scroll()),
        !bits_contain(mask_window_close(), mask_drag_and_drop()),
        !bits_contain(mask_nothing(), mask_window_close()),
        !bits_contain(mask_window_size(), mask_window_iconify()),
        !bits_contain(mask_window_size(), mask_window_maximize()),
        !bits_contain(mask_window_size(), mask_window_close()),
        bits_contain(mask_window_size(), mask_window_size()),
        !bits_contain(mask_window_size(), mask_window_pos()),
        !bits_contain(mask_window_size(), mask_window_focus()),
        !bits_contain(mask_window_size(), mask_keyboard()),
        !bits_contain(mask_window_size(), mask_mouse_btn()),
        !bits_contain(mask_window_size(), mask_mouse_scroll()),
        !bits_contain(mask_window_size(), mask_drag_and_drop()),
        !bits_contain(mask_nothing(), mask_window_size()),
        !bits_contain(mask_window_pos(), mask_window_iconify()),
        !bits_contain(mask_window_pos(), mask_window_maximize()),
        !bits_contain(mask_window_pos(), mask_window_close()),
        !bits_contain(mask_window_pos(), mask_window_size()),
        bits_contain(mask_window_pos(), mask_window_pos()),
        !bits_contain(mask_window_pos(), mask_window_focus()),
        !bits_contain(mask_window_pos(), mask_keyboard()),
        !bits_contain(mask_window_pos(), mask_mouse_btn()),
        !bits_contain(mask_window_pos(), mask_mouse_scroll()),
        !bits_contain(mask_window_pos(), mask_drag_and_drop()),
        !bits_contain(mask_nothing(), mask_window_pos()),
        !bits_contain(mask_window_focus(), mask_window_iconify()),
        !bits_contain(mask_window_focus(), mask_window_maximize()),
        !bits_contain(mask_window_focus(), mask_window_close()),
        !bits_contain(mask_window_focus(), mask_window_size()),
        !bits_contain(mask_window_focus(), mask_window_pos()),
        bits_contain(mask_window_focus(), mask_window_focus()),
        !bits_contain(mask_window_focus(), mask_keyboard()),
        !bits_contain(mask_window_focus(), mask_mouse_btn()),
        !bits_contain(mask_window_focus(), mask_mouse_scroll()),
        !bits_contain(mask_window_focus(), mask_drag_and_drop()),
        !bits_contain(mask_nothing(), mask_window_focus()),
        !bits_contain(mask_keyboard(), mask_window_iconify()),
        !bits_contain(mask_keyboard(), mask_window_maximize()),
        !bits_contain(mask_keyboard(), mask_window_close()),
        !bits_contain(mask_keyboard(), mask_window_size()),
        !bits_contain(mask_keyboard(), mask_window_pos()),
        !bits_contain(mask_keyboard(), mask_window_focus()),
        bits_contain(mask_keyboard(), mask_keyboard()),
        !bits_contain(mask_keyboard(), mask_mouse_btn()),
        !bits_contain(mask_keyboard(), mask_mouse_scroll()),
        !bits_contain(mask_keyboard(), mask_drag_and_drop()),
        !bits_contain(mask_nothing(), mask_keyboard()),
        !bits_contain(mask_mouse_btn(), mask_window_iconify()),
        !bits_contain(mask_mouse_btn(), mask_window_maximize()),
        !bits_contain(mask_mouse_btn(), mask_window_close()),
        !bits_contain(mask_mouse_btn(), mask_window_size()),
        !bits_contain(mask_mouse_btn(), mask_window_pos()),
        !bits_contain(mask_mouse_btn(), mask_window_focus()),
        !bits_contain(mask_mouse_btn(), mask_keyboard()),
        bits_contain(mask_mouse_btn(), mask_mouse_btn()),
        !bits_contain(mask_mouse_btn(), mask_mouse_scroll()),
        !bits_contain(mask_mouse_btn(), mask_drag_and_drop()),
        !bits_contain(mask_nothing(), mask_mouse_btn()),
        !bits_contain(mask_mouse_scroll(), mask_window_iconify()),
        !bits_contain(mask_mouse_scroll(), mask_window_maximize()),
        !bits_contain(mask_mouse_scroll(), mask_window_close()),
        !bits_contain(mask_mouse_scroll(), mask_window_size()),
        !bits_contain(mask_mouse_scroll(), mask_window_pos()),
        !bits_contain(mask_mouse_scroll(), mask_window_focus()),
        !bits_contain(mask_mouse_scroll(), mask_keyboard()),
        !bits_contain(mask_mouse_scroll(), mask_mouse_btn()),
        bits_contain(mask_mouse_scroll(), mask_mouse_scroll()),
        !bits_contain(mask_mouse_scroll(), mask_drag_and_drop()),
        !bits_contain(mask_nothing(), mask_mouse_scroll()),
        !bits_contain(mask_drag_and_drop(), mask_window_iconify()),
        !bits_contain(mask_drag_and_drop(), mask_window_maximize()),
        !bits_contain(mask_drag_and_drop(), mask_window_close()),
        !bits_contain(mask_drag_and_drop(), mask_window_size()),
        !bits_contain(mask_drag_and_drop(), mask_window_pos()),
        !bits_contain(mask_drag_and_drop(), mask_window_focus()),
        !bits_contain(mask_drag_and_drop(), mask_keyboard()),
        !bits_contain(mask_drag_and_drop(), mask_mouse_btn()),
        !bits_contain(mask_drag_and_drop(), mask_mouse_scroll()),
        bits_contain(mask_drag_and_drop(), mask_drag_and_drop()),
        !bits_contain(mask_nothing(), mask_drag_and_drop()),
{
}

/// A layer polling the mask of one event kind is given exactly the events
/// of that kind: the mask of an event holds the mask of another (known)
/// event exactly when both are of the same kind, so events of different
/// kinds have different masks.
pub proof fn lemma_event_masks_select_kinds(e1: EnumEvent, e2: EnumEvent)
    ensures
        !(e2 is UnknownEvent) ==> (bits_contain(spec_event_mask(e1), spec_event_mask(e2)) <==> spec_event_kind(e1)
            == spec_event_kind(e2)),
        spec_event_kind(e1) != spec_event_kind(e2) ==> spec_event_mask(e1) != spec_event_mask(e2),
{
    lemma_kind_masks_apart();
    if spec_event_kind(e1) != spec_event_kind(e2) && spec_event_mask(e1) == spec_event_mask(e2) {
        if e2 is UnknownEvent {
            assert(!bits_contain(mask_nothing(), spec_event_mask(e1)));
        } else {
            assert(bits_contain(spec_event_mask(e1), spec_event_mask(e2)) == bits_contain(
                spec_event_mask(e2),
                spec_event_mask(e2),
            ));
        }
    }
}

#[allow(non_snake_case)]
impl EnumEventMask {
    /// The bits of the mask.
    pub open spec fn view(self) -> u16 {
        self.0
    }

    /// No event at all.
    pub fn Nothing() -> (r: EnumEventMask)
        ensures
            r@ == mask_nothing(),
    {
        EnumEventMask(0b0000000000000000)
    }

    /// Every event.
    pub fn All() -> (r: EnumEventMask)
        ensures
            r@ == mask_all(),
    {
        EnumEventMask(0b1111111111111111)
    }

    pub fn Window() -> (r: EnumEventMask)
        ensures
            r@ == mask_window(),
    {
        EnumEventMask(0b1011111100000000)
    }

    pub fn WindowIconify() -> (r: EnumEventMask)
        ensures
            r@ == mask_window_iconify(),
    {
        EnumEventMask(0b1000000100000000)
    }

    pub fn WindowMaximize() -> (r: EnumEventMask)
        ensures
            r@ == mask_window_maximize(),
    {
        EnumEventMask(0b1000001000000000)
    }

    pub fn WindowFocus() -> (r: EnumEventMask)
        ensures
            r@ == mask_window_focus(),
    {
        EnumEventMask(0b1000010000000000)
    }

    pub fn WindowClose() -> (r: EnumEventMask)
        ensures
            r@ == mask_window_close(),
    {
        EnumEventMask(0b1000100000000000)
    }

    pub fn WindowSize() -> (r: EnumEventMask)
        ensures
            r@ == mask_window_size(),
    {
        EnumEventMask(0b1001000000000000)
    }

    pub fn WindowPos() -> (r: EnumEventMask)
        ensures
            r@ == mask_window_pos(),
    {
        EnumEventMask(0b1010000000000000)
    }

    pub fn Input() -> (r: EnumEventMask)
        ensures
            r@ == mask_input(),
    {
        EnumEventMask(0b0000000111111111)
    }

    pub fn DragAndDrop() -> (r: EnumEventMask)
        ensures
            r@ == mask_drag_and_drop(),
    {
        EnumEventMask(0b0000000100000001)
    }

    pub fn Keyboard() -> (r: EnumEventMask)
        ensures
            r@ == mask_keyboard(),
    {
        EnumEventMask(0b0000000100000010)
    }

    pub fn Mouse() -> (r: EnumEventMask)
        ensures
            r@ == mask_mouse(),
    {
        EnumEventMask(0b0000000100011100)
    }

    pub fn CursorPos() -> (r: EnumEventMask)
        ensures
            r@ == mask_cursor_pos(),
    {
        EnumEventMask(0b0000000100000100)
    }

    pub fn MouseBtn() -> (r: EnumEventMask)
        ensures
            r@ == mask_mouse_btn(),
    {
        EnumEventMask(0b0000000100001000)
    }

    pub fn MouseScroll() -> (r: EnumEventMask)
        ensures
            r@ == mask_mouse_scroll(),
    {
        EnumEventMask(0b0000000100010000)
    }

    /// The raw bits of the mask.
    pub fn bits(&self) -> (r: u16)
        ensures
            r == self@,
    {
        self.0
    }

    /// The mask with exactly the given bits (every bit is a known flag).
    pub fn from_bits_truncate(bits: u16) -> (r: EnumEventMask)
        ensures
            r@ == bits,
    {
        EnumEventMask(bits)
    }

    /// The mask with exactly the given bits; never `None`, since every bit is a known flag.
    pub fn from_bits(bits: u16) -> (r: Option<EnumEventMask>)
        ensures
            r == Some(EnumEventMask(bits)),
    {
        Some(EnumEventMask(bits))
    }

    /// The empty mask.
    pub fn empty() -> (r: EnumEventMask)
        ensures
            r@ == 0u16,
    {
        EnumEventMask(0)
    }

    /// The mask holding every flag.
    pub fn all() -> (r: EnumEventMask)
        ensures
            r@ == 0xffffu16,
    {
        EnumEventMask(0xffff)
    }

    pub fn is_empty(&self) -> (r: bool)
        ensures
            r == (self@ == 0u16),
    {
        self.0 == 0
    }

    pub fn is_all(&self) -> (r: bool)
        ensures
            r == (self@ == 0xffffu16),
    {
        self.0 == 0xffff
    }

    /// Every flag of `other` is in `self`.
    pub fn contains(&self, other: EnumEventMask) -> (r: bool)
        ensures
            r == bits_contain(self@, other@),
    {
        self.0 & other.0 == other.0
    }

    /// `self` and `other` share a flag.
    pub fn intersects(&self, other: EnumEventMask) -> (r: bool)
        ensures
            r == (self@ & other@ != 0u16),
    {
        self.0 & other.0 != 0
    }

    pub fn intersection(self, other: EnumEventMask) -> (r: EnumEventMask)
        ensures
            r@ == self@ & other@,
    {
        EnumEventMask(self.0 & other.0)
    }

    pub fn union(self, other: EnumEventMask) -> (r: EnumEventMask)
        ensures
            r@ == self@ | other@,
    {
        EnumEventMask(self.0 | other.0)
    }

    /// The flags of `self` that are not in `other`.
    pub fn difference(self, other: EnumEventMask) -> (r: EnumEventMask)
        ensures
            r@ == self@ & !other@,
    {
        EnumEventMask(self.0 & !other.0)
    }

    pub fn symmetric_difference(self, other: EnumEventMask) -> (r: EnumEventMask)
        ensures
            r@ == self@ ^ other@,
    {
        EnumEventMask(self.0 ^ other.0)
    }

    pub fn complement(self) -> (r: EnumEventMask)
        ensures
            r@ == !self@,
    {
        EnumEventMask(!self.0)
    }

    pub fn insert(&mut self, other: EnumEventMask)
        ensures
            final(self)@ == old(self)@ | other@,
    {
        self.0 = self.0 | other.0;
    }

    pub fn remove(&mut self, other: EnumEventMask)
        ensures
            final(self)@ == old(self)@ & !other@,
    {
        self.0 = self.0 & !other.0;
    }

    pub fn toggle(&mut self, other: EnumEventMask)
        ensures
            final(self)@ == old(self)@ ^ other@,
    {
        self.0 = self.0 ^ other.0;
    }

    /// Inserts `other` when `value` holds, removes it otherwise.
    pub fn set(&mut self, other: EnumEventMask, value: bool)
        ensures
            value ==> final(self)@ == old(self)@ | other@,
            !value ==> final(self)@ == old(self)@ & !other@,
    {
        if value {
            self.insert(other);
        } else {
            self.remove(other);
        }
    }

    /// The mask of the kind of `event`; an unknown event selects nothing.
    pub fn from_event(event: &EnumEvent) -> (r: EnumEventMask)
        ensures
            r@ == spec_event_mask(*event),
    {
        match event {
            EnumEvent::WindowIconifyEvent(_) => EnumEventMask::WindowIconify(),
            EnumEvent::WindowMaximizeEvent(_) => EnumEventMask::WindowMaximize(),
            EnumEvent::WindowCloseEvent(_) => EnumEventMask::WindowClose(),
            EnumEvent::FramebufferEvent(_, _) => EnumEventMask::WindowSize(),
            EnumEvent::WindowPosEvent(_, _) => EnumEventMask::WindowPos(),
            EnumEvent::WindowFocusEvent(_) => EnumEventMask::WindowFocus(),
            EnumEvent::KeyEvent(_, _, _, _) => EnumEventMask::Keyboard(),
            EnumEvent::MouseBtnEvent(_, _, _) => EnumEventMask::MouseBtn(),
            EnumEvent::MouseScrollEvent(_, _) => EnumEventMask::MouseScroll(),
            EnumEvent::DragAndDrop(_) => EnumEventMask::DragAndDrop(),
            EnumEvent::UnknownEvent => EnumEventMask::empty(),
        }
    }
}

impl core::ops::BitAnd for EnumEventMask {
    type Output = EnumEventMask;

    fn bitand(self, rhs: EnumEventMask) -> (r: EnumEventMask) {
        EnumEventMask(self.0 & rhs.0)
    }
}

impl vstd::std_specs::ops::BitAndSpecImpl for EnumEventMask {
    open spec fn obeys_bitand_spec() -> bool {
        true
    }

    open spec fn bitand_req(self, rhs: EnumEventMask) -> bool {
        true
    }

    open spec fn bitand_spec(self, rhs: EnumEventMask) -> EnumEventMask {
        EnumEventMask(self.0 & rhs.0)
    }
}

impl core::ops::BitOr for EnumEventMask {
    type Output = EnumEventMask;

    fn bitor(self, rhs: EnumEventMask) -> (r: EnumEventMask) {
        EnumEventMask(self.0 | rhs.0)
    }
}

impl vstd::std_specs::ops::BitOrSpecImpl for EnumEventMask {
    open spec fn obeys_bitor_spec() -> bool {
        true
    }

    open spec fn bitor_req(self, rhs: EnumEventMask) -> bool {
        true
    }

    open spec fn bitor_spec(self, rhs: EnumEventMask) -> EnumEventMask {
        EnumEventMask(self.0 | rhs.0)
    }
}

impl core::ops::BitXor for EnumEventMask {
    type Output = EnumEventMask;

    fn bitxor(self, rhs: EnumEventMask) -> (r: EnumEventMask) {
        EnumEventMask(self.0 ^ rhs.0)
    }
}

impl vstd::std_specs::ops::BitXorSpecImpl for EnumEventMask {
    open spec fn obeys_bitxor_spec() -> bool {
        true
    }

    open spec fn bitxor_req(self, rhs: EnumEventMask) -> bool {
        true
    }

    open spec fn bitxor_spec(self, rhs: EnumEventMask) -> EnumEventMask {
        EnumEventMask(self.0 ^ rhs.0)
    }
}

impl core::ops::Sub for EnumEventMask {
    type Output = EnumEventMask;

    fn sub(self, rhs: EnumEventMask) -> (r: EnumEventMask) {
        EnumEventMask(self.0 & !rhs.0)
    }
}

impl vstd::std_specs::ops::SubSpecImpl for EnumEventMask {
    open spec fn obeys_sub_spec() -> bool {
        true
    }

    open spec fn sub_req(self, rhs: EnumEventMask) -> bool {
        true
    }

    open spec fn sub_spec(self, rhs: EnumEventMask) -> EnumEventMask {
        EnumEventMask(self.0 & !rhs.0)
    }
}

impl core::ops::Not for EnumEventMask {
    type Output = EnumEventMask;

    fn not(self) -> (r: EnumEventMask) {
        EnumEventMask(!self.0)
    }
}

impl vstd::std_specs::ops::NotSpecImpl for EnumEventMask {
    open spec fn obeys_not_spec() -> bool {
        true
    }

    open spec fn not_req(self) -> bool {
        true
    }

    open spec fn not_spec(self) -> EnumEventMask {
        EnumEventMask(!self.0)
    }
}

} // verus!

verus! {

/// Bit `k` (counted from the least significant bit) of `bits` is set.
pub open spec fn bit_is_set(bits: u16, k: u16) -> bool {
    (bits >> k) & 1u16 == 1u16
}

/// The 16 binary digits of `bits`, most significant first.
pub open spec fn spec_binary_digits(bits: u16) -> Seq<char> {
    Seq::new(16, |i: int| if bit_is_set(bits, (15 - i) as u16) { '1' } else { '0' })
}

/// Writes the 16 binary digits of `bits`, most significant first.
pub fn binary_digits(bits: u16) -> (r: String)
    ensures
        r@ == spec_binary_digits(bits),
{
    let mut s = String::new();
    let mut i: u16 = 0;
    while i < 16
        invariant
            i <= 16,
            s@ == spec_binary_digits(bits).take(i as int),
        decreases 16 - i,
    {
        let k: u16 = 15 - i;
        proof {
            reveal_strlit("1");
            reveal_strlit("0");
        }
        if (bits >> k) & 1 == 1 {
            s.append("1");
        } else {
            s.append("0");
        }
        assert(s@ =~= spec_binary_digits(bits).take(i as int + 1));
        i = i + 1;
    }
    assert(spec_binary_digits(bits).take(16) =~= spec_binary_digits(bits));
    s
}

/// One part of the description of an event mask.
#[derive(Debug, Copy, Clone, PartialEq, Eq, Structural, Hash)]
pub enum EnumEventMaskLabel {
    Nothing,
    Everything,
    AllWindow,
    WindowFramebuffer,
    WindowClose,
    WindowIconify,
    WindowMaximize,
    WindowFocus,
    WindowPosition,
    AllInput,
    AllMouse,
    MouseButton,
    MouseScroll,
    Keyboard,
    DragAndDrop,
}

pub open spec fn spec_label_name(label: EnumEventMaskLabel) -> Seq<char> {
    match label {
        EnumEventMaskLabel::Nothing => "Nothing"@,
        EnumEventMaskLabel::Everything => "Everything"@,
        EnumEventMaskLabel::AllWindow => "All window"@,
        EnumEventMaskLabel::WindowFramebuffer => "Window framebuffer"@,
        EnumEventMaskLabel::WindowClose => "Window close"@,
        EnumEventMaskLabel::WindowIconify => "Window iconify"@,
        EnumEventMaskLabel::WindowMaximize => "Window maximize"@,
        EnumEventMaskLabel::WindowFocus => "Window focus"@,
        EnumEventMaskLabel::WindowPosition => "Window position"@,
        EnumEventMaskLabel::AllInput => "All input"@,
        EnumEventMaskLabel::AllMouse => "All Mouse"@,
        EnumEventMaskLabel::MouseButton => "Mouse button"@,
        EnumEventMaskLabel::MouseScroll => "Mouse scroll"@,
        EnumEventMaskLabel::Keyboard => "Keyboard"@,
        EnumEventMaskLabel::DragAndDrop => "Drag and drop"@,
    }
}

pub open spec fn spec_label_mask(label: EnumEventMaskLabel) -> u16 {
    match label {
        EnumEventMaskLabel::Nothing => mask_nothing(),
        EnumEventMaskLabel::Everything => mask_all(),
        EnumEventMaskLabel::AllWindow => mask_window(),
        EnumEventMaskLabel::WindowFramebuffer => mask_window_size(),
        EnumEventMaskLabel::WindowClose => mask_window_close(),
        EnumEventMaskLabel::WindowIconify => mask_window_iconify(),
        EnumEventMaskLabel::WindowMaximize => mask_window_maximize(),
        EnumEventMaskLabel::WindowFocus => mask_window_focus(),
        EnumEventMaskLabel::WindowPosition => mask_window_pos(),
        EnumEventMaskLabel::AllInput => mask_input(),
        EnumEventMaskLabel::AllMouse => mask_mouse(),
        EnumEventMaskLabel::MouseButton => mask_mouse_btn(),
        EnumEventMaskLabel::MouseScroll => mask_mouse_scroll(),
        EnumEventMaskLabel::Keyboard => mask_keyboard(),
        EnumEventMaskLabel::DragAndDrop => mask_drag_and_drop(),
    }
}

/// The labels after which the description leaves no trailing space.
pub open spec fn spec_label_closes(label: EnumEventMaskLabel) -> bool {
    label == EnumEventMaskLabel::Nothing || label == EnumEventMaskLabel::Everything
        || label == EnumEventMaskLabel::AllInput || label == EnumEventMaskLabel::DragAndDrop
}

impl EnumEventMaskLabel {
    pub fn name(&self) -> (r: &'static str)
        ensures
            r@ == spec_label_name(*self),
    {
        match self {
            EnumEventMaskLabel::Nothing => "Nothing",
            EnumEventMaskLabel::Everything => "Everything",
            EnumEventMaskLabel::AllWindow => "All window",
            EnumEventMaskLabel::WindowFramebuffer => "Window framebuffer",
            EnumEventMaskLabel::WindowClose => "Window close",
            EnumEventMaskLabel::WindowIconify => "Window iconify",
            EnumEventMaskLabel::WindowMaximize => "Window maximize",
            EnumEventMaskLabel::WindowFocus => "Window focus",
            EnumEventMaskLabel::WindowPosition => "Window position",
            EnumEventMaskLabel::AllInput => "All input",
            EnumEventMaskLabel::AllMouse => "All Mouse",
            EnumEventMaskLabel::MouseButton => "Mouse button",
            EnumEventMaskLabel::MouseScroll => "Mouse scroll",
            EnumEventMaskLabel::Keyboard => "Keyboard",
            EnumEventMaskLabel::DragAndDrop => "Drag and drop",
        }
    }

    pub fn mask(&self) -> (r: EnumEventMask)
        ensures
            r@ == spec_label_mask(*self),
    {
        match self {
            EnumEventMaskLabel::Nothing => EnumEventMask::Nothing(),
            EnumEventMaskLabel::Everything => EnumEventMask::All(),
            EnumEventMaskLabel::AllWindow => EnumEventMask::Window(),
            EnumEventMaskLabel::WindowFramebuffer => EnumEventMask::WindowSize(),
            EnumEventMaskLabel::WindowClose => EnumEventMask::WindowClose(),
            EnumEventMaskLabel::WindowIconify => EnumEventMask::WindowIconify(),
            EnumEventMaskLabel::WindowMaximize => EnumEventMask::WindowMaximize(),
            EnumEventMaskLabel::WindowFocus => EnumEventMask::WindowFocus(),
            EnumEventMaskLabel::WindowPosition => EnumEventMask::WindowPos(),
            EnumEventMaskLabel::AllInput => EnumEventMask::Input(),
            EnumEventMaskLabel::AllMouse => EnumEventMask::Mouse(),
            EnumEventMaskLabel::MouseButton => EnumEventMask::MouseBtn(),
            EnumEventMaskLabel::MouseScroll => EnumEventMask::MouseScroll(),
            EnumEventMaskLabel::Keyboard => EnumEventMask::Keyboard(),
            EnumEventMaskLabel::DragAndDrop => EnumEventMask::DragAndDrop(),
        }
    }

    pub fn closes(&self) -> (r: bool)
        ensures
            r == spec_label_closes(*self),
    {
        match self {
            EnumEventMaskLabel::Nothing | EnumEventMaskLabel::Everything
            | EnumEventMaskLabel::AllInput | EnumEventMaskLabel::DragAndDrop => true,
            _ => false,
        }
    }
}

pub open spec fn label_if(cond: bool, label: EnumEventMaskLabel) -> Seq<EnumEventMaskLabel> {
    if cond { seq![label] } else { Seq::empty() }
}

/// The window part of a description: all window events at once, or each one present.
pub open spec fn spec_window_labels(m: u16) -> Seq<EnumEventMaskLabel> {
    if bits_contain(m, mask_window()) {
        seq![EnumEventMaskLabel::AllWindow]
    } else {
        label_if(bits_contain(m, mask_window_size()), EnumEventMaskLabel::WindowFramebuffer)
            + label_if(bits_contain(m, mask_window_close()), EnumEventMaskLabel::WindowClose)
            + label_if(bits_contain(m, mask_window_iconify()), EnumEventMaskLabel::WindowIconify)
            + label_if(bits_contain(m, mask_window_maximize()), EnumEventMaskLabel::WindowMaximize)
            + label_if(bits_contain(m, mask_window_focus()), EnumEventMaskLabel::WindowFocus)
            + label_if(bits_contain(m, mask_window_pos()), EnumEventMaskLabel::WindowPosition)
    }
}

/// The input part of a description, when not every input event is selected.
pub open spec fn spec_partial_input_labels(m: u16) -> Seq<EnumEventMaskLabel> {
    (if bits_contain(m, mask_mouse()) {
        seq![EnumEventMaskLabel::AllMouse]
    } else {
        label_if(bits_contain(m, mask_mouse_btn()), EnumEventMaskLabel::MouseButton)
            + label_if(bits_contain(m, mask_mouse_scroll()), EnumEventMaskLabel::MouseScroll)
    })
        + label_if(bits_contain(m, mask_keyboard()), EnumEventMaskLabel::Keyboard)
        + label_if(bits_contain(m, mask_drag_and_drop()), EnumEventMaskLabel::DragAndDrop)
}

/// The parts that describe mask `m`, in the order they are written.
pub open spec fn spec_mask_labels(m: u16) -> Seq<EnumEventMaskLabel> {
    if m == mask_nothing() {
        seq![EnumEventMaskLabel::Nothing]
    } else if m == mask_all() {
        seq![EnumEventMaskLabel::Everything]
    } else if bits_contain(m, mask_input()) {
        spec_window_labels(m).push(EnumEventMaskLabel::AllInput)
    } else {
        spec_window_labels(m) + spec_partial_input_labels(m)
    }
}

/// The text of one part: its name and mask, separated from a previous part by `"| "`.
pub open spec fn spec_label_text(label: EnumEventMaskLabel, first: bool) -> Seq<char> {
    (if first { Seq::empty() } else { "| "@ }) + spec_label_name(label) + " ("@
        + spec_binary_digits(spec_label_mask(label)) + ")"@
        + (if spec_label_closes(label) { Seq::empty() } else { " "@ })
}

pub open spec fn spec_labels_text(labels: Seq<EnumEventMaskLabel>) -> Seq<char>
    decreases labels.len(),
{
    if labels.len() == 0 {
        Seq::empty()
    } else {
        spec_labels_text(labels.drop_last()) + spec_label_text(labels.last(), labels.len() == 1)
    }
}

/// The indentation that aligns continuation lines of the engine's log.
pub open spec fn spec_log_indent() -> Seq<char> {
    Seq::new(115, |i: int| ' ')
}

/// The full description of mask `m`: its bits, then its parts.
pub open spec fn spec_mask_text(m: u16) -> Seq<char> {
    "["@ + spec_binary_digits(m) + "]\n"@ + spec_log_indent() + "Events: "@
        + spec_labels_text(spec_mask_labels(m))
}

fn push_label_if(v: &mut Vec<EnumEventMaskLabel>, cond: bool, label: EnumEventMaskLabel)
    ensures
        final(v)@ == old(v)@ + label_if(cond, label),
{
    if cond {
        v.push(label);
    }
    assert(final(v)@ =~= old(v)@ + label_if(cond, label));
}

/// The window part of the description of `m`.
fn describe_window(m: EnumEventMask) -> (r: Vec<EnumEventMaskLabel>)
    ensures
        r@ == spec_window_labels(m@),
{
    let mut v: Vec<EnumEventMaskLabel> = Vec::new();
    if m.contains(EnumEventMask::Window()) {
        v.push(EnumEventMaskLabel::AllWindow);
    } else {
        push_label_if(&mut v, m.contains(EnumEventMask::WindowSize()), EnumEventMaskLabel::WindowFramebuffer);
        push_label_if(&mut v, m.contains(EnumEventMask::WindowClose()), EnumEventMaskLabel::WindowClose);
        push_label_if(&mut v, m.contains(EnumEventMask::WindowIconify()), EnumEventMaskLabel::WindowIconify);
        push_label_if(&mut v, m.contains(EnumEventMask::WindowMaximize()), EnumEventMaskLabel::WindowMaximize);
        push_label_if(&mut v, m.contains(EnumEventMask::WindowFocus()), EnumEventMaskLabel::WindowFocus);
        push_label_if(&mut v, m.contains(EnumEventMask::WindowPos()), EnumEventMaskLabel::WindowPosition);
    }
    assert(v@ =~= spec_window_labels(m@));
    v
}

/// The input part of the description of `m`, when `m` does not hold every input event.
fn describe_partial_input(m: EnumEventMask) -> (r: Vec<EnumEventMaskLabel>)
    ensures
        r@ == spec_partial_input_labels(m@),
{
    let mut v: Vec<EnumEventMaskLabel> = Vec::new();
    if m.contains(EnumEventMask::Mouse()) {
        v.push(EnumEventMaskLabel::AllMouse);
    } else {
        push_label_if(&mut v, m.contains(EnumEventMask::MouseBtn()), EnumEventMaskLabel::MouseButton);
        push_label_if(&mut v, m.contains(EnumEventMask::MouseScroll()), EnumEventMaskLabel::MouseScroll);
    }
    push_label_if(&mut v, m.contains(EnumEventMask::Keyboard()), EnumEventMaskLabel::Keyboard);
    push_label_if(&mut v, m.contains(EnumEventMask::DragAndDrop()), EnumEventMaskLabel::DragAndDrop);
    assert(v@ =~= spec_partial_input_labels(m@));
    v
}

/// The first line of a mask description and the start of the second.
fn mask_header(bits: u16) -> (r: String)
    ensures
        r@ == "["@ + spec_binary_digits(bits) + "]\n"@ + spec_log_indent() + "Events: "@,
{
    let mut s = String::new();
    s.append("[");
    let digits = binary_digits(bits);
    s.append(digits.as_str());
    s.append("]\n");
    append_spaces(&mut s, 115);
    s.append("Events: ");
    assert(s@ =~= "["@ + spec_binary_digits(bits) + "]\n"@ + spec_log_indent() + "Events: "@);
    s
}

/// The text of the parts `labels`, in order.
fn labels_text(labels: &Vec<EnumEventMaskLabel>) -> (r: String)
    ensures
        r@ == spec_labels_text(labels@),
{
    let mut s = String::new();
    let mut i: usize = 0;
    while i < labels.len()
        invariant
            i <= labels@.len(),
            s@ == spec_labels_text(labels@.take(i as int)),
        decreases labels.len() - i,
    {
        let label = labels[i];
        append_label_text(&mut s, label, i == 0);
        assert(labels@.take(i as int + 1).drop_last() =~= labels@.take(i as int));
        i = i + 1;
    }
    assert(labels@.take(labels@.len() as int) =~= labels@);
    s
}

/// Appends the text of one part of a mask description.
fn append_label_text(s: &mut String, label: EnumEventMaskLabel, first: bool)
    ensures
        final(s)@ == old(s)@ + spec_label_text(label, first),
{
    if !first {
        s.append("| ");
    }
    s.append(label.name());
    s.append(" (");
    let label_digits = binary_digits(label.mask().0);
    s.append(label_digits.as_str());
    s.append(")");
    if !label.closes() {
        s.append(" ");
    }
    assert(final(s)@ =~= old(s)@ + spec_label_text(label, first));
}

impl EnumEventMask {
    /// The parts that describe this mask, in the order they are written.
    pub fn describe(&self) -> (r: Vec<EnumEventMaskLabel>)
        ensures
            r@ == spec_mask_labels(self@),
    {
        let m = *self;
        if m.0 == 0 {
            let v = vec![EnumEventMaskLabel::Nothing];
            assert(v@ =~= spec_mask_labels(self@));
            return v;
        }
        if m.0 == 0xffff {
            let v = vec![EnumEventMaskLabel::Everything];
            assert(v@ =~= spec_mask_labels(self@));
            return v;
        }
        let mut v = describe_window(m);
        if m.contains(EnumEventMask::Input()) {
            v.push(EnumEventMaskLabel::AllInput);
            return v;
        }
        let mut rest = describe_partial_input(m);
        v.append(&mut rest);
        v
    }

    /// The description of this mask as the engine logs it.
    pub fn to_string(&self) -> (r: String)
        ensures
            r@ == spec_mask_text(self@),
    {
        let header = mask_header(self.0);
        let labels = self.describe();
        let text = labels_text(&labels);
        header.concat(text.as_str())
    }
}

} // verus!

verus! {

proof fn bv_boolean_algebra(x: u16, y: u16, z: u16)
    by (bit_vector)
    ensures
        x | y == y | x,
        x & y == y & x,
        (x | y) | z == x | (y | z),
        (x & y) & z == x & (y & z),
        x | x == x,
        x & x == x,
        x & (x | y) == x,
        x | (x & y) == x,
        x & (y | z) == (x & y) | (x & z),
        x | (y & z) == (x | y) & (x | z),
        !(x | y) == !x & !y,
        !(x & y) == !x | !y,
        !!x == x,
        x & !x == 0u16,
        x | !x == 0xffffu16,
{
}

/// Union and intersection of event masks form a boolean algebra: both are
/// commutative, associative and idempotent, each absorbs the other, they
/// distribute over each other, and complement obeys De Morgan's laws.
pub proof fn lemma_mask_boolean_algebra(a: EnumEventMask, b: EnumEventMask, c: EnumEventMask)
    ensures
        a@ | b@ == b@ | a@,
        a@ & b@ == b@ & a@,
        (a@ | b@) | c@ == a@ | (b@ | c@),
        (a@ & b@) & c@ == a@ & (b@ & c@),
        a@ | a@ == a@,
        a@ & a@ == a@,
        a@ & (a@ | b@) == a@,
        a@ | (a@ & b@) == a@,
        a@ & (b@ | c@) == (a@ & b@) | (a@ & c@),
        a@ | (b@ & c@) == (a@ | b@) & (a@ | c@),
        !(a@ | b@) == !a@ & !b@,
        !(a@ & b@) == !a@ | !b@,
        !!a@ == a@,
        a@ & !a@ == 0u16,
        a@ | !a@ == 0xffffu16,
{
    bv_boolean_algebra(a@, b@, c@);
}

proof fn bv_containment(x: u16, y: u16, z: u16)
    by (bit_vector)
    ensures
        x & x == x,
        (x & y == y && y & x == x) ==> x == y,
        (x & y == y && y & z == z) ==> x & z == z,
        (x & y == y) <==> (x | y == x),
        (x & y == y) <==> (y & !x == 0u16),
        (x | y) & x == x,
        x & (x & y) == x & y,
        x & 0u16 == 0u16,
        0xffffu16 & x == x,
{
}

/// Containment of masks is a partial order, and `a` contains `b` exactly when
/// adding `b` to `a` changes nothing, or when `b` has nothing outside `a`.
pub proof fn lemma_mask_containment(a: EnumEventMask, b: EnumEventMask, c: EnumEventMask)
    ensures
        bits_contain(a@, a@),
        bits_contain(a@, b@) && bits_contain(b@, a@) ==> a@ == b@,
        bits_contain(a@, b@) && bits_contain(b@, c@) ==> bits_contain(a@, c@),
        bits_contain(a@, b@) <==> (a@ | b@ == a@),
        bits_contain(a@, b@) <==> (b@ & !a@ == 0u16),
        bits_contain(a@ | b@, a@),
        bits_contain(a@, a@ & b@),
        bits_contain(a@, 0u16),
        bits_contain(0xffffu16, a@),
{
    bv_containment(a@, b@, c@);
}

proof fn bv_difference(x: u16, y: u16)
    by (bit_vector)
    ensures
        (x & !y) & y == 0u16,
        (x & !y) | (x & y) == x,
        x & (x & !y) == x & !y,
        x ^ y == (x & !y) | (y & !x),
{
}

/// The difference of two masks shares nothing with the mask removed, and
/// together with the intersection it gives back the first mask.
pub proof fn lemma_mask_difference(a: EnumEventMask, b: EnumEventMask)
    ensures
        (a@ & !b@) & b@ == 0u16,
        (a@ & !b@) | (a@ & b@) == a@,
        bits_contain(a@, a@ & !b@),
        a@ ^ b@ == (a@ & !b@) | (b@ & !a@),
{
    bv_difference(a@, b@);
}

proof fn bv_mask_constants()
    by (bit_vector)
    ensures
        0b1011111100000000u16 & 0b1000000100000000u16 == 0b1000000100000000u16,
        0b1011111100000000u16 & 0b1000001000000000u16 == 0b1000001000000000u16,
        0b1011111100000000u16 & 0b1000010000000000u16 == 0b1000010000000000u16,
        0b1011111100000000u16 & 0b1000100000000000u16 == 0b1000100000000000u16,
        0b1011111100000000u16 & 0b1001000000000000u16 == 0b1001000000000000u16,
        0b1011111100000000u16 & 0b1010000000000000u16 == 0b1010000000000000u16,
        0b0000000111111111u16 & 0b0000000100000001u16 == 0b0000000100000001u16,
        0b0000000111111111u16 & 0b0000000100000010u16 == 0b0000000100000010u16,
        0b0000000111111111u16 & 0b0000000100011100u16 == 0b0000000100011100u16,
        0b0000000111111111u16 & 0b0000000100001000u16 == 0b0000000100001000u16,
        0b0000000111111111u16 & 0b0000000100010000u16 == 0b0000000100010000u16,
        0b0000000100011100u16 & 0b0000000100001000u16 == 0b0000000100001000u16,
        0b0000000100011100u16 & 0b0000000100010000u16 == 0b0000000100010000u16,
        0b0000000100011100u16 & 0b0000000100000100u16 == 0b0000000100000100u16,
        0b1011111100000000u16 & 0b0000000111111111u16 == 0x0100u16,
        0b1011111100000000u16 & 0u16 == 0u16,
{
}

/// Every event other than an unknown one selects a non-empty mask that lies
/// inside either the window group or the input group, and the mouse and
/// keyboard groups lie inside the input group.
pub proof fn lemma_event_mask_groups(event: EnumEvent)
    ensures
        event !is UnknownEvent ==> spec_event_mask(event) != 0u16,
        event is UnknownEvent ==> spec_event_mask(event) == 0u16,
        bits_contain(mask_window(), spec_event_mask(event))
            || bits_contain(mask_input(), spec_event_mask(event)),
        bits_contain(mask_input(), mask_mouse()),
        bits_contain(mask_input(), mask_keyboard()),
        bits_contain(mask_input(), mask_drag_and_drop()),
        bits_contain(mask_mouse(), mask_mouse_btn()),
        bits_contain(mask_mouse(), mask_mouse_scroll()),
        bits_contain(mask_mouse(), mask_cursor_pos()),
        mask_window() & mask_input() == 0x0100u16,
{
    bv_mask_constants();
}

} // verus!
