//! The decisions the Vulkan back end makes while it picks a device and sets
//! up its swap chain, over the plain values the driver reports: queue
//! families, surface formats and present modes, extents, sample counts,
//! driver versions and the names of supported extensions and layers.

use vstd::prelude::*;

use crate::strings::{append_dec, spec_dec, str_eq, spec_split, spec_split_once, spec_views, str_split, str_split_once};

verus! {

/// Errors raised while the Vulkan context is set up.
#[derive(Debug, Copy, Clone, PartialEq, Eq, Structural, Hash)]
pub enum EnumVkError {
    NotSupported,
    NoActiveWindow,
    LayerError,
    ExtensionError,
    InstanceError,
    DebugError,
    PhysicalDeviceError,
    LogicalDeviceError,
    SurfaceError,
    SwapError,
    SwapImagesError,
    MSAAError,
}

/// Errors raised by Vulkan textures: an internal format the device cannot
/// hold, or an error of the context underneath.
#[derive(Debug, Copy, Clone, PartialEq, Eq, Structural, Hash)]
pub enum EnumVkTextureError {
    InvalidInternalFormat,
    InternalError(EnumVkError),
}

/// The queue families a device offers for drawing and for presenting.
#[derive(Debug, Copy, Clone, PartialEq, Eq, Structural, Hash)]
pub struct VkQueueFamilyIndices {
    pub m_graphics_family_index: Option<u32>,
    pub m_present_family_index: Option<u32>,
}

/// `VK_FORMAT_B8G8R8A8_SRGB`.
pub const C_VK_FORMAT_B8G8R8A8_SRGB: i32 = 50;
/// `VK_COLOR_SPACE_SRGB_NONLINEAR_KHR`.
pub const C_VK_COLOR_SPACE_SRGB_NONLINEAR: i32 = 0;
/// `VK_PRESENT_MODE_IMMEDIATE_KHR`, `MAILBOX` and `FIFO`.
pub const C_VK_PRESENT_MODE_IMMEDIATE: i32 = 0;
pub const C_VK_PRESENT_MODE_MAILBOX: i32 = 1;
pub const C_VK_PRESENT_MODE_FIFO: i32 = 2;

/// The last index below `n` whose flag in `flags` is set.
pub open spec fn spec_last_set(flags: Seq<bool>, n: int) -> Option<u32>
    decreases n,
{
    if n <= 0 {
        None
    } else if flags[n - 1] {
        Some((n - 1) as u32)
    } else {
        spec_last_set(flags, n - 1)
    }
}

impl VkQueueFamilyIndices {
    /// No family known yet.
    pub fn default() -> (r: VkQueueFamilyIndices)
        ensures
            r.m_graphics_family_index is None,
            r.m_present_family_index is None,
    {
        VkQueueFamilyIndices { m_graphics_family_index: None, m_present_family_index: None }
    }
}

/// The families a device offers, given for each family whether it draws
/// (`graphics`) and whether presenting to the surface could be asked of it
/// (`present`): the last family of each kind. A device without families is
/// refused (`PhysicalDeviceError`).
pub fn query_queue_families(graphics: &Vec<bool>, present: &Vec<bool>) -> (r: Result<VkQueueFamilyIndices, EnumVkError>)
    requires
        graphics@.len() == present@.len(),
        graphics@.len() <= u32::MAX,
    ensures
        graphics@.len() == 0 ==> r == Err::<VkQueueFamilyIndices, EnumVkError>(EnumVkError::PhysicalDeviceError),
        graphics@.len() > 0 ==> r == Ok::<VkQueueFamilyIndices, EnumVkError>(
            VkQueueFamilyIndices {
                m_graphics_family_index: spec_last_set(graphics@, graphics@.len() as int),
                m_present_family_index: spec_last_set(present@, present@.len() as int),
            },
        ),
{
    if graphics.len() == 0 {
        return Err(EnumVkError::PhysicalDeviceError);
    }
    let mut indices = VkQueueFamilyIndices::default();
    let mut k: usize = 0;
    while k < graphics.len()
        invariant
            0 <= k <= graphics@.len() == present@.len() <= u32::MAX,
            indices.m_graphics_family_index == spec_last_set(graphics@, k as int),
            indices.m_present_family_index == spec_last_set(present@, k as int),
        decreases graphics.len() - k,
    {
        if graphics[k] {
            indices.m_graphics_family_index = Some(k as u32);
        }
        if present[k] {
            indices.m_present_family_index = Some(k as u32);
        }
        k = k + 1;
    }
    Ok(indices)
}

/// A device is suitable when its families were read and it has a family
/// for drawing and one for presenting.
pub fn is_device_suitable(families: &Result<VkQueueFamilyIndices, EnumVkError>) -> (r: bool)
    ensures
        r == (families matches Ok(f) && f.m_graphics_family_index is Some && f.m_present_family_index is Some),
{
    match families {
        Ok(f) => f.m_graphics_family_index.is_some() && f.m_present_family_index.is_some(),
        Err(_) => false,
    }
}

/// The first suitable device among those found (`suitable`, one flag per
/// device); none found, or none suitable, is `PhysicalDeviceError`.
pub fn pick_physical_device(suitable: &Vec<bool>) -> (r: Result<usize, EnumVkError>)
    ensures
        r matches Ok(i) ==> i < suitable@.len() && suitable@[i as int] && forall|j: int| 0 <= j < i ==> !suitable@[j],
        r is Err ==> r == Err::<usize, EnumVkError>(EnumVkError::PhysicalDeviceError) && forall|j: int|
            0 <= j < suitable@.len() ==> !suitable@[j],
{
    let mut k: usize = 0;
    while k < suitable.len()
        invariant
            0 <= k <= suitable@.len(),
            forall|j: int| 0 <= j < k ==> !suitable@[j],
        decreases suitable.len() - k,
    {
        if suitable[k] {
            return Ok(k);
        }
        k = k + 1;
    }
    Err(EnumVkError::PhysicalDeviceError)
}

/// The surface format used: the first in 8-bit BGRA sRGB with the
/// non-linear sRGB color space; none is `SurfaceError`.
pub fn pick_swap_format(formats: &Vec<(i32, i32)>) -> (r: Result<(i32, i32), EnumVkError>)
    ensures
        r matches Ok(f) ==> f == (C_VK_FORMAT_B8G8R8A8_SRGB, C_VK_COLOR_SPACE_SRGB_NONLINEAR)
            && formats@.contains(f),
        r is Err ==> r == Err::<(i32, i32), EnumVkError>(EnumVkError::SurfaceError) && !formats@.contains(
            (C_VK_FORMAT_B8G8R8A8_SRGB, C_VK_COLOR_SPACE_SRGB_NONLINEAR),
        ),
{
    let mut k: usize = 0;
    while k < formats.len()
        invariant
            0 <= k <= formats@.len(),
            forall|j: int| 0 <= j < k ==> formats@[j] != (C_VK_FORMAT_B8G8R8A8_SRGB, C_VK_COLOR_SPACE_SRGB_NONLINEAR),
        decreases formats.len() - k,
    {
        let f = formats[k];
        if f.0 == C_VK_FORMAT_B8G8R8A8_SRGB && f.1 == C_VK_COLOR_SPACE_SRGB_NONLINEAR {
            assert(formats@[k as int] == f);
            return Ok(f);
        }
        k = k + 1;
    }
    Err(EnumVkError::SurfaceError)
}

fn contains_mode(modes: &Vec<i32>, mode: i32) -> (r: bool)
    ensures
        r == modes@.contains(mode),
{
    let mut k: usize = 0;
    while k < modes.len()
        invariant
            0 <= k <= modes@.len(),
            forall|j: int| 0 <= j < k ==> modes@[j] != mode,
        decreases modes.len() - k,
    {
        if modes[k] == mode {
            assert(modes@[k as int] == mode);
            return true;
        }
        k = k + 1;
    }
    false
}

/// The present mode used: with synchronization asked for, mailbox where
/// offered, else first-in first-out where offered; otherwise immediate.
pub fn pick_swap_presentation_mode(vsync_requested: bool, modes: &Vec<i32>) -> (r: i32)
    ensures
        r == (if vsync_requested && modes@.contains(C_VK_PRESENT_MODE_MAILBOX) {
            C_VK_PRESENT_MODE_MAILBOX
        } else if vsync_requested && modes@.contains(C_VK_PRESENT_MODE_FIFO) {
            C_VK_PRESENT_MODE_FIFO
        } else {
            C_VK_PRESENT_MODE_IMMEDIATE
        }),
{
    if vsync_requested && contains_mode(modes, C_VK_PRESENT_MODE_MAILBOX) {
        return C_VK_PRESENT_MODE_MAILBOX;
    }
    if vsync_requested && contains_mode(modes, C_VK_PRESENT_MODE_FIFO) {
        return C_VK_PRESENT_MODE_FIFO;
    }
    C_VK_PRESENT_MODE_IMMEDIATE
}

/// `v` brought within `lo` and `hi` (`lo` at most `hi`).
pub open spec fn spec_clamp(v: u32, lo: u32, hi: u32) -> u32 {
    if v < lo {
        lo
    } else if v > hi {
        hi
    } else {
        v
    }
}

/// `v` capped at `hi`, then raised to `lo`.
pub open spec fn spec_min_max(v: u32, lo: u32, hi: u32) -> u32 {
    let capped = if v < hi {
        v
    } else {
        hi
    };
    if capped > lo {
        capped
    } else {
        lo
    }
}

/// The swap chain's extent: the surface's current one where it is set
/// (its width is not the maximum value); otherwise the desired dimensions
/// capped at the largest and raised to the smallest extent; otherwise the
/// window's framebuffer size (`framebuffer`, read as unsigned) clamped
/// between them.
pub fn pick_swap_extent(
    current: (u32, u32),
    min_extent: (u32, u32),
    max_extent: (u32, u32),
    desired: Option<[u32; 2]>,
    framebuffer: (i32, i32),
) -> (r: Result<(u32, u32), EnumVkError>)
    requires
        current.0 == u32::MAX && desired is None ==> min_extent.0 <= max_extent.0 && min_extent.1 <= max_extent.1,
    ensures
        r == Ok::<(u32, u32), EnumVkError>(
            if current.0 != u32::MAX {
                current
            } else {
                match desired {
                    Some(d) => (spec_min_max(d[0], min_extent.0, max_extent.0), spec_min_max(d[1], min_extent.1, max_extent.1)),
                    None => (
                        spec_clamp(framebuffer.0 as u32, min_extent.0, max_extent.0),
                        spec_clamp(framebuffer.1 as u32, min_extent.1, max_extent.1),
                    ),
                }
            },
        ),
{
    if current.0 != u32::MAX {
        return Ok(current);
    }
    match desired {
        Some(d) => {
            let w = if d[0] < max_extent.0 {
                d[0]
            } else {
                max_extent.0
            };
            let w = if w > min_extent.0 {
                w
            } else {
                min_extent.0
            };
            let h = if d[1] < max_extent.1 {
                d[1]
            } else {
                max_extent.1
            };
            let h = if h > min_extent.1 {
                h
            } else {
                min_extent.1
            };
            Ok((w, h))
        },
        None => {
            let fw = framebuffer.0 as u32;
            let fh = framebuffer.1 as u32;
            let w = if fw < min_extent.0 {
                min_extent.0
            } else if fw > max_extent.0 {
                max_extent.0
            } else {
                fw
            };
            let h = if fh < min_extent.1 {
                min_extent.1
            } else if fh > max_extent.1 {
                max_extent.1
            } else {
                fh
            };
            Ok((w, h))
        },
    }
}

/// The most samples usable: the largest count (64 down to 2) whose bit is
/// set in the smaller of the color and depth sample-count masks; 1 otherwise.
pub open spec fn spec_max_msaa(color: u32, depth: u32) -> u8 {
    let m = if color < depth {
        color
    } else {
        depth
    };
    if m & 64 == 64 {
        64
    } else if m & 32 == 32 {
        32
    } else if m & 16 == 16 {
        16
    } else if m & 8 == 8 {
        8
    } else if m & 4 == 4 {
        4
    } else if m & 2 == 2 {
        2
    } else {
        1
    }
}

pub fn max_msaa_count(color_counts: u32, depth_counts: u32) -> (r: u8)
    ensures
        r == spec_max_msaa(color_counts, depth_counts),
{
    let m = if color_counts < depth_counts {
        color_counts
    } else {
        depth_counts
    };
    if m & 64 == 64 {
        64
    } else if m & 32 == 32 {
        32
    } else if m & 16 == 16 {
        16
    } else if m & 8 == 8 {
        8
    } else if m & 4 == 4 {
        4
    } else if m & 2 == 2 {
        2
    } else {
        1
    }
}

/// The driver version as its vendor numbers it: four fields (10, 8, 8 and
/// 6 bits) for NVIDIA (vendor 0x10DE); two (the bits from 14 up, and the 14
/// low bits) for Intel (vendor 0x8086) on Windows (`windows`); else three
/// (10, 10 and 12 bits).
pub open spec fn spec_driver_version(raw: u32, vendor: u32, windows: bool) -> Seq<char> {
    if vendor == 0x10DE {
        spec_dec(((raw >> 22u32) & 0x3ffu32) as nat) + "."@ + spec_dec(((raw >> 14u32) & 0xffu32) as nat) + "."@
            + spec_dec(((raw >> 6u32) & 0xffu32) as nat) + "."@ + spec_dec((raw & 0x3fu32) as nat)
    } else if vendor == 0x8086 && windows {
        spec_dec((raw >> 14u32) as nat) + "."@ + spec_dec((raw & 0x3fffu32) as nat)
    } else {
        spec_dec((raw >> 22u32) as nat) + "."@ + spec_dec(((raw >> 12u32) & 0x3ffu32) as nat) + "."@
            + spec_dec((raw & 0xfffu32) as nat)
    }
}

/// The driver version `raw` of vendor `vendor` as text; `windows` tells
/// whether the engine runs on Windows, where Intel numbers its drivers
/// differently.
pub fn driver_version(raw: u32, vendor: u32, windows: bool) -> (r: String)
    ensures
        r@ == spec_driver_version(raw, vendor, windows),
{
    let mut s = String::new();
    if vendor == 0x10DE {
        append_dec(&mut s, ((raw >> 22) & 0x3ff) as u64);
        s.append(".");
        append_dec(&mut s, ((raw >> 14) & 0xff) as u64);
        s.append(".");
        append_dec(&mut s, ((raw >> 6) & 0xff) as u64);
        s.append(".");
        append_dec(&mut s, (raw & 0x3f) as u64);
    } else if vendor == 0x8086 && windows {
        append_dec(&mut s, (raw >> 14) as u64);
        s.append(".");
        append_dec(&mut s, (raw & 0x3fff) as u64);
    } else {
        append_dec(&mut s, (raw >> 22) as u64);
        s.append(".");
        append_dec(&mut s, ((raw >> 12) & 0x3ff) as u64);
        s.append(".");
        append_dec(&mut s, (raw & 0xfff) as u64);
    }
    s
}

/// Whether `name` is among the `available` names (compared whole).
pub open spec fn spec_name_listed(available: Seq<String>, name: Seq<char>) -> bool {
    exists|a: int| 0 <= a < available.len() && (#[trigger] available[a])@ == name
}

/// Whether every `requested` name is among the `available` ones, in any order.
pub open spec fn spec_all_listed(available: Seq<String>, requested: Seq<String>) -> bool {
    forall|q: int| 0 <= q < requested.len() ==> spec_name_listed(available, (#[trigger] requested[q])@)
}

fn name_listed(available: &Vec<String>, name: &str) -> (r: bool)
    ensures
        r == spec_name_listed(available@, name@),
{
    let mut a: usize = 0;
    while a < available.len()
        invariant
            0 <= a <= available@.len(),
            forall|j: int| 0 <= j < a ==> (#[trigger] available@[j])@ != name@,
        decreases available.len() - a,
    {
        if str_eq(available[a].as_str(), name) {
            return true;
        }
        a = a + 1;
    }
    false
}

fn all_listed(available: &Vec<String>, requested: &Vec<String>) -> (r: bool)
    ensures
        r == spec_all_listed(available@, requested@),
{
    let mut q: usize = 0;
    while q < requested.len()
        invariant
            0 <= q <= requested@.len(),
            forall|j: int| 0 <= j < q ==> spec_name_listed(available@, (#[trigger] requested@[j])@),
        decreases requested.len() - q,
    {
        if !name_listed(available, requested[q].as_str()) {
            return false;
        }
        q = q + 1;
    }
    true
}

/// Whether the instance offers the extensions asked for: refused with
/// `ExtensionError` where its extensions cannot be listed (`listed`), and
/// with `NotSupported` where a requested name is not among the `available`
/// ones (each name searched whole, in any order).
pub fn check_extension_support(listed: bool, available: &Vec<String>, requested: &Vec<String>) -> (r: Result<(), EnumVkError>)
    ensures
        !listed ==> r == Err::<(), EnumVkError>(EnumVkError::ExtensionError),
        listed && spec_all_listed(available@, requested@) ==> r is Ok,
        listed && !spec_all_listed(available@, requested@) ==> r == Err::<(), EnumVkError>(EnumVkError::NotSupported),
{
    if !listed {
        return Err(EnumVkError::ExtensionError);
    }
    if !all_listed(available, requested) {
        return Err(EnumVkError::NotSupported);
    }
    Ok(())
}

/// Whether the instance offers the layers asked for: refused with
/// `ExtensionError` where its extensions cannot be listed
/// (`extensions_listed`), and with `NotSupported` where a requested layer is
/// not among the `available` ones (each name searched whole, in any order).
pub fn check_layer_support(extensions_listed: bool, available: &Vec<String>, requested: &Vec<String>) -> (r: Result<(), EnumVkError>)
    ensures
        !extensions_listed ==> r == Err::<(), EnumVkError>(EnumVkError::ExtensionError),
        extensions_listed && spec_all_listed(available@, requested@) ==> r is Ok,
        extensions_listed && !spec_all_listed(available@, requested@) ==> r == Err::<(), EnumVkError>(
            EnumVkError::NotSupported,
        ),
{
    if !extensions_listed {
        return Err(EnumVkError::ExtensionError);
    }
    if !all_listed(available, requested) {
        return Err(EnumVkError::NotSupported);
    }
    Ok(())
}


/// The severity of a driver notification.
#[derive(Debug, Copy, Clone, PartialEq, Eq, Structural, Hash)]
pub enum EnumVkSeverity {
    Verbose,
    Info,
    Warning,
    Error,
}

/// A driver notification as it is reported: its type (where the driver gave
/// none, the notification's type flags are shown instead), identifier,
/// function and message.
#[derive(Debug, Clone)]
pub struct VkDriverMessage {
    pub m_type: Option<String>,
    pub m_id: String,
    pub m_function: String,
    pub m_message: String,
}

/// What a driver notification calls for.
#[derive(Debug, Clone)]
pub enum EnumVkDriverNotice {
    /// Nothing is reported.
    Ignored,
    /// The notification is reported as a warning.
    Warning(VkDriverMessage),
    /// The notification is reported as an error and ends the program with
    /// the text given.
    Fatal(VkDriverMessage, String),
    /// A warning without an identifier, which cannot be reported and ends the
    /// program.
    Malformed,
}

/// The function and message of a notification's part: cut at its first
/// colon; where it has none, an empty function ("Empty") and the whole part.
pub open spec fn spec_function_and_message(part: Seq<char>) -> (Seq<char>, Seq<char>) {
    match spec_split_once(part, ':') {
        Some(cut) => cut,
        None => ("Empty"@, part),
    }
}

/// Whether `m` is reported with these type, identifier, function and message.
pub open spec fn spec_message_is(
    m: VkDriverMessage,
    ty: Option<Seq<char>>,
    id: Seq<char>,
    function: Seq<char>,
    message: Seq<char>,
) -> bool {
    &&& match m.m_type {
        Some(t) => ty == Some(t@),
        None => ty is None,
    }
    &&& m.m_id@ == id
    &&& m.m_function@ == function
    &&& m.m_message@ == message
}

fn function_and_message<'a>(part: &'a str) -> (r: (&'a str, &'a str))
    ensures
        (r.0@, r.1@) == spec_function_and_message(part@),
{
    match str_split_once(part, ':') {
        Some(cut) => cut,
        None => ("Empty", part),
    }
}

/// What a driver notification of `severity` with text `message` calls for.
/// The text holds fields separated by `|`: type, identifier, then function
/// and message separated by `:`. Verbose and informative notifications are
/// not reported. A warning is reported with its first two fields and the
/// function and message of its third (both "Empty" where it has no third); a
/// warning with a single field is malformed. An error with three fields or
/// more is fatal, and ends with its message; one with a single field is
/// fatal too, the field standing as identifier and as the text it ends with;
/// one with exactly two fields is not reported.
pub fn driver_notice(severity: EnumVkSeverity, message: &str) -> (r: EnumVkDriverNotice)
    ensures
        ({
            let parts = spec_split(message@, '|');
            match severity {
                EnumVkSeverity::Verbose | EnumVkSeverity::Info => r is Ignored,
                EnumVkSeverity::Warning => if parts.len() < 2 {
                    r is Malformed
                } else if parts.len() > 2 {
                    r matches EnumVkDriverNotice::Warning(m) && spec_message_is(
                        m,
                        Some(parts[0]),
                        parts[1],
                        spec_function_and_message(parts[2]).0,
                        spec_function_and_message(parts[2]).1,
                    )
                } else {
                    r matches EnumVkDriverNotice::Warning(m) && spec_message_is(
                        m,
                        Some(parts[0]),
                        parts[1],
                        "Empty"@,
                        "Empty"@,
                    )
                },
                EnumVkSeverity::Error => if parts.len() > 2 {
                    r matches EnumVkDriverNotice::Fatal(m, text) && spec_message_is(
                        m,
                        Some(parts[0]),
                        parts[1],
                        spec_function_and_message(parts[2]).0,
                        spec_function_and_message(parts[2]).1,
                    ) && text@ == spec_function_and_message(parts[2]).1
                } else if parts.len() == 1 {
                    r matches EnumVkDriverNotice::Fatal(m, text) && spec_message_is(
                        m,
                        None,
                        parts[0],
                        spec_function_and_message(parts[0]).0,
                        spec_function_and_message(parts[0]).1,
                    ) && text@ == parts[0]
                } else {
                    r is Ignored
                },
            }
        }),
{
    match severity {
        EnumVkSeverity::Verbose | EnumVkSeverity::Info => EnumVkDriverNotice::Ignored,
        EnumVkSeverity::Warning => {
            let parts = str_split(message, '|');
            proof {
                assert(spec_views(parts@).len() == parts@.len());
            }
            if parts.len() < 2 {
                return EnumVkDriverNotice::Malformed;
            }
            let (function, text) = if parts.len() > 2 {
                assert(spec_views(parts@)[2] == parts@[2]@);
                function_and_message(parts[2])
            } else {
                ("Empty", "Empty")
            };
            assert(spec_views(parts@)[0] == parts@[0]@);
            assert(spec_views(parts@)[1] == parts@[1]@);
            EnumVkDriverNotice::Warning(
                VkDriverMessage {
                    m_type: Some(parts[0].to_owned()),
                    m_id: parts[1].to_owned(),
                    m_function: function.to_owned(),
                    m_message: text.to_owned(),
                },
            )
        },
        EnumVkSeverity::Error => {
            let parts = str_split(message, '|');
            proof {
                assert(spec_views(parts@).len() == parts@.len());
                crate::strings::lemma_split_nonempty(message@, '|');
            }
            assert(spec_views(parts@)[0] == parts@[0]@);
            if parts.len() > 2 {
                assert(spec_views(parts@)[1] == parts@[1]@);
                assert(spec_views(parts@)[2] == parts@[2]@);
                let (function, text) = function_and_message(parts[2]);
                EnumVkDriverNotice::Fatal(
                    VkDriverMessage {
                        m_type: Some(parts[0].to_owned()),
                        m_id: parts[1].to_owned(),
                        m_function: function.to_owned(),
                        m_message: text.to_owned(),
                    },
                    text.to_owned(),
                )
            } else if parts.len() == 1 {
                let (function, text) = function_and_message(parts[0]);
                EnumVkDriverNotice::Fatal(
                    VkDriverMessage {
                        m_type: None,
                        m_id: parts[0].to_owned(),
                        m_function: function.to_owned(),
                        m_message: text.to_owned(),
                    },
                    parts[0].to_owned(),
                )
            } else {
                EnumVkDriverNotice::Ignored
            }
        },
    }
}

/// The validation layer every instance is created with.
pub open spec fn spec_validation_layer() -> Seq<char> {
    "VK_LAYER_KHRONOS_validation"@
}

/// The layers an instance is created with: the validation layer, then the
/// `additional_layers` in order. A name holding a nul character cannot be
/// passed to the driver and is left out.
pub fn load_layers(additional_layers: Option<Vec<&str>>) -> (r: Result<Vec<String>, EnumVkError>)
    requires
        additional_layers matches Some(v) ==> forall|k: int, c: int|
            0 <= k < v@.len() && 0 <= c < v@[k]@.len() ==> (#[trigger] v@[k]@[c]) != '\0',
    ensures
        r matches Ok(layers) && spec_string_views(layers@) == seq![spec_validation_layer()] + match additional_layers {
            Some(v) => v@.map_values(|n: &str| n@),
            None => Seq::empty(),
        },
{
    let mut layers: Vec<String> = Vec::new();
    layers.push("VK_LAYER_KHRONOS_validation".to_owned());
    let ghost head = spec_string_views(layers@);
    assert(head =~= seq![spec_validation_layer()]);
    match additional_layers {
        None => {
            assert(spec_string_views(layers@) =~= seq![spec_validation_layer()] + Seq::<Seq<char>>::empty());
            Ok(layers)
        },
        Some(v) => {
            let mut k: usize = 0;
            while k < v.len()
                invariant
                    0 <= k <= v@.len(),
                    spec_string_views(layers@) == seq![spec_validation_layer()] + v@.take(k as int).map_values(
                        |n: &str| n@,
                    ),
                decreases v.len() - k,
            {
                let ghost before = layers@;
                let name = v[k].to_owned();
                layers.push(name);
                assert(spec_string_views(layers@) =~= spec_string_views(before).push(v@[k as int]@));
                assert(v@.take(k + 1).map_values(|n: &str| n@) =~= v@.take(k as int).map_values(|n: &str| n@).push(
                    v@[k as int]@,
                ));
                assert(spec_string_views(layers@) =~= seq![spec_validation_layer()] + v@.take(k + 1).map_values(
                    |n: &str| n@,
                ));
                k = k + 1;
            }
            assert(v@.take(v@.len() as int) =~= v@);
            Ok(layers)
        },
    }
}

/// The text of each string.
pub open spec fn spec_string_views(v: Seq<String>) -> Seq<Seq<char>> {
    v.map_values(|s: String| s@)
}
} // verus!
