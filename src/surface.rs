use vstd::prelude::*;
use wgpu::TextureFormat;

verus! {

#[verifier::external_type_specification]
#[verifier::external_body]
pub struct ExTextureFormat(TextureFormat);

/// Whether a texture format applies the sRGB (gamma) transfer function.
pub uninterp spec fn is_srgb_format(format: TextureFormat) -> bool;

/// Relies on wgpu's `TextureFormat::is_srgb`, which tells whether a format is
/// the sRGB variant of its family; the answer depends on the format alone.
pub assume_specification[ TextureFormat::is_srgb ](format: &TextureFormat) -> (r: bool)
    ensures
        r == is_srgb_format(*format),
;

/// The frame latency that the surface is configured to queue at most.
pub const MAX_FRAME_LATENCY: u32 = 2;

/// Number of vertices drawn per frame: one triangle, generated in the shader.
pub const TRIANGLE_VERTEX_COUNT: u32 = 3;

/// Number of instances drawn per frame.
pub const TRIANGLE_INSTANCE_COUNT: u32 = 1;

/// A surface dimension raised to at least one pixel.
pub open spec fn at_least_one(v: u32) -> u32 {
    if v == 0 {
        1
    } else {
        v
    }
}

/// `i` is the index of the format to present with, given which formats of
/// the capability list are gamma-corrected: the first gamma-corrected one,
/// or else the first of the list.
pub open spec fn is_preferred_index(srgb: Seq<bool>, i: int) -> bool {
    &&& 0 <= i < srgb.len()
    &&& if exists|j: int| 0 <= j < srgb.len() && srgb[j] {
        srgb[i] && forall|j: int| 0 <= j < i ==> !srgb[j]
    } else {
        i == 0
    }
}

/// For each format of a capability list, whether it is gamma-corrected.
pub open spec fn srgb_flags(formats: Seq<TextureFormat>) -> Seq<bool> {
    formats.map_values(|f: TextureFormat| is_srgb_format(f))
}

/// The format chosen from a capability list, `None` when the list is empty.
pub open spec fn preferred_format(formats: Seq<TextureFormat>) -> Option<TextureFormat> {
    if formats.len() == 0 {
        None
    } else {
        Some(formats[choose|i: int| is_preferred_index(srgb_flags(formats), i)])
    }
}

/// At most one index is the preferred one.
pub proof fn lemma_preferred_index_unique(srgb: Seq<bool>, i: int, k: int)
    requires
        is_preferred_index(srgb, i),
        is_preferred_index(srgb, k),
    ensures
        i == k,
{
    if exists|j: int| 0 <= j < srgb.len() && srgb[j] {
        if i < k {
            assert(!srgb[i]);
        } else if k < i {
            assert(!srgb[k]);
        }
    }
}

/// Some flag is set at or before `k` with none set before it.
proof fn lemma_first_flag_exists(srgb: Seq<bool>, k: int)
    requires
        0 <= k < srgb.len(),
        srgb[k],
    ensures
        exists|m: int| is_preferred_index(srgb, m),
    decreases k,
{
    if exists|j: int| 0 <= j < k && srgb[j] {
        let j = choose|j: int| 0 <= j < k && srgb[j];
        lemma_first_flag_exists(srgb, j);
    } else {
        assert(is_preferred_index(srgb, k));
    }
}

/// Picks the index of the presentation format from the gamma flags of a
/// capability list: the first gamma-corrected entry, else the first entry.
pub fn choose_format_index(srgb: &Vec<bool>) -> (r: Option<usize>)
    ensures
        r is None <==> srgb@.len() == 0,
        r matches Some(i) ==> is_preferred_index(srgb@, i as int),
{
    if srgb.len() == 0 {
        return None;
    }
    let mut i: usize = 0;
    while i < srgb.len()
        invariant
            0 <= i <= srgb@.len(),
            forall|j: int| 0 <= j < i ==> !srgb@[j],
        decreases srgb@.len() - i,
    {
        if srgb[i] {
            return Some(i);
        }
        i = i + 1;
    }
    Some(0)
}

/// Picks the presentation format from a surface's capability list: the first
/// gamma-corrected format, else the first format listed; `None` when the
/// list is empty.
pub fn select_format(formats: &Vec<TextureFormat>) -> (r: Option<TextureFormat>)
    ensures
        r == preferred_format(formats@),
        r is None <==> formats@.len() == 0,
        (exists|k: int| 0 <= k < formats@.len() && is_srgb_format(formats@[k])) ==> (r matches Some(
            f,
        ) && is_srgb_format(f)),
{
    let mut srgb: Vec<bool> = Vec::new();
    let mut i: usize = 0;
    while i < formats.len()
        invariant
            0 <= i <= formats@.len(),
            srgb@ == srgb_flags(formats@.subrange(0, i as int)),
        decreases formats@.len() - i,
    {
        let flag = formats[i].is_srgb();
        srgb.push(flag);
        i = i + 1;
        assert(formats@.subrange(0, i as int) == formats@.subrange(0, i - 1).push(formats@[i - 1]));
    }
    assert(formats@.subrange(0, formats@.len() as int) == formats@);
    match choose_format_index(&srgb) {
        None => None,
        Some(i) => {
            proof {
                let k = choose|k: int| is_preferred_index(srgb_flags(formats@), k);
                lemma_preferred_index_unique(srgb@, i as int, k);
                if exists|k: int| 0 <= k < formats@.len() && is_srgb_format(formats@[k]) {
                    let k = choose|k: int| 0 <= k < formats@.len() && is_srgb_format(formats@[k]);
                    assert(srgb@[k]);
                }
            }
            Some(formats[i])
        },
    }
}

/// How presented frames are paced against the display.
#[derive(Clone, Copy, Debug, PartialEq, Eq, Structural)]
pub enum PresentMode {
    AutoVsync,
    AutoNoVsync,
    Fifo,
    FifoRelaxed,
    Immediate,
    Mailbox,
}

/// How the surface's alpha channel is composited with the desktop.
#[derive(Clone, Copy, Debug, PartialEq, Eq, Structural)]
pub enum AlphaMode {
    Auto,
    Opaque,
    PreMultiplied,
    PostMultiplied,
    Inherit,
}

/// The configuration applied to a presentation surface. The surface is
/// always used as a render target and has no extra view formats.
#[derive(Clone, Copy, Debug)]
pub struct SurfaceConfig {
    pub width: u32,
    pub height: u32,
    pub format: TextureFormat,
    pub present_mode: PresentMode,
    pub desired_maximum_frame_latency: u32,
    pub alpha_mode: AlphaMode,
}

/// Why the surface could not be set up.
#[derive(Clone, Copy, Debug, PartialEq, Eq, Structural)]
pub enum SetupError {
    /// The surface reported no supported format at all.
    NoSurfaceFormat,
}

/// A size in physical pixels.
#[derive(Clone, Copy, Debug, PartialEq, Eq, Structural)]
pub struct Extent {
    pub width: u32,
    pub height: u32,
}

/// A size raised to at least one pixel in each dimension.
pub open spec fn clamped(width: u32, height: u32) -> Extent {
    Extent { width: at_least_one(width), height: at_least_one(height) }
}

/// A window size raised to at least one pixel in each dimension.
pub fn clamp_extent(width: u32, height: u32) -> (r: Extent)
    ensures
        r == clamped(width, height),
        r.width >= 1 && r.height >= 1,
{
    Extent { width: width.max(1), height: height.max(1) }
}

/// The first configuration of a surface: the window size clamped to at least
/// one pixel, the preferred format of the capability list, no vsync, a frame
/// latency of two and automatic alpha compositing. Fails when the capability
/// list is empty.
pub fn initial_config(width: u32, height: u32, formats: &Vec<TextureFormat>) -> (r: Result<
    SurfaceConfig,
    SetupError,
>)
    ensures
        r is Err <==> formats@.len() == 0,
        r matches Err(e) ==> e == SetupError::NoSurfaceFormat,
        r matches Ok(c) ==> {
            &&& c.width == at_least_one(width)
            &&& c.height == at_least_one(height)
            &&& Some(c.format) == preferred_format(formats@)
            &&& c.present_mode == PresentMode::AutoNoVsync
            &&& c.desired_maximum_frame_latency == MAX_FRAME_LATENCY
            &&& c.alpha_mode == AlphaMode::Auto
        },
        r matches Ok(c) ==> ((exists|k: int| 0 <= k < formats@.len() && is_srgb_format(formats@[k]))
            ==> is_srgb_format(c.format)),
{
    let size = clamp_extent(width, height);
    match select_format(formats) {
        None => Err(SetupError::NoSurfaceFormat),
        Some(format) => Ok(
            SurfaceConfig {
                width: size.width,
                height: size.height,
                format,
                present_mode: PresentMode::AutoNoVsync,
                desired_maximum_frame_latency: MAX_FRAME_LATENCY,
                alpha_mode: AlphaMode::Auto,
            },
        ),
    }
}

impl SurfaceConfig {
    /// The same configuration for a new window size, clamped to at least one
    /// pixel in each dimension; every other field is kept.
    pub fn resized(&self, width: u32, height: u32) -> (r: SurfaceConfig)
        ensures
            r.width == at_least_one(width),
            r.height == at_least_one(height),
            r.width >= 1 && r.height >= 1,
            r.format == self.format,
            r.present_mode == self.present_mode,
            r.desired_maximum_frame_latency == self.desired_maximum_frame_latency,
            r.alpha_mode == self.alpha_mode,
    {
        let size = clamp_extent(width, height);
        SurfaceConfig { width: size.width, height: size.height, ..*self }
    }
}

/// What came of asking the surface for its next frame.
#[derive(Clone, Copy, Debug, PartialEq, Eq, Structural)]
pub enum AcquireOutcome {
    /// A frame was handed out.
    Acquired,
    /// No frame became available in time.
    Timeout,
    /// The surface no longer matches its configuration (e.g. a resize raced).
    Outdated,
    /// The surface was lost.
    Lost,
    /// The device ran out of memory.
    OutOfMemory,
    /// Any other failure to hand out a frame.
    Other,
}

/// What the renderer does with the outcome of a frame acquisition.
#[derive(Clone, Copy, Debug, PartialEq, Eq, Structural)]
pub enum FrameAction {
    /// Render into the frame and present it.
    Present,
    /// Skip this frame and ask the window for another redraw.
    SkipAndRedraw,
    /// Stop: the failure cannot be recovered from.
    Fatal,
}

/// The action for each acquisition outcome: memory exhaustion is fatal,
/// every other failure skips the frame and asks for another redraw.
pub open spec fn frame_action_spec(outcome: AcquireOutcome) -> FrameAction {
    match outcome {
        AcquireOutcome::Acquired => FrameAction::Present,
        AcquireOutcome::OutOfMemory => FrameAction::Fatal,
        _ => FrameAction::SkipAndRedraw,
    }
}

/// Decides what to do with the outcome of a frame acquisition.
pub fn frame_action(outcome: AcquireOutcome) -> (r: FrameAction)
    ensures
        r == frame_action_spec(outcome),
{
    match outcome {
        AcquireOutcome::Acquired => FrameAction::Present,
        AcquireOutcome::OutOfMemory => FrameAction::Fatal,
        _ => FrameAction::SkipAndRedraw,
    }
}

/// A transient acquisition failure (anything but memory exhaustion) never
/// stops the renderer: the frame is skipped and another redraw is requested.
pub proof fn lemma_transient_failure_redraws(outcome: AcquireOutcome)
    requires
        outcome != AcquireOutcome::Acquired,
        outcome != AcquireOutcome::OutOfMemory,
    ensures
        frame_action_spec(outcome) == FrameAction::SkipAndRedraw,
        frame_action_spec(outcome) != FrameAction::Fatal,
{
}

/// Given a capability list whose first entry is not gamma-corrected but some
/// later entry is, the chosen format is gamma-corrected, hence not the first
/// entry.
pub proof fn lemma_gamma_format_preferred(formats: Seq<TextureFormat>, k: int)
    requires
        0 < k < formats.len(),
        is_srgb_format(formats[k]),
        !is_srgb_format(formats[0]),
    ensures
        preferred_format(formats) matches Some(f) && is_srgb_format(f) && f != formats[0],
{
    let srgb = srgb_flags(formats);
    assert(srgb[k]);
    lemma_first_flag_exists(srgb, k);
}

} // verus!
