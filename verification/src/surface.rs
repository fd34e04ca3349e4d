//! Surface format choice and the surface configuration.
//!
//! The host reads the surface's capabilities from the adapter and hands them
//! over as plain values: for each advertised pixel format an identifier of
//! the host's choosing and whether that format is sRGB-capable, and for each
//! advertised alpha mode an identifier. The session configures the first
//! sRGB-capable format, or the first advertised format when none is, at the
//! current size, with render-target usage, vsync-coupled presentation, the
//! first advertised alpha mode, and no additional view formats.

use vstd::prelude::*;

verus! {

/// What the session reads of one advertised pixel format: an identifier
/// assigned by the host (opaque here) and whether the format is
/// sRGB-capable.
#[derive(Clone, Copy, PartialEq, Eq, Structural, Debug)]
pub struct FormatInfo {
    pub id: u32,
    pub srgb: bool,
}

/// A window or surface size in physical pixels.
#[derive(Clone, Copy, PartialEq, Eq, Structural, Debug)]
pub struct Extent {
    pub width: u32,
    pub height: u32,
}

/// Whether some advertised format is sRGB-capable.
pub open spec fn has_srgb(formats: Seq<FormatInfo>) -> bool {
    exists|i: int| 0 <= i < formats.len() && formats[i].srgb
}

/// Index of the first sRGB-capable format; the sequence's length when none
/// is sRGB-capable.
pub open spec fn first_srgb_index(formats: Seq<FormatInfo>) -> int
    decreases formats.len(),
{
    if formats.len() == 0 {
        0
    } else if formats[0].srgb {
        0
    } else {
        1 + first_srgb_index(formats.drop_first())
    }
}

/// The format the session configures: the first sRGB-capable format, or the
/// first advertised one when no sRGB candidate exists.
pub open spec fn chosen_format(formats: Seq<FormatInfo>) -> FormatInfo {
    if has_srgb(formats) {
        formats[first_srgb_index(formats)]
    } else {
        formats[0]
    }
}

/// When some format is sRGB-capable, `first_srgb_index` lies in range,
/// lands on an sRGB-capable format, and nothing before it is sRGB-capable.
pub proof fn lemma_first_srgb_index(formats: Seq<FormatInfo>)
    requires
        has_srgb(formats),
    ensures
        0 <= first_srgb_index(formats) < formats.len(),
        formats[first_srgb_index(formats)].srgb,
        forall|j: int| 0 <= j < first_srgb_index(formats) ==> !(#[trigger] formats[j]).srgb,
    decreases formats.len(),
{
    if formats[0].srgb {
    } else {
        let w = choose|i: int| 0 <= i < formats.len() && formats[i].srgb;
        assert(formats.drop_first()[w - 1] == formats[w]);
        assert(has_srgb(formats.drop_first()));
        lemma_first_srgb_index(formats.drop_first());
        let r = first_srgb_index(formats.drop_first());
        assert(formats.drop_first()[r] == formats[r + 1]);
        assert forall|j: int| 0 <= j < 1 + r implies !(#[trigger] formats[j]).srgb by {
            if j > 0 {
                assert(formats.drop_first()[j - 1] == formats[j]);
            }
        }
    }
}

/// Chooses the surface format from the advertised list: the first
/// sRGB-capable entry, or the first entry outright when none is
/// sRGB-capable.
pub fn choose_format(formats: &Vec<FormatInfo>) -> (choice: FormatInfo)
    requires
        formats@.len() > 0,
    ensures
        choice == chosen_format(formats@),
        has_srgb(formats@) ==> choice.srgb,
        !has_srgb(formats@) ==> choice == formats@[0],
{
    let n = formats.len();
    let mut i: usize = 0;
    while i < n
        invariant
            i <= n,
            n == formats@.len(),
            forall|j: int| 0 <= j < i ==> !(#[trigger] formats@[j]).srgb,
        decreases n - i,
    {
        if formats[i].srgb {
            proof {
                assert(has_srgb(formats@));
                lemma_first_srgb_index(formats@);
                let idx = first_srgb_index(formats@);
                if idx < i as int {
                    assert(!formats@[idx].srgb);
                }
                if idx > i as int {
                    assert(!formats@[i as int].srgb);
                }
                assert(idx == i as int);
            }
            return formats[i];
        }
        i += 1;
    }
    assert(!has_srgb(formats@));
    formats[0]
}

/// The surface configuration the session applies: render-target usage, the
/// chosen pixel format, the current size, vsync-coupled presentation, the
/// first advertised alpha mode, and no additional view formats (their count
/// is zero).
#[derive(Clone, Copy, PartialEq, Eq, Structural, Debug)]
pub struct SurfaceConfig {
    pub render_attachment_usage: bool,
    pub format: FormatInfo,
    pub width: u32,
    pub height: u32,
    pub vsync_present: bool,
    pub alpha_mode_id: u32,
    pub view_format_count: u32,
}

/// The configuration built for a given size and set of capabilities.
pub open spec fn configured(
    size: Extent,
    formats: Seq<FormatInfo>,
    alpha_mode_ids: Seq<u32>,
) -> SurfaceConfig {
    SurfaceConfig {
        render_attachment_usage: true,
        format: chosen_format(formats),
        width: size.width,
        height: size.height,
        vsync_present: true,
        alpha_mode_id: alpha_mode_ids[0],
        view_format_count: 0,
    }
}

/// Builds the surface configuration from the window's current size and the
/// advertised capabilities.
pub fn build_config(
    size: Extent,
    formats: &Vec<FormatInfo>,
    alpha_mode_ids: &Vec<u32>,
) -> (config: SurfaceConfig)
    requires
        formats@.len() > 0,
        alpha_mode_ids@.len() > 0,
    ensures
        config == configured(size, formats@, alpha_mode_ids@),
        config.width == size.width,
        config.height == size.height,
{
    let format = choose_format(formats);
    SurfaceConfig {
        render_attachment_usage: true,
        format,
        width: size.width,
        height: size.height,
        vsync_present: true,
        alpha_mode_id: alpha_mode_ids[0],
        view_format_count: 0,
    }
}

/// The chosen format is sRGB-capable whenever any advertised format is, and
/// is the first advertised format when no sRGB-capable candidate exists.
pub proof fn lemma_chosen_format_srgb_or_first(formats: Seq<FormatInfo>)
    requires
        formats.len() > 0,
    ensures
        has_srgb(formats) ==> chosen_format(formats).srgb,
        !has_srgb(formats) ==> chosen_format(formats) == formats[0],
{
    if has_srgb(formats) {
        lemma_first_srgb_index(formats);
    }
}

} // verus!
