use vstd::prelude::*;

verus! {

/// The index of the first entry of `srgb` that is true, if there is one.
pub open spec fn first_srgb(srgb: Seq<bool>) -> Option<int> {
    if exists|i: int| 0 <= i < srgb.len() && #[trigger] srgb[i] {
        Some(choose|i: int| 0 <= i < srgb.len() && #[trigger] srgb[i] && forall|k: int| 0 <= k < i ==> !srgb[k])
    } else {
        None
    }
}

/// Which of the reported formats a surface is configured with, given for
/// each format whether it is an sRGB format: the first sRGB one, else the
/// first one; `None` when no format was reported.
pub open spec fn chosen_format_index(srgb: Seq<bool>) -> Option<int> {
    if srgb.len() == 0 {
        None
    } else {
        match first_srgb(srgb) {
            Some(i) => Some(i),
            None => Some(0),
        }
    }
}

/// Picks the index of the surface format, as `chosen_format_index` says.
pub fn select_format_index(srgb: &Vec<bool>) -> (r: Option<usize>)
    ensures
        r.is_none() <==> srgb@.len() == 0,
        r.is_some() ==> r.unwrap() < srgb@.len(),
        r.is_some() ==> Some(r.unwrap() as int) == chosen_format_index(srgb@),
        r.is_some() && srgb@[r.unwrap() as int] ==> forall|k: int| 0 <= k < r.unwrap() ==> !srgb@[k],
        r.is_some() && !srgb@[r.unwrap() as int] ==> r.unwrap() == 0 && forall|k: int| 0 <= k < srgb@.len() ==> !srgb@[k],
{
    if srgb.len() == 0 {
        return None;
    }
    let mut i: usize = 0;
    while i < srgb.len()
        invariant
            i <= srgb.len(),
            forall|k: int| 0 <= k < i ==> !srgb@[k],
        decreases srgb.len() - i,
    {
        if srgb[i] {
            proof {
                lemma_first_srgb_at(srgb@, i as int);
            }
            return Some(i);
        }
        i = i + 1;
    }
    assert(!exists|j: int| 0 <= j < srgb@.len() && #[trigger] srgb@[j]);
    Some(0)
}

proof fn lemma_first_srgb_at(srgb: Seq<bool>, i: int)
    requires
        0 <= i < srgb.len(),
        srgb[i],
        forall|k: int| 0 <= k < i ==> !srgb[k],
    ensures
        first_srgb(srgb) == Some(i),
{
    let j = choose|j: int| 0 <= j < srgb.len() && #[trigger] srgb[j] && forall|k: int| 0 <= k < j ==> !srgb[k];
    assert(0 <= j < srgb.len() && srgb[j] && forall|k: int| 0 <= k < j ==> !srgb[k]) by {
        assert(0 <= i < srgb.len() && srgb[i] && forall|k: int| 0 <= k < i ==> !srgb[k]);
    }
    if j < i {
        assert(!srgb[j]);
    }
    if j > i {
        assert(!srgb[i]);
    }
}

#[verifier::external_type_specification]
#[verifier::external_body]
pub struct ExTextureFormat(wgpu::TextureFormat);

/// Whether a texture format stores its colour in the sRGB encoding.
pub uninterp spec fn srgb_format(f: wgpu::TextureFormat) -> bool;

/// Relies on `wgpu::TextureFormat::is_srgb` (defined in wgpu-types): whether the format is one of
/// the sRGB formats, which depends on the format alone.
pub assume_specification[ wgpu::TextureFormat::is_srgb ](f: &wgpu::TextureFormat) -> (r: bool)
    ensures
        r == srgb_format(*f),
;

/// The sRGB flag of each format in `formats`.
pub open spec fn srgb_flags(formats: Seq<wgpu::TextureFormat>) -> Seq<bool> {
    formats.map_values(|f: wgpu::TextureFormat| srgb_format(f))
}

/// Picks the format a surface is configured with from the formats it
/// reports: the first sRGB format, else the first format; `None` when
/// none is reported.
pub fn choose_surface_format(formats: &Vec<wgpu::TextureFormat>) -> (r: Option<wgpu::TextureFormat>)
    ensures
        r.is_none() <==> formats@.len() == 0,
        r.is_some() ==> exists|i: int|
            chosen_format_index(srgb_flags(formats@)) == Some(i) && 0 <= i < formats@.len() && r.unwrap() == formats@[i],
{
    let mut srgb: Vec<bool> = Vec::new();
    let mut i: usize = 0;
    while i < formats.len()
        invariant
            i <= formats@.len(),
            srgb@ == srgb_flags(formats@.take(i as int)),
        decreases formats.len() - i,
    {
        let flag = formats[i].is_srgb();
        srgb.push(flag);
        i = i + 1;
        assert(srgb@ =~= srgb_flags(formats@.take(i as int)));
    }
    assert(formats@.take(i as int) =~= formats@);
    match select_format_index(&srgb) {
        Some(k) => Some(formats[k]),
        None => None,
    }
}

#[verifier::external_type_specification]
#[verifier::external_body]
pub struct ExPresentMode(wgpu::PresentMode);

#[verifier::external_type_specification]
#[verifier::external_body]
pub struct ExCompositeAlphaMode(wgpu::CompositeAlphaMode);

/// The settings a surface is configured with, picked from what the adapter
/// reports it supports.
#[derive(Clone, Copy, Debug)]
pub struct SurfaceChoice {
    pub format: wgpu::TextureFormat,
    pub present_mode: wgpu::PresentMode,
    pub alpha_mode: wgpu::CompositeAlphaMode,
}

/// Picks a surface's settings from its reported capabilities: the format as
/// `choose_surface_format` does, and the first present mode and the first
/// alpha mode reported; `None` when any of the three lists is empty.
pub fn choose_surface(
    formats: &Vec<wgpu::TextureFormat>,
    present_modes: &Vec<wgpu::PresentMode>,
    alpha_modes: &Vec<wgpu::CompositeAlphaMode>,
) -> (r: Option<SurfaceChoice>)
    ensures
        r.is_none() <==> (formats@.len() == 0 || present_modes@.len() == 0 || alpha_modes@.len() == 0),
        r.is_some() ==> exists|i: int|
            chosen_format_index(srgb_flags(formats@)) == Some(i) && 0 <= i < formats@.len() && r.unwrap().format == formats@[i],
        r.is_some() ==> r.unwrap().present_mode == present_modes@[0],
        r.is_some() ==> r.unwrap().alpha_mode == alpha_modes@[0],
{
    if present_modes.len() == 0 || alpha_modes.len() == 0 {
        return None;
    }
    match choose_surface_format(formats) {
        Some(format) => Some(SurfaceChoice { format, present_mode: present_modes[0], alpha_mode: alpha_modes[0] }),
        None => None,
    }
}

} // verus!
