use gfx_trials::surface::{choose_surface, choose_surface_format, select_format_index};
use wgpu::{CompositeAlphaMode, PresentMode, TextureFormat};

#[test]
fn picks_first_srgb() {
    assert_eq!(select_format_index(&vec![false, true, true]), Some(1));
}

#[test]
fn falls_back_to_first() {
    assert_eq!(select_format_index(&vec![false, false]), Some(0));
}

#[test]
fn no_formats() {
    assert_eq!(select_format_index(&Vec::new()), None);
}

#[test]
fn surface_prefers_srgb_format() {
    let formats = vec![TextureFormat::Bgra8Unorm, TextureFormat::Rgba8Unorm, TextureFormat::Bgra8UnormSrgb];
    assert_eq!(choose_surface_format(&formats), Some(TextureFormat::Bgra8UnormSrgb));
}

#[test]
fn surface_falls_back_to_first_format() {
    let formats = vec![TextureFormat::Rgba16Float, TextureFormat::Bgra8Unorm];
    assert_eq!(choose_surface_format(&formats), Some(TextureFormat::Rgba16Float));
    assert_eq!(choose_surface_format(&Vec::new()), None);
}

#[test]
fn surface_takes_first_modes() {
    let formats = vec![TextureFormat::Rgba8Unorm, TextureFormat::Rgba8UnormSrgb];
    let present = vec![PresentMode::Mailbox, PresentMode::Fifo];
    let alpha = vec![CompositeAlphaMode::PreMultiplied, CompositeAlphaMode::Opaque];
    let choice = choose_surface(&formats, &present, &alpha).expect("all lists are non-empty");
    assert_eq!(choice.format, TextureFormat::Rgba8UnormSrgb);
    assert_eq!(choice.present_mode, PresentMode::Mailbox);
    assert_eq!(choice.alpha_mode, CompositeAlphaMode::PreMultiplied);
}

#[test]
fn surface_needs_every_capability() {
    let formats = vec![TextureFormat::Rgba8Unorm];
    let present = vec![PresentMode::Fifo];
    let alpha = vec![CompositeAlphaMode::Opaque];
    assert!(choose_surface(&Vec::new(), &present, &alpha).is_none());
    assert!(choose_surface(&formats, &Vec::new(), &alpha).is_none());
    assert!(choose_surface(&formats, &present, &Vec::new()).is_none());
    assert!(choose_surface(&formats, &present, &alpha).is_some());
}
