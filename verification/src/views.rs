//! The texture views that the cameras of the two eyes render to.

use vstd::prelude::*;

verus! {

/// The eye that a view of the swapchain is rendered for.
#[derive(Clone, Copy, PartialEq, Eq, Structural, Debug)]
pub enum XrEye {
    Left,
    Right,
}

/// A view of the swapchain together with what a camera needs to know to
/// render to it. `V` is the renderer's view, `F` its texture format.
#[derive(PartialEq, Eq, Debug)]
pub struct XrTextureView<V, F> {
    pub eye: XrEye,
    pub texture_view: V,
    pub size: (u32, u32),
    pub format: F,
}

/// Makes the texture views of a session from the two render views of its
/// swapchain: the first is the left eye's, the second the right eye's, and
/// both have the resolution and the format of the session.
///
/// The views come in the order in which they are registered with the
/// renderer, the left one first.
pub fn setup_manual_texture_views<V, F: Copy>(
    render_views: (V, V),
    resolution: (u32, u32),
    format: F,
) -> (views: [XrTextureView<V, F>; 2])
    ensures
        views[0] == (XrTextureView {
            eye: XrEye::Left,
            texture_view: render_views.0,
            size: resolution,
            format,
        }),
        views[1] == (XrTextureView {
            eye: XrEye::Right,
            texture_view: render_views.1,
            size: resolution,
            format,
        }),
{
    let (left, right) = render_views;
    let left = XrTextureView { eye: XrEye::Left, texture_view: left, size: resolution, format };
    let right = XrTextureView { eye: XrEye::Right, texture_view: right, size: resolution, format };
    [left, right]
}

} // verus!
