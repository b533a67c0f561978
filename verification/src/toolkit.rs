//! Where this crate hands values to the toolkit under test.
use crate::window::BackendIcon;
use vstd::prelude::*;
use winit::window::{BadIcon, Icon};

verus! {

#[verifier::external_type_specification]
#[verifier::external_body]
pub struct ExIcon(Icon);

#[verifier::external_type_specification]
#[verifier::external_body]
pub struct ExBadIcon(BadIcon);

/// Whether `bytes` bytes are the pixels of an icon of `width` by `height`:
/// their number is divisible by four, and a quarter of it is the number of
/// pixels.
pub open spec fn spec_pixels_fit(bytes: nat, width: u32, height: u32) -> bool {
    bytes % 4 == 0 && bytes / 4 == width * height
}

/// Builds an icon of the toolkit with `winit::window::Icon::from_rgba`.
///
/// Trusted: the toolkit accepts the pixels exactly when their number of
/// bytes is divisible by four and the number of pixels is `width * height`.
/// The product is computed in 32 bits there, so it has to fit.
#[verifier::external_body]
fn icon_from_rgba(rgba: Vec<u8>, width: u32, height: u32) -> (icon: Result<Icon, BadIcon>)
    requires
        width * height <= u32::MAX,
    ensures
        icon.is_ok() == spec_pixels_fit(rgba@.len(), width, height),
{
    Icon::from_rgba(rgba, width, height)
}

impl BackendIcon {
    /// Whether the toolkit takes the icon: its pixel data must be exactly
    /// `width * height` pixels of four bytes, and that product must fit 32
    /// bits.
    pub open spec fn spec_is_acceptable(self) -> bool {
        self@.is_consistent() && self.width * self.height <= u32::MAX
    }

    /// Turns the icon into an icon of the toolkit. Returns `None` if and
    /// only if the toolkit does not take it.
    pub fn into_icon(self) -> (icon: Option<Icon>)
        ensures
            icon.is_some() <==> self.spec_is_acceptable(),
    {
        assert(self.width * self.height <= 0xffff_ffff * 0xffff_ffff) by (nonlinear_arith)
            requires
                0 <= self.width <= 0xffff_ffff,
                0 <= self.height <= 0xffff_ffff,
        ;
        let pixels: u64 = self.width as u64 * self.height as u64;
        if pixels > u32::MAX as u64 || !self.is_consistent() {
            return None;
        }
        match icon_from_rgba(self.rgba, self.width, self.height) {
            Ok(icon) => Some(icon),
            Err(_) => None,
        }
    }
}

} // verus!
