//! The overlay's own state, and how messages from the server change it.

use vstd::prelude::*;

use crate::client::ClientMessagePayload;

verus! {

/// The image that the overlay draws.
pub struct OverlayTextureInfo {
    pub width: u32,
    pub height: u32,
    pub bytes: Vec<u8>,
}

pub struct OverlayState {
    pub texture_info: Option<OverlayTextureInfo>,
}

impl OverlayState {
    /// The state before the server has sent anything: no texture.
    pub fn new() -> (state: OverlayState)
        ensures
            state.texture_info is None,
    {
        OverlayState { texture_info: None }
    }
}

/// Replaces the overlay's texture.
pub fn set_overlay_texture_info(
    overlay_state: &mut OverlayState,
    overlay_texture_info: OverlayTextureInfo,
)
    ensures
        final(overlay_state).texture_info == Some(overlay_texture_info),
{
    overlay_state.texture_info = Some(overlay_texture_info);
}

/// Applies a message from the server to the overlay's state.
///
/// A texture message replaces the texture. An activation message leaves the state as it
/// is and returns the requested activity, for the caller to pass on. Any other message
/// changes nothing.
pub fn apply_client_message_payload(
    overlay_state: &mut OverlayState,
    payload: ClientMessagePayload,
) -> (set_is_active: Option<bool>)
    ensures
        match payload {
            ClientMessagePayload::SetTextureInfo { width, height, bytes } => {
                &&& final(overlay_state).texture_info == Some(
                    OverlayTextureInfo { width, height, bytes },
                )
                &&& set_is_active is None
            },
            ClientMessagePayload::SetIsOverlayActive { is_active } => {
                &&& final(overlay_state).texture_info == old(overlay_state).texture_info
                &&& set_is_active == Some(is_active)
            },
            ClientMessagePayload::Unset => {
                &&& final(overlay_state).texture_info == old(overlay_state).texture_info
                &&& set_is_active is None
            },
        },
{
    match payload {
        ClientMessagePayload::SetTextureInfo { width, height, bytes } => {
            set_overlay_texture_info(overlay_state, OverlayTextureInfo { width, height, bytes });
            None
        },
        ClientMessagePayload::SetIsOverlayActive { is_active } => Some(is_active),
        ClientMessagePayload::Unset => None,
    }
}

} // verus!
