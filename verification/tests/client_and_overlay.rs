use overlay_driver::client::{
    init_client, push_client_pending_message_payload_proto,
    read_client_pending_message_payload_proto_option, ClientMessagePayload, ClientState,
};
use overlay_driver::overlay::{
    apply_client_message_payload, set_overlay_texture_info, OverlayState, OverlayTextureInfo,
};

fn is_active_of(payload: &Option<ClientMessagePayload>) -> Option<bool> {
    match payload {
        Some(ClientMessagePayload::SetIsOverlayActive { is_active }) => Some(*is_active),
        _ => None,
    }
}

#[test]
fn client_starts_empty() {
    let mut state: Option<ClientState> = None;
    init_client(&mut state);
    assert!(state.is_some());
    assert!(read_client_pending_message_payload_proto_option(&mut state).is_none());
    assert!(state.is_some());
}

#[test]
fn pending_messages_are_read_first_in_first_out() {
    let mut state: Option<ClientState> = None;
    init_client(&mut state);
    push_client_pending_message_payload_proto(
        &mut state,
        ClientMessagePayload::SetIsOverlayActive { is_active: true },
    );
    push_client_pending_message_payload_proto(
        &mut state,
        ClientMessagePayload::SetIsOverlayActive { is_active: false },
    );
    let first = read_client_pending_message_payload_proto_option(&mut state);
    assert_eq!(is_active_of(&first), Some(true));
    push_client_pending_message_payload_proto(&mut state, ClientMessagePayload::Unset);
    let second = read_client_pending_message_payload_proto_option(&mut state);
    assert_eq!(is_active_of(&second), Some(false));
    let third = read_client_pending_message_payload_proto_option(&mut state);
    assert!(matches!(third, Some(ClientMessagePayload::Unset)));
    assert!(read_client_pending_message_payload_proto_option(&mut state).is_none());
}

#[test]
fn set_texture_replaces_the_texture() {
    let mut overlay = OverlayState::new();
    assert!(overlay.texture_info.is_none());
    set_overlay_texture_info(
        &mut overlay,
        OverlayTextureInfo { width: 2, height: 1, bytes: vec![1, 2, 3, 4, 5, 6, 7, 8] },
    );
    let texture = overlay.texture_info.as_ref().unwrap();
    assert_eq!(texture.width, 2);
    assert_eq!(texture.height, 1);
    assert_eq!(texture.bytes, vec![1, 2, 3, 4, 5, 6, 7, 8]);
    set_overlay_texture_info(&mut overlay, OverlayTextureInfo { width: 0, height: 0, bytes: vec![] });
    assert_eq!(overlay.texture_info.as_ref().unwrap().width, 0);
}

#[test]
fn applying_client_messages() {
    let mut overlay = OverlayState::new();
    let texture = ClientMessagePayload::SetTextureInfo { width: 4, height: 3, bytes: vec![9; 48] };
    assert_eq!(apply_client_message_payload(&mut overlay, texture), None);
    assert_eq!(overlay.texture_info.as_ref().unwrap().height, 3);
    assert_eq!(overlay.texture_info.as_ref().unwrap().bytes.len(), 48);
    let activate = ClientMessagePayload::SetIsOverlayActive { is_active: true };
    assert_eq!(apply_client_message_payload(&mut overlay, activate), Some(true));
    assert_eq!(overlay.texture_info.as_ref().unwrap().width, 4);
    assert_eq!(apply_client_message_payload(&mut overlay, ClientMessagePayload::Unset), None);
    assert_eq!(overlay.texture_info.as_ref().unwrap().width, 4);
}
