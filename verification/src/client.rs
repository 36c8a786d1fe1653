//! The overlay's connection state: the queue of messages that the server has sent
//! and that the driver has not yet handled.

use std::collections::VecDeque;

use vstd::prelude::*;

verus! {

/// A message from the server.
pub enum ClientMessagePayload {
    /// Replace the overlay's texture.
    SetTextureInfo { width: u32, height: u32, bytes: Vec<u8> },
    /// Show or hide the overlay.
    SetIsOverlayActive { is_active: bool },
    /// A message whose payload is none of the above.
    Unset,
}

/// The driver's side of the connection to the server. The socket itself stays with the
/// caller; this holds the messages received and not yet read, oldest first.
pub struct ClientState {
    pub pending_messages_payload_proto: VecDeque<ClientMessagePayload>,
}

impl View for ClientState {
    type V = Seq<ClientMessagePayload>;

    open spec fn view(&self) -> Seq<ClientMessagePayload> {
        self.pending_messages_payload_proto@
    }
}

/// Sets up the connection state once the driver has connected: no message is pending.
///
/// The state must not have been set up before.
pub fn init_client(client_state_option: &mut Option<ClientState>)
    requires
        *old(client_state_option) is None,
    ensures
        *final(client_state_option) is Some,
        (*final(client_state_option))->0@ == Seq::<ClientMessagePayload>::empty(),
{
    *client_state_option = Some(ClientState { pending_messages_payload_proto: VecDeque::new() });
}

/// Takes the oldest pending message, if any.
///
/// The connection state must have been set up.
pub fn read_client_pending_message_payload_proto_option(
    client_state_option: &mut Option<ClientState>,
) -> (payload: Option<ClientMessagePayload>)
    requires
        *old(client_state_option) is Some,
    ensures
        *final(client_state_option) is Some,
        (*old(client_state_option))->0@.len() == 0 ==> {
            &&& payload is None
            &&& (*final(client_state_option))->0@ == (*old(client_state_option))->0@
        },
        (*old(client_state_option))->0@.len() > 0 ==> {
            &&& payload == Some((*old(client_state_option))->0@[0])
            &&& (*final(client_state_option))->0@ == (*old(client_state_option))->0@.drop_first()
        },
{
    match client_state_option {
        Some(client_state) => client_state.pending_messages_payload_proto.pop_front(),
        None => None,
    }
}

/// Queues a message that has arrived from the server, behind those already pending.
///
/// The connection state must have been set up.
pub fn push_client_pending_message_payload_proto(
    client_state_option: &mut Option<ClientState>,
    payload: ClientMessagePayload,
)
    requires
        *old(client_state_option) is Some,
    ensures
        *final(client_state_option) is Some,
        (*final(client_state_option))->0@ == (*old(client_state_option))->0@.push(payload),
{
    match client_state_option {
        Some(client_state) => client_state.pending_messages_payload_proto.push_back(payload),
        None => {},
    }
}

/// Messages leave the pending queue in the order in which they arrived: after a
/// message is queued, the next one read is the oldest that was pending before, or the
/// new message itself when none was, and what stays behind is the rest with the new
/// message last.
pub proof fn lemma_pending_messages_first_in_first_out(
    pending: Seq<ClientMessagePayload>,
    payload: ClientMessagePayload,
)
    ensures
        pending.len() == 0 ==> pending.push(payload)[0] == payload,
        pending.len() > 0 ==> pending.push(payload)[0] == pending[0],
        pending.push(payload).drop_first() == if pending.len() == 0 {
            Seq::<ClientMessagePayload>::empty()
        } else {
            pending.drop_first().push(payload)
        },
{
    assert(pending.push(payload).drop_first() =~= if pending.len() == 0 {
        Seq::<ClientMessagePayload>::empty()
    } else {
        pending.drop_first().push(payload)
    });
}

} // verus!
