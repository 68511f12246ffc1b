use vstd::prelude::*;

use crate::input::{key_chord, mouse_chord, InputState, KeyAction, ModifierMask};
use crate::msg::{next_id, Args, CallbackId, OutgoingMsg, Request, RequestId, RequestResponse};

verus! {

/// The compositor's side of the configuration protocol: it numbers the
/// callbacks that bindings call.
#[derive(Debug)]
pub struct ApiState {
    next_callback_id: u32,
}

impl View for ApiState {
    type V = u32;

    closed spec fn view(&self) -> u32 {
        self.next_callback_id
    }
}

impl ApiState {
    pub fn new() -> (r: ApiState)
        ensures
            r@ == 0,
    {
        ApiState { next_callback_id: 0 }
    }

    /// Carry out `request` (id `request_id`): make the binding it asks for,
    /// with a fresh callback id, and answer with that id.
    pub fn handle_request(
        &mut self,
        input: &mut InputState,
        request_id: RequestId,
        request: &Request,
    ) -> (r: OutgoingMsg<Args, RequestResponse>)
        ensures
            final(self)@ == next_id(old(self)@),
            r == (OutgoingMsg::<Args, RequestResponse>::RequestResponse {
                request_id,
                response: RequestResponse::CallbackRegistered(CallbackId(old(self)@)),
            }),
            final(input).reload_keybind == old(input).reload_keybind,
            final(input).kill_keybind == old(input).kill_keybind,
            match request {
                Request::RegisterKeybind { modifiers, key } => {
                    &&& final(input).keybinds@ == old(input).keybinds@.insert(
                        key_chord(ModifierMask::spec_from_modifiers(modifiers@), *key),
                        CallbackId(old(self)@),
                    )
                    &&& final(input).mousebinds@ == old(input).mousebinds@
                },
                Request::RegisterMousebind { modifiers, button, edge } => {
                    &&& final(input).mousebinds@ == old(input).mousebinds@.insert(
                        mouse_chord(ModifierMask::spec_from_modifiers(modifiers@), *button, *edge),
                        CallbackId(old(self)@),
                    )
                    &&& final(input).keybinds@ == old(input).keybinds@
                },
            },
    {
        let callback_id = CallbackId(self.next_callback_id);
        self.next_callback_id = self.next_callback_id.wrapping_add(1);
        match request {
            Request::RegisterKeybind { modifiers, key } => {
                let mods = ModifierMask::from_modifiers(modifiers);
                input.register_keybind(mods, *key, callback_id);
            },
            Request::RegisterMousebind { modifiers, button, edge } => {
                let mods = ModifierMask::from_modifiers(modifiers);
                input.register_mousebind(mods, *button, *edge, callback_id);
            },
        }
        OutgoingMsg::RequestResponse {
            request_id,
            response: RequestResponse::CallbackRegistered(callback_id),
        }
    }
}

/// The message that calls the callback a binding fired, if a key action is
/// one; other actions are the compositor's own.
pub fn upcall_for(action: Option<KeyAction>) -> (r: Option<OutgoingMsg<Args, RequestResponse>>)
    ensures
        r == match action {
            Some(KeyAction::CallCallback(callback_id)) => Some(
                OutgoingMsg::<Args, RequestResponse>::CallCallback { callback_id, args: None },
            ),
            _ => None,
        },
{
    match action {
        Some(KeyAction::CallCallback(callback_id)) => Some(
            OutgoingMsg::CallCallback { callback_id, args: None },
        ),
        _ => None,
    }
}

/// The message that calls the callback of a mousebinding.
pub fn mouse_upcall(callback_id: CallbackId) -> (r: OutgoingMsg<Args, RequestResponse>)
    ensures
        r == (OutgoingMsg::<Args, RequestResponse>::CallCallback { callback_id, args: None }),
{
    OutgoingMsg::CallCallback { callback_id, args: None }
}

} // verus!
