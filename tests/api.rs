use pinnacle::api::{mouse_upcall, upcall_for, ApiState};
use pinnacle::input::{InputState, KeyAction, Modifier, ModifierMask, MouseEdge};
use pinnacle::msg::{Args, CallbackId, OutgoingMsg, Request, RequestId, RequestResponse};

#[test]
fn register_keybind_then_key_press_calls_back() {
    let mut api = ApiState::new();
    let mut input = InputState::new();
    let request = Request::RegisterKeybind { modifiers: vec![Modifier::Ctrl], key: 'q' as u32 };
    let reply = api.handle_request(&mut input, RequestId(0), &request);
    assert_eq!(
        reply,
        OutgoingMsg::RequestResponse {
            request_id: RequestId(0),
            response: RequestResponse::CallbackRegistered(CallbackId(0)),
        }
    );
    let ctrl = ModifierMask { shift: false, ctrl: true, alt: false, super_key: false };
    let action = input.key_action(true, ctrl, 'q' as u32, Some('q' as u32));
    assert_eq!(action, Some(KeyAction::CallCallback(CallbackId(0))));
    assert_eq!(
        upcall_for(action),
        Some(OutgoingMsg::<Args, RequestResponse>::CallCallback { callback_id: CallbackId(0), args: None })
    );
    assert_eq!(upcall_for(Some(KeyAction::Quit)), None);
}

#[test]
fn each_binding_gets_a_fresh_callback_id() {
    let mut api = ApiState::new();
    let mut input = InputState::new();
    let k = Request::RegisterKeybind { modifiers: vec![Modifier::Super], key: 0x61 };
    let m = Request::RegisterMousebind { modifiers: vec![Modifier::Alt], button: 0x110, edge: MouseEdge::Release };
    api.handle_request(&mut input, RequestId(3), &k);
    let reply = api.handle_request(&mut input, RequestId(4), &m);
    assert_eq!(
        reply,
        OutgoingMsg::RequestResponse {
            request_id: RequestId(4),
            response: RequestResponse::CallbackRegistered(CallbackId(1)),
        }
    );
    let alt = ModifierMask { shift: false, ctrl: false, alt: true, super_key: false };
    assert_eq!(input.mousebind(alt, 0x110, MouseEdge::Release), Some(CallbackId(1)));
    assert_eq!(input.mousebind(alt, 0x110, MouseEdge::Press), None);
    assert_eq!(
        mouse_upcall(CallbackId(1)),
        OutgoingMsg::<Args, RequestResponse>::CallCallback { callback_id: CallbackId(1), args: None }
    );
}
