use pinnacle::client::{CallbackVec, Correlator, ProtocolError};
use pinnacle::msg::{CallbackId, OutgoingMsg, RequestId};

type Incoming = OutgoingMsg<String, u32>;

fn response(id: u32, value: u32) -> Incoming {
    OutgoingMsg::RequestResponse { request_id: RequestId(id), response: value }
}

fn callback(id: u32, arg: &str) -> Incoming {
    OutgoingMsg::CallCallback { callback_id: CallbackId(id), args: Some(arg.to_string()) }
}

/// Wait for `id` over the messages in `wire`, as the client does over the socket.
fn call(c: &mut Correlator<String, u32>, id: RequestId, wire: &mut Vec<Incoming>) -> Option<u32> {
    loop {
        if let Some(r) = c.take_response(id) {
            return Some(r);
        }
        if wire.is_empty() {
            return None;
        }
        let msg = wire.remove(0);
        if let Some(r) = c.receive(id, msg) {
            return Some(r);
        }
    }
}

#[test]
fn client_responses_out_of_order_reach_their_callers() {
    let mut c: Correlator<String, u32> = Correlator::new();
    for _ in 0..5 {
        c.next_request_id();
    }
    let five = c.next_request_id();
    let six = c.next_request_id();
    assert_eq!(five, RequestId(5));
    assert_eq!(six, RequestId(6));
    let mut wire = vec![response(6, 60), callback(2, "a"), response(5, 50)];
    assert_eq!(call(&mut c, five, &mut wire), Some(50));
    assert!(wire.is_empty());
    assert_eq!(call(&mut c, six, &mut wire), Some(60));
    let kept = c.take_callbacks();
    assert_eq!(kept, vec![(CallbackId(2), Some("a".to_string()))]);
}

#[test]
fn client_keeps_every_callback_in_order() {
    let mut c: Correlator<String, u32> = Correlator::new();
    let id = c.next_request_id();
    let mut wire = vec![callback(1, "x"), callback(1, "y"), callback(0, "z"), response(0, 7)];
    assert_eq!(call(&mut c, id, &mut wire), Some(7));
    assert_eq!(
        c.take_callbacks(),
        vec![
            (CallbackId(1), Some("x".to_string())),
            (CallbackId(1), Some("y".to_string())),
            (CallbackId(0), Some("z".to_string())),
        ]
    );
    assert!(c.take_callbacks().is_empty());
}

#[test]
fn client_unexpected_response_is_an_error_and_kept() {
    let mut c: Correlator<String, u32> = Correlator::new();
    assert_eq!(c.dispatch(callback(4, "go")), Ok((CallbackId(4), Some("go".to_string()))));
    assert_eq!(c.dispatch(response(9, 1)), Err(ProtocolError::UnexpectedResponse(RequestId(9))));
    assert_eq!(c.take_response(RequestId(9)), Some(1));
    assert_eq!(c.take_response(RequestId(9)), None);
}

#[test]
fn callback_vec_ids_are_indices() {
    let mut v: CallbackVec<&str> = CallbackVec::new();
    assert_eq!(v.len(), 0);
    assert_eq!(v.add("first"), Some(CallbackId(0)));
    assert_eq!(v.add("second"), Some(CallbackId(1)));
    assert_eq!(v.replace(CallbackId(1), "placeholder"), Some("second"));
    assert_eq!(v.replace(CallbackId(1), "second"), Some("placeholder"));
    assert_eq!(v.replace(CallbackId(5), "nothing"), None);
    assert_eq!(v.len(), 2);
}
