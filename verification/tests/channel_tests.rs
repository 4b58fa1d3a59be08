use futures::executor::block_on;
use futures::FutureExt;
use tokio::sync::{mpsc, oneshot};
use tokio_playground::error::AppError;
use tokio_playground::oneshot_request::{send_request, user_request};
use tokio_playground::request_response::{self, RequestReceiver, RequestSender, ResponseReceiver};
use tokio_playground::request_response2;
use tokio_playground::request_response3;
use tokio_playground::scratch::{Address, Message, RPCMessage, TokioScratch};
use tokio_playground::users::user_for;

#[test]
fn test_send_receive_message() {
    let (sender, mut receiver) = mpsc::unbounded_channel::<Message>();

    let message = Message {
        from: Address::Peer("node2".into()),
        to: Address::Peer("node1".into()),
        event: RPCMessage::AppendEntriesResponse { term: 1, success: true },
    };

    let scratch = TokioScratch::new(sender);
    let _ = scratch.on_message(message);

    let ret_msg = receiver.recv().now_or_never().unwrap().unwrap();
    println!("{:?}", ret_msg)
}

#[test]
fn on_message_hands_back_the_message_when_closed() {
    let (sender, receiver) = mpsc::unbounded_channel::<Message>();
    drop(receiver);
    let scratch = TokioScratch::new(sender);
    let message = Message {
        from: Address::Local,
        to: Address::Peers,
        event: RPCMessage::RequestVoteResponse { term: 3, vote_granted: false },
    };
    match scratch.on_message(message) {
        Ok(_) => panic!("the channel is closed"),
        Err(back) => match back.event {
            RPCMessage::RequestVoteResponse { term, vote_granted } => {
                assert_eq!(term, 3);
                assert!(!vote_granted);
            }
            _ => panic!("another message came back"),
        },
    }
}

#[test]
fn get_response_upper_cases() {
    assert_eq!(request_response::get_response("Foo".to_string()), "FOO");
    assert_eq!(request_response2::get_response("baz-1é".to_string()), "BAZ-1é");
}

#[test]
fn numbered_get_response() {
    assert_eq!(request_response3::get_response(1), "ONE");
    assert_eq!(request_response3::get_response(2), "TWO");
    assert_eq!(request_response3::get_response(3), "THREE");
    assert_eq!(request_response3::get_response(4), "UNKNOWN");
    assert_eq!(request_response3::get_response(0), "UNKNOWN");
}

#[test]
fn user_for_upper_cases_the_name() {
    let user = user_for("Foo");
    assert_eq!(user.id, "Foo");
    assert_eq!(user.name, "FOO");
}

#[test]
fn error_messages() {
    assert_eq!(AppError::ReceiveError.message(), "Receive error");
    assert_eq!(AppError::SendError("x".to_string()).message(), "Send error: x");
    assert_eq!(AppError::UnknownError("y".to_string()).message(), "Unknown error: y");
    let io = std::io::Error::new(std::io::ErrorKind::Other, "z");
    assert_eq!(AppError::from(io).message(), "Converted error");
}

#[test]
fn request_response_round_trip() {
    let (sender, mut receiver) = request_response::channel::<String, String>();
    let (payload, waiting) = RequestSender::<String, String>::prepare("Foo".to_string());
    let sent = block_on(sender.outbox().send(payload));
    let mut waiting = RequestSender::<String, String>::sent(sent, waiting).unwrap();

    let got = block_on(receiver.inbox().recv());
    let (request, responder) = RequestReceiver::received(got).unwrap();
    assert_eq!(request, "Foo");
    assert!(responder.send(request_response::get_response(request)).is_ok());

    let rx = waiting.take_pending().unwrap();
    let answer = ResponseReceiver::answered(block_on(rx));
    let answer = RequestSender::<String, String>::exchanged(answer).unwrap();
    assert_eq!(answer, "FOO");

    // a second receive fails
    assert!(matches!(waiting.take_pending(), Err(AppError::ReceiveError)));
}

#[test]
fn received_none_is_receive_error() {
    let out = RequestReceiver::<String, String>::received(None);
    assert!(matches!(out, Err(AppError::ReceiveError)));
}

#[test]
fn send_to_closed_channel_is_send_error() {
    let (sender, receiver) = request_response::channel::<String, String>();
    drop(receiver);
    let (payload, waiting) = RequestSender::<String, String>::prepare("Foo".to_string());
    let sent = block_on(sender.outbox().send(payload));
    match RequestSender::<String, String>::sent(sent, waiting) {
        Err(AppError::SendError(msg)) => assert_eq!(msg, "channel closed"),
        _ => panic!("expected a send error"),
    }
}

#[test]
fn dropped_responder_gives_unknown_error() {
    let (payload, mut waiting) = RequestSender::<String, String>::prepare("Foo".to_string());
    drop(payload);
    let rx = waiting.take_pending().unwrap();
    let answer = ResponseReceiver::answered(block_on(rx));
    assert!(matches!(answer, Err(AppError::TokioRecvErrorError(_))));
    match RequestSender::<String, String>::exchanged(answer) {
        Err(AppError::UnknownError(msg)) => assert_eq!(msg, "Tokio error"),
        _ => panic!("expected an unknown error"),
    }
}

#[test]
fn exchanged_receive_error_text() {
    match RequestSender::<String, String>::exchanged(Err(AppError::ReceiveError)) {
        Err(AppError::UnknownError(msg)) => assert_eq!(msg, "Receive error"),
        _ => panic!("expected an unknown error"),
    }
}

#[test]
fn responder_hands_back_answer_when_requester_gone() {
    let (payload, waiting) = RequestSender::<String, String>::prepare("Foo".to_string());
    drop(waiting);
    let (_req, responder) = payload;
    assert_eq!(responder.send("BAR".to_string()), Err("BAR".to_string()));
}

#[test]
fn direct_round_trip() {
    let (tx, mut rx) = request_response2::channel::<String, String>();
    let (payload, os_rx) = request_response2::prepare::<String, String>("Bar".to_string());
    assert!(request_response2::sent(block_on(tx.send(payload))).is_ok());
    let (request, os_tx) = block_on(rx.recv()).unwrap();
    os_tx.send(request_response2::get_response(request)).unwrap();
    assert_eq!(request_response2::answered(block_on(os_rx)).unwrap(), "BAR");
}

#[test]
fn direct_errors() {
    let (tx, rx) = request_response2::channel::<String, String>();
    drop(rx);
    let (payload, os_rx) = request_response2::prepare::<String, String>("Bar".to_string());
    match request_response2::sent(block_on(tx.send(payload))) {
        Err(AppError::SendError(msg)) => assert_eq!(msg, "channel closed"),
        _ => panic!("expected a send error"),
    }
    match request_response2::answered(block_on(os_rx)) {
        Err(AppError::UnknownError(msg)) => assert_eq!(msg, "channel closed"),
        _ => panic!("expected an unknown error"),
    }
}

#[test]
fn send_request_hands_over_the_user_request() {
    let (tx, rx) = oneshot::channel();
    assert!(send_request(tx).is_ok());
    let got = block_on(rx).unwrap();
    assert_eq!(got.req, "From User 1");
    assert!(got.res.is_none());
    assert_eq!(user_request().req, "From User 1");
}

#[test]
fn send_request_to_dropped_receiver_comes_back() {
    let (tx, rx) = oneshot::channel();
    drop(rx);
    let back = send_request(tx).unwrap_err();
    assert_eq!(back.req, "From User 1");
}
