use round_bench::{encode_message, Message};

fn parsed(m: &Message) -> serde_json::Value {
    let text = encode_message(m).unwrap();
    serde_json::from_str(&text).unwrap()
}

#[test]
fn encode_fire() {
    assert_eq!(encode_message(&Message::Fire).unwrap(), "{\"type\":\"fire\"}");
}

#[test]
fn encode_start() {
    assert_eq!(encode_message(&Message::Start).unwrap(), "{\"type\":\"start\"}");
}

#[test]
fn encode_stop_without_text() {
    let m = Message::Stop { ticks: 30, bullets_fired: 3, won: true, error_msg: None };
    assert_eq!(
        encode_message(&m).unwrap(),
        "{\"type\":\"stop\",\"ticks\":30,\"bullets_fired\":3,\"won\":true,\"error_msg\":null}"
    );
}

#[test]
fn encode_stop_with_text() {
    let m = Message::Stop { ticks: 0, bullets_fired: u32::MAX, won: false, error_msg: Some("late".to_string()) };
    assert_eq!(
        encode_message(&m).unwrap(),
        "{\"type\":\"stop\",\"ticks\":0,\"bullets_fired\":4294967295,\"won\":false,\"error_msg\":\"late\"}"
    );
}

#[test]
fn encode_error_escapes_text() {
    let m = Message::Error { msg: "say \"hi\"\n".to_string() };
    assert_eq!(encode_message(&m).unwrap(), "{\"type\":\"error\",\"msg\":\"say \\\"hi\\\"\\n\"}");
    let v = parsed(&m);
    assert_eq!(v["type"], "error");
    assert_eq!(v["msg"], "say \"hi\"\n");
}

#[test]
fn encoded_stop_reads_back() {
    let m = Message::Stop { ticks: 123, bullets_fired: 45, won: true, error_msg: Some("x\\y".to_string()) };
    let v = parsed(&m);
    assert_eq!(v["type"], "stop");
    assert_eq!(v["ticks"], 123);
    assert_eq!(v["bullets_fired"], 45);
    assert_eq!(v["won"], true);
    assert_eq!(v["error_msg"], "x\\y");
}
