use stremio_shell::json::{json_to_text, parse_json, Json};
use stremio_shell::property::{property_class, MpvProperty, MpvPropertyValue, PropertyClass, PropertyError};
use stremio_shell::protocol::{
    create_response, parse_request, DecodeError, IpcEvent, IpcEventMpv, IpcMessageRequest,
    IpcMessageResponse,
};

fn decode(text: &str) -> Result<IpcEvent, DecodeError> {
    parse_request(text)
}

fn value_of(text: &str) -> serde_json::Value {
    serde_json::from_str(text).unwrap()
}

#[test]
fn init_round_trip_keeps_the_id() {
    let text = create_response(&IpcEvent::Init(7));
    let v = value_of(&text);
    assert_eq!(v["id"], 7);
    assert_eq!(v["type"], 3);
    assert_eq!(v["object"], "transport");
    assert_eq!(v["data"]["transport"]["methods"][0][0], "onEvent");
    assert_eq!(v["data"]["transport"]["properties"][1][1], "shellVersion");
    match decode(r#"{"id":7,"type":3}"#) {
        Ok(IpcEvent::Init(id)) => assert_eq!(id, 7),
        other => panic!("unexpected {:?}", other),
    }
    let request = IpcMessageRequest { id: 7, kind: 3, args: None };
    assert!(matches!(IpcEvent::from_request(&request), Ok(IpcEvent::Init(7))));
}

#[test]
fn set_prop_with_float_volume() {
    match decode(r#"{"id":1,"kind":6,"args":["player-set-prop","volume",0.5]}"#) {
        Ok(IpcEvent::Mpv(IpcEventMpv::SetProperty(p))) => {
            assert_eq!(p.name(), "volume");
            match p.value() {
                MpvPropertyValue::Float(t) => assert_eq!(t.parse::<f64>().unwrap(), 0.5),
                other => panic!("unexpected {:?}", other),
            }
        }
        other => panic!("unexpected {:?}", other),
    }
}

#[test]
fn set_prop_with_wrong_type_is_a_decode_error() {
    match decode(r#"{"id":1,"kind":6,"args":["player-set-prop","volume","oops"]}"#) {
        Err(DecodeError::InvalidPayload(m)) => assert_eq!(m, "player-set-prop"),
        other => panic!("unexpected {:?}", other),
    }
}

#[test]
fn set_prop_nested_payload() {
    match decode(r#"{"id":1,"type":6,"args":["player-set-prop",["pause",true]]}"#) {
        Ok(IpcEvent::Mpv(IpcEventMpv::SetProperty(MpvProperty(n, MpvPropertyValue::Bool(b))))) => {
            assert_eq!(n, "pause");
            assert!(b);
        }
        other => panic!("unexpected {:?}", other),
    }
}

#[test]
fn unknown_kind_names_the_kind() {
    match decode(r#"{"id":1,"kind":99}"#) {
        Err(DecodeError::UnknownKind(k)) => assert_eq!(k, 99),
        other => panic!("unexpected {:?}", other),
    }
}

#[test]
fn malformed_messages() {
    assert!(matches!(decode("not json"), Err(DecodeError::Malformed)));
    assert!(matches!(decode(r#"[1,2]"#), Err(DecodeError::Malformed)));
    assert!(matches!(decode(r#"{"type":3}"#), Err(DecodeError::Malformed)));
    assert!(matches!(decode(r#"{"id":-1,"type":3}"#), Err(DecodeError::Malformed)));
    assert!(matches!(decode(r#"{"id":1,"type":300}"#), Err(DecodeError::Malformed)));
    assert!(matches!(decode(r#"{"id":1.5,"type":3}"#), Err(DecodeError::Malformed)));
}

#[test]
fn argument_errors() {
    assert!(matches!(decode(r#"{"id":1,"type":6}"#), Err(DecodeError::MissingArgs)));
    assert!(matches!(decode(r#"{"id":1,"type":7,"args":null}"#), Err(DecodeError::MissingArgs)));
    assert!(matches!(decode(r#"{"id":1,"type":6,"args":{"a":1}}"#), Err(DecodeError::InvalidArguments)));
    assert!(matches!(decode(r#"{"id":1,"type":6,"args":[]}"#), Err(DecodeError::InvalidName)));
    assert!(matches!(decode(r#"{"id":1,"type":6,"args":[5]}"#), Err(DecodeError::InvalidName)));
    match decode(r#"{"id":1,"type":6,"args":["nope",1]}"#) {
        Err(DecodeError::UnknownMethod(6, m)) => assert_eq!(m, "nope"),
        other => panic!("unexpected {:?}", other),
    }
    match decode(r#"{"id":1,"type":6,"args":["nope"]}"#) {
        Err(DecodeError::UnknownMethod(6, m)) => assert_eq!(m, "nope"),
        other => panic!("unexpected {:?}", other),
    }
    match decode(r#"{"id":1,"type":7,"args":["nope"]}"#) {
        Err(DecodeError::UnknownMethod(7, m)) => assert_eq!(m, "nope"),
        other => panic!("unexpected {:?}", other),
    }
}

#[test]
fn kind_six_methods() {
    assert!(matches!(decode(r#"{"id":4,"type":6,"args":["app-ready",{}]}"#), Ok(IpcEvent::Init(4))));
    assert!(matches!(decode(r#"{"id":1,"type":6,"args":["quit"]}"#), Ok(IpcEvent::Quit)));
    assert!(matches!(decode(r#"{"id":1,"type":6,"args":["seek-leave"]}"#), Ok(IpcEvent::SeekLeave)));
    assert!(matches!(decode(r#"{"id":1,"type":6,"args":["seek-leave",{}]}"#), Ok(IpcEvent::SeekLeave)));
    assert!(matches!(
        decode(r#"{"id":1,"type":6,"args":["win-set-visibility",{"fullscreen":true}]}"#),
        Ok(IpcEvent::Fullscreen(true))
    ));
    assert!(matches!(
        decode(r#"{"id":1,"type":6,"args":["win-set-visibility",{"fullscreen":1}]}"#),
        Err(DecodeError::InvalidPayload(_))
    ));
    match decode(r#"{"id":1,"type":6,"args":["open-external","https://example.com/"]}"#) {
        Ok(IpcEvent::OpenExternal(u)) => assert_eq!(u, "https://example.com/"),
        other => panic!("unexpected {:?}", other),
    }
    match decode(r#"{"id":1,"type":6,"args":["player-observe-prop","time-pos"]}"#) {
        Ok(IpcEvent::Mpv(IpcEventMpv::Observe(n))) => assert_eq!(n, "time-pos"),
        other => panic!("unexpected {:?}", other),
    }
    match decode(r#"{"id":1,"type":6,"args":["seek-hover",["12","340","-5"]]}"#) {
        Ok(IpcEvent::SeekHover(s, x, y)) => {
            assert_eq!(s, "12");
            assert_eq!(x, "340");
            assert_eq!(y, -5);
        }
        other => panic!("unexpected {:?}", other),
    }
    assert!(matches!(
        decode(r#"{"id":1,"type":6,"args":["seek-hover",["12","340","y"]]}"#),
        Err(DecodeError::InvalidPayload(_))
    ));
}

#[test]
fn player_command_flat_and_nested() {
    for text in [
        r#"{"id":1,"type":6,"args":["player-command","keypress","a"]}"#,
        r#"{"id":1,"type":6,"args":["player-command",["keypress","a"]]}"#,
    ] {
        match decode(text) {
            Ok(IpcEvent::Mpv(IpcEventMpv::Command((n, a)))) => {
                assert_eq!(n, "keypress");
                assert_eq!(a, vec!["a".to_string()]);
            }
            other => panic!("unexpected {:?}", other),
        }
    }
    assert!(matches!(
        decode(r#"{"id":1,"type":6,"args":["player-command","keypress",3]}"#),
        Err(DecodeError::InvalidPayload(_))
    ));
}

#[test]
fn kind_seven_presence() {
    match decode(r#"{"id":1,"type":7,"args":["presence-update","board",5,"x"]}"#) {
        Ok(IpcEvent::PresenceUpdate(a)) => assert_eq!(a, vec!["board".to_string(), "x".to_string()]),
        other => panic!("unexpected {:?}", other),
    }
    assert!(matches!(
        decode(r#"{"id":1,"type":7,"args":["presence-toggle",true]}"#),
        Ok(IpcEvent::PresenceToggle(true))
    ));
    assert!(matches!(
        decode(r#"{"id":1,"type":7,"args":["presence-toggle","yes"]}"#),
        Ok(IpcEvent::PresenceToggle(false))
    ));
}

#[test]
fn responses_for_window_state() {
    let v = value_of(&create_response(&IpcEvent::Fullscreen(true)));
    assert_eq!(v["id"], 1);
    assert_eq!(v["type"], 1);
    assert_eq!(v["args"][0], "win-visibility-changed");
    assert_eq!(v["args"][1]["isFullscreen"], true);
    assert_eq!(v["args"][1]["visibility"], 1);
    let v = value_of(&create_response(&IpcEvent::Visibility(false)));
    assert_eq!(v["args"][1]["visible"], false);
    assert_eq!(v["args"][1]["visibility"], 0);
    let v = value_of(&create_response(&IpcEvent::Minimized(true)));
    assert_eq!(v["args"][0], "win-state-changed");
    assert_eq!(v["args"][1]["state"], 9);
    let v = value_of(&create_response(&IpcEvent::Minimized(false)));
    assert_eq!(v["args"][1]["state"], 8);
    let v = value_of(&create_response(&IpcEvent::OpenMedia("stremio://x".to_string())));
    assert_eq!(v["args"], value_of(r#"["open-media","stremio://x"]"#));
    assert!(v.get("data").is_none());
}

#[test]
fn responses_for_player_events() {
    let change = IpcEvent::Mpv(IpcEventMpv::Change(MpvProperty(
        "track-list".to_string(),
        MpvPropertyValue::Text("[{\"id\":1}]".to_string()),
    )));
    let v = value_of(&create_response(&change));
    assert_eq!(v["args"][0], "mpv-prop-change");
    assert_eq!(v["args"][1]["name"], "track-list");
    assert_eq!(v["args"][1]["data"][0]["id"], 1);
    let change = IpcEvent::Mpv(IpcEventMpv::Change(MpvProperty(
        "volume".to_string(),
        MpvPropertyValue::Float("0.5".to_string()),
    )));
    let v = value_of(&create_response(&change));
    assert_eq!(v["args"][1]["data"], 0.5);
    let v = value_of(&create_response(&IpcEvent::Mpv(IpcEventMpv::Ended(None))));
    assert_eq!(v["args"][1]["error"], serde_json::Value::Null);
    let v = value_of(&create_response(&IpcEvent::Mpv(IpcEventMpv::Ended(Some("boom".to_string())))));
    assert_eq!(v["args"][1]["error"], "boom");
}

#[test]
fn events_without_wire_form() {
    assert!(IpcMessageResponse::from_event(&IpcEvent::Quit).is_none());
    assert!(IpcMessageResponse::from_event(&IpcEvent::SeekLeave).is_none());
    assert_eq!(create_response(&IpcEvent::Quit), "null");
}

#[test]
fn property_classes() {
    assert_eq!(property_class("volume"), Some(PropertyClass::Float));
    assert_eq!(property_class("pause"), Some(PropertyClass::Bool));
    assert_eq!(property_class("mute"), Some(PropertyClass::Text));
    assert_eq!(property_class("nope"), None);
    let r = MpvProperty::from_json("nope", &Json::Bool(true));
    assert!(matches!(r, Err(PropertyError::UnknownName)));
    let r = MpvProperty::from_json("pause", &Json::Number("1".to_string()));
    assert!(matches!(r, Err(PropertyError::WrongType)));
}

#[test]
fn json_text_round_trip() {
    let j = parse_json(r#"{"a":[1,"x",true,null]}"#).unwrap();
    match j.get("a") {
        Some(Json::Array(items)) => {
            assert_eq!(items.len(), 4);
            assert!(matches!(&items[0], Json::Number(t) if t == "1"));
            assert!(matches!(&items[1], Json::Str(s) if s == "x"));
        }
        other => panic!("unexpected {:?}", other),
    }
    let text = json_to_text(&j);
    assert_eq!(value_of(&text), value_of(r#"{"a":[1,"x",true,null]}"#));
    assert!(parse_json("{").is_none());
    assert_eq!(json_to_text(&Json::Str("a\"b".to_string())), "\"a\\\"b\"");
}
