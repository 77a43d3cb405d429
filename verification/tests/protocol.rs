use riz::address::Ipv4;
use riz::errors::Error;
use riz::input::{choose_power, command_plan, Invalid, RawSettings};
use riz::models::{
    Brightness, Color, Kelvin, Light, LightRequest, LightingResponse, Payload, PowerMode, Room,
    SceneMode, Speed, White,
};
use riz::protocol::{
    decode_reply, exchange_plan, payload_params, reply_text, Method, Param, ParamValue,
    SocketAction,
    MAX_REPLY, PORT, TIMEOUT_SECS,
};
use riz::worker::{
    dispatch, handle_request, reconcile, send_reply, Dispatch, DispatchMessage, Reconciled,
    ReplyMessage, POOL_SIZE,
};
use riz::{Storage, Worker};

fn pairs(params: &[Param]) -> Vec<(&'static str, ParamValue)> {
    params.iter().map(|p| (p.key, p.value)).collect()
}

#[test]
fn protocol_constants() {
    assert_eq!(PORT, 38899);
    assert_eq!(TIMEOUT_SECS, 1);
    assert_eq!(MAX_REPLY, 4096);
    assert_eq!(POOL_SIZE, 4);
}

#[test]
fn method_names() {
    assert_eq!(Method::SetPilot(Payload::new()).name(), "setPilot");
    assert_eq!(Method::SetState(true).name(), "setState");
    assert_eq!(Method::Reboot.name(), "reboot");
    assert_eq!(Method::GetPilot.name(), "getPilot");
}

#[test]
fn method_params() {
    assert_eq!(Method::Reboot.params(), None);
    assert_eq!(Method::GetPilot.params(), None);
    assert_eq!(
        pairs(&Method::SetState(false).params().unwrap()),
        vec![("state", ParamValue::Flag(false))]
    );
    assert_eq!(
        pairs(&Method::SetState(true).params().unwrap()),
        vec![("state", ParamValue::Flag(true))]
    );
    let payload = Payload::from(&SceneMode::Focus);
    assert_eq!(
        pairs(&Method::SetPilot(payload).params().unwrap()),
        vec![("sceneId", ParamValue::Number(15))]
    );
}

#[test]
fn payload_params_in_order() {
    assert!(payload_params(&Payload::new()).is_empty());
    let mut payload = Payload::new();
    payload.warm(&White::create(2).unwrap());
    payload.cool(&White::create(1).unwrap());
    payload.color(&Color::rgb(255, 0, 7));
    payload.temp(&Kelvin::create(8000).unwrap());
    payload.speed(&Speed::create(200).unwrap());
    payload.brightness(&Brightness::create(10).unwrap());
    payload.scene(&SceneMode::Diwali);
    assert_eq!(
        pairs(&payload_params(&payload)),
        vec![
            ("sceneId", ParamValue::Number(33)),
            ("dimming", ParamValue::Number(10)),
            ("speed", ParamValue::Number(200)),
            ("temp", ParamValue::Number(8000)),
            ("r", ParamValue::Number(255)),
            ("g", ParamValue::Number(0)),
            ("b", ParamValue::Number(7)),
            ("c", ParamValue::Number(1)),
            ("w", ParamValue::Number(2)),
        ]
    );
    let color = Payload::from(&Color::rgb(255, 0, 0));
    assert_eq!(
        pairs(&payload_params(&color)),
        vec![
            ("r", ParamValue::Number(255)),
            ("g", ParamValue::Number(0)),
            ("b", ParamValue::Number(0)),
        ]
    );
}

#[test]
fn method_echo() {
    let ip = Ipv4::new(10, 1, 2, 3);
    let payload = Payload::from(&SceneMode::Focus);
    assert_eq!(
        Method::SetPilot(payload).echo(ip),
        Some(LightingResponse::payload(ip, payload))
    );
    assert_eq!(
        Method::SetState(true).echo(ip),
        Some(LightingResponse::power(ip, PowerMode::On))
    );
    assert_eq!(
        Method::SetState(false).echo(ip),
        Some(LightingResponse::power(ip, PowerMode::Off))
    );
    assert_eq!(Method::Reboot.echo(ip), Some(LightingResponse::power(ip, PowerMode::Reboot)));
    assert_eq!(Method::GetPilot.echo(ip), None);
}

#[test]
fn light_set_refuses_a_payload_without_attributes() {
    let light = Light::new(Ipv4::new(10, 1, 2, 3), None);
    assert_eq!(light.set(&Payload::new()), Err(Error::NoAttribute));
    assert_eq!(light.set(&Payload::from(&Speed::new())), Err(Error::NoAttribute));
    let payload = Payload::from(&Kelvin::new());
    assert_eq!(light.set(&payload), Ok(Method::SetPilot(payload)));
}

#[test]
fn light_power_messages() {
    let light = Light::new(Ipv4::new(10, 1, 2, 3), None);
    assert_eq!(light.set_power(&PowerMode::On), Method::SetState(true));
    assert_eq!(light.set_power(&PowerMode::Off), Method::SetState(false));
    assert_eq!(light.set_power(&PowerMode::Reboot), Method::Reboot);
    assert_eq!(light.get_status(), Method::GetPilot);
}

#[test]
fn round_trip_steps() {
    let ip = Ipv4::new(10, 1, 2, 3);
    assert_eq!(
        exchange_plan(ip),
        vec![
            SocketAction::Bind,
            SocketAction::SetWriteTimeout(1),
            SocketAction::SetReadTimeout(1),
            SocketAction::Connect(ip, 38899),
            SocketAction::Send,
            SocketAction::Receive(4096),
        ]
    );
}

#[test]
fn socket_failures_name_the_step() {
    let ip = Ipv4::new(10, 1, 2, 3);
    let names = ["bind", "set_write_timeout", "set_read_timeout", "connect", "send", "receive"];
    for (step, name) in exchange_plan(ip).iter().zip(names) {
        assert_eq!(step.name(), name);
        assert_eq!(
            step.failure("timed out"),
            Error::Socket { action: name.to_string(), detail: "timed out".to_string() }
        );
        assert_eq!(step.failure("x"), Error::socket(name, "x"));
    }
}

#[test]
fn reply_text_is_utf8() {
    assert_eq!(reply_text(b"{\"ok\":1}".to_vec()), Ok("{\"ok\":1}".to_string()));
    assert_eq!(reply_text(vec![]), Ok(String::new()));
    assert_eq!(
        reply_text("gr\u{fc}n \u{2603}".as_bytes().to_vec()),
        Ok("gr\u{fc}n \u{2603}".to_string())
    );
    assert!(matches!(reply_text(vec![0xff, 0xfe]), Err(Error::Utf8Decode(_))));
    assert!(matches!(reply_text(vec![b'a', 0xc3]), Err(Error::Utf8Decode(_))));
}

#[test]
fn reply_is_json() {
    let reply = decode_reply(b"{\"method\":\"setPilot\",\"result\":{\"success\":true}}".to_vec());
    let value = reply.unwrap();
    assert_eq!(value["method"].as_str(), Some("setPilot"));
    assert_eq!(value["result"]["success"].as_bool(), Some(true));
    assert_eq!(decode_reply(b" 12 ".to_vec()).unwrap().as_u64(), Some(12));
    assert!(matches!(decode_reply(b"{\"method\":".to_vec()), Err(Error::JsonLoad(_))));
    assert!(matches!(decode_reply(vec![]), Err(Error::JsonLoad(_))));
    assert!(matches!(decode_reply(b"{} x".to_vec()), Err(Error::JsonLoad(_))));
    assert!(matches!(decode_reply(vec![b'{', 0xff, b'}']), Err(Error::Utf8Decode(_))));
}

#[test]
fn request_plan_sends_settings_before_power() {
    let ip = Ipv4::new(10, 1, 2, 3);
    let request = LightRequest::new(
        None,
        Some(Color::rgb(255, 0, 0)),
        None,
        None,
        None,
        Some(PowerMode::Off),
        None,
        None,
    );
    let payload = Payload::from(&Color::rgb(255, 0, 0));
    assert_eq!(
        handle_request(ip, &request),
        vec![Method::SetPilot(payload), Method::SetState(false)]
    );
    assert_eq!(
        dispatch(&DispatchMessage::Job(ip, request)),
        Dispatch::Run(ip, vec![Method::SetPilot(payload), Method::SetState(false)])
    );
    assert_eq!(dispatch(&DispatchMessage::Shutdown), Dispatch::Stop);
}

#[test]
fn request_plan_leaves_out_what_is_not_asked() {
    let ip = Ipv4::new(10, 1, 2, 3);
    let nothing = LightRequest::new(None, None, None, None, None, None, None, None);
    assert_eq!(handle_request(ip, &nothing), vec![]);
    let speed_only = LightRequest::new(None, None, Some(Speed::new()), None, None, None, None, None);
    assert_eq!(handle_request(ip, &speed_only), vec![]);
    let reboot = LightRequest::new(None, None, None, None, None, Some(PowerMode::Reboot), None, None);
    assert_eq!(handle_request(ip, &reboot), vec![Method::Reboot]);
    let on = LightRequest::new(None, None, Some(Speed::new()), None, None, Some(PowerMode::On), None, None);
    assert_eq!(handle_request(ip, &on), vec![Method::SetState(true)]);
    let scene = LightRequest::new(None, None, None, None, Some(SceneMode::Focus), None, None, None);
    assert_eq!(
        handle_request(ip, &scene),
        vec![Method::SetPilot(Payload::from(&SceneMode::Focus))]
    );
}

#[test]
fn only_results_that_went_well_are_forwarded() {
    let resp = LightingResponse::power(Ipv4::new(10, 1, 2, 3), PowerMode::On);
    assert_eq!(send_reply::<Error>(Ok(resp)), Some(ReplyMessage::Reply(resp)));
    assert_eq!(send_reply::<String>(Err("no answer".to_string())), None);
    assert_eq!(send_reply(Err(Error::socket("receive", "timed out"))), None);
    assert_eq!(send_reply(Err(Error::Utf8Decode("invalid".to_string()))), None);
}

#[test]
fn worker_accepts_work_until_shutdown() {
    let ip = Ipv4::new(10, 1, 2, 3);
    let request = LightRequest::new(None, None, None, None, None, Some(PowerMode::On), None, None);
    let resp = LightingResponse::power(ip, PowerMode::On);
    let mut worker = Worker::new();
    assert_eq!(worker.create_task(ip, request), Ok(DispatchMessage::Job(ip, request)));
    assert_eq!(worker.queue_update(resp), Ok(ReplyMessage::Reply(resp)));
    assert_eq!(
        worker.shutdown(),
        Some((DispatchMessage::Shutdown, ReplyMessage::Shutdown))
    );
    assert_eq!(worker.create_task(ip, request), Err(Error::Dispatch));
    assert_eq!(worker.queue_update(resp), Err(Error::Reply));
    assert_eq!(worker.shutdown(), None);
    assert_eq!(worker.create_task(ip, request), Err(Error::Dispatch));
}

#[test]
fn reconcile_applies_replies_one_at_a_time() {
    let mut storage = Storage::new();
    let room = storage.new_room(Room::new("den")).unwrap();
    let mut lights = vec![];
    for last in 1..=5u8 {
        let ip = Ipv4::new(10, 0, 0, last);
        lights.push((ip, storage.new_light(room, Light::new(ip, None)).unwrap()));
    }
    let mut saves = 0;
    for (ip, _) in lights.iter().rev() {
        let payload = Payload::from(&Brightness::create(10 + ip.3).unwrap());
        let message = ReplyMessage::Reply(LightingResponse::payload(*ip, payload));
        if reconcile(&mut storage, &message) == Reconciled::Save {
            saves += 1;
        }
    }
    assert_eq!(saves, 5);
    let stored = storage.read(room).unwrap();
    for (ip, id) in lights {
        let status = stored.read(id).unwrap().status().unwrap();
        assert_eq!(status.brightness().unwrap().value(), 10 + ip.3);
        assert_eq!(status.last(), None);
    }
}

#[test]
fn reconcile_leaves_the_store_alone_without_a_light() {
    let mut storage = Storage::new();
    let room = storage.new_room(Room::new("den")).unwrap();
    let light = storage.new_light(room, Light::new(Ipv4::new(10, 0, 0, 1), None)).unwrap();
    let other = LightingResponse::power(Ipv4::new(10, 0, 0, 2), PowerMode::On);
    assert_eq!(reconcile(&mut storage, &ReplyMessage::Reply(other)), Reconciled::Unchanged);
    assert_eq!(reconcile(&mut storage, &ReplyMessage::Shutdown), Reconciled::Stop);
    assert!(storage.read(room).unwrap().read(light).unwrap().status().is_none());
}

#[test]
fn replies_for_different_lights_commute() {
    let a = Ipv4::new(10, 0, 0, 1);
    let b = Ipv4::new(10, 0, 0, 2);
    let first = ReplyMessage::Reply(LightingResponse::payload(a, Payload::from(&SceneMode::Focus)));
    let second = ReplyMessage::Reply(LightingResponse::power(b, PowerMode::Off));
    let mut one = Storage::new();
    one.new_room_from(1, Room::new("den")).unwrap();
    one.new_light_from(1, 1, Light::new(a, None)).unwrap();
    one.new_light_from(1, 2, Light::new(b, None)).unwrap();
    let mut two = Storage::new();
    two.new_room_from(1, Room::new("den")).unwrap();
    two.new_light_from(1, 1, Light::new(a, None)).unwrap();
    two.new_light_from(1, 2, Light::new(b, None)).unwrap();
    reconcile(&mut one, &first);
    reconcile(&mut one, &second);
    reconcile(&mut two, &second);
    reconcile(&mut two, &first);
    let one = one.read(1).unwrap();
    let two = two.read(1).unwrap();
    assert_eq!(one.read(1), two.read(1));
    assert_eq!(one.read(2), two.read(2));
    assert_eq!(one.read(2).unwrap().status().unwrap().emitting(), false);
}

#[test]
fn raw_settings_keep_what_is_valid() {
    let raw = RawSettings {
        scene: Some(15),
        brightness: Some(5),
        color: Some("1,2,3".to_string()),
        speed: Some(201),
        temp: Some(4000),
        cool: Some(0),
        warm: Some(100),
    };
    let (payload, invalid) = raw.payload();
    let mut expected = Payload::new();
    expected.scene(&SceneMode::Focus);
    expected.color(&Color::rgb(1, 2, 3));
    expected.temp(&Kelvin::create(4000).unwrap());
    expected.warm(&White::new());
    assert_eq!(payload, expected);
    assert_eq!(invalid, vec![Invalid::Brightness(5), Invalid::Speed(201), Invalid::Cool(0)]);
}

#[test]
fn raw_settings_name_every_invalid_value() {
    let raw = RawSettings {
        scene: Some(34),
        brightness: Some(101),
        color: Some("#ffeeff".to_string()),
        speed: Some(19),
        temp: Some(999),
        cool: Some(101),
        warm: Some(0),
    };
    let (payload, invalid) = raw.payload();
    assert_eq!(payload, Payload::new());
    assert_eq!(
        invalid,
        vec![
            Invalid::Scene(34),
            Invalid::Brightness(101),
            Invalid::Color("#ffeeff".to_string()),
            Invalid::Speed(19),
            Invalid::Temp(999),
            Invalid::Cool(101),
            Invalid::Warm(0),
        ]
    );
    let none = RawSettings {
        scene: None,
        brightness: None,
        color: None,
        speed: None,
        temp: None,
        cool: None,
        warm: None,
    };
    assert_eq!(none.payload(), (Payload::new(), vec![]));
}

#[test]
fn direct_command_makes_one_power_change_at_most() {
    assert_eq!(choose_power(true, true, true), Some(PowerMode::On));
    assert_eq!(choose_power(false, true, true), Some(PowerMode::Off));
    assert_eq!(choose_power(false, false, true), Some(PowerMode::Reboot));
    assert_eq!(choose_power(false, false, false), None);
}

#[test]
fn direct_command_sends_power_before_settings() {
    let payload = Payload::from(&SceneMode::Focus);
    assert_eq!(
        command_plan(Some(PowerMode::On), &payload),
        vec![Method::SetState(true), Method::SetPilot(payload)]
    );
    assert_eq!(command_plan(None, &payload), vec![Method::SetPilot(payload)]);
    assert_eq!(command_plan(Some(PowerMode::Reboot), &Payload::new()), vec![Method::Reboot]);
    assert_eq!(command_plan(None, &Payload::from(&Speed::new())), vec![]);
}

#[test]
fn messages_as_sent() {
    assert_eq!(Method::Reboot.message(), "{\"method\":\"reboot\"}");
    assert_eq!(Method::GetPilot.message(), "{\"method\":\"getPilot\"}");
    assert_eq!(
        Method::SetState(true).message(),
        "{\"method\":\"setState\",\"params\":{\"state\":true}}"
    );
    assert_eq!(
        Method::SetState(false).message(),
        "{\"method\":\"setState\",\"params\":{\"state\":false}}"
    );
    assert_eq!(
        Method::SetPilot(Payload::from(&Color::rgb(255, 0, 0))).message(),
        "{\"method\":\"setPilot\",\"params\":{\"r\":255,\"g\":0,\"b\":0}}"
    );
    assert_eq!(
        Method::SetPilot(Payload::from(&SceneMode::Focus)).message(),
        "{\"method\":\"setPilot\",\"params\":{\"sceneId\":15}}"
    );
    assert_eq!(
        Method::SetPilot(Payload::new()).message(),
        "{\"method\":\"setPilot\",\"params\":{}}"
    );
    let mut payload = Payload::new();
    payload.temp(&Kelvin::create(8000).unwrap());
    payload.brightness(&Brightness::create(10).unwrap());
    payload.warm(&White::create(100).unwrap());
    payload.speed(&Speed::create(109).unwrap());
    assert_eq!(
        Method::SetPilot(payload).message(),
        "{\"method\":\"setPilot\",\"params\":{\"dimming\":10,\"speed\":109,\"temp\":8000,\"w\":100}}"
    );
}

#[test]
fn messages_are_json_with_the_same_content() {
    let mut payload = Payload::new();
    payload.scene(&SceneMode::Club);
    payload.color(&Color::rgb(1, 20, 255));
    payload.temp(&Kelvin::create(1000).unwrap());
    payload.cool(&White::create(7).unwrap());
    let methods = [
        Method::SetPilot(payload),
        Method::SetPilot(Payload::new()),
        Method::SetState(true),
        Method::Reboot,
        Method::GetPilot,
    ];
    for method in methods {
        let value = decode_reply(method.message().into_bytes()).unwrap();
        let object = value.as_object().unwrap();
        assert_eq!(object["method"].as_str(), Some(method.name()));
        match method.params() {
            None => assert_eq!(object.len(), 1),
            Some(params) => {
                assert_eq!(object.len(), 2);
                let inner = object["params"].as_object().unwrap();
                assert_eq!(inner.len(), params.len());
                for param in params {
                    match param.value {
                        ParamValue::Number(n) => {
                            assert_eq!(inner[param.key].as_u64(), Some(n as u64))
                        }
                        ParamValue::Flag(b) => assert_eq!(inner[param.key].as_bool(), Some(b)),
                    }
                }
            }
        }
    }
}
