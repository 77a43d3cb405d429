use riz::address::Ipv4;
use riz::models::{
    Brightness, BulbStatus, BulbStatusResult, Color, Kelvin, LastSet, Light, LightRequest,
    LightStatus, LightingResponse, Payload, PowerMode, SceneMode, Speed, White,
};

fn report(scene: u8, dimming: Option<u8>, emitting: bool) -> BulbStatus {
    BulbStatus {
        env: "pro".to_string(),
        method: "getPilot".to_string(),
        result: BulbStatusResult {
            red: None,
            green: None,
            blue: None,
            dimming,
            mac: "a8bb50000000".to_string(),
            emitting,
            scene,
            rssi: -60,
            cool: None,
            warm: None,
        },
    }
}

#[test]
fn blank_payload_is_not_valid() {
    let payload = Payload::new();
    assert_eq!(payload.is_valid(), false);
    assert_eq!(Payload::default().is_valid(), false);
}

#[test]
fn speed_alone_is_not_valid() {
    let mut payload = Payload::new();

    payload.speed(&Speed::create(100).unwrap());
    assert_eq!(payload.is_valid(), false);

    payload.scene(&SceneMode::Focus);
    assert_eq!(payload.is_valid(), true);
}

#[test]
fn each_other_setting_is_valid_alone() {
    let mut payload = Payload::new();
    payload.scene(&SceneMode::Focus);
    assert_eq!(payload.is_valid(), true);

    let mut payload = Payload::new();
    payload.brightness(&Brightness::create(100).unwrap());
    assert_eq!(payload.is_valid(), true);

    let mut payload = Payload::new();
    payload.temp(&Kelvin::create(4000).unwrap());
    assert_eq!(payload.is_valid(), true);

    let mut payload = Payload::new();
    payload.color(&Color::from_str("255,255,255").unwrap());
    assert_eq!(payload.is_valid(), true);

    let mut payload = Payload::new();
    payload.cool(&White::create(50).unwrap());
    assert_eq!(payload.is_valid(), true);

    let mut payload = Payload::new();
    payload.warm(&White::create(50).unwrap());
    assert_eq!(payload.is_valid(), true);
}

#[test]
fn payload_getters_return_what_was_set() {
    let mut payload = Payload::new();
    assert_eq!(payload.get_scene(), None);
    assert_eq!(payload.get_color(), None);
    payload.scene(&SceneMode::Party);
    payload.brightness(&Brightness::create(55).unwrap());
    payload.speed(&Speed::create(120).unwrap());
    payload.temp(&Kelvin::create(2700).unwrap());
    payload.color(&Color::rgb(1, 2, 3));
    payload.cool(&White::create(4).unwrap());
    payload.warm(&White::create(5).unwrap());
    assert_eq!(payload.get_scene(), Some(SceneMode::Party));
    assert_eq!(payload.get_brightness().unwrap().value(), 55);
    assert_eq!(payload.get_speed().unwrap().value(), 120);
    assert_eq!(payload.get_temp().unwrap().kelvin(), 2700);
    assert_eq!(payload.get_color(), Some(Color::rgb(1, 2, 3)));
    assert_eq!(payload.get_cool().unwrap().value(), 4);
    assert_eq!(payload.get_warm().unwrap().value(), 5);
}

#[test]
fn payload_from_a_request_leaves_power_out() {
    let request = LightRequest::new(
        Brightness::create(20),
        Some(Color::rgb(9, 8, 7)),
        None,
        None,
        Some(SceneMode::Cozy),
        Some(PowerMode::Off),
        None,
        White::create(3),
    );
    assert_eq!(request.power(), Some(&PowerMode::Off));
    let payload = Payload::from(&request);
    let mut expected = Payload::new();
    expected.brightness(&Brightness::create(20).unwrap());
    expected.color(&Color::rgb(9, 8, 7));
    expected.scene(&SceneMode::Cozy);
    expected.warm(&White::create(3).unwrap());
    assert_eq!(payload, expected);
}

#[test]
fn status_update_keeps_what_is_not_replaced() {
    let mut status = LightStatus::from(&Payload::from(&Kelvin::new()));
    assert_eq!(status.temp().unwrap().kelvin(), 1000);
    assert!(status.speed().is_none());

    status.update(&LightStatus::from(&Payload::from(&Speed::new())));
    assert_eq!(status.temp().unwrap().kelvin(), 1000);
    assert_eq!(status.speed().unwrap().value(), 100);
}

#[test]
fn status_update_keeps_a_known_scene() {
    let mut status = LightStatus::from(&Payload::from(&SceneMode::Focus));
    assert_eq!(status.scene(), Some(&SceneMode::Focus));
    assert_eq!(status.last(), Some(&LastSet::Scene));
    let other = LightStatus::from(&PowerMode::Off);
    status.update(&other);
    assert_eq!(status.scene(), Some(&SceneMode::Focus));
    assert_eq!(status.emitting(), false);
    assert_eq!(status.last(), Some(&LastSet::Scene));

    let party = LightStatus::from(&Payload::from(&SceneMode::Party));
    status.update(&party);
    assert_eq!(status.scene(), Some(&SceneMode::Party));
    assert_eq!(status.emitting(), true);
}

#[test]
fn status_update_replaces_exactly_what_the_other_knows() {
    let mut first = Payload::new();
    first.color(&Color::rgb(1, 2, 3));
    first.brightness(&Brightness::create(20).unwrap());
    first.scene(&SceneMode::Ocean);
    first.speed(&Speed::create(30).unwrap());
    first.temp(&Kelvin::create(2000).unwrap());
    first.cool(&White::create(4).unwrap());
    first.warm(&White::create(5).unwrap());
    let known = LightStatus::from(&first);

    let mut merged = known;
    merged.update(&LightStatus::new(None, None, true, None, None, None, None, None, None));
    assert_eq!(merged, known);

    let other = LightStatus::new(
        Some(Color::rgb(9, 9, 9)),
        None,
        false,
        Some(SceneMode::Club),
        None,
        Kelvin::create(3000),
        None,
        White::create(50),
        Some(LastSet::Color),
    );
    let mut merged = known;
    merged.update(&other);
    assert_eq!(
        merged,
        LightStatus::new(
            Some(Color::rgb(9, 9, 9)),
            Brightness::create(20),
            false,
            Some(SceneMode::Club),
            Speed::create(30),
            Kelvin::create(3000),
            White::create(4),
            White::create(50),
            Some(LastSet::Color),
        )
    );
}

#[test]
fn merging_a_status_into_itself_changes_nothing() {
    let mut payload = Payload::new();
    payload.color(&Color::rgb(10, 20, 30));
    payload.scene(&SceneMode::Ocean);
    payload.speed(&Speed::create(50).unwrap());
    let status = LightStatus::from(&payload);
    let mut merged = status;
    merged.update(&status);
    assert_eq!(merged, status);

    let empty = LightStatus::from(&PowerMode::Off);
    let mut merged = empty;
    merged.update(&empty);
    assert_eq!(merged, empty);
}

#[test]
fn status_from_a_payload_is_emitting() {
    let status = LightStatus::from(&Payload::from(&Brightness::create(30).unwrap()));
    assert_eq!(status.emitting(), true);
    assert_eq!(status.brightness().unwrap().value(), 30);
    assert_eq!(status.last(), None);
    assert_eq!(status.color(), None);
    assert_eq!(status.cool(), None);
    assert_eq!(status.warm(), None);
}

#[test]
fn status_from_power() {
    assert_eq!(LightStatus::from(&PowerMode::On).emitting(), true);
    assert_eq!(LightStatus::from(&PowerMode::Reboot).emitting(), true);
    assert_eq!(LightStatus::from(&PowerMode::Off).emitting(), false);
    assert_eq!(
        LightStatus::from(&PowerMode::Off),
        LightStatus::new(None, None, false, None, None, None, None, None, None)
    );
}

#[test]
fn status_from_a_report() {
    let mut bulb = report(15, Some(80), true);
    bulb.result.red = Some(1);
    bulb.result.green = Some(2);
    bulb.result.blue = Some(3);
    bulb.result.cool = Some(40);
    bulb.result.warm = Some(0);
    let status = LightStatus::from(&bulb);
    assert_eq!(
        status,
        LightStatus::new(
            Some(Color::rgb(1, 2, 3)),
            Brightness::create(80),
            true,
            Some(SceneMode::Focus),
            None,
            None,
            White::create(40),
            None,
            None,
        )
    );
}

#[test]
fn status_from_a_report_drops_what_is_out_of_range() {
    let mut bulb = report(0, Some(5), false);
    bulb.result.red = Some(1);
    bulb.result.blue = Some(3);
    bulb.result.cool = Some(101);
    let status = LightStatus::from(&bulb);
    assert_eq!(
        status,
        LightStatus::new(None, None, false, None, None, None, None, None, None)
    );
    assert_eq!(LightStatus::from(&report(34, None, true)).scene(), None);
}

#[test]
fn context_of_one_setting() {
    let ip = Ipv4::new(10, 1, 2, 3);
    let cases = [
        (Payload::from(&SceneMode::Focus), LastSet::Scene),
        (Payload::from(&Color::rgb(1, 2, 3)), LastSet::Color),
        (Payload::from(&Kelvin::new()), LastSet::Temp),
    ];
    for (payload, expected) in cases {
        let mut fresh = Light::new(ip, None);
        fresh.process_reply(&LightingResponse::payload(ip, payload));
        assert_eq!(fresh.status().unwrap().last(), Some(&expected));

        let mut known = Light::new(ip, None);
        known.process_reply(&LightingResponse::payload(ip, Payload::from(&Kelvin::new())));
        known.process_reply(&LightingResponse::payload(ip, payload));
        assert_eq!(known.status().unwrap().last(), Some(&expected));
    }
    let mut cool = Payload::new();
    cool.cool(&White::new());
    let mut warm = Payload::new();
    warm.warm(&White::new());
    let mut light = Light::new(ip, None);
    light.process_reply(&LightingResponse::payload(ip, cool));
    assert_eq!(light.status().unwrap().last(), Some(&LastSet::Cool));
    light.process_reply(&LightingResponse::payload(ip, warm));
    assert_eq!(light.status().unwrap().last(), Some(&LastSet::Warm));
    assert_eq!(light.status().unwrap().cool().unwrap().value(), 100);
}

#[test]
fn context_of_several_settings_without_a_known_status() {
    let mut payload = Payload::new();
    payload.scene(&SceneMode::Ocean);
    assert_eq!(LastSet::from(&payload), Some(LastSet::Scene));
    payload.color(&Color::new());
    assert_eq!(LastSet::from(&payload), Some(LastSet::Color));
    payload.temp(&Kelvin::new());
    assert_eq!(LastSet::from(&payload), Some(LastSet::Temp));
    payload.cool(&White::new());
    assert_eq!(LastSet::from(&payload), Some(LastSet::Cool));
    payload.warm(&White::new());
    assert_eq!(LastSet::from(&payload), Some(LastSet::Warm));
    assert_eq!(LightStatus::from(&payload).last(), Some(&LastSet::Warm));
    assert_eq!(LastSet::from(&Payload::from(&Speed::new())), None);

    let mut payload = Payload::new();
    payload.warm(&White::new());
    payload.scene(&SceneMode::Ocean);
    assert_eq!(LastSet::from(&payload), Some(LastSet::Warm));
    let mut payload = Payload::new();
    payload.temp(&Kelvin::new());
    payload.scene(&SceneMode::Ocean);
    assert_eq!(LightStatus::from(&payload).last(), Some(&LastSet::Temp));
}

#[test]
fn context_of_color_and_temperature_is_temperature() {
    let mut p = Payload::new();
    p.color(&Color::from_str("255,0,0").unwrap());
    p.temp(&Kelvin::create(4000).unwrap());
    let st = LightStatus::from(&p);
    assert_eq!(st.last(), Some(&LastSet::Temp));
    assert_eq!(st.color(), Some(&Color::from_str("255,0,0").unwrap()));
    assert_eq!(st.temp().unwrap().kelvin(), 4000);
}

#[test]
fn context_of_several_settings_with_a_known_status() {
    let known = LightStatus::from(&PowerMode::On);

    let mut payload = Payload::new();
    payload.scene(&SceneMode::Ocean);
    payload.color(&Color::new());
    let mut status = known;
    status.update_from_payload(&payload);
    assert_eq!(status.last(), Some(&LastSet::Color));

    let mut payload = Payload::new();
    payload.scene(&SceneMode::Ocean);
    payload.temp(&Kelvin::new());
    let mut status = known;
    status.update_from_payload(&payload);
    assert_eq!(status.last(), Some(&LastSet::Temp));

    payload.color(&Color::new());
    let mut status = known;
    status.update_from_payload(&payload);
    assert_eq!(status.last(), Some(&LastSet::Temp));

    payload.cool(&White::new());
    let mut status = known;
    status.update_from_payload(&payload);
    assert_eq!(status.last(), Some(&LastSet::Cool));

    payload.warm(&White::new());
    let mut status = known;
    status.update_from_payload(&payload);
    assert_eq!(status.last(), Some(&LastSet::Warm));
    assert_eq!(status.scene(), Some(&SceneMode::Ocean));

    let mut status = LightStatus::from(&Payload::from(&SceneMode::Ocean));
    status.update_from_payload(&Payload::from(&Speed::new()));
    assert_eq!(status.last(), Some(&LastSet::Scene));
    assert_eq!(status.emitting(), true);
}

#[test]
fn power_overwrites_emitting_only() {
    let mut status = LightStatus::from(&Payload::from(&Color::rgb(4, 5, 6)));
    status.update_from_power(&PowerMode::Off);
    assert_eq!(status.emitting(), false);
    assert_eq!(status.color(), Some(&Color::rgb(4, 5, 6)));
    assert_eq!(status.last(), Some(&LastSet::Color));
    status.update_from_power(&PowerMode::Reboot);
    assert_eq!(status.emitting(), true);
    status.update_from_power(&PowerMode::Off);
    status.update_from_power(&PowerMode::On);
    assert_eq!(status.emitting(), true);
}

#[test]
fn absent_fields_keep_what_the_first_result_set() {
    let ip = Ipv4::new(10, 1, 2, 3);
    let mut first = Payload::new();
    first.brightness(&Brightness::create(40).unwrap());
    first.temp(&Kelvin::create(3000).unwrap());
    let mut second = Payload::new();
    second.speed(&Speed::create(60).unwrap());
    second.cool(&White::create(7).unwrap());

    let mut light = Light::new(ip, None);
    light.process_reply(&LightingResponse::payload(ip, first));
    light.process_reply(&LightingResponse::payload(ip, second));
    light.process_reply(&LightingResponse::power(ip, PowerMode::Off));
    let status = light.status().unwrap();
    assert_eq!(status.brightness().unwrap().value(), 40);
    assert_eq!(status.temp().unwrap().kelvin(), 3000);
    assert_eq!(status.speed().unwrap().value(), 60);
    assert_eq!(status.cool().unwrap().value(), 7);
    assert_eq!(status.last(), Some(&LastSet::Cool));
    assert_eq!(status.emitting(), false);
}

#[test]
fn speed_is_kept_beside_a_color() {
    let ip = Ipv4::new(10, 1, 2, 3);
    let mut light = Light::new(ip, None);

    let mut payload = Payload::new();
    payload.speed(&Speed::create(100).unwrap());
    payload.color(&Color::from_str("0,0,255").unwrap());

    let resp = LightingResponse::payload(ip, payload);
    assert!(light.process_reply(&resp));

    let status = light.status().unwrap();
    assert_eq!(status.last().unwrap(), &LastSet::Color);
    assert_eq!(status.speed().unwrap().value(), 100);
}

#[test]
fn color_then_scene_keeps_the_color() {
    let ip = Ipv4::new(192, 168, 1, 25);
    let mut light = Light::new(ip, None);
    assert!(light.status().is_none());

    let red = Color::from_str("255,0,0").unwrap();
    assert!(light.process_reply(&LightingResponse::payload(ip, Payload::from(&red))));
    let status = light.status().unwrap();
    assert_eq!(status.color(), Some(&Color::rgb(255, 0, 0)));
    assert_eq!(status.last(), Some(&LastSet::Color));

    let scene = SceneMode::create(15).unwrap();
    assert!(light.process_reply(&LightingResponse::payload(ip, Payload::from(&scene))));
    let status = light.status().unwrap();
    assert_eq!(status.color(), Some(&Color::rgb(255, 0, 0)));
    assert_eq!(status.last(), Some(&LastSet::Scene));
    assert_eq!(status.scene().unwrap().id(), 15);
}

#[test]
fn a_reply_for_another_address_is_left_aside() {
    let mut light = Light::new(Ipv4::new(10, 1, 2, 3), Some("desk"));
    let resp = LightingResponse::power(Ipv4::new(10, 1, 2, 4), PowerMode::On);
    assert_eq!(light.process_reply(&resp), false);
    assert!(light.status().is_none());
    assert_eq!(light.name(), Some("desk"));
    assert_eq!(light.ip(), Ipv4::new(10, 1, 2, 3));
}

#[test]
fn a_status_reply_is_merged() {
    let ip = Ipv4::new(10, 1, 2, 3);
    let mut light = Light::new(ip, None);
    let mut payload = Payload::new();
    payload.temp(&Kelvin::create(5000).unwrap());
    payload.scene(&SceneMode::Party);
    light.process_reply(&LightingResponse::payload(ip, payload));
    let resp = light.status_reply(&report(0, Some(30), false));
    assert_eq!(resp.ip(), ip);
    light.process_reply(&resp);
    let status = light.status().unwrap();
    assert_eq!(status.temp().unwrap().kelvin(), 5000);
    assert_eq!(status.brightness().unwrap().value(), 30);
    assert_eq!(status.scene(), Some(&SceneMode::Party));
    assert_eq!(status.emitting(), false);
    assert_eq!(status.last(), Some(&LastSet::Temp));

    light.process_reply(&light.status_reply(&report(1, None, true)));
    let status = light.status().unwrap();
    assert_eq!(status.scene(), Some(&SceneMode::Ocean));
    assert_eq!(status.brightness().unwrap().value(), 30);
    assert_eq!(status.emitting(), true);
}
