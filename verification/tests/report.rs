use riz::errors::Error;
use riz::models::{BulbStatus, BulbStatusResult, Color, LightStatus, SceneMode};
use riz::protocol::decode_reply;
use riz::report::{Field, RawReport};

fn good() -> RawReport {
    RawReport {
        env: Field::Text("pro".to_string()),
        method: Field::Text("getPilot".to_string()),
        red: Field::Number(255),
        green: Field::Number(0),
        blue: Field::Number(7),
        dimming: Field::Number(80),
        mac: Field::Text("a8bb50aabbcc".to_string()),
        emitting: Field::Flag(true),
        scene: Field::Number(15),
        rssi: Field::Negative(-61),
        cool: Field::Missing,
        warm: Field::Null,
    }
}

fn load(place: &str) -> Result<BulbStatus, Error> {
    Err(Error::JsonLoad(place.to_string()))
}

#[test]
fn report_from_members() {
    let bulb = BulbStatus::from_fields(&good()).unwrap();
    assert_eq!(
        bulb,
        BulbStatus {
            env: "pro".to_string(),
            method: "getPilot".to_string(),
            result: BulbStatusResult {
                red: Some(255),
                green: Some(0),
                blue: Some(7),
                dimming: Some(80),
                mac: "a8bb50aabbcc".to_string(),
                emitting: true,
                scene: 15,
                rssi: -61,
                cool: None,
                warm: None,
            },
        }
    );
    let status = LightStatus::from(&bulb);
    assert_eq!(status.color(), Some(&Color::rgb(255, 0, 7)));
    assert_eq!(status.scene(), Some(&SceneMode::Focus));
    assert_eq!(status.brightness().unwrap().value(), 80);
}

#[test]
fn report_members_of_the_wrong_kind() {
    let mut raw = good();
    raw.env = Field::Missing;
    raw.mac = Field::Missing;
    assert_eq!(BulbStatus::from_fields(&raw), load("env"));

    let mut raw = good();
    raw.method = Field::Null;
    assert_eq!(BulbStatus::from_fields(&raw), load("method"));

    let mut raw = good();
    raw.red = Field::Number(256);
    raw.warm = Field::Other;
    assert_eq!(BulbStatus::from_fields(&raw), load("result.r"));

    let mut raw = good();
    raw.green = Field::Negative(-1);
    assert_eq!(BulbStatus::from_fields(&raw), load("result.g"));

    let mut raw = good();
    raw.blue = Field::Text("7".to_string());
    assert_eq!(BulbStatus::from_fields(&raw), load("result.b"));

    let mut raw = good();
    raw.dimming = Field::Flag(true);
    assert_eq!(BulbStatus::from_fields(&raw), load("result.dimming"));

    let mut raw = good();
    raw.mac = Field::Number(1);
    assert_eq!(BulbStatus::from_fields(&raw), load("result.mac"));

    let mut raw = good();
    raw.emitting = Field::Number(1);
    assert_eq!(BulbStatus::from_fields(&raw), load("result.state"));

    let mut raw = good();
    raw.scene = Field::Missing;
    assert_eq!(BulbStatus::from_fields(&raw), load("result.sceneId"));

    let mut raw = good();
    raw.scene = Field::Number(256);
    assert_eq!(BulbStatus::from_fields(&raw), load("result.sceneId"));

    let mut raw = good();
    raw.rssi = Field::Number(0x8000_0000);
    assert_eq!(BulbStatus::from_fields(&raw), load("result.rssi"));

    let mut raw = good();
    raw.rssi = Field::Negative(-0x8000_0001);
    assert_eq!(BulbStatus::from_fields(&raw), load("result.rssi"));

    let mut raw = good();
    raw.cool = Field::Other;
    assert_eq!(BulbStatus::from_fields(&raw), load("result.c"));

    let mut raw = good();
    raw.warm = Field::Number(1000);
    assert_eq!(BulbStatus::from_fields(&raw), load("result.w"));
}

#[test]
fn report_signal_strength_limits() {
    let mut raw = good();
    raw.rssi = Field::Number(0x7fff_ffff);
    assert_eq!(BulbStatus::from_fields(&raw).unwrap().result.rssi, i32::MAX);
    raw.rssi = Field::Negative(-0x8000_0000);
    assert_eq!(BulbStatus::from_fields(&raw).unwrap().result.rssi, i32::MIN);
    raw.rssi = Field::Number(0);
    assert_eq!(BulbStatus::from_fields(&raw).unwrap().result.rssi, 0);
}

#[test]
fn report_from_a_reply() {
    let reply = b"{\"method\":\"getPilot\",\"env\":\"pro\",\"result\":{\"mac\":\"a8bb50aabbcc\",\"rssi\":-60,\"src\":\"\",\"state\":true,\"sceneId\":0,\"r\":255,\"g\":0,\"b\":0,\"c\":null,\"dimming\":100}}";
    let value = decode_reply(reply.to_vec()).unwrap();
    let raw = RawReport::read(&value);
    assert_eq!(raw.env, Field::Text("pro".to_string()));
    assert_eq!(raw.rssi, Field::Negative(-60));
    assert_eq!(raw.red, Field::Number(255));
    assert_eq!(raw.cool, Field::Null);
    assert_eq!(raw.warm, Field::Missing);
    assert_eq!(raw.emitting, Field::Flag(true));
    let bulb = BulbStatus::parse(&value).unwrap();
    assert_eq!(bulb.result.mac, "a8bb50aabbcc");
    assert_eq!(bulb.result.scene, 0);
    assert_eq!(bulb.result.dimming, Some(100));
    assert_eq!(bulb.result.cool, None);
    let status = LightStatus::from(&bulb);
    assert_eq!(status.color(), Some(&Color::rgb(255, 0, 0)));
    assert_eq!(status.scene(), None);
    assert_eq!(status.emitting(), true);
    assert_eq!(status.last(), None);
}

#[test]
fn report_from_a_reply_that_is_none() {
    let replies: [&[u8]; 6] = [
        b"{}",
        b"[\"pro\",\"getPilot\",{}]",
        b"{\"method\":\"getPilot\",\"env\":\"pro\",\"result\":7}",
        b"{\"method\":\"getPilot\",\"env\":\"pro\",\"result\":{\"mac\":\"m\",\"rssi\":-60,\"state\":true,\"sceneId\":1.5}}",
        b"{\"method\":\"getPilot\",\"env\":\"pro\",\"result\":{\"mac\":\"m\",\"rssi\":-60,\"state\":\"on\",\"sceneId\":1}}",
        b"{\"method\":\"getPilot\",\"env\":\"pro\",\"result\":{\"mac\":\"m\",\"rssi\":-60,\"state\":true,\"sceneId\":1,\"r\":[1]}}",
    ];
    for reply in replies {
        let value = decode_reply(reply.to_vec()).unwrap();
        assert!(matches!(BulbStatus::parse(&value), Err(Error::JsonLoad(_))));
    }
    let value = decode_reply(
        b"{\"method\":\"getPilot\",\"env\":\"pro\",\"result\":{\"mac\":\"m\",\"rssi\":1e2,\"state\":true,\"sceneId\":1}}"
            .to_vec(),
    )
    .unwrap();
    assert_eq!(RawReport::read(&value).rssi, Field::Other);
    assert_eq!(BulbStatus::parse(&value), load("result.rssi"));
}
