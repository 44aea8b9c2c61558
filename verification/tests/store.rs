use airsense::baseline::{MyBaseline, Stored};
use airsense::error::SensorError;
use airsense::session::{Action, Event, Session};
use serde_json::Value;

/// The stored form of a baseline: a JSON object of its two fields.
fn save(record: MyBaseline) -> String {
    let (co2eq, tvoc) = record.fields();
    let mut object = serde_json::Map::new();
    object.insert(String::from("co2eq"), Value::from(co2eq));
    object.insert(String::from("tvoc"), Value::from(tvoc));
    serde_json::to_string(&Value::Object(object)).unwrap()
}

/// What a stored text holds, as far as JSON goes.
fn find(text: Option<&str>) -> Stored {
    let text = match text {
        Some(text) => text,
        None => return Stored::Nothing,
    };
    match serde_json::from_str::<Value>(text) {
        Ok(Value::Object(object)) => Stored::Fields {
            co2eq: object.get("co2eq").and_then(Value::as_u64),
            tvoc: object.get("tvoc").and_then(Value::as_u64),
        },
        _ => Stored::Unreadable,
    }
}

#[test]
fn the_stored_form_is_pinned() {
    assert_eq!(
        save(MyBaseline { co2eq: 35_000, tvoc: 36_500 }),
        "{\"co2eq\":35000,\"tvoc\":36500}"
    );
}

#[test]
fn saving_a_loaded_record_writes_the_same_bytes() {
    for record in [
        MyBaseline { co2eq: 35_000, tvoc: 36_500 },
        MyBaseline { co2eq: 0, tvoc: 0 },
        MyBaseline { co2eq: 65_535, tvoc: 65_535 },
        MyBaseline { co2eq: 1, tvoc: 10 },
    ] {
        let first = save(record);
        let loaded = find(Some(&first)).load().unwrap().unwrap();
        assert_eq!(loaded, record);
        let second = save(loaded);
        assert_eq!(second.as_bytes(), first.as_bytes());
    }
}

#[test]
fn a_record_written_by_hand_loads_all_the_same() {
    let text = " { \"tvoc\" : 2,\n  \"co2eq\" : 1, \"note\" : [\"kept\", null] } ";
    assert_eq!(find(Some(text)).load(), Ok(Some(MyBaseline { co2eq: 1, tvoc: 2 })));
}

#[test]
fn invalid_json_in_the_store_stops_the_startup() {
    for text in [
        "",
        "{",
        "not json",
        "{\"co2eq\":1,\"tvoc\":}",
        "{\"co2eq\":1}",
        "{\"co2eq\":1,\"tvoc\":65536}",
        "{\"co2eq\":-1,\"tvoc\":2}",
        "{\"co2eq\":1.5,\"tvoc\":2}",
        "{\"co2eq\":\"1\",\"tvoc\":2}",
    ] {
        let stored = find(Some(text));
        assert_eq!(stored.load(), Err(SensorError::BaselineCorrupt), "for {:?}", text);
        let mut session = Session::new();
        session.handle(Event::Start);
        session.handle(Event::BusOpened);
        session.handle(Event::SensorInitialized);
        assert_eq!(
            session.handle(Event::loaded(stored)),
            Action::Abort(SensorError::BaselineCorrupt)
        );
        assert_eq!(session, Session::Failed(SensorError::BaselineCorrupt));
    }
}

#[test]
fn no_file_in_the_store_lets_the_startup_go_on() {
    let mut session = Session::new();
    session.handle(Event::Start);
    session.handle(Event::BusOpened);
    session.handle(Event::SensorInitialized);
    assert_eq!(session.handle(Event::loaded(find(None))), Action::Serve);
    assert_eq!(session, Session::Ready);
}
