use robtop::de::{DeError, Mode, Record, Scalar, Value};
use robtop::model::creator::{from_str, Creator};
use robtop::model::level::{Level, LinkedLevel, RawLevel};
use robtop::model::song::NewgroundsSong;
use std::borrow::Cow;

#[test]
fn creator_is_decoded_positionally() {
    assert_eq!(
        from_str("7:RobTop:16"),
        Ok(Creator { user_id: 7, name: Cow::Borrowed("RobTop"), account_id: Some(16) })
    );
}

#[test]
fn creator_name_borrows_from_the_input() {
    let creator = from_str("7:RobTop:16").unwrap();
    assert!(matches!(creator.name, Cow::Borrowed(_)));
}

#[test]
fn creator_without_account_has_none() {
    assert_eq!(
        from_str("4170784:Serponge"),
        Ok(Creator { user_id: 4170784, name: Cow::Borrowed("Serponge"), account_id: None })
    );
}

#[test]
fn creator_ignores_further_tokens() {
    assert_eq!(
        Creator::from_robtop_str("7:RobTop:16:rest:more"),
        Ok(Creator { user_id: 7, name: Cow::Borrowed("RobTop"), account_id: Some(16) })
    );
}

#[test]
fn creator_errors() {
    assert_eq!(from_str(""), Err(DeError::TypeMismatch { field: "user_id", raw: "" }));
    assert_eq!(from_str("x:RobTop:16"), Err(DeError::TypeMismatch { field: "user_id", raw: "x" }));
    assert_eq!(from_str("7"), Err(DeError::UnexpectedFormat));
    assert_eq!(from_str("7:RobTop:"), Err(DeError::TypeMismatch { field: "account_id", raw: "" }));
    assert_eq!(from_str("7:RobTop:-"), Err(DeError::TypeMismatch { field: "account_id", raw: "-" }));
}

#[test]
fn creator_schema_is_positional() {
    let schema = Creator::schema();
    assert_eq!(Creator::mode(), Mode::Positional);
    assert_eq!(Creator::delimiter(), ":");
    assert!(!schema.strict);
    assert_eq!(schema.fields.len(), 3);
    assert_eq!(schema.fields[0].name, "user_id");
    assert_eq!(schema.fields[2].name, "account_id");
}

#[test]
fn creator_from_record_of_another_shape_fails() {
    let short = Record { values: vec![Value::Present(Scalar::Number(7))] };
    assert_eq!(Creator::from_record(&short), Err(DeError::UnexpectedFormat));
    let wrong = Record {
        values: vec![
            Value::Present(Scalar::Text("7")),
            Value::Present(Scalar::Text("RobTop")),
            Value::Absent,
        ],
    };
    assert_eq!(Creator::from_record(&wrong), Err(DeError::UnexpectedFormat));
    let right = Record {
        values: vec![
            Value::Present(Scalar::Number(7)),
            Value::Present(Scalar::Text("RobTop")),
            Value::Absent,
        ],
    };
    assert_eq!(
        Creator::from_record(&right),
        Ok(Creator { user_id: 7, name: Cow::Borrowed("RobTop"), account_id: None })
    );
}

#[test]
fn creator_into_owned_keeps_every_field() {
    let owned: Creator<'static> = {
        let input = String::from("7:RobTop:16");
        let creator = from_str(&input).unwrap();
        creator.into_owned()
    };
    assert_eq!(owned.user_id, 7);
    assert_eq!(owned.name, "RobTop");
    assert_eq!(owned.account_id, Some(16));
    assert!(matches!(owned.name, Cow::Owned(_)));
}

#[test]
fn creator_into_owned_of_owned_is_the_same() {
    let creator = Creator { user_id: 1, name: Cow::Owned(String::from("a")), account_id: None };
    let owned = creator.clone().into_owned();
    assert_eq!(owned, creator);
}

#[test]
fn creator_clone_is_equal() {
    let creator = from_str("7:RobTop:16").unwrap();
    let copy = creator.clone();
    assert_eq!(copy, creator);
    assert!(matches!(copy.name, Cow::Borrowed(_)));
}

#[test]
fn owned_creator_gives_its_tokens_back() {
    let input = "7:RobTop:16";
    let owned = from_str(input).unwrap().into_owned();
    let mut written = String::new();
    written.extend(robtop::text::encode_number(owned.user_id));
    written.push(':');
    written.push_str(&owned.name);
    written.push(':');
    written.extend(robtop::text::encode_number(owned.account_id.unwrap()));
    assert_eq!(written, input);
}

#[test]
fn song_is_decoded_by_keys() {
    assert_eq!(
        NewgroundsSong::from_robtop_str("1~|~771277~|~2~|~Creo - Dune"),
        Ok(NewgroundsSong { song_id: 771277, name: Cow::Borrowed("Creo - Dune") })
    );
    assert_eq!(
        NewgroundsSong::from_robtop_str("2~|~Creo - Dune~|~4~|~Creo~|~1~|~771277"),
        Ok(NewgroundsSong { song_id: 771277, name: Cow::Borrowed("Creo - Dune") })
    );
}

#[test]
fn song_errors() {
    assert_eq!(NewgroundsSong::from_robtop_str(""), Err(DeError::UnknownRequiredKey));
    assert_eq!(NewgroundsSong::from_robtop_str("1~|~5"), Err(DeError::UnknownRequiredKey));
    assert_eq!(
        NewgroundsSong::from_robtop_str("1~|~five~|~2~|~x"),
        Err(DeError::TypeMismatch { field: "song_id", raw: "five" })
    );
}

#[test]
fn song_into_owned_keeps_every_field() {
    let song = NewgroundsSong::from_robtop_str("1~|~5~|~2~|~Dune").unwrap();
    let copy = song.clone();
    let owned = song.into_owned();
    assert_eq!(owned, copy);
    assert!(matches!(owned.name, Cow::Owned(_)));
}

#[test]
fn level_is_decoded_by_keys() {
    assert_eq!(
        RawLevel::from_robtop_str("1:1:2:Demon Run"),
        Ok(Level { level_id: 1, name: Cow::Borrowed("Demon Run"), creator: 0, custom_song: None })
    );
    assert_eq!(
        RawLevel::from_robtop_str("1:72540:2:Demon Mixed:5:2:6:7:35:771277:8:10"),
        Ok(Level {
            level_id: 72540,
            name: Cow::Borrowed("Demon Mixed"),
            creator: 7,
            custom_song: Some(771277),
        })
    );
}

#[test]
fn level_errors() {
    assert_eq!(RawLevel::from_robtop_str("2:Name"), Err(DeError::UnknownRequiredKey));
    assert_eq!(RawLevel::from_robtop_str("1:5"), Err(DeError::UnknownRequiredKey));
    assert_eq!(
        RawLevel::from_robtop_str("1:x:2:Name"),
        Err(DeError::TypeMismatch { field: "level_id", raw: "x" })
    );
    assert_eq!(
        RawLevel::from_robtop_str("1:5:2:Name:6:me"),
        Err(DeError::TypeMismatch { field: "creator", raw: "me" })
    );
    assert_eq!(
        RawLevel::from_robtop_str("1:5:2:Name:35:"),
        Err(DeError::TypeMismatch { field: "custom_song", raw: "" })
    );
}

#[test]
fn level_into_owned_keeps_every_field() {
    let owned: RawLevel<'static> = {
        let input = String::from("1:5:2:Name:6:7:35:9");
        RawLevel::from_robtop_str(&input).unwrap().into_owned()
    };
    assert_eq!(
        owned,
        Level { level_id: 5, name: Cow::Borrowed("Name"), creator: 7, custom_song: Some(9) }
    );
    assert!(matches!(owned.name, Cow::Owned(_)));
}

#[test]
fn linked_level_into_owned_converts_creator_and_song() {
    let linked: LinkedLevel = Level {
        level_id: 5,
        name: Cow::Borrowed("Name"),
        creator: Some(Creator { user_id: 7, name: Cow::Borrowed("RobTop"), account_id: Some(16) }),
        custom_song: Some(NewgroundsSong { song_id: 9, name: Cow::Borrowed("Dune") }),
    };
    let owned = linked.into_owned();
    assert!(matches!(owned.name, Cow::Owned(_)));
    assert!(matches!(owned.creator.as_ref().unwrap().name, Cow::Owned(_)));
    assert!(matches!(owned.custom_song.as_ref().unwrap().name, Cow::Owned(_)));
    assert_eq!(owned.level_id, 5);
    assert_eq!(owned.name, "Name");
    assert_eq!(owned.creator.unwrap().user_id, 7);
    assert_eq!(owned.custom_song.unwrap().name, "Dune");
}

#[test]
fn song_and_level_are_indexed() {
    assert_eq!(NewgroundsSong::mode(), Mode::Indexed);
    assert_eq!(NewgroundsSong::delimiter(), "~|~");
    assert_eq!(NewgroundsSong::schema().fields.len(), 2);
    assert_eq!(RawLevel::mode(), Mode::Indexed);
    assert_eq!(RawLevel::delimiter(), ":");
    let keys: Vec<u64> = RawLevel::schema().fields.iter().map(|f| f.key).collect();
    assert_eq!(keys, vec![1, 2, 6, 35]);
}

#[test]
fn level_clone_is_equal() {
    let level = RawLevel::from_robtop_str("1:5:2:Name:6:7").unwrap();
    assert_eq!(level.clone(), level);
}

#[test]
fn linked_level_clone_is_equal() {
    let linked: LinkedLevel = Level {
        level_id: 5,
        name: Cow::Owned(String::from("Name")),
        creator: Some(Creator { user_id: 7, name: Cow::Borrowed("RobTop"), account_id: Some(16) }),
        custom_song: None,
    };
    assert_eq!(linked.clone(), linked);
}
