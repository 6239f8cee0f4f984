//! A level, with or without the entities that it refers to.

use crate::de::{
    decode, decode_prefix, decode_spec, lookup_spec, DeError, DeErrorModel, Field, Kind, Mode, Presence, Record, Scalar, Schema,
    SchemaModel, ScalarModel, Value, ValueModel,
};
use crate::model::creator::{Creator, CreatorModel};
use crate::model::song::{NewgroundsSong, SongModel};
use crate::text::{canonical, digits_of, lemma_token_round_trip, number_spec, split_spec};
use std::borrow::Cow;
use vstd::prelude::*;

verus! {

/// A level. `S` is what the level knows of its custom song and `C` what it
/// knows of its creator: their ids as the level's own fragment gives them,
/// or the entities themselves once the response has been assembled.
#[derive(Debug, PartialEq, Eq)]
pub struct Level<'a, S, C> {
    /// The level's id.
    pub level_id: u64,
    /// The level's name.
    pub name: Cow<'a, str>,
    /// The level's creator.
    pub creator: C,
    /// The level's custom song, if it has one.
    pub custom_song: S,
}

/// A level as its own fragment gives it: the creator's user id, and the
/// custom song's id where the level names one.
pub type RawLevel<'a> = Level<'a, Option<u64>, u64>;

/// A level with the creator and the song that the response holds for it.
pub type LinkedLevel<'a> = Level<'a, Option<NewgroundsSong<'a>>, Option<Creator<'a>>>;

/// A level over character sequences.
pub struct LevelModel<S, C> {
    pub level_id: u64,
    pub name: Seq<char>,
    pub creator: C,
    pub custom_song: S,
}

pub type RawLevelModel = LevelModel<Option<u64>, u64>;

pub type LinkedLevelModel = LevelModel<Option<SongModel>, Option<CreatorModel>>;

impl<'a> View for Level<'a, Option<u64>, u64> {
    type V = RawLevelModel;

    open spec fn view(&self) -> RawLevelModel {
        LevelModel {
            level_id: self.level_id,
            name: self.name@,
            creator: self.creator,
            custom_song: self.custom_song,
        }
    }
}

impl<'a> View for Level<'a, Option<NewgroundsSong<'a>>, Option<Creator<'a>>> {
    type V = LinkedLevelModel;

    open spec fn view(&self) -> LinkedLevelModel {
        LevelModel {
            level_id: self.level_id,
            name: self.name@,
            creator: match self.creator {
                Some(c) => Some(c@),
                None => None,
            },
            custom_song: match self.custom_song {
                Some(s) => Some(s@),
                None => None,
            },
        }
    }
}

/// The fields of a level.
pub open spec fn level_fields() -> Seq<Field> {
    seq![
        Field {
            name: "level_id",
            key: 1,
            kind: Kind::Number,
            presence: Presence::Required,
            deferred: false,
        },
        Field { name: "name", key: 2, kind: Kind::Text, presence: Presence::Required, deferred: false },
        Field {
            name: "creator",
            key: 6,
            kind: Kind::Number,
            presence: Presence::Defaulted,
            deferred: false,
        },
        Field {
            name: "custom_song",
            key: 35,
            kind: Kind::Number,
            presence: Presence::Optional,
            deferred: false,
        },
    ]
}

/// The schema of a level: further tokens are no error.
pub open spec fn level_schema() -> SchemaModel {
    SchemaModel { fields: level_fields(), strict: false }
}

/// The delimiter between the tokens of a level.
pub open spec fn level_delimiter() -> Seq<char> {
    seq![':']
}

/// The mode that a level is written in.
pub open spec fn level_mode() -> Mode {
    Mode::Indexed
}

/// The level that a decoded record stands for. A record of another shape
/// than the schema's stands for none.
pub open spec fn level_of(values: Seq<ValueModel>) -> Result<RawLevelModel, DeErrorModel> {
    if values.len() == 4 {
        match (values[0], values[1], values[2], values[3]) {
            (
                ValueModel::Present(ScalarModel::Number(level_id)),
                ValueModel::Present(ScalarModel::Text(name)),
                ValueModel::Present(ScalarModel::Number(creator)),
                ValueModel::Present(ScalarModel::Number(song)),
            ) => Ok(LevelModel { level_id, name, creator, custom_song: Some(song) }),
            (
                ValueModel::Present(ScalarModel::Number(level_id)),
                ValueModel::Present(ScalarModel::Text(name)),
                ValueModel::Present(ScalarModel::Number(creator)),
                ValueModel::Absent,
            ) => Ok(LevelModel { level_id, name, creator, custom_song: None }),
            _ => Err(DeErrorModel::UnexpectedFormat),
        }
    } else {
        Err(DeErrorModel::UnexpectedFormat)
    }
}

/// The level that a fragment decodes to, or the error.
pub open spec fn level_spec(input: Seq<char>) -> Result<RawLevelModel, DeErrorModel> {
    match decode_spec(input, level_delimiter(), level_mode(), level_schema()) {
        Ok(values) => level_of(values),
        Err(e) => Err(e),
    }
}

/// The model of the outcome of decoding a level.
pub open spec fn level_result_view(r: Result<RawLevel, DeError>) -> Result<RawLevelModel, DeErrorModel> {
    match r {
        Ok(c) => Ok(c@),
        Err(e) => Err(e@),
    }
}

/// The creator id of a level: the value after key 6, or 0 without that key.
pub open spec fn level_creator_by_tokens(tokens: Seq<Seq<char>>) -> Result<u64, DeErrorModel> {
    match lookup_spec(tokens, 6, 0) {
        None => Ok(0),
        Some(raw) => match number_spec(raw) {
            None => Err(DeErrorModel::TypeMismatch { field: "creator"@, raw }),
            Some(n) => Ok(n),
        },
    }
}

/// The song id of a level: the value after key 35, or none without that key.
pub open spec fn level_song_by_tokens(tokens: Seq<Seq<char>>) -> Result<Option<u64>, DeErrorModel> {
    match lookup_spec(tokens, 35, 0) {
        None => Ok(None),
        Some(raw) => match number_spec(raw) {
            None => Err(DeErrorModel::TypeMismatch { field: "custom_song"@, raw }),
            Some(n) => Ok(Some(n)),
        },
    }
}

/// What a fragment decodes to, said over its tokens: the value after key 1
/// is the id, the value after key 2 the name; then the creator and the
/// song. The first field that fails, in this order, gives the error.
pub open spec fn level_by_tokens(input: Seq<char>) -> Result<RawLevelModel, DeErrorModel> {
    let tokens = split_spec(input, level_delimiter());
    match lookup_spec(tokens, 1, 0) {
        None => Err(DeErrorModel::UnknownRequiredKey),
        Some(raw) => match number_spec(raw) {
            None => Err(DeErrorModel::TypeMismatch { field: "level_id"@, raw }),
            Some(level_id) => match lookup_spec(tokens, 2, 0) {
                None => Err(DeErrorModel::UnknownRequiredKey),
                Some(name) => match level_creator_by_tokens(tokens) {
                    Err(e) => Err(e),
                    Ok(creator) => match level_song_by_tokens(tokens) {
                        Err(e) => Err(e),
                        Ok(custom_song) => Ok(LevelModel { level_id, name, creator, custom_song }),
                    },
                },
            },
        },
    }
}

/// Decoding under the level's schema and reading the record is the same as
/// looking the four keys up.
pub proof fn lemma_level_by_tokens(input: Seq<char>)
    ensures
        level_spec(input) == level_by_tokens(input),
{
    reveal_with_fuel(decode_prefix, 5);
    let fields = level_fields();
    assert(fields[0].key == 1 && fields[1].key == 2 && fields[2].key == 6 && fields[3].key == 35);
    assert(fields.len() == 4);
}

/// A decoded level gives its tokens back: the name is the value after key 2
/// as it stood, and each number, written out again, is the value after its
/// key wherever that token had no leading zeros. The owned form of a level
/// has the same model, so the same holds of it.
pub proof fn lemma_level_tokens_reproduced(input: Seq<char>)
    requires
        level_spec(input) is Ok,
    ensures
        ({
            let tokens = split_spec(input, level_delimiter());
            let level = level_spec(input)->Ok_0;
            &&& lookup_spec(tokens, 2, 0) == Some(level.name)
            &&& lookup_spec(tokens, 1, 0) matches Some(raw) && (canonical(raw) ==> digits_of(
                level.level_id as nat,
            ) == raw)
            &&& lookup_spec(tokens, 6, 0) matches Some(raw) ==> (canonical(raw) ==> digits_of(
                level.creator as nat,
            ) == raw)
            &&& level.custom_song is Some == lookup_spec(tokens, 35, 0) is Some
            &&& lookup_spec(tokens, 35, 0) matches Some(raw) ==> (canonical(raw) ==> digits_of(
                level.custom_song->Some_0 as nat,
            ) == raw)
        }),
{
    lemma_level_by_tokens(input);
    let tokens = split_spec(input, level_delimiter());
    let id = lookup_spec(tokens, 1, 0)->Some_0;
    if canonical(id) {
        lemma_token_round_trip(id);
    }
    if let Some(raw) = lookup_spec(tokens, 6, 0) {
        if canonical(raw) {
            lemma_token_round_trip(raw);
        }
    }
    if let Some(raw) = lookup_spec(tokens, 35, 0) {
        if canonical(raw) {
            lemma_token_round_trip(raw);
        }
    }
}

impl<'a> Clone for Level<'a, Option<u64>, u64> {
    fn clone(&self) -> (r: Self)
        ensures
            r@ == self@,
    {
        let name: Cow<'a, str> = match &self.name {
            Cow::Borrowed(b) => Cow::Borrowed(*b),
            Cow::Owned(o) => Cow::Owned(o.clone()),
        };
        Level { level_id: self.level_id, name, creator: self.creator, custom_song: self.custom_song }
    }
}

impl<'a> Clone for Level<'a, Option<NewgroundsSong<'a>>, Option<Creator<'a>>> {
    fn clone(&self) -> (r: Self)
        ensures
            r@ == self@,
    {
        let name: Cow<'a, str> = match &self.name {
            Cow::Borrowed(b) => Cow::Borrowed(*b),
            Cow::Owned(o) => Cow::Owned(o.clone()),
        };
        let creator: Option<Creator<'a>> = match &self.creator {
            Some(c) => Some(c.clone()),
            None => None,
        };
        let custom_song: Option<NewgroundsSong<'a>> = match &self.custom_song {
            Some(s) => Some(s.clone()),
            None => None,
        };
        Level { level_id: self.level_id, name, creator, custom_song }
    }
}

impl<'a> Level<'a, Option<u64>, u64> {
    /// The schema that levels are decoded under.
    pub fn schema() -> (s: Schema)
        ensures
            s@ == level_schema(),
    {
        let mut fields: Vec<Field> = Vec::new();
        fields.push(
            Field {
                name: "level_id",
                key: 1,
                kind: Kind::Number,
                presence: Presence::Required,
                deferred: false,
            },
        );
        fields.push(
            Field { name: "name", key: 2, kind: Kind::Text, presence: Presence::Required, deferred: false },
        );
        fields.push(
            Field {
                name: "creator",
                key: 6,
                kind: Kind::Number,
                presence: Presence::Defaulted,
                deferred: false,
            },
        );
        fields.push(
            Field {
                name: "custom_song",
                key: 35,
                kind: Kind::Number,
                presence: Presence::Optional,
                deferred: false,
            },
        );
        proof {
            assert(fields@ =~= level_fields());
        }
        Schema { fields, strict: false }
    }

    /// The delimiter between the tokens of a fragment.
    pub fn delimiter() -> (d: &'static str)
        ensures
            d@ == level_delimiter(),
    {
        proof {
            reveal_strlit(":");
            assert(":"@ =~= level_delimiter());
        }
        ":"
    }

    /// The mode that fragments are written in.
    pub fn mode() -> (m: Mode)
        ensures
            m == level_mode(),
    {
        Mode::Indexed
    }

    /// Reads a level off a decoded record.
    pub fn from_record(record: &Record<'a>) -> (r: Result<RawLevel<'a>, DeError<'a>>)
        ensures
            level_result_view(r) == level_of(record@),
    {
        if record.values.len() != 4 {
            return Err(DeError::UnexpectedFormat);
        }
        let level_id = match record.values[0] {
            Value::Present(Scalar::Number(n)) => n,
            _ => { return Err(DeError::UnexpectedFormat); },
        };
        let name = match record.values[1] {
            Value::Present(Scalar::Text(t)) => t,
            _ => { return Err(DeError::UnexpectedFormat); },
        };
        let creator = match record.values[2] {
            Value::Present(Scalar::Number(n)) => n,
            _ => { return Err(DeError::UnexpectedFormat); },
        };
        let custom_song = match record.values[3] {
            Value::Present(Scalar::Number(n)) => Some(n),
            Value::Absent => None,
            _ => { return Err(DeError::UnexpectedFormat); },
        };
        Ok(Level { level_id, name: Cow::Borrowed(name), creator, custom_song })
    }

    /// Decodes one level from its fragment. The name borrows from `input`.
    pub fn from_robtop_str(input: &'a str) -> (r: Result<RawLevel<'a>, DeError<'a>>)
        ensures
            level_result_view(r) == level_spec(input@),
            level_result_view(r) == level_by_tokens(input@),
    {
        proof {
            lemma_level_by_tokens(input@);
        }
        let schema = RawLevel::schema();
        match decode(input, RawLevel::delimiter(), RawLevel::mode(), &schema) {
            Ok(record) => RawLevel::from_record(&record),
            Err(e) => Err(e),
        }
    }

    /// Converts the level to owned form: the same level, borrowing from no
    /// input.
    pub fn into_owned(self) -> (r: RawLevel<'static>)
        ensures
            r@ == self@,
            r.name is Owned,
    {
        let name: String = match self.name {
            Cow::Borrowed(b) => b.to_owned(),
            Cow::Owned(o) => o,
        };
        Level {
            level_id: self.level_id,
            name: Cow::Owned(name),
            creator: self.creator,
            custom_song: self.custom_song,
        }
    }
}

impl<'a> Level<'a, Option<NewgroundsSong<'a>>, Option<Creator<'a>>> {
    /// Converts the level, its creator and its song to owned form: the same
    /// level, borrowing from no input.
    pub fn into_owned(self) -> (r: LinkedLevel<'static>)
        ensures
            r@ == self@,
            r.name is Owned,
    {
        let name: String = match self.name {
            Cow::Borrowed(b) => b.to_owned(),
            Cow::Owned(o) => o,
        };
        let creator: Option<Creator<'static>> = match self.creator {
            Some(c) => Some(c.into_owned()),
            None => None,
        };
        let custom_song: Option<NewgroundsSong<'static>> = match self.custom_song {
            Some(s) => Some(s.into_owned()),
            None => None,
        };
        Level { level_id: self.level_id, name: Cow::Owned(name), creator, custom_song }
    }
}

} // verus!
