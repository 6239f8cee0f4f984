//! A song that a level plays.

use crate::de::{
    decode, decode_prefix, decode_spec, lookup_spec, DeError, DeErrorModel, Field, Kind, Mode, Presence, Record, Scalar, Schema,
    SchemaModel, ScalarModel, Value, ValueModel,
};
use crate::text::{canonical, digits_of, lemma_token_round_trip, number_spec, split_spec};
use std::borrow::Cow;
use vstd::prelude::*;

verus! {

/// A song, as the list of songs in a response of levels gives it. Songs are
/// written in indexed mode: each value follows its key.
#[derive(Debug, PartialEq, Eq)]
pub struct NewgroundsSong<'a> {
    /// The song's id.
    pub song_id: u64,
    /// The song's name.
    pub name: Cow<'a, str>,
}

/// A song over character sequences.
pub struct SongModel {
    pub song_id: u64,
    pub name: Seq<char>,
}

impl<'a> View for NewgroundsSong<'a> {
    type V = SongModel;

    open spec fn view(&self) -> SongModel {
        SongModel { song_id: self.song_id, name: self.name@ }
    }
}

/// The fields of a song.
pub open spec fn song_fields() -> Seq<Field> {
    seq![
        Field {
            name: "song_id",
            key: 1,
            kind: Kind::Number,
            presence: Presence::Required,
            deferred: false,
        },
        Field { name: "name", key: 2, kind: Kind::Text, presence: Presence::Required, deferred: false },
    ]
}

/// The schema of a song: further tokens are no error.
pub open spec fn song_schema() -> SchemaModel {
    SchemaModel { fields: song_fields(), strict: false }
}

/// The delimiter between the tokens of a song.
pub open spec fn song_delimiter() -> Seq<char> {
    seq!['~', '|', '~']
}

/// The mode that a song is written in.
pub open spec fn song_mode() -> Mode {
    Mode::Indexed
}

/// The song that a decoded record stands for. A record of another shape
/// than the schema's stands for none.
pub open spec fn song_of(values: Seq<ValueModel>) -> Result<SongModel, DeErrorModel> {
    if values.len() == 2 {
        match (values[0], values[1]) {
            (
                ValueModel::Present(ScalarModel::Number(song_id)),
                ValueModel::Present(ScalarModel::Text(name)),
            ) => Ok(SongModel { song_id, name }),
            _ => Err(DeErrorModel::UnexpectedFormat),
        }
    } else {
        Err(DeErrorModel::UnexpectedFormat)
    }
}

/// The song that a fragment decodes to, or the error.
pub open spec fn song_spec(input: Seq<char>) -> Result<SongModel, DeErrorModel> {
    match decode_spec(input, song_delimiter(), song_mode(), song_schema()) {
        Ok(values) => song_of(values),
        Err(e) => Err(e),
    }
}

/// The model of the outcome of decoding a song.
pub open spec fn song_result_view(r: Result<NewgroundsSong, DeError>) -> Result<SongModel, DeErrorModel> {
    match r {
        Ok(c) => Ok(c@),
        Err(e) => Err(e@),
    }
}

/// What a fragment decodes to, said over its tokens: the value after key 1
/// is the id, the value after key 2 the name.
pub open spec fn song_by_tokens(input: Seq<char>) -> Result<SongModel, DeErrorModel> {
    let tokens = split_spec(input, song_delimiter());
    match lookup_spec(tokens, 1, 0) {
        None => Err(DeErrorModel::UnknownRequiredKey),
        Some(raw) => match number_spec(raw) {
            None => Err(DeErrorModel::TypeMismatch { field: "song_id"@, raw }),
            Some(song_id) => match lookup_spec(tokens, 2, 0) {
                None => Err(DeErrorModel::UnknownRequiredKey),
                Some(name) => Ok(SongModel { song_id, name }),
            },
        },
    }
}

/// Decoding under the song's schema and reading the record is the same as
/// looking the two keys up.
pub proof fn lemma_song_by_tokens(input: Seq<char>)
    ensures
        song_spec(input) == song_by_tokens(input),
{
    reveal_with_fuel(decode_prefix, 3);
    let fields = song_fields();
    assert(fields[0].key == 1 && fields[1].key == 2);
    assert(fields.len() == 2);
}

/// A decoded song gives its tokens back: the name is the value after key 2
/// as it stood, and the id, written out again, is the value after key 1
/// wherever that token had no leading zeros. The owned form of a song has
/// the same model, so the same holds of it.
pub proof fn lemma_song_tokens_reproduced(input: Seq<char>)
    requires
        song_spec(input) is Ok,
    ensures
        ({
            let tokens = split_spec(input, song_delimiter());
            let song = song_spec(input)->Ok_0;
            &&& lookup_spec(tokens, 2, 0) == Some(song.name)
            &&& lookup_spec(tokens, 1, 0) matches Some(raw) && (canonical(raw) ==> digits_of(
                song.song_id as nat,
            ) == raw)
        }),
{
    lemma_song_by_tokens(input);
    let tokens = split_spec(input, song_delimiter());
    let raw = lookup_spec(tokens, 1, 0)->Some_0;
    if canonical(raw) {
        lemma_token_round_trip(raw);
    }
}

impl<'a> Clone for NewgroundsSong<'a> {
    fn clone(&self) -> (r: Self)
        ensures
            r@ == self@,
    {
        let name: Cow<'a, str> = match &self.name {
            Cow::Borrowed(b) => Cow::Borrowed(*b),
            Cow::Owned(o) => Cow::Owned(o.clone()),
        };
        NewgroundsSong { song_id: self.song_id, name }
    }
}

impl<'a> NewgroundsSong<'a> {
    /// The schema that songs are decoded under.
    pub fn schema() -> (s: Schema)
        ensures
            s@ == song_schema(),
    {
        let mut fields: Vec<Field> = Vec::new();
        fields.push(
            Field {
                name: "song_id",
                key: 1,
                kind: Kind::Number,
                presence: Presence::Required,
                deferred: false,
            },
        );
        fields.push(
            Field { name: "name", key: 2, kind: Kind::Text, presence: Presence::Required, deferred: false },
        );
        proof {
            assert(fields@ =~= song_fields());
        }
        Schema { fields, strict: false }
    }

    /// The delimiter between the tokens of a fragment.
    pub fn delimiter() -> (d: &'static str)
        ensures
            d@ == song_delimiter(),
    {
        proof {
            reveal_strlit("~|~");
            assert("~|~"@ =~= song_delimiter());
        }
        "~|~"
    }

    /// The mode that fragments are written in.
    pub fn mode() -> (m: Mode)
        ensures
            m == song_mode(),
    {
        Mode::Indexed
    }

    /// Reads a song off a decoded record.
    pub fn from_record(record: &Record<'a>) -> (r: Result<NewgroundsSong<'a>, DeError<'a>>)
        ensures
            song_result_view(r) == song_of(record@),
    {
        if record.values.len() != 2 {
            return Err(DeError::UnexpectedFormat);
        }
        let song_id = match record.values[0] {
            Value::Present(Scalar::Number(n)) => n,
            _ => { return Err(DeError::UnexpectedFormat); },
        };
        let name = match record.values[1] {
            Value::Present(Scalar::Text(t)) => t,
            _ => { return Err(DeError::UnexpectedFormat); },
        };
        Ok(NewgroundsSong { song_id, name: Cow::Borrowed(name) })
    }

    /// Decodes one song from its fragment. The name borrows from `input`.
    pub fn from_robtop_str(input: &'a str) -> (r: Result<NewgroundsSong<'a>, DeError<'a>>)
        ensures
            song_result_view(r) == song_spec(input@),
            song_result_view(r) == song_by_tokens(input@),
    {
        proof {
            lemma_song_by_tokens(input@);
        }
        let schema = NewgroundsSong::schema();
        match decode(input, NewgroundsSong::delimiter(), NewgroundsSong::mode(), &schema) {
            Ok(record) => NewgroundsSong::from_record(&record),
            Err(e) => Err(e),
        }
    }

    /// Converts the song to owned form: the same song, borrowing from no
    /// input.
    pub fn into_owned(self) -> (r: NewgroundsSong<'static>)
        ensures
            r@ == self@,
            r.name is Owned,
    {
        let name: String = match self.name {
            Cow::Borrowed(b) => b.to_owned(),
            Cow::Owned(o) => o,
        };
        NewgroundsSong { song_id: self.song_id, name: Cow::Owned(name) }
    }
}

} // verus!
