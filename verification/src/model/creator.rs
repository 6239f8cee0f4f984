//! The creator of a level.

use crate::de::{
    decode, decode_prefix, decode_spec, DeError, DeErrorModel, Field, Kind, Mode, Presence, Record, Scalar, Schema,
    SchemaModel, ScalarModel, Value, ValueModel,
};
use crate::text::{
    canonical, digits_of, lemma_split_nonempty, lemma_token_round_trip, number_spec, split_spec,
};
use std::borrow::Cow;
use vstd::prelude::*;

verus! {

/// A creator, as the list of creators in a response of levels gives it.
/// Creators are written positionally: the order of the tokens is the order
/// of the fields here.
#[derive(Debug, PartialEq, Eq)]
pub struct Creator<'a> {
    /// The creator's user id.
    pub user_id: u64,
    /// The creator's name.
    pub name: Cow<'a, str>,
    /// The creator's account id, where the creator has an account.
    pub account_id: Option<u64>,
}

/// A creator over character sequences.
pub struct CreatorModel {
    pub user_id: u64,
    pub name: Seq<char>,
    pub account_id: Option<u64>,
}

impl<'a> View for Creator<'a> {
    type V = CreatorModel;

    open spec fn view(&self) -> CreatorModel {
        CreatorModel { user_id: self.user_id, name: self.name@, account_id: self.account_id }
    }
}

/// The fields of a creator, in wire order.
pub open spec fn creator_fields() -> Seq<Field> {
    seq![
        Field {
            name: "user_id",
            key: 1,
            kind: Kind::Number,
            presence: Presence::Required,
            deferred: false,
        },
        Field { name: "name", key: 2, kind: Kind::Text, presence: Presence::Required, deferred: false },
        Field {
            name: "account_id",
            key: 3,
            kind: Kind::Number,
            presence: Presence::Optional,
            deferred: false,
        },
    ]
}

/// The schema of a creator: further tokens are no error.
pub open spec fn creator_schema() -> SchemaModel {
    SchemaModel { fields: creator_fields(), strict: false }
}

/// The delimiter between the tokens of a creator.
pub open spec fn creator_delimiter() -> Seq<char> {
    seq![':']
}

/// The mode that a creator is written in.
pub open spec fn creator_mode() -> Mode {
    Mode::Positional
}

/// The creator that a decoded record stands for. A record of another shape
/// than the schema's stands for none.
pub open spec fn creator_of(values: Seq<ValueModel>) -> Result<CreatorModel, DeErrorModel> {
    if values.len() == 3 {
        match (values[0], values[1], values[2]) {
            (
                ValueModel::Present(ScalarModel::Number(user_id)),
                ValueModel::Present(ScalarModel::Text(name)),
                ValueModel::Present(ScalarModel::Number(account_id)),
            ) => Ok(CreatorModel { user_id, name, account_id: Some(account_id) }),
            (
                ValueModel::Present(ScalarModel::Number(user_id)),
                ValueModel::Present(ScalarModel::Text(name)),
                ValueModel::Absent,
            ) => Ok(CreatorModel { user_id, name, account_id: None }),
            _ => Err(DeErrorModel::UnexpectedFormat),
        }
    } else {
        Err(DeErrorModel::UnexpectedFormat)
    }
}

/// The creator that a fragment decodes to, or the error.
pub open spec fn creator_spec(input: Seq<char>) -> Result<CreatorModel, DeErrorModel> {
    match decode_spec(input, creator_delimiter(), creator_mode(), creator_schema()) {
        Ok(values) => creator_of(values),
        Err(e) => Err(e),
    }
}

/// The model of the outcome of decoding a creator.
pub open spec fn creator_result_view(r: Result<Creator, DeError>) -> Result<CreatorModel, DeErrorModel> {
    match r {
        Ok(c) => Ok(c@),
        Err(e) => Err(e@),
    }
}

/// What a fragment decodes to, said over its tokens: the first is the user
/// id, the second the name, the third, where there is one, the account id.
pub open spec fn creator_by_tokens(input: Seq<char>) -> Result<CreatorModel, DeErrorModel> {
    let tokens = split_spec(input, creator_delimiter());
    match number_spec(tokens[0]) {
        None => Err(DeErrorModel::TypeMismatch { field: "user_id"@, raw: tokens[0] }),
        Some(user_id) => if tokens.len() < 2 {
            Err(DeErrorModel::UnexpectedFormat)
        } else if tokens.len() < 3 {
            Ok(CreatorModel { user_id, name: tokens[1], account_id: None })
        } else {
            match number_spec(tokens[2]) {
                None => Err(DeErrorModel::TypeMismatch { field: "account_id"@, raw: tokens[2] }),
                Some(account_id) => Ok(
                    CreatorModel { user_id, name: tokens[1], account_id: Some(account_id) },
                ),
            }
        },
    }
}

/// Decoding under the creator's schema and reading the record is the same
/// as reading the tokens one by one.
pub proof fn lemma_creator_by_tokens(input: Seq<char>)
    ensures
        creator_spec(input) == creator_by_tokens(input),
{
    reveal_with_fuel(decode_prefix, 4);
    lemma_split_nonempty(input, creator_delimiter(), 0, 0);
    let tokens = split_spec(input, creator_delimiter());
    let fields = creator_fields();
    assert(fields[0].kind == Kind::Number && fields[1].kind == Kind::Text && fields[2].kind == Kind::Number);
    assert(fields.len() == 3);
}

/// A decoded creator gives its tokens back: the name is the second token as
/// it stood, and each number, written out again, is its token wherever the
/// token had no leading zeros. The owned form of a creator has the same
/// model, so the same holds of it.
pub proof fn lemma_creator_tokens_reproduced(input: Seq<char>)
    requires
        creator_spec(input) is Ok,
    ensures
        ({
            let tokens = split_spec(input, creator_delimiter());
            let creator = creator_spec(input)->Ok_0;
            &&& tokens.len() >= 2
            &&& creator.name == tokens[1]
            &&& canonical(tokens[0]) ==> digits_of(creator.user_id as nat) == tokens[0]
            &&& creator.account_id is Some == (tokens.len() >= 3)
            &&& creator.account_id matches Some(account_id) ==> (canonical(tokens[2]) ==> digits_of(
                account_id as nat,
            ) == tokens[2])
        }),
{
    lemma_creator_by_tokens(input);
    let tokens = split_spec(input, creator_delimiter());
    if canonical(tokens[0]) {
        lemma_token_round_trip(tokens[0]);
    }
    if tokens.len() >= 3 && canonical(tokens[2]) {
        lemma_token_round_trip(tokens[2]);
    }
}

impl<'a> Clone for Creator<'a> {
    fn clone(&self) -> (r: Self)
        ensures
            r@ == self@,
    {
        let name: Cow<'a, str> = match &self.name {
            Cow::Borrowed(b) => Cow::Borrowed(*b),
            Cow::Owned(o) => Cow::Owned(o.clone()),
        };
        Creator { user_id: self.user_id, name, account_id: self.account_id }
    }
}

impl<'a> Creator<'a> {
    /// The schema that creators are decoded under.
    pub fn schema() -> (s: Schema)
        ensures
            s@ == creator_schema(),
    {
        let mut fields: Vec<Field> = Vec::new();
        fields.push(
            Field {
                name: "user_id",
                key: 1,
                kind: Kind::Number,
                presence: Presence::Required,
                deferred: false,
            },
        );
        fields.push(
            Field { name: "name", key: 2, kind: Kind::Text, presence: Presence::Required, deferred: false },
        );
        fields.push(
            Field {
                name: "account_id",
                key: 3,
                kind: Kind::Number,
                presence: Presence::Optional,
                deferred: false,
            },
        );
        proof {
            assert(fields@ =~= creator_fields());
        }
        Schema { fields, strict: false }
    }

    /// The delimiter between the tokens of a fragment.
    pub fn delimiter() -> (d: &'static str)
        ensures
            d@ == creator_delimiter(),
    {
        proof {
            reveal_strlit(":");
            assert(":"@ =~= creator_delimiter());
        }
        ":"
    }

    /// The mode that fragments are written in.
    pub fn mode() -> (m: Mode)
        ensures
            m == creator_mode(),
    {
        Mode::Positional
    }

    /// Reads a creator off a decoded record.
    pub fn from_record(record: &Record<'a>) -> (r: Result<Creator<'a>, DeError<'a>>)
        ensures
            creator_result_view(r) == creator_of(record@),
    {
        if record.values.len() != 3 {
            return Err(DeError::UnexpectedFormat);
        }
        let user_id = match record.values[0] {
            Value::Present(Scalar::Number(n)) => n,
            _ => { return Err(DeError::UnexpectedFormat); },
        };
        let name = match record.values[1] {
            Value::Present(Scalar::Text(t)) => t,
            _ => { return Err(DeError::UnexpectedFormat); },
        };
        let account_id = match record.values[2] {
            Value::Present(Scalar::Number(n)) => Some(n),
            Value::Absent => None,
            _ => { return Err(DeError::UnexpectedFormat); },
        };
        Ok(Creator { user_id, name: Cow::Borrowed(name), account_id })
    }

    /// Decodes one creator from its fragment. The name borrows from `input`.
    pub fn from_robtop_str(input: &'a str) -> (r: Result<Creator<'a>, DeError<'a>>)
        ensures
            creator_result_view(r) == creator_spec(input@),
            creator_result_view(r) == creator_by_tokens(input@),
    {
        proof {
            lemma_creator_by_tokens(input@);
        }
        let schema = Creator::schema();
        match decode(input, Creator::delimiter(), Creator::mode(), &schema) {
            Ok(record) => Creator::from_record(&record),
            Err(e) => Err(e),
        }
    }

    /// Converts the creator to owned form: the same creator, borrowing from
    /// no input.
    pub fn into_owned(self) -> (r: Creator<'static>)
        ensures
            r@ == self@,
            r.name is Owned,
    {
        let name: String = match self.name {
            Cow::Borrowed(b) => b.to_owned(),
            Cow::Owned(o) => o,
        };
        Creator { user_id: self.user_id, name: Cow::Owned(name), account_id: self.account_id }
    }
}

/// Decodes one creator from its fragment.
pub fn from_str<'a>(input: &'a str) -> (r: Result<Creator<'a>, DeError<'a>>)
    ensures
        creator_result_view(r) == creator_spec(input@),
        creator_result_view(r) == creator_by_tokens(input@),
{
    Creator::from_robtop_str(input)
}

} // verus!
