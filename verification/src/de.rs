//! The decoding engine: turns one fragment of text into a record, guided by
//! a schema that lists the fields in wire order.

use crate::text::{flag_spec, number_spec, parse_flag, parse_number, split, split_spec, views};
use vstd::prelude::*;

verus! {

/// How a fragment's tokens are matched to the fields of a schema.
#[derive(Clone, Copy, Debug, PartialEq, Eq)]
pub enum Mode {
    /// The n-th token belongs to the n-th field.
    Positional,
    /// Tokens come in pairs of a key and a value, in any order.
    Indexed,
}

/// The scalar type that a field's token is read as.
#[derive(Clone, Copy, Debug, PartialEq, Eq)]
pub enum Kind {
    Number,
    Flag,
    Text,
}

/// What happens where a field's token is missing.
#[derive(Clone, Copy, Debug, PartialEq, Eq)]
pub enum Presence {
    /// Decoding fails.
    Required,
    /// The field holds no value.
    Optional,
    /// The field holds the default of its kind.
    Defaulted,
}

/// One field of a schema.
#[derive(Clone, Copy, Debug, PartialEq, Eq)]
pub struct Field {
    pub name: &'static str,
    /// The key that announces the field in indexed mode.
    pub key: u64,
    pub kind: Kind,
    pub presence: Presence,
    /// Whether the token is kept raw, to be converted when first read.
    pub deferred: bool,
}

/// The fields of an entity in wire order.
#[derive(Clone, Debug, PartialEq, Eq)]
pub struct Schema {
    pub fields: Vec<Field>,
    /// In positional mode, whether tokens beyond the last field are an error.
    pub strict: bool,
}

/// A schema with its fields as a sequence.
pub struct SchemaModel {
    pub fields: Seq<Field>,
    pub strict: bool,
}

impl View for Schema {
    type V = SchemaModel;

    open spec fn view(&self) -> SchemaModel {
        SchemaModel { fields: self.fields@, strict: self.strict }
    }
}

/// Why a fragment could not be decoded.
#[derive(Clone, Copy, Debug, PartialEq, Eq)]
pub enum DeError<'a> {
    /// The token of the named field is not of the field's kind.
    TypeMismatch { field: &'static str, raw: &'a str },
    /// A required token is missing, or tokens are left over.
    UnexpectedFormat,
    /// In indexed mode, the key of a required field is missing.
    UnknownRequiredKey,
}

/// A decode error over character sequences.
pub enum DeErrorModel {
    TypeMismatch { field: Seq<char>, raw: Seq<char> },
    UnexpectedFormat,
    UnknownRequiredKey,
}

impl<'a> View for DeError<'a> {
    type V = DeErrorModel;

    open spec fn view(&self) -> DeErrorModel {
        match self {
            DeError::TypeMismatch { field, raw } => DeErrorModel::TypeMismatch {
                field: field@,
                raw: raw@,
            },
            DeError::UnexpectedFormat => DeErrorModel::UnexpectedFormat,
            DeError::UnknownRequiredKey => DeErrorModel::UnknownRequiredKey,
        }
    }
}

impl<'a> DeError<'a> {
    /// A one-line rendering for logs.
    pub fn message(&self) -> (m: &'static str)
        ensures
            m@ == match self {
                DeError::TypeMismatch { .. } => "type mismatch"@,
                DeError::UnexpectedFormat => "unexpected format"@,
                DeError::UnknownRequiredKey => "unknown required key"@,
            },
    {
        match self {
            DeError::TypeMismatch { .. } => "type mismatch",
            DeError::UnexpectedFormat => "unexpected format",
            DeError::UnknownRequiredKey => "unknown required key",
        }
    }
}

/// A decoded scalar. Text borrows from the input.
#[derive(Clone, Copy, Debug, PartialEq, Eq)]
pub enum Scalar<'a> {
    Number(u64),
    Flag(bool),
    Text(&'a str),
}

/// A scalar over character sequences.
pub enum ScalarModel {
    Number(u64),
    Flag(bool),
    Text(Seq<char>),
}

impl<'a> View for Scalar<'a> {
    type V = ScalarModel;

    open spec fn view(&self) -> ScalarModel {
        match self {
            Scalar::Number(n) => ScalarModel::Number(*n),
            Scalar::Flag(b) => ScalarModel::Flag(*b),
            Scalar::Text(t) => ScalarModel::Text(t@),
        }
    }
}

/// The model of a scalar that may be missing.
pub open spec fn scalar_option_view(s: Option<Scalar>) -> Option<ScalarModel> {
    match s {
        Some(v) => Some(v@),
        None => None,
    }
}

/// What a raw token is worth as a scalar of the given kind, if anything.
pub open spec fn convert_spec(raw: Seq<char>, kind: Kind) -> Option<ScalarModel> {
    match kind {
        Kind::Number => match number_spec(raw) {
            Some(n) => Some(ScalarModel::Number(n)),
            None => None,
        },
        Kind::Flag => match flag_spec(raw) {
            Some(b) => Some(ScalarModel::Flag(b)),
            None => None,
        },
        Kind::Text => Some(ScalarModel::Text(raw)),
    }
}

/// The value that a defaulted field of the given kind holds when missing.
pub open spec fn default_spec(kind: Kind) -> ScalarModel {
    match kind {
        Kind::Number => ScalarModel::Number(0),
        Kind::Flag => ScalarModel::Flag(false),
        Kind::Text => ScalarModel::Text(Seq::empty()),
    }
}

/// Converts a raw token to a scalar of the given kind.
pub fn convert<'a>(raw: &'a str, kind: Kind) -> (r: Option<Scalar<'a>>)
    ensures
        scalar_option_view(r) == convert_spec(raw@, kind),
{
    match kind {
        Kind::Number => match parse_number(raw) {
            Some(n) => Some(Scalar::Number(n)),
            None => None,
        },
        Kind::Flag => match parse_flag(raw) {
            Some(b) => Some(Scalar::Flag(b)),
            None => None,
        },
        Kind::Text => Some(Scalar::Text(raw)),
    }
}

/// A raw token with the kind it is to be read as. The conversion runs when
/// the value is first read, and its outcome is kept.
#[derive(Clone, Copy, Debug, PartialEq, Eq)]
pub struct Thunk<'a> {
    raw: &'a str,
    kind: Kind,
    cache: Option<Option<Scalar<'a>>>,
}

impl<'a> Thunk<'a> {
    #[verifier::type_invariant]
    spec fn cache_is_conversion(self) -> bool {
        self.cache matches Some(c) ==> scalar_option_view(c) == convert_spec(self.raw@, self.kind)
    }

    /// The raw token.
    pub closed spec fn raw_view(&self) -> Seq<char> {
        self.raw@
    }

    /// The kind that the token is read as.
    pub closed spec fn target(&self) -> Kind {
        self.kind
    }

    /// Whether the value has been read.
    pub closed spec fn is_read(&self) -> bool {
        self.cache is Some
    }

    /// A cell that has not been read.
    pub fn new(raw: &'a str, kind: Kind) -> (t: Thunk<'a>)
        ensures
            t.raw_view() == raw@,
            t.target() == kind,
            !t.is_read(),
    {
        Thunk { raw, kind, cache: None }
    }

    /// The raw token.
    pub fn raw(&self) -> (r: &'a str)
        ensures
            r@ == self.raw_view(),
    {
        self.raw
    }

    /// The kind that the token is read as.
    pub fn kind(&self) -> (k: Kind)
        ensures
            k == self.target(),
    {
        self.kind
    }

    /// Whether the value has been read, so that the cache is filled.
    pub fn is_evaluated(&self) -> (b: bool)
        ensures
            b == self.is_read(),
    {
        self.cache.is_some()
    }

    /// Reads the value: `None` where the token is not of the kind. The
    /// first read converts the token; later reads answer from the cache.
    pub fn get(&mut self) -> (r: Option<Scalar<'a>>)
        ensures
            scalar_option_view(r) == convert_spec(old(self).raw_view(), old(self).target()),
            final(self).raw_view() == old(self).raw_view(),
            final(self).target() == old(self).target(),
            final(self).is_read(),
    {
        proof {
            use_type_invariant(&*self);
        }
        match self.cache {
            Some(c) => c,
            None => {
                let c = convert(self.raw, self.kind);
                self.cache = Some(c);
                c
            },
        }
    }
}

/// One field of a decoded record.
#[derive(Clone, Copy, Debug, PartialEq, Eq)]
pub enum Value<'a> {
    Present(Scalar<'a>),
    Deferred(Thunk<'a>),
    Absent,
}

/// A value over character sequences. A deferred value is its raw token,
/// the kind it is to be read as, and whether it has been read.
pub enum ValueModel {
    Present(ScalarModel),
    Deferred { raw: Seq<char>, kind: Kind, evaluated: bool },
    Absent,
}

impl<'a> View for Value<'a> {
    type V = ValueModel;

    open spec fn view(&self) -> ValueModel {
        match self {
            Value::Present(s) => ValueModel::Present(s@),
            Value::Deferred(t) => ValueModel::Deferred {
                raw: t.raw_view(),
                kind: t.target(),
                evaluated: t.is_read(),
            },
            Value::Absent => ValueModel::Absent,
        }
    }
}

/// A decoded fragment: one value for each field of the schema, in order.
#[derive(Clone, Debug, PartialEq, Eq)]
pub struct Record<'a> {
    pub values: Vec<Value<'a>>,
}

impl<'a> View for Record<'a> {
    type V = Seq<ValueModel>;

    open spec fn view(&self) -> Seq<ValueModel> {
        values_view(self.values@)
    }
}

/// The models of a list of values.
pub open spec fn values_view(values: Seq<Value>) -> Seq<ValueModel> {
    Seq::new(values.len(), |i: int| values[i]@)
}

/// The value token that follows the first key token equal to `key`, the
/// tokens from `from` on taken in pairs. A key token that is no number
/// matches no key; a last token without a partner is ignored.
pub open spec fn lookup_spec(tokens: Seq<Seq<char>>, key: u64, from: int) -> Option<Seq<char>>
    decreases tokens.len() - from,
{
    if from < 0 || from + 2 > tokens.len() {
        None
    } else if number_spec(tokens[from]) == Some(key) {
        Some(tokens[from + 1])
    } else {
        lookup_spec(tokens, key, from + 2)
    }
}

/// The token that belongs to the field at `index` of a schema.
pub open spec fn token_for(tokens: Seq<Seq<char>>, mode: Mode, field: Field, index: int) -> Option<
    Seq<char>,
> {
    match mode {
        Mode::Positional => if 0 <= index < tokens.len() {
            Some(tokens[index])
        } else {
            None
        },
        Mode::Indexed => lookup_spec(tokens, field.key, 0),
    }
}

/// The value of one field, given its token if there is one.
pub open spec fn field_spec(field: Field, token: Option<Seq<char>>, mode: Mode) -> Result<
    ValueModel,
    DeErrorModel,
> {
    match token {
        Some(raw) => if field.deferred {
            Ok(ValueModel::Deferred { raw, kind: field.kind, evaluated: false })
        } else {
            match convert_spec(raw, field.kind) {
                Some(v) => Ok(ValueModel::Present(v)),
                None => Err(DeErrorModel::TypeMismatch { field: field.name@, raw }),
            }
        },
        None => match field.presence {
            Presence::Optional => Ok(ValueModel::Absent),
            Presence::Defaulted => Ok(ValueModel::Present(default_spec(field.kind))),
            Presence::Required => match mode {
                Mode::Positional => Err(DeErrorModel::UnexpectedFormat),
                Mode::Indexed => Err(DeErrorModel::UnknownRequiredKey),
            },
        },
    }
}

/// The values of the first `n` fields, or the error of the first field
/// among them that fails.
pub open spec fn decode_prefix(tokens: Seq<Seq<char>>, fields: Seq<Field>, mode: Mode, n: int) -> Result<
    Seq<ValueModel>,
    DeErrorModel,
>
    decreases n,
{
    if n <= 0 {
        Ok(Seq::empty())
    } else {
        match decode_prefix(tokens, fields, mode, n - 1) {
            Err(e) => Err(e),
            Ok(values) => match field_spec(
                fields[n - 1],
                token_for(tokens, mode, fields[n - 1], n - 1),
                mode,
            ) {
                Ok(v) => Ok(values.push(v)),
                Err(e) => Err(e),
            },
        }
    }
}

/// The record that a fragment decodes to under a schema, or the error. The
/// fragment is cut at `delimiter`; `mode` says how its tokens go to the
/// fields. A strict schema in positional mode refuses a fragment with more
/// tokens than fields before it reads any of them.
pub open spec fn decode_spec(text: Seq<char>, delimiter: Seq<char>, mode: Mode, schema: SchemaModel) -> Result<
    Seq<ValueModel>,
    DeErrorModel,
> {
    let tokens = split_spec(text, delimiter);
    if mode == Mode::Positional && schema.strict && tokens.len() > schema.fields.len() {
        Err(DeErrorModel::UnexpectedFormat)
    } else {
        decode_prefix(tokens, schema.fields, mode, schema.fields.len() as int)
    }
}

/// The model of the outcome of decoding one field.
pub open spec fn value_result_view(r: Result<Value, DeError>) -> Result<ValueModel, DeErrorModel> {
    match r {
        Ok(v) => Ok(v@),
        Err(e) => Err(e@),
    }
}

/// The model of the outcome of decoding one fragment.
pub open spec fn record_result_view(r: Result<Record, DeError>) -> Result<Seq<ValueModel>, DeErrorModel> {
    match r {
        Ok(v) => Ok(v@),
        Err(e) => Err(e@),
    }
}

/// Once a field has failed, decoding more fields gives the same error.
pub proof fn lemma_prefix_error(tokens: Seq<Seq<char>>, fields: Seq<Field>, mode: Mode, i: int, n: int)
    requires
        0 <= i <= n,
        decode_prefix(tokens, fields, mode, i) is Err,
    ensures
        decode_prefix(tokens, fields, mode, n) == decode_prefix(tokens, fields, mode, i),
    decreases n - i,
{
    if i < n {
        lemma_prefix_error(tokens, fields, mode, i, n - 1);
    }
}

fn lookup<'a>(tokens: &Vec<&'a str>, key: u64) -> (r: Option<&'a str>)
    ensures
        match r {
            Some(t) => lookup_spec(views(tokens@), key, 0) == Some(t@),
            None => lookup_spec(views(tokens@), key, 0) is None,
        },
{
    let n: usize = tokens.len();
    let mut i: usize = 0;
    while n - i >= 2
        invariant
            n == tokens.len(),
            i <= n,
            lookup_spec(views(tokens@), key, 0) == lookup_spec(views(tokens@), key, i as int),
        decreases n - i,
    {
        let found = match parse_number(tokens[i]) {
            Some(k) => k == key,
            None => false,
        };
        if found {
            return Some(tokens[i + 1]);
        }
        i = i + 2;
    }
    None
}

fn decode_field<'a>(field: &Field, token: Option<&'a str>, mode: Mode) -> (r: Result<Value<'a>, DeError<'a>>)
    ensures
        value_result_view(r) == field_spec(
            *field,
            match token {
                Some(t) => Some(t@),
                None => None,
            },
            mode,
        ),
{
    match token {
        Some(raw) => {
            if field.deferred {
                Ok(Value::Deferred(Thunk::new(raw, field.kind)))
            } else {
                match convert(raw, field.kind) {
                    Some(v) => Ok(Value::Present(v)),
                    None => Err(DeError::TypeMismatch { field: field.name, raw }),
                }
            }
        },
        None => match field.presence {
            Presence::Optional => Ok(Value::Absent),
            Presence::Defaulted => match field.kind {
                Kind::Number => Ok(Value::Present(Scalar::Number(0))),
                Kind::Flag => Ok(Value::Present(Scalar::Flag(false))),
                Kind::Text => {
                    let empty: &'static str = "";
                    proof {
                        reveal_strlit("");
                        assert(empty@ =~= Seq::<char>::empty());
                    }
                    Ok(Value::Present(Scalar::Text(empty)))
                },
            },
            Presence::Required => match mode {
                Mode::Positional => Err(DeError::UnexpectedFormat),
                Mode::Indexed => Err(DeError::UnknownRequiredKey),
            },
        },
    }
}

/// Decodes one fragment under a schema: cuts `text` at `delimiter` and
/// gives each field of the schema its token, by position or by key.
pub fn decode<'a>(text: &'a str, delimiter: &str, mode: Mode, schema: &Schema) -> (r: Result<
    Record<'a>,
    DeError<'a>,
>)
    ensures
        record_result_view(r) == decode_spec(text@, delimiter@, mode, schema@),
{
    let tokens = split(text, delimiter);
    let count: usize = schema.fields.len();
    let positional = match mode {
        Mode::Positional => true,
        Mode::Indexed => false,
    };
    if positional && schema.strict && tokens.len() > count {
        return Err(DeError::UnexpectedFormat);
    }
    let mut values: Vec<Value<'a>> = Vec::new();
    let mut i: usize = 0;
    let ghost toks = views(tokens@);
    assert(values_view(values@) =~= Seq::<ValueModel>::empty());
    while i < count
        invariant
            count == schema.fields.len(),
            i <= count,
            toks == views(tokens@),
            positional == (mode == Mode::Positional),
            toks == split_spec(text@, delimiter@),
            !(positional && schema.strict && tokens.len() > count),
            decode_prefix(toks, schema.fields@, mode, i as int) == Ok::<
                Seq<ValueModel>,
                DeErrorModel,
            >(values_view(values@)),
        decreases count - i,
    {
        let field = &schema.fields[i];
        let token = if positional {
            if i < tokens.len() {
                Some(tokens[i])
            } else {
                None
            }
        } else {
            match lookup(&tokens, field.key) {
                Some(t) => Some(t),
                None => None,
            }
        };
        match decode_field(field, token, mode) {
            Ok(v) => {
                let ghost before = values@;
                values.push(v);
                assert(values_view(values@) =~= values_view(before).push(v@));
            },
            Err(e) => {
                proof {
                    lemma_prefix_error(toks, schema.fields@, mode, i + 1, count as int);
                }
                return Err(e);
            },
        }
        i = i + 1;
    }
    Ok(Record { values })
}

/// The models of a list of records.
pub open spec fn records_view(records: Seq<Record>) -> Seq<Seq<ValueModel>> {
    Seq::new(records.len(), |i: int| records[i]@)
}

/// The records of the first `n` fragments, or the error of the first
/// fragment among them that fails.
pub open spec fn decode_each(
    fragments: Seq<Seq<char>>,
    inner: Seq<char>,
    mode: Mode,
    schema: SchemaModel,
    n: int,
) -> Result<Seq<Seq<ValueModel>>, DeErrorModel>
    decreases n,
{
    if n <= 0 {
        Ok(Seq::empty())
    } else {
        match decode_each(fragments, inner, mode, schema, n - 1) {
            Err(e) => Err(e),
            Ok(records) => match decode_spec(fragments[n - 1], inner, mode, schema) {
                Ok(r) => Ok(records.push(r)),
                Err(e) => Err(e),
            },
        }
    }
}

/// The records that a list of fragments decodes to: one for each fragment
/// that splitting on `outer` gives, in order, or the first error.
pub open spec fn decode_sequence_spec(
    text: Seq<char>,
    outer: Seq<char>,
    inner: Seq<char>,
    mode: Mode,
    schema: SchemaModel,
) -> Result<Seq<Seq<ValueModel>>, DeErrorModel> {
    let fragments = split_spec(text, outer);
    decode_each(fragments, inner, mode, schema, fragments.len() as int)
}

/// The model of the outcome of decoding a list of fragments.
pub open spec fn records_result_view(r: Result<Vec<Record>, DeError>) -> Result<
    Seq<Seq<ValueModel>>,
    DeErrorModel,
> {
    match r {
        Ok(v) => Ok(records_view(v@)),
        Err(e) => Err(e@),
    }
}

/// Once a fragment has failed, decoding more fragments gives the same error.
pub proof fn lemma_each_error(
    fragments: Seq<Seq<char>>,
    inner: Seq<char>,
    mode: Mode,
    schema: SchemaModel,
    i: int,
    n: int,
)
    requires
        0 <= i <= n,
        decode_each(fragments, inner, mode, schema, i) is Err,
    ensures
        decode_each(fragments, inner, mode, schema, n) == decode_each(fragments, inner, mode, schema, i),
    decreases n - i,
{
    if i < n {
        lemma_each_error(fragments, inner, mode, schema, i, n - 1);
    }
}

/// Splits `text` on `outer` and decodes each fragment under the schema.
/// The first fragment that fails ends the call with its error.
pub fn decode_sequence<'a>(text: &'a str, outer: &str, inner: &str, mode: Mode, schema: &Schema) -> (r:
    Result<Vec<Record<'a>>, DeError<'a>>)
    ensures
        records_result_view(r) == decode_sequence_spec(text@, outer@, inner@, mode, schema@),
        r matches Ok(records) ==> records@.len() == split_spec(text@, outer@).len(),
{
    let fragments = split(text, outer);
    let n: usize = fragments.len();
    let mut records: Vec<Record<'a>> = Vec::new();
    let mut i: usize = 0;
    let ghost frags = views(fragments@);
    assert(records_view(records@) =~= Seq::<Seq<ValueModel>>::empty());
    while i < n
        invariant
            n == fragments.len(),
            i <= n,
            records@.len() == i,
            frags == views(fragments@),
            frags == split_spec(text@, outer@),
            decode_each(frags, inner@, mode, schema@, i as int) == Ok::<Seq<Seq<ValueModel>>, DeErrorModel>(
                records_view(records@),
            ),
        decreases n - i,
    {
        match decode(fragments[i], inner, mode, schema) {
            Ok(record) => {
                let ghost before = records@;
                records.push(record);
                assert(records_view(records@) =~= records_view(before).push(record@));
            },
            Err(e) => {
                proof {
                    lemma_each_error(frags, inner@, mode, schema@, i + 1, n as int);
                }
                return Err(e);
            },
        }
        i = i + 1;
    }
    Ok(records)
}

} // verus!
