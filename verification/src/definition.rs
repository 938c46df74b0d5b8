//! Reading one timer definition: a TOML document with the fields
//! `Description`, `Exec`, `OnBootSec`, `OnUnitActiveSec` and `WakeLock`.

use crate::span::{parse_span, span_of_text, Span};
use crate::unit::{default_wakelock, span_model, text_model, TimerUnit, UnitModel};
use vstd::prelude::*;

verus! {

/// A value of a definition, as far as a definition's fields go.
#[derive(Clone, Debug, PartialEq, Eq)]
pub enum Field {
    Text(String),
    Flag(bool),
    Integer(i64),
    Float,
    Datetime,
    Array,
    Table,
}

/// A field's value with its text as characters.
pub enum FieldModel {
    Text(Seq<char>),
    Flag(bool),
    Integer(i64),
    Float,
    Datetime,
    Array,
    Table,
}

impl View for Field {
    type V = FieldModel;

    open spec fn view(&self) -> FieldModel {
        match self {
            Field::Text(t) => FieldModel::Text(t@),
            Field::Flag(b) => FieldModel::Flag(*b),
            Field::Integer(i) => FieldModel::Integer(*i),
            Field::Float => FieldModel::Float,
            Field::Datetime => FieldModel::Datetime,
            Field::Array => FieldModel::Array,
            Field::Table => FieldModel::Table,
        }
    }
}

/// One key of a definition with its value.
#[derive(Clone, Debug, PartialEq, Eq)]
pub struct Entry {
    pub key: String,
    pub value: Field,
}

/// The entries of a definition as pairs of key and value.
pub open spec fn entries_model(entries: Seq<Entry>) -> Seq<(Seq<char>, FieldModel)> {
    entries.map_values(|e: Entry| (e.key@, e.value@))
}

/// The fields that a definition may have.
#[derive(Clone, Copy, Debug, PartialEq, Eq)]
pub enum FieldName {
    Description,
    Exec,
    OnBootSec,
    OnUnitActiveSec,
    WakeLock,
}

/// Why a definition was refused.
#[derive(Clone, Copy, Debug, PartialEq, Eq)]
pub enum DefinitionError {
    /// The text is no TOML document.
    Syntax,
    /// A key is none of the five field names.
    UnknownField,
    /// The field's value has the wrong type.
    WrongType(FieldName),
    /// There is no `Exec`.
    MissingExec,
    /// `Exec` is the empty text.
    EmptyExec,
    /// The field's text is no duration.
    BadDuration(FieldName),
}

/// A definition whose fields were checked and whose durations are still
/// text.
#[derive(Clone, Debug, PartialEq, Eq)]
pub struct RawUnit {
    pub description: Option<String>,
    pub command: String,
    pub on_boot_sec: Option<String>,
    pub on_unit_active_sec: Option<String>,
    pub wake_lock: bool,
}

/// A checked definition with its texts as characters.
pub struct RawModel {
    pub description: Option<Seq<char>>,
    pub command: Seq<char>,
    pub on_boot_sec: Option<Seq<char>>,
    pub on_unit_active_sec: Option<Seq<char>>,
    pub wake_lock: bool,
}

impl View for RawUnit {
    type V = RawModel;

    open spec fn view(&self) -> RawModel {
        RawModel {
            description: text_model(self.description),
            command: self.command@,
            on_boot_sec: text_model(self.on_boot_sec),
            on_unit_active_sec: text_model(self.on_unit_active_sec),
            wake_lock: self.wake_lock,
        }
    }
}

/// What the `toml` crate makes of a text: the entries of the top-level
/// table that it reads there, in the order in which the table hands them
/// out, or `None` where it reports an error.
pub uninterp spec fn toml_document(text: Seq<char>) -> Option<Seq<(Seq<char>, FieldModel)>>;

#[verifier::external_type_specification]
#[verifier::external_body]
pub struct ExTomlError(toml::de::Error);

/// Parses the text as a `toml::Table` and hands out its entries, each
/// `toml::Value` told apart by its variant. Believed, not proved: what is
/// read depends on the text alone.
#[verifier::external_body]
fn read_document(text: &str) -> (r: Result<Vec<Entry>, toml::de::Error>)
    ensures
        match r {
            Ok(entries) => toml_document(text@) == Some(entries_model(entries@)),
            Err(_) => toml_document(text@) is None,
        },
{
    let table: toml::Table = text.parse()?;
    let mut entries = Vec::new();
    for (key, value) in table {
        entries.push(Entry { key, value: match value {
            toml::Value::String(s) => Field::Text(s),
            toml::Value::Integer(i) => Field::Integer(i),
            toml::Value::Float(_) => Field::Float,
            toml::Value::Boolean(b) => Field::Flag(b),
            toml::Value::Datetime(_) => Field::Datetime,
            toml::Value::Array(_) => Field::Array,
            toml::Value::Table(_) => Field::Table,
        } });
    }
    Ok(entries)
}

/// The key under which a field stands in a definition.
pub open spec fn key_text(name: FieldName) -> Seq<char> {
    match name {
        FieldName::Description => "Description"@,
        FieldName::Exec => "Exec"@,
        FieldName::OnBootSec => "OnBootSec"@,
        FieldName::OnUnitActiveSec => "OnUnitActiveSec"@,
        FieldName::WakeLock => "WakeLock"@,
    }
}

/// Whether a key is one of the five field names, letter for letter.
pub open spec fn is_known(key: Seq<char>) -> bool {
    exists|name: FieldName| key == #[trigger] key_text(name)
}

/// Whether every key of a definition is a field name.
pub open spec fn all_known(fields: Seq<(Seq<char>, FieldModel)>) -> bool {
    forall|i: int| 0 <= i < fields.len() ==> is_known(#[trigger] fields[i].0)
}

/// The value of the first entry at or after `from` that has the key.
pub open spec fn find_from(fields: Seq<(Seq<char>, FieldModel)>, key: Seq<char>, from: int)
    -> Option<FieldModel>
    decreases fields.len() - from,
{
    if from < 0 || from >= fields.len() {
        None
    } else if fields[from].0 == key {
        Some(fields[from].1)
    } else {
        find_from(fields, key, from + 1)
    }
}

/// The text of a field that may be left out.
pub open spec fn optional_text(fields: Seq<(Seq<char>, FieldModel)>, name: FieldName) -> Result<
    Option<Seq<char>>,
    DefinitionError,
> {
    match find_from(fields, key_text(name), 0) {
        None => Ok(None),
        Some(FieldModel::Text(t)) => Ok(Some(t)),
        Some(_) => Err(DefinitionError::WrongType(name)),
    }
}

/// Whether a wake lock is asked for: as `WakeLock` says, or yes where it is
/// left out.
pub open spec fn wake_lock_of(fields: Seq<(Seq<char>, FieldModel)>) -> Result<
    bool,
    DefinitionError,
> {
    match find_from(fields, key_text(FieldName::WakeLock), 0) {
        None => Ok(true),
        Some(FieldModel::Flag(b)) => Ok(b),
        Some(_) => Err(DefinitionError::WrongType(FieldName::WakeLock)),
    }
}

/// The checked definition that a document's entries make, or the first
/// fault found: an unknown key before all else, then the fields in the
/// order `Description`, `Exec`, `OnBootSec`, `OnUnitActiveSec`, `WakeLock`.
pub open spec fn raw_of(fields: Seq<(Seq<char>, FieldModel)>) -> Result<RawModel, DefinitionError> {
    if !all_known(fields) {
        Err(DefinitionError::UnknownField)
    } else {
        match optional_text(fields, FieldName::Description) {
            Err(e) => Err(e),
            Ok(description) => match optional_text(fields, FieldName::Exec) {
                Err(e) => Err(e),
                Ok(None) => Err(DefinitionError::MissingExec),
                Ok(Some(command)) => if command.len() == 0 {
                    Err(DefinitionError::EmptyExec)
                } else {
                    match optional_text(fields, FieldName::OnBootSec) {
                        Err(e) => Err(e),
                        Ok(on_boot_sec) => match optional_text(fields, FieldName::OnUnitActiveSec) {
                            Err(e) => Err(e),
                            Ok(on_unit_active_sec) => match wake_lock_of(fields) {
                                Err(e) => Err(e),
                                Ok(wake_lock) => Ok(
                                    RawModel {
                                        description,
                                        command,
                                        on_boot_sec,
                                        on_unit_active_sec,
                                        wake_lock,
                                    },
                                ),
                            },
                        },
                    }
                },
            },
        }
    }
}

/// The length of a duration field: none where the field is left out, the
/// duration read from its text, or a fault where none can be read.
pub open spec fn duration_of(name: FieldName, text: Option<Seq<char>>) -> Result<
    Option<nat>,
    DefinitionError,
> {
    match text {
        None => Ok(None),
        Some(t) => match span_of_text(t) {
            Some(d) => Ok(Some(d)),
            None => Err(DefinitionError::BadDuration(name)),
        },
    }
}

/// The unit that a checked definition makes once its durations are read,
/// the boot delay first.
pub open spec fn unit_of_raw(raw: RawModel) -> Result<UnitModel, DefinitionError> {
    match duration_of(FieldName::OnBootSec, raw.on_boot_sec) {
        Err(e) => Err(e),
        Ok(on_boot_sec) => match duration_of(FieldName::OnUnitActiveSec, raw.on_unit_active_sec) {
            Err(e) => Err(e),
            Ok(on_unit_active_sec) => Ok(
                UnitModel {
                    description: raw.description,
                    command: raw.command,
                    on_boot_sec,
                    on_unit_active_sec,
                    wake_lock: raw.wake_lock,
                },
            ),
        },
    }
}

/// The unit that a definition's text makes, or why it makes none.
pub open spec fn unit_of_text(text: Seq<char>) -> Result<UnitModel, DefinitionError> {
    match toml_document(text) {
        None => Err(DefinitionError::Syntax),
        Some(fields) => match raw_of(fields) {
            Err(e) => Err(e),
            Ok(raw) => unit_of_raw(raw),
        },
    }
}

/// A result with the unit, if there is one, as plain values.
pub open spec fn unit_result_model(r: Result<TimerUnit, DefinitionError>) -> Result<
    UnitModel,
    DefinitionError,
> {
    match r {
        Ok(u) => Ok(u@),
        Err(e) => Err(e),
    }
}

/// A result with the checked definition, if there is one, as plain values.
pub open spec fn raw_result_model(r: Result<RawUnit, DefinitionError>) -> Result<
    RawModel,
    DefinitionError,
> {
    match r {
        Ok(u) => Ok(u@),
        Err(e) => Err(e),
    }
}

/// Whether two texts hold the same characters.
pub fn same_text(a: &str, b: &str) -> (r: bool)
    ensures
        r == (a@ == b@),
{
    let x = a.to_owned();
    let y = b.to_owned();
    x == y
}

/// The key under which a field stands in a definition.
pub fn field_key(name: FieldName) -> (r: &'static str)
    ensures
        r@ == key_text(name),
{
    match name {
        FieldName::Description => "Description",
        FieldName::Exec => "Exec",
        FieldName::OnBootSec => "OnBootSec",
        FieldName::OnUnitActiveSec => "OnUnitActiveSec",
        FieldName::WakeLock => "WakeLock",
    }
}

/// Whether a key is one of the five field names.
pub fn known_key(key: &str) -> (r: bool)
    ensures
        r == is_known(key@),
{
    let r = same_text(key, field_key(FieldName::Description)) || same_text(
        key,
        field_key(FieldName::Exec),
    ) || same_text(key, field_key(FieldName::OnBootSec)) || same_text(
        key,
        field_key(FieldName::OnUnitActiveSec),
    ) || same_text(key, field_key(FieldName::WakeLock));
    proof {
        if is_known(key@) {
            let name = choose|name: FieldName| key@ == #[trigger] key_text(name);
            match name {
                FieldName::Description => {},
                FieldName::Exec => {},
                FieldName::OnBootSec => {},
                FieldName::OnUnitActiveSec => {},
                FieldName::WakeLock => {},
            }
        }
    }
    r
}

/// The value of the first entry with a field's key.
fn find<'a>(entries: &'a Vec<Entry>, name: FieldName) -> (r: Option<&'a Field>)
    ensures
        match r {
            Some(f) => find_from(entries_model(entries@), key_text(name), 0) == Some(f@),
            None => find_from(entries_model(entries@), key_text(name), 0) is None,
        },
{
    let key = field_key(name);
    let mut i: usize = 0;
    while i < entries.len()
        invariant
            i <= entries.len(),
            key@ == key_text(name),
            find_from(entries_model(entries@), key_text(name), 0) == find_from(
                entries_model(entries@),
                key_text(name),
                i as int,
            ),
        decreases entries.len() - i,
    {
        if same_text(entries[i].key.as_str(), key) {
            return Some(&entries[i].value);
        }
        i = i + 1;
    }
    None
}

/// The text of a field that may be left out.
fn text_field(entries: &Vec<Entry>, name: FieldName) -> (r: Result<Option<String>, DefinitionError>)
    ensures
        match r {
            Ok(t) => optional_text(entries_model(entries@), name) == Ok::<
                Option<Seq<char>>,
                DefinitionError,
            >(text_model(t)),
            Err(e) => optional_text(entries_model(entries@), name) == Err::<
                Option<Seq<char>>,
                DefinitionError,
            >(e),
        },
{
    match find(entries, name) {
        None => Ok(None),
        Some(Field::Text(t)) => Ok(Some(t.clone())),
        Some(_) => Err(DefinitionError::WrongType(name)),
    }
}

/// Checks the entries of a definition: every key is a field name, `Exec`
/// is there and not empty, and each field has its type. The durations stay
/// text.
pub fn check_fields(entries: &Vec<Entry>) -> (r: Result<RawUnit, DefinitionError>)
    ensures
        raw_result_model(r) == raw_of(entries_model(entries@)),
{
    let mut i: usize = 0;
    while i < entries.len()
        invariant
            i <= entries.len(),
            forall|j: int| 0 <= j < i ==> is_known(#[trigger] entries_model(entries@)[j].0),
        decreases entries.len() - i,
    {
        if !known_key(entries[i].key.as_str()) {
            assert(!is_known(entries_model(entries@)[i as int].0));
            return Err(DefinitionError::UnknownField);
        }
        i = i + 1;
    }
    let description = match text_field(entries, FieldName::Description) {
        Ok(t) => t,
        Err(e) => { return Err(e); },
    };
    let command = match text_field(entries, FieldName::Exec) {
        Ok(Some(t)) => t,
        Ok(None) => { return Err(DefinitionError::MissingExec); },
        Err(e) => { return Err(e); },
    };
    if command.as_str().unicode_len() == 0 {
        return Err(DefinitionError::EmptyExec);
    }
    let on_boot_sec = match text_field(entries, FieldName::OnBootSec) {
        Ok(t) => t,
        Err(e) => { return Err(e); },
    };
    let on_unit_active_sec = match text_field(entries, FieldName::OnUnitActiveSec) {
        Ok(t) => t,
        Err(e) => { return Err(e); },
    };
    let wake_lock = match find(entries, FieldName::WakeLock) {
        None => default_wakelock(),
        Some(Field::Flag(b)) => *b,
        Some(_) => { return Err(DefinitionError::WrongType(FieldName::WakeLock)); },
    };
    Ok(RawUnit { description, command, on_boot_sec, on_unit_active_sec, wake_lock })
}

/// What a duration field comes to once its text was read: the span, or a
/// fault of that field where none could be read.
pub fn settle_duration(name: FieldName, read: Option<Span>) -> (r: Result<Span, DefinitionError>)
    ensures
        r == match read {
            Some(d) => Ok::<Span, DefinitionError>(d),
            None => Err::<Span, DefinitionError>(DefinitionError::BadDuration(name)),
        },
{
    match read {
        Some(d) => Ok(d),
        None => Err(DefinitionError::BadDuration(name)),
    }
}

/// Reads a duration field's text, where the field is there.
fn duration_field(name: FieldName, text: &Option<String>) -> (r: Result<
    Option<Span>,
    DefinitionError,
>)
    ensures
        match r {
            Ok(d) => duration_of(name, text_model(*text)) == Ok::<Option<nat>, DefinitionError>(
                span_model(d),
            ),
            Err(e) => duration_of(name, text_model(*text)) == Err::<
                Option<nat>,
                DefinitionError,
            >(e),
        },
{
    match text {
        None => Ok(None),
        Some(t) => {
            match settle_duration(name, parse_span(t.as_str())) {
                Ok(d) => Ok(Some(d)),
                Err(e) => Err(e),
            }
        },
    }
}

/// Reads the durations of a checked definition, the boot delay first, and
/// makes the unit.
pub fn resolve(raw: RawUnit) -> (r: Result<TimerUnit, DefinitionError>)
    ensures
        unit_result_model(r) == unit_of_raw(raw@),
{
    let on_boot_sec = match duration_field(FieldName::OnBootSec, &raw.on_boot_sec) {
        Ok(d) => d,
        Err(e) => { return Err(e); },
    };
    let on_unit_active_sec = match duration_field(
        FieldName::OnUnitActiveSec,
        &raw.on_unit_active_sec,
    ) {
        Ok(d) => d,
        Err(e) => { return Err(e); },
    };
    Ok(
        TimerUnit {
            description: raw.description,
            command: raw.command,
            on_boot_sec,
            on_unit_active_sec,
            wake_lock: raw.wake_lock,
        },
    )
}

/// Reads one definition: the unit that its text makes, or why it makes
/// none. A unit that is made has a command to run.
pub fn parse_unit(text: &str) -> (r: Result<TimerUnit, DefinitionError>)
    ensures
        unit_result_model(r) == unit_of_text(text@),
        r is Ok ==> r.unwrap().wf(),
{
    match read_document(text) {
        Err(_) => Err(DefinitionError::Syntax),
        Ok(entries) => match check_fields(&entries) {
            Err(e) => Err(e),
            Ok(raw) => resolve(raw),
        },
    }
}

} // verus!
