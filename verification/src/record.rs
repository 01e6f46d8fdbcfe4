//! The status record: one observation of a task's progress, its mathematical
//! view, and the extraction of a record from a decoded JSON value.

use vstd::prelude::*;

use crate::duration::DurationVal;
use crate::duration::parse_duration;
use crate::duration::parsed_duration;
use crate::json::Json;

verus! {

/// The failure report carried by a record.
#[derive(Debug)]
pub struct TaskError {
    pub message: String,
}

/// Progress counters; either may be absent on its own.
#[derive(Clone, Copy, PartialEq, Eq, Structural, Debug)]
pub struct TaskDetails {
    pub produced_count: Option<u64>,
    pub consumed_count: Option<u64>,
}

/// One status record: an observation of a task's progress or completion.
///
/// `status` and `kind` are always present on a well-formed record; the other
/// fields are optional.  `elapsed` is the time spent on the task so far.
#[derive(Debug)]
pub struct TaskInfo {
    pub target_id: Option<String>,
    pub status: String,
    pub kind: String,
    pub error: Option<TaskError>,
    pub details: Option<TaskDetails>,
    pub elapsed: DurationVal,
}

/// The mathematical view of a record: strings as character sequences, the
/// error reduced to its message.
pub ghost struct TaskInfoV {
    pub target_id: Option<Seq<char>>,
    pub status: Seq<char>,
    pub kind: Seq<char>,
    pub error: Option<Seq<char>>,
    pub details: Option<TaskDetails>,
    pub elapsed: DurationVal,
}

impl View for TaskInfo {
    type V = TaskInfoV;

    open spec fn view(&self) -> TaskInfoV {
        TaskInfoV {
            target_id: match self.target_id {
                Some(s) => Some(s@),
                None => None,
            },
            status: self.status@,
            kind: self.kind@,
            error: match self.error {
                Some(e) => Some(e.message@),
                None => None,
            },
            details: self.details,
            elapsed: self.elapsed,
        }
    }
}

impl TaskInfo {
    /// A field-by-field copy with the same view.
    pub fn duplicate(&self) -> (r: TaskInfo)
        ensures
            r@ == self@,
    {
        TaskInfo {
            target_id: match &self.target_id {
                Some(s) => Some(s.clone()),
                None => None,
            },
            status: self.status.clone(),
            kind: self.kind.clone(),
            error: match &self.error {
                Some(e) => Some(TaskError { message: e.message.clone() }),
                None => None,
            },
            details: self.details,
            elapsed: self.elapsed,
        }
    }
}

/// Why a record could not be made out of the input.
#[derive(Clone, Copy, PartialEq, Eq, Structural, Debug)]
pub enum DecodeError {
    /// A JSON value in the stream is malformed; decoding stopped there.
    Syntax,
    /// A record is not a JSON object.
    NotAnObject,
    /// `status` is absent, or not a string.
    MissingStatus,
    /// `type` is absent, or not a string.
    MissingKind,
    /// `duration` is absent.
    MissingElapsed,
    /// `duration` is not a string, or does not parse as a duration.
    BadElapsed,
    /// Under strict extraction, an optional field has the wrong shape.
    BadField,
}

/// How a record is read off a JSON object.
#[derive(Clone, Copy, PartialEq, Eq, Structural, Debug)]
pub enum ExtractMode {
    /// Schema-validating: an ill-shaped optional field is an error.
    Strict,
    /// Schema-tolerant: an ill-shaped optional field counts as absent.
    Tolerant,
}

/// The value of the first field named `key`, if any.
pub open spec fn lookup_field(fields: Seq<(String, Json)>, key: Seq<char>) -> Option<Json>
    decreases fields.len(),
{
    if fields.len() == 0 {
        None
    } else if fields[0].0@ == key {
        Some(fields[0].1)
    } else {
        lookup_field(fields.drop_first(), key)
    }
}

fn lookup<'a>(fields: &'a Vec<(String, Json)>, key: &String) -> (r: Option<&'a Json>)
    ensures
        (match r {
            Some(j) => lookup_field(fields@, key@) == Some(*j),
            None => lookup_field(fields@, key@) is None,
        }),
{
    let n = fields.len();
    assert(fields@.skip(0) =~= fields@);
    for i in 0..n
        invariant
            n == fields@.len(),
            lookup_field(fields@, key@) == lookup_field(fields@.skip(i as int), key@),
    {
        assert(fields@.skip(i as int)[0] == fields@[i as int]);
        if fields[i].0.eq(key) {
            return Some(&fields[i].1);
        }
        assert(fields@.skip(i as int).drop_first() =~= fields@.skip(i as int + 1));
    }
    assert(fields@.skip(n as int).len() == 0);
    None
}

/// The `status` field when it is present and a string.
pub open spec fn field_status(f: Seq<(String, Json)>) -> Option<Seq<char>> {
    match lookup_field(f, "status"@) {
        Some(Json::Str(s)) => Some(s@),
        _ => None,
    }
}

/// The `type` field when it is present and a string.
pub open spec fn field_kind(f: Seq<(String, Json)>) -> Option<Seq<char>> {
    match lookup_field(f, "type"@) {
        Some(Json::Str(s)) => Some(s@),
        _ => None,
    }
}

/// The `duration` field as a duration, when it is a string that parses.
pub open spec fn field_elapsed(f: Seq<(String, Json)>) -> Option<DurationVal> {
    match lookup_field(f, "duration"@) {
        Some(Json::Str(s)) => match parsed_duration(s@) {
            Some(sn) => Some(DurationVal { secs: sn.0 as i64, nanos: sn.1 as i32 }),
            None => None,
        },
        _ => None,
    }
}

/// The `indexUid` field: a string is the target, an absent or null field is
/// no target, and anything else depends on the mode.
pub open spec fn field_target(f: Seq<(String, Json)>, mode: ExtractMode) -> Result<
    Option<Seq<char>>,
    DecodeError,
> {
    match lookup_field(f, "indexUid"@) {
        None => Ok(None),
        Some(Json::Null) => Ok(None),
        Some(Json::Str(s)) => Ok(Some(s@)),
        Some(_) => if mode == ExtractMode::Strict {
            Err(DecodeError::BadField)
        } else {
            Ok(None)
        },
    }
}

/// The `error` field reduced to its `message`.
pub open spec fn field_error(f: Seq<(String, Json)>, mode: ExtractMode) -> Result<
    Option<Seq<char>>,
    DecodeError,
> {
    match lookup_field(f, "error"@) {
        None => Ok(None),
        Some(Json::Null) => Ok(None),
        Some(Json::Obj(ef)) => match lookup_field(ef@, "message"@) {
            Some(Json::Str(m)) => Ok(Some(m@)),
            _ => if mode == ExtractMode::Strict {
                Err(DecodeError::BadField)
            } else {
                Ok(None)
            },
        },
        Some(_) => if mode == ExtractMode::Strict {
            Err(DecodeError::BadField)
        } else {
            Ok(None)
        },
    }
}

/// A progress counter inside `details`: present when a non-negative integer.
pub open spec fn field_count(df: Seq<(String, Json)>, key: Seq<char>, mode: ExtractMode) -> Result<
    Option<u64>,
    DecodeError,
> {
    match lookup_field(df, key) {
        None => Ok(None),
        Some(Json::Null) => Ok(None),
        Some(Json::UInt(u)) => Ok(Some(u)),
        Some(_) => if mode == ExtractMode::Strict {
            Err(DecodeError::BadField)
        } else {
            Ok(None)
        },
    }
}

/// The `details` field with its two counters.
pub open spec fn field_details(f: Seq<(String, Json)>, mode: ExtractMode) -> Result<
    Option<TaskDetails>,
    DecodeError,
> {
    match lookup_field(f, "details"@) {
        None => Ok(None),
        Some(Json::Null) => Ok(None),
        Some(Json::Obj(df)) => match (
            field_count(df@, "indexedDocuments"@, mode),
            field_count(df@, "receivedDocuments"@, mode),
        ) {
            (Ok(p), Ok(c)) => Ok(Some(TaskDetails { produced_count: p, consumed_count: c })),
            (Err(e), _) => Err(e),
            (_, Err(e)) => Err(e),
        },
        Some(_) => if mode == ExtractMode::Strict {
            Err(DecodeError::BadField)
        } else {
            Ok(None)
        },
    }
}

/// What reading a record off the fields of a JSON object yields: the record,
/// or the first schema violation in the order `status`, `type`, `duration`,
/// `indexUid`, `error`, `details`.
pub open spec fn extract_fields(f: Seq<(String, Json)>, mode: ExtractMode) -> Result<
    TaskInfoV,
    DecodeError,
> {
    if field_status(f) is None {
        Err(DecodeError::MissingStatus)
    } else if field_kind(f) is None {
        Err(DecodeError::MissingKind)
    } else if lookup_field(f, "duration"@) is None {
        Err(DecodeError::MissingElapsed)
    } else {
        match field_elapsed(f) {
            None => Err(DecodeError::BadElapsed),
            Some(d) => match (field_target(f, mode), field_error(f, mode), field_details(f, mode)) {
                (Ok(t), Ok(e), Ok(det)) => Ok(
                    TaskInfoV {
                        target_id: t,
                        status: match field_status(f) {
                            Some(s) => s,
                            None => Seq::empty(),
                        },
                        kind: match field_kind(f) {
                            Some(k) => k,
                            None => Seq::empty(),
                        },
                        error: e,
                        details: det,
                        elapsed: d,
                    },
                ),
                (Err(e), _, _) => Err(e),
                (_, Err(e), _) => Err(e),
                (_, _, Err(e)) => Err(e),
            },
        }
    }
}

/// What reading a record off a JSON value yields.
pub open spec fn extract_spec(j: Json, mode: ExtractMode) -> Result<TaskInfoV, DecodeError> {
    match j {
        Json::Obj(f) => extract_fields(f@, mode),
        _ => Err(DecodeError::NotAnObject),
    }
}

/// Reads one record off a decoded JSON value, as `extract_spec` describes:
/// `status` and `type` must be present strings, `duration` a present,
/// well-formed duration string; the optional fields are taken as found, and
/// an ill-shaped optional field is an error under `Strict` and absent under
/// `Tolerant`.
pub fn extract_record(j: &Json, mode: ExtractMode) -> (r: Result<TaskInfo, DecodeError>)
    ensures
        (match r {
            Ok(t) => extract_spec(*j, mode) == Ok::<TaskInfoV, DecodeError>(t@),
            Err(e) => extract_spec(*j, mode) == Err::<TaskInfoV, DecodeError>(e),
        }),
{
    let fields = match j {
        Json::Obj(f) => f,
        _ => {
            return Err(DecodeError::NotAnObject);
        },
    };
    let status: String = match lookup(fields, &"status".to_owned()) {
        Some(Json::Str(s)) => s.clone(),
        _ => {
            return Err(DecodeError::MissingStatus);
        },
    };
    let kind: String = match lookup(fields, &"type".to_owned()) {
        Some(Json::Str(s)) => s.clone(),
        _ => {
            return Err(DecodeError::MissingKind);
        },
    };
    let elapsed: DurationVal = match lookup(fields, &"duration".to_owned()) {
        None => {
            return Err(DecodeError::MissingElapsed);
        },
        Some(Json::Str(s)) => match parse_duration(s.as_str()) {
            Some(d) => d,
            None => {
                return Err(DecodeError::BadElapsed);
            },
        },
        Some(_) => {
            return Err(DecodeError::BadElapsed);
        },
    };
    let strict = match mode {
        ExtractMode::Strict => true,
        ExtractMode::Tolerant => false,
    };
    let target_id: Option<String> = match lookup(fields, &"indexUid".to_owned()) {
        None => None,
        Some(Json::Null) => None,
        Some(Json::Str(s)) => Some(s.clone()),
        Some(_) => {
            if strict {
                return Err(DecodeError::BadField);
            }
            None
        },
    };
    let error: Option<TaskError> = match lookup(fields, &"error".to_owned()) {
        None => None,
        Some(Json::Null) => None,
        Some(Json::Obj(ef)) => match lookup(ef, &"message".to_owned()) {
            Some(Json::Str(m)) => Some(TaskError { message: m.clone() }),
            _ => {
                if strict {
                    return Err(DecodeError::BadField);
                }
                None
            },
        },
        Some(_) => {
            if strict {
                return Err(DecodeError::BadField);
            }
            None
        },
    };
    let details: Option<TaskDetails> = match lookup(fields, &"details".to_owned()) {
        None => None,
        Some(Json::Null) => None,
        Some(Json::Obj(df)) => {
            let produced: Option<u64> = match lookup(df, &"indexedDocuments".to_owned()) {
                None => None,
                Some(Json::Null) => None,
                Some(Json::UInt(u)) => Some(*u),
                Some(_) => {
                    if strict {
                        return Err(DecodeError::BadField);
                    }
                    None
                },
            };
            let consumed: Option<u64> = match lookup(df, &"receivedDocuments".to_owned()) {
                None => None,
                Some(Json::Null) => None,
                Some(Json::UInt(u)) => Some(*u),
                Some(_) => {
                    if strict {
                        return Err(DecodeError::BadField);
                    }
                    None
                },
            };
            Some(TaskDetails { produced_count: produced, consumed_count: consumed })
        },
        Some(_) => {
            if strict {
                return Err(DecodeError::BadField);
            }
            None
        },
    };
    Ok(TaskInfo { target_id, status, kind, error, details, elapsed })
}

} // verus!
