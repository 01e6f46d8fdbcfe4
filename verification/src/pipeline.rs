//! The batch pipeline: decode the stream, read the records, fold them into
//! one, classify and render — under an explicit error policy and event mode.

use vstd::prelude::*;

use crate::json::Json;
use crate::json::decode_values;
use crate::json::decoded_from;
use crate::merge::consolidate;
use crate::merge::consolidate_spec;
use crate::record::DecodeError;
use crate::record::ExtractMode;
use crate::record::TaskInfo;
use crate::record::TaskInfoV;
use crate::record::extract_record;
use crate::record::extract_spec;
use crate::render::Notification;
use crate::render::NotificationV;
use crate::render::render;
use crate::render::render_spec;

verus! {

/// What a decode error means for the rest of the batch.
#[derive(Clone, Copy, PartialEq, Eq, Structural, Debug)]
pub enum ErrorPolicy {
    /// The first error aborts the batch: no notification is produced.
    Abort,
    /// Records that fail to extract are skipped; a stream cut short by a
    /// syntax error keeps its earlier records.
    Skip,
}

/// How many of the stream's records matter.
#[derive(Clone, Copy, PartialEq, Eq, Structural, Debug)]
pub enum EventMode {
    /// Every record of the batch is merged.
    All,
    /// Only the first record counts; the rest of the stream is ignored.
    FirstOnly,
}

/// The batch-processing configuration, constructed once and read-only.
#[derive(Clone, Copy, PartialEq, Eq, Structural, Debug)]
pub struct Settings {
    pub mode: ExtractMode,
    pub policy: ErrorPolicy,
    pub events: EventMode,
}

impl Default for Settings {
    /// Schema-validating extraction, abort on the first error, every record
    /// merged.
    fn default() -> (r: Settings)
        ensures
            r == (Settings {
                mode: ExtractMode::Strict,
                policy: ErrorPolicy::Abort,
                events: EventMode::All,
            }),
    {
        Settings { mode: ExtractMode::Strict, policy: ErrorPolicy::Abort, events: EventMode::All }
    }
}

/// The records that extract successfully, in stream order.
pub open spec fn oks_of(vals: Seq<Json>, mode: ExtractMode) -> Seq<TaskInfoV>
    decreases vals.len(),
{
    if vals.len() == 0 {
        Seq::empty()
    } else {
        let rest = oks_of(vals.drop_last(), mode);
        match extract_spec(vals.last(), mode) {
            Ok(t) => rest.push(t),
            Err(_) => rest,
        }
    }
}

/// The first extraction error in stream order, if any.
pub open spec fn first_err(vals: Seq<Json>, mode: ExtractMode) -> Option<DecodeError>
    decreases vals.len(),
{
    if vals.len() == 0 {
        None
    } else {
        match first_err(vals.drop_last(), mode) {
            Some(e) => Some(e),
            None => match extract_spec(vals.last(), mode) {
                Ok(_) => None,
                Err(e) => Some(e),
            },
        }
    }
}

/// What a batch of successfully read records comes to: nothing at all when
/// the batch is empty, else the rendering of the consolidated record.
pub open spec fn finish_spec(oks: Seq<TaskInfoV>) -> Result<Option<NotificationV>, DecodeError> {
    if oks.len() == 0 {
        Ok(None)
    } else {
        Ok(Some(render_spec(consolidate_spec(oks))))
    }
}

/// What the whole batch comes to, given the decoded JSON values and whether
/// the stream was cut short by a syntax error.  Under `FirstOnly` with at
/// least one decoded value only that value counts and the rest of the
/// stream, cut short or not, is ignored.  Under `Abort` the first error —
/// a schema violation among the considered values, else the syntax cut —
/// is the batch's result; under `Skip` the well-read records stand alone.
pub open spec fn summarize_spec(vals: Seq<Json>, truncated: bool, s: Settings) -> Result<
    Option<NotificationV>,
    DecodeError,
> {
    let considered = if s.events == EventMode::FirstOnly && vals.len() > 0 {
        vals.take(1)
    } else {
        vals
    };
    let cut = truncated && !(s.events == EventMode::FirstOnly && vals.len() > 0);
    match s.policy {
        ErrorPolicy::Abort => match first_err(considered, s.mode) {
            Some(e) => Err(e),
            None => if cut {
                Err(DecodeError::Syntax)
            } else {
                finish_spec(oks_of(considered, s.mode))
            },
        },
        ErrorPolicy::Skip => finish_spec(oks_of(considered, s.mode)),
    }
}

/// Summarizes a batch of decoded JSON values, as `summarize_spec` describes:
/// `Ok(None)` for a batch with nothing to report, `Ok(Some(..))` with the
/// rendered notification, `Err(..)` for a batch the policy aborts.
pub fn summarize_values(vals: &Vec<Json>, truncated: bool, s: Settings) -> (r: Result<
    Option<Notification>,
    DecodeError,
>)
    ensures
        (match r {
            Ok(Some(n)) => summarize_spec(vals@, truncated, s) == Ok::<Option<NotificationV>,
            DecodeError>(Some(n@)),
            Ok(None) => summarize_spec(vals@, truncated, s) == Ok::<Option<NotificationV>,
            DecodeError>(None),
            Err(e) => summarize_spec(vals@, truncated, s) == Err::<Option<NotificationV>,
            DecodeError>(e),
        }),
{
    let first_only = match s.events {
        EventMode::FirstOnly => true,
        EventMode::All => false,
    };
    let limit: usize = if first_only && vals.len() > 0 {
        1
    } else {
        vals.len()
    };
    let ghost considered = if s.events == EventMode::FirstOnly && vals@.len() > 0 {
        vals@.take(1)
    } else {
        vals@
    };
    assert(considered =~= vals@.take(limit as int));
    let cut = truncated && !(first_only && vals.len() > 0);
    let abort = match s.policy {
        ErrorPolicy::Abort => true,
        ErrorPolicy::Skip => false,
    };
    let mut recs: Vec<TaskInfo> = Vec::new();
    for i in 0..limit
        invariant
            limit <= vals@.len(),
            considered == vals@.take(limit as int),
            considered == (if s.events == EventMode::FirstOnly && vals@.len() > 0 {
                vals@.take(1)
            } else {
                vals@
            }),
            recs@.map_values(|x: TaskInfo| x@) =~= oks_of(vals@.take(i as int), s.mode),
            abort <==> s.policy == ErrorPolicy::Abort,
            abort ==> first_err(vals@.take(i as int), s.mode) is None,
    {
        assert(vals@.take(i as int + 1).drop_last() =~= vals@.take(i as int));
        assert(vals@.take(i as int + 1).last() == vals@[i as int]);
        match extract_record(&vals[i], s.mode) {
            Ok(t) => {
                recs.push(t);
            },
            Err(e) => {
                if abort {
                    proof {
                        assert(first_err(vals@.take(i as int + 1), s.mode) == Some(e));
                        lemma_first_err_stays(
                            vals@.take(i as int + 1),
                            vals@.take(limit as int),
                            s.mode,
                        );
                        assert(first_err(considered, s.mode) == Some(e));
                    }
                    return Err(e);
                }
            },
        }
    }
    assert(vals@.take(limit as int) =~= considered);
    if abort && cut {
        return Err(DecodeError::Syntax);
    }
    if recs.len() == 0 {
        return Ok(None);
    }
    let acc = match consolidate(&recs) {
        Some(acc) => acc,
        None => {
            return Ok(None);
        },
    };
    Ok(Some(render(&acc)))
}

/// An error among the first values of a sequence is the sequence's first
/// error.
pub proof fn lemma_first_err_stays(prefix: Seq<Json>, whole: Seq<Json>, mode: ExtractMode)
    requires
        prefix.len() <= whole.len(),
        forall|i: int| 0 <= i < prefix.len() ==> prefix[i] == whole[i],
        first_err(prefix, mode) is Some,
    ensures
        first_err(whole, mode) == first_err(prefix, mode),
    decreases whole.len(),
{
    if whole.len() > prefix.len() {
        lemma_first_err_stays(prefix, whole.drop_last(), mode);
    } else {
        assert(prefix =~= whole);
    }
}

/// Processes one batch from its decoded byte stream: the values the stream
/// parses to (`decoded_from`) are summarized exactly as `summarize_spec`
/// describes, and an empty stream is an empty batch with nothing to report.
pub fn process_batch(bytes: &[u8], s: Settings) -> (r: Result<Option<Notification>, DecodeError>)
    ensures
        (match r {
            Ok(Some(n)) => summarize_spec(decoded_from(bytes@, 0).0, decoded_from(bytes@, 0).1, s)
                == Ok::<Option<NotificationV>, DecodeError>(Some(n@)),
            Ok(None) => summarize_spec(decoded_from(bytes@, 0).0, decoded_from(bytes@, 0).1, s)
                == Ok::<Option<NotificationV>, DecodeError>(None),
            Err(e) => summarize_spec(decoded_from(bytes@, 0).0, decoded_from(bytes@, 0).1, s)
                == Err::<Option<NotificationV>, DecodeError>(e),
        }),
        bytes@.len() == 0 ==> (r matches Ok(n) && n is None),
{
    let (vals, truncated) = decode_values(bytes);
    summarize_values(&vals, truncated, s)
}

} // verus!
