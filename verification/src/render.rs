//! Renders the consolidated record's notification: a plain-text title and
//! body put into words by the selected template.

use vstd::prelude::*;

use crate::classify::Template;
use crate::classify::classify;
use crate::classify::consumed_of;
use crate::classify::produced_of;
use crate::classify::template_spec;
use crate::duration::fmt_dur;
use crate::duration::fmt_duration;
use crate::duration::millis;
use crate::duration::millis_of;
use crate::duration::normalize;
use crate::duration::normalized;
use crate::duration::throughput;
use crate::duration::throughput_text;
use crate::record::TaskInfo;
use crate::record::TaskInfoV;
use crate::text::capitalize;
use crate::text::capitalized;
use crate::text::dec_digits;
use crate::text::dec_u64;

verus! {

/// The rendered notification: a plain-text title and body.
#[derive(Debug)]
pub struct Notification {
    pub title: String,
    pub body: String,
}

/// The mathematical view of a notification.
pub ghost struct NotificationV {
    pub title: Seq<char>,
    pub body: Seq<char>,
}

impl View for Notification {
    type V = NotificationV;

    open spec fn view(&self) -> NotificationV {
        NotificationV { title: self.title@, body: self.body@ }
    }
}

/// The carried text, or nothing when the field is absent.
pub open spec fn text_or_empty(o: Option<Seq<char>>) -> Seq<char> {
    match o {
        Some(s) => s,
        None => Seq::empty(),
    }
}

/// The carried counter, or zero when the field is absent.
pub open spec fn count_or_zero(o: Option<u64>) -> u64 {
    match o {
        Some(x) => x,
        None => 0,
    }
}

/// The notification title: the target's name and status where a target is
/// present, else the capitalized task kind and status.
pub open spec fn title_spec(t: TaskInfoV) -> Seq<char> {
    match template_spec(t) {
        Template::TaskOnly => capitalized(t.kind) + " "@ + t.status,
        _ => "Index "@ + text_or_empty(t.target_id) + " "@ + t.status,
    }
}

/// The notification body under the selected template.  Every body names the
/// kind, status and rounded elapsed time; the failure row adds the consumed
/// count and the error message; the success row adds the produced count,
/// and the throughput only when the rounded duration is positive.
pub open spec fn body_spec(t: TaskInfoV) -> Seq<char> {
    let nd = normalized(t.elapsed);
    let dtext = fmt_duration(nd);
    let head = "A "@ + t.kind + " "@ + t.status;
    match template_spec(t) {
        Template::FailureWithProgress => head + " indexing "@ + dec_digits(
            count_or_zero(consumed_of(t)) as nat,
        ) + " documents in "@ + dtext + ": "@ + text_or_empty(t.error),
        Template::SuccessWithCount => head + " indexing "@ + dec_digits(
            count_or_zero(produced_of(t)) as nat,
        ) + " documents in "@ + dtext + (if millis_of(nd) > 0 {
            " ("@ + throughput_text(count_or_zero(produced_of(t)), millis_of(nd)) + " docs/s)"@
        } else {
            Seq::<char>::empty()
        }),
        Template::TaskOnly => head + " in "@ + dtext,
        Template::TargetOnly => head + " indexing in "@ + dtext,
    }
}

/// Title and body together.
pub open spec fn render_spec(t: TaskInfoV) -> NotificationV {
    NotificationV { title: title_spec(t), body: body_spec(t) }
}

/// A success notification's body ends with the plain duration and carries no
/// throughput figure when the rounded duration is not positive, rather than
/// showing an infinite rate.
pub proof fn lemma_throughput_omitted(t: TaskInfoV)
    requires
        template_spec(t) == Template::SuccessWithCount,
        millis_of(normalized(t.elapsed)) <= 0,
    ensures
        body_spec(t) == "A "@ + t.kind + " "@ + t.status + " indexing "@ + dec_digits(
            count_or_zero(produced_of(t)) as nat,
        ) + " documents in "@ + fmt_duration(normalized(t.elapsed)),
{
    assert(body_spec(t) =~= "A "@ + t.kind + " "@ + t.status + " indexing "@ + dec_digits(
        count_or_zero(produced_of(t)) as nat,
    ) + " documents in "@ + fmt_duration(normalized(t.elapsed)));
}

fn consumed_or_zero(t: &TaskInfo) -> (c: u64)
    ensures
        c == count_or_zero(consumed_of(t@)),
{
    match &t.details {
        Some(d) => match d.consumed_count {
            Some(c) => c,
            None => 0,
        },
        None => 0,
    }
}

fn produced_or_zero(t: &TaskInfo) -> (c: u64)
    ensures
        c == count_or_zero(produced_of(t@)),
{
    match &t.details {
        Some(d) => match d.produced_count {
            Some(c) => c,
            None => 0,
        },
        None => 0,
    }
}

/// Renders the notification for a consolidated record, as `render_spec`
/// describes.
pub fn render(t: &TaskInfo) -> (r: Notification)
    ensures
        r@ == render_spec(t@),
{
    let tpl = classify(t);
    let nd = normalize(t.elapsed);
    let dtext = fmt_dur(nd);

    let mut title = String::new();
    match &t.target_id {
        Some(uid) => {
            title.append("Index ");
            title.append(uid.as_str());
            title.append(" ");
            title.append(t.status.as_str());
        },
        None => {
            title = capitalize(t.kind.as_str());
            title.append(" ");
            title.append(t.status.as_str());
        },
    }
    assert(title@ =~= title_spec(t@));

    let mut body = String::new();
    body.append("A ");
    body.append(t.kind.as_str());
    body.append(" ");
    body.append(t.status.as_str());
    match tpl {
        Template::FailureWithProgress => {
            body.append(" indexing ");
            body.append(dec_u64(consumed_or_zero(t)).as_str());
            body.append(" documents in ");
            body.append(dtext.as_str());
            body.append(": ");
            match &t.error {
                Some(e) => body.append(e.message.as_str()),
                None => (),
            }
        },
        Template::SuccessWithCount => {
            let p = produced_or_zero(t);
            body.append(" indexing ");
            body.append(dec_u64(p).as_str());
            body.append(" documents in ");
            body.append(dtext.as_str());
            let ms = millis(nd);
            match throughput(p, ms) {
                Some(s) => {
                    body.append(" (");
                    body.append(s.as_str());
                    body.append(" docs/s)");
                },
                None => (),
            }
        },
        Template::TaskOnly => {
            body.append(" in ");
            body.append(dtext.as_str());
        },
        Template::TargetOnly => {
            body.append(" indexing in ");
            body.append(dtext.as_str());
        },
    }
    assert(body@ =~= body_spec(t@));
    Notification { title, body }
}

} // verus!
