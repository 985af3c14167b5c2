//! The attachments' commands.

use vstd::prelude::*;
use crate::entity::attachment::Model;
use crate::text::prefixed;

verus! {

/// The failure of `chrono` to read a date and time.
#[verifier::external_type_specification]
#[verifier::external_body]
pub struct ExParseError(chrono::ParseError);

/// An attachment, as the front end sees it.
#[derive(Debug)]
pub struct AttachmentInfo {
    pub id: i64,
    pub master_id: i64,
    pub path: String,
    pub file_name: String,
    pub file_suffix: String,
    pub file_size: String,
    pub create_at: String,
}

/// Writes a date and time with `Display` of `chrono::NaiveDateTime`: the
/// date, a blank, and the time of day. Nothing is claimed of the text.
#[verifier::external_body]
fn datetime_text(time: &chrono::NaiveDateTime) -> (text: String) {
    time.to_string()
}

/// Whether `chrono` reads a text as a date and time of RFC 3339.
pub uninterp spec fn rfc3339_parses(text: Seq<char>) -> bool;

/// `chrono::DateTime::parse_from_rfc3339`: reads a text as a date and time
/// with an offset, which is given back as the date and time in UTC
/// (`naive_utc`). Whether it succeeds depends on the text alone; nothing is
/// claimed of the value.
#[verifier::external_body]
fn parse_rfc3339(text: &str) -> (read: Result<chrono::NaiveDateTime, chrono::ParseError>)
    ensures
        read is Ok <==> rfc3339_parses(text@),
{
    chrono::DateTime::parse_from_rfc3339(text).map(|time| time.naive_utc())
}

/// The message of a failure of `chrono` to read a date and time, as its
/// `Display` writes it. Nothing is claimed of the text.
#[verifier::external_body]
fn parse_error_text(error: &chrono::ParseError) -> (text: String) {
    error.to_string()
}

impl AttachmentInfo {
    /// What the front end sees of a row: every field as it is, and the time
    /// of creation written out.
    pub fn from(model: Model) -> (info: Self)
        ensures
            info.id == model.id,
            info.master_id == model.master_id,
            info.path == model.path,
            info.file_name == model.file_name,
            info.file_suffix == model.file_suffix,
            info.file_size == model.file_size,
    {
        let create_at = datetime_text(&model.create_at);
        AttachmentInfo {
            id: model.id,
            master_id: model.master_id,
            path: model.path,
            file_name: model.file_name,
            file_suffix: model.file_suffix,
            file_size: model.file_size,
            create_at,
        }
    }
}

/// A bound that was asked for, as it was read: the time, or the reader's message.
pub open spec fn bound_of(read: Option<Result<chrono::NaiveDateTime, String>>) -> Option<
    chrono::NaiveDateTime,
> {
    match read {
        Some(Ok(time)) => Some(time),
        _ => None,
    }
}

/// The span of time that a listing is asked for, once its bounds were
/// read: `None` stands for a bound that was not asked for. A start that could
/// not be read is complained about first, then an end.
pub fn time_span(
    start_time: Option<Result<chrono::NaiveDateTime, String>>,
    end_time: Option<Result<chrono::NaiveDateTime, String>>,
) -> (span: Result<(Option<chrono::NaiveDateTime>, Option<chrono::NaiveDateTime>), String>)
    ensures
        match (start_time, end_time) {
            (Some(Err(detail)), _) => span matches Err(message) && message@
                == "开始时间格式错误: "@ + detail@,
            (_, Some(Err(detail))) => span matches Err(message) && message@
                == "结束时间格式错误: "@ + detail@,
            _ => span == Ok::<(Option<chrono::NaiveDateTime>, Option<chrono::NaiveDateTime>), String>(
                (bound_of(start_time), bound_of(end_time)),
            ),
        },
{
    let start = match start_time {
        Some(Err(detail)) => {
            return Err(prefixed("开始时间格式错误: ", detail.as_str()));
        },
        Some(Ok(time)) => Some(time),
        None => None,
    };
    let end = match end_time {
        Some(Err(detail)) => {
            return Err(prefixed("结束时间格式错误: ", detail.as_str()));
        },
        Some(Ok(time)) => Some(time),
        None => None,
    };
    Ok((start, end))
}

/// Reads a bound of a span of time, if one is asked for.
fn read_bound(text: &Option<String>) -> (read: Option<Result<chrono::NaiveDateTime, String>>)
    ensures
        read is Some <==> *text is Some,
        *text matches Some(asked) ==> (read matches Some(bound) && (bound is Ok <==> rfc3339_parses(
            asked@,
        ))),
{
    match text {
        None => None,
        Some(asked) => match parse_rfc3339(asked.as_str()) {
            Ok(time) => Some(Ok(time)),
            Err(error) => Some(Err(parse_error_text(&error))),
        },
    }
}

/// Whether a bound is asked for in a text that is no date and time of RFC 3339.
pub open spec fn is_unreadable(text: Option<String>) -> bool {
    text matches Some(asked) && !rfc3339_parses(asked@)
}

/// Reads the span of time that a listing is asked for: each bound is a
/// date and time of RFC 3339 and is given in UTC; a bound that is not asked
/// for is `None`. A start that cannot be read is complained about first,
/// then an end.
pub fn query_attachments(start_time: &Option<String>, end_time: &Option<String>) -> (span: Result<
    (Option<chrono::NaiveDateTime>, Option<chrono::NaiveDateTime>),
    String,
>)
    ensures
        span is Ok <==> !is_unreadable(*start_time) && !is_unreadable(*end_time),
        span matches Ok(bounds) ==> (bounds.0 is Some <==> *start_time is Some) && (bounds.1 is Some
            <==> *end_time is Some),
        span matches Err(message) ==> crate::text::begins_with(
            message@,
            if is_unreadable(*start_time) {
                "开始时间格式错误: "@
            } else {
                "结束时间格式错误: "@
            },
        ),
{
    let start = read_bound(start_time);
    let end = read_bound(end_time);
    let span = time_span(start, end);
    proof {
        if span is Err {
            let prefix = if is_unreadable(*start_time) {
                "开始时间格式错误: "@
            } else {
                "结束时间格式错误: "@
            };
            assert(span->Err_0@.subrange(0, prefix.len() as int) =~= prefix);
        }
    }
    span
}

} // verus!
