//! The reading of what a caller submits for a record.

use vstd::prelude::*;
use vstd::string::StringExecFns;
use crate::enums::{AccountingChannel, AccountingType};

verus! {

/// The form in which a caller writes the time of a record.
pub const RECORD_TIME_FORMAT: &'static str = "%Y-%m-%d %H:%M:%S";

/// Whether `chrono` reads a text as a date and time in a format.
pub uninterp spec fn datetime_parses(text: Seq<char>, format: Seq<char>) -> bool;

/// `chrono::NaiveDateTime::parse_from_str`: reads a text as a date and
/// time in the given format. Whether it succeeds depends on the two texts
/// alone; nothing is claimed of the value.
#[verifier::external_body]
fn parse_datetime(text: &str, format: &str) -> (time: Option<chrono::NaiveDateTime>)
    ensures
        time is Some <==> datetime_parses(text@, format@),
{
    chrono::NaiveDateTime::parse_from_str(text, format).ok()
}

/// What a caller submits for a new record, with the amount already read:
/// `None` stands for an amount that is no decimal number.
#[derive(Debug)]
pub struct AddAccountingRecordDto {
    pub amount: Option<rust_decimal::Decimal>,
    pub record_time: String,
    pub accounting_type: String,
    pub title: String,
    pub channel: String,
    pub remark: Option<String>,
    pub write_off_id: Option<i64>,
}

/// What a caller submits to change a record, with the amount already read:
/// `Some(None)` stands for an amount that is no decimal number.
#[derive(Debug)]
pub struct ModifyAccountingRecordDto {
    pub id: i64,
    pub amount: Option<Option<rust_decimal::Decimal>>,
    pub record_time: Option<String>,
    pub accounting_type: Option<String>,
    pub title: Option<String>,
    pub remark: Option<Option<String>>,
}

/// The complaint about what was submitted for a new record, if there is
/// one: about the amount first, then the time, the kind and the channel.
pub open spec fn add_complaint(
    amount_given: bool,
    time_read: bool,
    accounting_type: Seq<char>,
    channel: Seq<char>,
) -> Option<Seq<char>> {
    if !amount_given {
        Some("Invalid amount provided"@)
    } else if !time_read {
        Some("Invalid date format, expected YYYY-MM-DD HH:MM:SS"@)
    } else if AccountingType::named(accounting_type) is None {
        Some("Invalid accounting type"@)
    } else if AccountingChannel::named(channel) is None {
        Some("Invalid accounting channel"@)
    } else {
        None
    }
}

/// The complaint about what was submitted to change a record, if there is
/// one: about the amount first, then the time and the kind. A field that is
/// not submitted draws no complaint. `time_read` says whether a time that
/// was submitted could be read.
pub open spec fn modify_complaint(
    amount_given: bool,
    time_read: bool,
    accounting_type: Option<String>,
) -> Option<Seq<char>> {
    if !amount_given {
        Some("Invalid amount provided"@)
    } else if !time_read {
        Some("Invalid date format, expected YYYY-MM-DD HH:MM:SS"@)
    } else if accounting_type matches Some(name) && AccountingType::named(name@) is None {
        Some("Invalid accounting type"@)
    } else {
        None
    }
}

/// Reads the kind and the channel of a new record, once it is known
/// whether its amount and its time could be read.
pub fn check_add(amount_given: bool, time_read: bool, accounting_type: &str, channel: &str) -> (read:
    Result<(AccountingType, AccountingChannel), String>)
    ensures
        match add_complaint(amount_given, time_read, accounting_type@, channel@) {
            Some(complaint) => read matches Err(message) && message@ == complaint,
            None => read matches Ok(fields) && Some(fields.0) == AccountingType::named(
                accounting_type@,
            ) && Some(fields.1) == AccountingChannel::named(channel@),
        },
{
    if !amount_given {
        return Err(String::from_str("Invalid amount provided"));
    }
    if !time_read {
        return Err(String::from_str("Invalid date format, expected YYYY-MM-DD HH:MM:SS"));
    }
    let accounting_type = match AccountingType::from_str(accounting_type) {
        Ok(kind) => kind,
        Err(_) => {
            return Err(String::from_str("Invalid accounting type"));
        },
    };
    let channel = match AccountingChannel::from_str(channel) {
        Ok(channel) => channel,
        Err(_) => {
            return Err(String::from_str("Invalid accounting channel"));
        },
    };
    Ok((accounting_type, channel))
}

/// Reads the kind to which a record is changed, once it is known whether
/// the amount and the time that were submitted could be read.
pub fn check_modify(amount_given: bool, time_read: bool, accounting_type: &Option<String>) -> (read:
    Result<Option<AccountingType>, String>)
    ensures
        match modify_complaint(amount_given, time_read, *accounting_type) {
            Some(complaint) => read matches Err(message) && message@ == complaint,
            None => read matches Ok(kind) && kind == match *accounting_type {
                Some(name) => AccountingType::named(name@),
                None => None,
            },
        },
{
    if !amount_given {
        return Err(String::from_str("Invalid amount provided"));
    }
    if !time_read {
        return Err(String::from_str("Invalid date format, expected YYYY-MM-DD HH:MM:SS"));
    }
    match accounting_type {
        Some(name) => match AccountingType::from_str(name.as_str()) {
            Ok(kind) => Ok(Some(kind)),
            Err(_) => Err(String::from_str("Invalid accounting type")),
        },
        None => Ok(None),
    }
}

impl AddAccountingRecordDto {
    /// Reads the submitted fields: the amount, the time, the kind and the channel.
    pub fn to_internal_types(&self) -> (read: Result<
        (rust_decimal::Decimal, chrono::NaiveDateTime, AccountingType, AccountingChannel),
        String,
    >)
        ensures
            match add_complaint(
                self.amount is Some,
                datetime_parses(self.record_time@, RECORD_TIME_FORMAT@),
                self.accounting_type@,
                self.channel@,
            ) {
                Some(complaint) => read matches Err(message) && message@ == complaint,
                None => read matches Ok(fields) && Some(fields.0) == self.amount && Some(fields.2)
                    == AccountingType::named(self.accounting_type@) && Some(fields.3)
                    == AccountingChannel::named(self.channel@),
            },
    {
        let record_time = parse_datetime(self.record_time.as_str(), RECORD_TIME_FORMAT);
        match check_add(
            self.amount.is_some(),
            record_time.is_some(),
            self.accounting_type.as_str(),
            self.channel.as_str(),
        ) {
            Err(message) => Err(message),
            Ok((accounting_type, channel)) => Ok(
                (self.amount.unwrap(), record_time.unwrap(), accounting_type, channel),
            ),
        }
    }
}

impl ModifyAccountingRecordDto {
    /// Reads the submitted fields: the amount, the time and the kind, each
    /// `None` where it was not submitted.
    pub fn to_internal_types(&self) -> (read: Result<
        (Option<rust_decimal::Decimal>, Option<chrono::NaiveDateTime>, Option<AccountingType>),
        String,
    >)
        ensures
            match modify_complaint(
                self.amount != Some(None::<rust_decimal::Decimal>),
                self.record_time matches Some(text) ==> datetime_parses(
                    text@,
                    RECORD_TIME_FORMAT@,
                ),
                self.accounting_type,
            ) {
                Some(complaint) => read matches Err(message) && message@ == complaint,
                None => {
                    &&& read matches Ok(fields)
                    &&& fields.0 == match self.amount {
                        Some(amount) => amount,
                        None => None,
                    }
                    &&& fields.1 is Some <==> self.record_time is Some
                    &&& fields.2 == match self.accounting_type {
                        Some(name) => AccountingType::named(name@),
                        None => None,
                    }
                },
            },
    {
        let (amount_given, amount) = match self.amount {
            Some(Some(amount)) => (true, Some(amount)),
            Some(None) => (false, None),
            None => (true, None),
        };
        let (time_read, record_time) = match &self.record_time {
            Some(text) => {
                let time = parse_datetime(text.as_str(), RECORD_TIME_FORMAT);
                (time.is_some(), time)
            },
            None => (true, None),
        };
        match check_modify(amount_given, time_read, &self.accounting_type) {
            Err(message) => Err(message),
            Ok(accounting_type) => Ok((amount, record_time, accounting_type)),
        }
    }
}

} // verus!
