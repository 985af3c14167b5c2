//! The rules of the ledger: how a record is made, changed and posted.

pub mod dto;

use vstd::prelude::*;
use vstd::string::StringExecFns;
use crate::entity::accounting_record::Model;
use crate::enums::{AccountingChannel, AccountingRecordState, AccountingType};
use crate::text::text_of;

verus! {

/// What a change of a record sets anew; `None` leaves a field as it is.
/// For the remark, `Some(None)` clears it.
#[derive(Debug)]
pub struct Changes {
    pub amount: Option<rust_decimal::Decimal>,
    pub record_time: Option<chrono::NaiveDateTime>,
    pub accounting_type: Option<AccountingType>,
    pub title: Option<String>,
    pub remark: Option<Option<String>>,
}

/// The remark of a record after a change.
pub open spec fn changed_remark(old: Option<String>, change: Option<Option<String>>) -> Option<
    Seq<char>,
> {
    match change {
        Some(remark) => text_of(remark),
        None => text_of(old),
    }
}

/// A new record, filed under `id` at the time `now`: it awaits posting.
pub fn add_accounting_record(
    id: i64,
    amount: rust_decimal::Decimal,
    record_time: chrono::NaiveDateTime,
    accounting_type: AccountingType,
    title: String,
    channel: AccountingChannel,
    remark: Option<String>,
    write_off_id: Option<i64>,
    now: chrono::NaiveDateTime,
) -> (record: Model)
    ensures
        record == (Model {
            id,
            amount,
            record_time,
            accounting_type,
            title,
            channel,
            remark,
            write_off_id,
            create_at: now,
            state: AccountingRecordState::PendingPosting,
        }),
{
    Model {
        id,
        amount,
        record_time,
        accounting_type,
        title,
        channel,
        remark,
        write_off_id,
        create_at: now,
        state: AccountingRecordState::PendingPosting,
    }
}

/// Changes a record: `record` is the record that was looked up, `None`
/// where there is none. Only a record that awaits posting can be changed;
/// the fields that `changes` names are set anew and every other field stays.
pub fn modify_accounting_record(record: Option<Model>, changes: Changes) -> (changed: Result<
    Model,
    String,
>)
    ensures
        match record {
            None => changed matches Err(message) && message@ == "Accounting record not found"@,
            Some(old) => if old.state != AccountingRecordState::PendingPosting {
                changed matches Err(message) && message@
                    == "Only records with state PendingPosting can be modified"@
            } else {
                &&& changed matches Ok(new)
                &&& new.id == old.id
                &&& new.amount == match changes.amount {
                    Some(amount) => amount,
                    None => old.amount,
                }
                &&& new.record_time == match changes.record_time {
                    Some(time) => time,
                    None => old.record_time,
                }
                &&& new.accounting_type == match changes.accounting_type {
                    Some(kind) => kind,
                    None => old.accounting_type,
                }
                &&& new.title@ == match changes.title {
                    Some(title) => title@,
                    None => old.title@,
                }
                &&& text_of(new.remark) == changed_remark(old.remark, changes.remark)
                &&& new.channel == old.channel
                &&& new.write_off_id == old.write_off_id
                &&& new.create_at == old.create_at
                &&& new.state == old.state
            },
        },
{
    match record {
        None => Err(String::from_str("Accounting record not found")),
        Some(old) => {
            if !old.state.is_open() {
                return Err(
                    String::from_str("Only records with state PendingPosting can be modified"),
                );
            }
            let mut new = old;
            if let Some(amount) = changes.amount {
                new.amount = amount;
            }
            if let Some(record_time) = changes.record_time {
                new.record_time = record_time;
            }
            if let Some(accounting_type) = changes.accounting_type {
                new.accounting_type = accounting_type;
            }
            if let Some(title) = changes.title {
                new.title = title;
            }
            if let Some(remark) = changes.remark {
                new.remark = remark;
            }
            Ok(new)
        },
    }
}

/// Posts a record: `record` is the record that was looked up, `None` where
/// there is none. The record is posted whatever its state was, and nothing
/// else of it changes.
pub fn post_accounting_record(record: Option<Model>) -> (posted: Result<Model, String>)
    ensures
        match record {
            None => posted matches Err(message) && message@ == "Accounting record not found"@,
            Some(old) => posted == Ok::<Model, String>(
                Model { state: AccountingRecordState::Posted, ..old },
            ),
        },
{
    match record {
        None => Err(String::from_str("Accounting record not found")),
        Some(old) => {
            let mut new = old;
            new.state = AccountingRecordState::Posted;
            Ok(new)
        },
    }
}

} // verus!
