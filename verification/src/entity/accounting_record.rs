//! A record of the ledger, and the number it is filed under.

use vstd::prelude::*;
use crate::enums::{AccountingChannel, AccountingRecordState, AccountingType};

verus! {

/// A decimal number of `rust_decimal`. The library carries amounts and never
/// computes with them.
#[verifier::external_type_specification]
#[verifier::external_body]
pub struct ExDecimal(rust_decimal::Decimal);

/// A date and time of `chrono`, without a time zone. The library carries such
/// values and never looks inside.
#[verifier::external_type_specification]
#[verifier::external_body]
pub struct ExNaiveDateTime(chrono::NaiveDateTime);

/// The number that a text is the numeral of, as `str::parse` reads a 32-bit
/// integer; `None` for a text that is no such numeral.
pub uninterp spec fn parsed_i32(text: Seq<char>) -> Option<i32>;

/// `str::parse` of std for a 32-bit integer. The number depends on the
/// text alone; it is named, not stated.
#[verifier::external_body]
fn parse_i32(text: &str) -> (number: Option<i32>)
    ensures
        number == parsed_i32(text@),
{
    text.parse::<i32>().ok()
}

/// The day that stands in for one whose digits cannot be read.
pub const FALLBACK_DATE: i32 = 20210101;

/// The form in which a day is written as digits.
pub const DATE_FORMAT: &'static str = "%Y%m%d";

/// A record of the ledger.
#[derive(Debug)]
pub struct Model {
    pub id: i64,
    pub amount: rust_decimal::Decimal,
    pub record_time: chrono::NaiveDateTime,
    pub accounting_type: AccountingType,
    pub title: String,
    pub channel: AccountingChannel,
    pub remark: Option<String>,
    pub write_off_id: Option<i64>,
    pub create_at: chrono::NaiveDateTime,
    pub state: AccountingRecordState,
}

/// The number of the day's `seq`-th record: the digits of the date followed
/// by the sequence number, written with five digits at least.
pub open spec fn record_id(date: int, seq: int) -> int {
    date * id_scale(seq) + seq
}

/// The power of ten by which a date is shifted to make room for the
/// sequence number: 100000, or more where the number has more than five digits.
pub open spec fn id_scale(seq: int) -> int
    decreases seq,
{
    if seq < 100000 {
        100000
    } else {
        10 * id_scale(seq / 10)
    }
}

/// A sequence number of at most five digits stands behind the date as it is,
/// with leading zeros.
pub proof fn lemma_record_id_of_five_digits(date: int, seq: int)
    requires
        seq < 100000,
    ensures
        record_id(date, seq) == date * 100000 + seq,
{
}

/// As long as a day has fewer than a hundred thousand records, no two
/// records are filed under the same number.
pub proof fn lemma_record_ids_distinct(date: int, seq: int, other_date: int, other_seq: int)
    requires
        0 <= seq < 100000,
        0 <= other_seq < 100000,
        record_id(date, seq) == record_id(other_date, other_seq),
    ensures
        date == other_date,
        seq == other_seq,
{
    assert(date * 100000 + seq == other_date * 100000 + other_seq);
    if date < other_date {
        assert(other_date * 100000 >= (date + 1) * 100000) by (nonlinear_arith)
            requires
                date < other_date,
        ;
    } else if other_date < date {
        assert(date * 100000 >= (other_date + 1) * 100000) by (nonlinear_arith)
            requires
                other_date < date,
        ;
    }
}

/// The number of a day, once its digits were read.
pub fn date_or_fallback(read: Option<i32>) -> (date: i32)
    ensures
        date == match read {
            Some(number) => number,
            None => 20210101i32,
        },
{
    match read {
        Some(number) => number,
        None => FALLBACK_DATE,
    }
}

impl Model {
    /// The number of a day that is written as the digits of year, month
    /// and day; a fixed day where the text is no number.
    pub fn date_number(formatted: &str) -> (date: i32)
        ensures
            date == match parsed_i32(formatted@) {
                Some(number) => number,
                None => 20210101i32,
            },
    {
        date_or_fallback(parse_i32(formatted))
    }

    /// The number under which the `next_seq`-th record of the day `date_int`
    /// is filed; `date_int` holds the day as the digits of year, month and
    /// day. `None` for a negative part and for a number beyond the 64 bits of
    /// an id.
    pub fn generate_id(date_int: i32, next_seq: i32) -> (id: Option<i64>)
        ensures
            id is Some <==> date_int >= 0 && next_seq >= 0 && record_id(
                date_int as int,
                next_seq as int,
            ) <= i64::MAX,
            id matches Some(number) ==> number == record_id(date_int as int, next_seq as int),
    {
        if date_int < 0 || next_seq < 0 {
            return None;
        }
        let mut scale: i64 = 100000;
        let mut rest: i32 = next_seq;
        while rest >= 100000
            invariant
                0 <= rest,
                100000 <= scale,
                scale * rest <= 100000 * next_seq,
                id_scale(next_seq as int) * 100000 == scale * id_scale(rest as int),
            decreases rest,
        {
            proof {
                let s = scale as int;
                let r = rest as int;
                assert(id_scale(r) == 10 * id_scale(r / 10));
                assert(s * (10 * id_scale(r / 10)) == (s * 10) * id_scale(r / 10))
                    by (nonlinear_arith);
                assert(s <= next_seq) by (nonlinear_arith)
                    requires
                        s * r <= 100000 * next_seq,
                        r >= 100000,
                        s >= 0,
                ;
                assert((s * 10) * (r / 10) <= s * r) by (nonlinear_arith)
                    requires
                        s >= 0,
                        r >= 0,
                ;
            }
            rest = rest / 10;
            scale = scale * 10;
        }
        assert(id_scale(rest as int) == 100000);
        assert(id_scale(next_seq as int) == scale) by (nonlinear_arith)
            requires
                id_scale(next_seq as int) * 100000 == scale * 100000,
        ;
        let shifted = (date_int as i64).checked_mul(scale);
        match shifted {
            None => None,
            Some(shifted) => shifted.checked_add(next_seq as i64),
        }
    }
}

} // verus!
