use accounting_assistant::entity::accounting_record::{
    date_or_fallback, Model, DATE_FORMAT, FALLBACK_DATE,
};
use accounting_assistant::entity::accounting_record_seq;
use accounting_assistant::enums::{AccountingChannel, AccountingRecordState, AccountingType};
use accounting_assistant::services::accounting::dto::{
    check_add, check_modify, AddAccountingRecordDto, ModifyAccountingRecordDto, RECORD_TIME_FORMAT,
};
use accounting_assistant::services::accounting::{
    add_accounting_record, modify_accounting_record, post_accounting_record, Changes,
};
use rust_decimal::Decimal;

fn noon() -> chrono::NaiveDateTime {
    chrono::NaiveDate::from_ymd_opt(2023, 1, 1).unwrap().and_hms_opt(12, 0, 0).unwrap()
}

fn later() -> chrono::NaiveDateTime {
    chrono::NaiveDate::from_ymd_opt(2023, 1, 2).unwrap().and_hms_opt(8, 30, 0).unwrap()
}

fn record() -> Model {
    add_accounting_record(
        2023010100001,
        Decimal::new(10000, 2),
        noon(),
        AccountingType::Income,
        "Test Record".to_string(),
        AccountingChannel::Cash,
        Some("Test Remark".to_string()),
        None,
        later(),
    )
}

fn no_changes() -> Changes {
    Changes { amount: None, record_time: None, accounting_type: None, title: None, remark: None }
}

#[test]
fn test_add_accounting_record() {
    let record = record();
    assert_eq!(record.id, 2023010100001);
    assert_eq!(record.amount, Decimal::new(10000, 2));
    assert_eq!(record.record_time, noon());
    assert_eq!(record.accounting_type, AccountingType::Income);
    assert_eq!(record.title, "Test Record");
    assert_eq!(record.channel, AccountingChannel::Cash);
    assert_eq!(record.remark, Some("Test Remark".to_string()));
    assert_eq!(record.write_off_id, None);
    assert_eq!(record.create_at, later());
    assert_eq!(record.state, AccountingRecordState::PendingPosting);
}

#[test]
fn test_modify_accounting_record() {
    let changed = modify_accounting_record(
        Some(record()),
        Changes {
            amount: Some(Decimal::new(20000, 2)),
            record_time: None,
            accounting_type: Some(AccountingType::Expenditure),
            title: Some("Updated Title".to_string()),
            remark: Some(Some("Updated remark".to_string())),
        },
    )
    .unwrap();
    assert_eq!(changed.id, 2023010100001);
    assert_eq!(changed.amount, Decimal::new(20000, 2));
    assert_eq!(changed.record_time, noon());
    assert_eq!(changed.accounting_type, AccountingType::Expenditure);
    assert_eq!(changed.title, "Updated Title");
    assert_eq!(changed.remark, Some("Updated remark".to_string()));
    assert_eq!(changed.channel, AccountingChannel::Cash);
    assert_eq!(changed.write_off_id, None);
    assert_eq!(changed.create_at, later());
    assert_eq!(changed.state, AccountingRecordState::PendingPosting);
}

#[test]
fn test_post_accounting_record() {
    let posted = post_accounting_record(Some(record())).unwrap();
    assert_eq!(posted.state, AccountingRecordState::Posted);
    assert_eq!(posted.id, 2023010100001);
    assert_eq!(posted.amount, Decimal::new(10000, 2));
    assert_eq!(posted.title, "Test Record");
    assert_eq!(posted.remark, Some("Test Remark".to_string()));
    assert_eq!(post_accounting_record(None).unwrap_err(), "Accounting record not found");
    // posting again is allowed and changes nothing
    let again = post_accounting_record(Some(posted)).unwrap();
    assert_eq!(again.state, AccountingRecordState::Posted);
}

#[test]
fn test_modify_accounting_record_state_check() {
    let posted = post_accounting_record(Some(record())).unwrap();
    assert_eq!(
        modify_accounting_record(Some(posted), no_changes()).unwrap_err(),
        "Only records with state PendingPosting can be modified"
    );
    assert_eq!(
        modify_accounting_record(None, no_changes()).unwrap_err(),
        "Accounting record not found"
    );
}

#[test]
fn a_change_without_fields_changes_nothing() {
    let changed = modify_accounting_record(Some(record()), no_changes()).unwrap();
    assert_eq!(changed.amount, Decimal::new(10000, 2));
    assert_eq!(changed.title, "Test Record");
    assert_eq!(changed.remark, Some("Test Remark".to_string()));
    assert_eq!(changed.accounting_type, AccountingType::Income);
}

#[test]
fn a_remark_can_be_cleared_and_a_time_set() {
    let changed = modify_accounting_record(
        Some(record()),
        Changes { remark: Some(None), record_time: Some(later()), ..no_changes() },
    )
    .unwrap();
    assert_eq!(changed.remark, None);
    assert_eq!(changed.record_time, later());
    assert_eq!(changed.title, "Test Record");
}

#[test]
fn a_record_is_filed_under_its_day_and_its_number() {
    assert_eq!(Model::generate_id(20230101, 1), Some(2023010100001));
    assert_eq!(Model::generate_id(20231231, 99999), Some(2023123199999));
    assert_eq!(Model::generate_id(20210101, 0), Some(2021010100000));
    assert_eq!(Model::generate_id(0, 7), Some(7));
    assert_eq!(Model::generate_id(1, 7), Some(100007));
}

#[test]
fn a_day_is_numbered_by_its_digits() {
    assert_eq!(DATE_FORMAT, "%Y%m%d");
    assert_eq!(FALLBACK_DATE, 20210101);
    assert_eq!(Model::date_number("20230101"), 20230101);
    assert_eq!(Model::date_number("00010101"), 10101);
    assert_eq!(Model::date_number("-20230101"), -20230101);
    assert_eq!(Model::date_number("+7"), 7);
    assert_eq!(Model::date_number("100000101"), 100000101);
    for text in ["", "2023-01-01", "99999999999", "20230101 ", "x"] {
        assert_eq!(Model::date_number(text), 20210101);
    }
    assert_eq!(date_or_fallback(Some(5)), 5);
    assert_eq!(date_or_fallback(None), 20210101);
}

#[test]
fn a_number_of_more_than_five_digits_takes_the_room_it_needs() {
    assert_eq!(Model::generate_id(20230101, 100000), Some(20230101100000));
    assert_eq!(Model::generate_id(20230101, 1234567), Some(202301011234567));
    assert_eq!(Model::generate_id(2023, 999999999), Some(2023999999999));
    assert_eq!(Model::generate_id(20230101, 999999999), Some(20230101999999999));
}

#[test]
fn a_number_that_is_no_id_is_refused() {
    assert_eq!(Model::generate_id(-1, 1), None);
    assert_eq!(Model::generate_id(20230101, -1), None);
    assert_eq!(Model::generate_id(i32::MAX, i32::MAX), None);
    assert_eq!(Model::generate_id(922337203, 2147483647), Some(9223372032147483647));
    assert_eq!(Model::generate_id(922337204, 2147483647), None);
}

#[test]
fn the_counter_of_a_day_starts_at_one() {
    assert_eq!(
        accounting_record_seq::Model::get_next_sequence(None, 20230101),
        Some(accounting_record_seq::Model { id: 20230101, seq: 1 })
    );
    assert_eq!(
        accounting_record_seq::Model::get_next_sequence(
            Some(accounting_record_seq::Model { id: 20230101, seq: 41 }),
            20230102
        ),
        Some(accounting_record_seq::Model { id: 20230101, seq: 42 })
    );
    assert_eq!(
        accounting_record_seq::Model::get_next_sequence(
            Some(accounting_record_seq::Model { id: 20230101, seq: i32::MAX }),
            20230101
        ),
        None
    );
}

fn submitted(amount: Option<Decimal>, time: &str, kind: &str, channel: &str) -> AddAccountingRecordDto {
    AddAccountingRecordDto {
        amount,
        record_time: time.to_string(),
        accounting_type: kind.to_string(),
        title: "t".to_string(),
        channel: channel.to_string(),
        remark: None,
        write_off_id: None,
    }
}

#[test]
fn what_is_submitted_for_a_new_record_is_read() {
    assert_eq!(RECORD_TIME_FORMAT, "%Y-%m-%d %H:%M:%S");
    let read = submitted(Some(Decimal::new(10000, 2)), "2023-01-01 12:00:00", "收入", "现金")
        .to_internal_types()
        .unwrap();
    assert_eq!(read.0, Decimal::new(10000, 2));
    assert_eq!(read.1, noon());
    assert_eq!(read.2, AccountingType::Income);
    assert_eq!(read.3, AccountingChannel::Cash);
}

#[test]
fn the_first_field_that_cannot_be_read_is_complained_about() {
    let amount = Some(Decimal::new(1, 0));
    assert_eq!(
        submitted(None, "nonsense", "x", "y").to_internal_types().unwrap_err(),
        "Invalid amount provided"
    );
    for time in ["nonsense", "2023-01-01", "2023-13-01 12:00:00", "2023-01-01T12:00:00", ""] {
        assert_eq!(
            submitted(amount, time, "x", "y").to_internal_types().unwrap_err(),
            "Invalid date format, expected YYYY-MM-DD HH:MM:SS"
        );
    }
    assert_eq!(
        submitted(amount, "2023-01-01 12:00:00", "Income", "y").to_internal_types().unwrap_err(),
        "Invalid accounting type"
    );
    assert_eq!(
        submitted(amount, "2023-01-01 12:00:00", "支出", "Cash").to_internal_types().unwrap_err(),
        "Invalid accounting channel"
    );
}

#[test]
fn the_check_of_a_new_record_follows_the_order_of_its_fields() {
    assert_eq!(check_add(false, false, "x", "y").unwrap_err(), "Invalid amount provided");
    assert_eq!(
        check_add(true, false, "x", "y").unwrap_err(),
        "Invalid date format, expected YYYY-MM-DD HH:MM:SS"
    );
    assert_eq!(check_add(true, true, "x", "y").unwrap_err(), "Invalid accounting type");
    assert_eq!(check_add(true, true, "投资亏损", "y").unwrap_err(), "Invalid accounting channel");
    assert_eq!(
        check_add(true, true, "投资亏损", "银行卡"),
        Ok((AccountingType::InvestmentLoss, AccountingChannel::BankCard))
    );
}

#[test]
fn what_is_submitted_for_a_change_is_read() {
    let dto = ModifyAccountingRecordDto {
        id: 1,
        amount: Some(Some(Decimal::new(20000, 2))),
        record_time: None,
        accounting_type: Some("支出".to_string()),
        title: Some("Updated Title".to_string()),
        remark: Some(Some("Updated remark".to_string())),
    };
    assert_eq!(
        dto.to_internal_types(),
        Ok((Some(Decimal::new(20000, 2)), None, Some(AccountingType::Expenditure)))
    );
    let dto = ModifyAccountingRecordDto {
        id: 1,
        amount: None,
        record_time: Some("2023-01-02 08:30:00".to_string()),
        accounting_type: None,
        title: None,
        remark: None,
    };
    assert_eq!(dto.to_internal_types(), Ok((None, Some(later()), None)));
}

#[test]
fn a_change_that_cannot_be_read_is_complained_about() {
    let dto = |amount, time: Option<&str>, kind: Option<&str>| ModifyAccountingRecordDto {
        id: 1,
        amount,
        record_time: time.map(|t| t.to_string()),
        accounting_type: kind.map(|k| k.to_string()),
        title: None,
        remark: None,
    };
    assert_eq!(
        dto(Some(None), Some("bad"), Some("bad")).to_internal_types().unwrap_err(),
        "Invalid amount provided"
    );
    assert_eq!(
        dto(None, Some("bad"), Some("bad")).to_internal_types().unwrap_err(),
        "Invalid date format, expected YYYY-MM-DD HH:MM:SS"
    );
    assert_eq!(
        dto(None, None, Some("bad")).to_internal_types().unwrap_err(),
        "Invalid accounting type"
    );
    assert_eq!(check_modify(true, true, &None), Ok(None));
    assert_eq!(
        check_modify(true, true, &Some("收入".to_string())),
        Ok(Some(AccountingType::Income))
    );
    assert_eq!(check_modify(false, true, &None).unwrap_err(), "Invalid amount provided");
}
