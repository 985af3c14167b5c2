use accounting_assistant::enums::{AccountingChannel, AccountingRecordState, AccountingType};
use std::str::FromStr;

#[test]
fn every_kind_has_its_name() {
    assert_eq!(AccountingType::Income.as_str(), "收入");
    assert_eq!(AccountingType::Expenditure.as_str(), "支出");
    assert_eq!(AccountingType::InvestmentIncome.as_str(), "投资收益");
    assert_eq!(AccountingType::InvestmentLoss.as_str(), "投资亏损");
}

#[test]
fn every_channel_has_its_name() {
    assert_eq!(AccountingChannel::Cash.as_str(), "现金");
    assert_eq!(AccountingChannel::AliPay.as_str(), "支付宝");
    assert_eq!(AccountingChannel::Wechat.as_str(), "微信");
    assert_eq!(AccountingChannel::BankCard.as_str(), "银行卡");
    assert_eq!(AccountingChannel::Unknown.as_str(), "未知");
}

#[test]
fn names_are_read_back() {
    for kind in AccountingType::all() {
        assert_eq!(AccountingType::from_str(kind.as_str()), Ok(kind));
        assert_eq!(kind.as_str().parse::<AccountingType>(), Ok(kind));
    }
    for channel in AccountingChannel::all() {
        assert_eq!(AccountingChannel::from_str(channel.as_str()), Ok(channel));
        assert_eq!(channel.as_str().parse::<AccountingChannel>(), Ok(channel));
    }
}

#[test]
fn other_texts_are_no_names() {
    for text in ["", "Income", "收", "收入 ", "现金", "income", "投资"] {
        assert_eq!(AccountingType::from_str(text), Err(()));
        assert_eq!(text.parse::<AccountingType>(), Err(()));
    }
    for text in ["", "Cash", "现", " 微信", "收入", "unknown"] {
        assert_eq!(AccountingChannel::from_str(text), Err(()));
        assert_eq!(text.parse::<AccountingChannel>(), Err(()));
    }
}

#[test]
fn kinds_and_channels_are_displayed_by_their_identifiers() {
    assert_eq!(AccountingType::Income.to_string(), "Income");
    assert_eq!(AccountingType::Expenditure.to_string(), "Expenditure");
    assert_eq!(AccountingType::InvestmentIncome.to_string(), "InvestmentIncome");
    assert_eq!(AccountingType::InvestmentLoss.to_string(), "InvestmentLoss");
    assert_eq!(AccountingChannel::Cash.to_string(), "Cash");
    assert_eq!(AccountingChannel::AliPay.to_string(), "AliPay");
    assert_eq!(AccountingChannel::Wechat.to_string(), "Wechat");
    assert_eq!(AccountingChannel::BankCard.to_string(), "BankCard");
    assert_eq!(AccountingChannel::Unknown.to_string(), "Unknown");
}

#[test]
fn the_vocabularies_are_closed() {
    assert_eq!(
        AccountingType::all(),
        vec![
            AccountingType::Income,
            AccountingType::Expenditure,
            AccountingType::InvestmentIncome,
            AccountingType::InvestmentLoss
        ]
    );
    assert_eq!(AccountingChannel::all().len(), 5);
    assert_eq!(AccountingChannel::all()[4], AccountingChannel::Unknown);
}

#[test]
fn only_a_record_that_awaits_posting_is_open() {
    assert!(AccountingRecordState::PendingPosting.is_open());
    assert!(!AccountingRecordState::Posted.is_open());
}

#[test]
fn parsing_goes_by_the_same_names() {
    assert_eq!(<AccountingType as FromStr>::from_str("投资收益"), Ok(AccountingType::InvestmentIncome));
    assert_eq!(<AccountingType as FromStr>::from_str("投资"), Err(()));
    assert_eq!(<AccountingChannel as FromStr>::from_str("银行卡"), Ok(AccountingChannel::BankCard));
    assert_eq!(<AccountingChannel as FromStr>::from_str("银行"), Err(()));
}
