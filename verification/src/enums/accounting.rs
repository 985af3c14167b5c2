//! The kinds of a ledger record, the channels of payment, and a record's state.
//!
//! A kind and a channel are stored and exchanged under a fixed name each.

use vstd::prelude::*;
use vstd::string::StringExecFns;
use crate::text::same_text;

verus! {

/// The kind of a ledger record.
#[derive(Debug, Clone, Copy, PartialEq, Eq, Structural)]
pub enum AccountingType {
    Income,
    Expenditure,
    InvestmentIncome,
    InvestmentLoss,
}

/// The channel through which a payment went.
#[derive(Debug, Clone, Copy, PartialEq, Eq, Structural)]
pub enum AccountingChannel {
    Cash,
    AliPay,
    Wechat,
    BankCard,
    Unknown,
}

/// The state of a ledger record: open to changes until it is posted.
#[derive(Debug, Clone, Copy, PartialEq, Eq, Structural)]
pub enum AccountingRecordState {
    PendingPosting,
    Posted,
}

impl AccountingType {
    /// The name under which a kind is stored.
    pub open spec fn name(self) -> Seq<char> {
        match self {
            AccountingType::Income => "收入"@,
            AccountingType::Expenditure => "支出"@,
            AccountingType::InvestmentIncome => "投资收益"@,
            AccountingType::InvestmentLoss => "投资亏损"@,
        }
    }

    /// The kind that a name stands for.
    pub open spec fn named(name: Seq<char>) -> Option<AccountingType> {
        if name == "收入"@ {
            Some(AccountingType::Income)
        } else if name == "支出"@ {
            Some(AccountingType::Expenditure)
        } else if name == "投资收益"@ {
            Some(AccountingType::InvestmentIncome)
        } else if name == "投资亏损"@ {
            Some(AccountingType::InvestmentLoss)
        } else {
            None
        }
    }

    /// The identifier of a kind, as it is displayed.
    pub open spec fn label(self) -> Seq<char> {
        match self {
            AccountingType::Income => "Income"@,
            AccountingType::Expenditure => "Expenditure"@,
            AccountingType::InvestmentIncome => "InvestmentIncome"@,
            AccountingType::InvestmentLoss => "InvestmentLoss"@,
        }
    }

    /// The name under which the kind is stored.
    pub fn as_str(&self) -> (name: &'static str)
        ensures
            name@ == self.name(),
    {
        match self {
            AccountingType::Income => "收入",
            AccountingType::Expenditure => "支出",
            AccountingType::InvestmentIncome => "投资收益",
            AccountingType::InvestmentLoss => "投资亏损",
        }
    }

    /// The kind that a name stands for; a text that is no kind's name is refused.
    pub fn from_str(s: &str) -> (kind: Result<Self, ()>)
        ensures
            kind == match Self::named(s@) {
                Some(kind) => Ok::<Self, ()>(kind),
                None => Err::<Self, ()>(()),
            },
    {
        if same_text(s, "收入") {
            Ok(AccountingType::Income)
        } else if same_text(s, "支出") {
            Ok(AccountingType::Expenditure)
        } else if same_text(s, "投资收益") {
            Ok(AccountingType::InvestmentIncome)
        } else if same_text(s, "投资亏损") {
            Ok(AccountingType::InvestmentLoss)
        } else {
            Err(())
        }
    }

    /// The identifier of the kind, as it is displayed.
    pub fn to_string(&self) -> (label: String)
        ensures
            label@ == self.label(),
    {
        match self {
            AccountingType::Income => String::from_str("Income"),
            AccountingType::Expenditure => String::from_str("Expenditure"),
            AccountingType::InvestmentIncome => String::from_str("InvestmentIncome"),
            AccountingType::InvestmentLoss => String::from_str("InvestmentLoss"),
        }
    }

    /// Every kind, in the order of declaration.
    pub fn all() -> (kinds: Vec<Self>)
        ensures
            kinds@ == seq![
                AccountingType::Income,
                AccountingType::Expenditure,
                AccountingType::InvestmentIncome,
                AccountingType::InvestmentLoss,
            ],
    {
        let mut kinds = Vec::new();
        kinds.push(AccountingType::Income);
        kinds.push(AccountingType::Expenditure);
        kinds.push(AccountingType::InvestmentIncome);
        kinds.push(AccountingType::InvestmentLoss);
        assert(kinds@ =~= seq![
            AccountingType::Income,
            AccountingType::Expenditure,
            AccountingType::InvestmentIncome,
            AccountingType::InvestmentLoss,
        ]);
        kinds
    }
}

impl std::str::FromStr for AccountingType {
    type Err = ();

    /// The kind that a name stands for; a text that is no kind's name is refused.
    fn from_str(s: &str) -> (kind: Result<Self, ()>)
        ensures
            kind == match AccountingType::named(s@) {
                Some(kind) => Ok::<Self, ()>(kind),
                None => Err::<Self, ()>(()),
            },
    {
        AccountingType::from_str(s)
    }
}

impl AccountingChannel {
    /// The name under which a channel is stored.
    pub open spec fn name(self) -> Seq<char> {
        match self {
            AccountingChannel::Cash => "现金"@,
            AccountingChannel::AliPay => "支付宝"@,
            AccountingChannel::Wechat => "微信"@,
            AccountingChannel::BankCard => "银行卡"@,
            AccountingChannel::Unknown => "未知"@,
        }
    }

    /// The channel that a name stands for.
    pub open spec fn named(name: Seq<char>) -> Option<AccountingChannel> {
        if name == "现金"@ {
            Some(AccountingChannel::Cash)
        } else if name == "支付宝"@ {
            Some(AccountingChannel::AliPay)
        } else if name == "微信"@ {
            Some(AccountingChannel::Wechat)
        } else if name == "银行卡"@ {
            Some(AccountingChannel::BankCard)
        } else if name == "未知"@ {
            Some(AccountingChannel::Unknown)
        } else {
            None
        }
    }

    /// The identifier of a channel, as it is displayed.
    pub open spec fn label(self) -> Seq<char> {
        match self {
            AccountingChannel::Cash => "Cash"@,
            AccountingChannel::AliPay => "AliPay"@,
            AccountingChannel::Wechat => "Wechat"@,
            AccountingChannel::BankCard => "BankCard"@,
            AccountingChannel::Unknown => "Unknown"@,
        }
    }

    /// The name under which the channel is stored.
    pub fn as_str(&self) -> (name: &'static str)
        ensures
            name@ == self.name(),
    {
        match self {
            AccountingChannel::Cash => "现金",
            AccountingChannel::AliPay => "支付宝",
            AccountingChannel::Wechat => "微信",
            AccountingChannel::BankCard => "银行卡",
            AccountingChannel::Unknown => "未知",
        }
    }

    /// The channel that a name stands for; a text that is no channel's name is refused.
    pub fn from_str(s: &str) -> (channel: Result<Self, ()>)
        ensures
            channel == match Self::named(s@) {
                Some(channel) => Ok::<Self, ()>(channel),
                None => Err::<Self, ()>(()),
            },
    {
        if same_text(s, "现金") {
            Ok(AccountingChannel::Cash)
        } else if same_text(s, "支付宝") {
            Ok(AccountingChannel::AliPay)
        } else if same_text(s, "微信") {
            Ok(AccountingChannel::Wechat)
        } else if same_text(s, "银行卡") {
            Ok(AccountingChannel::BankCard)
        } else if same_text(s, "未知") {
            Ok(AccountingChannel::Unknown)
        } else {
            Err(())
        }
    }

    /// The identifier of the channel, as it is displayed.
    pub fn to_string(&self) -> (label: String)
        ensures
            label@ == self.label(),
    {
        match self {
            AccountingChannel::Cash => String::from_str("Cash"),
            AccountingChannel::AliPay => String::from_str("AliPay"),
            AccountingChannel::Wechat => String::from_str("Wechat"),
            AccountingChannel::BankCard => String::from_str("BankCard"),
            AccountingChannel::Unknown => String::from_str("Unknown"),
        }
    }

    /// Every channel, in the order of declaration.
    pub fn all() -> (channels: Vec<Self>)
        ensures
            channels@ == seq![
                AccountingChannel::Cash,
                AccountingChannel::AliPay,
                AccountingChannel::Wechat,
                AccountingChannel::BankCard,
                AccountingChannel::Unknown,
            ],
    {
        let mut channels = Vec::new();
        channels.push(AccountingChannel::Cash);
        channels.push(AccountingChannel::AliPay);
        channels.push(AccountingChannel::Wechat);
        channels.push(AccountingChannel::BankCard);
        channels.push(AccountingChannel::Unknown);
        assert(channels@ =~= seq![
            AccountingChannel::Cash,
            AccountingChannel::AliPay,
            AccountingChannel::Wechat,
            AccountingChannel::BankCard,
            AccountingChannel::Unknown,
        ]);
        channels
    }
}

impl std::str::FromStr for AccountingChannel {
    type Err = ();

    /// The channel that a name stands for; a text that is no channel's name is refused.
    fn from_str(s: &str) -> (channel: Result<Self, ()>)
        ensures
            channel == match AccountingChannel::named(s@) {
                Some(channel) => Ok::<Self, ()>(channel),
                None => Err::<Self, ()>(()),
            },
    {
        AccountingChannel::from_str(s)
    }
}

impl AccountingRecordState {
    /// The name under which a state is stored.
    pub open spec fn name(self) -> Seq<char> {
        match self {
            AccountingRecordState::PendingPosting => "PendingPosting"@,
            AccountingRecordState::Posted => "Posted"@,
        }
    }

    /// The state that a name stands for.
    pub open spec fn named(name: Seq<char>) -> Option<AccountingRecordState> {
        if name == "PendingPosting"@ {
            Some(AccountingRecordState::PendingPosting)
        } else if name == "Posted"@ {
            Some(AccountingRecordState::Posted)
        } else {
            None
        }
    }

    /// The name under which the state is stored.
    pub fn as_str(&self) -> (name: &'static str)
        ensures
            name@ == self.name(),
    {
        match self {
            AccountingRecordState::PendingPosting => "PendingPosting",
            AccountingRecordState::Posted => "Posted",
        }
    }

    /// The state that a name stands for; a text that is no state's name is refused.
    pub fn from_str(s: &str) -> (state: Result<Self, ()>)
        ensures
            state == match Self::named(s@) {
                Some(state) => Ok::<Self, ()>(state),
                None => Err::<Self, ()>(()),
            },
    {
        if same_text(s, "PendingPosting") {
            Ok(AccountingRecordState::PendingPosting)
        } else if same_text(s, "Posted") {
            Ok(AccountingRecordState::Posted)
        } else {
            Err(())
        }
    }

    /// Whether a record in this state may still be changed.
    pub fn is_open(&self) -> (open: bool)
        ensures
            open == (*self == AccountingRecordState::PendingPosting),
    {
        match self {
            AccountingRecordState::PendingPosting => true,
            AccountingRecordState::Posted => false,
        }
    }
}

/// The name of a kind stands for that kind and for no other.
pub proof fn lemma_type_name_round_trip(kind: AccountingType)
    ensures
        AccountingType::named(kind.name()) == Some(kind),
{
    reveal_strlit("收入");
    reveal_strlit("支出");
    reveal_strlit("投资收益");
    reveal_strlit("投资亏损");
    assert("收入"@[0] != "支出"@[0]);
    assert("投资收益"@[2] != "投资亏损"@[2]);
}

/// A text that stands for a kind is that kind's name.
pub proof fn lemma_type_named_is_name(name: Seq<char>)
    ensures
        AccountingType::named(name) matches Some(kind) ==> kind.name() == name,
{
}

/// The name of a state stands for that state and for no other.
pub proof fn lemma_state_name_round_trip(state: AccountingRecordState)
    ensures
        AccountingRecordState::named(state.name()) == Some(state),
{
    reveal_strlit("PendingPosting");
    reveal_strlit("Posted");
    assert("PendingPosting"@.len() != "Posted"@.len());
}

/// The name of a channel stands for that channel and for no other.
pub proof fn lemma_channel_name_round_trip(channel: AccountingChannel)
    ensures
        AccountingChannel::named(channel.name()) == Some(channel),
{
    reveal_strlit("现金");
    reveal_strlit("支付宝");
    reveal_strlit("微信");
    reveal_strlit("银行卡");
    reveal_strlit("未知");
    assert("现金"@[0] != "微信"@[0]);
    assert("现金"@[0] != "未知"@[0]);
    assert("微信"@[0] != "未知"@[0]);
    assert("支付宝"@[0] != "银行卡"@[0]);
}

/// A text that stands for a channel is that channel's name.
pub proof fn lemma_channel_named_is_name(name: Seq<char>)
    ensures
        AccountingChannel::named(name) matches Some(channel) ==> channel.name() == name,
{
}

} // verus!
