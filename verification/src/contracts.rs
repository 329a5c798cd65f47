//! Contract descriptors: plain values that name the instrument a request is
//! about.

use vstd::prelude::*;
use vstd::string::StringExecFns;

use crate::fields::bool_text;
use crate::fields::decimal_text;
use crate::fields::ToField;
use crate::messages::RequestMessage;

verus! {

/// The kind of instrument.
#[derive(Debug, Clone, Copy, PartialEq, Eq, Structural)]
pub enum SecurityType {
    Stock,
    Option,
    Future,
    Index,
    FuturesOption,
    ForexPair,
    /// A combination of several legs, traded as one instrument.
    Spread,
    Warrant,
    Bond,
    Commodity,
    News,
    MutualFund,
    Crypto,
    ContractForDifference,
}

impl ToField for SecurityType {
    open spec fn field_text(&self) -> Seq<char> {
        match self {
            SecurityType::Stock => "STK"@,
            SecurityType::Option => "OPT"@,
            SecurityType::Future => "FUT"@,
            SecurityType::Index => "IND"@,
            SecurityType::FuturesOption => "FOP"@,
            SecurityType::ForexPair => "CASH"@,
            SecurityType::Spread => "BAG"@,
            SecurityType::Warrant => "WAR"@,
            SecurityType::Bond => "BOND"@,
            SecurityType::Commodity => "CMDTY"@,
            SecurityType::News => "NEWS"@,
            SecurityType::MutualFund => "FUND"@,
            SecurityType::Crypto => "CRYPTO"@,
            SecurityType::ContractForDifference => "CFD"@,
        }
    }

    fn to_field(&self) -> (text: String) {
        match self {
            SecurityType::Stock => String::from_str("STK"),
            SecurityType::Option => String::from_str("OPT"),
            SecurityType::Future => String::from_str("FUT"),
            SecurityType::Index => String::from_str("IND"),
            SecurityType::FuturesOption => String::from_str("FOP"),
            SecurityType::ForexPair => String::from_str("CASH"),
            SecurityType::Spread => String::from_str("BAG"),
            SecurityType::Warrant => String::from_str("WAR"),
            SecurityType::Bond => String::from_str("BOND"),
            SecurityType::Commodity => String::from_str("CMDTY"),
            SecurityType::News => String::from_str("NEWS"),
            SecurityType::MutualFund => String::from_str("FUND"),
            SecurityType::Crypto => String::from_str("CRYPTO"),
            SecurityType::ContractForDifference => String::from_str("CFD"),
        }
    }
}

/// One leg of a combination.
#[derive(Debug, Clone)]
pub struct ComboLeg {
    /// The contract id of the leg's instrument.
    pub contract_id: i32,
    /// The relative number of contracts of this leg.
    pub ratio: i32,
    /// The side of the leg: `BUY` or `SELL`.
    pub action: String,
    /// The exchange the leg is routed to.
    pub exchange: String,
}

/// A tag with its value, as used in option lists.
#[derive(Debug, Clone)]
pub struct TagValue {
    pub tag: String,
    pub value: String,
}

/// The text of an option list: for each entry its tag, `=`, its value and
/// `;`. An empty list is the empty text.
pub open spec fn tag_values_text(options: Seq<TagValue>) -> Seq<char>
    decreases options.len(),
{
    if options.len() == 0 {
        Seq::empty()
    } else {
        tag_values_text(options.drop_last()) + options.last().tag@ + seq!['='] + options.last().value@
            + seq![';']
    }
}

impl ToField for Vec<TagValue> {
    open spec fn field_text(&self) -> Seq<char> {
        tag_values_text(self@)
    }

    fn to_field(&self) -> (text: String) {
        let mut text = String::new();
        let mut i: usize = 0;
        proof {
            reveal_strlit("=");
            reveal_strlit(";");
            assert(self@.take(0) =~= Seq::<TagValue>::empty());
        }
        while i < self.len()
            invariant
                i <= self.len(),
                "="@ == seq!['='],
                ";"@ == seq![';'],
                text@ == tag_values_text(self@.take(i as int)),
            decreases self.len() - i,
        {
            proof {
                let grown = self@.take(i + 1);
                assert(grown.drop_last() =~= self@.take(i as int));
                assert(grown.last() == self@[i as int]);
            }
            text.append(self[i].tag.as_str());
            text.append("=");
            text.append(self[i].value.as_str());
            text.append(";");
            i += 1;
            assert(text@ =~= tag_values_text(self@.take(i as int)));
        }
        assert(self@.take(i as int) =~= self@);
        text
    }
}

/// The description of an instrument.
#[derive(Debug, Clone)]
pub struct Contract {
    /// The server's identifier of the contract; 0 where it is not known.
    pub contract_id: i32,
    pub symbol: String,
    pub security_type: SecurityType,
    /// The expiry, as `YYYYMM` or `YYYYMMDD`; empty where there is none.
    pub last_trade_date_or_contract_month: String,
    /// The strike price as decimal text, `0` where there is none.
    pub strike: String,
    /// `P` or `C` for an option; empty otherwise.
    pub right: String,
    pub multiplier: String,
    pub exchange: String,
    pub currency: String,
    pub local_symbol: String,
    pub primary_exchange: String,
    pub trading_class: String,
    pub include_expired: bool,
    /// The legs of a combination; read only where the contract is one.
    pub combo_legs: Vec<ComboLeg>,
}

impl Default for Contract {
    fn default() -> (contract: Contract)
        ensures
            contract.contract_id == 0,
            contract.symbol@ == ""@,
            contract.security_type == SecurityType::Stock,
            contract.last_trade_date_or_contract_month@ == ""@,
            contract.strike@ == "0"@,
            contract.right@ == ""@,
            contract.multiplier@ == ""@,
            contract.exchange@ == ""@,
            contract.currency@ == ""@,
            contract.local_symbol@ == ""@,
            contract.primary_exchange@ == ""@,
            contract.trading_class@ == ""@,
            !contract.include_expired,
            contract.combo_legs@.len() == 0,
    {
        Contract {
            contract_id: 0,
            symbol: String::from_str(""),
            security_type: SecurityType::Stock,
            last_trade_date_or_contract_month: String::from_str(""),
            strike: String::from_str("0"),
            right: String::from_str(""),
            multiplier: String::from_str(""),
            exchange: String::from_str(""),
            currency: String::from_str(""),
            local_symbol: String::from_str(""),
            primary_exchange: String::from_str(""),
            trading_class: String::from_str(""),
            include_expired: false,
            combo_legs: Vec::new(),
        }
    }
}

/// The fields that describe a contract in a request, in wire order.
pub open spec fn contract_fields(contract: &Contract) -> Seq<Seq<char>> {
    seq![
        decimal_text(contract.contract_id as int),
        contract.symbol@,
        contract.security_type.field_text(),
        contract.last_trade_date_or_contract_month@,
        contract.strike@,
        contract.right@,
        contract.multiplier@,
        contract.exchange@,
        contract.primary_exchange@,
        contract.currency@,
        contract.local_symbol@,
        contract.trading_class@,
        bool_text(contract.include_expired),
    ]
}

impl Contract {
    /// A stock with the given symbol, routed by `SMART` and priced in `USD`.
    pub fn stock(symbol: &str) -> (contract: Contract)
        ensures
            contract.contract_id == 0,
            contract.symbol@ == symbol@,
            contract.security_type == SecurityType::Stock,
            contract.last_trade_date_or_contract_month@ == ""@,
            contract.strike@ == "0"@,
            contract.right@ == ""@,
            contract.multiplier@ == ""@,
            contract.exchange@ == "SMART"@,
            contract.currency@ == "USD"@,
            contract.local_symbol@ == ""@,
            contract.primary_exchange@ == ""@,
            contract.trading_class@ == ""@,
            !contract.include_expired,
            contract.combo_legs@.len() == 0,
    {
        let mut contract = Contract::default();
        contract.symbol = String::from_str(symbol);
        contract.exchange = String::from_str("SMART");
        contract.currency = String::from_str("USD");
        contract
    }

    /// Whether the contract is a combination of legs.
    pub open spec fn spec_is_bag(&self) -> bool {
        self.security_type == SecurityType::Spread
    }

    /// Whether the contract is a combination of legs.
    #[verifier::when_used_as_spec(spec_is_bag)]
    pub fn is_bag(&self) -> (bag: bool)
        ensures
            bag == self.spec_is_bag(),
    {
        self.security_type == SecurityType::Spread
    }

    /// Appends the fields that describe the contract to `message`.
    pub fn push_fields(&self, message: &mut RequestMessage)
        ensures
            final(message)@ == old(message)@ + contract_fields(self),
    {
        message.push_field(&self.contract_id);
        message.push_field(&self.symbol);
        message.push_field(&self.security_type);
        message.push_field(&self.last_trade_date_or_contract_month);
        message.push_field(&self.strike);
        message.push_field(&self.right);
        message.push_field(&self.multiplier);
        message.push_field(&self.exchange);
        message.push_field(&self.primary_exchange);
        message.push_field(&self.currency);
        message.push_field(&self.local_symbol);
        message.push_field(&self.trading_class);
        message.push_field(&self.include_expired);
        assert(message@ =~= old(message)@ + contract_fields(self));
    }
}

} // verus!
