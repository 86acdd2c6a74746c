//! Coins and coin pairs. A coin is one of the currencies the exchange
//! lists, or an unknown one carried by name; a pair is written
//! `left/right` in requests.

use vstd::prelude::*;

verus! {

use vstd::string::StringExecFns;

/// A currency known to the exchange, or any other one by name.
pub enum Coin {
    BTC,
    LTC,
    BCH,
    XRP,
    BTG,
    ETH,
    TRX,
    DASH,
    USDT,
    TON,
    Unknown(String),
}

impl Coin {
    /// The lowercase wire name of the coin.
    pub open spec fn spec_name(&self) -> Seq<char> {
        match self {
            Coin::BTC => "btc"@,
            Coin::LTC => "ltc"@,
            Coin::BCH => "bch"@,
            Coin::XRP => "xrp"@,
            Coin::BTG => "btg"@,
            Coin::ETH => "eth"@,
            Coin::TRX => "trx"@,
            Coin::DASH => "dash"@,
            Coin::USDT => "usdt"@,
            Coin::TON => "ton_crystal"@,
            Coin::Unknown(name) => name@,
        }
    }

    /// True when the name is one the exchange lists.
    pub open spec fn is_known_name(s: Seq<char>) -> bool {
        s == "btc"@ || s == "ltc"@ || s == "bch"@ || s == "xrp"@ || s == "btg"@ || s == "eth"@
            || s == "trx"@ || s == "dash"@ || s == "usdt"@ || s == "ton_crystal"@
    }

    /// The listed coin with the given name.
    pub open spec fn known_coin(s: Seq<char>) -> Coin {
        if s == "btc"@ {
            Coin::BTC
        } else if s == "ltc"@ {
            Coin::LTC
        } else if s == "bch"@ {
            Coin::BCH
        } else if s == "xrp"@ {
            Coin::XRP
        } else if s == "btg"@ {
            Coin::BTG
        } else if s == "eth"@ {
            Coin::ETH
        } else if s == "trx"@ {
            Coin::TRX
        } else if s == "dash"@ {
            Coin::DASH
        } else if s == "usdt"@ {
            Coin::USDT
        } else {
            Coin::TON
        }
    }

    /// The wire name of the coin.
    pub fn get_name(&self) -> (r: &str)
        ensures
            r@ == self.spec_name(),
    {
        match self {
            Coin::BTC => "btc",
            Coin::LTC => "ltc",
            Coin::BCH => "bch",
            Coin::XRP => "xrp",
            Coin::BTG => "btg",
            Coin::ETH => "eth",
            Coin::TRX => "trx",
            Coin::DASH => "dash",
            Coin::USDT => "usdt",
            Coin::TON => "ton_crystal",
            Coin::Unknown(name) => name.as_str(),
        }
    }

    /// The coin for a wire name: a listed coin when the name matches one,
    /// and the name carried as unknown otherwise. Either way the result
    /// keeps the given name.
    pub fn from_name(name: &str) -> (r: Coin)
        ensures
            Coin::is_known_name(name@) ==> r == Coin::known_coin(name@),
            !Coin::is_known_name(name@) ==> (r matches Coin::Unknown(s) && s@ == name@),
            r.spec_name() == name@,
    {
        if crate::textfmt::str_eq(name, "btc") {
            Coin::BTC
        } else if crate::textfmt::str_eq(name, "ltc") {
            Coin::LTC
        } else if crate::textfmt::str_eq(name, "bch") {
            Coin::BCH
        } else if crate::textfmt::str_eq(name, "xrp") {
            Coin::XRP
        } else if crate::textfmt::str_eq(name, "btg") {
            Coin::BTG
        } else if crate::textfmt::str_eq(name, "eth") {
            Coin::ETH
        } else if crate::textfmt::str_eq(name, "trx") {
            Coin::TRX
        } else if crate::textfmt::str_eq(name, "dash") {
            Coin::DASH
        } else if crate::textfmt::str_eq(name, "usdt") {
            Coin::USDT
        } else if crate::textfmt::str_eq(name, "ton_crystal") {
            Coin::TON
        } else {
            Coin::Unknown(name.to_owned())
        }
    }

    /// The wire name as an owned string.
    pub fn to_name(&self) -> (r: String)
        ensures
            r@ == self.spec_name(),
    {
        self.get_name().to_owned()
    }
}

impl Clone for Coin {
    fn clone(&self) -> (r: Self)
        ensures
            r == *self,
    {
        match self {
            Coin::BTC => Coin::BTC,
            Coin::LTC => Coin::LTC,
            Coin::BCH => Coin::BCH,
            Coin::XRP => Coin::XRP,
            Coin::BTG => Coin::BTG,
            Coin::ETH => Coin::ETH,
            Coin::TRX => Coin::TRX,
            Coin::DASH => Coin::DASH,
            Coin::USDT => Coin::USDT,
            Coin::TON => Coin::TON,
            Coin::Unknown(name) => Coin::Unknown(name.clone()),
        }
    }
}

/// An ordered pair of coins, written `left/right` on the wire.
pub struct CoinPair {
    pub left: Coin,
    pub right: Coin,
}

impl CoinPair {
    /// The wire form of the pair.
    pub open spec fn spec_code(&self) -> Seq<char> {
        self.left.spec_name() + "/"@ + self.right.spec_name()
    }

    pub fn new(left: Coin, right: Coin) -> (r: CoinPair)
        ensures
            r.left == left,
            r.right == right,
    {
        CoinPair { left, right }
    }

    /// The same pair with the sides swapped.
    pub fn reversed(&self) -> (r: CoinPair)
        ensures
            r.left == self.right,
            r.right == self.left,
    {
        CoinPair::new(self.right.clone(), self.left.clone())
    }

    /// Renders the pair as `left/right`.
    pub fn code(&self) -> (r: String)
        ensures
            r@ == self.spec_code(),
    {
        let mut out = self.left.to_name();
        out.append("/");
        out.append(self.right.get_name());
        out
    }
}

impl Clone for CoinPair {
    fn clone(&self) -> (r: Self)
        ensures
            r == *self,
    {
        CoinPair { left: self.left.clone(), right: self.right.clone() }
    }
}

} // verus!
