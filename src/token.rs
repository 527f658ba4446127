use vstd::prelude::*;

use crate::error::AmmError;
use crate::util::{amount_to_canonical_amount, canonical, valid_decimal, MAX_DECIMAL, MIN_DECIMAL};

verus! {

/// What the pool shows of one token. The ratio compares the token's canonical reserve with
/// the first token's as an exact fraction `ratio_numerator / ratio_denominator`, so the first
/// token's ratio is always 1.
pub struct TokenMetadata {
    pub address: String,
    pub name: String,
    pub ticker: String,
    pub decimal: u8,
    pub ratio_numerator: u128,
    pub ratio_denominator: u128,
}

impl TokenMetadata {
    /// Whether this shows token `t`, with ratio `numerator / denominator`.
    pub open spec fn shows(self, t: TokenView, numerator: int, denominator: int) -> bool {
        &&& self.address@ == t.address
        &&& Some(self.name@) == t.name
        &&& Some(self.ticker@) == t.ticker
        &&& Some(self.decimal) == t.decimal
        &&& self.ratio_numerator == numerator
        &&& self.ratio_denominator == denominator
    }
}

/// One of the pool's two tokens: its account, its metadata once the token contract has
/// answered, and the raw reserve the pool holds of it.
pub struct Token {
    address: String,
    name: Option<String>,
    ticker: Option<String>,
    decimal: Option<u8>,
    balance: u128,
}

/// The mathematical model of a [`Token`].
pub struct TokenView {
    pub address: Seq<char>,
    pub name: Option<Seq<char>>,
    pub ticker: Option<Seq<char>>,
    pub decimal: Option<u8>,
    pub balance: u128,
}

impl TokenView {
    /// Name, ticker and decimal arrive together, and a known decimal is one the pool accepts.
    pub open spec fn wf(self) -> bool {
        &&& self.name is Some <==> self.decimal is Some
        &&& self.ticker is Some <==> self.decimal is Some
        &&& self.decimal is Some ==> valid_decimal(self.decimal->0)
    }

    /// Whether the token's metadata has arrived.
    pub open spec fn has_metadata(self) -> bool {
        self.decimal is Some
    }

    /// The reserve on the canonical scale; meaningful once the decimal is known.
    pub open spec fn canonical_balance(self) -> int {
        canonical(self.balance as int, self.decimal->0)
    }

    /// The same token with another reserve.
    pub open spec fn with_balance(self, balance: u128) -> TokenView {
        TokenView { balance, ..self }
    }
}

impl View for Token {
    type V = TokenView;

    closed spec fn view(&self) -> TokenView {
        TokenView {
            address: self.address@,
            name: self.name.deep_view(),
            ticker: self.ticker.deep_view(),
            decimal: self.decimal,
            balance: self.balance,
        }
    }
}

impl Token {
    /// A token of account `address`, with no metadata and an empty reserve.
    pub fn new(address: String) -> (r: Token)
        ensures
            r@ == (TokenView {
                address: address@,
                name: None,
                ticker: None,
                decimal: None,
                balance: 0,
            }),
    {
        Token { address, name: None, ticker: None, decimal: None, balance: 0 }
    }

    /// A token rebuilt from its stored parts: account, metadata if known, reserve. Refused for
    /// a decimal outside `[MIN_DECIMAL, MAX_DECIMAL]`.
    pub fn restore(address: String, metadata: Option<(String, String, u8)>, balance: u128) -> (r:
        Result<Token, AmmError>)
        ensures
            match metadata.deep_view() {
                None => r is Ok && r->Ok_0@ == (TokenView {
                    address: address@,
                    name: None,
                    ticker: None,
                    decimal: None,
                    balance,
                }),
                Some((name, ticker, decimal)) => if valid_decimal(decimal) {
                    r is Ok && r->Ok_0@ == (TokenView {
                        address: address@,
                        name: Some(name),
                        ticker: Some(ticker),
                        decimal: Some(decimal),
                        balance,
                    })
                } else {
                    r is Err && r->Err_0 == AmmError::InvalidTokenDecimal
                },
            },
            r is Ok ==> r->Ok_0@.wf(),
    {
        let mut token = Token { address, name: None, ticker: None, decimal: None, balance };
        match metadata {
            Some((name, ticker, decimal)) => match token.set_metadata(name, ticker, decimal) {
                Ok(()) => Ok(token),
                Err(e) => Err(e),
            },
            None => Ok(token),
        }
    }

    /// Whether the token satisfies its invariant.
    pub fn is_well_formed(&self) -> (r: bool)
        ensures
            r == self@.wf(),
    {
        let known = self.decimal.is_some();
        self.name.is_some() == known && self.ticker.is_some() == known && match self.decimal {
            Some(d) => MIN_DECIMAL <= d && d <= MAX_DECIMAL,
            None => true,
        }
    }

    /// Records the token's metadata; a later call overwrites an earlier one. A decimal outside
    /// `[MIN_DECIMAL, MAX_DECIMAL]` is refused.
    pub fn set_metadata(&mut self, name: String, ticker: String, decimal: u8) -> (r: Result<
        (),
        AmmError,
    >)
        requires
            old(self)@.wf(),
        ensures
            final(self)@.wf(),
            valid_decimal(decimal) ==> r is Ok && final(self)@ == (TokenView {
                name: Some(name@),
                ticker: Some(ticker@),
                decimal: Some(decimal),
                ..old(self)@
            }),
            !valid_decimal(decimal) ==> r == Err::<(), AmmError>(AmmError::InvalidTokenDecimal)
                && final(self)@ == old(self)@,
    {
        if decimal < MIN_DECIMAL || decimal > MAX_DECIMAL {
            return Err(AmmError::InvalidTokenDecimal);
        }
        self.name = Some(name);
        self.ticker = Some(ticker);
        self.decimal = Some(decimal);
        Ok(())
    }

    /// The token's metadata, with a ratio of 1; refused until all of it has arrived.
    pub fn get_metadata(&self) -> (r: Result<TokenMetadata, AmmError>)
        ensures
            (self@.name is Some && self@.ticker is Some && self@.decimal is Some) <==> r is Ok,
            r is Err ==> r == Err::<TokenMetadata, AmmError>(AmmError::TokenMetadataNotInitialised),
            r is Ok ==> {
                let m = r->Ok_0;
                &&& m.address@ == self@.address
                &&& Some(m.name@) == self@.name
                &&& Some(m.ticker@) == self@.ticker
                &&& Some(m.decimal) == self@.decimal
                &&& m.ratio_numerator == 1
                &&& m.ratio_denominator == 1
            },
    {
        let name = match &self.name {
            Some(n) => n.clone(),
            None => return Err(AmmError::TokenMetadataNotInitialised),
        };
        let ticker = match &self.ticker {
            Some(t) => t.clone(),
            None => return Err(AmmError::TokenMetadataNotInitialised),
        };
        let decimal = match self.decimal {
            Some(d) => d,
            None => return Err(AmmError::TokenMetadataNotInitialised),
        };
        Ok(
            TokenMetadata {
                address: self.address.clone(),
                name,
                ticker,
                decimal,
                ratio_numerator: 1,
                ratio_denominator: 1,
            },
        )
    }

    /// The token's account.
    pub fn get_address(&self) -> (r: &String)
        ensures
            r@ == self@.address,
    {
        &self.address
    }

    /// Whether `address` is this token's account.
    pub fn check_address(&self, address: &String) -> (r: bool)
        ensures
            r == (self@.address == address@),
    {
        self.address.eq(address)
    }

    /// The token's decimal precision; refused until the metadata has arrived.
    pub fn get_decimal(&self) -> (r: Result<u8, AmmError>)
        ensures
            match self@.decimal {
                Some(d) => r == Ok::<u8, AmmError>(d),
                None => r == Err::<u8, AmmError>(AmmError::TokenMetadataNotInitialised),
            },
    {
        match self.decimal {
            Some(d) => Ok(d),
            None => Err(AmmError::TokenMetadataNotInitialised),
        }
    }

    /// The raw reserve.
    pub fn get_balance(&self) -> (r: u128)
        ensures
            r == self@.balance,
    {
        self.balance
    }

    /// Adds `amount` to the reserve; refused if the sum overflows.
    pub fn add_balance(&mut self, amount: u128) -> (r: Result<(), AmmError>)
        ensures
            old(self)@.balance + amount <= u128::MAX ==> r is Ok && final(self)@ == old(
                self,
            )@.with_balance((old(self)@.balance + amount) as u128),
            old(self)@.balance + amount > u128::MAX ==> r == Err::<(), AmmError>(
                AmmError::InternalOverflow,
            ) && final(self)@ == old(self)@,
    {
        match self.balance.checked_add(amount) {
            Some(b) => {
                self.balance = b;
                Ok(())
            },
            None => Err(AmmError::InternalOverflow),
        }
    }

    /// Takes `amount` out of the reserve. Refused if it exceeds the reserve, and also if it
    /// would empty the reserve: a reserve never drops to zero.
    pub fn subtract_balance(&mut self, amount: u128) -> (r: Result<(), AmmError>)
        ensures
            amount < old(self)@.balance ==> r is Ok && final(self)@ == old(self)@.with_balance(
                (old(self)@.balance - amount) as u128,
            ),
            amount == old(self)@.balance ==> r == Err::<(), AmmError>(
                AmmError::InvalidTokenBalance,
            ) && final(self)@ == old(self)@,
            amount > old(self)@.balance ==> r == Err::<(), AmmError>(AmmError::InternalOverflow)
                && final(self)@ == old(self)@,
    {
        match self.balance.checked_sub(amount) {
            Some(b) => {
                if b == 0 {
                    return Err(AmmError::InvalidTokenBalance);
                }
                self.balance = b;
                Ok(())
            },
            None => Err(AmmError::InternalOverflow),
        }
    }

    /// The reserve on the canonical scale. Refused until the metadata has arrived, and if
    /// the canonical value overflows.
    pub fn get_canonical_balance(&self) -> (r: Result<u128, AmmError>)
        requires
            self@.wf(),
        ensures
            !self@.has_metadata() ==> r == Err::<u128, AmmError>(
                AmmError::TokenMetadataNotInitialised,
            ),
            self@.has_metadata() && self@.canonical_balance() <= u128::MAX ==> r == Ok::<
                u128,
                AmmError,
            >(self@.canonical_balance() as u128),
            self@.has_metadata() && self@.canonical_balance() > u128::MAX ==> r == Err::<
                u128,
                AmmError,
            >(AmmError::InternalOverflow),
    {
        match self.decimal {
            Some(d) => amount_to_canonical_amount(self.balance, d),
            None => Err(AmmError::TokenMetadataNotInitialised),
        }
    }
}

} // verus!
