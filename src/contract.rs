use vstd::arithmetic::mul::lemma_mul_is_commutative;
use vstd::prelude::*;

use crate::error::AmmError;
use crate::message::FungibleTokenReceiverMessage;
use near_contract_standards::fungible_token::metadata::FungibleTokenMetadata;
use crate::token::{Token, TokenMetadata, TokenView};
use crate::util::{
    amount_to_canonical_amount, canonical, canonical_amount_to_amount,
    constant_product_amount_out, lemma_canonical_positive, lemma_swap_keeps_product,
    swap_amount_out, valid_decimal,
};

verus! {

/// What the pool shows of itself once it is functional: its owner and its two tokens.
pub struct ContractMetadata {
    pub owner: String,
    pub tokens: Vec<TokenMetadata>,
}

/// The outcome of a cross-contract call, as its callback receives it.
pub enum CallOutcome {
    /// The call returned these bytes.
    Successful(Vec<u8>),
    /// The call failed.
    Failed,
}

/// A transfer of `amount` of token `token` that the pool owes `receiver`.
pub struct Payout {
    pub receiver: String,
    pub token: String,
    pub amount: u128,
}

/// Name, symbol and decimals of the fungible-token metadata that JSON `bytes` decode to, if
/// they decode to metadata at all.
pub uninterp spec fn decoded_ft_metadata(bytes: Seq<u8>) -> Option<(Seq<char>, Seq<char>, u8)>;

/// Relies on serde_json::from_slice, as near_sdk re-exports it, decoding
/// near_contract_standards' `FungibleTokenMetadata`: whether the bytes decode, and to what,
/// depends on the bytes alone. Of decoded metadata the name, symbol and decimals are kept.
#[verifier::external_body]
fn decode_ft_metadata(bytes: &Vec<u8>) -> (r: Option<(String, String, u8)>)
    ensures
        r.deep_view() == decoded_ft_metadata(bytes@),
{
    near_sdk::serde_json::from_slice::<FungibleTokenMetadata>(bytes).ok().map(
        |m: FungibleTokenMetadata| (m.name, m.symbol, m.decimals),
    )
}

/// A two-token constant-product pool: the owner who provides liquidity, the two tokens with
/// their reserves, and whether trading is open.
pub struct Contract {
    owner_address: String,
    token_a: Token,
    token_b: Token,
    functional: bool,
}

/// The mathematical model of a [`Contract`].
pub struct ContractView {
    pub owner: Seq<char>,
    pub token_a: TokenView,
    pub token_b: TokenView,
    pub functional: bool,
}

impl ContractView {
    /// Both tokens' metadata has arrived and both reserves are positive.
    pub open spec fn ready(self) -> bool {
        &&& self.token_a.has_metadata()
        &&& self.token_b.has_metadata()
        &&& self.token_a.balance > 0
        &&& self.token_b.balance > 0
    }

    /// The pool's invariant: two distinct well-formed tokens, and trading open only when
    /// the pool is ready.
    pub open spec fn wf(self) -> bool {
        &&& self.token_a.wf()
        &&& self.token_b.wf()
        &&& self.token_a.address != self.token_b.address
        &&& self.functional ==> self.ready()
    }

    /// Whether `token` is one of the pool's two tokens.
    pub open spec fn knows(self, token: Seq<char>) -> bool {
        token == self.token_a.address || token == self.token_b.address
    }

    /// The pool's token of account `token`.
    pub open spec fn token_of(self, token: Seq<char>) -> TokenView {
        if token == self.token_a.address {
            self.token_a
        } else {
            self.token_b
        }
    }

    /// The pool's other token than the one of account `token`.
    pub open spec fn counterpart_of(self, token: Seq<char>) -> TokenView {
        if token == self.token_a.address {
            self.token_b
        } else {
            self.token_a
        }
    }

    /// The pool with its token of account `token` replaced by `t`.
    pub open spec fn with_token(self, token: Seq<char>, t: TokenView) -> ContractView {
        if token == self.token_a.address {
            ContractView { token_a: t, ..self }
        } else {
            ContractView { token_b: t, ..self }
        }
    }

    /// The pool after the lifecycle latch: trading opens as soon as the pool is ready, and
    /// stays open.
    pub open spec fn latched(self) -> ContractView {
        ContractView { functional: self.functional || self.ready(), ..self }
    }

    /// What a deposit of `amount` of `token` gives: the new pool, or the error.
    pub open spec fn deposit_result(self, token: Seq<char>, amount: u128) -> Result<
        ContractView,
        AmmError,
    > {
        let t = self.token_of(token);
        if !self.knows(token) {
            Err(AmmError::InvalidTokenTransferred)
        } else if t.balance + amount > u128::MAX {
            Err(AmmError::InternalOverflow)
        } else {
            Ok(self.with_token(token, t.with_balance((t.balance + amount) as u128)).latched())
        }
    }

    /// What a swap of `amount_in` of `token` gives: the amount of the other token paid out,
    /// or the error.
    pub open spec fn swap_result(self, token: Seq<char>, amount_in: u128) -> Result<
        u128,
        AmmError,
    > {
        let tin = self.token_of(token);
        let tout = self.counterpart_of(token);
        let amount_out = swap_amount_out(
            amount_in as int,
            tin.balance as int,
            tin.decimal->0,
            tout.balance as int,
            tout.decimal->0,
        );
        if !self.functional {
            Err(AmmError::NotFunctional)
        } else if !self.knows(token) {
            Err(AmmError::InvalidTokenTransferred)
        } else if tin.canonical_balance() > u128::MAX || tout.canonical_balance() > u128::MAX {
            Err(AmmError::InternalOverflow)
        } else if canonical(amount_in as int, tin.decimal->0) > u128::MAX {
            Err(AmmError::InternalOverflow)
        } else if amount_out == 0 {
            Err(AmmError::Slippage)
        } else if tin.balance + amount_in > u128::MAX {
            Err(AmmError::InternalOverflow)
        } else {
            Ok(amount_out as u128)
        }
    }

    /// The pool after a swap that took in `amount_in` of `token` and paid out `amount_out` of
    /// the other token.
    pub open spec fn after_swap(self, token: Seq<char>, amount_in: u128, amount_out: u128) -> ContractView {
        let tin = self.token_of(token);
        let tout = self.counterpart_of(token);
        self.with_token(token, tin.with_balance((tin.balance + amount_in) as u128)).with_token(
            tout.address,
            tout.with_balance((tout.balance - amount_out) as u128),
        )
    }

    /// What recording the decoded metadata `decoded` of `token` gives: the new pool, or the
    /// error.
    pub open spec fn metadata_result(
        self,
        token: Seq<char>,
        decoded: Option<(Seq<char>, Seq<char>, u8)>,
    ) -> Result<ContractView, AmmError> {
        match decoded {
            None => Err(AmmError::PromiseWrongValueReceived),
            Some((name, ticker, decimal)) => {
                if !self.knows(token) {
                    Err(AmmError::PromiseWrongValueReceived)
                } else if !valid_decimal(decimal) {
                    Err(AmmError::InvalidTokenDecimal)
                } else {
                    Ok(
                        self.with_token(
                            token,
                            TokenView {
                                name: Some(name),
                                ticker: Some(ticker),
                                decimal: Some(decimal),
                                ..self.token_of(token)
                            },
                        ).latched(),
                    )
                }
            },
        }
    }

    /// The product of the two canonical reserves.
    pub open spec fn canonical_product(self) -> int {
        self.token_a.canonical_balance() * self.token_b.canonical_balance()
    }
}

/// A call never takes a functional pool back to a non-functional one.
pub open spec fn stays_functional(pre: ContractView, post: ContractView) -> bool {
    pre.functional ==> post.functional
}

/// A call never empties a reserve that was positive.
pub open spec fn keeps_reserves_positive(pre: ContractView, post: ContractView) -> bool {
    &&& pre.token_a.balance > 0 ==> post.token_a.balance > 0
    &&& pre.token_b.balance > 0 ==> post.token_b.balance > 0
}

impl View for Contract {
    type V = ContractView;

    closed spec fn view(&self) -> ContractView {
        ContractView {
            owner: self.owner_address@,
            token_a: self.token_a@,
            token_b: self.token_b@,
            functional: self.functional,
        }
    }
}

impl Contract {
    /// A pool of `owner_id` over tokens `token_a_id` and `token_b_id`, run from the account
    /// `contract_id`: no metadata, empty reserves, trading closed. Refused when the owner is the
    /// pool's own account, and when the two tokens are the same.
    pub fn new(owner_id: String, token_a_id: String, token_b_id: String, contract_id: &String) -> (r:
        Result<Contract, AmmError>)
        ensures
            owner_id@ == contract_id@ ==> r == Err::<Contract, AmmError>(
                AmmError::OwnerIsContractAccount,
            ),
            owner_id@ != contract_id@ && token_a_id@ == token_b_id@ ==> r == Err::<
                Contract,
                AmmError,
            >(AmmError::DuplicateTokens),
            owner_id@ != contract_id@ && token_a_id@ != token_b_id@ ==> r is Ok && r->Ok_0@
                == (ContractView {
                owner: owner_id@,
                token_a: TokenView {
                    address: token_a_id@,
                    name: None,
                    ticker: None,
                    decimal: None,
                    balance: 0,
                },
                token_b: TokenView {
                    address: token_b_id@,
                    name: None,
                    ticker: None,
                    decimal: None,
                    balance: 0,
                },
                functional: false,
            }),
            r is Ok ==> r->Ok_0@.wf(),
    {
        if owner_id.eq(contract_id) {
            return Err(AmmError::OwnerIsContractAccount);
        }
        if token_a_id.eq(&token_b_id) {
            return Err(AmmError::DuplicateTokens);
        }
        Ok(
            Contract {
                owner_address: owner_id,
                token_a: Token::new(token_a_id),
                token_b: Token::new(token_b_id),
                functional: false,
            },
        )
    }

    /// A pool rebuilt from its stored parts; `None` when they break the pool's invariant
    /// (a token's own invariant, two tokens of one account, or trading open before the pool
    /// is ready).
    pub fn restore(owner_address: String, token_a: Token, token_b: Token, functional: bool) -> (r:
        Option<Contract>)
        ensures
            ({
                let v = ContractView {
                    owner: owner_address@,
                    token_a: token_a@,
                    token_b: token_b@,
                    functional,
                };
                &&& v.wf() ==> r is Some && r->Some_0@ == v
                &&& !v.wf() ==> r is None
            }),
    {
        if !token_a.is_well_formed() || !token_b.is_well_formed() {
            return None;
        }
        if token_a.check_address(token_b.get_address()) {
            return None;
        }
        let ready = token_a.get_balance() > 0 && token_b.get_balance() > 0
            && token_a.get_decimal().is_ok() && token_b.get_decimal().is_ok();
        if functional && !ready {
            return None;
        }
        Some(Contract { owner_address, token_a, token_b, functional })
    }

    /// The owner's account.
    pub fn owner_address(&self) -> (r: &String)
        ensures
            r@ == self@.owner,
    {
        &self.owner_address
    }

    /// The first token.
    pub fn token_a(&self) -> (r: &Token)
        ensures
            r@ == self@.token_a,
    {
        &self.token_a
    }

    /// The second token.
    pub fn token_b(&self) -> (r: &Token)
        ensures
            r@ == self@.token_b,
    {
        &self.token_b
    }

    /// Whether trading is open.
    pub fn is_functional(&self) -> (r: bool)
        ensures
            r == self@.functional,
    {
        self.functional
    }

    /// The pool's owner and tokens, each token with its ratio to the first token: its
    /// canonical reserve over the first token's. Refused while trading is closed, and when a
    /// canonical reserve overflows.
    pub fn get_metadata(&self) -> (r: Result<ContractMetadata, AmmError>)
        requires
            self@.wf(),
        ensures
            !self@.functional ==> r == Err::<ContractMetadata, AmmError>(AmmError::NotFunctional),
            self@.functional && (self@.token_a.canonical_balance() > u128::MAX
                || self@.token_b.canonical_balance() > u128::MAX) ==> r == Err::<
                ContractMetadata,
                AmmError,
            >(AmmError::InternalOverflow),
            self@.functional && self@.token_a.canonical_balance() <= u128::MAX
                && self@.token_b.canonical_balance() <= u128::MAX ==> {
                &&& r is Ok
                &&& r->Ok_0.owner@ == self@.owner
                &&& r->Ok_0.tokens@.len() == 2
                &&& r->Ok_0.tokens@[0].shows(
                    self@.token_a,
                    self@.token_a.canonical_balance(),
                    self@.token_a.canonical_balance(),
                )
                &&& r->Ok_0.tokens@[1].shows(
                    self@.token_b,
                    self@.token_b.canonical_balance(),
                    self@.token_a.canonical_balance(),
                )
            },
    {
        if !self.functional {
            return Err(AmmError::NotFunctional);
        }
        let base = match self.token_a.get_canonical_balance() {
            Ok(c) => c,
            Err(e) => return Err(e),
        };
        let balance_b = match self.token_b.get_canonical_balance() {
            Ok(c) => c,
            Err(e) => return Err(e),
        };
        let mut first = match self.token_a.get_metadata() {
            Ok(m) => m,
            Err(e) => return Err(e),
        };
        first.ratio_numerator = base;
        first.ratio_denominator = base;
        let mut second = match self.token_b.get_metadata() {
            Ok(m) => m,
            Err(e) => return Err(e),
        };
        second.ratio_numerator = balance_b;
        second.ratio_denominator = base;
        let mut tokens: Vec<TokenMetadata> = Vec::new();
        tokens.push(first);
        tokens.push(second);
        Ok(ContractMetadata { owner: self.owner_address.clone(), tokens })
    }

    /// Opens trading once the pool is ready.
    fn update_functional(&mut self)
        ensures
            final(self)@ == old(self)@.latched(),
    {
        if !self.functional && self.token_a.get_balance() > 0 && self.token_b.get_balance() > 0
            && self.token_a.get_decimal().is_ok() && self.token_b.get_decimal().is_ok() {
            self.functional = true;
        }
    }

    /// Adds `amount` of `token_in` to its reserve, and opens trading once the pool is ready.
    /// Refused for a token that is not one of the pool's, and when the reserve would overflow.
    pub fn deposit(&mut self, token_in: &String, amount: u128) -> (r: Result<(), AmmError>)
        requires
            old(self)@.wf(),
        ensures
            final(self)@.wf(),
            stays_functional(old(self)@, final(self)@),
            keeps_reserves_positive(old(self)@, final(self)@),
            match old(self)@.deposit_result(token_in@, amount) {
                Ok(v) => r is Ok && final(self)@ == v,
                Err(e) => r == Err::<(), AmmError>(e) && final(self)@ == old(self)@,
            },
    {
        if self.token_a.check_address(token_in) {
            match self.token_a.add_balance(amount) {
                Ok(()) => {},
                Err(e) => return Err(e),
            }
        } else if self.token_b.check_address(token_in) {
            match self.token_b.add_balance(amount) {
                Ok(()) => {},
                Err(e) => return Err(e),
            }
        } else {
            return Err(AmmError::InvalidTokenTransferred);
        }
        self.update_functional();
        Ok(())
    }

    /// Records decoded metadata of token `token_id`, and opens trading once the pool is ready.
    /// Refused when nothing was decoded or the token is not the pool's, and for a decimal
    /// outside `[MIN_DECIMAL, MAX_DECIMAL]`.
    pub fn set_token_metadata(&mut self, token_id: &String, decoded: Option<(String, String, u8)>) -> (r:
        Result<(), AmmError>)
        requires
            old(self)@.wf(),
        ensures
            final(self)@.wf(),
            stays_functional(old(self)@, final(self)@),
            keeps_reserves_positive(old(self)@, final(self)@),
            match old(self)@.metadata_result(token_id@, decoded.deep_view()) {
                Ok(v) => r is Ok && final(self)@ == v,
                Err(e) => r == Err::<(), AmmError>(e) && final(self)@ == old(self)@,
            },
    {
        let (name, ticker, decimal) = match decoded {
            Some(d) => d,
            None => return Err(AmmError::PromiseWrongValueReceived),
        };
        if self.token_a.check_address(token_id) {
            match self.token_a.set_metadata(name, ticker, decimal) {
                Ok(()) => {},
                Err(e) => return Err(e),
            }
        } else if self.token_b.check_address(token_id) {
            match self.token_b.set_metadata(name, ticker, decimal) {
                Ok(()) => {},
                Err(e) => return Err(e),
            }
        } else {
            return Err(AmmError::PromiseWrongValueReceived);
        }
        self.update_functional();
        Ok(())
    }

    /// Handles the answer to the metadata request for token `token_id`: exactly one result
    /// is expected, it must be a success, and its bytes must decode to fungible-token
    /// metadata, which is then recorded.
    pub fn post_fungible_token_metadata(&mut self, token_id: &String, results: &Vec<CallOutcome>) -> (r:
        Result<(), AmmError>)
        requires
            old(self)@.wf(),
        ensures
            final(self)@.wf(),
            stays_functional(old(self)@, final(self)@),
            keeps_reserves_positive(old(self)@, final(self)@),
            results@.len() != 1 ==> r == Err::<(), AmmError>(AmmError::PromiseTooManyResults)
                && final(self)@ == old(self)@,
            results@.len() == 1 && results@[0] is Failed ==> r == Err::<(), AmmError>(
                AmmError::PromiseCallFailed,
            ) && final(self)@ == old(self)@,
            results@.len() == 1 && results@[0] is Successful ==> match old(self)@.metadata_result(
                token_id@,
                decoded_ft_metadata(results@[0]->Successful_0@),
            ) {
                Ok(v) => r is Ok && final(self)@ == v,
                Err(e) => r == Err::<(), AmmError>(e) && final(self)@ == old(self)@,
            },
    {
        if results.len() != 1 {
            return Err(AmmError::PromiseTooManyResults);
        }
        match &results[0] {
            CallOutcome::Successful(bytes) => {
                let decoded = decode_ft_metadata(bytes);
                self.set_token_metadata(token_id, decoded)
            },
            CallOutcome::Failed => Err(AmmError::PromiseCallFailed),
        }
    }

    /// Trades `amount_in` of `token_in`, which the pool has received, for the other token:
    /// the output is the constant-product output on the canonical scale, brought back to the
    /// other token's precision and rounded down. The reserves take the trade in, and the
    /// other token's account and the output are returned for paying out. Refused while
    /// trading is closed, for a token that is not the pool's, on overflow, and when the
    /// output rounds down to zero.
    pub fn swap(&mut self, token_in: &String, amount_in: u128) -> (r: Result<(String, u128), AmmError>)
        requires
            old(self)@.wf(),
        ensures
            final(self)@.wf(),
            stays_functional(old(self)@, final(self)@),
            keeps_reserves_positive(old(self)@, final(self)@),
            match old(self)@.swap_result(token_in@, amount_in) {
                Ok(amount_out) => {
                    &&& r is Ok
                    &&& r->Ok_0.0@ == old(self)@.counterpart_of(token_in@).address
                    &&& r->Ok_0.1 == amount_out
                    &&& final(self)@ == old(self)@.after_swap(token_in@, amount_in, amount_out)
                },
                Err(e) => r == Err::<(String, u128), AmmError>(e) && final(self)@ == old(self)@,
            },
            r is Ok ==> final(self)@.canonical_product() >= old(self)@.canonical_product(),
    {
        if !self.functional {
            return Err(AmmError::NotFunctional);
        }
        let in_is_a = self.token_a.check_address(token_in);
        if !in_is_a && !self.token_b.check_address(token_in) {
            return Err(AmmError::InvalidTokenTransferred);
        }
        let (tin, tout) = if in_is_a {
            (&self.token_a, &self.token_b)
        } else {
            (&self.token_b, &self.token_a)
        };
        proof {
            lemma_canonical_positive(tin@.balance as int, tin@.decimal->0);
            lemma_canonical_positive(tout@.balance as int, tout@.decimal->0);
        }
        let balance_in = match tin.get_canonical_balance() {
            Ok(c) => c,
            Err(e) => return Err(e),
        };
        if balance_in == 0 {
            return Err(AmmError::InvalidTokenBalance);
        }
        let balance_out = match tout.get_canonical_balance() {
            Ok(c) => c,
            Err(e) => return Err(e),
        };
        if balance_out == 0 {
            return Err(AmmError::InvalidTokenBalance);
        }
        let decimal_in = match tin.get_decimal() {
            Ok(d) => d,
            Err(e) => return Err(e),
        };
        let decimal_out = match tout.get_decimal() {
            Ok(d) => d,
            Err(e) => return Err(e),
        };
        let canonical_in = match amount_to_canonical_amount(amount_in, decimal_in) {
            Ok(c) => c,
            Err(e) => return Err(e),
        };
        // x * y = k: the constant-product output, computed in 256 bits
        let canonical_out = constant_product_amount_out(canonical_in, balance_in, balance_out);
        let amount_out = canonical_amount_to_amount(canonical_out, decimal_out);
        if amount_out == 0 {
            return Err(AmmError::Slippage);
        }
        if tin.get_balance().checked_add(amount_in).is_none() {
            return Err(AmmError::InternalOverflow);
        }
        let out_address = tout.get_address().clone();
        proof {
            lemma_swap_keeps_product(
                amount_in as int,
                tin@.balance as int,
                decimal_in,
                tout@.balance as int,
                decimal_out,
            );
        }
        if in_is_a {
            match self.token_a.add_balance(amount_in) {
                Ok(()) => {},
                Err(e) => return Err(e),
            }
            match self.token_b.subtract_balance(amount_out) {
                Ok(()) => {},
                Err(e) => return Err(e),
            }
        } else {
            match self.token_b.add_balance(amount_in) {
                Ok(()) => {},
                Err(e) => return Err(e),
            }
            match self.token_a.subtract_balance(amount_out) {
                Ok(()) => {},
                Err(e) => return Err(e),
            }
        }
        proof {
            lemma_mul_is_commutative(
                self@.token_a.canonical_balance(),
                self@.token_b.canonical_balance(),
            );
            lemma_mul_is_commutative(
                old(self)@.token_a.canonical_balance(),
                old(self)@.token_b.canonical_balance(),
            );
        }
        Ok((out_address, amount_out))
    }

    /// Handles a transfer of `amount` of token `token_in` from `sender_id` into the pool,
    /// which runs from account `contract_id`. The message decides: `lp_deposit`, from the
    /// owner only, adds the tokens to the reserve; `swap`, while trading is open and from
    /// another account than the pool's, trades them and returns the payout owed to the
    /// sender. The transfer is always taken in full.
    pub fn ft_on_transfer(
        &mut self,
        sender_id: String,
        amount: u128,
        msg: &String,
        token_in: &String,
        contract_id: &String,
    ) -> (r: Result<Option<Payout>, AmmError>)
        requires
            old(self)@.wf(),
        ensures
            final(self)@.wf(),
            stays_functional(old(self)@, final(self)@),
            keeps_reserves_positive(old(self)@, final(self)@),
            r is Err ==> final(self)@ == old(self)@,
            amount == 0 ==> r == Err::<Option<Payout>, AmmError>(AmmError::ZeroAmountTransferred),
            amount > 0 && !old(self)@.knows(token_in@) ==> r == Err::<Option<Payout>, AmmError>(
                AmmError::InvalidTokenTransferred,
            ),
            amount > 0 && old(self)@.knows(token_in@)
                && FungibleTokenReceiverMessage::spec_from_text(msg@) is None ==> r == Err::<
                Option<Payout>,
                AmmError,
            >(AmmError::InvalidReceiverMessage),
            amount > 0 && old(self)@.knows(token_in@) && FungibleTokenReceiverMessage::spec_from_text(
                msg@,
            ) == Some(FungibleTokenReceiverMessage::LPDeposit) ==> if sender_id@ != old(
                self,
            )@.owner {
                r == Err::<Option<Payout>, AmmError>(AmmError::InvalidLpDepositSender)
            } else {
                match old(self)@.deposit_result(token_in@, amount) {
                    Ok(v) => r == Ok::<Option<Payout>, AmmError>(None) && final(self)@ == v,
                    Err(e) => r == Err::<Option<Payout>, AmmError>(e),
                }
            },
            amount > 0 && old(self)@.knows(token_in@) && FungibleTokenReceiverMessage::spec_from_text(
                msg@,
            ) == Some(FungibleTokenReceiverMessage::Swap) ==> if !old(self)@.functional {
                r == Err::<Option<Payout>, AmmError>(AmmError::NotFunctional)
            } else if sender_id@ == contract_id@ {
                r == Err::<Option<Payout>, AmmError>(AmmError::SwapperIsContractAccount)
            } else {
                match old(self)@.swap_result(token_in@, amount) {
                    Ok(amount_out) => {
                        &&& r is Ok
                        &&& r->Ok_0 is Some
                        &&& r->Ok_0->Some_0.receiver@ == sender_id@
                        &&& r->Ok_0->Some_0.token@ == old(self)@.counterpart_of(token_in@).address
                        &&& r->Ok_0->Some_0.amount == amount_out
                        &&& final(self)@ == old(self)@.after_swap(token_in@, amount, amount_out)
                    },
                    Err(e) => r == Err::<Option<Payout>, AmmError>(e),
                }
            },
    {
        if amount == 0 {
            return Err(AmmError::ZeroAmountTransferred);
        }
        if !self.token_a.check_address(token_in) && !self.token_b.check_address(token_in) {
            return Err(AmmError::InvalidTokenTransferred);
        }
        match FungibleTokenReceiverMessage::from_text(msg) {
            Some(FungibleTokenReceiverMessage::LPDeposit) => {
                if !sender_id.eq(&self.owner_address) {
                    return Err(AmmError::InvalidLpDepositSender);
                }
                match self.deposit(token_in, amount) {
                    Ok(()) => Ok(None),
                    Err(e) => Err(e),
                }
            },
            Some(FungibleTokenReceiverMessage::Swap) => {
                if !self.functional {
                    return Err(AmmError::NotFunctional);
                }
                if sender_id.eq(contract_id) {
                    return Err(AmmError::SwapperIsContractAccount);
                }
                match self.swap(token_in, amount) {
                    Ok((token, amount_out)) => Ok(
                        Some(Payout { receiver: sender_id, token, amount: amount_out }),
                    ),
                    Err(e) => Err(e),
                }
            },
            None => Err(AmmError::InvalidReceiverMessage),
        }
    }
}

/// Once functional, always functional: along any run of pool states in which each call keeps
/// a functional pool functional (as every operation of [`Contract`] ensures), every state
/// after a functional one is functional.
pub proof fn lemma_functional_is_terminal(run: Seq<ContractView>, i: int, j: int)
    requires
        forall|k: int| 0 <= k < run.len() - 1 ==> stays_functional(#[trigger] run[k], run[k + 1]),
        0 <= i <= j < run.len(),
        run[i].functional,
    ensures
        run[j].functional,
    decreases j - i,
{
    if i < j {
        lemma_functional_is_terminal(run, i, j - 1);
        assert(stays_functional(run[j - 1], run[j]));
    }
}

/// A positive reserve never drops back to zero: along any run of pool states in which each
/// call keeps positive reserves positive (as every operation of [`Contract`] ensures), a
/// reserve that is positive in one state is positive in every later one.
pub proof fn lemma_reserves_stay_positive(run: Seq<ContractView>, i: int, j: int)
    requires
        forall|k: int|
            0 <= k < run.len() - 1 ==> keeps_reserves_positive(#[trigger] run[k], run[k + 1]),
        0 <= i <= j < run.len(),
    ensures
        run[i].token_a.balance > 0 ==> run[j].token_a.balance > 0,
        run[i].token_b.balance > 0 ==> run[j].token_b.balance > 0,
    decreases j - i,
{
    if i < j {
        lemma_reserves_stay_positive(run, i, j - 1);
        assert(keeps_reserves_positive(run[j - 1], run[j]));
    }
}

} // verus!
