use vstd::prelude::*;

verus! {

/// The purpose a token transfer into the pool declares in its message.
#[derive(Clone, Copy, Debug, PartialEq, Eq, Structural)]
pub enum FungibleTokenReceiverMessage {
    /// The owner adds liquidity: `lp_deposit`.
    LPDeposit,
    /// A user trades the transferred tokens for the other token: `swap`.
    Swap,
}

impl FungibleTokenReceiverMessage {
    /// The text of the message.
    pub open spec fn spec_text(self) -> Seq<char> {
        match self {
            FungibleTokenReceiverMessage::LPDeposit => "lp_deposit"@,
            FungibleTokenReceiverMessage::Swap => "swap"@,
        }
    }

    /// The message that `text` spells, if any.
    pub open spec fn spec_from_text(text: Seq<char>) -> Option<FungibleTokenReceiverMessage> {
        if text == FungibleTokenReceiverMessage::LPDeposit.spec_text() {
            Some(FungibleTokenReceiverMessage::LPDeposit)
        } else if text == FungibleTokenReceiverMessage::Swap.spec_text() {
            Some(FungibleTokenReceiverMessage::Swap)
        } else {
            None
        }
    }

    /// The text of the message, as a transfer carries it.
    pub fn text(&self) -> (r: String)
        ensures
            r@ == self.spec_text(),
    {
        match self {
            FungibleTokenReceiverMessage::LPDeposit => "lp_deposit".to_owned(),
            FungibleTokenReceiverMessage::Swap => "swap".to_owned(),
        }
    }

    /// Reads the message of a transfer; `None` for any text but the two messages.
    pub fn from_text(text: &String) -> (r: Option<FungibleTokenReceiverMessage>)
        ensures
            r == Self::spec_from_text(text@),
    {
        if text.eq(&FungibleTokenReceiverMessage::LPDeposit.text()) {
            Some(FungibleTokenReceiverMessage::LPDeposit)
        } else if text.eq(&FungibleTokenReceiverMessage::Swap.text()) {
            Some(FungibleTokenReceiverMessage::Swap)
        } else {
            None
        }
    }
}

} // verus!
