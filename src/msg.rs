use crate::lists::views;
use crate::state::{Config, ConfigView};
use vstd::prelude::*;

verus! {

/// What the contract is created with.
#[derive(Debug, Clone, PartialEq, Eq)]
pub struct InstantiateMsg {
    /// The manager; the creating caller when absent.
    pub manager: Option<String>,
    pub allowed_mint_addresses: Vec<String>,
    /// Each must start with `factory/`.
    pub denoms: Vec<String>,
}

/// Read-only requests.
#[derive(Debug, Clone, PartialEq, Eq)]
pub enum QueryMsg {
    GetConfig {},
}

/// An amount of one denomination.
#[derive(Debug, Clone, PartialEq, Eq)]
pub struct Coin {
    pub denom: String,
    pub amount: u128,
}

/// The abstract value of a `Coin`: its denomination and its amount.
pub type CoinView = (Seq<char>, u128);

impl View for Coin {
    type V = CoinView;

    open spec fn view(&self) -> CoinView {
        (self.denom@, self.amount)
    }
}

/// The state-changing requests.
#[derive(Debug, Clone, PartialEq, Eq)]
pub enum ExecuteMsg {
    /// Burns the attached funds of managed denominations, returns the rest.
    Burn {},
    /// Mints each coin of `denom` to `address`.
    Mint { address: String, denom: Vec<Coin> },
    /// Hands the factory admin of `denom` to `new_address`.
    TransferAdmin { denom: String, new_address: String },
    AddWhitelist { addresses: Vec<String> },
    RemoveWhitelist { addresses: Vec<String> },
    AddDenom { denoms: Vec<String> },
    RemoveDenom { denoms: Vec<String> },
}

/// An instruction for the token factory.
#[derive(Debug, Clone, PartialEq, Eq)]
pub enum TokenMsg {
    ChangeAdmin { denom: String, new_admin_address: String },
    MintTokens { denom: String, amount: u128, mint_to_address: String },
    BurnTokens { denom: String, amount: u128, burn_from_address: String },
}

/// The abstract value of a `TokenMsg`.
pub enum TokenMsgView {
    ChangeAdmin { denom: Seq<char>, new_admin_address: Seq<char> },
    MintTokens { denom: Seq<char>, amount: u128, mint_to_address: Seq<char> },
    BurnTokens { denom: Seq<char>, amount: u128, burn_from_address: Seq<char> },
}

impl View for TokenMsg {
    type V = TokenMsgView;

    open spec fn view(&self) -> TokenMsgView {
        match self {
            TokenMsg::ChangeAdmin { denom, new_admin_address } => TokenMsgView::ChangeAdmin {
                denom: denom@,
                new_admin_address: new_admin_address@,
            },
            TokenMsg::MintTokens { denom, amount, mint_to_address } => TokenMsgView::MintTokens {
                denom: denom@,
                amount: *amount,
                mint_to_address: mint_to_address@,
            },
            TokenMsg::BurnTokens { denom, amount, burn_from_address } => TokenMsgView::BurnTokens {
                denom: denom@,
                amount: *amount,
                burn_from_address: burn_from_address@,
            },
        }
    }
}

/// An outbound instruction: a bank transfer or a token factory message.
#[derive(Debug, Clone, PartialEq, Eq)]
pub enum Instruction {
    BankSend { to_address: String, amount: Vec<Coin> },
    Token(TokenMsg),
}

/// The abstract value of an `Instruction`.
pub enum InstructionView {
    BankSend { to_address: Seq<char>, amount: Seq<CoinView> },
    Token(TokenMsgView),
}

impl View for Instruction {
    type V = InstructionView;

    open spec fn view(&self) -> InstructionView {
        match self {
            Instruction::BankSend { to_address, amount } => InstructionView::BankSend {
                to_address: to_address@,
                amount: views(amount@),
            },
            Instruction::Token(m) => InstructionView::Token(m@),
        }
    }
}

/// What a successful operation produces: the configuration to store, if it
/// changed, and the instructions to send, in order.
#[derive(Debug, Clone, PartialEq, Eq)]
pub struct Response {
    pub save: Option<Config>,
    pub messages: Vec<Instruction>,
}

/// The abstract value of a `Response`.
pub struct ResponseView {
    pub save: Option<ConfigView>,
    pub messages: Seq<InstructionView>,
}

impl View for Response {
    type V = ResponseView;

    open spec fn view(&self) -> ResponseView {
        ResponseView {
            save: match self.save {
                Some(c) => Some(c@),
                None => None,
            },
            messages: views(self.messages@),
        }
    }
}

} // verus!
