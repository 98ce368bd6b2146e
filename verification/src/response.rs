//! What a handler hands back to the chain: messages to send and
//! attributes that describe what happened.

use vstd::prelude::*;
use vstd::string::*;

verus! {

/// A key/value pair attached to a response.
#[derive(Debug, PartialEq, Eq)]
pub struct Attribute {
    pub key: String,
    pub value: String,
}

impl View for Attribute {
    type V = (Seq<char>, Seq<char>);

    open spec fn view(&self) -> (Seq<char>, Seq<char>) {
        (self.key@, self.value@)
    }
}

/// A message that the contract asks the chain to dispatch after it returns.
#[derive(Debug, PartialEq, Eq)]
pub enum CosmosMsg {
    /// Execute `msg` (JSON bytes) on the contract at `contract_addr`, sending no funds.
    Execute { contract_addr: String, msg: Vec<u8> },
    /// Hand the NFT `token_id` of the prize NFT contract at `contract_addr`
    /// to `recipient`, on behalf of `sender`.
    PrizeNftTransfer { contract_addr: String, sender: String, recipient: String, token_id: String },
    /// Move `amount` tokens of the prize token contract at `contract_addr`
    /// to `recipient`, on behalf of `sender`.
    PrizeTokenTransfer { contract_addr: String, sender: String, recipient: String, amount: u128 },
}

/// The mathematical value of a [`CosmosMsg`].
pub enum MsgView {
    Execute { contract_addr: Seq<char>, msg: Seq<u8> },
    PrizeNftTransfer {
        contract_addr: Seq<char>,
        sender: Seq<char>,
        recipient: Seq<char>,
        token_id: Seq<char>,
    },
    PrizeTokenTransfer {
        contract_addr: Seq<char>,
        sender: Seq<char>,
        recipient: Seq<char>,
        amount: u128,
    },
}

impl View for CosmosMsg {
    type V = MsgView;

    open spec fn view(&self) -> MsgView {
        match self {
            CosmosMsg::Execute { contract_addr, msg } => MsgView::Execute {
                contract_addr: contract_addr@,
                msg: msg@,
            },
            CosmosMsg::PrizeNftTransfer { contract_addr, sender, recipient, token_id } =>
                MsgView::PrizeNftTransfer {
                contract_addr: contract_addr@,
                sender: sender@,
                recipient: recipient@,
                token_id: token_id@,
            },
            CosmosMsg::PrizeTokenTransfer { contract_addr, sender, recipient, amount } =>
                MsgView::PrizeTokenTransfer {
                contract_addr: contract_addr@,
                sender: sender@,
                recipient: recipient@,
                amount: *amount,
            },
        }
    }
}

/// The messages and attributes of a successful handler call.
#[derive(Debug, PartialEq, Eq)]
pub struct Response {
    pub messages: Vec<CosmosMsg>,
    pub attributes: Vec<Attribute>,
}

/// The mathematical value of a [`Response`].
pub struct ResponseView {
    pub messages: Seq<MsgView>,
    pub attributes: Seq<(Seq<char>, Seq<char>)>,
}

impl ResponseView {
    /// A response with no message and no attribute.
    pub open spec fn empty() -> ResponseView {
        ResponseView { messages: Seq::empty(), attributes: Seq::empty() }
    }
}

impl View for Response {
    type V = ResponseView;

    open spec fn view(&self) -> ResponseView {
        ResponseView {
            messages: self.messages@.map_values(|m: CosmosMsg| m@),
            attributes: self.attributes@.map_values(|a: Attribute| a@),
        }
    }
}

impl Response {
    /// A response with no message and no attribute.
    pub fn new() -> (r: Response)
        ensures
            r@ == ResponseView::empty(),
    {
        let r = Response { messages: Vec::new(), attributes: Vec::new() };
        assert(r@.messages =~= Seq::<MsgView>::empty());
        assert(r@.attributes =~= Seq::<(Seq<char>, Seq<char>)>::empty());
        r
    }

    /// Appends the attribute `key = value`.
    pub fn add_attribute(self, key: &str, value: &str) -> (r: Response)
        ensures
            r@.messages == self@.messages,
            r@.attributes == self@.attributes.push((key@, value@)),
    {
        let mut r = self;
        r.attributes.push(Attribute { key: String::from_str(key), value: String::from_str(value) });
        assert(r@.attributes =~= self@.attributes.push((key@, value@)));
        r
    }

    /// Appends a message to dispatch.
    pub fn add_message(self, msg: CosmosMsg) -> (r: Response)
        ensures
            r@.messages == self@.messages.push(msg@),
            r@.attributes == self@.attributes,
    {
        let ghost m = msg@;
        let mut r = self;
        r.messages.push(msg);
        assert(r@.messages =~= self@.messages.push(m));
        r
    }
}

} // verus!
