use vstd::prelude::*;
use crate::state::Coin;

verus! {

/// A key/value pair recorded in a request's outcome.
#[derive(Debug)]
pub struct Attribute {
    pub key: String,
    pub value: String,
}

/// An instruction to move `amount` to `to_address` once the request commits.
#[derive(Debug)]
pub struct BankMsg {
    pub to_address: String,
    pub amount: Vec<Coin>,
}

/// The outcome of a successful request: audit attributes and outbound transfers.
#[derive(Debug)]
pub struct Response {
    pub attributes: Vec<Attribute>,
    pub messages: Vec<BankMsg>,
}

/// Whether `a` records `key` with `value`.
pub open spec fn attr_is(a: Attribute, key: Seq<char>, value: Seq<char>) -> bool {
    a.key@ == key && a.value@ == value
}

impl Response {
    pub fn new() -> (r: Response)
        ensures
            r.attributes@.len() == 0,
            r.messages@.len() == 0,
    {
        Response { attributes: Vec::new(), messages: Vec::new() }
    }

    pub fn add_attribute(self, key: &str, value: String) -> (r: Response)
        ensures
            r.messages == self.messages,
            r.attributes@.len() == self.attributes@.len() + 1,
            r.attributes@.drop_last() == self.attributes@,
            attr_is(r.attributes@.last(), key@, value@),
    {
        let mut attributes = self.attributes;
        attributes.push(Attribute { key: String::from_str(key), value });
        proof {
            assert(attributes@.drop_last() =~= self.attributes@);
        }
        Response { attributes, messages: self.messages }
    }

    pub fn add_message(self, msg: BankMsg) -> (r: Response)
        ensures
            r.attributes == self.attributes,
            r.messages@ == self.messages@.push(msg),
    {
        let mut messages = self.messages;
        messages.push(msg);
        Response { attributes: self.attributes, messages }
    }
}

} // verus!
