use vstd::prelude::*;
use vstd::string::StringExecFns;

verus! {

/// One key/value pair of a structured result.
#[derive(Debug)]
pub struct Attribute {
    pub key: String,
    pub value: String,
}

/// An outbound effect of a call: a value movement toward a fee collector, or
/// the receive notification a `Send` delivers to the recipient contract.  The
/// host turns these into actual messages; the ledger itself only records them.
#[derive(Debug)]
pub enum OutMsg {
    BankSend { to_address: String, denom: String, amount: u128 },
    Cw20Transfer { contract_addr: String, recipient: String, amount: u128 },
    Cw20Receive { contract: String, sender: String, amount: u128, msg: Vec<u8> },
}

/// The mathematical image of an [`OutMsg`].
pub enum OutMsgV {
    BankSend { to_address: Seq<char>, denom: Seq<char>, amount: u128 },
    Cw20Transfer { contract_addr: Seq<char>, recipient: Seq<char>, amount: u128 },
    Cw20Receive { contract: Seq<char>, sender: Seq<char>, amount: u128, msg: Seq<u8> },
}

impl View for OutMsg {
    type V = OutMsgV;

    open spec fn view(&self) -> OutMsgV {
        match self {
            OutMsg::BankSend { to_address, denom, amount } => OutMsgV::BankSend {
                to_address: to_address@,
                denom: denom@,
                amount: *amount,
            },
            OutMsg::Cw20Transfer { contract_addr, recipient, amount } => OutMsgV::Cw20Transfer {
                contract_addr: contract_addr@,
                recipient: recipient@,
                amount: *amount,
            },
            OutMsg::Cw20Receive { contract, sender, amount, msg } => OutMsgV::Cw20Receive {
                contract: contract@,
                sender: sender@,
                amount: *amount,
                msg: msg@,
            },
        }
    }
}

/// The key/value pairs of a sequence of attributes, as character sequences.
pub open spec fn attr_pairs(s: Seq<Attribute>) -> Seq<(Seq<char>, Seq<char>)> {
    s.map_values(|a: Attribute| (a.key@, a.value@))
}

/// The views of a sequence of outbound messages.
pub open spec fn msg_views(s: Seq<OutMsg>) -> Seq<OutMsgV> {
    s.map_values(|m: OutMsg| m@)
}

/// The structured result of a successful call: observability attributes in a
/// fixed order, plus the outbound effects.
#[derive(Debug)]
pub struct Response {
    pub attributes: Vec<Attribute>,
    pub messages: Vec<OutMsg>,
}

impl Response {
    pub open spec fn attrs(&self) -> Seq<(Seq<char>, Seq<char>)> {
        attr_pairs(self.attributes@)
    }

    pub open spec fn msgs(&self) -> Seq<OutMsgV> {
        msg_views(self.messages@)
    }

    pub fn new() -> (r: Response)
        ensures
            r.attrs() =~= Seq::<(Seq<char>, Seq<char>)>::empty(),
            r.msgs() =~= Seq::<OutMsgV>::empty(),
    {
        Response { attributes: Vec::new(), messages: Vec::new() }
    }

    /// Appends one key/value attribute.
    pub fn add_attribute(&mut self, key: &str, value: String)
        ensures
            final(self).attrs() =~= old(self).attrs().push((key@, value@)),
            final(self).msgs() =~= old(self).msgs(),
    {
        let k = String::from_str(key);
        self.attributes.push(Attribute { key: k, value });
    }

    /// Appends one outbound message.
    pub fn add_message(&mut self, msg: OutMsg)
        ensures
            final(self).attrs() =~= old(self).attrs(),
            final(self).msgs() =~= old(self).msgs().push(msg@),
    {
        self.messages.push(msg);
    }

    /// Appends a batch of outbound messages, in order.
    pub fn add_messages(&mut self, msgs: Vec<OutMsg>)
        ensures
            final(self).attrs() =~= old(self).attrs(),
            final(self).msgs() =~= old(self).msgs() + msg_views(msgs@),
    {
        let mut rest = msgs;
        let ghost orig = rest@;
        while rest.len() > 0
            invariant
                rest@.len() <= orig.len(),
                rest@ =~= orig.skip(orig.len() - rest@.len()),
                self.attrs() =~= old(self).attrs(),
                self.msgs() =~= old(self).msgs() + msg_views(
                    orig.take(orig.len() - rest@.len()),
                ),
            decreases rest@.len(),
        {
            let ghost k = orig.len() - rest@.len();
            let m = rest.remove(0);
            proof {
                assert(m == orig[k]);
                assert(rest@ =~= orig.skip(k + 1));
                assert(orig.take(k + 1) =~= orig.take(k).push(orig[k]));
                assert(msg_views(orig.take(k + 1)) =~= msg_views(orig.take(k)).push(orig[k]@));
            }
            let ghost prev = self.messages@;
            self.messages.push(m);
            proof {
                assert(msg_views(prev.push(m)) =~= msg_views(prev).push(m@));
            }
        }
        proof {
            assert(orig.take(orig.len() as int) =~= orig);
        }
    }
}

} // verus!
