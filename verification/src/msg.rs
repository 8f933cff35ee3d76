use vstd::prelude::*;
use vstd::string::StringExecFns;

use crate::state::{Asset, AssetV};

verus! {

/// The creation call: attached funds become the collateral; the caller
/// becomes creator and owner.
#[derive(Clone, Debug, PartialEq, Eq)]
pub struct InstantiateMsg {
    pub counter_offer: Vec<Asset>,
    pub expiry: u64,
}

/// The three mutating operations on a live option.
#[derive(Clone, Debug, PartialEq, Eq)]
pub enum ExecuteMsg {
    /// Hand ownership to `recipient`. No asset movement.
    Transfer { recipient: String },
    /// Exercise the option: attached funds are the counter-offer payment.
    Execute,
    /// Discard a lapsed option. No funds may be attached.
    Burn,
}

/// The read-only calls.
#[derive(Clone, Debug, PartialEq, Eq)]
pub enum QueryMsg {
    /// Return the stored option record verbatim.
    GetState,
}

/// One key/value pair describing what an operation did.
#[derive(Clone, Debug, PartialEq, Eq)]
pub struct Attribute {
    pub key: String,
    pub value: String,
}

/// Mathematical value of an [`Attribute`].
#[verifier::ext_equal]
pub struct AttrV {
    pub key: Seq<char>,
    pub value: Seq<char>,
}

impl View for Attribute {
    type V = AttrV;

    open spec fn view(&self) -> AttrV {
        AttrV { key: self.key@, value: self.value@ }
    }
}

impl DeepView for Attribute {
    type V = AttrV;

    open spec fn deep_view(&self) -> AttrV {
        self.view()
    }
}

/// A request that the execution context move `amount` from the contract to
/// `to_address`, honored if and only if the whole call succeeds.
#[derive(Clone, Debug, PartialEq, Eq)]
pub struct TransferRequest {
    pub to_address: String,
    pub amount: Vec<Asset>,
}

/// Mathematical value of a [`TransferRequest`].
#[verifier::ext_equal]
pub struct TransferV {
    pub to_address: Seq<char>,
    pub amount: Seq<AssetV>,
}

impl View for TransferRequest {
    type V = TransferV;

    open spec fn view(&self) -> TransferV {
        TransferV { to_address: self.to_address@, amount: self.amount.deep_view() }
    }
}

impl DeepView for TransferRequest {
    type V = TransferV;

    open spec fn deep_view(&self) -> TransferV {
        self.view()
    }
}

/// A successful operation's payload: attributes describing the action taken
/// and the asset transfers it requests.
#[derive(Clone, Debug, PartialEq, Eq)]
pub struct Response {
    pub attributes: Vec<Attribute>,
    pub messages: Vec<TransferRequest>,
}

/// Mathematical value of a [`Response`].
#[verifier::ext_equal]
pub struct ResponseV {
    pub attributes: Seq<AttrV>,
    pub messages: Seq<TransferV>,
}

impl View for Response {
    type V = ResponseV;

    open spec fn view(&self) -> ResponseV {
        ResponseV {
            attributes: self.attributes.deep_view(),
            messages: self.messages.deep_view(),
        }
    }
}

/// The character for one decimal digit.
pub open spec fn digit_char(d: nat) -> char {
    if d == 0 {
        '0'
    } else if d == 1 {
        '1'
    } else if d == 2 {
        '2'
    } else if d == 3 {
        '3'
    } else if d == 4 {
        '4'
    } else if d == 5 {
        '5'
    } else if d == 6 {
        '6'
    } else if d == 7 {
        '7'
    } else if d == 8 {
        '8'
    } else {
        '9'
    }
}

/// The decimal digits of `n`, most significant first, no leading zeroes
/// (a lone zero for `n == 0`).
pub open spec fn dec_digits(n: nat) -> Seq<char>
    decreases n,
{
    if n < 10 {
        seq![digit_char(n)]
    } else {
        dec_digits(n / 10).push(digit_char(n % 10))
    }
}

/// The one-character string for a decimal digit.
fn digit_str(d: u64) -> (r: &'static str)
    requires
        d < 10,
    ensures
        r@ == seq![digit_char(d as nat)],
{
    let r: &'static str = match d {
        0 => "0",
        1 => "1",
        2 => "2",
        3 => "3",
        4 => "4",
        5 => "5",
        6 => "6",
        7 => "7",
        8 => "8",
        _ => "9",
    };
    proof {
        reveal_strlit("0");
        reveal_strlit("1");
        reveal_strlit("2");
        reveal_strlit("3");
        reveal_strlit("4");
        reveal_strlit("5");
        reveal_strlit("6");
        reveal_strlit("7");
        reveal_strlit("8");
        reveal_strlit("9");
        assert(r@ =~= seq![digit_char(d as nat)]);
    }
    r
}

/// Render `n` in decimal, as [`dec_digits`] describes.
pub fn u64_to_dec_string(n: u64) -> (r: String)
    ensures
        r@ == dec_digits(n as nat),
    decreases n,
{
    if n < 10 {
        digit_str(n).to_owned()
    } else {
        let prefix = u64_to_dec_string(n / 10);
        let r = prefix.concat(digit_str(n % 10));
        proof {
            assert(r@ =~= dec_digits(n as nat));
        }
        r
    }
}

} // verus!
