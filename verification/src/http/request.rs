//! The two handlers: the liveness check and the pay request.
//!
//! A pay request is served in two steps around the one call that leaves the
//! process. `pay` looks at the address and says what to do; where that is a
//! submission, `conclude` turns its outcome into the answer.

use crate::util::connector::{
    is_valid_address, pay_call, pay_call_of, valid_address, Call, CallView, PAY_FUNCTION,
};
use crate::util::felt::{
    entry_point_selector, felt_from_hex, parse_hex, selector_from_name, view_of, Felt,
};
use crate::util::hex::{hex_string, hex_text};
use vstd::prelude::*;
use vstd::string::*;

verus! {

/// The statuses the relay answers with.
#[derive(Clone, Copy, Debug, PartialEq, Eq, Structural)]
pub enum StatusCode {
    Success,
    Unauthorized,
    BadGateway,
}

impl StatusCode {
    /// The number of the status.
    pub open spec fn code(self) -> u16 {
        match self {
            StatusCode::Success => 200,
            StatusCode::Unauthorized => 401,
            StatusCode::BadGateway => 502,
        }
    }

    /// The number of the status.
    pub fn as_u16(self) -> (code: u16)
        ensures
            code == self.code(),
    {
        match self {
            StatusCode::Success => 200,
            StatusCode::Unauthorized => 401,
            StatusCode::BadGateway => 502,
        }
    }
}

/// The body of an answer that reports a failure.
#[derive(Debug, PartialEq, Eq)]
pub struct Response {
    pub message: String,
}

/// What the liveness check answers.
pub const ACTIVE: &'static str = "PAYMESH IS ACTIVE";

/// What a pay request with a malformed address is told.
pub const INVALID_ADDRESS: &'static str = "INVALID ADDRESS";

/// What a pay request is told when its submission failed.
pub const SUBMISSION_FAILED: &'static str = "unable to make request";

/// What the answer to an accepted submission begins with.
pub const SUBMISSION_ACCEPTED: &'static str = "AMOUNT SPLIT SUCCESFULLY ";

/// The liveness check: always the same answer, whatever the relay is
/// configured with.
pub fn new() -> (reply: (StatusCode, &'static str))
    ensures
        reply.0 == StatusCode::Success,
        reply.1@ == ACTIVE@,
{
    (StatusCode::Success, ACTIVE)
}

/// What is to be done with a pay request.
#[derive(Debug, PartialEq, Eq)]
pub enum PayStep {
    /// Answer at once; nothing is submitted.
    Reject(StatusCode, Response),
    /// Submit this one call, then answer by its outcome.
    Submit(Call),
    /// The address has the shape of one and stands for no field element:
    /// the request is given up without an answer.
    Abandon,
}

/// A step as plain values.
pub enum PayStepView {
    Reject(StatusCode, Seq<char>),
    Submit(CallView),
    Abandon,
}

impl View for PayStep {
    type V = PayStepView;

    open spec fn view(&self) -> PayStepView {
        match self {
            PayStep::Reject(status, response) => PayStepView::Reject(*status, response.message@),
            PayStep::Submit(call) => PayStepView::Submit(call@),
            PayStep::Abandon => PayStepView::Abandon,
        }
    }
}

impl PayStepView {
    /// The calls that the step sends to the chain.
    pub open spec fn submissions(self) -> Seq<CallView> {
        match self {
            PayStepView::Submit(call) => seq![call],
            _ => Seq::empty(),
        }
    }
}

/// The step for an address of valid shape, given the element it was parsed
/// to.
pub open spec fn forwarded(contract_address: Seq<u8>, selector: Seq<u8>, recipient: Option<Seq<u8>>)
    -> PayStepView {
    match recipient {
        Some(recipient) => PayStepView::Submit(pay_call_of(contract_address, selector, recipient)),
        None => PayStepView::Abandon,
    }
}

/// The step for a pay request. `recipient` is what the address parses to,
/// `selector` the entry point of the pay function.
pub open spec fn pay_step(
    contract_address: Seq<u8>,
    address: Seq<char>,
    selector: Seq<u8>,
    recipient: Option<Seq<u8>>,
) -> PayStepView {
    if !valid_address(address) {
        PayStepView::Reject(StatusCode::BadGateway, INVALID_ADDRESS@)
    } else {
        forwarded(contract_address, selector, recipient)
    }
}

/// Decides on a request whose address has the shape of one: with the
/// element it stands for the pay call is submitted, without one the request
/// is given up.
pub fn forward(contract_address: Felt, selector: Felt, recipient: Option<Felt>) -> (step: PayStep)
    ensures
        step@ == forwarded(contract_address@, selector@, view_of(recipient)),
{
    match recipient {
        Some(recipient) => PayStep::Submit(pay_call(contract_address, selector, recipient)),
        None => PayStep::Abandon,
    }
}

/// The first step of a pay request for `address`, to the contract at
/// `contract_address`.
///
/// A malformed address is rejected and nothing is submitted. An address
/// that stands for a field element leads to exactly one call: the pay
/// function of the contract, with that element as its only argument.
pub fn pay(contract_address: Felt, address: &str) -> (step: PayStep)
    ensures
        selector_from_name(PAY_FUNCTION@) is Some,
        step@ == pay_step(
            contract_address@,
            address@,
            selector_from_name(PAY_FUNCTION@)->0,
            felt_from_hex(address@),
        ),
        !valid_address(address@) ==> step@ == PayStepView::Reject(
            StatusCode::BadGateway,
            INVALID_ADDRESS@,
        ),
        !valid_address(address@) ==> step@.submissions().len() == 0,
        valid_address(address@) && felt_from_hex(address@) is Some ==> step@.submissions().len()
            == 1,
{
    proof {
        reveal_strlit("pay");
    }
    let selector = entry_point_selector(PAY_FUNCTION);
    if !is_valid_address(address) {
        return PayStep::Reject(
            StatusCode::BadGateway,
            Response { message: INVALID_ADDRESS.to_owned() },
        );
    }
    forward(contract_address, selector.unwrap(), parse_hex(address))
}

/// The answer to a pay request by views: the status and the text, on the
/// side of success or of failure.
pub open spec fn reply_view(reply: Result<(StatusCode, String), (StatusCode, Response)>) -> Result<
    (StatusCode, Seq<char>),
    (StatusCode, Seq<char>),
> {
    match reply {
        Ok((status, body)) => Ok((status, body@)),
        Err((status, response)) => Err((status, response.message@)),
    }
}

/// The body that acknowledges a transaction.
pub open spec fn acknowledgment(transaction: Seq<char>) -> Seq<char> {
    SUBMISSION_ACCEPTED@ + transaction
}

/// The answer to an accepted submission: the fixed words, then the
/// transaction's identifier.
pub fn acknowledge(transaction: &str) -> (reply: (StatusCode, String))
    ensures
        reply.0 == StatusCode::Success,
        reply.1@ == acknowledgment(transaction@),
{
    let body = SUBMISSION_ACCEPTED.to_owned().concat(transaction);
    (StatusCode::Success, body)
}

/// The answer to a failed submission. It is the same for every failure.
pub fn refuse() -> (reply: (StatusCode, Response))
    ensures
        reply.0 == StatusCode::BadGateway,
        reply.1.message@ == SUBMISSION_FAILED@,
{
    (StatusCode::BadGateway, Response { message: SUBMISSION_FAILED.to_owned() })
}

/// The last step of a pay request: the answer to the outcome of its
/// submission, which is the hash of the accepted transaction or the reason
/// of the failure.
///
/// An accepted transaction is named by its hash in hexadecimal. The reason
/// of a failure is for the log: no part of it reaches the answer.
pub fn conclude(outcome: Result<Felt, String>) -> (reply: Result<
    (StatusCode, String),
    (StatusCode, Response),
>)
    ensures
        outcome matches Ok(hash) ==> reply_view(reply) == Ok::<
            (StatusCode, Seq<char>),
            (StatusCode, Seq<char>),
        >((StatusCode::Success, acknowledgment(hex_text(hash@)))),
        outcome is Err ==> reply_view(reply) == Err::<
            (StatusCode, Seq<char>),
            (StatusCode, Seq<char>),
        >((StatusCode::BadGateway, SUBMISSION_FAILED@)),
{
    match outcome {
        Ok(hash) => {
            let transaction = hex_string(&hash);
            Ok(acknowledge(transaction.as_str()))
        },
        Err(_) => Err(refuse()),
    }
}

} // verus!
