//! What a venue's reply says: the best price on offer, or why there is none.
//!
//! The caller fetches the reply and reads its fields; the rules on those
//! fields are here. The price is handed back as the venue wrote it.

use vstd::prelude::*;
use vstd::string::StringExecFns;

verus! {

/// Why a reply yields no price.
#[derive(Clone, Copy, Debug, PartialEq, Eq, Structural)]
pub enum QuoteError {
    /// The reply has no content at all.
    EmptyBody,
    /// The venue answered with an error of its own.
    Rejected,
    /// The reply lists no offer.
    NoOffers,
}

/// The code with which the second venue marks a reply as successful.
pub open spec fn success_code() -> Seq<char> {
    "000000"@
}

/// A reply must have content before it is read.
pub fn check_body(body: &str) -> (r: Result<(), QuoteError>)
    ensures
        r == if body@.len() == 0 {
            Err::<(), QuoteError>(QuoteError::EmptyBody)
        } else {
            Ok::<(), QuoteError>(())
        },
{
    if body.is_empty() {
        Err(QuoteError::EmptyBody)
    } else {
        Ok(())
    }
}

/// The best price in an order book that carries a numeric status: the first
/// offer, if the status is zero and there is an offer.
pub fn best_by_status<'a>(status: i64, offers: &'a Vec<String>) -> (r: Result<&'a str, QuoteError>)
    ensures
        match r {
            Ok(price) => status == 0 && offers@.len() > 0 && price@ == offers@[0]@,
            Err(QuoteError::Rejected) => status != 0,
            Err(QuoteError::NoOffers) => status == 0 && offers@.len() == 0,
            Err(QuoteError::EmptyBody) => false,
        },
{
    if status != 0 {
        Err(QuoteError::Rejected)
    } else if offers.len() == 0 {
        Err(QuoteError::NoOffers)
    } else {
        Ok(offers[0].as_str())
    }
}

/// A reply that carries a code and a message is an error of the venue if the
/// message is present and not empty and the code is not the success code.
pub open spec fn is_rejection(code: Seq<char>, message: Option<String>) -> bool {
    &&& message matches Some(text)
    &&& text@.len() > 0
    &&& code != success_code()
}

/// The best price in a reply that carries a code and a message: the first
/// offer, unless the reply is an error of the venue or lists no offer.
pub fn best_by_message<'a>(code: &str, message: &Option<String>, offers: &'a Vec<String>) -> (r:
    Result<&'a str, QuoteError>)
    ensures
        match r {
            Ok(price) => !is_rejection(code@, *message) && offers@.len() > 0 && price@
                == offers@[0]@,
            Err(QuoteError::Rejected) => is_rejection(code@, *message),
            Err(QuoteError::NoOffers) => !is_rejection(code@, *message) && offers@.len() == 0,
            Err(QuoteError::EmptyBody) => false,
        },
{
    let rejected: bool = match message {
        Some(text) => !text.as_str().is_empty() && String::from_str(code) != String::from_str(
            "000000",
        ),
        None => false,
    };
    if rejected {
        Err(QuoteError::Rejected)
    } else if offers.len() == 0 {
        Err(QuoteError::NoOffers)
    } else {
        Ok(offers[0].as_str())
    }
}

} // verus!
