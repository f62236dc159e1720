use vstd::prelude::*;
use vstd::utf8::encode_utf8;
use vstd::utf8::encode_scalar;
use crate::errors::BlinkError;

verus! {

/// Most characters in the name of a profile card.
pub const BLINK_NAME_MAX: usize = 50;

/// Most characters in the description of a profile card.
pub const BLINK_DESCRIPTION_MAX: usize = 200;

/// Most characters in the name of an NFT or of a collection.
pub const TOKEN_NAME_MAX: usize = 32;

/// Most characters in the symbol of an NFT or of a collection.
pub const SYMBOL_MAX: usize = 10;

/// Most characters in a currency code.
pub const CURRENCY_MAX: usize = 10;

/// Most characters in the message of a donation.
pub const MESSAGE_MAX: usize = 200;

/// Most characters in the description of a payment.
pub const PAYMENT_DESCRIPTION_MAX: usize = 200;

/// Whether `text` has at most `max` characters.
pub open spec fn fits(text: Seq<char>, max: nat) -> bool {
    text.len() <= max
}

/// The number of bytes that `text` takes when written as UTF-8.
pub open spec fn utf8_len(text: Seq<char>) -> nat {
    encode_utf8(text).len()
}

/// A text takes at least one byte and at most four bytes for each of its
/// characters.
pub proof fn lemma_utf8_len_bounds(text: Seq<char>)
    ensures
        text.len() <= utf8_len(text) <= 4 * text.len(),
    decreases text.len(),
{
    if text.len() > 0 {
        let head = encode_scalar(text[0] as u32);
        assert(1 <= head.len() <= 4);
        lemma_utf8_len_bounds(text.drop_first());
        assert(encode_utf8(text) == head + encode_utf8(text.drop_first()));
    }
}

/// Accepts `text` where it has at most `max` characters, and refuses it with
/// `error` where it is longer.
pub fn check_length(text: &String, max: usize, error: BlinkError) -> (r: Result<(), BlinkError>)
    ensures
        fits(text@, max as nat) ==> r == Ok::<(), BlinkError>(()),
        !fits(text@, max as nat) ==> r == Err::<(), BlinkError>(error),
{
    if text.as_str().unicode_len() > max {
        Err(error)
    } else {
        Ok(())
    }
}

/// The number of bytes that `text` takes when written as UTF-8.
pub fn byte_len(text: &String) -> (n: usize)
    ensures
        n as nat == utf8_len(text@),
{
    text.as_str().as_bytes().len()
}

} // verus!
