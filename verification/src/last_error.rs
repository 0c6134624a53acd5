//! The last-error slot: the NUL-terminated text of the most recent failure,
//! which a C caller reads after an entry point returns a failure status.
use vstd::prelude::*;
use vstd::utf8::{encode_utf8, decode_utf8, valid_utf8, encode_utf8_decode_utf8,
    encode_utf8_valid_utf8, decode_utf8_encode_utf8};
use crate::status::gm_status_t;

verus! {

/// The bytes a C caller reads for `text`: its UTF-8 encoding and a closing NUL.
pub open spec fn c_text(text: Seq<char>) -> Seq<u8> {
    encode_utf8(text).push(0u8)
}

/// Reading back what was written: the bytes before the closing NUL are
/// well-formed UTF-8 and decode to exactly the text.
pub proof fn c_text_reads_back(text: Seq<char>)
    ensures
        c_text(text).len() == encode_utf8(text).len() + 1,
        c_text(text).last() == 0u8,
        c_text(text).drop_last() == encode_utf8(text),
        valid_utf8(c_text(text).drop_last()),
        decode_utf8(c_text(text).drop_last()) == text,
{
    assert(c_text(text).drop_last() =~= encode_utf8(text));
    encode_utf8_valid_utf8(text);
    encode_utf8_decode_utf8(text);
}

/// A well-formed argument handed back as text keeps its exact bytes.
pub proof fn c_text_of_decoded(bytes: Seq<u8>)
    requires
        valid_utf8(bytes),
    ensures
        c_text(decode_utf8(bytes)) == bytes.push(0u8),
{
    decode_utf8_encode_utf8(bytes);
}

/// The slot that holds the description of the most recent failure, if any.
pub struct LastError {
    pub message: Option<Vec<u8>>,
}

impl View for LastError {
    type V = Option<Seq<u8>>;

    open spec fn view(&self) -> Option<Seq<u8>> {
        match self.message {
            Some(bytes) => Some(bytes@),
            None => None,
        }
    }
}

impl LastError {
    /// An empty slot.
    pub fn new() -> (e: LastError)
        ensures
            e@ is None,
    {
        LastError { message: None }
    }

    /// The stored NUL-terminated bytes, if a failure was recorded.
    pub fn message_bytes(&self) -> (b: Option<&Vec<u8>>)
        ensures
            b matches Some(v) ==> self@ == Some(v@),
            b is None <==> self@ is None,
    {
        match &self.message {
            Some(v) => Some(v),
            None => None,
        }
    }
}

/// Records `message` as the last error, NUL-terminated.
pub fn set_last_error(errors: &mut LastError, message: &str)
    ensures
        final(errors)@ == Some(c_text(message@)),
{
    let mut bytes = vstd::slice::slice_to_vec(message.as_bytes());
    bytes.push(0u8);
    errors.message = Some(bytes);
}

/// Forgets any recorded error.
pub fn clear_last_error(errors: &mut LastError)
    ensures
        final(errors)@ is None,
{
    errors.message = None;
}

/// Records `message` and reports a missing (null) argument.
pub fn null_error(errors: &mut LastError, message: &str) -> (s: gm_status_t)
    ensures
        s == gm_status_t::GM_ERR_NULL,
        final(errors)@ == Some(c_text(message@)),
{
    set_last_error(errors, message);
    gm_status_t::GM_ERR_NULL
}

/// Records `message` and reports an argument that was present but unusable.
pub fn invalid_arg(errors: &mut LastError, message: &str) -> (s: gm_status_t)
    ensures
        s == gm_status_t::GM_ERR_INVALID_ARGUMENT,
        final(errors)@ == Some(c_text(message@)),
{
    set_last_error(errors, message);
    gm_status_t::GM_ERR_INVALID_ARGUMENT
}

} // verus!
