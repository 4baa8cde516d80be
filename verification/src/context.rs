//! The per-request context: a fresh identifier, attached to the reply as a
//! header.
//!
//! The server makes the context with [`HandlerCtx::init`] before the handler
//! runs, and wraps what the handler or the error mapper answered with
//! [`HandlerCtx::request_id_wrapper`].

use vstd::prelude::*;

verus! {

/// The number of characters of a request identifier.
pub const REQUEST_ID_LENGTH: usize = 16;

/// Whether `c` belongs to the alphabet of request identifiers: the ASCII
/// letters and digits, the underscore and the hyphen.
pub open spec fn in_safe_alphabet(c: char) -> bool {
    ||| c == '_'
    ||| c == '-'
    ||| ('0' as u32) <= (c as u32) <= ('9' as u32)
    ||| ('a' as u32) <= (c as u32) <= ('z' as u32)
    ||| ('A' as u32) <= (c as u32) <= ('Z' as u32)
}

/// Whether `c` may stand in the value of a header: the visible ASCII
/// characters and the space.
pub open spec fn header_safe(c: char) -> bool {
    32 <= (c as u32) < 127
}

/// Whether `id` has the form of a request identifier: sixteen characters
/// of the safe alphabet.
pub open spec fn is_request_id(id: Seq<char>) -> bool {
    &&& id.len() == REQUEST_ID_LENGTH
    &&& forall|i: int| 0 <= i < id.len() ==> in_safe_alphabet(#[trigger] id[i])
}

/// Generates an identifier with `nanoid::format`, from the generator
/// `nanoid::rngs::non_secure`, over `nanoid::alphabet::SAFE` and of size 16.
/// Which identifier comes out is left open: the generator is random. Every
/// outcome has sixteen characters, each one of the alphabet, which holds the
/// underscore, the hyphen, the ten digits and the ASCII letters of both
/// cases.
#[verifier::external_body]
fn request_id() -> (id: String)
    ensures
        is_request_id(id@),
{
    nanoid::format(nanoid::rngs::non_secure, &nanoid::alphabet::SAFE, 16)
}

/// The context of one request. It is made when the request arrives and
/// dropped when the reply is sent.
pub struct HandlerCtx {
    request_id: String,
}

/// A reply together with one header to send with it.
#[derive(Clone, Debug, PartialEq, Eq)]
pub struct WithHeader<T> {
    /// The reply that was wrapped.
    pub reply: T,
    /// The name of the header.
    pub name: String,
    /// The value of the header.
    pub value: String,
}

impl View for HandlerCtx {
    type V = Seq<char>;

    /// The identifier of the request.
    closed spec fn view(&self) -> Seq<char> {
        self.request_id@
    }
}

impl HandlerCtx {
    #[verifier::type_invariant]
    spec fn well_formed(self) -> bool {
        is_request_id(self.request_id@)
    }

    /// Makes the context of a new request, with a fresh identifier.
    pub fn init() -> (ctx: Self)
        ensures
            is_request_id(ctx@),
    {
        Self { request_id: request_id() }
    }

    /// The identifier of the request.
    pub fn request_id(&self) -> (id: &str)
        ensures
            id@ == self@,
            is_request_id(id@),
    {
        proof {
            use_type_invariant(self);
        }
        self.request_id.as_str()
    }

    /// Wraps the reply of the request, whatever it is, success or failure:
    /// the reply is kept as it is and gets the header `x-request-id` with
    /// the identifier of the request.
    pub fn request_id_wrapper<T>(&self, reply: T) -> (wrapped: WithHeader<T>)
        ensures
            wrapped.reply == reply,
            wrapped.name@ == "x-request-id"@,
            wrapped.value@ == self@,
            is_request_id(wrapped.value@),
    {
        proof {
            use_type_invariant(self);
        }
        WithHeader {
            reply,
            name: "x-request-id".to_owned(),
            value: self.request_id.clone(),
        }
    }
}

/// A request identifier is never empty and holds only characters that may
/// stand in the value of a header, so making the header from it cannot fail.
pub proof fn lemma_request_id_header_safe(id: Seq<char>)
    requires
        is_request_id(id),
    ensures
        id.len() > 0,
        forall|i: int| 0 <= i < id.len() ==> header_safe(#[trigger] id[i]),
{
    assert forall|i: int| 0 <= i < id.len() implies header_safe(#[trigger] id[i]) by {
        assert(in_safe_alphabet(id[i]));
    }
}

} // verus!
