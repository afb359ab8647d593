//! The request methods the server knows, and how a method is read off the
//! start of a request.

use crate::text::{bytes_match_at, chars_match_at, chars_of};
use vstd::prelude::*;
use vstd::slice::slice_to_vec;

verus! {

/// The methods the server allows, with `Error` for everything else.
#[derive(Clone, Copy, Debug, PartialEq, Eq, Structural)]
pub enum HttpMethod {
    Get,
    Post,
    Patch,
    Delete,
    Options,
    Error,
}

/// The bytes of a sequence of characters that are all ASCII.
pub open spec fn ascii_bytes(chars: Seq<char>) -> Seq<u8> {
    Seq::new(chars.len(), |i: int| chars[i] as u8)
}

impl HttpMethod {
    /// Every method, in the order in which the tokens are tried.
    pub const ALL_TYPES: [HttpMethod; 6] = [
        HttpMethod::Get,
        HttpMethod::Post,
        HttpMethod::Patch,
        HttpMethod::Delete,
        HttpMethod::Options,
        HttpMethod::Error,
    ];

    /// The upper-case token that names the method on the wire.
    pub open spec fn token(self) -> Seq<char> {
        match self {
            HttpMethod::Get => "GET"@,
            HttpMethod::Post => "POST"@,
            HttpMethod::Patch => "PATCH"@,
            HttpMethod::Delete => "DELETE"@,
            HttpMethod::Options => "OPTIONS"@,
            HttpMethod::Error => "ERROR"@,
        }
    }

    /// The token as bytes.
    pub open spec fn token_bytes(self) -> Seq<u8> {
        ascii_bytes(self.token())
    }

    /// The method whose token starts `s`: the tokens are tried in the order of
    /// declaration, and `Error` is the answer when none fits.
    pub open spec fn parse_chars(s: Seq<char>) -> HttpMethod {
        if HttpMethod::Get.token().is_prefix_of(s) {
            HttpMethod::Get
        } else if HttpMethod::Post.token().is_prefix_of(s) {
            HttpMethod::Post
        } else if HttpMethod::Patch.token().is_prefix_of(s) {
            HttpMethod::Patch
        } else if HttpMethod::Delete.token().is_prefix_of(s) {
            HttpMethod::Delete
        } else if HttpMethod::Options.token().is_prefix_of(s) {
            HttpMethod::Options
        } else {
            HttpMethod::Error
        }
    }

    /// The method whose token starts `b`: the tokens are tried in the order of
    /// declaration, and `Error` is the answer when none fits.
    pub open spec fn parse_bytes(b: Seq<u8>) -> HttpMethod {
        if HttpMethod::Get.token_bytes().is_prefix_of(b) {
            HttpMethod::Get
        } else if HttpMethod::Post.token_bytes().is_prefix_of(b) {
            HttpMethod::Post
        } else if HttpMethod::Patch.token_bytes().is_prefix_of(b) {
            HttpMethod::Patch
        } else if HttpMethod::Delete.token_bytes().is_prefix_of(b) {
            HttpMethod::Delete
        } else if HttpMethod::Options.token_bytes().is_prefix_of(b) {
            HttpMethod::Options
        } else {
            HttpMethod::Error
        }
    }

    /// Spells the six tokens out, character by character.
    pub proof fn lemma_tokens()
        ensures
            HttpMethod::Get.token() == seq!['G', 'E', 'T'],
            HttpMethod::Post.token() == seq!['P', 'O', 'S', 'T'],
            HttpMethod::Patch.token() == seq!['P', 'A', 'T', 'C', 'H'],
            HttpMethod::Delete.token() == seq!['D', 'E', 'L', 'E', 'T', 'E'],
            HttpMethod::Options.token() == seq!['O', 'P', 'T', 'I', 'O', 'N', 'S'],
            HttpMethod::Error.token() == seq!['E', 'R', 'R', 'O', 'R'],
    {
        reveal_strlit("GET");
        reveal_strlit("POST");
        reveal_strlit("PATCH");
        reveal_strlit("DELETE");
        reveal_strlit("OPTIONS");
        reveal_strlit("ERROR");
    }

    /// A buffer that begins with a method's token is read as that method,
    /// whatever follows the token.
    pub proof fn lemma_parse_bytes_of_token(m: HttpMethod, rest: Seq<u8>)
        ensures
            HttpMethod::parse_bytes(m.token_bytes() + rest) == m,
    {
        HttpMethod::lemma_tokens();
        let b = m.token_bytes() + rest;
        assert(m.token_bytes().is_prefix_of(b));
        assert(b[0] == m.token_bytes()[0]);
        assert(b[1] == m.token_bytes()[1]);
    }

    /// A buffer that begins with none of the five method tokens is read as `Error`.
    pub proof fn lemma_parse_bytes_of_other(b: Seq<u8>)
        requires
            forall|m: HttpMethod| m != HttpMethod::Error ==> !m.token_bytes().is_prefix_of(b),
        ensures
            HttpMethod::parse_bytes(b) == HttpMethod::Error,
    {
    }

    /// The token that names the method.
    pub fn as_str(&self) -> (s: &'static str)
        ensures
            s@ == self.token(),
    {
        match self {
            HttpMethod::Get => "GET",
            HttpMethod::Post => "POST",
            HttpMethod::Patch => "PATCH",
            HttpMethod::Delete => "DELETE",
            HttpMethod::Options => "OPTIONS",
            HttpMethod::Error => "ERROR",
        }
    }

    /// The token as bytes.
    pub fn to_bytes(&self) -> (b: Vec<u8>)
        ensures
            b@ == self.token_bytes(),
    {
        let s = self.as_str();
        proof {
            HttpMethod::lemma_tokens();
            vstd::string::is_ascii_spec_bytes(s);
        }
        slice_to_vec(s.as_bytes())
    }

    /// Reads the method off the start of a string.
    pub fn from_string(string: String) -> (m: Self)
        ensures
            m == HttpMethod::parse_chars(string@),
    {
        let chars = chars_of(string.as_str());
        if chars_match_at(chars.as_slice(), chars_of("GET").as_slice(), 0) {
            HttpMethod::Get
        } else if chars_match_at(chars.as_slice(), chars_of("POST").as_slice(), 0) {
            HttpMethod::Post
        } else if chars_match_at(chars.as_slice(), chars_of("PATCH").as_slice(), 0) {
            HttpMethod::Patch
        } else if chars_match_at(chars.as_slice(), chars_of("DELETE").as_slice(), 0) {
            HttpMethod::Delete
        } else if chars_match_at(chars.as_slice(), chars_of("OPTIONS").as_slice(), 0) {
            HttpMethod::Options
        } else {
            HttpMethod::Error
        }
    }

    /// Reads the method off the start of a byte buffer.
    pub fn from_bytes(bytes: &[u8]) -> (m: Self)
        ensures
            m == HttpMethod::parse_bytes(bytes@),
    {
        if bytes_match_at(bytes, HttpMethod::Get.to_bytes().as_slice(), 0) {
            HttpMethod::Get
        } else if bytes_match_at(bytes, HttpMethod::Post.to_bytes().as_slice(), 0) {
            HttpMethod::Post
        } else if bytes_match_at(bytes, HttpMethod::Patch.to_bytes().as_slice(), 0) {
            HttpMethod::Patch
        } else if bytes_match_at(bytes, HttpMethod::Delete.to_bytes().as_slice(), 0) {
            HttpMethod::Delete
        } else if bytes_match_at(bytes, HttpMethod::Options.to_bytes().as_slice(), 0) {
            HttpMethod::Options
        } else {
            HttpMethod::Error
        }
    }
}

} // verus!
