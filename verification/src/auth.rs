//! The bearer token of the agent's API.

use crate::random::random_below;
use crate::text::{chars_of, is_prefix, leading, matches_at, take_chars};
use vstd::prelude::*;
use vstd::utf8::encode_utf8_decode_utf8;

verus! {

/// Whether two strings are the same, in a time that depends on their
/// lengths alone: strings of one length are compared byte by byte to the end,
/// wherever they first differ.
pub fn constant_time_eq(a: &str, b: &str) -> (same: bool)
    ensures
        same == (a@ == b@),
{
    let a_bytes = a.as_bytes();
    let b_bytes = b.as_bytes();
    proof {
        encode_utf8_decode_utf8(a@);
        encode_utf8_decode_utf8(b@);
    }
    if a_bytes.len() != b_bytes.len() {
        return false;
    }
    let mut diff: u8 = 0;
    let mut i: usize = 0;
    while i < a_bytes.len()
        invariant
            i <= a_bytes.len(),
            a_bytes.len() == b_bytes.len(),
            diff == 0 <==> forall|j: int| 0 <= j < i ==> a_bytes@[j] == b_bytes@[j],
        decreases a_bytes.len() - i,
    {
        let x: u8 = a_bytes[i];
        let y: u8 = b_bytes[i];
        let ghost before: u8 = diff;
        diff = diff | (x ^ y);
        assert(diff == 0 <==> (before == 0 && x == y)) by (bit_vector)
            requires
                diff == before | (x ^ y),
        ;
        i += 1;
    }
    assert(diff == 0 ==> a_bytes@ =~= b_bytes@);
    diff == 0
}

/// The token that an `Authorization` header carries after `Bearer `.
pub open spec fn bearer_of(header: Seq<char>) -> Option<Seq<char>> {
    if is_prefix("Bearer "@, header) {
        Some(header.subrange("Bearer "@.len() as int, header.len() as int))
    } else {
        None
    }
}

/// The token of a header of the form `Bearer <token>`; `None` for a header of
/// another form.
pub fn bearer_token(header: &str) -> (token: Option<&str>)
    ensures
        match token {
            Some(t) => bearer_of(header@) == Some(t@),
            None => bearer_of(header@) is None,
        },
{
    let hv = chars_of(header);
    let pv = chars_of("Bearer ");
    if matches_at(&hv, &pv, 0) {
        Some(header.substring_char(pv.len(), hv.len()))
    } else {
        None
    }
}

/// The token that a request presents: that of its header, where it has one
/// of the form `Bearer <token>`, else the empty token.
pub fn presented_token<'a>(header: Option<&'a str>) -> (token: &'a str)
    ensures
        token@ == match header {
            Some(h) => match bearer_of(h@) {
                Some(t) => t,
                None => Seq::<char>::empty(),
            },
            None => Seq::<char>::empty(),
        },
{
    proof {
        reveal_strlit("");
        assert(""@ =~= Seq::<char>::empty());
    }
    match header {
        Some(h) => match bearer_token(h) {
            Some(t) => t,
            None => "",
        },
        None => "",
    }
}

/// Whether a header is `Bearer ` followed by exactly the expected token.
pub fn auth_header_is_valid(header: &str, expected_token: &str) -> (valid: bool)
    ensures
        valid == (bearer_of(header@) == Some(expected_token@)),
{
    match bearer_token(header) {
        Some(provided) => constant_time_eq(provided, expected_token),
        None => false,
    }
}

/// Whether a request may pass: it carries a header, and the header is valid
/// for the expected token.
pub fn is_authorized(header: Option<&str>, expected_token: &str) -> (allowed: bool)
    ensures
        allowed == (header matches Some(h) && bearer_of(h@) == Some(expected_token@)),
{
    match header {
        Some(h) => auth_header_is_valid(h, expected_token),
        None => false,
    }
}

/// The characters a fresh token is made of.
pub open spec fn token_alphabet() -> Seq<char> {
    "ABCDEFGHIJKLMNOPQRSTUVWXYZabcdefghijklmnopqrstuvwxyz0123456789"@
}

/// The token that a run of draws from the alphabet spells.
pub open spec fn token_of(draws: Seq<usize>) -> Seq<char> {
    Seq::new(draws.len(), |i: int| token_alphabet()[draws[i] as int])
}

/// How much of a fresh token is shown: its first six characters and a
/// mask.
pub open spec fn preview_of(token: Seq<char>) -> Seq<char> {
    leading(token, 6) + "***"@
}

/// The token that a run of draws from the alphabet spells: for each draw
/// the character at that place of the 62 letters and digits.
pub fn token_from(draws: &Vec<usize>) -> (token: String)
    requires
        forall|i: int| 0 <= i < draws.len() ==> draws[i] < 62,
    ensures
        token@ == token_of(draws@),
{
    proof {
        reveal_strlit("ABCDEFGHIJKLMNOPQRSTUVWXYZabcdefghijklmnopqrstuvwxyz0123456789");
    }
    let alphabet = "ABCDEFGHIJKLMNOPQRSTUVWXYZabcdefghijklmnopqrstuvwxyz0123456789";
    let mut token = String::new();
    let mut i: usize = 0;
    while i < draws.len()
        invariant
            i <= draws.len(),
            alphabet@ == token_alphabet(),
            alphabet@.len() == 62,
            forall|j: int| 0 <= j < draws.len() ==> draws[j] < 62,
            token@ == token_of(draws@.take(i as int)),
        decreases draws.len() - i,
    {
        let at = draws[i];
        token.append(alphabet.substring_char(at, at + 1));
        assert(token@ =~= token_of(draws@.take(i + 1)));
        i += 1;
    }
    assert(draws@.take(draws.len() as int) =~= draws@);
    token
}

/// A fresh token for the agent's API: 32 characters, each drawn at random
/// from the 62 letters and digits.
pub fn generate_token() -> (token: String)
    ensures
        token@.len() == 32,
        forall|i: int| 0 <= i < 32 ==> token_alphabet().contains(#[trigger] token@[i]),
{
    proof {
        reveal_strlit("ABCDEFGHIJKLMNOPQRSTUVWXYZabcdefghijklmnopqrstuvwxyz0123456789");
    }
    let mut draws: Vec<usize> = Vec::new();
    let mut n: usize = 0;
    while n < 32
        invariant
            n <= 32,
            draws.len() == n,
            forall|i: int| 0 <= i < draws.len() ==> draws[i] < 62,
        decreases 32 - n,
    {
        let draw = random_below(62);
        draws.push(draw);
        n += 1;
    }
    let token = token_from(&draws);
    assert forall|i: int| 0 <= i < 32 implies token_alphabet().contains(
        #[trigger] token@[i],
    ) by {
        assert(token@[i] == token_alphabet()[draws[i] as int]);
    }
    token
}

/// What is shown of a fresh token: its first six characters and `***`.
pub fn token_preview(token: &str) -> (preview: String)
    ensures
        preview@ == preview_of(token@),
{
    let mut preview = take_chars(token, 6).to_owned();
    preview.append("***");
    preview
}

} // verus!
