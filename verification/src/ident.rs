//! Tunnel identifiers: UUIDs in text form, keyed by their 128-bit value.

use vstd::prelude::*;
use crate::error::{ErrorKind, TunnelError, TunnelErrorView};
use crate::text::{digit_char, push_char};

verus! {

/// The 128-bit value of the UUID that `text` spells, in any of the
/// notations the `uuid` crate reads; `None` when `text` spells none.
pub uninterp spec fn uuid_value(text: Seq<char>) -> Option<u128>;

/// Parses a UUID.
///
/// Wraps `uuid::Uuid::parse_str` followed by `Uuid::as_u128`. The
/// parser accepts several notations; its result depends on the text
/// alone and is named [`uuid_value`] rather than restated.
#[verifier::external_body]
pub(crate) fn parse_uuid(text: &str) -> (r: Option<u128>)
    ensures
        r == uuid_value(text@),
{
    match uuid::Uuid::parse_str(text) {
        Ok(u) => Some(u.as_u128()),
        Err(_) => None,
    }
}

/// The error for a tunnel identifier that is no UUID.
pub open spec fn invalid_id(text: Seq<char>) -> TunnelErrorView {
    TunnelErrorView { kind: ErrorKind::Config, message: "Invalid tunnel ID: "@ + text }
}

/// Turns the outcome of parsing `text` into a key or a configuration
/// error that quotes `text`.
pub fn id_or_error(parsed: Option<u128>, text: &str) -> (r: Result<u128, TunnelError>)
    ensures
        match parsed {
            Some(id) => r == Ok::<u128, TunnelError>(id),
            None => r is Err && r->Err_0@ == invalid_id(text@),
        },
{
    match parsed {
        Some(id) => Ok(id),
        None => {
            let mut message = String::from_str("Invalid tunnel ID: ");
            message.append(text);
            Err(TunnelError { kind: ErrorKind::Config, message })
        },
    }
}

/// The key of the tunnel whose identifier is `text`.
pub fn tunnel_id(text: &str) -> (r: Result<u128, TunnelError>)
    ensures
        match uuid_value(text@) {
            Some(id) => r == Ok::<u128, TunnelError>(id),
            None => r is Err && r->Err_0@ == invalid_id(text@),
        },
{
    id_or_error(parse_uuid(text), text)
}

/// The lower-case hexadecimal digit for `d`.
pub open spec fn hex_char(d: u128) -> char {
    if d < 10 {
        digit_char(d as nat)
    } else if d == 10 {
        'a'
    } else if d == 11 {
        'b'
    } else if d == 12 {
        'c'
    } else if d == 13 {
        'd'
    } else if d == 14 {
        'e'
    } else {
        'f'
    }
}

/// The four bits of `id` that start `shift` bits above its lowest.
pub open spec fn nibble_at(id: u128, shift: u32) -> u128 {
    (id >> shift) & 0xf
}

/// The hexadecimal digit of `id` at position `k`, counted from the
/// most significant one, which is position 0.
pub open spec fn hex_digit_of(id: u128, k: nat) -> char {
    hex_char(nibble_at(id, (4 * (31 - k)) as u32))
}

/// The first `k` hexadecimal digits of `id`, most significant first,
/// with a hyphen before the digits at positions 8, 12, 16 and 20.
pub open spec fn uuid_text_to(id: u128, k: nat) -> Seq<char>
    decreases k,
{
    if k == 0 {
        Seq::<char>::empty()
    } else {
        let at = (k - 1) as nat;
        let before = uuid_text_to(id, at);
        let joined = if at == 8 || at == 12 || at == 16 || at == 20 {
            before.push('-')
        } else {
            before
        };
        joined.push(hex_digit_of(id, at))
    }
}

/// The usual text of the UUID whose value is `id`: its 32 lower-case
/// hexadecimal digits in groups of 8, 4, 4, 4 and 12, with hyphens
/// between the groups.
pub open spec fn uuid_text(id: u128) -> Seq<char> {
    uuid_text_to(id, 32)
}

fn hex_digit(d: u128) -> (c: char)
    requires
        d < 16,
    ensures
        c == hex_char(d),
{
    if d == 0 {
        '0'
    } else if d == 1 {
        '1'
    } else if d == 2 {
        '2'
    } else if d == 3 {
        '3'
    } else if d == 4 {
        '4'
    } else if d == 5 {
        '5'
    } else if d == 6 {
        '6'
    } else if d == 7 {
        '7'
    } else if d == 8 {
        '8'
    } else if d == 9 {
        '9'
    } else if d == 10 {
        'a'
    } else if d == 11 {
        'b'
    } else if d == 12 {
        'c'
    } else if d == 13 {
        'd'
    } else if d == 14 {
        'e'
    } else {
        'f'
    }
}

/// Appends the usual text of the UUID whose value is `id`.
pub fn push_uuid(out: &mut String, id: u128)
    ensures
        final(out)@ == old(out)@ + uuid_text(id),
{
    let mut k: u32 = 0;
    assert(old(out)@ + uuid_text_to(id, 0) =~= old(out)@);
    while k < 32
        invariant
            k <= 32,
            out@ == old(out)@ + uuid_text_to(id, k as nat),
        decreases 32 - k,
    {
        let ghost before = uuid_text_to(id, k as nat);
        if k == 8 || k == 12 || k == 16 || k == 20 {
            push_char(out, '-');
        }
        let shift: u32 = 4 * (31 - k);
        let d: u128 = (id >> shift) & 0xf;
        assert(d < 16) by (bit_vector)
            requires
                d == (id >> shift) & 0xf,
        ;
        push_char(out, hex_digit(d));
        k += 1;
        assert(out@ =~= old(out)@ + uuid_text_to(id, k as nat));
    }
}

/// The usual text of the UUID whose value is `id`.
pub fn uuid_string(id: u128) -> (s: String)
    ensures
        s@ == uuid_text(id),
{
    let mut s = String::new();
    push_uuid(&mut s, id);
    assert(Seq::<char>::empty() + uuid_text(id) =~= uuid_text(id));
    s
}

} // verus!
