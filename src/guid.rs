use vstd::prelude::*;

verus! {

/// The lowercase hexadecimal digit for `d` (also the decimal digit for `d < 10`).
pub open spec fn hex_digit(d: int) -> char {
    if d == 0 { '0' }
    else if d == 1 { '1' }
    else if d == 2 { '2' }
    else if d == 3 { '3' }
    else if d == 4 { '4' }
    else if d == 5 { '5' }
    else if d == 6 { '6' }
    else if d == 7 { '7' }
    else if d == 8 { '8' }
    else if d == 9 { '9' }
    else if d == 10 { 'a' }
    else if d == 11 { 'b' }
    else if d == 12 { 'c' }
    else if d == 13 { 'd' }
    else if d == 14 { 'e' }
    else { 'f' }
}

/// The decimal text of `n`, without leading zeros.
pub open spec fn decimal(n: nat) -> Seq<char>
    decreases n,
{
    if n < 10 {
        seq![hex_digit(n as int)]
    } else {
        decimal(n / 10).push(hex_digit((n % 10) as int))
    }
}

/// Two lowercase hexadecimal digits for each byte of `b`.
pub open spec fn hex_bytes(b: Seq<u8>) -> Seq<char>
    decreases b.len(),
{
    if b.len() == 0 {
        Seq::empty()
    } else {
        hex_bytes(b.drop_last()) + seq![hex_digit(b.last() as int / 16), hex_digit(b.last() as int % 16)]
    }
}

/// An address as `0x` followed by lowercase hexadecimal.
pub open spec fn address_text(addr: Seq<u8>) -> Seq<char> {
    seq!['0', 'x'] + hex_bytes(addr)
}

/// The deterministic id of a premint: `{chain_id}:{address}:{uid}`.
pub open spec fn guid(chain_id: u64, addr: Seq<u8>, uid: u32) -> Seq<char> {
    decimal(chain_id as nat) + seq![':'] + address_text(addr) + seq![':'] + decimal(uid as nat)
}

/// Relies on String::push: the character is appended at the end.
#[verifier::external_body]
fn push_char(s: &mut String, c: char)
    ensures
        final(s)@ == old(s)@.push(c),
{
    s.push(c)
}

fn digit_char(d: u8) -> (c: char)
    requires
        d < 16,
    ensures
        c == hex_digit(d as int),
{
    match d {
        0 => '0',
        1 => '1',
        2 => '2',
        3 => '3',
        4 => '4',
        5 => '5',
        6 => '6',
        7 => '7',
        8 => '8',
        9 => '9',
        10 => 'a',
        11 => 'b',
        12 => 'c',
        13 => 'd',
        14 => 'e',
        _ => 'f',
    }
}

/// Appends the decimal text of `n` to `s`.
pub fn push_decimal(s: &mut String, n: u64)
    ensures
        final(s)@ == old(s)@ + decimal(n as nat),
    decreases n,
{
    if n >= 10 {
        push_decimal(s, n / 10);
    }
    push_char(s, digit_char((n % 10) as u8));
    assert(n < 10 ==> decimal(n as nat) == seq![hex_digit(n as int)]);
}

/// Appends `0x` and two lowercase hexadecimal digits per byte of `b` to `s`.
pub fn push_address(s: &mut String, b: &[u8])
    ensures
        final(s)@ == old(s)@ + address_text(b@),
{
    let ghost start = s@;
    push_char(s, '0');
    push_char(s, 'x');
    let mut i: usize = 0;
    while i < b.len()
        invariant
            0 <= i <= b@.len(),
            s@ == start + seq!['0', 'x'] + hex_bytes(b@.subrange(0, i as int)),
        decreases b@.len() - i,
    {
        let x = b[i];
        push_char(s, digit_char(x / 16));
        push_char(s, digit_char(x % 16));
        proof {
            let p = b@.subrange(0, i as int + 1);
            assert(p.drop_last() =~= b@.subrange(0, i as int));
            assert(p.last() == x);
        }
        i = i + 1;
    }
    assert(b@.subrange(0, b@.len() as int) =~= b@);
}

/// The deterministic id of the premint with uid `uid` in collection `addr`
/// on chain `chain_id`.
pub fn guid_string(chain_id: u64, addr: &[u8], uid: u32) -> (r: String)
    ensures
        r@ == guid(chain_id, addr@, uid),
{
    let mut s = String::new();
    push_decimal(&mut s, chain_id);
    push_char(&mut s, ':');
    push_address(&mut s, addr);
    push_char(&mut s, ':');
    push_decimal(&mut s, uid as u64);
    assert(s@ =~= guid(chain_id, addr@, uid));
    s
}

} // verus!
