//! Base64 (RFC 4648, standard alphabet, padded), used to carry bytes
//! through shell commands.

use vstd::prelude::*;

verus! {

/// The character of a 6-bit value in the standard alphabet.
pub open spec fn b64_char(v: nat) -> char {
    if v < 26 {
        (65 + v) as char
    } else if v < 52 {
        (97 + (v - 26)) as char
    } else if v < 62 {
        (48 + (v - 52)) as char
    } else if v == 62 {
        '+'
    } else {
        '/'
    }
}

/// The padded standard base64 text of a byte sequence: each group of three
/// bytes becomes four characters, and a final group of one or two bytes
/// is padded with `=`.
pub open spec fn base64_std(b: Seq<u8>) -> Seq<char>
    decreases b.len(),
{
    if b.len() == 0 {
        seq![]
    } else if b.len() == 1 {
        seq![b64_char(b[0] as nat / 4), b64_char((b[0] as nat % 4) * 16), '=', '=']
    } else if b.len() == 2 {
        seq![
            b64_char(b[0] as nat / 4),
            b64_char((b[0] as nat % 4) * 16 + b[1] as nat / 16),
            b64_char((b[1] as nat % 16) * 4),
            '=',
        ]
    } else {
        seq![
            b64_char(b[0] as nat / 4),
            b64_char((b[0] as nat % 4) * 16 + b[1] as nat / 16),
            b64_char((b[1] as nat % 16) * 4 + b[2] as nat / 64),
            b64_char(b[2] as nat % 64),
        ] + base64_std(b.skip(3))
    }
}

/// `base64::Engine::encode` with the `STANDARD` engine: the padded
/// standard base64 text of the bytes. The engine panics when the length
/// of that text overflows `usize`, so such inputs are left out.
#[verifier::external_body]
pub(crate) fn base64_encode(data: &[u8]) -> (r: String)
    requires
        4 * ((data@.len() + 2) / 3) <= usize::MAX,
    ensures
        r@ == base64_std(data@),
{
    base64::Engine::encode(&base64::engine::general_purpose::STANDARD, data)
}

/// `base64::Engine::decode` with the `STANDARD` engine, which requires
/// canonical padding and no trailing bits: it succeeds on exactly the
/// texts that encoding produces, and gives back the bytes encoded. The
/// error is the engine's message.
#[verifier::external_body]
pub(crate) fn base64_decode(text: &str) -> (r: Result<Vec<u8>, String>)
    ensures
        match r {
            Ok(v) => base64_std(v@) == text@,
            Err(_) => forall|v: Seq<u8>| #[trigger] base64_std(v) != text@,
        },
{
    match base64::Engine::decode(&base64::engine::general_purpose::STANDARD, text) {
        Ok(v) => Ok(v),
        Err(e) => Err(e.to_string()),
    }
}

} // verus!

verus! {

/// The code point of the character of a 6-bit value.
pub open spec fn b64_code(v: nat) -> int {
    if v < 26 {
        65 + v as int
    } else if v < 52 {
        97 + v - 26
    } else if v < 62 {
        48 + v - 52
    } else if v == 62 {
        43
    } else {
        47
    }
}

/// Distinct 6-bit values have distinct characters, none of them `=`.
pub proof fn lemma_b64_char(x: nat, y: nat)
    requires
        x < 64,
        y < 64,
    ensures
        b64_char(x) != '=',
        b64_char(x) == b64_char(y) ==> x == y,
{
    assert(b64_char(x) as int == b64_code(x));
    assert(b64_char(y) as int == b64_code(y));
}

/// Three bytes are determined by their four 6-bit values.
pub proof fn lemma_group_injective(a0: nat, a1: nat, a2: nat, b0: nat, b1: nat, b2: nat)
    requires
        a0 < 256,
        a1 < 256,
        a2 < 256,
        b0 < 256,
        b1 < 256,
        b2 < 256,
        a0 / 4 == b0 / 4,
        (a0 % 4) * 16 + a1 / 16 == (b0 % 4) * 16 + b1 / 16,
        (a1 % 16) * 4 + a2 / 64 == (b1 % 16) * 4 + b2 / 64,
        a2 % 64 == b2 % 64,
    ensures
        a0 == b0,
        a1 == b1,
        a2 == b2,
{
    assert(a0 % 4 == b0 % 4 && a1 / 16 == b1 / 16) by (nonlinear_arith)
        requires
            (a0 % 4) * 16 + a1 / 16 == (b0 % 4) * 16 + b1 / 16,
            a1 < 256,
            b1 < 256,
    ;
    assert(a1 % 16 == b1 % 16 && a2 / 64 == b2 / 64) by (nonlinear_arith)
        requires
            (a1 % 16) * 4 + a2 / 64 == (b1 % 16) * 4 + b2 / 64,
            a2 < 256,
            b2 < 256,
    ;
    assert(a0 == b0) by (nonlinear_arith)
        requires
            a0 / 4 == b0 / 4,
            a0 % 4 == b0 % 4,
    ;
    assert(a1 == b1) by (nonlinear_arith)
        requires
            a1 / 16 == b1 / 16,
            a1 % 16 == b1 % 16,
    ;
    assert(a2 == b2) by (nonlinear_arith)
        requires
            a2 / 64 == b2 / 64,
            a2 % 64 == b2 % 64,
    ;
}

/// The first four characters of the text of a non-empty sequence, and
/// where its padding stands: the third character is `=` exactly when one
/// byte is left, the fourth exactly when one or two are.
pub proof fn lemma_base64_head(b: Seq<u8>)
    requires
        b.len() > 0,
    ensures
        base64_std(b).len() >= 4,
        base64_std(b)[0] == b64_char(b[0] as nat / 4),
        (base64_std(b)[2] == '=') <==> b.len() == 1,
        (base64_std(b)[3] == '=') <==> b.len() <= 2,
{
    let e = base64_std(b);
    lemma_b64_char(b[0] as nat / 4, 0);
    if b.len() == 1 {
        lemma_b64_char((b[0] as nat % 4) * 16, 0);
    } else if b.len() == 2 {
        lemma_b64_char((b[1] as nat % 16) * 4, 0);
    } else {
        lemma_b64_char((b[1] as nat % 16) * 4 + b[2] as nat / 64, 0);
        lemma_b64_char(b[2] as nat % 64, 0);
    }
}

/// Encoding loses nothing: two byte sequences with the same base64 text
/// are the same, so decoding gives back exactly the bytes encoded.
pub proof fn law_base64_injective(a: Seq<u8>, b: Seq<u8>)
    requires
        base64_std(a) == base64_std(b),
    ensures
        a == b,
    decreases a.len(),
{
    let e = base64_std(a);
    if a.len() == 0 {
        if b.len() > 0 {
            lemma_base64_head(b);
        }
        assert(a =~= b);
        return;
    }
    lemma_base64_head(a);
    if b.len() == 0 {
        assert(false);
    }
    lemma_base64_head(b);
    let a0 = a[0] as nat;
    let b0 = b[0] as nat;
    let a1 = if a.len() >= 2 { a[1] as nat } else { 0 };
    let b1 = if b.len() >= 2 { b[1] as nat } else { 0 };
    let a2 = if a.len() >= 3 { a[2] as nat } else { 0 };
    let b2 = if b.len() >= 3 { b[2] as nat } else { 0 };
    lemma_b64_char(a0 / 4, b0 / 4);
    lemma_b64_char((a0 % 4) * 16 + a1 / 16, (b0 % 4) * 16 + b1 / 16);
    lemma_b64_char((a1 % 16) * 4 + a2 / 64, (b1 % 16) * 4 + b2 / 64);
    lemma_b64_char(a2 % 64, b2 % 64);
    assert(e[1] == b64_char((a0 % 4) * 16 + a1 / 16));
    assert(e[1] == b64_char((b0 % 4) * 16 + b1 / 16));
    if a.len() >= 2 {
        assert(e[2] == b64_char((a1 % 16) * 4 + a2 / 64));
        assert(e[2] == b64_char((b1 % 16) * 4 + b2 / 64));
    }
    if a.len() >= 3 {
        assert(e[3] == b64_char(a2 % 64));
        assert(e[3] == b64_char(b2 % 64));
    }
    lemma_group_injective(a0, a1, a2, b0, b1, b2);
    if a.len() >= 3 {
        let ra = base64_std(a.skip(3));
        let rb = base64_std(b.skip(3));
        assert(e.skip(4) =~= ra);
        assert(base64_std(b).skip(4) =~= rb);
        law_base64_injective(a.skip(3), b.skip(3));
        assert(a =~= b) by {
            assert forall|k: int| 0 <= k < a.len() implies a[k] == b[k] by {
                if k >= 3 {
                    assert(a[k] == a.skip(3)[k - 3]);
                    assert(b[k] == b.skip(3)[k - 3]);
                }
            }
        }
    } else {
        assert(a =~= b);
    }
}

} // verus!
