//! Decoding of the fixed-capacity, NUL-terminated text fields embedded in
//! native result records.
//!
//! The native engine reports symbolic names (Hermann-Mauguin symbols, Hall
//! symbols, choice strings) in fixed-size byte buffers terminated by a NUL
//! byte. A buffer is decoded by copying the bytes before the first NUL into
//! an owned string; the engine is trusted to emit plain ASCII, so a missing
//! terminator or a non-ASCII byte is a contract violation reported as `None`.

use vstd::prelude::*;

verus! {

/// Length of the C string held in `s`: the index of the first NUL byte, or
/// the whole length of `s` when no NUL byte occurs.
pub open spec fn c_len(s: Seq<u8>) -> nat
    decreases s.len(),
{
    if s.len() == 0 {
        0
    } else if s[0] == 0 {
        0
    } else {
        (1 + c_len(s.drop_first())) as nat
    }
}

/// Whether `s` holds a NUL terminator at all.
pub open spec fn terminated(s: Seq<u8>) -> bool {
    exists|i: int| 0 <= i < s.len() && s[i] == 0
}

/// Whether every byte of the C string held in `s` is plain ASCII.
pub open spec fn ascii_clean(s: Seq<u8>) -> bool {
    forall|i: int| 0 <= i < c_len(s) ==> s[i] < 0x80
}

/// Whether `s` holds a decodable text field: NUL-terminated, ASCII before
/// the terminator.
pub open spec fn well_formed(s: Seq<u8>) -> bool {
    terminated(s) && ascii_clean(s)
}

/// The text of the C string held in `s`, as a sequence of characters.
pub open spec fn decoded(s: Seq<u8>) -> Seq<char> {
    s.take(c_len(s) as int).map_values(|b: u8| b as char)
}

/// The first NUL byte of `s` stands at index `c_len(s)`, and every byte
/// before it is non-NUL; when no byte of `s` is NUL, `c_len(s)` is the whole
/// length.
pub proof fn lemma_c_len(s: Seq<u8>)
    ensures
        c_len(s) <= s.len(),
        forall|i: int| 0 <= i < c_len(s) ==> s[i] != 0,
        c_len(s) < s.len() ==> s[c_len(s) as int] == 0,
    decreases s.len(),
{
    if s.len() == 0 {
    } else if s[0] == 0 {
    } else {
        lemma_c_len(s.drop_first());
        assert forall|i: int| 0 <= i < c_len(s) implies s[i] != 0 by {
            if i > 0 {
                assert(s.drop_first()[i - 1] == s[i]);
            }
        }
        if c_len(s) < s.len() {
            assert(s.drop_first()[c_len(s) - 1] == s[c_len(s) as int]);
        }
    }
}

/// Relies on `String::push`: appends exactly the given character.
#[verifier::external_body]
fn push_char(s: &mut String, c: char)
    ensures
        final(s)@ == old(s)@.push(c),
{
    s.push(c)
}

/// Decodes a fixed-size, NUL-terminated native text field into an owned
/// string.
///
/// Returns `None` exactly when the buffer holds no NUL terminator, or holds
/// a non-ASCII byte before the first NUL — either one a violation of the
/// native engine's contract, not a normal outcome.
pub fn decode_symbol(buf: &Vec<u8>) -> (r: Option<String>)
    ensures
        r is Some <==> well_formed(buf@),
        r matches Some(t) ==> t@ == decoded(buf@),
{
    proof {
        lemma_c_len(buf@);
    }
    let mut out = String::new();
    let mut i: usize = 0;
    let n: usize = buf.len();
    while i < n
        invariant
            n == buf@.len(),
            0 <= i <= n,
            forall|j: int| 0 <= j < i ==> buf@[j] != 0 && buf@[j] < 0x80,
            out@ == buf@.take(i as int).map_values(|b: u8| b as char),
        decreases n - i,
    {
        let b = buf[i];
        if b == 0 {
            proof {
                lemma_c_len(buf@);
                assert(c_len(buf@) == i);
                assert(decoded(buf@) =~= out@);
            }
            return Some(out);
        }
        if b >= 0x80 {
            proof {
                lemma_c_len(buf@);
                assert(c_len(buf@) > i);
                assert(!ascii_clean(buf@));
            }
            return None;
        }
        let c = b as char;
        push_char(&mut out, c);
        i += 1;
        proof {
            assert(out@ =~= buf@.take(i as int).map_values(|b: u8| b as char));
        }
    }
    proof {
        lemma_c_len(buf@);
        assert(c_len(buf@) == n);
        assert(!terminated(buf@));
    }
    None
}

} // verus!
