//! Strings in the native toolkit's convention.
//!
//! The toolkit takes and returns NUL-terminated byte buffers.  Going out, a
//! Rust string's bytes must hold no NUL and gain a terminator; coming back,
//! the bytes before the first NUL are the string.  Both directions are
//! verified here on plain byte values; reading the bytes out of native memory
//! is the caller's unverified step.

use vstd::prelude::*;

verus! {

/// Whether the byte sequence holds a NUL byte anywhere.
pub open spec fn has_nul(s: Seq<u8>) -> bool {
    exists|i: int| 0 <= i < s.len() && s[i] == 0
}

/// The index of the first NUL byte, or the length when there is none.
pub open spec fn first_nul(s: Seq<u8>) -> int
    decreases s.len(),
{
    if s.len() == 0 {
        0
    } else if s[0] == 0 {
        0
    } else {
        1 + first_nul(s.drop_first())
    }
}

/// `first_nul` points at a NUL preceded by none: it is within bounds exactly
/// when the sequence holds a NUL, it then lands on a NUL, and every byte
/// before it is non-NUL.
pub proof fn lemma_first_nul(s: Seq<u8>)
    ensures
        0 <= first_nul(s) <= s.len(),
        has_nul(s) <==> first_nul(s) < s.len(),
        first_nul(s) < s.len() ==> s[first_nul(s)] == 0,
        forall|j: int| 0 <= j < first_nul(s) ==> s[j] != 0,
    decreases s.len(),
{
    if s.len() == 0 {
    } else if s[0] == 0 {
    } else {
        let t = s.drop_first();
        lemma_first_nul(t);
        assert forall|j: int| 0 <= j < first_nul(s) implies s[j] != 0 by {
            if j > 0 {
                assert(t[j - 1] == s[j]);
            }
        }
        if has_nul(s) {
            let i = choose|i: int| 0 <= i < s.len() && s[i] == 0;
            assert(t[i - 1] == 0);
            assert(has_nul(t));
        }
        if has_nul(t) {
            let i = choose|i: int| 0 <= i < t.len() && t[i] == 0;
            assert(s[i + 1] == 0);
        }
        if first_nul(s) < s.len() {
            assert(s[first_nul(s)] == t[first_nul(t)]);
        }
    }
}

/// A NUL at index `i` with none before it is the first one.
pub proof fn lemma_first_nul_at(s: Seq<u8>, i: int)
    requires
        0 <= i < s.len(),
        s[i] == 0,
        forall|j: int| 0 <= j < i ==> s[j] != 0,
    ensures
        first_nul(s) == i,
    decreases i,
{
    if i == 0 {
    } else {
        let t = s.drop_first();
        assert(s[0] != 0);
        assert(t[i - 1] == 0);
        assert forall|j: int| 0 <= j < i - 1 implies t[j] != 0 by {
            assert(t[j] == s[j + 1]);
        }
        lemma_first_nul_at(t, i - 1);
    }
}

/// Frame a string's bytes for a native call: append the NUL terminator, or
/// refuse bytes that already hold a NUL, which the C convention cannot carry.
pub fn to_c_bytes(s: &[u8]) -> (r: Option<Vec<u8>>)
    ensures
        r is Some <==> !has_nul(s@),
        r matches Some(v) ==> v@ == s@.push(0),
{
    let n = s.len();
    let mut i: usize = 0;
    while i < n
        invariant
            n == s@.len(),
            0 <= i <= n,
            forall|j: int| 0 <= j < i ==> s@[j] != 0,
        decreases n - i,
    {
        if s[i] == 0 {
            assert(has_nul(s@)) by {
                assert(s@[i as int] == 0);
            }
            return None;
        }
        i += 1;
    }
    let mut out: Vec<u8> = Vec::new();
    let mut k: usize = 0;
    while k < n
        invariant
            n == s@.len(),
            0 <= k <= n,
            forall|j: int| 0 <= j < n ==> s@[j] != 0,
            out@ == s@.take(k as int),
        decreases n - k,
    {
        out.push(s[k]);
        assert(s@.take(k as int + 1) =~= s@.take(k as int).push(s@[k as int]));
        k += 1;
    }
    out.push(0);
    assert(out@ =~= s@.push(0)) by {
        assert(s@.take(n as int) =~= s@);
    }
    Some(out)
}

/// Read a string back from a native call's buffer: the bytes before the
/// first NUL, or nothing when no terminator is present.
pub fn c_str_bytes(buf: &[u8]) -> (r: Option<Vec<u8>>)
    ensures
        r is Some <==> has_nul(buf@),
        r matches Some(v) ==> v@ == buf@.take(first_nul(buf@)),
{
    let n = buf.len();
    let mut i: usize = 0;
    while i < n
        invariant
            n == buf@.len(),
            0 <= i <= n,
            forall|j: int| 0 <= j < i ==> buf@[j] != 0,
        decreases n - i,
    {
        if buf[i] == 0 {
            assert(has_nul(buf@)) by {
                assert(buf@[i as int] == 0);
            }
            proof {
                lemma_first_nul_at(buf@, i as int);
            }
            let mut out: Vec<u8> = Vec::new();
            let mut k: usize = 0;
            while k < i
                invariant
                    n == buf@.len(),
                    0 <= k <= i <= n,
                    first_nul(buf@) == i,
                    out@ == buf@.take(k as int),
                decreases i - k,
            {
                out.push(buf[k]);
                assert(buf@.take(k as int + 1) =~= buf@.take(k as int).push(buf@[k as int]));
                k += 1;
            }
            return Some(out);
        }
        i += 1;
    }
    None
}

/// Framing bytes without a NUL and reading them back yields the original
/// bytes: the appended terminator is the first NUL of the framed buffer, and
/// what stands before it is exactly what was framed.
pub proof fn lemma_c_frame_round_trip(s: Seq<u8>)
    requires
        !has_nul(s),
    ensures
        has_nul(s.push(0)),
        first_nul(s.push(0)) == s.len(),
        s.push(0).take(first_nul(s.push(0))) == s,
{
    let f = s.push(0);
    assert(f[s.len() as int] == 0);
    assert forall|j: int| 0 <= j < s.len() implies f[j] != 0 by {
        assert(f[j] == s[j]);
    }
    lemma_first_nul_at(f, s.len() as int);
    assert(f.take(s.len() as int) =~= s);
}

} // verus!
