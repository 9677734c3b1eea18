//! Primitive byte codec shared by the instruction payloads and the stored
//! account records. The format is the one the off-chain tooling produces:
//! little-endian fixed-width integers, one-byte booleans, raw fixed-size byte
//! arrays, `u32`-length-prefixed byte strings and lists, and one leading tag
//! byte for options and enums.
//!
//! Every value has a spec-level encoder `enc_*` and decoder `dec_*`; the
//! executable readers and writers are proved to match them exactly, and the
//! `lemma_dec_*` lemmas state that decoding an encoding embedded in a larger
//! buffer yields the encoded value back.

use vstd::prelude::*;
use vstd::bytes::lemma_auto_spec_u32_to_from_le_bytes;
use vstd::bytes::lemma_auto_spec_u64_to_from_le_bytes;
use vstd::bytes::spec_u32_from_le_bytes;
use vstd::bytes::spec_u32_to_le_bytes;
use vstd::bytes::spec_u64_from_le_bytes;
use vstd::bytes::spec_u64_to_le_bytes;
use vstd::bytes::u32_to_le_bytes;
use vstd::bytes::u64_to_le_bytes;

verus! {

// ===== spec encoders =====

pub open spec fn enc_u8(x: u8) -> Seq<u8> {
    seq![x]
}

pub open spec fn enc_bool(b: bool) -> Seq<u8> {
    seq![if b { 1u8 } else { 0u8 }]
}

pub open spec fn enc_u32(x: u32) -> Seq<u8> {
    spec_u32_to_le_bytes(x)
}

pub open spec fn enc_u64(x: u64) -> Seq<u8> {
    spec_u64_to_le_bytes(x)
}

/// A length-prefixed byte string: four little-endian length bytes, then the bytes.
pub open spec fn enc_bytes(s: Seq<u8>) -> Seq<u8>
    recommends
        s.len() <= u32::MAX,
{
    enc_u32(s.len() as u32) + s
}

// ===== spec decoders =====
//
// Each decoder takes the whole buffer and a position, and returns the decoded
// value with the position just past it, or `None` where the bytes do not hold
// a valid encoding.

pub open spec fn dec_u8(s: Seq<u8>, i: int) -> Option<(u8, int)> {
    if 0 <= i && i + 1 <= s.len() {
        Some((s[i], i + 1))
    } else {
        None
    }
}

pub open spec fn dec_bool(s: Seq<u8>, i: int) -> Option<(bool, int)> {
    if 0 <= i && i + 1 <= s.len() && (s[i] == 0 || s[i] == 1) {
        Some((s[i] == 1, i + 1))
    } else {
        None
    }
}

pub open spec fn dec_u32(s: Seq<u8>, i: int) -> Option<(u32, int)> {
    if 0 <= i && i + 4 <= s.len() {
        Some((spec_u32_from_le_bytes(s.subrange(i, i + 4)), i + 4))
    } else {
        None
    }
}

pub open spec fn dec_u64(s: Seq<u8>, i: int) -> Option<(u64, int)> {
    if 0 <= i && i + 8 <= s.len() {
        Some((spec_u64_from_le_bytes(s.subrange(i, i + 8)), i + 8))
    } else {
        None
    }
}

/// A fixed-size run of `n` raw bytes.
pub open spec fn dec_raw(s: Seq<u8>, i: int, n: int) -> Option<(Seq<u8>, int)> {
    if 0 <= i && 0 <= n && i + n <= s.len() {
        Some((s.subrange(i, i + n), i + n))
    } else {
        None
    }
}

/// A length-prefixed byte string.
pub open spec fn dec_bytes(s: Seq<u8>, i: int) -> Option<(Seq<u8>, int)> {
    match dec_u32(s, i) {
        Some((n, j)) => {
            if j + n <= s.len() {
                Some((s.subrange(j, j + n), j + n))
            } else {
                None
            }
        },
        None => None,
    }
}

// ===== executable writers =====

pub fn write_u8(out: &mut Vec<u8>, x: u8)
    ensures
        final(out)@ == old(out)@ + enc_u8(x),
{
    out.push(x);
    proof {
        assert(out@ =~= old(out)@ + enc_u8(x));
    }
}

pub fn write_bool(out: &mut Vec<u8>, b: bool)
    ensures
        final(out)@ == old(out)@ + enc_bool(b),
{
    out.push(if b { 1u8 } else { 0u8 });
    proof {
        assert(out@ =~= old(out)@ + enc_bool(b));
    }
}

pub fn write_u32(out: &mut Vec<u8>, x: u32)
    ensures
        final(out)@ == old(out)@ + enc_u32(x),
{
    let mut bytes = u32_to_le_bytes(x);
    out.append(&mut bytes);
    proof {
        assert(out@ =~= old(out)@ + enc_u32(x));
    }
}

pub fn write_u64(out: &mut Vec<u8>, x: u64)
    ensures
        final(out)@ == old(out)@ + enc_u64(x),
{
    let mut bytes = u64_to_le_bytes(x);
    out.append(&mut bytes);
    proof {
        assert(out@ =~= old(out)@ + enc_u64(x));
    }
}

/// Appends `n` bytes of `src` starting at `from`, raw.
pub fn write_raw(out: &mut Vec<u8>, src: &[u8], from: usize, n: usize)
    requires
        from + n <= src@.len(),
    ensures
        final(out)@ == old(out)@ + src@.subrange(from as int, from as int + n as int),
{
    let src_len = src.len();
    let mut i: usize = 0;
    while i < n
        invariant
            i <= n,
            from + n <= src@.len(),
            src@.len() <= usize::MAX,
            out@ == old(out)@ + src@.subrange(from as int, from as int + i as int),
        decreases n - i,
    {
        let ghost prev = out@;
        out.push(src[from + i]);
        i = i + 1;
        proof {
            assert(out@ =~= old(out)@ + src@.subrange(from as int, from as int + i as int));
        }
    }
}

/// Appends a whole slice, raw (a fixed-size array field).
pub fn write_arr(out: &mut Vec<u8>, src: &[u8])
    ensures
        final(out)@ == old(out)@ + src@,
{
    write_raw(out, src, 0, src.len());
    proof {
        assert(src@.subrange(0, src@.len() as int) =~= src@);
    }
}

/// Appends a length-prefixed byte string.
pub fn write_bytes(out: &mut Vec<u8>, src: &Vec<u8>)
    requires
        src@.len() <= u32::MAX,
    ensures
        final(out)@ == old(out)@ + enc_bytes(src@),
{
    write_u32(out, src.len() as u32);
    write_raw(out, src.as_slice(), 0, src.len());
    proof {
        assert(src@.subrange(0, src@.len() as int) =~= src@);
        assert(out@ =~= old(out)@ + enc_bytes(src@));
    }
}

// ===== executable readers =====

pub fn read_u8(data: &Vec<u8>, pos: usize) -> (r: Option<(u8, usize)>)
    ensures
        match r {
            Some((v, end)) => dec_u8(data@, pos as int) == Some((v, end as int)),
            None => dec_u8(data@, pos as int) is None,
        },
{
    if pos < data.len() {
        Some((data[pos], pos + 1))
    } else {
        None
    }
}

pub fn read_bool(data: &Vec<u8>, pos: usize) -> (r: Option<(bool, usize)>)
    ensures
        match r {
            Some((v, end)) => dec_bool(data@, pos as int) == Some((v, end as int)),
            None => dec_bool(data@, pos as int) is None,
        },
{
    if pos < data.len() {
        let b = data[pos];
        if b == 0 || b == 1 {
            Some((b == 1, pos + 1))
        } else {
            None
        }
    } else {
        None
    }
}

pub fn read_u32(data: &Vec<u8>, pos: usize) -> (r: Option<(u32, usize)>)
    ensures
        match r {
            Some((v, end)) => dec_u32(data@, pos as int) == Some((v, end as int)),
            None => dec_u32(data@, pos as int) is None,
        },
{
    if pos <= data.len() && data.len() - pos >= 4 {
        let sub = vstd::slice::slice_subrange(data.as_slice(), pos, pos + 4);
        let v = vstd::bytes::u32_from_le_bytes(sub);
        Some((v, pos + 4))
    } else {
        None
    }
}

pub fn read_u64(data: &Vec<u8>, pos: usize) -> (r: Option<(u64, usize)>)
    ensures
        match r {
            Some((v, end)) => dec_u64(data@, pos as int) == Some((v, end as int)),
            None => dec_u64(data@, pos as int) is None,
        },
{
    if pos <= data.len() && data.len() - pos >= 8 {
        let sub = vstd::slice::slice_subrange(data.as_slice(), pos, pos + 8);
        let v = vstd::bytes::u64_from_le_bytes(sub);
        Some((v, pos + 8))
    } else {
        None
    }
}

/// Reads 32 raw bytes into a fixed array.
pub fn read_bytes32(data: &Vec<u8>, pos: usize) -> (r: Option<([u8; 32], usize)>)
    ensures
        match r {
            Some((v, end)) => dec_raw(data@, pos as int, 32) == Some((v@, end as int)),
            None => dec_raw(data@, pos as int, 32) is None,
        },
{
    if pos <= data.len() && data.len() - pos >= 32 {
        let mut a: [u8; 32] = [0u8; 32];
        let mut i: usize = 0;
        while i < 32
            invariant
                i <= 32,
                pos + 32 <= data@.len(),
                data@.len() <= usize::MAX,
                forall|j: int| 0 <= j < i ==> a@[j] == data@[pos + j],
            decreases 32 - i,
        {
            a[i] = data[pos + i];
            i = i + 1;
        }
        proof {
            assert(a@ =~= data@.subrange(pos as int, pos as int + 32));
        }
        Some((a, pos + 32))
    } else {
        None
    }
}

/// Reads 33 raw bytes (a compressed secp256k1 public key) into a fixed array.
pub fn read_bytes33(data: &Vec<u8>, pos: usize) -> (r: Option<([u8; 33], usize)>)
    ensures
        match r {
            Some((v, end)) => dec_raw(data@, pos as int, 33) == Some((v@, end as int)),
            None => dec_raw(data@, pos as int, 33) is None,
        },
{
    if pos <= data.len() && data.len() - pos >= 33 {
        let mut a: [u8; 33] = [0u8; 33];
        let mut i: usize = 0;
        while i < 33
            invariant
                i <= 33,
                pos + 33 <= data@.len(),
                data@.len() <= usize::MAX,
                forall|j: int| 0 <= j < i ==> a@[j] == data@[pos + j],
            decreases 33 - i,
        {
            a[i] = data[pos + i];
            i = i + 1;
        }
        proof {
            assert(a@ =~= data@.subrange(pos as int, pos as int + 33));
        }
        Some((a, pos + 33))
    } else {
        None
    }
}

/// Reads 64 raw bytes (a signature) into a fixed array.
pub fn read_bytes64(data: &Vec<u8>, pos: usize) -> (r: Option<([u8; 64], usize)>)
    ensures
        match r {
            Some((v, end)) => dec_raw(data@, pos as int, 64) == Some((v@, end as int)),
            None => dec_raw(data@, pos as int, 64) is None,
        },
{
    if pos <= data.len() && data.len() - pos >= 64 {
        let mut a: [u8; 64] = [0u8; 64];
        let mut i: usize = 0;
        while i < 64
            invariant
                i <= 64,
                pos + 64 <= data@.len(),
                data@.len() <= usize::MAX,
                forall|j: int| 0 <= j < i ==> a@[j] == data@[pos + j],
            decreases 64 - i,
        {
            a[i] = data[pos + i];
            i = i + 1;
        }
        proof {
            assert(a@ =~= data@.subrange(pos as int, pos as int + 64));
        }
        Some((a, pos + 64))
    } else {
        None
    }
}

/// Reads a length-prefixed byte string.
pub fn read_bytes(data: &Vec<u8>, pos: usize) -> (r: Option<(Vec<u8>, usize)>)
    ensures
        match r {
            Some((v, end)) => dec_bytes(data@, pos as int) == Some((v@, end as int)),
            None => dec_bytes(data@, pos as int) is None,
        },
{
    match read_u32(data, pos) {
        Some((n, j)) => {
            if (n as usize) <= data.len() - j {
                let n = n as usize;
                let mut v: Vec<u8> = Vec::new();
                let mut i: usize = 0;
                while i < n
                    invariant
                        i <= n,
                        j + n <= data@.len(),
                        data@.len() <= usize::MAX,
                        v@ == data@.subrange(j as int, j as int + i as int),
                    decreases n - i,
                {
                    v.push(data[j + i]);
                    i = i + 1;
                    proof {
                        assert(v@ =~= data@.subrange(j as int, j as int + i as int));
                    }
                }
                Some((v, j + n))
            } else {
                None
            }
        },
        None => None,
    }
}

// ===== optional 32-byte keys =====

/// The view of an optional 32-byte key.
pub open spec fn view_opt_key(o: Option<[u8; 32]>) -> Option<Seq<u8>> {
    match o {
        Some(k) => Some(k@),
        None => None,
    }
}

/// An optional 32-byte key: a zero tag byte for absent, a one tag byte and
/// the raw key bytes for present.
pub open spec fn enc_opt_key(o: Option<Seq<u8>>) -> Seq<u8> {
    match o {
        None => seq![0u8],
        Some(k) => seq![1u8] + k,
    }
}

pub open spec fn dec_opt_key(s: Seq<u8>, i: int) -> Option<(Option<Seq<u8>>, int)> {
    match dec_u8(s, i) {
        Some((tag, j)) => {
            if tag == 0 {
                Some((None, j))
            } else if tag == 1 {
                match dec_raw(s, j, 32) {
                    Some((k, l)) => Some((Some(k), l)),
                    None => None,
                }
            } else {
                None
            }
        },
        None => None,
    }
}

pub fn write_opt_key(out: &mut Vec<u8>, o: &Option<[u8; 32]>)
    ensures
        final(out)@ == old(out)@ + enc_opt_key(view_opt_key(*o)),
{
    match o {
        None => {
            write_u8(out, 0);
        },
        Some(k) => {
            write_u8(out, 1);
            write_arr(out, k.as_slice());
            proof {
                assert(out@ =~= old(out)@ + enc_opt_key(view_opt_key(*o)));
            }
        },
    }
}

pub fn read_opt_key(data: &Vec<u8>, pos: usize) -> (r: Option<(Option<[u8; 32]>, usize)>)
    ensures
        match r {
            Some((v, end)) => dec_opt_key(data@, pos as int) == Some((view_opt_key(v), end as int)),
            None => dec_opt_key(data@, pos as int) is None,
        },
{
    match read_u8(data, pos) {
        Some((tag, j)) => {
            if tag == 0 {
                Some((None, j))
            } else if tag == 1 {
                match read_bytes32(data, j) {
                    Some((k, l)) => Some((Some(k), l)),
                    None => None,
                }
            } else {
                None
            }
        },
        None => None,
    }
}

pub proof fn lemma_dec_opt_key(s: Seq<u8>, i: int, o: Option<Seq<u8>>)
    requires
        0 <= i,
        o matches Some(k) ==> k.len() == 32,
        i + enc_opt_key(o).len() <= s.len(),
        s.subrange(i, i + enc_opt_key(o).len()) == enc_opt_key(o),
    ensures
        dec_opt_key(s, i) == Some((o, i + enc_opt_key(o).len())),
{
    let e = enc_opt_key(o);
    match o {
        None => {
            assert(s[i] == e[0]);
        },
        Some(k) => {
            assert(s[i] == e[0]);
            assert(s.subrange(i + 1, i + 33) =~= k) by {
                assert(forall|j: int|
                    0 <= j < 32 ==> s.subrange(i + 1, i + 33)[j] == s[i + 1 + j] && s[i + 1 + j]
                        == e[1 + j] && e[1 + j] == k[j]);
            }
        },
    }
}

// ===== optional byte strings =====

/// The view of an optional byte string.
pub open spec fn view_opt_bytes(o: Option<Vec<u8>>) -> Option<Seq<u8>> {
    match o {
        Some(b) => Some(b@),
        None => None,
    }
}

/// An optional length-prefixed byte string: a zero tag byte for absent, a one
/// tag byte and the string for present.
pub open spec fn enc_opt_bytes(o: Option<Seq<u8>>) -> Seq<u8>
    recommends
        o matches Some(b) ==> b.len() <= u32::MAX,
{
    match o {
        None => seq![0u8],
        Some(b) => seq![1u8] + enc_bytes(b),
    }
}

pub open spec fn dec_opt_bytes(s: Seq<u8>, i: int) -> Option<(Option<Seq<u8>>, int)> {
    match dec_u8(s, i) {
        Some((tag, j)) => {
            if tag == 0 {
                Some((None, j))
            } else if tag == 1 {
                match dec_bytes(s, j) {
                    Some((b, l)) => Some((Some(b), l)),
                    None => None,
                }
            } else {
                None
            }
        },
        None => None,
    }
}

pub fn write_opt_bytes(out: &mut Vec<u8>, o: &Option<Vec<u8>>)
    requires
        o matches Some(b) ==> b@.len() <= u32::MAX,
    ensures
        final(out)@ == old(out)@ + enc_opt_bytes(view_opt_bytes(*o)),
{
    match o {
        None => {
            write_u8(out, 0);
        },
        Some(b) => {
            write_u8(out, 1);
            write_bytes(out, b);
            proof {
                assert(out@ =~= old(out)@ + enc_opt_bytes(view_opt_bytes(*o)));
            }
        },
    }
}

pub fn read_opt_bytes(data: &Vec<u8>, pos: usize) -> (r: Option<(Option<Vec<u8>>, usize)>)
    ensures
        match r {
            Some((v, end)) => dec_opt_bytes(data@, pos as int) == Some(
                (view_opt_bytes(v), end as int),
            ),
            None => dec_opt_bytes(data@, pos as int) is None,
        },
{
    match read_u8(data, pos) {
        Some((tag, j)) => {
            if tag == 0 {
                Some((None, j))
            } else if tag == 1 {
                match read_bytes(data, j) {
                    Some((b, l)) => Some((Some(b), l)),
                    None => None,
                }
            } else {
                None
            }
        },
        None => None,
    }
}

pub proof fn lemma_dec_opt_bytes(s: Seq<u8>, i: int, o: Option<Seq<u8>>)
    requires
        0 <= i,
        o matches Some(b) ==> b.len() <= u32::MAX,
        i + enc_opt_bytes(o).len() <= s.len(),
        s.subrange(i, i + enc_opt_bytes(o).len()) == enc_opt_bytes(o),
    ensures
        dec_opt_bytes(s, i) == Some((o, i + enc_opt_bytes(o).len())),
{
    lemma_auto_spec_u32_to_from_le_bytes();
    let e = enc_opt_bytes(o);
    match o {
        None => {
            assert(s[i] == e[0]);
        },
        Some(b) => {
            assert(s[i] == e[0]);
            lemma_subrange_chunk(s, i, e, 1, 4 + b.len() as int);
            assert(e.subrange(1, 1 + 4 + b.len() as int) =~= enc_bytes(b));
            lemma_dec_bytes(s, i + 1, b);
        },
    }
}

// ===== embedding helper =====

/// A chunk of an encoding embedded in a larger buffer is the matching
/// subrange of the buffer.
pub proof fn lemma_subrange_chunk(s: Seq<u8>, i: int, e: Seq<u8>, off: int, len: int)
    requires
        0 <= i,
        0 <= off,
        0 <= len,
        off + len <= e.len(),
        i + e.len() <= s.len(),
        s.subrange(i, i + e.len()) == e,
    ensures
        s.subrange(i + off, i + off + len) == e.subrange(off, off + len),
{
    assert(s.subrange(i + off, i + off + len) =~= e.subrange(off, off + len)) by {
        assert(forall|j: int|
            #![trigger s.subrange(i + off, i + off + len)[j]]
            0 <= j < len ==> s.subrange(i + off, i + off + len)[j] == s[i + off + j] && s[i + off
                + j] == s.subrange(i, i + e.len())[off + j]);
    }
}

// ===== lists of 32-byte keys =====

/// The raw concatenation of a list of 32-byte keys.
pub open spec fn enc_key_items(p: Seq<Seq<u8>>) -> Seq<u8>
    decreases p.len(),
{
    if p.len() == 0 {
        Seq::<u8>::empty()
    } else {
        p[0] + enc_key_items(p.skip(1))
    }
}

/// A length-prefixed list of 32-byte keys.
pub open spec fn enc_key_list(p: Seq<Seq<u8>>) -> Seq<u8>
    recommends
        p.len() <= u32::MAX,
{
    enc_u32(p.len() as u32) + enc_key_items(p)
}

/// Reads `n` consecutive 32-byte keys.
pub open spec fn dec_key_items(s: Seq<u8>, i: int, n: int) -> Option<(Seq<Seq<u8>>, int)>
    decreases n,
{
    if n <= 0 {
        Some((Seq::<Seq<u8>>::empty(), i))
    } else {
        match dec_raw(s, i, 32) {
            Some((k, j)) => match dec_key_items(s, j, n - 1) {
                Some((rest, l)) => Some((seq![k] + rest, l)),
                None => None,
            },
            None => None,
        }
    }
}

/// A length-prefixed list of 32-byte keys.
pub open spec fn dec_key_list(s: Seq<u8>, i: int) -> Option<(Seq<Seq<u8>>, int)> {
    match dec_u32(s, i) {
        Some((n, j)) => dec_key_items(s, j, n as int),
        None => None,
    }
}

/// A list of well-formed keys: each 32 bytes long.
pub open spec fn key_list_wf(p: Seq<Seq<u8>>) -> bool {
    forall|k: int| 0 <= k < p.len() ==> (#[trigger] p[k]).len() == 32
}

/// Each key contributes exactly 32 bytes to the concatenation.
pub proof fn lemma_enc_key_items_len(p: Seq<Seq<u8>>)
    requires
        key_list_wf(p),
    ensures
        enc_key_items(p).len() == 32 * p.len(),
    decreases p.len(),
{
    if p.len() > 0 {
        assert(key_list_wf(p.skip(1)));
        lemma_enc_key_items_len(p.skip(1));
    }
}

/// Appends a length-prefixed list of 32-byte keys.
pub fn write_key_list(out: &mut Vec<u8>, p: &Vec<[u8; 32]>)
    requires
        p@.len() <= u32::MAX,
    ensures
        final(out)@ == old(out)@ + enc_key_list(p.deep_view()),
{
    write_u32(out, p.len() as u32);
    let ghost whole = p.deep_view();
    let mut i: usize = 0;
    proof {
        assert(whole.skip(0) =~= whole);
        assert(enc_key_items(whole.skip(p@.len() as int)) =~= Seq::<u8>::empty());
    }
    while i < p.len()
        invariant
            i <= p@.len(),
            whole == p.deep_view(),
            out@ + enc_key_items(whole.skip(i as int)) == old(out)@ + enc_key_list(whole),
        decreases p@.len() - i,
    {
        let ghost rest = whole.skip(i as int);
        write_arr(out, p[i].as_slice());
        proof {
            assert(rest[0] == p@[i as int]@);
            assert(rest.skip(1) =~= whole.skip(i + 1));
            assert(out@ + enc_key_items(whole.skip(i + 1)) =~= old(out)@ + enc_key_list(whole));
        }
        i = i + 1;
    }
    proof {
        assert(out@ =~= out@ + enc_key_items(whole.skip(p@.len() as int)));
    }
}

/// Reads a length-prefixed list of 32-byte keys.
pub fn read_key_list(data: &Vec<u8>, pos: usize) -> (r: Option<(Vec<[u8; 32]>, usize)>)
    ensures
        match r {
            Some((v, end)) => dec_key_list(data@, pos as int) == Some((v.deep_view(), end as int)),
            None => dec_key_list(data@, pos as int) is None,
        },
{
    match read_u32(data, pos) {
        Some((n, j)) => {
            let mut v: Vec<[u8; 32]> = Vec::new();
            let mut i: u32 = 0;
            let mut at: usize = j;
            while i < n
                invariant
                    i <= n,
                    v@.len() == i,
                    dec_u32(data@, pos as int) == Some((n, j as int)),
                    dec_key_items(data@, j as int, n as int) == (match dec_key_items(
                        data@,
                        at as int,
                        n as int - i as int,
                    ) {
                        Some((rest, end)) => Some((v.deep_view() + rest, end)),
                        None => None::<(Seq<Seq<u8>>, int)>,
                    }),
                decreases n - i,
            {
                let ghost prefix = v.deep_view();
                match read_bytes32(data, at) {
                    Some((k, next)) => {
                        v.push(k);
                        proof {
                            assert(v.deep_view() =~~= prefix + seq![k@]);
                            assert(forall|rest: Seq<Seq<u8>>|
                                (prefix + seq![k@]) + rest =~= prefix + (seq![k@] + rest));
                        }
                        at = next;
                    },
                    None => {
                        return None;
                    },
                }
                i = i + 1;
            }
            proof {
                assert(dec_key_items(data@, at as int, 0) == Some(
                    (Seq::<Seq<u8>>::empty(), at as int),
                ));
                assert(v.deep_view() + Seq::<Seq<u8>>::empty() =~~= v.deep_view());
            }
            Some((v, at))
        },
        None => None,
    }
}

/// Decoding an encoded key list embedded in a buffer yields the list back.
pub proof fn lemma_dec_key_items(s: Seq<u8>, i: int, p: Seq<Seq<u8>>)
    requires
        0 <= i,
        key_list_wf(p),
        i + enc_key_items(p).len() <= s.len(),
        s.subrange(i, i + enc_key_items(p).len()) == enc_key_items(p),
    ensures
        dec_key_items(s, i, p.len() as int) == Some((p, i + enc_key_items(p).len())),
    decreases p.len(),
{
    if p.len() == 0 {
        assert(p =~= Seq::<Seq<u8>>::empty());
    } else {
        let e = enc_key_items(p);
        let tail = p.skip(1);
        let etail = enc_key_items(tail);
        assert(key_list_wf(tail));
        lemma_enc_key_items_len(p);
        lemma_enc_key_items_len(tail);
        assert(s.subrange(i, i + 32) =~= p[0]) by {
            assert(forall|j: int|
                #![trigger s.subrange(i, i + 32)[j]]
                0 <= j < 32 ==> s.subrange(i, i + 32)[j] == s[i + j] && s[i + j] == e[j] && e[j]
                    == p[0][j]);
        }
        assert(s.subrange(i + 32, i + 32 + etail.len()) =~= etail) by {
            assert(forall|j: int|
                #![trigger s.subrange(i + 32, i + 32 + etail.len())[j]]
                0 <= j < etail.len() ==> s.subrange(i + 32, i + 32 + etail.len())[j] == s[i + 32
                    + j] && s[i + 32 + j] == e[32 + j] && e[32 + j] == etail[j]);
        }
        lemma_dec_key_items(s, i + 32, tail);
        assert(seq![p[0]] + tail =~= p);
    }
}

pub proof fn lemma_dec_key_list(s: Seq<u8>, i: int, p: Seq<Seq<u8>>)
    requires
        0 <= i,
        key_list_wf(p),
        p.len() <= u32::MAX,
        i + enc_key_list(p).len() <= s.len(),
        s.subrange(i, i + enc_key_list(p).len()) == enc_key_list(p),
    ensures
        dec_key_list(s, i) == Some((p, i + enc_key_list(p).len())),
{
    lemma_auto_spec_u32_to_from_le_bytes();
    let e = enc_key_list(p);
    let items = enc_key_items(p);
    assert(s.subrange(i, i + 4) =~= enc_u32(p.len() as u32)) by {
        assert(forall|j: int|
            #![trigger s.subrange(i, i + 4)[j]]
            0 <= j < 4 ==> s.subrange(i, i + 4)[j] == s[i + j] && s[i + j] == e[j]);
    }
    lemma_dec_u32(s, i, p.len() as u32);
    assert(s.subrange(i + 4, i + 4 + items.len()) =~= items) by {
        assert(forall|j: int|
            #![trigger s.subrange(i + 4, i + 4 + items.len())[j]]
            0 <= j < items.len() ==> s.subrange(i + 4, i + 4 + items.len())[j] == s[i + 4 + j] && s[
                i + 4 + j] == e[4 + j]);
    }
    lemma_dec_key_items(s, i + 4, p);
}

/// A fresh byte vector with the same contents.
pub fn copy_bytes(v: &Vec<u8>) -> (r: Vec<u8>)
    ensures
        r@ == v@,
{
    let mut out: Vec<u8> = Vec::new();
    write_arr(&mut out, v.as_slice());
    out
}

/// Byte-for-byte equality of two slices.
pub fn bytes_equal(a: &[u8], b: &[u8]) -> (r: bool)
    ensures
        r <==> a@ == b@,
{
    if a.len() != b.len() {
        proof {
            if a@ == b@ {
                assert(a@.len() == b@.len());
            }
        }
        return false;
    }
    let n = a.len();
    let mut i: usize = 0;
    while i < n
        invariant
            i <= n,
            n == a@.len(),
            a@.len() == b@.len(),
            forall|j: int| 0 <= j < i ==> a@[j] == b@[j],
        decreases n - i,
    {
        if a[i] != b[i] {
            proof {
                if a@ == b@ {
                    assert(a@[i as int] == b@[i as int]);
                }
            }
            return false;
        }
        i = i + 1;
    }
    proof {
        assert(a@ =~= b@);
    }
    true
}

// ===== round-trip lemmas =====
//
// Each lemma says: where a buffer holds the encoding of a value at some
// position, the decoder at that position returns exactly that value and stops
// just past it.

pub proof fn lemma_dec_u8(s: Seq<u8>, i: int, x: u8)
    requires
        0 <= i,
        i + 1 <= s.len(),
        s.subrange(i, i + 1) == enc_u8(x),
    ensures
        dec_u8(s, i) == Some((x, i + 1)),
{
    assert(s[i] == enc_u8(x)[0]);
}

pub proof fn lemma_dec_bool(s: Seq<u8>, i: int, b: bool)
    requires
        0 <= i,
        i + 1 <= s.len(),
        s.subrange(i, i + 1) == enc_bool(b),
    ensures
        dec_bool(s, i) == Some((b, i + 1)),
{
    assert(s[i] == enc_bool(b)[0]);
}

pub proof fn lemma_dec_u32(s: Seq<u8>, i: int, x: u32)
    requires
        0 <= i,
        i + 4 <= s.len(),
        s.subrange(i, i + 4) == enc_u32(x),
    ensures
        dec_u32(s, i) == Some((x, i + 4)),
{
    lemma_auto_spec_u32_to_from_le_bytes();
    assert(s.subrange(i, i + 4) == spec_u32_to_le_bytes(x));
    assert(spec_u32_from_le_bytes(spec_u32_to_le_bytes(x)) == x);
}

pub proof fn lemma_dec_u64(s: Seq<u8>, i: int, x: u64)
    requires
        0 <= i,
        i + 8 <= s.len(),
        s.subrange(i, i + 8) == enc_u64(x),
    ensures
        dec_u64(s, i) == Some((x, i + 8)),
{
    lemma_auto_spec_u64_to_from_le_bytes();
    assert(s.subrange(i, i + 8) == spec_u64_to_le_bytes(x));
    assert(spec_u64_from_le_bytes(spec_u64_to_le_bytes(x)) == x);
}


pub proof fn lemma_dec_bytes(s: Seq<u8>, i: int, t: Seq<u8>)
    requires
        0 <= i,
        t.len() <= u32::MAX,
        i + 4 + t.len() <= s.len(),
        s.subrange(i, i + 4 + t.len()) == enc_bytes(t),
    ensures
        dec_bytes(s, i) == Some((t, i + 4 + t.len())),
{
    lemma_auto_spec_u32_to_from_le_bytes();
    let whole = s.subrange(i, i + 4 + t.len());
    assert(s.subrange(i, i + 4) =~= whole.subrange(0, 4));
    assert(whole.subrange(0, 4) =~= enc_u32(t.len() as u32));
    assert(dec_u32(s, i) == Some((t.len() as u32, i + 4)));
    assert(s.subrange(i + 4, i + 4 + t.len()) =~= whole.subrange(4, 4 + t.len() as int));
    assert(whole.subrange(4, 4 + t.len() as int) =~= t);
}


} // verus!
