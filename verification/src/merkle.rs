//! The canonical codec of authorized operations and the Merkle-root
//! reconstruction.
//!
//! A withdrawal is authorized by an operator signature over the root of a
//! binary Merkle tree whose leaves are keccak-256 hashes of canonical byte
//! encodings. The tree combines children as a sorted pair: at every level the
//! lexicographically smaller hash is placed first, so a sibling's position
//! relative to the running hash does not matter.

use vstd::prelude::*;
use crate::crypto::keccak256;
use crate::crypto::keccak256_spec;
use crate::solana_network_spec;
use crate::solana_network_bytes;

verus! {

// ===== the amount encoding =====

/// The eight big-endian bytes of a 64-bit amount.
pub open spec fn amount_be_bytes(x: u64) -> Seq<u8> {
    seq![
        (x >> 56) as u8,
        (x >> 48) as u8,
        (x >> 40) as u8,
        (x >> 32) as u8,
        (x >> 24) as u8,
        (x >> 16) as u8,
        (x >> 8) as u8,
        x as u8,
    ]
}

/// A 64-bit amount serialized big-endian into the low 8 bytes of a 32-byte
/// zero-padded buffer. Every amount, nonce and counter in a hashed payload
/// uses this encoding.
pub open spec fn amount_bytes_spec(x: u64) -> Seq<u8> {
    Seq::new(24, |i: int| 0u8) + amount_be_bytes(x)
}

/// Serializes an amount big-endian into the low 8 bytes of 32 zeroed bytes.
pub fn amount_bytes(amount: u64) -> (r: Vec<u8>)
    ensures
        r@ == amount_bytes_spec(amount),
        r@.len() == 32,
{
    let mut v: Vec<u8> = Vec::new();
    let mut i: usize = 0;
    while i < 24
        invariant
            i <= 24,
            v@.len() == i,
            forall|j: int| 0 <= j < i ==> v@[j] == 0u8,
        decreases 24 - i,
    {
        v.push(0u8);
        i = i + 1;
    }
    v.push((amount >> 56) as u8);
    v.push((amount >> 48) as u8);
    v.push((amount >> 40) as u8);
    v.push((amount >> 32) as u8);
    v.push((amount >> 24) as u8);
    v.push((amount >> 16) as u8);
    v.push((amount >> 8) as u8);
    v.push(amount as u8);
    proof {
        assert(v@ =~= amount_bytes_spec(amount));
    }
    v
}

/// The high 24 bytes of the amount encoding are always zero.
pub proof fn lemma_amount_bytes_high_zero(x: u64)
    ensures
        amount_bytes_spec(x).len() == 32,
        forall|i: int| 0 <= i < 24 ==> amount_bytes_spec(x)[i] == 0u8,
{
}

/// The amount encoding is injective: equal encodings come from equal amounts.
pub proof fn lemma_amount_bytes_injective(a: u64, b: u64)
    requires
        amount_bytes_spec(a) == amount_bytes_spec(b),
    ensures
        a == b,
{
    let ea = amount_bytes_spec(a);
    let eb = amount_bytes_spec(b);
    assert(ea[24] == (a >> 56) as u8 && eb[24] == (b >> 56) as u8);
    assert(ea[25] == (a >> 48) as u8 && eb[25] == (b >> 48) as u8);
    assert(ea[26] == (a >> 40) as u8 && eb[26] == (b >> 40) as u8);
    assert(ea[27] == (a >> 32) as u8 && eb[27] == (b >> 32) as u8);
    assert(ea[28] == (a >> 24) as u8 && eb[28] == (b >> 24) as u8);
    assert(ea[29] == (a >> 16) as u8 && eb[29] == (b >> 16) as u8);
    assert(ea[30] == (a >> 8) as u8 && eb[30] == (b >> 8) as u8);
    assert(ea[31] == a as u8 && eb[31] == b as u8);
    assert((((a >> 56) as u8) == ((b >> 56) as u8) && ((a >> 48) as u8) == ((b >> 48) as u8) && ((a
        >> 40) as u8) == ((b >> 40) as u8) && ((a >> 32) as u8) == ((b >> 32) as u8) && ((a
        >> 24) as u8) == ((b >> 24) as u8) && ((a >> 16) as u8) == ((b >> 16) as u8) && ((a
        >> 8) as u8) == ((b >> 8) as u8) && (a as u8) == (b as u8)) ==> a == b) by (bit_vector);
}

// ===== lexicographic order on hashes =====

/// Lexicographic order on byte strings; on 32-byte hashes this is the
/// big-endian numeric order the tree sorts by.
pub open spec fn bytes_lt(a: Seq<u8>, b: Seq<u8>) -> bool
    decreases a.len(),
{
    if a.len() == 0 {
        b.len() > 0
    } else if b.len() == 0 {
        false
    } else if a[0] != b[0] {
        a[0] < b[0]
    } else {
        bytes_lt(a.subrange(1, a.len() as int), b.subrange(1, b.len() as int))
    }
}

/// Of two equal-length byte strings, exactly one of `a < b`, `b < a`, `a == b`
/// holds.
pub proof fn lemma_bytes_lt_trichotomy(a: Seq<u8>, b: Seq<u8>)
    requires
        a.len() == b.len(),
    ensures
        bytes_lt(a, b) || bytes_lt(b, a) || a == b,
        !(bytes_lt(a, b) && bytes_lt(b, a)),
        bytes_lt(a, b) ==> a != b,
    decreases a.len(),
{
    if a.len() == 0 {
        assert(a =~= b);
    } else if a[0] == b[0] {
        let a1 = a.subrange(1, a.len() as int);
        let b1 = b.subrange(1, b.len() as int);
        lemma_bytes_lt_trichotomy(a1, b1);
        if a1 == b1 {
            assert forall|i: int| 0 <= i < a.len() implies a[i] == b[i] by {
                if i > 0 {
                    assert(a1[i - 1] == b1[i - 1]);
                }
            }
            assert(a =~= b);
        }
        if a == b {
            assert(a1 =~= b1);
        }
    } else {
        if a == b {
            assert(a[0] == b[0]);
        }
    }
}

/// Skipping a shared first byte does not change the order.
proof fn lemma_bytes_lt_unfold(a: Seq<u8>, b: Seq<u8>)
    requires
        a.len() > 0,
        b.len() > 0,
        a[0] == b[0],
    ensures
        bytes_lt(a, b) == bytes_lt(a.subrange(1, a.len() as int), b.subrange(1, b.len() as int)),
{
}

/// Compares two 32-byte hashes in lexicographic (big-endian numeric) order.
pub fn hash_lt(a: &[u8; 32], b: &[u8; 32]) -> (r: bool)
    ensures
        r == bytes_lt(a@, b@),
{
    let mut i: usize = 0;
    proof {
        assert(a@.subrange(0, 32) =~= a@);
        assert(b@.subrange(0, 32) =~= b@);
    }
    while i < 32
        invariant
            i <= 32,
            bytes_lt(a@, b@) == bytes_lt(
                a@.subrange(i as int, 32),
                b@.subrange(i as int, 32),
            ),
            forall|j: int| 0 <= j < i ==> a@[j] == b@[j],
        decreases 32 - i,
    {
        let ghost sa = a@.subrange(i as int, 32);
        let ghost sb = b@.subrange(i as int, 32);
        if a[i] < b[i] {
            proof {
                assert(sa[0] == a@[i as int] && sb[0] == b@[i as int]);
            }
            return true;
        }
        if a[i] > b[i] {
            proof {
                assert(sa[0] == a@[i as int] && sb[0] == b@[i as int]);
            }
            return false;
        }
        proof {
            assert(sa[0] == sb[0]);
            lemma_bytes_lt_unfold(sa, sb);
            assert(sa.subrange(1, sa.len() as int) =~= a@.subrange(i + 1, 32));
            assert(sb.subrange(1, sb.len() as int) =~= b@.subrange(i + 1, 32));
        }
        i = i + 1;
    }
    proof {
        assert(a@.subrange(32, 32) =~= Seq::<u8>::empty());
        assert(b@.subrange(32, 32) =~= Seq::<u8>::empty());
    }
    false
}

// ===== Merkle-root reconstruction =====

/// One combining step: the lexicographically smaller hash is placed first,
/// then the pair is hashed.
pub open spec fn combine_hashes_spec(h: Seq<u8>, sib: Seq<u8>) -> Seq<u8> {
    if bytes_lt(sib, h) {
        keccak256_spec(sib + h)
    } else {
        keccak256_spec(h + sib)
    }
}

/// The root reconstructed from a leaf hash and the ordered sibling list. An
/// empty path leaves the leaf hash itself as the root.
pub open spec fn merkle_root_spec(leaf: Seq<u8>, path: Seq<Seq<u8>>) -> Seq<u8>
    decreases path.len(),
{
    if path.len() == 0 {
        leaf
    } else {
        merkle_root_spec(combine_hashes_spec(leaf, path[0]), path.skip(1))
    }
}

/// An empty sibling path leaves the leaf hash as the root.
pub proof fn lemma_merkle_root_empty(leaf: Seq<u8>)
    ensures
        merkle_root_spec(leaf, Seq::<Seq<u8>>::empty()) == leaf,
{
}

/// The sorted pair makes one combining step independent of which side a
/// sibling stands on.
pub proof fn lemma_combine_hashes_commutes(a: Seq<u8>, b: Seq<u8>)
    requires
        a.len() == b.len(),
    ensures
        combine_hashes_spec(a, b) == combine_hashes_spec(b, a),
{
    lemma_bytes_lt_trichotomy(a, b);
}

/// Reconstructs the Merkle root from a leaf hash and the sibling path.
pub fn get_merkle_root(hash: &[u8; 32], path: &Vec<[u8; 32]>) -> (r: [u8; 32])
    ensures
        r@ == merkle_root_spec(hash@, path@.map_values(|p: [u8; 32]| p@)),
{
    let ghost whole = path@.map_values(|p: [u8; 32]| p@);
    let mut h: [u8; 32] = *hash;
    let mut i: usize = 0;
    proof {
        assert(whole.skip(0) =~= whole);
    }
    while i < path.len()
        invariant
            i <= path@.len(),
            whole == path@.map_values(|p: [u8; 32]| p@),
            merkle_root_spec(hash@, whole) == merkle_root_spec(h@, whole.skip(i as int)),
        decreases path@.len() - i,
    {
        let ghost rest = whole.skip(i as int);
        let sib = path[i];
        let mut buf: Vec<u8> = Vec::new();
        if hash_lt(&sib, &h) {
            crate::codec::write_arr(&mut buf, sib.as_slice());
            crate::codec::write_arr(&mut buf, h.as_slice());
            proof {
                assert(buf@ =~= sib@ + h@);
            }
        } else {
            crate::codec::write_arr(&mut buf, h.as_slice());
            crate::codec::write_arr(&mut buf, sib.as_slice());
            proof {
                assert(buf@ =~= h@ + sib@);
            }
        }
        let next = keccak256(&buf);
        proof {
            assert(rest[0] == sib@);
            assert(next@ == combine_hashes_spec(h@, sib@));
            assert(rest.skip(1) =~= whole.skip(i + 1));
        }
        h = next;
        i = i + 1;
    }
    proof {
        assert(whole.skip(path@.len() as int) =~= Seq::<Seq<u8>>::empty());
    }
    h
}

// ===== canonical operation encodings =====

/// A value with a canonical byte encoding that is hashed into a Merkle leaf.
pub trait Data {
    /// The canonical bytes of the operation.
    spec fn op_spec(&self) -> Seq<u8>;

    /// Produces the canonical bytes of the operation.
    fn get_operation(&self) -> (r: Vec<u8>)
        ensures
            r@ == self.op_spec(),
    ;
}

/// The per-asset payload of a withdrawal leaf. A field that is `None` is
/// absent from the encoding; which fields are present is fixed by the asset
/// kind (see the constructors).
pub struct TransferData {
    /// The collection mint for an NFT, the token mint for a fungible token,
    /// absent for the native coin.
    pub address_to: Option<[u8; 32]>,
    /// The token's own mint for an NFT, absent otherwise.
    pub token_id_to: Option<[u8; 32]>,
    pub amount: Option<u64>,
    pub name: Option<Vec<u8>>,
    pub symbol: Option<Vec<u8>>,
    pub uri: Option<Vec<u8>>,
    pub decimals: Option<u8>,
}

impl TransferData {
    /// Payload of a fungible-token withdrawal.
    pub fn new_ft_transfer(
        mint: [u8; 32],
        amount: u64,
        name: Vec<u8>,
        symbol: Vec<u8>,
        uri: Vec<u8>,
        decimals: u8,
    ) -> (r: TransferData)
        ensures
            r.address_to == Some(mint),
            r.token_id_to is None,
            r.amount == Some(amount),
            r.name matches Some(n) && n@ == name@,
            r.symbol matches Some(s) && s@ == symbol@,
            r.uri matches Some(u) && u@ == uri@,
            r.decimals == Some(decimals),
    {
        TransferData {
            address_to: Some(mint),
            token_id_to: None,
            amount: Some(amount),
            name: Some(name),
            symbol: Some(symbol),
            uri: Some(uri),
            decimals: Some(decimals),
        }
    }

    /// Payload of a non-fungible-token withdrawal: no amount, no decimals; the
    /// collection mint, where there is one, stands in `address_to`.
    pub fn new_nft_transfer(
        mint: [u8; 32],
        collection: Option<[u8; 32]>,
        name: Vec<u8>,
        symbol: Vec<u8>,
        uri: Vec<u8>,
    ) -> (r: TransferData)
        ensures
            r.address_to == collection,
            r.token_id_to == Some(mint),
            r.amount is None,
            r.name matches Some(n) && n@ == name@,
            r.symbol matches Some(s) && s@ == symbol@,
            r.uri matches Some(u) && u@ == uri@,
            r.decimals is None,
    {
        TransferData {
            address_to: collection,
            token_id_to: Some(mint),
            amount: None,
            name: Some(name),
            symbol: Some(symbol),
            uri: Some(uri),
            decimals: None,
        }
    }

    /// Payload of a native-coin withdrawal: the amount alone.
    pub fn new_native_transfer(amount: u64) -> (r: TransferData)
        ensures
            r.address_to is None,
            r.token_id_to is None,
            r.amount == Some(amount),
            r.name is None,
            r.symbol is None,
            r.uri is None,
            r.decimals is None,
    {
        TransferData {
            amount: Some(amount),
            address_to: None,
            token_id_to: None,
            name: None,
            symbol: None,
            uri: None,
            decimals: None,
        }
    }
}

impl Data for TransferData {
    /// The concatenation, in this exact order and only for fields that are
    /// present: `address_to`, `name`, `token_id_to`, `uri`,
    /// `amount_bytes(amount)`, `symbol`, `decimals`.
    open spec fn op_spec(&self) -> Seq<u8> {
        (match self.address_to {
            Some(a) => a@,
            None => Seq::<u8>::empty(),
        }) + (match self.name {
            Some(n) => n@,
            None => Seq::<u8>::empty(),
        }) + (match self.token_id_to {
            Some(t) => t@,
            None => Seq::<u8>::empty(),
        }) + (match self.uri {
            Some(u) => u@,
            None => Seq::<u8>::empty(),
        }) + (match self.amount {
            Some(x) => amount_bytes_spec(x),
            None => Seq::<u8>::empty(),
        }) + (match self.symbol {
            Some(s) => s@,
            None => Seq::<u8>::empty(),
        }) + (match self.decimals {
            Some(d) => seq![d],
            None => Seq::<u8>::empty(),
        })
    }

    fn get_operation(&self) -> (r: Vec<u8>) {
        let mut data: Vec<u8> = Vec::new();
        if let Some(val) = &self.address_to {
            crate::codec::write_arr(&mut data, val.as_slice());
        }
        if let Some(val) = &self.name {
            crate::codec::write_arr(&mut data, val.as_slice());
        }
        if let Some(val) = &self.token_id_to {
            crate::codec::write_arr(&mut data, val.as_slice());
        }
        if let Some(val) = &self.uri {
            crate::codec::write_arr(&mut data, val.as_slice());
        }
        if let Some(val) = &self.amount {
            let mut ab = amount_bytes(*val);
            data.append(&mut ab);
        }
        if let Some(val) = &self.symbol {
            crate::codec::write_arr(&mut data, val.as_slice());
        }
        if let Some(val) = &self.decimals {
            data.push(*val);
        }
        proof {
            assert(data@ =~= self.op_spec());
        }
        data
    }
}

// ===== the withdrawal leaf =====

/// The content hashed into a withdrawal leaf: the operation bytes, the origin
/// fingerprint, the fixed network name, the receiver and the program
/// identity.
pub struct ContentNode {
    /// Fingerprint of the external deposit event.
    pub origin: [u8; 32],
    /// The fixed ASCII network identifier.
    pub network_to: Vec<u8>,
    pub receiver: [u8; 32],
    pub program_id: [u8; 32],
    pub data: Vec<u8>,
}

impl ContentNode {
    /// The exact bytes that are hashed:
    /// `data || origin || "Solana" || receiver || program_id`.
    pub open spec fn leaf_bytes_spec(&self) -> Seq<u8> {
        self.data@ + self.origin@ + self.network_to@ + self.receiver@ + self.program_id@
    }

    /// The leaf hash.
    pub open spec fn hash_spec(&self) -> Seq<u8> {
        keccak256_spec(self.leaf_bytes_spec())
    }

    pub fn new(origin: [u8; 32], receiver: [u8; 32], program_id: [u8; 32], data: Vec<u8>) -> (r:
        ContentNode)
        ensures
            r.origin == origin,
            r.receiver == receiver,
            r.program_id == program_id,
            r.data@ == data@,
            r.network_to@ == solana_network_spec(),
    {
        ContentNode {
            origin,
            receiver,
            network_to: solana_network_bytes(),
            program_id,
            data,
        }
    }

    /// Hashes the canonical leaf bytes.
    pub fn hash(&self) -> (r: [u8; 32])
        ensures
            r@ == self.hash_spec(),
    {
        let mut bytes: Vec<u8> = Vec::new();
        crate::codec::write_arr(&mut bytes, self.data.as_slice());
        crate::codec::write_arr(&mut bytes, self.origin.as_slice());
        crate::codec::write_arr(&mut bytes, self.network_to.as_slice());
        crate::codec::write_arr(&mut bytes, self.receiver.as_slice());
        crate::codec::write_arr(&mut bytes, self.program_id.as_slice());
        proof {
            assert(bytes@ =~= self.leaf_bytes_spec());
        }
        keccak256(&bytes)
    }
}

} // verus!
