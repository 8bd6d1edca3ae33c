//! Extended private keys and the derivation of child keys from them.
//!
//! A child key is computed as BIP32 prescribes: HMAC-SHA512 under the parent's
//! chain code, over the parent's private key (hardened children) or public key
//! (normal children) followed by the child number; the left half of the code is
//! added to the parent's private key, the right half is the child's chain code.
//! Where the left half or the sum is no valid key, the derivation fails: no
//! other key is put in its place.

use crate::error::KeyError;
use crate::path::{DerivationPath, HARDENED_BIT};
use crate::primitives::{
    add_secret_keys, base58check, base58check_encode, compute_hash160, compute_hmac_sha512,
    compute_public_key, hash160, hmac_sha512, master_key_material, secp_public_key,
    secret_key_sum,
};
use vstd::prelude::*;
use vstd::slice::{slice_subrange, slice_to_vec};

verus! {

/// The least number of bytes of a seed.
pub const MIN_SEED_LEN: usize = 16;

/// The greatest number of bytes of a seed.
pub const MAX_SEED_LEN: usize = 64;

/// The greatest depth that an extended key can record.
pub const MAX_DEPTH: u8 = 255;

/// What an extended private key holds.
pub struct ExtendedKeyView {
    /// How many derivations lie between the master key and this key.
    pub depth: u8,
    /// The first four bytes of the identifier of the parent key; zero for the
    /// master key.
    pub parent_fingerprint: Seq<u8>,
    /// The number under which the parent derived this key; zero for the master
    /// key.
    pub child_number: u32,
    /// The chain code, 32 bytes.
    pub chain_code: Seq<u8>,
    /// The private key, 32 bytes.
    pub private_key: Seq<u8>,
}

impl ExtendedKeyView {
    /// Whether the three byte strings have the lengths that BIP32 gives them,
    /// and the private key is a valid one.
    pub open spec fn wf(self) -> bool {
        &&& self.parent_fingerprint.len() == 4
        &&& self.chain_code.len() == 32
        &&& self.private_key.len() == 32
        &&& secp_public_key(self.private_key) is Some
    }
}

/// The four bytes of `number`, most significant first.
pub open spec fn be32(number: u32) -> Seq<u8> {
    seq![
        (number >> 24) as u8,
        ((number >> 16) & 0xff) as u8,
        ((number >> 8) & 0xff) as u8,
        (number & 0xff) as u8,
    ]
}

/// Whether a seed has a length that BIP32 allows.
pub open spec fn seed_len_ok(seed: Seq<u8>) -> bool {
    MIN_SEED_LEN <= seed.len() <= MAX_SEED_LEN
}

/// The key under which a seed is hashed: the text `Bitcoin seed`.
pub open spec fn master_hmac_key() -> Seq<u8> {
    seq![
        0x42u8, 0x69u8, 0x74u8, 0x63u8, 0x6fu8, 0x69u8, 0x6eu8, 0x20u8, 0x73u8, 0x65u8, 0x65u8,
        0x64u8,
    ]
}

/// The 64 bytes that a master key is cut from: HMAC-SHA512 of the seed.
pub open spec fn master_code(seed: Seq<u8>) -> Seq<u8> {
    hmac_sha512(master_hmac_key(), seed)
}

/// The master key of a seed: the left half of [`master_code`] is the private
/// key, the right half the chain code. `None` where the seed has a wrong
/// length or the left half is no valid key.
pub open spec fn master_key_spec(seed: Seq<u8>) -> Option<ExtendedKeyView> {
    let code = master_code(seed);
    if !seed_len_ok(seed) || secp_public_key(code.subrange(0, 32)) is None {
        None
    } else {
        Some(
            ExtendedKeyView {
                depth: 0,
                parent_fingerprint: seq![0u8, 0u8, 0u8, 0u8],
                child_number: 0,
                chain_code: code.subrange(32, 64),
                private_key: code.subrange(0, 32),
            },
        )
    }
}

/// The bytes that are hashed for child `number` of `key`, whose public key is
/// `public_key`.
pub open spec fn child_input(key: ExtendedKeyView, public_key: Seq<u8>, number: u32) -> Seq<u8> {
    if number >= HARDENED_BIT {
        seq![0u8] + key.private_key + be32(number)
    } else {
        public_key + be32(number)
    }
}

/// Child `number` of `key`; `None` where `key` is at the greatest depth, its
/// private key is no valid key, or the child's key would be none.
pub open spec fn child_key_spec(key: ExtendedKeyView, number: u32) -> Option<ExtendedKeyView> {
    if key.depth == MAX_DEPTH {
        None
    } else {
        match secp_public_key(key.private_key) {
            None => None,
            Some(public_key) => {
                let code = hmac_sha512(key.chain_code, child_input(key, public_key, number));
                match secret_key_sum(code.subrange(0, 32), key.private_key) {
                    None => None,
                    Some(private_key) => Some(
                        ExtendedKeyView {
                            depth: (key.depth + 1) as u8,
                            parent_fingerprint: hash160(public_key).subrange(0, 4),
                            child_number: number,
                            chain_code: code.subrange(32, 64),
                            private_key,
                        },
                    ),
                }
            },
        }
    }
}

/// The key that `path` leads to from `key`: child after child, in order; `None`
/// as soon as one of them does not exist.
pub open spec fn derive_spec(key: ExtendedKeyView, path: Seq<u32>) -> Option<ExtendedKeyView>
    decreases path.len(),
{
    if path.len() == 0 {
        Some(key)
    } else {
        match child_key_spec(key, path[0]) {
            None => None,
            Some(child) => derive_spec(child, path.drop_first()),
        }
    }
}

/// The 78 bytes in which BIP32 writes a private key of the main network.
pub open spec fn serialized(key: ExtendedKeyView) -> Seq<u8> {
    seq![0x04u8, 0x88u8, 0xADu8, 0xE4u8] + seq![key.depth] + key.parent_fingerprint + be32(
        key.child_number,
    ) + key.chain_code + seq![0u8] + key.private_key
}

/// The empty path leads nowhere: it gives the key it starts from.
pub proof fn lemma_derive_empty(key: ExtendedKeyView)
    ensures
        derive_spec(key, Seq::<u32>::empty()) == Some(key),
{
}

/// Following `first` and then `rest` is following the two joined.
pub proof fn lemma_derive_concat(key: ExtendedKeyView, first: Seq<u32>, rest: Seq<u32>)
    ensures
        derive_spec(key, first + rest) == match derive_spec(key, first) {
            Some(middle) => derive_spec(middle, rest),
            None => None,
        },
    decreases first.len(),
{
    if first.len() == 0 {
        assert(first + rest =~= rest);
    } else {
        assert((first + rest)[0] == first[0]);
        assert((first + rest).drop_first() =~= first.drop_first() + rest);
        match child_key_spec(key, first[0]) {
            None => {},
            Some(child) => {
                lemma_derive_concat(child, first.drop_first(), rest);
            },
        }
    }
}

/// Every level of a path adds one to the depth.
pub proof fn lemma_derive_depth(key: ExtendedKeyView, path: Seq<u32>)
    ensures
        derive_spec(key, path) matches Some(derived) ==> derived.depth == key.depth + path.len(),
    decreases path.len(),
{
    if path.len() > 0 {
        match child_key_spec(key, path[0]) {
            None => {},
            Some(child) => {
                lemma_derive_depth(child, path.drop_first());
            },
        }
    }
}

/// An extended private key: a private key with the chain code and the record
/// of where in the tree it stands.
pub struct ExtendedKey {
    depth: u8,
    parent_fingerprint: Vec<u8>,
    child_number: u32,
    chain_code: Vec<u8>,
    private_key: Vec<u8>,
}

impl View for ExtendedKey {
    type V = ExtendedKeyView;

    closed spec fn view(&self) -> ExtendedKeyView {
        ExtendedKeyView {
            depth: self.depth,
            parent_fingerprint: self.parent_fingerprint@,
            child_number: self.child_number,
            chain_code: self.chain_code@,
            private_key: self.private_key@,
        }
    }
}

impl ExtendedKey {
    #[verifier::type_invariant]
    spec fn well_formed(&self) -> bool {
        self@.wf()
    }

    /// Builds the master key of a seed.
    ///
    /// Fails with [`KeyError::KeyDerivationError`] exactly where
    /// [`master_key_spec`] has no key: the seed is shorter than 16 or longer
    /// than 64 bytes, or what is made of it is no valid private key.
    pub fn master(seed: &[u8]) -> (r: Result<ExtendedKey, KeyError>)
        ensures
            match r {
                Ok(key) => master_key_spec(seed@) == Some(key@) && key@.wf(),
                Err(e) => e == KeyError::KeyDerivationError && master_key_spec(seed@) is None,
            },
    {
        if seed.len() < MIN_SEED_LEN || seed.len() > MAX_SEED_LEN {
            return Err(KeyError::KeyDerivationError);
        }
        match master_key_material(seed) {
            None => Err(KeyError::KeyDerivationError),
            Some((private_key, chain_code)) => {
                let mut parent_fingerprint: Vec<u8> = Vec::new();
                parent_fingerprint.push(0);
                parent_fingerprint.push(0);
                parent_fingerprint.push(0);
                parent_fingerprint.push(0);
                assert(parent_fingerprint@ =~= seq![0u8, 0u8, 0u8, 0u8]);
                Ok(
                    ExtendedKey {
                        depth: 0,
                        parent_fingerprint,
                        child_number: 0,
                        chain_code,
                        private_key,
                    },
                )
            },
        }
    }

    /// Derives child `number` of this key.
    ///
    /// Fails with [`KeyError::KeyDerivationError`] exactly where
    /// [`child_key_spec`] has no key.
    pub fn child(&self, number: u32) -> (r: Result<ExtendedKey, KeyError>)
        ensures
            match r {
                Ok(key) => child_key_spec(self@, number) == Some(key@) && key@.wf(),
                Err(e) => e == KeyError::KeyDerivationError && child_key_spec(self@, number)
                    is None,
            },
    {
        proof {
            use_type_invariant(self);
        }
        if self.depth == MAX_DEPTH {
            return Err(KeyError::KeyDerivationError);
        }
        let public_key = match compute_public_key(self.private_key.as_slice()) {
            Some(public_key) => public_key,
            None => {
                return Err(KeyError::KeyDerivationError);
            },
        };
        let mut input: Vec<u8> = Vec::new();
        if number >= HARDENED_BIT {
            input.push(0);
            append(&mut input, self.private_key.as_slice());
        } else {
            append(&mut input, public_key.as_slice());
        }
        let suffix = be32_bytes(number);
        append(&mut input, suffix.as_slice());
        assert(input@ =~= child_input(self@, public_key@, number));
        let code = compute_hmac_sha512(self.chain_code.as_slice(), input.as_slice());
        let left = slice_subrange(code.as_slice(), 0, 32);
        match add_secret_keys(left, self.private_key.as_slice()) {
            None => Err(KeyError::KeyDerivationError),
            Some(private_key) => {
                let identifier = compute_hash160(public_key.as_slice());
                let parent_fingerprint = slice_to_vec(slice_subrange(identifier.as_slice(), 0, 4));
                let chain_code = slice_to_vec(slice_subrange(code.as_slice(), 32, 64));
                Ok(
                    ExtendedKey {
                        depth: self.depth + 1,
                        parent_fingerprint,
                        child_number: number,
                        chain_code,
                        private_key,
                    },
                )
            },
        }
    }

    /// Derives the key that `path` leads to from this key.
    ///
    /// Fails with [`KeyError::KeyDerivationError`] exactly where
    /// [`derive_spec`] has no key. The empty path gives this key again.
    pub fn derive(&self, path: &DerivationPath) -> (r: Result<ExtendedKey, KeyError>)
        ensures
            match r {
                Ok(key) => derive_spec(self@, path@) == Some(key@) && key@.wf(),
                Err(e) => e == KeyError::KeyDerivationError && derive_spec(self@, path@) is None,
            },
    {
        proof {
            use_type_invariant(self);
        }
        let mut key = self.duplicate();
        let mut level: usize = 0;
        assert(path@.subrange(0, path@.len() as int) =~= path@);
        while level < path.len()
            invariant
                level <= path@.len(),
                key@.wf(),
                derive_spec(self@, path@) == derive_spec(
                    key@,
                    path@.subrange(level as int, path@.len() as int),
                ),
            decreases path@.len() - level,
        {
            let ghost rest = path@.subrange(level as int, path@.len() as int);
            assert(rest[0] == path@[level as int]);
            assert(rest.drop_first() =~= path@.subrange(level + 1, path@.len() as int));
            match key.child(path.number(level)) {
                Err(e) => {
                    return Err(e);
                },
                Ok(next) => {
                    key = next;
                },
            }
            level = level + 1;
        }
        Ok(key)
    }

    /// A copy of this key.
    pub fn duplicate(&self) -> (copy: ExtendedKey)
        ensures
            copy@ == self@,
    {
        proof {
            use_type_invariant(self);
        }
        ExtendedKey {
            depth: self.depth,
            parent_fingerprint: slice_to_vec(self.parent_fingerprint.as_slice()),
            child_number: self.child_number,
            chain_code: slice_to_vec(self.chain_code.as_slice()),
            private_key: slice_to_vec(self.private_key.as_slice()),
        }
    }

    /// How many derivations lie between the master key and this key.
    pub fn depth(&self) -> (depth: u8)
        ensures
            depth == self@.depth,
    {
        self.depth
    }

    /// The number under which the parent derived this key.
    pub fn child_number(&self) -> (number: u32)
        ensures
            number == self@.child_number,
    {
        self.child_number
    }

    /// The first four bytes of the identifier of the parent key.
    pub fn parent_fingerprint(&self) -> (bytes: &[u8])
        ensures
            bytes@ == self@.parent_fingerprint,
            bytes@.len() == 4,
    {
        proof {
            use_type_invariant(self);
        }
        self.parent_fingerprint.as_slice()
    }

    /// The chain code.
    pub fn chain_code(&self) -> (bytes: &[u8])
        ensures
            bytes@ == self@.chain_code,
            bytes@.len() == 32,
    {
        proof {
            use_type_invariant(self);
        }
        self.chain_code.as_slice()
    }

    /// The private key. It is a valid one.
    pub fn private_key(&self) -> (bytes: &[u8])
        ensures
            bytes@ == self@.private_key,
            bytes@.len() == 32,
            secp_public_key(bytes@) is Some,
    {
        proof {
            use_type_invariant(self);
        }
        self.private_key.as_slice()
    }

    /// Writes the key in the 78 bytes of BIP32.
    pub fn serialize(&self) -> (bytes: Vec<u8>)
        ensures
            bytes@ == serialized(self@),
            bytes@.len() == 78,
    {
        proof {
            use_type_invariant(self);
        }
        let mut bytes: Vec<u8> = Vec::new();
        bytes.push(0x04);
        bytes.push(0x88);
        bytes.push(0xAD);
        bytes.push(0xE4);
        bytes.push(self.depth);
        append(&mut bytes, self.parent_fingerprint.as_slice());
        let number = be32_bytes(self.child_number);
        append(&mut bytes, number.as_slice());
        append(&mut bytes, self.chain_code.as_slice());
        bytes.push(0);
        append(&mut bytes, self.private_key.as_slice());
        assert(bytes@ =~= serialized(self@));
        bytes
    }

    /// Writes the key as text: the Base58Check form of its 78 bytes, which
    /// starts with `xprv`.
    pub fn to_base58(&self) -> (text: String)
        ensures
            text@ == base58check(serialized(self@)),
    {
        let bytes = self.serialize();
        base58check_encode(bytes.as_slice())
    }
}

/// Writes `number` in four bytes, most significant first.
pub fn be32_bytes(number: u32) -> (bytes: Vec<u8>)
    ensures
        bytes@ == be32(number),
        bytes@.len() == 4,
{
    assert((number >> 24) <= 0xff) by (bit_vector);
    assert(((number >> 16) & 0xff) <= 0xff) by (bit_vector);
    assert(((number >> 8) & 0xff) <= 0xff) by (bit_vector);
    assert((number & 0xff) <= 0xff) by (bit_vector);
    let mut bytes: Vec<u8> = Vec::new();
    bytes.push((number >> 24) as u8);
    bytes.push(((number >> 16) & 0xff) as u8);
    bytes.push(((number >> 8) & 0xff) as u8);
    bytes.push((number & 0xff) as u8);
    assert(bytes@ =~= be32(number));
    bytes
}

/// Adds the bytes of `tail` to the end of `bytes`.
pub fn append(bytes: &mut Vec<u8>, tail: &[u8])
    ensures
        final(bytes)@ == old(bytes)@ + tail@,
{
    let mut i: usize = 0;
    while i < tail.len()
        invariant
            i <= tail@.len(),
            bytes@ == old(bytes)@ + tail@.subrange(0, i as int),
        decreases tail@.len() - i,
    {
        bytes.push(tail[i]);
        assert(bytes@ =~= old(bytes)@ + tail@.subrange(0, i + 1));
        i = i + 1;
    }
    assert(tail@.subrange(0, tail@.len() as int) =~= tail@);
}

} // verus!
