//! A set of public keys, as the verifier of tokens takes it.

use vstd::prelude::*;

verus! {

/// Signature algorithm of a key.
#[derive(Clone, Copy, Debug, PartialEq, Eq, Structural)]
pub enum KeyAlgorithm {
    Rs256,
}

/// Family of a key.
#[derive(Clone, Copy, Debug, PartialEq, Eq, Structural)]
pub enum KeyType {
    Rsa,
}

/// One public key.
#[derive(Debug)]
pub struct Jwk {
    pub kty: KeyType,
    pub alg: Option<KeyAlgorithm>,
    /// Identifier of the key; tokens name the key that signed them by it.
    pub kid: Option<String>,
    /// Modulus, in base 64.
    pub n: String,
    /// Exponent, in base 64.
    pub e: String,
}

/// A set of public keys.
#[derive(Debug)]
pub struct Jwks {
    pub keys: Vec<Jwk>,
}

impl Jwks {
    /// Every key of the set has an identifier.
    pub open spec fn all_identified(&self) -> bool {
        forall|i: int| 0 <= i < self.keys@.len() ==> (#[trigger] self.keys@[i]).kid is Some
    }

    /// The identifiers of the keys, in the order of the set.
    pub fn key_ids(&self) -> (r: Vec<&str>)
        requires
            self.all_identified(),
        ensures
            r@.len() == self.keys@.len(),
            forall|i: int| 0 <= i < r@.len() ==> (#[trigger] r@[i])@ == self.keys@[i].kid->0@,
    {
        let mut r: Vec<&str> = Vec::new();
        let n = self.keys.len();
        let mut i: usize = 0;
        while i < n
            invariant
                i <= n,
                n == self.keys.len(),
                self.all_identified(),
                r@.len() == i,
                forall|j: int| 0 <= j < i ==> (#[trigger] r@[j])@ == self.keys@[j].kid->0@,
            decreases n - i,
        {
            match &self.keys[i].kid {
                Some(kid) => {
                    r.push(kid.as_str());
                },
                None => {},
            }
            i += 1;
        }
        r
    }

    /// The identifiers of the keys that have one, in the order of the set.
    pub fn known_key_ids(&self) -> (r: Vec<&str>)
        ensures
            self.all_identified() ==> r@.len() == self.keys@.len() && forall|i: int|
                0 <= i < r@.len() ==> (#[trigger] r@[i])@ == self.keys@[i].kid->0@,
            r@.len() <= self.keys@.len(),
    {
        let mut r: Vec<&str> = Vec::new();
        let n = self.keys.len();
        let mut i: usize = 0;
        while i < n
            invariant
                i <= n,
                n == self.keys.len(),
                r@.len() <= i,
                (forall|j: int| 0 <= j < i ==> (#[trigger] self.keys@[j]).kid is Some) ==> r@.len() == i && forall|
                    j: int,
                | 0 <= j < i ==> (#[trigger] r@[j])@ == self.keys@[j].kid->0@,
            decreases n - i,
        {
            match &self.keys[i].kid {
                Some(kid) => {
                    r.push(kid.as_str());
                },
                None => {},
            }
            i += 1;
        }
        r
    }
}

} // verus!
