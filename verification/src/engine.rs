//! The records exchanged with the cryptographic engine: the public
//! parameters produced by Setup and the key material produced by KeyGen.
//!
//! The engine's group-element encodings are opaque text to this crate; only
//! equality and pass-through matter.

use vstd::prelude::*;

verus! {

/// Public parameters of one Setup run.
#[derive(Debug)]
pub struct SetupParams {
    pub pairing_param: String,
    pub prime_order: String,
    pub g1: String,
    pub g2: String,
    pub h1: String,
    pub security_level: i32,
}

/// Mathematical value of a [`SetupParams`].
pub struct SetupParamsView {
    pub pairing_param: Seq<char>,
    pub prime_order: Seq<char>,
    pub g1: Seq<char>,
    pub g2: Seq<char>,
    pub h1: Seq<char>,
    pub security_level: int,
}

impl View for SetupParams {
    type V = SetupParamsView;

    open spec fn view(&self) -> SetupParamsView {
        SetupParamsView {
            pairing_param: self.pairing_param@,
            prime_order: self.prime_order@,
            g1: self.g1@,
            g2: self.g2@,
            h1: self.h1@,
            security_level: self.security_level as int,
        }
    }
}

impl Clone for SetupParams {
    fn clone(&self) -> (copy: Self)
        ensures
            copy@ == self@,
    {
        SetupParams {
            pairing_param: self.pairing_param.clone(),
            prime_order: self.prime_order.clone(),
            g1: self.g1.clone(),
            g2: self.g2.clone(),
            h1: self.h1.clone(),
            security_level: self.security_level,
        }
    }
}

/// One authority's share of the key material: a secret signing share
/// (`sgk1`, `sgk2`) and the matching verification share (`vkm1..vkm3`).
#[derive(Debug)]
pub struct AuthorityKey {
    pub authority_index: i32,
    pub sgk1: String,
    pub sgk2: String,
    pub vkm1: String,
    pub vkm2: String,
    pub vkm3: String,
}

/// Mathematical value of an [`AuthorityKey`].
pub struct AuthorityKeyView {
    pub authority_index: int,
    pub sgk1: Seq<char>,
    pub sgk2: Seq<char>,
    pub vkm1: Seq<char>,
    pub vkm2: Seq<char>,
    pub vkm3: Seq<char>,
}

impl View for AuthorityKey {
    type V = AuthorityKeyView;

    open spec fn view(&self) -> AuthorityKeyView {
        AuthorityKeyView {
            authority_index: self.authority_index as int,
            sgk1: self.sgk1@,
            sgk2: self.sgk2@,
            vkm1: self.vkm1@,
            vkm2: self.vkm2@,
            vkm3: self.vkm3@,
        }
    }
}

impl Clone for AuthorityKey {
    fn clone(&self) -> (copy: Self)
        ensures
            copy@ == self@,
    {
        AuthorityKey {
            authority_index: self.authority_index,
            sgk1: self.sgk1.clone(),
            sgk2: self.sgk2.clone(),
            vkm1: self.vkm1.clone(),
            vkm2: self.vkm2.clone(),
            vkm3: self.vkm3.clone(),
        }
    }
}

/// The master verification key of a poll.
#[derive(Debug)]
pub struct MasterVerKey {
    pub alpha2: String,
    pub beta2: String,
    pub beta1: String,
}

/// Mathematical value of a [`MasterVerKey`].
pub struct MasterVerKeyView {
    pub alpha2: Seq<char>,
    pub beta2: Seq<char>,
    pub beta1: Seq<char>,
}

impl View for MasterVerKey {
    type V = MasterVerKeyView;

    open spec fn view(&self) -> MasterVerKeyView {
        MasterVerKeyView { alpha2: self.alpha2@, beta2: self.beta2@, beta1: self.beta1@ }
    }
}

impl Clone for MasterVerKey {
    fn clone(&self) -> (copy: Self)
        ensures
            copy@ == self@,
    {
        MasterVerKey {
            alpha2: self.alpha2.clone(),
            beta2: self.beta2.clone(),
            beta1: self.beta1.clone(),
        }
    }
}

/// Everything one KeyGen run produces: the master verification key, the
/// authorities' shares in the engine's order, and the threshold they were
/// generated for.
#[derive(Debug)]
pub struct KeyGenResult {
    pub mvk: MasterVerKey,
    pub authority_keys: Vec<AuthorityKey>,
    pub threshold: i32,
}

/// Mathematical value of a [`KeyGenResult`].
pub struct KeyGenResultView {
    pub mvk: MasterVerKeyView,
    pub authority_keys: Seq<AuthorityKeyView>,
    pub threshold: int,
}

/// The shares of a vector of authority keys, as mathematical values.
pub open spec fn shares_view(keys: Seq<AuthorityKey>) -> Seq<AuthorityKeyView> {
    Seq::new(keys.len(), |i: int| keys[i]@)
}

impl View for KeyGenResult {
    type V = KeyGenResultView;

    open spec fn view(&self) -> KeyGenResultView {
        KeyGenResultView {
            mvk: self.mvk@,
            authority_keys: shares_view(self.authority_keys@),
            threshold: self.threshold as int,
        }
    }
}

impl Clone for KeyGenResult {
    fn clone(&self) -> (copy: Self)
        ensures
            copy@ == self@,
    {
        let mut keys: Vec<AuthorityKey> = Vec::new();
        let mut i: usize = 0;
        while i < self.authority_keys.len()
            invariant
                i <= self.authority_keys.len(),
                keys.len() == i,
                forall|j: int| 0 <= j < i ==> keys[j]@ == self.authority_keys[j]@,
            decreases self.authority_keys.len() - i,
        {
            keys.push(self.authority_keys[i].clone());
            i += 1;
        }
        assert(shares_view(keys@) =~= shares_view(self.authority_keys@));
        KeyGenResult { mvk: self.mvk.clone(), authority_keys: keys, threshold: self.threshold }
    }
}

} // verus!
