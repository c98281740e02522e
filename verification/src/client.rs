//! The client side of the cryptographic engine: what may be handed to the
//! engine, and what to make of what it hands back.
//!
//! The engine is a foreign library that speaks in NUL-terminated text. The
//! calls themselves are made by the caller; this module checks the inputs
//! before a call and turns the raw answer into a result or a uniform error
//! after it. The engine's material is passed through untouched.

use crate::decimal::{decimal, to_decimal};
use crate::engine::{
    shares_view, AuthorityKey, AuthorityKeyView, KeyGenResult, KeyGenResultView, MasterVerKey,
    MasterVerKeyView, SetupParams, SetupParamsView,
};
use vstd::prelude::*;
use vstd::string::StringExecFns;
use vstd::string::StringSliceAdditionalSpecFns;

verus! {

/// The two operations of the engine.
#[derive(Debug, Clone, Copy, PartialEq, Eq, Structural)]
pub enum EngineOp {
    Setup,
    KeyGen,
}

/// The text parameters that KeyGen is handed.
#[derive(Debug, Clone, Copy, PartialEq, Eq, Structural)]
pub enum SetupParam {
    PairingParam,
    PrimeOrder,
    G1,
    G2,
    H1,
}

/// Why an engine operation gave no result.
#[derive(Debug)]
pub enum EngineError {
    /// The engine handed back nothing, or claimed success and left part of
    /// the result out.
    NoResult,
    /// The engine reported a failure, in these words.
    Reported(String),
    /// The engine reported a failure and did not say which.
    Unexplained,
    /// A parameter cannot be handed to the engine: it holds a NUL, at this
    /// position among its bytes.
    InvalidParam { param: SetupParam, position: usize },
}

/// Mathematical value of an [`EngineError`].
pub enum EngineErrorView {
    NoResult,
    Reported(Seq<char>),
    Unexplained,
    InvalidParam { param: SetupParam, position: nat },
}

impl View for EngineError {
    type V = EngineErrorView;

    open spec fn view(&self) -> EngineErrorView {
        match self {
            EngineError::NoResult => EngineErrorView::NoResult,
            EngineError::Reported(message) => EngineErrorView::Reported(message@),
            EngineError::Unexplained => EngineErrorView::Unexplained,
            EngineError::InvalidParam { param, position } => EngineErrorView::InvalidParam {
                param: *param,
                position: *position as nat,
            },
        }
    }
}

impl SetupParam {
    /// How a complaint about the parameter begins.
    pub open spec fn complaint(self) -> Seq<char> {
        match self {
            SetupParam::PairingParam => "Invalid pairing param: "@,
            SetupParam::PrimeOrder => "Invalid prime order: "@,
            SetupParam::G1 => "Invalid g1: "@,
            SetupParam::G2 => "Invalid g2: "@,
            SetupParam::H1 => "Invalid h1: "@,
        }
    }

    /// How a complaint about the parameter begins.
    pub fn complaint_str(&self) -> (text: &'static str)
        ensures
            text@ == self.complaint(),
    {
        match self {
            SetupParam::PairingParam => "Invalid pairing param: ",
            SetupParam::PrimeOrder => "Invalid prime order: ",
            SetupParam::G1 => "Invalid g1: ",
            SetupParam::G2 => "Invalid g2: ",
            SetupParam::H1 => "Invalid h1: ",
        }
    }
}

impl EngineErrorView {
    /// The error in words, for an operation `op`.
    pub open spec fn message(self, op: EngineOp) -> Seq<char> {
        match self {
            EngineErrorView::NoResult => match op {
                EngineOp::Setup => "Setup function returned null"@,
                EngineOp::KeyGen => "KeyGen function returned null"@,
            },
            EngineErrorView::Reported(message) => message,
            EngineErrorView::Unexplained => match op {
                EngineOp::Setup => "Unknown error during setup"@,
                EngineOp::KeyGen => "Unknown error during keygen"@,
            },
            EngineErrorView::InvalidParam { param, position } => param.complaint()
                + "nul byte found in provided data at position: "@ + decimal(position),
        }
    }
}

impl EngineError {
    /// The error in words, for an operation `op`.
    pub fn message(&self, op: EngineOp) -> (text: String)
        ensures
            text@ == self@.message(op),
    {
        match self {
            EngineError::NoResult => match op {
                EngineOp::Setup => "Setup function returned null".to_owned(),
                EngineOp::KeyGen => "KeyGen function returned null".to_owned(),
            },
            EngineError::Reported(message) => message.clone(),
            EngineError::Unexplained => match op {
                EngineOp::Setup => "Unknown error during setup".to_owned(),
                EngineOp::KeyGen => "Unknown error during keygen".to_owned(),
            },
            EngineError::InvalidParam { param, position } => {
                let mut text = param.complaint_str().to_owned();
                text.append("nul byte found in provided data at position: ");
                let place = to_decimal(*position as u64);
                text.append(place.as_str());
                text
            },
        }
    }
}

/// Whether `p` is where the first NUL byte stands.
pub open spec fn is_first_nul(bytes: Seq<u8>, p: int) -> bool {
    &&& 0 <= p < bytes.len()
    &&& bytes[p] == 0
    &&& forall|j: int| 0 <= j < p ==> bytes[j] != 0
}

/// Whether there is a NUL byte.
pub open spec fn has_nul(bytes: Seq<u8>) -> bool {
    exists|p: int| 0 <= p < bytes.len() && bytes[p] == 0
}

/// Finds the first NUL among the bytes of `text`.
pub fn find_nul(text: &str) -> (position: Option<usize>)
    ensures
        match position {
            Some(p) => is_first_nul(text.spec_bytes(), p as int),
            None => !has_nul(text.spec_bytes()),
        },
{
    let bytes = text.as_bytes();
    let mut p: usize = 0;
    while p < bytes.len()
        invariant
            p <= bytes.len(),
            bytes@ == text.spec_bytes(),
            forall|j: int| 0 <= j < p ==> bytes[j] != 0,
        decreases bytes.len() - p,
    {
        if bytes[p] == 0 {
            return Some(p);
        }
        p += 1;
    }
    None
}

/// The text parameters in the order in which they are handed to KeyGen.
pub open spec fn param_bytes(params: SetupParamsView, param: SetupParam) -> Seq<u8> {
    match param {
        SetupParam::PairingParam => vstd::utf8::encode_utf8(params.pairing_param),
        SetupParam::PrimeOrder => vstd::utf8::encode_utf8(params.prime_order),
        SetupParam::G1 => vstd::utf8::encode_utf8(params.g1),
        SetupParam::G2 => vstd::utf8::encode_utf8(params.g2),
        SetupParam::H1 => vstd::utf8::encode_utf8(params.h1),
    }
}

/// The place of a parameter in the order in which they are handed over.
pub open spec fn param_rank(param: SetupParam) -> int {
    match param {
        SetupParam::PairingParam => 0,
        SetupParam::PrimeOrder => 1,
        SetupParam::G1 => 2,
        SetupParam::G2 => 3,
        SetupParam::H1 => 4,
    }
}

/// Whether the parameters can be handed to KeyGen: none holds a NUL. If one
/// does, the complaint is about the first that does, in the order pairing
/// parameter, prime order, `g1`, `g2`, `h1`, and names its first NUL.
pub open spec fn params_verdict(
    params: SetupParamsView,
    outcome: Result<(), EngineErrorView>,
) -> bool {
    match outcome {
        Ok(_) => forall|param: SetupParam| !has_nul(#[trigger] param_bytes(params, param)),
        Err(EngineErrorView::InvalidParam { param, position }) => {
            &&& is_first_nul(param_bytes(params, param), position as int)
            &&& forall|earlier: SetupParam|
                param_rank(earlier) < param_rank(param) ==> !has_nul(
                    #[trigger] param_bytes(params, earlier),
                )
        },
        Err(_) => false,
    }
}

/// The view of the outcome of a check.
pub open spec fn check_view(outcome: Result<(), EngineError>) -> Result<(), EngineErrorView> {
    match outcome {
        Ok(_) => Ok(()),
        Err(e) => Err(e@),
    }
}

/// Checks that the parameters can be handed to KeyGen.
pub fn check_keygen_params(params: &SetupParams) -> (outcome: Result<(), EngineError>)
    ensures
        params_verdict(params@, check_view(outcome)),
{
    if let Some(position) = find_nul(params.pairing_param.as_str()) {
        return Err(EngineError::InvalidParam { param: SetupParam::PairingParam, position });
    }
    if let Some(position) = find_nul(params.prime_order.as_str()) {
        return Err(EngineError::InvalidParam { param: SetupParam::PrimeOrder, position });
    }
    if let Some(position) = find_nul(params.g1.as_str()) {
        return Err(EngineError::InvalidParam { param: SetupParam::G1, position });
    }
    if let Some(position) = find_nul(params.g2.as_str()) {
        return Err(EngineError::InvalidParam { param: SetupParam::G2, position });
    }
    if let Some(position) = find_nul(params.h1.as_str()) {
        return Err(EngineError::InvalidParam { param: SetupParam::H1, position });
    }
    Ok(())
}

/// What the engine hands back from Setup, field by field. A text that the
/// engine left out is `None`.
#[derive(Debug)]
pub struct RawSetupResult {
    pub success: i32,
    pub error_message: Option<String>,
    pub pairing_param: Option<String>,
    pub prime_order: Option<String>,
    pub g1: Option<String>,
    pub g2: Option<String>,
    pub h1: Option<String>,
    pub security_level: i32,
}

/// Mathematical value of a [`RawSetupResult`].
pub struct RawSetupResultView {
    pub success: int,
    pub error_message: Option<Seq<char>>,
    pub pairing_param: Option<Seq<char>>,
    pub prime_order: Option<Seq<char>>,
    pub g1: Option<Seq<char>>,
    pub g2: Option<Seq<char>>,
    pub h1: Option<Seq<char>>,
    pub security_level: int,
}

impl View for RawSetupResult {
    type V = RawSetupResultView;

    open spec fn view(&self) -> RawSetupResultView {
        RawSetupResultView {
            success: self.success as int,
            error_message: self.error_message.deep_view(),
            pairing_param: self.pairing_param.deep_view(),
            prime_order: self.prime_order.deep_view(),
            g1: self.g1.deep_view(),
            g2: self.g2.deep_view(),
            h1: self.h1.deep_view(),
            security_level: self.security_level as int,
        }
    }
}

/// What a failure report amounts to: the engine's words if it gave any.
pub open spec fn reported(error_message: Option<Seq<char>>) -> EngineErrorView {
    match error_message {
        Some(message) => EngineErrorView::Reported(message),
        None => EngineErrorView::Unexplained,
    }
}

/// What a Setup answer amounts to. No answer is no result; an answer whose
/// success flag is zero is the failure it reports; any other answer is the
/// parameters it holds, or no result if one of them is left out.
pub open spec fn setup_outcome(raw: Option<RawSetupResultView>) -> Result<
    SetupParamsView,
    EngineErrorView,
> {
    match raw {
        None => Err(EngineErrorView::NoResult),
        Some(r) => if r.success == 0 {
            Err(reported(r.error_message))
        } else {
            match (r.pairing_param, r.prime_order, r.g1, r.g2, r.h1) {
                (Some(pairing_param), Some(prime_order), Some(g1), Some(g2), Some(h1)) => Ok(
                    SetupParamsView {
                        pairing_param,
                        prime_order,
                        g1,
                        g2,
                        h1,
                        security_level: r.security_level,
                    },
                ),
                _ => Err(EngineErrorView::NoResult),
            }
        },
    }
}

/// The view of an optional Setup answer.
pub open spec fn raw_setup_view(raw: Option<RawSetupResult>) -> Option<RawSetupResultView> {
    match raw {
        Some(r) => Some(r@),
        None => None,
    }
}

/// The view of a Setup outcome.
pub open spec fn setup_outcome_view(outcome: Result<SetupParams, EngineError>) -> Result<
    SetupParamsView,
    EngineErrorView,
> {
    match outcome {
        Ok(params) => Ok(params@),
        Err(e) => Err(e@),
    }
}

/// The failure that an answer with a zero success flag reports.
pub fn failure_report(error_message: Option<String>) -> (error: EngineError)
    ensures
        error@ == reported(error_message.deep_view()),
{
    match error_message {
        Some(message) => EngineError::Reported(message),
        None => EngineError::Unexplained,
    }
}

/// Turns the engine's Setup answer into the parameters or an error.
pub fn conclude_setup(raw: Option<RawSetupResult>) -> (outcome: Result<SetupParams, EngineError>)
    ensures
        setup_outcome_view(outcome) == setup_outcome(raw_setup_view(raw)),
{
    match raw {
        None => Err(EngineError::NoResult),
        Some(r) => {
            if r.success == 0 {
                Err(failure_report(r.error_message))
            } else {
                match (r.pairing_param, r.prime_order, r.g1, r.g2, r.h1) {
                    (Some(pairing_param), Some(prime_order), Some(g1), Some(g2), Some(h1)) => Ok(
                        SetupParams {
                            pairing_param,
                            prime_order,
                            g1,
                            g2,
                            h1,
                            security_level: r.security_level,
                        },
                    ),
                    _ => Err(EngineError::NoResult),
                }
            }
        },
    }
}

/// One authority's share as the engine hands it back, field by field.
#[derive(Debug)]
pub struct RawAuthorityKey {
    pub authority_index: i32,
    pub sgk1: Option<String>,
    pub sgk2: Option<String>,
    pub vkm1: Option<String>,
    pub vkm2: Option<String>,
    pub vkm3: Option<String>,
}

/// Mathematical value of a [`RawAuthorityKey`].
pub struct RawAuthorityKeyView {
    pub authority_index: int,
    pub sgk1: Option<Seq<char>>,
    pub sgk2: Option<Seq<char>>,
    pub vkm1: Option<Seq<char>>,
    pub vkm2: Option<Seq<char>>,
    pub vkm3: Option<Seq<char>>,
}

impl RawAuthorityKeyView {
    /// The share, if no part of it is left out.
    pub open spec fn share(self) -> Option<AuthorityKeyView> {
        match (self.sgk1, self.sgk2, self.vkm1, self.vkm2, self.vkm3) {
            (Some(sgk1), Some(sgk2), Some(vkm1), Some(vkm2), Some(vkm3)) => Some(
                AuthorityKeyView {
                    authority_index: self.authority_index,
                    sgk1,
                    sgk2,
                    vkm1,
                    vkm2,
                    vkm3,
                },
            ),
            _ => None,
        }
    }
}

impl View for RawAuthorityKey {
    type V = RawAuthorityKeyView;

    open spec fn view(&self) -> RawAuthorityKeyView {
        RawAuthorityKeyView {
            authority_index: self.authority_index as int,
            sgk1: self.sgk1.deep_view(),
            sgk2: self.sgk2.deep_view(),
            vkm1: self.vkm1.deep_view(),
            vkm2: self.vkm2.deep_view(),
            vkm3: self.vkm3.deep_view(),
        }
    }
}

/// The master verification key as the engine hands it back.
#[derive(Debug)]
pub struct RawMasterVerKey {
    pub alpha2: Option<String>,
    pub beta2: Option<String>,
    pub beta1: Option<String>,
}

/// Mathematical value of a [`RawMasterVerKey`].
pub struct RawMasterVerKeyView {
    pub alpha2: Option<Seq<char>>,
    pub beta2: Option<Seq<char>>,
    pub beta1: Option<Seq<char>>,
}

impl RawMasterVerKeyView {
    /// The key, if no part of it is left out.
    pub open spec fn key(self) -> Option<MasterVerKeyView> {
        match (self.alpha2, self.beta2, self.beta1) {
            (Some(alpha2), Some(beta2), Some(beta1)) => Some(
                MasterVerKeyView { alpha2, beta2, beta1 },
            ),
            _ => None,
        }
    }
}

impl View for RawMasterVerKey {
    type V = RawMasterVerKeyView;

    open spec fn view(&self) -> RawMasterVerKeyView {
        RawMasterVerKeyView {
            alpha2: self.alpha2.deep_view(),
            beta2: self.beta2.deep_view(),
            beta1: self.beta1.deep_view(),
        }
    }
}

/// What the engine hands back from KeyGen. `authority_keys` holds as many
/// shares as the engine says it produced, in the engine's order.
#[derive(Debug)]
pub struct RawKeyGenResult {
    pub success: i32,
    pub error_message: Option<String>,
    pub mvk: Option<RawMasterVerKey>,
    pub authority_keys: Vec<RawAuthorityKey>,
}

/// Mathematical value of a [`RawKeyGenResult`].
pub struct RawKeyGenResultView {
    pub success: int,
    pub error_message: Option<Seq<char>>,
    pub mvk: Option<RawMasterVerKeyView>,
    pub authority_keys: Seq<RawAuthorityKeyView>,
}

/// The views of raw shares.
pub open spec fn raw_shares_view(keys: Seq<RawAuthorityKey>) -> Seq<RawAuthorityKeyView> {
    Seq::new(keys.len(), |i: int| keys[i]@)
}

impl View for RawKeyGenResult {
    type V = RawKeyGenResultView;

    open spec fn view(&self) -> RawKeyGenResultView {
        RawKeyGenResultView {
            success: self.success as int,
            error_message: self.error_message.deep_view(),
            mvk: match self.mvk {
                Some(m) => Some(m@),
                None => None,
            },
            authority_keys: raw_shares_view(self.authority_keys@),
        }
    }
}

/// Whether every share is whole.
pub open spec fn shares_whole(keys: Seq<RawAuthorityKeyView>) -> bool {
    forall|i: int| 0 <= i < keys.len() ==> (#[trigger] keys[i]).share() is Some
}

/// What a KeyGen answer amounts to, for a KeyGen that was asked for with
/// `threshold`. No answer is no result; an answer whose success flag is
/// zero is the failure it reports; any other answer is the master key and
/// the shares it holds, in the engine's order, together with the threshold
/// asked for, or no result if any part of the key or of a share is left
/// out.
pub open spec fn keygen_outcome(raw: Option<RawKeyGenResultView>, threshold: int) -> Result<
    KeyGenResultView,
    EngineErrorView,
> {
    match raw {
        None => Err(EngineErrorView::NoResult),
        Some(r) => if r.success == 0 {
            Err(reported(r.error_message))
        } else if r.mvk is Some && r.mvk->0.key() is Some && shares_whole(r.authority_keys) {
            Ok(
                KeyGenResultView {
                    mvk: r.mvk->0.key()->0,
                    authority_keys: whole_shares_of(r.authority_keys),
                    threshold,
                },
            )
        } else {
            Err(EngineErrorView::NoResult)
        },
    }
}

/// The view of an optional KeyGen answer.
pub open spec fn raw_keygen_view(raw: Option<RawKeyGenResult>) -> Option<RawKeyGenResultView> {
    match raw {
        Some(r) => Some(r@),
        None => None,
    }
}

/// The view of a KeyGen outcome.
pub open spec fn keygen_outcome_view(outcome: Result<KeyGenResult, EngineError>) -> Result<
    KeyGenResultView,
    EngineErrorView,
> {
    match outcome {
        Ok(result) => Ok(result@),
        Err(e) => Err(e@),
    }
}

/// The shares of raw shares that are all whole.
pub open spec fn whole_shares_of(keys: Seq<RawAuthorityKeyView>) -> Seq<AuthorityKeyView> {
    Seq::new(keys.len(), |i: int| keys[i].share()->0)
}

/// The share that the engine handed back, if it is whole.
pub fn whole_share(raw: &RawAuthorityKey) -> (share: Option<AuthorityKey>)
    ensures
        match share {
            Some(s) => raw@.share() == Some(s@),
            None => raw@.share() is None,
        },
{
    match (&raw.sgk1, &raw.sgk2, &raw.vkm1, &raw.vkm2, &raw.vkm3) {
        (Some(sgk1), Some(sgk2), Some(vkm1), Some(vkm2), Some(vkm3)) => Some(
            AuthorityKey {
                authority_index: raw.authority_index,
                sgk1: sgk1.clone(),
                sgk2: sgk2.clone(),
                vkm1: vkm1.clone(),
                vkm2: vkm2.clone(),
                vkm3: vkm3.clone(),
            },
        ),
        _ => None,
    }
}

/// The shares that the engine handed back, in its order, if each is whole.
pub fn whole_shares(raws: &Vec<RawAuthorityKey>) -> (shares: Option<Vec<AuthorityKey>>)
    ensures
        match shares {
            Some(keys) => shares_whole(raw_shares_view(raws@)) && shares_view(keys@)
                == whole_shares_of(raw_shares_view(raws@)),
            None => !shares_whole(raw_shares_view(raws@)),
        },
{
    let mut keys: Vec<AuthorityKey> = Vec::new();
    let mut i: usize = 0;
    while i < raws.len()
        invariant
            i <= raws.len(),
            keys.len() == i,
            forall|j: int| 0 <= j < i ==> (#[trigger] raws[j])@.share() == Some(keys[j]@),
        decreases raws.len() - i,
    {
        match whole_share(&raws[i]) {
            None => {
                assert(raw_shares_view(raws@)[i as int].share() is None);
                return None;
            },
            Some(share) => {
                keys.push(share);
            },
        }
        i += 1;
    }
    proof {
        let views = raw_shares_view(raws@);
        assert forall|j: int| 0 <= j < views.len() implies (#[trigger] views[j]).share() is Some by {
            assert(raws[j]@.share() == Some(keys[j]@));
        }
        assert(shares_view(keys@) =~= whole_shares_of(views)) by {
            assert forall|j: int| 0 <= j < keys.len() implies shares_view(keys@)[j]
                == whole_shares_of(views)[j] by {
                assert(raws[j]@.share() == Some(keys[j]@));
            }
        }
    }
    Some(keys)
}

/// The master key that the engine handed back, if it is whole.
pub fn whole_key(raw: &RawMasterVerKey) -> (key: Option<MasterVerKey>)
    ensures
        match key {
            Some(k) => raw@.key() == Some(k@),
            None => raw@.key() is None,
        },
{
    match (&raw.alpha2, &raw.beta2, &raw.beta1) {
        (Some(alpha2), Some(beta2), Some(beta1)) => Some(
            MasterVerKey { alpha2: alpha2.clone(), beta2: beta2.clone(), beta1: beta1.clone() },
        ),
        _ => None,
    }
}

/// Turns the engine's KeyGen answer into the key material or an error.
/// `threshold` is the threshold that KeyGen was asked for.
pub fn conclude_keygen(raw: Option<RawKeyGenResult>, threshold: i32) -> (outcome: Result<
    KeyGenResult,
    EngineError,
>)
    ensures
        keygen_outcome_view(outcome) == keygen_outcome(raw_keygen_view(raw), threshold as int),
{
    match raw {
        None => Err(EngineError::NoResult),
        Some(r) => {
            if r.success == 0 {
                return Err(failure_report(r.error_message));
            }
            let mvk = match &r.mvk {
                None => None,
                Some(raw_key) => whole_key(raw_key),
            };
            match (mvk, whole_shares(&r.authority_keys)) {
                (Some(mvk), Some(authority_keys)) => Ok(
                    KeyGenResult { mvk, authority_keys, threshold },
                ),
                _ => Err(EngineError::NoResult),
            }
        },
    }
}

} // verus!
