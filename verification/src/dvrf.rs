//! Committee types shared by the threshold primitives: the `(t, n)`
//! configuration, the public parameters with the per-party verification
//! keys, the trusted dealer's output, and the error cases of the api.
use vstd::prelude::*;

use crate::bn::{FrBytes, G1Bytes, G2Bytes};
use crate::bytes::bytes_eq;
use crate::{DEFAULT_NUM_NODES, DEFAULT_THRESHOLD};

verus! {

/// Largest committee size the configuration admits.
pub const DVRF_MAX_PARTIES: usize = 256;

/// The error cases of the threshold api.
#[derive(Clone, Copy, Debug, PartialEq, Eq, Structural)]
pub enum DvrfError {
    /// Fewer partial evaluations than the threshold.
    InsufficientPartials,
    /// Two entries share an id, or two ids coincide in Fr.
    DuplicateIdentifier,
    /// A group identity reached a place that serializes points.
    InvalidPoint,
}

/// A committee configuration: threshold `t` out of `n` parties.
#[derive(Clone, Copy)]
pub struct DvrfConfig {
    pub t: usize,
    pub n: usize,
}

impl DvrfConfig {
    /// Whether the configuration is admitted: `1 <= t <= n <= 256`.
    pub fn validate(&self) -> (r: bool)
        ensures
            r == (self.t != 0 && self.t <= self.n && self.n <= DVRF_MAX_PARTIES),
    {
        self.t != 0 && self.t <= self.n && self.n <= DVRF_MAX_PARTIES
    }
}

impl Default for DvrfConfig {
    /// The default committee: threshold 5 out of 9 parties.
    fn default() -> (r: Self)
        ensures
            r.t == DEFAULT_THRESHOLD,
            r.n == DEFAULT_NUM_NODES,
    {
        DvrfConfig { t: DEFAULT_THRESHOLD, n: DEFAULT_NUM_NODES }
    }
}

/// How many of the first `k` entries carry the id.
pub open spec fn count_id_upto(vks: Seq<(usize, G1Bytes)>, id: usize, k: int) -> nat
    decreases k,
{
    if k <= 0 {
        0
    } else {
        count_id_upto(vks, id, k - 1) + if vks[k - 1].0 == id {
            1nat
        } else {
            0nat
        }
    }
}

/// How many entries of the list carry the id.
pub open spec fn count_id(vks: Seq<(usize, G1Bytes)>, id: usize) -> nat {
    count_id_upto(vks, id, vks.len() as int)
}

/// How many of the first `k` entries carry the verification key bytes.
pub open spec fn count_vk_upto(vks: Seq<(usize, G1Bytes)>, vk: Seq<u8>, k: int) -> nat
    decreases k,
{
    if k <= 0 {
        0
    } else {
        count_vk_upto(vks, vk, k - 1) + if vks[k - 1].1.b@ == vk {
            1nat
        } else {
            0nat
        }
    }
}

/// How many entries of the list carry the verification key bytes.
pub open spec fn count_vk(vks: Seq<(usize, G1Bytes)>, vk: Seq<u8>) -> nat {
    count_vk_upto(vks, vk, vks.len() as int)
}

/// The public parameters of a committee: its configuration, the
/// verification key of each party under its id, and the committee public
/// key.
pub struct DvrfPubParam {
    pub config: DvrfConfig,
    pub vks: Vec<(usize, G1Bytes)>,
    pub pk: G2Bytes,
}

impl DvrfPubParam {
    /// The committee threshold.
    pub fn threshold(&self) -> (r: usize)
        ensures
            r == self.config.t,
    {
        self.config.t
    }

    /// The committee size.
    pub fn committee_size(&self) -> (r: usize)
        ensures
            r == self.config.n,
    {
        self.config.n
    }

    /// The verification key under the id: none when the id is absent, an
    /// error when two entries share it.
    pub fn vk_from_id(&self, id: usize) -> (r: Result<Option<G1Bytes>, DvrfError>)
        ensures
            match r {
                Ok(None) => count_id(self.vks@, id) == 0,
                Ok(Some(vk)) => count_id(self.vks@, id) == 1 && exists|j: int|
                    0 <= j < self.vks@.len() && (#[trigger] self.vks@[j]).0 == id && vk.b@
                        == self.vks@[j].1.b@,
                Err(e) => count_id(self.vks@, id) >= 2 && e == DvrfError::DuplicateIdentifier,
            },
    {
        let len = self.vks.len();
        let mut cnt: usize = 0;
        let mut found: Option<G1Bytes> = None;
        let mut j: usize = 0;
        while j < len
            invariant
                j <= len,
                len == self.vks.len(),
                cnt <= j,
                cnt == count_id_upto(self.vks@, id, j as int),
                match found {
                    Some(v) => cnt >= 1 && exists|t: int|
                        0 <= t < j && (#[trigger] self.vks@[t]).0 == id && v.b@
                            == self.vks@[t].1.b@,
                    None => cnt == 0,
                },
            decreases len - j,
        {
            if self.vks[j].0 == id {
                cnt += 1;
                if found.is_none() {
                    found = Some(self.vks[j].1.clone());
                }
            }
            j += 1;
        }
        if cnt >= 2 {
            return Err(DvrfError::DuplicateIdentifier);
        }
        match found {
            None => Ok(None),
            Some(v) => Ok(Some(v)),
        }
    }

    /// Whether the id occurs, with an error when two entries share it.
    pub fn contains_id(&self, id: usize) -> (r: Result<bool, DvrfError>)
        ensures
            match r {
                Ok(false) => count_id(self.vks@, id) == 0,
                Ok(true) => count_id(self.vks@, id) == 1,
                Err(e) => count_id(self.vks@, id) >= 2 && e == DvrfError::DuplicateIdentifier,
            },
    {
        let len = self.vks.len();
        let mut cnt: usize = 0;
        let mut j: usize = 0;
        while j < len
            invariant
                j <= len,
                len == self.vks.len(),
                cnt <= j,
                cnt == count_id_upto(self.vks@, id, j as int),
            decreases len - j,
        {
            if self.vks[j].0 == id {
                cnt += 1;
            }
            j += 1;
        }
        if cnt >= 2 {
            Err(DvrfError::DuplicateIdentifier)
        } else {
            Ok(cnt == 1)
        }
    }

    /// Whether the verification key occurs, with an error when two entries
    /// hold it.
    pub fn contains_vk(&self, vk: &G1Bytes) -> (r: Result<bool, DvrfError>)
        ensures
            match r {
                Ok(false) => count_vk(self.vks@, vk.b@) == 0,
                Ok(true) => count_vk(self.vks@, vk.b@) == 1,
                Err(e) => count_vk(self.vks@, vk.b@) >= 2 && e == DvrfError::DuplicateIdentifier,
            },
    {
        let len = self.vks.len();
        let mut cnt: usize = 0;
        let mut j: usize = 0;
        while j < len
            invariant
                j <= len,
                len == self.vks.len(),
                cnt <= j,
                cnt == count_vk_upto(self.vks@, vk.b@, j as int),
            decreases len - j,
        {
            if bytes_eq(&self.vks[j].1.b, &vk.b) {
                cnt += 1;
            }
            j += 1;
        }
        if cnt >= 2 {
            Err(DvrfError::DuplicateIdentifier)
        } else {
            Ok(cnt == 1)
        }
    }
}

/// What the trusted dealer hands out: the public parameters, each party's
/// secret share under its id, and the committee secret.
pub struct TrustedKeygenOutput {
    pub pp: DvrfPubParam,
    pub sks: Vec<(usize, FrBytes)>,
    pub committee_sk: Option<FrBytes>,
}

} // verus!
