//! Payload construction as a sequence of chain queries: the session names the
//! next query, takes its reply, and once every value is known yields the
//! encoded payload. The caller performs the queries.
use crate::mortality::{era_wf, mortal, mortal_period, mortal_spec, Era};
use crate::payload::{
    payload_bytes, Additional, BuildError, Extra, UnsignedEncodedPayload, UnsignedPayload,
};
use crate::types::{AccountId, BlockHash, RuntimeVersion};
use vstd::prelude::*;

verus! {

/// The mortality period used when none is requested.
pub const DEFAULT_PERIOD: u64 = 32;

/// How the nonce is chosen.
#[derive(Clone, Copy, Debug, PartialEq, Eq)]
pub enum Nonce {
    /// The next index at the best block, counting transactions still pending.
    BestBlockAndTxPool,
    /// The on-chain nonce at the best block.
    BestBlock,
    /// The on-chain nonce at the finalized block.
    FinalizedBlock,
    /// This value, unchecked.
    Custom(u32),
}

/// How long the transaction stays valid.
#[derive(Clone, Copy, Debug, PartialEq, Eq)]
pub enum Mortality {
    /// This period, anchored at the best block.
    Period(u64),
    /// This period, anchored at the given height and hash.
    Custom(u64, u64, BlockHash),
    /// Valid forever; anchored at the genesis block.
    Immortal,
}

/// Optional transaction parameters; absent ones take their defaults.
#[derive(Clone, Copy, Debug, PartialEq, Eq)]
pub struct ExtrinsicExtra {
    pub nonce: Option<Nonce>,
    pub mortality: Option<Mortality>,
    pub tip: Option<u128>,
    pub app_id: Option<u32>,
}

/// A chain query the session needs answered.
#[derive(Clone, Copy, Debug, PartialEq, Eq)]
pub enum Query {
    /// The account's next index, counting the pending pool; answered by `Reply::Index`.
    AccountNextIndex(AccountId),
    /// The best block's hash; answered by `Reply::Hash`.
    BestBlockHash,
    /// The finalized block's hash; answered by `Reply::Hash`.
    FinalizedBlockHash,
    /// The account's on-chain nonce at a block; answered by `Reply::Index`.
    AccountNonce(AccountId, BlockHash),
    /// The genesis hash; answered by `Reply::Hash`.
    GenesisHash,
    /// The height of a block, or of the best block when no hash is given;
    /// answered by `Reply::BlockNumber`.
    Header(Option<BlockHash>),
    /// The live runtime version; answered by `Reply::Version`.
    RuntimeVersion,
}

/// The answer to a query.
#[derive(Clone, Copy, Debug, PartialEq, Eq)]
pub enum Reply {
    Index(u32),
    Hash(BlockHash),
    BlockNumber(u32),
    Version(RuntimeVersion),
    /// The query could not be performed.
    Failed,
}

/// A payload under construction.
pub struct PayloadBuild {
    pub call: Vec<u8>,
    pub account_id: AccountId,
    pub request: ExtrinsicExtra,
    pub nonce: Option<u32>,
    pub nonce_block: Option<BlockHash>,
    pub genesis_hash: Option<BlockHash>,
    pub best_hash: Option<BlockHash>,
    pub best_number: Option<u32>,
    pub version: Option<RuntimeVersion>,
}

/// The nonce policy, with its default.
pub open spec fn nonce_policy(r: ExtrinsicExtra) -> Nonce {
    match r.nonce {
        Some(n) => n,
        None => Nonce::BestBlockAndTxPool,
    }
}

/// The mortality policy, with its default.
pub open spec fn mortality_policy(r: ExtrinsicExtra) -> Mortality {
    match r.mortality {
        Some(m) => m,
        None => Mortality::Period(DEFAULT_PERIOD),
    }
}

/// The era and anchor hash of a mortality policy, given the best block and
/// the genesis hash.
pub open spec fn resolved_mortality(
    m: Mortality,
    best_number: nat,
    best_hash: BlockHash,
    genesis_hash: BlockHash,
) -> (Era, BlockHash) {
    match m {
        Mortality::Period(len) => (mortal_spec(mortal_period(len as nat), best_number), best_hash),
        Mortality::Custom(len, height, hash) => (
            mortal_spec(mortal_period(len as nat), height as nat),
            hash,
        ),
        Mortality::Immortal => (Era::Immortal, genesis_hash),
    }
}

/// Resolves a mortality policy against the best block.
pub fn resolve_mortality(
    m: Mortality,
    best_number: u32,
    best_hash: BlockHash,
    genesis_hash: BlockHash,
) -> (r: (Era, BlockHash))
    ensures
        r == resolved_mortality(m, best_number as nat, best_hash, genesis_hash),
        era_wf(r.0),
{
    match m {
        Mortality::Period(len) => (mortal(len, best_number as u64), best_hash),
        Mortality::Custom(len, height, hash) => (mortal(len, height), hash),
        Mortality::Immortal => (Era::Immortal, genesis_hash),
    }
}

impl PayloadBuild {
    /// A custom nonce is known from the start; nothing else is.
    pub open spec fn wf(self) -> bool {
        &&& (nonce_policy(self.request) matches Nonce::Custom(n) ==> self.nonce == Some(n))
        &&& (self.nonce.is_none() ==> self.genesis_hash.is_none())
        &&& (self.genesis_hash.is_none() ==> self.best_hash.is_none())
        &&& (self.best_hash.is_none() ==> self.best_number.is_none())
        &&& (self.best_number.is_none() ==> self.version.is_none())
    }

    /// The next query, or `None` once every value is known.
    pub open spec fn pending(self) -> Option<Query> {
        if self.nonce.is_none() {
            match nonce_policy(self.request) {
                Nonce::BestBlockAndTxPool => Some(Query::AccountNextIndex(self.account_id)),
                Nonce::BestBlock => match self.nonce_block {
                    None => Some(Query::BestBlockHash),
                    Some(h) => Some(Query::AccountNonce(self.account_id, h)),
                },
                Nonce::FinalizedBlock => match self.nonce_block {
                    None => Some(Query::FinalizedBlockHash),
                    Some(h) => Some(Query::AccountNonce(self.account_id, h)),
                },
                Nonce::Custom(_) => None,
            }
        } else if self.genesis_hash.is_none() {
            Some(Query::GenesisHash)
        } else if self.best_hash.is_none() {
            Some(Query::BestBlockHash)
        } else if self.best_number.is_none() {
            Some(Query::Header(self.best_hash))
        } else if self.version.is_none() {
            Some(Query::RuntimeVersion)
        } else {
            None
        }
    }

    /// Whether `reply` has the shape that `q` asks for.
    pub open spec fn fits(q: Query, reply: Reply) -> bool {
        match q {
            Query::AccountNextIndex(_) | Query::AccountNonce(_, _) => reply is Index,
            Query::BestBlockHash | Query::FinalizedBlockHash | Query::GenesisHash => reply is Hash,
            Query::Header(_) => reply is BlockNumber,
            Query::RuntimeVersion => reply is Version,
        }
    }

    /// The session after a fitting reply to its pending query.
    pub open spec fn after(self, reply: Reply) -> PayloadBuild {
        if self.nonce.is_none() {
            match reply {
                Reply::Index(n) => PayloadBuild { nonce: Some(n), ..self },
                Reply::Hash(h) => PayloadBuild { nonce_block: Some(h), ..self },
                _ => self,
            }
        } else if self.genesis_hash.is_none() {
            PayloadBuild { genesis_hash: Some(reply->Hash_0), ..self }
        } else if self.best_hash.is_none() {
            PayloadBuild { best_hash: Some(reply->Hash_0), ..self }
        } else if self.best_number.is_none() {
            PayloadBuild { best_number: Some(reply->BlockNumber_0), ..self }
        } else {
            PayloadBuild { version: Some(reply->Version_0), ..self }
        }
    }

    /// The resolved extra, once every value is known.
    pub open spec fn resolved_extra(self) -> Extra {
        Extra {
            mortality: resolved_mortality(
                mortality_policy(self.request),
                self.best_number.unwrap() as nat,
                self.best_hash.unwrap(),
                self.genesis_hash.unwrap(),
            ).0,
            nonce: self.nonce.unwrap(),
            tip: match self.request.tip {
                Some(t) => t,
                None => 0,
            },
            app_id: match self.request.app_id {
                Some(a) => a,
                None => 0,
            },
        }
    }

    /// The additional signing material, once every value is known.
    pub open spec fn resolved_additional(self) -> Additional {
        Additional {
            spec_version: self.version.unwrap().spec_version,
            transaction_version: self.version.unwrap().transaction_version,
            genesis_hash: self.genesis_hash.unwrap(),
            fork_hash: resolved_mortality(
                mortality_policy(self.request),
                self.best_number.unwrap() as nat,
                self.best_hash.unwrap(),
                self.genesis_hash.unwrap(),
            ).1,
        }
    }

    /// Starts building a payload for `call`, sent by `account_id`.
    pub fn new(call: Vec<u8>, account_id: AccountId, request: ExtrinsicExtra) -> (r: Self)
        ensures
            r.wf(),
            r.call@ == call@,
            r.account_id == account_id,
            r.request == request,
            r.nonce == (match nonce_policy(request) {
                Nonce::Custom(n) => Some(n),
                _ => None,
            }),
            r.nonce_block.is_none(),
            r.genesis_hash.is_none(),
    {
        let nonce = match request.nonce {
            Some(Nonce::Custom(n)) => Some(n),
            _ => None,
        };
        PayloadBuild {
            call,
            account_id,
            request,
            nonce,
            nonce_block: None,
            genesis_hash: None,
            best_hash: None,
            best_number: None,
            version: None,
        }
    }

    /// The next query to perform, or `None` once the payload can be finished.
    pub fn next_query(&self) -> (r: Option<Query>)
        requires
            self.wf(),
        ensures
            r == self.pending(),
    {
        if self.nonce.is_none() {
            let policy = match self.request.nonce {
                Some(n) => n,
                None => Nonce::BestBlockAndTxPool,
            };
            match policy {
                Nonce::BestBlockAndTxPool => Some(Query::AccountNextIndex(self.account_id)),
                Nonce::BestBlock => match self.nonce_block {
                    None => Some(Query::BestBlockHash),
                    Some(h) => Some(Query::AccountNonce(self.account_id, h)),
                },
                Nonce::FinalizedBlock => match self.nonce_block {
                    None => Some(Query::FinalizedBlockHash),
                    Some(h) => Some(Query::AccountNonce(self.account_id, h)),
                },
                Nonce::Custom(_) => None,
            }
        } else if self.genesis_hash.is_none() {
            Some(Query::GenesisHash)
        } else if self.best_hash.is_none() {
            Some(Query::BestBlockHash)
        } else if self.best_number.is_none() {
            Some(Query::Header(self.best_hash))
        } else if self.version.is_none() {
            Some(Query::RuntimeVersion)
        } else {
            None
        }
    }

    /// Takes the reply to the pending query. A failed query gives
    /// `TransportFailure` and a reply of the wrong shape `InvalidChainResponse`;
    /// both leave the session as it was.
    pub fn answer(&mut self, reply: Reply) -> (r: Result<(), BuildError>)
        requires
            old(self).wf(),
            old(self).pending().is_some(),
        ensures
            final(self).wf(),
            reply is Failed ==> r == Err::<(), BuildError>(BuildError::TransportFailure),
            !(reply is Failed) && !Self::fits(old(self).pending().unwrap(), reply) ==> r == Err::<
                (),
                BuildError,
            >(BuildError::InvalidChainResponse),
            r.is_err() ==> final(self).view_eq(*old(self)),
            Self::fits(old(self).pending().unwrap(), reply) ==> r.is_ok() && final(self).view_eq(
                old(self).after(reply),
            ),
    {
        let q = self.next_query();
        let q = q.unwrap();
        if let Reply::Failed = reply {
            return Err(BuildError::TransportFailure);
        }
        let fits = match q {
            Query::AccountNextIndex(_) | Query::AccountNonce(_, _) => matches!(reply, Reply::Index(_)),
            Query::BestBlockHash | Query::FinalizedBlockHash | Query::GenesisHash => matches!(
                reply,
                Reply::Hash(_)
            ),
            Query::Header(_) => matches!(reply, Reply::BlockNumber(_)),
            Query::RuntimeVersion => matches!(reply, Reply::Version(_)),
        };
        if !fits {
            return Err(BuildError::InvalidChainResponse);
        }
        if self.nonce.is_none() {
            match reply {
                Reply::Index(n) => self.nonce = Some(n),
                Reply::Hash(h) => self.nonce_block = Some(h),
                _ => {},
            }
        } else if self.genesis_hash.is_none() {
            if let Reply::Hash(h) = reply {
                self.genesis_hash = Some(h);
            }
        } else if self.best_hash.is_none() {
            if let Reply::Hash(h) = reply {
                self.best_hash = Some(h);
            }
        } else if self.best_number.is_none() {
            if let Reply::BlockNumber(n) = reply {
                self.best_number = Some(n);
            }
        } else if let Reply::Version(v) = reply {
            self.version = Some(v);
        }
        Ok(())
    }

    /// Whether two sessions agree on every field (the call by its bytes).
    pub open spec fn view_eq(self, o: PayloadBuild) -> bool {
        &&& self.call@ == o.call@
        &&& self.account_id == o.account_id
        &&& self.request == o.request
        &&& self.nonce == o.nonce
        &&& self.nonce_block == o.nonce_block
        &&& self.genesis_hash == o.genesis_hash
        &&& self.best_hash == o.best_hash
        &&& self.best_number == o.best_number
        &&& self.version == o.version
    }

    /// The encoded payload, once no query is pending.
    pub fn finish(&self) -> (r: Option<UnsignedEncodedPayload>)
        requires
            self.wf(),
        ensures
            self.pending().is_some() ==> r.is_none(),
            self.pending().is_none() ==> r.is_some() && r.unwrap().bytes() == payload_bytes(
                self.call@,
                self.resolved_extra(),
                self.resolved_additional(),
            ) && r.unwrap().extra@ == crate::payload::extra_bytes(self.resolved_extra())
                && r.unwrap().call@ == self.call@,
    {
        if self.next_query().is_some() {
            return None;
        }
        let genesis_hash = self.genesis_hash.unwrap();
        let best_hash = self.best_hash.unwrap();
        let version = self.version.unwrap();
        let policy = match self.request.mortality {
            Some(m) => m,
            None => Mortality::Period(DEFAULT_PERIOD),
        };
        let (mortality, fork_hash) = resolve_mortality(
            policy,
            self.best_number.unwrap(),
            best_hash,
            genesis_hash,
        );
        let tip = match self.request.tip {
            Some(t) => t,
            None => 0,
        };
        let app_id = match self.request.app_id {
            Some(a) => a,
            None => 0,
        };
        let extra = Extra { mortality, nonce: self.nonce.unwrap(), tip, app_id };
        let additional = Additional::new(
            version.spec_version,
            version.transaction_version,
            genesis_hash,
            fork_hash,
        );
        let mut call: Vec<u8> = Vec::new();
        crate::codec::append_bytes(&mut call, self.call.as_slice());
        let payload = UnsignedPayload::new(call, extra, additional);
        Some(payload.encode())
    }
}

} // verus!
