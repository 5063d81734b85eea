//! The tiered credential store. Every operation asks the secure OS-backed
//! tier first and falls back to the plain persisted store when the secure
//! tier fails. The tiers themselves are reached by the host; the functions
//! here decide, from what a tier reported, what happens next.

use crate::error::AppError;
use vstd::prelude::*;

verus! {

/// A storage tier.
#[derive(Debug, Clone, Copy, PartialEq, Eq, Structural)]
pub enum Tier {
    /// The operating system's secret store.
    Secure,
    /// The plain persisted key/value store.
    Fallback,
}

/// How a tier failed.
#[derive(Debug, Clone, Copy, PartialEq, Eq, Structural)]
pub enum TierError {
    /// The tier holds no entry under the key.
    NoEntry,
    /// The tier could not serve the request (missing backend, denied access).
    Unavailable,
}

/// What to do after a tier has answered.
#[derive(Debug, PartialEq, Eq)]
pub enum StoreStep<T> {
    /// Perform the same operation on this tier and report its answer.
    Ask(Tier),
    /// The operation is over, with this result.
    Finished(Result<T, AppError>),
}

/// Storing: the secure tier's failure sends the write to the fallback tier,
/// whose failure fails the operation.
pub open spec fn set_next(tier: Tier, reply: Result<(), TierError>) -> StoreStep<()> {
    match reply {
        Ok(()) => StoreStep::Finished(Ok(())),
        Err(_) => match tier {
            Tier::Secure => StoreStep::Ask(Tier::Fallback),
            Tier::Fallback => StoreStep::Finished(Err(AppError::PersistenceFailed)),
        },
    }
}

/// Reading: a value is found; no entry is a legitimate absence; any other
/// failure of the secure tier sends the read to the fallback tier.
pub open spec fn find_next<V>(tier: Tier, reply: Result<V, TierError>) -> StoreStep<Option<V>> {
    match reply {
        Ok(v) => StoreStep::Finished(Ok(Some(v))),
        Err(TierError::NoEntry) => StoreStep::Finished(Ok(None)),
        Err(TierError::Unavailable) => match tier {
            Tier::Secure => StoreStep::Ask(Tier::Fallback),
            Tier::Fallback => StoreStep::Finished(Err(AppError::PersistenceFailed)),
        },
    }
}

/// Deleting: an absent entry counts as deleted; a failure of the secure
/// tier sends the deletion to the fallback tier.
pub open spec fn delete_next(tier: Tier, reply: Result<(), TierError>) -> StoreStep<()> {
    match reply {
        Ok(()) => StoreStep::Finished(Ok(())),
        Err(TierError::NoEntry) => StoreStep::Finished(Ok(())),
        Err(TierError::Unavailable) => match tier {
            Tier::Secure => StoreStep::Ask(Tier::Fallback),
            Tier::Fallback => StoreStep::Finished(Err(AppError::PersistenceFailed)),
        },
    }
}

/// The tier that every operation asks first: the secure one.
pub fn first_tier() -> (r: Tier)
    ensures
        r == Tier::Secure,
{
    Tier::Secure
}

/// Decides what follows a tier's answer to a write of the credential.
pub fn set(tier: Tier, reply: Result<(), TierError>) -> (r: StoreStep<()>)
    ensures
        r == set_next(tier, reply),
{
    match reply {
        Ok(()) => StoreStep::Finished(Ok(())),
        Err(_) => match tier {
            Tier::Secure => StoreStep::Ask(Tier::Fallback),
            Tier::Fallback => StoreStep::Finished(Err(AppError::PersistenceFailed)),
        },
    }
}

/// Decides what follows a tier's answer to a read of the credential.
pub fn find(tier: Tier, reply: Result<String, TierError>) -> (r: StoreStep<Option<String>>)
    ensures
        r == find_next(tier, reply),
{
    match reply {
        Ok(v) => StoreStep::Finished(Ok(Some(v))),
        Err(TierError::NoEntry) => StoreStep::Finished(Ok(None)),
        Err(TierError::Unavailable) => match tier {
            Tier::Secure => StoreStep::Ask(Tier::Fallback),
            Tier::Fallback => StoreStep::Finished(Err(AppError::PersistenceFailed)),
        },
    }
}

/// Decides what follows a tier's answer to a deletion of the credential.
pub fn delete(tier: Tier, reply: Result<(), TierError>) -> (r: StoreStep<()>)
    ensures
        r == delete_next(tier, reply),
{
    match reply {
        Ok(()) => StoreStep::Finished(Ok(())),
        Err(TierError::NoEntry) => StoreStep::Finished(Ok(())),
        Err(TierError::Unavailable) => match tier {
            Tier::Secure => StoreStep::Ask(Tier::Fallback),
            Tier::Fallback => StoreStep::Finished(Err(AppError::PersistenceFailed)),
        },
    }
}

/// A tier as a value: whether it serves requests, and what it holds under
/// the credential's key.
pub struct TierModel {
    pub available: bool,
    pub value: Option<Seq<char>>,
}

/// A tier's answer to a write of `v`, and the tier afterwards.
pub open spec fn tier_write(t: TierModel, v: Seq<char>) -> (Result<(), TierError>, TierModel) {
    if t.available {
        (Ok(()), TierModel { available: true, value: Some(v) })
    } else {
        (Err(TierError::Unavailable), t)
    }
}

/// A tier's answer to a read.
pub open spec fn tier_read(t: TierModel) -> Result<Seq<char>, TierError> {
    if !t.available {
        Err(TierError::Unavailable)
    } else {
        match t.value {
            Some(v) => Ok(v),
            None => Err(TierError::NoEntry),
        }
    }
}

/// A tier's answer to a deletion, and the tier afterwards.
pub open spec fn tier_remove(t: TierModel) -> (Result<(), TierError>, TierModel) {
    if !t.available {
        (Err(TierError::Unavailable), t)
    } else {
        match t.value {
            Some(_) => (Ok(()), TierModel { available: true, value: None }),
            None => (Err(TierError::NoEntry), t),
        }
    }
}

/// A whole write of `v` driven by `set` against two tiers: its result and
/// the tiers afterwards.
pub open spec fn run_set(secure: TierModel, fallback: TierModel, v: Seq<char>) -> (
    Result<(), AppError>,
    TierModel,
    TierModel,
) {
    let (r1, s1) = tier_write(secure, v);
    match set_next(Tier::Secure, r1) {
        StoreStep::Finished(res) => (res, s1, fallback),
        StoreStep::Ask(Tier::Fallback) => {
            let (r2, f1) = tier_write(fallback, v);
            match set_next(Tier::Fallback, r2) {
                StoreStep::Finished(res) => (res, s1, f1),
                StoreStep::Ask(_) => (Err(AppError::PersistenceFailed), s1, f1),
            }
        },
        StoreStep::Ask(Tier::Secure) => (Err(AppError::PersistenceFailed), s1, fallback),
    }
}

/// A whole read driven by `find` against two tiers.
pub open spec fn run_find(secure: TierModel, fallback: TierModel) -> Result<
    Option<Seq<char>>,
    AppError,
> {
    match find_next(Tier::Secure, tier_read(secure)) {
        StoreStep::Finished(res) => res,
        StoreStep::Ask(Tier::Fallback) => match find_next(Tier::Fallback, tier_read(fallback)) {
            StoreStep::Finished(res) => res,
            StoreStep::Ask(_) => Err(AppError::PersistenceFailed),
        },
        StoreStep::Ask(Tier::Secure) => Err(AppError::PersistenceFailed),
    }
}

/// A whole deletion driven by `delete` against two tiers: its result and
/// the tiers afterwards.
pub open spec fn run_delete(secure: TierModel, fallback: TierModel) -> (
    Result<(), AppError>,
    TierModel,
    TierModel,
) {
    let (r1, s1) = tier_remove(secure);
    match delete_next(Tier::Secure, r1) {
        StoreStep::Finished(res) => (res, s1, fallback),
        StoreStep::Ask(Tier::Fallback) => {
            let (r2, f1) = tier_remove(fallback);
            match delete_next(Tier::Fallback, r2) {
                StoreStep::Finished(res) => (res, s1, f1),
                StoreStep::Ask(_) => (Err(AppError::PersistenceFailed), s1, f1),
            }
        },
        StoreStep::Ask(Tier::Secure) => (Err(AppError::PersistenceFailed), s1, fallback),
    }
}

/// A value that was stored reads back unchanged whenever one tier serves
/// requests: through the secure tier when it works, and through the
/// fallback tier when the secure tier fails on both calls.
pub proof fn lemma_set_then_find(secure: TierModel, fallback: TierModel, v: Seq<char>)
    requires
        secure.available || fallback.available,
    ensures
        run_set(secure, fallback, v).0 == Ok::<(), AppError>(()),
        run_find(run_set(secure, fallback, v).1, run_set(secure, fallback, v).2) == Ok::<
            Option<Seq<char>>,
            AppError,
        >(Some(v)),
{
}

/// Deleting a credential that no tier holds succeeds, whichever tier
/// answers.
pub proof fn lemma_delete_absent(secure: TierModel, fallback: TierModel)
    requires
        secure.value is None,
        fallback.value is None,
        secure.available || fallback.available,
    ensures
        run_delete(secure, fallback).0 == Ok::<(), AppError>(()),
{
}

} // verus!
