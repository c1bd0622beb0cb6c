//! The key of a session: drawn once, found again by its identifier.

use crate::aead::SealKey;
use crate::headers::SecurityMode;
use crate::ids::{fresh_id, is_random_id};
use vstd::prelude::*;

verus! {

/// The key of one session and the identifier under which it is kept.
#[derive(Debug, Clone, Copy)]
pub struct SessionKey {
    pub id: u128,
    pub key: SealKey,
}

/// The key that a request goes on with, and whether it has yet to be saved.
pub struct ResolvedKey {
    pub key: SessionKey,
    pub save: bool,
}

/// Calls `cookie::Key::try_generate` and copies the two halves out, by
/// `Key::signing` and `Key::encryption`. The key is random: nothing is said
/// of it. `None` where the system gave no randomness.
#[verifier::external_body]
fn fresh_key() -> (r: Option<SealKey>) {
    let k = cookie::Key::try_generate()?;
    let mut out = SealKey { signing: [0u8; 32], encryption: [0u8; 32] };
    out.signing.copy_from_slice(k.signing());
    out.encryption.copy_from_slice(k.encryption());
    Some(out)
}

/// Which key serves a request that came with the key identifier `inbound`,
/// given the key `loaded` that was found for it, if any, and a key `fresh`
/// drawn for the case that none serves. With one key for every session the
/// fresh key is a stand-in and is never saved. With a key for each session a
/// loaded key serves if it is the one asked for; else the fresh one does,
/// and is saved where the registry is durable.
pub open spec fn resolved(
    mode: SecurityMode,
    persistent: bool,
    inbound: Option<u128>,
    loaded: Option<SessionKey>,
    fresh: SessionKey,
) -> ResolvedKey {
    match mode {
        SecurityMode::Simple => ResolvedKey { key: fresh, save: false },
        SecurityMode::PerSession => if inbound is Some && loaded is Some && loaded.unwrap().id
            == inbound.unwrap() {
            ResolvedKey { key: loaded.unwrap(), save: false }
        } else {
            ResolvedKey { key: fresh, save: persistent }
        },
    }
}

impl SessionKey {
    /// Draws a new key under a new random identifier, if the system gives
    /// the randomness for the key.
    pub fn generate() -> (r: Option<SessionKey>)
        ensures
            r matches Some(k) ==> is_random_id(k.id),
    {
        match fresh_key() {
            Some(key) => Some(SessionKey { id: fresh_id(), key }),
            None => None,
        }
    }

    /// Decides which key serves a request: see `resolved`.
    pub fn get_or_create(
        mode: SecurityMode,
        persistent: bool,
        inbound: Option<u128>,
        loaded: Option<SessionKey>,
        fresh: SessionKey,
    ) -> (r: ResolvedKey)
        ensures
            r == resolved(mode, persistent, inbound, loaded, fresh),
    {
        match mode {
            SecurityMode::Simple => ResolvedKey { key: fresh, save: false },
            SecurityMode::PerSession => {
                if let Some(id) = inbound {
                    if let Some(k) = loaded {
                        if k.id == id {
                            return ResolvedKey { key: k, save: false };
                        }
                    }
                }
                ResolvedKey { key: fresh, save: persistent }
            },
        }
    }
}

/// A key is kept exactly when each session has its own, the registry is
/// durable, and the request did not come with the identifier of the key
/// that was loaded. With one key for every session nothing is ever kept.
pub proof fn law_key_saved(
    mode: SecurityMode,
    persistent: bool,
    inbound: Option<u128>,
    loaded: Option<SessionKey>,
    fresh: SessionKey,
)
    ensures
        resolved(mode, persistent, inbound, loaded, fresh).save ==> mode == SecurityMode::PerSession
            && persistent && resolved(mode, persistent, inbound, loaded, fresh).key == fresh,
        !resolved(mode, persistent, inbound, loaded, fresh).save && mode == SecurityMode::PerSession
            && persistent ==> inbound == Some(resolved(mode, persistent, inbound, loaded, fresh).key.id),
{
}

} // verus!
