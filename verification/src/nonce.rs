//! Nonce bookkeeping for API keys.
//!
//! Every transaction an API key signs carries a nonce that the exchange
//! expects to grow by one per accepted transaction. Two strategies are
//! offered: the optimistic one counts nonces locally after one initial fetch
//! per key; the API one fetches the nonce from the exchange for every
//! transaction and counts locally only for batches. Both rotate through the
//! configured keys. The state kept here is the part of each strategy that
//! decides; fetching from the exchange and waiting are left to the caller.

use vstd::prelude::*;

use std::collections::HashMap;

verus! {

broadcast use vstd::std_specs::hash::group_hash_axioms;

/// Which nonce strategy a signer client uses.
#[derive(Debug, Clone, Copy, PartialEq, Eq, Structural)]
pub enum NonceManagerType {
    Optimistic,
    Api,
}

/// Shortest time between two uses of the same key by the API strategy.
pub const MIN_WAIT_MS: u64 = 350;

/// The nonce stored for `key`, or zero when none is stored.
pub open spec fn stored_nonce(m: Map<u8, i64>, key: u8) -> i64 {
    if m.contains_key(key) {
        m[key]
    } else {
        0
    }
}

/// The stored nonces after handing out the nonce of `key`.
pub open spec fn after_take(m: Map<u8, i64>, key: u8) -> Map<u8, i64> {
    m.insert(key, (stored_nonce(m, key) + 1) as i64)
}

/// The stored nonces after handing out `n` consecutive nonces of `key`.
pub open spec fn after_takes(m: Map<u8, i64>, key: u8, n: nat) -> Map<u8, i64> {
    m.insert(key, (stored_nonce(m, key) + n) as i64)
}

/// The stored nonces after a failed transaction signed by `key`: a stored
/// positive nonce goes back by one; anything else is left as it was.
pub open spec fn after_failure(m: Map<u8, i64>, key: u8) -> Map<u8, i64> {
    if m.contains_key(key) && m[key] > 0 {
        m.insert(key, (m[key] - 1) as i64)
    } else {
        m
    }
}

/// The stored nonces after `n` failures of `key`.
pub open spec fn after_failures(m: Map<u8, i64>, key: u8, n: nat) -> Map<u8, i64>
    decreases n,
{
    if n == 0 {
        m
    } else {
        after_failure(after_failures(m, key, (n - 1) as nat), key)
    }
}

/// The stored nonces after the exchange reported `fetched` as the next nonce
/// of `key`; no value counts as zero.
pub open spec fn after_refresh(m: Map<u8, i64>, key: u8, fetched: Option<i64>) -> Map<u8, i64> {
    m.insert(
        key,
        match fetched {
            Some(n) => n,
            None => 0,
        },
    )
}

/// The key that follows position `idx` in a rotation through `len` keys.
pub open spec fn next_position(idx: int, len: int) -> int {
    (idx + 1) % len
}

// ---------------------------------------------------------------------------
// Optimistic strategy
// ---------------------------------------------------------------------------

/// The state of the optimistic strategy: the keys to rotate through, the
/// position of the key to use next, and the next nonce of each key.
#[derive(Debug)]
pub struct OptimisticNonceState {
    api_keys: Vec<u8>,
    current_key_idx: usize,
    nonces: HashMap<u8, i64>,
}

impl OptimisticNonceState {
    /// The keys rotated through.
    pub closed spec fn keys(&self) -> Seq<u8> {
        self.api_keys@
    }

    /// The position of the key the next rotation uses.
    pub closed spec fn position(&self) -> int {
        if self.api_keys@.len() == 0 {
            0
        } else {
            self.current_key_idx as int % self.api_keys@.len() as int
        }
    }

    /// The next nonce stored for each key.
    pub closed spec fn nonces(&self) -> Map<u8, i64> {
        self.nonces@
    }

    /// A state for `api_keys` with no nonce stored yet; the first rotation
    /// uses the first key.
    pub fn new(api_keys: Vec<u8>) -> (res: Self)
        ensures
            res.keys() == api_keys@,
            res.position() == 0,
            res.nonces() == Map::<u8, i64>::empty(),
    {
        proof {
            if api_keys@.len() > 0 {
                vstd::arithmetic::div_mod::lemma_small_mod(0, api_keys@.len() as nat);
            }
        }
        OptimisticNonceState { api_keys, current_key_idx: 0, nonces: HashMap::new() }
    }

    /// The key the next rotation uses, if there is any key.
    pub fn current_key(&self) -> (res: Option<u8>)
        ensures
            self.keys().len() == 0 ==> res is None,
            self.keys().len() > 0 ==> res == Some(self.keys()[self.position()]),
    {
        if self.api_keys.len() == 0 {
            None
        } else {
            Some(self.api_keys[self.current_key_idx % self.api_keys.len()])
        }
    }

    /// The next nonce stored for `key`, zero when none is stored.
    pub fn stored_nonce(&self, key: u8) -> (res: i64)
        ensures
            res == stored_nonce(self.nonces(), key),
    {
        match self.nonces.get(&key) {
            Some(n) => *n,
            None => 0,
        }
    }

    /// Hand out the next nonce of the current key and rotate to the next key.
    pub fn next_nonce(&mut self) -> (res: (u8, i64))
        requires
            old(self).keys().len() > 0,
            stored_nonce(old(self).nonces(), old(self).keys()[old(self).position()]) < i64::MAX,
        ensures
            res.0 == old(self).keys()[old(self).position()],
            res.1 == stored_nonce(old(self).nonces(), res.0),
            final(self).keys() == old(self).keys(),
            final(self).position() == next_position(old(self).position(), old(self).keys().len() as int),
            final(self).nonces() == after_take(old(self).nonces(), res.0),
    {
        let position = self.current_key_idx % self.api_keys.len();
        let api_key = self.api_keys[position];
        self.current_key_idx = (position + 1) % self.api_keys.len();
        proof {
            vstd::arithmetic::div_mod::lemma_mod_twice(position as int + 1, self.api_keys@.len() as int);
        }
        let n = self.take(api_key);
        (api_key, n)
    }

    /// Hand out the next nonce of `api_key` without rotating.
    pub fn next_nonce_for_key(&mut self, api_key: u8) -> (res: (u8, i64))
        requires
            stored_nonce(old(self).nonces(), api_key) < i64::MAX,
        ensures
            res == (api_key, stored_nonce(old(self).nonces(), api_key)),
            final(self).keys() == old(self).keys(),
            final(self).position() == old(self).position(),
            final(self).nonces() == after_take(old(self).nonces(), api_key),
    {
        let n = self.take(api_key);
        (api_key, n)
    }

    fn take(&mut self, api_key: u8) -> (res: i64)
        requires
            stored_nonce(old(self).nonces(), api_key) < i64::MAX,
        ensures
            res == stored_nonce(old(self).nonces(), api_key),
            final(self).keys() == old(self).keys(),
            final(self).position() == old(self).position(),
            final(self).nonces() == after_take(old(self).nonces(), api_key),
    {
        let current = match self.nonces.get(&api_key) {
            Some(n) => *n,
            None => 0,
        };
        self.nonces.insert(api_key, current + 1);
        current
    }

    /// Give back the last nonce of `api_key` after its transaction failed.
    pub fn acknowledge_failure(&mut self, api_key: u8)
        ensures
            final(self).keys() == old(self).keys(),
            final(self).position() == old(self).position(),
            final(self).nonces() == after_failure(old(self).nonces(), api_key),
    {
        let current = match self.nonces.get(&api_key) {
            Some(n) => Some(*n),
            None => None,
        };
        match current {
            Some(n) => {
                if n > 0 {
                    self.nonces.insert(api_key, n - 1);
                }
            },
            None => {},
        }
    }

    /// Give back `count` nonces of `api_key` after a batch failed.
    pub fn acknowledge_failures(&mut self, api_key: u8, count: usize)
        ensures
            final(self).keys() == old(self).keys(),
            final(self).position() == old(self).position(),
            final(self).nonces() == after_failures(old(self).nonces(), api_key, count as nat),
    {
        let mut i: usize = 0;
        while i < count
            invariant
                i <= count,
                self.keys() == old(self).keys(),
                self.position() == old(self).position(),
                self.nonces() == after_failures(old(self).nonces(), api_key, i as nat),
            decreases count - i,
        {
            self.acknowledge_failure(api_key);
            i = i + 1;
        }
    }

    /// Store the nonce the exchange reported for `api_key` (`None` counts as zero).
    pub fn hard_refresh_nonce(&mut self, api_key: u8, fetched: Option<i64>)
        ensures
            final(self).keys() == old(self).keys(),
            final(self).position() == old(self).position(),
            final(self).nonces() == after_refresh(old(self).nonces(), api_key, fetched),
    {
        let n = match fetched {
            Some(n) => n,
            None => 0,
        };
        self.nonces.insert(api_key, n);
    }

    /// Reserve `count` sequential nonces on one key for a batch: the nonce of
    /// the current key, then `count - 1` more on the same key. Reserving no
    /// nonce returns the current key with an empty list and leaves the state
    /// as it was.
    pub fn reserve_nonces(&mut self, count: usize) -> (res: (u8, Vec<i64>))
        requires
            old(self).keys().len() > 0,
            stored_nonce(old(self).nonces(), old(self).keys()[old(self).position()]) + count
                <= i64::MAX,
        ensures
            res.0 == old(self).keys()[old(self).position()],
            res.1@.len() == count,
            forall|i: int|
                0 <= i < res.1@.len() ==> #[trigger] res.1@[i] == stored_nonce(
                    old(self).nonces(),
                    res.0,
                ) + i,
            final(self).keys() == old(self).keys(),
            count == 0 ==> final(self).position() == old(self).position() && final(self).nonces()
                == old(self).nonces(),
            count > 0 ==> final(self).position() == next_position(
                old(self).position(),
                old(self).keys().len() as int,
            ) && final(self).nonces() == after_takes(old(self).nonces(), res.0, count as nat),
    {
        if count == 0 {
            let key = self.api_keys[self.current_key_idx % self.api_keys.len()];
            return (key, Vec::new());
        }
        let (key, first) = self.next_nonce();
        let mut nonces: Vec<i64> = vec![first];
        let mut i: usize = 1;
        while i < count
            invariant
                1 <= i <= count,
                nonces@.len() == i,
                forall|j: int| 0 <= j < nonces@.len() ==> #[trigger] nonces@[j] == first + j,
                first == stored_nonce(old(self).nonces(), key),
                first + count <= i64::MAX,
                self.keys() == old(self).keys(),
                self.position() == next_position(old(self).position(), old(self).keys().len() as int),
                self.nonces() == after_takes(old(self).nonces(), key, i as nat),
            decreases count - i,
        {
            let (_, n) = self.next_nonce_for_key(key);
            nonces.push(n);
            i = i + 1;
            proof {
                assert(self.nonces() =~= after_takes(old(self).nonces(), key, i as nat));
            }
        }
        (key, nonces)
    }
}

/// A failed transaction gives its nonce back: handing out the nonce of a key
/// and then acknowledging the failure leaves every key's next nonce as it
/// was, as long as the key's nonce was not negative.
pub proof fn lemma_take_then_failure_restores(m: Map<u8, i64>, key: u8, other: u8)
    requires
        0 <= stored_nonce(m, key) < i64::MAX,
    ensures
        stored_nonce(after_failure(after_take(m, key), key), other) == stored_nonce(m, other),
{
}

/// Failures undo in bulk what a batch reserved: after handing out `n`
/// nonces of a key and acknowledging `n` failures, the key's next nonce is
/// the one it had, as long as it was not negative.
pub proof fn lemma_takes_then_failures_restore(m: Map<u8, i64>, key: u8, n: nat, other: u8)
    requires
        0 <= stored_nonce(m, key),
        stored_nonce(m, key) + n <= i64::MAX,
    ensures
        stored_nonce(after_failures(after_takes(m, key, n), key, n), other) == stored_nonce(m, other),
{
    lemma_failures_decrement(after_takes(m, key, n), key, n);
}

proof fn lemma_failures_decrement(m: Map<u8, i64>, key: u8, n: nat)
    requires
        m.contains_key(key),
        m[key] >= n,
    ensures
        after_failures(m, key, n) == m.insert(key, (m[key] - n) as i64),
    decreases n,
{
    if n == 0 {
        assert(m.insert(key, m[key]) =~= m);
    } else {
        lemma_failures_decrement(m, key, (n - 1) as nat);
        assert(m.insert(key, (m[key] - (n - 1)) as i64).insert(key, (m[key] - n) as i64) =~= m.insert(
            key,
            (m[key] - n) as i64,
        ));
    }
}

/// Nonces handed out on one key are consecutive: each take hands out the
/// nonce after the one before.
pub proof fn lemma_takes_are_consecutive(m: Map<u8, i64>, key: u8)
    requires
        stored_nonce(m, key) < i64::MAX,
    ensures
        stored_nonce(after_take(m, key), key) == stored_nonce(m, key) + 1,
        forall|k: u8| k != key ==> stored_nonce(after_take(m, key), k) == stored_nonce(m, k),
{
}

/// Rotation visits the keys in order: after `len` rotations from a valid
/// position the position is the same again.
pub proof fn lemma_rotation_returns(idx: int, len: int, steps: nat)
    requires
        0 <= idx < len,
    ensures
        rotate(idx, len, steps) == (idx + steps) % len,
        steps == len ==> rotate(idx, len, steps) == idx,
    decreases steps,
{
    if steps == 0 {
        vstd::arithmetic::div_mod::lemma_small_mod(idx as nat, len as nat);
    } else {
        lemma_rotation_returns(idx, len, (steps - 1) as nat);
        let x = idx + steps - 1;
        vstd::arithmetic::div_mod::lemma_add_mod_noop_right(1, x, len);
        assert(rotate(idx, len, steps) == (x % len + 1) % len);
        assert((1 + x % len) % len == (1 + x) % len);
    }
    if steps == len {
        vstd::arithmetic::div_mod::lemma_mod_add_multiples_vanish(idx, len);
        vstd::arithmetic::div_mod::lemma_small_mod(idx as nat, len as nat);
    }
}

/// The position after `steps` rotations from `idx` through `len` keys.
pub open spec fn rotate(idx: int, len: int, steps: nat) -> int
    decreases steps,
{
    if steps == 0 {
        idx
    } else {
        next_position(rotate(idx, len, (steps - 1) as nat), len)
    }
}

// ---------------------------------------------------------------------------
// API strategy
// ---------------------------------------------------------------------------

/// The state of the API strategy: the keys to rotate through, the position of
/// the key to use next, and the nonces counted locally for batches.
#[derive(Debug)]
pub struct ApiNonceState {
    api_keys: Vec<u8>,
    current_key_idx: usize,
    local_nonces: HashMap<u8, i64>,
}

impl ApiNonceState {
    /// The keys rotated through.
    pub closed spec fn keys(&self) -> Seq<u8> {
        self.api_keys@
    }

    /// The position of the key the next rotation uses.
    pub closed spec fn position(&self) -> int {
        if self.api_keys@.len() == 0 {
            0
        } else {
            self.current_key_idx as int % self.api_keys@.len() as int
        }
    }

    /// The next nonce counted locally for each key.
    pub closed spec fn local_nonces(&self) -> Map<u8, i64> {
        self.local_nonces@
    }

    /// A state for `api_keys` with nothing counted locally.
    pub fn new(api_keys: Vec<u8>) -> (res: Self)
        ensures
            res.keys() == api_keys@,
            res.position() == 0,
            res.local_nonces() == Map::<u8, i64>::empty(),
    {
        proof {
            if api_keys@.len() > 0 {
                vstd::arithmetic::div_mod::lemma_small_mod(0, api_keys@.len() as nat);
            }
        }
        ApiNonceState { api_keys, current_key_idx: 0, local_nonces: HashMap::new() }
    }

    /// The key the next rotation uses, if there is any key.
    pub fn current_key(&self) -> (res: Option<u8>)
        ensures
            self.keys().len() == 0 ==> res is None,
            self.keys().len() > 0 ==> res == Some(self.keys()[self.position()]),
    {
        if self.api_keys.len() == 0 {
            None
        } else {
            Some(self.api_keys[self.current_key_idx % self.api_keys.len()])
        }
    }

    /// How many keys are rotated through.
    pub fn key_count(&self) -> (res: usize)
        ensures
            res == self.keys().len(),
    {
        self.api_keys.len()
    }

    /// Pick the key for the next transaction and rotate to the following one.
    pub fn next_key(&mut self) -> (res: u8)
        requires
            old(self).keys().len() > 0,
        ensures
            res == old(self).keys()[old(self).position()],
            final(self).keys() == old(self).keys(),
            final(self).position() == next_position(old(self).position(), old(self).keys().len() as int),
            final(self).local_nonces() == old(self).local_nonces(),
    {
        let position = self.current_key_idx % self.api_keys.len();
        let api_key = self.api_keys[position];
        self.current_key_idx = (position + 1) % self.api_keys.len();
        proof {
            vstd::arithmetic::div_mod::lemma_mod_twice(position as int + 1, self.api_keys@.len() as int);
        }
        api_key
    }

    /// Record the nonce the exchange reported for `api_key` (`None` counts as
    /// zero) and return it; the nonce after it is counted locally so that a
    /// batch can continue the sequence.
    pub fn record_fetched(&mut self, api_key: u8, fetched: Option<i64>) -> (res: i64)
        requires
            fetched matches Some(n) ==> n < i64::MAX,
        ensures
            res == (match fetched {
                Some(n) => n,
                None => 0,
            }),
            final(self).keys() == old(self).keys(),
            final(self).position() == old(self).position(),
            final(self).local_nonces() == old(self).local_nonces().insert(api_key, (res + 1) as i64),
    {
        let n = match fetched {
            Some(n) => n,
            None => 0,
        };
        self.local_nonces.insert(api_key, n + 1);
        n
    }

    /// Hand out the nonce counted locally for `api_key`, if there is one, and
    /// count the next one; `None` means the nonce must be fetched.
    pub fn take_local(&mut self, api_key: u8) -> (res: Option<i64>)
        requires
            old(self).local_nonces().contains_key(api_key) ==> old(self).local_nonces()[api_key]
                < i64::MAX,
        ensures
            old(self).local_nonces().contains_key(api_key) ==> res == Some(
                old(self).local_nonces()[api_key],
            ) && final(self).local_nonces() == after_take(old(self).local_nonces(), api_key),
            !old(self).local_nonces().contains_key(api_key) ==> res is None
                && final(self).local_nonces() == old(self).local_nonces(),
            final(self).keys() == old(self).keys(),
            final(self).position() == old(self).position(),
    {
        let current = match self.local_nonces.get(&api_key) {
            Some(n) => Some(*n),
            None => None,
        };
        match current {
            Some(n) => {
                self.local_nonces.insert(api_key, n + 1);
                Some(n)
            },
            None => None,
        }
    }

    /// The nonce counted locally for `api_key`, if any.
    pub fn local_nonce(&self, api_key: u8) -> (res: Option<i64>)
        ensures
            self.local_nonces().contains_key(api_key) ==> res == Some(self.local_nonces()[api_key]),
            !self.local_nonces().contains_key(api_key) ==> res is None,
    {
        match self.local_nonces.get(&api_key) {
            Some(n) => Some(*n),
            None => None,
        }
    }
}

/// The next request while reserving nonces for a batch with a manager that
/// fetches them.
#[derive(Debug, Clone, Copy, PartialEq, Eq, Structural)]
pub enum ReserveStep {
    /// Enough nonces are reserved.
    Done,
    /// Take the next nonce, rotating to the next key.
    NextNonce,
    /// Take the next nonce of the key the first one came from.
    NextNonceForKey,
}

/// What to request after `taken` of `count` nonces were reserved: the first
/// nonce rotates the keys, the others stay on its key, and nothing is
/// requested once `count` are reserved (for a count of zero, nothing at all).
pub fn reserve_step(count: usize, taken: usize) -> (res: ReserveStep)
    ensures
        res == (if taken >= count {
            ReserveStep::Done
        } else if taken == 0 {
            ReserveStep::NextNonce
        } else {
            ReserveStep::NextNonceForKey
        }),
{
    if taken >= count {
        ReserveStep::Done
    } else if taken == 0 {
        ReserveStep::NextNonce
    } else {
        ReserveStep::NextNonceForKey
    }
}

/// How long to wait before a key may be used again, given the nanoseconds
/// since it was last used: the rest of [`MIN_WAIT_MS`], or `None` when that
/// much time has passed.
pub fn remaining_wait_nanos(elapsed_nanos: u128) -> (res: Option<u64>)
    ensures
        elapsed_nanos < MIN_WAIT_MS * 1_000_000 ==> res == Some((MIN_WAIT_MS * 1_000_000 - elapsed_nanos) as u64),
        elapsed_nanos >= MIN_WAIT_MS * 1_000_000 ==> res is None,
{
    let min_wait: u128 = 350_000_000;
    if elapsed_nanos < min_wait {
        Some((min_wait - elapsed_nanos) as u64)
    } else {
        None
    }
}

} // verus!
