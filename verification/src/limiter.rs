//! Per-client attempt records and the policy that blocks a client after too
//! many attempts inside the rate-limit window.

use vstd::prelude::*;
use dashmap::DashMap;
use crate::clock::{window_elapsed, Timestamp};

verus! {

/// Attempts a client may make inside one window before it is blocked.
pub const MAX_ATTEMPTS: u32 = 3;

/// The address a request came from.
#[derive(Clone, Copy, Debug, PartialEq, Eq, Hash, Structural)]
pub enum IpAddress {
    /// An IPv4 address, its four octets in network order.
    V4(u32),
    /// An IPv6 address, its sixteen octets in network order.
    V6(u128),
}

impl IpAddress {
    /// The pair under which the address is filed: the family, then the bits.
    /// Distinct addresses have distinct keys.
    spec fn key(self) -> (bool, u128) {
        match self {
            IpAddress::V4(bits) => (false, bits as u128),
            IpAddress::V6(bits) => (true, bits),
        }
    }

    fn to_key(&self) -> (k: (bool, u128))
        ensures
            k == self.key(),
    {
        match self {
            IpAddress::V4(bits) => (false, *bits as u128),
            IpAddress::V6(bits) => (true, *bits),
        }
    }
}

/// What is remembered of one client: how many attempts it has made since its
/// window was last reset, and when it was last seen.
#[derive(Clone, Copy, Debug, PartialEq, Eq, Structural)]
pub struct Attempt {
    pub count: u32,
    pub last: Timestamp,
}

impl Attempt {
    /// The record of a client seen for the first time at `now`.
    pub open spec fn first(now: Timestamp) -> Attempt {
        Attempt { count: 1, last: now }
    }

    /// The record after one more attempt at `now`. The count stops at the
    /// largest value it can hold, so it never falls.
    pub open spec fn bumped(self, now: Timestamp) -> Attempt {
        Attempt {
            count: if self.count < u32::MAX { (self.count + 1) as u32 } else { self.count },
            last: now,
        }
    }

    /// The record of a client whose window has been reset at `now`.
    pub open spec fn reset(now: Timestamp) -> Attempt {
        Attempt { count: 0, last: now }
    }

    /// The record of a first attempt at `now`.
    pub fn new(now: Timestamp) -> (record: Attempt)
        ensures
            record == Attempt::first(now),
    {
        Attempt { count: 1, last: now }
    }

    /// The record after one more attempt at `now`.
    pub fn bump(&self, now: Timestamp) -> (record: Attempt)
        ensures
            record == self.bumped(now),
    {
        Attempt { count: self.count.saturating_add(1), last: now }
    }
}

/// The records after a check of `ip` at `now`: a record whose window has
/// run out is reset, every other record stays as it is.
pub open spec fn after_check(
    records: Map<IpAddress, Attempt>,
    ip: IpAddress,
    now: Timestamp,
) -> Map<IpAddress, Attempt> {
    if records.contains_key(ip) && window_elapsed(records[ip].last, now) {
        records.insert(ip, Attempt::reset(now))
    } else {
        records
    }
}

/// Whether `ip` is refused at `now`: it has a record, the record's window is
/// still running, and the record holds at least `MAX_ATTEMPTS` attempts.
pub open spec fn is_blocked(records: Map<IpAddress, Attempt>, ip: IpAddress, now: Timestamp) -> bool {
    &&& records.contains_key(ip)
    &&& !window_elapsed(records[ip].last, now)
    &&& records[ip].count >= MAX_ATTEMPTS
}

/// The records after an attempt of `ip` at `now` has been recorded.
pub open spec fn after_record(
    records: Map<IpAddress, Attempt>,
    ip: IpAddress,
    now: Timestamp,
) -> Map<IpAddress, Attempt> {
    if records.contains_key(ip) {
        records.insert(ip, records[ip].bumped(now))
    } else {
        records.insert(ip, Attempt::first(now))
    }
}

/// Three attempts of a client, whenever they were recorded, block it for as
/// long as the window of the last of them runs: a check inside that window
/// refuses the client and changes nothing.
pub proof fn lemma_three_attempts_block(
    records: Map<IpAddress, Attempt>,
    ip: IpAddress,
    first: Timestamp,
    second: Timestamp,
    third: Timestamp,
    now: Timestamp,
)
    requires
        !window_elapsed(third, now),
    ensures
        ({
            let recorded = after_record(
                after_record(after_record(records, ip, first), ip, second),
                ip,
                third,
            );
            &&& is_blocked(recorded, ip, now)
            &&& after_check(recorded, ip, now) == recorded
        }),
{
}

/// A check more than 24 hours after a client was last seen lets the client
/// through, however many attempts it had made, and starts its window anew:
/// the record holds no attempt and was last seen at the check. A second
/// check inside the new window lets the client through as well.
pub proof fn lemma_elapsed_window_resets(
    records: Map<IpAddress, Attempt>,
    ip: IpAddress,
    now: Timestamp,
    later: Timestamp,
)
    requires
        records.contains_key(ip),
        window_elapsed(records[ip].last, now),
    ensures
        !is_blocked(records, ip, now),
        after_check(records, ip, now) == records.insert(ip, Attempt::reset(now)),
        !is_blocked(after_check(records, ip, now), ip, later),
{
}

/// The count of a record falls only where a check finds its window run out,
/// and then to zero; recording an attempt never lowers it. Where time does
/// not run backwards, the time a client was last seen does not either.
/// Neither operation touches the record of another client.
pub proof fn lemma_record_history(
    records: Map<IpAddress, Attempt>,
    ip: IpAddress,
    other: IpAddress,
    now: Timestamp,
)
    requires
        records.contains_key(ip),
    ensures
        after_record(records, ip, now)[ip].count >= records[ip].count,
        after_record(records, ip, now)[ip].last == now,
        after_check(records, ip, now)[ip] == records[ip] || (window_elapsed(records[ip].last, now)
            && after_check(records, ip, now)[ip] == Attempt::reset(now)),
        now.as_nanos() >= records[ip].last.as_nanos() ==> {
            &&& after_record(records, ip, now)[ip].last.as_nanos() >= records[ip].last.as_nanos()
            &&& after_check(records, ip, now)[ip].last.as_nanos() >= records[ip].last.as_nanos()
        },
        other != ip ==> {
            &&& after_record(records, ip, now).contains_key(other) == records.contains_key(other)
            &&& after_check(records, ip, now).contains_key(other) == records.contains_key(other)
            &&& after_record(records, ip, now)[other] == records[other]
            &&& after_check(records, ip, now)[other] == records[other]
        },
{
}

#[verifier::external_type_specification]
#[verifier::external_body]
#[verifier::reject_recursive_types(K)]
#[verifier::reject_recursive_types(V)]
#[verifier::reject_recursive_types(S)]
pub struct ExDashMap<K, V, S>(DashMap<K, V, S>);

/// The entries that a table holds, by key.
pub uninterp spec fn entries(table: DashMap<(bool, u128), Attempt>) -> Map<(bool, u128), Attempt>;

/// `DashMap::new`: the new table holds no entry.
#[verifier::external_body]
fn table_new() -> (table: DashMap<(bool, u128), Attempt>)
    ensures
        entries(table) =~= Map::empty(),
{
    DashMap::new()
}

/// `DashMap::get`, with the value copied out of the guard: the entry filed
/// under `key`, or `None` where the table holds none.
#[verifier::external_body]
fn table_get(table: &DashMap<(bool, u128), Attempt>, key: (bool, u128)) -> (found: Option<Attempt>)
    ensures
        found == (if entries(*table).contains_key(key) {
            Some(entries(*table)[key])
        } else {
            None
        }),
{
    table.get(&key).map(|entry| *entry.value())
}

/// `DashMap::insert`, with the table held exclusively: afterwards `key` is
/// filed with `value`, in place of what was filed under it before, and every
/// other entry is as it was.
#[verifier::external_body]
fn table_insert(table: &mut DashMap<(bool, u128), Attempt>, key: (bool, u128), value: Attempt)
    ensures
        entries(*final(table)) == entries(*old(table)).insert(key, value),
{
    table.insert(key, value);
}

/// The attempt records of all clients, one per address.
pub struct Attempts {
    table: DashMap<(bool, u128), Attempt>,
}

impl View for Attempts {
    type V = Map<IpAddress, Attempt>;

    closed spec fn view(&self) -> Map<IpAddress, Attempt> {
        Map::new(
            |ip: IpAddress| entries(self.table).contains_key(ip.key()),
            |ip: IpAddress| entries(self.table)[ip.key()],
        )
    }
}

impl Attempts {
    /// No client has a record yet.
    pub fn new() -> (attempts: Attempts)
        ensures
            attempts@ == Map::<IpAddress, Attempt>::empty(),
    {
        Attempts { table: table_new() }
    }

    /// The record of `ip`, if it has one.
    pub fn get(&self, ip: IpAddress) -> (found: Option<Attempt>)
        ensures
            found == (if self@.contains_key(ip) { Some(self@[ip]) } else { None::<Attempt> }),
    {
        table_get(&self.table, ip.to_key())
    }

    fn put(&mut self, ip: IpAddress, record: Attempt)
        ensures
            final(self)@ == old(self)@.insert(ip, record),
    {
        table_insert(&mut self.table, ip.to_key(), record);
    }

    /// Checks `ip` at the time `now`. A client without a record is not
    /// blocked. A record last seen more than 24 hours before `now` is reset
    /// to no attempts, last seen at `now`, and the client is not blocked.
    /// Otherwise the client is blocked exactly when its record holds
    /// `MAX_ATTEMPTS` attempts or more, and nothing changes.
    pub fn too_many_requests_at(&mut self, ip: IpAddress, now: Timestamp) -> (blocked: bool)
        ensures
            blocked == is_blocked(old(self)@, ip, now),
            final(self)@ == after_check(old(self)@, ip, now),
    {
        match self.get(ip) {
            Some(entry) => {
                if now.window_elapsed_since(&entry.last) {
                    self.put(ip, Attempt { count: 0, last: now });
                    false
                } else {
                    entry.count >= MAX_ATTEMPTS
                }
            },
            None => false,
        }
    }

    /// Records an attempt of `ip` at the time `now`: a first record counts
    /// one attempt, an existing record counts one more; either way the
    /// client was last seen at `now`.
    pub fn record_attempt_at(&mut self, ip: IpAddress, now: Timestamp)
        ensures
            final(self)@ == after_record(old(self)@, ip, now),
    {
        let record = match self.get(ip) {
            Some(entry) => entry.bump(now),
            None => Attempt::new(now),
        };
        self.put(ip, record);
    }

    /// `too_many_requests_at`, at the time the clock shows.
    pub fn too_many_requests(&mut self, ip: IpAddress) -> (blocked: bool)
        ensures
            exists|now: Timestamp|
                blocked == #[trigger] is_blocked(old(self)@, ip, now)
                && final(self)@ == after_check(old(self)@, ip, now),
    {
        let now = Timestamp::now();
        self.too_many_requests_at(ip, now)
    }

    /// `record_attempt_at`, at the time the clock shows.
    pub fn record_attempt(&mut self, ip: IpAddress)
        ensures
            exists|now: Timestamp| final(self)@ == #[trigger] after_record(old(self)@, ip, now),
    {
        let now = Timestamp::now();
        self.record_attempt_at(ip, now)
    }
}

} // verus!
