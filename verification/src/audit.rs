//! Tamper-evident, hash-linked audit log.
//!
//! Every entry carries a signature: the lower-case hex SHA-256 digest of a
//! pipe-joined payload made of the previous entry's signature and the new
//! entry's own fields. The first entry ever appended uses the fixed sentinel
//! `"GENESIS"` in place of a previous signature. Walking the log from the
//! start and recomputing each digest from the stored fields must reproduce
//! every stored signature; a mismatch proves that the entry, or one before
//! it, was altered after it was written.

use vstd::prelude::*;
use vstd::string::{StrSliceExecFns, StringExecFns};

use sha2::Digest;

use crate::models::{LogEntry, NewLogEntry};

verus! {

/// SHA-256 as an unspecified function of the input bytes: the contracts name
/// the digest rather than restating the compression function.
pub uninterp spec fn sha256_of(data: Seq<u8>) -> Seq<u8>;

/// Relies on sha2::Sha256: the digest depends on the input bytes alone, and
/// is always 32 bytes long.
#[verifier::external_body]
fn sha256_digest(data: &[u8]) -> (r: Vec<u8>)
    ensures
        r@ == sha256_of(data@),
        r@.len() == 32,
{
    sha2::Sha256::digest(data).to_vec()
}

/// The sixteen lower-case hex digits, in value order.
pub open spec fn hex_digits() -> Seq<char> {
    seq!['0', '1', '2', '3', '4', '5', '6', '7', '8', '9', 'a', 'b', 'c', 'd', 'e', 'f']
}

/// Lower-case hex encoding: two digits per byte, high nibble first.
pub open spec fn hex_of(data: Seq<u8>) -> Seq<char>
    decreases data.len(),
{
    if data.len() == 0 {
        Seq::empty()
    } else {
        seq![
            hex_digits()[(data.first() >> 4) as int],
            hex_digits()[(data.first() & 0x0f) as int],
        ] + hex_of(data.drop_first())
    }
}

pub proof fn lemma_hex_of_len(data: Seq<u8>)
    ensures
        hex_of(data).len() == 2 * data.len(),
    decreases data.len(),
{
    if data.len() > 0 {
        lemma_hex_of_len(data.drop_first());
    }
}

/// Relies on hex::encode: lower-case hex, two digits per byte, high nibble
/// first.
#[verifier::external_body]
fn hex_lower(data: &[u8]) -> (r: String)
    ensures
        r@ == hex_of(data@),
{
    hex::encode(data)
}

/// The field separator of the signed payload.
pub open spec fn sep() -> Seq<char> {
    seq!['|']
}

/// The sentinel standing in for the previous signature of the first entry.
pub open spec fn genesis_marker() -> Seq<char> {
    "GENESIS"@
}

/// The sentinel as an executable value.
pub fn genesis_signature() -> (r: String)
    ensures
        r@ == genesis_marker(),
{
    "GENESIS".to_owned()
}

/// The equipment reference that enters the payload: the id, or empty when the
/// entry names no equipment.
pub open spec fn equipment_seq(equipment_id: Option<String>) -> Seq<char> {
    match equipment_id {
        Some(e) => e@,
        None => Seq::empty(),
    }
}

/// The signed payload:
/// `previous|timestamp|kind|source|message|equipment-or-empty`.
pub open spec fn sig_payload(
    prev: Seq<char>,
    timestamp: Seq<char>,
    kind: Seq<char>,
    source: Seq<char>,
    message: Seq<char>,
    equipment: Seq<char>,
) -> Seq<char> {
    prev + sep() + timestamp + sep() + kind + sep() + source + sep() + message + sep() + equipment
}

/// The signature of a payload: the hex digest of its UTF-8 bytes.
pub open spec fn sig_of(payload: Seq<char>) -> Seq<char> {
    hex_of(sha256_of(vstd::utf8::encode_utf8(payload)))
}

/// The payload a stored entry must have been signed over, given the previous
/// signature in force when it was appended.
pub open spec fn entry_payload(e: LogEntry, prev: Seq<char>) -> Seq<char> {
    sig_payload(prev, e.timestamp@, e.kind@, e.source@, e.message@, equipment_seq(e.equipment_id))
}

/// The previous-signature reference of position `i` in a stored log: the
/// sentinel for the first entry, else the signature of the entry before it.
pub open spec fn prev_sig_at(s: Seq<LogEntry>, i: int) -> Seq<char> {
    if i == 0 {
        genesis_marker()
    } else {
        s[i - 1].signature@
    }
}

/// Chain integrity: every stored signature is the digest of the payload
/// recomputed from the entry's stored fields and its predecessor's signature.
pub open spec fn chain_ok(s: Seq<LogEntry>) -> bool {
    forall|i: int|
        0 <= i < s.len() ==> s[i].signature@ == sig_of(#[trigger] entry_payload(s[i], prev_sig_at(s, i)))
}

/// Compute the signature of one entry from its fields and the previous
/// signature: the hex SHA-256 digest of the pipe-joined payload.
pub fn compute_signature(
    previous_signature: &str,
    timestamp: &str,
    kind: &str,
    source: &str,
    message: &str,
    equipment_id: &Option<String>,
) -> (r: String)
    ensures
        r@ == sig_of(
            sig_payload(
                previous_signature@,
                timestamp@,
                kind@,
                source@,
                message@,
                equipment_seq(*equipment_id),
            ),
        ),
        r@.len() == 64,
{
    let mut payload = String::new();
    payload.append(previous_signature);
    payload.append("|");
    payload.append(timestamp);
    payload.append("|");
    payload.append(kind);
    payload.append("|");
    payload.append(source);
    payload.append("|");
    payload.append(message);
    payload.append("|");
    match equipment_id {
        Some(e) => payload.append(e.as_str()),
        None => (),
    }
    proof {
        reveal_strlit("|");
        assert(payload@ =~= sig_payload(
            previous_signature@,
            timestamp@,
            kind@,
            source@,
            message@,
            equipment_seq(*equipment_id),
        ));
    }
    let digest = sha256_digest(payload.as_str().as_bytes());
    proof {
        lemma_hex_of_len(digest@);
    }
    hex_lower(digest.as_slice())
}

/// The log as replayed in memory: entries in append order, each signed over
/// its predecessor's signature. The store persists the same rows; this type
/// is the verified model of the chain the rows must form.
pub struct AuditChain {
    entries: Vec<LogEntry>,
}

impl View for AuditChain {
    type V = Seq<LogEntry>;

    closed spec fn view(&self) -> Seq<LogEntry> {
        self.entries@
    }
}

/// A well-formed log: the chain replays (every signature is the digest of
/// its recomputed payload), signatures have digest length, and ids count the
/// entries from 1 as the store assigns them.
pub open spec fn chain_wf(s: Seq<LogEntry>) -> bool {
    &&& chain_ok(s)
    &&& forall|i: int| 0 <= i < s.len() ==> (#[trigger] s[i].signature@).len() == 64
    &&& forall|i: int| 0 <= i < s.len() ==> (#[trigger] s[i].id) as int == i + 1
}

impl AuditChain {
    /// Well-formed: the entries form a well-formed log.
    pub open spec fn wf(&self) -> bool {
        chain_wf(self@)
    }

    /// An empty chain: nothing appended yet.
    pub fn new() -> (r: AuditChain)
        ensures
            r@.len() == 0,
            r.wf(),
    {
        AuditChain { entries: Vec::new() }
    }

    pub fn len(&self) -> (r: usize)
        ensures
            r == self@.len(),
    {
        self.entries.len()
    }

    pub fn entries(&self) -> (r: &Vec<LogEntry>)
        ensures
            r@ == self@,
    {
        &self.entries
    }

    /// Adopt rows read back from the store: accepted exactly when they form
    /// a well-formed log — replay reproduces every signature, signatures
    /// have digest length, ids count from 1.
    pub fn from_entries(entries: Vec<LogEntry>) -> (r: Option<AuditChain>)
        ensures
            match r {
                Some(c) => c@ == entries@ && c.wf(),
                None => !chain_wf(entries@),
            },
    {
        if verify_entries(&entries).is_some() {
            return None;
        }
        let n = entries.len();
        let mut i: usize = 0;
        while i < n
            invariant
                0 <= i <= n,
                n == entries@.len(),
                forall|j: int| 0 <= j < i ==> (#[trigger] entries@[j].signature@).len() == 64,
                forall|j: int| 0 <= j < i ==> (#[trigger] entries@[j].id) as int == j + 1,
            decreases n - i,
        {
            let e = &entries[i];
            if e.signature.as_str().unicode_len() != 64 {
                return None;
            }
            if e.id < 1 || (e.id as u64) != (i as u64) + 1 {
                return None;
            }
            i = i + 1;
        }
        Some(AuditChain { entries })
    }

    /// The previous signature the next append will sign over: the signature
    /// of the most recent entry, or the sentinel for an empty log.
    pub fn last_signature(&self) -> (r: String)
        ensures
            r@ == prev_sig_at(self@, self@.len() as int),
    {
        if self.entries.len() == 0 {
            genesis_signature()
        } else {
            self.entries[self.entries.len() - 1].signature.clone()
        }
    }

    /// Append one entry: sign the caller's fields over the previous
    /// signature (the sentinel for the first entry ever), then push the
    /// entry. The push is the atomic unit; nothing else changes.
    pub fn append(&mut self, entry: NewLogEntry, timestamp: String)
        requires
            old(self).wf(),
            old(self)@.len() + 1 <= i64::MAX,
        ensures
            final(self).wf(),
            final(self)@.len() == old(self)@.len() + 1,
            final(self)@.subrange(0, old(self)@.len() as int) == old(self)@,
            ({
                let e = final(self)@.last();
                &&& e.timestamp@ == timestamp@
                &&& e.kind@ == entry.kind@
                &&& e.source@ == entry.source@
                &&& e.message@ == entry.message@
                &&& e.equipment_id == entry.equipment_id
                &&& e.id as int == old(self)@.len() + 1
                &&& e.signature@ == sig_of(
                    entry_payload(e, prev_sig_at(old(self)@, old(self)@.len() as int)),
                )
            }),
    {
        let previous_signature = self.last_signature();
        let signature = create_entry_signature(&entry, timestamp.as_str(), previous_signature.as_str());
        let id = (self.entries.len() as i64) + 1;
        let stored = LogEntry {
            id,
            timestamp,
            kind: entry.kind,
            source: entry.source,
            message: entry.message,
            equipment_id: entry.equipment_id,
            signature,
        };
        self.entries.push(stored);
        proof {
            let s = self@;
            let prior = old(self)@;
            assert(s.subrange(0, prior.len() as int) =~= prior);
            assert forall|i: int| 0 <= i < s.len() implies s[i].signature@ == sig_of(
                #[trigger] entry_payload(s[i], prev_sig_at(s, i)),
            ) by {
                if i < prior.len() {
                    assert(s[i] == prior[i]);
                    assert(prev_sig_at(s, i) == prev_sig_at(prior, i));
                }
            }
        }
    }

    /// Stamp the entry with the current wall-clock time and append it. The
    /// chain relation is stated over whatever timestamp was drawn.
    pub fn append_now(&mut self, entry: NewLogEntry)
        requires
            old(self).wf(),
            old(self)@.len() + 1 <= i64::MAX,
        ensures
            final(self).wf(),
            final(self)@.len() == old(self)@.len() + 1,
            final(self)@.subrange(0, old(self)@.len() as int) == old(self)@,
            ({
                let e = final(self)@.last();
                &&& e.kind@ == entry.kind@
                &&& e.source@ == entry.source@
                &&& e.message@ == entry.message@
                &&& e.equipment_id == entry.equipment_id
                &&& e.signature@ == sig_of(
                    entry_payload(e, prev_sig_at(old(self)@, old(self)@.len() as int)),
                )
            }),
    {
        let timestamp = now_rfc3339();
        self.append(entry, timestamp);
    }
}

/// Relies on chrono's Utc::now and DateTime::to_rfc3339 for the current
/// wall-clock instant as an ISO-8601 string; nothing is assumed of the value.
#[verifier::external_body]
fn now_rfc3339() -> String {
    chrono::Utc::now().to_rfc3339()
}

/// Walk stored rows from the start, recompute every digest from the stored
/// fields, and report the first entry whose stored signature does not match:
/// evidence of tampering at that entry or one before it. `None` means the
/// whole chain replays exactly.
pub fn verify_entries(entries: &Vec<LogEntry>) -> (r: Option<usize>)
    ensures
        r is None <==> chain_ok(entries@),
        match r {
            Some(i) => {
                &&& i < entries@.len()
                &&& entries@[i as int].signature@ != sig_of(
                    entry_payload(entries@[i as int], prev_sig_at(entries@, i as int)),
                )
                &&& forall|j: int|
                    0 <= j < i ==> entries@[j].signature@ == sig_of(
                        #[trigger] entry_payload(entries@[j], prev_sig_at(entries@, j)),
                    )
            },
            None => true,
        },
{
    let mut previous = genesis_signature();
    let n = entries.len();
    let mut i: usize = 0;
    while i < n
        invariant
            n == entries@.len(),
            0 <= i <= n,
            previous@ == prev_sig_at(entries@, i as int),
            forall|j: int|
                0 <= j < i ==> entries@[j].signature@ == sig_of(
                    #[trigger] entry_payload(entries@[j], prev_sig_at(entries@, j)),
                ),
        decreases n - i,
    {
        let e = &entries[i];
        let recomputed = compute_signature(
            previous.as_str(),
            e.timestamp.as_str(),
            e.kind.as_str(),
            e.source.as_str(),
            e.message.as_str(),
            &e.equipment_id,
        );
        if recomputed != e.signature {
            proof {
                if chain_ok(entries@) {
                    assert(entries@[i as int].signature@ == sig_of(
                        entry_payload(entries@[i as int], prev_sig_at(entries@, i as int)),
                    ));
                }
            }
            return Some(i);
        }
        previous = recomputed;
        i = i + 1;
    }
    None
}

/// `true` exactly when replaying the whole log reproduces every stored
/// signature.
pub fn verify_chain(entries: &Vec<LogEntry>) -> (r: bool)
    ensures
        r == chain_ok(entries@),
{
    verify_entries(entries).is_none()
}

/// Replaying the chain and recomputing each digest from the stored fields
/// reproduces every stored signature: chain integrity is exactly the
/// `chain_ok` predicate that `verify_chain` decides and that every
/// well-formed `AuditChain` maintains.
pub proof fn lemma_replay_reproduces_signatures(c: &AuditChain)
    requires
        c.wf(),
    ensures
        chain_ok(c@),
        forall|i: int|
            0 <= i < c@.len() ==> c@[i].signature@ == sig_of(
                #[trigger] entry_payload(c@[i], prev_sig_at(c@, i)),
            ),
{
}

/// The first entry of any intact chain is signed over the sentinel: its
/// stored signature is the digest of its payload with `"GENESIS"` in the
/// previous-signature position.
pub proof fn lemma_first_entry_signed_from_genesis(s: Seq<LogEntry>)
    requires
        chain_ok(s),
        s.len() > 0,
    ensures
        s[0].signature@ == sig_of(entry_payload(s[0], genesis_marker())),
{
    assert(s[0].signature@ == sig_of(entry_payload(s[0], prev_sig_at(s, 0))));
}

proof fn lemma_concat_mid_cancel(a: Seq<char>, m1: Seq<char>, m2: Seq<char>, b: Seq<char>)
    requires
        a + m1 + b == a + m2 + b,
    ensures
        m1 == m2,
{
    assert((a + m1 + b).len() == a.len() + m1.len() + b.len());
    assert((a + m2 + b).len() == a.len() + m2.len() + b.len());
    assert(m1.len() == m2.len());
    assert(m1 =~= m2) by {
        assert forall|k: int| 0 <= k < m1.len() implies m1[k] == m2[k] by {
            assert((a + m1 + b)[a.len() + k] == m1[k]);
            assert((a + m2 + b)[a.len() + k] == m2[k]);
        }
    }
}

/// Altering the `message` of one historical entry while keeping its stored
/// signature breaks replay: the corrupted chain can still verify only if the
/// digest of the altered payload collides with the digest of the original,
/// distinct payload.
pub proof fn lemma_tampering_breaks_chain(s: Seq<LogEntry>, i: int, e2: LogEntry)
    requires
        chain_ok(s),
        0 <= i < s.len(),
        e2.message@ != s[i].message@,
        e2.timestamp@ == s[i].timestamp@,
        e2.kind@ == s[i].kind@,
        e2.source@ == s[i].source@,
        equipment_seq(e2.equipment_id) == equipment_seq(s[i].equipment_id),
        e2.signature@ == s[i].signature@,
    ensures
        chain_ok(s.update(i, e2)) ==> {
            let prev = prev_sig_at(s, i);
            &&& entry_payload(e2, prev) != entry_payload(s[i], prev)
            &&& sig_of(entry_payload(e2, prev)) == sig_of(entry_payload(s[i], prev))
        },
{
    let t = s.update(i, e2);
    let prev = prev_sig_at(s, i);
    if chain_ok(t) {
        assert(t[i] == e2);
        assert(prev_sig_at(t, i) == prev);
        assert(e2.signature@ == sig_of(entry_payload(e2, prev)));
        assert(s[i].signature@ == sig_of(entry_payload(s[i], prev)));
        let a = prev + sep() + s[i].timestamp@ + sep() + s[i].kind@ + sep() + s[i].source@ + sep();
        let b = sep() + equipment_seq(s[i].equipment_id);
        assert(entry_payload(s[i], prev) =~= a + s[i].message@ + b);
        assert(entry_payload(e2, prev) =~= a + e2.message@ + b);
        if entry_payload(e2, prev) == entry_payload(s[i], prev) {
            lemma_concat_mid_cancel(a, e2.message@, s[i].message@, b);
        }
    }
}

/// No forked chain: as long as the stored signatures are pairwise distinct
/// (digest collisions aside, a property the single-writer discipline and the
/// store's uniqueness rule preserve), no two entries of a well-formed chain
/// carry the same previous-signature reference.
pub proof fn lemma_no_forked_chain(c: &AuditChain)
    requires
        c.wf(),
        forall|i: int, j: int|
            0 <= i < j < c@.len() ==> (#[trigger] c@[i].signature@) != (#[trigger] c@[j].signature@),
    ensures
        forall|i: int, j: int|
            0 <= i < j < c@.len() ==> prev_sig_at(c@, i) != prev_sig_at(c@, j),
{
    reveal_strlit("GENESIS");
    assert forall|i: int, j: int| 0 <= i < j < c@.len() implies prev_sig_at(c@, i) != prev_sig_at(
        c@,
        j,
    ) by {
        if i == 0 {
            assert(genesis_marker().len() == 7);
            assert(c@[j - 1].signature@.len() == 64);
        } else {
            assert(c@[i - 1].signature@ != c@[j - 1].signature@);
        }
    }
}

/// Compute the signature a new entry will carry, as the store-facing caller
/// hands it in.
pub fn create_entry_signature(
    entry_data: &NewLogEntry,
    timestamp: &str,
    previous_signature: &str,
) -> (r: String)
    ensures
        r@ == sig_of(
            sig_payload(
                previous_signature@,
                timestamp@,
                entry_data.kind@,
                entry_data.source@,
                entry_data.message@,
                equipment_seq(entry_data.equipment_id),
            ),
        ),
        r@.len() == 64,
{
    compute_signature(
        previous_signature,
        timestamp,
        entry_data.kind.as_str(),
        entry_data.source.as_str(),
        entry_data.message.as_str(),
        &entry_data.equipment_id,
    )
}

} // verus!
