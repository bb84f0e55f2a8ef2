//! Trust-on-first-use host keys.
//!
//! On first contact with a host its key is unknown: the operator is shown the SHA-256
//! fingerprint, and the key is saved if they trust it. On a later connect the presented
//! key must have the key data of the saved one. A mismatch is a hard stop that only the
//! explicit removal of the saved key clears: a saved key is never replaced in silence.
//!
//! Persistence goes through [`KnownHostsStore`]; [`MemoryKnownHostsStore`] is the one that
//! touches no file.

use crate::files;
use crate::files::FileRead;
use crate::ssh::keys;
use crate::ssh::keys::{PublicKey, PublicKeyView};
use crate::text;
use vstd::prelude::*;

verus! {

/// Name of the known-hosts file in the application's data directory.
pub const KNOWN_HOSTS_FILE: &'static str = "known_hosts.json";

/// Stands for the fingerprint of a saved key that can no longer be read.
pub const UNREADABLE_KEY: &'static str = "unreadable";

/// A host and the OpenSSH line of its saved key.
#[derive(Debug, PartialEq, Eq)]
pub struct HostEntry {
    pub host: String,
    pub key: String,
}

/// The hosts and their saved lines, as a value.
pub type HostMap = Map<Seq<char>, Seq<char>>;

/// A host and its saved line, as values.
pub type Pair = (Seq<char>, Seq<char>);

impl View for HostEntry {
    type V = Pair;

    open spec fn view(&self) -> Pair {
        (self.host@, self.key@)
    }
}

/// Whether hosts come in strictly ascending order, so that none comes twice.
pub open spec fn ascending(pairs: Seq<Pair>) -> bool {
    forall|i: int, j: int|
        #![trigger pairs[i], pairs[j]]
        0 <= i < j < pairs.len() ==> text::before(pairs[i].0, pairs[j].0)
}

/// Whether `host` is at place `i`.
pub open spec fn is_at(pairs: Seq<Pair>, host: Seq<char>, i: int) -> bool {
    0 <= i < pairs.len() && pairs[i].0 == host
}

/// The map from hosts to lines that ascending pairs stand for.
pub open spec fn pairs_map(pairs: Seq<Pair>) -> HostMap {
    Map::new(
        |host: Seq<char>| exists|i: int| is_at(pairs, host, i),
        |host: Seq<char>| pairs[choose|i: int| is_at(pairs, host, i)].1,
    )
}

proof fn lemma_pairs_map(pairs: Seq<Pair>)
    requires
        ascending(pairs),
    ensures
        forall|i: int|
            0 <= i < pairs.len() ==> pairs_map(pairs).contains_key((#[trigger] pairs[i]).0)
                && pairs_map(pairs)[pairs[i].0] == pairs[i].1,
        forall|host: Seq<char>| #[trigger]
            pairs_map(pairs).contains_key(host) ==> exists|i: int| is_at(pairs, host, i),
{
    assert forall|i: int| 0 <= i < pairs.len() implies pairs_map(pairs).contains_key(
        (#[trigger] pairs[i]).0,
    ) && pairs_map(pairs)[pairs[i].0] == pairs[i].1 by {
        let host = pairs[i].0;
        assert(is_at(pairs, host, i));
        let k = choose|k: int| is_at(pairs, host, k);
        assert(is_at(pairs, host, k));
        if k != i {
            text::before_is_irreflexive(host);
            assert(pairs[i].0 == pairs[k].0);
        }
    }
}

/// The known-hosts document: a map from host to the OpenSSH line of its saved key, held in
/// the order of the hosts so that it is always written out in the same order.
#[derive(Debug, PartialEq, Eq)]
pub struct KnownHostsDoc {
    entries: Vec<HostEntry>,
}

/// The pairs of a list of entries.
pub open spec fn entry_pairs(entries: Seq<HostEntry>) -> Seq<Pair> {
    entries.map_values(|e: HostEntry| e@)
}

impl View for KnownHostsDoc {
    type V = HostMap;

    closed spec fn view(&self) -> HostMap {
        pairs_map(self.pairs())
    }
}

impl KnownHostsDoc {
    /// The hosts and lines, in the order in which they are held.
    pub closed spec fn pairs(&self) -> Seq<Pair> {
        entry_pairs(self.entries@)
    }

    #[verifier::type_invariant]
    closed spec fn inv(&self) -> bool {
        ascending(self.pairs())
    }

    /// The empty document.
    pub fn new() -> (r: Self)
        ensures
            r@ == HostMap::empty(),
    {
        let r = KnownHostsDoc { entries: Vec::new() };
        assert(r@ =~= HostMap::empty());
        r
    }

    /// The number of hosts. They are held in ascending order.
    pub fn len(&self) -> (r: usize)
        ensures
            r == self.pairs().len(),
            ascending(self.pairs()),
            self@ == pairs_map(self.pairs()),
    {
        proof {
            use_type_invariant(self);
        }
        self.entries.len()
    }

    /// The host and the line at place `i`.
    pub fn entry(&self, i: usize) -> (r: &HostEntry)
        requires
            i < self.pairs().len(),
        ensures
            r@ == self.pairs()[i as int],
            self@.contains_key(r@.0),
            self@[r@.0] == r@.1,
    {
        proof {
            use_type_invariant(self);
            lemma_pairs_map(self.pairs());
            assert(self.pairs()[i as int] == self.entries@[i as int]@);
        }
        &self.entries[i]
    }

    /// The line saved for `host`.
    pub fn get(&self, host: &str) -> (r: Option<String>)
        ensures
            (match r {
                Some(line) => self@.contains_key(host@) && self@[host@] == line@,
                None => !self@.contains_key(host@),
            }),
    {
        proof {
            use_type_invariant(self);
            lemma_pairs_map(self.pairs());
        }
        let ghost pairs = self.pairs();
        let mut i: usize = 0;
        while i < self.entries.len()
            invariant
                pairs == entry_pairs(self.entries@),
                pairs == self.pairs(),
                i <= self.entries.len(),
                forall|k: int| 0 <= k < i ==> (#[trigger] pairs[k]).0 != host@,
                forall|k: int|
                    0 <= k < pairs.len() ==> self@.contains_key((#[trigger] pairs[k]).0)
                        && self@[pairs[k].0] == pairs[k].1,
            decreases self.entries.len() - i,
        {
            assert(pairs[i as int] == self.entries@[i as int]@);
            if text::same_text(self.entries[i].host.as_str(), host) {
                return Some(self.entries[i].key.clone());
            }
            i = i + 1;
        }
        assert(!self@.contains_key(host@));
        None
    }

    /// Saves `line` for `host`, in place of what was saved for it before.
    pub fn insert(&mut self, host: &str, line: &str)
        ensures
            final(self)@ == old(self)@.insert(host@, line@),
    {
        proof {
            use_type_invariant(&*self);
        }
        let ghost before = self.pairs();
        let mut entries: Vec<HostEntry> = Vec::new();
        std::mem::swap(&mut entries, &mut self.entries);
        let ghost given = entries@;
        assert(entry_pairs(given) == before);
        let mut i: usize = 0;
        while i < entries.len() && text::comes_before(entries[i].host.as_str(), host)
            invariant
                entries@ == given,
                before == entry_pairs(given),
                i <= entries.len(),
                forall|k: int| 0 <= k < i ==> text::before((#[trigger] before[k]).0, host@),
            ensures
                i <= entries.len(),
                forall|k: int| 0 <= k < i ==> text::before((#[trigger] before[k]).0, host@),
                i < entries.len() ==> !text::before(before[i as int].0, host@),
            decreases entries.len() - i,
        {
            assert(before[i as int] == given[i as int]@);
            i = i + 1;
        }
        let entry = HostEntry { host: host.to_owned(), key: line.to_owned() };
        let ghost pair = entry@;
        proof {
            lemma_pairs_map(before);
            lemma_place(before, host@, i as int);
            if i < given.len() {
                assert(before[i as int] == given[i as int]@);
            }
        }
        if i < entries.len() && text::same_text(entries[i].host.as_str(), host) {
            entries.set(i, entry);
            proof {
                let after = entry_pairs(entries@);
                assert(after =~= before.update(i as int, pair));
                lemma_replaced(before, host@, line@, i as int);
            }
        } else {
            entries.insert(i, entry);
            proof {
                let after = entry_pairs(entries@);
                assert(after =~= before.insert(i as int, pair));
                lemma_inserted(before, host@, line@, i as int);
            }
        }
        self.entries = entries;
    }

    /// Drops what is saved for `host`, and says whether something was.
    pub fn remove(&mut self, host: &str) -> (r: bool)
        ensures
            r == old(self)@.contains_key(host@),
            final(self)@ == old(self)@.remove(host@),
    {
        proof {
            use_type_invariant(&*self);
        }
        let ghost before = self.pairs();
        let mut entries: Vec<HostEntry> = Vec::new();
        std::mem::swap(&mut entries, &mut self.entries);
        let ghost given = entries@;
        assert(entry_pairs(given) == before);
        let mut i: usize = 0;
        while i < entries.len() && !text::same_text(entries[i].host.as_str(), host)
            invariant
                entries@ == given,
                before == entry_pairs(given),
                i <= entries.len(),
                forall|k: int| 0 <= k < i ==> (#[trigger] before[k]).0 != host@,
            ensures
                i <= entries.len(),
                forall|k: int| 0 <= k < i ==> (#[trigger] before[k]).0 != host@,
                i < entries.len() ==> before[i as int].0 == host@,
            decreases entries.len() - i,
        {
            assert(before[i as int] == given[i as int]@);
            i = i + 1;
        }
        proof {
            lemma_pairs_map(before);
        }
        let found: bool = i < entries.len();
        if found {
            entries.remove(i);
            proof {
                let after = entry_pairs(entries@);
                assert(after =~= before.remove(i as int));
                assert(before[i as int].0 == host@);
                lemma_removed(before, i as int);
            }
        } else {
            proof {
                assert(!pairs_map(before).contains_key(host@));
                assert(pairs_map(before).remove(host@) =~= pairs_map(before));
            }
        }
        self.entries = entries;
        found
    }
}

/// The place that `host` has, or would have, among ascending pairs.
proof fn lemma_place(pairs: Seq<Pair>, host: Seq<char>, i: int)
    requires
        ascending(pairs),
        0 <= i <= pairs.len(),
        forall|k: int| 0 <= k < i ==> text::before((#[trigger] pairs[k]).0, host),
        i < pairs.len() ==> !text::before(pairs[i].0, host),
    ensures
        forall|k: int| 0 <= k < i ==> (#[trigger] pairs[k]).0 != host,
        forall|k: int| i < k < pairs.len() ==> text::before(host, (#[trigger] pairs[k]).0),
        forall|k: int| i < k < pairs.len() ==> (#[trigger] pairs[k]).0 != host,
        i < pairs.len() && pairs[i].0 != host ==> text::before(host, pairs[i].0),
{
    text::before_is_irreflexive(host);
    if i < pairs.len() {
        text::before_is_total(pairs[i].0, host);
        assert forall|k: int| i < k < pairs.len() implies text::before(
            host,
            (#[trigger] pairs[k]).0,
        ) by {
            assert(text::before(pairs[i].0, pairs[k].0));
            if pairs[i].0 != host {
                text::before_is_transitive(host, pairs[i].0, pairs[k].0);
            }
        }
    }
}

proof fn lemma_replaced(pairs: Seq<Pair>, host: Seq<char>, line: Seq<char>, i: int)
    requires
        ascending(pairs),
        0 <= i < pairs.len(),
        pairs[i].0 == host,
    ensures
        ascending(pairs.update(i, (host, line))),
        pairs_map(pairs.update(i, (host, line))) == pairs_map(pairs).insert(host, line),
{
    let after = pairs.update(i, (host, line));
    assert forall|a: int, b: int| 0 <= a < b < after.len() implies text::before(
        (#[trigger] after[a]).0,
        (#[trigger] after[b]).0,
    ) by {
        assert(after[a].0 == pairs[a].0 && after[b].0 == pairs[b].0);
    }
    lemma_pairs_map(pairs);
    lemma_pairs_map(after);
    assert forall|h: Seq<char>| pairs_map(after).contains_key(h) <==> pairs_map(pairs).insert(
        host,
        line,
    ).contains_key(h) by {
        if pairs_map(after).contains_key(h) {
            let k = choose|k: int| is_at(after, h, k);
            assert(pairs[k].0 == h);
        }
        if pairs_map(pairs).contains_key(h) {
            let k = choose|k: int| is_at(pairs, h, k);
            assert(after[k].0 == h);
        }
        assert(after[i].0 == host);
    }
    assert forall|h: Seq<char>| pairs_map(after).contains_key(h) implies pairs_map(after)[h]
        == pairs_map(pairs).insert(host, line)[h] by {
        let k = choose|k: int| is_at(after, h, k);
        assert(after[k].0 == h);
        assert(pairs[k].0 == h);
        if h == host && k != i {
            text::before_is_irreflexive(host);
        }
    }
    assert(pairs_map(after) =~= pairs_map(pairs).insert(host, line));
}

proof fn lemma_inserted(pairs: Seq<Pair>, host: Seq<char>, line: Seq<char>, i: int)
    requires
        ascending(pairs),
        0 <= i <= pairs.len(),
        forall|k: int| 0 <= k < i ==> text::before((#[trigger] pairs[k]).0, host),
        forall|k: int| i <= k < pairs.len() ==> text::before(host, (#[trigger] pairs[k]).0),
    ensures
        ascending(pairs.insert(i, (host, line))),
        pairs_map(pairs.insert(i, (host, line))) == pairs_map(pairs).insert(host, line),
{
    let after = pairs.insert(i, (host, line));
    assert(forall|k: int| 0 <= k < i ==> #[trigger] after[k] == pairs[k]);
    assert(after[i] == (host, line));
    assert(forall|k: int| i < k < after.len() ==> #[trigger] after[k] == pairs[k - 1]);
    assert forall|a: int, b: int| 0 <= a < b < after.len() implies text::before(
        (#[trigger] after[a]).0,
        (#[trigger] after[b]).0,
    ) by {
        if a < i && b > i {
            assert(text::before(pairs[a].0, pairs[b - 1].0));
        } else if a > i {
            assert(text::before(pairs[a - 1].0, pairs[b - 1].0));
        } else if b < i {
            assert(text::before(pairs[a].0, pairs[b].0));
        } else if a == i {
            assert(text::before(host, pairs[b - 1].0));
        } else {
            assert(text::before(pairs[a].0, host));
        }
    }
    lemma_pairs_map(pairs);
    lemma_pairs_map(after);
    assert forall|h: Seq<char>| pairs_map(after).contains_key(h) <==> pairs_map(pairs).insert(
        host,
        line,
    ).contains_key(h) by {
        if pairs_map(after).contains_key(h) {
            let k = choose|k: int| is_at(after, h, k);
            if k < i {
                assert(pairs[k].0 == h);
            } else if k > i {
                assert(pairs[k - 1].0 == h);
            }
        }
        if pairs_map(pairs).contains_key(h) {
            let k = choose|k: int| is_at(pairs, h, k);
            if k < i {
                assert(after[k].0 == h);
            } else {
                assert(after[k + 1].0 == h);
            }
        }
        assert(after[i].0 == host);
    }
    assert forall|h: Seq<char>| pairs_map(after).contains_key(h) implies pairs_map(after)[h]
        == pairs_map(pairs).insert(host, line)[h] by {
        let k = choose|k: int| is_at(after, h, k);
        assert(after[k].0 == h);
        if k < i {
            assert(pairs[k].0 == h);
            text::before_is_irreflexive(h);
        } else if k > i {
            assert(pairs[k - 1].0 == h);
            text::before_is_irreflexive(h);
        }
    }
    assert(pairs_map(after) =~= pairs_map(pairs).insert(host, line));
}

proof fn lemma_removed(pairs: Seq<Pair>, i: int)
    requires
        ascending(pairs),
        0 <= i < pairs.len(),
    ensures
        ascending(pairs.remove(i)),
        pairs_map(pairs.remove(i)) == pairs_map(pairs).remove(pairs[i].0),
{
    let after = pairs.remove(i);
    let host = pairs[i].0;
    assert(forall|k: int| 0 <= k < i ==> #[trigger] after[k] == pairs[k]);
    assert(forall|k: int| i <= k < after.len() ==> #[trigger] after[k] == pairs[k + 1]);
    assert forall|a: int, b: int| 0 <= a < b < after.len() implies text::before(
        (#[trigger] after[a]).0,
        (#[trigger] after[b]).0,
    ) by {
        let x = if a < i {
            a
        } else {
            a + 1
        };
        let y = if b < i {
            b
        } else {
            b + 1
        };
        assert(text::before(pairs[x].0, pairs[y].0));
    }
    lemma_pairs_map(pairs);
    lemma_pairs_map(after);
    text::before_is_irreflexive(host);
    assert forall|h: Seq<char>| pairs_map(after).contains_key(h) <==> pairs_map(pairs).remove(
        host,
    ).contains_key(h) by {
        if pairs_map(after).contains_key(h) {
            let k = choose|k: int| is_at(after, h, k);
            let x = if k < i {
                k
            } else {
                k + 1
            };
            assert(pairs[x].0 == h);
        }
        if pairs_map(pairs).contains_key(h) && h != host {
            let k = choose|k: int| is_at(pairs, h, k);
            let x = if k < i {
                k
            } else {
                k - 1
            };
            assert(after[x].0 == h);
        }
    }
    assert forall|h: Seq<char>| pairs_map(after).contains_key(h) implies pairs_map(after)[h]
        == pairs_map(pairs).remove(host)[h] by {
        let k = choose|k: int| is_at(after, h, k);
        let x = if k < i {
            k
        } else {
            k + 1
        };
        assert(after[k].0 == h);
        assert(pairs[x].0 == h);
    }
    assert(pairs_map(after) =~= pairs_map(pairs).remove(host));
}

/// Documents that stand for the same map hold the same pairs in the same order, so that
/// what is written out does not depend on how the document came about.
pub proof fn order_is_stable(a: Seq<Pair>, b: Seq<Pair>)
    requires
        ascending(a),
        ascending(b),
        pairs_map(a) == pairs_map(b),
    ensures
        a == b,
    decreases a.len(),
{
    lemma_pairs_map(a);
    lemma_pairs_map(b);
    if a.len() > 0 {
        assert(pairs_map(b).contains_key(a[0].0));
        let k = choose|k: int| is_at(b, a[0].0, k);
        assert(is_at(b, a[0].0, k));
        assert(pairs_map(a).contains_key(b[0].0));
        let m = choose|m: int| is_at(a, b[0].0, m);
        assert(is_at(a, b[0].0, m));
        if k > 0 && m > 0 {
            assert(text::before(b[0].0, b[k].0));
            assert(text::before(a[0].0, a[m].0));
            text::before_is_transitive(a[0].0, b[0].0, a[0].0);
            text::before_is_irreflexive(a[0].0);
        }
        assert(a[0].0 == b[0].0);
        assert(a[0] == b[0]);
        lemma_removed(a, 0);
        lemma_removed(b, 0);
        order_is_stable(a.remove(0), b.remove(0));
        assert(a =~= seq![a[0]] + a.remove(0));
        assert(b =~= seq![b[0]] + b.remove(0));
    } else if b.len() > 0 {
        assert(pairs_map(a).contains_key(b[0].0));
        let m = choose|m: int| is_at(a, b[0].0, m);
        assert(is_at(a, b[0].0, m));
    } else {
        assert(a =~= b);
    }
}

impl Clone for HostEntry {
    fn clone(&self) -> (r: Self)
        ensures
            r@ == self@,
    {
        HostEntry { host: self.host.clone(), key: self.key.clone() }
    }
}

impl Clone for KnownHostsDoc {
    fn clone(&self) -> (r: Self)
        ensures
            r@ == self@,
            r.pairs() == self.pairs(),
    {
        proof {
            use_type_invariant(self);
        }
        let mut entries: Vec<HostEntry> = Vec::new();
        let mut i: usize = 0;
        while i < self.entries.len()
            invariant
                i <= self.entries.len(),
                entries.len() == i,
                forall|k: int| 0 <= k < i ==> (#[trigger] entries@[k])@ == self.entries@[k]@,
            decreases self.entries.len() - i,
        {
            entries.push(self.entries[i].clone());
            i = i + 1;
        }
        assert(entry_pairs(entries@) =~= entry_pairs(self.entries@));
        KnownHostsDoc { entries }
    }
}

impl Default for KnownHostsDoc {
    fn default() -> (r: Self)
        ensures
            r@ == HostMap::empty(),
    {
        KnownHostsDoc::new()
    }
}

/// Errors of the known-hosts layer.
#[derive(Debug)]
pub enum KnownHostsError {
    /// The underlying store failed.
    Backend(String),
    /// A key could not be read as an OpenSSH public key.
    InvalidKey(String),
}

/// The model of a [`KnownHostsError`].
#[verifier::ext_equal]
pub enum KnownHostsErrorView {
    Backend(Seq<char>),
    InvalidKey(Seq<char>),
}

impl View for KnownHostsError {
    type V = KnownHostsErrorView;

    open spec fn view(&self) -> KnownHostsErrorView {
        match self {
            KnownHostsError::Backend(m) => KnownHostsErrorView::Backend(m@),
            KnownHostsError::InvalidKey(m) => KnownHostsErrorView::InvalidKey(m@),
        }
    }
}

/// What an error reads.
pub open spec fn error_text(e: KnownHostsErrorView) -> Seq<char> {
    match e {
        KnownHostsErrorView::Backend(m) => "known-hosts store error: "@ + m,
        KnownHostsErrorView::InvalidKey(m) => "invalid host key: "@ + m,
    }
}

impl KnownHostsError {
    /// What the error reads.
    pub fn to_string(&self) -> (r: String)
        ensures
            r@ == error_text(self@),
    {
        match self {
            KnownHostsError::Backend(m) => text::joined("known-hosts store error: ", m.as_str()),
            KnownHostsError::InvalidKey(m) => text::joined("invalid host key: ", m.as_str()),
        }
    }
}

/// What is to be done about a presented host key.
#[derive(Debug, PartialEq, Eq)]
pub enum HostKeyDecision {
    /// The presented key is the saved one: proceed.
    Known,
    /// The host is unknown: prompt the operator with the fingerprint.
    Unknown { fingerprint: String },
    /// The presented key is not the saved one: a hard stop.
    Mismatch { saved_fingerprint: String, presented_fingerprint: String },
}

/// The model of a [`HostKeyDecision`].
#[verifier::ext_equal]
pub enum HostKeyDecisionView {
    Known,
    Unknown { fingerprint: Seq<char> },
    Mismatch { saved_fingerprint: Seq<char>, presented_fingerprint: Seq<char> },
}

impl View for HostKeyDecision {
    type V = HostKeyDecisionView;

    open spec fn view(&self) -> HostKeyDecisionView {
        match self {
            HostKeyDecision::Known => HostKeyDecisionView::Known,
            HostKeyDecision::Unknown { fingerprint } => HostKeyDecisionView::Unknown {
                fingerprint: fingerprint@,
            },
            HostKeyDecision::Mismatch {
                saved_fingerprint,
                presented_fingerprint,
            } => HostKeyDecisionView::Mismatch {
                saved_fingerprint: saved_fingerprint@,
                presented_fingerprint: presented_fingerprint@,
            },
        }
    }
}

impl Clone for HostKeyDecision {
    fn clone(&self) -> (r: Self)
        ensures
            r@ == self@,
    {
        match self {
            HostKeyDecision::Known => HostKeyDecision::Known,
            HostKeyDecision::Unknown { fingerprint } => HostKeyDecision::Unknown {
                fingerprint: fingerprint.clone(),
            },
            HostKeyDecision::Mismatch {
                saved_fingerprint,
                presented_fingerprint,
            } => HostKeyDecision::Mismatch {
                saved_fingerprint: saved_fingerprint.clone(),
                presented_fingerprint: presented_fingerprint.clone(),
            },
        }
    }
}

/// The document that came of reading the known-hosts file at `path`.
pub fn known_hosts_from_file(path: &str, read: FileRead<KnownHostsDoc>) -> (r: Result<
    KnownHostsDoc,
    KnownHostsError,
>)
    ensures
        (match read {
            FileRead::Missing => r matches Ok(doc) && doc@ == HostMap::empty(),
            FileRead::Parsed(doc) => r == Ok::<KnownHostsDoc, KnownHostsError>(doc),
            FileRead::Unreadable(cause) => r matches Err(e) && e@ == KnownHostsErrorView::Backend(
                files::fault_text(files::FileFault::Read, path@, cause@),
            ),
            FileRead::Unparsable(cause) => r matches Err(e) && e@ == KnownHostsErrorView::Backend(
                files::fault_text(files::FileFault::Parse, path@, cause@),
            ),
        }),
{
    match files::document(path, read, KnownHostsDoc::new()) {
        Ok(doc) => Ok(doc),
        Err(m) => Err(KnownHostsError::Backend(m)),
    }
}

/// The fingerprint of a key.
pub open spec fn fingerprint(key: PublicKeyView) -> Seq<char> {
    keys::key_fingerprint(key.wire)->0
}

/// The fingerprint of a saved line, which may have become unreadable.
pub open spec fn saved_fingerprint(line: Seq<char>) -> Seq<char> {
    match keys::openssh_public(line) {
        Ok(saved) => fingerprint(saved),
        Err(_) => UNREADABLE_KEY@,
    }
}

/// Whether a saved line holds the key data of `presented`.
pub open spec fn is_saved_as(line: Seq<char>, presented: PublicKeyView) -> bool {
    match keys::openssh_public(line) {
        Ok(saved) => saved.wire == presented.wire,
        Err(_) => false,
    }
}

/// What is to be done about `presented` as the key of `host`, given the known hosts. Key
/// data decides, not the text of the line; a saved line that can no longer be read is a
/// mismatch.
pub open spec fn decision(
    hosts: HostMap,
    host: Seq<char>,
    presented: PublicKeyView,
) -> HostKeyDecisionView {
    if !hosts.contains_key(host) {
        HostKeyDecisionView::Unknown { fingerprint: fingerprint(presented) }
    } else if is_saved_as(hosts[host], presented) {
        HostKeyDecisionView::Known
    } else {
        HostKeyDecisionView::Mismatch {
            saved_fingerprint: saved_fingerprint(hosts[host]),
            presented_fingerprint: fingerprint(presented),
        }
    }
}

/// The SHA-256 fingerprint of a key, as `SHA256:` and the unpadded Base64 digest.
pub fn sha256_fingerprint(key: &PublicKey) -> (r: String)
    ensures
        r@ == fingerprint(key@),
        r@.len() == 50,
        r@.take(7) == "SHA256:"@,
{
    key.fingerprint()
}

/// Decides about `presented` as the key of `host`, given the loaded document.
pub fn decide_in(doc: &KnownHostsDoc, host: &str, presented: &PublicKey) -> (r: HostKeyDecision)
    ensures
        r@ == decision(doc@, host@, presented@),
{
    match doc.get(host) {
        None => HostKeyDecision::Unknown { fingerprint: sha256_fingerprint(presented) },
        Some(line) => match PublicKey::from_openssh(line.as_str()) {
            Ok(saved) => if saved.same_key(presented) {
                HostKeyDecision::Known
            } else {
                HostKeyDecision::Mismatch {
                    saved_fingerprint: sha256_fingerprint(&saved),
                    presented_fingerprint: sha256_fingerprint(presented),
                }
            },
            Err(_) => HostKeyDecision::Mismatch {
                saved_fingerprint: UNREADABLE_KEY.to_owned(),
                presented_fingerprint: sha256_fingerprint(presented),
            },
        },
    }
}

/// Persistence of the known-hosts document. The document is small, so it is read and
/// written as a whole.
///
/// The `spec` methods are the model that contracts speak of; nothing calls them at run time.
pub trait KnownHostsStore: Send + Sync {
    /// The hosts that the store holds.
    spec fn hosts(&self) -> HostMap;

    /// Whether reading the store may end in the error `e`.
    spec fn load_error(&self, e: KnownHostsErrorView) -> bool;

    /// Whether writing the store may end in the error `e`.
    spec fn save_error(&self, e: KnownHostsErrorView) -> bool;

    /// Reads the document. A store that was never written holds the empty one.
    fn load(&self) -> (r: Result<KnownHostsDoc, KnownHostsError>)
        ensures
            (match r {
                Ok(doc) => doc@ == self.hosts(),
                Err(e) => self.load_error(e@),
            }),
    ;

    /// Writes the document, in place of what the store held.
    fn save(&mut self, doc: &KnownHostsDoc) -> (r: Result<(), KnownHostsError>)
        ensures
            (match r {
                Ok(_) => final(self).hosts() == doc@,
                Err(e) => old(self).save_error(e@),
            }),
    ;
}

/// The trust-on-first-use rules over a [`KnownHostsStore`].
pub struct KnownHosts<S: KnownHostsStore> {
    store: S,
}

impl<S: KnownHostsStore> KnownHosts<S> {
    /// The store that is ruled over.
    pub closed spec fn store(&self) -> S {
        self.store
    }

    /// The known hosts.
    pub open spec fn hosts(&self) -> HostMap {
        self.store().hosts()
    }

    /// The rules over `store`.
    pub fn new(store: S) -> (r: Self)
        ensures
            r.store() == store,
    {
        KnownHosts { store }
    }

    /// Decides about `presented` as the key of `host`.
    pub fn decide(&self, host: &str, presented: &PublicKey) -> (r: Result<
        HostKeyDecision,
        KnownHostsError,
    >)
        ensures
            (match r {
                Ok(d) => d@ == decision(self.hosts(), host@, presented@),
                Err(e) => self.store().load_error(e@),
            }),
    {
        match self.store.load() {
            Ok(doc) => Ok(decide_in(&doc, host, presented)),
            Err(e) => Err(e),
        }
    }

    /// Saves `key` as the trusted key of `host`. Afterwards `key` is known there.
    pub fn trust(&mut self, host: &str, key: &PublicKey) -> (r: Result<(), KnownHostsError>)
        ensures
            (match r {
                Ok(_) => {
                    &&& final(self).hosts() == old(self).hosts().insert(
                        host@,
                        keys::openssh_public_line(key@.wire, key@.comment)->Ok_0,
                    )
                    &&& decision(final(self).hosts(), host@, key@) == HostKeyDecisionView::Known
                },
                Err(e) => {
                    ||| old(self).store().load_error(e@) && final(self).hosts()
                        == old(self).hosts()
                    ||| old(self).store().save_error(e@)
                },
            }),
    {
        let line = match key.to_openssh() {
            Ok(line) => line,
            Err(e) => return Err(KnownHostsError::InvalidKey(e)),
        };
        match self.store.load() {
            Ok(mut doc) => {
                doc.insert(host, line.as_str());
                self.store.save(&doc)
            },
            Err(e) => Err(e),
        }
    }

    /// Drops the saved key of `host`. Nothing is written for a host that has none.
    pub fn remove(&mut self, host: &str) -> (r: Result<(), KnownHostsError>)
        ensures
            (match r {
                Ok(_) => final(self).hosts() == old(self).hosts().remove(host@),
                Err(e) => {
                    ||| old(self).store().load_error(e@) && final(self).hosts()
                        == old(self).hosts()
                    ||| old(self).hosts().contains_key(host@) && old(self).store().save_error(e@)
                },
            }),
            !old(self).hosts().contains_key(host@) ==> final(self).store() == old(self).store(),
    {
        match self.store.load() {
            Ok(mut doc) => {
                if doc.remove(host) {
                    self.store.save(&doc)
                } else {
                    assert(self.hosts().remove(host@) =~= self.hosts());
                    Ok(())
                }
            },
            Err(e) => Err(e),
        }
    }

    /// The line saved for `host`.
    pub fn saved(&self, host: &str) -> (r: Result<Option<String>, KnownHostsError>)
        ensures
            (match r {
                Ok(Some(line)) => self.hosts().contains_key(host@) && self.hosts()[host@] == line@,
                Ok(None) => !self.hosts().contains_key(host@),
                Err(e) => self.store().load_error(e@),
            }),
    {
        match self.store.load() {
            Ok(doc) => Ok(doc.get(host)),
            Err(e) => Err(e),
        }
    }
}

/// The host-key rules as the connection sees them: keys cross as OpenSSH lines.
///
/// The `spec` methods are the model that contracts speak of; nothing calls them at run time.
pub trait HostKeyDecider: Send + Sync {
    /// The known hosts.
    spec fn known(&self) -> HostMap;

    /// Whether reading the known hosts may end in the error `e`.
    spec fn read_error(&self, e: KnownHostsErrorView) -> bool;

    /// Whether writing the known hosts may end in the error `e`.
    spec fn write_error(&self, e: KnownHostsErrorView) -> bool;

    /// Decides about the key of a line as the key of `host`.
    fn decide_openssh(&self, host: &str, presented_openssh: &str) -> (r: Result<
        HostKeyDecision,
        KnownHostsError,
    >)
        ensures
            (match keys::openssh_public(presented_openssh@) {
                Ok(key) => match r {
                    Ok(d) => d@ == decision(self.known(), host@, key),
                    Err(e) => self.read_error(e@),
                },
                Err(m) => r matches Err(e) && e@ == KnownHostsErrorView::InvalidKey(m),
            }),
    ;

    /// Saves the key of a line as the trusted key of `host`. Afterwards it is known there,
    /// and nothing has changed for other hosts.
    fn trust_openssh(&mut self, host: &str, key_openssh: &str) -> (r: Result<(), KnownHostsError>)
        ensures
            (match keys::openssh_public(key_openssh@) {
                Ok(key) => match r {
                    Ok(_) => {
                        &&& final(self).known() == old(self).known().insert(
                            host@,
                            keys::openssh_public_line(key.wire, key.comment)->Ok_0,
                        )
                        &&& decision(final(self).known(), host@, key) == HostKeyDecisionView::Known
                    },
                    Err(e) => {
                        ||| old(self).read_error(e@) && final(self).known() == old(self).known()
                        ||| old(self).write_error(e@)
                    },
                },
                Err(m) => {
                    &&& r matches Err(e) && e@ == KnownHostsErrorView::InvalidKey(m)
                    &&& final(self).known() == old(self).known()
                },
            }),
    ;
}

impl<S: KnownHostsStore> HostKeyDecider for KnownHosts<S> {
    open spec fn known(&self) -> HostMap {
        self.hosts()
    }

    open spec fn read_error(&self, e: KnownHostsErrorView) -> bool {
        self.store().load_error(e)
    }

    open spec fn write_error(&self, e: KnownHostsErrorView) -> bool {
        self.store().save_error(e)
    }

    fn decide_openssh(&self, host: &str, presented_openssh: &str) -> (r: Result<
        HostKeyDecision,
        KnownHostsError,
    >) {
        match PublicKey::from_openssh(presented_openssh) {
            Ok(presented) => self.decide(host, &presented),
            Err(e) => Err(KnownHostsError::InvalidKey(e)),
        }
    }

    fn trust_openssh(&mut self, host: &str, key_openssh: &str) -> (r: Result<(), KnownHostsError>) {
        match PublicKey::from_openssh(key_openssh) {
            Ok(key) => self.trust(host, &key),
            Err(e) => Err(KnownHostsError::InvalidKey(e)),
        }
    }
}

/// A [`KnownHostsStore`] that holds the document in memory.
pub struct MemoryKnownHostsStore {
    inner: KnownHostsDoc,
}

impl MemoryKnownHostsStore {
    /// The document that is held.
    pub closed spec fn doc(&self) -> KnownHostsDoc {
        self.inner
    }

    /// A store with no host.
    pub fn new() -> (r: Self)
        ensures
            r.hosts() == HostMap::empty(),
    {
        MemoryKnownHostsStore { inner: KnownHostsDoc::new() }
    }
}

impl Default for MemoryKnownHostsStore {
    fn default() -> (r: Self)
        ensures
            r.hosts() == HostMap::empty(),
    {
        MemoryKnownHostsStore::new()
    }
}

impl KnownHostsStore for MemoryKnownHostsStore {
    open spec fn hosts(&self) -> HostMap {
        self.doc()@
    }

    open spec fn load_error(&self, e: KnownHostsErrorView) -> bool {
        false
    }

    open spec fn save_error(&self, e: KnownHostsErrorView) -> bool {
        false
    }

    fn load(&self) -> (r: Result<KnownHostsDoc, KnownHostsError>) {
        Ok(self.inner.clone())
    }

    fn save(&mut self, doc: &KnownHostsDoc) -> (r: Result<(), KnownHostsError>) {
        self.inner = doc.clone();
        Ok(())
    }
}

/// A host without a saved key is prompted for, and nothing else is.
pub proof fn unknown_means_never_saved(
    hosts: HostMap,
    host: Seq<char>,
    presented: PublicKeyView,
)
    ensures
        decision(hosts, host, presented) is Unknown <==> !hosts.contains_key(host),
{
}

/// A key is accepted without a prompt only where the saved line holds its key data.
pub proof fn known_means_saved(
    hosts: HostMap,
    host: Seq<char>,
    presented: PublicKeyView,
)
    ensures
        decision(hosts, host, presented) is Known <==> hosts.contains_key(host) && is_saved_as(
            hosts[host],
            presented,
        ),
{
}

/// Two keys that are both known for a host have the same key data: a changed key is never
/// taken for the saved one.
pub proof fn only_one_key_is_known(
    hosts: HostMap,
    host: Seq<char>,
    a: PublicKeyView,
    b: PublicKeyView,
)
    requires
        decision(hosts, host, a) is Known,
    ensures
        decision(hosts, host, b) is Known <==> a.wire == b.wire,
        decision(hosts, host, b) is Mismatch <==> a.wire != b.wire,
{
}

/// The comment of a presented key plays no part.
pub proof fn comments_do_not_matter(
    hosts: HostMap,
    host: Seq<char>,
    a: PublicKeyView,
    b: PublicKeyView,
)
    requires
        a.wire == b.wire,
    ensures
        decision(hosts, host, a) == decision(hosts, host, b),
{
}

/// Once the saved key is removed the host is unknown again, whatever key it presents.
pub proof fn removal_makes_a_host_unknown(
    hosts: HostMap,
    host: Seq<char>,
    presented: PublicKeyView,
)
    ensures
        decision(hosts.remove(host), host, presented) is Unknown,
{
}

/// Trusting or removing the key of one host decides nothing about another.
pub proof fn hosts_are_independent(
    hosts: HostMap,
    host: Seq<char>,
    line: Seq<char>,
    other: Seq<char>,
    presented: PublicKeyView,
)
    requires
        host != other,
    ensures
        decision(hosts.insert(host, line), other, presented) == decision(hosts, other, presented),
        decision(hosts.remove(host), other, presented) == decision(hosts, other, presented),
{
}

/// A mismatch stays a mismatch until the saved key is removed: trusting keys of other hosts
/// does not clear it.
pub proof fn mismatch_needs_removal(
    hosts: HostMap,
    host: Seq<char>,
    presented: PublicKeyView,
    other: Seq<char>,
    line: Seq<char>,
)
    requires
        decision(hosts, host, presented) is Mismatch,
        other != host,
    ensures
        decision(hosts.insert(other, line), host, presented) is Mismatch,
        decision(hosts.remove(other), host, presented) is Mismatch,
        decision(hosts.remove(host), host, presented) is Unknown,
{
}

/// What is to be done about a key, told by what is saved and by what the lines hold: an
/// unsaved host is prompted for with the fingerprint of the presented key; a saved line with
/// the presented key data is known; every other one is a mismatch with both fingerprints.
pub proof fn the_decision_follows_the_saved_line(
    hosts: HostMap,
    host: Seq<char>,
    presented: PublicKeyView,
)
    ensures
        ({
            let shown = keys::key_fingerprint(presented.wire)->0;
            let d = decision(hosts, host, presented);
            &&& !hosts.contains_key(host) ==> d == (HostKeyDecisionView::Unknown {
                fingerprint: shown,
            })
            &&& hosts.contains_key(host) ==> match keys::openssh_public(hosts[host]) {
                Ok(saved) => if saved.wire == presented.wire {
                    d is Known
                } else {
                    d == (HostKeyDecisionView::Mismatch {
                        saved_fingerprint: keys::key_fingerprint(saved.wire)->0,
                        presented_fingerprint: shown,
                    })
                },
                Err(_) => d == (HostKeyDecisionView::Mismatch {
                    saved_fingerprint: "unreadable"@,
                    presented_fingerprint: shown,
                }),
            }
        }),
{
}

/// The fingerprint of a key is that of its key data.
pub proof fn fingerprints_are_of_the_key_data(key: PublicKeyView)
    ensures
        fingerprint(key) == keys::key_fingerprint(key.wire)->0,
{
}

/// Hosts that come in order come in the order of texts, each before all that follow.
pub proof fn ascending_hosts_come_in_order(pairs: Seq<Pair>, i: int, j: int)
    requires
        ascending(pairs),
        0 <= i < j < pairs.len(),
    ensures
        text::before(pairs[i].0, pairs[j].0),
        pairs[i].0 != pairs[j].0,
{
    assert(text::before(pairs[i].0, pairs[j].0));
    text::before_is_irreflexive(pairs[i].0);
}

/// Pairs in order stand for the map that has each of them, and nothing else.
pub proof fn pairs_stand_for_their_map(pairs: Seq<Pair>, host: Seq<char>)
    requires
        ascending(pairs),
    ensures
        forall|i: int|
            0 <= i < pairs.len() ==> pairs_map(pairs).contains_key((#[trigger] pairs[i]).0)
                && pairs_map(pairs)[pairs[i].0] == pairs[i].1,
        pairs_map(pairs).contains_key(host) ==> exists|i: int|
            0 <= i < pairs.len() && (#[trigger] pairs[i]).0 == host,
{
    lemma_pairs_map(pairs);
    if pairs_map(pairs).contains_key(host) {
        let k = choose|k: int| is_at(pairs, host, k);
        assert(pairs[k].0 == host);
    }
}

/// The models of entries, errors and decisions hold what these hold, one for one.
pub proof fn known_host_models_keep_the_values(
    entry: HostEntry,
    e: KnownHostsError,
    d: HostKeyDecision,
)
    ensures
        entry@.0 == entry.host@,
        entry@.1 == entry.key@,
        e matches KnownHostsError::Backend(m) ==> e@ == KnownHostsErrorView::Backend(m@),
        e matches KnownHostsError::InvalidKey(m) ==> e@ == KnownHostsErrorView::InvalidKey(m@),
        d is Known <==> d@ is Known,
        d matches HostKeyDecision::Unknown { fingerprint } ==> d@ == (
        HostKeyDecisionView::Unknown { fingerprint: fingerprint@ }),
        d matches HostKeyDecision::Mismatch { saved_fingerprint, presented_fingerprint } ==> d@ == (
        HostKeyDecisionView::Mismatch {
            saved_fingerprint: saved_fingerprint@,
            presented_fingerprint: presented_fingerprint@,
        }),
{
}

/// What each error reads.
pub proof fn known_host_errors_read(m: Seq<char>)
    ensures
        error_text(KnownHostsErrorView::Backend(m)) == "known-hosts store error: "@ + m,
        error_text(KnownHostsErrorView::InvalidKey(m)) == "invalid host key: "@ + m,
{
}

/// The rules over a store know the hosts that the store holds, and fail as the store does.
pub proof fn the_rules_are_over_the_store<S: KnownHostsStore>(
    kh: KnownHosts<S>,
    e: KnownHostsErrorView,
)
    ensures
        kh.hosts() == kh.store().hosts(),
        kh.known() == kh.store().hosts(),
        kh.read_error(e) <==> kh.store().load_error(e),
        kh.write_error(e) <==> kh.store().save_error(e),
{
}

/// A store in memory never fails.
pub proof fn memory_known_hosts_never_fail(store: MemoryKnownHostsStore, e: KnownHostsErrorView)
    ensures
        !store.load_error(e),
        !store.save_error(e),
{
}

} // verus!
