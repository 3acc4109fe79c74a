//! Where the pageservers of a tenant are.
use vstd::prelude::*;

use crate::error::{EndpointError, EndpointErrorView};
use crate::ids::{NodeId, ShardCount, ShardIndex, ShardNumber, ShardStripeSize};
use crate::text::{join, joined};

verus! {

/// How to reach one pageserver of a shard.
#[derive(Debug, PartialEq, Eq)]
pub struct PageserverShardConnectionInfo {
    pub id: Option<NodeId>,
    pub libpq_url: Option<String>,
    pub grpc_url: Option<String>,
}

/// What a [`PageserverShardConnectionInfo`] denotes.
#[verifier::ext_equal]
pub struct ShardConnectionView {
    pub id: Option<NodeId>,
    pub libpq_url: Option<Seq<char>>,
    pub grpc_url: Option<Seq<char>>,
}

impl DeepView for PageserverShardConnectionInfo {
    type V = ShardConnectionView;

    open spec fn deep_view(&self) -> ShardConnectionView {
        ShardConnectionView {
            id: self.id,
            libpq_url: self.libpq_url.deep_view(),
            grpc_url: self.grpc_url.deep_view(),
        }
    }
}

impl Clone for PageserverShardConnectionInfo {
    fn clone(&self) -> (r: Self)
        ensures
            r.deep_view() == self.deep_view(),
    {
        let r = PageserverShardConnectionInfo {
            id: self.id,
            libpq_url: self.libpq_url.clone(),
            grpc_url: self.grpc_url.clone(),
        };
        assert(r.deep_view() =~~= self.deep_view());
        r
    }
}

/// The pageservers of one shard, the preferred one first.
#[derive(Debug, PartialEq, Eq)]
pub struct PageserverShardInfo {
    pub pageservers: Vec<PageserverShardConnectionInfo>,
}

impl View for PageserverShardInfo {
    type V = Seq<ShardConnectionView>;

    open spec fn view(&self) -> Seq<ShardConnectionView> {
        self.pageservers.deep_view()
    }
}

impl Clone for PageserverShardInfo {
    fn clone(&self) -> (r: Self)
        ensures
            r@ == self@,
    {
        let r = PageserverShardInfo { pageservers: self.pageservers.clone() };
        assert(r@ =~~= self@);
        r
    }
}

/// Where a shard stands among all shards there can be: by the number of shards, then by its own.
pub open spec fn shard_rank(shard: ShardIndex) -> int {
    shard.shard_count.0 * 256 + shard.shard_number.0
}

/// The entries of a [`ShardMap`] are in the order of their shards. No shard occurs twice then.
pub open spec fn ascending_shards(entries: Seq<(ShardIndex, PageserverShardInfo)>) -> bool {
    forall|i: int, j: int|
        0 <= i < j < entries.len() ==> shard_rank((#[trigger] entries[i]).0) < shard_rank(
            (#[trigger] entries[j]).0,
        )
}

/// Whether `a` stands before `b`.
fn stands_before(a: ShardIndex, b: ShardIndex) -> (r: bool)
    ensures
        r == (shard_rank(a) < shard_rank(b)),
{
    a.shard_count.0 < b.shard_count.0 || (a.shard_count.0 == b.shard_count.0 && a.shard_number.0
        < b.shard_number.0)
}

/// Whether some entry is for the shard `key`.
pub open spec fn mentions(entries: Seq<(ShardIndex, PageserverShardInfo)>, key: ShardIndex) -> bool {
    exists|i: int| 0 <= i < entries.len() && (#[trigger] entries[i]).0 == key
}

/// The entry for the shard `key`, where there is one.
pub open spec fn entry_of(
    entries: Seq<(ShardIndex, PageserverShardInfo)>,
    key: ShardIndex,
) -> Seq<ShardConnectionView> {
    entries[choose|i: int| 0 <= i < entries.len() && (#[trigger] entries[i]).0 == key].1@
}

/// The map that a list of entries holds.
pub open spec fn map_of(entries: Seq<(ShardIndex, PageserverShardInfo)>) -> Map<
    ShardIndex,
    Seq<ShardConnectionView>,
> {
    Map::new(|key: ShardIndex| mentions(entries, key), |key: ShardIndex| entry_of(entries, key))
}

/// With its entries in order, the map has for each entry's shard that entry's pageservers.
proof fn lemma_map_of(entries: Seq<(ShardIndex, PageserverShardInfo)>, i: int)
    requires
        ascending_shards(entries),
        0 <= i < entries.len(),
    ensures
        map_of(entries).contains_key(entries[i].0),
        map_of(entries)[entries[i].0] == entries[i].1@,
{
    let key = entries[i].0;
    let j = choose|j: int| 0 <= j < entries.len() && (#[trigger] entries[j]).0 == key;
    assert(mentions(entries, key));
    if i < j {
        assert(shard_rank(entries[i].0) < shard_rank(entries[j].0));
    } else if j < i {
        assert(shard_rank(entries[j].0) < shard_rank(entries[i].0));
    }
}

/// An entry that takes the place of one for the same shard.
proof fn lemma_entry_replaced(
    before: Seq<(ShardIndex, PageserverShardInfo)>,
    i: int,
    entry: (ShardIndex, PageserverShardInfo),
)
    requires
        ascending_shards(before),
        0 <= i < before.len(),
        before[i].0 == entry.0,
    ensures
        ascending_shards(before.update(i, entry)),
        map_of(before.update(i, entry)) == map_of(before).insert(entry.0, entry.1@),
{
    let after = before.update(i, entry);
    assert forall|j: int, k: int| 0 <= j < k < after.len() implies shard_rank(
        (#[trigger] after[j]).0,
    ) < shard_rank((#[trigger] after[k]).0) by {
        assert(before[j].0 == after[j].0 && before[k].0 == after[k].0);
    }
    let wanted = map_of(before).insert(entry.0, entry.1@);
    assert forall|key: ShardIndex|
        map_of(after).contains_key(key) <==> wanted.contains_key(key) by {
        if mentions(after, key) {
            let j = choose|j: int| 0 <= j < after.len() && (#[trigger] after[j]).0 == key;
            assert(before[j].0 == key);
        }
        if mentions(before, key) {
            let j = choose|j: int| 0 <= j < before.len() && (#[trigger] before[j]).0 == key;
            assert(after[j].0 == key);
        }
        if key == entry.0 {
            assert(after[i].0 == key);
        }
    }
    assert forall|key: ShardIndex| map_of(after).contains_key(key) implies map_of(after)[key]
        == wanted[key] by {
        let j = choose|j: int| 0 <= j < after.len() && (#[trigger] after[j]).0 == key;
        lemma_map_of(after, j);
        lemma_map_of(before, j);
        lemma_map_of(after, i);
        assert(before[j].0 == key);
    }
    assert(map_of(after) =~= wanted);
}

/// An entry that is put where its shard belongs.
proof fn lemma_entry_inserted(
    before: Seq<(ShardIndex, PageserverShardInfo)>,
    i: int,
    entry: (ShardIndex, PageserverShardInfo),
)
    requires
        ascending_shards(before),
        0 <= i <= before.len(),
        forall|j: int| 0 <= j < i ==> shard_rank((#[trigger] before[j]).0) < shard_rank(entry.0),
        i < before.len() ==> shard_rank(entry.0) < shard_rank(before[i].0),
    ensures
        ascending_shards(before.insert(i, entry)),
        map_of(before.insert(i, entry)) == map_of(before).insert(entry.0, entry.1@),
{
    let after = before.insert(i, entry);
    assert forall|j: int| i <= j < before.len() implies shard_rank(entry.0) < shard_rank(
        (#[trigger] before[j]).0,
    ) by {
        if i < j {
            assert(shard_rank(before[i].0) < shard_rank(before[j].0));
        }
    }
    assert forall|j: int, k: int| 0 <= j < k < after.len() implies shard_rank(
        (#[trigger] after[j]).0,
    ) < shard_rank((#[trigger] after[k]).0) by {
        if j != i {
            assert(after[j] == before[if j < i { j } else { j - 1 }]);
        }
        if k != i {
            assert(after[k] == before[if k < i { k } else { k - 1 }]);
        }
    }
    let wanted = map_of(before).insert(entry.0, entry.1@);
    lemma_map_of(after, i);
    assert forall|key: ShardIndex|
        map_of(after).contains_key(key) <==> wanted.contains_key(key) by {
        if mentions(after, key) && key != entry.0 {
            let j = choose|j: int| 0 <= j < after.len() && (#[trigger] after[j]).0 == key;
            assert(before[if j < i { j } else { j - 1 }].0 == key);
        }
        if mentions(before, key) {
            let j = choose|j: int| 0 <= j < before.len() && (#[trigger] before[j]).0 == key;
            assert(after[if j < i { j } else { j + 1 }].0 == key);
        }
    }
    assert forall|key: ShardIndex| map_of(after).contains_key(key) implies map_of(after)[key]
        == wanted[key] by {
        if key != entry.0 {
            let j = choose|j: int| 0 <= j < after.len() && (#[trigger] after[j]).0 == key;
            lemma_map_of(after, j);
            lemma_map_of(before, if j < i { j } else { j - 1 });
        }
    }
    assert(map_of(after) =~= wanted);
}

/// Without its last entry, a list of entries holds all the others.
proof fn lemma_map_of_drop_last(entries: Seq<(ShardIndex, PageserverShardInfo)>)
    requires
        ascending_shards(entries),
        entries.len() > 0,
    ensures
        ascending_shards(entries.drop_last()),
        map_of(entries.drop_last()) == map_of(entries).remove(entries.last().0),
{
    let short = entries.drop_last();
    let last = entries.len() - 1;
    let wanted = map_of(entries).remove(entries.last().0);
    assert forall|i: int, j: int| 0 <= i < j < short.len() implies shard_rank(
        (#[trigger] short[i]).0,
    ) < shard_rank((#[trigger] short[j]).0) by {
        assert(entries[i] == short[i] && entries[j] == short[j]);
    }
    assert forall|key: ShardIndex|
        map_of(short).contains_key(key) <==> wanted.contains_key(key) by {
        if mentions(short, key) {
            let i = choose|i: int| 0 <= i < short.len() && (#[trigger] short[i]).0 == key;
            assert(entries[i].0 == key);
            assert(shard_rank(entries[i].0) < shard_rank(entries[last].0));
        }
        if mentions(entries, key) && key != entries.last().0 {
            let i = choose|i: int| 0 <= i < entries.len() && (#[trigger] entries[i]).0 == key;
            assert(short[i].0 == key);
        }
    }
    assert forall|key: ShardIndex| map_of(short).contains_key(key) implies map_of(short)[key]
        == wanted[key] by {
        let i = choose|i: int| 0 <= i < short.len() && (#[trigger] short[i]).0 == key;
        lemma_map_of(short, i);
        assert(entries[i] == short[i]);
        lemma_map_of(entries, i);
    }
    assert(map_of(short) =~= wanted);
}

/// The entries of a map are settled by what the map holds: two maps that hold the same list the
/// same shards, in the same order and with the same pageservers.
pub proof fn law_entries_are_determined(
    a: Seq<(ShardIndex, PageserverShardInfo)>,
    b: Seq<(ShardIndex, PageserverShardInfo)>,
)
    requires
        ascending_shards(a),
        ascending_shards(b),
        map_of(a) == map_of(b),
    ensures
        a.len() == b.len(),
        forall|i: int|
            0 <= i < a.len() ==> (#[trigger] a[i]).0 == (#[trigger] b[i]).0 && a[i].1@ == b[i].1@,
    decreases a.len(),
{
    if a.len() == 0 {
        if b.len() > 0 {
            lemma_map_of(b, 0);
            assert(mentions(a, b[0].0));
        }
    } else {
        let a_last = a.len() - 1;
        let b_last = b.len() - 1;
        lemma_map_of(a, a_last);
        assert(mentions(b, a[a_last].0));
        lemma_map_of(b, b_last);
        assert(mentions(a, b[b_last].0));
        let i = choose|i: int| 0 <= i < a.len() && (#[trigger] a[i]).0 == b[b_last].0;
        let j = choose|j: int| 0 <= j < b.len() && (#[trigger] b[j]).0 == a[a_last].0;
        if i < a_last && j < b_last {
            assert(shard_rank(a[i].0) < shard_rank(a[a_last].0));
            assert(shard_rank(b[j].0) < shard_rank(b[b_last].0));
        }
        assert(a[a_last].0 == b[b_last].0);
        lemma_map_of_drop_last(a);
        lemma_map_of_drop_last(b);
        law_entries_are_determined(a.drop_last(), b.drop_last());
        assert forall|i: int| 0 <= i < a.len() implies (#[trigger] a[i]).0 == (
        #[trigger] b[i]).0 && a[i].1@ == b[i].1@ by {
            if i < a_last {
                assert(a.drop_last()[i] == a[i] && b.drop_last()[i] == b[i]);
            }
        }
    }
}

/// A map from shards to their pageservers, in the order of the shards.
#[derive(Debug, PartialEq, Eq)]
pub struct ShardMap {
    entries: Vec<(ShardIndex, PageserverShardInfo)>,
}

impl View for ShardMap {
    type V = Map<ShardIndex, Seq<ShardConnectionView>>;

    closed spec fn view(&self) -> Map<ShardIndex, Seq<ShardConnectionView>> {
        map_of(self.entries@)
    }
}

impl ShardMap {
    #[verifier::type_invariant]
    spec fn well_formed(self) -> bool {
        ascending_shards(self.entries@)
    }

    /// The map without entries.
    pub fn new() -> (r: ShardMap)
        ensures
            r@ == Map::<ShardIndex, Seq<ShardConnectionView>>::empty(),
    {
        let r = ShardMap { entries: Vec::new() };
        assert(r@ =~= Map::<ShardIndex, Seq<ShardConnectionView>>::empty());
        r
    }

    /// Where the entry for `key` is.
    fn position(&self, key: ShardIndex) -> (r: Option<usize>)
        ensures
            match r {
                Some(i) => i < self.entries@.len() && self.entries@[i as int].0 == key,
                None => !mentions(self.entries@, key),
            },
    {
        let mut i: usize = 0;
        while i < self.entries.len()
            invariant
                i <= self.entries@.len(),
                forall|j: int| 0 <= j < i ==> (#[trigger] self.entries@[j]).0 != key,
            decreases self.entries@.len() - i,
        {
            if self.entries[i].0 == key {
                return Some(i);
            }
            i = i + 1;
        }
        None
    }

    /// Adds an entry, in place of an earlier one for the same shard.
    pub fn insert(self, key: ShardIndex, info: PageserverShardInfo) -> (r: ShardMap)
        ensures
            r@ == self@.insert(key, info@),
    {
        proof {
            use_type_invariant(&self);
        }
        let mut entries = self.entries;
        let ghost before = entries@;
        let mut i: usize = 0;
        while i < entries.len() && stands_before(entries[i].0, key)
            invariant
                i <= entries@.len(),
                before == entries@,
                forall|j: int|
                    0 <= j < i ==> shard_rank((#[trigger] before[j]).0) < shard_rank(key),
            decreases entries@.len() - i,
        {
            i = i + 1;
        }
        if i < entries.len() && entries[i].0 == key {
            entries.set(i, (key, info));
            proof {
                lemma_entry_replaced(before, i as int, (key, info));
            }
        } else {
            entries.insert(i, (key, info));
            proof {
                lemma_entry_inserted(before, i as int, (key, info));
            }
        }
        ShardMap { entries }
    }

    /// The pageservers of the shard `key`.
    pub fn get(&self, key: ShardIndex) -> (r: Option<&PageserverShardInfo>)
        ensures
            match r {
                Some(info) => self@.contains_key(key) && info@ == self@[key],
                None => !self@.contains_key(key),
            },
    {
        proof {
            use_type_invariant(self);
        }
        match self.position(key) {
            Some(i) => {
                proof {
                    lemma_map_of(self.entries@, i as int);
                }
                Some(&self.entries[i].1)
            },
            None => None,
        }
    }

    /// Whether the map has no entries.
    pub fn is_empty(&self) -> (r: bool)
        ensures
            r == (forall|key: ShardIndex| !self@.contains_key(key)),
    {
        let r = self.entries.len() == 0;
        proof {
            if !r {
                assert(mentions(self.entries@, self.entries@[0].0));
                assert(self@.contains_key(self.entries@[0].0));
            }
        }
        r
    }

    /// The entries, in the order of their shards.
    pub fn entries(&self) -> (r: &Vec<(ShardIndex, PageserverShardInfo)>)
        ensures
            ascending_shards(r@),
            map_of(r@) == self@,
    {
        proof {
            use_type_invariant(self);
        }
        &self.entries
    }
}

impl Clone for ShardMap {
    fn clone(&self) -> (r: Self)
        ensures
            r@ == self@,
    {
        proof {
            use_type_invariant(self);
        }
        let ghost all = self.entries@;
        let mut entries: Vec<(ShardIndex, PageserverShardInfo)> = Vec::new();
        let mut i: usize = 0;
        while i < self.entries.len()
            invariant
                i <= self.entries@.len(),
                entries@.len() == i,
                all == self.entries@,
                forall|j: int|
                    0 <= j < i ==> (#[trigger] entries@[j]).0 == all[j].0 && entries@[j].1@
                        == all[j].1@,
            decreases self.entries@.len() - i,
        {
            let info = self.entries[i].1.clone();
            entries.push((self.entries[i].0, info));
            i = i + 1;
        }
        proof {
            assert(ascending_shards(entries@)) by {
                assert forall|i: int, j: int| 0 <= i < j < entries@.len() implies shard_rank(
                    (#[trigger] entries@[i]).0,
                ) < shard_rank((#[trigger] entries@[j]).0) by {
                    assert(shard_rank(all[i].0) < shard_rank(all[j].0));
                }
            }
            assert forall|k: ShardIndex|
                map_of(entries@).contains_key(k) <==> map_of(all).contains_key(k) by {
                if mentions(all, k) {
                    let i = choose|i: int| 0 <= i < all.len() && (#[trigger] all[i]).0 == k;
                    assert(entries@[i].0 == k);
                }
            }
            assert forall|k: ShardIndex| map_of(entries@).contains_key(k) implies map_of(
                entries@,
            )[k] == map_of(all)[k] by {
                let i = choose|i: int| 0 <= i < entries@.len() && (#[trigger] entries@[i]).0 == k;
                lemma_map_of(entries@, i);
                lemma_map_of(all, i);
            }
            assert(map_of(entries@) =~= map_of(all));
        }
        ShardMap { entries }
    }
}

/// The protocol that a compute speaks with pageservers if it has the choice.
#[derive(Clone, Copy, Debug, PartialEq, Eq, Structural)]
pub enum PageserverProtocol {
    Libpq,
    Grpc,
}

impl Default for PageserverProtocol {
    fn default() -> (r: Self)
        ensures
            r == PageserverProtocol::Libpq,
    {
        PageserverProtocol::Libpq
    }
}

/// Where the pageservers of all shards of a tenant are.
#[derive(Debug, PartialEq, Eq)]
pub struct PageserverConnectionInfo {
    pub shard_count: ShardCount,
    pub stripe_size: Option<ShardStripeSize>,
    pub shards: ShardMap,
    pub prefer_protocol: PageserverProtocol,
}

/// What a [`PageserverConnectionInfo`] denotes.
#[verifier::ext_equal]
pub struct ConnectionInfoView {
    pub shard_count: ShardCount,
    pub stripe_size: Option<ShardStripeSize>,
    pub shards: Map<ShardIndex, Seq<ShardConnectionView>>,
    pub prefer_protocol: PageserverProtocol,
}

impl View for PageserverConnectionInfo {
    type V = ConnectionInfoView;

    open spec fn view(&self) -> ConnectionInfoView {
        ConnectionInfoView {
            shard_count: self.shard_count,
            stripe_size: self.stripe_size,
            shards: self.shards@,
            prefer_protocol: self.prefer_protocol,
        }
    }
}

impl DeepView for PageserverConnectionInfo {
    type V = ConnectionInfoView;

    open spec fn deep_view(&self) -> ConnectionInfoView {
        self@
    }
}

impl Clone for PageserverConnectionInfo {
    fn clone(&self) -> (r: Self)
        ensures
            r@ == self@,
    {
        PageserverConnectionInfo {
            shard_count: self.shard_count,
            stripe_size: self.stripe_size,
            shards: self.shards.clone(),
            prefer_protocol: self.prefer_protocol,
        }
    }
}

/// What looking for the libpq URL of a shard comes to.
pub enum ShardUrl {
    /// There is no entry for the shard.
    Missing,
    /// The shard has no pageserver.
    Empty,
    /// The preferred pageserver does not speak libpq.
    NoLibpq,
    /// The URL of the preferred pageserver.
    Url(Seq<char>),
}

impl ConnectionInfoView {
    /// The shard at position `n` of this tenant.
    pub open spec fn index(self, n: int) -> ShardIndex {
        ShardIndex { shard_number: ShardNumber(n as u8), shard_count: self.shard_count }
    }

    /// The libpq URL of the shard at position `n`.
    pub open spec fn shard_url(self, n: int) -> ShardUrl {
        if !self.shards.contains_key(self.index(n)) {
            ShardUrl::Missing
        } else {
            let pageservers = self.shards[self.index(n)];
            if pageservers.len() == 0 {
                ShardUrl::Empty
            } else {
                match pageservers[0].libpq_url {
                    Some(url) => ShardUrl::Url(url),
                    None => ShardUrl::NoLibpq,
                }
            }
        }
    }

    /// The first shard, from position `n` on, that has no libpq URL.
    pub open spec fn first_gap(self, n: int) -> Option<int>
        decreases self.shard_count.shards() - n,
    {
        if n >= self.shard_count.shards() {
            None
        } else if self.shard_url(n) is Url {
            self.first_gap(n + 1)
        } else {
            Some(n)
        }
    }

    /// The libpq URLs of the first `n` shards.
    pub open spec fn urls(self, n: int) -> Seq<Seq<char>> {
        Seq::new(n as nat, |i: int| self.shard_url(i)->Url_0)
    }

    /// The connection string for clients that speak libpq: the URLs of all shards in order,
    /// separated by commas, or nothing if a shard does not speak libpq. The first shard without
    /// a URL decides, and a shard that is missing or has no pageserver is an error.
    pub open spec fn connstring(self) -> Result<Option<Seq<char>>, EndpointErrorView> {
        match self.first_gap(0) {
            None => Ok(
                Some(joined(self.urls(self.shard_count.shards() as int), ","@)),
            ),
            Some(n) => match self.shard_url(n) {
                ShardUrl::Missing => Err(
                    EndpointErrorView::ShardMissing { shard: self.index(n) },
                ),
                ShardUrl::Empty => Err(EndpointErrorView::ShardWithoutPageserver),
                _ => Ok(None),
            },
        }
    }
}

impl PageserverConnectionInfo {
    /// The connection string for clients that only know the libpq protocol.
    pub fn pageserver_connstring(&self) -> (r: Result<Option<String>, EndpointError>)
        ensures
            match r {
                Ok(s) => self@.connstring() == Ok::<_, EndpointErrorView>(s.deep_view()),
                Err(error) => self@.connstring() == Err::<Option<Seq<char>>, _>(error@),
            },
    {
        let num_shards: u8 = self.shard_count.count();
        let mut urls: Vec<String> = Vec::new();
        let mut shard_no: u8 = 0;
        assert(urls.deep_view() =~= self@.urls(0));
        while shard_no < num_shards
            invariant
                shard_no <= num_shards,
                num_shards == self@.shard_count.shards(),
                self@.first_gap(0) == self@.first_gap(shard_no as int),
                urls.deep_view() == self@.urls(shard_no as int),
            decreases num_shards - shard_no,
        {
            let shard_index = ShardIndex {
                shard_count: self.shard_count,
                shard_number: ShardNumber(shard_no),
            };
            assert(shard_index == self@.index(shard_no as int));
            let shard = match self.shards.get(shard_index) {
                Some(shard) => shard,
                None => {
                    return Err(EndpointError::ShardMissing { shard: shard_index });
                },
            };
            if shard.pageservers.len() == 0 {
                return Err(EndpointError::ShardWithoutPageserver);
            }
            let pageserver = &shard.pageservers[0];
            assert(shard@[0] == pageserver.deep_view());
            match &pageserver.libpq_url {
                Some(url) => {
                    let ghost before = urls.deep_view();
                    urls.push(url.clone());
                    assert(urls.deep_view() =~= before.push(url@));
                    assert(urls.deep_view() =~= self@.urls(shard_no + 1));
                },
                None => {
                    return Ok(None);
                },
            }
            shard_no = shard_no + 1;
        }
        Ok(Some(join(&urls, ",")))
    }
}

} // verus!
