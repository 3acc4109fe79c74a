//! Identifiers and the other small values that name tenants, timelines, nodes and shards.
use vstd::prelude::*;

verus! {

/// Identity of a tenant, held by the text that it is written as.
#[derive(Debug, PartialEq, Eq)]
pub struct TenantId {
    pub text: String,
}

impl View for TenantId {
    type V = Seq<char>;

    open spec fn view(&self) -> Seq<char> {
        self.text@
    }
}

impl DeepView for TenantId {
    type V = Seq<char>;

    open spec fn deep_view(&self) -> Seq<char> {
        self@
    }
}

impl Clone for TenantId {
    fn clone(&self) -> (r: Self)
        ensures
            r@ == self@,
    {
        TenantId { text: self.text.clone() }
    }
}

/// Identity of a timeline, held by the text that it is written as.
#[derive(Debug, PartialEq, Eq)]
pub struct TimelineId {
    pub text: String,
}

impl View for TimelineId {
    type V = Seq<char>;

    open spec fn view(&self) -> Seq<char> {
        self.text@
    }
}

impl DeepView for TimelineId {
    type V = Seq<char>;

    open spec fn deep_view(&self) -> Seq<char> {
        self@
    }
}

impl Clone for TimelineId {
    fn clone(&self) -> (r: Self)
        ensures
            r@ == self@,
    {
        TimelineId { text: self.text.clone() }
    }
}

/// A position in the write-ahead log, held by the text that it is written as.
#[derive(Debug, PartialEq, Eq)]
pub struct Lsn {
    pub text: String,
}

impl View for Lsn {
    type V = Seq<char>;

    open spec fn view(&self) -> Seq<char> {
        self.text@
    }
}

impl DeepView for Lsn {
    type V = Seq<char>;

    open spec fn deep_view(&self) -> Seq<char> {
        self@
    }
}

impl Clone for Lsn {
    fn clone(&self) -> (r: Self)
        ensures
            r@ == self@,
    {
        Lsn { text: self.text.clone() }
    }
}

/// Identity of a storage node. It is written as its number.
#[derive(Clone, Copy, Debug, PartialEq, Eq, Structural)]
pub struct NodeId(pub u64);

/// Generation of a safekeeper configuration.
#[derive(Clone, Copy, Debug, PartialEq, Eq, Structural)]
pub struct SafekeeperGeneration(pub u32);

/// A Postgres major version: 14, 15 and so on.
#[derive(Clone, Copy, Debug, PartialEq, Eq, Structural)]
pub struct PgMajorVersion(pub u32);

/// Number of pages that go to one shard before the next shard takes over.
#[derive(Clone, Copy, Debug, PartialEq, Eq, Structural)]
pub struct ShardStripeSize(pub u32);

/// How many shards a tenant is split into. Zero stands for a tenant that is not sharded at all,
/// and which therefore has a single shard.
#[derive(Clone, Copy, Debug, PartialEq, Eq, Structural)]
pub struct ShardCount(pub u8);

impl ShardCount {
    /// The number of shards there are to talk to.
    pub open spec fn shards(self) -> u8 {
        if self.0 == 0 {
            1
        } else {
            self.0
        }
    }

    /// The count of a tenant that is not sharded.
    pub fn unsharded() -> (r: ShardCount)
        ensures
            r == ShardCount(0),
    {
        ShardCount(0)
    }

    /// Whether the tenant is not sharded.
    pub fn is_unsharded(&self) -> (r: bool)
        ensures
            r == (self.0 == 0),
    {
        self.0 == 0
    }

    /// The number of shards there are to talk to, at least one.
    pub fn count(&self) -> (r: u8)
        ensures
            r == self.shards(),
            r > 0,
    {
        if self.0 == 0 {
            1
        } else {
            self.0
        }
    }
}

/// Position of a shard among the shards of its tenant, counted from zero.
#[derive(Clone, Copy, Debug, PartialEq, Eq, Structural)]
pub struct ShardNumber(pub u8);

/// A shard, by its position and by the number of shards it is one of.
#[derive(Clone, Copy, Debug, PartialEq, Eq, Structural)]
pub struct ShardIndex {
    pub shard_number: ShardNumber,
    pub shard_count: ShardCount,
}

/// The only shard of a tenant that is not sharded.
pub open spec fn unsharded_index() -> ShardIndex {
    ShardIndex { shard_number: ShardNumber(0), shard_count: ShardCount(0) }
}

impl ShardIndex {
    /// The only shard of a tenant that is not sharded.
    pub fn unsharded() -> (r: ShardIndex)
        ensures
            r == unsharded_index(),
    {
        ShardIndex { shard_number: ShardNumber(0), shard_count: ShardCount::unsharded() }
    }
}

/// A number of seconds, at least one.
#[derive(Clone, Copy, Debug, PartialEq, Eq)]
pub struct NonZeroSeconds {
    seconds: u64,
}

impl View for NonZeroSeconds {
    type V = u64;

    closed spec fn view(&self) -> u64 {
        self.seconds
    }
}

impl DeepView for NonZeroSeconds {
    type V = u64;

    open spec fn deep_view(&self) -> u64 {
        self@
    }
}

impl NonZeroSeconds {
    #[verifier::type_invariant]
    spec fn well_formed(self) -> bool {
        self.seconds > 0
    }

    /// That many seconds, unless there are none.
    pub fn new(seconds: u64) -> (r: Option<NonZeroSeconds>)
        ensures
            r.deep_view() == (if seconds > 0 {
                Some(seconds)
            } else {
                None
            }),
    {
        if seconds > 0 {
            Some(NonZeroSeconds { seconds })
        } else {
            None
        }
    }

    /// The number of seconds.
    pub fn get(&self) -> (r: u64)
        ensures
            r == self@,
            r > 0,
    {
        proof {
            use_type_invariant(self);
        }
        self.seconds
    }
}

/// How an endpoint runs.
#[derive(Debug, PartialEq, Eq)]
pub enum ComputeMode {
    /// Reads and writes.
    Primary,
    /// Read-only, fixed at one position of the log.
    Static(Lsn),
    /// Read-only, following the primary.
    Replica,
}

/// What a [`ComputeMode`] denotes.
pub enum ComputeModeView {
    Primary,
    Static(Seq<char>),
    Replica,
}

impl View for ComputeMode {
    type V = ComputeModeView;

    open spec fn view(&self) -> ComputeModeView {
        match self {
            ComputeMode::Primary => ComputeModeView::Primary,
            ComputeMode::Static(lsn) => ComputeModeView::Static(lsn@),
            ComputeMode::Replica => ComputeModeView::Replica,
        }
    }
}

impl Clone for ComputeMode {
    fn clone(&self) -> (r: Self)
        ensures
            r@ == self@,
    {
        match self {
            ComputeMode::Primary => ComputeMode::Primary,
            ComputeMode::Static(lsn) => ComputeMode::Static(lsn.clone()),
            ComputeMode::Replica => ComputeMode::Replica,
        }
    }
}

impl ComputeMode {
    /// Whether this is the mode of a primary.
    pub fn is_primary(&self) -> (r: bool)
        ensures
            r == (self@ is Primary),
    {
        match self {
            ComputeMode::Primary => true,
            _ => false,
        }
    }
}

} // verus!
