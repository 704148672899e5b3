//! Ethereum hardforks, the conditions under which they activate, and the
//! hardfork schedule of a chain.

use vstd::prelude::*;

verus! {

/// The Ethereum hardforks that QRDX chains schedule, from Frontier to Prague.
#[derive(Clone, Copy, Debug, PartialEq, Eq, Structural)]
pub enum EthereumHardfork {
    Frontier,
    Homestead,
    Dao,
    Tangerine,
    SpuriousDragon,
    Byzantium,
    Constantinople,
    Petersburg,
    Istanbul,
    MuirGlacier,
    Berlin,
    London,
    ArrowGlacier,
    GrayGlacier,
    Paris,
    Shanghai,
    Cancun,
    Prague,
}

/// Position of a hardfork in the Ethereum upgrade history (Frontier is 0).
pub open spec fn hardfork_rank(h: EthereumHardfork) -> int {
    match h {
        EthereumHardfork::Frontier => 0,
        EthereumHardfork::Homestead => 1,
        EthereumHardfork::Dao => 2,
        EthereumHardfork::Tangerine => 3,
        EthereumHardfork::SpuriousDragon => 4,
        EthereumHardfork::Byzantium => 5,
        EthereumHardfork::Constantinople => 6,
        EthereumHardfork::Petersburg => 7,
        EthereumHardfork::Istanbul => 8,
        EthereumHardfork::MuirGlacier => 9,
        EthereumHardfork::Berlin => 10,
        EthereumHardfork::London => 11,
        EthereumHardfork::ArrowGlacier => 12,
        EthereumHardfork::GrayGlacier => 13,
        EthereumHardfork::Paris => 14,
        EthereumHardfork::Shanghai => 15,
        EthereumHardfork::Cancun => 16,
        EthereumHardfork::Prague => 17,
    }
}

/// The condition at which a fork is activated.
#[derive(Clone, Copy, Debug, PartialEq, Eq)]
pub enum ForkCondition {
    /// Activated from the given block on.
    Block(u64),
    /// Activated once the terminal total difficulty is reached (the merge).
    TTD {
        /// The first post-merge block.
        activation_block_number: u64,
        /// The block at which the total difficulty is reached, when it is advertised.
        fork_block: Option<u64>,
        /// The terminal total difficulty.
        total_difficulty: u128,
    },
    /// Activated from the given block timestamp on.
    Timestamp(u64),
    /// Never activated.
    Never,
}

impl ForkCondition {
    pub open spec fn spec_active_at_block(&self, block: u64) -> bool {
        match self {
            ForkCondition::Block(b) => block >= *b,
            ForkCondition::TTD { activation_block_number, .. } => block >= *activation_block_number,
            _ => false,
        }
    }

    pub open spec fn spec_active_at_timestamp(&self, timestamp: u64) -> bool {
        match self {
            ForkCondition::Timestamp(t) => timestamp >= *t,
            _ => false,
        }
    }

    /// Whether the fork is active at the given block: a block condition, or the
    /// activation block of a TTD condition, is at or below it.
    #[verifier::when_used_as_spec(spec_active_at_block)]
    pub fn active_at_block(&self, block: u64) -> (r: bool)
        ensures
            r == self.spec_active_at_block(block),
    {
        match self {
            ForkCondition::Block(b) => block >= *b,
            ForkCondition::TTD { activation_block_number, .. } => block >= *activation_block_number,
            _ => false,
        }
    }

    /// Whether the fork is active at the given timestamp: only a timestamp
    /// condition at or below it is.
    #[verifier::when_used_as_spec(spec_active_at_timestamp)]
    pub fn active_at_timestamp(&self, timestamp: u64) -> (r: bool)
        ensures
            r == self.spec_active_at_timestamp(timestamp),
    {
        match self {
            ForkCondition::Timestamp(t) => timestamp >= *t,
            _ => false,
        }
    }
}

/// The condition recorded for `h` in a list of (hardfork, condition) pairs; when a
/// hardfork is listed twice the later entry counts.
pub open spec fn lookup_fork(forks: Seq<(EthereumHardfork, ForkCondition)>, h: EthereumHardfork) -> Option<ForkCondition>
    decreases forks.len(),
{
    if forks.len() == 0 {
        None
    } else if forks.last().0 == h {
        Some(forks.last().1)
    } else {
        lookup_fork(forks.drop_last(), h)
    }
}

/// The condition of `h`, or `Never` when the schedule does not list it.
pub open spec fn condition_of(forks: Seq<(EthereumHardfork, ForkCondition)>, h: EthereumHardfork) -> ForkCondition {
    match lookup_fork(forks, h) {
        Some(c) => c,
        None => ForkCondition::Never,
    }
}

/// The hardforks are listed in the order of their history, each at most once.
pub open spec fn in_history_order(forks: Seq<(EthereumHardfork, ForkCondition)>) -> bool {
    forall|i: int, j: int|
        0 <= i < j < forks.len() ==> hardfork_rank(#[trigger] forks[i].0) < hardfork_rank(#[trigger] forks[j].0)
}

/// The hardfork schedule of a chain.
#[derive(Clone, Debug, PartialEq, Eq)]
pub struct ChainHardforks {
    pub forks: Vec<(EthereumHardfork, ForkCondition)>,
}

impl View for ChainHardforks {
    type V = Seq<(EthereumHardfork, ForkCondition)>;

    open spec fn view(&self) -> Seq<(EthereumHardfork, ForkCondition)> {
        self.forks@
    }
}

impl ChainHardforks {
    /// A schedule made of the given (hardfork, condition) pairs, in the given order.
    pub fn new(forks: Vec<(EthereumHardfork, ForkCondition)>) -> (r: Self)
        ensures
            r@ == forks@,
    {
        ChainHardforks { forks }
    }

    /// The schedule that lists no hardfork.
    pub fn empty() -> (r: Self)
        ensures
            r@ == Seq::<(EthereumHardfork, ForkCondition)>::empty(),
    {
        ChainHardforks { forks: Vec::new() }
    }

    /// The condition recorded for `fork`, if the schedule lists it.
    pub fn get(&self, fork: EthereumHardfork) -> (r: Option<ForkCondition>)
        ensures
            r == lookup_fork(self@, fork),
    {
        let n = self.forks.len();
        let mut found: Option<ForkCondition> = None;
        let mut i: usize = 0;
        while i < n
            invariant
                n == self@.len(),
                i <= n,
                found == lookup_fork(self@.take(i as int), fork),
            decreases n - i,
        {
            assert(self@.take(i + 1).drop_last() =~= self@.take(i as int));
            let entry = self.forks[i];
            if entry.0 == fork {
                found = Some(entry.1);
            }
            i = i + 1;
        }
        assert(self@.take(n as int) =~= self@);
        found
    }

    /// The condition of `fork`, or `Never` when the schedule does not list it.
    pub fn fork(&self, fork: EthereumHardfork) -> (r: ForkCondition)
        ensures
            r == condition_of(self@, fork),
    {
        match self.get(fork) {
            Some(c) => c,
            None => ForkCondition::Never,
        }
    }

    /// The (hardfork, condition) pairs of the schedule, in order.
    pub fn forks_iter(&self) -> (r: &Vec<(EthereumHardfork, ForkCondition)>)
        ensures
            r@ == self@,
    {
        &self.forks
    }
}

/// The pairs of a candidate list whose condition is present, in order.
pub open spec fn present_forks(candidates: Seq<(EthereumHardfork, Option<ForkCondition>)>) -> Seq<(EthereumHardfork, ForkCondition)>
    decreases candidates.len(),
{
    if candidates.len() == 0 {
        Seq::empty()
    } else {
        let rest = present_forks(candidates.drop_last());
        match candidates.last().1 {
            Some(c) => rest.push((candidates.last().0, c)),
            None => rest,
        }
    }
}

/// The last present condition that a candidate list gives for `h`.
pub open spec fn candidate_condition(candidates: Seq<(EthereumHardfork, Option<ForkCondition>)>, h: EthereumHardfork) -> Option<ForkCondition>
    decreases candidates.len(),
{
    if candidates.len() == 0 {
        None
    } else if candidates.last().0 == h && candidates.last().1 is Some {
        candidates.last().1
    } else {
        candidate_condition(candidates.drop_last(), h)
    }
}

/// The hardforks of a candidate list follow the order of Ethereum's history.
pub open spec fn candidates_in_history_order(candidates: Seq<(EthereumHardfork, Option<ForkCondition>)>) -> bool {
    forall|i: int, j: int|
        0 <= i < j < candidates.len() ==> hardfork_rank(#[trigger] candidates[i].0) < hardfork_rank(#[trigger] candidates[j].0)
}

/// Keeps the pairs of a candidate list whose condition is present.
pub fn collect_present(candidates: &Vec<(EthereumHardfork, Option<ForkCondition>)>) -> (r: Vec<(EthereumHardfork, ForkCondition)>)
    ensures
        r@ == present_forks(candidates@),
{
    let n = candidates.len();
    let mut forks: Vec<(EthereumHardfork, ForkCondition)> = Vec::new();
    let mut i: usize = 0;
    while i < n
        invariant
            n == candidates@.len(),
            i <= n,
            forks@ == present_forks(candidates@.take(i as int)),
        decreases n - i,
    {
        assert(candidates@.take(i + 1).drop_last() =~= candidates@.take(i as int));
        let (h, cond) = candidates[i];
        match cond {
            Some(c) => forks.push((h, c)),
            None => {},
        }
        i = i + 1;
    }
    assert(candidates@.take(n as int) =~= candidates@);
    forks
}

/// Looking a hardfork up among the present pairs finds the last present
/// condition that the candidates give for it.
pub proof fn lemma_lookup_present(candidates: Seq<(EthereumHardfork, Option<ForkCondition>)>, h: EthereumHardfork)
    ensures
        lookup_fork(present_forks(candidates), h) == candidate_condition(candidates, h),
    decreases candidates.len(),
{
    if candidates.len() > 0 {
        lemma_lookup_present(candidates.drop_last(), h);
        let rest = present_forks(candidates.drop_last());
        match candidates.last().1 {
            Some(c) => {
                assert(rest.push((candidates.last().0, c)).drop_last() =~= rest);
            },
            None => {},
        }
    }
}

/// Every hardfork among the present pairs is one of the candidates.
proof fn lemma_present_from_candidates(candidates: Seq<(EthereumHardfork, Option<ForkCondition>)>)
    ensures
        present_forks(candidates).len() <= candidates.len(),
        forall|k: int| 0 <= k < present_forks(candidates).len() ==>
            exists|i: int| 0 <= i < candidates.len() && #[trigger] candidates[i].0 == (#[trigger] present_forks(candidates)[k]).0,
    decreases candidates.len(),
{
    if candidates.len() > 0 {
        let prev = candidates.drop_last();
        lemma_present_from_candidates(prev);
        let rest = present_forks(prev);
        let p = present_forks(candidates);
        assert forall|k: int| 0 <= k < p.len() implies
            exists|i: int| 0 <= i < candidates.len() && #[trigger] candidates[i].0 == (#[trigger] p[k]).0 by {
            if k < rest.len() {
                assert(p[k] == rest[k]);
                let i = choose|i: int| 0 <= i < prev.len() && #[trigger] prev[i].0 == rest[k].0;
                assert(candidates[i] == prev[i]);
            } else {
                assert(candidates[candidates.len() - 1].0 == p[k].0);
            }
        }
    }
}

/// Keeping the present pairs of candidates in history order gives a schedule in
/// history order.
pub proof fn lemma_present_in_history_order(candidates: Seq<(EthereumHardfork, Option<ForkCondition>)>)
    requires
        candidates_in_history_order(candidates),
    ensures
        in_history_order(present_forks(candidates)),
    decreases candidates.len(),
{
    if candidates.len() > 0 {
        let prev = candidates.drop_last();
        assert(candidates_in_history_order(prev)) by {
            assert forall|i: int, j: int| 0 <= i < j < prev.len() implies
                hardfork_rank(#[trigger] prev[i].0) < hardfork_rank(#[trigger] prev[j].0) by {
                assert(prev[i] == candidates[i] && prev[j] == candidates[j]);
            }
        }
        lemma_present_in_history_order(prev);
        lemma_present_from_candidates(prev);
        let rest = present_forks(prev);
        let last = candidates.last();
        match last.1 {
            Some(c) => {
                let p = rest.push((last.0, c));
                assert forall|i: int, j: int| 0 <= i < j < p.len() implies
                    hardfork_rank(#[trigger] p[i].0) < hardfork_rank(#[trigger] p[j].0) by {
                    if j < rest.len() {
                        assert(p[i] == rest[i] && p[j] == rest[j]);
                    } else {
                        assert(p[i] == rest[i]);
                        let m = choose|m: int| 0 <= m < prev.len() && #[trigger] prev[m].0 == (#[trigger] rest[i]).0;
                        assert(prev[m] == candidates[m]);
                        assert(hardfork_rank(candidates[m].0) < hardfork_rank(candidates[candidates.len() - 1].0));
                    }
                }
            },
            None => {},
        }
    }
}

/// Whether a fork condition activates at genesis: at block 0 or at timestamp 0.
pub open spec fn active_at_genesis(c: ForkCondition) -> bool {
    c.spec_active_at_block(0) || c.spec_active_at_timestamp(0)
}

/// The QRDX hardfork schedule: every Ethereum hardfork up to Prague activates
/// immediately; the block-based ones at block 0, the merge at block 0 with a
/// terminal total difficulty of 0, and the timestamp-based ones at timestamp 0.
pub open spec fn qrdx_schedule() -> Seq<(EthereumHardfork, ForkCondition)> {
    seq![
        (EthereumHardfork::Frontier, ForkCondition::Block(0)),
        (EthereumHardfork::Homestead, ForkCondition::Block(0)),
        (EthereumHardfork::Dao, ForkCondition::Block(0)),
        (EthereumHardfork::Tangerine, ForkCondition::Block(0)),
        (EthereumHardfork::SpuriousDragon, ForkCondition::Block(0)),
        (EthereumHardfork::Byzantium, ForkCondition::Block(0)),
        (EthereumHardfork::Constantinople, ForkCondition::Block(0)),
        (EthereumHardfork::Petersburg, ForkCondition::Block(0)),
        (EthereumHardfork::Istanbul, ForkCondition::Block(0)),
        (EthereumHardfork::MuirGlacier, ForkCondition::Block(0)),
        (EthereumHardfork::Berlin, ForkCondition::Block(0)),
        (EthereumHardfork::London, ForkCondition::Block(0)),
        (EthereumHardfork::ArrowGlacier, ForkCondition::Block(0)),
        (EthereumHardfork::GrayGlacier, ForkCondition::Block(0)),
        (EthereumHardfork::Paris, ForkCondition::TTD { activation_block_number: 0, fork_block: Some(0), total_difficulty: 0 }),
        (EthereumHardfork::Shanghai, ForkCondition::Timestamp(0)),
        (EthereumHardfork::Cancun, ForkCondition::Timestamp(0)),
        (EthereumHardfork::Prague, ForkCondition::Timestamp(0)),
    ]
}

fn qrdx_schedule_exec() -> (r: ChainHardforks)
    ensures
        r@ == qrdx_schedule(),
{
    let forks = vec![
        (EthereumHardfork::Frontier, ForkCondition::Block(0)),
        (EthereumHardfork::Homestead, ForkCondition::Block(0)),
        (EthereumHardfork::Dao, ForkCondition::Block(0)),
        (EthereumHardfork::Tangerine, ForkCondition::Block(0)),
        (EthereumHardfork::SpuriousDragon, ForkCondition::Block(0)),
        (EthereumHardfork::Byzantium, ForkCondition::Block(0)),
        (EthereumHardfork::Constantinople, ForkCondition::Block(0)),
        (EthereumHardfork::Petersburg, ForkCondition::Block(0)),
        (EthereumHardfork::Istanbul, ForkCondition::Block(0)),
        (EthereumHardfork::MuirGlacier, ForkCondition::Block(0)),
        (EthereumHardfork::Berlin, ForkCondition::Block(0)),
        (EthereumHardfork::London, ForkCondition::Block(0)),
        (EthereumHardfork::ArrowGlacier, ForkCondition::Block(0)),
        (EthereumHardfork::GrayGlacier, ForkCondition::Block(0)),
        (EthereumHardfork::Paris, ForkCondition::TTD { activation_block_number: 0, fork_block: Some(0), total_difficulty: 0 }),
        (EthereumHardfork::Shanghai, ForkCondition::Timestamp(0)),
        (EthereumHardfork::Cancun, ForkCondition::Timestamp(0)),
        (EthereumHardfork::Prague, ForkCondition::Timestamp(0)),
    ];
    assert(forks@ =~= qrdx_schedule());
    ChainHardforks { forks }
}

/// The hardfork schedule of QRDX mainnet.
pub fn qrdx_mainnet_hardforks() -> (r: ChainHardforks)
    ensures
        r@ == qrdx_schedule(),
{
    qrdx_schedule_exec()
}

/// The hardfork schedule of the QRDX dev network.
pub fn qrdx_dev_hardforks() -> (r: ChainHardforks)
    ensures
        r@ == qrdx_schedule(),
{
    qrdx_schedule_exec()
}

/// Every hardfork up to Prague is listed in the QRDX schedule and activates at
/// genesis, and the schedule follows the order of Ethereum's history.
pub proof fn qrdx_schedule_activates_everything_at_genesis(h: EthereumHardfork)
    ensures
        lookup_fork(qrdx_schedule(), h) is Some,
        active_at_genesis(condition_of(qrdx_schedule(), h)),
        in_history_order(qrdx_schedule()),
{
    reveal_with_fuel(lookup_fork, 19);
}


/// A block condition is active exactly at its block and after; a TTD condition
/// exactly at its activation block and after, whatever block it advertises as
/// its fork block and whatever its total difficulty; timestamp and `Never`
/// conditions at no block. Only a timestamp condition is active at a
/// timestamp, exactly at its time and after.
pub proof fn fork_activation_rules(b: u64, activation: u64, fork_block: Option<u64>, ttd: u128, at: u64)
    ensures
        ForkCondition::Block(b).spec_active_at_block(at) == (at >= b),
        (ForkCondition::TTD { activation_block_number: activation, fork_block, total_difficulty: ttd }).spec_active_at_block(
            at,
        ) == (at >= activation),
        !ForkCondition::Timestamp(b).spec_active_at_block(at),
        !ForkCondition::Never.spec_active_at_block(at),
        ForkCondition::Timestamp(b).spec_active_at_timestamp(at) == (at >= b),
        !ForkCondition::Block(b).spec_active_at_timestamp(at),
        !(ForkCondition::TTD { activation_block_number: activation, fork_block, total_difficulty: ttd }).spec_active_at_timestamp(
            at,
        ),
        !ForkCondition::Never.spec_active_at_timestamp(at),
{
}

} // verus!
