//! The chain of blocks, the pool of pending transactions and the rules
//! that grow and check them.

use crate::block::{transaction_views, Block, BlockView};
use crate::clock::unix_time_now;
use crate::error::LedgerError;
use crate::transaction::{PublicKey, Transaction, TransactionView};
use vstd::prelude::*;

verus! {

/// Number of coins that the miner of a block is rewarded with.
pub const MINING_REWARD: u64 = 100;

/// Number of blocks between two adjustments of the difficulty.
pub const DIFFICULTY_ADJUSTMENT_INTERVAL: u64 = 10;

/// Number of seconds that mining one block is meant to take.
pub const TARGET_BLOCK_TIME_SECS: i64 = 30;

/// The difficulty of the genesis block and of a fresh chain.
pub const INITIAL_DIFFICULTY: usize = 2;

/// What a list of blocks says, one view for each, in order.
pub open spec fn block_views(blocks: Seq<Block>) -> Seq<BlockView> {
    Seq::new(blocks.len(), |i: int| blocks[i]@)
}

/// What one transaction adds to the balance of `address`: its amount where
/// it pays to the address, less its amount where it pays from it.
pub open spec fn effect_on(tx: TransactionView, address: Seq<u8>) -> int {
    (if tx.destination == address {
        tx.amount as int
    } else {
        0
    }) - (if tx.source == Some(address) {
        tx.amount as int
    } else {
        0
    })
}

/// What a list of transactions adds to the balance of `address`.
pub open spec fn batch_effect(transactions: Seq<TransactionView>, address: Seq<u8>) -> int
    decreases transactions.len(),
{
    if transactions.len() == 0 {
        0
    } else {
        batch_effect(transactions.drop_last(), address) + effect_on(transactions.last(), address)
    }
}

/// The balance of `address` after every transaction of every block.
pub open spec fn balance_in(chain: Seq<BlockView>, address: Seq<u8>) -> int
    decreases chain.len(),
{
    if chain.len() == 0 {
        0
    } else {
        balance_in(chain.drop_last(), address) + batch_effect(chain.last().transactions, address)
    }
}

/// The 64-bit signed number that agrees with `v` in its low 64 bits: `v`
/// itself where it fits.
pub open spec fn wrapped(v: int) -> int {
    (v + 0x8000_0000_0000_0000) % 0x1_0000_0000_0000_0000 - 0x8000_0000_0000_0000
}

/// The reward that the miner of a block receives.
pub open spec fn reward_to(miner: Seq<u8>) -> TransactionView {
    TransactionView { source: None, destination: miner, amount: MINING_REWARD, signature: None }
}

/// The genesis block before it is mined.
pub open spec fn genesis_candidate(timestamp: i64) -> BlockView {
    BlockView {
        index: 0,
        timestamp,
        transactions: Seq::empty(),
        previous_hash: "0"@,
        hash: Seq::empty(),
        nonce: 0,
        difficulty: INITIAL_DIFFICULTY,
    }
}

/// What a chain says.
pub struct ChainView {
    pub chain: Seq<BlockView>,
    pub mempool: Seq<TransactionView>,
    pub difficulty: usize,
}

impl ChainView {
    /// There is a genesis block, each block's index is its place in the
    /// chain, and the difficulty is at least 1.
    pub open spec fn well_formed(self) -> bool {
        &&& self.chain.len() > 0
        &&& forall|i: int| 0 <= i < self.chain.len() ==> (#[trigger] self.chain[i]).index == i
        &&& self.difficulty >= 1
    }

    /// Each block after the first names the hash of the block before it.
    pub open spec fn links_hold(self) -> bool {
        forall|i: int|
            1 <= i < self.chain.len() ==> (#[trigger] self.chain[i]).previous_hash == self.chain[i
                - 1].hash
    }

    /// Every transaction of every block after the first is valid.
    pub open spec fn transactions_valid(self) -> bool {
        forall|i: int, j: int|
            1 <= i < self.chain.len() && 0 <= j < self.chain[i].transactions.len() ==> (
            #[trigger] self.chain[i].transactions[j]).is_valid()
    }

    /// The chain is linked and holds valid transactions only. Hashes are
    /// not computed again.
    pub open spec fn is_valid(self) -> bool {
        self.links_hold() && self.transactions_valid()
    }

    /// Every pending transaction is valid.
    pub open spec fn mempool_valid(self) -> bool {
        forall|j: int| 0 <= j < self.mempool.len() ==> (#[trigger] self.mempool[j]).is_valid()
    }

    /// The state that `new`, `add_transaction` and
    /// `mine_pending_transactions` keep: well-formed, valid, and with valid
    /// pending transactions only.
    pub open spec fn is_sound(self) -> bool {
        self.well_formed() && self.is_valid() && self.mempool_valid()
    }

    /// The balance of `address`: what it received less what it sent, over
    /// the whole chain.
    pub open spec fn balance(self, address: Seq<u8>) -> int {
        balance_in(self.chain, address)
    }

    /// Whether the next block is mined at a new difficulty: the last
    /// block's index is a positive multiple of the interval.
    pub open spec fn at_adjustment(self) -> bool {
        self.chain.last().index > 0 && self.chain.last().index % DIFFICULTY_ADJUSTMENT_INTERVAL == 0
    }

    /// Seconds between the last block and the block one interval before it.
    pub open spec fn interval_time(self) -> int {
        self.chain.last().timestamp - self.chain[self.chain.last().index
            - DIFFICULTY_ADJUSTMENT_INTERVAL].timestamp
    }

    /// The difficulty at which the next block is mined. At an adjustment it
    /// rises by 1 where the last interval took less than half the expected
    /// time, and falls by 1, not below 1, where it took more than twice the
    /// expected time. It does not rise beyond what `usize` holds.
    pub open spec fn adjusted_difficulty(self) -> usize {
        let expected = DIFFICULTY_ADJUSTMENT_INTERVAL * TARGET_BLOCK_TIME_SECS;
        if !self.at_adjustment() {
            self.difficulty
        } else if self.interval_time() < expected / 2 {
            if self.difficulty < usize::MAX {
                (self.difficulty + 1) as usize
            } else {
                self.difficulty
            }
        } else if self.interval_time() > expected * 2 && self.difficulty > 1 {
            (self.difficulty - 1) as usize
        } else {
            self.difficulty
        }
    }

    /// The block that mining starts from: the reward first, then the
    /// pending transactions in the order in which they came.
    pub open spec fn candidate(self, miner: Seq<u8>, timestamp: i64) -> BlockView {
        BlockView {
            index: self.chain.len() as u64,
            timestamp,
            transactions: seq![reward_to(miner)] + self.mempool,
            previous_hash: self.chain.last().hash,
            hash: Seq::empty(),
            nonce: 0,
            difficulty: self.adjusted_difficulty(),
        }
    }
}

/// The blocks in order, the pending transactions in the order in which they
/// came, and the difficulty at which the last block was mined.
#[derive(Debug)]
pub struct Blockchain {
    pub chain: Vec<Block>,
    pub mempool: Vec<Transaction>,
    pub difficulty: usize,
}

impl View for Blockchain {
    type V = ChainView;

    open spec fn view(&self) -> ChainView {
        ChainView {
            chain: block_views(self.chain@),
            mempool: transaction_views(self.mempool@),
            difficulty: self.difficulty,
        }
    }
}

/// The transactions of a new block: the reward, then copies of the pending
/// transactions in their order.
fn batch_for_block(reward: Transaction, pool: &Vec<Transaction>) -> (batch: Vec<Transaction>)
    ensures
        transaction_views(batch@) == seq![reward@] + transaction_views(pool@),
{
    let ghost reward_view = reward@;
    let mut batch: Vec<Transaction> = Vec::new();
    batch.push(reward);
    let mut i: usize = 0;
    while i < pool.len()
        invariant
            i <= pool@.len(),
            batch@.len() == i + 1,
            batch@[0]@ == reward_view,
            forall|k: int| 0 <= k < i ==> (#[trigger] batch@[k + 1])@ == pool@[k]@,
        decreases pool@.len() - i,
    {
        batch.push(pool[i].clone());
        i += 1;
    }
    assert(transaction_views(batch@) =~= seq![reward_view] + transaction_views(pool@)) by {
        assert forall|k: int| 0 <= k < batch@.len() implies transaction_views(batch@)[k] == (
        seq![reward_view] + transaction_views(pool@))[k] by {
            if k > 0 {
                assert(batch@[(k - 1) + 1]@ == pool@[k - 1]@);
            }
        }
    }
    batch
}

/// A sound chain stays sound when a block is appended that carries the
/// next index, the hash of the last block as its previous hash, and the
/// reward followed by the pending transactions, and the pool is emptied.
pub proof fn lemma_mined_block_keeps_sound(before: ChainView, after: ChainView, miner: Seq<u8>)
    requires
        before.is_sound(),
        after.chain == before.chain.push(after.chain.last()),
        after.chain.last().index == before.chain.len(),
        after.chain.last().previous_hash == before.chain.last().hash,
        after.chain.last().transactions == seq![reward_to(miner)] + before.mempool,
        after.mempool.len() == 0,
        after.difficulty >= 1,
    ensures
        after.is_sound(),
{
}

/// A chain that holds one block without transactions gives every address
/// the balance 0.
pub proof fn lemma_fresh_chain_has_no_balance(fresh: ChainView, address: Seq<u8>)
    requires
        fresh.chain.len() == 1,
        fresh.chain[0].transactions.len() == 0,
    ensures
        fresh.balance(address) == 0,
{
    assert(balance_in(fresh.chain.drop_last(), address) == 0);
}

/// What a list of transactions adds to a balance is what its first
/// transaction adds and what the rest adds.
pub proof fn lemma_batch_effect_from_front(
    first: TransactionView,
    rest: Seq<TransactionView>,
    address: Seq<u8>,
)
    ensures
        batch_effect(seq![first] + rest, address) == effect_on(first, address) + batch_effect(
            rest,
            address,
        ),
    decreases rest.len(),
{
    let all = seq![first] + rest;
    if rest.len() == 0 {
        assert(batch_effect(all.drop_last(), address) == 0);
    } else {
        lemma_batch_effect_from_front(first, rest.drop_last(), address);
        assert(all.drop_last() =~= seq![first] + rest.drop_last());
    }
}

/// Appending a block that holds the reward and the pending transactions
/// raises the miner's balance by the reward, and every balance by what the
/// pending transactions add to it.
pub proof fn lemma_balance_after_block(
    before: ChainView,
    after: ChainView,
    miner: Seq<u8>,
    address: Seq<u8>,
)
    requires
        after.chain == before.chain.push(after.chain.last()),
        after.chain.last().transactions == seq![reward_to(miner)] + before.mempool,
    ensures
        after.balance(address) == before.balance(address) + (if address == miner {
            MINING_REWARD as int
        } else {
            0
        }) + batch_effect(before.mempool, address),
{
    assert(after.chain.drop_last() =~= before.chain);
    lemma_batch_effect_from_front(reward_to(miner), before.mempool, address);
}

/// A block after the first that names another hash than that of the block
/// before it makes the chain invalid.
pub proof fn lemma_broken_link_is_invalid(chain: ChainView, i: int)
    requires
        1 <= i < chain.chain.len(),
        chain.chain[i].previous_hash != chain.chain[i - 1].hash,
    ensures
        !chain.is_valid(),
{
}

/// At an adjustment, an interval that took less than half the expected
/// time raises the difficulty by exactly 1.
pub proof fn lemma_fast_interval_raises_difficulty(chain: ChainView)
    requires
        chain.at_adjustment(),
        chain.interval_time() < (DIFFICULTY_ADJUSTMENT_INTERVAL * TARGET_BLOCK_TIME_SECS) / 2,
        chain.difficulty < usize::MAX,
    ensures
        chain.adjusted_difficulty() == chain.difficulty + 1,
{
}

/// At an adjustment, an interval that took more than twice the expected
/// time lowers the difficulty by exactly 1, but not below 1.
pub proof fn lemma_slow_interval_lowers_difficulty(chain: ChainView)
    requires
        chain.at_adjustment(),
        chain.interval_time() > (DIFFICULTY_ADJUSTMENT_INTERVAL * TARGET_BLOCK_TIME_SECS) * 2,
    ensures
        chain.adjusted_difficulty() == if chain.difficulty > 1 {
            chain.difficulty - 1
        } else {
            chain.difficulty as int
        },
{
}

/// Away from an adjustment, and whenever the interval took between half
/// and twice the expected time, the difficulty stays as it is.
pub proof fn lemma_steady_interval_keeps_difficulty(chain: ChainView)
    requires
        !chain.at_adjustment() || {
            let expected = DIFFICULTY_ADJUSTMENT_INTERVAL * TARGET_BLOCK_TIME_SECS;
            expected / 2 <= chain.interval_time() <= expected * 2
        },
    ensures
        chain.adjusted_difficulty() == chain.difficulty,
{
}

impl Blockchain {
    /// A fresh chain: the genesis block, stamped with the current time and
    /// mined at difficulty 2, no pending transactions, difficulty 2.
    ///
    /// Whether mining succeeds depends on the time; see
    /// [`Blockchain::with_genesis_time`].
    pub fn new() -> (res: Result<Blockchain, LedgerError>)
        ensures
            match res {
                Ok(fresh) => {
                    &&& fresh@.chain.len() == 1
                    &&& genesis_candidate(fresh@.chain[0].timestamp).mined_as(fresh@.chain[0])
                    &&& fresh@.chain[0].is_mined()
                    &&& fresh@.mempool.len() == 0
                    &&& fresh@.difficulty == INITIAL_DIFFICULTY
                    &&& fresh@.is_sound()
                    &&& forall|address: Seq<u8>| #[trigger] fresh@.balance(address) == 0
                },
                Err(e) => e == LedgerError::NonceSpaceExhausted,
            },
    {
        Blockchain::with_genesis_time(unix_time_now())
    }

    /// A fresh chain whose genesis block carries the given timestamp. Fails
    /// exactly where no nonce solves the genesis block.
    pub fn with_genesis_time(timestamp: i64) -> (res: Result<Blockchain, LedgerError>)
        ensures
            match res {
                Ok(fresh) => {
                    &&& genesis_candidate(timestamp).mineable()
                    &&& fresh@.chain.len() == 1
                    &&& genesis_candidate(timestamp).mined_as(fresh@.chain[0])
                    &&& fresh@.chain[0].is_mined()
                    &&& fresh@.mempool.len() == 0
                    &&& fresh@.difficulty == INITIAL_DIFFICULTY
                    &&& fresh@.is_sound()
                    &&& forall|address: Seq<u8>| #[trigger] fresh@.balance(address) == 0
                },
                Err(e) => e == LedgerError::NonceSpaceExhausted && !genesis_candidate(
                    timestamp,
                ).mineable(),
            },
    {
        let mut genesis_block = Block::with_timestamp(
            0,
            timestamp,
            Vec::new(),
            "0".to_owned(),
            INITIAL_DIFFICULTY,
        );
        assert(genesis_block@.transactions =~= genesis_candidate(timestamp).transactions);
        if !genesis_block.try_mine() {
            return Err(LedgerError::NonceSpaceExhausted);
        }
        let mut chain: Vec<Block> = Vec::new();
        chain.push(genesis_block);
        let fresh = Blockchain { chain, mempool: Vec::new(), difficulty: INITIAL_DIFFICULTY };
        assert forall|address: Seq<u8>| #[trigger] fresh@.balance(address) == 0 by {
            lemma_fresh_chain_has_no_balance(fresh@, address);
        }
        Ok(fresh)
    }

    /// Whether there is a genesis block, each block's index is its place in
    /// the chain, and the difficulty is at least 1.
    pub fn is_well_formed(&self) -> (res: bool)
        ensures
            res == self@.well_formed(),
    {
        if self.chain.len() == 0 || self.difficulty < 1 {
            return false;
        }
        let mut i: usize = 0;
        while i < self.chain.len()
            invariant
                i <= self.chain@.len(),
                forall|k: int| 0 <= k < i ==> (#[trigger] self@.chain[k]).index == k,
            decreases self.chain@.len() - i,
        {
            if self.chain[i].index != i as u64 {
                assert(self@.chain[i as int].index != i);
                return false;
            }
            i += 1;
        }
        true
    }

    /// Admits a valid transaction to the end of the pool and rejects any
    /// other. Balances are not looked at.
    pub fn add_transaction(&mut self, transaction: Transaction) -> (res: Result<(), LedgerError>)
        ensures
            match res {
                Ok(()) => transaction@.is_valid() && final(self)@ == (ChainView {
                    mempool: old(self)@.mempool.push(transaction@),
                    ..old(self)@
                }),
                Err(e) => e == LedgerError::InvalidTransaction && !transaction@.is_valid()
                    && final(self)@ == old(self)@,
            },
            old(self)@.is_sound() ==> final(self)@.is_sound(),
    {
        if !transaction.is_valid() {
            return Err(LedgerError::InvalidTransaction);
        }
        self.mempool.push(transaction);
        assert(self@.mempool =~= old(self)@.mempool.push(transaction@));
        Ok(())
    }

    /// Mines the pending transactions, with a reward to the miner before
    /// them, into a new block stamped with the current time.
    ///
    /// Whether mining succeeds depends on the time; see
    /// [`Blockchain::mine_pending_at`].
    pub fn mine_pending_transactions(&mut self, miner_address: PublicKey) -> (res: Result<
        (),
        LedgerError,
    >)
        requires
            old(self)@.well_formed(),
        ensures
            match res {
                Ok(()) => {
                    let mined = final(self)@.chain.last();
                    &&& final(self)@.chain == old(self)@.chain.push(mined)
                    &&& old(self)@.candidate(miner_address@, mined.timestamp).mined_as(mined)
                    &&& mined.is_mined()
                    &&& mined.previous_hash == old(self)@.chain.last().hash
                    &&& mined.transactions == seq![reward_to(miner_address@)] + old(self)@.mempool
                    &&& final(self)@.mempool.len() == 0
                    &&& final(self)@.difficulty == old(self)@.adjusted_difficulty()
                    &&& forall|address: Seq<u8>| #[trigger]
                        final(self)@.balance(address) == old(self)@.balance(address) + batch_effect(
                            mined.transactions,
                            address,
                        )
                },
                Err(e) => e == LedgerError::NonceSpaceExhausted && final(self)@ == old(self)@,
            },
            final(self)@.well_formed(),
            old(self)@.is_sound() ==> final(self)@.is_sound(),
    {
        self.mine_pending_at(miner_address, unix_time_now())
    }

    /// Mines the pending transactions, with a reward to the miner before
    /// them, into a new block with the given timestamp: adjusts the
    /// difficulty, searches a nonce, appends the block and empties the pool.
    /// Fails, and changes nothing, exactly where no nonce solves the block.
    pub fn mine_pending_at(&mut self, miner_address: PublicKey, timestamp: i64) -> (res: Result<
        (),
        LedgerError,
    >)
        requires
            old(self)@.well_formed(),
        ensures
            match res {
                Ok(()) => {
                    let mined = final(self)@.chain.last();
                    &&& old(self)@.candidate(miner_address@, timestamp).mineable()
                    &&& final(self)@.chain == old(self)@.chain.push(mined)
                    &&& old(self)@.candidate(miner_address@, timestamp).mined_as(mined)
                    &&& mined.is_mined()
                    &&& mined.previous_hash == old(self)@.chain.last().hash
                    &&& mined.transactions == seq![reward_to(miner_address@)] + old(self)@.mempool
                    &&& final(self)@.mempool.len() == 0
                    &&& final(self)@.difficulty == old(self)@.adjusted_difficulty()
                    &&& forall|address: Seq<u8>| #[trigger]
                        final(self)@.balance(address) == old(self)@.balance(address) + batch_effect(
                            mined.transactions,
                            address,
                        )
                },
                Err(e) => {
                    &&& e == LedgerError::NonceSpaceExhausted
                    &&& !old(self)@.candidate(miner_address@, timestamp).mineable()
                    &&& final(self)@ == old(self)@
                },
            },
            final(self)@.well_formed(),
            old(self)@.is_sound() ==> final(self)@.is_sound(),
    {
        let reward_tx = Transaction::new_coinbase(miner_address, MINING_REWARD);
        let transactions_for_block = batch_for_block(reward_tx, &self.mempool);

        let difficulty_before = self.difficulty;
        self.adjust_difficulty();

        let last = self.chain.len() - 1;
        let previous_hash = self.chain[last].hash.clone();
        let mut new_block = Block::with_timestamp(
            self.chain.len() as u64,
            timestamp,
            transactions_for_block,
            previous_hash,
            self.difficulty,
        );

        if !new_block.try_mine() {
            self.difficulty = difficulty_before;
            return Err(LedgerError::NonceSpaceExhausted);
        }
        self.chain.push(new_block);
        self.mempool.clear();
        proof {
            assert(self@.chain =~= old(self)@.chain.push(new_block@));
            assert(self@.chain.drop_last() =~= old(self)@.chain);
            if old(self)@.is_sound() {
                lemma_mined_block_keeps_sound(old(self)@, self@, miner_address@);
            }
        }
        Ok(())
    }

    /// The balance of `address` over the whole chain: the amounts paid to
    /// it less the amounts paid from it. A balance that does not fit 64
    /// bits is returned in its low 64 bits.
    pub fn get_balance(&self, address: &PublicKey) -> (balance: i64)
        ensures
            balance as int == wrapped(self@.balance(address@)),
            i64::MIN <= self@.balance(address@) <= i64::MAX ==> balance as int == self@.balance(
                address@,
            ),
    {
        let ghost chain = self@.chain;
        let mut low: u64 = 0;
        let mut i: usize = 0;
        while i < self.chain.len()
            invariant
                i <= self.chain@.len(),
                chain == block_views(self.chain@),
                low as int == balance_in(chain.take(i as int), address@) % 0x1_0000_0000_0000_0000,
            decreases self.chain@.len() - i,
        {
            let block = &self.chain[i];
            let ghost before = balance_in(chain.take(i as int), address@);
            let ghost batch = chain[i as int].transactions;
            let mut j: usize = 0;
            while j < block.transactions.len()
                invariant
                    j <= block.transactions@.len(),
                    batch == transaction_views(block.transactions@),
                    low as int == (before + batch_effect(batch.take(j as int), address@))
                        % 0x1_0000_0000_0000_0000,
                decreases block.transactions@.len() - j,
            {
                let tx = &block.transactions[j];
                if tx.destination == *address {
                    low = low.wrapping_add(tx.amount);
                }
                if let Some(source) = &tx.source {
                    if *source == *address {
                        low = low.wrapping_sub(tx.amount);
                    }
                }
                proof {
                    let next = batch.take(j + 1);
                    assert(next.drop_last() =~= batch.take(j as int));
                }
                j += 1;
            }
            proof {
                assert(batch.take(batch.len() as int) =~= batch);
                let next = chain.take(i + 1);
                assert(next.drop_last() =~= chain.take(i as int));
            }
            i += 1;
        }
        assert(chain.take(chain.len() as int) =~= chain);
        if low >= 0x8000_0000_0000_0000 {
            (low - 0x8000_0000_0000_0000) as i64 + i64::MIN
        } else {
            low as i64
        }
    }

    /// Sets the difficulty at which the next block is mined, from the time
    /// that the last interval of blocks took.
    pub fn adjust_difficulty(&mut self)
        requires
            old(self)@.well_formed(),
        ensures
            final(self)@ == (ChainView {
                difficulty: old(self)@.adjusted_difficulty(),
                ..old(self)@
            }),
            final(self)@.well_formed(),
    {
        let last = self.chain.len() - 1;
        let latest_block = &self.chain[last];
        if latest_block.index > 0 && latest_block.index % DIFFICULTY_ADJUSTMENT_INTERVAL == 0 {
            let start = (latest_block.index - DIFFICULTY_ADJUSTMENT_INTERVAL) as usize;
            let interval_start_block = &self.chain[start];
            let time_taken = latest_block.timestamp as i128
                - interval_start_block.timestamp as i128;
            let expected_time = (DIFFICULTY_ADJUSTMENT_INTERVAL as i128)
                * (TARGET_BLOCK_TIME_SECS as i128);
            if time_taken < expected_time / 2 {
                if self.difficulty < usize::MAX {
                    self.difficulty += 1;
                }
            } else if time_taken > expected_time * 2 && self.difficulty > 1 {
                self.difficulty -= 1;
            }
        }
    }

    /// Whether each block after the first names the hash of the block
    /// before it and holds valid transactions only.
    pub fn is_chain_valid(&self) -> (valid: bool)
        ensures
            valid == self@.is_valid(),
    {
        let ghost chain = self@.chain;
        let mut i: usize = 1;
        while i < self.chain.len()
            invariant
                1 <= i,
                chain == block_views(self.chain@),
                forall|k: int|
                    1 <= k < i && k < chain.len() ==> (#[trigger] chain[k]).previous_hash == chain[k
                        - 1].hash,
                forall|k: int, j: int|
                    1 <= k < i && k < chain.len() && 0 <= j < chain[k].transactions.len() ==> (
                    #[trigger] chain[k].transactions[j]).is_valid(),
            decreases self.chain@.len() - i,
        {
            let current_block = &self.chain[i];
            let previous_block = &self.chain[i - 1];
            if !(current_block.previous_hash == previous_block.hash) {
                assert(self@.chain[i as int].previous_hash != self@.chain[i - 1].hash);
                return false;
            }
            let mut j: usize = 0;
            while j < current_block.transactions.len()
                invariant
                    j <= current_block.transactions@.len(),
                    1 <= i < chain.len(),
                    chain == block_views(self.chain@),
                    chain[i as int] == current_block@,
                    forall|m: int|
                        0 <= m < j ==> (#[trigger] current_block@.transactions[m]).is_valid(),
                decreases current_block.transactions@.len() - j,
            {
                if !current_block.transactions[j].is_valid() {
                    assert(!self@.chain[i as int].transactions[j as int].is_valid());
                    return false;
                }
                j += 1;
            }
            i += 1;
        }
        true
    }
}

} // verus!
