use mini_blockchain::block::Block;
use mini_blockchain::blockchain::{Blockchain, MINING_REWARD};
use mini_blockchain::error::LedgerError;
use mini_blockchain::transaction::Transaction;
use mini_blockchain::wallet::{SigningKey, Wallet};

fn wallet_of(last: u8) -> Wallet {
    let mut bytes = vec![0u8; 32];
    bytes[31] = last;
    Wallet::from_signing_key(SigningKey::from_bytes(&bytes).unwrap())
}

/// A chain of `timestamps.len()` blocks with the given timestamps; the
/// blocks are linked but not mined.
fn chain_with_timestamps(timestamps: &[i64], difficulty: usize) -> Blockchain {
    let mut chain: Vec<Block> = Vec::new();
    for (i, t) in timestamps.iter().enumerate() {
        let previous = if i == 0 { "0".to_string() } else { chain[i - 1].hash.clone() };
        let mut block = Block::with_timestamp(i as u64, *t, vec![], previous, 0);
        block.mine();
        chain.push(block);
    }
    Blockchain { chain, mempool: vec![], difficulty }
}

fn evenly_spaced(count: usize, step: i64) -> Vec<i64> {
    (0..count).map(|i| 1_700_000_000 + step * i as i64).collect()
}

#[test]
fn fresh_chain_holds_a_mined_genesis_block() {
    let chain = Blockchain::new().unwrap();
    assert_eq!(chain.chain.len(), 1);
    assert!(chain.mempool.is_empty());
    assert_eq!(chain.difficulty, 2);
    let genesis = &chain.chain[0];
    assert_eq!(genesis.index, 0);
    assert!(genesis.transactions.is_empty());
    assert_eq!(genesis.previous_hash, "0");
    assert_eq!(genesis.difficulty, 2);
    assert!(genesis.hash.starts_with("00"));
    assert_eq!(genesis.hash, genesis.compute_hash());
    assert!(genesis.is_mined());
    assert!(chain.is_well_formed());
    assert!(chain.is_chain_valid());
}

#[test]
fn fresh_chain_with_a_given_time_is_always_the_same() {
    let a = Blockchain::with_genesis_time(1_700_000_000).unwrap();
    let b = Blockchain::with_genesis_time(1_700_000_000).unwrap();
    assert_eq!(a.chain[0].timestamp, 1_700_000_000);
    assert_eq!(a.chain[0].nonce, b.chain[0].nonce);
    assert_eq!(a.chain[0].hash, b.chain[0].hash);
    let mut by_hand = Block::with_timestamp(0, 1_700_000_000, vec![], "0".to_string(), 2);
    by_hand.mine();
    assert_eq!(a.chain[0].hash, by_hand.hash);
}

#[test]
fn fresh_chain_gives_every_address_the_balance_zero() {
    let chain = Blockchain::new().unwrap();
    for last in 1..6u8 {
        assert_eq!(chain.get_balance(&wallet_of(last).public_key()), 0);
    }
    assert_eq!(chain.get_balance(&Wallet::new().public_key()), 0);
}

#[test]
fn valid_transaction_joins_the_pool_at_its_end() {
    let mut chain = Blockchain::with_genesis_time(1).unwrap();
    let a = wallet_of(1);
    let b = wallet_of(2);
    assert_eq!(chain.add_transaction(Transaction::new(&a, b.public_key(), 5)), Ok(()));
    assert_eq!(chain.add_transaction(Transaction::new(&b, a.public_key(), 6)), Ok(()));
    assert_eq!(chain.mempool.len(), 2);
    assert_eq!(chain.mempool[0].amount, 5);
    assert_eq!(chain.mempool[1].amount, 6);
    assert_eq!(chain.chain.len(), 1);
    assert_eq!(chain.difficulty, 2);
}

#[test]
fn overspending_is_admitted() {
    let mut chain = Blockchain::with_genesis_time(1).unwrap();
    let a = wallet_of(1);
    let b = wallet_of(2);
    assert_eq!(chain.add_transaction(Transaction::new(&a, b.public_key(), 1_000_000)), Ok(()));
    chain.mine_pending_at(b.public_key(), 2).unwrap();
    assert_eq!(chain.get_balance(&a.public_key()), -1_000_000);
    assert_eq!(chain.get_balance(&b.public_key()), 1_000_100);
}

#[test]
fn invalid_transaction_is_rejected_and_the_pool_unchanged() {
    let mut chain = Blockchain::with_genesis_time(1).unwrap();
    let a = wallet_of(1);
    let b = wallet_of(2);
    let mut tampered = Transaction::new(&a, b.public_key(), 5);
    tampered.amount = 500;
    assert_eq!(chain.add_transaction(tampered), Err(LedgerError::InvalidTransaction));
    let mut unsigned = Transaction::new(&a, b.public_key(), 5);
    unsigned.signature = None;
    assert_eq!(chain.add_transaction(unsigned), Err(LedgerError::InvalidTransaction));
    let mut sourceless = Transaction::new(&a, b.public_key(), 5);
    sourceless.source = None;
    assert_eq!(chain.add_transaction(sourceless), Err(LedgerError::InvalidTransaction));
    assert!(chain.mempool.is_empty());
    assert_eq!(chain.chain.len(), 1);
}

#[test]
fn coinbase_may_be_submitted_like_any_valid_transaction() {
    let mut chain = Blockchain::with_genesis_time(1).unwrap();
    let a = wallet_of(1);
    assert_eq!(chain.add_transaction(Transaction::new_coinbase(a.public_key(), 7)), Ok(()));
    assert_eq!(chain.mempool.len(), 1);
}

#[test]
fn mining_appends_one_block_and_empties_the_pool() {
    let mut chain = Blockchain::new().unwrap();
    let miner = wallet_of(1);
    let a = wallet_of(2);
    let b = wallet_of(3);
    chain.add_transaction(Transaction::new(&a, b.public_key(), 5)).unwrap();
    chain.add_transaction(Transaction::new(&b, a.public_key(), 6)).unwrap();
    let last_hash = chain.chain[0].hash.clone();
    assert_eq!(chain.mine_pending_transactions(miner.public_key()), Ok(()));
    assert!(chain.mempool.is_empty());
    assert_eq!(chain.chain.len(), 2);
    let block = &chain.chain[1];
    assert_eq!(block.index, 1);
    assert_eq!(block.previous_hash, last_hash);
    assert_eq!(block.difficulty, 2);
    assert!(block.is_mined());
    assert!(block.hash.starts_with("00"));
    assert_eq!(block.transactions.len(), 3);
    assert!(block.transactions[0].source.is_none());
    assert!(block.transactions[0].signature.is_none());
    assert_eq!(block.transactions[0].destination, miner.public_key());
    assert_eq!(block.transactions[0].amount, MINING_REWARD);
    assert_eq!(block.transactions[0].amount, 100);
    assert_eq!(block.transactions[1].amount, 5);
    assert_eq!(block.transactions[2].amount, 6);
    assert!(chain.is_chain_valid());
    assert!(chain.is_well_formed());
}

#[test]
fn mining_an_empty_pool_still_makes_a_block_with_the_reward() {
    let mut chain = Blockchain::with_genesis_time(10).unwrap();
    let miner = wallet_of(1);
    chain.mine_pending_at(miner.public_key(), 20).unwrap();
    chain.mine_pending_at(miner.public_key(), 30).unwrap();
    assert_eq!(chain.chain.len(), 3);
    assert_eq!(chain.chain[1].transactions.len(), 1);
    assert_eq!(chain.chain[2].transactions.len(), 1);
    assert_eq!(chain.chain[1].timestamp, 20);
    assert_eq!(chain.chain[2].timestamp, 30);
    assert_eq!(chain.chain[2].previous_hash, chain.chain[1].hash);
    assert_eq!(chain.get_balance(&miner.public_key()), 200);
}

#[test]
fn mining_at_a_given_time_is_always_the_same() {
    let miner = wallet_of(1);
    let mut a = Blockchain::with_genesis_time(10).unwrap();
    let mut b = Blockchain::with_genesis_time(10).unwrap();
    a.mine_pending_at(miner.public_key(), 20).unwrap();
    b.mine_pending_at(miner.public_key(), 20).unwrap();
    assert_eq!(a.chain[1].hash, b.chain[1].hash);
    assert_eq!(a.chain[1].nonce, b.chain[1].nonce);
}

#[test]
fn balances_follow_rewards_and_transfers() {
    let mut chain = Blockchain::new().unwrap();
    let a = wallet_of(1);
    let b = wallet_of(2);
    assert_eq!(chain.get_balance(&a.public_key()), 0);
    chain.mine_pending_transactions(a.public_key()).unwrap();
    assert_eq!(chain.get_balance(&a.public_key()), 100);
    assert_eq!(chain.get_balance(&b.public_key()), 0);
    chain.add_transaction(Transaction::new(&a, b.public_key(), 40)).unwrap();
    assert_eq!(chain.get_balance(&a.public_key()), 100);
    assert_eq!(chain.get_balance(&b.public_key()), 0);
    chain.mine_pending_transactions(a.public_key()).unwrap();
    assert_eq!(chain.get_balance(&a.public_key()), 160);
    assert_eq!(chain.get_balance(&b.public_key()), 40);
}

#[test]
fn paying_oneself_changes_nothing() {
    let mut chain = Blockchain::with_genesis_time(1).unwrap();
    let a = wallet_of(1);
    let miner = wallet_of(2);
    chain.add_transaction(Transaction::new(&a, a.public_key(), u64::MAX)).unwrap();
    chain.mine_pending_at(miner.public_key(), 2).unwrap();
    assert_eq!(chain.get_balance(&a.public_key()), 0);
    assert_eq!(chain.get_balance(&miner.public_key()), 100);
}

#[test]
fn balance_counts_transactions_of_the_genesis_block_too() {
    let a = wallet_of(1);
    let b = wallet_of(2);
    let transfer = Transaction::new(&a, b.public_key(), 3);
    let genesis = Block::with_timestamp(0, 1, vec![transfer], "0".to_string(), 0);
    let chain = Blockchain { chain: vec![genesis], mempool: vec![], difficulty: 2 };
    assert_eq!(chain.get_balance(&a.public_key()), -3);
    assert_eq!(chain.get_balance(&b.public_key()), 3);
}

#[test]
fn balance_that_does_not_fit_is_given_in_its_low_bits() {
    let a = wallet_of(1);
    let b = wallet_of(2);
    let big = Transaction::new(&a, b.public_key(), 1u64 << 63);
    let block = Block::with_timestamp(0, 1, vec![big.clone()], "0".to_string(), 0);
    let chain = Blockchain { chain: vec![block], mempool: vec![], difficulty: 2 };
    assert_eq!(chain.get_balance(&a.public_key()), i64::MIN);
    assert_eq!(chain.get_balance(&b.public_key()), i64::MIN);
    let more = Transaction::new(&a, b.public_key(), (1u64 << 63) - 1);
    let block = Block::with_timestamp(0, 1, vec![more.clone(), more], "0".to_string(), 0);
    let chain = Blockchain { chain: vec![block], mempool: vec![], difficulty: 2 };
    assert_eq!(chain.get_balance(&b.public_key()), -2);
    assert_eq!(chain.get_balance(&a.public_key()), 2);
}

#[test]
fn chain_made_by_mining_and_adding_is_valid() {
    let mut chain = Blockchain::new().unwrap();
    let a = wallet_of(1);
    let b = wallet_of(2);
    assert!(chain.is_chain_valid());
    for round in 0..4u64 {
        chain.add_transaction(Transaction::new(&a, b.public_key(), round)).unwrap();
        assert!(chain.is_chain_valid());
        chain.add_transaction(Transaction::new(&b, a.public_key(), round + 1)).unwrap();
        chain.mine_pending_transactions(a.public_key()).unwrap();
        assert!(chain.is_chain_valid());
        assert!(chain.is_well_formed());
    }
    assert_eq!(chain.chain.len(), 5);
    for i in 1..chain.chain.len() {
        assert_eq!(chain.chain[i].previous_hash, chain.chain[i - 1].hash);
        assert_eq!(chain.chain[i].index, i as u64);
    }
}

#[test]
fn changed_previous_hash_makes_the_chain_invalid() {
    let miner = wallet_of(1);
    for victim in 1..4usize {
        let mut chain = Blockchain::with_genesis_time(1).unwrap();
        for t in 2..5 {
            chain.mine_pending_at(miner.public_key(), t).unwrap();
        }
        assert!(chain.is_chain_valid());
        chain.chain[victim].previous_hash = "unrelated".to_string();
        assert!(!chain.is_chain_valid());
    }
}

#[test]
fn changed_hash_breaks_the_link_of_the_next_block() {
    let miner = wallet_of(1);
    let mut chain = Blockchain::with_genesis_time(1).unwrap();
    chain.mine_pending_at(miner.public_key(), 2).unwrap();
    chain.mine_pending_at(miner.public_key(), 3).unwrap();
    chain.chain[1].hash = "00changed".to_string();
    assert!(!chain.is_chain_valid());
}

#[test]
fn previous_hash_of_the_genesis_block_is_not_looked_at() {
    let miner = wallet_of(1);
    let mut chain = Blockchain::with_genesis_time(1).unwrap();
    chain.mine_pending_at(miner.public_key(), 2).unwrap();
    chain.chain[0].previous_hash = "unrelated".to_string();
    assert!(chain.is_chain_valid());
}

#[test]
fn invalid_transaction_in_a_block_makes_the_chain_invalid() {
    let miner = wallet_of(1);
    let a = wallet_of(2);
    let mut chain = Blockchain::with_genesis_time(1).unwrap();
    chain.add_transaction(Transaction::new(&a, miner.public_key(), 5)).unwrap();
    chain.mine_pending_at(miner.public_key(), 2).unwrap();
    assert!(chain.is_chain_valid());
    chain.chain[1].transactions[1].amount = 6;
    assert!(!chain.is_chain_valid());
}

#[test]
fn transactions_of_the_genesis_block_are_not_looked_at() {
    let a = wallet_of(1);
    let b = wallet_of(2);
    let mut forged = Transaction::new(&a, b.public_key(), 3);
    forged.amount = 4;
    assert!(!forged.is_valid());
    let genesis = Block::with_timestamp(0, 1, vec![forged], "0".to_string(), 0);
    let chain = Blockchain { chain: vec![genesis], mempool: vec![], difficulty: 2 };
    assert!(chain.is_chain_valid());
}

#[test]
fn hashes_are_not_computed_again() {
    let miner = wallet_of(1);
    let mut chain = Blockchain::with_genesis_time(1).unwrap();
    chain.mine_pending_at(miner.public_key(), 2).unwrap();
    chain.chain[1].timestamp = 999;
    assert!(!chain.chain[1].is_mined());
    assert!(chain.is_chain_valid());
}

#[test]
fn chain_without_blocks_is_valid_but_not_well_formed() {
    let chain = Blockchain { chain: vec![], mempool: vec![], difficulty: 2 };
    assert!(chain.is_chain_valid());
    assert!(!chain.is_well_formed());
    assert_eq!(chain.get_balance(&wallet_of(1).public_key()), 0);
}

#[test]
fn well_formed_asks_for_indices_in_order_and_a_difficulty() {
    let mut chain = chain_with_timestamps(&evenly_spaced(3, 30), 2);
    assert!(chain.is_well_formed());
    chain.difficulty = 0;
    assert!(!chain.is_well_formed());
    chain.difficulty = 1;
    assert!(chain.is_well_formed());
    chain.chain[2].index = 5;
    assert!(!chain.is_well_formed());
}

#[test]
fn ten_blocks_mined_at_once_raise_the_difficulty_by_one() {
    let mut chain = chain_with_timestamps(&evenly_spaced(11, 0), 2);
    chain.adjust_difficulty();
    assert_eq!(chain.difficulty, 3);
}

#[test]
fn difficulty_is_raised_at_block_ten_and_not_before() {
    let miner = wallet_of(1);
    let mut chain = Blockchain::with_genesis_time(1_700_000_000).unwrap();
    for i in 1..=10 {
        chain.mine_pending_at(miner.public_key(), 1_700_000_000 + i).unwrap();
        assert_eq!(chain.difficulty, 2);
        assert_eq!(chain.chain[i as usize].difficulty, 2);
    }
    chain.mine_pending_at(miner.public_key(), 1_700_000_011).unwrap();
    assert_eq!(chain.difficulty, 3);
    assert_eq!(chain.chain[11].difficulty, 3);
    assert!(chain.chain[11].hash.starts_with("000"));
    chain.mine_pending_at(miner.public_key(), 1_700_000_012).unwrap();
    assert_eq!(chain.difficulty, 3);
    assert!(chain.is_chain_valid());
}

#[test]
fn a_very_long_interval_lowers_the_difficulty_by_one() {
    let mut chain = chain_with_timestamps(&evenly_spaced(11, 1000), 3);
    chain.adjust_difficulty();
    assert_eq!(chain.difficulty, 2);
    chain.adjust_difficulty();
    assert_eq!(chain.difficulty, 1);
    chain.adjust_difficulty();
    assert_eq!(chain.difficulty, 1);
}

#[test]
fn a_mined_block_carries_the_lowered_difficulty() {
    let miner = wallet_of(1);
    let mut chain = chain_with_timestamps(&evenly_spaced(11, 1000), 2);
    chain.mine_pending_at(miner.public_key(), 1_700_020_000).unwrap();
    assert_eq!(chain.difficulty, 1);
    assert_eq!(chain.chain[11].difficulty, 1);
    assert!(chain.chain[11].hash.starts_with('0'));
}

#[test]
fn difficulty_changes_only_beyond_half_and_twice_the_expected_time() {
    let cases: [(i64, usize); 6] = [(149, 3), (150, 2), (151, 2), (600, 2), (601, 1), (300, 2)];
    for (elapsed, expected) in cases {
        let mut timestamps = vec![1_700_000_000i64; 11];
        timestamps[10] = 1_700_000_000 + elapsed;
        let mut chain = chain_with_timestamps(&timestamps, 2);
        chain.adjust_difficulty();
        assert_eq!(chain.difficulty, expected, "elapsed {}", elapsed);
    }
}

#[test]
fn time_is_measured_from_the_block_one_interval_back() {
    let mut timestamps = evenly_spaced(21, 1000);
    for t in timestamps.iter_mut().skip(10) {
        *t = 1_700_000_000 + 10_000;
    }
    let mut chain = chain_with_timestamps(&timestamps, 2);
    chain.adjust_difficulty();
    assert_eq!(chain.difficulty, 3);
}

#[test]
fn difficulty_is_unchanged_away_from_an_adjustment() {
    for count in [1usize, 2, 5, 10, 12, 20] {
        let mut chain = chain_with_timestamps(&evenly_spaced(count, 0), 2);
        chain.adjust_difficulty();
        assert_eq!(chain.difficulty, 2, "{} blocks", count);
    }
}

#[test]
fn clocks_that_run_backwards_count_as_fast() {
    let mut chain = chain_with_timestamps(&evenly_spaced(11, -50), 2);
    chain.adjust_difficulty();
    assert_eq!(chain.difficulty, 3);
    let mut timestamps = vec![i64::MAX; 11];
    timestamps[10] = i64::MIN;
    let mut chain = chain_with_timestamps(&timestamps, 2);
    chain.adjust_difficulty();
    assert_eq!(chain.difficulty, 3);
    timestamps[0] = i64::MIN;
    timestamps[10] = i64::MAX;
    let mut chain = chain_with_timestamps(&timestamps, 2);
    chain.adjust_difficulty();
    assert_eq!(chain.difficulty, 1);
}

#[test]
fn difficulty_does_not_rise_beyond_what_fits() {
    let mut chain = chain_with_timestamps(&evenly_spaced(11, 0), usize::MAX);
    chain.adjust_difficulty();
    assert_eq!(chain.difficulty, usize::MAX);
}
