//! Blocks and the proof-of-work search.

use crate::canon::{decimal, push_decimal, push_quoted, push_signed_decimal, quoted, signed_decimal};
use crate::clock::unix_time_now;
use crate::hexfmt::{encode_hex, has_leading_zeros, hex_starts_with_zeros, hex_text};
use crate::sha::{sha256, sha256_digest};
use crate::transaction::{Transaction, TransactionView};
use vstd::prelude::*;
use vstd::utf8::encode_utf8;

verus! {

/// What a list of transactions says, one view for each, in order.
pub open spec fn transaction_views(transactions: Seq<Transaction>) -> Seq<TransactionView> {
    Seq::new(transactions.len(), |i: int| transactions[i]@)
}

/// The objects of the transactions in order, with a comma between
/// neighbours.
pub open spec fn joined_json(transactions: Seq<TransactionView>) -> Seq<u8>
    decreases transactions.len(),
{
    if transactions.len() == 0 {
        Seq::empty()
    } else if transactions.len() == 1 {
        transactions[0].json()
    } else {
        joined_json(transactions.drop_last()) + seq![',' as u8] + transactions.last().json()
    }
}

/// The array of the transactions' objects.
pub open spec fn transactions_json(transactions: Seq<TransactionView>) -> Seq<u8> {
    seq!['[' as u8] + joined_json(transactions) + seq![']' as u8]
}

/// What a block says.
pub struct BlockView {
    pub index: u64,
    pub timestamp: i64,
    pub transactions: Seq<TransactionView>,
    pub previous_hash: Seq<char>,
    pub hash: Seq<char>,
    pub nonce: u64,
    pub difficulty: usize,
}

impl BlockView {
    /// The part of the hashed text that stands before the nonce: index,
    /// timestamp, transactions and previous hash.
    pub open spec fn text_before_nonce(self) -> Seq<u8> {
        seq!['[' as u8] + decimal(self.index as nat) + seq![',' as u8] + signed_decimal(
            self.timestamp as int,
        ) + seq![',' as u8] + transactions_json(self.transactions) + seq![',' as u8] + quoted(
            encode_utf8(self.previous_hash),
        ) + seq![',' as u8]
    }

    /// The part of the hashed text that stands after the nonce: the
    /// difficulty.
    pub open spec fn text_after_nonce(self) -> Seq<u8> {
        seq![',' as u8] + decimal(self.difficulty as nat) + seq![']' as u8]
    }

    /// The text that the block's hash is taken over: the array of index,
    /// timestamp, transactions, previous hash, nonce and difficulty, in this
    /// order. The hash itself is no part of it.
    pub open spec fn hashed_text(self) -> Seq<u8> {
        self.text_before_nonce() + decimal(self.nonce as nat) + self.text_after_nonce()
    }

    /// The hash that the block's contents give: the SHA-256 digest of the
    /// hashed text, in hexadecimal.
    pub open spec fn computed_hash(self) -> Seq<char> {
        hex_text(sha256_digest(self.hashed_text()))
    }

    /// The same block with another nonce.
    pub open spec fn with_nonce(self, nonce: u64) -> BlockView {
        BlockView { nonce, ..self }
    }

    /// Whether `nonce` gives the block a hash that starts with as many
    /// zeros as the difficulty asks for.
    pub open spec fn solved_by(self, nonce: u64) -> bool {
        has_leading_zeros(self.with_nonce(nonce).computed_hash(), self.difficulty as nat)
    }

    /// Whether some nonce from the block's own upwards solves it.
    pub open spec fn mineable(self) -> bool {
        exists|nonce: u64| self.nonce <= nonce && #[trigger] self.solved_by(nonce)
    }

    /// Whether the stored hash is the hash of the contents and meets the
    /// difficulty.
    pub open spec fn is_mined(self) -> bool {
        &&& self.hash == self.computed_hash()
        &&& has_leading_zeros(self.hash, self.difficulty as nat)
    }

    /// Whether `nonce` is the first nonce, from the block's own upwards,
    /// that solves it.
    pub open spec fn first_solved_by(self, nonce: u64) -> bool {
        &&& self.nonce <= nonce
        &&& self.solved_by(nonce)
        &&& forall|n: u64| self.nonce <= n < nonce ==> !#[trigger] self.solved_by(n)
    }

    /// Whether `mined` is what mining makes of this block: the same block
    /// with the first nonce that solves it, and with the hash that this
    /// nonce gives.
    pub open spec fn mined_as(self, mined: BlockView) -> bool {
        &&& self.first_solved_by(mined.nonce)
        &&& mined == self.mined_with(mined.nonce)
    }

    /// The block as mining leaves it when it commits `nonce`.
    pub open spec fn mined_with(self, nonce: u64) -> BlockView {
        BlockView { nonce, hash: self.with_nonce(nonce).computed_hash(), ..self }
    }
}

/// A batch of transactions, linked to the block before it by that block's
/// hash.
#[derive(Debug)]
pub struct Block {
    pub index: u64,
    pub timestamp: i64,
    pub transactions: Vec<Transaction>,
    pub previous_hash: String,
    pub hash: String,
    pub nonce: u64,
    pub difficulty: usize,
}

impl View for Block {
    type V = BlockView;

    open spec fn view(&self) -> BlockView {
        BlockView {
            index: self.index,
            timestamp: self.timestamp,
            transactions: transaction_views(self.transactions@),
            previous_hash: self.previous_hash@,
            hash: self.hash@,
            nonce: self.nonce,
            difficulty: self.difficulty,
        }
    }
}

/// Appends every byte of `bytes`.
fn push_all(out: &mut Vec<u8>, bytes: &[u8])
    ensures
        final(out)@ == old(out)@ + bytes@,
{
    let mut i: usize = 0;
    while i < bytes.len()
        invariant
            i <= bytes@.len(),
            out@ == old(out)@ + bytes@.take(i as int),
        decreases bytes@.len() - i,
    {
        out.push(bytes[i]);
        i += 1;
    }
}

/// Appends the array of the transactions' objects.
fn push_transactions(out: &mut Vec<u8>, transactions: &Vec<Transaction>)
    ensures
        final(out)@ == old(out)@ + transactions_json(transaction_views(transactions@)),
{
    let ghost views = transaction_views(transactions@);
    out.push('[' as u8);
    let mut i: usize = 0;
    while i < transactions.len()
        invariant
            i <= transactions@.len(),
            views == transaction_views(transactions@),
            out@ == old(out)@ + seq!['[' as u8] + joined_json(views.take(i as int)),
        decreases transactions@.len() - i,
    {
        if i > 0 {
            out.push(',' as u8);
        }
        transactions[i].push_json(out);
        proof {
            let next = views.take(i + 1);
            assert(next.drop_last() =~= views.take(i as int));
        }
        i += 1;
    }
    out.push(']' as u8);
    proof {
        assert(views.take(views.len() as int) =~= views);
    }
}

impl Block {
    /// An unmined block stamped with the current time: no hash, nonce 0.
    pub fn new(
        index: u64,
        transactions: Vec<Transaction>,
        previous_hash: String,
        difficulty: usize,
    ) -> (block: Block)
        ensures
            block@ == (BlockView {
                index,
                timestamp: block@.timestamp,
                transactions: transaction_views(transactions@),
                previous_hash: previous_hash@,
                hash: Seq::empty(),
                nonce: 0,
                difficulty,
            }),
    {
        Block::with_timestamp(index, unix_time_now(), transactions, previous_hash, difficulty)
    }

    /// An unmined block with a given timestamp: no hash, nonce 0.
    pub fn with_timestamp(
        index: u64,
        timestamp: i64,
        transactions: Vec<Transaction>,
        previous_hash: String,
        difficulty: usize,
    ) -> (block: Block)
        ensures
            block@ == (BlockView {
                index,
                timestamp,
                transactions: transaction_views(transactions@),
                previous_hash: previous_hash@,
                hash: Seq::empty(),
                nonce: 0,
                difficulty,
            }),
    {
        Block {
            index,
            timestamp,
            transactions,
            previous_hash,
            hash: String::new(),
            nonce: 0,
            difficulty,
        }
    }

    /// Appends the part of the hashed text that stands before the nonce.
    fn push_text_before_nonce(&self, out: &mut Vec<u8>)
        ensures
            final(out)@ == old(out)@ + self@.text_before_nonce(),
    {
        out.push('[' as u8);
        push_decimal(out, self.index);
        out.push(',' as u8);
        push_signed_decimal(out, self.timestamp);
        out.push(',' as u8);
        push_transactions(out, &self.transactions);
        out.push(',' as u8);
        push_quoted(out, self.previous_hash.as_str().as_bytes());
        out.push(',' as u8);
    }

    /// Appends the part of the hashed text that stands after the nonce.
    fn push_text_after_nonce(&self, out: &mut Vec<u8>)
        ensures
            final(out)@ == old(out)@ + self@.text_after_nonce(),
    {
        out.push(',' as u8);
        push_decimal(out, self.difficulty as u64);
        out.push(']' as u8);
    }

    /// The text that the block's hash is taken over.
    pub fn prepare_hash_data(&self) -> (text: Vec<u8>)
        ensures
            text@ == self@.hashed_text(),
    {
        let mut text: Vec<u8> = Vec::new();
        self.push_text_before_nonce(&mut text);
        push_decimal(&mut text, self.nonce);
        self.push_text_after_nonce(&mut text);
        text
    }

    /// The hash that the block's contents give, whatever hash is stored.
    pub fn compute_hash(&self) -> (hash: String)
        ensures
            hash@ == self@.computed_hash(),
    {
        let text = self.prepare_hash_data();
        let digest = sha256(text.as_slice());
        encode_hex(digest.as_slice())
    }

    /// Whether the stored hash is the hash of the contents and starts with
    /// as many zeros as the difficulty asks for.
    pub fn is_mined(&self) -> (res: bool)
        ensures
            res == self@.is_mined(),
    {
        let text = self.prepare_hash_data();
        let digest = sha256(text.as_slice());
        let hash = encode_hex(digest.as_slice());
        hash == self.hash && hex_starts_with_zeros(digest.as_slice(), self.difficulty)
    }

    /// Searches the nonces from the block's own upwards, in order, for the
    /// first whose hash meets the difficulty. Returns that nonce with its
    /// hash, or `None` where no nonce up to the largest solves the block.
    fn find_nonce(&self) -> (found: Option<(u64, String)>)
        ensures
            match found {
                Some((nonce, hash)) => {
                    &&& self@.first_solved_by(nonce)
                    &&& hash@ == self@.with_nonce(nonce).computed_hash()
                },
                None => !self@.mineable(),
            },
    {
        let mut text: Vec<u8> = Vec::new();
        self.push_text_before_nonce(&mut text);
        let head_len = text.len();
        let mut tail: Vec<u8> = Vec::new();
        self.push_text_after_nonce(&mut tail);
        let ghost head = text@;
        let mut nonce = self.nonce;
        loop
            invariant
                self.nonce <= nonce,
                head == self@.text_before_nonce(),
                head_len == head.len(),
                tail@ == self@.text_after_nonce(),
                text@.len() >= head_len,
                text@.take(head_len as int) == head,
                forall|n: u64| self.nonce <= n < nonce ==> !#[trigger] self@.solved_by(n),
            decreases u64::MAX - nonce,
        {
            text.truncate(head_len);
            push_decimal(&mut text, nonce);
            push_all(&mut text, tail.as_slice());
            let digest = sha256(text.as_slice());
            if hex_starts_with_zeros(digest.as_slice(), self.difficulty) {
                return Some((nonce, encode_hex(digest.as_slice())));
            }
            if nonce == u64::MAX {
                return None;
            }
            nonce += 1;
        }
    }

    /// Proof-of-work: commits the first nonce, from the block's own
    /// upwards, whose hash starts with as many zeros as the difficulty asks
    /// for, together with that hash. At difficulty 0 this is the block's own
    /// nonce.
    ///
    /// Some nonce up to the largest must solve the block; see
    /// [`Block::try_mine`] for a search that reports whether one does.
    pub fn mine(&mut self)
        requires
            old(self)@.mineable(),
        ensures
            old(self)@.mined_as(final(self)@),
            final(self)@.is_mined(),
            old(self)@.difficulty == 0 ==> final(self)@.nonce == old(self)@.nonce,
    {
        if let Some((nonce, hash)) = self.find_nonce() {
            proof {
                if self.difficulty == 0 && self.nonce < nonce {
                    assert(self@.solved_by(self.nonce));
                }
            }
            self.nonce = nonce;
            self.hash = hash;
        }
    }

    /// Proof-of-work where it is possible: mines the block and returns
    /// `true`, or returns `false` and leaves the block as it was where no
    /// nonce from the block's own up to the largest solves it. At
    /// difficulty 0 every nonce solves the block.
    pub fn try_mine(&mut self) -> (found: bool)
        ensures
            found <==> old(self)@.mineable(),
            found ==> old(self)@.mined_as(final(self)@) && final(self)@.is_mined(),
            !found ==> final(self)@ == old(self)@,
            old(self)@.difficulty == 0 ==> found && final(self)@.nonce == old(self)@.nonce,
    {
        match self.find_nonce() {
            Some((nonce, _)) => {
                proof {
                    if self.difficulty == 0 && self.nonce < nonce {
                        assert(self@.solved_by(self.nonce));
                    }
                }
                self.nonce = nonce;
                assert(self@.solved_by(nonce));
                self.mine();
                true
            },
            None => {
                proof {
                    if self.difficulty == 0 {
                        assert(self@.solved_by(self.nonce));
                    }
                }
                false
            },
        }
    }
}

impl Clone for Block {
    fn clone(&self) -> (res: Self)
        ensures
            res@ == self@,
    {
        let mut transactions: Vec<Transaction> = Vec::new();
        let mut i: usize = 0;
        while i < self.transactions.len()
            invariant
                i <= self.transactions@.len(),
                transactions@.len() == i,
                transaction_views(transactions@) == transaction_views(self.transactions@).take(
                    i as int,
                ),
            decreases self.transactions@.len() - i,
        {
            transactions.push(self.transactions[i].clone());
            i += 1;
        }
        assert(transaction_views(transactions@) =~= transaction_views(self.transactions@));
        Block {
            index: self.index,
            timestamp: self.timestamp,
            transactions,
            previous_hash: self.previous_hash.clone(),
            hash: self.hash.clone(),
            nonce: self.nonce,
            difficulty: self.difficulty,
        }
    }
}

} // verus!
