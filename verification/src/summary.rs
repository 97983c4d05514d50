//! Blocks and transactions as text for a reader.

use crate::block::{transaction_views, Block, BlockView};
use crate::canon::decimal;
use crate::clock::{
    has_date_text, rfc2822_date, rfc2822_text, FIRST_CALENDAR_SECOND, FIRST_SHOWN_SECOND,
    LAST_CALENDAR_SECOND, LAST_SHOWN_SECOND,
};
use crate::hexfmt::{encode_hex, hex_text, lemma_hex_text_is_ascii};
use crate::transaction::{PublicKey, Transaction, TransactionView};
use vstd::prelude::*;
use vstd::string::{StrSliceExecFns, StringExecFns, StringSliceAdditionalSpecFns};
use vstd::utf8::{decode_utf8, encode_utf8, encode_utf8_decode_utf8, is_char_boundary};

verus! {

/// Number of bytes that are shown of a key or a hash.
pub const SHOWN_LEN: usize = 10;

/// The decimal digits of `n` as characters.
pub open spec fn decimal_text(n: nat) -> Seq<char> {
    Seq::new(decimal(n).len(), |i: int| decimal(n)[i] as char)
}

/// The first ten bytes of a text, as text.
pub open spec fn shown_start(text: Seq<char>) -> Seq<char> {
    decode_utf8(encode_utf8(text).subrange(0, SHOWN_LEN as int))
}

/// Whether a text has ten bytes and a character ends with its tenth.
pub open spec fn can_show_start(text: Seq<char>) -> bool {
    is_char_boundary(encode_utf8(text), SHOWN_LEN as int)
}

/// What is shown of a transaction's source: the first ten digits of its
/// key, or of the words that stand for a reward.
pub open spec fn shown_source(source: Option<Seq<u8>>) -> Seq<char> {
    match source {
        Some(key) => hex_text(key).take(SHOWN_LEN as int),
        None => "COINBASE ("@,
    }
}

/// The summaries of the transactions in order, each on lines of its own.
pub open spec fn joined_summaries(transactions: Seq<TransactionView>) -> Seq<char>
    decreases transactions.len(),
{
    if transactions.len() == 0 {
        Seq::empty()
    } else if transactions.len() == 1 {
        transactions[0].summary()
    } else {
        joined_summaries(transactions.drop_last()) + "\n"@ + transactions.last().summary()
    }
}

impl TransactionView {
    /// Three lines: where the amount comes from, where it goes, and how much
    /// it is.
    pub open spec fn summary(self) -> Seq<char> {
        "  from:   "@ + shown_source(self.source) + "...\n  to:     "@ + hex_text(
            self.destination,
        ).take(SHOWN_LEN as int) + "...\n  amount: "@ + decimal_text(self.amount as nat)
    }
}

impl BlockView {
    /// Whether the block can be shown: its time can be written as a date,
    /// and the first ten bytes of either hash can be cut off.
    pub open spec fn can_be_shown(self) -> bool {
        &&& has_date_text(self.timestamp)
        &&& can_show_start(self.previous_hash)
        &&& can_show_start(self.hash)
    }

    /// The block's number, time, difficulty and transactions, the starts of
    /// both hashes, and the nonce.
    pub open spec fn summary(self) -> Seq<char> {
        "Block #"@ + decimal_text(self.index as nat) + "\n----------------\nTimestamp: "@
            + rfc2822_text(self.timestamp) + "\nDifficulty: "@ + decimal_text(
            self.difficulty as nat,
        ) + "\nTransactions:\n"@ + joined_summaries(self.transactions) + "\n\nPrev. Hash: "@
            + shown_start(self.previous_hash) + "...\n      Hash: "@ + shown_start(self.hash)
            + "...\n     Nonce: "@ + decimal_text(self.nonce as nat) + "\n"@
    }
}

/// The text of one decimal digit.
fn digit_str(d: u8) -> (s: &'static str)
    requires
        d < 10,
    ensures
        s@ == seq![(48 + d) as u8 as char],
{
    proof {
        reveal_strlit("0");
        reveal_strlit("1");
        reveal_strlit("2");
        reveal_strlit("3");
        reveal_strlit("4");
        reveal_strlit("5");
        reveal_strlit("6");
        reveal_strlit("7");
        reveal_strlit("8");
        reveal_strlit("9");
    }
    let s = if d == 0 {
        "0"
    } else if d == 1 {
        "1"
    } else if d == 2 {
        "2"
    } else if d == 3 {
        "3"
    } else if d == 4 {
        "4"
    } else if d == 5 {
        "5"
    } else if d == 6 {
        "6"
    } else if d == 7 {
        "7"
    } else if d == 8 {
        "8"
    } else {
        "9"
    };
    s
}

/// The decimal digits of `v` as text.
pub fn decimal_string(v: u64) -> (s: String)
    ensures
        s@ == decimal_text(v as nat),
    decreases v,
{
    let mut s = if v >= 10 {
        decimal_string(v / 10)
    } else {
        String::new()
    };
    s.append(digit_str((v % 10) as u8));
    s
}

/// Appends the first ten digits of a key.
fn append_key_start(out: &mut String, key: &PublicKey)
    ensures
        final(out)@ == old(out)@ + hex_text(key@).take(SHOWN_LEN as int),
{
    let text = encode_hex(key.as_bytes());
    proof {
        lemma_hex_text_is_ascii(key@);
    }
    out.append(text.as_str().substring_ascii(0, SHOWN_LEN));
}

/// Appends the first ten bytes of a text.
fn append_start(out: &mut String, text: &str)
    requires
        can_show_start(text@),
    ensures
        final(out)@ == old(out)@ + shown_start(text@),
{
    let (start, _) = text.split_at(SHOWN_LEN);
    proof {
        encode_utf8_decode_utf8(start@);
    }
    out.append(start);
}

impl Transaction {
    /// The transaction in three lines: where the amount comes from, where
    /// it goes, and how much it is.
    pub fn summary(&self) -> (text: String)
        ensures
            text@ == self@.summary(),
    {
        let mut text = "  from:   ".to_owned();
        match &self.source {
            Some(key) => append_key_start(&mut text, key),
            None => text.append("COINBASE ("),
        }
        text.append("...\n  to:     ");
        append_key_start(&mut text, &self.destination);
        text.append("...\n  amount: ");
        text.append(decimal_string(self.amount).as_str());
        text
    }
}

impl Block {
    /// Whether the block can be shown: its time can be written as a date,
    /// and the first ten bytes of either hash can be cut off.
    pub fn can_be_shown(&self) -> (res: bool)
        ensures
            res == self@.can_be_shown(),
    {
        let in_calendar = FIRST_CALENDAR_SECOND <= self.timestamp && self.timestamp
            <= LAST_CALENDAR_SECOND;
        let in_shown_years = FIRST_SHOWN_SECOND <= self.timestamp && self.timestamp
            <= LAST_SHOWN_SECOND;
        (!in_calendar || in_shown_years) && self.previous_hash.as_str().is_char_boundary(SHOWN_LEN)
            && self.hash.as_str().is_char_boundary(SHOWN_LEN)
    }

    /// The block for a reader: its number, time, difficulty and
    /// transactions, the starts of both hashes, and the nonce.
    pub fn summary(&self) -> (text: String)
        requires
            self@.can_be_shown(),
        ensures
            text@ == self@.summary(),
    {
        let ghost views = transaction_views(self.transactions@);
        let mut list = String::new();
        let mut i: usize = 0;
        while i < self.transactions.len()
            invariant
                i <= self.transactions@.len(),
                views == transaction_views(self.transactions@),
                list@ == joined_summaries(views.take(i as int)),
            decreases self.transactions@.len() - i,
        {
            if i > 0 {
                list.append("\n");
            }
            list.append(self.transactions[i].summary().as_str());
            proof {
                let next = views.take(i + 1);
                assert(next.drop_last() =~= views.take(i as int));
            }
            i += 1;
        }
        assert(views.take(views.len() as int) =~= views);

        let mut text = "Block #".to_owned();
        text.append(decimal_string(self.index).as_str());
        text.append("\n----------------\nTimestamp: ");
        text.append(rfc2822_date(self.timestamp).as_str());
        text.append("\nDifficulty: ");
        text.append(decimal_string(self.difficulty as u64).as_str());
        text.append("\nTransactions:\n");
        text.append(list.as_str());
        text.append("\n\nPrev. Hash: ");
        append_start(&mut text, self.previous_hash.as_str());
        text.append("...\n      Hash: ");
        append_start(&mut text, self.hash.as_str());
        text.append("...\n     Nonce: ");
        text.append(decimal_string(self.nonce).as_str());
        text.append("\n");
        text
    }
}

} // verus!
