//! The user's persisted identity: a seed phrase and the index of the last
//! trade, from which each trade gets a fresh key.

use vstd::prelude::*;

verus! {

/// The user as stored: the identity public key, the seed phrase, the index of
/// the last trade key handed out, if any, and when the record was made.
#[derive(Clone, Debug)]
pub struct User {
    pub i0_pubkey: String,
    pub mnemonic: String,
    pub last_trade_index: Option<i64>,
    pub created_at: i64,
}

/// The index of the next trade: one past the last, or 1 when there was none;
/// `None` where that does not fit.
pub open spec fn next_index_after(last: Option<i64>) -> Option<i64> {
    let n = match last {
        Some(i) => i + 1,
        None => 1,
    };
    if n <= i64::MAX {
        Some(n as i64)
    } else {
        None
    }
}

impl User {
    pub fn set_mnemonic(&mut self, mnemonic: String)
        ensures
            final(self).mnemonic == mnemonic,
            final(self).i0_pubkey == old(self).i0_pubkey,
            final(self).last_trade_index == old(self).last_trade_index,
            final(self).created_at == old(self).created_at,
    {
        self.mnemonic = mnemonic;
    }

    pub fn set_last_trade_index(&mut self, last_trade_index: i64)
        ensures
            final(self).last_trade_index == Some(last_trade_index),
            final(self).i0_pubkey == old(self).i0_pubkey,
            final(self).mnemonic == old(self).mnemonic,
            final(self).created_at == old(self).created_at,
    {
        self.last_trade_index = Some(last_trade_index);
    }

    /// The index of the last trade, 0 before the first.
    pub fn get_last_trade_index(&self) -> (r: i64)
        ensures
            r == match self.last_trade_index {
                Some(i) => i,
                None => 0,
            },
    {
        match self.last_trade_index {
            Some(i) => i,
            None => 0,
        }
    }

    /// The index of the next trade.
    pub fn get_next_trade_index(&self) -> (r: Option<i64>)
        ensures
            r == next_index_after(self.last_trade_index),
    {
        let last = self.get_last_trade_index();
        if last < i64::MAX {
            Some(last + 1)
        } else {
            None
        }
    }
}

/// The derivation index of the key of trade `index`: a trade index is never
/// negative, and a key index is 32 bits wide.
pub fn trade_key_index(index: i64) -> (r: Option<u32>)
    ensures
        r == (if 0 <= index <= u32::MAX {
            Some(index as u32)
        } else {
            None::<u32>
        }),
{
    if index < 0 || index > u32::MAX as i64 {
        None
    } else {
        Some(index as u32)
    }
}

} // verus!
