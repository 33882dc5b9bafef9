//! The logic that runs on chain when the program is invoked.
//!
//! The program expects one account that it owns and no instruction data.  It
//! reads the record stored in the account, adds one to its counter and writes
//! the record back.

use crate::address::same_address;
use crate::address::Address;
use crate::error::Error;
use crate::schema::decode_counter;
use crate::schema::decoded;
use crate::schema::encode_counter;
use crate::schema::encoded;
use crate::schema::lemma_decode_encode;
use crate::schema::GreetingAccount;
use vstd::prelude::*;

verus! {

/// An account as the program sees it: who owns it and what it stores.
#[derive(Clone, Debug, PartialEq, Eq)]
pub struct Account {
    /// The program that may change the account's data.
    pub owner: Address,
    /// The bytes stored in the account.
    pub data: Vec<u8>,
}

/// An account as plain values.
pub struct AccountView {
    pub owner: Seq<u8>,
    pub data: Seq<u8>,
}

impl View for Account {
    type V = AccountView;

    open spec fn view(&self) -> AccountView {
        AccountView { owner: self.owner@, data: self.data@ }
    }
}

/// A list of accounts as plain values.
pub open spec fn views(accounts: Seq<Account>) -> Seq<AccountView> {
    accounts.map_values(|account: Account| account@)
}

/// The counter after one more greeting.  It starts over at zero once it has
/// reached the largest 32-bit number.
pub open spec fn next_counter(counter: u32) -> u32 {
    if counter == u32::MAX {
        0
    } else {
        (counter + 1) as u32
    }
}

/// What one invocation makes of the accounts handed to it: the accounts
/// afterwards, or the reason why nothing was changed.  Only the first account
/// is looked at.
pub open spec fn processed(program_id: Seq<u8>, accounts: Seq<AccountView>) -> Result<
    Seq<AccountView>,
    Error,
> {
    if accounts.len() == 0 {
        Err(Error::NotEnoughAccountKeys)
    } else if accounts[0].owner != program_id {
        Err(Error::OwnershipMismatchError)
    } else {
        match decoded(accounts[0].data) {
            Ok(counter) => Ok(
                accounts.update(
                    0,
                    AccountView { owner: accounts[0].owner, data: encoded(next_counter(counter)) },
                ),
            ),
            Err(error) => Err(error),
        }
    }
}

/// Runs the program once.  The first account must be owned by the program
/// and hold an encoded record; its counter is then raised by one.  On any
/// error the accounts are left as they were.  The instruction data is not
/// read.
pub fn process_instruction(
    program_id: &Address,
    accounts: &mut Vec<Account>,
    instruction_data: &[u8],
) -> (r: Result<(), Error>)
    ensures
        final(accounts)@.len() == old(accounts)@.len(),
        match processed(program_id@, views(old(accounts)@)) {
            Ok(after) => r is Ok && views(final(accounts)@) == after,
            Err(error) => r == Err::<(), Error>(error) && final(accounts)@ == old(accounts)@,
        },
        old(accounts)@.len() > 0 && old(accounts)@[0].owner@ != program_id@ ==> r == Err::<
            (),
            Error,
        >(Error::OwnershipMismatchError) && final(accounts)@ == old(accounts)@,
        r is Ok ==> decoded(final(accounts)@[0].data@) == Ok::<u32, Error>(
            next_counter(decoded(old(accounts)@[0].data@)->Ok_0),
        ),
{
    if accounts.len() == 0 {
        return Err(Error::NotEnoughAccountKeys);
    }
    if !same_address(&accounts[0].owner, program_id) {
        return Err(Error::OwnershipMismatchError);
    }
    let mut greeting = match decode_counter(accounts[0].data.as_slice()) {
        Ok(counter) => GreetingAccount { counter },
        Err(error) => {
            return Err(error);
        },
    };
    greeting.counter = greeting.counter.wrapping_add(1);
    accounts[0].data = encode_counter(greeting.counter);
    proof {
        assert(views(accounts@) =~= processed(program_id@, views(old(accounts)@))->Ok_0);
        lemma_decode_encode(greeting.counter);
    }
    Ok(())
}

} // verus!
