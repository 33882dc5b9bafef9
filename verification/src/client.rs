//! What the client computes between its requests to the network: how much
//! the payer must hold, where to connect, and the instructions that create
//! the greeting account and send a greeting.

use crate::address::derived_address;
use crate::address::Address;
use crate::error::ConfigFault;
use crate::error::ConfigField;
use crate::error::Error;
use crate::schema::RECORD_SIZE;
use crate::utils::get_greeting_public_key;
use crate::utils::get_greeting_seed;
use crate::utils::get_rpc_url;
use crate::utils::greeting_seed;
use crate::utils::Config;
use solana_program::pubkey::Pubkey;
use solana_program::system_instruction;
use vstd::prelude::*;
use vstd::utf8::encode_utf8;

verus! {

/// How many signature fees the payer must be able to afford on top of the
/// rent-exempt minimum of the greeting account.
pub const FEE_MULTIPLIER: u64 = 100;

/// How final a transaction must be before the node reports it.
#[derive(Clone, Copy, Debug, PartialEq, Eq, Structural)]
pub enum Commitment {
    Processed,
    Confirmed,
    Finalized,
}

/// Where to connect and at which commitment level.
#[derive(Clone, Debug, PartialEq, Eq)]
pub struct Endpoint {
    pub url: String,
    pub commitment: Commitment,
}

/// An account that an instruction names, and what the instruction may do
/// with it.
#[derive(Clone, Copy, Debug, PartialEq, Eq)]
pub struct AccountMeta {
    /// The account's address.
    pub pubkey: Address,
    /// Whether the transaction must be signed with this account's key.
    pub is_signer: bool,
    /// Whether the program may change the account.
    pub is_writable: bool,
}

/// An account reference as plain values.
pub struct AccountMetaView {
    pub pubkey: Seq<u8>,
    pub is_signer: bool,
    pub is_writable: bool,
}

impl View for AccountMeta {
    type V = AccountMetaView;

    open spec fn view(&self) -> AccountMetaView {
        AccountMetaView {
            pubkey: self.pubkey@,
            is_signer: self.is_signer,
            is_writable: self.is_writable,
        }
    }
}

/// A request to run a program on some accounts.
#[derive(Clone, Debug, PartialEq, Eq)]
pub struct Instruction {
    /// The program to run.
    pub program_id: Address,
    /// The accounts handed to the program, in order.
    pub accounts: Vec<AccountMeta>,
    /// Bytes for the program to interpret.
    pub data: Vec<u8>,
}

/// An instruction as plain values.
pub struct InstructionView {
    pub program_id: Seq<u8>,
    pub accounts: Seq<AccountMetaView>,
    pub data: Seq<u8>,
}

impl View for Instruction {
    type V = InstructionView;

    open spec fn view(&self) -> InstructionView {
        InstructionView {
            program_id: self.program_id@,
            accounts: self.accounts@.map_values(|meta: AccountMeta| meta@),
            data: self.data@,
        }
    }
}

/// The address of the system program: thirty-two zero bytes.
pub open spec fn system_program() -> Seq<u8> {
    Seq::new(32, |i: int| 0u8)
}

/// The eight bytes of a 64-bit number, least significant first.
pub open spec fn le_bytes(value: u64) -> Seq<u8> {
    seq![
        (value % 256) as u8,
        ((value / 256) % 256) as u8,
        ((value / 65536) % 256) as u8,
        ((value / 16777216) % 256) as u8,
        ((value / 4294967296) % 256) as u8,
        ((value / 1099511627776) % 256) as u8,
        ((value / 281474976710656) % 256) as u8,
        (value / 72057594037927936) as u8,
    ]
}

/// The data of the system program's instruction that creates an account at
/// an address derived from `base` and `seed`, funded with `lamports`, with
/// room for `space` bytes and owned by `owner`: the number of the
/// instruction, which is three, in four bytes; the base; the length of the
/// seed in eight bytes and the seed; the lamports and the space in eight
/// bytes each; and the owner.  All numbers stand least significant byte
/// first.
pub open spec fn creation_payload(
    base: Seq<u8>,
    seed: Seq<char>,
    lamports: u64,
    space: u64,
    owner: Seq<u8>,
) -> Seq<u8> {
    seq![3u8, 0u8, 0u8, 0u8] + base + le_bytes(encode_utf8(seed).len() as u64) + encode_utf8(seed)
        + le_bytes(lamports) + le_bytes(space) + owner
}

/// The instruction that creates the account `to` for `owner`, paid for by
/// `from`, at the address derived from `base` and `seed`.  It is addressed to
/// the system program and names three accounts: the funding account, which
/// signs and is changed; the new account, which is changed; and the base,
/// which signs.
pub open spec fn creation_instruction(
    from: Seq<u8>,
    to: Seq<u8>,
    base: Seq<u8>,
    seed: Seq<char>,
    lamports: u64,
    space: u64,
    owner: Seq<u8>,
) -> InstructionView {
    InstructionView {
        program_id: system_program(),
        accounts: seq![
            AccountMetaView { pubkey: from, is_signer: true, is_writable: true },
            AccountMetaView { pubkey: to, is_signer: false, is_writable: true },
            AccountMetaView { pubkey: base, is_signer: true, is_writable: false },
        ],
        data: creation_payload(base, seed, lamports, space, owner),
    }
}

/// `solana_program::system_instruction::create_account_with_seed`.  The
/// instruction it builds goes to the system program and lists the funding
/// account (signer, writable), the new account (writable) and the base
/// (signer, read-only); its data is the request as the system program reads
/// it, which `creation_payload` spells out.
#[verifier::external_body]
fn system_create_account_with_seed(
    from: &Address,
    to: &Address,
    base: &Address,
    seed: &str,
    lamports: u64,
    space: u64,
    owner: &Address,
) -> (r: Instruction)
    ensures
        r@.program_id == system_program(),
        r@.accounts == creation_instruction(
            from@,
            to@,
            base@,
            seed@,
            lamports,
            space,
            owner@,
        ).accounts,
        r@.data == creation_payload(base@, seed@, lamports, space, owner@),
{
    let (from, to) = (Pubkey::from(from.bytes), Pubkey::from(to.bytes));
    let (base, owner) = (Pubkey::from(base.bytes), Pubkey::from(owner.bytes));
    let made = system_instruction::create_account_with_seed(
        &from, &to, &base, seed, lamports, space, &owner,
    );
    let accounts = made.accounts.iter().map(|meta| AccountMeta {
        pubkey: Address { bytes: meta.pubkey.to_bytes() },
        is_signer: meta.is_signer,
        is_writable: meta.is_writable,
    });
    Instruction {
        program_id: Address { bytes: made.program_id.to_bytes() },
        accounts: accounts.collect(),
        data: made.data,
    }
}

/// The instruction that greets: addressed to `program`, with no data, and
/// with the greeting account as its only account, writable and not a signer.
pub open spec fn greeting_instruction(program: Seq<u8>, greeting: Seq<u8>) -> InstructionView {
    InstructionView {
        program_id: program,
        accounts: seq![AccountMetaView { pubkey: greeting, is_signer: false, is_writable: true }],
        data: Seq::<u8>::empty(),
    }
}

/// Builds the instruction that asks `program` to count one more greeting in
/// the account at `greeting`.
pub fn greeting_to(program: &Address, greeting: &Address) -> (instruction: Instruction)
    ensures
        instruction@ == greeting_instruction(program@, greeting@),
{
    let meta = AccountMeta { pubkey: *greeting, is_signer: false, is_writable: true };
    let instruction = Instruction { program_id: *program, accounts: vec![meta], data: Vec::new() };
    assert(instruction@.accounts =~= greeting_instruction(program@, greeting@).accounts);
    instruction
}

/// Builds the instruction that creates the greeting account at `greeting`
/// for `player` and `program`, funded with `lamports` and sized for one
/// record.
pub fn creation_of(
    player: &Address,
    greeting: &Address,
    program: &Address,
    lamports: u64,
) -> (instruction: Instruction)
    ensures
        instruction@ == creation_instruction(
            player@,
            greeting@,
            player@,
            greeting_seed(),
            lamports,
            RECORD_SIZE as u64,
            program@,
        ),
{
    system_create_account_with_seed(
        player,
        greeting,
        player,
        get_greeting_seed(),
        lamports,
        RECORD_SIZE as u64,
        program,
    )
}

/// The error that a configuration without an endpoint is turned down with.
pub open spec fn missing_endpoint() -> Error {
    Error::InvalidConfig(ConfigFault::MissingField { field: ConfigField::JsonRpcUrl })
}

/// Says where to connect: the configured endpoint, at the confirmed level.
pub fn establish_connection(config: &Config) -> (r: Result<Endpoint, Error>)
    ensures
        match config@.json_rpc_url {
            Some(url) => r is Ok && r->Ok_0.url@ == url && r->Ok_0.commitment
                == Commitment::Confirmed,
            None => r == Err::<Endpoint, Error>(missing_endpoint()),
        },
{
    match get_rpc_url(config) {
        Ok(url) => Ok(Endpoint { url, commitment: Commitment::Confirmed }),
        Err(error) => Err(error),
    }
}

/// The lamports that the payer needs: the rent-exempt minimum of the
/// greeting account and `multiplier` signature fees.
pub open spec fn balance_requirement(
    account_fee: u64,
    lamports_per_signature: u64,
    multiplier: u64,
) -> int {
    account_fee + multiplier * lamports_per_signature
}

/// Determines the lamports that the payer needs when `multiplier` signature
/// fees are set aside, or `None` where the sum does not fit in 64 bits.
pub fn checked_balance_requirement(
    account_fee: u64,
    lamports_per_signature: u64,
    multiplier: u64,
) -> (r: Option<u64>)
    ensures
        match r {
            Some(requirement) => requirement == balance_requirement(
                account_fee,
                lamports_per_signature,
                multiplier,
            ),
            None => balance_requirement(account_fee, lamports_per_signature, multiplier)
                > u64::MAX,
        },
{
    match multiplier.checked_mul(lamports_per_signature) {
        Some(transaction_fee) => transaction_fee.checked_add(account_fee),
        None => None,
    }
}

/// Determines the lamports that the payer needs, from the rent-exempt
/// minimum of the greeting account and the current fee for one signature, of
/// which a hundred are set aside.  A sum that does not fit in 64 bits is
/// reported, never cut short: what is returned is no less than the rent and
/// no less than the fee.
pub fn get_balance_requirement(account_fee: u64, lamports_per_signature: u64) -> (r: Result<
    u64,
    Error,
>)
    ensures
        match r {
            Ok(requirement) => requirement == balance_requirement(
                account_fee,
                lamports_per_signature,
                FEE_MULTIPLIER,
            ),
            Err(error) => error == Error::RequirementOverflow && balance_requirement(
                account_fee,
                lamports_per_signature,
                FEE_MULTIPLIER,
            ) > u64::MAX,
        },
        r is Ok ==> r->Ok_0 >= account_fee && r->Ok_0 >= lamports_per_signature,
{
    match checked_balance_requirement(account_fee, lamports_per_signature, FEE_MULTIPLIER) {
        Some(requirement) => Ok(requirement),
        None => Err(Error::RequirementOverflow),
    }
}

/// The lamports to ask for when the payer holds `balance` and needs
/// `requirement`: the difference where the payer is short, nothing otherwise.
pub open spec fn deficit(balance: u64, requirement: u64) -> Option<u64> {
    if balance < requirement {
        Some((requirement - balance) as u64)
    } else {
        None
    }
}

/// Determines the lamports to request for a payer that holds `balance` and
/// needs `requirement`.
pub fn airdrop_amount(balance: u64, requirement: u64) -> (r: Option<u64>)
    ensures
        r == deficit(balance, requirement),
        r is Some <==> balance < requirement,
        r is Some ==> balance + r->Some_0 == requirement,
{
    if balance < requirement {
        Some(requirement - balance)
    } else {
        None
    }
}

/// Accepts the target program if its account is marked executable.
pub fn get_program(program: Address, executable: bool) -> (r: Result<Address, Error>)
    ensures
        executable ==> r == Ok::<Address, Error>(program),
        !executable ==> r == Err::<Address, Error>(Error::ProgramNotExecutableError),
{
    if executable {
        Ok(program)
    } else {
        Err(Error::ProgramNotExecutableError)
    }
}

/// What `create_greeting_account` and `say_hello` return for the instruction
/// that `build` makes of the greeting address.
pub open spec fn for_greeting_account(
    player: Seq<u8>,
    program: Seq<u8>,
    build: spec_fn(Seq<u8>) -> InstructionView,
) -> Result<InstructionView, Error> {
    match derived_address(player, greeting_seed(), program) {
        Ok(greeting) => Ok(build(greeting)),
        Err(error) => Err(error),
    }
}

/// Whether `r` is the outcome `expected`, the instruction taken by its view.
pub open spec fn is_instruction(
    r: Result<Instruction, Error>,
    expected: Result<InstructionView, Error>,
) -> bool {
    match r {
        Ok(instruction) => expected == Ok::<InstructionView, Error>(instruction@),
        Err(error) => expected == Err::<InstructionView, Error>(error),
    }
}

/// Builds the instruction that creates the greeting account of `player` and
/// `program`.  The account is paid for by the player, holds `lamports`, has
/// room for one record and is owned by the program, so that the program may
/// write to it.
pub fn create_greeting_account(player: &Address, program: &Address, lamports: u64) -> (r: Result<
    Instruction,
    Error,
>)
    ensures
        is_instruction(
            r,
            for_greeting_account(
                player@,
                program@,
                |greeting: Seq<u8>|
                    creation_instruction(
                        player@,
                        greeting,
                        player@,
                        greeting_seed(),
                        lamports,
                        RECORD_SIZE as u64,
                        program@,
                    ),
            ),
        ),
{
    match get_greeting_public_key(player, program) {
        Ok(greeting) => Ok(creation_of(player, &greeting, program, lamports)),
        Err(error) => Err(error),
    }
}

/// Builds the instruction that sends one greeting from `player` to
/// `program`.  It carries no data; the greeting account, which the program
/// updates, is its only account.
pub fn say_hello(player: &Address, program: &Address) -> (r: Result<Instruction, Error>)
    ensures
        is_instruction(
            r,
            for_greeting_account(
                player@,
                program@,
                |greeting: Seq<u8>| greeting_instruction(program@, greeting),
            ),
        ),
{
    match get_greeting_public_key(player, program) {
        Ok(greeting) => Ok(greeting_to(program, &greeting)),
        Err(error) => Err(error),
    }
}

} // verus!
