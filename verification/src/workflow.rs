//! The client's run as a state machine.
//!
//! A run is a fixed sequence of requests to the outside world: connect, find
//! out how much the payer needs, fund the payer if it is short, check that
//! the program is deployed, make sure the greeting account exists, send a
//! greeting and read the counter back.  The workflow decides which request
//! comes next; the caller performs it and reports what came of it.  Every
//! failure ends the run: nothing is retried and nothing is repaired.  The
//! one request that is repeated, the poll for the confirmation of a funding
//! transfer, is repeated a bounded number of times.

use crate::address::derived_address;
use crate::address::Address;
use crate::client::airdrop_amount;
use crate::client::checked_balance_requirement;
use crate::client::get_program;
use crate::client::balance_requirement;
use crate::client::creation_instruction;
use crate::client::creation_of;
use crate::client::greeting_instruction;
use crate::client::greeting_to;
use crate::client::Instruction;
use crate::client::InstructionView;
use crate::client::FEE_MULTIPLIER;
use crate::error::Error;
use crate::schema::RECORD_SIZE;
use crate::utils::get_greeting_count;
use crate::utils::get_greeting_public_key;
use crate::utils::greeting_count;
use crate::utils::greeting_seed;
use vstd::prelude::*;

verus! {

/// How often a funding transfer is polled for confirmation unless the caller
/// says otherwise.
pub const DEFAULT_CONFIRMATION_POLLS: u32 = 1000;

/// What a caller may adjust about a run.
#[derive(Clone, Copy, Debug, PartialEq, Eq, Structural)]
pub struct Settings {
    /// How many signature fees the payer must afford besides the rent.
    pub fee_multiplier: u64,
    /// How often the confirmation of a funding transfer is polled at most.
    pub confirmation_polls: u32,
}

impl Default for Settings {
    fn default() -> (settings: Settings)
        ensures
            settings == (Settings {
                fee_multiplier: FEE_MULTIPLIER,
                confirmation_polls: DEFAULT_CONFIRMATION_POLLS,
            }),
    {
        Settings { fee_multiplier: FEE_MULTIPLIER, confirmation_polls: DEFAULT_CONFIRMATION_POLLS }
    }
}

/// Where a run stands: the request whose answer it is waiting for, with what
/// it has learnt so far, or how it ended.
#[derive(Clone, Copy, Debug, PartialEq, Eq)]
pub enum Stage {
    /// Waiting for the connection to the node.
    Connecting,
    /// Waiting for the rent-exempt minimum of a greeting account.
    RentExemption,
    /// Waiting for the fee of one signature.
    Fee { account_fee: u64 },
    /// Waiting for the payer's key.
    Payer { requirement: u64 },
    /// Waiting for the payer's balance.
    Balance { requirement: u64, payer: Address },
    /// Waiting for the node to accept a funding request.
    Airdrop { payer: Address, lamports: u64 },
    /// Waiting for the funding transfer to be confirmed.
    Confirmation { payer: Address, polls_left: u32 },
    /// Waiting for the program's key.
    Program { payer: Address },
    /// Waiting for the program's account.
    ProgramAccount { payer: Address, program: Address },
    /// Waiting to hear whether the greeting account exists.
    Lookup { payer: Address, program: Address, greeting: Address },
    /// Waiting for the rent-exempt minimum that the new account is funded with.
    Funding { payer: Address, program: Address, greeting: Address },
    /// Waiting for the creation of the greeting account to be confirmed.
    Creation { payer: Address, program: Address, greeting: Address, lamports: u64 },
    /// Waiting for the greeting to be confirmed.
    Invocation { program: Address, greeting: Address },
    /// Waiting for the data of the greeting account.
    Reading { greeting: Address },
    /// The run is over and the counter was read.
    Finished { greetings: u32 },
    /// The run is over and failed.
    Failed { error: Error },
}

/// A stage as plain values.
pub enum StageView {
    Connecting,
    RentExemption,
    Fee { account_fee: u64 },
    Payer { requirement: u64 },
    Balance { requirement: u64, payer: Seq<u8> },
    Airdrop { payer: Seq<u8>, lamports: u64 },
    Confirmation { payer: Seq<u8>, polls_left: u32 },
    Program { payer: Seq<u8> },
    ProgramAccount { payer: Seq<u8>, program: Seq<u8> },
    Lookup { payer: Seq<u8>, program: Seq<u8>, greeting: Seq<u8> },
    Funding { payer: Seq<u8>, program: Seq<u8>, greeting: Seq<u8> },
    Creation { payer: Seq<u8>, program: Seq<u8>, greeting: Seq<u8>, lamports: u64 },
    Invocation { program: Seq<u8>, greeting: Seq<u8> },
    Reading { greeting: Seq<u8> },
    Finished { greetings: u32 },
    Failed { error: Error },
}

impl View for Stage {
    type V = StageView;

    open spec fn view(&self) -> StageView {
        match *self {
            Stage::Connecting => StageView::Connecting,
            Stage::RentExemption => StageView::RentExemption,
            Stage::Fee { account_fee } => StageView::Fee { account_fee },
            Stage::Payer { requirement } => StageView::Payer { requirement },
            Stage::Balance { requirement, payer } => StageView::Balance {
                requirement,
                payer: payer@,
            },
            Stage::Airdrop { payer, lamports } => StageView::Airdrop { payer: payer@, lamports },
            Stage::Confirmation { payer, polls_left } => StageView::Confirmation {
                payer: payer@,
                polls_left,
            },
            Stage::Program { payer } => StageView::Program { payer: payer@ },
            Stage::ProgramAccount { payer, program } => StageView::ProgramAccount {
                payer: payer@,
                program: program@,
            },
            Stage::Lookup { payer, program, greeting } => StageView::Lookup {
                payer: payer@,
                program: program@,
                greeting: greeting@,
            },
            Stage::Funding { payer, program, greeting } => StageView::Funding {
                payer: payer@,
                program: program@,
                greeting: greeting@,
            },
            Stage::Creation { payer, program, greeting, lamports } => StageView::Creation {
                payer: payer@,
                program: program@,
                greeting: greeting@,
                lamports,
            },
            Stage::Invocation { program, greeting } => StageView::Invocation {
                program: program@,
                greeting: greeting@,
            },
            Stage::Reading { greeting } => StageView::Reading { greeting: greeting@ },
            Stage::Finished { greetings } => StageView::Finished { greetings },
            Stage::Failed { error } => StageView::Failed { error },
        }
    }
}

/// A request that the caller is to perform.
#[derive(Clone, Debug, PartialEq, Eq)]
pub enum Action {
    /// Open a connection to the configured endpoint.
    Connect,
    /// Ask for the rent-exempt minimum of an account that stores `size` bytes.
    QueryRentExemption { size: usize },
    /// Ask for the current fee of one signature.
    QueryFee,
    /// Load the payer's signing key.
    LoadPayer,
    /// Ask for the balance of `owner`.
    QueryBalance { owner: Address },
    /// Ask the node to transfer `lamports` to `recipient`.
    RequestAirdrop { recipient: Address, lamports: u64 },
    /// Ask whether the funding transfer has been confirmed.
    ConfirmAirdrop,
    /// Load the program's signing key.
    LoadProgram,
    /// Ask for the account at `address`.
    QueryAccount { address: Address },
    /// Sign `instruction` with the payer's key, send it and wait until it is
    /// confirmed.
    Submit { instruction: Instruction },
    /// Report the counter: the run has succeeded.
    Finish { greetings: u32 },
    /// Report the error: the run has failed.
    Abort { error: Error },
}

/// A request as plain values.
pub enum ActionView {
    Connect,
    QueryRentExemption { size: usize },
    QueryFee,
    LoadPayer,
    QueryBalance { owner: Seq<u8> },
    RequestAirdrop { recipient: Seq<u8>, lamports: u64 },
    ConfirmAirdrop,
    LoadProgram,
    QueryAccount { address: Seq<u8> },
    Submit { instruction: InstructionView },
    Finish { greetings: u32 },
    Abort { error: Error },
}

impl View for Action {
    type V = ActionView;

    open spec fn view(&self) -> ActionView {
        match *self {
            Action::Connect => ActionView::Connect,
            Action::QueryRentExemption { size } => ActionView::QueryRentExemption { size },
            Action::QueryFee => ActionView::QueryFee,
            Action::LoadPayer => ActionView::LoadPayer,
            Action::QueryBalance { owner } => ActionView::QueryBalance { owner: owner@ },
            Action::RequestAirdrop { recipient, lamports } => ActionView::RequestAirdrop {
                recipient: recipient@,
                lamports,
            },
            Action::ConfirmAirdrop => ActionView::ConfirmAirdrop,
            Action::LoadProgram => ActionView::LoadProgram,
            Action::QueryAccount { address } => ActionView::QueryAccount { address: address@ },
            Action::Submit { instruction } => ActionView::Submit { instruction: instruction@ },
            Action::Finish { greetings } => ActionView::Finish { greetings },
            Action::Abort { error } => ActionView::Abort { error },
        }
    }
}

/// What came of a request.
#[derive(Clone, Debug, PartialEq, Eq)]
pub enum Event {
    /// The connection is open.
    Connected,
    /// The node answered with an amount of lamports.
    Lamports { amount: u64 },
    /// A signing key was loaded; `address` is its public key.
    KeyLoaded { address: Address },
    /// The node accepted the funding request.
    AirdropRequested,
    /// The node said whether the funding transfer is confirmed.
    Confirmation { confirmed: bool },
    /// The account exists.
    AccountFound { executable: bool, data: Vec<u8> },
    /// There is no such account.
    AccountMissing,
    /// The instruction was carried out and confirmed.
    Submitted,
    /// The request failed.  `error` is the library's own error where one of
    /// its functions turned the request down, `None` where the outside world
    /// did.
    Failed { error: Option<Error> },
}

/// An answer as plain values.
pub enum EventView {
    Connected,
    Lamports { amount: u64 },
    KeyLoaded { address: Seq<u8> },
    AirdropRequested,
    Confirmation { confirmed: bool },
    AccountFound { executable: bool, data: Seq<u8> },
    AccountMissing,
    Submitted,
    Failed { error: Option<Error> },
}

impl View for Event {
    type V = EventView;

    open spec fn view(&self) -> EventView {
        match *self {
            Event::Connected => EventView::Connected,
            Event::Lamports { amount } => EventView::Lamports { amount },
            Event::KeyLoaded { address } => EventView::KeyLoaded { address: address@ },
            Event::AirdropRequested => EventView::AirdropRequested,
            Event::Confirmation { confirmed } => EventView::Confirmation { confirmed },
            Event::AccountFound { executable, data } => EventView::AccountFound {
                executable,
                data: data@,
            },
            Event::AccountMissing => EventView::AccountMissing,
            Event::Submitted => EventView::Submitted,
            Event::Failed { error } => EventView::Failed { error },
        }
    }
}

/// The stage that a failed request leads to.  The library's own error is
/// kept; a failure of the outside world is reported as `fallback`, the error
/// that belongs to the step that failed.  Any other answer does not fit the
/// request and is reported as unexpected.
pub open spec fn failure(event: EventView, fallback: Error) -> StageView {
    match event {
        EventView::Failed { error: Some(error) } => StageView::Failed { error },
        EventView::Failed { error: None } => StageView::Failed { error: fallback },
        _ => StageView::Failed { error: Error::UnexpectedEvent },
    }
}

/// The stage that follows `stage` when `event` is the answer to its request.
pub open spec fn next(settings: Settings, stage: StageView, event: EventView) -> StageView {
    match stage {
        StageView::Connecting => match event {
            EventView::Connected => StageView::RentExemption,
            _ => failure(event, Error::ConnectionError),
        },
        StageView::RentExemption => match event {
            EventView::Lamports { amount } => StageView::Fee { account_fee: amount },
            _ => failure(event, Error::ConnectionError),
        },
        StageView::Fee { account_fee } => match event {
            EventView::Lamports { amount } => if balance_requirement(
                account_fee,
                amount,
                settings.fee_multiplier,
            ) <= u64::MAX {
                StageView::Payer {
                    requirement: balance_requirement(
                        account_fee,
                        amount,
                        settings.fee_multiplier,
                    ) as u64,
                }
            } else {
                StageView::Failed { error: Error::RequirementOverflow }
            },
            _ => failure(event, Error::ConnectionError),
        },
        StageView::Payer { requirement } => match event {
            EventView::KeyLoaded { address } => StageView::Balance { requirement, payer: address },
            _ => failure(event, Error::KeypairLoadError),
        },
        StageView::Balance { requirement, payer } => match event {
            EventView::Lamports { amount } => if amount < requirement {
                StageView::Airdrop { payer, lamports: (requirement - amount) as u64 }
            } else {
                StageView::Program { payer }
            },
            _ => failure(event, Error::ConnectionError),
        },
        StageView::Airdrop { payer, lamports } => match event {
            EventView::AirdropRequested => if settings.confirmation_polls > 0 {
                StageView::Confirmation { payer, polls_left: settings.confirmation_polls }
            } else {
                StageView::Failed { error: Error::TimeoutError }
            },
            _ => failure(event, Error::InsufficientFundsError),
        },
        StageView::Confirmation { payer, polls_left } => match event {
            EventView::Confirmation { confirmed } => if confirmed {
                StageView::Program { payer }
            } else if polls_left > 1 {
                StageView::Confirmation { payer, polls_left: (polls_left - 1) as u32 }
            } else {
                StageView::Failed { error: Error::TimeoutError }
            },
            _ => failure(event, Error::InsufficientFundsError),
        },
        StageView::Program { payer } => match event {
            EventView::KeyLoaded { address } => StageView::ProgramAccount {
                payer,
                program: address,
            },
            _ => failure(event, Error::KeypairLoadError),
        },
        StageView::ProgramAccount { payer, program } => match event {
            EventView::AccountFound { executable, data } => if executable {
                match derived_address(payer, greeting_seed(), program) {
                    Ok(greeting) => StageView::Lookup { payer, program, greeting },
                    Err(error) => StageView::Failed { error },
                }
            } else {
                StageView::Failed { error: Error::ProgramNotExecutableError }
            },
            EventView::AccountMissing => StageView::Failed {
                error: Error::ProgramNotExecutableError,
            },
            _ => failure(event, Error::ConnectionError),
        },
        StageView::Lookup { payer, program, greeting } => match event {
            EventView::AccountFound { executable, data } => StageView::Invocation {
                program,
                greeting,
            },
            EventView::AccountMissing => StageView::Funding { payer, program, greeting },
            _ => failure(event, Error::AccountCreationError),
        },
        StageView::Funding { payer, program, greeting } => match event {
            EventView::Lamports { amount } => StageView::Creation {
                payer,
                program,
                greeting,
                lamports: amount,
            },
            _ => failure(event, Error::AccountCreationError),
        },
        StageView::Creation { payer, program, greeting, lamports } => match event {
            EventView::Submitted => StageView::Invocation { program, greeting },
            _ => failure(event, Error::AccountCreationError),
        },
        StageView::Invocation { program, greeting } => match event {
            EventView::Submitted => StageView::Reading { greeting },
            _ => failure(event, Error::InvocationError),
        },
        StageView::Reading { greeting } => match event {
            EventView::AccountFound { executable, data } => match greeting_count(data) {
                Ok(greetings) => StageView::Finished { greetings },
                Err(error) => StageView::Failed { error },
            },
            EventView::AccountMissing => StageView::Failed { error: Error::ConnectionError },
            _ => failure(event, Error::ConnectionError),
        },
        StageView::Finished { greetings } => stage,
        StageView::Failed { error } => stage,
    }
}

/// The request that a run at `stage` is waiting on.
pub open spec fn action_at(stage: StageView) -> ActionView {
    match stage {
        StageView::Connecting => ActionView::Connect,
        StageView::RentExemption => ActionView::QueryRentExemption { size: RECORD_SIZE },
        StageView::Fee { account_fee } => ActionView::QueryFee,
        StageView::Payer { requirement } => ActionView::LoadPayer,
        StageView::Balance { requirement, payer } => ActionView::QueryBalance { owner: payer },
        StageView::Airdrop { payer, lamports } => ActionView::RequestAirdrop {
            recipient: payer,
            lamports,
        },
        StageView::Confirmation { payer, polls_left } => ActionView::ConfirmAirdrop,
        StageView::Program { payer } => ActionView::LoadProgram,
        StageView::ProgramAccount { payer, program } => ActionView::QueryAccount {
            address: program,
        },
        StageView::Lookup { payer, program, greeting } => ActionView::QueryAccount {
            address: greeting,
        },
        StageView::Funding { payer, program, greeting } => ActionView::QueryRentExemption {
            size: RECORD_SIZE,
        },
        StageView::Creation { payer, program, greeting, lamports } => ActionView::Submit {
            instruction: creation_instruction(
                payer,
                greeting,
                payer,
                greeting_seed(),
                lamports,
                RECORD_SIZE as u64,
                program,
            ),
        },
        StageView::Invocation { program, greeting } => ActionView::Submit {
            instruction: greeting_instruction(program, greeting),
        },
        StageView::Reading { greeting } => ActionView::QueryAccount { address: greeting },
        StageView::Finished { greetings } => ActionView::Finish { greetings },
        StageView::Failed { error } => ActionView::Abort { error },
    }
}

/// Whether a run at `stage` is over.
pub open spec fn is_final(stage: StageView) -> bool {
    stage is Finished || stage is Failed
}

/// One run of the client.
#[derive(Clone, Copy, Debug, PartialEq, Eq)]
pub struct Workflow {
    /// What the caller has adjusted.
    pub settings: Settings,
    /// Where the run stands.
    pub stage: Stage,
}

/// The stage after a request that did not succeed.
fn failed(event: Event, fallback: Error) -> (stage: Stage)
    ensures
        stage@ == failure(event@, fallback),
{
    match event {
        Event::Failed { error: Some(error) } => Stage::Failed { error },
        Event::Failed { error: None } => Stage::Failed { error: fallback },
        _ => Stage::Failed { error: Error::UnexpectedEvent },
    }
}

/// Computes the stage that follows `stage` on `event`.
fn advance(settings: Settings, stage: Stage, event: Event) -> (after: Stage)
    ensures
        after@ == next(settings, stage@, event@),
{
    match stage {
        Stage::Connecting => match event {
            Event::Connected => Stage::RentExemption,
            other => failed(other, Error::ConnectionError),
        },
        Stage::RentExemption => match event {
            Event::Lamports { amount } => Stage::Fee { account_fee: amount },
            other => failed(other, Error::ConnectionError),
        },
        Stage::Fee { account_fee } => match event {
            Event::Lamports { amount } => match checked_balance_requirement(
                account_fee,
                amount,
                settings.fee_multiplier,
            ) {
                Some(requirement) => Stage::Payer { requirement },
                None => Stage::Failed { error: Error::RequirementOverflow },
            },
            other => failed(other, Error::ConnectionError),
        },
        Stage::Payer { requirement } => match event {
            Event::KeyLoaded { address } => Stage::Balance { requirement, payer: address },
            other => failed(other, Error::KeypairLoadError),
        },
        Stage::Balance { requirement, payer } => match event {
            Event::Lamports { amount } => match airdrop_amount(amount, requirement) {
                Some(lamports) => Stage::Airdrop { payer, lamports },
                None => Stage::Program { payer },
            },
            other => failed(other, Error::ConnectionError),
        },
        Stage::Airdrop { payer, lamports } => match event {
            Event::AirdropRequested => if settings.confirmation_polls > 0 {
                Stage::Confirmation { payer, polls_left: settings.confirmation_polls }
            } else {
                Stage::Failed { error: Error::TimeoutError }
            },
            other => failed(other, Error::InsufficientFundsError),
        },
        Stage::Confirmation { payer, polls_left } => match event {
            Event::Confirmation { confirmed } => if confirmed {
                Stage::Program { payer }
            } else if polls_left > 1 {
                Stage::Confirmation { payer, polls_left: polls_left - 1 }
            } else {
                Stage::Failed { error: Error::TimeoutError }
            },
            other => failed(other, Error::InsufficientFundsError),
        },
        Stage::Program { payer } => match event {
            Event::KeyLoaded { address } => Stage::ProgramAccount { payer, program: address },
            other => failed(other, Error::KeypairLoadError),
        },
        Stage::ProgramAccount { payer, program } => match event {
            Event::AccountFound { executable, data } => match get_program(program, executable) {
                Ok(program) => match get_greeting_public_key(&payer, &program) {
                    Ok(greeting) => Stage::Lookup { payer, program, greeting },
                    Err(error) => Stage::Failed { error },
                },
                Err(error) => Stage::Failed { error },
            },
            Event::AccountMissing => Stage::Failed { error: Error::ProgramNotExecutableError },
            other => failed(other, Error::ConnectionError),
        },
        Stage::Lookup { payer, program, greeting } => match event {
            Event::AccountFound { executable, data } => Stage::Invocation { program, greeting },
            Event::AccountMissing => Stage::Funding { payer, program, greeting },
            other => failed(other, Error::AccountCreationError),
        },
        Stage::Funding { payer, program, greeting } => match event {
            Event::Lamports { amount } => Stage::Creation {
                payer,
                program,
                greeting,
                lamports: amount,
            },
            other => failed(other, Error::AccountCreationError),
        },
        Stage::Creation { payer, program, greeting, lamports } => match event {
            Event::Submitted => Stage::Invocation { program, greeting },
            other => failed(other, Error::AccountCreationError),
        },
        Stage::Invocation { program, greeting } => match event {
            Event::Submitted => Stage::Reading { greeting },
            other => failed(other, Error::InvocationError),
        },
        Stage::Reading { greeting } => match event {
            Event::AccountFound { executable, data } => match get_greeting_count(
                data.as_slice(),
            ) {
                Ok(greetings) => Stage::Finished { greetings },
                Err(error) => Stage::Failed { error },
            },
            Event::AccountMissing => Stage::Failed { error: Error::ConnectionError },
            other => failed(other, Error::ConnectionError),
        },
        Stage::Finished { greetings } => stage,
        Stage::Failed { error } => stage,
    }
}

impl Workflow {
    /// Starts a run.  Its first request is to connect.
    pub fn new(settings: Settings) -> (workflow: Workflow)
        ensures
            workflow.settings == settings,
            workflow.stage@ == StageView::Connecting,
    {
        Workflow { settings, stage: Stage::Connecting }
    }

    /// Says which request the run is waiting on.  A run that is over asks
    /// for its result to be reported.
    pub fn pending(&self) -> (action: Action)
        ensures
            action@ == action_at(self.stage@),
    {
        match self.stage {
            Stage::Connecting => Action::Connect,
            Stage::RentExemption => Action::QueryRentExemption { size: RECORD_SIZE },
            Stage::Fee { account_fee } => Action::QueryFee,
            Stage::Payer { requirement } => Action::LoadPayer,
            Stage::Balance { requirement, payer } => Action::QueryBalance { owner: payer },
            Stage::Airdrop { payer, lamports } => Action::RequestAirdrop {
                recipient: payer,
                lamports,
            },
            Stage::Confirmation { payer, polls_left } => Action::ConfirmAirdrop,
            Stage::Program { payer } => Action::LoadProgram,
            Stage::ProgramAccount { payer, program } => Action::QueryAccount { address: program },
            Stage::Lookup { payer, program, greeting } => Action::QueryAccount {
                address: greeting,
            },
            Stage::Funding { payer, program, greeting } => Action::QueryRentExemption {
                size: RECORD_SIZE,
            },
            Stage::Creation { payer, program, greeting, lamports } => Action::Submit {
                instruction: creation_of(&payer, &greeting, &program, lamports),
            },
            Stage::Invocation { program, greeting } => Action::Submit {
                instruction: greeting_to(&program, &greeting),
            },
            Stage::Reading { greeting } => Action::QueryAccount { address: greeting },
            Stage::Finished { greetings } => Action::Finish { greetings },
            Stage::Failed { error } => Action::Abort { error },
        }
    }

    /// Takes the answer to the pending request and says which request comes
    /// next.
    pub fn step(&mut self, event: Event) -> (action: Action)
        ensures
            final(self).settings == old(self).settings,
            final(self).stage@ == next(old(self).settings, old(self).stage@, event@),
            action@ == action_at(final(self).stage@),
    {
        self.stage = advance(self.settings, self.stage, event);
        self.pending()
    }

    /// Says whether the run is over.
    pub fn is_done(&self) -> (done: bool)
        ensures
            done == is_final(self.stage@),
    {
        match self.stage {
            Stage::Finished { greetings } => true,
            Stage::Failed { error } => true,
            _ => false,
        }
    }
}

/// An upper bound on the answers that a run at `stage` still takes before it
/// is over.
pub open spec fn steps_left(settings: Settings, stage: StageView) -> nat {
    match stage {
        StageView::Connecting => 14 + settings.confirmation_polls as nat,
        StageView::RentExemption => 13 + settings.confirmation_polls as nat,
        StageView::Fee { account_fee } => 12 + settings.confirmation_polls as nat,
        StageView::Payer { requirement } => 11 + settings.confirmation_polls as nat,
        StageView::Balance { requirement, payer } => 10 + settings.confirmation_polls as nat,
        StageView::Airdrop { payer, lamports } => 9 + settings.confirmation_polls as nat,
        StageView::Confirmation { payer, polls_left } => 8 + polls_left as nat,
        StageView::Program { payer } => 7,
        StageView::ProgramAccount { payer, program } => 6,
        StageView::Lookup { payer, program, greeting } => 5,
        StageView::Funding { payer, program, greeting } => 4,
        StageView::Creation { payer, program, greeting, lamports } => 3,
        StageView::Invocation { program, greeting } => 2,
        StageView::Reading { greeting } => 1,
        StageView::Finished { greetings } => 0,
        StageView::Failed { error } => 0,
    }
}

/// The stage that a run reaches from `stage` when `events` are the answers
/// to its requests, in order.
pub open spec fn run(settings: Settings, stage: StageView, events: Seq<EventView>) -> StageView
    decreases events.len(),
{
    if events.len() == 0 {
        stage
    } else {
        run(settings, next(settings, stage, events[0]), events.drop_first())
    }
}

/// Every answer brings a run that is not over closer to its end.
pub proof fn lemma_step_makes_progress(settings: Settings, stage: StageView, event: EventView)
    requires
        !is_final(stage),
    ensures
        steps_left(settings, next(settings, stage, event)) < steps_left(settings, stage),
{
}

/// A run that is over stays as it is, whatever it is told.
pub proof fn lemma_final_stage_is_kept(settings: Settings, stage: StageView, event: EventView)
    requires
        is_final(stage),
    ensures
        next(settings, stage, event) == stage,
{
}

/// A request that fails ends the run with an error: nothing is retried.
pub proof fn lemma_failure_ends_the_run(
    settings: Settings,
    stage: StageView,
    error: Option<Error>,
)
    requires
        !is_final(stage),
    ensures
        next(settings, stage, EventView::Failed { error }) is Failed,
        error is Some ==> next(settings, stage, EventView::Failed { error }) == (StageView::Failed {
            error: error->Some_0,
        }),
{
}

/// No run goes on for ever: after as many answers as `steps_left` allows,
/// whatever they are, the run is over.  In particular a funding transfer
/// is polled at most `confirmation_polls` times.
pub proof fn lemma_run_ends(settings: Settings, stage: StageView, events: Seq<EventView>)
    requires
        events.len() >= steps_left(settings, stage),
    ensures
        is_final(run(settings, stage, events)),
    decreases events.len(),
{
    if events.len() == 0 {
    } else if is_final(stage) {
        lemma_final_stage_is_kept(settings, stage, events[0]);
        lemma_run_ends(settings, stage, events.drop_first());
    } else {
        lemma_step_makes_progress(settings, stage, events[0]);
        lemma_run_ends(settings, next(settings, stage, events[0]), events.drop_first());
    }
}

/// The payer needs the rent-exempt minimum of the greeting account and as
/// many signature fees as the settings set aside.  Where that sum does not
/// fit in 64 bits the run ends.
pub proof fn lemma_requirement_is_rent_and_fees(settings: Settings, rent: u64, fee: u64)
    ensures
        ({
            let asked = next(
                settings,
                StageView::RentExemption,
                EventView::Lamports { amount: rent },
            );
            let told = next(settings, asked, EventView::Lamports { amount: fee });
            if rent + settings.fee_multiplier * fee <= u64::MAX {
                &&& told matches StageView::Payer { requirement }
                &&& requirement == rent + settings.fee_multiplier * fee
            } else {
                told == StageView::Failed { error: Error::RequirementOverflow }
            }
        }),
{
}

/// A payer that holds less than it needs is funded with exactly what is
/// missing, and the program is not looked at before that; a payer that holds
/// enough is not funded at all.
pub proof fn lemma_airdrop_covers_deficit(
    settings: Settings,
    requirement: u64,
    payer: Seq<u8>,
    balance: u64,
)
    ensures
        ({
            let after = next(
                settings,
                StageView::Balance { requirement, payer },
                EventView::Lamports { amount: balance },
            );
            if balance < requirement {
                &&& action_at(after) matches ActionView::RequestAirdrop { recipient, lamports }
                &&& recipient == payer
                &&& balance + lamports == requirement
            } else {
                action_at(after) == ActionView::LoadProgram
            }
        }),
{
}

/// What a node answers when asked for an account, on a chain where `ledger`
/// gives the data stored at each address that has an account.
pub open spec fn account_answer(ledger: Map<Seq<u8>, Seq<u8>>, address: Seq<u8>) -> EventView {
    if ledger.contains_key(address) {
        EventView::AccountFound { executable: false, data: ledger[address] }
    } else {
        EventView::AccountMissing
    }
}

/// The chain after a creation instruction was carried out: the new account,
/// which is the second that the instruction names, exists and holds a record
/// of zero bytes.
pub open spec fn after_creation(
    ledger: Map<Seq<u8>, Seq<u8>>,
    instruction: InstructionView,
) -> Map<Seq<u8>, Seq<u8>> {
    ledger.insert(instruction.accounts[1].pubkey, Seq::new(RECORD_SIZE as nat, |i: int| 0u8))
}

/// How making sure that the greeting account exists has gone.
pub struct Ensured {
    /// The chain afterwards.
    pub ledger: Map<Seq<u8>, Seq<u8>>,
    /// The stage that the run has reached.
    pub stage: StageView,
    /// The creation instructions that were submitted.
    pub creations: Seq<InstructionView>,
}

/// Plays the part of a run that makes sure that the greeting account exists
/// against the chain `ledger`: the account is looked up and, if the node
/// misses it, created with `rent` lamports.
pub open spec fn ensure_greeting_account(
    settings: Settings,
    ledger: Map<Seq<u8>, Seq<u8>>,
    payer: Seq<u8>,
    program: Seq<u8>,
    greeting: Seq<u8>,
    rent: u64,
) -> Ensured {
    let lookup = StageView::Lookup { payer, program, greeting };
    let looked_up = next(
        settings,
        lookup,
        account_answer(ledger, action_at(lookup)->QueryAccount_address),
    );
    if looked_up is Funding {
        let creation = next(settings, looked_up, EventView::Lamports { amount: rent });
        let instruction = action_at(creation)->Submit_instruction;
        Ensured {
            ledger: after_creation(ledger, instruction),
            stage: next(settings, creation, EventView::Submitted),
            creations: seq![instruction],
        }
    } else {
        Ensured { ledger, stage: looked_up, creations: Seq::empty() }
    }
}

/// Making sure twice that the greeting account exists creates it at most
/// once.  The first time creates it exactly if it is missing; the second
/// time finds it, submits nothing and leaves the chain as it is.  Both times
/// the run goes on to send its greeting.
pub proof fn lemma_creation_is_idempotent(
    settings: Settings,
    ledger: Map<Seq<u8>, Seq<u8>>,
    payer: Seq<u8>,
    program: Seq<u8>,
    greeting: Seq<u8>,
    first_rent: u64,
    second_rent: u64,
)
    ensures
        ({
            let first = ensure_greeting_account(
                settings,
                ledger,
                payer,
                program,
                greeting,
                first_rent,
            );
            let second = ensure_greeting_account(
                settings,
                first.ledger,
                payer,
                program,
                greeting,
                second_rent,
            );
            &&& first.creations.len() == if ledger.contains_key(greeting) {
                0nat
            } else {
                1nat
            }
            &&& first.ledger.contains_key(greeting)
            &&& second.creations.len() == 0
            &&& second.ledger == first.ledger
            &&& first.stage == StageView::Invocation { program, greeting }
            &&& second.stage == first.stage
        }),
{
}

} // verus!
