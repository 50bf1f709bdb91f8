//! The program entry: an opaque payload (an 8-byte discriminator followed by
//! little-endian arguments) is routed to the right handler against the
//! account set the transaction supplied, and the outcome is reported as an
//! exit code.

use vstd::prelude::*;
use vstd::bytes::{spec_u64_from_le_bytes, u64_from_le_bytes};
use crate::donate::{donate_step, make_donations, Donate, DonateView};
use crate::errors::LedgerError;
use crate::initialize::{initialize, initialize_step, Initialize, InitializeView};
use crate::initialize_user::{initialize_user, initialize_user_step, InitializeUser,
    InitializeUserView};
use crate::keys::Pubkey;
use crate::withdraw::{withdraw_donations, withdraw_step, Withdraw, WithdrawView};

verus! {

/// The wire discriminator of each handler, read as a little-endian word.
pub const DISC_INITIALIZE: u64 = 17121445590508351407;

pub const DISC_INITIALIZE_USER: u64 = 18313459337071759727;

pub const DISC_MAKE_DONATIONS: u64 = 6910603346639915910;

pub const DISC_WITHDRAW_DONATIONS: u64 = 12953473331664215297;

/// A decoded instruction.
#[derive(Clone, Copy, Debug, PartialEq, Eq, Structural)]
pub enum Instruction {
    Initialize,
    InitializeUser,
    Donate(u64),
    Withdraw(u64),
}

/// What decoding a payload yields: the discriminator picks the handler, a
/// `u64` argument follows where one is due, and anything shorter or unknown
/// is an invalid argument. Bytes beyond the expected arguments are ignored.
pub open spec fn spec_parse_instruction(data: Seq<u8>) -> Result<Instruction, LedgerError> {
    if data.len() < 8 {
        Err(LedgerError::InvalidArgument)
    } else {
        let disc = spec_u64_from_le_bytes(data.subrange(0, 8));
        if disc == DISC_INITIALIZE {
            Ok(Instruction::Initialize)
        } else if disc == DISC_INITIALIZE_USER {
            Ok(Instruction::InitializeUser)
        } else if disc == DISC_MAKE_DONATIONS {
            if data.len() < 16 {
                Err(LedgerError::InvalidArgument)
            } else {
                Ok(Instruction::Donate(spec_u64_from_le_bytes(data.subrange(8, 16))))
            }
        } else if disc == DISC_WITHDRAW_DONATIONS {
            if data.len() < 16 {
                Err(LedgerError::InvalidArgument)
            } else {
                Ok(Instruction::Withdraw(spec_u64_from_le_bytes(data.subrange(8, 16))))
            }
        } else {
            Err(LedgerError::InvalidArgument)
        }
    }
}

/// Reads 8 bytes of `data` starting at `start` as a little-endian word.
fn read_word(data: &Vec<u8>, start: usize) -> (w: u64)
    requires
        start + 8 <= data@.len(),
    ensures
        w == spec_u64_from_le_bytes(data@.subrange(start as int, start as int + 8)),
{
    let dlen: usize = data.len();
    proof {
        assert(start + 8 <= dlen);
    }
    let mut bytes: Vec<u8> = Vec::new();
    bytes.push(data[start]);
    bytes.push(data[start + 1]);
    bytes.push(data[start + 2]);
    bytes.push(data[start + 3]);
    bytes.push(data[start + 4]);
    bytes.push(data[start + 5]);
    bytes.push(data[start + 6]);
    bytes.push(data[start + 7]);
    proof {
        assert(bytes@ =~= data@.subrange(start as int, start as int + 8));
    }
    u64_from_le_bytes(bytes.as_slice())
}

/// Decodes a payload into an instruction.
pub fn parse_instruction(data: &Vec<u8>) -> (r: Result<Instruction, LedgerError>)
    ensures
        r == spec_parse_instruction(data@),
{
    if data.len() < 8 {
        return Err(LedgerError::InvalidArgument);
    }
    let disc = read_word(data, 0);
    if disc == DISC_INITIALIZE {
        Ok(Instruction::Initialize)
    } else if disc == DISC_INITIALIZE_USER {
        Ok(Instruction::InitializeUser)
    } else if disc == DISC_MAKE_DONATIONS {
        if data.len() < 16 {
            Err(LedgerError::InvalidArgument)
        } else {
            Ok(Instruction::Donate(read_word(data, 8)))
        }
    } else if disc == DISC_WITHDRAW_DONATIONS {
        if data.len() < 16 {
            Err(LedgerError::InvalidArgument)
        } else {
            Ok(Instruction::Withdraw(read_word(data, 8)))
        }
    } else {
        Err(LedgerError::InvalidArgument)
    }
}

/// The account set a transaction supplies, one shape per handler.
pub enum InstructionAccounts {
    ForInitialize(Initialize),
    ForInitializeUser(InitializeUser),
    ForDonate(Donate),
    ForWithdraw(Withdraw),
}

pub enum InstructionAccountsView {
    ForInitialize(InitializeView),
    ForInitializeUser(InitializeUserView),
    ForDonate(DonateView),
    ForWithdraw(WithdrawView),
}

impl View for InstructionAccounts {
    type V = InstructionAccountsView;

    open spec fn view(&self) -> InstructionAccountsView {
        match self {
            InstructionAccounts::ForInitialize(c) => InstructionAccountsView::ForInitialize(c@),
            InstructionAccounts::ForInitializeUser(c) => InstructionAccountsView::ForInitializeUser(
                c@,
            ),
            InstructionAccounts::ForDonate(c) => InstructionAccountsView::ForDonate(c@),
            InstructionAccounts::ForWithdraw(c) => InstructionAccountsView::ForWithdraw(c@),
        }
    }
}

impl InstructionAccounts {
    pub open spec fn wf(&self) -> bool {
        match self {
            InstructionAccounts::ForInitialize(c) => c.wf(),
            InstructionAccounts::ForInitializeUser(c) => c.wf(),
            InstructionAccounts::ForDonate(c) => c.wf(),
            InstructionAccounts::ForWithdraw(c) => c.wf(),
        }
    }
}

/// What one whole instruction does: decode the payload, reject an account
/// set of the wrong shape, and otherwise take the chosen handler's step.
pub open spec fn spec_process(
    program_id: Seq<u8>,
    data: Seq<u8>,
    pre: InstructionAccountsView,
) -> (Result<(), LedgerError>, InstructionAccountsView) {
    match spec_parse_instruction(data) {
        Err(e) => (Err(e), pre),
        Ok(instr) => match (instr, pre) {
            (Instruction::Initialize, InstructionAccountsView::ForInitialize(v)) => {
                let (r, post) = initialize_step(program_id, v);
                (r, InstructionAccountsView::ForInitialize(post))
            },
            (Instruction::InitializeUser, InstructionAccountsView::ForInitializeUser(v)) => {
                let (r, post) = initialize_user_step(program_id, v);
                (r, InstructionAccountsView::ForInitializeUser(post))
            },
            (Instruction::Donate(lamports), InstructionAccountsView::ForDonate(v)) => {
                let (r, post) = donate_step(program_id, v, lamports);
                (r, InstructionAccountsView::ForDonate(post))
            },
            (Instruction::Withdraw(lamports), InstructionAccountsView::ForWithdraw(v)) => {
                let (r, post) = withdraw_step(program_id, v, lamports);
                (r, InstructionAccountsView::ForWithdraw(post))
            },
            _ => (Err(LedgerError::ConstraintFailure), pre),
        },
    }
}

/// Runs one instruction against its account set.
pub fn process_instruction(
    program_id: &Pubkey,
    data: &Vec<u8>,
    accounts: &mut InstructionAccounts,
) -> (r: Result<(), LedgerError>)
    requires
        program_id.wf(),
        old(accounts).wf(),
    ensures
        final(accounts).wf(),
        r == spec_process(program_id@, data@, old(accounts)@).0,
        final(accounts)@ == spec_process(program_id@, data@, old(accounts)@).1,
{
    let instr = match parse_instruction(data) {
        Err(e) => {
            return Err(e);
        },
        Ok(instr) => instr,
    };
    match (instr, accounts) {
        (Instruction::Initialize, InstructionAccounts::ForInitialize(ctx)) => initialize(
            program_id,
            ctx,
        ),
        (Instruction::InitializeUser, InstructionAccounts::ForInitializeUser(ctx)) => {
            initialize_user(program_id, ctx)
        },
        (Instruction::Donate(lamports), InstructionAccounts::ForDonate(ctx)) => make_donations(
            program_id,
            ctx,
            lamports,
        ),
        (Instruction::Withdraw(lamports), InstructionAccounts::ForWithdraw(ctx)) => {
            withdraw_donations(program_id, ctx, lamports)
        },
        _ => Err(LedgerError::ConstraintFailure),
    }
}

} // verus!
