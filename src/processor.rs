use solana_program::instruction::Instruction;
use vstd::prelude::*;

use crate::error::{EscrowError, ProcessError};
use crate::instruction::{decode_instruction, EscrowInstruction};
use crate::state::{
    decode_initialized_record, decode_record, lemma_record_round_trip, record_bytes, same_key,
    Escrow, EscrowModel, Key,
};
use crate::token::{
    close_account_instruction, find_program_address, program_address, set_owner_instruction,
    token_account_amount, token_program_id, token_program_key, token_read,
    transfer_instruction,
};

verus! {

/// A snapshot of one ledger account as the processor sees it.
#[derive(Debug)]
pub struct AccountState {
    pub key: Key,
    /// The program that owns the account.
    pub owner: Key,
    pub is_signer: bool,
    pub lamports: u64,
    pub data: Vec<u8>,
}

/// An operation of the token service.
#[derive(Debug, Clone, Copy, PartialEq, Eq)]
pub enum TokenOp {
    /// Hands ownership of a token account to a new owner.
    SetOwner { account: Key, new_owner: Key, owner: Key },
    /// Moves `amount` tokens from `source` to `destination`.
    Transfer { source: Key, destination: Key, authority: Key, amount: u64 },
    /// Closes a token account, sending its native balance to `destination`.
    Close { account: Key, destination: Key, owner: Key },
}

/// A token-service operation with identities as byte sequences.
pub enum TokenOpModel {
    SetOwner { account: Seq<u8>, new_owner: Seq<u8>, owner: Seq<u8> },
    Transfer { source: Seq<u8>, destination: Seq<u8>, authority: Seq<u8>, amount: u64 },
    Close { account: Seq<u8>, destination: Seq<u8>, owner: Seq<u8> },
}

impl View for TokenOp {
    type V = TokenOpModel;

    open spec fn view(&self) -> TokenOpModel {
        match *self {
            TokenOp::SetOwner { account, new_owner, owner } => TokenOpModel::SetOwner {
                account: account@,
                new_owner: new_owner@,
                owner: owner@,
            },
            TokenOp::Transfer { source, destination, authority, amount } => TokenOpModel::Transfer {
                source: source@,
                destination: destination@,
                authority: authority@,
                amount,
            },
            TokenOp::Close { account, destination, owner } => TokenOpModel::Close {
                account: account@,
                destination: destination@,
                owner: owner@,
            },
        }
    }
}

/// A delegated call to the token service: the operation, the token program it
/// goes to, the bump with which this program signs for its derived authority
/// (none where an ordinary signature authorizes it), and the built instruction.
#[derive(Debug)]
pub struct TokenCall {
    pub op: TokenOp,
    pub program: Key,
    pub signer_bump: Option<u8>,
    pub instruction: Instruction,
}

/// One step that the host carries out, in order, after the processor has
/// accepted an instruction.
#[derive(Debug)]
pub enum Step {
    /// Issue a delegated call to the token service.
    Invoke(TokenCall),
    /// Move the escrow storage account's whole balance to the initializer's
    /// main account, by `Processor::settle`; both are positions in the
    /// account list.
    Settle { escrow: usize, initializer: usize },
}

/// A step with its instruction left out.
pub enum StepModel {
    Invoke { op: TokenOpModel, program: Seq<u8>, signer_bump: Option<u8> },
    Settle { escrow: usize, initializer: usize },
}

impl View for Step {
    type V = StepModel;

    open spec fn view(&self) -> StepModel {
        match self {
            Step::Invoke(c) => StepModel::Invoke {
                op: c.op@,
                program: c.program@,
                signer_bump: c.signer_bump,
            },
            Step::Settle { escrow, initializer } => StepModel::Settle {
                escrow: *escrow,
                initializer: *initializer,
            },
        }
    }
}

/// The model of a list of steps.
pub open spec fn plan_view(v: Seq<Step>) -> Seq<StepModel> {
    v.map_values(|s: Step| s@)
}

/// The seed from which this program derives its authority: "escrow".
pub open spec fn escrow_seed_bytes() -> Seq<u8> {
    seq![101u8, 115, 99, 114, 111, 119]
}

/// The program's derived authority: its address and bump.
pub open spec fn authority_of(program_id: Seq<u8>) -> Option<(Seq<u8>, u8)> {
    program_address(escrow_seed_bytes(), program_id)
}

/// The model of a derived address and bump.
pub open spec fn authority_view(a: Option<(Key, u8)>) -> Option<(Seq<u8>, u8)> {
    match a {
        Some((k, b)) => Some((k@, b)),
        None => None,
    }
}

/// The outcome of opening an escrow: the record stored in the escrow account
/// and the steps to carry out, or the first check that fails.
/// Accounts: initializer, custody account, receive account, escrow account,
/// rent account, token program.
pub open spec fn init_outcome(
    accs: Seq<AccountState>,
    amount: u64,
    rent_minimum: Option<u64>,
    authority: Option<(Seq<u8>, u8)>,
) -> Result<(Seq<u8>, Seq<StepModel>), ProcessError> {
    if accs.len() < 1 {
        Err(ProcessError::NotEnoughAccountKeys)
    } else if !accs[0].is_signer {
        Err(ProcessError::MissingRequiredSignature)
    } else if accs.len() < 3 {
        Err(ProcessError::NotEnoughAccountKeys)
    } else if accs[2].owner@ != token_program_key() {
        Err(ProcessError::IncorrectProgramId)
    } else if accs.len() < 5 {
        Err(ProcessError::NotEnoughAccountKeys)
    } else if rent_minimum is None {
        Err(ProcessError::InvalidArgument)
    } else if accs[3].lamports < rent_minimum->Some_0 {
        Err(ProcessError::Custom(EscrowError::NotRentExempt))
    } else if decode_record(accs[3].data@) is Err {
        Err(decode_record(accs[3].data@)->Err_0)
    } else if decode_record(accs[3].data@)->Ok_0.is_initialized {
        Err(ProcessError::AccountAlreadyInitialized)
    } else if authority is None {
        Err(ProcessError::InvalidSeeds)
    } else if accs.len() < 6 {
        Err(ProcessError::NotEnoughAccountKeys)
    } else if accs[5].key@ != token_program_key() {
        Err(ProcessError::IncorrectProgramId)
    } else {
        Ok(
            (
                record_bytes(
                    EscrowModel {
                        is_initialized: true,
                        initializer: accs[0].key@,
                        temp_token_account: accs[1].key@,
                        receive_account: accs[2].key@,
                        expected_amount: amount,
                    },
                ),
                seq![
                    StepModel::Invoke {
                        op: TokenOpModel::SetOwner {
                            account: accs[1].key@,
                            new_owner: authority->Some_0.0,
                            owner: accs[0].key@,
                        },
                        program: accs[5].key@,
                        signer_bump: None,
                    },
                ],
            ),
        )
    }
}

/// Opening an escrow returned `r` and left the accounts `after`: on failure
/// nothing changed; on success only the escrow account's data did.
pub open spec fn init_result(
    before: Seq<AccountState>,
    after: Seq<AccountState>,
    amount: u64,
    rent_minimum: Option<u64>,
    authority: Option<(Seq<u8>, u8)>,
    r: Result<Vec<Step>, ProcessError>,
) -> bool {
    match init_outcome(before, amount, rent_minimum, authority) {
        Err(e) => r == Err::<Vec<Step>, ProcessError>(e) && after == before,
        Ok((data, plan)) => {
            &&& r is Ok
            &&& plan_view(r->Ok_0@) == plan
            &&& after.len() == before.len()
            &&& forall|i: int| 0 <= i < before.len() && i != 3 ==> after[i] == before[i]
            &&& after[3].key == before[3].key
            &&& after[3].owner == before[3].owner
            &&& after[3].is_signer == before[3].is_signer
            &&& after[3].lamports == before[3].lamports
            &&& after[3].data@ == data
        },
    }
}

/// The outcome of completing an escrow, given what reading the custody
/// account's token balance gave: the steps to carry out, or the first check
/// that fails.
/// Accounts: taker, taker's token-B source, taker's token-A destination,
/// custody account, initializer's main account, initializer's receive account,
/// escrow account, token program, derived authority.
pub open spec fn exchange_outcome(
    accs: Seq<AccountState>,
    amount: u64,
    custody: Result<u64, ProcessError>,
    authority: Option<(Seq<u8>, u8)>,
) -> Result<Seq<StepModel>, ProcessError> {
    if accs.len() < 1 {
        Err(ProcessError::NotEnoughAccountKeys)
    } else if !accs[0].is_signer {
        Err(ProcessError::MissingRequiredSignature)
    } else if accs.len() < 4 {
        Err(ProcessError::NotEnoughAccountKeys)
    } else if custody is Err {
        Err(custody->Err_0)
    } else if authority is None {
        Err(ProcessError::InvalidSeeds)
    } else if amount != custody->Ok_0 {
        Err(ProcessError::Custom(EscrowError::ExpectedAmountMismatch))
    } else if accs.len() < 7 {
        Err(ProcessError::NotEnoughAccountKeys)
    } else if decode_initialized_record(accs[6].data@) is Err {
        Err(decode_initialized_record(accs[6].data@)->Err_0)
    } else if decode_initialized_record(accs[6].data@)->Ok_0.temp_token_account != accs[3].key@
        || decode_initialized_record(accs[6].data@)->Ok_0.initializer != accs[4].key@
        || decode_initialized_record(accs[6].data@)->Ok_0.receive_account != accs[5].key@ {
        Err(ProcessError::InvalidAccountData)
    } else if accs.len() < 8 {
        Err(ProcessError::NotEnoughAccountKeys)
    } else if accs[7].key@ != token_program_key() {
        Err(ProcessError::IncorrectProgramId)
    } else if accs.len() < 9 {
        Err(ProcessError::NotEnoughAccountKeys)
    } else {
        let rec = decode_initialized_record(accs[6].data@)->Ok_0;
        let pda = authority->Some_0.0;
        let bump = authority->Some_0.1;
        Ok(
            seq![
                StepModel::Invoke {
                    op: TokenOpModel::Transfer {
                        source: accs[1].key@,
                        destination: accs[5].key@,
                        authority: accs[0].key@,
                        amount: rec.expected_amount,
                    },
                    program: accs[7].key@,
                    signer_bump: None,
                },
                StepModel::Invoke {
                    op: TokenOpModel::Transfer {
                        source: accs[3].key@,
                        destination: accs[2].key@,
                        authority: pda,
                        amount: custody->Ok_0,
                    },
                    program: accs[7].key@,
                    signer_bump: Some(bump),
                },
                StepModel::Invoke {
                    op: TokenOpModel::Close {
                        account: accs[3].key@,
                        destination: accs[4].key@,
                        owner: pda,
                    },
                    program: accs[7].key@,
                    signer_bump: Some(bump),
                },
                StepModel::Settle { escrow: 6, initializer: 4 },
            ],
        )
    }
}

/// `r` is what `outcome` asks for.
pub open spec fn plan_matches(
    r: Result<Vec<Step>, ProcessError>,
    outcome: Result<Seq<StepModel>, ProcessError>,
) -> bool {
    match outcome {
        Err(e) => r == Err::<Vec<Step>, ProcessError>(e),
        Ok(plan) => r is Ok && plan_view(r->Ok_0@) == plan,
    }
}

/// Completing an escrow returned `r`, with the custody account's balance
/// read through the token service's account format.
pub open spec fn exchange_result(
    accs: Seq<AccountState>,
    amount: u64,
    authority: Option<(Seq<u8>, u8)>,
    r: Result<Vec<Step>, ProcessError>,
) -> bool {
    plan_matches(r, exchange_outcome(accs, amount, token_read(accs[3].data@), authority))
}

/// The seed from which the program derives its authority.
pub fn escrow_seed() -> (r: Vec<u8>)
    ensures
        r@ == escrow_seed_bytes(),
{
    let mut r: Vec<u8> = Vec::new();
    r.push(101u8);
    r.push(115u8);
    r.push(99u8);
    r.push(114u8);
    r.push(111u8);
    r.push(119u8);
    assert(r@ =~= escrow_seed_bytes());
    r
}

/// Builds the delegated call for `op` to `program`.
fn token_call(op: TokenOp, program: &Key, signer_bump: Option<u8>) -> (r: Result<
    Step,
    ProcessError,
>)
    ensures
        r is Ok <==> program@ == token_program_key(),
        r is Err ==> r->Err_0 == ProcessError::IncorrectProgramId,
        r is Ok ==> r->Ok_0@ == (StepModel::Invoke { op: op@, program: program@, signer_bump }),
{
    let built = match op {
        TokenOp::SetOwner { account, new_owner, owner } => set_owner_instruction(
            program,
            &account,
            &new_owner,
            &owner,
        ),
        TokenOp::Transfer { source, destination, authority, amount } => transfer_instruction(
            program,
            &source,
            &destination,
            &authority,
            amount,
        ),
        TokenOp::Close { account, destination, owner } => close_account_instruction(
            program,
            &account,
            &destination,
            &owner,
        ),
    };
    match built {
        Ok(instruction) => Ok(Step::Invoke(TokenCall { op, program: *program, signer_bump, instruction })),
        Err(_) => Err(ProcessError::IncorrectProgramId),
    }
}

/// The escrow program's instruction processor.
pub struct Processor;

impl Processor {
    /// Decodes `instruction_data` and runs the instruction it names against
    /// `accounts`. `rent_minimum` is the rent-exempt minimum balance for the
    /// escrow account's data size, as the rent account gives it, or none where
    /// that account does not hold the rent parameters; only opening an escrow
    /// reads it. On success the steps returned are still to be carried out.
    pub fn process(
        program_id: &Key,
        accounts: &mut Vec<AccountState>,
        instruction_data: &[u8],
        rent_minimum: Option<u64>,
    ) -> (r: Result<Vec<Step>, ProcessError>)
        ensures
            match decode_instruction(instruction_data@) {
                Err(e) => r == Err::<Vec<Step>, ProcessError>(ProcessError::Custom(e))
                    && final(accounts)@ == old(accounts)@,
                Ok(EscrowInstruction::InitEscrow { amount }) => init_result(
                    old(accounts)@,
                    final(accounts)@,
                    amount,
                    rent_minimum,
                    authority_of(program_id@),
                    r,
                ),
                Ok(EscrowInstruction::Exchange { amount }) => final(accounts)@ == old(accounts)@
                    && exchange_result(old(accounts)@, amount, authority_of(program_id@), r),
            },
    {
        match EscrowInstruction::unpack(instruction_data) {
            Err(e) => Err(ProcessError::Custom(e)),
            Ok(EscrowInstruction::InitEscrow { amount }) => Self::process_init_escrow(
                accounts,
                amount,
                program_id,
                rent_minimum,
            ),
            Ok(EscrowInstruction::Exchange { amount }) => Self::process_exchange(
                accounts,
                amount,
                program_id,
            ),
        }
    }

    /// Opens an escrow that asks `amount` of token B in return.
    pub fn process_init_escrow(
        accounts: &mut Vec<AccountState>,
        amount: u64,
        program_id: &Key,
        rent_minimum: Option<u64>,
    ) -> (r: Result<Vec<Step>, ProcessError>)
        ensures
            init_result(
                old(accounts)@,
                final(accounts)@,
                amount,
                rent_minimum,
                authority_of(program_id@),
                r,
            ),
    {
        if accounts.len() < 1 {
            return Err(ProcessError::NotEnoughAccountKeys);
        }
        if !accounts[0].is_signer {
            return Err(ProcessError::MissingRequiredSignature);
        }
        if accounts.len() < 3 {
            return Err(ProcessError::NotEnoughAccountKeys);
        }
        let token_id = token_program_id();
        if !same_key(&accounts[2].owner, &token_id) {
            return Err(ProcessError::IncorrectProgramId);
        }
        if accounts.len() < 5 {
            return Err(ProcessError::NotEnoughAccountKeys);
        }
        let minimum = match rent_minimum {
            Some(m) => m,
            None => return Err(ProcessError::InvalidArgument),
        };
        if accounts[3].lamports < minimum {
            return Err(ProcessError::Custom(EscrowError::NotRentExempt));
        }
        let escrow_info = match Escrow::unpack_unchecked(accounts[3].data.as_slice()) {
            Ok(e) => e,
            Err(e) => return Err(e),
        };
        if escrow_info.is_initialized {
            return Err(ProcessError::AccountAlreadyInitialized);
        }
        let record = Escrow {
            is_initialized: true,
            initializer_pubkey: accounts[0].key,
            temp_token_account_pubkey: accounts[1].key,
            initializer_token_to_receive_account_pubkey: accounts[2].key,
            expected_amount: amount,
        };
        let data = record.to_bytes();
        let seed = escrow_seed();
        let derived = find_program_address(seed.as_slice(), program_id);
        let pda = match derived {
            Some((k, _)) => k,
            None => return Err(ProcessError::InvalidSeeds),
        };
        if accounts.len() < 6 {
            return Err(ProcessError::NotEnoughAccountKeys);
        }
        let op = TokenOp::SetOwner {
            account: accounts[1].key,
            new_owner: pda,
            owner: accounts[0].key,
        };
        let step = match token_call(op, &accounts[5].key, None) {
            Ok(s) => s,
            Err(e) => return Err(e),
        };
        let updated = AccountState {
            key: accounts[3].key,
            owner: accounts[3].owner,
            is_signer: accounts[3].is_signer,
            lamports: accounts[3].lamports,
            data,
        };
        accounts.set(3, updated);
        let mut plan: Vec<Step> = Vec::new();
        plan.push(step);
        assert(plan_view(plan@) =~= init_outcome(
            old(accounts)@,
            amount,
            rent_minimum,
            authority_of(program_id@),
        )->Ok_0.1);
        Ok(plan)
    }

    /// Completes an escrow once the custody account's token balance has been
    /// read (`custody`) and the program's authority derived (`authority`).
    pub fn exchange_with_balance(
        accounts: &Vec<AccountState>,
        amount_expected_by_taker: u64,
        custody: Result<u64, ProcessError>,
        authority: Option<(Key, u8)>,
    ) -> (r: Result<Vec<Step>, ProcessError>)
        ensures
            plan_matches(
                r,
                exchange_outcome(
                    accounts@,
                    amount_expected_by_taker,
                    custody,
                    authority_view(authority),
                ),
            ),
    {
        if accounts.len() < 1 {
            return Err(ProcessError::NotEnoughAccountKeys);
        }
        if !accounts[0].is_signer {
            return Err(ProcessError::MissingRequiredSignature);
        }
        if accounts.len() < 4 {
            return Err(ProcessError::NotEnoughAccountKeys);
        }
        let custody_amount = match custody {
            Ok(a) => a,
            Err(e) => return Err(e),
        };
        let (pda, bump) = match authority {
            Some(p) => p,
            None => return Err(ProcessError::InvalidSeeds),
        };
        if amount_expected_by_taker != custody_amount {
            return Err(ProcessError::Custom(EscrowError::ExpectedAmountMismatch));
        }
        if accounts.len() < 7 {
            return Err(ProcessError::NotEnoughAccountKeys);
        }
        let escrow_info = match Escrow::unpack(accounts[6].data.as_slice()) {
            Ok(e) => e,
            Err(e) => return Err(e),
        };
        if !same_key(&escrow_info.temp_token_account_pubkey, &accounts[3].key) {
            return Err(ProcessError::InvalidAccountData);
        }
        if !same_key(&escrow_info.initializer_pubkey, &accounts[4].key) {
            return Err(ProcessError::InvalidAccountData);
        }
        if !same_key(&escrow_info.initializer_token_to_receive_account_pubkey, &accounts[5].key) {
            return Err(ProcessError::InvalidAccountData);
        }
        if accounts.len() < 8 {
            return Err(ProcessError::NotEnoughAccountKeys);
        }
        let token_program = accounts[7].key;
        let pay = TokenOp::Transfer {
            source: accounts[1].key,
            destination: accounts[5].key,
            authority: accounts[0].key,
            amount: escrow_info.expected_amount,
        };
        let pay_step = match token_call(pay, &token_program, None) {
            Ok(s) => s,
            Err(e) => return Err(e),
        };
        if accounts.len() < 9 {
            return Err(ProcessError::NotEnoughAccountKeys);
        }
        let release = TokenOp::Transfer {
            source: accounts[3].key,
            destination: accounts[2].key,
            authority: pda,
            amount: custody_amount,
        };
        let release_step = match token_call(release, &token_program, Some(bump)) {
            Ok(s) => s,
            Err(e) => return Err(e),
        };
        let close = TokenOp::Close {
            account: accounts[3].key,
            destination: accounts[4].key,
            owner: pda,
        };
        let close_step = match token_call(close, &token_program, Some(bump)) {
            Ok(s) => s,
            Err(e) => return Err(e),
        };
        let mut plan: Vec<Step> = Vec::new();
        plan.push(pay_step);
        plan.push(release_step);
        plan.push(close_step);
        plan.push(Step::Settle { escrow: 6, initializer: 4 });
        assert(plan_view(plan@) =~= exchange_outcome(
            accounts@,
            amount_expected_by_taker,
            custody,
            authority_view(authority),
        )->Ok_0);
        Ok(plan)
    }

    /// Completes an escrow: pays the initializer, releases the custody
    /// account's tokens to the taker, closes the custody account and returns
    /// the escrow account's balance to the initializer.
    pub fn process_exchange(
        accounts: &Vec<AccountState>,
        amount_expected_by_taker: u64,
        program_id: &Key,
    ) -> (r: Result<Vec<Step>, ProcessError>)
        ensures
            exchange_result(accounts@, amount_expected_by_taker, authority_of(program_id@), r),
    {
        if accounts.len() < 1 {
            return Err(ProcessError::NotEnoughAccountKeys);
        }
        if !accounts[0].is_signer {
            return Err(ProcessError::MissingRequiredSignature);
        }
        if accounts.len() < 4 {
            return Err(ProcessError::NotEnoughAccountKeys);
        }
        let custody = token_account_amount(accounts[3].data.as_slice());
        let seed = escrow_seed();
        let authority = find_program_address(seed.as_slice(), program_id);
        Self::exchange_with_balance(accounts, amount_expected_by_taker, custody, authority)
    }

    /// Moves the escrow account's whole balance to the initializer's main
    /// account; where the sum would overflow, fails and changes neither.
    pub fn settle(initializer_lamports: &mut u64, escrow_lamports: &mut u64) -> (r: Result<
        (),
        EscrowError,
    >)
        ensures
            r is Err <==> *old(initializer_lamports) + *old(escrow_lamports) > u64::MAX,
            r is Err ==> r->Err_0 == EscrowError::AmountOverflow && *final(initializer_lamports)
                == *old(initializer_lamports) && *final(escrow_lamports) == *old(escrow_lamports),
            r is Ok ==> *final(initializer_lamports) == *old(initializer_lamports) + *old(
                escrow_lamports,
            ) && *final(escrow_lamports) == 0,
    {
        match initializer_lamports.checked_add(*escrow_lamports) {
            Some(total) => {
                *initializer_lamports = total;
                *escrow_lamports = 0;
                Ok(())
            },
            None => Err(EscrowError::AmountOverflow),
        }
    }
}

/// A successful opening stores an initialized record whose identities and
/// amount are exactly the inputs, and hands ownership of the custody account
/// from the initializer to the program's derived authority.
pub proof fn lemma_init_stores_inputs(
    accs: Seq<AccountState>,
    amount: u64,
    rent_minimum: Option<u64>,
    authority: Option<(Seq<u8>, u8)>,
)
    requires
        init_outcome(accs, amount, rent_minimum, authority) is Ok,
    ensures
        decode_initialized_record(init_outcome(accs, amount, rent_minimum, authority)->Ok_0.0)
            == Ok::<EscrowModel, ProcessError>(
            EscrowModel {
                is_initialized: true,
                initializer: accs[0].key@,
                temp_token_account: accs[1].key@,
                receive_account: accs[2].key@,
                expected_amount: amount,
            },
        ),
        init_outcome(accs, amount, rent_minimum, authority)->Ok_0.1 == seq![
            StepModel::Invoke {
                op: TokenOpModel::SetOwner {
                    account: accs[1].key@,
                    new_owner: authority->Some_0.0,
                    owner: accs[0].key@,
                },
                program: accs[5].key@,
                signer_bump: None,
            },
        ],
{
    lemma_record_round_trip(
        EscrowModel {
            is_initialized: true,
            initializer: accs[0].key@,
            temp_token_account: accs[1].key@,
            receive_account: accs[2].key@,
            expected_amount: amount,
        },
    );
}

/// Opening an escrow on a storage account that a successful opening has
/// already filled always fails, whatever the other inputs; once the checks
/// that come before it pass, it fails as already initialized.
pub proof fn lemma_init_twice_rejected(
    first: Seq<AccountState>,
    amount: u64,
    rent_minimum: Option<u64>,
    authority: Option<(Seq<u8>, u8)>,
    second: Seq<AccountState>,
    amount2: u64,
    rent_minimum2: Option<u64>,
    authority2: Option<(Seq<u8>, u8)>,
)
    requires
        init_outcome(first, amount, rent_minimum, authority) is Ok,
        second.len() >= 4,
        second[3].data@ == init_outcome(first, amount, rent_minimum, authority)->Ok_0.0,
    ensures
        init_outcome(second, amount2, rent_minimum2, authority2) is Err,
        second.len() >= 5 && second[0].is_signer && second[2].owner@ == token_program_key()
            && rent_minimum2 is Some && second[3].lamports >= rent_minimum2->Some_0
            ==> init_outcome(second, amount2, rent_minimum2, authority2) == Err::<
            (Seq<u8>, Seq<StepModel>),
            ProcessError,
        >(ProcessError::AccountAlreadyInitialized),
{
    lemma_init_stores_inputs(first, amount, rent_minimum, authority);
}

/// Completing an escrow with an expected amount other than the custody
/// account's balance fails with a mismatch and moves no tokens.
pub proof fn lemma_exchange_amount_mismatch(
    accs: Seq<AccountState>,
    amount: u64,
    balance: u64,
    authority: Option<(Seq<u8>, u8)>,
)
    requires
        accs.len() >= 4,
        accs[0].is_signer,
        authority is Some,
        amount != balance,
    ensures
        exchange_outcome(accs, amount, Ok(balance), authority) == Err::<
            Seq<StepModel>,
            ProcessError,
        >(ProcessError::Custom(EscrowError::ExpectedAmountMismatch)),
{
}

/// Completing an escrow with the right amount but a custody, initializer or
/// receive account other than the record's fails as invalid account data and
/// moves no tokens.
pub proof fn lemma_exchange_identity_mismatch(
    accs: Seq<AccountState>,
    balance: u64,
    authority: Option<(Seq<u8>, u8)>,
)
    requires
        accs.len() >= 7,
        accs[0].is_signer,
        authority is Some,
        decode_initialized_record(accs[6].data@) is Ok,
        decode_initialized_record(accs[6].data@)->Ok_0.temp_token_account != accs[3].key@
            || decode_initialized_record(accs[6].data@)->Ok_0.initializer != accs[4].key@
            || decode_initialized_record(accs[6].data@)->Ok_0.receive_account != accs[5].key@,
    ensures
        exchange_outcome(accs, balance, Ok(balance), authority) == Err::<
            Seq<StepModel>,
            ProcessError,
        >(ProcessError::InvalidAccountData),
{
}

/// Opening an escrow and then completing it with the same accounts succeeds:
/// the taker pays exactly the amount fixed at opening to the initializer's
/// receive account, the custody account's whole balance goes to the taker,
/// the custody account is closed to the initializer, and the escrow account's
/// balance is settled to the initializer.
pub proof fn lemma_init_then_exchange(
    first: Seq<AccountState>,
    amount: u64,
    rent_minimum: Option<u64>,
    authority: Option<(Seq<u8>, u8)>,
    second: Seq<AccountState>,
    balance: u64,
)
    requires
        init_outcome(first, amount, rent_minimum, authority) is Ok,
        second.len() >= 9,
        second[0].is_signer,
        second[6].data@ == init_outcome(first, amount, rent_minimum, authority)->Ok_0.0,
        second[3].key == first[1].key,
        second[4].key == first[0].key,
        second[5].key == first[2].key,
        second[7].key@ == token_program_key(),
    ensures
        exchange_outcome(second, balance, Ok(balance), authority) == Ok::<
            Seq<StepModel>,
            ProcessError,
        >(
            seq![
                StepModel::Invoke {
                    op: TokenOpModel::Transfer {
                        source: second[1].key@,
                        destination: first[2].key@,
                        authority: second[0].key@,
                        amount,
                    },
                    program: second[7].key@,
                    signer_bump: None,
                },
                StepModel::Invoke {
                    op: TokenOpModel::Transfer {
                        source: first[1].key@,
                        destination: second[2].key@,
                        authority: authority->Some_0.0,
                        amount: balance,
                    },
                    program: second[7].key@,
                    signer_bump: Some(authority->Some_0.1),
                },
                StepModel::Invoke {
                    op: TokenOpModel::Close {
                        account: first[1].key@,
                        destination: first[0].key@,
                        owner: authority->Some_0.0,
                    },
                    program: second[7].key@,
                    signer_bump: Some(authority->Some_0.1),
                },
                StepModel::Settle { escrow: 6, initializer: 4 },
            ],
        ),
{
    lemma_init_stores_inputs(first, amount, rent_minimum, authority);
}

} // verus!
