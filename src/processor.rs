use crate::address::{
    derive_address, program_address, system_program_bytes, system_program_id,
    token_program_bytes, token_program_id, Address, SeedTag,
};
use crate::error::{ProcessError, SwapError};
use crate::instruction::{instruction_spec, Instruction};
use crate::state::{Swap, SWAP_LEN};
use crate::token::{mint_unpacks, mint_valid, token_account_spec, unpack_token_account, TOKEN_ACCOUNT_LEN};
use vstd::prelude::*;

verus! {

/// What the program sees of one account handed to an instruction.
#[derive(Debug, Clone)]
pub struct AccountView {
    pub key: Address,
    pub owner: Address,
    pub is_signer: bool,
    pub is_writable: bool,
    pub lamports: u64,
    pub data: Vec<u8>,
}

/// The seeds with which the program signs as one of its derived addresses:
/// the namespace seed, the creator's token account, and the bump.
#[derive(Debug, Clone, Copy, PartialEq, Eq)]
pub struct PdaSigner {
    pub tag: SeedTag,
    pub key: Address,
    pub bump: u8,
}

/// One ledger operation that a successful instruction performs. The
/// operations of an instruction run in order and all of them must succeed.
#[derive(Debug, Clone, Copy, PartialEq, Eq)]
pub enum Effect {
    /// Allocate `space` bytes at `account` through the system program,
    /// funded by `payer` with the rent-exempt minimum and owned by `owner`.
    CreateAccount { payer: Address, account: Address, space: u64, owner: Address, signer: PdaSigner },
    /// Store the encoding of `record` as the data of `account`, which was
    /// allocated with exactly `SWAP_LEN` bytes.
    WriteRecord { account: Address, record: Swap },
    /// Allocate a program-derived account as `CreateAccount` does, also when
    /// the address already holds lamports.
    CreatePdaAccount { payer: Address, account: Address, space: u64, owner: Address, signer: PdaSigner },
    /// Initialize `account` as a token account of `mint` held by `authority`.
    InitializeTokenAccount { account: Address, mint: Address, authority: Address },
    /// Move `amount` tokens from `source` to `destination` on the authority
    /// of `authority`, signed by derivation when `pda_signer` is present.
    Transfer { source: Address, destination: Address, authority: Address, amount: u64, pda_signer: Option<PdaSigner> },
    /// Give `destination` the balance `destination_lamports`, take all
    /// lamports from `account` and clear its data.
    CloseRecord { account: Address, destination: Address, destination_lamports: u64 },
    /// Close the token account `account` through the token program, its
    /// lamports going to `destination`.
    CloseTokenAccount { account: Address, destination: Address, authority: Address, signer: PdaSigner },
}

/// Whether `a` is the token program's address.
pub open spec fn is_token_program(a: Address) -> bool {
    a.bytes@ == token_program_bytes()
}

/// Whether `a` is the system program's address.
pub open spec fn is_system_program(a: Address) -> bool {
    a.bytes@ == system_program_bytes()
}

/// The derivation of `tag`'s address for `key`, as the host computes it.
pub open spec fn derived(tag: SeedTag, key: Address, program_id: Address) -> Option<(Seq<u8>, u8)> {
    program_address(seq![tag.seed_spec(), key.bytes@], program_id.bytes@)
}

/// Whether a token account with data `b` has the given mint and owner.
pub open spec fn token_fields_are(b: Seq<u8>, mint: Option<Address>, owner: Option<Address>) -> bool {
    match token_account_spec(b) {
        Ok((m, o)) => (match mint {
            Some(x) => m == x.bytes@,
            None => true,
        }) && (match owner {
            Some(x) => o == x.bytes@,
            None => true,
        }),
        Err(_) => false,
    }
}

/// The record a successful create stores.
pub open spec fn created_record(
    a: Seq<AccountView>,
    offered_amount: u64,
    desired_amount: u64,
    swap_bump: u8,
    escrow_bump: u8,
) -> Swap {
    Swap {
        is_initialized: true,
        creator: a[0].key,
        offered_mint: a[1].key,
        desired_mint: a[3].key,
        ata_creator_offered: a[2].key,
        escrow: a[5].key,
        offered_amount,
        desired_amount,
        swap_bump,
        escrow_bump,
    }
}

/// The operations of a successful create, in order.
pub open spec fn create_effects(
    program_id: Address,
    a: Seq<AccountView>,
    offered_amount: u64,
    desired_amount: u64,
    swap_bump: u8,
    escrow_bump: u8,
) -> Seq<Effect> {
    let (creator, mint_offered, ata, swap, escrow, token_program) = (a[0], a[1], a[2], a[4], a[5], a[6]);
    seq![
        Effect::CreateAccount {
            payer: creator.key,
            account: swap.key,
            space: SWAP_LEN as u64,
            owner: program_id,
            signer: PdaSigner { tag: SeedTag::Swap, key: ata.key, bump: swap_bump },
        },
        Effect::WriteRecord {
            account: swap.key,
            record: created_record(a, offered_amount, desired_amount, swap_bump, escrow_bump),
        },
        Effect::CreatePdaAccount {
            payer: creator.key,
            account: escrow.key,
            space: TOKEN_ACCOUNT_LEN as u64,
            owner: token_program.key,
            signer: PdaSigner { tag: SeedTag::Escrow, key: ata.key, bump: escrow_bump },
        },
        Effect::InitializeTokenAccount { account: escrow.key, mint: mint_offered.key, authority: swap.key },
        Effect::Transfer {
            source: ata.key,
            destination: escrow.key,
            authority: creator.key,
            amount: offered_amount,
            pda_signer: None,
        },
    ]
}

/// The outcome of a create on accounts `a`: the first failing check, or the
/// operations to perform. Accounts past the eighth are ignored.
pub open spec fn create_swap_spec(
    program_id: Address,
    a: Seq<AccountView>,
    offered_amount: u64,
    desired_amount: u64,
) -> Result<Seq<Effect>, ProcessError> {
    if a.len() < 8 {
        Err(ProcessError::NotEnoughAccountKeys)
    } else {
        let (creator, mint_offered, ata, mint_desired, swap, escrow, token_program, system_program) = (
            a[0],
            a[1],
            a[2],
            a[3],
            a[4],
            a[5],
            a[6],
            a[7],
        );
        if !creator.is_signer {
            Err(ProcessError::MissingRequiredSignature)
        } else if !creator.is_writable {
            Err(ProcessError::Custom(SwapError::AccountNotWritable))
        } else if mint_offered.owner != token_program.key {
            Err(ProcessError::IncorrectProgramId)
        } else if !mint_valid(mint_offered.data@) {
            Err(ProcessError::Custom(SwapError::InvalidMintAccountData))
        } else if ata.owner != token_program.key {
            Err(ProcessError::IncorrectProgramId)
        } else if !ata.is_writable {
            Err(ProcessError::Custom(SwapError::AccountNotWritable))
        } else if token_account_spec(ata.data@) is Err {
            Err(ProcessError::Custom(SwapError::InvalidTokenAccountData))
        } else if !token_fields_are(ata.data@, Some(mint_offered.key), None) {
            Err(ProcessError::Custom(SwapError::InvalidAtaCreatorOfferedMint))
        } else if !token_fields_are(ata.data@, None, Some(creator.key)) {
            Err(ProcessError::Custom(SwapError::InvalidAtaCreatorOfferedOwner))
        } else if mint_desired.owner != token_program.key {
            Err(ProcessError::IncorrectProgramId)
        } else if !mint_valid(mint_desired.data@) {
            Err(ProcessError::Custom(SwapError::InvalidMintAccountData))
        } else if !is_token_program(token_program.key) {
            Err(ProcessError::IncorrectProgramId)
        } else if !is_system_program(system_program.key) {
            Err(ProcessError::IncorrectProgramId)
        } else {
            match (derived(SeedTag::Swap, ata.key, program_id), derived(SeedTag::Escrow, ata.key, program_id)) {
                (Some((swap_pda, swap_bump)), Some((escrow_pda, escrow_bump))) => {
                    if swap.key.bytes@ != swap_pda {
                        Err(ProcessError::InvalidArgument)
                    } else if escrow.key.bytes@ != escrow_pda {
                        Err(ProcessError::InvalidArgument)
                    } else if !swap.is_writable {
                        Err(ProcessError::Custom(SwapError::AccountNotWritable))
                    } else {
                        Ok(create_effects(program_id, a, offered_amount, desired_amount, swap_bump, escrow_bump))
                    }
                },
                _ => Err(ProcessError::InvalidSeeds),
            }
        }
    }
}

fn check_token_program(key: &Address) -> (r: bool)
    ensures
        r == is_token_program(*key),
{
    let id = token_program_id();
    proof {
        if key.bytes@ == id.bytes@ {
            Address::lemma_bytes_determine(*key, id);
        }
    }
    *key == id
}

fn check_system_program(key: &Address) -> (r: bool)
    ensures
        r == is_system_program(*key),
{
    let id = system_program_id();
    proof {
        if key.bytes@ == id.bytes@ {
            Address::lemma_bytes_determine(*key, id);
        }
    }
    *key == id
}

/// Validates the accounts of a create and returns the operations that open
/// the offer: allocate and fill the swap record, allocate and initialize the
/// escrow token account under the record's authority, and move
/// `offered_amount` tokens into it. No operation is returned on failure.
pub fn process_create_swap(
    program_id: &Address,
    accounts: &[AccountView],
    offered_amount: u64,
    desired_amount: u64,
) -> (r: Result<Vec<Effect>, ProcessError>)
    ensures
        match (r, create_swap_spec(*program_id, accounts@, offered_amount, desired_amount)) {
            (Ok(effects), Ok(expected)) => effects@ == expected,
            (Err(e), Err(expected)) => e == expected,
            _ => false,
        },
{
    if accounts.len() < 8 {
        return Err(ProcessError::NotEnoughAccountKeys);
    }
    let creator = &accounts[0];
    let mint_offered = &accounts[1];
    let ata_creator_offered = &accounts[2];
    let mint_desired = &accounts[3];
    let swap = &accounts[4];
    let ata_escrow = &accounts[5];
    let token_program = &accounts[6];
    let system_program = &accounts[7];

    // The creator signs and pays.
    if !creator.is_signer {
        return Err(ProcessError::MissingRequiredSignature);
    }
    if !creator.is_writable {
        return Err(ProcessError::Custom(SwapError::AccountNotWritable));
    }

    // The offered mint belongs to the token program.
    if mint_offered.owner != token_program.key {
        return Err(ProcessError::IncorrectProgramId);
    }
    if !mint_unpacks(mint_offered.data.as_slice()) {
        return Err(ProcessError::Custom(SwapError::InvalidMintAccountData));
    }

    // The creator's token account holds the offered mint and is the creator's.
    if ata_creator_offered.owner != token_program.key {
        return Err(ProcessError::IncorrectProgramId);
    }
    if !ata_creator_offered.is_writable {
        return Err(ProcessError::Custom(SwapError::AccountNotWritable));
    }
    let fields = match unpack_token_account(ata_creator_offered.data.as_slice()) {
        Ok(f) => f,
        Err(_) => return Err(ProcessError::Custom(SwapError::InvalidTokenAccountData)),
    };
    if fields.mint != mint_offered.key {
        proof {
            if fields.mint.bytes@ == mint_offered.key.bytes@ {
                Address::lemma_bytes_determine(fields.mint, mint_offered.key);
            }
        }
        return Err(ProcessError::Custom(SwapError::InvalidAtaCreatorOfferedMint));
    }
    if fields.owner != creator.key {
        proof {
            if fields.owner.bytes@ == creator.key.bytes@ {
                Address::lemma_bytes_determine(fields.owner, creator.key);
            }
        }
        return Err(ProcessError::Custom(SwapError::InvalidAtaCreatorOfferedOwner));
    }

    // The desired mint belongs to the token program.
    if mint_desired.owner != token_program.key {
        return Err(ProcessError::IncorrectProgramId);
    }
    if !mint_unpacks(mint_desired.data.as_slice()) {
        return Err(ProcessError::Custom(SwapError::InvalidMintAccountData));
    }

    // The collaborating programs are the well-known ones.
    if !check_token_program(&token_program.key) {
        return Err(ProcessError::IncorrectProgramId);
    }
    if !check_system_program(&system_program.key) {
        return Err(ProcessError::IncorrectProgramId);
    }

    // The record and escrow slots are the derived addresses.
    let (swap_pda, swap_bump) = match derive_address(SeedTag::Swap, &ata_creator_offered.key, program_id) {
        Some(found) => found,
        None => return Err(ProcessError::InvalidSeeds),
    };
    let (escrow_pda, escrow_bump) = match derive_address(SeedTag::Escrow, &ata_creator_offered.key, program_id) {
        Some(found) => found,
        None => return Err(ProcessError::InvalidSeeds),
    };
    if swap.key != swap_pda {
        proof {
            if swap.key.bytes@ == swap_pda.bytes@ {
                Address::lemma_bytes_determine(swap.key, swap_pda);
            }
        }
        return Err(ProcessError::InvalidArgument);
    }
    if ata_escrow.key != escrow_pda {
        proof {
            if ata_escrow.key.bytes@ == escrow_pda.bytes@ {
                Address::lemma_bytes_determine(ata_escrow.key, escrow_pda);
            }
        }
        return Err(ProcessError::InvalidArgument);
    }
    if !swap.is_writable {
        return Err(ProcessError::Custom(SwapError::AccountNotWritable));
    }

    let record = Swap {
        is_initialized: true,
        creator: creator.key,
        offered_mint: mint_offered.key,
        desired_mint: mint_desired.key,
        ata_creator_offered: ata_creator_offered.key,
        escrow: ata_escrow.key,
        offered_amount,
        desired_amount,
        swap_bump,
        escrow_bump,
    };
    let effects = vec![
        Effect::CreateAccount {
            payer: creator.key,
            account: swap.key,
            space: SWAP_LEN as u64,
            owner: *program_id,
            signer: PdaSigner { tag: SeedTag::Swap, key: ata_creator_offered.key, bump: swap_bump },
        },
        Effect::WriteRecord { account: swap.key, record },
        Effect::CreatePdaAccount {
            payer: creator.key,
            account: ata_escrow.key,
            space: TOKEN_ACCOUNT_LEN as u64,
            owner: token_program.key,
            signer: PdaSigner { tag: SeedTag::Escrow, key: ata_creator_offered.key, bump: escrow_bump },
        },
        Effect::InitializeTokenAccount {
            account: ata_escrow.key,
            mint: mint_offered.key,
            authority: swap.key,
        },
        Effect::Transfer {
            source: ata_creator_offered.key,
            destination: ata_escrow.key,
            authority: creator.key,
            amount: offered_amount,
            pda_signer: None,
        },
    ];
    assert(effects@ =~= create_effects(*program_id, accounts@, offered_amount, desired_amount, swap_bump, escrow_bump));
    Ok(effects)
}

/// The operations of a successful cancel, in order.
pub open spec fn cancel_effects(a: Seq<AccountView>, record: Swap) -> Seq<Effect> {
    let (creator, ata, swap, escrow) = (a[0], a[1], a[2], a[3]);
    let signer = PdaSigner { tag: SeedTag::Swap, key: ata.key, bump: record.swap_bump };
    seq![
        Effect::Transfer {
            source: escrow.key,
            destination: ata.key,
            authority: swap.key,
            amount: record.offered_amount,
            pda_signer: Some(signer),
        },
        Effect::CloseRecord {
            account: swap.key,
            destination: creator.key,
            destination_lamports: (creator.lamports + swap.lamports) as u64,
        },
        Effect::CloseTokenAccount { account: escrow.key, destination: creator.key, authority: swap.key, signer },
    ]
}

/// The checks of a cancel that involve the stored record and the escrow,
/// given the record read from the swap account and both derivations.
pub open spec fn cancel_record_spec(
    a: Seq<AccountView>,
    record: Swap,
    swap_bump: u8,
    escrow_pda: Seq<u8>,
    escrow_bump: u8,
) -> Result<Seq<Effect>, ProcessError> {
    let (creator, ata, swap, escrow, token_program, system_program) = (a[0], a[1], a[2], a[3], a[4], a[5]);
    if !record.is_initialized {
        Err(ProcessError::InvalidAccountData)
    } else if record.creator != creator.key {
        Err(ProcessError::InvalidAccountData)
    } else if record.ata_creator_offered != ata.key {
        Err(ProcessError::InvalidAccountData)
    } else if record.escrow != escrow.key {
        Err(ProcessError::InvalidAccountData)
    } else if record.swap_bump != swap_bump {
        Err(ProcessError::InvalidArgument)
    } else if record.escrow_bump != escrow_bump {
        Err(ProcessError::InvalidAccountData)
    } else if escrow.key.bytes@ != escrow_pda {
        Err(ProcessError::InvalidArgument)
    } else if escrow.owner != token_program.key {
        Err(ProcessError::IncorrectProgramId)
    } else if !escrow.is_writable {
        Err(ProcessError::Custom(SwapError::AccountNotWritable))
    } else if token_account_spec(escrow.data@) is Err {
        Err(token_account_spec(escrow.data@)->Err_0)
    } else if !token_fields_are(escrow.data@, None, Some(swap.key)) {
        Err(ProcessError::InvalidAccountData)
    } else if !token_fields_are(escrow.data@, Some(record.offered_mint), None) {
        Err(ProcessError::InvalidAccountData)
    } else if !is_token_program(token_program.key) {
        Err(ProcessError::IncorrectProgramId)
    } else if !is_system_program(system_program.key) {
        Err(ProcessError::IncorrectProgramId)
    } else if creator.lamports + swap.lamports > u64::MAX {
        Err(ProcessError::ArithmeticOverflow)
    } else {
        Ok(cancel_effects(a, record))
    }
}

/// The outcome of a cancel on accounts `a`: the first failing check, or the
/// operations to perform. Accounts past the sixth are ignored.
pub open spec fn cancel_swap_spec(program_id: Address, a: Seq<AccountView>) -> Result<Seq<Effect>, ProcessError> {
    if a.len() < 6 {
        Err(ProcessError::NotEnoughAccountKeys)
    } else {
        let (creator, ata, swap, token_program) = (a[0], a[1], a[2], a[4]);
        if !creator.is_signer {
            Err(ProcessError::MissingRequiredSignature)
        } else if !creator.is_writable {
            Err(ProcessError::Custom(SwapError::AccountNotWritable))
        } else if ata.owner != token_program.key {
            Err(ProcessError::IncorrectProgramId)
        } else if !ata.is_writable {
            Err(ProcessError::Custom(SwapError::AccountNotWritable))
        } else if token_account_spec(ata.data@) is Err {
            Err(token_account_spec(ata.data@)->Err_0)
        } else if !token_fields_are(ata.data@, None, Some(creator.key)) {
            Err(ProcessError::InvalidAccountData)
        } else {
            match (derived(SeedTag::Swap, ata.key, program_id), derived(SeedTag::Escrow, ata.key, program_id)) {
                (Some((swap_pda, swap_bump)), Some((escrow_pda, escrow_bump))) => {
                    if swap.key.bytes@ != swap_pda {
                        Err(ProcessError::InvalidArgument)
                    } else if swap.owner != program_id {
                        Err(ProcessError::InvalidArgument)
                    } else if !swap.is_writable {
                        Err(ProcessError::Custom(SwapError::AccountNotWritable))
                    } else {
                        match Swap::stored_spec(swap.data@) {
                            Err(e) => Err(e),
                            Ok(record) => cancel_record_spec(a, record, swap_bump, escrow_pda, escrow_bump),
                        }
                    }
                },
                _ => Err(ProcessError::InvalidSeeds),
            }
        }
    }
}

/// Validates the accounts of a cancel and returns the operations that close
/// the offer: return the escrowed tokens to the creator's token account,
/// close the swap record into the creator, and close the escrow account into
/// the creator. No operation is returned on failure.
pub fn process_cancel_swap(program_id: &Address, accounts: &[AccountView]) -> (r: Result<Vec<Effect>, ProcessError>)
    ensures
        match (r, cancel_swap_spec(*program_id, accounts@)) {
            (Ok(effects), Ok(expected)) => effects@ == expected,
            (Err(e), Err(expected)) => e == expected,
            _ => false,
        },
{
    if accounts.len() < 6 {
        return Err(ProcessError::NotEnoughAccountKeys);
    }
    let creator = &accounts[0];
    let ata_creator_offered = &accounts[1];
    let swap = &accounts[2];
    let ata_escrow = &accounts[3];
    let token_program = &accounts[4];
    let system_program = &accounts[5];

    // The creator signs and receives the refunds.
    if !creator.is_signer {
        return Err(ProcessError::MissingRequiredSignature);
    }
    if !creator.is_writable {
        return Err(ProcessError::Custom(SwapError::AccountNotWritable));
    }

    // The creator's token account is a token account of the creator.
    if ata_creator_offered.owner != token_program.key {
        return Err(ProcessError::IncorrectProgramId);
    }
    if !ata_creator_offered.is_writable {
        return Err(ProcessError::Custom(SwapError::AccountNotWritable));
    }
    let fields = unpack_token_account(ata_creator_offered.data.as_slice())?;
    if fields.owner != creator.key {
        proof {
            if fields.owner.bytes@ == creator.key.bytes@ {
                Address::lemma_bytes_determine(fields.owner, creator.key);
            }
        }
        return Err(ProcessError::InvalidAccountData);
    }

    // The swap record sits at its derived address and belongs to this program.
    let (swap_pda, swap_bump) = match derive_address(SeedTag::Swap, &ata_creator_offered.key, program_id) {
        Some(found) => found,
        None => return Err(ProcessError::InvalidSeeds),
    };
    let (escrow_pda, escrow_bump) = match derive_address(SeedTag::Escrow, &ata_creator_offered.key, program_id) {
        Some(found) => found,
        None => return Err(ProcessError::InvalidSeeds),
    };
    if swap.key != swap_pda {
        proof {
            if swap.key.bytes@ == swap_pda.bytes@ {
                Address::lemma_bytes_determine(swap.key, swap_pda);
            }
        }
        return Err(ProcessError::InvalidArgument);
    }
    if swap.owner != *program_id {
        return Err(ProcessError::InvalidArgument);
    }
    if !swap.is_writable {
        return Err(ProcessError::Custom(SwapError::AccountNotWritable));
    }
    let record = Swap::unpack(swap.data.as_slice())?;
    let r = check_cancel_record(accounts, &record, swap_bump, &escrow_pda, escrow_bump);
    r
}

fn check_cancel_record(
    accounts: &[AccountView],
    record: &Swap,
    swap_bump: u8,
    escrow_pda: &Address,
    escrow_bump: u8,
) -> (r: Result<Vec<Effect>, ProcessError>)
    requires
        accounts@.len() >= 6,
    ensures
        match (r, cancel_record_spec(accounts@, *record, swap_bump, escrow_pda.bytes@, escrow_bump)) {
            (Ok(effects), Ok(expected)) => effects@ == expected,
            (Err(e), Err(expected)) => e == expected,
            _ => false,
        },
{
    let creator = &accounts[0];
    let ata_creator_offered = &accounts[1];
    let swap = &accounts[2];
    let ata_escrow = &accounts[3];
    let token_program = &accounts[4];
    let system_program = &accounts[5];

    // The record names exactly the accounts handed in.
    if !record.is_initialized() {
        return Err(ProcessError::InvalidAccountData);
    }
    if record.creator != creator.key {
        return Err(ProcessError::InvalidAccountData);
    }
    if record.ata_creator_offered != ata_creator_offered.key {
        return Err(ProcessError::InvalidAccountData);
    }
    if record.escrow != ata_escrow.key {
        return Err(ProcessError::InvalidAccountData);
    }
    if record.swap_bump != swap_bump {
        return Err(ProcessError::InvalidArgument);
    }
    if record.escrow_bump != escrow_bump {
        return Err(ProcessError::InvalidAccountData);
    }

    // The escrow is the derived token account held by the record.
    if ata_escrow.key != *escrow_pda {
        proof {
            if ata_escrow.key.bytes@ == escrow_pda.bytes@ {
                Address::lemma_bytes_determine(ata_escrow.key, *escrow_pda);
            }
        }
        return Err(ProcessError::InvalidArgument);
    }
    if ata_escrow.owner != token_program.key {
        return Err(ProcessError::IncorrectProgramId);
    }
    if !ata_escrow.is_writable {
        return Err(ProcessError::Custom(SwapError::AccountNotWritable));
    }
    let escrow_fields = unpack_token_account(ata_escrow.data.as_slice())?;
    if escrow_fields.owner != swap.key {
        proof {
            if escrow_fields.owner.bytes@ == swap.key.bytes@ {
                Address::lemma_bytes_determine(escrow_fields.owner, swap.key);
            }
        }
        return Err(ProcessError::InvalidAccountData);
    }
    if escrow_fields.mint != record.offered_mint {
        proof {
            if escrow_fields.mint.bytes@ == record.offered_mint.bytes@ {
                Address::lemma_bytes_determine(escrow_fields.mint, record.offered_mint);
            }
        }
        return Err(ProcessError::InvalidAccountData);
    }

    // The collaborating programs are the well-known ones.
    if !check_token_program(&token_program.key) {
        return Err(ProcessError::IncorrectProgramId);
    }
    if !check_system_program(&system_program.key) {
        return Err(ProcessError::IncorrectProgramId);
    }

    let destination_lamports = match creator.lamports.checked_add(swap.lamports) {
        Some(v) => v,
        None => return Err(ProcessError::ArithmeticOverflow),
    };
    let signer = PdaSigner { tag: SeedTag::Swap, key: ata_creator_offered.key, bump: record.swap_bump };
    let effects = vec![
        Effect::Transfer {
            source: ata_escrow.key,
            destination: ata_creator_offered.key,
            authority: swap.key,
            amount: record.offered_amount,
            pda_signer: Some(signer),
        },
        Effect::CloseRecord { account: swap.key, destination: creator.key, destination_lamports },
        Effect::CloseTokenAccount {
            account: ata_escrow.key,
            destination: creator.key,
            authority: swap.key,
            signer,
        },
    ];
    assert(effects@ =~= cancel_effects(accounts@, *record));
    Ok(effects)
}

/// The outcome of an instruction: decode it, then run the matching handler.
pub open spec fn instruction_outcome(
    program_id: Address,
    a: Seq<AccountView>,
    data: Seq<u8>,
) -> Result<Seq<Effect>, ProcessError> {
    match instruction_spec(data) {
        None => Err(ProcessError::InvalidInstructionData),
        Some(Instruction::CreateSwap(c)) => create_swap_spec(program_id, a, c.offered_amount, c.desired_amount),
        Some(Instruction::CancelSwap(_)) => cancel_swap_spec(program_id, a),
    }
}

/// Decodes `instruction_data` and validates `accounts` for the command it
/// holds, returning the operations to perform.
pub fn process_instruction(
    program_id: &Address,
    accounts: &[AccountView],
    instruction_data: &[u8],
) -> (r: Result<Vec<Effect>, ProcessError>)
    ensures
        match (r, instruction_outcome(*program_id, accounts@, instruction_data@)) {
            (Ok(effects), Ok(expected)) => effects@ == expected,
            (Err(e), Err(expected)) => e == expected,
            _ => false,
        },
{
    let ixn = Instruction::unpack(instruction_data)?;
    match ixn {
        Instruction::CreateSwap(c) => process_create_swap(program_id, accounts, c.offered_amount, c.desired_amount),
        Instruction::CancelSwap(_) => process_cancel_swap(program_id, accounts),
    }
}

/// A create whose offered mint is not owned by the token program fails, so
/// no account is allocated and nothing is moved; when the creator signed
/// and is writable the failure is an incorrect program id.
pub proof fn lemma_create_rejects_foreign_mint(
    program_id: Address,
    a: Seq<AccountView>,
    offered_amount: u64,
    desired_amount: u64,
)
    requires
        a.len() >= 8,
        a[1].owner != a[6].key,
    ensures
        create_swap_spec(program_id, a, offered_amount, desired_amount) is Err,
        a[0].is_signer && a[0].is_writable ==> create_swap_spec(program_id, a, offered_amount, desired_amount)
            == Err::<Seq<Effect>, ProcessError>(ProcessError::IncorrectProgramId),
{
}

/// Whether a cancel on accounts `a` passes every check that comes before the
/// stored record is compared with the accounts.
pub open spec fn cancel_reaches_record(program_id: Address, a: Seq<AccountView>) -> bool {
    &&& a.len() >= 6
    &&& a[0].is_signer && a[0].is_writable
    &&& a[1].owner == a[4].key && a[1].is_writable
    &&& token_fields_are(a[1].data@, None, Some(a[0].key))
    &&& derived(SeedTag::Swap, a[1].key, program_id) matches Some((pda, _)) && a[2].key.bytes@ == pda
    &&& derived(SeedTag::Escrow, a[1].key, program_id) is Some
    &&& a[2].owner == program_id && a[2].is_writable
}

/// A cancel by an account other than the stored creator fails, so no
/// balance or record changes; when every earlier check passes, the failure
/// is the account data mismatch.
pub proof fn lemma_cancel_rejects_other_creator(program_id: Address, a: Seq<AccountView>)
    requires
        a.len() >= 6,
        Swap::stored_spec(a[2].data@) is Ok,
        Swap::stored_spec(a[2].data@)->Ok_0.creator != a[0].key,
    ensures
        cancel_swap_spec(program_id, a) is Err,
        cancel_reaches_record(program_id, a) ==> cancel_swap_spec(program_id, a)
            == Err::<Seq<Effect>, ProcessError>(ProcessError::InvalidAccountData),
{
}

} // verus!
