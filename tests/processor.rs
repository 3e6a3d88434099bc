use solana_program::program_option::COption;
use solana_program::program_pack::Pack;
use solana_program::pubkey::Pubkey;
use spl_token::state::{Account, AccountState, Mint};
use swap_escrow::address::{derive_address, Address, SeedTag};
use swap_escrow::error::{ProcessError, SwapError};
use swap_escrow::processor::{
    process_cancel_swap, process_create_swap, process_instruction, AccountView, Effect, PdaSigner,
};
use swap_escrow::state::{Swap, SWAP_LEN};

const PROGRAM: [u8; 32] = [7; 32];
const CREATOR: [u8; 32] = [1; 32];
const MINT_X: [u8; 32] = [2; 32];
const MINT_Y: [u8; 32] = [3; 32];
const ATA: [u8; 32] = [4; 32];

fn token_program() -> Address {
    Address::new(spl_token::id().to_bytes())
}

fn find(tag: &[u8], key: [u8; 32]) -> (Address, u8) {
    let (pda, bump) =
        Pubkey::find_program_address(&[tag, &key], &Pubkey::new_from_array(PROGRAM));
    (Address::new(pda.to_bytes()), bump)
}

fn mint_data() -> Vec<u8> {
    let mut buf = vec![0u8; Mint::LEN];
    let m = Mint {
        mint_authority: COption::Some(Pubkey::new_from_array(CREATOR)),
        supply: 1_000_000,
        decimals: 6,
        is_initialized: true,
        freeze_authority: COption::None,
    };
    Mint::pack(m, &mut buf).unwrap();
    buf
}

fn token_data(mint: [u8; 32], owner: [u8; 32], amount: u64) -> Vec<u8> {
    let mut buf = vec![0u8; Account::LEN];
    let a = Account {
        mint: Pubkey::new_from_array(mint),
        owner: Pubkey::new_from_array(owner),
        amount,
        state: AccountState::Initialized,
        ..Account::default()
    };
    Account::pack(a, &mut buf).unwrap();
    buf
}

fn view(key: Address, owner: Address, signer: bool, writable: bool, data: Vec<u8>) -> AccountView {
    AccountView { key, owner, is_signer: signer, is_writable: writable, lamports: 1_000, data }
}

fn create_accounts() -> Vec<AccountView> {
    let tp = token_program();
    let (swap, _) = find(b"swap", ATA);
    let (escrow, _) = find(b"escrow", ATA);
    let system = Address::new([0; 32]);
    vec![
        view(Address::new(CREATOR), system, true, true, vec![]),
        view(Address::new(MINT_X), tp, false, false, mint_data()),
        view(Address::new(ATA), tp, false, true, token_data(MINT_X, CREATOR, 10_000)),
        view(Address::new(MINT_Y), tp, false, false, mint_data()),
        view(swap, system, false, true, vec![]),
        view(escrow, system, false, true, vec![]),
        view(tp, Address::new([9; 32]), false, false, vec![]),
        view(system, Address::new([9; 32]), false, false, vec![]),
    ]
}

fn stored_record(offered: u64) -> Swap {
    let (swap, swap_bump) = find(b"swap", ATA);
    let (escrow, escrow_bump) = find(b"escrow", ATA);
    let _ = swap;
    Swap {
        is_initialized: true,
        creator: Address::new(CREATOR),
        offered_mint: Address::new(MINT_X),
        desired_mint: Address::new(MINT_Y),
        ata_creator_offered: Address::new(ATA),
        escrow,
        offered_amount: offered,
        desired_amount: 3000,
        swap_bump,
        escrow_bump,
    }
}

fn cancel_accounts() -> Vec<AccountView> {
    let tp = token_program();
    let (swap, _) = find(b"swap", ATA);
    let (escrow, _) = find(b"escrow", ATA);
    let system = Address::new([0; 32]);
    vec![
        view(Address::new(CREATOR), system, true, true, vec![]),
        view(Address::new(ATA), tp, false, true, token_data(MINT_X, CREATOR, 5_000)),
        view(swap, Address::new(PROGRAM), false, true, stored_record(5000).encode()),
        view(escrow, tp, false, true, token_data(MINT_X, swap.bytes, 5000)),
        view(tp, Address::new([9; 32]), false, false, vec![]),
        view(system, Address::new([9; 32]), false, false, vec![]),
    ]
}

#[test]
fn derivation_is_deterministic() {
    let key = Address::new(ATA);
    let program = Address::new(PROGRAM);
    let first = derive_address(SeedTag::Swap, &key, &program);
    assert_eq!(first, derive_address(SeedTag::Swap, &key, &program));
    assert_eq!(first, Some(find(b"swap", ATA)));
    assert_eq!(derive_address(SeedTag::Escrow, &key, &program), Some(find(b"escrow", ATA)));
}

#[test]
fn derivation_separates_tags_and_keys() {
    let program = Address::new(PROGRAM);
    let swap = derive_address(SeedTag::Swap, &Address::new(ATA), &program).unwrap().0;
    let escrow = derive_address(SeedTag::Escrow, &Address::new(ATA), &program).unwrap().0;
    let other = derive_address(SeedTag::Swap, &Address::new([5; 32]), &program).unwrap().0;
    assert_ne!(swap, escrow);
    assert_ne!(swap, other);
    assert_ne!(swap, Address::new(ATA));
}

#[test]
fn create_swap_plans_every_effect() {
    let accounts = create_accounts();
    let (swap, swap_bump) = find(b"swap", ATA);
    let (escrow, escrow_bump) = find(b"escrow", ATA);
    let effects = process_create_swap(&Address::new(PROGRAM), &accounts, 5000, 3000).unwrap();
    let record = Swap { swap_bump, escrow_bump, ..stored_record(5000) };
    assert_eq!(
        effects,
        vec![
            Effect::CreateAccount {
                payer: Address::new(CREATOR),
                account: swap,
                space: SWAP_LEN as u64,
                owner: Address::new(PROGRAM),
                signer: PdaSigner { tag: SeedTag::Swap, key: Address::new(ATA), bump: swap_bump },
            },
            Effect::WriteRecord { account: swap, record },
            Effect::CreatePdaAccount {
                payer: Address::new(CREATOR),
                account: escrow,
                space: 165,
                owner: token_program(),
                signer: PdaSigner { tag: SeedTag::Escrow, key: Address::new(ATA), bump: escrow_bump },
            },
            Effect::InitializeTokenAccount { account: escrow, mint: Address::new(MINT_X), authority: swap },
            Effect::Transfer {
                source: Address::new(ATA),
                destination: escrow,
                authority: Address::new(CREATOR),
                amount: 5000,
                pda_signer: None,
            },
        ]
    );
    assert_eq!(Swap::unpack(&record.encode()), Ok(record));
}

#[test]
fn create_swap_through_instruction_bytes() {
    let mut data = vec![0u8];
    data.extend_from_slice(&5000u64.to_le_bytes());
    data.extend_from_slice(&3000u64.to_le_bytes());
    let direct = process_create_swap(&Address::new(PROGRAM), &create_accounts(), 5000, 3000);
    assert_eq!(process_instruction(&Address::new(PROGRAM), &create_accounts(), &data), direct);
    assert_eq!(
        process_instruction(&Address::new(PROGRAM), &create_accounts(), &[2]),
        Err(ProcessError::InvalidInstructionData)
    );
}

#[test]
fn create_swap_rejects_foreign_offered_mint() {
    let mut accounts = create_accounts();
    accounts[1].owner = Address::new([8; 32]);
    assert_eq!(
        process_create_swap(&Address::new(PROGRAM), &accounts, 5000, 3000),
        Err(ProcessError::IncorrectProgramId)
    );
}

#[test]
fn create_swap_error_cases() {
    let program = Address::new(PROGRAM);
    let run = |accounts: &Vec<AccountView>| process_create_swap(&program, accounts, 5000, 3000);

    assert_eq!(run(&create_accounts()[..7].to_vec()), Err(ProcessError::NotEnoughAccountKeys));

    let mut a = create_accounts();
    a[0].is_signer = false;
    assert_eq!(run(&a), Err(ProcessError::MissingRequiredSignature));

    let mut a = create_accounts();
    a[0].is_writable = false;
    assert_eq!(run(&a), Err(ProcessError::Custom(SwapError::AccountNotWritable)));

    let mut a = create_accounts();
    a[1].data[45] = 0;
    assert_eq!(run(&a), Err(ProcessError::Custom(SwapError::InvalidMintAccountData)));

    let mut a = create_accounts();
    a[2].data.pop();
    assert_eq!(run(&a), Err(ProcessError::Custom(SwapError::InvalidTokenAccountData)));

    let mut a = create_accounts();
    a[2].data = token_data(MINT_Y, CREATOR, 10_000);
    assert_eq!(run(&a), Err(ProcessError::Custom(SwapError::InvalidAtaCreatorOfferedMint)));

    let mut a = create_accounts();
    a[2].data = token_data(MINT_X, [6; 32], 10_000);
    assert_eq!(run(&a), Err(ProcessError::Custom(SwapError::InvalidAtaCreatorOfferedOwner)));

    let mut a = create_accounts();
    a[3].data = vec![0; 82];
    assert_eq!(run(&a), Err(ProcessError::Custom(SwapError::InvalidMintAccountData)));

    let mut a = create_accounts();
    a[7].key = Address::new([3; 32]);
    assert_eq!(run(&a), Err(ProcessError::IncorrectProgramId));

    let mut a = create_accounts();
    a[4].key = Address::new([5; 32]);
    assert_eq!(run(&a), Err(ProcessError::InvalidArgument));

    let mut a = create_accounts();
    a[5].key = Address::new([5; 32]);
    assert_eq!(run(&a), Err(ProcessError::InvalidArgument));

    let mut a = create_accounts();
    a[4].is_writable = false;
    assert_eq!(run(&a), Err(ProcessError::Custom(SwapError::AccountNotWritable)));
}

#[test]
fn create_swap_rejects_wrong_token_program() {
    let mut a = create_accounts();
    let fake = Address::new([6; 32]);
    a[6].key = fake;
    for i in 1..4 {
        a[i].owner = fake;
    }
    assert_eq!(
        process_create_swap(&Address::new(PROGRAM), &a, 1, 1),
        Err(ProcessError::IncorrectProgramId)
    );
}

#[test]
fn cancel_swap_plans_every_effect() {
    let accounts = cancel_accounts();
    let (swap, swap_bump) = find(b"swap", ATA);
    let (escrow, _) = find(b"escrow", ATA);
    let signer = PdaSigner { tag: SeedTag::Swap, key: Address::new(ATA), bump: swap_bump };
    assert_eq!(
        process_cancel_swap(&Address::new(PROGRAM), &accounts),
        Ok(vec![
            Effect::Transfer {
                source: escrow,
                destination: Address::new(ATA),
                authority: swap,
                amount: 5000,
                pda_signer: Some(signer),
            },
            Effect::CloseRecord { account: swap, destination: Address::new(CREATOR), destination_lamports: 2_000 },
            Effect::CloseTokenAccount { account: escrow, destination: Address::new(CREATOR), authority: swap, signer },
        ])
    );
    assert_eq!(
        process_instruction(&Address::new(PROGRAM), &accounts, &[1]),
        process_cancel_swap(&Address::new(PROGRAM), &accounts)
    );
}

#[test]
fn cancel_swap_rejects_other_creator() {
    let mut accounts = cancel_accounts();
    let intruder = Address::new([6; 32]);
    accounts[0].key = intruder;
    accounts[1].data = token_data(MINT_X, [6; 32], 5_000);
    assert_eq!(
        process_cancel_swap(&Address::new(PROGRAM), &accounts),
        Err(ProcessError::InvalidAccountData)
    );
}

#[test]
fn cancel_swap_error_cases() {
    let program = Address::new(PROGRAM);
    let run = |accounts: &Vec<AccountView>| process_cancel_swap(&program, accounts);

    assert_eq!(run(&cancel_accounts()[..5].to_vec()), Err(ProcessError::NotEnoughAccountKeys));

    let mut a = cancel_accounts();
    a[1].data[108] = 0;
    assert_eq!(run(&a), Err(ProcessError::UninitializedAccount));

    let mut a = cancel_accounts();
    a[1].data[108] = 3;
    assert_eq!(run(&a), Err(ProcessError::InvalidAccountData));

    let mut a = cancel_accounts();
    a[2].owner = Address::new([8; 32]);
    assert_eq!(run(&a), Err(ProcessError::InvalidArgument));

    let mut a = cancel_accounts();
    a[2].data = Swap { is_initialized: false, ..stored_record(5000) }.encode();
    assert_eq!(run(&a), Err(ProcessError::UninitializedAccount));

    let mut a = cancel_accounts();
    a[2].data = Swap { swap_bump: stored_record(5000).swap_bump.wrapping_sub(1), ..stored_record(5000) }.encode();
    assert_eq!(run(&a), Err(ProcessError::InvalidArgument));

    let mut a = cancel_accounts();
    a[3].owner = Address::new([8; 32]);
    assert_eq!(run(&a), Err(ProcessError::IncorrectProgramId));

    let mut a = cancel_accounts();
    a[3].data = token_data(MINT_Y, a[2].key.bytes, 5000);
    assert_eq!(run(&a), Err(ProcessError::InvalidAccountData));

    let mut a = cancel_accounts();
    a[0].lamports = u64::MAX;
    assert_eq!(run(&a), Err(ProcessError::ArithmeticOverflow));
}

#[test]
fn swap_error_codes() {
    assert_eq!(SwapError::AccountNotWritable.code(), 0);
    assert_eq!(SwapError::InvalidAtaCreatorOfferedMint.code(), 1);
    assert_eq!(SwapError::InvalidAtaCreatorOfferedOwner.code(), 2);
    assert_eq!(SwapError::InvalidMintAccountData.code(), 3);
    assert_eq!(SwapError::InvalidTokenAccountData.code(), 4);
    assert_eq!(SwapError::InvalidSwapAccountData.code(), 5);
    assert_eq!(SwapError::InvalidSwapAccountData.message(), "Invalid swap account data");
}
