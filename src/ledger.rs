use crate::address::{Address, SeedTag};
use crate::processor::{
    cancel_effects, cancel_swap_spec, create_swap_spec, created_record, derived, AccountView, Effect,
};
use crate::error::ProcessError;
use crate::state::Swap;
use vstd::prelude::*;

verus! {

/// A token account as the token program keeps it.
pub ghost struct TokenModel {
    pub mint: Address,
    pub authority: Address,
    pub amount: nat,
}

/// The part of the ledger that the swap operations touch.
pub ghost struct Ledger {
    /// Addresses that hold an allocated account.
    pub accounts: Set<Address>,
    /// Token accounts, by address.
    pub tokens: Map<Address, TokenModel>,
    /// Data of accounts owned by programs other than the token program.
    pub data: Map<Address, Seq<u8>>,
}

/// A model of what one operation does to the ledger when the system and
/// token programs carry it out; `None` when the program would reject it.
pub open spec fn apply_effect(l: Ledger, e: Effect) -> Option<Ledger> {
    match e {
        Effect::CreateAccount { account, .. } | Effect::CreatePdaAccount { account, .. } => {
            if l.accounts.contains(account) {
                None
            } else {
                Some(Ledger { accounts: l.accounts.insert(account), ..l })
            }
        },
        Effect::WriteRecord { account, record } => {
            if l.accounts.contains(account) && !l.tokens.contains_key(account) {
                Some(Ledger { data: l.data.insert(account, record.encode_spec()), ..l })
            } else {
                None
            }
        },
        Effect::InitializeTokenAccount { account, mint, authority } => {
            if l.accounts.contains(account) && !l.tokens.contains_key(account) {
                Some(Ledger { tokens: l.tokens.insert(account, TokenModel { mint, authority, amount: 0 }), ..l })
            } else {
                None
            }
        },
        Effect::Transfer { source, destination, authority, amount, .. } => {
            if !l.tokens.contains_key(source) || !l.tokens.contains_key(destination) {
                None
            } else {
                let s = l.tokens[source];
                let d = l.tokens[destination];
                if s.authority != authority || s.mint != d.mint || s.amount < amount {
                    None
                } else if source == destination {
                    Some(l)
                } else {
                    let tokens = l.tokens.insert(source, TokenModel { amount: (s.amount - amount) as nat, ..s }).insert(
                        destination,
                        TokenModel { amount: (d.amount + amount) as nat, ..d },
                    );
                    Some(Ledger { tokens, ..l })
                }
            }
        },
        Effect::CloseRecord { account, .. } => {
            if l.accounts.contains(account) {
                Some(Ledger { accounts: l.accounts.remove(account), data: l.data.remove(account), ..l })
            } else {
                None
            }
        },
        Effect::CloseTokenAccount { account, authority, .. } => {
            if l.tokens.contains_key(account) && l.tokens[account].authority == authority && l.tokens[account].amount
                == 0 {
                Some(Ledger { accounts: l.accounts.remove(account), tokens: l.tokens.remove(account), ..l })
            } else {
                None
            }
        },
    }
}

/// The ledger after running `effects` in order; `None` when one is rejected,
/// in which case the host rolls the whole instruction back.
pub open spec fn apply_all(l: Ledger, effects: Seq<Effect>) -> Option<Ledger>
    decreases effects.len(),
{
    if effects.len() == 0 {
        Some(l)
    } else {
        match apply_effect(l, effects[0]) {
            Some(next) => apply_all(next, effects.drop_first()),
            None => None,
        }
    }
}

proof fn lemma_apply_step(l: Ledger, effects: Seq<Effect>, next: Ledger)
    requires
        effects.len() > 0,
        apply_effect(l, effects[0]) == Some(next),
    ensures
        apply_all(l, effects) == apply_all(next, effects.drop_first()),
{
}

/// A create that passes its checks, run on a ledger where the creator's
/// token account holds at least the offered amount of the offered mint and
/// the two derived slots are free: the creator's balance falls by exactly
/// the offered amount, the escrow holds exactly that amount of the offered
/// mint under the record's authority, and the record account decodes to the
/// new offer with both bumps.
pub proof fn lemma_create_swap_moves_offer(
    program_id: Address,
    a: Seq<AccountView>,
    offered_amount: u64,
    desired_amount: u64,
    l: Ledger,
)
    requires
        create_swap_spec(program_id, a, offered_amount, desired_amount) is Ok,
        l.accounts.contains(a[2].key),
        l.tokens.contains_key(a[2].key),
        l.tokens[a[2].key].mint == a[1].key,
        l.tokens[a[2].key].authority == a[0].key,
        l.tokens[a[2].key].amount >= offered_amount,
        !l.accounts.contains(a[4].key),
        !l.accounts.contains(a[5].key),
        !l.tokens.contains_key(a[4].key),
        !l.tokens.contains_key(a[5].key),
        a[4].key != a[5].key,
    ensures
        ({
            let effects = create_swap_spec(program_id, a, offered_amount, desired_amount)->Ok_0;
            let swap_bump = derived(SeedTag::Swap, a[2].key, program_id)->Some_0.1;
            let escrow_bump = derived(SeedTag::Escrow, a[2].key, program_id)->Some_0.1;
            let record = created_record(a, offered_amount, desired_amount, swap_bump, escrow_bump);
            &&& apply_all(l, effects) matches Some(post)
            &&& post.tokens.contains_key(a[2].key) && post.tokens.contains_key(a[5].key)
            &&& post.tokens[a[2].key].amount == l.tokens[a[2].key].amount - offered_amount
            &&& post.tokens[a[2].key].mint == a[1].key
            &&& post.tokens[a[5].key] == (TokenModel { mint: a[1].key, authority: a[4].key, amount: offered_amount as nat })
            &&& post.accounts.contains(a[4].key) && post.accounts.contains(a[5].key)
            &&& post.data.contains_key(a[4].key) && post.data[a[4].key] == record.encode_spec()
            &&& Swap::decode_spec(post.data[a[4].key]) == Some(record)
        }),
{
    let effects = create_swap_spec(program_id, a, offered_amount, desired_amount)->Ok_0;
    let swap_bump = derived(SeedTag::Swap, a[2].key, program_id)->Some_0.1;
    let escrow_bump = derived(SeedTag::Escrow, a[2].key, program_id)->Some_0.1;
    let record = created_record(a, offered_amount, desired_amount, swap_bump, escrow_bump);
    let (creator, ata, swap, escrow) = (a[0].key, a[2].key, a[4].key, a[5].key);

    let l1 = Ledger { accounts: l.accounts.insert(swap), ..l };
    lemma_apply_step(l, effects, l1);
    let e1 = effects.drop_first();
    let l2 = Ledger { data: l1.data.insert(swap, record.encode_spec()), ..l1 };
    lemma_apply_step(l1, e1, l2);
    let e2 = e1.drop_first();
    let l3 = Ledger { accounts: l2.accounts.insert(escrow), ..l2 };
    lemma_apply_step(l2, e2, l3);
    let e3 = e2.drop_first();
    let l4 = Ledger {
        tokens: l3.tokens.insert(escrow, TokenModel { mint: a[1].key, authority: swap, amount: 0 }),
        ..l3
    };
    lemma_apply_step(l3, e3, l4);
    let e4 = e3.drop_first();
    let s = l4.tokens[ata];
    let d = l4.tokens[escrow];
    let l5 = Ledger {
        tokens: l4.tokens.insert(ata, TokenModel { amount: (s.amount - offered_amount) as nat, ..s }).insert(
            escrow,
            TokenModel { amount: (d.amount + offered_amount) as nat, ..d },
        ),
        ..l4
    };
    lemma_apply_step(l4, e4, l5);
    assert(e4.drop_first().len() == 0);
    Swap::lemma_round_trip(record);
}

/// A cancel that passes its checks, run on a ledger where the escrow holds
/// exactly the recorded amount under the record's authority: the creator's
/// token balance rises by exactly that amount, the record account is
/// reclaimed with its data, and the escrow account is closed.
pub proof fn lemma_cancel_swap_returns_offer(program_id: Address, a: Seq<AccountView>, l: Ledger)
    requires
        cancel_swap_spec(program_id, a) is Ok,
        Swap::stored_spec(a[2].data@) is Ok,
        l.accounts.contains(a[2].key),
        l.accounts.contains(a[3].key),
        l.tokens.contains_key(a[1].key),
        l.tokens.contains_key(a[3].key),
        l.tokens[a[3].key].authority == a[2].key,
        l.tokens[a[3].key].mint == l.tokens[a[1].key].mint,
        l.tokens[a[3].key].amount == Swap::stored_spec(a[2].data@)->Ok_0.offered_amount,
        a[1].key != a[3].key,
    ensures
        apply_all(l, cancel_swap_spec(program_id, a)->Ok_0) matches Some(post) && post.tokens[a[1].key].amount
            == l.tokens[a[1].key].amount + Swap::stored_spec(a[2].data@)->Ok_0.offered_amount
            && !post.accounts.contains(a[2].key) && !post.data.contains_key(a[2].key)
            && !post.accounts.contains(a[3].key) && !post.tokens.contains_key(a[3].key),
{
    let record = Swap::stored_spec(a[2].data@)->Ok_0;
    let effects = cancel_swap_spec(program_id, a)->Ok_0;
    assert(effects == cancel_effects(a, record));
    let (creator, ata, swap, escrow) = (a[0].key, a[1].key, a[2].key, a[3].key);
    let n = record.offered_amount;
    let s = l.tokens[escrow];
    let d = l.tokens[ata];
    let l1 = Ledger {
        tokens: l.tokens.insert(escrow, TokenModel { amount: (s.amount - n) as nat, ..s }).insert(
            ata,
            TokenModel { amount: (d.amount + n) as nat, ..d },
        ),
        ..l
    };
    lemma_apply_step(l, effects, l1);
    let e1 = effects.drop_first();
    let l2 = Ledger { accounts: l1.accounts.remove(swap), data: l1.data.remove(swap), ..l1 };
    lemma_apply_step(l1, e1, l2);
    let e2 = e1.drop_first();
    let l3 = Ledger { accounts: l2.accounts.remove(escrow), tokens: l2.tokens.remove(escrow), ..l2 };
    lemma_apply_step(l2, e2, l3);
    assert(e2.drop_first().len() == 0);
}

/// Opening an offer and then cancelling it gives the creator back exactly
/// the tokens they had: when a create passes its checks on a ledger as in
/// `lemma_create_swap_moves_offer`, and a cancel on the same creator, token
/// account, record and escrow, seeing the stored record, passes its checks,
/// the creator's balance is restored and the record and escrow are gone.
pub proof fn lemma_create_then_cancel_restores(
    program_id: Address,
    a: Seq<AccountView>,
    offered_amount: u64,
    desired_amount: u64,
    l: Ledger,
    b: Seq<AccountView>,
)
    requires
        create_swap_spec(program_id, a, offered_amount, desired_amount) is Ok,
        l.accounts.contains(a[2].key),
        l.tokens.contains_key(a[2].key),
        l.tokens[a[2].key].mint == a[1].key,
        l.tokens[a[2].key].authority == a[0].key,
        l.tokens[a[2].key].amount >= offered_amount,
        !l.accounts.contains(a[4].key),
        !l.accounts.contains(a[5].key),
        !l.tokens.contains_key(a[4].key),
        !l.tokens.contains_key(a[5].key),
        a[4].key != a[5].key,
        cancel_swap_spec(program_id, b) is Ok,
        b[0].key == a[0].key,
        b[1].key == a[2].key,
        b[2].key == a[4].key,
        b[3].key == a[5].key,
        apply_all(l, create_swap_spec(program_id, a, offered_amount, desired_amount)->Ok_0) matches Some(post)
            && post.data.contains_key(a[4].key) && b[2].data@ == post.data[a[4].key],
    ensures
        ({
            let post = apply_all(l, create_swap_spec(program_id, a, offered_amount, desired_amount)->Ok_0)->Some_0;
            apply_all(post, cancel_swap_spec(program_id, b)->Ok_0) matches Some(end) && end.tokens[a[2].key].amount
                == l.tokens[a[2].key].amount && !end.accounts.contains(a[4].key) && !end.data.contains_key(a[4].key)
                && !end.accounts.contains(a[5].key) && !end.tokens.contains_key(a[5].key)
        }),
{
    lemma_create_swap_moves_offer(program_id, a, offered_amount, desired_amount, l);
    let post = apply_all(l, create_swap_spec(program_id, a, offered_amount, desired_amount)->Ok_0)->Some_0;
    let swap_bump = derived(SeedTag::Swap, a[2].key, program_id)->Some_0.1;
    let escrow_bump = derived(SeedTag::Escrow, a[2].key, program_id)->Some_0.1;
    let record = created_record(a, offered_amount, desired_amount, swap_bump, escrow_bump);
    Swap::lemma_round_trip(record);
    record.lemma_encode_len();
    assert(b[2].data@ == record.encode_spec());
    assert(Swap::stored_spec(b[2].data@) == Ok::<Swap, ProcessError>(record));
    lemma_cancel_swap_returns_offer(program_id, b, post);
}

} // verus!
