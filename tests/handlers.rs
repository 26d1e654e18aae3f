use hello_solana::calc::{calculate, initialize, Arithmetic, Initialize};
use hello_solana::error::CustomError;
use hello_solana::program::{mycalc, myinit, AccountInfo, MyCalc, MyInit};
use hello_solana::record::{
    account_discriminator, decode_record, encode_record, payload_bytes, same_identity, Identity,
    MyNewAccount, RECORD_SIZE,
};

const RENT: u64 = 1_000_000;

fn key(b: u8) -> Identity {
    Identity { bytes: [b; 32] }
}

fn account(k: Identity, lamports: u64, is_signer: bool) -> AccountInfo {
    AccountInfo { key: k, lamports, data: Vec::new(), is_signer }
}

fn init_ctx(payer: Identity) -> MyInit {
    MyInit {
        new_account: account(key(0xAA), 0, true),
        signer: account(payer, 5 * RENT, true),
        rent: RENT,
    }
}

fn created(owner: Identity, payload: u64) -> AccountInfo {
    let mut ctx = init_ctx(owner);
    assert_eq!(myinit(&mut ctx, payload), Ok(()));
    ctx.new_account
}

fn stored(acct: &AccountInfo) -> MyNewAccount {
    decode_record(&acct.data).unwrap()
}

#[test]
fn init_writes_owner_and_payload() {
    let mut ctx = init_ctx(key(1));
    assert_eq!(myinit(&mut ctx, 100), Ok(()));
    assert_eq!(ctx.new_account.data.len(), RECORD_SIZE);
    assert_eq!(ctx.new_account.data.len(), 8 + 32 + 8);
    assert_eq!(stored(&ctx.new_account), MyNewAccount { owner: key(1), data: 100 });
    assert_eq!(ctx.signer.lamports, 4 * RENT);
    assert_eq!(ctx.new_account.lamports, RENT);
}

#[test]
fn second_init_fails_already_initialized() {
    let mut ctx = init_ctx(key(1));
    assert_eq!(myinit(&mut ctx, 100), Ok(()));
    let before = ctx.clone();
    ctx.signer = account(key(2), 5 * RENT, true);
    let after_first = ctx.clone();
    assert_eq!(myinit(&mut ctx, 555), Err(CustomError::AlreadyInitialized));
    assert_eq!(ctx, after_first);
    assert_eq!(stored(&ctx.new_account), MyNewAccount { owner: key(1), data: 100 });
    assert_eq!(before.new_account, ctx.new_account);
}

#[test]
fn init_without_signature_fails() {
    let mut ctx = init_ctx(key(1));
    ctx.signer.is_signer = false;
    let before = ctx.clone();
    assert_eq!(myinit(&mut ctx, 100), Err(CustomError::MissingSignature));
    assert_eq!(ctx, before);
}

#[test]
fn init_with_short_balance_fails() {
    let mut ctx = init_ctx(key(1));
    ctx.signer.lamports = RENT - 1;
    let before = ctx.clone();
    assert_eq!(myinit(&mut ctx, 100), Err(CustomError::InsufficientFunds));
    assert_eq!(ctx, before);
}

#[test]
fn init_with_exact_balance_succeeds() {
    let mut ctx = init_ctx(key(1));
    ctx.signer.lamports = RENT;
    assert_eq!(myinit(&mut ctx, 0), Ok(()));
    assert_eq!(ctx.signer.lamports, 0);
    assert_eq!(stored(&ctx.new_account).data, 0);
}

#[test]
fn scenario_divide_by_seven() {
    let owner = key(1);
    let mut ctx = MyCalc { signer: account(owner, 0, true), my_account: created(owner, 100) };
    let results = mycalc(&mut ctx, 7).unwrap();
    assert_eq!(results.sum, 114);
    assert_eq!(results.difference, 93);
    assert_eq!(results.product, 700);
    assert_eq!(results.quotient, 14);
    assert_eq!(stored(&ctx.my_account), MyNewAccount { owner, data: 14 });
}

#[test]
fn scenario_zero_operand_keeps_payload() {
    let owner = key(1);
    let mut ctx = MyCalc { signer: account(owner, 0, true), my_account: created(owner, 100) };
    let results = mycalc(&mut ctx, 0).unwrap();
    assert_eq!(results.sum, 100);
    assert_eq!(results.difference, 100);
    assert_eq!(results.product, 0);
    assert_eq!(results.quotient, 100);
    assert_eq!(stored(&ctx.my_account), MyNewAccount { owner, data: 100 });
}

#[test]
fn scenario_other_signer_unauthorized() {
    let owner = key(1);
    let mut ctx = MyCalc { signer: account(key(9), 0, true), my_account: created(owner, 100) };
    let before = ctx.clone();
    assert_eq!(mycalc(&mut ctx, 7), Err(CustomError::Unauthorized));
    assert_eq!(ctx, before);
    assert_eq!(stored(&ctx.my_account).data, 100);
}

#[test]
fn owner_key_without_signature_fails() {
    let owner = key(1);
    let mut ctx = MyCalc { signer: account(owner, 0, false), my_account: created(owner, 100) };
    let before = ctx.clone();
    assert_eq!(mycalc(&mut ctx, 7), Err(CustomError::MissingSignature));
    assert_eq!(ctx, before);
}

#[test]
fn malformed_record_is_refused() {
    let owner = key(1);
    let mut acct = created(owner, 100);
    acct.data[0] ^= 1;
    let mut ctx = MyCalc { signer: account(owner, 0, true), my_account: acct };
    let before = ctx.clone();
    assert_eq!(mycalc(&mut ctx, 7), Err(CustomError::MalformedRecord));
    assert_eq!(ctx, before);
    ctx.my_account.data = Vec::new();
    assert_eq!(mycalc(&mut ctx, 7), Err(CustomError::MalformedRecord));
}

#[test]
fn owner_survives_many_mutations() {
    let owner = key(1);
    let mut acct = created(owner, 1_000_000);
    for (signer, ops) in [(owner, 3u32), (key(2), 5), (owner, 0), (owner, 2), (key(3), 9)] {
        let mut ctx = MyCalc { signer: account(signer, 0, true), my_account: acct };
        let _ = mycalc(&mut ctx, ops);
        acct = ctx.my_account;
        assert_eq!(stored(&acct).owner, owner);
    }
    assert_eq!(stored(&acct).data, 1_000_000 / 3 / 2);
}

#[test]
fn saturation_near_maximum() {
    let owner = key(1);
    let mut ctx =
        MyCalc { signer: account(owner, 0, true), my_account: created(owner, u64::MAX - 1) };
    let results = mycalc(&mut ctx, u32::MAX).unwrap();
    assert_eq!(results.product, u64::MAX);
    assert_eq!(results.sum, u64::MAX);
    assert_eq!(results.difference, u64::MAX - 1 - u32::MAX as u64);
    assert_eq!(results.quotient, (u64::MAX - 1) / u32::MAX as u64);
    assert_eq!(stored(&ctx.my_account).data, (u64::MAX - 1) / u32::MAX as u64);
}

#[test]
fn subtraction_saturates_at_zero() {
    let results = calculate(3, 10);
    assert_eq!(results.difference, 0);
    assert_eq!(results.sum, 23);
    assert_eq!(results.product, 30);
    assert_eq!(results.quotient, 0);
}

#[test]
fn greeting_arithmetic() {
    assert_eq!(
        initialize(&Initialize {}),
        Arithmetic { a: 10, b: 3, add: 13, sub: 7, mul: 30, div: 3 }
    );
}

#[test]
fn record_layout_round_trip() {
    let rec = MyNewAccount { owner: key(7), data: 0x0102_0304_0506_0708 };
    let bytes = encode_record(&rec);
    assert_eq!(&bytes[0..8], &account_discriminator()[..]);
    assert_eq!(&bytes[8..40], &[7u8; 32][..]);
    assert_eq!(&bytes[40..48], &[8, 7, 6, 5, 4, 3, 2, 1][..]);
    assert_eq!(decode_record(&bytes), Ok(rec));
    assert_eq!(payload_bytes(0x0102_0304_0506_0708), 0x0102_0304_0506_0708u64.to_le_bytes());
    assert_eq!(decode_record(&bytes[..47].to_vec()), Err(CustomError::MalformedRecord));
}

#[test]
fn identities_compare_by_bytes() {
    let mut other = key(4);
    assert!(same_identity(&key(4), &other));
    other.bytes[31] = 5;
    assert!(!same_identity(&key(4), &other));
}
