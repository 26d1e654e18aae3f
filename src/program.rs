use vstd::prelude::*;

use crate::calc::{calculate, calculation, Calculation};
use crate::error::CustomError;
use crate::record::{
    decode_record, encode_record, lemma_record_round_trip, record_bytes, record_of, same_identity,
    Identity, MyNewAccount, RecordModel, IDENTITY_LEN,
};

verus! {

/// An account as the host hands it to a handler: its address, balance, stored bytes, and
/// whether it signed the current call.
#[derive(Clone, Debug, PartialEq, Eq)]
pub struct AccountInfo {
    pub key: Identity,
    pub lamports: u64,
    pub data: Vec<u8>,
    pub is_signer: bool,
}

/// The mathematical content of an account.
pub struct AccountModel {
    pub key: Seq<u8>,
    pub lamports: u64,
    pub data: Seq<u8>,
    pub is_signer: bool,
}

impl View for AccountInfo {
    type V = AccountModel;

    open spec fn view(&self) -> AccountModel {
        AccountModel {
            key: self.key@,
            lamports: self.lamports,
            data: self.data@,
            is_signer: self.is_signer,
        }
    }
}

/// The accounts of record creation: the slot to create, the signer who pays for it and
/// becomes its owner, and the balance that the storage of one record costs.
#[derive(Clone, Debug, PartialEq, Eq)]
pub struct MyInit {
    pub new_account: AccountInfo,
    pub signer: AccountInfo,
    pub rent: u64,
}

/// The mathematical content of the accounts of record creation.
pub struct MyInitModel {
    pub new_account: AccountModel,
    pub signer: AccountModel,
    pub rent: u64,
}

impl View for MyInit {
    type V = MyInitModel;

    open spec fn view(&self) -> MyInitModel {
        MyInitModel { new_account: self.new_account@, signer: self.signer@, rent: self.rent }
    }
}

/// The accounts of record mutation: the signer of the call and the record it names.
#[derive(Clone, Debug, PartialEq, Eq)]
pub struct MyCalc {
    pub signer: AccountInfo,
    pub my_account: AccountInfo,
}

/// The mathematical content of the accounts of record mutation.
pub struct MyCalcModel {
    pub signer: AccountModel,
    pub my_account: AccountModel,
}

impl View for MyCalc {
    type V = MyCalcModel;

    open spec fn view(&self) -> MyCalcModel {
        MyCalcModel { signer: self.signer@, my_account: self.my_account@ }
    }
}

/// What record creation returns and leaves behind. A slot that holds data is refused first,
/// then a payer that did not sign, then one whose balance is short of the rent. On success
/// the rent moves from payer to slot, and the slot holds a record owned by the signer.
pub open spec fn init_outcome(c: MyInitModel, data: u64) -> (Result<(), CustomError>, MyInitModel) {
    if c.new_account.data.len() > 0 {
        (Err(CustomError::AlreadyInitialized), c)
    } else if !c.signer.is_signer {
        (Err(CustomError::MissingSignature), c)
    } else if c.signer.lamports < c.rent {
        (Err(CustomError::InsufficientFunds), c)
    } else {
        (
            Ok(()),
            MyInitModel {
                new_account: AccountModel {
                    lamports: (c.new_account.lamports + c.rent) as u64,
                    data: record_bytes(RecordModel { owner: c.signer.key, payload: data }),
                    ..c.new_account
                },
                signer: AccountModel { lamports: (c.signer.lamports - c.rent) as u64, ..c.signer },
                ..c
            },
        )
    }
}

/// What record mutation returns and leaves behind. Bytes that are no record are refused
/// first, then a signer other than the stored owner, then an owner key that did not sign.
/// On success all four results are returned and only the quotient is stored.
pub open spec fn calc_outcome(c: MyCalcModel, operand: u32) -> (
    Result<Calculation, CustomError>,
    MyCalcModel,
) {
    match record_of(c.my_account.data) {
        None => (Err(CustomError::MalformedRecord), c),
        Some(rec) => if rec.owner != c.signer.key {
            (Err(CustomError::Unauthorized), c)
        } else if !c.signer.is_signer {
            (Err(CustomError::MissingSignature), c)
        } else {
            let results = calculation(rec.payload, operand);
            (
                Ok(results),
                MyCalcModel {
                    my_account: AccountModel {
                        data: record_bytes(
                            RecordModel { owner: rec.owner, payload: results.quotient },
                        ),
                        ..c.my_account
                    },
                    ..c
                },
            )
        },
    }
}

/// Creates a record in an empty slot, paid for by the signer, owned by the signer, holding
/// `data`.
pub fn myinit(ctx: &mut MyInit, data: u64) -> (r: Result<(), CustomError>)
    requires
        old(ctx).new_account.lamports + old(ctx).rent <= u64::MAX,
    ensures
        (r, final(ctx)@) == init_outcome(old(ctx)@, data),
{
    if ctx.new_account.data.len() > 0 {
        return Err(CustomError::AlreadyInitialized);
    }
    if !ctx.signer.is_signer {
        return Err(CustomError::MissingSignature);
    }
    if ctx.signer.lamports < ctx.rent {
        return Err(CustomError::InsufficientFunds);
    }
    ctx.signer.lamports = ctx.signer.lamports - ctx.rent;
    ctx.new_account.lamports = ctx.new_account.lamports + ctx.rent;
    let rec = MyNewAccount { owner: ctx.signer.key, data };
    ctx.new_account.data = encode_record(&rec);
    Ok(())
}

/// Runs the four computations on the stored payload and `ops`, stores the quotient (or
/// keeps the payload when `ops` is zero), and returns all four results. Only the record's
/// owner, having signed the call, may do this.
pub fn mycalc(ctx: &mut MyCalc, ops: u32) -> (r: Result<Calculation, CustomError>)
    ensures
        (r, final(ctx)@) == calc_outcome(old(ctx)@, ops),
{
    let rec = match decode_record(&ctx.my_account.data) {
        Ok(rec) => rec,
        Err(e) => {
            return Err(e);
        },
    };
    if !same_identity(&rec.owner, &ctx.signer.key) {
        return Err(CustomError::Unauthorized);
    }
    if !ctx.signer.is_signer {
        return Err(CustomError::MissingSignature);
    }
    let results = calculate(rec.data, ops);
    let updated = MyNewAccount { owner: rec.owner, data: results.quotient };
    ctx.my_account.data = encode_record(&updated);
    Ok(results)
}

/// The account left by a sequence of mutation calls on it, each with its own signer and
/// operand, failed calls included.
pub open spec fn calc_run(account: AccountModel, calls: Seq<(AccountModel, u32)>) -> AccountModel
    decreases calls.len(),
{
    if calls.len() == 0 {
        account
    } else {
        let before = calc_run(account, calls.drop_last());
        calc_outcome(MyCalcModel { signer: calls.last().0, my_account: before }, calls.last().1).1.my_account
    }
}

/// A record is created once: once creation has succeeded on a slot, every later creation
/// on that slot fails with `AlreadyInitialized` and changes nothing, and the slot holds the
/// record that the first creation wrote.
pub proof fn lemma_initialize_once(c: MyInitModel, first: u64, later: MyInitModel, second: u64)
    requires
        c.signer.key.len() == IDENTITY_LEN,
        init_outcome(c, first).0 is Ok,
        later.new_account == init_outcome(c, first).1.new_account,
    ensures
        init_outcome(later, second) == (Err::<(), CustomError>(CustomError::AlreadyInitialized), later),
        record_of(later.new_account.data) == Some(RecordModel { owner: c.signer.key, payload: first }),
{
    lemma_record_round_trip(RecordModel { owner: c.signer.key, payload: first });
}

/// Mutation calls, successful or not and by whatever signer, never change a record's owner.
pub proof fn lemma_calc_run_keeps_owner(account: AccountModel, calls: Seq<(AccountModel, u32)>)
    requires
        record_of(account.data) is Some,
    ensures
        record_of(calc_run(account, calls).data) is Some,
        record_of(calc_run(account, calls).data)->Some_0.owner == record_of(account.data)->Some_0.owner,
    decreases calls.len(),
{
    if calls.len() > 0 {
        lemma_calc_run_keeps_owner(account, calls.drop_last());
        let before = calc_run(account, calls.drop_last());
        let rec = record_of(before.data)->Some_0;
        let results = calculation(rec.payload, calls.last().1);
        lemma_record_round_trip(RecordModel { owner: rec.owner, payload: results.quotient });
    }
}

/// After a successful creation, any sequence of mutation calls on the record leaves its
/// owner equal to the signer that created it.
pub proof fn lemma_owner_immutable(c: MyInitModel, data: u64, calls: Seq<(AccountModel, u32)>)
    requires
        c.signer.key.len() == IDENTITY_LEN,
        init_outcome(c, data).0 is Ok,
    ensures
        record_of(calc_run(init_outcome(c, data).1.new_account, calls).data) is Some,
        record_of(calc_run(init_outcome(c, data).1.new_account, calls).data)->Some_0.owner
            == c.signer.key,
{
    lemma_record_round_trip(RecordModel { owner: c.signer.key, payload: data });
    lemma_calc_run_keeps_owner(init_outcome(c, data).1.new_account, calls);
}

/// A mutation call by a signer other than the stored owner fails with `Unauthorized` and
/// leaves every account as it was.
pub proof fn lemma_unauthorized(c: MyCalcModel, ops: u32)
    requires
        record_of(c.my_account.data) is Some,
        record_of(c.my_account.data)->Some_0.owner != c.signer.key,
    ensures
        calc_outcome(c, ops) == (Err::<Calculation, CustomError>(CustomError::Unauthorized), c),
{
}

/// A mutation call by the owner with a zero operand succeeds and keeps the payload.
pub proof fn lemma_zero_operand(c: MyCalcModel)
    requires
        record_of(c.my_account.data) is Some,
        record_of(c.my_account.data)->Some_0.owner == c.signer.key,
        c.signer.is_signer,
    ensures
        calc_outcome(c, 0).0 is Ok,
        record_of(calc_outcome(c, 0).1.my_account.data) == record_of(c.my_account.data),
{
    let rec = record_of(c.my_account.data)->Some_0;
    lemma_record_round_trip(RecordModel { owner: rec.owner, payload: rec.payload });
}

} // verus!
