//! Deposit nonce and L1 fee of an OP transaction receipt.
//!
//! The RPC receipt type is opaque to the verifier, so the fields that the
//! accessors read are first copied one for one into [`OpReceiptFields`], and
//! the accessors' logic is verified over that model.

use op_alloy_consensus::OpReceipt;
use op_alloy_rpc_types::OpTransactionReceipt;
use vstd::prelude::*;

verus! {

#[verifier::external_type_specification]
#[verifier::external_body]
pub struct ExOpTransactionReceipt(OpTransactionReceipt);

/// The kind of consensus receipt inside an OP transaction receipt, with the
/// fields that only deposit receipts carry.
#[derive(Debug, Clone, Copy, PartialEq, Eq, Structural)]
pub enum OpReceiptKind {
    Legacy,
    Eip2930,
    Eip1559,
    Eip7702,
    Deposit { deposit_nonce: Option<u64>, deposit_receipt_version: Option<u64> },
}

/// The fields of an OP transaction receipt that the accessors read.
#[derive(Debug, Clone, Copy, PartialEq, Eq, Structural)]
pub struct OpReceiptFields {
    /// The kind of the consensus receipt (`inner.inner.receipt`).
    pub kind: OpReceiptKind,
    /// The L1 fee of the receipt's L1 block info (`l1_block_info.l1_fee`).
    pub l1_fee: Option<u128>,
}

impl OpReceiptFields {
    /// The deposit nonce of a deposit receipt; `None` for every other kind.
    pub open spec fn spec_deposit_nonce(self) -> Option<u64> {
        match self.kind {
            OpReceiptKind::Deposit { deposit_nonce, .. } => deposit_nonce,
            _ => None,
        }
    }

    /// Returns the deposit nonce carried by a deposit receipt, and `None` for
    /// a receipt of any other kind.
    pub fn deposit_nonce(&self) -> (res: Option<u64>)
        ensures
            res == self.spec_deposit_nonce(),
            self.kind matches OpReceiptKind::Deposit { deposit_nonce, .. } ==> res
                == deposit_nonce,
            !(self.kind is Deposit) ==> res is None,
    {
        match self.kind {
            OpReceiptKind::Deposit { deposit_nonce, .. } => deposit_nonce,
            _ => None,
        }
    }

    /// Returns the L1 fee of the receipt's L1 block info.
    pub fn l1_fee(&self) -> (res: Option<u128>)
        ensures
            res == self.l1_fee,
    {
        self.l1_fee
    }
}

/// The deposit nonce read from a deposit receipt is that receipt's
/// `deposit_nonce` field, whatever it holds (zero included), whatever the
/// receipt version and the L1 fee; a receipt of any other kind has none.
pub proof fn lemma_deposit_nonce_is_the_deposit_field(
    fields: OpReceiptFields,
    nonce: Option<u64>,
    version: Option<u64>,
)
    ensures
        (OpReceiptFields {
            kind: OpReceiptKind::Deposit { deposit_nonce: nonce, deposit_receipt_version: version },
            ..fields
        }).spec_deposit_nonce() == nonce,
        !(fields.kind is Deposit) ==> fields.spec_deposit_nonce() is None,
{
}

/// Two receipts whose deposit nonces agree give the same deposit nonce,
/// however their receipt versions and L1 fees differ; two receipts of
/// non-deposit kinds both give none.
pub proof fn lemma_deposit_nonce_depends_on_nonce_alone(
    a: OpReceiptFields,
    b: OpReceiptFields,
)
    requires
        a.kind matches OpReceiptKind::Deposit { deposit_nonce: na, .. }
            && b.kind matches OpReceiptKind::Deposit { deposit_nonce: nb, .. } && na == nb,
    ensures
        a.spec_deposit_nonce() == b.spec_deposit_nonce(),
{
}

/// Changing only a receipt's L1 fee changes no deposit nonce, and setting it
/// to any value, whatever the receipt's kind, gives a receipt whose L1 fee is
/// that value.
pub proof fn lemma_l1_fee_is_the_block_info_field(a: OpReceiptFields, fee: Option<u128>)
    ensures
        (OpReceiptFields { l1_fee: fee, ..a }).l1_fee == fee,
        (OpReceiptFields { l1_fee: fee, ..a }).spec_deposit_nonce() == a.spec_deposit_nonce(),
{
}

/// The read fields of an OP transaction receipt: the variant of
/// `inner.inner.receipt` (with the deposit nonce and receipt version of a
/// deposit receipt) and `l1_block_info.l1_fee`.
pub uninterp spec fn receipt_fields_of(receipt: OpTransactionReceipt) -> OpReceiptFields;

/// Copies the read fields of an [`OpTransactionReceipt`] into
/// [`OpReceiptFields`], one for one: the variant of `inner.inner.receipt` (with
/// the deposit nonce and receipt version of a deposit receipt) and
/// `l1_block_info.l1_fee`. The result depends on the receipt alone.
#[verifier::external_body]
fn op_receipt_fields(receipt: &OpTransactionReceipt) -> (res: OpReceiptFields)
    ensures
        res == receipt_fields_of(*receipt),
{
    let kind = match &receipt.inner.inner.receipt {
        OpReceipt::Legacy(_) => OpReceiptKind::Legacy,
        OpReceipt::Eip2930(_) => OpReceiptKind::Eip2930,
        OpReceipt::Eip1559(_) => OpReceiptKind::Eip1559,
        OpReceipt::Eip7702(_) => OpReceiptKind::Eip7702,
        OpReceipt::Deposit(d) => OpReceiptKind::Deposit {
            deposit_nonce: d.deposit_nonce,
            deposit_receipt_version: d.deposit_receipt_version,
        },
    };
    OpReceiptFields { kind, l1_fee: receipt.l1_block_info.l1_fee }
}

/// Extracts `deposit_nonce` from a deposit-type [`OpTransactionReceipt`];
/// `None` for every other receipt type.
///
/// The verified part is [`OpReceiptFields::deposit_nonce`], applied to the
/// receipt's fields.
pub fn deposit_nonce_of(receipt: &OpTransactionReceipt) -> (res: Option<u64>)
    ensures
        res == receipt_fields_of(*receipt).spec_deposit_nonce(),
        receipt_fields_of(*receipt).kind matches OpReceiptKind::Deposit { deposit_nonce, .. }
            ==> res == deposit_nonce,
        !(receipt_fields_of(*receipt).kind is Deposit) ==> res is None,
{
    let fields = op_receipt_fields(receipt);
    fields.deposit_nonce()
}

/// Extracts the populated `l1_fee` from an [`OpTransactionReceipt`].
///
/// The verified part is [`OpReceiptFields::l1_fee`], applied to the receipt's
/// fields.
pub fn l1_fee_of(receipt: &OpTransactionReceipt) -> (res: Option<u128>)
    ensures
        res == receipt_fields_of(*receipt).l1_fee,
{
    let fields = op_receipt_fields(receipt);
    fields.l1_fee()
}

} // verus!
