//! The values that the decoding stages hand to one another.

use vstd::prelude::*;

verus! {

/// The number that a byte sequence denotes when read with the most
/// significant byte first.
pub open spec fn be_nat(bytes: Seq<u8>) -> nat
    decreases bytes.len(),
{
    if bytes.len() == 0 {
        0
    } else {
        be_nat(bytes.drop_last()) * 256 + bytes.last() as nat
    }
}

/// A 20-byte account address.
#[derive(Clone, Copy, Debug, PartialEq, Eq)]
pub struct Address {
    pub bytes: [u8; 20],
}

impl View for Address {
    type V = Seq<u8>;

    open spec fn view(&self) -> Seq<u8> {
        self.bytes@
    }
}

/// A 256-bit unsigned integer, kept as its 32 big-endian bytes.
#[derive(Clone, Copy, Debug, PartialEq, Eq)]
pub struct U256 {
    pub bytes: [u8; 32],
}

impl View for U256 {
    type V = nat;

    open spec fn view(&self) -> nat {
        be_nat(self.bytes@)
    }
}

/// Reading one byte more multiplies what was read by 256 and adds the byte.
pub proof fn lemma_be_nat_step(bytes: Seq<u8>, upto: int)
    requires
        0 <= upto < bytes.len(),
    ensures
        be_nat(bytes.subrange(0, upto + 1)) == be_nat(bytes.subrange(0, upto)) * 256
            + bytes[upto] as nat,
{
    assert(bytes.subrange(0, upto + 1).drop_last() =~= bytes.subrange(0, upto));
}

/// The number that a prefix denotes is at most the number that the whole
/// byte sequence denotes.
pub proof fn lemma_be_nat_prefix(bytes: Seq<u8>, upto: int)
    requires
        0 <= upto <= bytes.len(),
    ensures
        be_nat(bytes.subrange(0, upto)) <= be_nat(bytes),
    decreases bytes.len() - upto,
{
    if upto == bytes.len() {
        assert(bytes.subrange(0, upto) =~= bytes);
    } else {
        lemma_be_nat_prefix(bytes.drop_last(), upto);
        assert(bytes.drop_last().subrange(0, upto) =~= bytes.subrange(0, upto));
    }
}

/// Two byte sequences of one length that denote the same number are the same
/// bytes: the number of a 256-bit integer stands for its 32 bytes.
pub proof fn lemma_be_nat_injective(a: Seq<u8>, b: Seq<u8>)
    requires
        a.len() == b.len(),
        be_nat(a) == be_nat(b),
    ensures
        a == b,
    decreases a.len(),
{
    if a.len() > 0 {
        let x = be_nat(a.drop_last());
        let y = be_nat(b.drop_last());
        assert(x * 256 + a.last() as nat == y * 256 + b.last() as nat);
        assert(x == y && a.last() == b.last());
        lemma_be_nat_injective(a.drop_last(), b.drop_last());
        assert(a =~= a.drop_last().push(a.last()));
        assert(b =~= b.drop_last().push(b.last()));
    } else {
        assert(a =~= b);
    }
}

impl U256 {
    /// The integer as a `u128`, if it is small enough.
    pub fn to_u128(&self) -> (r: Option<u128>)
        ensures
            match r {
                Some(v) => self@ == v,
                None => self@ > u128::MAX,
            },
    {
        let mut acc: u128 = 0;
        let mut i: usize = 0;
        proof {
            assert(self.bytes@.subrange(0, 0) =~= Seq::<u8>::empty());
        }
        while i < 32
            invariant
                i <= 32,
                self.bytes@.len() == 32,
                acc == be_nat(self.bytes@.subrange(0, i as int)),
            decreases 32 - i,
        {
            let byte = self.bytes[i];
            proof {
                lemma_be_nat_step(self.bytes@, i as int);
            }
            if acc > (u128::MAX - byte as u128) / 256 {
                proof {
                    lemma_be_nat_prefix(self.bytes@, i + 1);
                }
                return None;
            }
            acc = acc * 256 + byte as u128;
            i += 1;
        }
        proof {
            assert(self.bytes@.subrange(0, 32) =~= self.bytes@);
        }
        Some(acc)
    }
}

/// One inner call that the account is asked to make.
#[derive(Clone, Debug, PartialEq, Eq)]
pub struct ExecutionEntry {
    pub target: Address,
    pub value: U256,
    pub inner_calldata: Vec<u8>,
}

/// What an `ExecutionEntry` stands for.
pub struct EntryView {
    pub target: Seq<u8>,
    pub value: nat,
    pub inner_calldata: Seq<u8>,
}

impl View for ExecutionEntry {
    type V = EntryView;

    open spec fn view(&self) -> EntryView {
        EntryView {
            target: self.target@,
            value: self.value@,
            inner_calldata: self.inner_calldata@,
        }
    }
}

/// The views of a list of entries, in order.
pub open spec fn entries_view(entries: Seq<ExecutionEntry>) -> Seq<EntryView> {
    Seq::new(entries.len(), |i: int| entries[i]@)
}

/// The kind of token operation that the caller expects an inner call to be.
#[derive(Clone, Copy, Debug, PartialEq, Eq)]
pub enum TokenKind {
    /// A fungible-token `transfer(address,uint256)`.
    Erc20,
    /// A non-fungible-token `transferFrom(address,address,uint256)`.
    Erc721,
}

/// A token operation read from an inner call.
#[derive(Clone, Copy, Debug, PartialEq, Eq)]
pub enum TokenOperation {
    Transfer20 { to: Address, amount: U256 },
    TransferFrom721 { from: Address, to: Address, token_id: U256 },
}

/// What a `TokenOperation` stands for.
pub enum TokenOperationView {
    Transfer20 { to: Seq<u8>, amount: nat },
    TransferFrom721 { from: Seq<u8>, to: Seq<u8>, token_id: nat },
}

impl View for TokenOperation {
    type V = TokenOperationView;

    open spec fn view(&self) -> TokenOperationView {
        match *self {
            TokenOperation::Transfer20 { to, amount } => TokenOperationView::Transfer20 {
                to: to@,
                amount: amount@,
            },
            TokenOperation::TransferFrom721 { from, to, token_id } => {
                TokenOperationView::TransferFrom721 { from: from@, to: to@, token_id: token_id@ }
            },
        }
    }
}

/// What the policy side is told about one classified inner call.
#[derive(Clone, Copy, Debug, PartialEq, Eq)]
pub struct Report {
    pub entry_index: usize,
    pub target: Address,
    pub value: U256,
    pub operation: TokenOperation,
}

/// What a `Report` stands for.
pub struct ReportView {
    pub entry_index: nat,
    pub target: Seq<u8>,
    pub value: nat,
    pub operation: TokenOperationView,
}

impl View for Report {
    type V = ReportView;

    open spec fn view(&self) -> ReportView {
        ReportView {
            entry_index: self.entry_index as nat,
            target: self.target@,
            value: self.value@,
            operation: self.operation@,
        }
    }
}

/// The views of a list of reports, in order.
pub open spec fn reports_view(reports: Seq<Report>) -> Seq<ReportView> {
    Seq::new(reports.len(), |i: int| reports[i]@)
}

} // verus!
