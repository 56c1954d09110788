//! The wallet's procedures: what is asked, and what the answers hold.

use vstd::prelude::*;
use crate::address::{address_wire_form, Address};
use crate::client::{reply_of, Request, RequestView, RpcClient};
use crate::codec::hex_text;
use crate::envelope::{decode_response, Params, ParamsValue};
use crate::error::{ClientError, ClientFault, DecodeError};
use crate::hash::{HashString, HashType, PaymentId};
use crate::json::{items_view, writable, Json, JsonValue, ObjectBuilder};
use crate::priority::{priority_code, TransferPriority};

verus! {

/// The balance of one subaddress.
#[derive(Debug, PartialEq, Eq)]
pub struct SubaddressBalanceData {
    pub address: Address,
    pub address_index: u64,
    pub balance: u64,
    pub label: String,
    pub num_unspent_outputs: u64,
    pub unlocked_balance: u64,
}

/// The balance of one subaddress as values.
pub struct SubaddressBalanceView {
    pub address: Seq<char>,
    pub address_index: u64,
    pub balance: u64,
    pub label: Seq<char>,
    pub num_unspent_outputs: u64,
    pub unlocked_balance: u64,
}

impl View for SubaddressBalanceData {
    type V = SubaddressBalanceView;

    open spec fn view(&self) -> SubaddressBalanceView {
        SubaddressBalanceView {
            address: self.address@,
            address_index: self.address_index,
            balance: self.balance,
            label: self.label@,
            num_unspent_outputs: self.num_unspent_outputs,
            unlocked_balance: self.unlocked_balance,
        }
    }
}

/// The balance of an account.
#[derive(Debug, PartialEq, Eq)]
pub struct BalanceData {
    pub balance: u64,
    pub multisig_import_needed: bool,
    pub per_subaddress: Vec<SubaddressBalanceData>,
    pub unlocked_balance: u64,
}

/// The balance of an account as values.
pub struct BalanceView {
    pub balance: u64,
    pub multisig_import_needed: bool,
    pub per_subaddress: Seq<SubaddressBalanceView>,
    pub unlocked_balance: u64,
}

/// The values of a list of subaddress balances.
pub open spec fn subaddresses_view(items: Seq<SubaddressBalanceData>) -> Seq<SubaddressBalanceView> {
    Seq::new(items.len(), |i: int| items[i]@)
}

impl View for BalanceData {
    type V = BalanceView;

    open spec fn view(&self) -> BalanceView {
        BalanceView {
            balance: self.balance,
            multisig_import_needed: self.multisig_import_needed,
            per_subaddress: subaddresses_view(self.per_subaddress@),
            unlocked_balance: self.unlocked_balance,
        }
    }
}

/// What the wallet reports of a transfer it has made.
#[derive(Clone, Debug, PartialEq, Eq)]
pub struct TransferData {
    pub amount: u128,
    pub fee: u128,
    pub multisig_txset: Vec<()>,
    pub tx_blob: String,
    pub tx_hash: String,
    pub tx_key: String,
    pub tx_metadata: String,
    pub unsigned_txset: String,
}

/// A transfer report as values; of the multisig set only its length counts.
pub struct TransferView {
    pub amount: u128,
    pub fee: u128,
    pub multisig_txset: nat,
    pub tx_blob: Seq<char>,
    pub tx_hash: Seq<char>,
    pub tx_key: Seq<char>,
    pub tx_metadata: Seq<char>,
    pub unsigned_txset: Seq<char>,
}

impl View for TransferData {
    type V = TransferView;

    open spec fn view(&self) -> TransferView {
        TransferView {
            amount: self.amount,
            fee: self.fee,
            multisig_txset: self.multisig_txset@.len(),
            tx_blob: self.tx_blob@,
            tx_hash: self.tx_hash@,
            tx_key: self.tx_key@,
            tx_metadata: self.tx_metadata@,
            unsigned_txset: self.unsigned_txset@,
        }
    }
}

/// The address that the member `name` of a record holds.
pub open spec fn address_field(value: JsonValue, name: Seq<char>) -> Result<Seq<char>, DecodeError> {
    match value.text_field(name) {
        Ok(text) => match address_wire_form(text) {
            Some(wire) => Ok(wire),
            None => Err(DecodeError::InvalidAddress),
        },
        Err(e) => Err(e),
    }
}

/// The subaddress balance that a record holds. The members are read in the
/// order of the fields; the first that is missing or ill-formed decides the
/// error.
pub open spec fn subaddress_balance_of(value: JsonValue) -> Result<
    SubaddressBalanceView,
    DecodeError,
> {
    let address = address_field(value, "address"@);
    let address_index = value.u64_field("address_index"@);
    let balance = value.u64_field("balance"@);
    let label = value.text_field("label"@);
    let num_unspent_outputs = value.u64_field("num_unspent_outputs"@);
    let unlocked_balance = value.u64_field("unlocked_balance"@);
    if address is Err {
        Err(address->Err_0)
    } else if address_index is Err {
        Err(address_index->Err_0)
    } else if balance is Err {
        Err(balance->Err_0)
    } else if label is Err {
        Err(label->Err_0)
    } else if num_unspent_outputs is Err {
        Err(num_unspent_outputs->Err_0)
    } else if unlocked_balance is Err {
        Err(unlocked_balance->Err_0)
    } else {
        Ok(
            SubaddressBalanceView {
                address: address->Ok_0,
                address_index: address_index->Ok_0,
                balance: balance->Ok_0,
                label: label->Ok_0,
                num_unspent_outputs: num_unspent_outputs->Ok_0,
                unlocked_balance: unlocked_balance->Ok_0,
            },
        )
    }
}

/// The subaddress balances that a list holds: every item has to be one, and
/// the first that is not decides the error.
pub open spec fn subaddress_balances_of(items: Seq<JsonValue>) -> Result<
    Seq<SubaddressBalanceView>,
    DecodeError,
>
    decreases items.len(),
{
    if items.len() == 0 {
        Ok(Seq::empty())
    } else {
        match subaddress_balances_of(items.drop_last()) {
            Err(e) => Err(e),
            Ok(front) => match subaddress_balance_of(items.last()) {
                Ok(last) => Ok(front.push(last)),
                Err(e) => Err(e),
            },
        }
    }
}

/// The balance that a record holds.
pub open spec fn balance_of(value: JsonValue) -> Result<BalanceView, DecodeError> {
    let balance = value.u64_field("balance"@);
    let multisig_import_needed = value.bool_field("multisig_import_needed"@);
    let items = value.array_field("per_subaddress"@);
    let unlocked_balance = value.u64_field("unlocked_balance"@);
    if balance is Err {
        Err(balance->Err_0)
    } else if multisig_import_needed is Err {
        Err(multisig_import_needed->Err_0)
    } else if items is Err {
        Err(items->Err_0)
    } else if subaddress_balances_of(items->Ok_0) is Err {
        Err(subaddress_balances_of(items->Ok_0)->Err_0)
    } else if unlocked_balance is Err {
        Err(unlocked_balance->Err_0)
    } else {
        Ok(
            BalanceView {
                balance: balance->Ok_0,
                multisig_import_needed: multisig_import_needed->Ok_0,
                per_subaddress: subaddress_balances_of(items->Ok_0)->Ok_0,
                unlocked_balance: unlocked_balance->Ok_0,
            },
        )
    }
}

/// The length of a list made of nulls only; any other list is refused.
pub open spec fn unit_list_of(items: Seq<JsonValue>) -> Result<nat, DecodeError> {
    if forall|i: int| 0 <= i < items.len() ==> items[i] == JsonValue::Null {
        Ok(items.len())
    } else {
        Err(DecodeError::WrongType)
    }
}

/// The transfer report that a record holds.
pub open spec fn transfer_of(value: JsonValue) -> Result<TransferView, DecodeError> {
    let amount = value.u64_field("amount"@);
    let fee = value.u64_field("fee"@);
    let set = value.array_field("multisig_txset"@);
    let tx_blob = value.text_field("tx_blob"@);
    let tx_hash = value.text_field("tx_hash"@);
    let tx_key = value.text_field("tx_key"@);
    let tx_metadata = value.text_field("tx_metadata"@);
    let unsigned_txset = value.text_field("unsigned_txset"@);
    if amount is Err {
        Err(amount->Err_0)
    } else if fee is Err {
        Err(fee->Err_0)
    } else if set is Err {
        Err(set->Err_0)
    } else if unit_list_of(set->Ok_0) is Err {
        Err(unit_list_of(set->Ok_0)->Err_0)
    } else if tx_blob is Err {
        Err(tx_blob->Err_0)
    } else if tx_hash is Err {
        Err(tx_hash->Err_0)
    } else if tx_key is Err {
        Err(tx_key->Err_0)
    } else if tx_metadata is Err {
        Err(tx_metadata->Err_0)
    } else if unsigned_txset is Err {
        Err(unsigned_txset->Err_0)
    } else {
        Ok(
            TransferView {
                amount: amount->Ok_0 as u128,
                fee: fee->Ok_0 as u128,
                multisig_txset: unit_list_of(set->Ok_0)->Ok_0,
                tx_blob: tx_blob->Ok_0,
                tx_hash: tx_hash->Ok_0,
                tx_key: tx_key->Ok_0,
                tx_metadata: tx_metadata->Ok_0,
                unsigned_txset: unsigned_txset->Ok_0,
            },
        )
    }
}

impl SubaddressBalanceData {
    /// Reads the balance of a subaddress from a record.
    pub fn from_json(value: &Json) -> (r: Result<SubaddressBalanceData, DecodeError>)
        ensures
            match r {
                Ok(s) => subaddress_balance_of(value@) == Ok::<SubaddressBalanceView, DecodeError>(
                    s@,
                ),
                Err(e) => subaddress_balance_of(value@) == Err::<
                    SubaddressBalanceView,
                    DecodeError,
                >(e),
            },
    {
        let text = match value.text_field("address") {
            Ok(x) => x,
            Err(e) => { return Err(e); },
        };
        let address = match Address::parse(text.as_str()) {
            Some(x) => x,
            None => { return Err(DecodeError::InvalidAddress); },
        };
        let address_index = match value.u64_field("address_index") {
            Ok(x) => x,
            Err(e) => { return Err(e); },
        };
        let balance = match value.u64_field("balance") {
            Ok(x) => x,
            Err(e) => { return Err(e); },
        };
        let label = match value.text_field("label") {
            Ok(x) => x,
            Err(e) => { return Err(e); },
        };
        let num_unspent_outputs = match value.u64_field("num_unspent_outputs") {
            Ok(x) => x,
            Err(e) => { return Err(e); },
        };
        let unlocked_balance = match value.u64_field("unlocked_balance") {
            Ok(x) => x,
            Err(e) => { return Err(e); },
        };
        Ok(
            SubaddressBalanceData {
                address,
                address_index,
                balance,
                label,
                num_unspent_outputs,
                unlocked_balance,
            },
        )
    }
}

/// Reads a list of subaddress balances.
fn subaddress_balances(items: &Vec<Json>) -> (r: Result<Vec<SubaddressBalanceData>, DecodeError>)
    ensures
        match r {
            Ok(list) => subaddress_balances_of(items_view(items@)) == Ok::<
                Seq<SubaddressBalanceView>,
                DecodeError,
            >(subaddresses_view(list@)),
            Err(e) => subaddress_balances_of(items_view(items@)) == Err::<
                Seq<SubaddressBalanceView>,
                DecodeError,
            >(e),
        },
{
    let ghost values = items_view(items@);
    let mut list: Vec<SubaddressBalanceData> = Vec::new();
    let mut i: usize = 0;
    assert(values.take(0) =~= Seq::<JsonValue>::empty());
    assert(subaddresses_view(list@) =~= Seq::<SubaddressBalanceView>::empty());
    while i < items.len()
        invariant
            i <= items.len(),
            values == items_view(items@),
            subaddress_balances_of(values.take(i as int)) == Ok::<
                Seq<SubaddressBalanceView>,
                DecodeError,
            >(subaddresses_view(list@)),
        decreases items.len() - i,
    {
        proof {
            assert(values.take(i + 1).drop_last() =~= values.take(i as int));
            assert(values.take(i + 1).last() == items@[i as int]@);
        }
        match SubaddressBalanceData::from_json(&items[i]) {
            Ok(s) => {
                let ghost before = subaddresses_view(list@);
                list.push(s);
                assert(subaddresses_view(list@) =~= before.push(s@));
            },
            Err(e) => {
                proof {
                    lemma_subaddress_failure(values, i as int);
                }
                return Err(e);
            },
        }
        i = i + 1;
    }
    assert(values.take(i as int) =~= values);
    Ok(list)
}

/// Once a front part of a list is refused, the whole list is refused with
/// the same error.
proof fn lemma_subaddress_failure(items: Seq<JsonValue>, i: int)
    requires
        0 <= i < items.len(),
        subaddress_balances_of(items.take(i + 1)) is Err,
    ensures
        subaddress_balances_of(items) == subaddress_balances_of(items.take(i + 1)),
    decreases items.len(),
{
    if i + 1 < items.len() {
        assert(items.drop_last().take(i + 1) =~= items.take(i + 1));
        lemma_subaddress_failure(items.drop_last(), i);
    } else {
        assert(items.take(i + 1) =~= items);
    }
}

impl BalanceData {
    /// Reads the balance of an account from a record.
    pub fn from_json(value: &Json) -> (r: Result<BalanceData, DecodeError>)
        ensures
            match r {
                Ok(b) => balance_of(value@) == Ok::<BalanceView, DecodeError>(b@),
                Err(e) => balance_of(value@) == Err::<BalanceView, DecodeError>(e),
            },
    {
        let balance = match value.u64_field("balance") {
            Ok(x) => x,
            Err(e) => { return Err(e); },
        };
        let multisig_import_needed = match value.bool_field("multisig_import_needed") {
            Ok(x) => x,
            Err(e) => { return Err(e); },
        };
        let items = match value.array_field("per_subaddress") {
            Ok(x) => x,
            Err(e) => { return Err(e); },
        };
        let per_subaddress = match subaddress_balances(items) {
            Ok(x) => x,
            Err(e) => { return Err(e); },
        };
        let unlocked_balance = match value.u64_field("unlocked_balance") {
            Ok(x) => x,
            Err(e) => { return Err(e); },
        };
        Ok(BalanceData { balance, multisig_import_needed, per_subaddress, unlocked_balance })
    }
}

/// Reads a list of nulls as that many units.
fn unit_list(items: &Vec<Json>) -> (r: Result<Vec<()>, DecodeError>)
    ensures
        match r {
            Ok(units) => unit_list_of(items_view(items@)) == Ok::<nat, DecodeError>(units@.len()),
            Err(e) => unit_list_of(items_view(items@)) == Err::<nat, DecodeError>(e),
        },
{
    let mut units: Vec<()> = Vec::new();
    let mut i: usize = 0;
    while i < items.len()
        invariant
            i <= items.len(),
            units@.len() == i,
            forall|j: int| 0 <= j < i ==> items_view(items@)[j] == JsonValue::Null,
        decreases items.len() - i,
    {
        match &items[i] {
            Json::Null => {
                units.push(());
            },
            _ => {
                assert(items_view(items@)[i as int] != JsonValue::Null);
                return Err(DecodeError::WrongType);
            },
        }
        i = i + 1;
    }
    Ok(units)
}

impl TransferData {
    /// Reads a transfer report from a record.
    pub fn from_json(value: &Json) -> (r: Result<TransferData, DecodeError>)
        ensures
            match r {
                Ok(t) => transfer_of(value@) == Ok::<TransferView, DecodeError>(t@),
                Err(e) => transfer_of(value@) == Err::<TransferView, DecodeError>(e),
            },
    {
        let amount = match value.u64_field("amount") {
            Ok(x) => x,
            Err(e) => { return Err(e); },
        };
        let fee = match value.u64_field("fee") {
            Ok(x) => x,
            Err(e) => { return Err(e); },
        };
        let set = match value.array_field("multisig_txset") {
            Ok(x) => x,
            Err(e) => { return Err(e); },
        };
        let multisig_txset = match unit_list(set) {
            Ok(x) => x,
            Err(e) => { return Err(e); },
        };
        let tx_blob = match value.text_field("tx_blob") {
            Ok(x) => x,
            Err(e) => { return Err(e); },
        };
        let tx_hash = match value.text_field("tx_hash") {
            Ok(x) => x,
            Err(e) => { return Err(e); },
        };
        let tx_key = match value.text_field("tx_key") {
            Ok(x) => x,
            Err(e) => { return Err(e); },
        };
        let tx_metadata = match value.text_field("tx_metadata") {
            Ok(x) => x,
            Err(e) => { return Err(e); },
        };
        let unsigned_txset = match value.text_field("unsigned_txset") {
            Ok(x) => x,
            Err(e) => { return Err(e); },
        };
        Ok(
            TransferData {
                amount: amount as u128,
                fee: fee as u128,
                multisig_txset,
                tx_blob,
                tx_hash,
                tx_key,
                tx_metadata,
                unsigned_txset,
            },
        )
    }
}

/// Whom a transfer pays, and how much each: a list of addresses with
/// amounts in which no address occurs twice. Every amount fits 64 bits,
/// which is all a JSON number of the protocol can carry.
#[derive(Debug)]
pub struct Destinations {
    entries: Vec<(Address, u128)>,
}

/// The addresses and amounts of a list of entries.
pub open spec fn entries_view(entries: Seq<(Address, u128)>) -> Seq<(Seq<char>, u128)> {
    Seq::new(entries.len(), |i: int| (entries[i].0@, entries[i].1))
}

/// Whether no address occurs twice and every amount fits 64 bits.
pub open spec fn distinct_destinations(destinations: Seq<(Seq<char>, u128)>) -> bool {
    &&& forall|i: int, j: int|
        0 <= i < j < destinations.len() ==> (#[trigger] destinations[i]).0 != (
        #[trigger] destinations[j]).0
    &&& forall|i: int| 0 <= i < destinations.len() ==> (#[trigger] destinations[i]).1 <= u64::MAX
}

impl View for Destinations {
    type V = Seq<(Seq<char>, u128)>;

    closed spec fn view(&self) -> Seq<(Seq<char>, u128)> {
        entries_view(self.entries@)
    }
}

impl Destinations {
    #[verifier::type_invariant]
    spec fn well_formed(self) -> bool {
        &&& forall|i: int, j: int|
            0 <= i < j < self.entries@.len() ==> (#[trigger] self.entries@[i]).0@
                != (#[trigger] self.entries@[j]).0@
        &&& forall|i: int|
            0 <= i < self.entries@.len() ==> (#[trigger] self.entries@[i]).1 <= u64::MAX
    }

    /// No destinations.
    pub fn new() -> (d: Destinations)
        ensures
            d@ == Seq::<(Seq<char>, u128)>::empty(),
    {
        let d = Destinations { entries: Vec::new() };
        assert(d@ =~= Seq::<(Seq<char>, u128)>::empty());
        d
    }

    /// The number of destinations. Whatever the list holds, no address
    /// occurs twice in it and every amount fits 64 bits.
    pub fn len(&self) -> (n: usize)
        ensures
            n == self@.len(),
            distinct_destinations(self@),
    {
        proof {
            use_type_invariant(self);
            assert forall|i: int, j: int| 0 <= i < j < self@.len() implies (#[trigger] self@[i]).0
                != (#[trigger] self@[j]).0 by {
                assert(self.entries@[i].0@ != self.entries@[j].0@);
            }
            assert forall|i: int| 0 <= i < self@.len() implies (#[trigger] self@[i]).1
                <= u64::MAX by {
                assert(self.entries@[i].1 <= u64::MAX);
            }
        }
        self.entries.len()
    }

    /// Sets the amount for an address and hands the list back. An address
    /// that is already there keeps its place and gets the new amount; the
    /// old amount is returned beside the list. A new address goes to the end.
    pub fn insert(self, address: Address, amount: u128) -> (r: (Destinations, Option<u128>))
        requires
            amount <= u64::MAX,
        ensures
            match r.1 {
                Some(old_amount) => exists|i: int|
                    0 <= i < self@.len() && self@[i] == (address@, old_amount) && r.0@
                        == self@.update(i, (address@, amount)),
                None => (forall|i: int| 0 <= i < self@.len() ==> (#[trigger] self@[i]).0 != address@)
                    && r.0@ == self@.push((address@, amount)),
            },
    {
        proof {
            use_type_invariant(&self);
        }
        let ghost before = self.entries@;
        let mut entries = self.entries;
        let mut i: usize = 0;
        while i < entries.len()
            invariant
                i <= entries.len(),
                entries@ == before,
                self@ == entries_view(before),
                amount <= u64::MAX,
                forall|j: int, k: int|
                    0 <= j < k < before.len() ==> (#[trigger] before[j]).0@ != (
                    #[trigger] before[k]).0@,
                forall|j: int| 0 <= j < before.len() ==> (#[trigger] before[j]).1 <= u64::MAX,
                forall|j: int| 0 <= j < i ==> (#[trigger] before[j]).0@ != address@,
            decreases entries.len() - i,
        {
            if entries[i].0.same(&address) {
                let old_amount: u128 = entries[i].1;
                let ghost wire = address@;
                entries[i] = (address, amount);
                proof {
                    assert(entries@ == before.update(i as int, entries@[i as int]));
                    assert(entries@[i as int].0@ == wire);
                    assert forall|j: int, k: int| 0 <= j < k < entries@.len() implies (
                    #[trigger] entries@[j]).0@ != (#[trigger] entries@[k]).0@ by {
                        assert(before[j].0@ != before[k].0@);
                    }
                    assert forall|j: int| 0 <= j < entries@.len() implies (
                    #[trigger] entries@[j]).1 <= u64::MAX by {
                        assert(j != i ==> entries@[j] == before[j]);
                    }
                    assert(entries_view(before)[i as int] == (address@, old_amount));
                    assert(entries_view(entries@) =~= entries_view(before).update(
                        i as int,
                        (address@, amount),
                    ));
                }
                let next = Destinations { entries };
                assert(self@[i as int] == (wire, old_amount) && next@ == self@.update(
                    i as int,
                    (wire, amount),
                ));
                return (next, Some(old_amount));
            }
            i = i + 1;
        }
        entries.push((address, amount));
        proof {
            assert(entries_view(entries@) =~= entries_view(before).push((address@, amount)));
            assert forall|k: int| 0 <= k < entries_view(before).len() implies (
            #[trigger] entries_view(before)[k]).0 != address@ by {
                assert(before[k].0@ != address@);
            }
        }
        (Destinations { entries }, None)
    }
}

/// A client for the procedures of a wallet.
#[derive(Debug)]
pub struct WalletClient {
    inner: RpcClient,
}

/// The parameters of `get_balance` and `get_address`: the account, and after
/// it the list of subaddress indices where one is given. Nothing stands for
/// a list that is not given.
pub open spec fn account_params(account: u64, addresses: Option<Seq<u64>>) -> Seq<JsonValue> {
    match addresses {
        Some(list) => seq![
            JsonValue::Integer(account as int),
            JsonValue::Array(list.map(|i: int, n: u64| JsonValue::Integer(n as int))),
        ],
        None => seq![JsonValue::Integer(account as int)],
    }
}

/// The account goes alone where no list is given, and with the list as the
/// second parameter where one is: one parameter or two, never a null.
pub proof fn lemma_account_params_len(account: u64, list: Seq<u64>)
    ensures
        account_params(account, None).len() == 1,
        account_params(account, None)[0] == JsonValue::Integer(account as int),
        account_params(account, Some(list)).len() == 2,
        account_params(account, Some(list))[0] == JsonValue::Integer(account as int),
        account_params(account, Some(list))[1] is Array,
        account_params(account, Some(list))[1]->Array_0.len() == list.len(),
{
}

/// The view of an optional list of numbers.
pub open spec fn optional_list(list: Option<Vec<u64>>) -> Option<Seq<u64>> {
    match list {
        Some(v) => Some(v@),
        None => None,
    }
}

/// The JSON value of one destination: an object with the members `address`
/// and `amount`.
pub open spec fn destination_json(destination: (Seq<char>, u128)) -> JsonValue {
    JsonValue::Object(
        Map::<Seq<char>, JsonValue>::empty().insert(
            "address"@,
            JsonValue::Text(destination.0),
        ).insert("amount"@, JsonValue::Integer(destination.1 as int)),
    )
}

/// The JSON value of the destinations: the list of their objects, in order.
pub open spec fn destinations_json(destinations: Seq<(Seq<char>, u128)>) -> JsonValue {
    JsonValue::Array(Seq::new(destinations.len(), |i: int| destination_json(destinations[i])))
}

/// The map with the member added where a value is given, and unchanged
/// where none is.
pub open spec fn with_optional(
    members: Map<Seq<char>, JsonValue>,
    name: Seq<char>,
    value: Option<JsonValue>,
) -> Map<Seq<char>, JsonValue> {
    match value {
        Some(v) => members.insert(name, v),
        None => members,
    }
}

/// What the caller of `transfer` may leave out, as values.
pub struct TransferOptions {
    pub account_index: Option<u64>,
    pub subaddr_indices: Option<Seq<u64>>,
    pub mixin: Option<u64>,
    pub ring_size: Option<u64>,
    pub unlock_time: Option<u64>,
    pub payment_id: Option<Seq<u8>>,
    pub do_not_relay: Option<bool>,
}

/// An optional number as an optional JSON value.
pub open spec fn optional_integer(n: Option<u64>) -> Option<JsonValue> {
    match n {
        Some(n) => Some(JsonValue::Integer(n as int)),
        None => None,
    }
}

/// The parameters of `transfer`, by name.
///
/// `destinations` and `priority` are always there, the priority as its
/// integer code. Each of the others is there exactly when the caller gave
/// it: what is left out is not sent, and never sent as null. The payment
/// identifier goes as hexadecimal text.
pub open spec fn transfer_params(
    destinations: Seq<(Seq<char>, u128)>,
    priority: TransferPriority,
    options: TransferOptions,
) -> Map<Seq<char>, JsonValue> {
    let required = Map::<Seq<char>, JsonValue>::empty().insert(
        "destinations"@,
        destinations_json(destinations),
    ).insert("priority"@, JsonValue::Integer(priority_code(priority)));
    let m1 = with_optional(required, "account_index"@, optional_integer(options.account_index));
    let m2 = with_optional(
        m1,
        "subaddr_indices"@,
        match options.subaddr_indices {
            Some(list) => Some(
                JsonValue::Array(list.map(|i: int, n: u64| JsonValue::Integer(n as int))),
            ),
            None => None,
        },
    );
    let m3 = with_optional(m2, "mixin"@, optional_integer(options.mixin));
    let m4 = with_optional(m3, "ring_size"@, optional_integer(options.ring_size));
    let m5 = with_optional(m4, "unlock_time"@, optional_integer(options.unlock_time));
    let m6 = with_optional(
        m5,
        "payment_id"@,
        match options.payment_id {
            Some(bytes) => Some(JsonValue::Text(hex_text(bytes))),
            None => None,
        },
    );
    with_optional(
        m6,
        "do_not_relay"@,
        match options.do_not_relay {
            Some(b) => Some(JsonValue::Bool(b)),
            None => None,
        },
    )
}

/// The options of a `transfer` without any value.
pub open spec fn no_options() -> TransferOptions {
    TransferOptions {
        account_index: None,
        subaddr_indices: None,
        mixin: None,
        ring_size: None,
        unlock_time: None,
        payment_id: None,
        do_not_relay: None,
    }
}

/// With destinations and priority alone, the parameters of `transfer` hold
/// exactly the two members `destinations` and `priority`.
pub proof fn lemma_transfer_required_only(
    destinations: Seq<(Seq<char>, u128)>,
    priority: TransferPriority,
)
    ensures
        transfer_params(destinations, priority, no_options()).dom() =~= set![
            "destinations"@,
            "priority"@,
        ],
        !transfer_params(destinations, priority, no_options()).contains_key("account_index"@),
        !transfer_params(destinations, priority, no_options()).contains_key("subaddr_indices"@),
        !transfer_params(destinations, priority, no_options()).contains_key("mixin"@),
        !transfer_params(destinations, priority, no_options()).contains_key("ring_size"@),
        !transfer_params(destinations, priority, no_options()).contains_key("unlock_time"@),
        !transfer_params(destinations, priority, no_options()).contains_key("payment_id"@),
        !transfer_params(destinations, priority, no_options()).contains_key("do_not_relay"@),
{
    reveal_strlit("destinations");
    reveal_strlit("priority");
    reveal_strlit("account_index");
    reveal_strlit("subaddr_indices");
    reveal_strlit("mixin");
    reveal_strlit("ring_size");
    reveal_strlit("unlock_time");
    reveal_strlit("payment_id");
    reveal_strlit("do_not_relay");
    assert("payment_id"@.len() != "priority"@.len());
    assert("ring_size"@[0] != "destinations"@[0]);
    assert("ring_size"@[0] != "priority"@[0]);
    assert("unlock_time"@[0] != "destinations"@[0]);
    assert("payment_id"@[0] != "destinations"@[0]);
    assert("do_not_relay"@[1] != "destinations"@[1]);
}

impl WalletClient {
    /// The address of the endpoint.
    pub closed spec fn endpoint(&self) -> Seq<char> {
        self.inner.endpoint()
    }

    /// A wallet client that speaks through `inner`.
    pub(crate) fn over(inner: RpcClient) -> (client: WalletClient)
        ensures
            client.endpoint() == inner.endpoint(),
    {
        WalletClient { inner }
    }

    /// The general client underneath.
    pub fn transport(&self) -> (inner: &RpcClient)
        ensures
            inner.endpoint() == self.endpoint(),
    {
        &self.inner
    }

    /// The positional parameters for an account and an optional list of
    /// subaddress indices.
    fn account_request(method: &'static str, account: u64, addresses: Option<Vec<u64>>) -> (request:
        Request)
        ensures
            request@ == (RequestView {
                method: method@,
                params: ParamsValue::List(account_params(account, optional_list(addresses))),
            }),
            request.writable(),
    {
        let mut args: Vec<Json> = Vec::new();
        args.push(Json::Unsigned(account));
        if let Some(list) = addresses {
            args.push(Json::unsigned_array(&list));
            assert(items_view(args@) =~= account_params(account, Some(list@)));
        } else {
            assert(items_view(args@) =~= account_params(account, None));
        }
        Request { method, params: Params::List(args) }
    }

    /// The call `get_balance` for an account: the account, and the list of
    /// subaddress indices only where one is given.
    pub fn get_balance(&self, account: u64, addresses: Option<Vec<u64>>) -> (request: Request)
        ensures
            request@ == (RequestView {
                method: "get_balance"@,
                params: ParamsValue::List(account_params(account, optional_list(addresses))),
            }),
            request.writable(),
    {
        Self::account_request("get_balance", account, addresses)
    }

    /// Reads the reply to `get_balance`: the balance record, without a
    /// status tag.
    pub fn get_balance_reply(reply: &Json) -> (r: Result<BalanceData, ClientError>)
        ensures
            match r {
                Ok(b) => reply_of(reply@, |v: JsonValue| balance_of(v)) == Ok::<
                    BalanceView,
                    ClientFault,
                >(b@),
                Err(e) => reply_of(reply@, |v: JsonValue| balance_of(v)) == Err::<
                    BalanceView,
                    ClientFault,
                >(e@),
            },
    {
        let result = match decode_response(reply) {
            Ok(result) => result,
            Err(e) => { return Err(e); },
        };
        match BalanceData::from_json(result) {
            Ok(b) => Ok(b),
            Err(e) => Err(ClientError::Decode(e)),
        }
    }

    /// The call `get_address` for an account, with parameters as for
    /// `get_balance`.
    pub fn get_address(&self, account: u64, addresses: Option<Vec<u64>>) -> (request: Request)
        ensures
            request@ == (RequestView {
                method: "get_address"@,
                params: ParamsValue::List(account_params(account, optional_list(addresses))),
            }),
            request.writable(),
    {
        Self::account_request("get_address", account, addresses)
    }

    /// Reads the reply to `get_address`. Nothing of the result is read: any
    /// result is a success, and the envelope alone can fail.
    pub fn get_address_reply(reply: &Json) -> (r: Result<(), ClientError>)
        ensures
            match r {
                Ok(_) => reply_of(reply@, |v: JsonValue| Ok::<(), DecodeError>(())) == Ok::<
                    (),
                    ClientFault,
                >(()),
                Err(e) => reply_of(reply@, |v: JsonValue| Ok::<(), DecodeError>(())) == Err::<
                    (),
                    ClientFault,
                >(e@),
            },
    {
        match decode_response(reply) {
            Ok(_) => Ok(()),
            Err(e) => Err(e),
        }
    }

    /// The list of the destinations' objects.
    fn encode_destinations(destinations: &Destinations) -> (j: Json)
        ensures
            j@ == destinations_json(destinations@),
            writable(j),
    {
        proof {
            use_type_invariant(destinations);
        }
        let mut items: Vec<Json> = Vec::new();
        let mut i: usize = 0;
        while i < destinations.entries.len()
            invariant
                i <= destinations.entries.len(),
                items@.len() == i,
                forall|j: int| 0 <= j < i ==> writable(#[trigger] items@[j]),
                forall|j: int|
                    0 <= j < destinations.entries@.len() ==> (
                    #[trigger] destinations.entries@[j]).1 <= u64::MAX,
                forall|j: int|
                    0 <= j < i ==> (#[trigger] items@[j])@ == destination_json(
                        (destinations.entries@[j].0@, destinations.entries@[j].1),
                    ),
            decreases destinations.entries.len() - i,
        {
            let mut builder = ObjectBuilder::new();
            builder.insert("address", Json::text(destinations.entries[i].0.as_str()));
            assert(destinations.entries@[i as int].1 <= u64::MAX);
            builder.insert("amount", Json::Unsigned(destinations.entries[i].1 as u64));
            items.push(builder.finish());
            i = i + 1;
        }
        assert(items_view(items@) =~= Seq::new(
            destinations@.len(),
            |i: int| destination_json(destinations@[i]),
        ));
        Json::Array(items)
    }

    /// The call `transfer`, with parameters by name.
    pub fn transfer(
        &self,
        destinations: &Destinations,
        account_index: Option<u64>,
        subaddr_indices: Option<Vec<u64>>,
        priority: TransferPriority,
        mixin: Option<u64>,
        ring_size: Option<u64>,
        unlock_time: Option<u64>,
        payment_id: Option<PaymentId>,
        do_not_relay: Option<bool>,
    ) -> (request: Request)
        ensures
            request@ == (RequestView {
                method: "transfer"@,
                params: ParamsValue::Named(
                    transfer_params(
                        destinations@,
                        priority,
                        TransferOptions {
                            account_index,
                            subaddr_indices: optional_list(subaddr_indices),
                            mixin,
                            ring_size,
                            unlock_time,
                            payment_id: match payment_id {
                                Some(id) => Some(id.bytes_view()),
                                None => None,
                            },
                            do_not_relay,
                        },
                    ),
                ),
            }),
            request.writable(),
    {
        let mut args = ObjectBuilder::new();
        args.insert("destinations", Self::encode_destinations(destinations));
        args.insert("priority", priority.serialize());
        if let Some(account_index) = account_index {
            args.insert("account_index", Json::Unsigned(account_index));
        }
        if let Some(subaddr_indices) = subaddr_indices {
            args.insert("subaddr_indices", Json::unsigned_array(&subaddr_indices));
        }
        if let Some(mixin) = mixin {
            args.insert("mixin", Json::Unsigned(mixin));
        }
        if let Some(ring_size) = ring_size {
            args.insert("ring_size", Json::Unsigned(ring_size));
        }
        if let Some(unlock_time) = unlock_time {
            args.insert("unlock_time", Json::Unsigned(unlock_time));
        }
        if let Some(payment_id) = payment_id {
            args.insert("payment_id", HashString(payment_id).serialize());
        }
        if let Some(do_not_relay) = do_not_relay {
            args.insert("do_not_relay", Json::Bool(do_not_relay));
        }
        Request { method: "transfer", params: Params::named(args) }
    }

    /// Reads the reply to `transfer`: the transfer report, without a status
    /// tag.
    pub fn transfer_reply(reply: &Json) -> (r: Result<TransferData, ClientError>)
        ensures
            match r {
                Ok(t) => reply_of(reply@, |v: JsonValue| transfer_of(v)) == Ok::<
                    TransferView,
                    ClientFault,
                >(t@),
                Err(e) => reply_of(reply@, |v: JsonValue| transfer_of(v)) == Err::<
                    TransferView,
                    ClientFault,
                >(e@),
            },
    {
        let result = match decode_response(reply) {
            Ok(result) => result,
            Err(e) => { return Err(e); },
        };
        match TransferData::from_json(result) {
            Ok(t) => Ok(t),
            Err(e) => Err(ClientError::Decode(e)),
        }
    }
}

} // verus!
