//! Event categories streamed by a validator, and their queue configuration.

use vstd::prelude::*;

use crate::account::AccountInfo;
use crate::error::Error;
use crate::instruction::InstructionInfo;
use crate::instruction::InstructionSelector;
use crate::keys::Pubkey;
use crate::queue_type::Binding;
use crate::queue_type::QueueProps;
use crate::queue_type::RetryProps;
use crate::suffix::Suffix;
use crate::suffix::SuffixError;

verus! {

/// Message data for an account update.
#[derive(Debug)]
pub struct AccountUpdate {
    /// The account's public key.
    pub key: Pubkey,
    /// The lamport balance of the account.
    pub lamports: u64,
    /// The program controlling this account.
    pub owner: Pubkey,
    /// True if the account's data is an executable smart contract.
    pub executable: bool,
    /// The next epoch for which this account will owe rent.
    pub rent_epoch: u64,
    /// The binary data stored on this account.
    pub data: Vec<u8>,
    /// Monotonic-increasing counter for sequencing on-chain writes.
    pub write_version: u64,
    /// The slot in which this account was updated.
    pub slot: u64,
    /// True if this update was triggered by validator startup.
    pub is_startup: bool,
}

impl AccountInfo for AccountUpdate {
    open spec fn owner_view(&self) -> Seq<u8> {
        self.owner@
    }

    open spec fn pubkey_view(&self) -> Seq<u8> {
        self.key@
    }

    open spec fn data_view(&self) -> Seq<u8> {
        self.data@
    }

    fn owner(&self) -> (r: &[u8]) {
        self.owner.as_bytes().as_slice()
    }

    fn pubkey(&self) -> (r: &[u8]) {
        self.key.as_bytes().as_slice()
    }

    fn data(&self) -> (r: &[u8]) {
        self.data.as_slice()
    }
}

/// The position of an instruction in a transaction.
#[derive(Debug, Clone, Copy, PartialEq, Eq, Structural)]
pub enum InstructionIndex {
    /// The instruction was included directly in the transaction message, at
    /// this index.
    TopLevel(usize),
    /// A nested instruction, as `(parent index, child index)`.
    Inner(u8, usize),
}

/// Message data for an instruction notification.
#[derive(Debug)]
pub struct InstructionNotify {
    /// The program this instruction was executed with.
    pub program: Pubkey,
    /// The binary instruction opcode and arguments.
    pub data: Vec<u8>,
    /// The account inputs to this instruction.
    pub accounts: Vec<Pubkey>,
    /// The slot in which the enclosing transaction was reported.
    pub slot: u64,
    /// Signature of the transaction enclosing this instruction.
    pub txn_signature: Vec<u8>,
    /// The position of this instruction in the transaction.
    pub index: InstructionIndex,
}

/// A slot's status; `Rooted` is terminal.
#[derive(Debug, Clone, Copy, PartialEq, Eq, Structural)]
pub enum SlotStatus {
    /// The slot was processed.
    Processed,
    /// The slot was rooted and can no longer change.
    Rooted,
    /// The slot was confirmed.
    Confirmed,
}

/// Message data for a slot status update.
#[derive(Debug, Clone, Copy, PartialEq, Eq, Structural)]
pub struct SlotStatusUpdate {
    /// The number of the slot that was updated.
    pub slot: u64,
    /// The parent of the slot, if known.
    pub parent: Option<u64>,
    /// The status of the slot.
    pub status: SlotStatus,
}

/// A message transmitted for a validator event.
#[derive(Debug)]
pub enum Message {
    /// An account should be updated.
    AccountUpdate(AccountUpdate),
    /// An instruction was included in a successful transaction.
    InstructionNotify(InstructionNotify),
    /// The status of a slot changed.
    SlotStatusUpdate(SlotStatusUpdate),
}

/// The mathematical value of an account update: every field as a sequence
/// or scalar.
pub ghost struct AccountUpdateView {
    /// The account's public key.
    pub key: Seq<u8>,
    /// The lamport balance of the account.
    pub lamports: u64,
    /// The program controlling this account.
    pub owner: Seq<u8>,
    /// True if the account's data is an executable smart contract.
    pub executable: bool,
    /// The next epoch for which this account will owe rent.
    pub rent_epoch: u64,
    /// The binary data stored on this account.
    pub data: Seq<u8>,
    /// Monotonic-increasing counter for sequencing on-chain writes.
    pub write_version: u64,
    /// The slot in which this account was updated.
    pub slot: u64,
    /// True if this update was triggered by validator startup.
    pub is_startup: bool,
}

impl AccountUpdateView {
    /// Keys have their exact width and the data's length is encodable.
    pub open spec fn wf(&self) -> bool {
        &&& self.key.len() == 32
        &&& self.owner.len() == 32
        &&& self.data.len() <= u64::MAX
    }
}

impl View for AccountUpdate {
    type V = AccountUpdateView;

    open spec fn view(&self) -> AccountUpdateView {
        AccountUpdateView {
            key: self.key@,
            lamports: self.lamports,
            owner: self.owner@,
            executable: self.executable,
            rent_epoch: self.rent_epoch,
            data: self.data@,
            write_version: self.write_version,
            slot: self.slot,
            is_startup: self.is_startup,
        }
    }
}

/// The mathematical value of an instruction notification.
pub ghost struct InstructionNotifyView {
    /// The program this instruction was executed with.
    pub program: Seq<u8>,
    /// The binary instruction opcode and arguments.
    pub data: Seq<u8>,
    /// The account inputs to this instruction.
    pub accounts: Seq<Seq<u8>>,
    /// The slot in which the enclosing transaction was reported.
    pub slot: u64,
    /// Signature of the transaction enclosing this instruction.
    pub txn_signature: Seq<u8>,
    /// The position of this instruction in the transaction.
    pub index: InstructionIndex,
}

impl InstructionNotifyView {
    /// Keys have their exact width and every length is encodable.
    pub open spec fn wf(&self) -> bool {
        &&& self.program.len() == 32
        &&& self.data.len() <= u64::MAX
        &&& self.accounts.len() <= u64::MAX
        &&& forall|i: int| 0 <= i < self.accounts.len() ==> (#[trigger] self.accounts[i]).len() == 32
        &&& self.txn_signature.len() <= u64::MAX
    }
}

impl View for InstructionNotify {
    type V = InstructionNotifyView;

    open spec fn view(&self) -> InstructionNotifyView {
        InstructionNotifyView {
            program: self.program@,
            data: self.data@,
            accounts: self.accounts@.map_values(|k: Pubkey| k@),
            slot: self.slot,
            txn_signature: self.txn_signature@,
            index: self.index,
        }
    }
}

/// The mathematical value of a message: one of the three event categories.
pub ghost enum MessageView {
    /// An account should be updated.
    AccountUpdate(AccountUpdateView),
    /// An instruction was included in a successful transaction.
    InstructionNotify(InstructionNotifyView),
    /// The status of a slot changed.
    SlotStatusUpdate(SlotStatusUpdate),
}

impl MessageView {
    /// The payload is well-formed for the wire.
    pub open spec fn wf(&self) -> bool {
        match self {
            MessageView::AccountUpdate(a) => a.wf(),
            MessageView::InstructionNotify(n) => n.wf(),
            MessageView::SlotStatusUpdate(_) => true,
        }
    }
}

impl View for Message {
    type V = MessageView;

    open spec fn view(&self) -> MessageView {
        match self {
            Message::AccountUpdate(a) => MessageView::AccountUpdate(a@),
            Message::InstructionNotify(n) => MessageView::InstructionNotify(n@),
            Message::SlotStatusUpdate(s) => MessageView::SlotStatusUpdate(*s),
        }
    }
}

/// Every account index points into the account table.
pub open spec fn indices_in_range(keys: Seq<Pubkey>, idxs: Seq<u8>) -> bool {
    forall|j: int| 0 <= j < idxs.len() ==> (#[trigger] idxs[j]) < keys.len()
}

/// Build the notification for one instruction of a transaction, the compute
/// core of instruction processing: decide selection, then resolve the
/// target program and every input account from the transaction's account
/// table.  Returns `Ok(None)` for an instruction that is not selected, and
/// a missing-account error when a referenced index is out of range — a
/// recoverable per-event condition.
pub fn build_instruction_notify<I: InstructionInfo>(
    sel: &InstructionSelector,
    keys: &Vec<Pubkey>,
    ins: &I,
    slot: u64,
    txn_signature: &Vec<u8>,
    index: InstructionIndex,
) -> (r: Result<Option<InstructionNotify>, Error>)
    ensures
        ({
            let pi = ins.program_index_view() as int;
            let pgm_ok = ins.program_index_view() < keys@.len();
            match r {
                Ok(opt) => pgm_ok && match opt {
                    None => !sel.selects_instruction(keys@[pi]@, ins.data_view()),
                    Some(n) => {
                        &&& sel.selects_instruction(keys@[pi]@, ins.data_view())
                        &&& indices_in_range(keys@, ins.account_indices_view())
                        &&& n.program@ == keys@[pi]@
                        &&& n.data@ == ins.data_view()
                        &&& n.accounts@.len() == ins.account_indices_view().len()
                        &&& forall|j: int|
                            0 <= j < n.accounts@.len() ==> (#[trigger] n.accounts@[j])@
                                == keys@[ins.account_indices_view()[j] as int]@
                        &&& n.slot == slot
                        &&& n.txn_signature@ == txn_signature@
                        &&& n.index == index
                    },
                },
                Err(e) => e matches Error::InstructionMissingAccount(i) && i >= keys@.len() && (
                (i == ins.program_index_view() && !pgm_ok) || (pgm_ok && sel.selects_instruction(
                    keys@[pi]@,
                    ins.data_view(),
                ) && exists|j: int|
                    0 <= j < ins.account_indices_view().len() && ins.account_indices_view()[j]
                        == i)),
            }
        }),
{
    let selected = match sel.is_selected_with_keys(keys, ins) {
        Ok(b) => b,
        Err(e) => {
            return Err(e);
        },
    };
    if !selected {
        return Ok(None);
    }

    let pi = ins.program_index();
    let program = keys[pi as usize].clone();

    let idxs = ins.account_indices();
    let n = idxs.len();
    let mut accounts: Vec<Pubkey> = Vec::new();
    let mut j: usize = 0;
    while j < n
        invariant
            n == idxs@.len(),
            idxs@ == ins.account_indices_view(),
            ins.program_index_view() < keys@.len(),
            sel.selects_instruction(keys@[ins.program_index_view() as int]@, ins.data_view()),
            j <= n,
            accounts@.len() == j,
            forall|t: int|
                0 <= t < j ==> (#[trigger] idxs@[t]) < keys@.len() && accounts@[t]@
                    == keys@[idxs@[t] as int]@,
        decreases n - j,
    {
        let ix = *vstd::slice::slice_index_get(idxs, j);
        if (ix as usize) >= keys.len() {
            proof {
                assert(ins.account_indices_view()[j as int] == ix);
            }
            return Err(Error::InstructionMissingAccount(ix));
        }
        accounts.push(keys[ix as usize].clone());
        j = j + 1;
    }

    Ok(
        Some(
            InstructionNotify {
                program,
                data: vstd::slice::slice_to_vec(ins.data()),
                accounts,
                slot,
                txn_signature: vstd::slice::slice_to_vec(txn_signature.as_slice()),
                index,
            },
        ),
    )
}

/// Network hint for declaring exchange and queue names.
#[derive(Debug, Clone, Copy, PartialEq, Eq, Structural)]
pub enum Network {
    /// The network id `"mainnet"`.
    Mainnet,
    /// The network id `"devnet"`.
    Devnet,
    /// The network id `"testnet"`.
    Testnet,
}

/// The characters of a network's id.
pub open spec fn network_id(n: Network) -> Seq<char> {
    match n {
        Network::Mainnet => "mainnet"@,
        Network::Devnet => "devnet"@,
        Network::Testnet => "testnet"@,
    }
}

impl Network {
    /// The network's id, used as the leading segment of exchange names.
    pub fn id(&self) -> (r: String)
        ensures
            r@ == network_id(*self),
    {
        match self {
            Network::Mainnet => "mainnet".to_owned(),
            Network::Devnet => "devnet".to_owned(),
            Network::Testnet => "testnet".to_owned(),
        }
    }
}

/// Startup message hint for declaring exchanges and queues.
#[derive(Debug, Clone, Copy, PartialEq, Eq, Structural)]
pub enum StartupType {
    /// Ignore startup messages.
    Normal,
    /// Ignore non-startup messages.
    Startup,
    /// Include all messages.
    All,
}

impl StartupType {
    /// The category derived from a startup filter setting.
    pub open spec fn spec_new(value: Option<bool>) -> StartupType {
        match value {
            None => StartupType::All,
            Some(false) => StartupType::Normal,
            Some(true) => StartupType::Startup,
        }
    }

    /// Construct a [`StartupType`] from the account selector's `startup`
    /// filter.
    pub fn new(value: Option<bool>) -> (r: Self)
        ensures
            r == StartupType::spec_new(value),
    {
        match value {
            None => Self::All,
            Some(false) => Self::Normal,
            Some(true) => Self::Startup,
        }
    }
}

/// The exchange-name infix marking a startup category.
pub open spec fn startup_infix(st: StartupType) -> Seq<char> {
    match st {
        StartupType::Normal => ""@,
        StartupType::Startup => ".startup"@,
        StartupType::All => ".startup-all"@,
    }
}

/// Queue configuration for the validator event stream.
#[derive(Debug, Clone)]
pub struct QueueType {
    /// The broker objects and delivery policy to declare.
    pub props: QueueProps,
}

impl QueueType {
    /// The broker objects and delivery policy this configuration declares.
    pub fn info(&self) -> (r: &QueueProps)
        ensures
            *r == self.props,
    {
        &self.props
    }

    /// The exchange name for this network and startup category.
    pub open spec fn spec_exchange(network: Network, startup_type: StartupType) -> Seq<char> {
        network_id(network) + startup_infix(startup_type) + ".accounts"@
    }

    /// The retained-bytes cap: smaller for debug or staging queues and for
    /// the reduced-traffic non-startup category, larger for full-history
    /// production categories.
    pub open spec fn spec_max_len_bytes(is_debug: bool, startup_type: StartupType) -> u64 {
        if is_debug {
            104857600
        } else if startup_type == StartupType::Normal {
            4294967296
        } else {
            53687091200
        }
    }

    /// Construct a queue configuration for the given network and startup
    /// category, with the queue name suffixed per environment.  Fails only
    /// when the suffix rejects the name.
    pub fn new(network: Network, startup_type: StartupType, suffix: &Suffix, debug_build: bool)
        -> (r: Result<Self, SuffixError>)
        ensures
            (r is Ok) == !(suffix is Production && debug_build),
            match r {
                Ok(qt) => {
                    &&& qt.props.exchange@ == Self::spec_exchange(network, startup_type)
                    &&& qt.props.queue@ == suffix.spec_format(
                        Self::spec_exchange(network, startup_type) + ".indexer"@,
                    )
                    &&& qt.props.binding == Binding::Fanout
                    &&& qt.props.prefetch == 4096u16
                    &&& qt.props.max_len_bytes == Self::spec_max_len_bytes(
                        suffix.spec_is_debug(),
                        startup_type,
                    )
                    &&& qt.props.auto_delete == suffix.spec_is_debug()
                    &&& qt.props.retry matches Some(retry) && retry == (RetryProps {
                        max_tries: 3u64,
                        delay_hint_ms: 500u64,
                        max_delay_ms: 600000u64,
                    })
                },
                Err(e) => e == SuffixError::InvalidQueueType,
            },
    {
        let mut exchange = network.id();
        match startup_type {
            StartupType::Normal => (),
            StartupType::Startup => exchange.append(".startup"),
            StartupType::All => exchange.append(".startup-all"),
        }
        exchange.append(".accounts");

        let mut queue_base = exchange.clone();
        queue_base.append(".indexer");
        proof {
            reveal_strlit("");
            assert(exchange@ =~= Self::spec_exchange(network, startup_type));
            assert(queue_base@ =~= Self::spec_exchange(network, startup_type) + ".indexer"@);
        }
        let queue = match suffix.format(queue_base, debug_build) {
            Ok(q) => q,
            Err(e) => {
                return Err(e);
            },
        };

        let is_debug = suffix.is_debug();
        let max_len_bytes: u64 = if is_debug {
            104857600
        } else {
            match startup_type {
                StartupType::Normal => 4294967296,
                _ => 53687091200,
            }
        };

        Ok(QueueType {
            props: QueueProps {
                exchange,
                queue,
                binding: Binding::Fanout,
                prefetch: 4096,
                max_len_bytes,
                auto_delete: is_debug,
                retry: Some(RetryProps { max_tries: 3, delay_hint_ms: 500, max_delay_ms: 600000 }),
            },
        })
    }
}

} // verus!
