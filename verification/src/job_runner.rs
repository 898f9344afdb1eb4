//! Queue configuration for dispatching background jobs.

use vstd::prelude::*;
use vstd::string::StringExecFns;

use vstd::utf8::decode_utf8;
use vstd::utf8::encode_utf8;
use vstd::utf8::encode_utf8_decode_utf8;
use vstd::utf8::encode_utf8_valid_utf8;
use vstd::utf8::valid_utf8;

use crate::codec::enc_bytes;
use crate::codec::enc_field;
use crate::codec::enc_name;
use crate::codec::enc_u64;
use crate::codec::lemma_rd_byte;
use crate::codec::lemma_rd_bytes;
use crate::codec::lemma_rd_name;
use crate::codec::lemma_rd_u64;
use crate::codec::push_data;
use crate::codec::push_name;
use crate::codec::push_u64;
use crate::codec::rd_byte;
use crate::codec::rd_bytes;
use crate::codec::rd_name;
use crate::codec::rd_u64;
use crate::codec::read_byte;
use crate::codec::read_data;
use crate::codec::read_name;
use crate::codec::read_u64;
use crate::geyser::StartupType;
use crate::queue_type::Binding;
use crate::queue_type::QueueProps;
use crate::queue_type::RetryProps;
use crate::suffix::Suffix;
use crate::suffix::SuffixError;

verus! {

/// Message data for a slot reindex request.
#[derive(Debug, Clone, Copy, PartialEq, Eq, Structural)]
pub struct SlotReindex {
    /// The slot to refresh.
    pub slot: u64,
    /// The startup category of the queue to target.
    pub startup: StartupType,
}

/// Message data for a job dispatch request.
#[derive(Debug, Clone)]
pub enum Message {
    /// Refresh a table of cached data.
    RefreshTable(String),
    /// Reindex a given slot.
    ReindexSlot(SlotReindex),
}

/// The mathematical value of a job message.
pub ghost enum MessageView {
    /// Refresh a table of cached data, by name.
    RefreshTable(Seq<char>),
    /// Reindex a given slot.
    ReindexSlot(SlotReindex),
}

impl MessageView {
    /// The payload is well-formed for the wire.
    pub open spec fn wf(&self) -> bool {
        match self {
            MessageView::RefreshTable(s) => encode_utf8(*s).len() <= u64::MAX,
            MessageView::ReindexSlot(_) => true,
        }
    }
}

impl View for Message {
    type V = MessageView;

    open spec fn view(&self) -> MessageView {
        match self {
            Message::RefreshTable(s) => MessageView::RefreshTable(s@),
            Message::ReindexSlot(r) => MessageView::ReindexSlot(*r),
        }
    }
}

/// A startup category, one byte.
pub open spec fn enc_startup(st: StartupType) -> Seq<u8> {
    seq![
        match st {
            StartupType::Normal => 0u8,
            StartupType::Startup => 1u8,
            StartupType::All => 2u8,
        },
    ]
}

/// A string: its UTF-8 bytes, length-prefixed.
pub open spec fn enc_string(s: Seq<char>) -> Seq<u8> {
    enc_bytes(encode_utf8(s))
}

/// The wire envelope of a job message: a kind byte, then the record.
pub open spec fn spec_encode_job_message(m: MessageView) -> Seq<u8> {
    match m {
        MessageView::RefreshTable(s) => seq![0u8] + enc_field("table"@, enc_string(s)),
        MessageView::ReindexSlot(r) => seq![1u8] + enc_field("slot"@, enc_u64(r.slot)) + enc_field(
            "startup"@,
            enc_startup(r.startup),
        ),
    }
}

/// Read a startup category byte.
pub open spec fn rd_startup(b: Seq<u8>) -> Option<(StartupType, Seq<u8>)> {
    match rd_byte(b) {
        Some((t, rest)) => if t == 0 {
            Some((StartupType::Normal, rest))
        } else if t == 1 {
            Some((StartupType::Startup, rest))
        } else if t == 2 {
            Some((StartupType::All, rest))
        } else {
            None
        },
        None => None,
    }
}

/// Read a length-prefixed string; bytes that are not valid UTF-8 are not an
/// encoding.
pub open spec fn rd_string(b: Seq<u8>) -> Option<(Seq<char>, Seq<u8>)> {
    match rd_bytes(b) {
        Some((data, rest)) => if valid_utf8(data) {
            Some((decode_utf8(data), rest))
        } else {
            None
        },
        None => None,
    }
}

/// Decode a whole job message; trailing bytes are not an encoding.
pub open spec fn spec_decode_job_message(b: Seq<u8>) -> Option<MessageView> {
    match rd_byte(b) {
        Some((tag, rest)) => if tag == 0 {
            match rd_name(rest, "table"@) {
                Some(rest2) => match rd_string(rest2) {
                    Some((s, rest3)) => if rest3.len() == 0 {
                        Some(MessageView::RefreshTable(s))
                    } else {
                        None
                    },
                    None => None,
                },
                None => None,
            }
        } else if tag == 1 {
            match rd_name(rest, "slot"@) {
                Some(rest2) => match rd_u64(rest2) {
                    Some((slot, rest3)) => match rd_name(rest3, "startup"@) {
                        Some(rest4) => match rd_startup(rest4) {
                            Some((startup, rest5)) => if rest5.len() == 0 {
                                Some(MessageView::ReindexSlot(SlotReindex { slot, startup }))
                            } else {
                                None
                            },
                            None => None,
                        },
                        None => None,
                    },
                    None => None,
                },
                None => None,
            }
        } else {
            None
        },
        None => None,
    }
}

/// An encoded startup category reads back.
pub proof fn lemma_rd_startup(st: StartupType, tail: Seq<u8>)
    ensures
        rd_startup(enc_startup(st) + tail) == Some((st, tail)),
{
    match st {
        StartupType::Normal => lemma_rd_byte(0u8, tail),
        StartupType::Startup => lemma_rd_byte(1u8, tail),
        StartupType::All => lemma_rd_byte(2u8, tail),
    }
}

/// An encoded string reads back.
pub proof fn lemma_rd_string(s: Seq<char>, tail: Seq<u8>)
    requires
        encode_utf8(s).len() <= u64::MAX,
    ensures
        rd_string(enc_string(s) + tail) == Some((s, tail)),
{
    lemma_rd_bytes(encode_utf8(s), tail);
    encode_utf8_valid_utf8(s);
    encode_utf8_decode_utf8(s);
}

/// Round trip: decoding an encoded job message returns a value equal to the
/// original, for both job categories.
pub proof fn lemma_job_message_round_trip(m: MessageView)
    requires
        m.wf(),
    ensures
        spec_decode_job_message(spec_encode_job_message(m)) == Some(m),
{
    let empty = Seq::<u8>::empty();
    reveal_job_field_names();
    match m {
        MessageView::RefreshTable(s) => {
            assert(spec_encode_job_message(m) =~= seq![0u8] + (enc_name("table"@) + (enc_string(s)
                + empty)));
            lemma_rd_byte(0u8, enc_name("table"@) + (enc_string(s) + empty));
            lemma_rd_name("table"@, enc_string(s) + empty);
            lemma_rd_string(s, empty);
        },
        MessageView::ReindexSlot(r) => {
            let r2 = enc_field("startup"@, enc_startup(r.startup)) + empty;
            assert(spec_encode_job_message(m) =~= seq![1u8] + (enc_name("slot"@) + (enc_u64(r.slot)
                + r2)));
            lemma_rd_byte(1u8, enc_name("slot"@) + (enc_u64(r.slot) + r2));
            lemma_rd_name("slot"@, enc_u64(r.slot) + r2);
            lemma_rd_u64(r.slot, r2);
            assert(r2 =~= enc_name("startup"@) + (enc_startup(r.startup) + empty));
            lemma_rd_name("startup"@, enc_startup(r.startup) + empty);
            lemma_rd_startup(r.startup, empty);
        },
    }
}

/// Reveal the job-record field names with their ASCII property.
proof fn reveal_job_field_names()
    ensures
        "table"@.len() < 256 && "table".is_ascii(),
        "slot"@.len() < 256 && "slot".is_ascii(),
        "startup"@.len() < 256 && "startup".is_ascii(),
{
    reveal_strlit("table");
    reveal_strlit("slot");
    reveal_strlit("startup");
}

/// Relies on `String::from_utf8`: returns the string whose UTF-8 encoding
/// is exactly the given bytes, or an error when the bytes are not valid
/// UTF-8.
#[verifier::external_body]
fn utf8_to_string(b: &[u8]) -> (r: Option<String>)
    ensures
        match r {
            Some(s) => valid_utf8(b@) && encode_utf8(s@) == b@,
            None => !valid_utf8(b@),
        },
{
    String::from_utf8(b.to_vec()).ok()
}

/// Serialize a job message into its wire envelope.
pub fn encode_job_message(m: &Message) -> (out: Vec<u8>)
    ensures
        out@ == spec_encode_job_message(m@),
{
    proof {
        reveal_job_field_names();
    }
    let mut out: Vec<u8> = Vec::new();
    match m {
        Message::RefreshTable(s) => {
            out.push(0);
            push_name(&mut out, "table");
            push_data(&mut out, s.as_str().as_bytes());
        },
        Message::ReindexSlot(r) => {
            out.push(1);
            push_name(&mut out, "slot");
            push_u64(&mut out, r.slot);
            push_name(&mut out, "startup");
            match r.startup {
                StartupType::Normal => out.push(0),
                StartupType::Startup => out.push(1),
                StartupType::All => out.push(2),
            }
        },
    }
    proof {
        assert(out@ =~= spec_encode_job_message(m@));
    }
    out
}

/// Deserialize a job message from its wire envelope; trailing bytes are
/// rejected.
pub fn decode_job_message(b: &[u8]) -> (r: Option<Message>)
    ensures
        match r {
            Some(m) => spec_decode_job_message(b@) == Some(m@),
            None => spec_decode_job_message(b@) is None,
        },
{
    proof {
        reveal_job_field_names();
    }
    let (tag, rest) = match read_byte(b) {
        Some(x) => x,
        None => {
            return None;
        },
    };
    if tag == 0 {
        let rest = match read_name(rest, "table") {
            Some(x) => x,
            None => {
                return None;
            },
        };
        let (data, rest) = match read_data(rest) {
            Some(x) => x,
            None => {
                return None;
            },
        };
        let s = match utf8_to_string(data) {
            Some(s) => s,
            None => {
                return None;
            },
        };
        proof {
            encode_utf8_decode_utf8(s@);
        }
        if rest.len() == 0 {
            Some(Message::RefreshTable(s))
        } else {
            None
        }
    } else if tag == 1 {
        let rest = match read_name(rest, "slot") {
            Some(x) => x,
            None => {
                return None;
            },
        };
        let (slot, rest) = match read_u64(rest) {
            Some(x) => x,
            None => {
                return None;
            },
        };
        let rest = match read_name(rest, "startup") {
            Some(x) => x,
            None => {
                return None;
            },
        };
        let (st, rest) = match read_byte(rest) {
            Some(x) => x,
            None => {
                return None;
            },
        };
        let startup = if st == 0 {
            StartupType::Normal
        } else if st == 1 {
            StartupType::Startup
        } else if st == 2 {
            StartupType::All
        } else {
            return None;
        };
        if rest.len() == 0 {
            Some(Message::ReindexSlot(SlotReindex { slot, startup }))
        } else {
            None
        }
    } else {
        None
    }
}

/// Queue configuration for job runners.
#[derive(Debug, Clone)]
pub struct QueueType {
    /// The broker objects and delivery policy to declare.
    pub props: QueueProps,
}

impl QueueType {
    /// The broker objects and delivery policy this configuration declares.
    pub fn info(&self) -> (r: &QueueProps)
        ensures
            *r == self.props,
    {
        &self.props
    }

    /// The exchange name for a sender's job queue.
    pub open spec fn spec_exchange(sender: Seq<char>) -> Seq<char> {
        sender + ".jobs"@
    }

    /// Construct a queue configuration for the given sender, with the queue
    /// name suffixed per environment.  Fails only when the suffix rejects
    /// the name.
    pub fn new(sender: &str, suffix: &Suffix, debug_build: bool) -> (r: Result<
        Self,
        SuffixError,
    >)
        ensures
            (r is Ok) == !(suffix is Production && debug_build),
            match r {
                Ok(qt) => {
                    &&& qt.props.exchange@ == Self::spec_exchange(sender@)
                    &&& qt.props.queue@ == suffix.spec_format(
                        Self::spec_exchange(sender@) + ".runner"@,
                    )
                    &&& qt.props.binding == Binding::Fanout
                    &&& qt.props.prefetch == 1u16
                    &&& qt.props.max_len_bytes == 104857600u64
                    &&& qt.props.auto_delete == suffix.spec_is_debug()
                    &&& qt.props.retry matches Some(retry) && retry == (RetryProps {
                        max_tries: 5u64,
                        delay_hint_ms: 5000u64,
                        max_delay_ms: 600000u64,
                    })
                },
                Err(e) => e == SuffixError::InvalidQueueType,
            },
    {
        let mut exchange = sender.to_owned();
        exchange.append(".jobs");

        let mut queue_base = exchange.clone();
        queue_base.append(".runner");
        proof {
            assert(exchange@ =~= Self::spec_exchange(sender@));
            assert(queue_base@ =~= Self::spec_exchange(sender@) + ".runner"@);
        }
        let queue = match suffix.format(queue_base, debug_build) {
            Ok(q) => q,
            Err(e) => {
                return Err(e);
            },
        };

        let is_debug = suffix.is_debug();
        Ok(QueueType {
            props: QueueProps {
                exchange,
                queue,
                binding: Binding::Fanout,
                prefetch: 1,
                max_len_bytes: 104857600,
                auto_delete: is_debug,
                retry: Some(RetryProps { max_tries: 5, delay_hint_ms: 5000, max_delay_ms: 600000 }),
            },
        })
    }
}

} // verus!
