//! The wire form of a message.
//!
//! A message is one tag byte and the fields of its payload in order.
//! Integers are eight bytes, the low byte first; a byte string is its length
//! as such an integer and then its bytes; text is the byte string of its
//! UTF-8 encoding. Nothing may follow the last field.

use crate::network::message::{Message, MessageView};
use crate::types::{NodeId, NodeInfo, NodeInfoView, NodeType, ResourceContribution};
use vstd::bytes::*;
use vstd::prelude::*;
use vstd::slice::*;
use vstd::string::*;
use vstd::utf8::*;

verus! {

/// The length of a contribution on the wire.
pub const CONTRIBUTION_LEN: usize = 25;

/// The wire form of a byte string.
pub open spec fn encode_blob(blob: Seq<u8>) -> Seq<u8> {
    spec_u64_to_le_bytes(blob.len() as u64) + blob
}

/// The wire form of a contribution.
pub open spec fn encode_contribution(resources: ResourceContribution) -> Seq<u8> {
    seq![resources.cpu_cores] + spec_u64_to_le_bytes(resources.memory_mb) + spec_u64_to_le_bytes(
        resources.storage_mb,
    ) + spec_u64_to_le_bytes(resources.bandwidth_kbps)
}

/// The byte that stands for a node type.
pub open spec fn node_type_tag(node_type: NodeType) -> u8 {
    match node_type {
        NodeType::ResourceProvider => 0,
        NodeType::Coordinator => 1,
        NodeType::Bridge => 2,
    }
}

/// The node type that a byte stands for, if it stands for one.
pub open spec fn tagged_node_type(tag: u8) -> Option<NodeType> {
    if tag == 0 {
        Some(NodeType::ResourceProvider)
    } else if tag == 1 {
        Some(NodeType::Coordinator)
    } else if tag == 2 {
        Some(NodeType::Bridge)
    } else {
        None
    }
}

/// The wire form of what a node advertises.
pub open spec fn encode_info(info: NodeInfoView) -> Seq<u8> {
    encode_blob(info.id) + seq![node_type_tag(info.node_type)] + encode_contribution(
        info.resources,
    ) + encode_blob(encode_utf8(info.address))
}

/// The wire form of a message.
pub open spec fn encode_message(message: MessageView) -> Seq<u8> {
    match message {
        MessageView::Ping => seq![0u8],
        MessageView::Pong => seq![1u8],
        MessageView::Discovery { node_info } => seq![2u8] + encode_info(node_info),
        MessageView::ResourceUpdate { resources } => seq![3u8] + encode_contribution(resources),
    }
}

/// Whether a message has a wire form that can be read back: its byte
/// strings have lengths that fit the length field. Every message that a
/// program holds has.
pub open spec fn encodable(message: MessageView) -> bool {
    match message {
        MessageView::Discovery { node_info } => node_info.id.len() <= u64::MAX && encode_utf8(
            node_info.address,
        ).len() <= u64::MAX,
        _ => true,
    }
}

/// The integer that stands at position `at`.
pub open spec fn u64_at(bytes: Seq<u8>, at: int) -> u64 {
    spec_u64_from_le_bytes(bytes.subrange(at, at + 8))
}

/// The byte string that stands at position `at`, and the position after
/// it, if one stands there whole.
pub open spec fn blob_at(bytes: Seq<u8>, at: int) -> Option<(Seq<u8>, int)> {
    if 0 <= at && at + 8 <= bytes.len() && at + 8 + u64_at(bytes, at) <= bytes.len() {
        Some((bytes.subrange(at + 8, at + 8 + u64_at(bytes, at)), at + 8 + u64_at(bytes, at)))
    } else {
        None
    }
}

/// The contribution that stands at position `at`.
pub open spec fn contribution_at(bytes: Seq<u8>, at: int) -> ResourceContribution {
    ResourceContribution {
        cpu_cores: bytes[at],
        memory_mb: u64_at(bytes, at + 1),
        storage_mb: u64_at(bytes, at + 9),
        bandwidth_kbps: u64_at(bytes, at + 17),
    }
}

/// What a node advertises, read from position `at` to the end of the bytes.
pub open spec fn info_at(bytes: Seq<u8>, at: int) -> Option<NodeInfoView> {
    match blob_at(bytes, at) {
        None => None,
        Some((id, after_id)) => if after_id + 1 + CONTRIBUTION_LEN > bytes.len() {
            None
        } else {
            match tagged_node_type(bytes[after_id]) {
                None => None,
                Some(node_type) => match blob_at(bytes, after_id + 1 + CONTRIBUTION_LEN) {
                    None => None,
                    Some((address, end)) => if end == bytes.len() && valid_utf8(address) {
                        Some(
                            NodeInfoView {
                                id,
                                node_type,
                                resources: contribution_at(bytes, after_id + 1),
                                address: decode_utf8(address),
                            },
                        )
                    } else {
                        None
                    },
                },
            }
        },
    }
}

/// The message that bytes are the wire form of, if they are that of one.
pub open spec fn decode_message(bytes: Seq<u8>) -> Option<MessageView> {
    if bytes.len() == 0 {
        None
    } else if bytes[0] == 0 {
        if bytes.len() == 1 {
            Some(MessageView::Ping)
        } else {
            None
        }
    } else if bytes[0] == 1 {
        if bytes.len() == 1 {
            Some(MessageView::Pong)
        } else {
            None
        }
    } else if bytes[0] == 2 {
        match info_at(bytes, 1) {
            Some(node_info) => Some(MessageView::Discovery { node_info }),
            None => None,
        }
    } else if bytes[0] == 3 {
        if bytes.len() == 1 + CONTRIBUTION_LEN {
            Some(MessageView::ResourceUpdate { resources: contribution_at(bytes, 1) })
        } else {
            None
        }
    } else {
        None
    }
}

/// An integer written at position `at` is read back from there.
pub proof fn u64_read_back(before: Seq<u8>, value: u64, after: Seq<u8>)
    ensures
        u64_at(before + spec_u64_to_le_bytes(value) + after, before.len() as int) == value,
{
    lemma_auto_spec_u64_to_from_le_bytes();
    let bytes = before + spec_u64_to_le_bytes(value) + after;
    assert(bytes.subrange(before.len() as int, before.len() as int + 8) =~= spec_u64_to_le_bytes(
        value,
    ));
}

/// A byte string written at position `at` is read back from there.
pub proof fn blob_read_back(before: Seq<u8>, blob: Seq<u8>, after: Seq<u8>)
    requires
        blob.len() <= u64::MAX,
    ensures
        blob_at(before + encode_blob(blob) + after, before.len() as int) == Some(
            (blob, before.len() as int + 8 + blob.len() as int),
        ),
{
    lemma_auto_spec_u64_to_from_le_bytes();
    let bytes = before + encode_blob(blob) + after;
    let at = before.len() as int;
    assert(bytes =~= before + spec_u64_to_le_bytes(blob.len() as u64) + (blob + after));
    u64_read_back(before, blob.len() as u64, blob + after);
    assert(bytes.subrange(at + 8, at + 8 + blob.len()) =~= blob);
}

/// A contribution written at position `at` is read back from there.
pub proof fn contribution_read_back(
    before: Seq<u8>,
    resources: ResourceContribution,
    after: Seq<u8>,
)
    ensures
        encode_contribution(resources).len() == CONTRIBUTION_LEN,
        contribution_at(before + encode_contribution(resources) + after, before.len() as int)
            == resources,
{
    lemma_auto_spec_u64_to_from_le_bytes();
    let bytes = before + encode_contribution(resources) + after;
    let memory = spec_u64_to_le_bytes(resources.memory_mb);
    let storage = spec_u64_to_le_bytes(resources.storage_mb);
    let bandwidth = spec_u64_to_le_bytes(resources.bandwidth_kbps);
    let head = before + seq![resources.cpu_cores];
    assert(bytes =~= head + memory + (storage + bandwidth + after));
    u64_read_back(head, resources.memory_mb, storage + bandwidth + after);
    assert(bytes =~= (head + memory) + storage + (bandwidth + after));
    u64_read_back(head + memory, resources.storage_mb, bandwidth + after);
    assert(bytes =~= (head + memory + storage) + bandwidth + after);
    u64_read_back(head + memory + storage, resources.bandwidth_kbps, after);
    assert(bytes[before.len() as int] == resources.cpu_cores);
}

/// Decoding the wire form of a message gives the message back.
pub proof fn wire_round_trip(message: MessageView)
    requires
        encodable(message),
    ensures
        decode_message(encode_message(message)) == Some(message),
{
    let bytes = encode_message(message);
    match message {
        MessageView::Ping => {},
        MessageView::Pong => {},
        MessageView::ResourceUpdate { resources } => {
            contribution_read_back(seq![3u8], resources, Seq::empty());
            assert(bytes =~= seq![3u8] + encode_contribution(resources) + Seq::<u8>::empty());
        },
        MessageView::Discovery { node_info } => {
            let id = encode_blob(node_info.id);
            let tag = seq![node_type_tag(node_info.node_type)];
            let resources = encode_contribution(node_info.resources);
            let text = encode_utf8(node_info.address);
            let address = encode_blob(text);
            lemma_auto_spec_u64_to_from_le_bytes();
            assert(bytes =~= seq![2u8] + id + (tag + resources + address));
            blob_read_back(seq![2u8], node_info.id, tag + resources + address);
            let after_id: int = 9 + node_info.id.len() as int;
            contribution_read_back(seq![2u8] + id + tag, node_info.resources, address);
            assert(bytes =~= (seq![2u8] + id + tag) + resources + address);
            assert(bytes[after_id] == node_type_tag(node_info.node_type));
            assert(bytes =~= (seq![2u8] + id + tag + resources) + address + Seq::<u8>::empty());
            blob_read_back(seq![2u8] + id + tag + resources, text, Seq::empty());
            encode_utf8_valid_utf8(node_info.address);
            encode_utf8_decode_utf8(node_info.address);
            assert(info_at(bytes, 1) == Some(node_info));
        },
    }
}

/// `String::from_utf8`: the text that the bytes encode in UTF-8, or nothing
/// where they are not valid UTF-8.
#[verifier::external_body]
fn text_from_utf8(bytes: Vec<u8>) -> (text: Option<String>)
    ensures
        match text {
            Some(text) => valid_utf8(bytes@) && text@ == decode_utf8(bytes@),
            None => !valid_utf8(bytes@),
        },
{
    String::from_utf8(bytes).ok()
}

/// Appends `bytes` to `out`.
fn put_bytes(out: &mut Vec<u8>, bytes: &[u8])
    ensures
        final(out)@ == old(out)@ + bytes@,
{
    let mut i: usize = 0;
    while i < bytes.len()
        invariant
            i <= bytes@.len(),
            out@ == old(out)@ + bytes@.take(i as int),
        decreases bytes@.len() - i,
    {
        out.push(bytes[i]);
        assert(bytes@.take(i as int + 1) =~= bytes@.take(i as int).push(bytes@[i as int]));
        assert(out@ =~= old(out)@ + bytes@.take(i as int + 1));
        i = i + 1;
    }
    assert(bytes@.take(bytes@.len() as int) =~= bytes@);
}

/// Appends the wire form of an integer to `out`.
fn put_u64(out: &mut Vec<u8>, value: u64)
    ensures
        final(out)@ == old(out)@ + spec_u64_to_le_bytes(value),
{
    let bytes = u64_to_le_bytes(value);
    put_bytes(out, bytes.as_slice());
}

/// Appends the wire form of a byte string to `out`.
fn put_blob(out: &mut Vec<u8>, blob: &[u8])
    ensures
        final(out)@ == old(out)@ + encode_blob(blob@),
        blob@.len() <= u64::MAX,
{
    put_u64(out, blob.len() as u64);
    put_bytes(out, blob);
    assert(out@ =~= old(out)@ + encode_blob(blob@));
}

/// Appends the wire form of a contribution to `out`.
fn put_contribution(out: &mut Vec<u8>, resources: &ResourceContribution)
    ensures
        final(out)@ == old(out)@ + encode_contribution(*resources),
{
    out.push(resources.cpu_cores);
    put_u64(out, resources.memory_mb);
    put_u64(out, resources.storage_mb);
    put_u64(out, resources.bandwidth_kbps);
    assert(out@ =~= old(out)@ + encode_contribution(*resources));
}

/// The byte that stands for a node type.
fn tag_of(node_type: NodeType) -> (tag: u8)
    ensures
        tag == node_type_tag(node_type),
{
    match node_type {
        NodeType::ResourceProvider => 0,
        NodeType::Coordinator => 1,
        NodeType::Bridge => 2,
    }
}

/// The integer that stands at position `at`.
fn read_u64(bytes: &[u8], at: usize) -> (value: u64)
    requires
        at + 8 <= bytes@.len(),
    ensures
        value == u64_at(bytes@, at as int),
{
    let total = bytes.len();
    assert(at + 8 <= total);
    u64_from_le_bytes(slice_subrange(bytes, at, at + 8))
}

/// The byte string that stands at position `at`, and the position after it.
fn read_blob(bytes: &[u8], at: usize) -> (read: Option<(Vec<u8>, usize)>)
    requires
        at <= bytes@.len(),
    ensures
        match read {
            Some((blob, next)) => blob_at(bytes@, at as int) == Some((blob@, next as int)) && next
                <= bytes@.len(),
            None => blob_at(bytes@, at as int) is None,
        },
{
    if bytes.len() - at < 8 {
        return None;
    }
    let length = read_u64(bytes, at);
    let rest: usize = bytes.len() - at - 8;
    if length > rest as u64 {
        return None;
    }
    let next: usize = at + 8 + length as usize;
    let blob = slice_to_vec(slice_subrange(bytes, at + 8, next));
    Some((blob, next))
}

/// The contribution that stands at position `at`.
fn read_contribution(bytes: &[u8], at: usize) -> (resources: ResourceContribution)
    requires
        at + CONTRIBUTION_LEN <= bytes@.len(),
    ensures
        resources == contribution_at(bytes@, at as int),
{
    ResourceContribution {
        cpu_cores: bytes[at],
        memory_mb: read_u64(bytes, at + 1),
        storage_mb: read_u64(bytes, at + 9),
        bandwidth_kbps: read_u64(bytes, at + 17),
    }
}

/// What a node advertises, read from position `at` to the end of the bytes.
fn read_info(bytes: &[u8], at: usize) -> (read: Option<NodeInfo>)
    requires
        at <= bytes@.len(),
    ensures
        match read {
            Some(info) => info_at(bytes@, at as int) == Some(info@),
            None => info_at(bytes@, at as int) is None,
        },
{
    let (id, after_id) = match read_blob(bytes, at) {
        Some(read) => read,
        None => {
            return None;
        },
    };
    if bytes.len() - after_id < 1 + CONTRIBUTION_LEN {
        return None;
    }
    let tag = bytes[after_id];
    let node_type = if tag == 0 {
        NodeType::ResourceProvider
    } else if tag == 1 {
        NodeType::Coordinator
    } else if tag == 2 {
        NodeType::Bridge
    } else {
        return None;
    };
    let resources = read_contribution(bytes, after_id + 1);
    let (address, end) = match read_blob(bytes, after_id + 1 + CONTRIBUTION_LEN) {
        Some(read) => read,
        None => {
            return None;
        },
    };
    if end != bytes.len() {
        return None;
    }
    match text_from_utf8(address) {
        Some(address) => Some(NodeInfo { id: NodeId(id), node_type, resources, address }),
        None => None,
    }
}

impl Message {
    /// The wire form of the message.
    pub fn encode(&self) -> (bytes: Vec<u8>)
        ensures
            bytes@ == encode_message(self@),
            encodable(self@),
    {
        let mut bytes: Vec<u8> = Vec::new();
        match self {
            Message::Ping => {
                bytes.push(0);
                assert(bytes@ =~= seq![0u8]);
            },
            Message::Pong => {
                bytes.push(1);
                assert(bytes@ =~= seq![1u8]);
            },
            Message::Discovery { node_info } => {
                bytes.push(2);
                put_blob(&mut bytes, node_info.id.0.as_slice());
                bytes.push(tag_of(node_info.node_type));
                put_contribution(&mut bytes, &node_info.resources);
                put_blob(&mut bytes, node_info.address.as_str().as_bytes());
                assert(bytes@ =~= seq![2u8] + encode_info(node_info@));
            },
            Message::ResourceUpdate { resources } => {
                bytes.push(3);
                put_contribution(&mut bytes, resources);
                assert(bytes@ =~= seq![3u8] + encode_contribution(*resources));
            },
        }
        bytes
    }

    /// The message that `bytes` are the wire form of, or nothing where they
    /// are the wire form of none.
    pub fn decode(bytes: &[u8]) -> (message: Option<Message>)
        ensures
            match message {
                Some(message) => decode_message(bytes@) == Some(message@),
                None => decode_message(bytes@) is None,
            },
    {
        if bytes.len() == 0 {
            return None;
        }
        let tag = bytes[0];
        if tag == 0 {
            if bytes.len() == 1 {
                Some(Message::Ping)
            } else {
                None
            }
        } else if tag == 1 {
            if bytes.len() == 1 {
                Some(Message::Pong)
            } else {
                None
            }
        } else if tag == 2 {
            match read_info(bytes, 1) {
                Some(node_info) => Some(Message::Discovery { node_info }),
                None => None,
            }
        } else if tag == 3 {
            if bytes.len() == 1 + CONTRIBUTION_LEN {
                Some(Message::ResourceUpdate { resources: read_contribution(bytes, 1) })
            } else {
                None
            }
        } else {
            None
        }
    }
}

} // verus!
