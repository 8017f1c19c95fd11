//! The wire format of an attested airdrop message.
//!
//! A message is 54 bytes long: the claimant's 32-byte account, the 20-byte
//! address of the collection on the foreign chain, and the 16-bit identifier
//! of the item in that collection, most significant byte first.

use vstd::prelude::*;

verus! {

/// Number of bytes of the claimant's account.
pub const ACCOUNT_LEN: usize = 32;

/// Number of bytes of a collection's address on the foreign chain.
pub const NFT_LEN: usize = 20;

/// Number of bytes of an encoded message.
pub const MESSAGE_LEN: usize = 54;

/// Why a buffer is not an encoded message.
#[derive(Clone, Copy, Debug, PartialEq, Eq, Structural)]
pub enum FormatError {
    /// The buffer ends before the last field.
    Truncated,
    /// The buffer goes on after the last field.
    TrailingBytes,
}

/// What an attested message says: who may claim, and for which item.
#[derive(Clone, Copy, Debug, PartialEq, Eq)]
pub struct AirdropMessage {
    /// The account on the home ledger that may claim.
    pub account: [u8; 32],
    /// The address of the collection on the foreign chain.
    pub nft: [u8; 20],
    /// The identifier of the item in the collection.
    pub id: u16,
}

/// The mathematical content of a message.
pub struct MessageView {
    pub account: Seq<u8>,
    pub nft: Seq<u8>,
    pub id: u16,
}

impl View for AirdropMessage {
    type V = MessageView;

    open spec fn view(&self) -> MessageView {
        MessageView { account: self.account@, nft: self.nft@, id: self.id }
    }
}

/// The 16-bit number whose more significant byte is `hi` and whose less
/// significant byte is `lo`.
pub open spec fn be_u16(hi: u8, lo: u8) -> u16 {
    (hi as int * 256 + lo as int) as u16
}

/// The two bytes of `id`, most significant first.
pub open spec fn be_bytes(id: u16) -> Seq<u8> {
    seq![(id / 256) as u8, (id % 256) as u8]
}

impl MessageView {
    /// Field widths are those of the wire format.
    pub open spec fn wf(self) -> bool {
        self.account.len() == ACCOUNT_LEN && self.nft.len() == NFT_LEN
    }

    /// The bytes that stand for this message on the wire.
    pub open spec fn to_bytes(self) -> Seq<u8> {
        self.account + self.nft + be_bytes(self.id)
    }
}

/// The message that the first 54 bytes of `bytes` stand for.
pub open spec fn read_message(bytes: Seq<u8>) -> MessageView
    recommends
        bytes.len() >= MESSAGE_LEN,
{
    MessageView {
        account: bytes.subrange(0, 32),
        nft: bytes.subrange(32, 52),
        id: be_u16(bytes[52], bytes[53]),
    }
}

/// What decoding a buffer framed as exactly one message gives.
pub open spec fn parse(bytes: Seq<u8>) -> Result<MessageView, FormatError> {
    if bytes.len() < MESSAGE_LEN {
        Err(FormatError::Truncated)
    } else if bytes.len() > MESSAGE_LEN {
        Err(FormatError::TrailingBytes)
    } else {
        Ok(read_message(bytes))
    }
}

/// What decoding the head of a longer stream gives.
pub open spec fn parse_prefix(bytes: Seq<u8>) -> Result<MessageView, FormatError> {
    if bytes.len() < MESSAGE_LEN {
        Err(FormatError::Truncated)
    } else {
        Ok(read_message(bytes))
    }
}

/// Copies `N` bytes of `bytes`, from index `start` on, into an array.
fn read_array<const N: usize>(bytes: &[u8], start: usize) -> (out: [u8; N])
    requires
        start + N <= bytes@.len(),
    ensures
        out@ == bytes@.subrange(start as int, start + N),
{
    let len: usize = bytes.len();
    let mut out = [0u8; N];
    let mut i: usize = 0;
    while i < N
        invariant
            i <= N,
            start + N <= len == bytes@.len(),
            out@.len() == N,
            forall|j: int| 0 <= j < i ==> out@[j] == bytes@[start + j],
        decreases N - i,
    {
        out[i] = bytes[start + i];
        i += 1;
    }
    assert(out@ =~= bytes@.subrange(start as int, start + N));
    out
}

/// Appends every byte of `bytes` to `writer`.
fn write_all(writer: &mut Vec<u8>, bytes: &[u8])
    ensures
        final(writer)@ == old(writer)@ + bytes@,
{
    let mut i: usize = 0;
    while i < bytes.len()
        invariant
            i <= bytes@.len(),
            writer@ == old(writer)@ + bytes@.take(i as int),
        decreases bytes@.len() - i,
    {
        writer.push(bytes[i]);
        i += 1;
        assert(writer@ =~= old(writer)@ + bytes@.take(i as int));
    }
    assert(bytes@.take(bytes@.len() as int) =~= bytes@);
}

impl AirdropMessage {
    /// Reads one message from the head of `buf`, as a reader over `buf`
    /// would: what follows the first 54 bytes is left alone.
    pub fn deserialize_reader(buf: &[u8]) -> (r: Result<AirdropMessage, FormatError>)
        ensures
            match r {
                Ok(m) => parse_prefix(buf@) == Ok::<MessageView, FormatError>(m@),
                Err(e) => parse_prefix(buf@) == Err::<MessageView, FormatError>(e),
            },
    {
        if buf.len() < MESSAGE_LEN {
            return Err(FormatError::Truncated);
        }
        let account: [u8; 32] = read_array(buf, 0);
        let nft: [u8; 20] = read_array(buf, ACCOUNT_LEN);
        let hi: u16 = buf[52] as u16;
        let lo: u16 = buf[53] as u16;
        let id: u16 = hi * 256 + lo;
        Ok(AirdropMessage { account, nft, id })
    }

    /// Decodes a buffer that holds exactly one message.
    pub fn decode(bytes: &[u8]) -> (r: Result<AirdropMessage, FormatError>)
        ensures
            match r {
                Ok(m) => parse(bytes@) == Ok::<MessageView, FormatError>(m@),
                Err(e) => parse(bytes@) == Err::<MessageView, FormatError>(e),
            },
    {
        if bytes.len() > MESSAGE_LEN {
            return Err(FormatError::TrailingBytes);
        }
        AirdropMessage::deserialize_reader(bytes)
    }

    /// Appends the 54 bytes of this message to `writer`.
    pub fn serialize(&self, writer: &mut Vec<u8>)
        ensures
            final(writer)@ == old(writer)@ + self@.to_bytes(),
    {
        write_all(writer, self.account.as_slice());
        write_all(writer, self.nft.as_slice());
        let hi: u8 = (self.id / 256) as u8;
        let lo: u8 = (self.id % 256) as u8;
        writer.push(hi);
        writer.push(lo);
        assert(writer@ =~= old(writer)@ + self@.to_bytes());
    }

    /// The 54 bytes of this message.
    pub fn encode(&self) -> (bytes: Vec<u8>)
        ensures
            bytes@ == self@.to_bytes(),
            bytes@.len() == MESSAGE_LEN,
    {
        let mut bytes: Vec<u8> = Vec::new();
        self.serialize(&mut bytes);
        assert(bytes@ =~= self@.to_bytes());
        bytes
    }

    /// Two messages with one view are one message.
    pub proof fn lemma_view_injective(self, other: AirdropMessage)
        requires
            self@ == other@,
        ensures
            self == other,
    {
        assert(self.account =~= other.account);
        assert(self.nft =~= other.nft);
    }
}

/// A 16-bit number is recovered from its two bytes.
pub proof fn lemma_be_u16_of_be_bytes(id: u16)
    ensures
        be_bytes(id).len() == 2,
        be_u16(be_bytes(id)[0], be_bytes(id)[1]) == id,
{
}

/// The two bytes of a 16-bit number are recovered from it.
pub proof fn lemma_be_bytes_of_be_u16(hi: u8, lo: u8)
    ensures
        be_bytes(be_u16(hi, lo)) == seq![hi, lo],
{
    assert(be_bytes(be_u16(hi, lo)) =~= seq![hi, lo]);
}

/// The bytes of a message of the right widths parse to that message.
pub proof fn lemma_parse_to_bytes(m: MessageView)
    requires
        m.wf(),
    ensures
        m.to_bytes().len() == MESSAGE_LEN,
        parse(m.to_bytes()) == Ok::<MessageView, FormatError>(m),
        parse_prefix(m.to_bytes()) == Ok::<MessageView, FormatError>(m),
{
    let b = m.to_bytes();
    lemma_be_u16_of_be_bytes(m.id);
    assert(b.subrange(0, 32) =~= m.account);
    assert(b.subrange(32, 52) =~= m.nft);
    assert(b[52] == be_bytes(m.id)[0]);
    assert(b[53] == be_bytes(m.id)[1]);
}

/// Decoding what was encoded gives the message back: the bytes of `m`
/// decode, and whatever message they decode to is `m`.
pub proof fn lemma_decode_encode(m: AirdropMessage)
    ensures
        m@.to_bytes().len() == MESSAGE_LEN,
        parse(m@.to_bytes()) == Ok::<MessageView, FormatError>(m@),
        parse_prefix(m@.to_bytes()) == Ok::<MessageView, FormatError>(m@),
        forall|d: AirdropMessage|
            parse(m@.to_bytes()) == Ok::<MessageView, FormatError>(d@) ==> d == m,
{
    lemma_parse_to_bytes(m@);
    assert forall|d: AirdropMessage|
        parse(m@.to_bytes()) == Ok::<MessageView, FormatError>(d@) implies d == m by {
        d.lemma_view_injective(m);
    }
}

/// Encoding what was decoded gives the buffer back.
pub proof fn lemma_encode_decode(bytes: Seq<u8>)
    requires
        bytes.len() == MESSAGE_LEN,
    ensures
        parse(bytes) is Ok,
        parse(bytes)->Ok_0.wf(),
        parse(bytes)->Ok_0.to_bytes() == bytes,
{
    let m = read_message(bytes);
    lemma_be_bytes_of_be_u16(bytes[52], bytes[53]);
    assert(m.to_bytes() =~= bytes);
}

/// A buffer shorter than one message never decodes.
pub proof fn lemma_short_buffer_rejected(bytes: Seq<u8>)
    requires
        bytes.len() < MESSAGE_LEN,
    ensures
        parse(bytes) == Err::<MessageView, FormatError>(FormatError::Truncated),
        parse_prefix(bytes) == Err::<MessageView, FormatError>(FormatError::Truncated),
{
}

} // verus!
