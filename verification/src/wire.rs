//! Reading packets off the wire: what the server makes of a packet from a
//! client, and what a client makes of a packet from its server.
use vstd::prelude::*;
use crate::codec::SocketAddress;
use crate::errors::BackendError;
use crate::routes::{
    OscArg, OscCommand, OscReply, command_from_osc, reply_from_osc, route_outcome, command_route_view,
    reply_route_view, command_route_read, reply_route_read, args_taken, command_arg_kinds, reply_arg_kinds,
};

verus! {

/// An OSC packet, as decoding its bytes gave it.
#[derive(Clone, Debug, PartialEq)]
pub enum OscPacket {
    /// A message: its address and arguments.
    Message { addr: String, args: Vec<OscArg> },
    /// A bundle of messages.
    Bundle,
    /// The bytes were no OSC packet; the decoder's error, as text.
    Malformed(String),
}

/// What `rosc::decoder::decode_udp` makes of a datagram's bytes: a message
/// (its address, and its arguments as the protocol reads them), a bundle, or
/// the `Debug` form of the decoder's error.
pub uninterp spec fn osc_decoded(buf: Seq<u8>) -> OscPacket;

/// Decodes the bytes of a datagram as an OSC packet.
///
/// Calls `rosc::decoder::decode_udp` and converts what it gives: a message's
/// address and arguments (blobs, strings and booleans as they are, any other
/// argument as `Other`), a bundle, or the decoder's error in its `Debug`
/// form. Claims that the result is `osc_decoded` of the bytes.
#[verifier::external_body]
pub fn decode_datagram(buf: &[u8]) -> (p: OscPacket)
    ensures
        p == osc_decoded(buf@),
{
    match rosc::decoder::decode_udp(buf) {
        Ok((_, rosc::OscPacket::Message(m))) => OscPacket::Message {
            addr: m.addr,
            args: m.args.into_iter().map(|a| match a {
                rosc::OscType::Blob(b) => OscArg::Blob(b),
                rosc::OscType::String(s) => OscArg::Str(s),
                rosc::OscType::Bool(b) => OscArg::Bool(b),
                _ => OscArg::Other,
            }).collect(),
        },
        Ok((_, rosc::OscPacket::Bundle(_))) => OscPacket::Bundle,
        Err(e) => OscPacket::Malformed(format!("{:?}", e)),
    }
}

/// The UTF-8 bytes of a character.
pub open spec fn utf8_char(c: char) -> Seq<u8> {
    let n = c as nat;
    if n < 0x80 {
        seq![n as u8]
    } else if n < 0x800 {
        seq![(0xC0 + n / 64) as u8, (0x80 + n % 64) as u8]
    } else if n < 0x10000 {
        seq![(0xE0 + n / 4096) as u8, (0x80 + (n / 64) % 64) as u8, (0x80 + n % 64) as u8]
    } else {
        seq![
            (0xF0 + n / 262144) as u8,
            (0x80 + (n / 4096) % 64) as u8,
            (0x80 + (n / 64) % 64) as u8,
            (0x80 + n % 64) as u8,
        ]
    }
}

/// The UTF-8 bytes of a text.
pub open spec fn utf8(s: Seq<char>) -> Seq<u8>
    decreases s.len(),
{
    if s.len() == 0 {
        Seq::empty()
    } else {
        utf8(s.drop_last()) + utf8_char(s.last())
    }
}

/// `n` zero bytes.
pub open spec fn zeros(n: nat) -> Seq<u8> {
    Seq::new(n, |i: int| 0u8)
}

/// An OSC string: the bytes, then one to four zero bytes, to a multiple of
/// four.
pub open spec fn osc_padded(b: Seq<u8>) -> Seq<u8> {
    b + zeros((4 - b.len() % 4) as nat)
}

/// The four big-endian bytes of `n` as a `u32` (taken modulo 2^32).
pub open spec fn u32_be(n: nat) -> Seq<u8> {
    let m = n % 0x1_0000_0000;
    seq![(m / 0x1000000) as u8, ((m / 0x10000) % 256) as u8, ((m / 256) % 256) as u8, (m % 256) as u8]
}

/// The type tag of an argument.
pub open spec fn arg_tag(a: OscArg) -> char {
    match a {
        OscArg::Blob(_) => 'b',
        OscArg::Str(_) => 's',
        OscArg::Bool(true) => 'T',
        OscArg::Bool(false) => 'F',
        OscArg::Other => 'N',
    }
}

/// The data of an argument: a string as an OSC string; a blob as its length,
/// its bytes, and zero bytes to a multiple of four; a boolean as nothing (its
/// tag says it).
pub open spec fn arg_data(a: OscArg) -> Seq<u8> {
    match a {
        OscArg::Str(s) => osc_padded(utf8(s@)),
        OscArg::Blob(b) => u32_be(b@.len()) + b@ + zeros(((4 - b@.len() % 4) % 4) as nat),
        _ => Seq::empty(),
    }
}

/// The data of a list of arguments, in order.
pub open spec fn args_data(args: Seq<OscArg>) -> Seq<u8>
    decreases args.len(),
{
    if args.len() == 0 {
        Seq::empty()
    } else {
        args_data(args.drop_last()) + arg_data(args.last())
    }
}

/// The bytes of an OSC message: its address as an OSC string, then a comma
/// and the type tags of its arguments as an OSC string, then the data of its
/// arguments.
pub open spec fn osc_message_bytes(addr: Seq<char>, args: Seq<OscArg>) -> Seq<u8> {
    osc_padded(utf8(addr)) + osc_padded(utf8(seq![','] + Seq::new(args.len(), |i: int| arg_tag(args[i]))))
        + args_data(args)
}

/// Whether every argument is of a type the protocol sends.
pub open spec fn sendable(args: Seq<OscArg>) -> bool {
    forall|i: int| 0 <= i < args.len() ==> !(#[trigger] args[i] is Other)
}

/// Encodes an OSC message.
///
/// Calls `rosc::encoder::encode` on a message with this address and these
/// arguments (blobs, strings and booleans as they are). The encoder writes
/// into a vector and never fails. Claims that the result is
/// `osc_message_bytes` of the address and arguments, as the encoder writes
/// them.
#[verifier::external_body]
pub(crate) fn encode_osc(addr: &str, args: &Vec<OscArg>) -> (b: Vec<u8>)
    requires
        sendable(args@),
    ensures
        b@ == osc_message_bytes(addr@, args@),
{
    let args = args.iter().map(|a| match a {
        OscArg::Blob(b) => rosc::OscType::Blob(b.clone()),
        OscArg::Str(s) => rosc::OscType::String(s.clone()),
        OscArg::Bool(b) => rosc::OscType::Bool(*b),
        OscArg::Other => rosc::OscType::Nil,
    }).collect();
    let msg = rosc::OscMessage { addr: addr.to_string(), args };
    rosc::encoder::encode(&rosc::OscPacket::Message(msg)).unwrap_or_default()
}

/// A command received by the server, and where it came from.
#[derive(Debug, PartialEq)]
pub struct RecvMessage {
    /// Where the packet came from.
    pub addr: SocketAddress,
    /// The address the message was sent to, and the command read from it; or
    /// why no command could be read.
    pub pkt: Result<(String, OscCommand), BackendError>,
}

/// `r` is what reading a packet as a command gives: a message is read by its
/// address and arguments; a bundle is refused; malformed bytes give an OSC
/// error with the decoder's message.
pub open spec fn command_packet_outcome(p: OscPacket, r: Result<(String, OscCommand), BackendError>) -> bool {
    match p {
        OscPacket::Message { addr, args } => {
            &&& route_outcome(
                match r {
                    Ok((_, c)) => command_route_view(Ok(c.route)),
                    Err(e) => Err(e),
                },
                command_route_read(addr@),
            )
            &&& r matches Ok((a, c)) ==> a@ == addr@ && args_taken(
                command_arg_kinds(c.route.kind),
                args@,
                c.args@,
                c.arg_error,
            )
        },
        OscPacket::Bundle => r matches Err(BackendError::UnsupportedOSCBundle),
        OscPacket::Malformed(m) => r matches Err(BackendError::OSC(t)) && t@ == m@,
    }
}

/// The server's codec.
pub struct SqaWireCodec;

impl SqaWireCodec {
    /// Reads a packet from `src` as a command.
    pub fn decode(&self, src: SocketAddress, p: OscPacket) -> (r: RecvMessage)
        ensures
            r.addr == src,
            command_packet_outcome(p, r.pkt),
    {
        let ghost p0 = p;
        let pkt = match p {
            OscPacket::Message { addr, args } => match command_from_osc(addr.as_str(), args) {
                Ok(c) => Ok((addr, c)),
                Err(e) => Err(e),
            },
            OscPacket::Bundle => Err(BackendError::UnsupportedOSCBundle),
            OscPacket::Malformed(m) => Err(BackendError::OSC(m)),
        };
        RecvMessage { addr: src, pkt }
    }
}

impl SqaWireCodec {
    /// Reads a datagram from `src` as a command: its bytes are decoded (see
    /// `osc_decoded`), then read as `decode` reads a packet.
    pub fn decode_bytes(&self, src: SocketAddress, buf: &[u8]) -> (r: RecvMessage)
        ensures
            r.addr == src,
            command_packet_outcome(osc_decoded(buf@), r.pkt),
    {
        let p = decode_datagram(buf);
        self.decode(src, p)
    }
}

/// `r` is what a client makes of a packet `p` from its server (see
/// `SqaClientCodec::decode`).
pub open spec fn reply_packet_outcome(p: OscPacket, r: Result<OscReply, BackendError>) -> bool {
    match p {
        OscPacket::Message { addr, args } => {
            &&& route_outcome(
                match r {
                    Ok(c) => reply_route_view(Ok(c.route)),
                    Err(e) => Err(e),
                },
                reply_route_read(addr@),
            )
            &&& r matches Ok(c) ==> args_taken(reply_arg_kinds(c.route.kind), args@, c.args@, c.arg_error)
        },
        OscPacket::Bundle => r matches Err(BackendError::UnsupportedOSCBundle),
        OscPacket::Malformed(m) => r matches Err(BackendError::OSC(t)) && t@ == m@,
    }
}

/// A client's codec: it listens to one server.
pub struct SqaClientCodec {
    pub addr: SocketAddress,
}

impl SqaClientCodec {
    /// A codec for the server at `addr`.
    pub fn new(addr: SocketAddress) -> (c: Self)
        ensures
            c.addr == addr,
    {
        SqaClientCodec { addr }
    }

    /// Reads a packet from `src` as a reply: refused if it came from another
    /// address than the server's; otherwise read as the server's codec reads
    /// commands, but as a reply.
    pub fn decode(&self, src: SocketAddress, p: OscPacket) -> (r: Result<OscReply, BackendError>)
        ensures
            src != self.addr ==> (r matches Err(BackendError::Msg(m)) && m@ == "Received a message from another server."@),
            src == self.addr ==> reply_packet_outcome(p, r),
    {
        if src != self.addr {
            return Err(BackendError::msg("Received a message from another server."));
        }
        match p {
            OscPacket::Message { addr, args } => reply_from_osc(addr.as_str(), args),
            OscPacket::Bundle => Err(BackendError::UnsupportedOSCBundle),
            OscPacket::Malformed(m) => Err(BackendError::OSC(m)),
        }
    }

    /// Reads a datagram from `src` as a reply: refused, without decoding, if
    /// it came from another address than the server's; otherwise its bytes
    /// are decoded (see `osc_decoded`) and read as `decode` reads a packet.
    pub fn decode_bytes(&self, src: SocketAddress, buf: &[u8]) -> (r: Result<OscReply, BackendError>)
        ensures
            src != self.addr ==> (r matches Err(BackendError::Msg(m)) && m@ == "Received a message from another server."@),
            src == self.addr ==> reply_packet_outcome(osc_decoded(buf@), r),
    {
        if src != self.addr {
            return Err(BackendError::msg("Received a message from another server."));
        }
        let p = decode_datagram(buf);
        self.decode(src, p)
    }
}

} // verus!
