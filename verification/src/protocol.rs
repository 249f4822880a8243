//! The messages of the tunnel protocol and its fixed parameters.

use vstd::arithmetic::power::pow;
use vstd::prelude::*;
use vstd::string::*;

verus! {

/// The port that the tunnel server listens on.
pub const SERVER_PORT: u16 = 32540;

/// A version of the protocol.
pub type ProtocolVer = u64;

/// The version that both ends of this library speak.
pub const PROTOCOL_VER: ProtocolVer = 0x0000_0000_0000_0001;

/// How long a negotiation may take, in milliseconds.
pub const RTUN_NEG_TIMEOUT_MILLIS: u64 = 1000;

/// How long an end may stay silent before the connection counts as lost, in milliseconds.
pub const RTUN_COM_TIMEOUT_MILLIS: u64 = 6000;

/// The pause between two heartbeats of one end, in milliseconds.
pub const HEARTBEAT_INTERVAL_MILLIS: u64 = RTUN_COM_TIMEOUT_MILLIS / 4;

/// The number that names a session.
pub type SessionID = u64;

/// What a client asks for when it connects.
#[derive(Debug, Clone, Copy, PartialEq, Eq)]
pub enum RtunServerNegReq {
    NewConnection(ProtocolVer),
    ResumeConnection(ProtocolVer, SessionID),
}

/// What the server answers to a negotiation request.
#[derive(Debug, PartialEq, Eq)]
pub enum RtunServerNegRes {
    Established(SessionID),
    InvalidSessionID,
    ResumeFailed,
    ProtocolVersionMismatched,
}

/// What either end sends once a session is established.
#[derive(Debug, PartialEq, Eq)]
pub enum RtunCommunication {
    Heartbeat(SessionID),
    Packet(SessionID, Vec<u8>),
    ServerRequest(SessionID, ServerRequest),
    ClientRequest(SessionID, ClientRequest),
    InvalidRequest(InvalidReason),
}

/// Why the server refused a request.
#[derive(Debug, PartialEq, Eq)]
pub enum InvalidReason {
    ManifestAlreadyConfigured,
    PleaseRegisterManifestAtFirst,
    FailedToConnectApplicationServer,
    CanNotChangeManifest,
}

/// What a client asks of the server within a session.
#[derive(Debug, PartialEq, Eq)]
pub enum ServerRequest {
    RegisterManifest(ApplicationServerManifest),
    SrcApplicationIsClosed,
}

/// What the server asks of a client within a session.
#[derive(Debug, PartialEq, Eq)]
pub enum ClientRequest {
    SrcApplicationIsClosed,
}

/// Where the application server is that a session is tunnelled to.
#[derive(Debug, PartialEq, Eq)]
pub struct ApplicationServerManifest {
    pub ipaddr: String,
    pub port: u16,
}

impl Clone for ApplicationServerManifest {
    fn clone(&self) -> (res: Self)
        ensures
            res == *self,
    {
        ApplicationServerManifest { ipaddr: self.ipaddr.clone(), port: self.port }
    }
}

/// The decimal digit for `d`.
pub open spec fn digit(d: nat) -> char
    recommends
        d < 10,
{
    seq!['0', '1', '2', '3', '4', '5', '6', '7', '8', '9'][d as int]
}

/// `n` in decimal, without leading zeros.
pub open spec fn decimal(n: nat) -> Seq<char>
    decreases n,
{
    if n < 10 {
        seq![digit(n)]
    } else {
        decimal(n / 10).push(digit(n % 10))
    }
}

/// A decimal digit is a character from `0` on, as far as the digit says.
pub proof fn law_digit(d: nat)
    requires
        d < 10,
    ensures
        digit(d) as int == '0' as int + d,
{
}

/// The last character of a decimal number is its last digit, and so on, place by place.
pub proof fn law_decimal_digit(n: nat, i: nat)
    requires
        i < decimal(n).len(),
    ensures
        decimal(n)[decimal(n).len() - 1 - i] as int == '0' as int + (n as int / pow(10, i)) % 10,
    decreases n,
{
    reveal_with_fuel(pow, 2);
    law_digit(n % 10);
    if i > 0 {
        law_decimal_digit(n / 10, (i - 1) as nat);
        vstd::arithmetic::power::lemma_pow_positive(10, (i - 1) as nat);
        vstd::arithmetic::div_mod::lemma_div_denominator(n as int, 10, pow(10, (i - 1) as nat));
    }
}

/// A decimal number has as many digits as it needs, and at least one.
pub proof fn law_decimal_len(n: nat)
    ensures
        decimal(n).len() > 0,
        n < pow(10, decimal(n).len()),
        decimal(n).len() > 1 ==> pow(10, (decimal(n).len() - 1) as nat) <= n,
    decreases n,
{
    reveal_with_fuel(pow, 2);
    if n >= 10 {
        law_decimal_len(n / 10);
    }
}

/// The address of an application server is the host, a colon, and the digits of the port from the
/// highest to the lowest, without leading zeros.
pub proof fn law_address(manifest: ApplicationServerManifest, i: nat)
    ensures
        ({
            let address = manifest.address_chars();
            let host = manifest.ipaddr@.len();
            let digits = address.len() - host - 1;
            &&& digits > 0
            &&& manifest.port < pow(10, digits as nat)
            &&& digits > 1 ==> pow(10, (digits - 1) as nat) <= manifest.port
            &&& address.take(host as int) == manifest.ipaddr@
            &&& address[host as int] == ':'
            &&& i < digits ==> address[address.len() - 1 - i] as int == '0' as int + (
            manifest.port as int / pow(10, i)) % 10
        }),
{
    let port = manifest.port as nat;
    law_decimal_len(port);
    if i < decimal(port).len() {
        law_decimal_digit(port, i);
    }
    assert(manifest.address_chars().take(manifest.ipaddr@.len() as int) =~= manifest.ipaddr@);
}

impl ApplicationServerManifest {
    /// The address to connect to, in characters: the host, a colon and the port in decimal.
    pub open spec fn address_chars(self) -> Seq<char> {
        self.ipaddr@.push(':') + decimal(self.port as nat)
    }

    /// The address to connect to: the host, a colon and the port in decimal.
    pub fn address(&self) -> (res: String)
        ensures
            res@ == self.address_chars(),
    {
        let mut address: String = self.ipaddr.clone();
        proof {
            reveal_strlit(":");
        }
        address.append(":");
        assert(address@ =~= self.ipaddr@.push(':'));
        append_decimal(&mut address, self.port);
        address
    }
}

/// Appends `n` in decimal.
fn append_decimal(text: &mut String, n: u16)
    ensures
        final(text)@ == old(text)@ + decimal(n as nat),
    decreases n,
{
    if n < 10 {
        text.append(digit_str(n));
    } else {
        append_decimal(text, n / 10);
        text.append(digit_str(n % 10));
        assert(old(text)@ + decimal(n as nat / 10) + seq![digit(n as nat % 10)] =~= old(text)@
            + decimal(n as nat));
    }
}

/// The text of one decimal digit.
fn digit_str(d: u16) -> (res: &'static str)
    requires
        d < 10,
    ensures
        res@ == seq![digit(d as nat)],
{
    proof {
        reveal_strlit("0");
        reveal_strlit("1");
        reveal_strlit("2");
        reveal_strlit("3");
        reveal_strlit("4");
        reveal_strlit("5");
        reveal_strlit("6");
        reveal_strlit("7");
        reveal_strlit("8");
        reveal_strlit("9");
    }
    let res: &'static str = match d {
        0 => "0",
        1 => "1",
        2 => "2",
        3 => "3",
        4 => "4",
        5 => "5",
        6 => "6",
        7 => "7",
        8 => "8",
        _ => "9",
    };
    assert(res@ =~= seq![digit(d as nat)]);
    res
}

} // verus!
