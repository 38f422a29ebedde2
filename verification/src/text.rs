//! A handle and its addresses in one line of text, for diagnostics.

use vstd::prelude::*;
use vstd::string::StringExecFns;
use crate::interface::Interface;

verus! {

/// The character that stands for the digit `d`.
pub open spec fn digit(d: int) -> char
    recommends
        0 <= d < 10,
{
    (d + 48) as char
}

/// The decimal notation of an octet, without leading zeros.
pub open spec fn decimal(n: u8) -> Seq<char> {
    if n < 10 {
        seq![digit(n as int)]
    } else if n < 100 {
        seq![digit(n as int / 10), digit(n as int % 10)]
    } else {
        seq![digit(n as int / 100), digit(n as int / 10 % 10), digit(n as int % 10)]
    }
}

/// Four octets between square brackets, separated by a comma and a space.
pub open spec fn quad(octets: [u8; 4]) -> Seq<char> {
    seq!['['] + decimal(octets@[0]) + seq![',', ' '] + decimal(octets@[1]) + seq![',', ' ']
        + decimal(octets@[2]) + seq![',', ' '] + decimal(octets@[3]) + seq![']']
}

/// The address to show: the one that was read, or the all-zero address where
/// none could be read.
pub open spec fn shown(address: Option<[u8; 4]>) -> [u8; 4] {
    match address {
        Some(octets) => octets,
        None => [0, 0, 0, 0],
    }
}

/// The line that describes an interface called `name`.
pub open spec fn line(name: Seq<char>, ipv4: [u8; 4], netmask: [u8; 4], broadcast: [u8; 4]) -> Seq<
    char,
> {
    name + " { ipv4: "@ + quad(ipv4) + ", netmask: "@ + quad(netmask) + ", broadcast: "@ + quad(
        broadcast,
    ) + " }"@
}

fn digit_text(d: u8) -> (text: &'static str)
    requires
        d < 10,
    ensures
        text@ == seq![digit(d as int)],
{
    proof {
        reveal_strlit("0");
        reveal_strlit("1");
        reveal_strlit("2");
        reveal_strlit("3");
        reveal_strlit("4");
        reveal_strlit("5");
        reveal_strlit("6");
        reveal_strlit("7");
        reveal_strlit("8");
        reveal_strlit("9");
    }
    let text = match d {
        0 => "0",
        1 => "1",
        2 => "2",
        3 => "3",
        4 => "4",
        5 => "5",
        6 => "6",
        7 => "7",
        8 => "8",
        _ => "9",
    };
    assert(text@ =~= seq![digit(d as int)]);
    text
}

/// Appends the decimal notation of `n` to `text`.
pub fn push_decimal(text: &mut String, n: u8)
    ensures
        final(text)@ == old(text)@ + decimal(n),
{
    if n >= 100 {
        text.append(digit_text(n / 100));
    }
    if n >= 10 {
        text.append(digit_text(n / 10 % 10));
    }
    text.append(digit_text(n % 10));
    assert(text@ =~= old(text)@ + decimal(n));
}

/// Appends four octets between square brackets to `text`.
pub fn push_quad(text: &mut String, octets: &[u8; 4])
    ensures
        final(text)@ == old(text)@ + quad(*octets),
{
    proof {
        reveal_strlit("[");
        reveal_strlit(", ");
        reveal_strlit("]");
    }
    text.append("[");
    push_decimal(text, octets[0]);
    text.append(", ");
    push_decimal(text, octets[1]);
    text.append(", ");
    push_decimal(text, octets[2]);
    text.append(", ");
    push_decimal(text, octets[3]);
    text.append("]");
    assert(text@ =~= old(text)@ + quad(*octets));
}

impl Interface {
    /// Describes the interface in one line: its name and its IPv4 address,
    /// netmask and broadcast address. Each address that could not be read is
    /// shown as the all-zero address, whatever became of the others. The
    /// name must be text; [`Interface::is_text`] tells.
    pub fn summary(
        &self,
        ipv4: Option<[u8; 4]>,
        netmask: Option<[u8; 4]>,
        broadcast: Option<[u8; 4]>,
    ) -> (text: String)
        requires
            self.readable(),
        ensures
            text@ == line(self.text(), shown(ipv4), shown(netmask), shown(broadcast)),
    {
        let ipv4 = show(ipv4);
        let netmask = show(netmask);
        let broadcast = show(broadcast);
        let mut text = String::from_str(self.name());
        text.append(" { ipv4: ");
        push_quad(&mut text, &ipv4);
        text.append(", netmask: ");
        push_quad(&mut text, &netmask);
        text.append(", broadcast: ");
        push_quad(&mut text, &broadcast);
        text.append(" }");
        assert(text@ =~= line(self.text(), ipv4, netmask, broadcast));
        text
    }
}

/// The address to show for what was read.
pub fn show(address: Option<[u8; 4]>) -> (octets: [u8; 4])
    ensures
        octets == shown(address),
{
    match address {
        Some(octets) => octets,
        None => {
            let zero = [0u8, 0, 0, 0];
            assert(zero =~= shown(address));
            zero
        },
    }
}

} // verus!
