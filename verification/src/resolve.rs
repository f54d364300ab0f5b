//! Endpoint resolution: derive the port to dial and the dialable address text.

use vstd::prelude::*;
use vstd::string::StringExecFns;

use crate::error::ConnectError;
use crate::request::{DescriptorView, RequestDescriptor, Scheme};

verus! {

/// The port the secure scheme defaults to when none is given.
pub const DEFAULT_SECURE_PORT: u16 = 443;

/// The port the plain scheme defaults to when none is given.
pub const DEFAULT_PLAIN_PORT: u16 = 80;

/// A resolved (host, port) pair, ready for dialing. Derived per attempt and
/// never persisted.
#[derive(Debug)]
pub struct Endpoint {
    pub host: String,
    pub port: u16,
}

/// The port a descriptor resolves to: the explicit port verbatim when one is
/// present, else the scheme's default, else nothing.
pub open spec fn resolved_port(d: DescriptorView) -> Option<u16> {
    match d.port {
        Some(p) => Some(p),
        None => match d.scheme {
            Scheme::Secure => Some(DEFAULT_SECURE_PORT),
            Scheme::Plain => Some(DEFAULT_PLAIN_PORT),
            Scheme::Unrecognized => None,
        },
    }
}

/// Resolve a descriptor to an endpoint. Pure and total but for the one
/// documented failure: an unrecognized scheme with no explicit port.
pub fn resolve(d: &RequestDescriptor) -> (r: Result<Endpoint, ConnectError>)
    ensures
        match r {
            Ok(ep) => resolved_port(d@) == Some(ep.port) && ep.host@ == d@.host,
            Err(e) => resolved_port(d@) is None && e == ConnectError::UnsupportedScheme,
        },
{
    let port: u16 = match d.port {
        Some(p) => p,
        None => match d.scheme {
            Scheme::Secure => DEFAULT_SECURE_PORT,
            Scheme::Plain => DEFAULT_PLAIN_PORT,
            Scheme::Unrecognized => {
                return Err(ConnectError::UnsupportedScheme);
            },
        },
    };
    Ok(Endpoint { host: d.host.clone(), port })
}

/// Law: with no explicit port, the scheme alone decides the port: 443 for the
/// secure scheme, 80 for the plain one.
pub proof fn lemma_scheme_default_port(d: DescriptorView)
    requires
        d.port is None,
    ensures
        d.scheme == Scheme::Secure ==> resolved_port(d) == Some(DEFAULT_SECURE_PORT),
        d.scheme == Scheme::Plain ==> resolved_port(d) == Some(DEFAULT_PLAIN_PORT),
{
}

/// Law: an explicit port always overrides the scheme default, whatever the
/// scheme is.
pub proof fn lemma_explicit_port_overrides(d: DescriptorView, p: u16)
    requires
        d.port == Some(p),
    ensures
        resolved_port(d) == Some(p),
{
}

/// Law: an unrecognized scheme with no explicit port resolves to no endpoint
/// at all.
pub proof fn lemma_unrecognized_scheme_unresolved(d: DescriptorView)
    requires
        d.port is None,
        d.scheme == Scheme::Unrecognized,
    ensures
        resolved_port(d) is None,
{
}

/// One decimal digit as a character.
pub open spec fn decimal_digit(d: int) -> char {
    if d == 0 {
        '0'
    } else if d == 1 {
        '1'
    } else if d == 2 {
        '2'
    } else if d == 3 {
        '3'
    } else if d == 4 {
        '4'
    } else if d == 5 {
        '5'
    } else if d == 6 {
        '6'
    } else if d == 7 {
        '7'
    } else if d == 8 {
        '8'
    } else {
        '9'
    }
}

/// The decimal digits of a nonnegative number, most significant first.
pub open spec fn decimal_of(n: int) -> Seq<char>
    recommends
        n >= 0,
    decreases n,
{
    if n < 10 {
        seq![decimal_digit(n)]
    } else {
        decimal_of(n / 10).push(decimal_digit(n % 10))
    }
}

/// The dialable address text: the host, a colon, and the port in decimal.
pub open spec fn address_text(host: Seq<char>, port: u16) -> Seq<char> {
    host + seq![':'] + decimal_of(port as int)
}

/// Append one decimal digit to a string.
fn push_digit(s: &mut String, d: u16)
    requires
        d < 10,
    ensures
        final(s)@ == old(s)@ + seq![decimal_digit(d as int)],
{
    if d == 0 {
        proof {
            reveal_strlit("0");
        }
        s.append("0");
    } else if d == 1 {
        proof {
            reveal_strlit("1");
        }
        s.append("1");
    } else if d == 2 {
        proof {
            reveal_strlit("2");
        }
        s.append("2");
    } else if d == 3 {
        proof {
            reveal_strlit("3");
        }
        s.append("3");
    } else if d == 4 {
        proof {
            reveal_strlit("4");
        }
        s.append("4");
    } else if d == 5 {
        proof {
            reveal_strlit("5");
        }
        s.append("5");
    } else if d == 6 {
        proof {
            reveal_strlit("6");
        }
        s.append("6");
    } else if d == 7 {
        proof {
            reveal_strlit("7");
        }
        s.append("7");
    } else if d == 8 {
        proof {
            reveal_strlit("8");
        }
        s.append("8");
    } else {
        proof {
            reveal_strlit("9");
        }
        s.append("9");
    }
    assert(final(s)@ =~= old(s)@ + seq![decimal_digit(d as int)]);
}

/// Append the decimal digits of a number to a string.
fn push_decimal(s: &mut String, n: u16)
    ensures
        final(s)@ == old(s)@ + decimal_of(n as int),
    decreases n,
{
    if n >= 10 {
        push_decimal(s, n / 10);
    }
    push_digit(s, n % 10);
    assert(final(s)@ =~= old(s)@ + decimal_of(n as int));
}

/// Build the address text to dial for a host and a resolved port.
pub fn dial_address(host: &str, port: u16) -> (r: String)
    ensures
        r@ == address_text(host@, port),
{
    let mut s: String = String::from_str(host);
    proof {
        reveal_strlit(":");
    }
    s.append(":");
    push_decimal(&mut s, port);
    assert(s@ =~= address_text(host@, port));
    s
}

} // verus!
