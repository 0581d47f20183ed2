use vstd::prelude::*;
use vstd::string::StringExecFns;

verus! {

/// The port served on when none is configured, or the configured one is not a port.
pub const DEFAULT_PORT: u16 = 8186;

/// Whether `c` is an ASCII decimal digit.
pub open spec fn is_decimal_digit(c: char) -> bool {
    '0' <= c <= '9'
}

/// The number written by the decimal digits `s`, most significant first.
pub open spec fn digits_value(s: Seq<char>) -> int
    decreases s.len(),
{
    if s.len() == 0 {
        0
    } else {
        digits_value(s.drop_last()) * 10 + (s.last() as int - '0' as int)
    }
}

/// `s` without one leading `+`, if it has one.
pub open spec fn unsigned_part(s: Seq<char>) -> Seq<char> {
    if s.len() > 0 && s[0] == '+' {
        s.drop_first()
    } else {
        s
    }
}

/// Whether `s` is an optional `+` followed by one or more decimal digits
/// whose value fits in 16 bits.
pub open spec fn is_u16_text(s: Seq<char>) -> bool {
    let d = unsigned_part(s);
    &&& d.len() > 0
    &&& forall|i: int| 0 <= i < d.len() ==> is_decimal_digit(#[trigger] d[i])
    &&& digits_value(d) <= u16::MAX
}

/// The port selected by a configuration value: the number it writes when it
/// is one that fits in 16 bits, else the default port.
pub open spec fn port_of(setting: Option<Seq<char>>) -> int {
    match setting {
        Some(s) => if is_u16_text(s) {
            digits_value(unsigned_part(s))
        } else {
            DEFAULT_PORT as int
        },
        None => DEFAULT_PORT as int,
    }
}

/// Relies on `str::parse::<u16>` (the `FromStr` of `u16`): it accepts an
/// optional `+` followed by one or more ASCII decimal digits whose value fits
/// in 16 bits, and gives that value; anything else is an error.
#[verifier::external_body]
fn parse_u16(s: &str) -> (r: Option<u16>)
    ensures
        r.is_some() <==> is_u16_text(s@),
        r.is_some() ==> r.unwrap() as int == digits_value(unsigned_part(s@)),
{
    s.parse::<u16>().ok()
}

/// The port to serve on, given the configured setting if there is one.
pub fn server_port(setting: Option<String>) -> (r: u16)
    ensures
        r as int == port_of(
            match setting {
                Some(s) => Some(s@),
                None => None,
            },
        ),
{
    match setting {
        Some(s) => match parse_u16(s.as_str()) {
            Some(p) => p,
            None => DEFAULT_PORT,
        },
        None => DEFAULT_PORT,
    }
}

/// The decimal digit for `d`, which is below ten.
pub open spec fn digit_char(d: nat) -> char {
    seq!['0', '1', '2', '3', '4', '5', '6', '7', '8', '9'][d as int]
}

/// The decimal numeral for `n`, without leading zeros.
pub open spec fn decimal(n: nat) -> Seq<char>
    decreases n,
{
    if n < 10 {
        seq![digit_char(n)]
    } else {
        decimal(n / 10).push(digit_char(n % 10))
    }
}

/// The host the server listens on, and the separator before the port.
pub open spec fn host_prefix() -> Seq<char> {
    "127.0.0.1:"@
}

/// The address that the server binds and that the query console targets.
pub open spec fn address_of(port: u16) -> Seq<char> {
    host_prefix() + decimal(port as nat)
}

fn digit_str(d: u16) -> (r: &'static str)
    requires
        d < 10,
    ensures
        r@ == seq![digit_char(d as nat)],
{
    proof {
        reveal_strlit("0");
        reveal_strlit("1");
        reveal_strlit("2");
        reveal_strlit("3");
        reveal_strlit("4");
        reveal_strlit("5");
        reveal_strlit("6");
        reveal_strlit("7");
        reveal_strlit("8");
        reveal_strlit("9");
    }
    let r = match d {
        0 => "0",
        1 => "1",
        2 => "2",
        3 => "3",
        4 => "4",
        5 => "5",
        6 => "6",
        7 => "7",
        8 => "8",
        _ => "9",
    };
    assert(r@ =~= seq![digit_char(d as nat)]);
    r
}

/// Appends the decimal numeral for `n` to `out`.
pub(crate) fn push_decimal(out: &mut String, n: u16)
    ensures
        final(out)@ == old(out)@ + decimal(n as nat),
    decreases n,
{
    if n >= 10 {
        push_decimal(out, n / 10);
    }
    out.append(digit_str(n % 10));
    assert(out@ =~= old(out)@ + decimal(n as nat));
}

/// `127.0.0.1:` followed by the port in decimal.
pub fn server_address(port: u16) -> (r: String)
    ensures
        r@ == address_of(port),
{
    let mut r = String::from_str("127.0.0.1:");
    push_decimal(&mut r, port);
    r
}

} // verus!
