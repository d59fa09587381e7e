use vstd::prelude::*;
use vstd::string::StringExecFns;

verus! {

/// The decimal digit for `d`, below ten.
pub open spec fn digit_char(d: nat) -> char {
    if d == 0 { '0' }
    else if d == 1 { '1' }
    else if d == 2 { '2' }
    else if d == 3 { '3' }
    else if d == 4 { '4' }
    else if d == 5 { '5' }
    else if d == 6 { '6' }
    else if d == 7 { '7' }
    else if d == 8 { '8' }
    else { '9' }
}

/// The decimal notation of `n`, without leading zeros.
pub open spec fn decimal(n: nat) -> Seq<char>
    decreases n,
{
    if n < 10 {
        seq![digit_char(n)]
    } else {
        decimal(n / 10).push(digit_char(n % 10))
    }
}

/// The digit for `d` as a one-character text.
fn digit_str(d: u16) -> (r: &'static str)
    requires
        d < 10,
    ensures
        r@ == seq![digit_char(d as nat)],
{
    proof {
        reveal_strlit("0");
        reveal_strlit("1");
        reveal_strlit("2");
        reveal_strlit("3");
        reveal_strlit("4");
        reveal_strlit("5");
        reveal_strlit("6");
        reveal_strlit("7");
        reveal_strlit("8");
        reveal_strlit("9");
    }
    match d {
        0 => "0",
        1 => "1",
        2 => "2",
        3 => "3",
        4 => "4",
        5 => "5",
        6 => "6",
        7 => "7",
        8 => "8",
        _ => "9",
    }
}

/// Appends the decimal notation of `n` to `s`.
fn append_decimal(s: &mut String, n: u16)
    ensures
        final(s)@ == old(s)@ + decimal(n as nat),
    decreases n,
{
    if n >= 10 {
        append_decimal(s, n / 10);
    }
    let d = digit_str(n % 10);
    s.append(d);
    proof {
        if n >= 10 {
            assert(decimal(n as nat) == decimal((n / 10) as nat).push(digit_char((n % 10) as nat)));
        }
    }
}

/// Where the server is: its host and port, and the name to claim to be
/// connecting to, when it differs from the host.
#[derive(Clone, Debug)]
pub struct ServerEndpoint {
    pub host: String,
    pub port: u16,
    pub hostname_override: Option<String>,
}

impl ServerEndpoint {
    pub fn new(host: String, port: u16, hostname_override: Option<String>) -> (r: ServerEndpoint)
        ensures
            r.host@ == host@,
            r.port == port,
            r.hostname_override == hostname_override,
    {
        ServerEndpoint { host, port, hostname_override }
    }

    /// The logical URI of the server: `http://<host>:<port>`.
    pub fn uri(&self) -> (r: String)
        ensures
            r@ == "http://"@ + self.host@ + ":"@ + decimal(self.port as nat),
    {
        let mut s = String::from_str("http://");
        s.append(self.host.as_str());
        s.append(":");
        append_decimal(&mut s, self.port);
        s
    }

    /// The host name to present to the server: the override when there is
    /// one, else the host.
    pub fn authority(&self) -> (r: &str)
        ensures
            r@ == match self.hostname_override {
                Some(h) => h@,
                None => self.host@,
            },
    {
        match &self.hostname_override {
            Some(h) => h.as_str(),
            None => self.host.as_str(),
        }
    }
}

} // verus!
