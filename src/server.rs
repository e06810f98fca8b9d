use vstd::prelude::*;

verus! {

/// Default port of the static front end.
pub const FRONTEND_PORT: u16 = 5173;

/// Default port of the socket endpoint.
pub const SOCKETIO_PORT: u16 = 5174;

/// Address the servers listen on: every interface.
pub const ADDR: [u8; 4] = [0, 0, 0, 0];

/// The decimal digit for `d < 10`.
pub open spec fn digit_char(d: nat) -> char {
    ('0' as nat + d) as char
}

/// The decimal notation of `n`, without leading zeros.
pub open spec fn decimal(n: nat) -> Seq<char>
    decreases n,
{
    if n < 10 {
        seq![digit_char(n)]
    } else {
        decimal(n / 10) + seq![digit_char(n % 10)]
    }
}

/// The URL of a server: `http://<host>:<port>`.
pub open spec fn url_spec(host: Seq<char>, port: u16) -> Seq<char> {
    "http://"@ + host + ":"@ + decimal(port as nat)
}

fn digit_str(d: u16) -> (r: &'static str)
    requires
        d < 10,
    ensures
        r@ == seq![digit_char(d as nat)],
{
    proof {
        reveal_strlit("0");
        reveal_strlit("1");
        reveal_strlit("2");
        reveal_strlit("3");
        reveal_strlit("4");
        reveal_strlit("5");
        reveal_strlit("6");
        reveal_strlit("7");
        reveal_strlit("8");
        reveal_strlit("9");
    }
    let r = match d {
        0 => "0",
        1 => "1",
        2 => "2",
        3 => "3",
        4 => "4",
        5 => "5",
        6 => "6",
        7 => "7",
        8 => "8",
        _ => "9",
    };
    assert(r@ =~= seq![digit_char(d as nat)]);
    r
}

/// Appends the decimal notation of `n`.
fn push_decimal(n: u16, out: &mut String)
    ensures
        final(out)@ == old(out)@ + decimal(n as nat),
    decreases n,
{
    if n >= 10 {
        push_decimal(n / 10, out);
    }
    out.append(digit_str(n % 10));
    assert(final(out)@ =~= old(out)@ + decimal(n as nat));
}

/// The URL of a server on `host` at `port`.
pub fn server_url(host: &str, port: u16) -> (r: String)
    ensures
        r@ == url_spec(host@, port),
{
    let mut out = String::from_str("http://");
    out.append(host);
    out.append(":");
    push_decimal(port, &mut out);
    assert(out@ =~= url_spec(host@, port));
    out
}

/// Where the socket endpoint can be reached, as handed to the front end.
#[derive(Debug, Clone)]
pub struct ServerConfig {
    pub port: u16,
    pub host: String,
}

impl ServerConfig {
    /// The default: the socket port on `localhost`.
    pub fn new() -> (r: ServerConfig)
        ensures
            r.port == SOCKETIO_PORT,
            r.host@ == "localhost"@,
    {
        ServerConfig { port: SOCKETIO_PORT, host: String::from_str("localhost") }
    }

    /// Records where the socket endpoint actually listens.
    pub fn set_info(&mut self, host: String, port: u16)
        ensures
            final(self).host == host,
            final(self).port == port,
    {
        self.host = host;
        self.port = port;
    }

    /// The endpoint's URL.
    pub fn get_url(&self) -> (r: String)
        ensures
            r@ == url_spec(self.host@, self.port),
    {
        server_url(self.host.as_str(), self.port)
    }
}

} // verus!
