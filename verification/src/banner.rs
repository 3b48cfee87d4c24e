//! The address the relay is reached at, and the start-up banner that shows it.

use vstd::prelude::*;
use vstd::string::StringSliceAdditionalSpecFns;

verus! {

/// The decimal digit `d`.
pub open spec fn digit(d: nat) -> char {
    (48 + d) as char
}

/// The decimal text of `n`, without leading zeros.
pub open spec fn decimal(n: nat) -> Seq<char>
    decreases n,
{
    if n < 10 {
        seq![digit(n)]
    } else {
        decimal(n / 10).push(digit(n % 10))
    }
}

fn digit_text(d: u16) -> (r: &'static str)
    requires
        d < 10,
    ensures
        r@ == seq![digit(d as nat)],
{
    if d == 0 {
        proof {
            reveal_strlit("0");
        }
        assert("0"@ =~= seq![digit(0)]);
        "0"
    } else if d == 1 {
        proof {
            reveal_strlit("1");
        }
        assert("1"@ =~= seq![digit(1)]);
        "1"
    } else if d == 2 {
        proof {
            reveal_strlit("2");
        }
        assert("2"@ =~= seq![digit(2)]);
        "2"
    } else if d == 3 {
        proof {
            reveal_strlit("3");
        }
        assert("3"@ =~= seq![digit(3)]);
        "3"
    } else if d == 4 {
        proof {
            reveal_strlit("4");
        }
        assert("4"@ =~= seq![digit(4)]);
        "4"
    } else if d == 5 {
        proof {
            reveal_strlit("5");
        }
        assert("5"@ =~= seq![digit(5)]);
        "5"
    } else if d == 6 {
        proof {
            reveal_strlit("6");
        }
        assert("6"@ =~= seq![digit(6)]);
        "6"
    } else if d == 7 {
        proof {
            reveal_strlit("7");
        }
        assert("7"@ =~= seq![digit(7)]);
        "7"
    } else if d == 8 {
        proof {
            reveal_strlit("8");
        }
        assert("8"@ =~= seq![digit(8)]);
        "8"
    } else {
        proof {
            reveal_strlit("9");
        }
        assert("9"@ =~= seq![digit(9)]);
        "9"
    }
}

/// The decimal text of a port number.
pub fn port_text(port: u16) -> (r: String)
    ensures
        r@ == decimal(port as nat),
    decreases port,
{
    if port < 10 {
        digit_text(port).to_owned()
    } else {
        let head = port_text(port / 10);
        let r = head.concat(digit_text(port % 10));
        assert(r@ =~= decimal(port as nat));
        r
    }
}

/// The host the relay is announced under: the machine's local address, or `localhost`.
pub open spec fn host_of(local_ip: Option<Seq<char>>) -> Seq<char> {
    match local_ip {
        Some(ip) => ip,
        None => "localhost"@,
    }
}

/// The address the relay is announced under, `http://{host}:{port}`.
pub open spec fn url_of(local_ip: Option<Seq<char>>, port: u16) -> Seq<char> {
    "http://"@ + host_of(local_ip) + ":"@ + decimal(port as nat)
}

/// The address the relay is announced under: the machine's local address (or
/// `localhost` when it has none) and the port it listens on.
pub fn build_url(local_ip: Option<String>, port: u16) -> (r: String)
    ensures
        r@ == url_of(crate::protocol::opt_string(local_ip), port),
{
    let host = match local_ip {
        Some(ip) => ip,
        None => "localhost".to_owned(),
    };
    let r = "http://".to_owned().concat(host.as_str()).concat(":").concat(port_text(port).as_str());
    r
}

/// The text of the QR code that encodes `data`, drawn with its quiet zone,
/// each module two characters wide and one line high; `None` when `data`
/// does not fit in a QR code.
pub uninterp spec fn qr_text(data: Seq<u8>) -> Option<Seq<char>>;

/// Encodes `data` with `qrcode::QrCode::new` (error correction level M, the
/// smallest version that fits) and draws it as text with the code's renderer:
/// quiet zone on, modules two characters wide and one line high. The contract
/// names the drawing `qr_text`; what it looks like is not stated. `None` when
/// `QrCode::new` fails, which its documentation says happens when the data is
/// too long.
#[verifier::external_body]
fn render_qr(data: &[u8]) -> (r: Option<String>)
    ensures
        match r {
            Some(t) => qr_text(data@) == Some(t@),
            None => qr_text(data@) is None,
        },
{
    match qrcode::QrCode::new(data) {
        Ok(code) => Some(code.render::<char>().quiet_zone(true).module_dimensions(2, 1).build()),
        Err(_) => None,
    }
}

/// The start-up banner: the name and version, the address, the QR code of the
/// address when it fits in one, and how to use and stop the relay.
pub open spec fn banner_text(url: Seq<char>, qr: Option<Seq<char>>) -> Seq<char> {
    "\n  codex-rc v0.2\n  ────────────────────────────\n  URL: "@ + url + "\n\n"@ + match qr {
        Some(q) => q + "\n"@,
        None => Seq::empty(),
    } + "\n  Scan QR or open URL on your phone\n  Press Ctrl+C to stop\n\n"@
}

/// The start-up banner shown for the address `url`.
pub fn banner(url: &str) -> (r: String)
    ensures
        r@ == banner_text(url@, qr_text(url.spec_bytes())),
{
    let head = "\n  codex-rc v0.2\n  ────────────────────────────\n  URL: ".to_owned().concat(
        url,
    ).concat("\n\n");
    let with_code = match render_qr(url.as_bytes()) {
        Some(q) => head.concat(q.as_str()).concat("\n"),
        None => head,
    };
    let r = with_code.concat("\n  Scan QR or open URL on your phone\n  Press Ctrl+C to stop\n\n");
    proof {
        match qr_text(url.spec_bytes()) {
            Some(q) => {
                assert(r@ =~= banner_text(url@, qr_text(url.spec_bytes())));
            },
            None => {
                assert(r@ =~= banner_text(url@, qr_text(url.spec_bytes())));
            },
        }
    }
    r
}

} // verus!
