//! Plain-text building blocks: decimal rendering of ports, field padding,
//! and the `user@host:port` endpoint label.

use vstd::prelude::*;
use vstd::string::StrSliceExecFns;
use vstd::string::StringExecFns;

verus! {

/// The decimal digit character for `d`.
pub open spec fn spec_digit(d: nat) -> char
    recommends
        d < 10,
{
    if d == 0 {
        '0'
    } else if d == 1 {
        '1'
    } else if d == 2 {
        '2'
    } else if d == 3 {
        '3'
    } else if d == 4 {
        '4'
    } else if d == 5 {
        '5'
    } else if d == 6 {
        '6'
    } else if d == 7 {
        '7'
    } else if d == 8 {
        '8'
    } else {
        '9'
    }
}

/// The decimal notation of `n`, without leading zeros (a single zero for 0).
pub open spec fn spec_dec(n: nat) -> Seq<char>
    decreases n,
{
    if n < 10 {
        seq![spec_digit(n)]
    } else {
        spec_dec(n / 10).push(spec_digit(n % 10))
    }
}

fn digit_str(d: u16) -> (r: &'static str)
    requires
        d < 10,
    ensures
        r@ == seq![spec_digit(d as nat)],
{
    proof {
        reveal_strlit("0");
        reveal_strlit("1");
        reveal_strlit("2");
        reveal_strlit("3");
        reveal_strlit("4");
        reveal_strlit("5");
        reveal_strlit("6");
        reveal_strlit("7");
        reveal_strlit("8");
        reveal_strlit("9");
    }
    let r: &'static str = if d == 0 {
        "0"
    } else if d == 1 {
        "1"
    } else if d == 2 {
        "2"
    } else if d == 3 {
        "3"
    } else if d == 4 {
        "4"
    } else if d == 5 {
        "5"
    } else if d == 6 {
        "6"
    } else if d == 7 {
        "7"
    } else if d == 8 {
        "8"
    } else {
        "9"
    };
    proof {
        assert(r@ =~= seq![spec_digit(d as nat)]);
    }
    r
}

/// Renders `n` in decimal.
pub fn u16_to_dec(n: u16) -> (r: String)
    ensures
        r@ == spec_dec(n as nat),
    decreases n,
{
    if n < 10 {
        let r: String = digit_str(n).to_owned();
        r
    } else {
        let mut r = u16_to_dec(n / 10);
        proof {
            assert(n / 10 == (n as nat) / 10);
            assert(n % 10 == (n as nat) % 10);
        }
        r.append(digit_str(n % 10));
        proof {
            assert(spec_dec((n as nat) / 10) + seq![spec_digit((n as nat) % 10)]
                =~= spec_dec((n as nat) / 10).push(spec_digit((n as nat) % 10)));
        }
        r
    }
}

/// `n` space characters.
pub open spec fn spec_spaces(n: nat) -> Seq<char> {
    Seq::new(n, |i: int| ' ')
}

/// `s` padded on the right with spaces to at least `w` characters; text
/// already that wide is left as it is.
pub open spec fn spec_pad_right(s: Seq<char>, w: nat) -> Seq<char> {
    if s.len() >= w {
        s
    } else {
        s + spec_spaces((w - s.len()) as nat)
    }
}

/// Pads `s` on the right with spaces to at least `w` characters.
#[verifier::loop_isolation(false)]
pub fn pad_right(s: &str, w: usize) -> (r: String)
    ensures
        r@ == spec_pad_right(s@, w as nat),
{
    proof {
        reveal_strlit(" ");
    }
    let mut r: String = s.to_owned();
    let mut cnt = s.unicode_len();
    proof {
        assert(s@ + spec_spaces(0) =~= s@);
    }
    while cnt < w
        invariant
            s@.len() <= cnt,
            r@ == s@ + spec_spaces((cnt - s@.len()) as nat),
            cnt <= w || cnt == s@.len(),
        decreases w - cnt,
    {
        r.append(" ");
        proof {
            assert(s@ + spec_spaces((cnt - s@.len()) as nat) + " "@
                =~= s@ + spec_spaces((cnt + 1 - s@.len()) as nat));
        }
        cnt = cnt + 1;
    }
    r
}

/// The `user@host:port` label of a profile.
pub open spec fn spec_endpoint(user: Seq<char>, host: Seq<char>, port: u16) -> Seq<char> {
    user + "@"@ + host + ":"@ + spec_dec(port as nat)
}

/// Builds the `user@host:port` label.
pub fn endpoint_string(username: &str, hostname: &str, port: u16) -> (r: String)
    ensures
        r@ == spec_endpoint(username@, hostname@, port),
{
    let mut r: String = username.to_owned();
    r.append("@");
    r.append(hostname);
    r.append(":");
    let p = u16_to_dec(port);
    r.append(p.as_str());
    proof {
        assert(r@ =~= spec_endpoint(username@, hostname@, port));
    }
    r
}

} // verus!
