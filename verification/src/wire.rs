//! Construction of the URLs this subsystem hands out: the announce URL
//! given to torrent clients, and the three administrative request URLs
//! sent to the tracker. Every builder is specified down to the exact
//! character sequence it produces.

use vstd::prelude::*;
use vstd::string::StringExecFns;

verus! {

/// The decimal digit character for `d` (`d < 10`).
pub open spec fn dec_digit(d: nat) -> char {
    if d == 0 {
        '0'
    } else if d == 1 {
        '1'
    } else if d == 2 {
        '2'
    } else if d == 3 {
        '3'
    } else if d == 4 {
        '4'
    } else if d == 5 {
        '5'
    } else if d == 6 {
        '6'
    } else if d == 7 {
        '7'
    } else if d == 8 {
        '8'
    } else {
        '9'
    }
}

/// The decimal rendering of `n`, most significant digit first, with no
/// leading zeros (a lone `'0'` for zero).
pub open spec fn dec_seq(n: nat) -> Seq<char>
    decreases n,
{
    if n < 10 {
        seq![dec_digit(n)]
    } else {
        dec_seq(n / 10).push(dec_digit(n % 10))
    }
}

fn dec_digit_str(d: u64) -> (r: &'static str)
    requires
        d < 10,
    ensures
        r@ == seq![dec_digit(d as nat)],
{
    proof {
        reveal_strlit("0");
        reveal_strlit("1");
        reveal_strlit("2");
        reveal_strlit("3");
        reveal_strlit("4");
        reveal_strlit("5");
        reveal_strlit("6");
        reveal_strlit("7");
        reveal_strlit("8");
        reveal_strlit("9");
    }
    let r: &'static str = if d == 0 {
        "0"
    } else if d == 1 {
        "1"
    } else if d == 2 {
        "2"
    } else if d == 3 {
        "3"
    } else if d == 4 {
        "4"
    } else if d == 5 {
        "5"
    } else if d == 6 {
        "6"
    } else if d == 7 {
        "7"
    } else if d == 8 {
        "8"
    } else {
        "9"
    };
    proof {
        assert(r@ =~= seq![dec_digit(d as nat)]);
    }
    r
}

/// Renders `n` in decimal, matching `dec_seq`.
pub fn u64_to_dec(n: u64) -> (r: String)
    ensures
        r@ == dec_seq(n as nat),
    decreases n,
{
    if n < 10 {
        dec_digit_str(n).to_owned()
    } else {
        proof {
            assert(n / 10 < n) by (nonlinear_arith)
                requires
                    n >= 10,
            ;
        }
        let mut s = u64_to_dec(n / 10);
        s.append(dec_digit_str(n % 10));
        proof {
            assert(s@ =~= dec_seq(n as nat));
        }
        s
    }
}

/// The announce URL handed to a torrent client: the tracker's public
/// base URL with the user's key appended as one path segment. The URL
/// is a bearer credential — there is no separate signature.
pub open spec fn announce_url_seq(base: Seq<char>, key: Seq<char>) -> Seq<char> {
    base + "/"@ + key
}

pub fn announce_url(base: &str, key: &str) -> (r: String)
    ensures
        r@ == announce_url_seq(base@, key@),
{
    let mut s = base.to_owned();
    s.append("/");
    s.append(key);
    proof {
        assert(s@ =~= announce_url_seq(base@, key@));
    }
    s
}

/// Administrative request that asks the tracker to issue a fresh key
/// with the given TTL; the shared token rides as a query parameter.
pub open spec fn issue_key_url_seq(api_url: Seq<char>, ttl_seconds: nat, token: Seq<char>) -> Seq<
    char,
> {
    api_url + "/api/key/"@ + dec_seq(ttl_seconds) + "?token="@ + token
}

pub fn issue_key_url(api_url: &str, ttl_seconds: u64, token: &str) -> (r: String)
    ensures
        r@ == issue_key_url_seq(api_url@, ttl_seconds as nat, token@),
{
    let mut s = api_url.to_owned();
    s.append("/api/key/");
    let ttl = u64_to_dec(ttl_seconds);
    s.append(ttl.as_str());
    s.append("?token=");
    s.append(token);
    proof {
        assert(s@ =~= issue_key_url_seq(api_url@, ttl_seconds as nat, token@));
    }
    s
}

/// Administrative request that registers an info-hash as eligible for
/// tracking.
pub open spec fn whitelist_url_seq(api_url: Seq<char>, info_hash: Seq<char>, token: Seq<
    char,
>) -> Seq<char> {
    api_url + "/api/whitelist/"@ + info_hash + "?token="@ + token
}

pub fn whitelist_url(api_url: &str, info_hash: &str, token: &str) -> (r: String)
    ensures
        r@ == whitelist_url_seq(api_url@, info_hash@, token@),
{
    let mut s = api_url.to_owned();
    s.append("/api/whitelist/");
    s.append(info_hash);
    s.append("?token=");
    s.append(token);
    proof {
        assert(s@ =~= whitelist_url_seq(api_url@, info_hash@, token@));
    }
    s
}

/// Administrative request that fetches live swarm statistics for an
/// info-hash.
pub open spec fn swarm_url_seq(api_url: Seq<char>, info_hash: Seq<char>, token: Seq<
    char,
>) -> Seq<char> {
    api_url + "/api/torrent/"@ + info_hash + "?token="@ + token
}

pub fn swarm_url(api_url: &str, info_hash: &str, token: &str) -> (r: String)
    ensures
        r@ == swarm_url_seq(api_url@, info_hash@, token@),
{
    let mut s = api_url.to_owned();
    s.append("/api/torrent/");
    s.append(info_hash);
    s.append("?token=");
    s.append(token);
    proof {
        assert(s@ =~= swarm_url_seq(api_url@, info_hash@, token@));
    }
    s
}

} // verus!
