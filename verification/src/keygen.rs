//! Deterministic cache keys for the history search path.
//!
//! A query's non-empty fields are laid out in a fixed order as a canonical
//! query string; an absent field and an empty one read identically, so equal
//! logical queries always hash to the same key. The hash is a fast
//! non-cryptographic fold (FNV-style), so distinct queries can collide: the
//! design accepts a bounded false-cache-hit probability in exchange for
//! speed.

use vstd::prelude::*;
use vstd::string::StrSliceExecFns;
use vstd::string::StringExecFns;
use vstd::wrapping::u64_specs;

verus! {

pub const FNV_OFFSET_BASIS: u64 = 0xcbf29ce484222325;

pub const FNV_PRIME: u64 = 0x100000001b3;

/// The hash of a string: an FNV-1a-style fold over its characters, each
/// folded in as its code point.
pub open spec fn string_hash(s: Seq<char>) -> u64
    decreases s.len(),
{
    if s.len() == 0 {
        FNV_OFFSET_BASIS
    } else {
        u64_specs::wrapping_mul(string_hash(s.drop_last()) ^ (s.last() as u64), FNV_PRIME)
    }
}

/// The character for one digit value (decimal digits first, then the
/// lower-case hex letters).
pub open spec fn digit_char(d: int) -> char {
    if d == 0 {
        '0'
    } else if d == 1 {
        '1'
    } else if d == 2 {
        '2'
    } else if d == 3 {
        '3'
    } else if d == 4 {
        '4'
    } else if d == 5 {
        '5'
    } else if d == 6 {
        '6'
    } else if d == 7 {
        '7'
    } else if d == 8 {
        '8'
    } else if d == 9 {
        '9'
    } else if d == 10 {
        'a'
    } else if d == 11 {
        'b'
    } else if d == 12 {
        'c'
    } else if d == 13 {
        'd'
    } else if d == 14 {
        'e'
    } else {
        'f'
    }
}

/// `n` written in lower-case hex, most significant digit first, no leading
/// zeros (a single `0` for zero).
pub open spec fn hex_rep(n: nat) -> Seq<char>
    decreases n,
{
    if n < 16 {
        seq![digit_char(n as int)]
    } else {
        hex_rep(n / 16) + seq![digit_char((n % 16) as int)]
    }
}

/// `n` written in decimal, most significant digit first.
pub open spec fn dec_rep(n: nat) -> Seq<char>
    decreases n,
{
    if n < 10 {
        seq![digit_char(n as int)]
    } else {
        dec_rep(n / 10) + seq![digit_char((n % 10) as int)]
    }
}

/// A signed number in decimal, with a leading minus sign when negative.
pub open spec fn int_rep(n: int) -> Seq<char> {
    if n < 0 {
        seq!['-'] + dec_rep((-n) as nat)
    } else {
        dec_rep(n as nat)
    }
}

/// How an optional text field reads: absent and empty are the same.
pub open spec fn opt_str_view(o: Option<String>) -> Seq<char> {
    match o {
        Some(s) => s@,
        None => Seq::empty(),
    }
}

/// One optional query parameter: nothing when the value is empty, otherwise
/// `name=value` followed by the separator for the next parameter.
pub open spec fn opt_param(name_eq: Seq<char>, value: Seq<char>) -> Seq<char> {
    if value.len() == 0 {
        Seq::empty()
    } else {
        name_eq + value + "&"@
    }
}

/// The canonical query string for a history search: only non-empty fields,
/// in a fixed order, with the paging fields always present.
pub open spec fn canonical_query(
    keyword: Seq<char>,
    domain: Seq<char>,
    start_date: Seq<char>,
    end_date: Seq<char>,
    page: int,
    page_size: int,
) -> Seq<char> {
    "/api/history?"@ + opt_param("keyword="@, keyword) + opt_param("domain="@, domain) + opt_param(
        "startDate="@,
        start_date,
    ) + opt_param("endDate="@, end_date) + "page="@ + int_rep(page) + "&pageSize="@ + int_rep(
        page_size,
    )
}

/// The cache key for a history search: the canonical query string's hash in
/// hex, under a fixed prefix.
pub open spec fn history_key_of(
    keyword: Seq<char>,
    domain: Seq<char>,
    start_date: Seq<char>,
    end_date: Seq<char>,
    page: int,
    page_size: int,
) -> Seq<char> {
    "history:url:"@ + hex_rep(
        string_hash(canonical_query(keyword, domain, start_date, end_date, page, page_size)) as nat,
    )
}

/// Cache key determinism: the key reads each optional field only through its
/// text, with absent and empty identical — queries that agree that way get
/// the same key, whatever else their `Option` wrappers look like.
pub proof fn lemma_key_ignores_absent_vs_empty(
    kw_a: Option<String>,
    kw_b: Option<String>,
    dom_a: Option<String>,
    dom_b: Option<String>,
    sd_a: Option<String>,
    sd_b: Option<String>,
    ed_a: Option<String>,
    ed_b: Option<String>,
    page: int,
    page_size: int,
)
    requires
        opt_str_view(kw_a) == opt_str_view(kw_b),
        opt_str_view(dom_a) == opt_str_view(dom_b),
        opt_str_view(sd_a) == opt_str_view(sd_b),
        opt_str_view(ed_a) == opt_str_view(ed_b),
    ensures
        history_key_of(
            opt_str_view(kw_a),
            opt_str_view(dom_a),
            opt_str_view(sd_a),
            opt_str_view(ed_a),
            page,
            page_size,
        ) == history_key_of(
            opt_str_view(kw_b),
            opt_str_view(dom_b),
            opt_str_view(sd_b),
            opt_str_view(ed_b),
            page,
            page_size,
        ),
{
}

/// Appends the character for digit value `d`.
fn push_digit(s: &mut String, d: u64)
    requires
        d < 16,
    ensures
        final(s)@ == old(s)@ + seq![digit_char(d as int)],
{
    match d {
        0 => {
            s.append("0");
            proof {
                reveal_strlit("0");
                assert(final(s)@ =~= old(s)@ + seq![digit_char(d as int)]);
            }
        },
        1 => {
            s.append("1");
            proof {
                reveal_strlit("1");
                assert(final(s)@ =~= old(s)@ + seq![digit_char(d as int)]);
            }
        },
        2 => {
            s.append("2");
            proof {
                reveal_strlit("2");
                assert(final(s)@ =~= old(s)@ + seq![digit_char(d as int)]);
            }
        },
        3 => {
            s.append("3");
            proof {
                reveal_strlit("3");
                assert(final(s)@ =~= old(s)@ + seq![digit_char(d as int)]);
            }
        },
        4 => {
            s.append("4");
            proof {
                reveal_strlit("4");
                assert(final(s)@ =~= old(s)@ + seq![digit_char(d as int)]);
            }
        },
        5 => {
            s.append("5");
            proof {
                reveal_strlit("5");
                assert(final(s)@ =~= old(s)@ + seq![digit_char(d as int)]);
            }
        },
        6 => {
            s.append("6");
            proof {
                reveal_strlit("6");
                assert(final(s)@ =~= old(s)@ + seq![digit_char(d as int)]);
            }
        },
        7 => {
            s.append("7");
            proof {
                reveal_strlit("7");
                assert(final(s)@ =~= old(s)@ + seq![digit_char(d as int)]);
            }
        },
        8 => {
            s.append("8");
            proof {
                reveal_strlit("8");
                assert(final(s)@ =~= old(s)@ + seq![digit_char(d as int)]);
            }
        },
        9 => {
            s.append("9");
            proof {
                reveal_strlit("9");
                assert(final(s)@ =~= old(s)@ + seq![digit_char(d as int)]);
            }
        },
        10 => {
            s.append("a");
            proof {
                reveal_strlit("a");
                assert(final(s)@ =~= old(s)@ + seq![digit_char(d as int)]);
            }
        },
        11 => {
            s.append("b");
            proof {
                reveal_strlit("b");
                assert(final(s)@ =~= old(s)@ + seq![digit_char(d as int)]);
            }
        },
        12 => {
            s.append("c");
            proof {
                reveal_strlit("c");
                assert(final(s)@ =~= old(s)@ + seq![digit_char(d as int)]);
            }
        },
        13 => {
            s.append("d");
            proof {
                reveal_strlit("d");
                assert(final(s)@ =~= old(s)@ + seq![digit_char(d as int)]);
            }
        },
        14 => {
            s.append("e");
            proof {
                reveal_strlit("e");
                assert(final(s)@ =~= old(s)@ + seq![digit_char(d as int)]);
            }
        },
        _ => {
            s.append("f");
            proof {
                reveal_strlit("f");
                assert(final(s)@ =~= old(s)@ + seq![digit_char(d as int)]);
            }
        },
    }
}

/// Appends `n` in lower-case hex.
fn push_hex_u64(s: &mut String, n: u64)
    ensures
        final(s)@ == old(s)@ + hex_rep(n as nat),
    decreases n,
{
    if n < 16 {
        push_digit(s, n);
    } else {
        push_hex_u64(s, n / 16);
        push_digit(s, n % 16);
        proof {
            assert(final(s)@ =~= old(s)@ + hex_rep(n as nat));
        }
    }
}

/// Appends `n` in decimal.
fn push_dec_u64(s: &mut String, n: u64)
    ensures
        final(s)@ == old(s)@ + dec_rep(n as nat),
    decreases n,
{
    if n < 10 {
        push_digit(s, n);
    } else {
        push_dec_u64(s, n / 10);
        push_digit(s, n % 10);
        proof {
            assert(final(s)@ =~= old(s)@ + dec_rep(n as nat));
        }
    }
}

/// Appends a signed number in decimal.
fn push_i32_decimal(s: &mut String, v: i32)
    ensures
        final(s)@ == old(s)@ + int_rep(v as int),
{
    let w: i64 = v as i64;
    if w < 0 {
        s.append("-");
        push_dec_u64(s, (-w) as u64);
        proof {
            reveal_strlit("-");
            assert("-"@ =~= seq!['-']);
            assert(final(s)@ =~= old(s)@ + int_rep(v as int));
        }
    } else {
        push_dec_u64(s, w as u64);
    }
}

/// Appends one optional query parameter as `opt_param` lays it out.
fn append_opt_param(s: &mut String, name_eq: &str, value: &Option<String>)
    ensures
        final(s)@ == old(s)@ + opt_param(name_eq@, opt_str_view(*value)),
{
    match value {
        Some(v) => {
            if v.as_str().is_empty() {
                proof {
                    assert(final(s)@ =~= old(s)@ + opt_param(name_eq@, opt_str_view(*value)));
                }
            } else {
                s.append(name_eq);
                s.append(v.as_str());
                s.append("&");
                proof {
                    assert(final(s)@ =~= old(s)@ + opt_param(name_eq@, opt_str_view(*value)));
                }
            }
        },
        None => {
            proof {
                assert(final(s)@ =~= old(s)@ + opt_param(name_eq@, opt_str_view(*value)));
            }
        },
    }
}

/// Generates the cache keys the search path uses.
pub struct CacheKeyGenerator;

impl CacheKeyGenerator {
    /// The hash the keys are built on: deterministic, fast, and
    /// non-cryptographic, so collisions are possible by design.
    pub fn hash_string(s: &str) -> (r: u64)
        ensures
            r == string_hash(s@),
    {
        let n = s.unicode_len();
        let mut h: u64 = FNV_OFFSET_BASIS;
        let mut i: usize = 0;
        while i < n
            invariant
                i <= n,
                n == s@.len(),
                h == string_hash(s@.take(i as int)),
            decreases n - i,
        {
            let c = s.get_char(i);
            proof {
                assert(s@.take(i as int + 1).drop_last() =~= s@.take(i as int));
                assert(s@.take(i as int + 1).last() == s@[i as int]);
            }
            h = (h ^ (c as u64)).wrapping_mul(FNV_PRIME);
            i = i + 1;
        }
        proof {
            assert(s@.take(n as int) =~= s@);
        }
        h
    }

    /// The cache key for a history search: equal logical queries — with
    /// absent and empty fields read alike — always get equal keys.
    pub fn history_search_key(
        keyword: &Option<String>,
        domain: &Option<String>,
        start_date: &Option<String>,
        end_date: &Option<String>,
        page: i32,
        page_size: i32,
    ) -> (r: String)
        ensures
            r@ == history_key_of(
                opt_str_view(*keyword),
                opt_str_view(*domain),
                opt_str_view(*start_date),
                opt_str_view(*end_date),
                page as int,
                page_size as int,
            ),
    {
        let mut q = String::new();
        q.append("/api/history?");
        append_opt_param(&mut q, "keyword=", keyword);
        append_opt_param(&mut q, "domain=", domain);
        append_opt_param(&mut q, "startDate=", start_date);
        append_opt_param(&mut q, "endDate=", end_date);
        q.append("page=");
        push_i32_decimal(&mut q, page);
        q.append("&pageSize=");
        push_i32_decimal(&mut q, page_size);
        proof {
            assert(q@ =~= canonical_query(
                opt_str_view(*keyword),
                opt_str_view(*domain),
                opt_str_view(*start_date),
                opt_str_view(*end_date),
                page as int,
                page_size as int,
            ));
        }
        let h = Self::hash_string(q.as_str());
        let mut key = String::new();
        key.append("history:url:");
        push_hex_u64(&mut key, h);
        proof {
            assert(key@ =~= history_key_of(
                opt_str_view(*keyword),
                opt_str_view(*domain),
                opt_str_view(*start_date),
                opt_str_view(*end_date),
                page as int,
                page_size as int,
            ));
        }
        key
    }
}

} // verus!
