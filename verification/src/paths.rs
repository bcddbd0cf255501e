//! Path text handling: expanding a leading `~/` against the home directory,
//! rendering a path home-relative for display, and resolving a user-given
//! target (an index or a path) to an entry. Canonicalisation itself is a
//! filesystem matter; callers pass each path's canonical key in, with the raw
//! path as the fallback key when canonicalisation fails.

use vstd::prelude::*;

use crate::chars::{all_digits, chars_to_string, dec_value, digit_value, is_digit_char,
    string_to_chars};

verus! {

/// The view of an optional string.
pub open spec fn opt_view(o: Option<String>) -> Option<Seq<char>> {
    match o {
        Option::Some(s) => Option::Some(s@),
        Option::None => Option::None,
    }
}

/// What `~/` at the front of an input becomes: the home directory, a
/// separator, and the rest; anything else is kept as it is.
pub open spec fn expand_path_spec(input: Seq<char>, home: Option<Seq<char>>) -> Seq<char> {
    if input.len() >= 2 && input[0] == '~' && input[1] == '/' && home is Some {
        home->0 + seq!['/'] + input.skip(2)
    } else {
        input
    }
}

/// Expands a leading `~/` against the home directory.
pub fn expand_path(input: &Vec<char>, home: &Option<String>) -> (r: String)
    ensures
        r@ == expand_path_spec(input@, opt_view(*home)),
{
    if input.len() >= 2 {
        if input[0] == '~' && input[1] == '/' {
            match home {
                Some(h) => {
                    let mut out = string_to_chars(h.as_str());
                    out.push('/');
                    let mut i: usize = 2;
                    while i < input.len()
                        invariant
                            2 <= i <= input@.len(),
                            out@ == h@ + seq!['/'] + input@.subrange(2, i as int),
                        decreases input.len() - i,
                    {
                        out.push(input[i]);
                        proof {
                            assert(out@ =~= h@ + seq!['/'] + input@.subrange(2, i + 1));
                        }
                        i = i + 1;
                    }
                    proof {
                        assert(input@.subrange(2, input@.len() as int) =~= input@.skip(2));
                        assert(out@ =~= expand_path_spec(input@, opt_view(*home)));
                    }
                    return chars_to_string(&out);
                },
                None => {},
            }
        }
    }
    chars_to_string(input)
}

/// How a path is shown: the home directory itself becomes `~`, a path inside
/// it becomes `~/` and the remainder — first tried on the path as written,
/// then on its canonical key — and any other path is shown as written.
pub open spec fn display_path_spec(path: Seq<char>, key: Seq<char>, home: Option<Seq<char>>) -> Seq<
    char,
> {
    match home {
        Option::None => path,
        Option::Some(h) => {
            if path == h {
                seq!['~']
            } else if (h + seq!['/']).is_prefix_of(path) {
                seq!['~', '/'] + path.skip(h.len() as int + 1)
            } else if key == h {
                seq!['~']
            } else if (h + seq!['/']).is_prefix_of(key) {
                seq!['~', '/'] + key.skip(h.len() as int + 1)
            } else {
                path
            }
        },
    }
}

/// Renders a path for display, exactly as `display_path_spec` states.
pub fn display_path(path: &String, key: &String, home: &Option<String>) -> (r: String)
    ensures
        r@ == display_path_spec(path@, key@, opt_view(*home)),
{
    match home {
        None => {
            let chars = string_to_chars(path.as_str());
            chars_to_string(&chars)
        },
        Some(h) => {
            let pc = string_to_chars(path.as_str());
            let kc = string_to_chars(key.as_str());
            let mut hslash = string_to_chars(h.as_str());
            hslash.push('/');
            proof {
                assert(hslash@ =~= h@ + seq!['/']);
            }
            if path.eq(h) {
                let mut out: Vec<char> = Vec::new();
                out.push('~');
                proof {
                    assert(out@ =~= seq!['~']);
                }
                chars_to_string(&out)
            } else if crate::chars::starts_with_chars(&pc, &hslash) {
                let r = tilde_tail(&pc, hslash.len());
                proof {
                    assert(r@ == seq!['~', '/'] + pc@.skip(hslash@.len() as int));
                }
                r
            } else if key.eq(h) {
                let mut out: Vec<char> = Vec::new();
                out.push('~');
                proof {
                    assert(out@ =~= seq!['~']);
                }
                chars_to_string(&out)
            } else if crate::chars::starts_with_chars(&kc, &hslash) {
                tilde_tail(&kc, hslash.len())
            } else {
                chars_to_string(&pc)
            }
        },
    }
}

/// `~/` followed by everything of `v` from `from` on.
fn tilde_tail(v: &Vec<char>, from: usize) -> (r: String)
    requires
        from <= v@.len(),
    ensures
        r@ == seq!['~', '/'] + v@.skip(from as int),
{
    let mut out: Vec<char> = Vec::new();
    out.push('~');
    out.push('/');
    let mut i: usize = from;
    while i < v.len()
        invariant
            from <= i <= v@.len(),
            out@ == seq!['~', '/'] + v@.subrange(from as int, i as int),
        decreases v.len() - i,
    {
        out.push(v[i]);
        proof {
            assert(out@ =~= seq!['~', '/'] + v@.subrange(from as int, i + 1));
        }
        i = i + 1;
    }
    proof {
        assert(out@ =~= seq!['~', '/'] + v@.skip(from as int));
    }
    chars_to_string(&out)
}

/// What a user-typed target denotes as a one-based index: its number when it
/// is a (possibly `+`-signed) digit run denoting a value between one and the
/// entry count; anything else denotes no index.
pub open spec fn index_target(t: Seq<char>, n: int) -> Option<int> {
    let digits = if t.len() >= 1 && t[0] == '+' {
        t.skip(1)
    } else {
        t
    };
    if digits.len() > 0 && all_digits(digits) && 1 <= dec_value(digits) <= n {
        Option::Some(dec_value(digits) - 1)
    } else {
        Option::None
    }
}

/// Resolves a target to an entry position: a number in range picks that
/// entry (one-based); otherwise the first entry whose canonical key matches
/// the target's canonical key is picked.
pub fn resolve_target(keys: &Vec<String>, target: &str, target_key: &String) -> (r: Option<usize>)
    ensures
        match index_target(target@, keys@.len() as int) {
            Option::Some(i) => r == Option::Some(i as usize),
            Option::None => match r {
                Option::Some(j) => j < keys@.len() && keys@[j as int]@ == target_key@ && forall|
                    k: int,
                |
                    0 <= k < j ==> keys@[k]@ != target_key@,
                Option::None => forall|k: int| 0 <= k < keys@.len() ==> keys@[k]@ != target_key@,
            },
        },
{
    let t = string_to_chars(target);
    let n = keys.len();
    let start: usize = if t.len() >= 1 && t[0] == '+' {
        1
    } else {
        0
    };
    let ghost digits = if t@.len() >= 1 && t@[0] == '+' {
        t@.skip(1)
    } else {
        t@
    };
    proof {
        assert(digits =~= t@.subrange(start as int, t@.len() as int));
    }
    if t.len() > start {
        let mut j: usize = start;
        let mut ok = true;
        let mut value: u64 = 0;
        let mut over = false;
        while j < t.len()
            invariant
                start <= j <= t@.len(),
                digits == t@.subrange(start as int, t@.len() as int),
                n == keys@.len(),
                ok == all_digits(t@.subrange(start as int, j as int)),
                ok ==> {
                    &&& !over ==> value == dec_value(t@.subrange(start as int, j as int)) && value
                        <= n as u64
                    &&& over ==> dec_value(t@.subrange(start as int, j as int)) > n as u64
                },
            decreases t@.len() - j,
        {
            let ghost pre = t@.subrange(start as int, j as int);
            let c = t[j];
            if ok {
                if is_digit_char(c) {
                    let d = digit_value(c);
                    proof {
                        assert(t@.subrange(start as int, j + 1).drop_last() =~= pre);
                        assert(t@.subrange(start as int, j + 1).last() == c);
                    }
                    if !over {
                        let nn = n as u64;
                        let q = nn / 10;
                        let m = nn % 10;
                        proof {
                            assert(nn == 10 * (nn as int / 10) + (nn as int % 10)) by (nonlinear_arith);
                            assert(0 <= nn as int % 10 < 10) by (nonlinear_arith);
                        }
                        if value > q || (value == q && (d as u64) > m) {
                            over = true;
                        } else {
                            proof {
                                assert(value * 10 + d <= nn);
                            }
                            value = value * 10 + (d as u64);
                        }
                    } else {
                        proof {
                            crate::chars::lemma_dec_value_nonneg(pre);
                        }
                    }
                } else {
                    ok = false;
                    proof {
                        let ext = t@.subrange(start as int, j + 1);
                        assert(ext[j - start] == c);
                        assert(!all_digits(ext));
                    }
                }
            } else {
                proof {
                    let ext = t@.subrange(start as int, j + 1);
                    assert(!all_digits(ext)) by {
                        if all_digits(ext) {
                            assert forall|k: int| 0 <= k < pre.len() implies crate::chars::is_digit(
                                #[trigger] pre[k],
                            ) by {
                                assert(pre[k] == ext[k]);
                            }
                        }
                    }
                }
            }
            j = j + 1;
        }
        proof {
            assert(t@.subrange(start as int, t@.len() as int) =~= digits);
        }
        if ok && !over && value >= 1 {
            return Some((value - 1) as usize);
        }
    }
    let mut j: usize = 0;
    while j < n
        invariant
            0 <= j <= n == keys@.len(),
            index_target(t@, n as int) is None,
            t@ == target@,
            forall|k: int| 0 <= k < j ==> keys@[k]@ != target_key@,
        decreases n - j,
    {
        if keys[j].eq(target_key) {
            return Some(j);
        }
        j = j + 1;
    }
    None
}

} // verus!
