use vstd::prelude::*;

use crate::text::{decimal, digit_char, stage_text, version_text};
use crate::version::{Stage, Version};

verus! {

pub open spec fn is_digit(c: char) -> bool {
    '0' <= c && c <= '9'
}

pub open spec fn digit_value(c: char) -> int {
    (c as int) - ('0' as int)
}

/// The number that a run of decimal digits denotes.
pub open spec fn digits_value(d: Seq<char>) -> int
    decreases d.len(),
{
    if d.len() == 0 {
        0
    } else {
        digits_value(d.drop_last()) * 10 + digit_value(d.last())
    }
}

pub open spec fn all_digits(d: Seq<char>) -> bool {
    forall|k: int| 0 <= k < d.len() ==> is_digit(#[trigger] d[k])
}

/// A run of digits as `decimal` writes it: not empty, no leading zero.
pub open spec fn canonical(d: Seq<char>) -> bool {
    &&& d.len() >= 1
    &&& all_digits(d)
    &&& (d.len() > 1 ==> d[0] != '0')
}

proof fn lemma_digit_char(d: int)
    requires
        0 <= d < 10,
    ensures
        is_digit(digit_char(d)),
        digit_value(digit_char(d)) == d,
{
}

proof fn lemma_char_digit(c: char)
    requires
        is_digit(c),
    ensures
        digit_char(digit_value(c)) == c,
{
    assert(('0' as int) == 48);
    assert(('9' as int) == 57);
    let v = digit_value(c);
    assert(0 <= v < 10);
    assert(c as int == v + 48);
    if v == 0 {
        assert(c == '0');
    } else if v == 1 {
        assert(c == '1');
    } else if v == 2 {
        assert(c == '2');
    } else if v == 3 {
        assert(c == '3');
    } else if v == 4 {
        assert(c == '4');
    } else if v == 5 {
        assert(c == '5');
    } else if v == 6 {
        assert(c == '6');
    } else if v == 7 {
        assert(c == '7');
    } else if v == 8 {
        assert(c == '8');
    } else {
        assert(c == '9');
    }
}

/// `decimal(n)` is a canonical run of digits that denotes `n`.
pub proof fn lemma_decimal_canonical(n: nat)
    ensures
        canonical(decimal(n)),
        digits_value(decimal(n)) == n,
    decreases n,
{
    if n < 10 {
        lemma_digit_char(n as int);
        assert(decimal(n).drop_last() =~= Seq::<char>::empty());
        assert(decimal(n).last() == digit_char(n as int));
        assert(digits_value(decimal(n)) == digits_value(decimal(n).drop_last()) * 10 + digit_value(
            decimal(n).last(),
        ));
        assert(digits_value(Seq::<char>::empty()) == 0);
    } else {
        let m = n / 10;
        lemma_decimal_canonical(m);
        lemma_digit_char((n % 10) as int);
        let p = decimal(m);
        assert(decimal(n).drop_last() =~= p);
        assert(decimal(n).last() == digit_char((n % 10) as int));
        assert(m * 10 + n % 10 == n);
        assert(digits_value(decimal(n)) == digits_value(decimal(n).drop_last()) * 10 + digit_value(
            decimal(n).last(),
        ));
        if m < 10 {
            lemma_digit_char(m as int);
            assert(p[0] == digit_char(m as int));
            assert(m != 0);
            assert(p[0] != '0');
        } else {
            lemma_decimal_canonical(m / 10);
            assert(p.len() >= 2);
        }
        assert(decimal(n)[0] == p[0]);
    }
}

proof fn lemma_canonical_positive(d: Seq<char>)
    requires
        d.len() >= 1,
        all_digits(d),
        d[0] != '0',
    ensures
        digits_value(d) >= 1,
    decreases d.len(),
{
    let p = d.drop_last();
    assert(is_digit(d.last()));
    if d.len() > 1 {
        assert(all_digits(p));
        assert(p[0] == d[0]);
        lemma_canonical_positive(p);
    } else {
        assert(d.last() == d[0]);
        assert(digits_value(p) == 0);
    }
}

/// A canonical run of digits is what `decimal` writes for its value.
pub proof fn lemma_canonical_decimal(d: Seq<char>)
    requires
        canonical(d),
    ensures
        digits_value(d) >= 0,
        decimal(digits_value(d) as nat) == d,
    decreases d.len(),
{
    let p = d.drop_last();
    let x = digit_value(d.last());
    assert(is_digit(d.last()));
    lemma_char_digit(d.last());
    if d.len() == 1 {
        assert(digits_value(p) == 0);
        assert(decimal(x as nat) =~= d);
    } else {
        assert(all_digits(p));
        assert(p[0] == d[0]);
        lemma_canonical_decimal(p);
        lemma_canonical_positive(p);
        let a = digits_value(p);
        let v = a * 10 + x;
        assert(v / 10 == a && v % 10 == x) by (nonlinear_arith)
            requires
                0 <= x < 10,
                a >= 1,
                v == a * 10 + x,
        ;
        assert(v >= 10);
        assert(decimal(v as nat) == decimal((v / 10) as nat) + seq![digit_char(v % 10)]);
        assert(decimal(v as nat) =~= d);
    }
}

/// A prefix of a run of digits denotes no more than the whole run.
pub proof fn lemma_prefix_value(d: Seq<char>, k: int)
    requires
        all_digits(d),
        0 <= k <= d.len(),
    ensures
        0 <= digits_value(d.subrange(0, k)) <= digits_value(d),
    decreases d.len(),
{
    if d.len() > 0 {
        let p = d.drop_last();
        assert(all_digits(p));
        assert(is_digit(d.last()));
        lemma_prefix_value(p, if k == d.len() { 0 } else { k });
        if k == d.len() {
            assert(d.subrange(0, k) =~= d);
        } else {
            assert(d.subrange(0, k) =~= p.subrange(0, k));
        }
        assert(digits_value(p) * 10 >= digits_value(p)) by (nonlinear_arith)
            requires
                digits_value(p) >= 0,
        ;
    }
}

fn digit_at(t: &str, j: usize) -> (r: bool)
    requires
        j < t@.len(),
    ensures
        r == is_digit(t@[j as int]),
{
    let c = t.get_char(j);
    '0' <= c && c <= '9'
}

/// Reads the run of digits that starts at `i` in `t`: its value and where it
/// ends, when it is canonical and fits in a `u64`.
pub fn scan_number(t: &str, i: usize) -> (r: Option<(u64, usize)>)
    requires
        i <= t@.len(),
    ensures
        r matches Some((n, j)) ==> {
            &&& i < j <= t@.len()
            &&& t@.subrange(i as int, j as int) == decimal(n as nat)
            &&& (j == t@.len() || !is_digit(t@[j as int]))
        },
        forall|n: u64, j: int|
            #![trigger t@.subrange(i as int, j), decimal(n as nat)]
            i < j <= t@.len() && t@.subrange(i as int, j) == decimal(n as nat) && (j
                == t@.len() || !is_digit(t@[j])) ==> r == Some((n, j as usize)),
{
    let len = t.unicode_len();
    let mut j: usize = i;
    while j < len && digit_at(t, j)
        invariant
            i <= j <= len,
            len == t@.len(),
            all_digits(t@.subrange(i as int, j as int)),
        decreases len - j,
    {
        proof {
            assert(t@.subrange(i as int, j + 1) =~= t@.subrange(i as int, j as int).push(t@[j as int]));
        }
        j = j + 1;
    }
    let ghost run = t@.subrange(i as int, j as int);
    proof {
        assert forall|n: u64, k: int|
            #![trigger t@.subrange(i as int, k), decimal(n as nat)]
            i < k <= t@.len() && t@.subrange(i as int, k) == decimal(n as nat) && (k
                == t@.len() || !is_digit(t@[k])) implies k == j && run == decimal(n as nat) && canonical(
                run,
            ) by {
            lemma_decimal_canonical(n as nat);
            let dn = decimal(n as nat);
            if k < j {
                assert(run[k - i] == t@[k]);
            } else if k > j {
                assert(dn[j - i] == t@[j as int]);
            }
            assert(run =~= t@.subrange(i as int, k));
        }
    }
    if j == i {
        return None;
    }
    proof {
        if j > i {
            assert(run[0] == t@[i as int]);
        }
    }
    if j - i > 1 && t.get_char(i) == '0' {
        return None;
    }
    assert(canonical(run));
    proof {
        lemma_canonical_decimal(run);
    }
    let mut acc: u64 = 0;
    let mut k: usize = i;
    while k < j
        invariant
            i <= k <= j,
            j <= t@.len(),
            run == t@.subrange(i as int, j as int),
            canonical(run),
            acc as int == digits_value(run.subrange(0, k - i)),
            forall|n: u64, q: int|
                #![trigger t@.subrange(i as int, q), decimal(n as nat)]
                i < q <= t@.len() && t@.subrange(i as int, q) == decimal(n as nat) && (q
                    == t@.len() || !is_digit(t@[q])) ==> q == j && run == decimal(n as nat),
        decreases j - k,
    {
        let c = t.get_char(k);
        proof {
            assert(run[k - i] == c);
            assert(is_digit(c));
            assert(run.subrange(0, k + 1 - i).drop_last() =~= run.subrange(0, k - i));
            assert(run.subrange(0, k + 1 - i).last() == c);
            lemma_prefix_value(run, k + 1 - i);
        }
        let d = (c as u32 - '0' as u32) as u64;
        let m = acc.checked_mul(10);
        match m {
            None => {
                proof {
                    assert(digits_value(run) > u64::MAX);
                    assert forall|n: u64, q: int|
            #![trigger t@.subrange(i as int, q), decimal(n as nat)]
                        i < q <= t@.len() && t@.subrange(i as int, q) == decimal(
                            n as nat,
                        ) && (q == t@.len() || !is_digit(t@[q])) implies false by {
                        lemma_decimal_canonical(n as nat);
                    }
                }
                return None;
            },
            Some(m) => {
                match m.checked_add(d) {
                    None => {
                        proof {
                            assert(digits_value(run) > u64::MAX);
                            assert forall|n: u64, q: int|
            #![trigger t@.subrange(i as int, q), decimal(n as nat)]
                                i < q <= t@.len() && t@.subrange(i as int, q)
                                    == decimal(n as nat) && (q == t@.len() || !is_digit(t@[q]))
                                implies false by {
                                lemma_decimal_canonical(n as nat);
                            }
                        }
                        return None;
                    },
                    Some(a) => {
                        acc = a;
                    },
                }
            },
        }
        k = k + 1;
    }
    proof {
        assert(run.subrange(0, j - i) =~= run);
        assert forall|n: u64, q: int|
            #![trigger t@.subrange(i as int, q), decimal(n as nat)]
            i < q <= t@.len() && t@.subrange(i as int, q) == decimal(n as nat) && (q
                == t@.len() || !is_digit(t@[q])) implies n == acc && q == j by {
            lemma_decimal_canonical(n as nat);
        }
    }
    Some((acc, j))
}

/// Whether `lit` occurs in `s` at position `i`.
fn has_at(s: &str, i: usize, lit: &str) -> (r: bool)
    requires
        i <= s@.len(),
    ensures
        r == (i + lit@.len() <= s@.len() && s@.subrange(i as int, i + lit@.len()) == lit@),
{
    let n = lit.unicode_len();
    let len = s.unicode_len();
    if n > len - i {
        return false;
    }
    let mut k: usize = 0;
    while k < n
        invariant
            k <= n,
            i + n <= len,
            len == s@.len(),
            n == lit@.len(),
            forall|m: int| 0 <= m < k ==> s@[i + m] == lit@[m],
        decreases n - k,
    {
        if s.get_char(i + k) != lit.get_char(k) {
            assert(s@.subrange(i as int, i + n)[k as int] != lit@[k as int]);
            return false;
        }
        k = k + 1;
    }
    assert(s@.subrange(i as int, i + n) =~= lit@);
    true
}

proof fn lemma_literals()
    ensures
        "."@ =~= seq!['.'],
        "-dev."@ =~= seq!['-', 'd', 'e', 'v', '.'],
        "-alpha."@ =~= seq!['-', 'a', 'l', 'p', 'h', 'a', '.'],
        "-beta."@ =~= seq!['-', 'b', 'e', 't', 'a', '.'],
        "-rc."@ =~= seq!['-', 'r', 'c', '.'],
{
    reveal_strlit(".");
    reveal_strlit("-dev.");
    reveal_strlit("-alpha.");
    reveal_strlit("-beta.");
    reveal_strlit("-rc.");
}

pub open spec fn major_end(v: Version) -> int {
    decimal(v.major as nat).len() as int
}

pub open spec fn minor_end(v: Version) -> int {
    major_end(v) + 1 + decimal(v.minor as nat).len()
}

pub open spec fn patch_end(v: Version) -> int {
    if v.patch != 0 {
        minor_end(v) + 1 + decimal(v.patch as nat).len()
    } else {
        minor_end(v)
    }
}

/// Where each part of a version's text stands.
proof fn lemma_text_pieces(v: Version)
    ensures
        ({
            let t = version_text(v);
            &&& 0 < major_end(v) < minor_end(v) <= patch_end(v) <= t.len()
            &&& t.subrange(0, major_end(v)) == decimal(v.major as nat)
            &&& t[major_end(v)] == '.'
            &&& major_end(v) + 1 < minor_end(v)
            &&& t.subrange(major_end(v) + 1, minor_end(v)) == decimal(v.minor as nat)
            &&& (minor_end(v) < t.len() ==> t[minor_end(v)] == if v.patch != 0 {
                '.'
            } else {
                '-'
            })
            &&& (v.patch != 0 ==> minor_end(v) + 1 < patch_end(v) && t.subrange(
                minor_end(v) + 1,
                patch_end(v),
            ) == decimal(v.patch as nat))
            &&& t.subrange(patch_end(v), t.len() as int) == stage_text(v.stage)
            &&& (patch_end(v) < t.len() ==> t[patch_end(v)] == '-')
            &&& (patch_end(v) == t.len() <==> v.stage is Final)
        }),
{
    lemma_literals();
    lemma_decimal_canonical(v.major as nat);
    lemma_decimal_canonical(v.minor as nat);
    lemma_decimal_canonical(v.patch as nat);
    let t = version_text(v);
    let dm = decimal(v.major as nat);
    let dn = decimal(v.minor as nat);
    let pp = if v.patch != 0 {
        "."@ + decimal(v.patch as nat)
    } else {
        Seq::empty()
    };
    let st = stage_text(v.stage);
    assert(t =~= dm + "."@ + dn + pp + st);
    assert(t.subrange(0, major_end(v)) =~= dm);
    assert(t.subrange(major_end(v) + 1, minor_end(v)) =~= dn);
    if v.patch != 0 {
        assert(t.subrange(minor_end(v) + 1, patch_end(v)) =~= decimal(v.patch as nat));
    }
    assert(t.subrange(patch_end(v), t.len() as int) =~= st);
    match v.stage {
        Stage::Dev(n) => {
            lemma_decimal_canonical(n as nat);
        },
        Stage::Alpha(n) => {
            lemma_decimal_canonical(n as nat);
        },
        Stage::Beta(n) => {
            lemma_decimal_canonical(n as nat);
        },
        Stage::Rc(n) => {
            lemma_decimal_canonical(n as nat);
        },
        Stage::Final => {},
    }
    if patch_end(v) < t.len() {
        assert(t[patch_end(v)] == st[0]);
    }
    if minor_end(v) < t.len() {
        assert(t[minor_end(v)] == (pp + st)[0]);
    }
}

pub open spec fn stage_arg(s: Stage) -> u64 {
    match s {
        Stage::Dev(n) => n,
        Stage::Alpha(n) => n,
        Stage::Beta(n) => n,
        Stage::Rc(n) => n,
        Stage::Final => 0,
    }
}

pub open spec fn tagged(kind: u8, n: u64) -> Stage {
    if kind == 0 {
        Stage::Dev(n)
    } else if kind == 1 {
        Stage::Alpha(n)
    } else if kind == 2 {
        Stage::Beta(n)
    } else {
        Stage::Rc(n)
    }
}

/// Reads a pre-release suffix that runs from `i` to the end of `s`.
fn scan_stage(s: &str, i: usize) -> (r: Option<Stage>)
    requires
        i <= s@.len(),
    ensures
        r matches Some(st) ==> !(st is Final) && s@.subrange(i as int, s@.len() as int)
            == stage_text(st),
        forall|st: Stage|
            !(st is Final) && #[trigger] stage_text(st) == s@.subrange(i as int, s@.len() as int)
                ==> r == Some(st),
{
    proof {
        lemma_literals();
    }
    let len = s.unicode_len();
    let ghost t = s@.subrange(i as int, s@.len() as int);
    let (kind, start): (u8, usize) = if has_at(s, i, "-dev.") {
        (0, i + 5)
    } else if has_at(s, i, "-alpha.") {
        (1, i + 7)
    } else if has_at(s, i, "-beta.") {
        (2, i + 6)
    } else if has_at(s, i, "-rc.") {
        (3, i + 4)
    } else {
        proof {
            assert forall|st: Stage|
                !(st is Final) && #[trigger] stage_text(st) == t implies false by {
                match st {
                    Stage::Dev(n) => {
                        assert(("-dev."@ + decimal(n as nat)).subrange(0, 5) =~= "-dev."@);
                        assert(s@.subrange(i as int, i + 5) =~= t.subrange(0, 5));
                        assert(s@.subrange(i as int, i + 5) =~= "-dev."@);
                    },
                    Stage::Alpha(n) => {
                        assert(("-alpha."@ + decimal(n as nat)).subrange(0, 7) =~= "-alpha."@);
                        assert(s@.subrange(i as int, i + 7) =~= t.subrange(0, 7));
                        assert(s@.subrange(i as int, i + 7) =~= "-alpha."@);
                    },
                    Stage::Beta(n) => {
                        assert(("-beta."@ + decimal(n as nat)).subrange(0, 6) =~= "-beta."@);
                        assert(s@.subrange(i as int, i + 6) =~= t.subrange(0, 6));
                        assert(s@.subrange(i as int, i + 6) =~= "-beta."@);
                    },
                    Stage::Rc(n) => {
                        assert(("-rc."@ + decimal(n as nat)).subrange(0, 4) =~= "-rc."@);
                        assert(s@.subrange(i as int, i + 4) =~= t.subrange(0, 4));
                        assert(s@.subrange(i as int, i + 4) =~= "-rc."@);
                    },
                    Stage::Final => {},
                }
            }
        }
        return None;
    };
    let ghost tag = s@.subrange(i as int, start as int);
    assert(tag.len() >= 4 && tag[1] == (if kind == 0 {
        'd'
    } else if kind == 1 {
        'a'
    } else if kind == 2 {
        'b'
    } else {
        'r'
    }));
    proof {
        assert forall|st: Stage|
            !(st is Final) && #[trigger] stage_text(st) == t implies st == tagged(
                kind,
                stage_arg(st),
            ) && s@.subrange(start as int, s@.len() as int) == decimal(stage_arg(st) as nat) by {
            match st {
                Stage::Dev(n) => {
                    assert(t[1] == 'd');
                    assert(s@.subrange(start as int, s@.len() as int) =~= t.subrange(5, t.len() as int));
                    assert(t.subrange(5, t.len() as int) =~= decimal(n as nat));
                },
                Stage::Alpha(n) => {
                    assert(t[1] == 'a');
                    assert(s@.subrange(start as int, s@.len() as int) =~= t.subrange(7, t.len() as int));
                    assert(t.subrange(7, t.len() as int) =~= decimal(n as nat));
                },
                Stage::Beta(n) => {
                    assert(t[1] == 'b');
                    assert(s@.subrange(start as int, s@.len() as int) =~= t.subrange(6, t.len() as int));
                    assert(t.subrange(6, t.len() as int) =~= decimal(n as nat));
                },
                Stage::Rc(n) => {
                    assert(t[1] == 'r');
                    assert(s@.subrange(start as int, s@.len() as int) =~= t.subrange(4, t.len() as int));
                    assert(t.subrange(4, t.len() as int) =~= decimal(n as nat));
                },
                Stage::Final => {},
            }
        }
    }
    let (n, j) = match scan_number(s, start) {
        Some(p) => p,
        None => {
            proof {
                assert forall|st: Stage|
                    !(st is Final) && #[trigger] stage_text(st) == t implies false by {
                    lemma_decimal_canonical(stage_arg(st) as nat);
                    assert(s@.subrange(start as int, s@.len() as int) == decimal(stage_arg(st) as nat));
                }
            }
            return None;
        },
    };
    if j != len {
        proof {
            assert forall|st: Stage|
                !(st is Final) && #[trigger] stage_text(st) == t implies false by {
                lemma_decimal_canonical(stage_arg(st) as nat);
                assert(s@.subrange(start as int, s@.len() as int) == decimal(stage_arg(st) as nat));
            }
        }
        return None;
    }
    let st = if kind == 0 {
        Stage::Dev(n)
    } else if kind == 1 {
        Stage::Alpha(n)
    } else if kind == 2 {
        Stage::Beta(n)
    } else {
        Stage::Rc(n)
    };
    proof {
        assert(t =~= tag + s@.subrange(start as int, s@.len() as int));
        assert forall|st2: Stage|
            !(st2 is Final) && #[trigger] stage_text(st2) == t implies st2 == st by {
            lemma_decimal_canonical(stage_arg(st2) as nat);
            assert(s@.subrange(start as int, s@.len() as int) == decimal(stage_arg(st2) as nat));
        }
    }
    Some(st)
}

impl Version {
    /// Reads a version from the text that [`Version::to_string`] writes;
    /// `None` for any other text.
    #[verifier::rlimit(60)]
    #[verifier::spinoff_prover]
    pub fn parse(s: &str) -> (r: Option<Version>)
        ensures
            r matches Some(v) ==> version_text(v) == s@,
            forall|v: Version| #[trigger] version_text(v) == s@ ==> r == Some(v),
    {
        proof {
            lemma_literals();
        }
        let len = s.unicode_len();
        let (major, i1) = match scan_number(s, 0) {
            Some(p) => p,
            None => {
                proof {
                    assert forall|v: Version| #[trigger] version_text(v) == s@ implies false by {
                        lemma_text_pieces(v);
                    }
                }
                return None;
            },
        };
        proof {
            assert forall|v: Version| #[trigger] version_text(v) == s@ implies v.major == major
                && major_end(v) == i1 by {
                lemma_text_pieces(v);
            }
        }
        if i1 == len || !has_at(s, i1, ".") {
            proof {
                assert forall|v: Version| #[trigger] version_text(v) == s@ implies false by {
                    lemma_text_pieces(v);
                    assert(s@.subrange(i1 as int, i1 + 1) =~= "."@);
                }
            }
            return None;
        }
        let (minor, i2) = match scan_number(s, i1 + 1) {
            Some(p) => p,
            None => {
                proof {
                    assert forall|v: Version| #[trigger] version_text(v) == s@ implies false by {
                        lemma_text_pieces(v);
                    }
                }
                return None;
            },
        };
        proof {
            assert forall|v: Version| #[trigger] version_text(v) == s@ implies v.minor == minor
                && minor_end(v) == i2 by {
                lemma_text_pieces(v);
            }
        }
        let mut patch: u64 = 0;
        let mut i3: usize = i2;
        if i2 < len && has_at(s, i2, ".") {
            match scan_number(s, i2 + 1) {
                Some((p, j)) => {
                    if p == 0 {
                        proof {
                            lemma_decimal_canonical(0);
                            assert forall|v: Version| #[trigger]
                                version_text(v) == s@ implies false by {
                                lemma_text_pieces(v);
                                lemma_decimal_canonical(v.patch as nat);
                            }
                        }
                        return None;
                    }
                    patch = p;
                    i3 = j;
                },
                None => {
                    proof {
                        assert forall|v: Version| #[trigger] version_text(v) == s@ implies false by {
                            lemma_text_pieces(v);
                        }
                    }
                    return None;
                },
            }
        }
        proof {
            assert forall|v: Version| #[trigger] version_text(v) == s@ implies v.patch == patch
                && patch_end(v) == i3 by {
                lemma_text_pieces(v);
                if i2 < len {
                    assert(s@.subrange(i2 as int, i2 + 1) =~= seq![s@[i2 as int]]);
                }
            }
        }
        let stage = if i3 == len {
            Stage::Final
        } else {
            match scan_stage(s, i3) {
                Some(st) => st,
                None => {
                    proof {
                        assert forall|v: Version| #[trigger]
                            version_text(v) == s@ implies false by {
                            lemma_text_pieces(v);
                        }
                    }
                    return None;
                },
            }
        };
        let r = Version { major, minor, patch, stage };
        proof {
            lemma_decimal_canonical(major as nat);
            let t = s@;
            let pp = if patch != 0 {
                "."@ + decimal(patch as nat)
            } else {
                Seq::empty()
            };
            assert(t.subrange(i1 as int, i1 + 1) =~= "."@);
            if patch != 0 {
                assert(t.subrange(i2 as int, i3 as int) =~= pp);
            } else {
                assert(t.subrange(i2 as int, i3 as int) =~= pp);
            }
            if i3 == len {
                assert(t.subrange(i3 as int, len as int) =~= stage_text(stage));
            }
            assert(t =~= t.subrange(0, i1 as int) + t.subrange(i1 as int, i1 + 1) + t.subrange(
                i1 + 1,
                i2 as int,
            ) + t.subrange(i2 as int, i3 as int) + t.subrange(i3 as int, len as int));
            assert(version_text(r) =~= t);
            assert forall|v: Version| #[trigger] version_text(v) == s@ implies v == r by {
                lemma_text_pieces(v);
            }
        }
        Some(r)
    }
}

} // verus!
