//! Character-level helpers for the document names and paths the engine
//! manages: canonical decimal notation (for the `Untitled N` counter),
//! prefix and suffix tests (for the sandbox check and the name pattern),
//! and path joining.

use vstd::prelude::*;

verus! {

// ---------------------------------------------------------------------------
// Decimal digits
// ---------------------------------------------------------------------------

/// The character for the decimal digit `d`.
pub open spec fn digit_char(d: nat) -> char {
    if d == 0 {
        '0'
    } else if d == 1 {
        '1'
    } else if d == 2 {
        '2'
    } else if d == 3 {
        '3'
    } else if d == 4 {
        '4'
    } else if d == 5 {
        '5'
    } else if d == 6 {
        '6'
    } else if d == 7 {
        '7'
    } else if d == 8 {
        '8'
    } else {
        '9'
    }
}

pub open spec fn is_digit(c: char) -> bool {
    48 <= c as u32 && c as u32 <= 57
}

pub open spec fn digit_val(c: char) -> nat {
    (c as u32 - 48) as nat
}

/// The canonical decimal notation of `n`, most significant digit first.
pub open spec fn dec_digits(n: nat) -> Seq<char>
    decreases n,
{
    if n < 10 {
        seq![digit_char(n)]
    } else {
        dec_digits(n / 10).push(digit_char(n % 10))
    }
}

/// The value denoted by a digit string, most significant digit first.
pub open spec fn digits_val(s: Seq<char>) -> nat
    decreases s.len(),
{
    if s.len() == 0 {
        0
    } else {
        digits_val(s.drop_last()) * 10 + digit_val(s.last())
    }
}

pub open spec fn all_digits(s: Seq<char>) -> bool {
    forall|i: int| 0 <= i < s.len() ==> is_digit(#[trigger] s[i])
}

/// A digit string in canonical form: nonempty, and without a leading zero
/// unless it is "0" itself.
pub open spec fn canon_digits(s: Seq<char>) -> bool {
    &&& s.len() >= 1
    &&& all_digits(s)
    &&& s.len() > 1 ==> s[0] != '0'
}

pub proof fn lemma_dec_digits_canon(n: nat)
    ensures
        canon_digits(dec_digits(n)),
        digits_val(dec_digits(n)) == n,
        n >= 1 ==> dec_digits(n)[0] != '0',
    decreases n,
{
    if n < 10 {
        assert(seq![digit_char(n)].drop_last() =~= Seq::<char>::empty());
        assert(digits_val(Seq::<char>::empty()) == 0);
        assert(digit_val(digit_char(n)) == n);
        assert(digits_val(dec_digits(n)) == 0 * 10 + digit_val(seq![digit_char(n)].last()));
    } else {
        lemma_dec_digits_canon(n / 10);
        let prev = dec_digits(n / 10);
        let c = digit_char(n % 10);
        assert(prev.push(c).drop_last() =~= prev);
        assert(digits_val(dec_digits(n)) == n) by {
            assert(digits_val(prev.push(c)) == digits_val(prev) * 10 + digit_val(c));
            assert(digit_val(c) == n % 10);
            assert((n / 10) * 10 + n % 10 == n) by (nonlinear_arith);
        }
        assert(dec_digits(n)[0] == prev[0]);
    }
}

/// The value of a digit string never shrinks when more digits are appended.
pub proof fn lemma_digits_val_prefix(s: Seq<char>, i: int)
    requires
        0 <= i <= s.len(),
    ensures
        digits_val(s.take(i)) <= digits_val(s),
    decreases s.len() - i,
{
    if i < s.len() {
        assert(s.take(i + 1).drop_last() =~= s.take(i));
        assert(digits_val(s.take(i + 1)) == digits_val(s.take(i)) * 10 + digit_val(s[i]));
        assert(digits_val(s.take(i)) <= digits_val(s.take(i)) * 10) by (nonlinear_arith);
        lemma_digits_val_prefix(s, i + 1);
        assert(s.take(s.len() as int) =~= s);
    } else {
        assert(s.take(i) =~= s);
    }
}

/// Appends the digit character for `d` to `s`.
fn push_digit(s: &mut String, d: u64)
    requires
        d < 10,
    ensures
        final(s)@ == old(s)@.push(digit_char(d as nat)),
{
    match d {
        0 => {
            s.append("0");
            proof {
                reveal_strlit("0");
                assert(s@ =~= old(s)@.push(digit_char(0)));
            }
        },
        1 => {
            s.append("1");
            proof {
                reveal_strlit("1");
                assert(s@ =~= old(s)@.push(digit_char(1)));
            }
        },
        2 => {
            s.append("2");
            proof {
                reveal_strlit("2");
                assert(s@ =~= old(s)@.push(digit_char(2)));
            }
        },
        3 => {
            s.append("3");
            proof {
                reveal_strlit("3");
                assert(s@ =~= old(s)@.push(digit_char(3)));
            }
        },
        4 => {
            s.append("4");
            proof {
                reveal_strlit("4");
                assert(s@ =~= old(s)@.push(digit_char(4)));
            }
        },
        5 => {
            s.append("5");
            proof {
                reveal_strlit("5");
                assert(s@ =~= old(s)@.push(digit_char(5)));
            }
        },
        6 => {
            s.append("6");
            proof {
                reveal_strlit("6");
                assert(s@ =~= old(s)@.push(digit_char(6)));
            }
        },
        7 => {
            s.append("7");
            proof {
                reveal_strlit("7");
                assert(s@ =~= old(s)@.push(digit_char(7)));
            }
        },
        8 => {
            s.append("8");
            proof {
                reveal_strlit("8");
                assert(s@ =~= old(s)@.push(digit_char(8)));
            }
        },
        _ => {
            s.append("9");
            proof {
                reveal_strlit("9");
                assert(s@ =~= old(s)@.push(digit_char(9)));
            }
        },
    }
}

/// Appends the canonical decimal notation of `n` to `s`.
fn push_decimal(s: &mut String, n: u64)
    ensures
        final(s)@ == old(s)@ + dec_digits(n as nat),
    decreases n,
{
    if n < 10 {
        push_digit(s, n);
        proof {
            assert(old(s)@.push(digit_char(n as nat)) =~= old(s)@ + dec_digits(n as nat));
        }
    } else {
        push_decimal(s, n / 10);
        push_digit(s, n % 10);
        proof {
            assert((old(s)@ + dec_digits((n / 10) as nat)).push(digit_char((n % 10) as nat)) =~= old(
                s,
            )@ + dec_digits(n as nat));
        }
    }
}

/// The canonical decimal notation of `n`, as a fresh string.
pub fn u64_to_string(n: u64) -> (s: String)
    ensures
        s@ == dec_digits(n as nat),
{
    let mut s = String::new();
    push_decimal(&mut s, n);
    proof {
        assert(Seq::<char>::empty() + dec_digits(n as nat) =~= dec_digits(n as nat));
    }
    s
}

/// Parses a canonical decimal digit string whose value is below `u64::MAX`;
/// rejects everything else.
pub fn parse_decimal(s: &str) -> (r: Option<u64>)
    ensures
        r matches Some(n) ==> canon_digits(s@) && digits_val(s@) == n as nat && n < u64::MAX,
        r is None ==> !(canon_digits(s@) && digits_val(s@) < u64::MAX as nat),
{
    let len = s.unicode_len();
    if len == 0 {
        return None;
    }
    if len > 1 && s.get_char(0) == '0' {
        return None;
    }
    let mut n: u64 = 0;
    let mut i: usize = 0;
    while i < len
        invariant
            0 <= i <= len,
            len == s@.len(),
            all_digits(s@.take(i as int)),
            n as nat == digits_val(s@.take(i as int)),
            n < u64::MAX,
            len > 1 ==> s@[0] != '0',
        decreases len - i,
    {
        let c = s.get_char(i);
        let u = c as u32;
        if u < 48 || u > 57 {
            assert(!is_digit(s@[i as int]));
            return None;
        }
        let d = (u - 48) as u64;
        if n > (u64::MAX - 1 - d) / 10 {
            proof {
                assert(s@.take(i + 1).drop_last() =~= s@.take(i as int));
                assert(digits_val(s@.take(i + 1)) == n as nat * 10 + d as nat);
                assert(n as nat * 10 + d as nat >= u64::MAX as nat) by (nonlinear_arith)
                    requires
                        n > (u64::MAX - 1 - d) / 10,
                        d < 10,
                ;
                lemma_digits_val_prefix(s@, i + 1);
            }
            return None;
        }
        proof {
            assert(s@.take(i + 1).drop_last() =~= s@.take(i as int));
            assert(n as nat * 10 + d as nat <= u64::MAX as nat - 1) by (nonlinear_arith)
                requires
                    n <= (u64::MAX - 1 - d) / 10,
                    d < 10,
            ;
        }
        n = n * 10 + d;
        i += 1;
    }
    proof {
        assert(s@.take(len as int) =~= s@);
    }
    Some(n)
}

// ---------------------------------------------------------------------------
// Prefix, suffix and region tests
// ---------------------------------------------------------------------------

pub open spec fn starts_with(s: Seq<char>, p: Seq<char>) -> bool {
    p.len() <= s.len() && s.take(p.len() as int) == p
}

pub fn str_starts_with(s: &str, p: &str) -> (r: bool)
    ensures
        r == starts_with(s@, p@),
{
    let sl = s.unicode_len();
    let pl = p.unicode_len();
    if pl > sl {
        return false;
    }
    let mut i: usize = 0;
    while i < pl
        invariant
            0 <= i <= pl <= sl,
            sl == s@.len(),
            pl == p@.len(),
            forall|j: int| 0 <= j < i ==> s@[j] == p@[j],
        decreases pl - i,
    {
        let cs = s.get_char(i);
        let cp = p.get_char(i);
        if cs != cp {
            assert(s@.take(pl as int)[i as int] == s@[i as int]);
            return false;
        }
        i += 1;
    }
    proof {
        assert(s@.take(pl as int) =~= p@);
    }
    true
}

/// Character-for-character string equality.
pub fn str_eq(a: &str, b: &str) -> (r: bool)
    ensures
        r == (a@ == b@),
{
    let al = a.unicode_len();
    let bl = b.unicode_len();
    if al != bl {
        return false;
    }
    let eq = str_region_eq(a, 0, b);
    proof {
        assert(a@.subrange(0, bl as int) =~= a@);
    }
    eq
}

/// Does the region of `s` beginning at `from` spell out `t` exactly?
pub open spec fn region_eq(s: Seq<char>, from: int, t: Seq<char>) -> bool {
    from + t.len() <= s.len() && s.subrange(from, from + t.len()) == t
}

pub fn str_region_eq(s: &str, from: usize, t: &str) -> (r: bool)
    requires
        from <= s@.len(),
    ensures
        r == region_eq(s@, from as int, t@),
{
    let sl = s.unicode_len();
    let tl = t.unicode_len();
    if tl > sl - from {
        return false;
    }
    let mut i: usize = 0;
    while i < tl
        invariant
            0 <= i <= tl,
            from + tl <= sl,
            sl == s@.len(),
            tl == t@.len(),
            forall|j: int| 0 <= j < i ==> s@[from + j] == t@[j],
        decreases tl - i,
    {
        let cs = s.get_char(from + i);
        let ct = t.get_char(i);
        if cs != ct {
            assert(s@.subrange(from as int, from + tl)[i as int] == s@[from + i]);
            return false;
        }
        i += 1;
    }
    proof {
        assert(s@.subrange(from as int, from + tl) =~= t@);
    }
    true
}

// ---------------------------------------------------------------------------
// Untitled placeholder names
// ---------------------------------------------------------------------------

pub open spec fn untitled_prefix() -> Seq<char> {
    seq!['U', 'n', 't', 'i', 't', 'l', 'e', 'd', ' ']
}

/// The bare word that marks a name as still untitled, as a save-time test:
/// a persisted name is an absolute path and can never start with it.
pub open spec fn untitled_marker() -> Seq<char> {
    seq!['U', 'n', 't', 'i', 't', 'l', 'e', 'd']
}

/// The digit region of a name of the form `Untitled N.<ext>`.
pub open spec fn untitled_mid(name: Seq<char>, ext: Seq<char>) -> Seq<char> {
    name.subrange(untitled_prefix().len() as int, name.len() - ext.len() - 1)
}

/// `name` has the untitled placeholder form `Untitled N.<ext>`, with `N` in
/// canonical decimal notation.  Counters at or above `u64::MAX` cannot be
/// represented in the machine integer the engine tracks, so such names are
/// not counted as untitled.
pub open spec fn is_untitled_name(name: Seq<char>, ext: Seq<char>) -> bool {
    &&& name.len() >= untitled_prefix().len() + 2 + ext.len()
    &&& name.take(untitled_prefix().len() as int) == untitled_prefix()
    &&& name[name.len() - ext.len() - 1] == '.'
    &&& name.skip(name.len() - ext.len()) == ext
    &&& canon_digits(untitled_mid(name, ext))
    &&& digits_val(untitled_mid(name, ext)) < u64::MAX as nat
}

pub open spec fn untitled_num(name: Seq<char>, ext: Seq<char>) -> nat {
    digits_val(untitled_mid(name, ext))
}

/// The untitled placeholder name for counter `n`: `Untitled N.<ext>`.
pub open spec fn untitled_name(n: nat, ext: Seq<char>) -> Seq<char> {
    untitled_prefix() + dec_digits(n) + seq!['.'] + ext
}

/// Generation and recognition agree: the placeholder name built for
/// counter `n` is an untitled name, and it reads back as exactly `n`.
/// This is what lets a freshly created document feed the scan that picks
/// the next counter.
pub proof fn lemma_untitled_name_parts(n: nat, ext: Seq<char>)
    requires
        n < u64::MAX as nat,
    ensures
        is_untitled_name(untitled_name(n, ext), ext),
        untitled_num(untitled_name(n, ext), ext) == n,
{
    lemma_dec_digits_canon(n);
    let name = untitled_name(n, ext);
    assert(name.take(untitled_prefix().len() as int) =~= untitled_prefix());
    assert(untitled_mid(name, ext) =~= dec_digits(n));
    assert(name.skip(name.len() - ext.len()) =~= ext);
    assert(name[name.len() - ext.len() - 1] == '.');
}

/// Builds the untitled placeholder name `Untitled N.<ext>`.
pub fn make_untitled_name(n: u64, ext: &str) -> (name: String)
    ensures
        name@ == untitled_name(n as nat, ext@),
{
    let mut s = String::from_str("Untitled ");
    proof {
        reveal_strlit("Untitled ");
        assert(s@ =~= untitled_prefix());
    }
    push_decimal(&mut s, n);
    s.append(".");
    proof {
        reveal_strlit(".");
    }
    s.append(ext);
    proof {
        assert(s@ =~= untitled_name(n as nat, ext@));
    }
    s
}

/// Reads the counter out of an untitled placeholder name; `None` when the
/// name does not have that form.
pub fn parse_untitled(name: &str, ext: &str) -> (r: Option<u64>)
    ensures
        r matches Some(n) ==> is_untitled_name(name@, ext@) && untitled_num(name@, ext@)
            == n as nat,
        r is None ==> !is_untitled_name(name@, ext@),
{
    let nl = name.unicode_len();
    let el = ext.unicode_len();
    if nl < 11 {
        return None;
    }
    if el > nl - 11 {
        return None;
    }
    if !str_starts_with(name, "Untitled ") {
        proof {
            reveal_strlit("Untitled ");
            assert("Untitled "@ =~= untitled_prefix());
        }
        return None;
    }
    proof {
        reveal_strlit("Untitled ");
        assert("Untitled "@ =~= untitled_prefix());
    }
    let dot = nl - el - 1;
    if name.get_char(dot) != '.' {
        return None;
    }
    if !str_region_eq(name, nl - el, ext) {
        proof {
            assert(name@.skip(nl - el) =~= name@.subrange(nl - el, nl as int));
        }
        return None;
    }
    let mid = name.substring_char(9, dot);
    proof {
        assert(mid@ =~= untitled_mid(name@, ext@));
    }
    match parse_decimal(mid) {
        Some(v) => Some(v),
        None => None,
    }
}

// ---------------------------------------------------------------------------
// Path joining
// ---------------------------------------------------------------------------

/// Joining `rel` onto `prefix` the way an absolute-over-relative path join
/// behaves: an absolute `rel` replaces the prefix, and exactly one
/// separator stands between the two parts otherwise.
pub open spec fn join_path(prefix: Seq<char>, rel: Seq<char>) -> Seq<char> {
    if rel.len() > 0 && rel[0] == '/' {
        rel
    } else if prefix.len() > 0 && prefix.last() == '/' {
        prefix + rel
    } else {
        prefix + seq!['/'] + rel
    }
}

pub fn path_join(prefix: &str, rel: &str) -> (r: String)
    ensures
        r@ == join_path(prefix@, rel@),
{
    let rl = rel.unicode_len();
    if rl > 0 && rel.get_char(0) == '/' {
        return String::from_str(rel);
    }
    let pl = prefix.unicode_len();
    let mut s = String::from_str(prefix);
    if !(pl > 0 && prefix.get_char(pl - 1) == '/') {
        s.append("/");
        proof {
            reveal_strlit("/");
            assert(s@ =~= prefix@ + seq!['/']);
        }
    }
    s.append(rel);
    proof {
        assert(s@ =~= join_path(prefix@, rel@));
    }
    s
}

} // verus!
