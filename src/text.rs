//! Textual helpers: splitting a blob into documents and writing decimals.
use vstd::prelude::*;
use vstd::string::*;

verus! {

/// The separator between two documents of a blob.
pub open spec fn separator() -> Seq<char> {
    seq!['\n', '-', '-', '-', '\n']
}

/// Whether the separator starts at position `i` of `t`.
pub open spec fn sep_at(t: Seq<char>, i: int) -> bool {
    0 <= i && i + 5 <= t.len() && t.subrange(i, i + 5) == separator()
}

/// The pieces of `t`, scanning for the separator from position `j` of the current piece.
pub open spec fn split_scan(t: Seq<char>, j: int) -> Seq<Seq<char>>
    decreases t.len(), t.len() - j,
{
    if j < 0 || j + 5 > t.len() {
        seq![t]
    } else if sep_at(t, j) {
        seq![t.subrange(0, j)] + split_scan(t.subrange(j + 5, t.len() as int), 0)
    } else {
        split_scan(t, j + 1)
    }
}

/// The pieces of `t` between separators, left to right; never empty.
pub open spec fn split_spec(t: Seq<char>) -> Seq<Seq<char>> {
    split_scan(t, 0)
}

fn is_sep_at(s: &str, i: usize, n: usize) -> (r: bool)
    requires
        n == s@.len(),
        i + 5 <= n,
    ensures
        r == sep_at(s@, i as int),
{
    let r = s.get_char(i) == '\n' && s.get_char(i + 1) == '-' && s.get_char(i + 2) == '-'
        && s.get_char(i + 3) == '-' && s.get_char(i + 4) == '\n';
    assert(r == (s@.subrange(i as int, i + 5) =~= separator()));
    r
}

/// Splits `raw` on the literal separator `"\n---\n"`.
pub fn split_documents(raw: &str) -> (r: Vec<String>)
    ensures
        r@.map_values(|s: String| s@) == split_spec(raw@),
{
    let n = raw.unicode_len();
    let mut out: Vec<String> = Vec::new();
    let mut start: usize = 0;
    let mut i: usize = 0;
    assert(raw@.subrange(0, n as int) =~= raw@);
    while n - i >= 5
        invariant
            n == raw@.len(),
            start <= i <= n,
            out@.map_values(|s: String| s@) + split_scan(
                raw@.subrange(start as int, n as int),
                i - start,
            ) == split_spec(raw@),
        decreases n - i,
    {
        let ghost t = raw@.subrange(start as int, n as int);
        let ghost old_out = out@.map_values(|s: String| s@);
        let ghost j = i - start;
        if is_sep_at(raw, i, n) {
            let piece = raw.substring_char(start, i).to_owned();
            assert(sep_at(t, i - start)) by {
                assert(t.subrange(i - start, i - start + 5) =~= raw@.subrange(i as int, i + 5));
            }
            assert(t.subrange(i - start + 5, t.len() as int) =~= raw@.subrange(i + 5, n as int));
            assert(t.subrange(0, i - start) =~= piece@);
            out.push(piece);
            assert(out@.map_values(|s: String| s@) =~= old_out.push(piece@));
            start = i + 5;
            i = i + 5;
            let ghost rest = split_scan(raw@.subrange(start as int, n as int), 0);
            assert(split_scan(t, j) == seq![t.subrange(0, j)] + rest);
            assert(old_out.push(piece@) + rest =~= old_out + (seq![t.subrange(0, j)] + rest));
        } else {
            assert(!sep_at(t, i - start)) by {
                assert(t.subrange(i - start, i - start + 5) =~= raw@.subrange(i as int, i + 5));
            }
            i = i + 1;
            assert(split_scan(t, j) == split_scan(t, j + 1));
        }
    }
    let ghost t = raw@.subrange(start as int, n as int);
    let ghost old_out = out@.map_values(|s: String| s@);
    let last = raw.substring_char(start, n).to_owned();
    out.push(last);
    assert(out@.map_values(|s: String| s@) =~= old_out + seq![t]);
    out
}

/// The character of a decimal digit.
pub open spec fn digit_char(d: nat) -> char {
    if d == 0 { '0' } else if d == 1 { '1' } else if d == 2 { '2' } else if d == 3 { '3' }
    else if d == 4 { '4' } else if d == 5 { '5' } else if d == 6 { '6' } else if d == 7 { '7' }
    else if d == 8 { '8' } else { '9' }
}

/// The decimal digits of `n`, without leading zeros.
pub open spec fn decimal(n: nat) -> Seq<char>
    decreases n,
{
    if n < 10 {
        seq![digit_char(n)]
    } else {
        decimal(n / 10).push(digit_char(n % 10))
    }
}

fn digit_str(d: usize) -> (r: &'static str)
    requires
        d < 10,
    ensures
        r@ == seq![digit_char(d as nat)],
{
    if d == 0 {
        proof { reveal_strlit("0"); }
        assert("0"@ =~= seq!['0']);
        "0"
    } else if d == 1 {
        proof { reveal_strlit("1"); }
        assert("1"@ =~= seq!['1']);
        "1"
    } else if d == 2 {
        proof { reveal_strlit("2"); }
        assert("2"@ =~= seq!['2']);
        "2"
    } else if d == 3 {
        proof { reveal_strlit("3"); }
        assert("3"@ =~= seq!['3']);
        "3"
    } else if d == 4 {
        proof { reveal_strlit("4"); }
        assert("4"@ =~= seq!['4']);
        "4"
    } else if d == 5 {
        proof { reveal_strlit("5"); }
        assert("5"@ =~= seq!['5']);
        "5"
    } else if d == 6 {
        proof { reveal_strlit("6"); }
        assert("6"@ =~= seq!['6']);
        "6"
    } else if d == 7 {
        proof { reveal_strlit("7"); }
        assert("7"@ =~= seq!['7']);
        "7"
    } else if d == 8 {
        proof { reveal_strlit("8"); }
        assert("8"@ =~= seq!['8']);
        "8"
    } else {
        proof { reveal_strlit("9"); }
        assert("9"@ =~= seq!['9']);
        "9"
    }
}

/// Appends the decimal digits of `n` to `s`.
pub fn push_decimal(s: &mut String, n: usize)
    ensures
        final(s)@ == old(s)@ + decimal(n as nat),
    decreases n,
{
    if n >= 10 {
        push_decimal(s, n / 10);
    }
    s.append(digit_str(n % 10));
    assert(s@ =~= old(s)@ + decimal(n as nat));
}

/// Whether `s` holds exactly the characters of `w`.
pub fn same_text(s: &str, w: &str) -> (r: bool)
    ensures
        r == (s@ == w@),
{
    let n = s.unicode_len();
    let m = w.unicode_len();
    if n != m {
        return false;
    }
    let mut i: usize = 0;
    while i < n
        invariant
            n == s@.len(),
            n == w@.len(),
            i <= n,
            s@.subrange(0, i as int) =~= w@.subrange(0, i as int),
        decreases n - i,
    {
        if s.get_char(i) != w.get_char(i) {
            assert(s@[i as int] != w@[i as int]);
            return false;
        }
        i = i + 1;
    }
    assert(s@ =~= s@.subrange(0, n as int));
    assert(w@ =~= w@.subrange(0, n as int));
    true
}

} // verus!
