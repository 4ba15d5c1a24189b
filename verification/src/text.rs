use vstd::prelude::*;
use vstd::string::*;

verus! {

/// Character equality of two string slices, decided without trusting any
/// derived comparison.
pub fn str_eq(a: &str, b: &str) -> (r: bool)
    ensures
        r == (a@ == b@),
{
    let n: usize = a.unicode_len();
    if n != b.unicode_len() {
        return false;
    }
    let mut i: usize = 0;
    while i < n
        invariant
            n == a@.len(),
            n == b@.len(),
            i <= n,
            forall|j: int| 0 <= j < i ==> a@[j] == b@[j],
        decreases n - i,
    {
        if a.get_char(i) != b.get_char(i) {
            return false;
        }
        i = i + 1;
    }
    proof {
        assert(a@ =~= b@);
    }
    true
}

/// The character for a decimal digit.
pub open spec fn dec_digit(d: nat) -> char
    recommends
        d < 10,
{
    if d == 0 { '0' }
    else if d == 1 { '1' }
    else if d == 2 { '2' }
    else if d == 3 { '3' }
    else if d == 4 { '4' }
    else if d == 5 { '5' }
    else if d == 6 { '6' }
    else if d == 7 { '7' }
    else if d == 8 { '8' }
    else { '9' }
}

/// The decimal rendering of a natural number, most significant digit first,
/// with no leading zeros (a lone zero renders as "0").
pub open spec fn dec_seq(n: nat) -> Seq<char>
    decreases n,
{
    if n < 10 {
        seq![dec_digit(n)]
    } else {
        dec_seq(n / 10).push(dec_digit(n % 10))
    }
}

/// The one-character string for a decimal digit.
pub fn dec_digit_str(d: u64) -> (r: &'static str)
    requires
        d < 10,
    ensures
        r@ == seq![dec_digit(d as nat)],
{
    if d == 0 { proof { reveal_strlit("0"); assert("0"@ =~= seq![dec_digit(0)]); } "0" }
    else if d == 1 { proof { reveal_strlit("1"); assert("1"@ =~= seq![dec_digit(1)]); } "1" }
    else if d == 2 { proof { reveal_strlit("2"); assert("2"@ =~= seq![dec_digit(2)]); } "2" }
    else if d == 3 { proof { reveal_strlit("3"); assert("3"@ =~= seq![dec_digit(3)]); } "3" }
    else if d == 4 { proof { reveal_strlit("4"); assert("4"@ =~= seq![dec_digit(4)]); } "4" }
    else if d == 5 { proof { reveal_strlit("5"); assert("5"@ =~= seq![dec_digit(5)]); } "5" }
    else if d == 6 { proof { reveal_strlit("6"); assert("6"@ =~= seq![dec_digit(6)]); } "6" }
    else if d == 7 { proof { reveal_strlit("7"); assert("7"@ =~= seq![dec_digit(7)]); } "7" }
    else if d == 8 { proof { reveal_strlit("8"); assert("8"@ =~= seq![dec_digit(8)]); } "8" }
    else { proof { reveal_strlit("9"); assert("9"@ =~= seq![dec_digit(9)]); } "9" }
}

/// Decimal rendering of an unsigned number.
pub fn u64_to_dec(n: u64) -> (r: String)
    ensures
        r@ == dec_seq(n as nat),
    decreases n,
{
    if n < 10 {
        let r = dec_digit_str(n).to_owned();
        r
    } else {
        let mut s = u64_to_dec(n / 10);
        s.append(dec_digit_str(n % 10));
        proof {
            assert(s@ =~= dec_seq((n as nat) / 10).push(dec_digit((n as nat) % 10)));
        }
        s
    }
}

/// The character for a hexadecimal digit, lower case.
pub open spec fn hex_digit(d: nat) -> char
    recommends
        d < 16,
{
    if d < 10 { dec_digit(d) }
    else if d == 10 { 'a' }
    else if d == 11 { 'b' }
    else if d == 12 { 'c' }
    else if d == 13 { 'd' }
    else if d == 14 { 'e' }
    else { 'f' }
}

/// The one-character string for a hexadecimal digit.
pub fn hex_digit_str(d: u32) -> (r: &'static str)
    requires
        d < 16,
    ensures
        r@ == seq![hex_digit(d as nat)],
{
    if d < 10 {
        dec_digit_str(d as u64)
    } else if d == 10 { proof { reveal_strlit("a"); assert("a"@ =~= seq![hex_digit(10)]); } "a" }
    else if d == 11 { proof { reveal_strlit("b"); assert("b"@ =~= seq![hex_digit(11)]); } "b" }
    else if d == 12 { proof { reveal_strlit("c"); assert("c"@ =~= seq![hex_digit(12)]); } "c" }
    else if d == 13 { proof { reveal_strlit("d"); assert("d"@ =~= seq![hex_digit(13)]); } "d" }
    else if d == 14 { proof { reveal_strlit("e"); assert("e"@ =~= seq![hex_digit(14)]); } "e" }
    else { proof { reveal_strlit("f"); assert("f"@ =~= seq![hex_digit(15)]); } "f" }
}

/// How one character is written inside a JSON string literal: quote and
/// backslash get a backslash escape, control characters a `\u00XX` escape,
/// everything else stands as itself.
pub open spec fn esc_char(c: char) -> Seq<char> {
    if c == '"' {
        seq!['\\', '"']
    } else if c == '\\' {
        seq!['\\', '\\']
    } else if (c as u32) < 32 {
        seq!['\\', 'u', '0', '0', hex_digit(((c as u32) / 16) as nat), hex_digit(((c as u32) % 16) as nat)]
    } else {
        seq![c]
    }
}

/// A text written inside a JSON string literal, character by character.
pub open spec fn escape_text(s: Seq<char>) -> Seq<char>
    decreases s.len(),
{
    if s.len() == 0 {
        Seq::empty()
    } else {
        escape_text(s.drop_last()) + esc_char(s.last())
    }
}

proof fn lemma_escape_step(s: Seq<char>, i: int)
    requires
        0 <= i < s.len(),
    ensures
        escape_text(s.take(i + 1)) == escape_text(s.take(i)) + esc_char(s[i]),
{
    assert(s.take(i + 1).drop_last() =~= s.take(i));
    assert(s.take(i + 1).last() == s[i]);
}

/// Writes a text as the body of a JSON string literal, per `escape_text`.
pub fn json_escape(s: &str) -> (r: String)
    ensures
        r@ == escape_text(s@),
{
    let n: usize = s.unicode_len();
    let mut out = String::new();
    let mut i: usize = 0;
    while i < n
        invariant
            n == s@.len(),
            i <= n,
            out@ == escape_text(s@.take(i as int)),
        decreases n - i,
    {
        let c = s.get_char(i);
        if c == '"' {
            out.append("\\\"");
            proof {
                reveal_strlit("\\\"");
                assert("\\\""@ =~= esc_char(c));
            }
        } else if c == '\\' {
            out.append("\\\\");
            proof {
                reveal_strlit("\\\\");
                assert("\\\\"@ =~= esc_char(c));
            }
        } else if (c as u32) < 32 {
            let code: u32 = c as u32;
            out.append("\\u00");
            out.append(hex_digit_str(code / 16));
            out.append(hex_digit_str(code % 16));
            proof {
                reveal_strlit("\\u00");
                assert("\\u00"@ + seq![hex_digit((code / 16) as nat)] + seq![
                    hex_digit((code % 16) as nat),
                ] =~= esc_char(c));
            }
        } else {
            out.append(s.substring_char(i, i + 1));
            proof {
                assert(s@.subrange(i as int, i + 1) =~= seq![c]);
                assert(seq![c] =~= esc_char(c));
            }
        }
        proof {
            lemma_escape_step(s@, i as int);
        }
        i = i + 1;
    }
    proof {
        assert(s@.take(n as int) =~= s@);
    }
    out
}

} // verus!
