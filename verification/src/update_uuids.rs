//! Text of the assigned-number modules: the names of the constants, and the
//! Rust source that declares them.

use vstd::prelude::*;

use std::collections::HashMap;

verus! {

/// Whether `c` is an ASCII uppercase letter.
pub open spec fn spec_is_ascii_upper(c: char) -> bool {
    65 <= (c as u32) <= 90
}

/// Whether `c` is an ASCII lowercase letter.
pub open spec fn spec_is_ascii_lower(c: char) -> bool {
    97 <= (c as u32) <= 122
}

/// `c` with an ASCII lowercase letter made uppercase.
pub open spec fn spec_to_ascii_upper(c: char) -> char {
    if spec_is_ascii_lower(c) {
        ((c as u32) - 32) as char
    } else {
        c
    }
}

fn is_ascii_upper(c: char) -> (r: bool)
    ensures
        r == spec_is_ascii_upper(c),
{
    let v = c as u32;
    65 <= v && v <= 90
}

fn is_ascii_lower(c: char) -> (r: bool)
    ensures
        r == spec_is_ascii_lower(c),
{
    let v = c as u32;
    97 <= v && v <= 122
}

fn to_ascii_upper(c: char) -> (r: char)
    ensures
        r == spec_to_ascii_upper(c),
{
    if is_ascii_lower(c) {
        let b = (c as u32 - 32) as u8;
        b as char
    } else {
        c
    }
}

/// Whether `c` has the Unicode White_Space property.
pub open spec fn spec_is_whitespace(c: char) -> bool {
    let v = c as u32;
    ||| 0x09 <= v <= 0x0d
    ||| v == 0x20
    ||| v == 0x85
    ||| v == 0xa0
    ||| v == 0x1680
    ||| 0x2000 <= v <= 0x200a
    ||| v == 0x2028
    ||| v == 0x2029
    ||| v == 0x202f
    ||| v == 0x205f
    ||| v == 0x3000
}

fn is_whitespace(c: char) -> (r: bool)
    ensures
        r == spec_is_whitespace(c),
{
    let v = c as u32;
    (0x09 <= v && v <= 0x0d) || v == 0x20 || v == 0x85 || v == 0xa0 || v == 0x1680 || (0x2000 <= v && v
        <= 0x200a) || v == 0x2028 || v == 0x2029 || v == 0x202f || v == 0x205f || v == 0x3000
}

/// What `char::is_numeric` says of `c` (the Unicode numeric categories).
pub uninterp spec fn spec_is_numeric(c: char) -> bool;

/// What `char::is_alphanumeric` says of `c` (the Unicode alphabetic and
/// numeric properties).
pub uninterp spec fn spec_is_alphanumeric(c: char) -> bool;

/// What `str::to_lowercase` gives for the characters `s`.
pub uninterp spec fn spec_lowercase(s: Seq<char>) -> Seq<char>;

/// Calls `char::is_numeric`; its result is named, not stated.
#[verifier::external_body]
fn char_is_numeric(c: char) -> (r: bool)
    ensures
        r == spec_is_numeric(c),
{
    c.is_numeric()
}

/// Calls `char::is_alphanumeric`; its result is named, not stated.
#[verifier::external_body]
fn char_is_alphanumeric(c: char) -> (r: bool)
    ensures
        r == spec_is_alphanumeric(c),
{
    c.is_alphanumeric()
}

/// Calls `str::to_lowercase`; its result is named, not stated.
#[verifier::external_body]
fn str_to_lowercase(s: &str) -> (r: String)
    ensures
        r@ == spec_lowercase(s@),
{
    s.to_lowercase()
}

/// Calls `String::from_iter` on the characters of `v`, which gives a string
/// of exactly those characters.
#[verifier::external_body]
fn string_from_chars(v: &Vec<char>) -> (r: String)
    ensures
        r@ == v@,
{
    String::from_iter(v.iter())
}

/// The characters of `s`.
fn str_chars(s: &str) -> (r: Vec<char>)
    ensures
        r@ == s@,
{
    let n = s.unicode_len();
    let mut out: Vec<char> = Vec::new();
    let mut i: usize = 0;
    while i < n
        invariant
            i <= n,
            n == s@.len(),
            out@ == s@.take(i as int),
        decreases n - i,
    {
        out.push(s.get_char(i));
        i = i + 1;
        proof {
            assert(out@ =~= s@.take(i as int));
        }
    }
    proof {
        assert(s@.take(n as int) =~= s@);
    }
    out
}

/// `s` with every `a` replaced by `b`.
pub open spec fn spec_replace_char(s: Seq<char>, a: char, b: char) -> Seq<char> {
    s.map_values(|c: char| if c == a { b } else { c })
}

fn replace_char(s: &Vec<char>, a: char, b: char) -> (r: Vec<char>)
    ensures
        r@ == spec_replace_char(s@, a, b),
{
    let mut out: Vec<char> = Vec::new();
    let mut i: usize = 0;
    while i < s.len()
        invariant
            i <= s@.len(),
            out@ == spec_replace_char(s@.take(i as int), a, b),
        decreases s@.len() - i,
    {
        let c = s[i];
        out.push(if c == a { b } else { c });
        i = i + 1;
        proof {
            assert(out@ =~= spec_replace_char(s@.take(i as int), a, b));
        }
    }
    proof {
        assert(s@.take(s@.len() as int) =~= s@);
    }
    out
}

/// `s` with each occurrence of `pat` replaced by `rep`, scanning from the
/// left and not overlapping (as `str::replace` does).
pub open spec fn spec_replace(s: Seq<char>, pat: Seq<char>, rep: Seq<char>) -> Seq<char>
    decreases s.len(),
{
    if s.len() == 0 {
        Seq::empty()
    } else if 0 < pat.len() <= s.len() && s.take(pat.len() as int) == pat {
        rep + spec_replace(s.skip(pat.len() as int), pat, rep)
    } else {
        seq![s[0]] + spec_replace(s.skip(1), pat, rep)
    }
}

fn matches_at(s: &Vec<char>, i: usize, pat: &[char]) -> (r: bool)
    requires
        i + pat@.len() <= s@.len(),
    ensures
        r == (s@.subrange(i as int, i + pat@.len()) == pat@),
{
    let slen = s.len();
    let mut k: usize = 0;
    while k < pat.len()
        invariant
            k <= pat@.len(),
            slen == s@.len(),
            i + pat@.len() <= s@.len(),
            forall|j: int| 0 <= j < k ==> s@[i + j] == pat@[j],
        decreases pat@.len() - k,
    {
        if s[i + k] != pat[k] {
            proof {
                assert(s@.subrange(i as int, i + pat@.len())[k as int] != pat@[k as int]);
            }
            return false;
        }
        k = k + 1;
    }
    proof {
        assert(s@.subrange(i as int, i + pat@.len()) =~= pat@);
    }
    true
}

fn append_chars(out: &mut Vec<char>, t: &[char])
    ensures
        final(out)@ == old(out)@ + t@,
{
    let ghost start = out@;
    let mut k: usize = 0;
    while k < t.len()
        invariant
            k <= t@.len(),
            out@ == start + t@.take(k as int),
        decreases t@.len() - k,
    {
        out.push(t[k]);
        k = k + 1;
        proof {
            assert(out@ =~= start + t@.take(k as int));
        }
    }
    proof {
        assert(t@.take(t@.len() as int) =~= t@);
    }
}

fn replace(s: &Vec<char>, pat: &[char], rep: &[char]) -> (r: Vec<char>)
    requires
        pat@.len() > 0,
    ensures
        r@ == spec_replace(s@, pat@, rep@),
{
    let mut out: Vec<char> = Vec::new();
    let mut i: usize = 0;
    proof {
        assert(s@.skip(0) =~= s@);
        assert(out@ + spec_replace(s@, pat@, rep@) =~= spec_replace(s@, pat@, rep@));
    }
    while i < s.len()
        invariant
            i <= s@.len(),
            pat@.len() > 0,
            out@ + spec_replace(s@.skip(i as int), pat@, rep@) == spec_replace(s@, pat@, rep@),
        decreases s@.len() - i,
    {
        let ghost t = s@.skip(i as int);
        if pat.len() <= s.len() - i && matches_at(s, i, pat) {
            proof {
                assert(t.take(pat@.len() as int) =~= s@.subrange(i as int, i + pat@.len()));
                assert(t.skip(pat@.len() as int) =~= s@.skip(i + pat@.len()));
                assert(out@ + rep@ + spec_replace(s@.skip(i + pat@.len()), pat@, rep@) =~= out@ + spec_replace(t, pat@, rep@));
            }
            append_chars(&mut out, rep);
            i = i + pat.len();
        } else {
            proof {
                if pat@.len() <= t.len() {
                    assert(t.take(pat@.len() as int) =~= s@.subrange(i as int, i + pat@.len()));
                }
                assert(t.skip(1) =~= s@.skip(i + 1));
                assert(out@.push(s@[i as int]) + spec_replace(s@.skip(i + 1), pat@, rep@) =~= out@ + spec_replace(t, pat@, rep@));
            }
            out.push(s[i]);
            i = i + 1;
        }
    }
    proof {
        assert(s@.skip(s@.len() as int) =~= Seq::<char>::empty());
        assert(out@ + Seq::<char>::empty() =~= out@);
    }
    out
}

/// The string the conversion works on: lowercased with spaces made
/// underscores when it holds a space, as given otherwise.
pub open spec fn spec_prepared(s: Seq<char>) -> Seq<char> {
    if s.contains(' ') {
        spec_replace_char(spec_lowercase(s), ' ', '_')
    } else {
        s
    }
}

/// Whether every character is an ASCII uppercase letter.
pub open spec fn spec_all_upper(s: Seq<char>) -> bool {
    forall|i: int| 0 <= i < s.len() ==> spec_is_ascii_upper(#[trigger] s[i])
}

/// The first character: a digit gets an underscore before it, anything
/// else is made uppercase.
pub open spec fn spec_first(s: Seq<char>) -> Seq<char> {
    if s.len() == 0 {
        Seq::empty()
    } else if spec_is_numeric(s[0]) {
        seq!['_', s[0]]
    } else {
        seq![spec_to_ascii_upper(s[0])]
    }
}

/// What the character at `i` (after the first) adds: an underscore where a
/// word starts (an uppercase letter after a non-uppercase one, or the last
/// uppercase letter of an acronym before a lowercase one) and for
/// whitespace, hyphens and underscores; then the character itself, made
/// uppercase, if it is alphanumeric.
pub open spec fn spec_step(s: Seq<char>, i: int) -> Seq<char> {
    let c = s[i];
    let sep: Seq<char> = if spec_is_ascii_upper(c) {
        if i >= 2 && (!spec_is_ascii_upper(s[i - 1]) || (i + 1 < s.len() && spec_is_ascii_lower(s[i + 1]))) {
            seq!['_']
        } else {
            Seq::empty()
        }
    } else if spec_is_whitespace(c) || c == '-' || c == '_' {
        seq!['_']
    } else {
        Seq::empty()
    };
    let body: Seq<char> = if spec_is_alphanumeric(c) {
        seq![spec_to_ascii_upper(c)]
    } else {
        Seq::empty()
    };
    sep + body
}

/// What the characters after the first, up to `k`, add.
pub open spec fn spec_body(s: Seq<char>, k: int) -> Seq<char>
    decreases k,
{
    if k <= 1 {
        Seq::empty()
    } else {
        spec_body(s, k - 1) + spec_step(s, k - 1)
    }
}

/// The clean-ups after the conversion: drop `TEXTSUBSCRIPT`, fold runs of
/// underscores, and spell `å` and `ö` as `A` and `O`.
pub open spec fn spec_clean_up(r: Seq<char>) -> Seq<char> {
    let r1 = spec_replace(r, seq!['T', 'E', 'X', 'T', 'S', 'U', 'B', 'S', 'C', 'R', 'I', 'P', 'T'], Seq::empty());
    let r2 = spec_replace(r1, seq!['_', '_', '_'], seq!['_']);
    let r3 = spec_replace(r2, seq!['_', '_'], seq!['_']);
    let r4 = spec_replace(r3, seq!['\u{e5}'], seq!['A']);
    spec_replace(r4, seq!['\u{f6}'], seq!['O'])
}

/// "PascalCase", "snake_case" or mixed case with spaces, in
/// SCREAMING_SNAKE_CASE.
pub open spec fn spec_screaming_snake_case(input: Seq<char>) -> Seq<char> {
    let s = spec_prepared(input);
    if spec_all_upper(s) {
        s
    } else {
        spec_clean_up(spec_first(s) + spec_body(s, s.len() as int))
    }
}

/// Convert from "PascalCase" or "snake_case" or "IE mixed case" to "SCREAMING_SNAKE_CASE".
pub fn screaming_snake_case(s: &str) -> (r: String)
    ensures
        r@ == spec_screaming_snake_case(s@),
{
    let input_chars = str_chars(s);
    let mut has_space = false;
    let mut k: usize = 0;
    while k < input_chars.len()
        invariant
            k <= input_chars@.len(),
            has_space == input_chars@.take(k as int).contains(' '),
        decreases input_chars@.len() - k,
    {
        let c = input_chars[k];
        proof {
            let t = input_chars@.take(k as int);
            let t1 = input_chars@.take(k + 1);
            assert(t1 =~= t.push(c));
            if c == ' ' {
                assert(t1[k as int] == ' ');
            } else {
                if t1.contains(' ') {
                    let w = choose|w: int| 0 <= w < t1.len() && t1[w] == ' ';
                    assert(t[w] == ' ');
                }
                if t.contains(' ') {
                    let w = choose|w: int| 0 <= w < t.len() && t[w] == ' ';
                    assert(t1[w] == ' ');
                }
            }
        }
        if c == ' ' {
            has_space = true;
        }
        k = k + 1;
    }
    proof {
        assert(input_chars@.take(input_chars@.len() as int) =~= input_chars@);
    }
    let chars = if has_space {
        let lower = str_to_lowercase(s);
        let lc = str_chars(lower.as_str());
        replace_char(&lc, ' ', '_')
    } else {
        input_chars
    };
    let mut all_upper = true;
    let mut j: usize = 0;
    while j < chars.len()
        invariant
            j <= chars@.len(),
            all_upper == (forall|i: int| 0 <= i < j ==> spec_is_ascii_upper(#[trigger] chars@[i])),
        decreases chars@.len() - j,
    {
        if !is_ascii_upper(chars[j]) {
            all_upper = false;
        }
        j = j + 1;
    }
    if all_upper {
        return string_from_chars(&chars);
    }
    let mut result: Vec<char> = Vec::new();
    if chars.len() > 0 {
        let first = chars[0];
        if char_is_numeric(first) {
            result.push('_');
            result.push(first);
        } else {
            result.push(to_ascii_upper(first));
        }
    }
    proof {
        assert(result@ =~= spec_first(chars@) + spec_body(chars@, 1));
    }
    let mut i: usize = 1;
    while i < chars.len()
        invariant
            1 <= i,
            i <= chars@.len() || chars@.len() == 0,
            result@ == spec_first(chars@) + spec_body(chars@, i as int),
        decreases chars@.len() - i,
    {
        let c = chars[i];
        let ghost before = result@;
        if is_ascii_upper(c) {
            if i >= 2 {
                if !is_ascii_upper(chars[i - 1]) {
                    result.push('_');
                } else if i + 1 < chars.len() && is_ascii_lower(chars[i + 1]) {
                    result.push('_');
                }
            }
        } else if is_whitespace(c) {
            result.push('_');
        } else if c == '-' {
            result.push('_');
        } else if c == '_' {
            result.push('_');
        }
        if char_is_alphanumeric(c) {
            result.push(to_ascii_upper(c));
        }
        proof {
            assert(result@ =~= before + spec_step(chars@, i as int));
        }
        i = i + 1;
    }
    proof {
        if chars@.len() == 0 {
            assert(spec_body(chars@, 0) == spec_body(chars@, 1));
        }
    }
    let p1 = ['T', 'E', 'X', 'T', 'S', 'U', 'B', 'S', 'C', 'R', 'I', 'P', 'T'];
    let e1: [char; 0] = [];
    let p2 = ['_', '_', '_'];
    let p3 = ['_', '_'];
    let u = ['_'];
    let p4 = ['\u{e5}'];
    let q4 = ['A'];
    let p5 = ['\u{f6}'];
    let q5 = ['O'];
    proof {
        assert(p1@ =~= seq!['T', 'E', 'X', 'T', 'S', 'U', 'B', 'S', 'C', 'R', 'I', 'P', 'T']);
        assert(e1@ =~= Seq::<char>::empty());
        assert(p2@ =~= seq!['_', '_', '_']);
        assert(p3@ =~= seq!['_', '_']);
        assert(u@ =~= seq!['_']);
        assert(p4@ =~= seq!['\u{e5}']);
        assert(q4@ =~= seq!['A']);
        assert(p5@ =~= seq!['\u{f6}']);
        assert(q5@ =~= seq!['O']);
    }
    let r1 = replace(&result, p1.as_slice(), e1.as_slice());
    let r2 = replace(&r1, p2.as_slice(), u.as_slice());
    let r3 = replace(&r2, p3.as_slice(), u.as_slice());
    let r4 = replace(&r3, p4.as_slice(), q4.as_slice());
    let r5 = replace(&r4, p5.as_slice(), q5.as_slice());
    string_from_chars(&r5)
}

/// The lowercase hexadecimal digit of `d` (below 16).
pub open spec fn spec_hex_digit(d: int) -> char {
    if d < 10 {
        (48 + d) as char
    } else {
        (87 + d) as char
    }
}

/// `v` in lowercase hexadecimal with at least `width` digits (as `{:0width$x}`
/// formats it), and at least one.
pub open spec fn spec_hex(v: nat, width: nat) -> Seq<char>
    decreases v + width,
{
    if v < 16 && width <= 1 {
        seq![spec_hex_digit(v as int)]
    } else {
        spec_hex(v / 16, if width > 0 { (width - 1) as nat } else { 0 }) + seq![spec_hex_digit((v % 16) as int)]
    }
}

/// The value of a lowercase hexadecimal digit.
pub open spec fn spec_hex_digit_value(c: char) -> int {
    if '0' <= c && c <= '9' {
        c as int - 48
    } else {
        c as int - 87
    }
}

/// Whether `c` is a lowercase hexadecimal digit.
pub open spec fn spec_is_hex_digit(c: char) -> bool {
    ('0' <= c && c <= '9') || ('a' <= c && c <= 'f')
}

/// The number that a string of hexadecimal digits reads as, most
/// significant digit first.
pub open spec fn spec_hex_value(s: Seq<char>) -> int
    decreases s.len(),
{
    if s.len() == 0 {
        0
    } else {
        spec_hex_value(s.drop_last()) * 16 + spec_hex_digit_value(s.last())
    }
}

/// The hexadecimal text of `v` reads back as `v`: it is made of lowercase
/// hexadecimal digits only, it has at least `width` digits (and at least
/// one), and it has no more digits than needed beyond that width.
pub proof fn lemma_hex_reads_back(v: nat, width: nat)
    ensures
        spec_hex_value(spec_hex(v, width)) == v,
        forall|k: int| 0 <= k < spec_hex(v, width).len() ==> spec_is_hex_digit(#[trigger] spec_hex(v, width)[k]),
        spec_hex(v, width).len() >= width,
        spec_hex(v, width).len() >= 1,
        spec_hex(v, width).len() > width && spec_hex(v, width).len() > 1 ==> spec_hex(v, width)[0] != '0',
    decreases v + width,
{
    if v < 16 && width <= 1 {
        lemma_hex_digit(v as int);
        let t = spec_hex(v, width);
        assert(t =~= seq![spec_hex_digit(v as int)]);
        assert(t.drop_last() =~= Seq::<char>::empty());
        assert(spec_hex_value(t) == spec_hex_value(t.drop_last()) * 16 + spec_hex_digit_value(t.last()));
    } else {
        let w2: nat = if width > 0 { (width - 1) as nat } else { 0 };
        lemma_hex_reads_back(v / 16, w2);
        lemma_hex_digit((v % 16) as int);
        let h = spec_hex(v / 16, w2);
        let t = h + seq![spec_hex_digit((v % 16) as int)];
        assert(spec_hex(v, width) == t);
        assert(t.drop_last() =~= h);
        assert(t.last() == spec_hex_digit((v % 16) as int));
        assert(spec_hex_value(t) == spec_hex_value(h) * 16 + (v % 16));
        assert(v == (v / 16) * 16 + v % 16);
        assert forall|k: int| 0 <= k < t.len() implies spec_is_hex_digit(#[trigger] t[k]) by {
            if k < h.len() {
                assert(t[k] == h[k]);
            }
        }
        if t.len() > width && t.len() > 1 {
            assert(t[0] == h[0]);
            if h.len() == 1 {
                if !(v / 16 < 16 && w2 <= 1) {
                    let w3: nat = if w2 > 0 { (w2 - 1) as nat } else { 0 };
                    lemma_hex_reads_back(v / 16 / 16, w3);
                    assert(h.len() == spec_hex(v / 16 / 16, w3).len() + 1);
                }
                assert(h =~= seq![spec_hex_digit((v / 16) as int)]);
                assert(v >= 16);
                lemma_hex_digit((v / 16) as int);
            }
        }
    }
}

proof fn lemma_hex_digit(d: int)
    requires
        0 <= d < 16,
    ensures
        spec_is_hex_digit(spec_hex_digit(d)),
        spec_hex_digit_value(spec_hex_digit(d)) == d,
        d != 0 ==> spec_hex_digit(d) != '0',
{
    if d < 10 {
        assert(spec_hex_digit(d) as int == 48 + d);
    } else {
        assert(spec_hex_digit(d) as int == 87 + d);
    }
}

fn push_hex(v: u32, width: u32, out: &mut Vec<char>)
    ensures
        final(out)@ == old(out)@ + spec_hex(v as nat, width as nat),
    decreases v + width,
{
    if v >= 16 || width > 1 {
        push_hex(v / 16, if width > 0 { width - 1 } else { 0 }, out);
    }
    let d = (v % 16) as u8;
    let c = if d < 10 { (48 + d) as char } else { (87 + d) as char };
    out.push(c);
    proof {
        assert(final(out)@ =~= old(out)@ + spec_hex(v as nat, width as nat));
    }
}

fn push_str(out: &mut Vec<char>, s: &str)
    ensures
        final(out)@ == old(out)@ + s@,
{
    let chars = str_chars(s);
    append_chars(out, chars.as_slice());
}

/// The parts, one after the other, with `sep` between each two.
pub open spec fn spec_join(parts: Seq<Seq<char>>, sep: Seq<char>) -> Seq<char>
    decreases parts.len(),
{
    if parts.len() == 0 {
        Seq::empty()
    } else if parts.len() == 1 {
        parts[0]
    } else {
        spec_join(parts.drop_last(), sep) + sep + parts.last()
    }
}

/// The value of an appearance category and subcategory.
pub fn appearance(cat: u8, subcat: u8) -> (r: u16)
    ensures
        r == crate::uuid::spec_appearance(cat, subcat),
{
    ((cat as u16) << 6u16) | (subcat as u16)
}

/// The name of the module for an assigned-numbers file: the file name
/// without `_uuids` and `.yaml`, or `None` for the member and SDO files,
/// which are skipped.
pub open spec fn spec_module_file_name(file_name: Seq<char>) -> Option<Seq<char>> {
    let n = spec_replace(spec_replace(file_name, "_uuids"@, Seq::empty()), ".yaml"@, Seq::empty());
    if n == "member"@ || n == "sdo"@ {
        None
    } else {
        Some(n)
    }
}

fn eq_chars(a: &Vec<char>, b: &Vec<char>) -> (r: bool)
    ensures
        r == (a@ == b@),
{
    if a.len() != b.len() {
        return false;
    }
    let mut i: usize = 0;
    while i < a.len()
        invariant
            i <= a@.len(),
            a@.len() == b@.len(),
            forall|j: int| 0 <= j < i ==> a@[j] == b@[j],
        decreases a@.len() - i,
    {
        if a[i] != b[i] {
            return false;
        }
        i = i + 1;
    }
    proof {
        assert(a@ =~= b@);
    }
    true
}

/// The name of the module for an assigned-numbers file, or `None` for a
/// file that is skipped.
pub fn module_file_name(file_name: &str) -> (r: Option<String>)
    ensures
        match r {
            Some(n) => spec_module_file_name(file_name@) == Some(n@),
            None => spec_module_file_name(file_name@) is None,
        },
{
    let chars = str_chars(file_name);
    let p1 = str_chars("_uuids");
    let p2 = str_chars(".yaml");
    proof {
        reveal_strlit("_uuids");
        reveal_strlit(".yaml");
    }
    let e: Vec<char> = Vec::new();
    let n1 = replace(&chars, p1.as_slice(), e.as_slice());
    let n2 = replace(&n1, p2.as_slice(), e.as_slice());
    let member = str_chars("member");
    let sdo = str_chars("sdo");
    if eq_chars(&n2, &member) || eq_chars(&n2, &sdo) {
        None
    } else {
        Some(string_from_chars(&n2))
    }
}

/// The readable module name: the output name with underscores made spaces.
pub fn module_name(output_name: &str) -> (r: String)
    ensures
        r@ == spec_replace_char(output_name@, '_', ' '),
{
    let chars = str_chars(output_name);
    string_from_chars(&replace_char(&chars, '_', ' '))
}

// Data structure for the UUIDs
#[derive(Debug)]
pub struct UuidData {
    /// short UUID for this predefined value
    pub uuid: u16,
    /// human readable name associated to this UUID
    pub name: String,
    /// reference id such as: org.bluetooth.characteristic.acceleration
    pub id: Option<String>,
    /// Additional information about this Uuid
    pub gss: Option<GattSpecSupplement>,
}

/// An appearance category, with its subcategories if it has any.
#[derive(Debug)]
pub struct Category {
    pub category: u8,
    pub name: String,
    pub subcategory: Option<Vec<Subcategory>>,
}

/// An appearance subcategory.
#[derive(Debug)]
pub struct Subcategory {
    pub value: u8,
    pub name: String,
}

/// The GATT Specification Supplement file of a characteristic.
#[derive(Debug)]
pub struct GssCharacteristic {
    pub characteristic: GattSpecSupplement,
}

/// The official identifier, e.g., "org.bluetooth.characteristic.activity_goal"
#[derive(Debug)]
pub struct GattSpecSupplement {
    pub name: String,
    pub description: String,
    pub structure: HashMap<String, GattSpecStructure>,
    /// The 'fields' key in the YAML provides detailed descriptions for certain
    /// fields defined in 'structure', often for flags.
    pub fields: Vec<FieldInformation>,
}

/// One field of a characteristic's structure.
#[derive(Debug, Clone)]
pub struct GattSpecStructure {
    pub ty: String,
    pub size: String,
    pub description: String,
    pub unit: Option<String>,
}

/// Represents the detailed information for a field, often used for flags.
#[derive(Debug, Default)]
pub struct FieldInformation {
    pub name: String,
    pub description: String,
    pub section_title: Option<String>,
    pub table_caption: Option<String>,
    pub values: Vec<FieldValueDefinition>,
}

/// One value of a field, in one of the shapes the supplement uses.
#[derive(Debug)]
pub enum FieldValueDefinition {
    Bit { bit: String, description: String },
    Value { value: String, description: String },
    Field { field: String, data_type: String, size: String, description: String },
    OpCodeParameter {
        op_code_value: String,
        definition: String,
        parameter: String,
        parameter_type: String,
        description: String,
    },
    OpCodeOperand {
        op_code_value: String,
        definition: String,
        operand: String,
        operator: Option<String>,
        operand_data_type: Option<String>,
        description: String,
    },
    ResponseCode {
        response_code_value: String,
        definition: String,
        response_parameter: Option<String>,
        description: String,
    },
}

/// The declaration of one UUID constant in the module `module_name`.
pub open spec fn spec_uuid_constant(module_name: Seq<char>, uuid: u16, name: Seq<char>, supplement: Seq<char>) -> Seq<char> {
    "/// Bluetooth "@ + module_name + " UUID.\n///\n/// `0x"@ + spec_hex(uuid as nat, 4) + "` "@ + name + supplement
        + "\npub const "@ + spec_screaming_snake_case(name) + ": BluetoothUuid16 = BluetoothUuid16::new(0x"@
        + spec_hex(uuid as nat, 1) + ");"@
}

/// The declaration of one UUID constant in the module `module_name`, with
/// `supplement` after its name in its documentation.
pub fn uuid_constant(module_name: &str, uuid: &UuidData, supplement: &str) -> (r: String)
    ensures
        r@ == spec_uuid_constant(module_name@, uuid.uuid, uuid.name@, supplement@),
{
    let mut out: Vec<char> = Vec::new();
    push_str(&mut out, "/// Bluetooth ");
    push_str(&mut out, module_name);
    push_str(&mut out, " UUID.\n///\n/// `0x");
    push_hex(uuid.uuid as u32, 4, &mut out);
    push_str(&mut out, "` ");
    push_str(&mut out, uuid.name.as_str());
    push_str(&mut out, supplement);
    push_str(&mut out, "\npub const ");
    let snake = screaming_snake_case(uuid.name.as_str());
    push_str(&mut out, snake.as_str());
    push_str(&mut out, ": BluetoothUuid16 = BluetoothUuid16::new(0x");
    push_hex(uuid.uuid as u32, 1, &mut out);
    push_str(&mut out, ");");
    string_from_chars(&out)
}

/// The declarations of the UUID constants of a module, separated by blank
/// lines; `supplements[i]` goes into the documentation of `uuids[i]`.
pub fn uuid_tokens(module_name: &str, uuids: &[UuidData], supplements: &[String]) -> (r: String)
    requires
        uuids@.len() == supplements@.len(),
    ensures
        r@ == spec_join(
            Seq::new(uuids@.len(), |i: int| spec_uuid_constant(module_name@, uuids@[i].uuid, uuids@[i].name@, supplements@[i]@)),
            "\n\n"@,
        ),
{
    let ghost parts = Seq::new(uuids@.len(), |i: int| spec_uuid_constant(module_name@, uuids@[i].uuid, uuids@[i].name@, supplements@[i]@));
    let mut out: Vec<char> = Vec::new();
    let mut i: usize = 0;
    while i < uuids.len()
        invariant
            i <= uuids@.len(),
            uuids@.len() == supplements@.len(),
            parts == Seq::new(uuids@.len(), |i: int| spec_uuid_constant(module_name@, uuids@[i].uuid, uuids@[i].name@, supplements@[i]@)),
            out@ == spec_join(parts.take(i as int), "\n\n"@),
        decreases uuids@.len() - i,
    {
        if i > 0 {
            push_str(&mut out, "\n\n");
        }
        let c = uuid_constant(module_name, &uuids[i], supplements[i].as_str());
        push_str(&mut out, c.as_str());
        proof {
            assert(parts.take(i + 1).drop_last() =~= parts.take(i as int));
            if i == 0 {
                assert(out@ =~= spec_join(parts.take(1), "\n\n"@));
            }
        }
        i = i + 1;
    }
    proof {
        assert(parts.take(uuids@.len() as int) =~= parts);
    }
    string_from_chars(&out)
}

/// The declaration of the generic constant of a category, inside the
/// category's module.
pub open spec fn spec_generic_constant(category: u8, name: Seq<char>) -> Seq<char> {
    "/// Bluetooth Appearance UUID.\n    ///\n    /// `0x"@ + spec_hex(crate::uuid::spec_appearance(category, 0) as nat, 4)
        + "` Generic "@ + name + "\n    pub const GENERIC_"@ + spec_screaming_snake_case(name)
        + ": BluetoothUuid16 = from_category(0x"@ + spec_hex(category as nat, 4) + ", 0x"@ + spec_hex(0, 4)
        + ");"@
}

/// The declaration of the constant of a subcategory, inside its category's
/// module.
pub open spec fn spec_subcategory_constant(category: u8, cat_name: Seq<char>, value: u8, name: Seq<char>) -> Seq<char> {
    "    /// Bluetooth Appearance UUID.\n    ///\n    /// `0x"@ + spec_hex(crate::uuid::spec_appearance(category, value) as nat, 4)
        + "` "@ + cat_name + " | "@ + name + "\n    pub const "@ + spec_screaming_snake_case(name)
        + ": BluetoothUuid16 = from_category(0x"@ + spec_hex(category as nat, 4) + ", 0x"@ + spec_hex(value as nat, 4)
        + ");"@
}

/// The declarations of a category's module: the generic constant, then one
/// per subcategory, separated by blank lines.
pub open spec fn spec_appearance_subcategory(category: u8, name: Seq<char>, subs: Seq<(u8, Seq<char>)>) -> Seq<char> {
    spec_join(
        seq![spec_generic_constant(category, name)] + Seq::new(
            subs.len(),
            |i: int| spec_subcategory_constant(category, name, subs[i].0, subs[i].1),
        ),
        "\n\n"@,
    )
}

/// The subcategories of a category, as values and names.
pub open spec fn spec_subcategories(cat: &Category) -> Seq<(u8, Seq<char>)> {
    match &cat.subcategory {
        Some(v) => Seq::new(v@.len(), |i: int| (v@[i].value, v@[i].name@)),
        None => Seq::empty(),
    }
}

fn generic_constant(category: u8, name: &str) -> (r: String)
    ensures
        r@ == spec_generic_constant(category, name@),
{
    let mut out: Vec<char> = Vec::new();
    push_str(&mut out, "/// Bluetooth Appearance UUID.\n    ///\n    /// `0x");
    push_hex(appearance(category, 0) as u32, 4, &mut out);
    push_str(&mut out, "` Generic ");
    push_str(&mut out, name);
    push_str(&mut out, "\n    pub const GENERIC_");
    let snake = screaming_snake_case(name);
    push_str(&mut out, snake.as_str());
    push_str(&mut out, ": BluetoothUuid16 = from_category(0x");
    push_hex(category as u32, 4, &mut out);
    push_str(&mut out, ", 0x");
    push_hex(0, 4, &mut out);
    push_str(&mut out, ");");
    string_from_chars(&out)
}

fn subcategory_constant(category: u8, cat_name: &str, value: u8, name: &str) -> (r: String)
    ensures
        r@ == spec_subcategory_constant(category, cat_name@, value, name@),
{
    let mut out: Vec<char> = Vec::new();
    push_str(&mut out, "    /// Bluetooth Appearance UUID.\n    ///\n    /// `0x");
    push_hex(appearance(category, value) as u32, 4, &mut out);
    push_str(&mut out, "` ");
    push_str(&mut out, cat_name);
    push_str(&mut out, " | ");
    push_str(&mut out, name);
    push_str(&mut out, "\n    pub const ");
    let snake = screaming_snake_case(name);
    push_str(&mut out, snake.as_str());
    push_str(&mut out, ": BluetoothUuid16 = from_category(0x");
    push_hex(category as u32, 4, &mut out);
    push_str(&mut out, ", 0x");
    push_hex(value as u32, 4, &mut out);
    push_str(&mut out, ");");
    string_from_chars(&out)
}

/// If the category has a subcategory, create a submodule for it
pub fn appearance_subcategory(cat: &Category) -> (r: String)
    ensures
        r@ == spec_appearance_subcategory(cat.category, cat.name@, spec_subcategories(cat)),
{
    let ghost subs = spec_subcategories(cat);
    let ghost parts = seq![spec_generic_constant(cat.category, cat.name@)] + Seq::new(
        subs.len(),
        |i: int| spec_subcategory_constant(cat.category, cat.name@, subs[i].0, subs[i].1),
    );
    let mut out: Vec<char> = Vec::new();
    let g = generic_constant(cat.category, cat.name.as_str());
    push_str(&mut out, g.as_str());
    proof {
        assert(parts.take(1) =~= seq![parts[0]]);
    }
    match &cat.subcategory {
        Some(subcats) => {
            let mut i: usize = 0;
            while i < subcats.len()
                invariant
                    i <= subcats@.len(),
                    subs == Seq::new(subcats@.len(), |k: int| (subcats@[k].value, subcats@[k].name@)),
                    parts == seq![spec_generic_constant(cat.category, cat.name@)] + Seq::new(
                        subs.len(),
                        |k: int| spec_subcategory_constant(cat.category, cat.name@, subs[k].0, subs[k].1),
                    ),
                    out@ == spec_join(parts.take(i + 1), "\n\n"@),
                decreases subcats@.len() - i,
            {
                push_str(&mut out, "\n\n");
                let c = subcategory_constant(cat.category, cat.name.as_str(), subcats[i].value, subcats[i].name.as_str());
                push_str(&mut out, c.as_str());
                proof {
                    assert(parts.take(i + 2).drop_last() =~= parts.take(i + 1));
                }
                i = i + 1;
            }
            proof {
                assert(parts.take((subs.len() + 1) as int) =~= parts);
            }
        },
        None => {
            proof {
                assert(parts =~= parts.take(1));
            }
        },
    }
    string_from_chars(&out)
}

/// The module name of a category: its name with spaces made underscores,
/// lowercased.
pub open spec fn spec_category_module_name(name: Seq<char>) -> Seq<char> {
    spec_lowercase(spec_replace_char(name, ' ', '_'))
}

/// The declarations for one category: a constant for a category without
/// subcategories, a module of constants for one with subcategories.
pub open spec fn spec_category_tokens(cat: &Category) -> Seq<char> {
    if cat.subcategory is None {
        "/// Bluetooth Appearance UUID.\n///\n/// `0x"@ + spec_hex(crate::uuid::spec_appearance(cat.category, 0) as nat, 4)
            + "` Generic "@ + cat.name@ + "\npub const "@ + spec_screaming_snake_case(cat.name@)
            + ": BluetoothUuid16 = super::from_category(0x"@ + spec_hex(cat.category as nat, 4) + ", 0x"@
            + spec_hex(0, 4) + ");"@
    } else {
        let m = spec_category_module_name(cat.name@);
        "pub mod "@ + m + " {\n    //! Appearance "@ + m + " with subcategories.\n    //!\n    //! Generic variant named `GENERIC_"@
            + spec_screaming_snake_case(cat.name@) + "`.\n\n    use super::super::{from_category, BluetoothUuid16};\n\n    "@
            + spec_appearance_subcategory(cat.category, cat.name@, spec_subcategories(cat)) + "\n}"@
    }
}

/// The declarations for one category.
pub fn category_tokens(cat: &Category) -> (r: String)
    ensures
        r@ == spec_category_tokens(cat),
{
    let mut out: Vec<char> = Vec::new();
    if cat.subcategory.is_none() {
        push_str(&mut out, "/// Bluetooth Appearance UUID.\n///\n/// `0x");
        push_hex(appearance(cat.category, 0) as u32, 4, &mut out);
        push_str(&mut out, "` Generic ");
        push_str(&mut out, cat.name.as_str());
        push_str(&mut out, "\npub const ");
        let snake = screaming_snake_case(cat.name.as_str());
        push_str(&mut out, snake.as_str());
        push_str(&mut out, ": BluetoothUuid16 = super::from_category(0x");
        push_hex(cat.category as u32, 4, &mut out);
        push_str(&mut out, ", 0x");
        push_hex(0, 4, &mut out);
        push_str(&mut out, ");");
    } else {
        let name_chars = str_chars(cat.name.as_str());
        let underscored = string_from_chars(&replace_char(&name_chars, ' ', '_'));
        let m = str_to_lowercase(underscored.as_str());
        push_str(&mut out, "pub mod ");
        push_str(&mut out, m.as_str());
        push_str(&mut out, " {\n    //! Appearance ");
        push_str(&mut out, m.as_str());
        push_str(&mut out, " with subcategories.\n    //!\n    //! Generic variant named `GENERIC_");
        let snake = screaming_snake_case(cat.name.as_str());
        push_str(&mut out, snake.as_str());
        push_str(&mut out, "`.\n\n    use super::super::{from_category, BluetoothUuid16};\n\n    ");
        let sub = appearance_subcategory(cat);
        push_str(&mut out, sub.as_str());
        push_str(&mut out, "\n}");
    }
    string_from_chars(&out)
}

/// The declarations for all the categories, separated by blank lines.
pub fn appearance_tokens(input: &[Category]) -> (r: String)
    ensures
        r@ == spec_join(Seq::new(input@.len(), |i: int| spec_category_tokens(&input@[i])), "\n\n"@),
{
    let ghost parts = Seq::new(input@.len(), |i: int| spec_category_tokens(&input@[i]));
    let mut out: Vec<char> = Vec::new();
    let mut i: usize = 0;
    while i < input.len()
        invariant
            i <= input@.len(),
            parts == Seq::new(input@.len(), |i: int| spec_category_tokens(&input@[i])),
            out@ == spec_join(parts.take(i as int), "\n\n"@),
        decreases input@.len() - i,
    {
        if i > 0 {
            push_str(&mut out, "\n\n");
        }
        let c = category_tokens(&input[i]);
        push_str(&mut out, c.as_str());
        proof {
            assert(parts.take(i + 1).drop_last() =~= parts.take(i as int));
            if i == 0 {
                assert(out@ =~= spec_join(parts.take(1), "\n\n"@));
            }
        }
        i = i + 1;
    }
    proof {
        assert(parts.take(input@.len() as int) =~= parts);
    }
    string_from_chars(&out)
}

/// The text of a generated module file: its header, then the declarations,
/// then a final newline.
pub open spec fn spec_rust_file(name: Seq<char>, tokens: Seq<char>, commit_hash: Seq<char>) -> Seq<char> {
    "//! UUIDs for the "@ + name + " module.\n\n"@
        + "// This file is auto-generated by the update_uuids application.\n"@
        + "// Based on https://bitbucket.org/bluetooth-SIG/public.git\n"@
        + "// Commit hash: "@ + commit_hash + "\n\n"@
        + "use super::BluetoothUuid16;\n\n"@ + tokens + "\n"@
}

/// The text of the module file `name`, holding `tokens`, made from the
/// assigned numbers at `commit_hash`.
pub fn rust_file_contents(name: &str, tokens: &str, commit_hash: &str) -> (r: String)
    ensures
        r@ == spec_rust_file(name@, tokens@, commit_hash@),
{
    let mut out: Vec<char> = Vec::new();
    push_str(&mut out, "//! UUIDs for the ");
    push_str(&mut out, name);
    push_str(&mut out, " module.\n\n");
    push_str(&mut out, "// This file is auto-generated by the update_uuids application.\n");
    push_str(&mut out, "// Based on https://bitbucket.org/bluetooth-SIG/public.git\n");
    push_str(&mut out, "// Commit hash: ");
    push_str(&mut out, commit_hash);
    push_str(&mut out, "\n\n");
    push_str(&mut out, "use super::BluetoothUuid16;\n\n");
    push_str(&mut out, tokens);
    push_str(&mut out, "\n");
    string_from_chars(&out)
}

/// The declarations of the UUID constants of the module `module_name`.
pub open spec fn spec_uuid_tokens(module_name: Seq<char>, uuids: Seq<UuidData>, supplements: Seq<String>) -> Seq<char> {
    spec_join(
        Seq::new(uuids.len(), |i: int| spec_uuid_constant(module_name, uuids[i].uuid, uuids[i].name@, supplements[i]@)),
        "\n\n"@,
    )
}

/// The module file for the assigned-numbers file `file_name`: the output
/// name and the file's text, or `None` where the file is skipped.
pub open spec fn spec_uuid_module_file(
    file_name: Seq<char>,
    uuids: Seq<UuidData>,
    supplements: Seq<String>,
    commit_hash: Seq<char>,
) -> Option<(Seq<char>, Seq<char>)> {
    match spec_module_file_name(file_name) {
        None => None,
        Some(n) => {
            let m = spec_replace_char(n, '_', ' ');
            Some((n, spec_rust_file(m, spec_uuid_tokens(m, uuids, supplements), commit_hash)))
        },
    }
}

/// The module file for the assigned-numbers file `file_name` with the UUIDs
/// `uuids`: its output name and its text, or `None` for the member and SDO
/// files, which are skipped.
pub fn uuid_module_file(file_name: &str, uuids: &[UuidData], supplements: &[String], commit_hash: &str) -> (r: Option<
    (String, String),
>)
    requires
        uuids@.len() == supplements@.len(),
    ensures
        match r {
            Some((n, text)) => spec_uuid_module_file(file_name@, uuids@, supplements@, commit_hash@) == Some(
                (n@, text@),
            ),
            None => spec_uuid_module_file(file_name@, uuids@, supplements@, commit_hash@) is None,
        },
{
    match module_file_name(file_name) {
        None => None,
        Some(output_name) => {
            let m = module_name(output_name.as_str());
            let tokens = uuid_tokens(m.as_str(), uuids, supplements);
            let text = rust_file_contents(m.as_str(), tokens.as_str(), commit_hash);
            Some((output_name, text))
        },
    }
}

/// Update the Appearance values: the text of the `categories` module file,
/// with one declaration per category; subcategories are dealt with as
/// submodules.
pub fn update_appearance(input: &[Category], commit_hash: &str) -> (r: String)
    ensures
        r@ == spec_rust_file(
            "categories"@,
            spec_join(Seq::new(input@.len(), |i: int| spec_category_tokens(&input@[i])), "\n\n"@),
            commit_hash@,
        ),
{
    let m = module_name("categories");
    proof {
        reveal_strlit("categories");
        assert(spec_replace_char("categories"@, '_', ' ') =~= "categories"@);
    }
    let tokens = appearance_tokens(input);
    rust_file_contents(m.as_str(), tokens.as_str(), commit_hash)
}

} // verus!
