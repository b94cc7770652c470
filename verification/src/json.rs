//! The JSON wire and registry format for package descriptors.
//!
//! The catalog server answers with JSON descriptors, and the local registry
//! is one JSON array of descriptors. This module defines that format
//! mathematically — a serializer ([`json_package_list`]) and a parser
//! ([`parse_package_list`]) over sequences of characters — together with
//! executable functions proved against them, and the round-trip laws tying
//! the two together.
//!
//! The grammar is the subset of JSON the format needs: objects with the
//! descriptor's members in their fixed order, strings with the usual escape
//! forms (`\uXXXX` only below U+0080), unsigned decimal numbers that fit in
//! 32 bits, `true`, `false` and `null`, with whitespace allowed between
//! tokens. The serializer emits the canonical form without whitespace,
//! escaping only `"`, `\` and control characters.
use vstd::prelude::*;

use crate::Package;
use crate::PackageModel;
use crate::opt_text_view;

verus! {

// ---------------------------------------------------------------------------
// Character classes
// ---------------------------------------------------------------------------

/// JSON whitespace.
pub open spec fn is_ws(c: char) -> bool {
    c == ' ' || c == '\t' || c == '\n' || c == '\r'
}

/// A decimal digit.
pub open spec fn is_digit(c: char) -> bool {
    '0' <= c && c <= '9'
}

/// The value of a decimal digit.
pub open spec fn digit_val(c: char) -> int {
    c as int - '0' as int
}

/// A hexadecimal digit, either case.
pub open spec fn is_hex(c: char) -> bool {
    is_digit(c) || ('a' <= c && c <= 'f') || ('A' <= c && c <= 'F')
}

/// The value of a hexadecimal digit.
pub open spec fn hex_val(c: char) -> int {
    if is_digit(c) {
        c as int - '0' as int
    } else if 'a' <= c && c <= 'f' {
        c as int - 'a' as int + 10
    } else {
        c as int - 'A' as int + 10
    }
}

/// The character for a decimal digit value.
pub open spec fn digit_char(d: int) -> char {
    if d == 0 { '0' }
    else if d == 1 { '1' }
    else if d == 2 { '2' }
    else if d == 3 { '3' }
    else if d == 4 { '4' }
    else if d == 5 { '5' }
    else if d == 6 { '6' }
    else if d == 7 { '7' }
    else if d == 8 { '8' }
    else { '9' }
}

/// The lower-case character for a hexadecimal digit value.
pub open spec fn hex_char(d: int) -> char {
    if d < 10 { digit_char(d) }
    else if d == 10 { 'a' }
    else if d == 11 { 'b' }
    else if d == 12 { 'c' }
    else if d == 13 { 'd' }
    else if d == 14 { 'e' }
    else { 'f' }
}

// ---------------------------------------------------------------------------
// Serialization: the canonical form
// ---------------------------------------------------------------------------

/// The escape of one character inside a JSON string: `"` and `\` get a
/// backslash, control characters become `\u00XX`, everything else stands
/// as itself.
pub open spec fn esc(c: char) -> Seq<char> {
    if c == '"' {
        seq!['\\', '"']
    } else if c == '\\' {
        seq!['\\', '\\']
    } else if (c as u32) < 0x20 {
        seq!['\\', 'u', '0', '0', hex_char((c as int) / 16), hex_char((c as int) % 16)]
    } else {
        seq![c]
    }
}

/// A text escaped character by character.
pub open spec fn esc_text(s: Seq<char>) -> Seq<char>
    decreases s.len(),
{
    if s.len() == 0 {
        Seq::empty()
    } else {
        esc(s[0]) + esc_text(s.drop_first())
    }
}

/// A JSON string: the escaped text between double quotes.
pub open spec fn json_text(s: Seq<char>) -> Seq<char> {
    seq!['"'] + esc_text(s) + seq!['"']
}

/// An optional JSON string: `null` when absent.
pub open spec fn json_opt_text(o: Option<Seq<char>>) -> Seq<char> {
    match o {
        Option::Some(s) => json_text(s),
        Option::None => lit_null(),
    }
}

/// The decimal digits of a number, most significant first.
pub open spec fn dec_digits(n: nat) -> Seq<char>
    decreases n,
{
    if n < 10 {
        seq![digit_char(n as int)]
    } else {
        dec_digits(n / 10) + seq![digit_char((n % 10) as int)]
    }
}

/// A JSON boolean literal.
pub open spec fn json_bool(b: bool) -> Seq<char> {
    if b { lit_true() } else { lit_false() }
}

/// The member keys of a descriptor object, quotes included.
pub open spec fn key_name() -> Seq<char> { "\"name\""@ }
pub open spec fn key_description() -> Seq<char> { "\"description\""@ }
pub open spec fn key_version() -> Seq<char> { "\"version\""@ }
pub open spec fn key_image_url() -> Seq<char> { "\"image_url\""@ }
pub open spec fn key_archive_path() -> Seq<char> { "\"archive_path\""@ }
pub open spec fn key_executable_path() -> Seq<char> { "\"executable_path\""@ }
pub open spec fn key_crc() -> Seq<char> { "\"crc\""@ }
pub open spec fn key_has_installer() -> Seq<char> { "\"has_installer\""@ }
pub open spec fn key_add_to_path() -> Seq<char> { "\"add_to_path\""@ }

/// The word literals of the grammar.
pub open spec fn lit_null() -> Seq<char> { "null"@ }
pub open spec fn lit_true() -> Seq<char> { "true"@ }
pub open spec fn lit_false() -> Seq<char> { "false"@ }

/// One descriptor as a JSON object, members in their fixed order.
pub open spec fn json_package(p: PackageModel) -> Seq<char> {
    seq!['{']
        + key_name() + seq![':'] + json_text(p.name)
        + seq![','] + key_description() + seq![':'] + json_opt_text(p.description)
        + seq![','] + key_version() + seq![':'] + json_opt_text(p.version)
        + seq![','] + key_image_url() + seq![':'] + json_opt_text(p.image_url)
        + seq![','] + key_archive_path() + seq![':'] + json_text(p.archive_path)
        + seq![','] + key_executable_path() + seq![':'] + json_opt_text(p.executable_path)
        + seq![','] + key_crc() + seq![':'] + dec_digits(p.crc as nat)
        + seq![','] + key_has_installer() + seq![':'] + json_bool(p.has_installer)
        + seq![','] + key_add_to_path() + seq![':'] + json_bool(p.add_to_path)
        + seq!['}']
}

/// The descriptors after the first, each preceded by a comma.
pub open spec fn json_packages_rest(l: Seq<PackageModel>) -> Seq<char>
    decreases l.len(),
{
    if l.len() == 0 {
        Seq::empty()
    } else {
        seq![','] + json_package(l[0]) + json_packages_rest(l.drop_first())
    }
}

/// A list of descriptors as one JSON array.
pub open spec fn json_package_list(l: Seq<PackageModel>) -> Seq<char> {
    if l.len() == 0 {
        seq!['[', ']']
    } else {
        seq!['['] + json_package(l[0]) + json_packages_rest(l.drop_first()) + seq![']']
    }
}

/// The views of a sequence of descriptors.
pub open spec fn pkg_views(l: Seq<Package>) -> Seq<PackageModel> {
    l.map_values(|p: Package| p@)
}

// ---------------------------------------------------------------------------
// Parsing: each parser consumes a prefix of the input and yields the value
// together with the remaining input, or nothing when the prefix is not of
// its form.
// ---------------------------------------------------------------------------

/// The input after any leading whitespace.
pub open spec fn skip_ws(s: Seq<char>) -> Seq<char>
    decreases s.len(),
{
    if s.len() > 0 && is_ws(s[0]) {
        skip_ws(s.drop_first())
    } else {
        s
    }
}

/// The input after a fixed word, when the input starts with it.
pub open spec fn tag(s: Seq<char>, t: Seq<char>) -> Option<Seq<char>> {
    if t.is_prefix_of(s) {
        Option::Some(s.skip(t.len() as int))
    } else {
        Option::None
    }
}

/// The input after any whitespace and one expected character.
pub open spec fn expect_char(s: Seq<char>, c: char) -> Option<Seq<char>> {
    let s1 = skip_ws(s);
    if s1.len() > 0 && s1[0] == c {
        Option::Some(s1.drop_first())
    } else {
        Option::None
    }
}

/// The body of a JSON string after its opening quote: the unescaped
/// characters up to the closing quote, appended to `acc`.
pub open spec fn parse_text_body(s: Seq<char>, acc: Seq<char>) -> Option<(Seq<char>, Seq<char>)>
    decreases s.len(),
{
    if s.len() == 0 {
        Option::None
    } else if s[0] == '"' {
        Option::Some((acc, s.drop_first()))
    } else if s[0] == '\\' {
        if s.len() < 2 {
            Option::None
        } else {
            let e = s[1];
            let rest = s.skip(2);
            if e == '"' { parse_text_body(rest, acc.push('"')) }
            else if e == '\\' { parse_text_body(rest, acc.push('\\')) }
            else if e == '/' { parse_text_body(rest, acc.push('/')) }
            else if e == 'b' { parse_text_body(rest, acc.push('\u{8}')) }
            else if e == 'f' { parse_text_body(rest, acc.push('\u{c}')) }
            else if e == 'n' { parse_text_body(rest, acc.push('\n')) }
            else if e == 'r' { parse_text_body(rest, acc.push('\r')) }
            else if e == 't' { parse_text_body(rest, acc.push('\t')) }
            else if e == 'u' {
                if s.len() < 6 {
                    Option::None
                } else if is_hex(s[2]) && is_hex(s[3]) && is_hex(s[4]) && is_hex(s[5]) {
                    let v = hex_val(s[2]) * 4096 + hex_val(s[3]) * 256 + hex_val(s[4]) * 16
                        + hex_val(s[5]);
                    if v < 0x80 {
                        parse_text_body(s.skip(6), acc.push(v as char))
                    } else {
                        Option::None
                    }
                } else {
                    Option::None
                }
            }
            else { Option::None }
        }
    } else if (s[0] as u32) < 0x20 {
        Option::None
    } else {
        parse_text_body(s.drop_first(), acc.push(s[0]))
    }
}

/// A JSON string: a quote, its body, and the closing quote.
pub open spec fn parse_text(s: Seq<char>) -> Option<(Seq<char>, Seq<char>)> {
    if s.len() > 0 && s[0] == '"' {
        parse_text_body(s.drop_first(), Seq::empty())
    } else {
        Option::None
    }
}

/// A JSON string or `null`.
pub open spec fn parse_opt_text(s: Seq<char>) -> Option<(Option<Seq<char>>, Seq<char>)> {
    match tag(s, lit_null()) {
        Option::Some(rest) => Option::Some((Option::None, rest)),
        Option::None => match parse_text(s) {
            Option::Some((t, rest)) => Option::Some((Option::Some(t), rest)),
            Option::None => Option::None,
        },
    }
}

/// The digits of a number folded onto `acc`, most significant first;
/// nothing when the value would not fit in 32 bits.
pub open spec fn parse_number_body(s: Seq<char>, acc: nat) -> Option<(u32, Seq<char>)>
    decreases s.len(),
{
    if s.len() > 0 && is_digit(s[0]) {
        let a2 = acc * 10 + digit_val(s[0]);
        if a2 > 0xFFFF_FFFF {
            Option::None
        } else {
            parse_number_body(s.drop_first(), a2 as nat)
        }
    } else {
        Option::Some((acc as u32, s))
    }
}

/// A JSON number: one or more decimal digits, a 32-bit value.
pub open spec fn parse_number(s: Seq<char>) -> Option<(u32, Seq<char>)> {
    if s.len() > 0 && is_digit(s[0]) {
        parse_number_body(s, 0)
    } else {
        Option::None
    }
}

/// A JSON boolean literal.
pub open spec fn parse_bool(s: Seq<char>) -> Option<(bool, Seq<char>)> {
    match tag(s, lit_true()) {
        Option::Some(rest) => Option::Some((true, rest)),
        Option::None => match tag(s, lit_false()) {
            Option::Some(rest) => Option::Some((false, rest)),
            Option::None => Option::None,
        },
    }
}

/// A member key and its colon, whitespace allowed around both.
pub open spec fn key_colon(s: Seq<char>, key: Seq<char>) -> Option<Seq<char>> {
    match tag(skip_ws(s), key) {
        Option::Some(r1) => match expect_char(r1, ':') {
            Option::Some(r2) => Option::Some(skip_ws(r2)),
            Option::None => Option::None,
        },
        Option::None => Option::None,
    }
}

/// A comma between members, then a member key and its colon.
pub open spec fn comma_key_colon(s: Seq<char>, key: Seq<char>) -> Option<Seq<char>> {
    match expect_char(s, ',') {
        Option::Some(r) => key_colon(r, key),
        Option::None => Option::None,
    }
}

/// One descriptor object, members in their fixed order.
pub open spec fn parse_package(s: Seq<char>) -> Option<(PackageModel, Seq<char>)> {
    match expect_char(s, '{') {
        Option::None => Option::None,
        Option::Some(s0) => match key_colon(s0, key_name()) {
            Option::None => Option::None,
            Option::Some(s1) => match parse_text(s1) {
                Option::None => Option::None,
                Option::Some((name, s2)) => match comma_key_colon(s2, key_description()) {
                    Option::None => Option::None,
                    Option::Some(s3) => match parse_opt_text(s3) {
                        Option::None => Option::None,
                        Option::Some((description, s4)) => match comma_key_colon(s4, key_version()) {
                            Option::None => Option::None,
                            Option::Some(s5) => match parse_opt_text(s5) {
                                Option::None => Option::None,
                                Option::Some((version, s6)) => parse_package_tail(
                                    s6, name, description, version),
                            },
                        },
                    },
                },
            },
        },
    }
}

/// The members of a descriptor object from `image_url` on.
pub open spec fn parse_package_tail(
    s: Seq<char>,
    name: Seq<char>,
    description: Option<Seq<char>>,
    version: Option<Seq<char>>,
) -> Option<(PackageModel, Seq<char>)> {
    match comma_key_colon(s, key_image_url()) {
        Option::None => Option::None,
        Option::Some(s0) => match parse_opt_text(s0) {
            Option::None => Option::None,
            Option::Some((image_url, s1)) => match comma_key_colon(s1, key_archive_path()) {
                Option::None => Option::None,
                Option::Some(s2) => match parse_text(s2) {
                    Option::None => Option::None,
                    Option::Some((archive_path, s3)) => match comma_key_colon(s3, key_executable_path()) {
                        Option::None => Option::None,
                        Option::Some(s4) => match parse_opt_text(s4) {
                            Option::None => Option::None,
                            Option::Some((executable_path, s5)) => match comma_key_colon(s5, key_crc()) {
                                Option::None => Option::None,
                                Option::Some(s6) => match parse_number(s6) {
                                    Option::None => Option::None,
                                    Option::Some((crc, s7)) => match comma_key_colon(s7, key_has_installer()) {
                                        Option::None => Option::None,
                                        Option::Some(s8) => match parse_bool(s8) {
                                            Option::None => Option::None,
                                            Option::Some((has_installer, s9)) => match comma_key_colon(s9, key_add_to_path()) {
                                                Option::None => Option::None,
                                                Option::Some(s10) => match parse_bool(s10) {
                                                    Option::None => Option::None,
                                                    Option::Some((add_to_path, s11)) => match expect_char(s11, '}') {
                                                        Option::None => Option::None,
                                                        Option::Some(s12) => Option::Some((
                                                            PackageModel {
                                                                name,
                                                                description,
                                                                version,
                                                                image_url,
                                                                archive_path,
                                                                executable_path,
                                                                crc,
                                                                has_installer,
                                                                add_to_path,
                                                            },
                                                            s12,
                                                        )),
                                                    },
                                                },
                                            },
                                        },
                                    },
                                },
                            },
                        },
                    },
                },
            },
        },
    }
}

/// The elements of an array after the first: a closing bracket, or a comma
/// and another descriptor. The length guard keeps the recursion well
/// founded; a successful inner parse always consumes at least a character.
pub open spec fn parse_packages_rest(s: Seq<char>, acc: Seq<PackageModel>) -> Option<(Seq<PackageModel>, Seq<char>)>
    decreases s.len(),
{
    let s1 = skip_ws(s);
    if s1.len() > 0 && s1[0] == ']' {
        Option::Some((acc, s1.drop_first()))
    } else if s1.len() > 0 && s1[0] == ',' {
        match parse_package(s1.drop_first()) {
            Option::Some((p, r)) => if r.len() < s.len() {
                parse_packages_rest(r, acc.push(p))
            } else {
                Option::None
            },
            Option::None => Option::None,
        }
    } else {
        Option::None
    }
}

/// A whole input holding one JSON array of descriptors and nothing else.
pub open spec fn parse_package_list(s: Seq<char>) -> Option<Seq<PackageModel>> {
    match expect_char(s, '[') {
        Option::None => Option::None,
        Option::Some(s0) => {
            let s1 = skip_ws(s0);
            if s1.len() > 0 && s1[0] == ']' {
                if skip_ws(s1.drop_first()).len() == 0 {
                    Option::Some(Seq::empty())
                } else {
                    Option::None
                }
            } else {
                match parse_package(s1) {
                    Option::Some((p, r)) => match parse_packages_rest(r, seq![p]) {
                        Option::Some((l, r2)) => if skip_ws(r2).len() == 0 {
                            Option::Some(l)
                        } else {
                            Option::None
                        },
                        Option::None => Option::None,
                    },
                    Option::None => Option::None,
                }
            }
        },
    }
}

/// A whole input holding one JSON descriptor and nothing else.
pub open spec fn parse_package_complete(s: Seq<char>) -> Option<PackageModel> {
    match parse_package(s) {
        Option::Some((p, rest)) => if skip_ws(rest).len() == 0 {
            Option::Some(p)
        } else {
            Option::None
        },
        Option::None => Option::None,
    }
}

// ---------------------------------------------------------------------------
// Executable helpers on characters and text
// ---------------------------------------------------------------------------

/// The characters of a text, as a vector.
pub fn to_chars(s: &str) -> (v: Vec<char>)
    ensures
        v@ == s@,
{
    let n = s.unicode_len();
    let mut v: Vec<char> = Vec::new();
    let mut i: usize = 0;
    assert(v@ =~= s@.take(0));
    while i < n
        invariant
            i <= n,
            n == s@.len(),
            v@ == s@.take(i as int),
        decreases n - i,
    {
        proof {
            assert(s@.take(i + 1) =~= s@.take(i as int).push(s@[i as int]));
        }
        v.push(s.get_char(i));
        i += 1;
    }
    assert(s@.take(n as int) =~= s@);
    v
}

/// Whether two texts hold the same characters.
pub fn text_eq(a: &str, b: &str) -> (r: bool)
    ensures
        r == (a@ == b@),
{
    let na = a.unicode_len();
    let nb = b.unicode_len();
    if na != nb {
        return false;
    }
    let mut i: usize = 0;
    while i < na
        invariant
            i <= na,
            na == a@.len(),
            nb == b@.len(),
            na == nb,
            forall|j: int| 0 <= j < i ==> a@[j] == b@[j],
        decreases na - i,
    {
        if a.get_char(i) != b.get_char(i) {
            return false;
        }
        i += 1;
    }
    assert(a@ =~= b@);
    true
}

/// Relies on `String`'s `FromIterator<char>` impl: collecting characters
/// yields the string of exactly those characters, in order.
#[verifier::external_body]
fn chars_to_string(v: &Vec<char>) -> (s: String)
    ensures
        s@ == v@,
{
    v.iter().collect()
}

/// The character for a decimal digit value.
fn digit_char_exec(d: u32) -> (c: char)
    requires
        d < 10,
    ensures
        c == digit_char(d as int),
{
    if d == 0 { '0' }
    else if d == 1 { '1' }
    else if d == 2 { '2' }
    else if d == 3 { '3' }
    else if d == 4 { '4' }
    else if d == 5 { '5' }
    else if d == 6 { '6' }
    else if d == 7 { '7' }
    else if d == 8 { '8' }
    else { '9' }
}

/// The lower-case character for a hexadecimal digit value.
fn hex_char_exec(d: u32) -> (c: char)
    requires
        d < 16,
    ensures
        c == hex_char(d as int),
{
    if d < 10 { digit_char_exec(d) }
    else if d == 10 { 'a' }
    else if d == 11 { 'b' }
    else if d == 12 { 'c' }
    else if d == 13 { 'd' }
    else if d == 14 { 'e' }
    else { 'f' }
}

// ---------------------------------------------------------------------------
// The executable serializer
// ---------------------------------------------------------------------------

/// Escaping distributes over appending one character.
proof fn lemma_esc_text_snoc(a: Seq<char>, c: char)
    ensures
        esc_text(a.push(c)) == esc_text(a) + esc(c),
    decreases a.len(),
{
    if a.len() == 0 {
        assert(a.push(c)[0] == c);
        assert(a.push(c).drop_first() =~= Seq::<char>::empty());
        assert(esc_text(Seq::<char>::empty()) == Seq::<char>::empty());
        assert(esc_text(a.push(c)) == esc(c) + Seq::<char>::empty());
        assert(esc(c) + Seq::<char>::empty() =~= esc(c));
        assert(esc_text(a) == Seq::<char>::empty());
        assert(Seq::<char>::empty() + esc(c) =~= esc(c));
    } else {
        assert(a.push(c)[0] == a[0]);
        assert(a.push(c).drop_first() =~= a.drop_first().push(c));
        lemma_esc_text_snoc(a.drop_first(), c);
        assert(esc_text(a.push(c)) == esc(a[0]) + (esc_text(a.drop_first()) + esc(c)));
        assert(esc(a[0]) + (esc_text(a.drop_first()) + esc(c)) =~= (esc(a[0]) + esc_text(
            a.drop_first(),
        )) + esc(c));
    }
}

/// Appends the literal characters of `lit`.
fn push_lit(out: &mut Vec<char>, lit: &str)
    ensures
        final(out)@ == old(out)@ + lit@,
{
    let n = lit.unicode_len();
    let mut i: usize = 0;
    assert(out@ =~= old(out)@ + lit@.take(0));
    while i < n
        invariant
            i <= n,
            n == lit@.len(),
            out@ == old(out)@ + lit@.take(i as int),
        decreases n - i,
    {
        proof {
            assert(lit@.take(i + 1) =~= lit@.take(i as int).push(lit@[i as int]));
            assert(old(out)@ + lit@.take(i + 1) =~= (old(out)@ + lit@.take(i as int)).push(
                lit@[i as int],
            ));
        }
        out.push(lit.get_char(i));
        i += 1;
    }
    assert(lit@.take(n as int) =~= lit@);
}

/// Appends the escape of one character.
fn push_esc(out: &mut Vec<char>, c: char)
    ensures
        final(out)@ == old(out)@ + esc(c),
{
    if c == '"' {
        out.push('\\');
        out.push('"');
        assert(out@ =~= old(out)@ + esc(c));
    } else if c == '\\' {
        out.push('\\');
        out.push('\\');
        assert(out@ =~= old(out)@ + esc(c));
    } else if (c as u32) < 0x20 {
        out.push('\\');
        out.push('u');
        out.push('0');
        out.push('0');
        out.push(hex_char_exec((c as u32) / 16));
        out.push(hex_char_exec((c as u32) % 16));
        assert(out@ =~= old(out)@ + esc(c));
    } else {
        out.push(c);
        assert(out@ =~= old(out)@ + esc(c));
    }
}

/// Appends a text as a JSON string.
fn push_json_text(out: &mut Vec<char>, s: &str)
    ensures
        final(out)@ == old(out)@ + json_text(s@),
{
    out.push('"');
    let n = s.unicode_len();
    let mut i: usize = 0;
    assert(esc_text(s@.take(0)) =~= Seq::<char>::empty());
    assert(out@ =~= old(out)@ + seq!['"'] + esc_text(s@.take(0)));
    while i < n
        invariant
            i <= n,
            n == s@.len(),
            out@ == old(out)@ + seq!['"'] + esc_text(s@.take(i as int)),
        decreases n - i,
    {
        proof {
            assert(s@.take(i + 1) =~= s@.take(i as int).push(s@[i as int]));
            lemma_esc_text_snoc(s@.take(i as int), s@[i as int]);
        }
        push_esc(out, s.get_char(i));
        i += 1;
        assert(out@ =~= old(out)@ + seq!['"'] + esc_text(s@.take(i as int)));
    }
    assert(s@.take(n as int) =~= s@);
    out.push('"');
    assert(out@ =~= old(out)@ + json_text(s@));
}

/// Appends an optional text: a JSON string, or `null`.
fn push_json_opt_text(out: &mut Vec<char>, o: &Option<String>)
    ensures
        final(out)@ == old(out)@ + json_opt_text(opt_text_view(*o)),
{
    match o {
        Option::Some(s) => push_json_text(out, s.as_str()),
        Option::None => push_lit(out, "null"),
    }
}

/// Appends the decimal digits of a number.
fn push_dec(out: &mut Vec<char>, n: u32)
    ensures
        final(out)@ == old(out)@ + dec_digits(n as nat),
    decreases n,
{
    if n < 10 {
        out.push(digit_char_exec(n));
        assert(out@ =~= old(out)@ + dec_digits(n as nat));
    } else {
        push_dec(out, n / 10);
        out.push(digit_char_exec(n % 10));
        assert(out@ =~= old(out)@ + dec_digits(n as nat));
    }
}

/// Appends a JSON boolean literal.
fn push_json_bool(out: &mut Vec<char>, b: bool)
    ensures
        final(out)@ == old(out)@ + json_bool(b),
{
    if b {
        push_lit(out, "true");
    } else {
        push_lit(out, "false");
    }
}

/// Appends one descriptor as a JSON object.
#[verifier::rlimit(100)]
fn push_json_package(out: &mut Vec<char>, p: &Package)
    ensures
        final(out)@ == old(out)@ + json_package(p@),
{
    out.push('{');
    push_lit(out, "\"name\"");
    out.push(':');
    push_json_text(out, p.name.as_str());
    assert(out@ =~= old(out)@ + (seq!['{'] + key_name() + seq![':'] + json_text(p@.name)));
    out.push(',');
    push_lit(out, "\"description\"");
    out.push(':');
    push_json_opt_text(out, &p.description);
    assert(out@ =~= old(out)@ + (seq!['{'] + key_name() + seq![':'] + json_text(p@.name)
        + seq![','] + key_description() + seq![':'] + json_opt_text(p@.description)));
    out.push(',');
    push_lit(out, "\"version\"");
    out.push(':');
    push_json_opt_text(out, &p.version);
    out.push(',');
    push_lit(out, "\"image_url\"");
    out.push(':');
    push_json_opt_text(out, &p.image_url);
    assert(out@ =~= old(out)@ + (seq!['{'] + key_name() + seq![':'] + json_text(p@.name)
        + seq![','] + key_description() + seq![':'] + json_opt_text(p@.description) + seq![',']
        + key_version() + seq![':'] + json_opt_text(p@.version) + seq![','] + key_image_url()
        + seq![':'] + json_opt_text(p@.image_url)));
    out.push(',');
    push_lit(out, "\"archive_path\"");
    out.push(':');
    push_json_text(out, p.archive_path.as_str());
    out.push(',');
    push_lit(out, "\"executable_path\"");
    out.push(':');
    push_json_opt_text(out, &p.executable_path);
    assert(out@ =~= old(out)@ + (seq!['{'] + key_name() + seq![':'] + json_text(p@.name)
        + seq![','] + key_description() + seq![':'] + json_opt_text(p@.description) + seq![',']
        + key_version() + seq![':'] + json_opt_text(p@.version) + seq![','] + key_image_url()
        + seq![':'] + json_opt_text(p@.image_url) + seq![','] + key_archive_path() + seq![':']
        + json_text(p@.archive_path) + seq![','] + key_executable_path() + seq![':']
        + json_opt_text(p@.executable_path)));
    out.push(',');
    push_lit(out, "\"crc\"");
    out.push(':');
    push_dec(out, p.crc);
    out.push(',');
    push_lit(out, "\"has_installer\"");
    out.push(':');
    push_json_bool(out, p.has_installer);
    assert(out@ =~= old(out)@ + (seq!['{'] + key_name() + seq![':'] + json_text(p@.name)
        + seq![','] + key_description() + seq![':'] + json_opt_text(p@.description) + seq![',']
        + key_version() + seq![':'] + json_opt_text(p@.version) + seq![','] + key_image_url()
        + seq![':'] + json_opt_text(p@.image_url) + seq![','] + key_archive_path() + seq![':']
        + json_text(p@.archive_path) + seq![','] + key_executable_path() + seq![':']
        + json_opt_text(p@.executable_path) + seq![','] + key_crc() + seq![':'] + dec_digits(
        p@.crc as nat,
    ) + seq![','] + key_has_installer() + seq![':'] + json_bool(p@.has_installer)));
    out.push(',');
    push_lit(out, "\"add_to_path\"");
    out.push(':');
    push_json_bool(out, p.add_to_path);
    out.push('}');
    assert(out@ =~= old(out)@ + json_package(p@));
}

/// One descriptor as JSON text.
pub fn package_to_json(p: &Package) -> (s: String)
    ensures
        s@ == json_package(p@),
{
    let mut out: Vec<char> = Vec::new();
    push_json_package(&mut out, p);
    assert(out@ =~= json_package(p@));
    chars_to_string(&out)
}

/// Appending one descriptor to the later elements of an array.
proof fn lemma_packages_rest_snoc(l: Seq<PackageModel>, p: PackageModel)
    ensures
        json_packages_rest(l.push(p)) == json_packages_rest(l) + seq![','] + json_package(p),
    decreases l.len(),
{
    if l.len() == 0 {
        assert(l.push(p)[0] == p);
        assert(l.push(p).drop_first() =~= Seq::<PackageModel>::empty());
        assert(json_packages_rest(Seq::<PackageModel>::empty()) == Seq::<char>::empty());
        assert(json_packages_rest(l.push(p)) == seq![','] + json_package(p)
            + Seq::<char>::empty());
        assert(json_packages_rest(l) == Seq::<char>::empty());
        assert(seq![','] + json_package(p) + Seq::<char>::empty() =~= Seq::<char>::empty()
            + seq![','] + json_package(p));
    } else {
        assert(l.push(p)[0] == l[0]);
        assert(l.push(p).drop_first() =~= l.drop_first().push(p));
        lemma_packages_rest_snoc(l.drop_first(), p);
        assert(json_packages_rest(l.push(p)) == seq![','] + json_package(l[0])
            + (json_packages_rest(l.drop_first()) + seq![','] + json_package(p)));
        assert(seq![','] + json_package(l[0]) + (json_packages_rest(l.drop_first()) + seq![',']
            + json_package(p)) =~= (seq![','] + json_package(l[0]) + json_packages_rest(
            l.drop_first(),
        )) + seq![','] + json_package(p));
    }
}

/// A list of descriptors as one JSON array.
pub fn package_list_to_json(l: &Vec<Package>) -> (s: String)
    ensures
        s@ == json_package_list(pkg_views(l@)),
{
    let mut out: Vec<char> = Vec::new();
    out.push('[');
    let mut i: usize = 0;
    while i < l.len()
        invariant
            i <= l@.len(),
            i == 0 ==> out@ == seq!['['],
            i > 0 ==> out@ == seq!['['] + json_package(l@[0]@) + json_packages_rest(
                pkg_views(l@.take(i as int)).drop_first(),
            ),
        decreases l@.len() - i,
    {
        if i > 0 {
            out.push(',');
        }
        push_json_package(&mut out, &l[i]);
        proof {
            assert(pkg_views(l@.take(i + 1)) =~= pkg_views(l@.take(i as int)).push(l@[i as int]@));
            if i == 0 {
                assert(pkg_views(l@.take(1)).drop_first() =~= Seq::<PackageModel>::empty());
                assert(out@ =~= seq!['['] + json_package(l@[0]@) + json_packages_rest(
                    pkg_views(l@.take(1)).drop_first(),
                ));
            } else {
                assert(pkg_views(l@.take(i + 1)).drop_first() =~= pkg_views(
                    l@.take(i as int),
                ).drop_first().push(l@[i as int]@));
                lemma_packages_rest_snoc(pkg_views(l@.take(i as int)).drop_first(), l@[i as int]@);
                assert(out@ =~= seq!['['] + json_package(l@[0]@) + json_packages_rest(
                    pkg_views(l@.take(i + 1)).drop_first(),
                ));
            }
        }
        i += 1;
    }
    out.push(']');
    proof {
        assert(l@.take(l@.len() as int) =~= l@);
        if l@.len() == 0 {
            assert(out@ =~= json_package_list(pkg_views(l@)));
        } else {
            assert(out@ =~= json_package_list(pkg_views(l@)));
        }
    }
    chars_to_string(&out)
}

// ---------------------------------------------------------------------------
// The executable parser
// ---------------------------------------------------------------------------

/// The input from position `i` on.
pub open spec fn tail(s: Seq<char>, i: int) -> Seq<char> {
    s.subrange(i, s.len() as int)
}

proof fn lemma_tail_step(s: Seq<char>, i: int)
    requires
        0 <= i < s.len(),
    ensures
        tail(s, i).drop_first() == tail(s, i + 1),
{
    assert(tail(s, i).drop_first() =~= tail(s, i + 1));
}

proof fn lemma_tail_skip(s: Seq<char>, i: int, k: int)
    requires
        0 <= i,
        0 <= k,
        i + k <= s.len(),
    ensures
        tail(s, i).skip(k) == tail(s, i + k),
{
    assert(tail(s, i).skip(k) =~= tail(s, i + k));
}

/// Whether a character is JSON whitespace.
fn is_ws_exec(c: char) -> (b: bool)
    ensures
        b == is_ws(c),
{
    c == ' ' || c == '\t' || c == '\n' || c == '\r'
}

/// The position after any whitespace at `i`.
fn ws_end(v: &Vec<char>, i: usize) -> (j: usize)
    requires
        i <= v@.len(),
    ensures
        i <= j <= v@.len(),
        skip_ws(tail(v@, i as int)) == tail(v@, j as int),
    decreases v@.len() - i,
{
    if i < v.len() && is_ws_exec(v[i]) {
        proof {
            lemma_tail_step(v@, i as int);
        }
        ws_end(v, i + 1)
    } else {
        i
    }
}

/// Matches the characters of `lit` at `i`.
fn match_lit(v: &Vec<char>, i: usize, lit: &str) -> (r: Option<usize>)
    requires
        i <= v@.len(),
    ensures
        match r {
            Option::Some(j) => i <= j <= v@.len() && tag(tail(v@, i as int), lit@)
                == Option::Some(tail(v@, j as int)),
            Option::None => tag(tail(v@, i as int), lit@) is None,
        },
{
    let n = lit.unicode_len();
    let vn = v.len();
    if n > vn - i {
        assert(!lit@.is_prefix_of(tail(v@, i as int)));
        return Option::None;
    }
    let mut k: usize = 0;
    while k < n
        invariant
            k <= n,
            n == lit@.len(),
            vn == v@.len(),
            i + n <= vn,
            forall|m: int| 0 <= m < k ==> v@[i + m] == lit@[m],
        decreases n - k,
    {
        if v[i + k] != lit.get_char(k) {
            assert(tail(v@, i as int)[k as int] != lit@[k as int]);
            assert(!lit@.is_prefix_of(tail(v@, i as int)));
            return Option::None;
        }
        k += 1;
    }
    proof {
        assert(lit@ =~= tail(v@, i as int).subrange(0, n as int));
        assert(lit@.is_prefix_of(tail(v@, i as int)));
        lemma_tail_skip(v@, i as int, n as int);
    }
    Option::Some(i + n)
}

/// Skips whitespace, then one expected character.
fn expect_char_at(v: &Vec<char>, i: usize, c: char) -> (r: Option<usize>)
    requires
        i <= v@.len(),
    ensures
        match r {
            Option::Some(j) => i <= j <= v@.len() && expect_char(tail(v@, i as int), c)
                == Option::Some(tail(v@, j as int)),
            Option::None => expect_char(tail(v@, i as int), c) is None,
        },
{
    let j = ws_end(v, i);
    if j < v.len() && v[j] == c {
        proof {
            lemma_tail_step(v@, j as int);
        }
        Option::Some(j + 1)
    } else {
        Option::None
    }
}

/// The value of a decimal digit, if the character is one.
fn digit_of(c: char) -> (r: Option<u32>)
    ensures
        r is Some <==> is_digit(c),
        r matches Option::Some(d) ==> d == digit_val(c),
{
    let u = c as u32;
    if 48 <= u && u <= 57 {
        Option::Some(u - 48)
    } else {
        Option::None
    }
}

/// The value of a hexadecimal digit, if the character is one.
fn hex_val_exec(c: char) -> (r: Option<u32>)
    ensures
        r is Some <==> is_hex(c),
        r matches Option::Some(h) ==> h == hex_val(c),
{
    let u = c as u32;
    if 48 <= u && u <= 57 {
        Option::Some(u - 48)
    } else if 97 <= u && u <= 102 {
        Option::Some(u - 97 + 10)
    } else if 65 <= u && u <= 70 {
        Option::Some(u - 65 + 10)
    } else {
        Option::None
    }
}

/// The body of a JSON string after its opening quote.
fn read_text_body(v: &Vec<char>, i: usize, acc: Vec<char>) -> (r: Option<(Vec<char>, usize)>)
    requires
        i <= v@.len(),
    ensures
        match r {
            Option::Some((t, j)) => i <= j <= v@.len() && parse_text_body(tail(v@, i as int), acc@)
                == Option::Some((t@, tail(v@, j as int))),
            Option::None => parse_text_body(tail(v@, i as int), acc@) is None,
        },
    decreases v@.len() - i,
{
    if i == v.len() {
        return Option::None;
    }
    let c = v[i];
    proof {
        lemma_tail_step(v@, i as int);
    }
    if c == '"' {
        Option::Some((acc, i + 1))
    } else if c == '\\' {
        if i + 1 >= v.len() {
            return Option::None;
        }
        let e = v[i + 1];
        proof {
            lemma_tail_skip(v@, i as int, 2);
        }
        let mut acc = acc;
        if e == '"' {
            acc.push('"');
            read_text_body(v, i + 2, acc)
        } else if e == '\\' {
            acc.push('\\');
            read_text_body(v, i + 2, acc)
        } else if e == '/' {
            acc.push('/');
            read_text_body(v, i + 2, acc)
        } else if e == 'b' {
            acc.push('\u{8}');
            read_text_body(v, i + 2, acc)
        } else if e == 'f' {
            acc.push('\u{c}');
            read_text_body(v, i + 2, acc)
        } else if e == 'n' {
            acc.push('\n');
            read_text_body(v, i + 2, acc)
        } else if e == 'r' {
            acc.push('\r');
            read_text_body(v, i + 2, acc)
        } else if e == 't' {
            acc.push('\t');
            read_text_body(v, i + 2, acc)
        } else if e == 'u' {
            if v.len() - i < 6 {
                return Option::None;
            }
            let h1 = hex_val_exec(v[i + 2]);
            let h2 = hex_val_exec(v[i + 3]);
            let h3 = hex_val_exec(v[i + 4]);
            let h4 = hex_val_exec(v[i + 5]);
            match (h1, h2, h3, h4) {
                (Option::Some(a), Option::Some(b), Option::Some(x), Option::Some(y)) => {
                    let val = a * 4096 + b * 256 + x * 16 + y;
                    if val < 0x80 {
                        let ch = (val as u8) as char;
                        proof {
                            lemma_tail_skip(v@, i as int, 6);
                            assert(ch == ((val as int) as char));
                        }
                        acc.push(ch);
                        read_text_body(v, i + 6, acc)
                    } else {
                        Option::None
                    }
                },
                _ => Option::None,
            }
        } else {
            Option::None
        }
    } else if (c as u32) < 0x20 {
        Option::None
    } else {
        let mut acc = acc;
        acc.push(c);
        read_text_body(v, i + 1, acc)
    }
}

/// A JSON string at `i`.
fn read_text(v: &Vec<char>, i: usize) -> (r: Option<(Vec<char>, usize)>)
    requires
        i <= v@.len(),
    ensures
        match r {
            Option::Some((t, j)) => i <= j <= v@.len() && parse_text(tail(v@, i as int))
                == Option::Some((t@, tail(v@, j as int))),
            Option::None => parse_text(tail(v@, i as int)) is None,
        },
{
    if i < v.len() && v[i] == '"' {
        proof {
            lemma_tail_step(v@, i as int);
        }
        read_text_body(v, i + 1, Vec::new())
    } else {
        Option::None
    }
}

/// A JSON string or `null` at `i`.
fn read_opt_text(v: &Vec<char>, i: usize) -> (r: Option<(Option<Vec<char>>, usize)>)
    requires
        i <= v@.len(),
    ensures
        match r {
            Option::Some((t, j)) => i <= j <= v@.len() && parse_opt_text(tail(v@, i as int))
                == Option::Some((
                match t {
                    Option::Some(t) => Option::Some(t@),
                    Option::None => Option::None,
                },
                tail(v@, j as int),
            )),
            Option::None => parse_opt_text(tail(v@, i as int)) is None,
        },
{
    match match_lit(v, i, "null") {
        Option::Some(j) => Option::Some((Option::None, j)),
        Option::None => match read_text(v, i) {
            Option::Some((t, j)) => Option::Some((Option::Some(t), j)),
            Option::None => Option::None,
        },
    }
}

/// The digits of a number at `i`, folded onto `acc`.
fn read_number_body(v: &Vec<char>, i: usize, acc: u64) -> (r: Option<(u32, usize)>)
    requires
        i <= v@.len(),
        acc <= 0xFFFF_FFFF,
    ensures
        match r {
            Option::Some((n, j)) => i <= j <= v@.len() && parse_number_body(
                tail(v@, i as int),
                acc as nat,
            ) == Option::Some((n, tail(v@, j as int))),
            Option::None => parse_number_body(tail(v@, i as int), acc as nat) is None,
        },
    decreases v@.len() - i,
{
    if i < v.len() {
        let c = v[i];
        match digit_of(c) {
            Option::Some(d) => {
                let a2: u64 = acc * 10 + (d as u64);
                proof {
                    lemma_tail_step(v@, i as int);
                    assert(a2 as int == (acc as nat) * 10 + digit_val(c));
                }
                if a2 > 0xFFFF_FFFF {
                    Option::None
                } else {
                    read_number_body(v, i + 1, a2)
                }
            },
            Option::None => Option::Some((acc as u32, i)),
        }
    } else {
        Option::Some((acc as u32, i))
    }
}

/// A JSON number at `i`.
fn read_number(v: &Vec<char>, i: usize) -> (r: Option<(u32, usize)>)
    requires
        i <= v@.len(),
    ensures
        match r {
            Option::Some((n, j)) => i <= j <= v@.len() && parse_number(tail(v@, i as int))
                == Option::Some((n, tail(v@, j as int))),
            Option::None => parse_number(tail(v@, i as int)) is None,
        },
{
    if i < v.len() {
        match digit_of(v[i]) {
            Option::Some(_) => read_number_body(v, i, 0),
            Option::None => Option::None,
        }
    } else {
        Option::None
    }
}

/// A JSON boolean at `i`.
fn read_bool(v: &Vec<char>, i: usize) -> (r: Option<(bool, usize)>)
    requires
        i <= v@.len(),
    ensures
        match r {
            Option::Some((b, j)) => i <= j <= v@.len() && parse_bool(tail(v@, i as int))
                == Option::Some((b, tail(v@, j as int))),
            Option::None => parse_bool(tail(v@, i as int)) is None,
        },
{
    match match_lit(v, i, "true") {
        Option::Some(j) => Option::Some((true, j)),
        Option::None => match match_lit(v, i, "false") {
            Option::Some(j) => Option::Some((false, j)),
            Option::None => Option::None,
        },
    }
}

/// A member key and its colon at `i`.
fn read_key_colon(v: &Vec<char>, i: usize, key: &str) -> (r: Option<usize>)
    requires
        i <= v@.len(),
    ensures
        match r {
            Option::Some(j) => i <= j <= v@.len() && key_colon(tail(v@, i as int), key@)
                == Option::Some(tail(v@, j as int)),
            Option::None => key_colon(tail(v@, i as int), key@) is None,
        },
{
    let j0 = ws_end(v, i);
    match match_lit(v, j0, key) {
        Option::None => Option::None,
        Option::Some(j1) => match expect_char_at(v, j1, ':') {
            Option::None => Option::None,
            Option::Some(j2) => Option::Some(ws_end(v, j2)),
        },
    }
}

/// A comma, then a member key and its colon, at `i`.
fn read_comma_key_colon(v: &Vec<char>, i: usize, key: &str) -> (r: Option<usize>)
    requires
        i <= v@.len(),
    ensures
        match r {
            Option::Some(j) => i <= j <= v@.len() && comma_key_colon(tail(v@, i as int), key@)
                == Option::Some(tail(v@, j as int)),
            Option::None => comma_key_colon(tail(v@, i as int), key@) is None,
        },
{
    match expect_char_at(v, i, ',') {
        Option::None => Option::None,
        Option::Some(j) => read_key_colon(v, j, key),
    }
}

/// The text value of an optional member, as a string.
fn opt_chars_to_string(t: Option<Vec<char>>) -> (r: Option<String>)
    ensures
        opt_text_view(r) == (match t {
            Option::Some(t) => Option::Some(t@),
            Option::None => Option::<Seq<char>>::None,
        }),
{
    match t {
        Option::Some(t) => Option::Some(chars_to_string(&t)),
        Option::None => Option::None,
    }
}

/// One descriptor object at `i`.
fn read_package(v: &Vec<char>, i: usize) -> (r: Option<(Package, usize)>)
    requires
        i <= v@.len(),
    ensures
        match r {
            Option::Some((p, j)) => i <= j <= v@.len() && parse_package(tail(v@, i as int))
                == Option::Some((p@, tail(v@, j as int))),
            Option::None => parse_package(tail(v@, i as int)) is None,
        },
{
    let s0 = match expect_char_at(v, i, '{') {
        Option::Some(j) => j,
        Option::None => { return Option::None; },
    };
    let s1 = match read_key_colon(v, s0, "\"name\"") {
        Option::Some(j) => j,
        Option::None => { return Option::None; },
    };
    let (name, s2) = match read_text(v, s1) {
        Option::Some(x) => x,
        Option::None => { return Option::None; },
    };
    let s3 = match read_comma_key_colon(v, s2, "\"description\"") {
        Option::Some(j) => j,
        Option::None => { return Option::None; },
    };
    let (description, s4) = match read_opt_text(v, s3) {
        Option::Some(x) => x,
        Option::None => { return Option::None; },
    };
    let s5 = match read_comma_key_colon(v, s4, "\"version\"") {
        Option::Some(j) => j,
        Option::None => { return Option::None; },
    };
    let (version, s6) = match read_opt_text(v, s5) {
        Option::Some(x) => x,
        Option::None => { return Option::None; },
    };
    let s7 = match read_comma_key_colon(v, s6, "\"image_url\"") {
        Option::Some(j) => j,
        Option::None => { return Option::None; },
    };
    let (image_url, s8) = match read_opt_text(v, s7) {
        Option::Some(x) => x,
        Option::None => { return Option::None; },
    };
    let s9 = match read_comma_key_colon(v, s8, "\"archive_path\"") {
        Option::Some(j) => j,
        Option::None => { return Option::None; },
    };
    let (archive_path, s10) = match read_text(v, s9) {
        Option::Some(x) => x,
        Option::None => { return Option::None; },
    };
    let s11 = match read_comma_key_colon(v, s10, "\"executable_path\"") {
        Option::Some(j) => j,
        Option::None => { return Option::None; },
    };
    let (executable_path, s12) = match read_opt_text(v, s11) {
        Option::Some(x) => x,
        Option::None => { return Option::None; },
    };
    let s13 = match read_comma_key_colon(v, s12, "\"crc\"") {
        Option::Some(j) => j,
        Option::None => { return Option::None; },
    };
    let (crc, s14) = match read_number(v, s13) {
        Option::Some(x) => x,
        Option::None => { return Option::None; },
    };
    let s15 = match read_comma_key_colon(v, s14, "\"has_installer\"") {
        Option::Some(j) => j,
        Option::None => { return Option::None; },
    };
    let (has_installer, s16) = match read_bool(v, s15) {
        Option::Some(x) => x,
        Option::None => { return Option::None; },
    };
    let s17 = match read_comma_key_colon(v, s16, "\"add_to_path\"") {
        Option::Some(j) => j,
        Option::None => { return Option::None; },
    };
    let (add_to_path, s18) = match read_bool(v, s17) {
        Option::Some(x) => x,
        Option::None => { return Option::None; },
    };
    let s19 = match expect_char_at(v, s18, '}') {
        Option::Some(j) => j,
        Option::None => { return Option::None; },
    };
    let p = Package {
        name: chars_to_string(&name),
        description: opt_chars_to_string(description),
        version: opt_chars_to_string(version),
        image_url: opt_chars_to_string(image_url),
        archive_path: chars_to_string(&archive_path),
        executable_path: opt_chars_to_string(executable_path),
        crc,
        has_installer,
        add_to_path,
    };
    Option::Some((p, s19))
}

/// The elements of an array after the first, collected onto `acc`.
fn read_packages_rest(v: &Vec<char>, i: usize, acc: Vec<Package>) -> (r: Option<
    (Vec<Package>, usize),
>)
    requires
        i <= v@.len(),
    ensures
        match r {
            Option::Some((l, j)) => i <= j <= v@.len() && parse_packages_rest(
                tail(v@, i as int),
                pkg_views(acc@),
            ) == Option::Some((pkg_views(l@), tail(v@, j as int))),
            Option::None => parse_packages_rest(tail(v@, i as int), pkg_views(acc@)) is None,
        },
    decreases v@.len() - i,
{
    let j1 = ws_end(v, i);
    if j1 < v.len() && v[j1] == ']' {
        proof {
            lemma_tail_step(v@, j1 as int);
        }
        Option::Some((acc, j1 + 1))
    } else if j1 < v.len() && v[j1] == ',' {
        proof {
            lemma_tail_step(v@, j1 as int);
        }
        match read_package(v, j1 + 1) {
            Option::Some((p, j2)) => {
                if j2 > i {
                    let mut acc = acc;
                    proof {
                        assert(pkg_views(acc@.push(p)) =~= pkg_views(acc@).push(p@));
                    }
                    acc.push(p);
                    read_packages_rest(v, j2, acc)
                } else {
                    Option::None
                }
            },
            Option::None => Option::None,
        }
    } else {
        Option::None
    }
}

/// Decodes one descriptor from JSON text: the whole input must be one
/// descriptor object.
pub fn package_from_json(s: &str) -> (r: Option<Package>)
    ensures
        match r {
            Option::Some(p) => parse_package_complete(s@) == Option::Some(p@),
            Option::None => parse_package_complete(s@) is None,
        },
{
    let v = to_chars(s);
    assert(tail(v@, 0) =~= s@);
    match read_package(&v, 0) {
        Option::Some((p, j)) => {
            let j2 = ws_end(&v, j);
            if j2 == v.len() {
                Option::Some(p)
            } else {
                Option::None
            }
        },
        Option::None => Option::None,
    }
}

// ---------------------------------------------------------------------------
// Round trip: whatever the serializer writes, the parser reads back.
// ---------------------------------------------------------------------------

/// A fixed word parses as itself.
proof fn lemma_tag(t: Seq<char>, rest: Seq<char>)
    ensures
        tag(t + rest, t) == Option::Some(rest),
{
    assert((t + rest).subrange(0, t.len() as int) =~= t);
    assert(t.is_prefix_of(t + rest));
    assert((t + rest).skip(t.len() as int) =~= rest);
}

/// Skipping whitespace leaves an input alone when none leads it.
proof fn lemma_skip_ws_none(s: Seq<char>)
    requires
        s.len() == 0 || !is_ws(s[0]),
    ensures
        skip_ws(s) == s,
{
}

/// One expected character at the head of the input.
proof fn lemma_expect_char(c: char, rest: Seq<char>)
    requires
        !is_ws(c),
    ensures
        expect_char(seq![c] + rest, c) == Option::Some(rest),
{
    let s = seq![c] + rest;
    assert(s[0] == c);
    lemma_skip_ws_none(s);
    assert(s.drop_first() =~= rest);
}

/// Hexadecimal digit characters carry their value.
proof fn lemma_hex_char_val(d: int)
    requires
        0 <= d < 16,
    ensures
        is_hex(hex_char(d)),
        hex_val(hex_char(d)) == d,
{
}

/// One escaped character is unescaped back to itself.
proof fn lemma_esc_step(c: char, rest: Seq<char>, acc: Seq<char>)
    ensures
        parse_text_body(esc(c) + rest, acc) == parse_text_body(rest, acc.push(c)),
{
    let s = esc(c) + rest;
    if c == '"' {
        assert(s[0] == '\\' && s[1] == '"');
        assert(s.skip(2) =~= rest);
    } else if c == '\\' {
        assert(s[0] == '\\' && s[1] == '\\');
        assert(s.skip(2) =~= rest);
    } else if (c as u32) < 0x20 {
        let hi = (c as int) / 16;
        let lo = (c as int) % 16;
        assert(s[0] == '\\' && s[1] == 'u' && s[2] == '0' && s[3] == '0' && s[4] == hex_char(hi)
            && s[5] == hex_char(lo));
        lemma_hex_char_val(hi);
        lemma_hex_char_val(lo);
        assert(hex_val(s[2]) == 0 && hex_val(s[3]) == 0);
        let v = hex_val(s[2]) * 4096 + hex_val(s[3]) * 256 + hex_val(s[4]) * 16 + hex_val(s[5]);
        assert(v == hi * 16 + lo);
        assert(v == c as int);
        assert(v < 0x80);
        assert((v as char) == c);
        assert(s.skip(6) =~= rest);
    } else {
        assert(s[0] == c);
        assert(s.drop_first() =~= rest);
    }
}

/// An escaped text followed by a closing quote is unescaped back to itself.
proof fn lemma_esc_text_roundtrip(x: Seq<char>, rest: Seq<char>, acc: Seq<char>)
    ensures
        parse_text_body(esc_text(x) + (seq!['"'] + rest), acc) == Option::Some((acc + x, rest)),
    decreases x.len(),
{
    if x.len() == 0 {
        let s = esc_text(x) + (seq!['"'] + rest);
        assert(s =~= seq!['"'] + rest);
        assert(s[0] == '"');
        assert(s.drop_first() =~= rest);
        assert(acc + x =~= acc);
    } else {
        assert(esc_text(x) + (seq!['"'] + rest) =~= esc(x[0]) + (esc_text(x.drop_first()) + (seq![
            '"',
        ] + rest)));
        lemma_esc_step(x[0], esc_text(x.drop_first()) + (seq!['"'] + rest), acc);
        lemma_esc_text_roundtrip(x.drop_first(), rest, acc.push(x[0]));
        assert(acc.push(x[0]) + x.drop_first() =~= acc + x);
    }
}

/// A serialized string parses back to itself.
proof fn lemma_text_roundtrip(x: Seq<char>, rest: Seq<char>)
    ensures
        parse_text(json_text(x) + rest) == Option::Some((x, rest)),
{
    let s = json_text(x) + rest;
    assert(s[0] == '"');
    assert(s.drop_first() =~= esc_text(x) + (seq!['"'] + rest));
    lemma_esc_text_roundtrip(x, rest, Seq::empty());
    assert(Seq::empty() + x =~= x);
}

/// A serialized optional string parses back to itself.
proof fn lemma_opt_text_roundtrip(o: Option<Seq<char>>, rest: Seq<char>)
    ensures
        parse_opt_text(json_opt_text(o) + rest) == Option::Some((o, rest)),
{
    reveal_strlit("null");
    match o {
        Option::None => {
            lemma_tag(lit_null(), rest);
        },
        Option::Some(x) => {
            let s = json_text(x) + rest;
            assert(s[0] == '"');
            if lit_null().is_prefix_of(s) {
                assert(s[0] == lit_null()[0]);
                assert(false);
            }
            lemma_text_roundtrip(x, rest);
        },
    }
}

/// Powers of ten.
pub open spec fn pow10(k: nat) -> nat
    decreases k,
{
    if k == 0 {
        1
    } else {
        10 * pow10((k - 1) as nat)
    }
}

/// The number of decimal digits of a value.
pub open spec fn dec_len(n: nat) -> nat
    decreases n,
{
    if n < 10 {
        1
    } else {
        1 + dec_len(n / 10)
    }
}

/// Digit characters carry their value.
proof fn lemma_digit_char_val(d: int)
    requires
        0 <= d < 10,
    ensures
        is_digit(digit_char(d)),
        digit_val(digit_char(d)) == d,
{
}

/// Folding the serialized digits of `n` onto an accumulator.
proof fn lemma_parse_number_chain(n: nat, acc: nat, rest: Seq<char>)
    requires
        acc * pow10(dec_len(n)) + n <= 0xFFFF_FFFF,
    ensures
        parse_number_body(dec_digits(n) + rest, acc) == parse_number_body(
            rest,
            (acc * pow10(dec_len(n)) + n) as nat,
        ),
    decreases n,
{
    if n < 10 {
        let s = dec_digits(n) + rest;
        lemma_digit_char_val(n as int);
        assert(s[0] == digit_char(n as int));
        assert(pow10(0) == 1);
        assert(pow10(1) == 10);
        assert(acc * 10 + digit_val(s[0]) == acc * 10 + n);
        assert(s.drop_first() =~= rest);
    } else {
        let d = (n % 10) as int;
        let k = dec_len(n);
        assert(k == 1 + dec_len(n / 10));
        assert(pow10(k) == 10 * pow10(dec_len(n / 10)));
        let a1 = acc * pow10(dec_len(n / 10)) + n / 10;
        assert(a1 * 10 + n % 10 == acc * pow10(k) + n) by (nonlinear_arith)
            requires
                pow10(k) == 10 * pow10(dec_len(n / 10)),
                a1 == acc * pow10(dec_len(n / 10)) + n / 10,
                n >= 10,
        {
            assert(n == (n / 10) * 10 + n % 10);
        }
        assert(a1 * 10 <= a1 * 10 + n % 10);
        assert(a1 <= a1 * 10) by (nonlinear_arith)
            requires
                a1 >= 0,
        {
        }
        assert(a1 * pow10(dec_len(n / 10)) >= 0);
        assert(dec_digits(n) + rest =~= dec_digits(n / 10) + (seq![digit_char(d)] + rest));
        lemma_parse_number_chain(n / 10, acc, seq![digit_char(d)] + rest);
        let s2 = seq![digit_char(d)] + rest;
        lemma_digit_char_val(d);
        assert(s2[0] == digit_char(d));
        assert(a1 * 10 + digit_val(s2[0]) == a1 * 10 + n % 10);
        assert(s2.drop_first() =~= rest);
    }
}

/// Every serialized digit character is a digit.
proof fn lemma_dec_digits_digits(n: nat)
    ensures
        dec_digits(n).len() > 0,
        is_digit(dec_digits(n)[0]),
    decreases n,
{
    if n < 10 {
        lemma_digit_char_val(n as int);
    } else {
        lemma_dec_digits_digits(n / 10);
        assert(dec_digits(n)[0] == dec_digits(n / 10)[0]);
    }
}

/// A serialized number parses back to itself, up to the first non-digit.
proof fn lemma_number_roundtrip(n: u32, rest: Seq<char>)
    requires
        rest.len() == 0 || !is_digit(rest[0]),
    ensures
        parse_number(dec_digits(n as nat) + rest) == Option::Some((n, rest)),
{
    let s = dec_digits(n as nat) + rest;
    lemma_dec_digits_digits(n as nat);
    assert(s[0] == dec_digits(n as nat)[0]);
    assert(pow10(dec_len(n as nat)) >= 1) by {
        lemma_pow10_pos(dec_len(n as nat));
    }
    lemma_parse_number_chain(n as nat, 0, rest);
}

proof fn lemma_pow10_pos(k: nat)
    ensures
        pow10(k) >= 1,
    decreases k,
{
    if k > 0 {
        lemma_pow10_pos((k - 1) as nat);
    }
}

/// A serialized boolean parses back to itself.
proof fn lemma_bool_roundtrip(b: bool, rest: Seq<char>)
    ensures
        parse_bool(json_bool(b) + rest) == Option::Some((b, rest)),
{
    reveal_strlit("true");
    reveal_strlit("false");
    if b {
        lemma_tag(lit_true(), rest);
    } else {
        let s = lit_false() + rest;
        assert(s[0] == 'f');
        if lit_true().is_prefix_of(s) {
            assert(s[0] == lit_true()[0]);
            assert(false);
        }
        lemma_tag(lit_false(), rest);
    }
}

/// A member key and its colon, at the head of the input.
proof fn lemma_key_colon(key: Seq<char>, rest: Seq<char>)
    requires
        key.len() > 0,
        !is_ws(key[0]),
        rest.len() > 0,
        !is_ws(rest[0]),
    ensures
        key_colon(key + (seq![':'] + rest), key) == Option::Some(rest),
{
    let s = key + (seq![':'] + rest);
    assert(s[0] == key[0]);
    lemma_skip_ws_none(s);
    lemma_tag(key, seq![':'] + rest);
    lemma_expect_char(':', rest);
    lemma_skip_ws_none(rest);
}

/// A comma, a member key and its colon, at the head of the input.
proof fn lemma_comma_key_colon(key: Seq<char>, rest: Seq<char>)
    requires
        key.len() > 0,
        !is_ws(key[0]),
        rest.len() > 0,
        !is_ws(rest[0]),
    ensures
        comma_key_colon(seq![','] + (key + (seq![':'] + rest)), key) == Option::Some(rest),
{
    lemma_expect_char(',', key + (seq![':'] + rest));
    lemma_key_colon(key, rest);
}

/// The serialized value of an optional text member starts with a quote or
/// with `null`.
proof fn lemma_opt_text_first(o: Option<Seq<char>>)
    ensures
        json_opt_text(o).len() > 0,
        !is_ws(json_opt_text(o)[0]),
{
    reveal_strlit("null");
    match o {
        Option::None => {
            assert(json_opt_text(o)[0] == 'n');
        },
        Option::Some(x) => {
            assert(json_opt_text(o)[0] == '"');
        },
    }
}

/// The serialized value of a boolean member starts with `t` or `f`.
proof fn lemma_bool_first(b: bool)
    ensures
        json_bool(b).len() > 0,
        !is_ws(json_bool(b)[0]),
{
    reveal_strlit("true");
    reveal_strlit("false");
    if b {
        assert(json_bool(b)[0] == 't');
    } else {
        assert(json_bool(b)[0] == 'f');
    }
}

/// The serialization of a descriptor and what follows it, grouped as the
/// parser consumes it: each token prefixed to the remaining input.
pub open spec fn package_tail_chain(p: PackageModel, rest: Seq<char>) -> Seq<char> {
    let t = seq!['}'] + rest;
    let t = json_bool(p.add_to_path) + t;
    let t = seq![':'] + t;
    let t = key_add_to_path() + t;
    let t = seq![','] + t;
    let t = json_bool(p.has_installer) + t;
    let t = seq![':'] + t;
    let t = key_has_installer() + t;
    let t = seq![','] + t;
    let t = dec_digits(p.crc as nat) + t;
    let t = seq![':'] + t;
    let t = key_crc() + t;
    let t = seq![','] + t;
    let t = json_opt_text(p.executable_path) + t;
    let t = seq![':'] + t;
    let t = key_executable_path() + t;
    let t = seq![','] + t;
    let t = json_text(p.archive_path) + t;
    let t = seq![':'] + t;
    let t = key_archive_path() + t;
    let t = seq![','] + t;
    let t = json_opt_text(p.image_url) + t;
    let t = seq![':'] + t;
    let t = key_image_url() + t;
    seq![','] + t
}

/// The whole serialized descriptor and what follows it, grouped as the
/// parser consumes it.
pub open spec fn package_chain(p: PackageModel, rest: Seq<char>) -> Seq<char> {
    let t = package_tail_chain(p, rest);
    let t = json_opt_text(p.version) + t;
    let t = seq![':'] + t;
    let t = key_version() + t;
    let t = seq![','] + t;
    let t = json_opt_text(p.description) + t;
    let t = seq![':'] + t;
    let t = key_description() + t;
    let t = seq![','] + t;
    let t = json_text(p.name) + t;
    let t = seq![':'] + t;
    let t = key_name() + t;
    seq!['{'] + t
}

/// Concatenation shifts across grouping.
proof fn lemma_shift(a: Seq<char>, b: Seq<char>, c: Seq<char>)
    ensures
        (a + b) + c == a + (b + c),
{
    assert((a + b) + c =~= a + (b + c));
}

/// The flat serialization equals its parser-shaped regrouping.
proof fn lemma_package_chain(p: PackageModel, rest: Seq<char>)
    ensures
        json_package(p) + rest == package_chain(p, rest),
{
    let l01 = seq!['{'];
    let l02 = l01 + key_name();
    let l03 = l02 + seq![':'];
    let l04 = l03 + json_text(p.name);
    let l05 = l04 + seq![','];
    let l06 = l05 + key_description();
    let l07 = l06 + seq![':'];
    let l08 = l07 + json_opt_text(p.description);
    let l09 = l08 + seq![','];
    let l10 = l09 + key_version();
    let l11 = l10 + seq![':'];
    let l12 = l11 + json_opt_text(p.version);
    let l13 = l12 + seq![','];
    let l14 = l13 + key_image_url();
    let l15 = l14 + seq![':'];
    let l16 = l15 + json_opt_text(p.image_url);
    let l17 = l16 + seq![','];
    let l18 = l17 + key_archive_path();
    let l19 = l18 + seq![':'];
    let l20 = l19 + json_text(p.archive_path);
    let l21 = l20 + seq![','];
    let l22 = l21 + key_executable_path();
    let l23 = l22 + seq![':'];
    let l24 = l23 + json_opt_text(p.executable_path);
    let l25 = l24 + seq![','];
    let l26 = l25 + key_crc();
    let l27 = l26 + seq![':'];
    let l28 = l27 + dec_digits(p.crc as nat);
    let l29 = l28 + seq![','];
    let l30 = l29 + key_has_installer();
    let l31 = l30 + seq![':'];
    let l32 = l31 + json_bool(p.has_installer);
    let l33 = l32 + seq![','];
    let l34 = l33 + key_add_to_path();
    let l35 = l34 + seq![':'];
    let l36 = l35 + json_bool(p.add_to_path);
    assert(json_package(p) == l36 + seq!['}']);

    let r37 = seq!['}'] + rest;
    assert((l36 + seq!['}']) + rest == l36 + r37) by {
        lemma_shift(l36, seq!['}'], rest);
    }
    let r36 = json_bool(p.add_to_path) + r37;
    assert(l36 + r37 == l35 + r36) by {
        lemma_shift(l35, json_bool(p.add_to_path), r37);
    }
    let r35 = seq![':'] + r36;
    assert(l35 + r36 == l34 + r35) by {
        lemma_shift(l34, seq![':'], r36);
    }
    let r34 = key_add_to_path() + r35;
    assert(l34 + r35 == l33 + r34) by {
        lemma_shift(l33, key_add_to_path(), r35);
    }
    let r33 = seq![','] + r34;
    assert(l33 + r34 == l32 + r33) by {
        lemma_shift(l32, seq![','], r34);
    }
    let r32 = json_bool(p.has_installer) + r33;
    assert(l32 + r33 == l31 + r32) by {
        lemma_shift(l31, json_bool(p.has_installer), r33);
    }
    let r31 = seq![':'] + r32;
    assert(l31 + r32 == l30 + r31) by {
        lemma_shift(l30, seq![':'], r32);
    }
    let r30 = key_has_installer() + r31;
    assert(l30 + r31 == l29 + r30) by {
        lemma_shift(l29, key_has_installer(), r31);
    }
    let r29 = seq![','] + r30;
    assert(l29 + r30 == l28 + r29) by {
        lemma_shift(l28, seq![','], r30);
    }
    let r28 = dec_digits(p.crc as nat) + r29;
    assert(l28 + r29 == l27 + r28) by {
        lemma_shift(l27, dec_digits(p.crc as nat), r29);
    }
    let r27 = seq![':'] + r28;
    assert(l27 + r28 == l26 + r27) by {
        lemma_shift(l26, seq![':'], r28);
    }
    let r26 = key_crc() + r27;
    assert(l26 + r27 == l25 + r26) by {
        lemma_shift(l25, key_crc(), r27);
    }
    let r25 = seq![','] + r26;
    assert(l25 + r26 == l24 + r25) by {
        lemma_shift(l24, seq![','], r26);
    }
    let r24 = json_opt_text(p.executable_path) + r25;
    assert(l24 + r25 == l23 + r24) by {
        lemma_shift(l23, json_opt_text(p.executable_path), r25);
    }
    let r23 = seq![':'] + r24;
    assert(l23 + r24 == l22 + r23) by {
        lemma_shift(l22, seq![':'], r24);
    }
    let r22 = key_executable_path() + r23;
    assert(l22 + r23 == l21 + r22) by {
        lemma_shift(l21, key_executable_path(), r23);
    }
    let r21 = seq![','] + r22;
    assert(l21 + r22 == l20 + r21) by {
        lemma_shift(l20, seq![','], r22);
    }
    let r20 = json_text(p.archive_path) + r21;
    assert(l20 + r21 == l19 + r20) by {
        lemma_shift(l19, json_text(p.archive_path), r21);
    }
    let r19 = seq![':'] + r20;
    assert(l19 + r20 == l18 + r19) by {
        lemma_shift(l18, seq![':'], r20);
    }
    let r18 = key_archive_path() + r19;
    assert(l18 + r19 == l17 + r18) by {
        lemma_shift(l17, key_archive_path(), r19);
    }
    let r17 = seq![','] + r18;
    assert(l17 + r18 == l16 + r17) by {
        lemma_shift(l16, seq![','], r18);
    }
    let r16 = json_opt_text(p.image_url) + r17;
    assert(l16 + r17 == l15 + r16) by {
        lemma_shift(l15, json_opt_text(p.image_url), r17);
    }
    let r15 = seq![':'] + r16;
    assert(l15 + r16 == l14 + r15) by {
        lemma_shift(l14, seq![':'], r16);
    }
    let r14 = key_image_url() + r15;
    assert(l14 + r15 == l13 + r14) by {
        lemma_shift(l13, key_image_url(), r15);
    }
    let r13 = seq![','] + r14;
    assert(l13 + r14 == l12 + r13) by {
        lemma_shift(l12, seq![','], r14);
    }
    assert(r13 == package_tail_chain(p, rest));
    let r12 = json_opt_text(p.version) + r13;
    assert(l12 + r13 == l11 + r12) by {
        lemma_shift(l11, json_opt_text(p.version), r13);
    }
    let r11 = seq![':'] + r12;
    assert(l11 + r12 == l10 + r11) by {
        lemma_shift(l10, seq![':'], r12);
    }
    let r10 = key_version() + r11;
    assert(l10 + r11 == l09 + r10) by {
        lemma_shift(l09, key_version(), r11);
    }
    let r09 = seq![','] + r10;
    assert(l09 + r10 == l08 + r09) by {
        lemma_shift(l08, seq![','], r10);
    }
    let r08 = json_opt_text(p.description) + r09;
    assert(l08 + r09 == l07 + r08) by {
        lemma_shift(l07, json_opt_text(p.description), r09);
    }
    let r07 = seq![':'] + r08;
    assert(l07 + r08 == l06 + r07) by {
        lemma_shift(l06, seq![':'], r08);
    }
    let r06 = key_description() + r07;
    assert(l06 + r07 == l05 + r06) by {
        lemma_shift(l05, key_description(), r07);
    }
    let r05 = seq![','] + r06;
    assert(l05 + r06 == l04 + r05) by {
        lemma_shift(l04, seq![','], r06);
    }
    let r04 = json_text(p.name) + r05;
    assert(l04 + r05 == l03 + r04) by {
        lemma_shift(l03, json_text(p.name), r05);
    }
    let r03 = seq![':'] + r04;
    assert(l03 + r04 == l02 + r03) by {
        lemma_shift(l02, seq![':'], r04);
    }
    let r02 = key_name() + r03;
    assert(l02 + r03 == l01 + r02) by {
        lemma_shift(l01, key_name(), r03);
    }
    assert(l01 + r02 == package_chain(p, rest));
}

/// A comma, a key, a colon and a serialized text member parse back.
proof fn lemma_member_text(key: Seq<char>, x: Seq<char>, after: Seq<char>)
    requires
        key.len() > 0,
        !is_ws(key[0]),
    ensures
        comma_key_colon(seq![','] + (key + (seq![':'] + (json_text(x) + after))), key)
            == Option::Some(json_text(x) + after),
        parse_text(json_text(x) + after) == Option::Some((x, after)),
{
    let v = json_text(x) + after;
    assert(v[0] == '"');
    lemma_comma_key_colon(key, v);
    lemma_text_roundtrip(x, after);
}

/// A comma, a key, a colon and a serialized optional text member parse back.
proof fn lemma_member_opt_text(key: Seq<char>, o: Option<Seq<char>>, after: Seq<char>)
    requires
        key.len() > 0,
        !is_ws(key[0]),
    ensures
        comma_key_colon(seq![','] + (key + (seq![':'] + (json_opt_text(o) + after))), key)
            == Option::Some(json_opt_text(o) + after),
        parse_opt_text(json_opt_text(o) + after) == Option::Some((o, after)),
{
    let v = json_opt_text(o) + after;
    lemma_opt_text_first(o);
    assert(v[0] == json_opt_text(o)[0]);
    lemma_comma_key_colon(key, v);
    lemma_opt_text_roundtrip(o, after);
}

/// A comma, a key, a colon and a serialized boolean member parse back.
proof fn lemma_member_bool(key: Seq<char>, b: bool, after: Seq<char>)
    requires
        key.len() > 0,
        !is_ws(key[0]),
    ensures
        comma_key_colon(seq![','] + (key + (seq![':'] + (json_bool(b) + after))), key)
            == Option::Some(json_bool(b) + after),
        parse_bool(json_bool(b) + after) == Option::Some((b, after)),
{
    let v = json_bool(b) + after;
    lemma_bool_first(b);
    assert(v[0] == json_bool(b)[0]);
    lemma_comma_key_colon(key, v);
    lemma_bool_roundtrip(b, after);
}

/// The members of a serialized descriptor from `image_url` on parse back.
proof fn lemma_package_tail_roundtrip(p: PackageModel, rest: Seq<char>)
    ensures
        parse_package_tail(package_tail_chain(p, rest), p.name, p.description, p.version)
            == Option::Some((p, rest)),
{
    reveal_strlit("\"image_url\"");
    reveal_strlit("\"archive_path\"");
    reveal_strlit("\"executable_path\"");
    reveal_strlit("\"crc\"");
    reveal_strlit("\"has_installer\"");
    reveal_strlit("\"add_to_path\"");
    let t0 = seq!['}'] + rest;
    let t1 = json_bool(p.add_to_path) + t0;
    let u1 = seq![','] + (key_add_to_path() + (seq![':'] + t1));
    let t2 = json_bool(p.has_installer) + u1;
    let u2 = seq![','] + (key_has_installer() + (seq![':'] + t2));
    let t3 = dec_digits(p.crc as nat) + u2;
    let u3 = seq![','] + (key_crc() + (seq![':'] + t3));
    let t4 = json_opt_text(p.executable_path) + u3;
    let u4 = seq![','] + (key_executable_path() + (seq![':'] + t4));
    let t5 = json_text(p.archive_path) + u4;
    let u5 = seq![','] + (key_archive_path() + (seq![':'] + t5));
    let t6 = json_opt_text(p.image_url) + u5;
    let u6 = seq![','] + (key_image_url() + (seq![':'] + t6));
    assert(package_tail_chain(p, rest) == u6);

    lemma_member_opt_text(key_image_url(), p.image_url, u5);
    lemma_member_text(key_archive_path(), p.archive_path, u4);
    lemma_member_opt_text(key_executable_path(), p.executable_path, u3);

    lemma_dec_digits_digits(p.crc as nat);
    let v3 = dec_digits(p.crc as nat) + u2;
    assert(v3[0] == dec_digits(p.crc as nat)[0]);
    lemma_comma_key_colon(key_crc(), v3);
    assert(u2[0] == ',');
    lemma_number_roundtrip(p.crc, u2);

    lemma_member_bool(key_has_installer(), p.has_installer, u1);
    lemma_member_bool(key_add_to_path(), p.add_to_path, t0);
    lemma_expect_char('}', rest);
    assert(parse_package_tail(package_tail_chain(p, rest), p.name, p.description, p.version)
        == Option::Some((p, rest)));
}

/// A serialized descriptor parses back to itself.
proof fn lemma_package_roundtrip(p: PackageModel, rest: Seq<char>)
    ensures
        parse_package(json_package(p) + rest) == Option::Some((p, rest)),
{
    reveal_strlit("\"name\"");
    reveal_strlit("\"description\"");
    reveal_strlit("\"version\"");
    lemma_package_chain(p, rest);
    let t3 = package_tail_chain(p, rest);
    let v2 = json_opt_text(p.version) + t3;
    let u2 = seq![','] + (key_version() + (seq![':'] + v2));
    let v1 = json_opt_text(p.description) + u2;
    let u1 = seq![','] + (key_description() + (seq![':'] + v1));
    let v0 = json_text(p.name) + u1;
    let u0 = key_name() + (seq![':'] + v0);
    assert(package_chain(p, rest) == seq!['{'] + u0);

    lemma_expect_char('{', u0);
    assert(v0[0] == '"');
    lemma_key_colon(key_name(), v0);
    lemma_text_roundtrip(p.name, u1);

    lemma_member_opt_text(key_description(), p.description, u2);
    lemma_member_opt_text(key_version(), p.version, t3);

    lemma_package_tail_roundtrip(p, rest);
}

/// A serialized descriptor alone parses back to itself.
pub proof fn lemma_package_complete_roundtrip(p: PackageModel)
    ensures
        parse_package_complete(json_package(p)) == Option::Some(p),
{
    assert(json_package(p) + Seq::<char>::empty() =~= json_package(p));
    lemma_package_roundtrip(p, Seq::empty());
    lemma_skip_ws_none(Seq::empty());
}

/// The serialized later elements of an array parse back onto what came
/// before them.
#[verifier::rlimit(100)]
proof fn lemma_packages_rest_roundtrip(l: Seq<PackageModel>, acc: Seq<PackageModel>, rest: Seq<char>)
    ensures
        parse_packages_rest(json_packages_rest(l) + (seq![']'] + rest), acc) == Option::Some(
            (acc + l, rest),
        ),
    decreases l.len(),
{
    if l.len() == 0 {
        let s = json_packages_rest(l) + (seq![']'] + rest);
        assert(s =~= seq![']'] + rest);
        assert(s[0] == ']');
        lemma_skip_ws_none(s);
        assert(s.drop_first() =~= rest);
        assert(acc + l =~= acc);
    } else {
        let s = json_packages_rest(l) + (seq![']'] + rest);
        let r1 = json_package(l[0]) + (json_packages_rest(l.drop_first()) + (seq![']'] + rest));
        assert(s =~= seq![','] + r1);
        assert(s[0] == ',');
        lemma_skip_ws_none(s);
        assert(s.drop_first() =~= r1);
        lemma_package_roundtrip(l[0], json_packages_rest(l.drop_first()) + (seq![']'] + rest));
        assert(json_package(l[0]).len() > 0);
        lemma_packages_rest_roundtrip(l.drop_first(), acc.push(l[0]), rest);
        assert(acc.push(l[0]) + l.drop_first() =~= acc + l);
    }
}

/// A serialized descriptor starts with an opening brace.
proof fn lemma_package_first(p: PackageModel)
    ensures
        json_package(p).len() > 0,
        json_package(p)[0] == '{',
{
    let e = Seq::<char>::empty();
    lemma_package_chain(p, e);
    assert(json_package(p) + e =~= json_package(p));
}

/// A serialized list of descriptors parses back to itself: what the
/// registry writes, a later read returns unchanged.
#[verifier::rlimit(100)]
pub proof fn lemma_package_list_roundtrip(l: Seq<PackageModel>)
    ensures
        parse_package_list(json_package_list(l)) == Option::Some(l),
{
    let e = Seq::<char>::empty();
    if l.len() == 0 {
        let s = json_package_list(l);
        let s1 = seq![']'] + e;
        assert(s =~= seq!['['] + s1);
        lemma_expect_char('[', s1);
        assert(s1[0] == ']');
        lemma_skip_ws_none(s1);
        assert(s1.drop_first() =~= e);
        lemma_skip_ws_none(e);
    } else {
        let b = seq!['['];
        let k = seq![']'];
        let jp = json_package(l[0]);
        let jr = json_packages_rest(l.drop_first());
        let k2 = seq![']'] + e;
        assert(k2 =~= k);
        lemma_shift(b + jp, jr, k);
        lemma_shift(b, jp, jr + k);
        assert(json_package_list(l) == b + (jp + (jr + k2)));
        lemma_expect_char('[', jp + (jr + k2));
        lemma_package_first(l[0]);
        assert((jp + (jr + k2))[0] == jp[0]);
        lemma_skip_ws_none(jp + (jr + k2));
        lemma_package_roundtrip(l[0], jr + k2);
        lemma_packages_rest_roundtrip(l.drop_first(), seq![l[0]], e);
        assert(seq![l[0]] + l.drop_first() =~= l);
        lemma_skip_ws_none(e);
    }
}

/// Decodes a list of descriptors from JSON text: the whole input must be
/// one array of descriptor objects.
pub fn package_list_from_json(s: &str) -> (r: Option<Vec<Package>>)
    ensures
        match r {
            Option::Some(l) => parse_package_list(s@) == Option::Some(pkg_views(l@)),
            Option::None => parse_package_list(s@) is None,
        },
{
    let v = to_chars(s);
    assert(tail(v@, 0) =~= s@);
    let s0 = match expect_char_at(&v, 0, '[') {
        Option::Some(j) => j,
        Option::None => { return Option::None; },
    };
    let s1 = ws_end(&v, s0);
    if s1 < v.len() && v[s1] == ']' {
        proof {
            lemma_tail_step(v@, s1 as int);
        }
        let s2 = ws_end(&v, s1 + 1);
        if s2 == v.len() {
            let empty: Vec<Package> = Vec::new();
            assert(pkg_views(empty@) =~= Seq::<PackageModel>::empty());
            Option::Some(empty)
        } else {
            Option::None
        }
    } else {
        match read_package(&v, s1) {
            Option::Some((p, j)) => {
                let mut acc: Vec<Package> = Vec::new();
                proof {
                    assert(pkg_views(acc@.push(p)) =~= seq![p@]);
                }
                acc.push(p);
                match read_packages_rest(&v, j, acc) {
                    Option::Some((l, j2)) => {
                        let j3 = ws_end(&v, j2);
                        if j3 == v.len() {
                            Option::Some(l)
                        } else {
                            Option::None
                        }
                    },
                    Option::None => Option::None,
                }
            },
            Option::None => Option::None,
        }
    }
}

} // verus!
