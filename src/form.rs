//! `application/x-www-form-urlencoded` bodies and query strings.
use vstd::prelude::*;
use vstd::utf8::encode_utf8;

verus! {

/// A byte that form-urlencoding leaves as it is: an ASCII alphanumeric or
/// one of `*-._`.
pub open spec fn is_unreserved_byte(b: u8) -> bool {
    (0x30u8 <= b && b <= 0x39u8) || (0x41u8 <= b && b <= 0x5Au8) || (0x61u8 <= b && b <= 0x7Au8)
        || b == 0x2Au8 || b == 0x2Du8 || b == 0x2Eu8 || b == 0x5Fu8
}

/// How form-urlencoding writes one byte: an unreserved one as it is, a space
/// as `+`, any other as `%` and two upper-case hex digits.
pub open spec fn byte_escaped(b: u8) -> Seq<char> {
    if is_unreserved_byte(b) {
        seq![b as char]
    } else if b == 0x20u8 {
        seq!['+']
    } else {
        seq!['%', hex_digit((b / 16) as u32), hex_digit((b % 16) as u32)]
    }
}

/// The bytes, each written as form-urlencoding does.
pub open spec fn bytes_escaped(b: Seq<u8>) -> Seq<char>
    decreases b.len(),
{
    if b.len() == 0 {
        Seq::empty()
    } else {
        bytes_escaped(b.drop_last()) + byte_escaped(b.last())
    }
}

/// The form-urlencoding of a string: its UTF-8 bytes, each escaped.
pub open spec fn form_escaped(s: Seq<char>) -> Seq<char> {
    bytes_escaped(encode_utf8(s))
}

/// A character that form-urlencoding leaves as it is.
pub open spec fn is_unreserved(c: char) -> bool {
    ('0' <= c && c <= '9') || ('A' <= c && c <= 'Z') || ('a' <= c && c <= 'z') || c == '*'
        || c == '-' || c == '.' || c == '_'
}

pub open spec fn all_unreserved(s: Seq<char>) -> bool {
    forall|i: int| 0 <= i < s.len() ==> is_unreserved(#[trigger] s[i])
}

pub open spec fn all_ascii(s: Seq<char>) -> bool {
    forall|i: int| 0 <= i < s.len() ==> (#[trigger] s[i] as u32) < 128
}

/// The upper-case hexadecimal digit for `d`, which lies in 0..16.
pub open spec fn hex_digit(d: u32) -> char {
    if d < 10 {
        if d == 0 { '0' } else if d == 1 { '1' } else if d == 2 { '2' } else if d == 3 { '3' }
        else if d == 4 { '4' } else if d == 5 { '5' } else if d == 6 { '6' } else if d == 7 { '7' }
        else if d == 8 { '8' } else { '9' }
    } else {
        if d == 10 { 'A' } else if d == 11 { 'B' } else if d == 12 { 'C' } else if d == 13 { 'D' }
        else if d == 14 { 'E' } else { 'F' }
    }
}

/// How form-urlencoding writes one ASCII character: unreserved ones as they
/// are, a space as `+`, any other as `%` and two upper-case hex digits.
pub open spec fn ascii_char_escaped(c: char) -> Seq<char> {
    if is_unreserved(c) {
        seq![c]
    } else if c == ' ' {
        seq!['+']
    } else {
        seq!['%', hex_digit((c as u32) / 16), hex_digit((c as u32) % 16)]
    }
}

/// The form-urlencoding of an ASCII string, character by character.
pub open spec fn ascii_escaped(s: Seq<char>) -> Seq<char>
    decreases s.len(),
{
    if s.len() == 0 {
        Seq::empty()
    } else {
        ascii_escaped(s.drop_last()) + ascii_char_escaped(s.last())
    }
}

/// Relies on `url::form_urlencoded::byte_serialize`: the form-urlencoding of
/// the string's UTF-8 bytes, in which ASCII alphanumerics and `*-._` stand
/// unchanged, a space becomes `+` and every other byte `%XX` (upper case,
/// from `percent_encode_byte`).
#[verifier::external_body]
fn escape(s: &str) -> (r: String)
    ensures
        r@ == form_escaped(s@),
        all_unreserved(s@) ==> r@ == s@,
        all_ascii(s@) ==> r@ == ascii_escaped(s@),
{
    url::form_urlencoded::byte_serialize(s.as_bytes()).collect()
}

/// The pairs written as `key=value`, joined by `&` in the order given.
pub open spec fn pairs_text(ps: Seq<(Seq<char>, Seq<char>)>) -> Seq<char>
    decreases ps.len(),
{
    if ps.len() == 0 {
        Seq::empty()
    } else if ps.len() == 1 {
        ps[0].0 + "="@ + ps[0].1
    } else {
        pairs_text(ps.drop_last()) + "&"@ + ps.last().0 + "="@ + ps.last().1
    }
}

/// The pairs with key and value escaped.
pub open spec fn escaped_pairs(ps: Seq<(Seq<char>, Seq<char>)>) -> Seq<(Seq<char>, Seq<char>)> {
    ps.map_values(|p: (Seq<char>, Seq<char>)| (form_escaped(p.0), form_escaped(p.1)))
}

/// The form-urlencoding of the pairs, in their order.
pub open spec fn form_encoded(ps: Seq<(Seq<char>, Seq<char>)>) -> Seq<char> {
    pairs_text(escaped_pairs(ps))
}

/// Adding a parameter after others adds `&`, its escaped key, `=` and its
/// escaped value at the end of the encoding, which is left as it was before.
pub proof fn lemma_form_encoded_push(ps: Seq<(Seq<char>, Seq<char>)>, p: (Seq<char>, Seq<char>))
    requires
        ps.len() > 0,
    ensures
        form_encoded(ps.push(p)) == form_encoded(ps) + "&"@ + form_escaped(p.0) + "="@
            + form_escaped(p.1),
{
    assert(escaped_pairs(ps.push(p)).drop_last() =~= escaped_pairs(ps));
}

/// Every key and value is made of unreserved characters only.
pub open spec fn all_plain(ps: Seq<(Seq<char>, Seq<char>)>) -> bool {
    forall|i: int| #![trigger ps[i]] 0 <= i < ps.len() ==> all_unreserved(ps[i].0) && all_unreserved(ps[i].1)
}

/// Every key and value is ASCII.
pub open spec fn all_ascii_pairs(ps: Seq<(Seq<char>, Seq<char>)>) -> bool {
    forall|i: int| #![trigger ps[i]] 0 <= i < ps.len() ==> all_ascii(ps[i].0) && all_ascii(ps[i].1)
}

/// The pairs with key and value escaped as ASCII text.
pub open spec fn ascii_escaped_pairs(ps: Seq<(Seq<char>, Seq<char>)>) -> Seq<(Seq<char>, Seq<char>)> {
    ps.map_values(|p: (Seq<char>, Seq<char>)| (ascii_escaped(p.0), ascii_escaped(p.1)))
}

/// The view of a list of string pairs.
pub open spec fn pairs_view(ps: Seq<(String, String)>) -> Seq<(Seq<char>, Seq<char>)> {
    ps.map_values(|p: (String, String)| (p.0@, p.1@))
}

/// Encodes the pairs as a form body (or query string), in their order.
/// Pairs of unreserved characters only come out as they are.
pub fn encode_pairs(pairs: &Vec<(String, String)>) -> (r: String)
    ensures
        r@ == form_encoded(pairs_view(pairs@)),
        all_plain(pairs_view(pairs@)) ==> r@ == pairs_text(pairs_view(pairs@)),
        all_ascii_pairs(pairs_view(pairs@)) ==> r@ == pairs_text(ascii_escaped_pairs(pairs_view(pairs@))),
{
    let ghost pv = pairs_view(pairs@);
    let ghost mut esc: Seq<(Seq<char>, Seq<char>)> = Seq::empty();
    let mut out = String::new();
    let mut i: usize = 0;
    while i < pairs.len()
        invariant
            0 <= i <= pairs.len(),
            pv == pairs_view(pairs@),
            esc == escaped_pairs(pv.take(i as int)),
            all_plain(pv) ==> esc == pv.take(i as int),
            all_ascii_pairs(pv) ==> esc == ascii_escaped_pairs(pv.take(i as int)),
            out@ == pairs_text(esc),
        decreases pairs.len() - i,
    {
        let ghost before = out@;
        if i > 0 {
            out.append("&");
        }
        let key = escape(pairs[i].0.as_str());
        let value = escape(pairs[i].1.as_str());
        out.append(key.as_str());
        out.append("=");
        out.append(value.as_str());
        proof {
            let old_esc = esc;
            esc = esc.push((key@, value@));
            assert(esc.drop_last() =~= old_esc);
            assert(esc =~= escaped_pairs(pv.take(i + 1)));
            if all_plain(pv) {
                assert(all_unreserved(pv[i as int].0) && all_unreserved(pv[i as int].1));
                assert(esc =~= pv.take(i + 1));
            }
            if all_ascii_pairs(pv) {
                assert(all_ascii(pv[i as int].0) && all_ascii(pv[i as int].1));
                assert(esc =~= ascii_escaped_pairs(pv.take(i + 1)));
            }
            if i == 0 {
                assert(out@ =~= pairs_text(esc));
            } else {
                assert(out@ =~= before + "&"@ + esc.last().0 + "="@ + esc.last().1);
            }
        }
        i += 1;
    }
    assert(pv.take(pairs.len() as int) =~= pv);
    out
}

} // verus!
