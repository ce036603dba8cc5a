//! URL text: the fixed root, path segments and decimal numerals.

use vstd::prelude::*;
use vstd::string::StringExecFns;
use vstd::string::StrSliceExecFns;
use vstd::string::StringSliceAdditionalSpecFns;
use vstd::utf8::{encode_utf8, is_ascii_chars, is_ascii_chars_encode_utf8};

verus! {

/// The longest URL, in bytes, that the URL builder can hold.
pub const URL_LIMIT: usize = 0xffff_ffff;

/// The root that every request URL extends.
pub open spec fn root_text() -> Seq<char> {
    "https://api.digitalocean.com/v2"@
}

/// The root URL as an owned string.
pub fn root_url() -> (r: String)
    ensures
        r@ == root_text(),
        is_rooted(r@),
{
    let r = String::from_str("https://api.digitalocean.com/v2");
    assert(root_text().is_prefix_of(r@));
    r
}

/// Characters that a path segment may hold: they stand for themselves in a URL.
pub open spec fn is_segment_char(c: char) -> bool {
    ('a' <= c && c <= 'z') || ('A' <= c && c <= 'Z') || ('0' <= c && c <= '9') || c == '-' || c
        == '_'
}

/// A path segment: not empty, and made of segment characters only.
pub open spec fn is_segment(s: Seq<char>) -> bool {
    s.len() > 0 && forall|i: int| 0 <= i < s.len() ==> is_segment_char(#[trigger] s[i])
}

/// A URL that starts with the root and goes on with segments, each behind one
/// separator: after the root stand segment characters and separators only,
/// and every separator is followed by a segment character. So the path
/// neither ends in a separator nor holds two in a row.
pub open spec fn is_rooted(url: Seq<char>) -> bool {
    &&& root_text().is_prefix_of(url)
    &&& forall|i: int|
        root_text().len() <= i < url.len() ==> is_segment_char(#[trigger] url[i]) || url[i] == '/'
    &&& forall|i: int|
        root_text().len() <= i < url.len() && #[trigger] url[i] == '/' ==> i + 1 < url.len()
            && url[i + 1] != '/'
}

/// `url` followed by one separator and `segment`.
pub open spec fn with_segment(url: Seq<char>, segment: Seq<char>) -> Seq<char> {
    url + seq!['/'] + segment
}

/// Appending a segment to a rooted URL gives a rooted URL.
pub proof fn lemma_with_segment_rooted(url: Seq<char>, segment: Seq<char>)
    requires
        is_rooted(url),
        is_segment(segment),
    ensures
        is_rooted(with_segment(url, segment)),
        with_segment(url, segment).len() == url.len() + 1 + segment.len(),
{
    let r = with_segment(url, segment);
    assert(root_text().is_prefix_of(r)) by {
        assert(r.subrange(0, root_text().len() as int) =~= url.subrange(
            0,
            root_text().len() as int,
        ));
    }
    assert forall|i: int| root_text().len() <= i < r.len() implies is_segment_char(#[trigger] r[i])
        || r[i] == '/' by {
        if i < url.len() {
            assert(r[i] == url[i]);
        } else if i == url.len() {
            assert(r[i] == '/');
        } else {
            assert(r[i] == segment[i - url.len() - 1]);
        }
    }
    assert forall|i: int| root_text().len() <= i < r.len() && #[trigger] r[i] == '/' implies i + 1
        < r.len() && r[i + 1] != '/' by {
        if i < url.len() {
            assert(r[i] == url[i]);
            if i + 1 < url.len() {
                assert(r[i + 1] == url[i + 1]);
            }
        } else if i == url.len() {
            assert(r[i + 1] == segment[0]);
        } else {
            assert(r[i] == segment[i - url.len() - 1]);
        }
    }
}

/// A rooted URL does not end in a separator, and after the root no two
/// separators stand side by side.
pub proof fn lemma_rooted_separators(url: Seq<char>)
    requires
        is_rooted(url),
    ensures
        url.last() != '/',
        forall|i: int|
            root_text().len() <= i && i + 1 < url.len() ==> !(#[trigger] url[i] == '/' && url[i + 1]
                == '/'),
{
    reveal_strlit("https://api.digitalocean.com/v2");
    let root = root_text();
    if url.len() == root.len() {
        assert(url.last() == url.subrange(0, root.len() as int)[root.len() - 1]);
    } else {
        let last = url.len() - 1;
        if url[last] == '/' {
            assert(last + 1 < url.len());
        }
    }
}

/// The digit character of a value below ten.
pub open spec fn digit_char(d: nat) -> char
    recommends
        d < 10,
{
    if d == 0 {
        '0'
    } else if d == 1 {
        '1'
    } else if d == 2 {
        '2'
    } else if d == 3 {
        '3'
    } else if d == 4 {
        '4'
    } else if d == 5 {
        '5'
    } else if d == 6 {
        '6'
    } else if d == 7 {
        '7'
    } else if d == 8 {
        '8'
    } else {
        '9'
    }
}

/// The decimal numeral of `n`, without sign or leading zeros.
pub open spec fn decimal(n: nat) -> Seq<char>
    decreases n,
{
    if n < 10 {
        seq![digit_char(n)]
    } else {
        decimal(n / 10) + seq![digit_char(n % 10)]
    }
}

/// A decimal numeral is a path segment of at most twenty digits for a 64-bit number.
pub proof fn lemma_decimal_is_segment(n: nat)
    ensures
        is_segment(decimal(n)),
        n <= 0xffff_ffff_ffff_ffff ==> decimal(n).len() <= 20,
    decreases n,
{
    lemma_decimal_len(n);
    if n >= 10 {
        lemma_decimal_is_segment(n / 10);
        let head = decimal(n / 10);
        let r = decimal(n);
        assert forall|i: int| 0 <= i < r.len() implies is_segment_char(#[trigger] r[i]) by {
            if i < head.len() {
                assert(r[i] == head[i]);
            }
        }
    }
}

/// How many digits the numeral of `n` has.
pub open spec fn digits(n: nat) -> nat
    decreases n,
{
    if n < 10 {
        1
    } else {
        digits(n / 10) + 1
    }
}

proof fn lemma_decimal_len(n: nat)
    ensures
        decimal(n).len() == digits(n),
        n <= 0xffff_ffff_ffff_ffff ==> digits(n) <= 20,
    decreases n,
{
    if n >= 10 {
        lemma_decimal_len(n / 10);
    }
    if n <= 0xffff_ffff_ffff_ffff {
        reveal_with_fuel(digits, 21);
    }
}

fn digit_text(d: usize) -> (r: &'static str)
    requires
        d < 10,
    ensures
        r@ == seq![digit_char(d as nat)],
{
    proof {
        reveal_strlit("0");
        reveal_strlit("1");
        reveal_strlit("2");
        reveal_strlit("3");
        reveal_strlit("4");
        reveal_strlit("5");
        reveal_strlit("6");
        reveal_strlit("7");
        reveal_strlit("8");
        reveal_strlit("9");
    }
    let r = if d == 0 {
        "0"
    } else if d == 1 {
        "1"
    } else if d == 2 {
        "2"
    } else if d == 3 {
        "3"
    } else if d == 4 {
        "4"
    } else if d == 5 {
        "5"
    } else if d == 6 {
        "6"
    } else if d == 7 {
        "7"
    } else if d == 8 {
        "8"
    } else {
        "9"
    };
    assert(r@ =~= seq![digit_char(d as nat)]);
    r
}

/// Writes `n` as a decimal numeral.
pub fn decimal_text(n: usize) -> (r: String)
    ensures
        r@ == decimal(n as nat),
    decreases n,
{
    if n < 10 {
        String::from_str(digit_text(n))
    } else {
        let mut head = decimal_text(n / 10);
        head.append(digit_text(n % 10));
        head
    }
}

/// Segment characters and the separator are ASCII, so a text made of them
/// has one byte for each character.
pub proof fn lemma_path_text_is_ascii(s: Seq<char>)
    requires
        forall|i: int| 0 <= i < s.len() ==> is_segment_char(#[trigger] s[i]) || s[i] == '/',
    ensures
        is_ascii_chars(s),
        encode_utf8(s).len() == s.len(),
{
    assert forall|i: int| 0 <= i < s.len() implies '\0' <= #[trigger] s[i] <= '\u{7f}' by {
        assert(is_segment_char(s[i]) || s[i] == '/');
    }
    is_ascii_chars_encode_utf8(s);
}

fn is_segment_byte(b: u8) -> (r: bool)
    ensures
        forall|c: char| '\0' <= c <= '\u{7f}' && c as u8 == b ==> r == is_segment_char(c),
{
    (97 <= b && b <= 122) || (65 <= b && b <= 90) || (48 <= b && b <= 57) || b == 45 || b == 95
}

/// Tells whether `s` is a path segment.
pub fn is_segment_text(s: &str) -> (r: bool)
    ensures
        r == is_segment(s@),
{
    if !s.is_ascii() {
        proof {
            if is_segment(s@) {
                lemma_path_text_is_ascii(s@);
            }
        }
        return false;
    }
    proof {
        is_ascii_chars_encode_utf8(s@);
    }
    let n: usize = s.as_bytes().len();
    if n == 0 {
        return false;
    }
    let mut i: usize = 0;
    while i < n
        invariant
            s.is_ascii(),
            n == s@.len(),
            i <= n,
            forall|j: int| 0 <= j < i ==> is_segment_char(#[trigger] s@[j]),
        decreases n - i,
    {
        let b: u8 = s.get_ascii(i);
        if !is_segment_byte(b) {
            assert(!is_segment_char(s@[i as int]));
            return false;
        }
        assert(is_segment_char(s@[i as int]));
        i += 1;
    }
    true
}

/// A rooted URL is ASCII, so it has one byte for each character.
pub proof fn lemma_rooted_is_ascii(url: Seq<char>)
    requires
        is_rooted(url),
    ensures
        is_ascii_chars(url),
        encode_utf8(url).len() == url.len(),
{
    reveal_strlit("https://api.digitalocean.com/v2");
    let root = root_text();
    assert forall|i: int| 0 <= i < url.len() implies '\0' <= #[trigger] url[i] <= '\u{7f}' by {
        if i < root.len() {
            assert(url[i] == url.subrange(0, root.len() as int)[i]);
            assert(url[i] == root[i]);
        } else {
            assert(is_segment_char(url[i]) || url[i] == '/');
        }
    }
    is_ascii_chars_encode_utf8(url);
}

/// Tells whether `url` starts with the root and goes on with segments, each
/// behind one separator.
pub fn is_rooted_text(url: &str) -> (r: bool)
    ensures
        r == is_rooted(url@),
{
    let root = "https://api.digitalocean.com/v2";
    proof {
        reveal_strlit("https://api.digitalocean.com/v2");
        is_ascii_chars_encode_utf8(root@);
    }
    if !url.is_ascii() {
        proof {
            if is_rooted(url@) {
                lemma_rooted_is_ascii(url@);
            }
        }
        return false;
    }
    proof {
        is_ascii_chars_encode_utf8(url@);
    }
    let n: usize = url.as_bytes().len();
    let m: usize = root.as_bytes().len();
    if n < m {
        return false;
    }
    let mut i: usize = 0;
    while i < m
        invariant
            url.is_ascii(),
            root.is_ascii(),
            root@ == root_text(),
            n == url@.len(),
            m == root@.len(),
            m <= n,
            i <= m,
            forall|j: int| 0 <= j < i ==> url@[j] == root@[j],
        decreases m - i,
    {
        if url.get_ascii(i) != root.get_ascii(i) {
            assert(url@[i as int] != root@[i as int]);
            assert(url@.subrange(0, m as int)[i as int] == url@[i as int]);
            return false;
        }
        assert(url@[i as int] == root@[i as int]);
        i += 1;
    }
    assert(url@.subrange(0, m as int) =~= root@);
    let bytes = url.as_bytes();
    while i < n
        invariant
            is_ascii_chars(url@),
            bytes@ == encode_utf8(url@),
            root@ == root_text(),
            root_text().is_prefix_of(url@),
            n == url@.len(),
            m == root@.len(),
            m <= i <= n,
            forall|j: int| m <= j < i ==> is_segment_char(#[trigger] url@[j]) || url@[j] == '/',
            forall|j: int|
                m <= j < i && #[trigger] url@[j] == '/' ==> j + 1 < url@.len() && url@[j + 1]
                    != '/',
        decreases n - i,
    {
        proof {
            is_ascii_chars_encode_utf8(url@);
        }
        let b: u8 = bytes[i];
        assert(url@[i as int] as u8 == b);
        if b == 47 {
            assert(url@[i as int] == '/');
            if i + 1 >= n {
                return false;
            }
            let next: u8 = bytes[i + 1];
            assert(url@[i + 1] as u8 == next);
            if next == 47 {
                assert(url@[i + 1] == '/');
                return false;
            }
            assert(url@[i + 1] != '/');
        } else if !is_segment_byte(b) {
            assert(!is_segment_char(url@[i as int]) && url@[i as int] != '/');
            return false;
        } else {
            assert(is_segment_char(url@[i as int]));
            assert(url@[i as int] != '/');
        }
        i += 1;
    }
    true
}

} // verus!
