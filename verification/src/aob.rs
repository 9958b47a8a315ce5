//! Masked byte patterns: a signature text such as `48 8B ?? 05` read into a
//! pattern, and the pattern searched for in raw bytes.

use vstd::prelude::*;
use vstd::string::*;

verus! {

/// `c` is white space, as Unicode defines it.
pub open spec fn is_space(c: char) -> bool {
    let u = c as u32;
    ||| 0x09 <= u <= 0x0D
    ||| u == 0x20
    ||| u == 0x85
    ||| u == 0xA0
    ||| u == 0x1680
    ||| 0x2000 <= u <= 0x200A
    ||| u == 0x2028
    ||| u == 0x2029
    ||| u == 0x202F
    ||| u == 0x205F
    ||| u == 0x3000
}

/// The value of a hex digit; `None` for any other character.
pub open spec fn digit_value(c: char) -> Option<nat> {
    let u = c as u32;
    if 0x30 <= u <= 0x39 {
        Some((u - 0x30) as nat)
    } else if 0x41 <= u <= 0x46 {
        Some((u - 0x41 + 10) as nat)
    } else if 0x61 <= u <= 0x66 {
        Some((u - 0x61 + 10) as nat)
    } else {
        None
    }
}

/// Every character is a hex digit.
pub open spec fn all_digits(digits: Seq<char>) -> bool {
    forall|i: int| 0 <= i < digits.len() ==> (#[trigger] digit_value(digits[i])) is Some
}

/// The number that a run of hex digits writes.
pub open spec fn number(digits: Seq<char>) -> nat
    decreases digits.len(),
{
    if digits.len() == 0 {
        0
    } else {
        number(digits.drop_last()) * 16 + digit_value(digits.last()).unwrap_or(0)
    }
}

/// A token without the plus sign that may lead it.
pub open spec fn unsigned(token: Seq<char>) -> Seq<char> {
    if token.len() > 0 && token[0] == '+' {
        token.drop_first()
    } else {
        token
    }
}

/// The byte that a token writes in hex: after an optional plus sign, one or
/// more hex digits whose number is below 256. `None` for any other token.
pub open spec fn token_byte(token: Seq<char>) -> Option<u8> {
    let digits = unsigned(token);
    if digits.len() > 0 && all_digits(digits) && number(digits) <= 255 {
        Some(number(digits) as u8)
    } else {
        None
    }
}

/// The token is `?` or `??`.
pub open spec fn is_wildcard(token: Seq<char>) -> bool {
    token == seq!['?'] || token == seq!['?', '?']
}

/// What a token adds to the pattern: a position that matches any byte, a
/// position that matches one byte, or nothing.
pub open spec fn token_elements(token: Seq<char>) -> Seq<Option<u8>> {
    if is_wildcard(token) {
        seq![None]
    } else {
        match token_byte(token) {
            Some(b) => seq![Some(b)],
            None => seq![],
        }
    }
}

/// The pattern that the signature writes from `start` on, where the
/// characters from `start` up to `pos` hold no white space.
pub open spec fn pattern_scan(signature: Seq<char>, start: int, pos: int) -> Seq<Option<u8>>
    decreases signature.len() - pos,
{
    if pos < 0 || pos >= signature.len() {
        if 0 <= start <= signature.len() {
            token_elements(signature.subrange(start, signature.len() as int))
        } else {
            seq![]
        }
    } else if is_space(signature[pos]) {
        token_elements(signature.subrange(start, pos)) + pattern_scan(signature, pos + 1, pos + 1)
    } else {
        pattern_scan(signature, start, pos + 1)
    }
}

/// The pattern that a signature writes: its tokens, parted by white space,
/// each read by `token_elements`. `None` stands for a position that matches
/// any byte.
pub open spec fn signature_pattern(signature: Seq<char>) -> Seq<Option<u8>> {
    pattern_scan(signature, 0, 0)
}

/// The pattern matches `hay` at index `i`: it fits, and each position that
/// names a byte finds that byte.
pub open spec fn masked_at(hay: Seq<u8>, pattern: Seq<Option<u8>>, i: int) -> bool {
    &&& 0 <= i
    &&& i + pattern.len() <= hay.len()
    &&& forall|k: int|
        0 <= k < pattern.len() ==> ((#[trigger] pattern[k]) matches Some(b) ==> hay[i + k] == b)
}

/// The lowest index from `start` on at which the pattern matches.
pub open spec fn first_masked_from(hay: Seq<u8>, pattern: Seq<Option<u8>>, start: int) -> Option<
    int,
>
    decreases hay.len() - start,
{
    if start < 0 || start + pattern.len() > hay.len() {
        None
    } else if masked_at(hay, pattern, start) {
        Some(start)
    } else {
        first_masked_from(hay, pattern, start + 1)
    }
}

/// The lowest index at which the pattern matches.
pub open spec fn first_masked(hay: Seq<u8>, pattern: Seq<Option<u8>>) -> Option<int> {
    first_masked_from(hay, pattern, 0)
}

/// What `first_masked_from` returns is a match, none lies between `start`
/// and it, and `None` means that there is none from `start` on.
pub proof fn lemma_first_masked_from(hay: Seq<u8>, pattern: Seq<Option<u8>>, start: int)
    requires
        0 <= start,
    ensures
        match first_masked_from(hay, pattern, start) {
            Some(i) => start <= i && masked_at(hay, pattern, i) && forall|j: int|
                start <= j < i ==> !masked_at(hay, pattern, j),
            None => forall|j: int| start <= j ==> !masked_at(hay, pattern, j),
        },
    decreases hay.len() - start,
{
    if start + pattern.len() > hay.len() {
    } else if masked_at(hay, pattern, start) {
    } else {
        lemma_first_masked_from(hay, pattern, start + 1);
    }
}

/// `first_masked` is the least index of a match.
pub proof fn lemma_first_masked_is_least(hay: Seq<u8>, pattern: Seq<Option<u8>>, i: int)
    ensures
        first_masked(hay, pattern) == Some(i) <==> (masked_at(hay, pattern, i) && forall|j: int|
            0 <= j < i ==> !masked_at(hay, pattern, j)),
{
    lemma_first_masked_from(hay, pattern, 0);
}

/// A pattern of wildcards alone matches at index 0 wherever it fits.
pub proof fn lemma_wildcards_match_at_start(hay: Seq<u8>, pattern: Seq<Option<u8>>)
    requires
        forall|k: int| 0 <= k < pattern.len() ==> (#[trigger] pattern[k]) is None,
        pattern.len() <= hay.len(),
    ensures
        first_masked(hay, pattern) == Some(0int),
{
    assert(masked_at(hay, pattern, 0));
}

/// A pattern longer than the bytes matches nowhere.
pub proof fn lemma_long_pattern_matches_nowhere(hay: Seq<u8>, pattern: Seq<Option<u8>>)
    requires
        pattern.len() > hay.len(),
    ensures
        first_masked(hay, pattern) is None,
{
}

fn is_space_char(c: char) -> (r: bool)
    ensures
        r == is_space(c),
{
    let u: u32 = c as u32;
    (0x09 <= u && u <= 0x0D) || u == 0x20 || u == 0x85 || u == 0xA0 || u == 0x1680 || (0x2000 <= u
        && u <= 0x200A) || u == 0x2028 || u == 0x2029 || u == 0x202F || u == 0x205F || u == 0x3000
}

fn digit_of(c: char) -> (r: Option<u32>)
    ensures
        match r {
            Some(d) => digit_value(c) == Some(d as nat) && d < 16,
            None => digit_value(c) is None,
        },
{
    let u: u32 = c as u32;
    if 0x30 <= u && u <= 0x39 {
        Some(u - 0x30)
    } else if 0x41 <= u && u <= 0x46 {
        Some(u - 0x41 + 10)
    } else if 0x61 <= u && u <= 0x66 {
        Some(u - 0x61 + 10)
    } else {
        None
    }
}

/// The number of a run of digits is at least that of any of its prefixes.
proof fn lemma_number_grows(digits: Seq<char>, k: int)
    requires
        0 <= k <= digits.len(),
    ensures
        number(digits.take(k)) <= number(digits),
    decreases digits.len() - k,
{
    if k < digits.len() {
        lemma_number_grows(digits, k + 1);
        assert(digits.take(k + 1).drop_last() =~= digits.take(k));
    } else {
        assert(digits.take(k) =~= digits);
    }
}

/// Reads one token of a signature.
fn read_token(token: &Vec<char>) -> (r: Option<Option<u8>>)
    ensures
        match r {
            Some(element) => token_elements(token@) == seq![element],
            None => token_elements(token@) == Seq::<Option<u8>>::empty(),
        },
{
    let n: usize = token.len();
    if n == 1 && token[0] == '?' {
        assert(token@ =~= seq!['?']);
        return Some(None);
    }
    if n == 2 && token[0] == '?' && token[1] == '?' {
        assert(token@ =~= seq!['?', '?']);
        return Some(None);
    }
    assert(!is_wildcard(token@)) by {
        if token@ == seq!['?'] {
            assert(token@.len() == 1 && token@[0] == '?');
        }
        if token@ == seq!['?', '?'] {
            assert(token@.len() == 2 && token@[0] == '?' && token@[1] == '?');
        }
    }
    let first: usize = if n > 0 && token[0] == '+' {
        1
    } else {
        0
    };
    let ghost digits = unsigned(token@);
    assert(digits =~= token@.subrange(first as int, n as int));
    if first == n {
        return None;
    }
    let mut value: u32 = 0;
    let mut i: usize = first;
    while i < n
        invariant
            first <= i <= n == token@.len(),
            first < n,
            !is_wildcard(token@),
            digits == unsigned(token@),
            digits == token@.subrange(first as int, n as int),
            value == number(digits.take(i - first)),
            value <= 255,
            forall|j: int| 0 <= j < i - first ==> (#[trigger] digit_value(digits[j])) is Some,
        decreases n - i,
    {
        let ghost seen = digits.take(i - first + 1);
        proof {
            assert(seen.drop_last() =~= digits.take(i - first));
            assert(seen.last() == token@[i as int]);
        }
        match digit_of(token[i]) {
            Some(d) => {
                if value * 16 + d > 255 {
                    proof {
                        lemma_number_grows(digits, i - first + 1);
                    }
                    return None;
                }
                value = value * 16 + d;
            },
            None => {
                assert(digit_value(digits[i - first]) is None);
                return None;
            },
        }
        i += 1;
    }
    assert(digits.take(n - first) =~= digits);
    Some(Some(value as u8))
}

/// Reads a signature into its pattern: one entry for each token that is a
/// wildcard or writes a byte, in the order of the tokens. Any other token
/// adds nothing.
pub fn parse_signature(signature: &str) -> (pattern: Vec<Option<u8>>)
    ensures
        pattern@ == signature_pattern(signature@),
{
    let n: usize = signature.unicode_len();
    let mut pattern: Vec<Option<u8>> = Vec::new();
    let mut token: Vec<char> = Vec::new();
    let mut pos: usize = 0;
    let ghost mut start: int = 0;
    assert(token@ =~= signature@.subrange(0, 0));
    while pos < n
        invariant
            n == signature@.len(),
            0 <= start <= pos <= n,
            token@ == signature@.subrange(start, pos as int),
            pattern@ + pattern_scan(signature@, start, pos as int) == signature_pattern(
                signature@,
            ),
        decreases n - pos,
    {
        let c = signature.get_char(pos);
        if is_space_char(c) {
            let ghost before = pattern@;
            match read_token(&token) {
                Some(element) => {
                    pattern.push(element);
                },
                None => {},
            }
            assert(pattern@ =~= before + token_elements(token@));
            assert(pattern@ + pattern_scan(signature@, pos + 1, pos + 1) =~= before + pattern_scan(
                signature@,
                start,
                pos as int,
            ));
            token = Vec::new();
            proof {
                start = pos + 1;
            }
            assert(token@ =~= signature@.subrange(start, pos + 1));
        } else {
            token.push(c);
            assert(token@ =~= signature@.subrange(start, pos + 1));
        }
        pos += 1;
    }
    let ghost before = pattern@;
    match read_token(&token) {
        Some(element) => {
            pattern.push(element);
        },
        None => {},
    }
    assert(pattern@ =~= before + token_elements(token@));
    pattern
}

/// Whether the pattern matches `hay` at index `i`.
fn masked_match_at(hay: &[u8], pattern: &Vec<Option<u8>>, i: usize) -> (r: bool)
    requires
        i + pattern@.len() <= hay@.len(),
    ensures
        r == masked_at(hay@, pattern@, i as int),
{
    let n: usize = hay.len();
    let mut k: usize = 0;
    while k < pattern.len()
        invariant
            k <= pattern@.len(),
            i + pattern@.len() <= hay@.len() == n,
            forall|j: int|
                0 <= j < k ==> ((#[trigger] pattern@[j]) matches Some(b) ==> hay@[i + j] == b),
        decreases pattern@.len() - k,
    {
        match pattern[k] {
            Some(b) => {
                if hay[i + k] != b {
                    return false;
                }
            },
            None => {},
        }
        k += 1;
    }
    true
}

/// The lowest index at which the pattern matches `hay`, by a sliding
/// window. A pattern longer than `hay` matches nowhere.
pub fn find_masked(hay: &[u8], pattern: &Vec<Option<u8>>) -> (r: Option<usize>)
    ensures
        match r {
            Some(i) => first_masked(hay@, pattern@) == Some(i as int),
            None => first_masked(hay@, pattern@) is None,
        },
{
    if pattern.len() > hay.len() {
        return None;
    }
    let last: usize = hay.len() - pattern.len();
    let mut i: usize = 0;
    loop
        invariant
            last + pattern@.len() == hay@.len(),
            i <= last,
            first_masked(hay@, pattern@) == first_masked_from(hay@, pattern@, i as int),
        decreases last - i,
    {
        if masked_match_at(hay, pattern, i) {
            return Some(i);
        }
        if i == last {
            return None;
        }
        i += 1;
    }
}

} // verus!
