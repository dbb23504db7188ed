use vstd::prelude::*;

verus! {

/// `String::push` appends one character to the end of the string.
pub assume_specification[ String::push ](s: &mut String, c: char)
    ensures
        final(s)@ == old(s)@.push(c),
;

/// Whether `s` begins with `prefix`.
pub fn starts_with(s: &str, prefix: &str) -> (b: bool)
    ensures
        b == prefix@.is_prefix_of(s@),
{
    let n = prefix.unicode_len();
    if s.unicode_len() < n {
        return false;
    }
    let mut i: usize = 0;
    while i < n
        invariant
            i <= n,
            n == prefix@.len(),
            n <= s@.len(),
            forall|j: int| 0 <= j < i ==> s@[j] == prefix@[j],
        decreases n - i,
    {
        if s.get_char(i) != prefix.get_char(i) {
            return false;
        }
        i = i + 1;
    }
    assert(s@.subrange(0, prefix@.len() as int) =~= prefix@);
    true
}

/// Whether two strings hold the same characters.
pub fn same_text(a: &str, b: &str) -> (eq: bool)
    ensures
        eq == (a@ == b@),
{
    let n = a.unicode_len();
    if b.unicode_len() != n {
        return false;
    }
    let mut i: usize = 0;
    while i < n
        invariant
            i <= n,
            n == a@.len(),
            n == b@.len(),
            forall|j: int| 0 <= j < i ==> a@[j] == b@[j],
        decreases n - i,
    {
        if a.get_char(i) != b.get_char(i) {
            return false;
        }
        i = i + 1;
    }
    assert(a@ =~= b@);
    true
}

/// The character that stands for a decimal digit.
pub open spec fn digit_char(d: int) -> char {
    if d == 0 {
        '0'
    } else if d == 1 {
        '1'
    } else if d == 2 {
        '2'
    } else if d == 3 {
        '3'
    } else if d == 4 {
        '4'
    } else if d == 5 {
        '5'
    } else if d == 6 {
        '6'
    } else if d == 7 {
        '7'
    } else if d == 8 {
        '8'
    } else {
        '9'
    }
}

/// A number written in decimal, without leading zeros.
pub open spec fn decimal(n: nat) -> Seq<char>
    decreases n,
{
    if n < 10 {
        seq![digit_char(n as int)]
    } else {
        decimal(n / 10).push(digit_char((n % 10) as int))
    }
}

/// The character that stands for the digit `d`.
pub fn digit_of(d: u64) -> (c: char)
    requires
        d < 10,
    ensures
        c == digit_char(d as int),
{
    if d == 0 {
        '0'
    } else if d == 1 {
        '1'
    } else if d == 2 {
        '2'
    } else if d == 3 {
        '3'
    } else if d == 4 {
        '4'
    } else if d == 5 {
        '5'
    } else if d == 6 {
        '6'
    } else if d == 7 {
        '7'
    } else if d == 8 {
        '8'
    } else {
        '9'
    }
}

/// Appends `n`, written in decimal, to `out`.
pub fn push_decimal(out: &mut String, n: u64)
    ensures
        final(out)@ == old(out)@ + decimal(n as nat),
    decreases n,
{
    if n >= 10 {
        push_decimal(out, n / 10);
    }
    out.push(digit_of(n % 10));
    assert(out@ =~= old(out)@ + decimal(n as nat));
}

/// `count` spaces.
pub open spec fn spaces(count: nat) -> Seq<char> {
    Seq::new(count, |i: int| ' ')
}

/// `s`, filled up with spaces on the right to `width` characters.
pub open spec fn padded(s: Seq<char>, width: nat) -> Seq<char> {
    if s.len() >= width {
        s
    } else {
        s + spaces((width - s.len()) as nat)
    }
}

/// Appends `s` to `out`, filled up with spaces on the right to `width`
/// characters.
pub fn push_padded(out: &mut String, s: &str, width: usize)
    ensures
        final(out)@ == old(out)@ + padded(s@, width as nat),
{
    out.append(s);
    let len = s.unicode_len();
    let mut i: usize = len;
    while i < width
        invariant
            len == s@.len(),
            len <= i,
            i <= width || i == len,
            out@ == old(out)@ + s@ + spaces((i - len) as nat),
        decreases width - i,
    {
        out.push(' ');
        i = i + 1;
        assert(out@ =~= old(out)@ + s@ + spaces((i - len) as nat));
    }
    assert(out@ =~= old(out)@ + padded(s@, width as nat));
}

/// Whether `needle` occurs in `haystack` at position `at`.
pub open spec fn occurs_at(haystack: Seq<char>, needle: Seq<char>, at: int) -> bool {
    &&& 0 <= at
    &&& at + needle.len() <= haystack.len()
    &&& haystack.subrange(at, at + needle.len()) == needle
}

/// Whether `needle` occurs somewhere in `haystack`.
pub open spec fn occurs_in(haystack: Seq<char>, needle: Seq<char>) -> bool {
    exists|at: int| occurs_at(haystack, needle, at)
}

/// Whether `needle` occurs in `haystack` at position `at`.
pub fn matches_at(haystack: &str, needle: &str, at: usize) -> (b: bool)
    requires
        at + needle@.len() <= haystack@.len(),
    ensures
        b == occurs_at(haystack@, needle@, at as int),
{
    let n = needle.unicode_len();
    let h = haystack.unicode_len();
    let mut i: usize = 0;
    while i < n
        invariant
            i <= n,
            n == needle@.len(),
            h == haystack@.len(),
            at + n <= h,
            forall|j: int| 0 <= j < i ==> haystack@[at + j] == needle@[j],
        decreases n - i,
    {
        if haystack.get_char(at + i) != needle.get_char(i) {
            assert(haystack@.subrange(at as int, at + n)[i as int] != needle@[i as int]);
            return false;
        }
        i = i + 1;
    }
    assert(haystack@.subrange(at as int, at + n) =~= needle@);
    true
}

/// Whether `needle` occurs somewhere in `haystack`.
pub fn contains(haystack: &str, needle: &str) -> (b: bool)
    ensures
        b == occurs_in(haystack@, needle@),
{
    let h = haystack.unicode_len();
    let n = needle.unicode_len();
    if n > h {
        return false;
    }
    let last = h - n;
    let mut at: usize = 0;
    while at < last
        invariant
            h == haystack@.len(),
            n == needle@.len(),
            last == h - n,
            at <= last,
            forall|k: int| 0 <= k < at ==> !occurs_at(haystack@, needle@, k),
        decreases last - at,
    {
        if matches_at(haystack, needle, at) {
            return true;
        }
        at = at + 1;
    }
    matches_at(haystack, needle, last)
}

/// White space, as Unicode has it.
pub open spec fn is_space(c: char) -> bool {
    ||| c == ' '
    ||| ('\u{9}' <= c && c <= '\u{d}')
    ||| c == '\u{85}'
    ||| c == '\u{a0}'
    ||| c == '\u{1680}'
    ||| ('\u{2000}' <= c && c <= '\u{200a}')
    ||| c == '\u{2028}'
    ||| c == '\u{2029}'
    ||| c == '\u{202f}'
    ||| c == '\u{205f}'
    ||| c == '\u{3000}'
}

/// Whether `c` is white space.
pub fn is_whitespace(c: char) -> (b: bool)
    ensures
        b == is_space(c),
{
    c == ' ' || ('\u{9}' <= c && c <= '\u{d}') || c == '\u{85}' || c == '\u{a0}' || c == '\u{1680}'
        || ('\u{2000}' <= c && c <= '\u{200a}') || c == '\u{2028}' || c == '\u{2029}' || c
        == '\u{202f}' || c == '\u{205f}' || c == '\u{3000}'
}

/// `s` without the white space it begins with.
pub open spec fn trim_start(s: Seq<char>) -> Seq<char>
    decreases s.len(),
{
    if s.len() > 0 && is_space(s[0]) {
        trim_start(s.drop_first())
    } else {
        s
    }
}

/// `s` without the white space it ends with.
pub open spec fn trim_end(s: Seq<char>) -> Seq<char>
    decreases s.len(),
{
    if s.len() > 0 && is_space(s.last()) {
        trim_end(s.drop_last())
    } else {
        s
    }
}

/// `s` without the white space around it.
pub open spec fn trimmed(s: Seq<char>) -> Seq<char> {
    trim_end(trim_start(s))
}

/// `s` without the white space around it.
pub fn trim(s: &str) -> (out: String)
    ensures
        out@ == trimmed(s@),
{
    let len = s.unicode_len();
    let mut start: usize = 0;
    assert(s@.skip(0) =~= s@);
    while start < len && is_whitespace(s.get_char(start))
        invariant
            start <= len,
            len == s@.len(),
            trim_start(s@) == trim_start(s@.skip(start as int)),
        decreases len - start,
    {
        assert(s@.skip(start as int).drop_first() =~= s@.skip(start as int + 1));
        start = start + 1;
    }
    let ghost rest = s@.skip(start as int);
    assert(trim_start(s@) == rest);
    let mut end: usize = len;
    while end > start && is_whitespace(s.get_char(end - 1))
        invariant
            start <= end <= len,
            len == s@.len(),
            rest == s@.skip(start as int),
            trim_end(rest) == trim_end(s@.subrange(start as int, end as int)),
        decreases end,
    {
        assert(s@.subrange(start as int, end as int).drop_last() =~= s@.subrange(
            start as int,
            end as int - 1,
        ));
        end = end - 1;
    }
    assert(s@.subrange(start as int, len as int) =~= rest);
    let ghost kept = s@.subrange(start as int, end as int);
    assert(trim_end(rest) == kept);
    let mut out = String::new();
    let mut i: usize = start;
    while i < end
        invariant
            start <= i <= end,
            end <= len,
            len == s@.len(),
            out@ == s@.subrange(start as int, i as int),
        decreases end - i,
    {
        out.push(s.get_char(i));
        i = i + 1;
        assert(out@ =~= s@.subrange(start as int, i as int));
    }
    out
}

/// The value of a decimal digit, if `c` is one.
pub open spec fn digit_value(c: char) -> Option<nat> {
    if '0' <= c && c <= '9' {
        Some((c as nat - '0' as nat) as nat)
    } else {
        None
    }
}

/// Whether every character is a decimal digit.
pub open spec fn all_digits(s: Seq<char>) -> bool {
    forall|i: int| 0 <= i < s.len() ==> (#[trigger] digit_value(s[i])) is Some
}

/// The number that a row of decimal digits stands for.
pub open spec fn digits_value(s: Seq<char>) -> nat
    decreases s.len(),
{
    if s.len() == 0 {
        0
    } else {
        digits_value(s.drop_last()) * 10 + digit_value(s.last()).unwrap_or(0)
    }
}

/// The digits of a number text: what follows an optional plus sign.
pub open spec fn number_body(s: Seq<char>) -> Seq<char> {
    if s.len() > 0 && s[0] == '+' {
        s.drop_first()
    } else {
        s
    }
}

/// The number that `s` stands for: decimal digits, at least one, after an
/// optional plus sign, with a value that 32 bits hold.
pub open spec fn parsed_u32(s: Seq<char>) -> Option<u32> {
    let body = number_body(s);
    if body.len() > 0 && all_digits(body) && digits_value(body) <= u32::MAX {
        Some(digits_value(body) as u32)
    } else {
        None
    }
}

/// A row of digits stands for no less than any row it begins with.
pub proof fn lemma_digits_value_grows(s: Seq<char>, n: int)
    requires
        0 <= n <= s.len(),
    ensures
        digits_value(s.take(n)) <= digits_value(s),
    decreases s.len() - n,
{
    if n < s.len() {
        lemma_digits_value_grows(s, n + 1);
        assert(s.take(n + 1).drop_last() =~= s.take(n));
    } else {
        assert(s.take(n) =~= s);
    }
}

/// Reads `s` as a number of 32 bits.
pub fn parse_u32(s: &str) -> (value: Option<u32>)
    ensures
        value == parsed_u32(s@),
{
    let len = s.unicode_len();
    let start: usize = if len > 0 && s.get_char(0) == '+' {
        1
    } else {
        0
    };
    let ghost body = number_body(s@);
    assert(body =~= s@.skip(start as int));
    if start == len {
        return None;
    }
    let mut acc: u64 = 0;
    let mut i: usize = start;
    while i < len
        invariant
            start <= i <= len,
            len == s@.len(),
            body == s@.skip(start as int),
            body == number_body(s@),
            all_digits(body.take(i - start)),
            acc == digits_value(body.take(i - start)),
            acc <= u32::MAX,
        decreases len - i,
    {
        let c = s.get_char(i);
        let ghost grown = body.take(i - start + 1);
        proof {
            assert(grown.drop_last() =~= body.take(i - start));
            assert(grown.last() == c);
            assert(body[i - start] == c);
        }
        if !('0' <= c && c <= '9') {
            assert(digit_value(body[i - start]) is None);
            assert(!all_digits(body));
            return None;
        }
        let d: u64 = (c as u64) - ('0' as u64);
        let next: u64 = acc * 10 + d;
        proof {
            assert(next == digits_value(grown));
            assert forall|j: int| 0 <= j < grown.len() implies (#[trigger] digit_value(
                grown[j],
            )) is Some by {
                if j < i - start {
                    assert(grown[j] == body.take(i - start)[j]);
                }
            }
        }
        if next > u32::MAX as u64 {
            proof {
                lemma_digits_value_grows(body, i - start + 1);
                assert(digits_value(body) > u32::MAX);
            }
            return None;
        }
        acc = next;
        i = i + 1;
    }
    assert(body.take(len - start) =~= body);
    Some(acc as u32)
}

/// `s` with every underscore turned into a hyphen.
pub open spec fn hyphenated(s: Seq<char>) -> Seq<char> {
    s.map_values(|c: char| if c == '_' {
        '-'
    } else {
        c
    })
}

/// Turns every underscore of `s` into a hyphen.
pub fn hyphenate(s: &str) -> (out: String)
    ensures
        out@ == hyphenated(s@),
{
    let len = s.unicode_len();
    let mut out = String::new();
    let mut i: usize = 0;
    while i < len
        invariant
            i <= len,
            len == s@.len(),
            out@ =~= hyphenated(s@.take(i as int)),
        decreases len - i,
    {
        let c = s.get_char(i);
        if c == '_' {
            out.push('-');
        } else {
            out.push(c);
        }
        i = i + 1;
    }
    assert(s@.take(len as int) =~= s@);
    out
}

/// What `str::to_lowercase` makes of a text.
pub uninterp spec fn lowercased(s: Seq<char>) -> Seq<char>;

/// `str::to_lowercase` gives the lower-case form of a text as Unicode
/// defines it, which depends on the text alone.
#[verifier::external_body]
pub(crate) fn to_lowercase(s: &str) -> (out: String)
    ensures
        out@ == lowercased(s@),
{
    s.to_lowercase()
}

/// A name as it is compared: underscores count as hyphens, and case does
/// not count.
pub open spec fn normalized(name: Seq<char>) -> Seq<char> {
    lowercased(hyphenated(name))
}

/// Brings a name into the form in which it is compared.
pub fn normalize(name: &str) -> (out: String)
    ensures
        out@ == normalized(name@),
{
    let hyphens = hyphenate(name);
    to_lowercase(hyphens.as_str())
}

/// `s` without `prefix` at its start, if it starts with it.
pub open spec fn without_prefix(s: Seq<char>, prefix: Seq<char>) -> Option<Seq<char>> {
    if prefix.is_prefix_of(s) {
        Some(s.skip(prefix.len() as int))
    } else {
        None
    }
}

/// Takes `prefix` off the start of `s`, if `s` starts with it.
pub fn strip_prefix<'a>(s: &'a str, prefix: &str) -> (rest: Option<&'a str>)
    ensures
        match rest {
            Some(r) => without_prefix(s@, prefix@) == Some(r@),
            None => without_prefix(s@, prefix@) is None,
        },
{
    if starts_with(s, prefix) {
        let len = s.unicode_len();
        let width = prefix.unicode_len();
        let rest = s.substring_char(width, len);
        assert(s@.subrange(width as int, len as int) =~= s@.skip(width as int));
        Some(rest)
    } else {
        None
    }
}

/// Whether `a` comes before `b` where texts are ordered like words in a
/// dictionary, character by character.
pub open spec fn text_before(a: Seq<char>, b: Seq<char>) -> bool
    decreases a.len(),
{
    if b.len() == 0 {
        false
    } else if a.len() == 0 {
        true
    } else if a[0] != b[0] {
        a[0] < b[0]
    } else {
        text_before(a.drop_first(), b.drop_first())
    }
}

/// Whether `a` comes before `b` in the order of a dictionary.
pub fn comes_before(a: &str, b: &str) -> (before: bool)
    ensures
        before == text_before(a@, b@),
{
    let la = a.unicode_len();
    let lb = b.unicode_len();
    let mut i: usize = 0;
    assert(a@.skip(0) =~= a@);
    assert(b@.skip(0) =~= b@);
    while i < la && i < lb
        invariant
            i <= la,
            i <= lb,
            la == a@.len(),
            lb == b@.len(),
            text_before(a@, b@) == text_before(a@.skip(i as int), b@.skip(i as int)),
        decreases la - i,
    {
        let ca = a.get_char(i);
        let cb = b.get_char(i);
        assert(a@.skip(i as int)[0] == ca);
        assert(b@.skip(i as int)[0] == cb);
        if ca != cb {
            return ca < cb;
        }
        assert(a@.skip(i as int).drop_first() =~= a@.skip(i as int + 1));
        assert(b@.skip(i as int).drop_first() =~= b@.skip(i as int + 1));
        i = i + 1;
    }
    i < lb
}

/// The texts of a list of strings, in order.
pub open spec fn texts_view(v: Seq<String>) -> Seq<Seq<char>> {
    v.map_values(|s: String| s@)
}

/// A sorted list of names with `x` put in at its place, if it is not in
/// the list already.
pub open spec fn inserted(names: Seq<Seq<char>>, x: Seq<char>) -> Seq<Seq<char>>
    decreases names.len(),
{
    if names.len() == 0 {
        seq![x]
    } else if names.last() == x {
        names
    } else if text_before(names.last(), x) {
        names.push(x)
    } else {
        inserted(names.drop_last(), x).push(names.last())
    }
}

/// The order of a dictionary is a strict total order: no text comes before
/// itself, of two different texts one comes before the other, and what
/// comes before a text comes before all that this text comes before.
pub proof fn lemma_text_order(a: Seq<char>, b: Seq<char>, c: Seq<char>)
    ensures
        !text_before(a, a),
        a != b ==> text_before(a, b) || text_before(b, a),
        text_before(a, b) && text_before(b, c) ==> text_before(a, c),
    decreases a.len(),
{
    if a.len() > 0 {
        lemma_text_order(a.drop_first(), a.drop_first(), a.drop_first());
        if b.len() > 0 {
            if c.len() > 0 {
                lemma_text_order(a.drop_first(), b.drop_first(), c.drop_first());
            } else {
                lemma_text_order(a.drop_first(), b.drop_first(), b.drop_first());
            }
            if a[0] == b[0] && a.drop_first() == b.drop_first() {
                assert(a =~= seq![a[0]] + a.drop_first());
                assert(b =~= seq![b[0]] + b.drop_first());
            }
        }
    } else if b.len() == 0 {
        assert(a =~= b);
    }
}

/// Whether the names stand in the order of a dictionary, each once.
pub open spec fn sorted_names(names: Seq<Seq<char>>) -> bool {
    forall|i: int, j: int|
        0 <= i < j < names.len() ==> text_before(#[trigger] names[i], #[trigger] names[j])
}

/// Putting a name into a sorted list leaves the list sorted, and the list
/// then holds that name and what it held before, nothing else.
pub proof fn lemma_inserted_sorted(names: Seq<Seq<char>>, x: Seq<char>)
    requires
        sorted_names(names),
    ensures
        sorted_names(inserted(names, x)),
        forall|y: Seq<char>|
            #![trigger inserted(names, x).contains(y)]
            #![trigger names.contains(y)]
            inserted(names, x).contains(y) <==> names.contains(y) || y == x,
    decreases names.len(),
{
    let out = inserted(names, x);
    if names.len() == 0 {
        assert(out[0] == x);
        assert forall|y: Seq<char>|
            #![trigger out.contains(y)]
            #![trigger names.contains(y)]
            out.contains(y) <==> names.contains(y) || y == x by {
            if y == x {
                assert(out[0] == y);
            }
        }
    } else if names.last() == x {
        assert(names[names.len() - 1] == x);
    } else if text_before(names.last(), x) {
        assert forall|i: int, j: int| 0 <= i < j < out.len() implies text_before(
            #[trigger] out[i],
            #[trigger] out[j],
        ) by {
            if j == names.len() {
                if i < names.len() - 1 {
                    assert(text_before(names[i], names[names.len() - 1]));
                    lemma_text_order(names[i], names.last(), x);
                }
            } else {
                assert(text_before(names[i], names[j]));
            }
        }
        assert forall|y: Seq<char>|
            #![trigger out.contains(y)]
            #![trigger names.contains(y)]
            out.contains(y) <==> names.contains(y) || y == x by {
            if names.contains(y) {
                let k = choose|k: int| 0 <= k < names.len() && names[k] == y;
                assert(out[k] == y);
            }
            if y == x {
                assert(out[names.len() as int] == y);
            }
            if out.contains(y) {
                let k = choose|k: int| 0 <= k < out.len() && out[k] == y;
                if k < names.len() {
                    assert(names[k] == y);
                }
            }
        }
    } else {
        let shorter = names.drop_last();
        let last = names.last();
        assert forall|i: int, j: int| 0 <= i < j < shorter.len() implies text_before(
            #[trigger] shorter[i],
            #[trigger] shorter[j],
        ) by {
            assert(text_before(names[i], names[j]));
        }
        lemma_inserted_sorted(shorter, x);
        lemma_text_order(last, x, x);
        let inner = inserted(shorter, x);
        assert(out == inner.push(last));
        assert forall|i: int, j: int| 0 <= i < j < out.len() implies text_before(
            #[trigger] out[i],
            #[trigger] out[j],
        ) by {
            if j == inner.len() {
                assert(inner.contains(inner[i]));
                if inner[i] != x {
                    let k = choose|k: int| 0 <= k < shorter.len() && shorter[k] == inner[i];
                    assert(text_before(names[k], names[names.len() - 1]));
                }
            }
        }
        assert forall|y: Seq<char>|
            #![trigger out.contains(y)]
            #![trigger names.contains(y)]
            out.contains(y) <==> names.contains(y) || y == x by {
            if names.contains(y) {
                let k = choose|k: int| 0 <= k < names.len() && names[k] == y;
                if k < shorter.len() {
                    assert(shorter[k] == y);
                    assert(shorter.contains(y));
                    let m = choose|m: int| 0 <= m < inner.len() && inner[m] == y;
                    assert(out[m] == y);
                } else {
                    assert(out[inner.len() as int] == y);
                }
            }
            if y == x {
                assert(inner.contains(x));
                let m = choose|m: int| 0 <= m < inner.len() && inner[m] == y;
                assert(out[m] == y);
            }
            if out.contains(y) {
                let k = choose|k: int| 0 <= k < out.len() && out[k] == y;
                if k < inner.len() {
                    assert(inner.contains(inner[k]));
                    if y != x {
                        let m = choose|m: int| 0 <= m < shorter.len() && shorter[m] == y;
                        assert(names[m] == y);
                    }
                } else {
                    assert(names[names.len() - 1] == y);
                }
            }
        }
    }
}

/// Where `x` goes: behind the first `at` names, when all the names from
/// `at` on are others than `x` that do not come before it, and the name
/// just before `at`, if there is one, is `x` itself or comes before it.
pub proof fn lemma_inserted_at(names: Seq<Seq<char>>, x: Seq<char>, at: int)
    requires
        0 <= at <= names.len(),
        forall|k: int| at <= k < names.len() ==> names[k] != x && !text_before(#[trigger] names[k], x),
        at > 0 ==> names[at - 1] == x || text_before(names[at - 1], x),
    ensures
        inserted(names, x) == if at > 0 && names[at - 1] == x {
            names
        } else {
            names.insert(at, x)
        },
    decreases names.len() - at,
{
    if at == names.len() {
        if names.len() > 0 && names.last() != x {
            assert(names.insert(at, x) =~= names.push(x));
        } else if names.len() == 0 {
            assert(names.insert(at, x) =~= seq![x]);
        }
    } else {
        let shorter = names.drop_last();
        assert forall|k: int| at <= k < shorter.len() implies shorter[k] != x && !text_before(
            #[trigger] shorter[k],
            x,
        ) by {
            assert(shorter[k] == names[k]);
        }
        lemma_inserted_at(shorter, x, at);
        if at > 0 && names[at - 1] == x {
            assert(shorter.push(names.last()) =~= names);
        } else {
            assert(shorter.insert(at, x).push(names.last()) =~= names.insert(at, x));
        }
    }
}

/// Puts `x` into a sorted list of names at its place, if it is not in the
/// list already.
pub fn insert_name(names: &mut Vec<String>, x: String)
    ensures
        texts_view(final(names)@) == inserted(texts_view(old(names)@), x@),
{
    let ghost before = texts_view(names@);
    let mut at: usize = names.len();
    while at > 0 && !same_text(names[at - 1].as_str(), x.as_str()) && !comes_before(
        names[at - 1].as_str(),
        x.as_str(),
    )
        invariant
            at <= names.len(),
            before == texts_view(names@),
            forall|k: int|
                at <= k < before.len() ==> before[k] != x@ && !text_before(#[trigger] before[k], x@),
        decreases at,
    {
        assert(before[at - 1] == names[at - 1]@);
        at = at - 1;
    }
    proof {
        if at > 0 {
            assert(before[at - 1] == names[at - 1]@);
        }
        lemma_inserted_at(before, x@, at as int);
    }
    if at > 0 && same_text(names[at - 1].as_str(), x.as_str()) {
        return;
    }
    names.insert(at, x);
    assert(texts_view(names@) =~= before.insert(at as int, x@));
}

/// `out` followed by the names with `separator` between them.
pub open spec fn with_joined(out: Seq<char>, names: Seq<Seq<char>>, separator: Seq<char>) -> Seq<
    char,
>
    decreases names.len(),
{
    if names.len() == 0 {
        out
    } else if names.len() == 1 {
        out + names[0]
    } else {
        with_joined(out, names.drop_last(), separator) + separator + names.last()
    }
}

/// Appends the names to `out` with `separator` between them.
pub fn push_joined(out: &mut String, names: &Vec<String>, separator: &str)
    ensures
        final(out)@ == with_joined(old(out)@, texts_view(names@), separator@),
{
    if names.len() == 0 {
        return;
    }
    let ghost all = texts_view(names@);
    out.append(names[0].as_str());
    assert(all.take(1).len() == 1);
    assert(all.take(1)[0] == all[0]);
    let mut i: usize = 1;
    while i < names.len()
        invariant
            1 <= i <= names.len(),
            all == texts_view(names@),
            out@ == with_joined(old(out)@, all.take(i as int), separator@),
        decreases names.len() - i,
    {
        out.append(separator);
        out.append(names[i].as_str());
        proof {
            let grown = all.take(i as int + 1);
            assert(grown.drop_last() =~= all.take(i as int));
            assert(grown.last() == all[i as int]);
        }
        i = i + 1;
    }
    assert(all.take(names.len() as int) =~= all);
}

} // verus!
