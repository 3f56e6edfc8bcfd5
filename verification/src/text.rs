use vstd::prelude::*;
use vstd::string::StrSliceExecFns;
use vstd::string::StringExecFns;

verus! {

/// Appends one character (std `String::push`).
#[verifier::external_body]
pub(crate) fn push_char(s: &mut String, c: char)
    ensures
        final(s)@ == old(s)@.push(c),
{
    s.push(c);
}

/// Unicode `White_Space`, the characters that `str::trim` removes.
pub open spec fn spec_is_white_space(c: char) -> bool {
    let u = c as u32;
    ||| 0x09 <= u <= 0x0D
    ||| u == 0x20
    ||| u == 0x85
    ||| u == 0xA0
    ||| u == 0x1680
    ||| 0x2000 <= u <= 0x200A
    ||| u == 0x2028
    ||| u == 0x2029
    ||| u == 0x202F
    ||| u == 0x205F
    ||| u == 0x3000
}

pub fn is_white_space(c: char) -> (b: bool)
    ensures
        b == spec_is_white_space(c),
{
    let u = c as u32;
    (0x09 <= u && u <= 0x0D) || u == 0x20 || u == 0x85 || u == 0xA0 || u == 0x1680 || (0x2000
        <= u && u <= 0x200A) || u == 0x2028 || u == 0x2029 || u == 0x202F || u == 0x205F || u
        == 0x3000
}

/// How many white-space characters the text starts with.
pub open spec fn leading_white_space(s: Seq<char>) -> nat
    decreases s.len(),
{
    if s.len() > 0 && spec_is_white_space(s[0]) {
        1 + leading_white_space(s.drop_first())
    } else {
        0
    }
}

/// How many white-space characters the text ends with.
pub open spec fn trailing_white_space(s: Seq<char>) -> nat
    decreases s.len(),
{
    if s.len() > 0 && spec_is_white_space(s.last()) {
        1 + trailing_white_space(s.drop_last())
    } else {
        0
    }
}

/// The text without its leading and trailing white space (`str::trim`).
pub open spec fn spec_trim(s: Seq<char>) -> Seq<char> {
    let t = s.subrange(leading_white_space(s) as int, s.len() as int);
    t.subrange(0, t.len() - trailing_white_space(t))
}

/// Whether the text holds nothing but white space.
pub open spec fn is_blank(s: Seq<char>) -> bool {
    forall|i: int| 0 <= i < s.len() ==> spec_is_white_space(#[trigger] s[i])
}

proof fn lemma_leading_bound(s: Seq<char>)
    ensures
        leading_white_space(s) <= s.len(),
    decreases s.len(),
{
    if s.len() > 0 && spec_is_white_space(s[0]) {
        lemma_leading_bound(s.drop_first());
    }
}

proof fn lemma_trailing_bound(s: Seq<char>)
    ensures
        trailing_white_space(s) <= s.len(),
    decreases s.len(),
{
    if s.len() > 0 && spec_is_white_space(s.last()) {
        lemma_trailing_bound(s.drop_last());
    }
}

proof fn lemma_leading_is(s: Seq<char>, i: int)
    requires
        0 <= i <= s.len(),
        forall|k: int| 0 <= k < i ==> spec_is_white_space(#[trigger] s[k]),
        i == s.len() || !spec_is_white_space(s[i]),
    ensures
        leading_white_space(s) == i,
    decreases i,
{
    if i > 0 {
        let t = s.drop_first();
        assert forall|k: int| 0 <= k < i - 1 implies spec_is_white_space(#[trigger] t[k]) by {
            assert(t[k] == s[k + 1]);
        }
        if i < s.len() {
            assert(t[i - 1] == s[i]);
        }
        lemma_leading_is(t, i - 1);
    }
}

proof fn lemma_trailing_is(s: Seq<char>, j: int)
    requires
        0 <= j <= s.len(),
        forall|k: int| j <= k < s.len() ==> spec_is_white_space(#[trigger] s[k]),
        j == 0 || !spec_is_white_space(s[j - 1]),
    ensures
        trailing_white_space(s) == s.len() - j,
    decreases s.len() - j,
{
    if j < s.len() {
        let t = s.drop_last();
        assert(spec_is_white_space(s[s.len() - 1]));
        assert forall|k: int| j <= k < t.len() implies spec_is_white_space(#[trigger] t[k]) by {
            assert(t[k] == s[k]);
        }
        if j > 0 {
            assert(t[j - 1] == s[j - 1]);
        }
        lemma_trailing_is(t, j);
    }
}

proof fn lemma_leading_facts(s: Seq<char>)
    ensures
        leading_white_space(s) <= s.len(),
        forall|k: int| 0 <= k < leading_white_space(s) ==> spec_is_white_space(#[trigger] s[k]),
        leading_white_space(s) < s.len() ==> !spec_is_white_space(s[leading_white_space(s) as int]),
    decreases s.len(),
{
    if s.len() > 0 && spec_is_white_space(s[0]) {
        let t = s.drop_first();
        lemma_leading_facts(t);
        assert forall|k: int| 0 <= k < leading_white_space(s) implies spec_is_white_space(
            #[trigger] s[k],
        ) by {
            if k > 0 {
                assert(s[k] == t[k - 1]);
            }
        }
        if leading_white_space(s) < s.len() {
            assert(s[leading_white_space(s) as int] == t[leading_white_space(t) as int]);
        }
    }
}

/// A text is blank exactly when trimming leaves nothing.
pub proof fn lemma_blank_iff_trim_empty(s: Seq<char>)
    ensures
        is_blank(s) <==> spec_trim(s).len() == 0,
{
    lemma_leading_facts(s);
    let l = leading_white_space(s);
    let t = s.subrange(l as int, s.len() as int);
    lemma_trailing_bound(t);
    if !is_blank(s) {
        let i = choose|i: int| 0 <= i < s.len() && !spec_is_white_space(#[trigger] s[i]);
        assert(l <= i);
        assert(t[0] == s[l as int]);
        if trailing_white_space(t) == t.len() {
            lemma_trailing_all(t);
            assert(spec_is_white_space(t[0]));
            assert(false);
        }
    } else {
        if l < s.len() {
            assert(spec_is_white_space(s[l as int]));
        }
    }
}

proof fn lemma_trailing_all(t: Seq<char>)
    requires
        trailing_white_space(t) == t.len(),
    ensures
        forall|k: int| 0 <= k < t.len() ==> spec_is_white_space(#[trigger] t[k]),
    decreases t.len(),
{
    if t.len() > 0 {
        let u = t.drop_last();
        lemma_trailing_all(u);
        assert forall|k: int| 0 <= k < t.len() implies spec_is_white_space(#[trigger] t[k]) by {
            if k < u.len() {
                assert(u[k] == t[k]);
            }
        }
    }
}

/// The characters of a text, in order.
pub fn char_at(s: &str, i: usize) -> (c: char)
    requires
        i < s@.len(),
    ensures
        c == s@[i as int],
{
    s.get_char(i)
}

/// `str::trim`.
pub fn trim(s: &str) -> (r: String)
    ensures
        r@ == spec_trim(s@),
{
    let n = s.unicode_len();
    let mut i: usize = 0;
    while i < n && is_white_space(s.get_char(i))
        invariant
            n == s@.len(),
            i <= n,
            forall|k: int| 0 <= k < i ==> spec_is_white_space(#[trigger] s@[k]),
        decreases n - i,
    {
        i = i + 1;
    }
    proof {
        lemma_leading_is(s@, i as int);
    }
    let mut j: usize = n;
    while j > i && is_white_space(s.get_char(j - 1))
        invariant
            n == s@.len(),
            i <= j <= n,
            forall|k: int| j <= k < n ==> spec_is_white_space(#[trigger] s@[k]),
        decreases j,
    {
        j = j - 1;
    }
    let ghost t = s@.subrange(i as int, n as int);
    proof {
        assert forall|k: int| (j - i) <= k < t.len() implies spec_is_white_space(#[trigger] t[k]) by {
            assert(t[k] == s@[k + i]);
        }
        if j > i {
            assert(t[j - i - 1] == s@[j - 1]);
        }
        lemma_trailing_is(t, (j - i) as int);
        assert(t.subrange(0, (j - i) as int) =~= s@.subrange(i as int, j as int));
    }
    String::from_str(s.substring_char(i, j))
}

/// Whether the text holds nothing but white space (`s.trim().is_empty()`).
pub fn blank(s: &str) -> (b: bool)
    ensures
        b == is_blank(s@),
        b == (spec_trim(s@).len() == 0),
{
    proof {
        lemma_blank_iff_trim_empty(s@);
    }
    let n = s.unicode_len();
    let mut i: usize = 0;
    while i < n
        invariant
            n == s@.len(),
            i <= n,
            forall|k: int| 0 <= k < i ==> spec_is_white_space(#[trigger] s@[k]),
        decreases n - i,
    {
        if !is_white_space(s.get_char(i)) {
            assert(!spec_is_white_space(s@[i as int]));
            proof {
                lemma_blank_iff_trim_empty(s@);
            }
            return false;
        }
        i = i + 1;
    }
    proof {
        lemma_blank_iff_trim_empty(s@);
    }
    true
}

/// Equality of two texts.
pub fn same_text(a: &str, b: &str) -> (r: bool)
    ensures
        r == (a@ == b@),
{
    let n = a.unicode_len();
    let m = b.unicode_len();
    if n != m {
        return false;
    }
    let mut i: usize = 0;
    while i < n
        invariant
            n == a@.len(),
            m == b@.len(),
            n == m,
            i <= n,
            forall|k: int| 0 <= k < i ==> a@[k] == b@[k],
        decreases n - i,
    {
        if a.get_char(i) != b.get_char(i) {
            return false;
        }
        i = i + 1;
    }
    assert(a@ =~= b@);
    true
}

/// Lexicographic order of texts by code point, the order of `String`.
pub open spec fn text_less(a: Seq<char>, b: Seq<char>) -> bool
    decreases a.len(),
{
    if a.len() == 0 {
        b.len() > 0
    } else if b.len() == 0 {
        false
    } else if a[0] != b[0] {
        a[0] < b[0]
    } else {
        text_less(a.drop_first(), b.drop_first())
    }
}

proof fn lemma_text_less_skip(a: Seq<char>, b: Seq<char>, i: int)
    requires
        0 <= i <= a.len(),
        i <= b.len(),
        forall|k: int| 0 <= k < i ==> a[k] == b[k],
    ensures
        text_less(a, b) == text_less(a.subrange(i, a.len() as int), b.subrange(i, b.len() as int)),
    decreases i,
{
    if i > 0 {
        assert(a[0] == b[0]);
        let a1 = a.drop_first();
        let b1 = b.drop_first();
        assert forall|k: int| 0 <= k < i - 1 implies a1[k] == b1[k] by {
            assert(a1[k] == a[k + 1]);
            assert(b1[k] == b[k + 1]);
        }
        lemma_text_less_skip(a1, b1, i - 1);
        assert(a1.subrange(i - 1, a1.len() as int) =~= a.subrange(i, a.len() as int));
        assert(b1.subrange(i - 1, b1.len() as int) =~= b.subrange(i, b.len() as int));
    } else {
        assert(a.subrange(0, a.len() as int) =~= a);
        assert(b.subrange(0, b.len() as int) =~= b);
    }
}

/// No text is below itself.
pub proof fn lemma_text_less_irreflexive(a: Seq<char>)
    ensures
        !text_less(a, a),
    decreases a.len(),
{
    if a.len() > 0 {
        lemma_text_less_irreflexive(a.drop_first());
    }
}

/// Of two different texts, exactly one is below the other.
pub proof fn lemma_text_less_total(a: Seq<char>, b: Seq<char>)
    ensures
        a != b ==> (text_less(a, b) || text_less(b, a)),
        !(text_less(a, b) && text_less(b, a)),
    decreases a.len(),
{
    if a.len() > 0 && b.len() > 0 && a[0] == b[0] {
        lemma_text_less_total(a.drop_first(), b.drop_first());
        if a != b {
            if a.drop_first() == b.drop_first() {
                assert(a.len() == b.len());
                assert forall|k: int| 0 <= k < a.len() implies a[k] == b[k] by {
                    if k > 0 {
                        assert(a[k] == a.drop_first()[k - 1]);
                        assert(b[k] == b.drop_first()[k - 1]);
                    }
                }
                assert(a =~= b);
            }
        }
    } else if a.len() == 0 && b.len() == 0 {
        assert(a =~= b);
    } else if a.len() > 0 && b.len() > 0 {
        assert(a[0] != b[0]);

    }
}

/// The order of texts is transitive.
pub proof fn lemma_text_less_transitive(a: Seq<char>, b: Seq<char>, c: Seq<char>)
    requires
        text_less(a, b),
        text_less(b, c),
    ensures
        text_less(a, c),
    decreases a.len(),
{
    if a.len() > 0 && b.len() > 0 && c.len() > 0 && a[0] == b[0] && b[0] == c[0] {
        lemma_text_less_transitive(a.drop_first(), b.drop_first(), c.drop_first());
    }
}

/// Whether `a` comes before `b` in the order of `String`.
pub fn text_before(a: &str, b: &str) -> (r: bool)
    ensures
        r == text_less(a@, b@),
{
    let n = a.unicode_len();
    let m = b.unicode_len();
    let mut i: usize = 0;
    while i < n && i < m
        invariant
            n == a@.len(),
            m == b@.len(),
            i <= n,
            i <= m,
            forall|k: int| 0 <= k < i ==> a@[k] == b@[k],
        decreases n - i,
    {
        let x = a.get_char(i);
        let y = b.get_char(i);
        if x != y {
            proof {
                lemma_text_less_skip(a@, b@, i as int);
                let a1 = a@.subrange(i as int, n as int);
                let b1 = b@.subrange(i as int, m as int);
                assert(a1[0] == x);
                assert(b1[0] == y);
            }
            return x < y;
        }
        i = i + 1;
    }
    proof {
        lemma_text_less_skip(a@, b@, i as int);
    }
    i == n && i < m
}

/// Decimal digit of a number below ten.
pub open spec fn digit_char(d: nat) -> char {
    if d == 0 {
        '0'
    } else if d == 1 {
        '1'
    } else if d == 2 {
        '2'
    } else if d == 3 {
        '3'
    } else if d == 4 {
        '4'
    } else if d == 5 {
        '5'
    } else if d == 6 {
        '6'
    } else if d == 7 {
        '7'
    } else if d == 8 {
        '8'
    } else {
        '9'
    }
}

/// The decimal notation of a number, as `Display` writes it.
pub open spec fn decimal(n: nat) -> Seq<char>
    decreases n,
{
    if n < 10 {
        seq![digit_char(n)]
    } else {
        decimal(n / 10).push(digit_char(n % 10))
    }
}

fn digit(d: u64) -> (c: char)
    requires
        d < 10,
    ensures
        c == digit_char(d as nat),
{
    if d == 0 {
        '0'
    } else if d == 1 {
        '1'
    } else if d == 2 {
        '2'
    } else if d == 3 {
        '3'
    } else if d == 4 {
        '4'
    } else if d == 5 {
        '5'
    } else if d == 6 {
        '6'
    } else if d == 7 {
        '7'
    } else if d == 8 {
        '8'
    } else {
        '9'
    }
}

/// The number a text of decimal digits denotes.
pub open spec fn digits_value(s: Seq<char>) -> int
    decreases s.len(),
{
    if s.len() == 0 {
        0
    } else {
        digits_value(s.drop_last()) * 10 + (s.last() as int - '0' as int)
    }
}

proof fn lemma_digit_char(d: nat)
    requires
        d < 10,
    ensures
        digit_char(d) as int == '0' as int + d,
{
}

/// The decimal notation of a number is made of digits only, starts with a
/// digit other than zero unless the number is zero, and denotes the number.
pub proof fn lemma_decimal_denotes_number(n: nat)
    ensures
        decimal(n).len() >= 1,
        forall|i: int| 0 <= i < decimal(n).len() ==> '0' <= #[trigger] decimal(n)[i] <= '9',
        n > 0 ==> decimal(n)[0] != '0',
        digits_value(decimal(n)) == n,
    decreases n,
{
    let d = decimal(n);
    if n < 10 {
        lemma_digit_char(n);
        assert(d.drop_last() =~= Seq::<char>::empty());
        assert(digits_value(Seq::<char>::empty()) == 0);
        assert(d.last() == digit_char(n));
    } else {
        lemma_decimal_denotes_number(n / 10);
        lemma_digit_char(n % 10);
        assert(d.drop_last() =~= decimal(n / 10));
        assert forall|i: int| 0 <= i < d.len() implies '0' <= #[trigger] d[i] <= '9' by {
            if i < d.len() - 1 {
                assert(d[i] == decimal(n / 10)[i]);
            }
        }
        assert(d[0] == decimal(n / 10)[0]);
        assert(d.last() == digit_char((n % 10) as nat));
        assert(digits_value(d) == digits_value(decimal(n / 10)) * 10 + (n % 10) as int);
        assert(n == (n / 10) * 10 + n % 10);
    }
}

/// Every line feed of a text with carriage returns before line feeds follows
/// a carriage return, and a text without line feeds is left as it was.
pub proof fn lemma_crlf_line_breaks(s: Seq<char>)
    ensures
        forall|i: int|
            0 <= i < with_crlf(s).len() && #[trigger] with_crlf(s)[i] == '\n' ==> i > 0
                && with_crlf(s)[i - 1] == '\r',
        !s.contains('\n') ==> with_crlf(s) == s,
    decreases s.len(),
{
    if s.len() > 0 {
        let t = s.drop_last();
        lemma_crlf_line_breaks(t);
        assert(!s.contains('\n') ==> !t.contains('\n')) by {
            if !s.contains('\n') {
                assert forall|i: int| 0 <= i < t.len() implies t[i] != '\n' by {
                    assert(t[i] == s[i]);
                }
            }
        }
        let r = with_crlf(s);
        let q = with_crlf(t);
        assert forall|i: int| 0 <= i < r.len() && #[trigger] r[i] == '\n' implies i > 0 && r[i - 1]
            == '\r' by {
            if i < q.len() {
                assert(r[i] == q[i]);
                assert(r[i - 1] == q[i - 1]);
            }
        }
        if !s.contains('\n') {
            assert(s.last() != '\n') by {
                assert(s[s.len() - 1] == s.last());
            }
            assert(r =~= s);
        }
    }
}

/// Appends the decimal notation of `n`.
pub fn push_decimal(s: &mut String, n: u64)
    ensures
        final(s)@ == old(s)@ + decimal(n as nat),
    decreases n,
{
    if n < 10 {
        push_char(s, digit(n));
    } else {
        push_decimal(s, n / 10);
        push_char(s, digit(n % 10));
        assert(old(s)@ + decimal(n as nat) =~= old(s)@ + decimal((n / 10) as nat) + seq![
            digit_char((n % 10) as nat),
        ]);
    }
}

/// A text with every line feed turned into a carriage return and a line feed.
pub open spec fn with_crlf(s: Seq<char>) -> Seq<char>
    decreases s.len(),
{
    if s.len() == 0 {
        Seq::empty()
    } else if s.last() == '\n' {
        with_crlf(s.drop_last()) + seq!['\r', '\n']
    } else {
        with_crlf(s.drop_last()).push(s.last())
    }
}

/// `text.replace("\n", "\r\n")`.
pub fn crlf_line_breaks(text: &str) -> (r: String)
    ensures
        r@ == with_crlf(text@),
{
    let n = text.unicode_len();
    let mut r = String::new();
    let mut i: usize = 0;
    while i < n
        invariant
            n == text@.len(),
            i <= n,
            r@ == with_crlf(text@.take(i as int)),
        decreases n - i,
    {
        let c = text.get_char(i);
        proof {
            assert(text@.take(i + 1).drop_last() =~= text@.take(i as int));
            assert(text@.take(i + 1).last() == c);
        }
        if c == '\n' {
            push_char(&mut r, '\r');
            push_char(&mut r, '\n');
        } else {
            push_char(&mut r, c);
        }
        i = i + 1;
    }
    assert(text@.take(n as int) =~= text@);
    r
}

/// A text with every occurrence of one character removed.
pub open spec fn without_char(s: Seq<char>, c: char) -> Seq<char>
    decreases s.len(),
{
    if s.len() == 0 {
        Seq::empty()
    } else if s.last() == c {
        without_char(s.drop_last(), c)
    } else {
        without_char(s.drop_last(), c).push(s.last())
    }
}

/// `text.replace(c, "")`.
pub fn remove_char(text: &str, c: char) -> (r: String)
    ensures
        r@ == without_char(text@, c),
{
    let n = text.unicode_len();
    let mut r = String::new();
    let mut i: usize = 0;
    while i < n
        invariant
            n == text@.len(),
            i <= n,
            r@ == without_char(text@.take(i as int), c),
        decreases n - i,
    {
        let d = text.get_char(i);
        proof {
            assert(text@.take(i + 1).drop_last() =~= text@.take(i as int));
            assert(text@.take(i + 1).last() == d);
        }
        if d != c {
            push_char(&mut r, d);
        }
        i = i + 1;
    }
    assert(text@.take(n as int) =~= text@);
    r
}

/// Removing a character leaves none of it, keeps every other character in
/// order (the text is exactly the other characters), and leaves a text
/// without that character as it was.
pub proof fn lemma_without_char_removes_only_it(s: Seq<char>, c: char)
    ensures
        !without_char(s, c).contains(c),
        without_char(s, c) == s.filter(|x: char| x != c),
        !s.contains(c) ==> without_char(s, c) == s,
    decreases s.len(),
{
    reveal_with_fuel(Seq::<_>::filter, 1);
    if s.len() > 0 {
        let t = s.drop_last();
        lemma_without_char_removes_only_it(t, c);
        let w = without_char(t, c);
        if s.last() != c {
            assert forall|i: int| 0 <= i < w.push(s.last()).len() implies w.push(s.last())[i] != c by {
                if i < w.len() {
                    assert(!w.contains(c));
                    assert(w.push(s.last())[i] == w[i]);
                }
            }
        }
        if !s.contains(c) {
            assert(!t.contains(c)) by {
                assert forall|i: int| 0 <= i < t.len() implies t[i] != c by {
                    assert(t[i] == s[i]);
                }
            }
            assert(s.last() != c) by {
                assert(s[s.len() - 1] == s.last());
            }
            assert(t.push(s.last()) =~= s);
        }
    }
}

/// Removing a character a second time changes nothing.
pub proof fn lemma_without_char_idempotent(s: Seq<char>, c: char)
    ensures
        without_char(without_char(s, c), c) == without_char(s, c),
    decreases s.len(),
{
    if s.len() > 0 {
        lemma_without_char_idempotent(s.drop_last(), c);
        let w = without_char(s.drop_last(), c);
        if s.last() != c {
            let x = w.push(s.last());
            assert(x.drop_last() =~= w);
        }
    }
}

/// The pieces of a text between its spaces (`text.split(" ")`), empty ones
/// included.
pub open spec fn split_spaces(s: Seq<char>) -> Seq<Seq<char>>
    decreases s.len(),
{
    if s.len() == 0 {
        seq![Seq::empty()]
    } else {
        let init = split_spaces(s.drop_last());
        if s.last() == ' ' {
            init.push(Seq::empty())
        } else {
            init.update(init.len() - 1, init.last().push(s.last()))
        }
    }
}

proof fn lemma_split_nonempty(s: Seq<char>)
    ensures
        split_spaces(s).len() >= 1,
    decreases s.len(),
{
    if s.len() > 0 {
        lemma_split_nonempty(s.drop_last());
    }
}

/// Words put back together with a space between each two.
pub open spec fn join_spaces(ws: Seq<Seq<char>>) -> Seq<char>
    decreases ws.len(),
{
    if ws.len() == 0 {
        Seq::empty()
    } else if ws.len() == 1 {
        ws[0]
    } else {
        join_spaces(ws.drop_last()) + seq![' '] + ws.last()
    }
}

/// Splitting a text at its spaces loses nothing and splits at every space:
/// no word holds a space, and the words joined by spaces give the text back.
pub proof fn lemma_split_spaces_round_trip(s: Seq<char>)
    ensures
        forall|i: int, j: int|
            0 <= i < split_spaces(s).len() && 0 <= j < split_spaces(s)[i].len() ==> split_spaces(
                s,
            )[i][j] != ' ',
        join_spaces(split_spaces(s)) == s,
    decreases s.len(),
{
    if s.len() > 0 {
        let t = s.drop_last();
        let c = s.last();
        lemma_split_spaces_round_trip(t);
        lemma_split_nonempty(t);
        let init = split_spaces(t);
        if c == ' ' {
            assert(split_spaces(s) == init.push(Seq::<char>::empty()));
            assert(split_spaces(s).drop_last() =~= init);
            assert(join_spaces(split_spaces(s)) =~= t + seq![' '] + Seq::<char>::empty());
            assert(t + seq![' '] + Seq::<char>::empty() =~= s);
        } else {
            let last = init.last().push(c);
            let next = init.update(init.len() - 1, last);
            assert(split_spaces(s) == next);
            assert forall|i: int, j: int|
                0 <= i < next.len() && 0 <= j < next[i].len() implies next[i][j] != ' ' by {
                if i == next.len() - 1 {
                    if j < init.last().len() {
                        assert(next[i][j] == init[i][j]);
                    }
                } else {
                    assert(next[i] == init[i]);
                }
            }
            if init.len() == 1 {
                assert(join_spaces(init) == init[0]);
                assert(join_spaces(next) == next[0]);
                assert(next[0] =~= t.push(c));
            } else {
                assert(next.drop_last() =~= init.drop_last());
                assert(join_spaces(next) == join_spaces(init.drop_last()) + seq![' '] + last);
                assert(join_spaces(init) == join_spaces(init.drop_last()) + seq![' '] + init.last());
                assert(join_spaces(init.drop_last()) + seq![' '] + last =~= (join_spaces(
                    init.drop_last(),
                ) + seq![' '] + init.last()).push(c));
            }
            assert(t.push(c) =~= s);
        }
    }
}

/// The words of a text split at each space, as `str::split(" ")` yields them.
pub fn split_at_spaces(text: &str) -> (words: Vec<String>)
    ensures
        words@.map_values(|w: String| w@) == split_spaces(text@),
{
    let n = text.unicode_len();
    let mut done: Vec<String> = Vec::new();
    let mut current = String::new();
    let mut i: usize = 0;
    while i < n
        invariant
            n == text@.len(),
            i <= n,
            done@.map_values(|w: String| w@).push(current@) == split_spaces(text@.take(i as int)),
        decreases n - i,
    {
        let c = text.get_char(i);
        proof {
            assert(text@.take(i + 1).drop_last() =~= text@.take(i as int));
            assert(text@.take(i + 1).last() == c);
            lemma_split_nonempty(text@.take(i as int));
        }
        let ghost before = done@.map_values(|w: String| w@);
        let ghost cur = current@;
        if c == ' ' {
            let finished = current;
            current = String::new();
            done.push(finished);
            proof {
                assert(done@.map_values(|w: String| w@) =~= before.push(cur));
            }
        } else {
            push_char(&mut current, c);
            proof {
                assert(done@.map_values(|w: String| w@) =~= before);
                assert(before.push(cur).update(before.len() as int, cur.push(c)) =~= before.push(
                    cur.push(c),
                ));
            }
        }
        i = i + 1;
    }
    assert(text@.take(n as int) =~= text@);
    let ghost before = done@.map_values(|w: String| w@);
    done.push(current);
    assert(done@.map_values(|w: String| w@) =~= before.push(current@));
    done
}

} // verus!
