use vstd::prelude::*;

verus! {

broadcast use vstd::string::group_string_axioms;

/// The characters of `s`, in order.
pub fn chars_of(s: &str) -> (v: Vec<char>)
    ensures
        v@ == s@,
{
    let mut v: Vec<char> = Vec::new();
    for c in it: s.chars()
        invariant
            v@ == it.seq().take(it.index() as int),
            it.seq() == s@,
    {
        v.push(c);
    }
    v
}

/// `String::push` of std: appends one character.
#[verifier::external_body]
fn string_push(s: &mut String, c: char)
    ensures
        final(s)@ == old(s)@.push(c),
{
    s.push(c);
}

/// The string of the characters in `v`.
pub fn string_from_chars(v: &[char]) -> (s: String)
    ensures
        s@ == v@,
{
    let mut s = String::new();
    let mut i: usize = 0;
    while i < v.len()
        invariant
            i <= v@.len(),
            s@ == v@.take(i as int),
        decreases v@.len() - i,
    {
        string_push(&mut s, v[i]);
        proof {
            assert(v@.take(i + 1) =~= v@.take(i as int).push(v@[i as int]));
        }
        i = i + 1;
    }
    proof {
        assert(v@.take(v@.len() as int) =~= v@);
    }
    s
}

/// The string of the characters `v[from..to]`.
pub fn string_from_range(v: &Vec<char>, from: usize, to: usize) -> (s: String)
    requires
        from <= to <= v@.len(),
    ensures
        s@ == v@.subrange(from as int, to as int),
{
    let mut s = String::new();
    let mut i: usize = from;
    while i < to
        invariant
            from <= i <= to <= v@.len(),
            s@ == v@.subrange(from as int, i as int),
        decreases to - i,
    {
        string_push(&mut s, v[i]);
        proof {
            assert(v@.subrange(from as int, i + 1) =~= v@.subrange(from as int, i as int).push(v@[i as int]));
        }
        i = i + 1;
    }
    s
}

/// Whether `p` occurs in `v` at position `at`.
pub fn matches_at(v: &Vec<char>, at: usize, p: &Vec<char>) -> (r: bool)
    requires
        at <= v@.len(),
    ensures
        r == (p@.len() <= v@.len() - at && v@.subrange(at as int, at + p@.len()) == p@),
{
    let vlen = v.len();
    if p.len() > vlen - at {
        return false;
    }
    let mut j: usize = 0;
    while j < p.len()
        invariant
            vlen == v@.len(),
            at + p@.len() <= v@.len(),
            j <= p@.len(),
            forall|m: int| 0 <= m < j ==> v@[at + m] == p@[m],
        decreases p@.len() - j,
    {
        if v[at + j] != p[j] {
            proof {
                assert(v@.subrange(at as int, at + p@.len())[j as int] != p@[j as int]);
            }
            return false;
        }
        j = j + 1;
    }
    proof {
        assert(v@.subrange(at as int, at + p@.len()) =~= p@);
    }
    true
}

/// A copy of `s`.
pub fn string_of(s: &str) -> (r: String)
    ensures
        r@ == s@,
{
    s.to_owned()
}

/// Whether two strings hold the same characters.
pub fn str_eq(a: &str, b: &str) -> (r: bool)
    ensures
        r == (a@ == b@),
{
    let va = chars_of(a);
    let vb = chars_of(b);
    if va.len() != vb.len() {
        return false;
    }
    let mut i: usize = 0;
    while i < va.len()
        invariant
            va@ == a@,
            vb@ == b@,
            va@.len() == vb@.len(),
            i <= va@.len(),
            forall|j: int| 0 <= j < i ==> va@[j] == vb@[j],
        decreases va@.len() - i,
    {
        if va[i] != vb[i] {
            return false;
        }
        i = i + 1;
    }
    proof {
        assert(a@ =~= b@);
    }
    true
}


// ---------------------------------------------------------------------------
// ASCII case
// ---------------------------------------------------------------------------
/// The code of `c` after ASCII upper-case letters are mapped to lower case.
pub open spec fn ascii_lower(c: char) -> u32 {
    if 'A' <= c && c <= 'Z' {
        (c as u32 + 32) as u32
    } else {
        c as u32
    }
}

/// Whether `a` and `b` are equal when ASCII letters are compared without case.
pub open spec fn eq_ignore_ascii_case_spec(a: Seq<char>, b: Seq<char>) -> bool {
    a.len() == b.len() && forall|i: int| 0 <= i < a.len() ==> ascii_lower(#[trigger] a[i]) == ascii_lower(
        b[i],
    )
}

fn lower_char(c: char) -> (r: u32)
    ensures
        r == ascii_lower(c),
{
    if 'A' <= c && c <= 'Z' {
        (c as u32) + 32
    } else {
        c as u32
    }
}

/// Compares two strings, ASCII letters without case.
pub fn eq_ignore_ascii_case(a: &str, b: &str) -> (r: bool)
    ensures
        r == eq_ignore_ascii_case_spec(a@, b@),
{
    let va = chars_of(a);
    let vb = chars_of(b);
    if va.len() != vb.len() {
        return false;
    }
    let mut i: usize = 0;
    while i < va.len()
        invariant
            va@ == a@,
            vb@ == b@,
            va@.len() == vb@.len(),
            i <= va@.len(),
            forall|j: int| 0 <= j < i ==> ascii_lower(#[trigger] va@[j]) == ascii_lower(vb@[j]),
        decreases va@.len() - i,
    {
        if lower_char(va[i]) != lower_char(vb[i]) {
            return false;
        }
        i = i + 1;
    }
    true
}

// ---------------------------------------------------------------------------
// Prefixes and suffixes
// ---------------------------------------------------------------------------
pub open spec fn has_prefix(s: Seq<char>, p: Seq<char>) -> bool {
    p.len() <= s.len() && s.take(p.len() as int) == p
}

pub open spec fn has_suffix(s: Seq<char>, p: Seq<char>) -> bool {
    p.len() <= s.len() && s.skip(s.len() - p.len()) == p
}

/// Whether `s` starts with `p`.
pub fn starts_with(s: &str, p: &str) -> (r: bool)
    ensures
        r == has_prefix(s@, p@),
{
    let vs = chars_of(s);
    let vp = chars_of(p);
    if vp.len() > vs.len() {
        return false;
    }
    let mut i: usize = 0;
    while i < vp.len()
        invariant
            vs@ == s@,
            vp@ == p@,
            vp@.len() <= vs@.len(),
            i <= vp@.len(),
            forall|j: int| 0 <= j < i ==> vs@[j] == vp@[j],
        decreases vp@.len() - i,
    {
        if vs[i] != vp[i] {
            proof {
                assert(s@.take(p@.len() as int)[i as int] != p@[i as int]);
            }
            return false;
        }
        i = i + 1;
    }
    proof {
        assert(s@.take(p@.len() as int) =~= p@);
    }
    true
}

/// Whether `s` ends with `p`.
pub fn ends_with(s: &str, p: &str) -> (r: bool)
    ensures
        r == has_suffix(s@, p@),
{
    let vs = chars_of(s);
    let vp = chars_of(p);
    if vp.len() > vs.len() {
        return false;
    }
    let off = vs.len() - vp.len();
    let mut i: usize = 0;
    while i < vp.len()
        invariant
            vs@ == s@,
            vp@ == p@,
            vp@.len() <= vs@.len(),
            off == vs@.len() - vp@.len(),
            vs@.len() == vs.len(),
            i <= vp@.len(),
            forall|j: int| 0 <= j < i ==> vs@[off + j] == vp@[j],
        decreases vp@.len() - i,
    {
        if vs[off + i] != vp[i] {
            proof {
                assert(s@.skip(off as int)[i as int] != p@[i as int]);
            }
            return false;
        }
        i = i + 1;
    }
    proof {
        assert(s@.skip(off as int) =~= p@);
    }
    true
}

// ---------------------------------------------------------------------------
// Splitting and joining
// ---------------------------------------------------------------------------
/// The pieces of `s` between the occurrences of `sep` (as `str::split` with a char gives
/// them): one more piece than there are separators.
pub open spec fn split_spec(s: Seq<char>, sep: char) -> Seq<Seq<char>>
    decreases s.len(),
{
    if s.len() == 0 {
        seq![Seq::empty()]
    } else {
        let rest = split_spec(s.drop_last(), sep);
        if s.last() == sep {
            rest.push(Seq::empty())
        } else {
            rest.update(rest.len() - 1, rest.last().push(s.last()))
        }
    }
}

pub proof fn lemma_split_nonempty(s: Seq<char>, sep: char)
    ensures
        split_spec(s, sep).len() >= 1,
    decreases s.len(),
{
    if s.len() > 0 {
        lemma_split_nonempty(s.drop_last(), sep);
    }
}

/// The pieces of `s` between the occurrences of `sep`.
pub fn split_on(s: &str, sep: char) -> (r: Vec<String>)
    ensures
        r@.len() == split_spec(s@, sep).len(),
        forall|i: int| 0 <= i < r@.len() ==> #[trigger] r@[i]@ == split_spec(s@, sep)[i],
{
    let v = chars_of(s);
    let mut pieces: Vec<String> = Vec::new();
    let mut cur: Vec<char> = Vec::new();
    let mut i: usize = 0;
    proof {
        assert(v@.take(0) =~= Seq::<char>::empty());
    }
    while i < v.len()
        invariant
            v@ == s@,
            i <= v@.len(),
            pieces@.len() + 1 == split_spec(v@.take(i as int), sep).len(),
            forall|j: int| 0 <= j < pieces@.len() ==> #[trigger] pieces@[j]@ == split_spec(
                v@.take(i as int),
                sep,
            )[j],
            cur@ == split_spec(v@.take(i as int), sep).last(),
        decreases v@.len() - i,
    {
        let c = v[i];
        proof {
            assert(v@.take(i + 1).drop_last() =~= v@.take(i as int));
            assert(v@.take(i + 1).last() == c);
            lemma_split_nonempty(v@.take(i as int), sep);
        }
        if c == sep {
            let piece = string_from_chars(cur.as_slice());
            pieces.push(piece);
            cur = Vec::new();
        } else {
            cur.push(c);
        }
        i = i + 1;
    }
    let last = string_from_chars(cur.as_slice());
    pieces.push(last);
    proof {
        assert(v@.take(v@.len() as int) =~= v@);
    }
    pieces
}

/// The pieces joined, with `sep` between each two.
pub open spec fn join_spec(parts: Seq<Seq<char>>, sep: Seq<char>) -> Seq<char>
    decreases parts.len(),
{
    if parts.len() == 0 {
        Seq::empty()
    } else if parts.len() == 1 {
        parts[0]
    } else {
        join_spec(parts.drop_last(), sep) + sep + parts.last()
    }
}

/// No piece of a split holds the separator.
pub proof fn lemma_split_pieces_lack_sep(s: Seq<char>, sep: char)
    ensures
        forall|i: int| 0 <= i < split_spec(s, sep).len() ==> !(#[trigger] split_spec(s, sep)[i]).contains(sep),
    decreases s.len(),
{
    if s.len() > 0 {
        let rest = split_spec(s.drop_last(), sep);
        lemma_split_pieces_lack_sep(s.drop_last(), sep);
        lemma_split_nonempty(s.drop_last(), sep);
        if s.last() != sep {
            let grown = rest.last().push(s.last());
            assert forall|c: int| 0 <= c < grown.len() implies grown[c] != sep by {
                if c < rest.last().len() {
                    assert(grown[c] == rest.last()[c]);
                    assert(rest[rest.len() - 1] == rest.last());
                }
            }
            assert(!grown.contains(sep));
        } else {
            assert(!Seq::<char>::empty().contains(sep));
        }
    }
}

/// Appending text without the separator grows the last piece of a split.
pub proof fn lemma_split_append(x: Seq<char>, y: Seq<char>, sep: char)
    requires
        !y.contains(sep),
    ensures
        split_spec(x + y, sep) == split_spec(x, sep).update(
            split_spec(x, sep).len() - 1,
            split_spec(x, sep).last() + y,
        ),
    decreases y.len(),
{
    lemma_split_nonempty(x, sep);
    let sx = split_spec(x, sep);
    if y.len() == 0 {
        assert(x + y =~= x);
        assert(sx.last() + y =~= sx.last());
        assert(sx.update(sx.len() - 1, sx.last()) =~= sx);
    } else {
        let y0 = y.drop_last();
        let c = y.last();
        assert(!y0.contains(sep)) by {
            if y0.contains(sep) {
                let i = choose|i: int| 0 <= i < y0.len() && y0[i] == sep;
                assert(y[i] == sep);
            }
        }
        assert(c != sep) by {
            assert(y[y.len() - 1] == c);
        }
        lemma_split_append(x, y0, sep);
        assert((x + y).drop_last() =~= x + y0);
        assert((x + y).last() == c);
        let r = split_spec(x + y0, sep);
        assert(r.last() == sx.last() + y0);
        assert(r.last().push(c) =~= sx.last() + y);
        assert(r.update(r.len() - 1, r.last().push(c)) =~= sx.update(sx.len() - 1, sx.last() + y));
    }
}

/// Splitting pieces joined by a separator they do not hold gives the pieces back.
pub proof fn lemma_split_join(parts: Seq<Seq<char>>, sep: char)
    requires
        parts.len() > 0,
        forall|i: int| 0 <= i < parts.len() ==> !(#[trigger] parts[i]).contains(sep),
    ensures
        split_spec(join_spec(parts, seq![sep]), sep) == parts,
    decreases parts.len(),
{
    if parts.len() == 1 {
        lemma_split_append(Seq::empty(), parts[0], sep);
        assert(Seq::<char>::empty() + parts[0] =~= parts[0]);
        assert(split_spec(Seq::<char>::empty(), sep) =~= seq![Seq::<char>::empty()]);
        assert(seq![Seq::<char>::empty()].update(0, Seq::<char>::empty() + parts[0]) =~= parts);
    } else {
        let init = parts.drop_last();
        assert forall|i: int| 0 <= i < init.len() implies !(#[trigger] init[i]).contains(sep) by {
            assert(init[i] == parts[i]);
        }
        lemma_split_join(init, sep);
        let head = join_spec(init, seq![sep]);
        let with_sep = head + seq![sep];
        assert(with_sep.drop_last() =~= head);
        assert(with_sep.last() == sep);
        assert(split_spec(with_sep, sep) == init.push(Seq::empty()));
        assert(!parts.last().contains(sep)) by {
            assert(parts[parts.len() - 1] == parts.last());
        }
        lemma_split_append(with_sep, parts.last(), sep);
        assert(join_spec(parts, seq![sep]) == with_sep + parts.last());
        assert(Seq::<char>::empty() + parts.last() =~= parts.last());
        assert(init.push(Seq::empty()).update(init.len() as int, Seq::<char>::empty() + parts.last())
            =~= parts);
    }
}

/// Joins `parts` with `sep` between each two.
pub fn join_with(parts: &Vec<String>, sep: &str) -> (r: String)
    ensures
        r@ == join_spec(parts@.map_values(|p: String| p@), sep@),
{
    let ghost views = parts@.map_values(|p: String| p@);
    let mut out = String::new();
    let mut i: usize = 0;
    proof {
        assert(views.take(0) =~= Seq::<Seq<char>>::empty());
    }
    while i < parts.len()
        invariant
            i <= parts@.len(),
            views == parts@.map_values(|p: String| p@),
            out@ == join_spec(views.take(i as int), sep@),
        decreases parts@.len() - i,
    {
        proof {
            assert(views.take(i + 1).drop_last() =~= views.take(i as int));
            assert(views.take(i + 1).last() == parts@[i as int]@);
        }
        if i > 0 {
            out.append(sep);
        } else {
            proof {
                assert(views.take(1) =~= seq![parts@[0]@]);
            }
        }
        out.append(parts[i].as_str());
        i = i + 1;
    }
    proof {
        assert(views.take(parts@.len() as int) =~= views);
    }
    out
}

// ---------------------------------------------------------------------------
// Decimal numbers
// ---------------------------------------------------------------------------
/// The decimal digit of `d` (0 to 9).
pub open spec fn digit_char(d: int) -> char {
    if d == 0 {
        '0'
    } else if d == 1 {
        '1'
    } else if d == 2 {
        '2'
    } else if d == 3 {
        '3'
    } else if d == 4 {
        '4'
    } else if d == 5 {
        '5'
    } else if d == 6 {
        '6'
    } else if d == 7 {
        '7'
    } else if d == 8 {
        '8'
    } else {
        '9'
    }
}

/// `n` written in decimal, without leading zeros.
pub open spec fn decimal(n: nat) -> Seq<char>
    decreases n,
{
    if n < 10 {
        seq![digit_char(n as int)]
    } else {
        decimal(n / 10).push(digit_char((n % 10) as int))
    }
}

fn digit(d: u64) -> (c: char)
    requires
        d < 10,
    ensures
        c == digit_char(d as int),
{
    if d == 0 {
        '0'
    } else if d == 1 {
        '1'
    } else if d == 2 {
        '2'
    } else if d == 3 {
        '3'
    } else if d == 4 {
        '4'
    } else if d == 5 {
        '5'
    } else if d == 6 {
        '6'
    } else if d == 7 {
        '7'
    } else if d == 8 {
        '8'
    } else {
        '9'
    }
}

/// `n` written in decimal (as `n.to_string()`).
pub fn decimal_string(n: u64) -> (r: String)
    ensures
        r@ == decimal(n as nat),
    decreases n,
{
    if n < 10 {
        let mut r = String::new();
        string_push(&mut r, digit(n));
        proof {
            assert(r@ =~= seq![digit_char(n as int)]);
        }
        r
    } else {
        let mut r = decimal_string(n / 10);
        string_push(&mut r, digit(n % 10));
        r
    }
}

// ---------------------------------------------------------------------------
// Calls into std that the library names
// ---------------------------------------------------------------------------
/// Whether `c` has Unicode's White_Space property, the whitespace that `str::trim` of std
/// removes: U+0009 to U+000D, space, U+0085, U+00A0, U+1680, U+2000 to U+200A, U+2028,
/// U+2029, U+202F, U+205F and U+3000.
pub open spec fn is_white_space(c: char) -> bool {
    ('\u{9}' <= c && c <= '\u{d}') || c == ' ' || c == '\u{85}' || c == '\u{a0}' || c
        == '\u{1680}' || ('\u{2000}' <= c && c <= '\u{200a}') || c == '\u{2028}' || c == '\u{2029}'
        || c == '\u{202f}' || c == '\u{205f}' || c == '\u{3000}'
}

/// `s` without its leading whitespace.
pub open spec fn trimmed_start(s: Seq<char>) -> Seq<char>
    decreases s.len(),
{
    if s.len() > 0 && is_white_space(s[0]) {
        trimmed_start(s.drop_first())
    } else {
        s
    }
}

/// `s` without its trailing whitespace.
pub open spec fn trimmed_end(s: Seq<char>) -> Seq<char>
    decreases s.len(),
{
    if s.len() > 0 && is_white_space(s.last()) {
        trimmed_end(s.drop_last())
    } else {
        s
    }
}

/// `s` without its leading and trailing whitespace, as `str::trim` of std gives it.
pub open spec fn trimmed(s: Seq<char>) -> Seq<char> {
    trimmed_end(trimmed_start(s))
}

/// A string that starts and ends with a character that is not whitespace is its own
/// trimmed form.
pub proof fn lemma_trimmed_unchanged(s: Seq<char>)
    requires
        s.len() > 0,
        !is_white_space(s[0]),
        !is_white_space(s.last()),
    ensures
        trimmed(s) == s,
{
}

proof fn lemma_trimmed_start_shape(s: Seq<char>)
    ensures
        trimmed_start(s).len() == 0 || !is_white_space(trimmed_start(s)[0]),
        forall|c: char| !s.contains(c) ==> !(#[trigger] trimmed_start(s).contains(c)),
    decreases s.len(),
{
    if s.len() > 0 && is_white_space(s[0]) {
        lemma_trimmed_start_shape(s.drop_first());
        assert forall|c: char| !s.contains(c) implies !(#[trigger] trimmed_start(s).contains(c)) by {
            if s.drop_first().contains(c) {
                let i = choose|i: int| 0 <= i < s.drop_first().len() && s.drop_first()[i] == c;
                assert(s[i + 1] == c);
            }
        }
    }
}

proof fn lemma_trimmed_end_shape(s: Seq<char>)
    requires
        s.len() == 0 || !is_white_space(s[0]),
    ensures
        trimmed_end(s).len() == 0 || (!is_white_space(trimmed_end(s)[0]) && !is_white_space(
            trimmed_end(s).last(),
        )),
        forall|c: char| !s.contains(c) ==> !(#[trigger] trimmed_end(s).contains(c)),
    decreases s.len(),
{
    if s.len() > 0 && is_white_space(s.last()) {
        let t = s.drop_last();
        if t.len() > 0 {
            assert(t[0] == s[0]);
        }
        lemma_trimmed_end_shape(t);
        assert forall|c: char| !s.contains(c) implies !(#[trigger] trimmed_end(s).contains(c)) by {
            if t.contains(c) {
                let i = choose|i: int| 0 <= i < t.len() && t[i] == c;
                assert(s[i] == c);
            }
        }
    }
}

/// Trimming twice gives what trimming once gives; and trimming keeps out of a string any
/// character that was not in it.
pub proof fn lemma_trimmed_idempotent(s: Seq<char>)
    ensures
        trimmed(trimmed(s)) == trimmed(s),
        forall|c: char| !s.contains(c) ==> !(#[trigger] trimmed(s).contains(c)),
{
    lemma_trimmed_start_shape(s);
    lemma_trimmed_end_shape(trimmed_start(s));
    let t = trimmed(s);
    if t.len() > 0 {
        lemma_trimmed_unchanged(t);
    }
}

/// What `str::to_lowercase` of std gives for a string.
pub uninterp spec fn lowercased(s: Seq<char>) -> Seq<char>;

fn white_space(c: char) -> (r: bool)
    ensures
        r == is_white_space(c),
{
    ('\u{9}' <= c && c <= '\u{d}') || c == ' ' || c == '\u{85}' || c == '\u{a0}' || c
        == '\u{1680}' || ('\u{2000}' <= c && c <= '\u{200a}') || c == '\u{2028}' || c == '\u{2029}'
        || c == '\u{202f}' || c == '\u{205f}' || c == '\u{3000}'
}

proof fn lemma_trimmed_start_skip(s: Seq<char>, k: int)
    requires
        0 <= k <= s.len(),
        forall|i: int| 0 <= i < k ==> is_white_space(#[trigger] s[i]),
    ensures
        trimmed_start(s) == trimmed_start(s.skip(k)),
    decreases k,
{
    if k > 0 {
        assert(s.skip(1) =~= s.drop_first());
        lemma_trimmed_start_skip(s.drop_first(), k - 1);
        assert(s.drop_first().skip(k - 1) =~= s.skip(k));
    } else {
        assert(s.skip(0) =~= s);
    }
}

proof fn lemma_trimmed_end_take(s: Seq<char>, k: int)
    requires
        0 <= k <= s.len(),
        forall|i: int| k <= i < s.len() ==> is_white_space(#[trigger] s[i]),
    ensures
        trimmed_end(s) == trimmed_end(s.take(k)),
    decreases s.len() - k,
{
    if k < s.len() {
        lemma_trimmed_end_take(s.drop_last(), k);
        assert(s.drop_last().take(k) =~= s.take(k));
    } else {
        assert(s.take(k) =~= s);
    }
}

/// `str::trim` of std: the string without its leading and trailing whitespace.
pub fn trim(s: &str) -> (r: String)
    ensures
        r@ == trimmed(s@),
{
    let v = chars_of(s);
    let mut start: usize = 0;
    while start < v.len() && white_space(v[start])
        invariant
            start <= v@.len(),
            v@ == s@,
            forall|i: int| 0 <= i < start ==> is_white_space(#[trigger] v@[i]),
        decreases v@.len() - start,
    {
        start = start + 1;
    }
    let ghost rest = v@.skip(start as int);
    proof {
        lemma_trimmed_start_skip(v@, start as int);
        if rest.len() > 0 {
            assert(rest[0] == v@[start as int]);
        }
        assert(trimmed_start(rest) == rest);
    }
    let mut end: usize = v.len();
    while end > start && white_space(v[end - 1])
        invariant
            start <= end <= v@.len(),
            rest == v@.skip(start as int),
            forall|i: int| end - start <= i < rest.len() ==> is_white_space(#[trigger] rest[i]),
        decreases end - start,
    {
        assert(rest[end - 1 - start] == v@[end - 1]);
        end = end - 1;
    }
    proof {
        lemma_trimmed_end_take(rest, end - start);
        let kept = rest.take(end - start);
        if kept.len() > 0 {
            assert(kept.last() == v@[end - 1]);
        }
        assert(trimmed_end(kept) == kept);
        assert(kept =~= v@.subrange(start as int, end as int));
    }
    string_from_range(&v, start, end)
}

/// `c` with an ASCII upper-case letter mapped to lower case.
pub open spec fn ascii_lower_char(c: char) -> char {
    if 'A' <= c && c <= 'Z' {
        ((c as u32) + 32) as char
    } else {
        c
    }
}

/// Whether every character of `s` is ASCII.
pub open spec fn is_ascii_text(s: Seq<char>) -> bool {
    forall|i: int| 0 <= i < s.len() ==> (#[trigger] s[i] as u32) < 128
}

/// `s` with its ASCII upper-case letters mapped to lower case.
pub open spec fn ascii_lowercased(s: Seq<char>) -> Seq<char> {
    s.map_values(|c: char| ascii_lower_char(c))
}

/// Whether `r` is what lower-casing gives for `s` where `s` is ASCII text: `s` with its
/// upper-case letters mapped to lower case.
pub open spec fn lowers_ascii(s: Seq<char>, r: Seq<char>) -> bool {
    is_ascii_text(s) ==> r == ascii_lowercased(s)
}

/// Lower-casing a string: on ASCII text the ASCII mapping, elsewhere what
/// `str::to_lowercase` of std gives (`lowercased`).
pub open spec fn lower_text(s: Seq<char>) -> Seq<char> {
    if is_ascii_text(s) {
        ascii_lowercased(s)
    } else {
        lowercased(s)
    }
}

/// Whether `s` holds no ASCII upper-case letter.
pub open spec fn has_no_ascii_upper(s: Seq<char>) -> bool {
    forall|i: int| 0 <= i < s.len() ==> !('A' <= #[trigger] s[i] && s[i] <= 'Z')
}

/// Lower-casing ASCII text gives ASCII text without upper-case letters.
pub proof fn lemma_lower_text_settles(s: Seq<char>)
    requires
        is_ascii_text(s),
    ensures
        is_ascii_text(lower_text(s)),
        has_no_ascii_upper(lower_text(s)),
{
    let r = lower_text(s);
    assert forall|i: int| 0 <= i < r.len() implies (#[trigger] r[i] as u32) < 128 && !('A' <= r[i]
        && r[i] <= 'Z') by {
        assert(r[i] == ascii_lower_char(s[i]));
        assert((s[i] as u32) < 128);
    }
}

/// Lower-casing ASCII text without upper-case letters changes nothing.
pub proof fn lemma_lower_text_unchanged(s: Seq<char>)
    requires
        is_ascii_text(s),
        has_no_ascii_upper(s),
    ensures
        lower_text(s) == s,
{
    assert(lower_text(s) =~= s) by {
        assert forall|i: int| 0 <= i < s.len() implies #[trigger] lower_text(s)[i] == s[i] by {
            assert(!('A' <= s[i] && s[i] <= 'Z'));
        }
    }
}

/// `str::to_lowercase` of std. Its result is named `lowercased`: the Unicode case mapping
/// is not written out here. What holds of ASCII text is stated: Unicode maps `A` to `Z` to
/// `a` to `z` and leaves every other ASCII character as it is, so the result is the input
/// with its ASCII upper-case letters lowered (std's `to_ascii_lowercase` is the ASCII-only
/// form of the same mapping).
#[verifier::external_body]
pub(crate) fn to_lowercase(s: &str) -> (r: String)
    ensures
        r@ == lowercased(s@),
        lowers_ascii(s@, r@),
{
    s.to_lowercase()
}

} // verus!
