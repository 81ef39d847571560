//! Text as sequences of characters: the string operations that the parsers and the
//! reports are written with, each with an exact contract over `Seq<char>`.

use vstd::prelude::*;
use vstd::string::*;

verus! {

/// `String::push`: appends one character to the end of the string.
pub assume_specification[ String::push ](s: &mut String, c: char)
    ensures
        final(s)@ == old(s)@.push(c),
;

/// The texts held by a list of strings.
pub open spec fn texts(v: Seq<String>) -> Seq<Seq<char>> {
    Seq::new(v.len(), |i: int| v[i]@)
}

/// The text held by an optional string.
pub open spec fn text_opt(o: Option<String>) -> Option<Seq<char>> {
    match o {
        Some(s) => Some(s@),
        None => None,
    }
}

/// The text that an optional slice holds.
pub open spec fn str_opt(o: Option<&str>) -> Option<Seq<char>> {
    match o {
        Some(s) => Some(s@),
        None => None,
    }
}

/// An optional text, or a stand-in.
pub open spec fn text_or(o: Option<Seq<char>>, other: Seq<char>) -> Seq<char> {
    match o {
        Some(s) => s,
        None => other,
    }
}

pub broadcast proof fn lemma_texts_push(v: Seq<String>, s: String)
    ensures
        #[trigger] texts(v.push(s)) == texts(v).push(s@),
{
    assert(texts(v.push(s)) =~= texts(v).push(s@));
}

pub broadcast proof fn lemma_texts_empty(v: Seq<String>)
    requires
        v.len() == 0,
    ensures
        #[trigger] texts(v) == Seq::<Seq<char>>::empty(),
{
    assert(texts(v) =~= Seq::<Seq<char>>::empty());
}

/// Unicode `White_Space`.
pub open spec fn is_space(c: char) -> bool {
    let n = c as u32;
    ||| 0x09 <= n <= 0x0d
    ||| n == 0x20
    ||| n == 0x85
    ||| n == 0xa0
    ||| n == 0x1680
    ||| 0x2000 <= n <= 0x200a
    ||| n == 0x2028
    ||| n == 0x2029
    ||| n == 0x202f
    ||| n == 0x205f
    ||| n == 0x3000
}

pub fn is_whitespace(c: char) -> (r: bool)
    ensures
        r == is_space(c),
{
    let n: u32 = c as u32;
    (0x09 <= n && n <= 0x0d) || n == 0x20 || n == 0x85 || n == 0xa0 || n == 0x1680
        || (0x2000 <= n && n <= 0x200a) || n == 0x2028 || n == 0x2029 || n == 0x202f || n == 0x205f
        || n == 0x3000
}

/// A set of characters to trim or split at.
#[derive(Clone, Copy)]
pub enum CharSet {
    Space,
    One(char),
    Two(char, char),
    Three(char, char, char),
}

impl CharSet {
    pub open spec fn contains(self, c: char) -> bool {
        match self {
            CharSet::Space => is_space(c),
            CharSet::One(a) => c == a,
            CharSet::Two(a, b) => c == a || c == b,
            CharSet::Three(a, b, d) => c == a || c == b || c == d,
        }
    }

    pub fn has(self, c: char) -> (r: bool)
        ensures
            r == self.contains(c),
    {
        match self {
            CharSet::Space => is_whitespace(c),
            CharSet::One(a) => c == a,
            CharSet::Two(a, b) => c == a || c == b,
            CharSet::Three(a, b, d) => c == a || c == b || c == d,
        }
    }
}

/// The characters of a string.
pub fn chars_of(s: &str) -> (r: Vec<char>)
    ensures
        r@ == s@,
{
    let mut out: Vec<char> = Vec::new();
    for c in it: s.chars()
        invariant
            it.seq() == s@,
            out@ == s@.take(it.index() as int),
    {
        out.push(c);
    }
    out
}

/// The text of `chars[from..to]`.
pub fn text_between(chars: &Vec<char>, from: usize, to: usize) -> (r: String)
    requires
        from <= to <= chars@.len(),
    ensures
        r@ == chars@.subrange(from as int, to as int),
{
    let mut out = String::new();
    let mut i: usize = from;
    while i < to
        invariant
            from <= i <= to <= chars@.len(),
            out@ == chars@.subrange(from as int, i as int),
        decreases to - i,
    {
        out.push(chars[i]);
        i += 1;
    }
    out
}

pub fn is_blank(s: &str) -> (r: bool)
    ensures
        r == (s@.len() == 0),
{
    s.is_empty()
}

/// Equality of two texts.
pub fn same(a: &str, b: &str) -> (r: bool)
    ensures
        r == (a@ == b@),
{
    a.to_owned() == b.to_owned()
}

/// `a` without its leading characters from `set`.
pub open spec fn trim_start_of(s: Seq<char>, set: CharSet) -> Seq<char>
    decreases s.len(),
{
    if s.len() > 0 && set.contains(s[0]) {
        trim_start_of(s.drop_first(), set)
    } else {
        s
    }
}

/// `a` without its trailing characters from `set`.
pub open spec fn trim_end_of(s: Seq<char>, set: CharSet) -> Seq<char>
    decreases s.len(),
{
    if s.len() > 0 && set.contains(s.last()) {
        trim_end_of(s.drop_last(), set)
    } else {
        s
    }
}

pub open spec fn trim_set(s: Seq<char>, set: CharSet) -> Seq<char> {
    trim_end_of(trim_start_of(s, set), set)
}

/// Text without surrounding white space.
pub open spec fn trimmed(s: Seq<char>) -> Seq<char> {
    trim_set(s, CharSet::Space)
}

/// The position just past the leading characters from `set`.
fn start_past(chars: &Vec<char>, set: CharSet) -> (a: usize)
    ensures
        a <= chars@.len(),
        chars@.skip(a as int) == trim_start_of(chars@, set),
{
    let mut a: usize = 0;
    assert(chars@.skip(0) =~= chars@);
    while a < chars.len() && set.has(chars[a])
        invariant
            a <= chars@.len(),
            trim_start_of(chars@, set) == trim_start_of(chars@.skip(a as int), set),
        decreases chars@.len() - a,
    {
        assert(chars@.skip(a as int).drop_first() =~= chars@.skip(a + 1));
        a += 1;
    }
    a
}

/// The end of `chars[a..]` before its trailing characters from `set`.
fn end_before(chars: &Vec<char>, a: usize, set: CharSet) -> (b: usize)
    requires
        a <= chars@.len(),
    ensures
        a <= b <= chars@.len(),
        chars@.subrange(a as int, b as int) == trim_end_of(chars@.skip(a as int), set),
{
    let mut b: usize = chars.len();
    assert(chars@.subrange(a as int, b as int) =~= chars@.skip(a as int));
    while b > a && set.has(chars[b - 1])
        invariant
            a <= b <= chars@.len(),
            trim_end_of(chars@.skip(a as int), set) == trim_end_of(
                chars@.subrange(a as int, b as int),
                set,
            ),
        decreases b,
    {
        assert(chars@.subrange(a as int, b as int).drop_last() =~= chars@.subrange(
            a as int,
            b - 1,
        ));
        b -= 1;
    }
    b
}

pub fn trim_start_matches(s: &str, set: CharSet) -> (r: String)
    ensures
        r@ == trim_start_of(s@, set),
{
    let chars = chars_of(s);
    let a = start_past(&chars, set);
    assert(chars@.subrange(a as int, chars@.len() as int) =~= chars@.skip(a as int));
    text_between(&chars, a, chars.len())
}

pub fn trim_end_matches(s: &str, set: CharSet) -> (r: String)
    ensures
        r@ == trim_end_of(s@, set),
{
    let chars = chars_of(s);
    let b = end_before(&chars, 0, set);
    assert(chars@.skip(0) =~= chars@);
    text_between(&chars, 0, b)
}

pub fn trim_matches(s: &str, set: CharSet) -> (r: String)
    ensures
        r@ == trim_set(s@, set),
{
    let chars = chars_of(s);
    let a = start_past(&chars, set);
    let b = end_before(&chars, a, set);
    text_between(&chars, a, b)
}

pub fn trim(s: &str) -> (r: String)
    ensures
        r@ == trimmed(s@),
{
    trim_matches(s, CharSet::Space)
}

/// Text that neither starts nor ends with white space is its own trimmed form.
pub proof fn lemma_trimmed_id(s: Seq<char>)
    requires
        s.len() > 0 ==> !is_space(s[0]) && !is_space(s.last()),
    ensures
        trimmed(s) == s,
{
}

proof fn lemma_trim_start_last(s: Seq<char>, set: CharSet)
    requires
        s.len() > 0,
        set.contains(s.last()),
    ensures
        ({
            let whole = trim_start_of(s, set);
            let less = trim_start_of(s.drop_last(), set);
            ||| whole.len() == 0 && less.len() == 0
            ||| whole.len() > 0 && whole.last() == s.last() && whole.drop_last() == less
        }),
    decreases s.len(),
{
    if set.contains(s[0]) && s.len() > 1 {
        lemma_trim_start_last(s.drop_first(), set);
        assert(s.drop_first().drop_last() =~= s.drop_last().drop_first());
        assert(s.drop_last()[0] == s[0]);
    } else if s.len() > 1 {
        assert(s.drop_last()[0] == s[0]);
    } else {
        assert(s[0] == s.last());
        assert(trim_start_of(s.drop_first(), set).len() == 0);
    }
}

/// White space at the end does not count.
pub proof fn lemma_trimmed_last(s: Seq<char>)
    requires
        s.len() > 0,
        is_space(s.last()),
    ensures
        trimmed(s) == trimmed(s.drop_last()),
{
    lemma_trim_start_last(s, CharSet::Space);
    let whole = trim_start_of(s, CharSet::Space);
    if whole.len() == 0 {
        assert(whole =~= trim_start_of(s.drop_last(), CharSet::Space));
    }
}

/// Whether `p` occurs in `s` at position `i`.
pub open spec fn occurs_at(s: Seq<char>, p: Seq<char>, i: int) -> bool {
    &&& 0 <= i
    &&& i + p.len() <= s.len()
    &&& s.subrange(i, i + p.len()) == p
}

/// The first position at or after `i` where `p` occurs in `s`.
pub open spec fn find_from(s: Seq<char>, p: Seq<char>, i: int) -> Option<int>
    decreases s.len() + 1 - i,
{
    if i < 0 || i + p.len() > s.len() {
        None
    } else if occurs_at(s, p, i) {
        Some(i)
    } else {
        find_from(s, p, i + 1)
    }
}

pub open spec fn find_in(s: Seq<char>, p: Seq<char>) -> Option<int> {
    find_from(s, p, 0)
}

pub open spec fn contains_text(s: Seq<char>, p: Seq<char>) -> bool {
    find_in(s, p) is Some
}

pub open spec fn has_prefix(s: Seq<char>, p: Seq<char>) -> bool {
    occurs_at(s, p, 0)
}

/// `find_from` names the least position at or after `i` where the pattern occurs.
pub proof fn lemma_find_from(s: Seq<char>, p: Seq<char>, i: int)
    requires
        0 <= i,
    ensures
        find_from(s, p, i) matches Some(j) ==> i <= j && occurs_at(s, p, j) && (forall|k: int|
            i <= k < j ==> !occurs_at(s, p, k)),
        find_from(s, p, i) is None ==> forall|k: int| i <= k ==> !occurs_at(s, p, k),
    decreases s.len() + 1 - i,
{
    if i + p.len() <= s.len() && !occurs_at(s, p, i) {
        lemma_find_from(s, p, i + 1);
    }
}

/// The first occurrence of a text.
pub proof fn lemma_found_at(s: Seq<char>, p: Seq<char>, i: int)
    requires
        occurs_at(s, p, i),
        forall|k: int| 0 <= k < i ==> !occurs_at(s, p, k),
    ensures
        find_in(s, p) == Some(i),
{
    lemma_find_from(s, p, 0);
}

/// A text is contained in another exactly when it occurs somewhere in it.
pub proof fn lemma_contains_text(s: Seq<char>, p: Seq<char>)
    ensures
        contains_text(s, p) <==> exists|i: int| occurs_at(s, p, i),
{
    lemma_find_from(s, p, 0);
}

pub(crate) fn occurs(s: &Vec<char>, p: &Vec<char>, i: usize) -> (r: bool)
    requires
        i + p@.len() <= s@.len(),
    ensures
        r == occurs_at(s@, p@, i as int),
{
    let n: usize = s.len();
    let mut k: usize = 0;
    while k < p.len()
        invariant
            k <= p@.len(),
            i + p@.len() <= s@.len() == n,
            forall|j: int| 0 <= j < k ==> s@[i + j] == p@[j],
        decreases p@.len() - k,
    {
        if s[i + k] != p[k] {
            assert(s@.subrange(i as int, i + p@.len())[k as int] != p@[k as int]);
            return false;
        }
        k += 1;
    }
    assert(s@.subrange(i as int, i + p@.len()) =~= p@);
    true
}

pub(crate) fn find_chars(s: &Vec<char>, p: &Vec<char>, from: usize) -> (r: Option<usize>)
    requires
        from <= s@.len(),
    ensures
        r matches Some(i) ==> find_from(s@, p@, from as int) == Some(i as int),
        r is None ==> find_from(s@, p@, from as int) is None,
        r matches Some(i) ==> from <= i && i + p@.len() <= s@.len(),
{
    let n: usize = s.len();
    let mut i: usize = from;
    while p.len() <= n - i
        invariant
            from <= i <= s@.len() == n,
            find_from(s@, p@, from as int) == find_from(s@, p@, i as int),
        decreases n - i,
    {
        if occurs(s, p, i) {
            return Some(i);
        }
        if i == n {
            assert(find_from(s@, p@, i + 1) is None);
            return None;
        }
        i += 1;
    }
    None
}

/// The position, in characters, of the first occurrence of `p`.
pub fn find(s: &str, p: &str) -> (r: Option<usize>)
    ensures
        r matches Some(i) ==> find_in(s@, p@) == Some(i as int) && i + p@.len() <= s@.len(),
        r is None ==> find_in(s@, p@) is None,
{
    find_chars(&chars_of(s), &chars_of(p), 0)
}

pub fn contains(s: &str, p: &str) -> (r: bool)
    ensures
        r == contains_text(s@, p@),
{
    find(s, p).is_some()
}

pub fn starts_with(s: &str, p: &str) -> (r: bool)
    ensures
        r == has_prefix(s@, p@),
{
    let sc = chars_of(s);
    let pc = chars_of(p);
    if pc.len() <= sc.len() {
        occurs(&sc, &pc, 0)
    } else {
        false
    }
}

/// Text after a prefix, when the prefix is there.
pub open spec fn without_prefix(s: Seq<char>, p: Seq<char>) -> Option<Seq<char>> {
    if has_prefix(s, p) {
        Some(s.skip(p.len() as int))
    } else {
        None
    }
}

pub fn strip_prefix(s: &str, p: &str) -> (r: Option<String>)
    ensures
        text_opt(r) == without_prefix(s@, p@),
{
    if starts_with(s, p) {
        let sc = chars_of(s);
        let n = chars_of(p).len();
        assert(sc@.subrange(n as int, sc@.len() as int) =~= s@.skip(p@.len() as int));
        Some(text_between(&sc, n, sc.len()))
    } else {
        None
    }
}

/// The parts before and after the first occurrence of `sep`.
pub open spec fn split_at_first(s: Seq<char>, sep: Seq<char>) -> Option<(Seq<char>, Seq<char>)> {
    match find_in(s, sep) {
        Some(i) => Some((s.take(i), s.skip(i + sep.len()))),
        None => None,
    }
}

pub open spec fn pair_opt(o: Option<(String, String)>) -> Option<(Seq<char>, Seq<char>)> {
    match o {
        Some((a, b)) => Some((a@, b@)),
        None => None,
    }
}

pub fn split_once(s: &str, sep: &str) -> (r: Option<(String, String)>)
    ensures
        pair_opt(r) == split_at_first(s@, sep@),
{
    let sc = chars_of(s);
    let pc = chars_of(sep);
    let n: usize = sc.len();
    match find_chars(&sc, &pc, 0) {
        Some(i) => {
            assert(sc@.subrange(0, i as int) =~= s@.take(i as int));
            assert(sc@.subrange(i + pc@.len(), sc@.len() as int) =~= s@.skip(i + sep@.len()));
            Some((text_between(&sc, 0, i), text_between(&sc, i + pc.len(), n)))
        },
        None => None,
    }
}

/// The first position at or after `i` that holds a member of `set`, or the length.
pub open spec fn next_member(s: Seq<char>, set: CharSet, i: int) -> int
    decreases s.len() - i,
{
    if i < 0 || i >= s.len() {
        s.len() as int
    } else if set.contains(s[i]) {
        i
    } else {
        next_member(s, set, i + 1)
    }
}

pub(crate) fn next_in(chars: &Vec<char>, set: CharSet, from: usize) -> (r: usize)
    requires
        from <= chars@.len(),
    ensures
        r == next_member(chars@, set, from as int),
        from <= r <= chars@.len(),
        r < chars@.len() ==> set.contains(chars@[r as int]),
{
    let mut i: usize = from;
    while i < chars.len()
        invariant
            from <= i <= chars@.len(),
            next_member(chars@, set, from as int) == next_member(chars@, set, i as int),
        decreases chars@.len() - i,
    {
        if set.has(chars[i]) {
            return i;
        }
        i += 1;
    }
    i
}

pub proof fn lemma_next_member(s: Seq<char>, set: CharSet, i: int)
    requires
        0 <= i <= s.len(),
    ensures
        i <= next_member(s, set, i) <= s.len(),
        next_member(s, set, i) < s.len() ==> set.contains(s[next_member(s, set, i)]),
        forall|k: int| i <= k < next_member(s, set, i) ==> !set.contains(#[trigger] s[k]),
    decreases s.len() - i,
{
    if i < s.len() && !set.contains(s[i]) {
        lemma_next_member(s, set, i + 1);
    }
}

/// The text before the first member of `set`: the first piece of a split.
pub open spec fn first_piece(s: Seq<char>, set: CharSet) -> Seq<char> {
    s.take(next_member(s, set, 0))
}

pub fn before_any(s: &str, set: CharSet) -> (r: String)
    ensures
        r@ == first_piece(s@, set),
{
    let sc = chars_of(s);
    let i = next_in(&sc, set, 0);
    assert(sc@.subrange(0, i as int) =~= s@.take(i as int));
    text_between(&sc, 0, i)
}

/// The text from the first member of `set` on.
pub fn text_from(s: &str, set: CharSet) -> (r: String)
    ensures
        r@ == s@.skip(next_member(s@, set, 0)),
{
    let sc = chars_of(s);
    let i = next_in(&sc, set, 0);
    assert(sc@.subrange(i as int, sc@.len() as int) =~= s@.skip(i as int));
    text_between(&sc, i, sc.len())
}

pub open spec fn has_char(s: Seq<char>, c: char) -> bool {
    exists|i: int| 0 <= i < s.len() && s[i] == c
}

pub fn contains_char(s: &str, c: char) -> (r: bool)
    ensures
        r == has_char(s@, c),
{
    let sc = chars_of(s);
    let i = next_in(&sc, CharSet::One(c), 0);
    proof {
        lemma_next_member(s@, CharSet::One(c), 0);
        if i < sc@.len() {
            assert(s@[i as int] == c);
        }
    }
    i < sc.len()
}

/// The position of the last occurrence of a character, as the length of what precedes it.
pub open spec fn last_position(s: Seq<char>, c: char) -> Option<int>
    decreases s.len(),
{
    if s.len() == 0 {
        None
    } else if s.last() == c {
        Some(s.len() - 1)
    } else {
        last_position(s.drop_last(), c)
    }
}

pub proof fn lemma_last_position(s: Seq<char>, c: char)
    ensures
        last_position(s, c) matches Some(i) ==> 0 <= i < s.len() && s[i] == c,
    decreases s.len(),
{
    if s.len() > 0 {
        lemma_last_position(s.drop_last(), c);
    }
}

/// The text after the last occurrence of `c`.
pub open spec fn after_last(s: Seq<char>, c: char) -> Option<Seq<char>> {
    match last_position(s, c) {
        Some(i) => Some(s.skip(i + 1)),
        None => None,
    }
}

pub fn rsplit_after(s: &str, c: char) -> (r: Option<String>)
    ensures
        text_opt(r) == after_last(s@, c),
{
    let sc = chars_of(s);
    let mut n: usize = sc.len();
    assert(sc@.take(n as int) =~= s@);
    while n > 0
        invariant
            n <= sc@.len(),
            sc@ == s@,
            last_position(s@, c) == last_position(sc@.take(n as int), c),
        decreases n,
    {
        assert(sc@.take(n as int).drop_last() =~= sc@.take(n - 1));
        if sc[n - 1] == c {
            assert(sc@.subrange(n as int, sc@.len() as int) =~= s@.skip(n as int));
            return Some(text_between(&sc, n, sc.len()));
        }
        n -= 1;
    }
    None
}

/// The text before the last occurrence of `c`.
pub fn rsplit_before(s: &str, c: char) -> (r: Option<String>)
    ensures
        text_opt(r) == match last_position(s@, c) {
            Some(i) => Some(s@.take(i)),
            None => None,
        },
{
    let sc = chars_of(s);
    let mut n: usize = sc.len();
    assert(sc@.take(n as int) =~= s@);
    while n > 0
        invariant
            n <= sc@.len(),
            sc@ == s@,
            last_position(s@, c) == last_position(sc@.take(n as int), c),
        decreases n,
    {
        assert(sc@.take(n as int).drop_last() =~= sc@.take(n - 1));
        if sc[n - 1] == c {
            assert(sc@.subrange(0, n - 1) =~= s@.take(n - 1));
            return Some(text_between(&sc, 0, n - 1));
        }
        n -= 1;
    }
    None
}

/// ASCII letters in lower case, everything else unchanged.
pub open spec fn lower_char(c: char) -> char {
    if 'A' <= c && c <= 'Z' {
        ((c as u32 + 32) as u32) as char
    } else {
        c
    }
}

pub open spec fn ascii_lower(s: Seq<char>) -> Seq<char> {
    s.map_values(|c: char| lower_char(c))
}

pub fn to_lower_char(c: char) -> (r: char)
    ensures
        r == lower_char(c),
{
    if 'A' <= c && c <= 'Z' {
        (c as u8 + 32) as char
    } else {
        c
    }
}

pub fn to_ascii_lowercase(s: &str) -> (r: String)
    ensures
        r@ == ascii_lower(s@),
{
    let sc = chars_of(s);
    let mut out = String::new();
    let mut i: usize = 0;
    while i < sc.len()
        invariant
            i <= sc@.len(),
            sc@ == s@,
            out@ =~= ascii_lower(s@).take(i as int),
        decreases sc@.len() - i,
    {
        out.push(to_lower_char(sc[i]));
        i += 1;
    }
    assert(out@ =~= ascii_lower(s@));
    out
}

pub fn eq_ignore_ascii_case(a: &str, b: &str) -> (r: bool)
    ensures
        r == (ascii_lower(a@) == ascii_lower(b@)),
{
    to_ascii_lowercase(a) == to_ascii_lowercase(b)
}

/// Whether every character is ASCII.
pub open spec fn all_ascii(s: Seq<char>) -> bool {
    forall|i: int| 0 <= i < s.len() ==> (#[trigger] s[i] as u32) < 128
}

/// What `str::to_lowercase` makes of a text beyond ASCII.
pub uninterp spec fn unicode_lower(s: Seq<char>) -> Seq<char>;

/// A text in lower case: ASCII text by its letters, other text by the Unicode tables.
pub open spec fn lowercase_of(s: Seq<char>) -> Seq<char> {
    if all_ascii(s) {
        ascii_lower(s)
    } else {
        unicode_lower(s)
    }
}

/// `str::to_lowercase`: in ASCII text the letters `A` to `Z` become `a` to `z` and everything
/// else stays; what other text becomes is left to the Unicode tables of the standard
/// library, and only named.
#[verifier::external_body]
pub(crate) fn to_lowercase(s: &str) -> (r: String)
    ensures
        r@ == if all_ascii(s@) {
            ascii_lower(s@)
        } else {
            unicode_lower(s@)
        },
{
    s.to_lowercase()
}

/// Text with every `from` turned into `to`.
pub open spec fn replaced(s: Seq<char>, from: char, to: char) -> Seq<char> {
    s.map_values(
        |c: char|
            if c == from {
                to
            } else {
                c
            },
    )
}

pub fn replace_char(s: &str, from: char, to: char) -> (r: String)
    ensures
        r@ == replaced(s@, from, to),
{
    let sc = chars_of(s);
    let mut out = String::new();
    let mut i: usize = 0;
    while i < sc.len()
        invariant
            i <= sc@.len(),
            sc@ == s@,
            out@ =~= replaced(s@, from, to).take(i as int),
        decreases sc@.len() - i,
    {
        out.push(
            if sc[i] == from {
                to
            } else {
                sc[i]
            },
        );
        i += 1;
    }
    assert(out@ =~= replaced(s@, from, to));
    out
}

/// Text with every `c` left out.
pub open spec fn without_char(s: Seq<char>, c: char) -> Seq<char>
    decreases s.len(),
{
    if s.len() == 0 {
        Seq::empty()
    } else if s.last() == c {
        without_char(s.drop_last(), c)
    } else {
        without_char(s.drop_last(), c).push(s.last())
    }
}

pub fn remove_char(s: &str, c: char) -> (r: String)
    ensures
        r@ == without_char(s@, c),
{
    let sc = chars_of(s);
    let mut out = String::new();
    let mut i: usize = 0;
    while i < sc.len()
        invariant
            i <= sc@.len(),
            sc@ == s@,
            out@ == without_char(sc@.take(i as int), c),
        decreases sc@.len() - i,
    {
        assert(sc@.take(i + 1).drop_last() =~= sc@.take(i as int));
        if sc[i] != c {
            out.push(sc[i]);
        }
        i += 1;
    }
    assert(sc@.take(i as int) =~= s@);
    out
}

/// One line without the carriage return that a line feed made part of its ending.
pub open spec fn without_cr(s: Seq<char>) -> Seq<char> {
    if s.len() > 0 && s.last() == '\r' {
        s.drop_last()
    } else {
        s
    }
}

/// The lines of a text: each ends at a line feed, which may follow a carriage return,
/// or at the end of the text.
pub open spec fn lines_of(s: Seq<char>) -> Seq<Seq<char>>
    decreases s.len(),
{
    if s.len() == 0 {
        Seq::empty()
    } else {
        let i = next_member(s, CharSet::One('\n'), 0);
        if i < 0 || i >= s.len() {
            seq![s]
        } else {
            seq![without_cr(s.take(i))] + lines_of(s.skip(i + 1))
        }
    }
}

/// `next_member` looks at the text from `i` on only.
pub proof fn lemma_next_member_skip(s: Seq<char>, set: CharSet, from: int, i: int)
    requires
        0 <= from <= s.len(),
        0 <= i <= s.len() - from,
    ensures
        next_member(s, set, from + i) == from + next_member(s.skip(from), set, i),
    decreases s.len() - from - i,
{
    if from + i < s.len() && !set.contains(s[from + i]) {
        lemma_next_member_skip(s, set, from, i + 1);
    }
}

/// The first line feed stays where it is when text is added behind it.
proof fn lemma_next_member_stays(s: Seq<char>, more: Seq<char>, set: CharSet)
    requires
        next_member(s, set, 0) < s.len(),
    ensures
        next_member(s + more, set, 0) == next_member(s, set, 0),
{
    lemma_next_member(s, set, 0);
    lemma_next_member(s + more, set, 0);
    let i = next_member(s, set, 0);
    let j = next_member(s + more, set, 0);
    assert((s + more)[i] == s[i]);
    if j < i {
        assert((s + more)[j] == s[j]);
    }
}

/// Text that ends with a line feed keeps its lines when text is added.
pub proof fn lemma_lines_concat(a: Seq<char>, b: Seq<char>)
    requires
        a.len() > 0,
        a.last() == '\n',
    ensures
        lines_of(a + b) == lines_of(a) + lines_of(b),
    decreases a.len(),
{
    let set = CharSet::One('\n');
    lemma_next_member(a, set, 0);
    let i = next_member(a, set, 0);
    assert(i < a.len()) by {
        if i == a.len() {
            assert(!set.contains(a[a.len() - 1]));
        }
    }
    lemma_next_member_stays(a, b, set);
    assert((a + b).take(i) =~= a.take(i));
    let rest = a.skip(i + 1);
    assert((a + b).skip(i + 1) =~= rest + b);
    let line = seq![without_cr(a.take(i))];
    if rest.len() == 0 {
        assert(rest + b =~= b);
        assert(lines_of(rest) =~= Seq::<Seq<char>>::empty());
        assert(line + lines_of(rest) =~= line);
    } else {
        assert(rest.last() == a.last());
        lemma_lines_concat(rest, b);
        assert(line + (lines_of(rest) + lines_of(b)) =~= (line + lines_of(rest)) + lines_of(b));
    }
}

/// What a line feed at the end does to the lines of a text: it ends the last one, or adds an
/// empty one.
pub proof fn lemma_lines_ended(a: Seq<char>)
    ensures
        ({
            let ended = lines_of(a.push('\n'));
            let open = lines_of(a);
            if a.len() == 0 || a.last() == '\n' {
                ended == open.push(Seq::empty())
            } else {
                open.len() > 0 && ended == open.drop_last().push(without_cr(open.last()))
            }
        }),
    decreases a.len(),
{
    let set = CharSet::One('\n');
    let ended = a.push('\n');
    lemma_next_member(a, set, 0);
    lemma_next_member(ended, set, 0);
    let i = next_member(a, set, 0);
    let nl = seq!['\n'];
    assert(ended =~= a + nl);
    if i < a.len() {
        lemma_next_member_stays(a, nl, set);
        assert(ended.take(i) =~= a.take(i));
        let rest = a.skip(i + 1);
        assert(ended.skip(i + 1) =~= rest.push('\n'));
        lemma_lines_ended(rest);
        let line = seq![without_cr(a.take(i))];
        assert(lines_of(a) == line + lines_of(rest));
        assert(lines_of(ended) == line + lines_of(rest.push('\n')));
        if rest.len() == 0 {
            assert(i == a.len() - 1);
            assert(a.last() == '\n');
        } else {
            assert(rest.last() == a.last());
        }
        if a.last() == '\n' {
            assert(line + lines_of(rest).push(Seq::empty()) =~= (line + lines_of(rest)).push(
                Seq::empty(),
            ));
        } else {
            let open = lines_of(rest);
            let all = line + open;
            assert(all.drop_last().push(without_cr(all.last())) =~= line + open.drop_last().push(
                without_cr(open.last()),
            ));
        }
    } else {
        let j = next_member(ended, set, 0);
        assert(j == a.len()) by {
            if j < a.len() {
                assert(ended[j] == a[j]);
            } else if j > a.len() {
                assert(!set.contains(ended[a.len() as int]));
            }
        }
        assert(ended.take(j) =~= a);
        assert(ended.skip(j + 1) =~= Seq::<char>::empty());
        assert(lines_of(ended.skip(j + 1)) =~= Seq::<Seq<char>>::empty());
        assert(lines_of(ended) =~= seq![without_cr(a)]);
        if a.len() > 0 {
            assert(a.last() != '\n') by {
                assert(!set.contains(a[a.len() - 1]));
            }
            assert(seq![a].drop_last().push(without_cr(a)) =~= seq![without_cr(a)]);
        } else {
            assert(without_cr(a) =~= Seq::<char>::empty());
            assert(Seq::<Seq<char>>::empty().push(Seq::empty()) =~= seq![without_cr(a)]);
        }
    }
}

pub fn lines(s: &str) -> (r: Vec<String>)
    ensures
        texts(r@) == lines_of(s@),
{
    broadcast use {lemma_texts_push, lemma_texts_empty};

    let sc = chars_of(s);
    let mut out: Vec<String> = Vec::new();
    let mut pos: usize = 0;
    assert(s@.skip(0) =~= s@);
    assert(texts(out@) + lines_of(s@) =~= lines_of(s@));
    while pos < sc.len()
        invariant
            pos <= sc@.len(),
            sc@ == s@,
            texts(out@) + lines_of(s@.skip(pos as int)) == lines_of(s@),
        decreases sc@.len() - pos,
    {
        let ghost before = texts(out@);
        let ghost rest = s@.skip(pos as int);
        let end = next_in(&sc, CharSet::One('\n'), pos);
        proof {
            lemma_next_member_skip(s@, CharSet::One('\n'), pos as int, 0);
            lemma_next_member(rest, CharSet::One('\n'), 0);
            assert(sc@.subrange(pos as int, end as int) =~= rest.take(end - pos));
        }
        if end == sc.len() {
            let line = text_between(&sc, pos, end);
            out.push(line);
            proof {
                assert(rest.take(end - pos) =~= rest);
                assert(before + seq![rest] =~= before.push(rest));
                assert(texts(out@) + lines_of(s@.skip(end as int)) =~= texts(out@));
            }
            pos = end;
        } else {
            let stop: usize = if end > pos && sc[end - 1] == '\r' {
                end - 1
            } else {
                end
            };
            proof {
                assert(sc@.subrange(pos as int, stop as int) =~= without_cr(rest.take(end - pos)));
                assert(rest.skip(end - pos + 1) =~= s@.skip(end + 1));
                assert(before + (seq![without_cr(rest.take(end - pos))] + lines_of(s@.skip(end + 1)))
                    =~= before.push(without_cr(rest.take(end - pos))) + lines_of(s@.skip(end + 1)));
            }
            let line = text_between(&sc, pos, stop);
            out.push(line);
            pos = end + 1;
        }
    }
    assert(texts(out@) + lines_of(s@.skip(pos as int)) =~= texts(out@));
    out
}

/// The first position at or after `i` outside `set`, or the length.
pub open spec fn next_outside(s: Seq<char>, set: CharSet, i: int) -> int
    decreases s.len() - i,
{
    if i < 0 || i >= s.len() {
        s.len() as int
    } else if !set.contains(s[i]) {
        i
    } else {
        next_outside(s, set, i + 1)
    }
}

pub proof fn lemma_next_outside(s: Seq<char>, set: CharSet, i: int)
    requires
        0 <= i <= s.len(),
    ensures
        i <= next_outside(s, set, i) <= s.len(),
        next_outside(s, set, i) < s.len() ==> !set.contains(s[next_outside(s, set, i)]),
        forall|k: int| i <= k < next_outside(s, set, i) ==> set.contains(#[trigger] s[k]),
    decreases s.len() - i,
{
    if i < s.len() && set.contains(s[i]) {
        lemma_next_outside(s, set, i + 1);
    }
}

/// The words of a text from position `i` on: its longest runs without white space.
pub open spec fn words_from(s: Seq<char>, i: int) -> Seq<Seq<char>>
    decreases s.len() - i,
{
    if i < 0 || i >= s.len() {
        Seq::empty()
    } else {
        let a = next_outside(s, CharSet::Space, i);
        let b = next_member(s, CharSet::Space, a);
        if i <= a < b <= s.len() {
            seq![s.subrange(a, b)] + words_from(s, b)
        } else {
            Seq::empty()
        }
    }
}

pub open spec fn words_of(s: Seq<char>) -> Seq<Seq<char>> {
    words_from(s, 0)
}

pub fn split_whitespace(s: &str) -> (r: Vec<String>)
    ensures
        texts(r@) == words_of(s@),
{
    broadcast use {lemma_texts_push, lemma_texts_empty};

    let sc = chars_of(s);
    let mut out: Vec<String> = Vec::new();
    let mut pos: usize = 0;
    assert(texts(out@) + words_of(s@) =~= words_of(s@));
    while pos < sc.len()
        invariant
            pos <= sc@.len(),
            sc@ == s@,
            texts(out@) + words_from(s@, pos as int) == words_of(s@),
        decreases sc@.len() - pos,
    {
        let ghost before = texts(out@);
        let mut a: usize = pos;
        while a < sc.len() && is_whitespace(sc[a])
            invariant
                pos <= a <= sc@.len(),
                sc@ == s@,
                next_outside(s@, CharSet::Space, pos as int) == next_outside(
                    s@,
                    CharSet::Space,
                    a as int,
                ),
            decreases sc@.len() - a,
        {
            a += 1;
        }
        assert(a == next_outside(s@, CharSet::Space, pos as int));
        let b = next_in(&sc, CharSet::Space, a);
        if a < b {
            let word = text_between(&sc, a, b);
            out.push(word);
            assert(before + (seq![s@.subrange(a as int, b as int)] + words_from(s@, b as int))
                =~= before.push(s@.subrange(a as int, b as int)) + words_from(s@, b as int));
            pos = b;
        } else {
            assert(texts(out@) + Seq::empty() =~= texts(out@));
            return out;
        }
    }
    assert(texts(out@) + words_from(s@, pos as int) =~= texts(out@));
    out
}

/// The pieces between consecutive occurrences of `sep`, from position `i` on.
pub open spec fn pieces_from(s: Seq<char>, sep: Seq<char>, i: int) -> Seq<Seq<char>>
    decreases s.len() - i,
{
    if i < 0 || i > s.len() {
        Seq::empty()
    } else {
        match find_from(s, sep, i) {
            Some(j) => if i <= j && sep.len() > 0 && j + sep.len() <= s.len() {
                seq![s.subrange(i, j)] + pieces_from(s, sep, j + sep.len())
            } else {
                Seq::empty()
            },
            None => seq![s.skip(i)],
        }
    }
}

pub open spec fn pieces_of(s: Seq<char>, sep: Seq<char>) -> Seq<Seq<char>> {
    pieces_from(s, sep, 0)
}

pub fn split(s: &str, sep: &str) -> (r: Vec<String>)
    requires
        sep@.len() > 0,
    ensures
        texts(r@) == pieces_of(s@, sep@),
{
    broadcast use {lemma_texts_push, lemma_texts_empty};

    let sc = chars_of(s);
    let pc = chars_of(sep);
    let n: usize = sc.len();
    let mut out: Vec<String> = Vec::new();
    let mut pos: usize = 0;
    assert(texts(out@) + pieces_of(s@, sep@) =~= pieces_of(s@, sep@));
    loop
        invariant
            pos <= sc@.len() == n,
            sc@ == s@,
            pc@ == sep@,
            pc@.len() > 0,
            texts(out@) + pieces_from(s@, sep@, pos as int) == pieces_of(s@, sep@),
        decreases sc@.len() - pos,
    {
        let ghost before = texts(out@);
        match find_chars(&sc, &pc, pos) {
            Some(j) => {
                let piece = text_between(&sc, pos, j);
                out.push(piece);
                assert(before + (seq![s@.subrange(pos as int, j as int)] + pieces_from(
                    s@,
                    sep@,
                    j + pc@.len(),
                )) =~= before.push(s@.subrange(pos as int, j as int)) + pieces_from(
                    s@,
                    sep@,
                    j + pc@.len(),
                ));
                pos = j + pc.len();
            },
            None => {
                assert(sc@.subrange(pos as int, sc@.len() as int) =~= s@.skip(pos as int));
                let piece = text_between(&sc, pos, sc.len());
                out.push(piece);
                assert(before + seq![s@.skip(pos as int)] =~= before.push(s@.skip(pos as int)));
                return out;
            },
        }
    }
}

/// How many times `p` occurs in a text without overlap: one less than the pieces it
/// splits the text into.
pub open spec fn occurrences(s: Seq<char>, p: Seq<char>) -> int {
    pieces_of(s, p).len() - 1
}

pub proof fn lemma_pieces_nonempty(s: Seq<char>, sep: Seq<char>, i: int)
    requires
        0 <= i <= s.len(),
        sep.len() > 0,
    ensures
        pieces_from(s, sep, i).len() > 0,
{
    lemma_find_from(s, sep, i);
}

pub fn count(s: &str, p: &str) -> (r: usize)
    requires
        p@.len() > 0,
    ensures
        r == occurrences(s@, p@),
{
    let pieces = split(s, p);
    proof {
        lemma_pieces_nonempty(s@, p@, 0);
        assert(texts(pieces@).len() == pieces@.len());
    }
    pieces.len() - 1
}

/// Texts separated by `sep`.
pub open spec fn joined(list: Seq<Seq<char>>, sep: Seq<char>) -> Seq<char>
    decreases list.len(),
{
    if list.len() == 0 {
        Seq::empty()
    } else if list.len() == 1 {
        list[0]
    } else {
        joined(list.drop_last(), sep) + sep + list.last()
    }
}

pub fn join(list: &Vec<String>, sep: &str) -> (r: String)
    ensures
        r@ == joined(texts(list@), sep@),
{
    let mut out = String::new();
    let mut i: usize = 0;
    let ghost all = texts(list@);
    while i < list.len()
        invariant
            i <= list@.len(),
            all == texts(list@),
            out@ == joined(all.take(i as int), sep@),
        decreases list@.len() - i,
    {
        assert(all.take(i + 1).drop_last() =~= all.take(i as int));
        assert(all.take(i + 1).last() == list@[i as int]@);
        if i > 0 {
            out.append(sep);
        } else {
            assert(out@ + list@[0]@ =~= list@[0]@);
        }
        out.append(list[i].as_str());
        i += 1;
    }
    assert(all.take(i as int) =~= all);
    out
}

/// Whether a list of texts holds `t`.
pub fn has_text(list: &Vec<String>, t: &str) -> (r: bool)
    ensures
        r == texts(list@).contains(t@),
{
    let mut i: usize = 0;
    while i < list.len()
        invariant
            i <= list@.len(),
            forall|k: int| 0 <= k < i ==> list@[k]@ != t@,
        decreases list@.len() - i,
    {
        if same(list[i].as_str(), t) {
            assert(texts(list@)[i as int] == t@);
            return true;
        }
        i += 1;
    }
    assert(forall|k: int| 0 <= k < texts(list@).len() ==> texts(list@)[k] == list@[k]@);
    false
}

/// A copy of a list of strings.
pub fn copy_texts(list: &Vec<String>) -> (r: Vec<String>)
    ensures
        r@ == list@,
{
    let mut out: Vec<String> = Vec::new();
    let mut i: usize = 0;
    while i < list.len()
        invariant
            i <= list@.len(),
            out@ == list@.take(i as int),
        decreases list@.len() - i,
    {
        out.push(list[i].clone());
        i += 1;
    }
    assert(out@ =~= list@);
    out
}

/// A copy of an optional string.
pub fn copy_opt(o: &Option<String>) -> (r: Option<String>)
    ensures
        r == *o,
{
    match o {
        Some(s) => Some(s.clone()),
        None => None,
    }
}

/// A copy of an optional slice.
pub fn own_opt(o: Option<&str>) -> (r: Option<String>)
    ensures
        text_opt(r) == str_opt(o),
{
    match o {
        Some(s) => Some(s.to_owned()),
        None => None,
    }
}

/// The text of an optional string, or a stand-in.
pub fn str_or<'a>(o: &'a Option<String>, other: &'a str) -> (r: &'a str)
    ensures
        r@ == text_or(text_opt(*o), other@),
{
    match o {
        Some(s) => s.as_str(),
        None => other,
    }
}

/// A text begins with another where its first characters are those of the other.
pub proof fn law_prefix(s: Seq<char>, p: Seq<char>)
    ensures
        has_prefix(s, p) <==> p.len() <= s.len() && forall|i: int|
            0 <= i < p.len() ==> #[trigger] s[i] == p[i],
        has_prefix(p + s, p),
        without_prefix(p + s, p) == Some(s),
{
    if has_prefix(s, p) {
        assert forall|i: int| 0 <= i < p.len() implies #[trigger] s[i] == p[i] by {
            assert(s.subrange(0, p.len() as int)[i] == s[i]);
        }
    }
    if p.len() <= s.len() && forall|i: int| 0 <= i < p.len() ==> #[trigger] s[i] == p[i] {
        assert(s.subrange(0, p.len() as int) =~= p);
    }
    assert((p + s).subrange(0, p.len() as int) =~= p);
    assert((p + s).skip(p.len() as int) =~= s);
}

/// A text that is split at a separator is what stands before it, the separator and what
/// stands behind it, and the separator stands nowhere earlier.
pub proof fn law_split(s: Seq<char>, sep: Seq<char>)
    ensures
        split_at_first(s, sep) is Some <==> contains_text(s, sep),
        split_at_first(s, sep) matches Some(parts) ==> s == parts.0 + sep + parts.1 && forall|i: int|
            0 <= i < parts.0.len() ==> !#[trigger] occurs_at(s, sep, i),
{
    lemma_find_from(s, sep, 0);
    if let Some(i) = find_in(s, sep) {
        assert(s =~= s.take(i) + s.subrange(i, i + sep.len()) + s.skip(i + sep.len()));
    }
}

proof fn lemma_trim_start(s: Seq<char>, set: CharSet)
    ensures
        ({
            let t = trim_start_of(s, set);
            let k = s.len() - t.len();
            &&& 0 <= k <= s.len()
            &&& t == s.skip(k)
            &&& forall|i: int| 0 <= i < k ==> set.contains(#[trigger] s[i])
            &&& t.len() > 0 ==> !set.contains(t[0])
        }),
    decreases s.len(),
{
    if s.len() > 0 && set.contains(s[0]) {
        let rest = s.drop_first();
        lemma_trim_start(rest, set);
        let t = trim_start_of(s, set);
        let k = s.len() - t.len();
        assert(rest.skip(k - 1) =~= s.skip(k));
        assert forall|i: int| 0 <= i < k implies set.contains(#[trigger] s[i]) by {
            if i > 0 {
                assert(rest[i - 1] == s[i]);
            }
        }
    } else {
        assert(s.skip(0) =~= s);
    }
}

proof fn lemma_trim_end(s: Seq<char>, set: CharSet)
    ensures
        ({
            let t = trim_end_of(s, set);
            &&& t.len() <= s.len()
            &&& t == s.take(t.len() as int)
            &&& forall|i: int| t.len() <= i < s.len() ==> set.contains(#[trigger] s[i])
            &&& t.len() > 0 ==> !set.contains(t.last())
        }),
    decreases s.len(),
{
    if s.len() > 0 && set.contains(s.last()) {
        let init = s.drop_last();
        lemma_trim_end(init, set);
        let t = trim_end_of(s, set);
        assert(init.take(t.len() as int) =~= s.take(t.len() as int));
        assert forall|i: int| t.len() <= i < s.len() implies set.contains(#[trigger] s[i]) by {
            if i < init.len() {
                assert(init[i] == s[i]);
            }
        }
    } else {
        assert(s.take(s.len() as int) =~= s);
    }
}

/// A trimmed text is the middle of the text: it neither begins nor ends with white space,
/// and nothing but white space was taken off.
pub proof fn law_trim(s: Seq<char>)
    ensures
        ({
            let t = trimmed(s);
            &&& t.len() > 0 ==> !is_space(t[0]) && !is_space(t.last())
            &&& exists|k: int|
                0 <= k && k + t.len() <= s.len() && #[trigger] s.subrange(k, k + t.len()) == t && (
                forall|i: int| 0 <= i < k ==> is_space(#[trigger] s[i])) && (forall|i: int|
                    k + t.len() <= i < s.len() ==> is_space(#[trigger] s[i]))
        }),
{
    let set = CharSet::Space;
    let a = trim_start_of(s, set);
    lemma_trim_start(s, set);
    lemma_trim_end(a, set);
    lemma_trim_end(s, set);
    let t = trimmed(s);
    let b = trim_end_of(s, set);
    lemma_trim_start(b, set);
    if t == trim_end_of(a, set) {
        let k = s.len() - a.len();
        assert(s.subrange(k, k + t.len()) =~= t);
        if t.len() > 0 {
            assert(t[0] == a[0]);
        }
        assert forall|i: int| k + t.len() <= i < s.len() implies is_space(#[trigger] s[i]) by {
            assert(a[i - k] == s[i]);
        }
    } else {
        let k = b.len() - t.len();
        assert(s.subrange(k, k + t.len()) =~= t);
        if t.len() > 0 {
            assert(t.last() == b.last());
        }
        assert forall|i: int| 0 <= i < k implies is_space(#[trigger] s[i]) by {
            assert(b[i] == s[i]);
        }
        assert forall|i: int| k + t.len() <= i < s.len() implies is_space(#[trigger] s[i]) by {
        }
    }
}

/// Texts are joined one behind the other, with the separator between any two.
pub proof fn law_join(list: Seq<Seq<char>>, next: Seq<char>, sep: Seq<char>)
    ensures
        joined(Seq::<Seq<char>>::empty(), sep).len() == 0,
        joined(seq![next], sep) == next,
        list.len() > 0 ==> joined(list.push(next), sep) == joined(list, sep) + sep + next,
{
    assert(list.push(next).drop_last() =~= list);
}

/// Lower case changes the letters from A to Z to those from a to z, and nothing else.
pub proof fn law_ascii_lower(s: Seq<char>, i: int)
    requires
        0 <= i < s.len(),
    ensures
        ascii_lower(s).len() == s.len(),
        'A' <= s[i] <= 'Z' ==> 'a' <= ascii_lower(s)[i] <= 'z' && ascii_lower(s)[i] as int
            - 'a' as int == s[i] as int - 'A' as int,
        !('A' <= s[i] <= 'Z') ==> ascii_lower(s)[i] == s[i],
{
}

} // verus!
