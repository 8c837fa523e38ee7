//! Small text-building blocks shared by the emitter: decimal rendering of
//! indices, indentation, string quoting, and parsing of the parenthesized
//! mutability tag inside function names.

use vstd::prelude::*;

verus! {

/// The old text `p` survives at the front of the new text `t`: exactly
/// `p.is_prefix_of(t)`.  Kept opaque so that long chains of appends stay
/// cheap for the solver; the three lemmas below are its calculus.
#[verifier::opaque]
pub open spec fn text_extends(p: Seq<char>, t: Seq<char>) -> bool {
    p.is_prefix_of(t)
}

/// The buffer only ever grows at the end: appending extends.
pub broadcast proof fn lemma_append_extends(t: Seq<char>, s: Seq<char>)
    ensures
        text_extends(t, #[trigger] (t + s)),
{
    reveal(crate::textutil::text_extends);
    assert(t =~= (t + s).subrange(0, t.len() as int));
}

/// Extension is transitive.
pub broadcast proof fn lemma_extends_transitive(a: Seq<char>, b: Seq<char>, c: Seq<char>)
    requires
        text_extends(a, b),
        text_extends(b, c),
    ensures
        #![trigger text_extends(a, b), text_extends(b, c)]
        text_extends(a, c),
{
    reveal(crate::textutil::text_extends);
    assert(a =~= c.subrange(0, a.len() as int));
}

/// Every text extends itself.
pub broadcast proof fn lemma_extends_reflexive(t: Seq<char>)
    ensures
        #[trigger] text_extends(t, t),
{
    reveal(crate::textutil::text_extends);
    assert(t =~= t.subrange(0, t.len() as int));
}

/// The decimal digit character for `d` (`d` below ten).
pub open spec fn digit_rep(d: nat) -> Seq<char> {
    if d == 0 {
        "0"@
    } else if d == 1 {
        "1"@
    } else if d == 2 {
        "2"@
    } else if d == 3 {
        "3"@
    } else if d == 4 {
        "4"@
    } else if d == 5 {
        "5"@
    } else if d == 6 {
        "6"@
    } else if d == 7 {
        "7"@
    } else if d == 8 {
        "8"@
    } else {
        "9"@
    }
}

/// The decimal rendering of `n`, most significant digit first.
pub open spec fn dec_rep(n: nat) -> Seq<char>
    decreases n,
{
    if n < 10 {
        digit_rep(n)
    } else {
        dec_rep(n / 10) + digit_rep(n % 10)
    }
}

/// Appends the decimal rendering of `n`.
pub fn push_dec(out: &mut String, n: usize)
    ensures
        final(out)@ == old(out)@ + dec_rep(n as nat),
    decreases n,
{
    if n >= 10 {
        push_dec(out, n / 10);
    }
    let d: usize = n % 10;
    let ds: &str = match d {
        0 => "0",
        1 => "1",
        2 => "2",
        3 => "3",
        4 => "4",
        5 => "5",
        6 => "6",
        7 => "7",
        8 => "8",
        _ => "9",
    };
    out.append(ds);
    assert(ds@ == digit_rep((n % 10) as nat));
}

/// Four spaces for each level of nesting.
pub open spec fn indent(tabs: nat) -> Seq<char>
    decreases tabs,
{
    if tabs == 0 {
        Seq::empty()
    } else {
        indent((tabs - 1) as nat) + "    "@
    }
}

/// Appends `4 * tabs` spaces.
pub fn emit_indent(out: &mut String, tabs: usize)
    ensures
        final(out)@ == old(out)@ + indent(tabs as nat),
{
    let ghost t0 = out@;
    assert(t0 + indent(0) =~= t0);
    let mut i: usize = 0;
    while i < tabs
        invariant
            i <= tabs,
            out@ == t0 + indent(i as nat),
        decreases tabs - i,
    {
        out.append("    ");
        i = i + 1;
    }
}

/// How one character is escaped inside a quoted JSON string.
pub open spec fn json_esc_char(c: char) -> Seq<char> {
    if c == '\\' {
        "\\\\"@
    } else if c == '"' {
        "\\\""@
    } else if c == '\n' {
        "\\n"@
    } else if c == '\r' {
        "\\r"@
    } else if c == '\t' {
        "\\t"@
    } else {
        seq![c]
    }
}

/// The escaped body of a quoted JSON string.
pub open spec fn json_esc(s: Seq<char>) -> Seq<char>
    decreases s.len(),
{
    if s.len() == 0 {
        Seq::empty()
    } else {
        json_esc_char(s[0]) + json_esc(s.drop_first())
    }
}

/// A quoted JSON string: double quotes around the escaped characters.
pub open spec fn json_text(s: Seq<char>) -> Seq<char> {
    seq!['"'] + json_esc(s) + seq!['"']
}

/// Relies on std's `String::push`: it appends exactly the one character.
#[verifier::external_body]
fn push_char(out: &mut String, c: char)
    ensures
        final(out)@ == old(out)@ + seq![c],
{
    out.push(c)
}

/// The escaped body of one more character: escaping a prefix one character
/// longer appends that character's escape.
proof fn lemma_json_esc_snoc(s: Seq<char>, j: int)
    requires
        0 <= j < s.len(),
    ensures
        json_esc(s.take(j + 1)) == json_esc(s.take(j)) + json_esc_char(s[j]),
    decreases j,
{
    if j == 0 {
        let t1 = s.take(1);
        assert(t1.len() == 1 && t1[0] == s[0]);
        assert(t1.drop_first() =~= Seq::<char>::empty());
        assert(json_esc(t1) == json_esc_char(s[0]) + json_esc(t1.drop_first()));
        assert(json_esc_char(s[0]) + json_esc(t1.drop_first()) =~= json_esc_char(s[0]));
        assert(s.take(0) =~= Seq::<char>::empty());
        assert(json_esc(s.take(0)) + json_esc_char(s[0]) =~= json_esc_char(s[0]));
    } else {
        let sd = s.drop_first();
        assert(s.take(j + 1).drop_first() =~= sd.take(j));
        assert(s.take(j).drop_first() =~= sd.take(j - 1));
        lemma_json_esc_snoc(sd, j - 1);
        assert(json_esc(s.take(j + 1)) == json_esc_char(s[0]) + (json_esc(sd.take(j - 1))
            + json_esc_char(sd[j - 1])));
        assert(json_esc_char(s[0]) + (json_esc(sd.take(j - 1)) + json_esc_char(sd[j - 1]))
            =~= (json_esc_char(s[0]) + json_esc(sd.take(j - 1))) + json_esc_char(s[j]));
    }
}

/// Builds a quoted JSON string: double quotes around the characters of
/// `s`, with `\` `"` and the newline, carriage-return and tab characters
/// escaped by a backslash.
pub(crate) fn json_quote(s: &str) -> (r: String)
    ensures
        r@ == json_text(s@),
{
    let mut out = String::new();
    out.append("\"");
    proof {
        reveal_strlit("\"");
        assert(s@.take(0) =~= Seq::<char>::empty());
        assert(out@ =~= seq!['"'] + json_esc(s@.take(0)));
    }
    let n: usize = s.unicode_len();
    let mut i: usize = 0;
    while i < n
        invariant
            i <= n,
            n == s@.len(),
            out@ == seq!['"'] + json_esc(s@.take(i as int)),
        decreases n - i,
    {
        let ghost t0 = out@;
        let c = s.get_char(i);
        if c == '\\' {
            out.append("\\\\");
        } else if c == '"' {
            out.append("\\\"");
        } else if c == '\n' {
            out.append("\\n");
        } else if c == '\r' {
            out.append("\\r");
        } else if c == '\t' {
            out.append("\\t");
        } else {
            push_char(&mut out, c);
        }
        proof {
            assert(out@ == t0 + json_esc_char(s@[i as int]));
            lemma_json_esc_snoc(s@, i as int);
            assert((seq!['"'] + json_esc(s@.take(i as int))) + json_esc_char(s@[i as int])
                =~= seq!['"'] + json_esc(s@.take(i + 1)));
        }
        i = i + 1;
    }
    out.append("\"");
    proof {
        reveal_strlit("\"");
        assert(s@.take(n as int) =~= s@);
        assert((seq!['"'] + json_esc(s@)) + seq!['"'] =~= json_text(s@));
    }
    out
}

/// What std's `Debug` formatting produces for a string slice; it depends on
/// the characters alone.
pub uninterp spec fn debug_str_of(s: Seq<char>) -> Seq<char>;

/// Relies on std's `Debug` implementation for `str` (used through
/// `format!("{:?}", ..)`): a pure function of the characters that renders
/// the slice as a quoted, escaped string literal.
#[verifier::external_body]
pub(crate) fn debug_quote(s: &str) -> (r: String)
    ensures
        r@ == debug_str_of(s@),
{
    format!("{:?}", s)
}

/// Whether std's Unicode tables class the character as alphanumeric; the
/// answer depends on the character alone.
pub uninterp spec fn unicode_alnum(c: char) -> bool;

/// Relies on std's `char::is_alphanumeric`: a pure classification of the
/// character by the Unicode tables.
#[verifier::external_body]
fn char_is_alphanumeric(c: char) -> (r: bool)
    ensures
        r == unicode_alnum(c),
{
    c.is_alphanumeric()
}

/// Whether every character of `s` is alphanumeric: such a text may stand
/// bare as an object key, without quoting.
pub fn all_alphanumeric(s: &str) -> (r: bool)
    ensures
        r == forall|i: int| 0 <= i < s@.len() ==> unicode_alnum(#[trigger] s@[i]),
{
    let n: usize = s.unicode_len();
    let mut i: usize = 0;
    while i < n
        invariant
            i <= n,
            n == s@.len(),
            forall|k: int| 0 <= k < i ==> unicode_alnum(#[trigger] s@[k]),
        decreases n - i,
    {
        if !char_is_alphanumeric(s.get_char(i)) {
            return false;
        }
        i = i + 1;
    }
    true
}

/// `i` is the position of the first occurrence of `c` in `s`.
pub open spec fn first_at(s: Seq<char>, c: char, i: int) -> bool {
    &&& 0 <= i < s.len()
    &&& s[i] == c
    &&& forall|k: int| 0 <= k < i ==> s[k] != c
}

/// The position of the first occurrence of `c` in `s`, if any.
pub open spec fn find_ch(s: Seq<char>, c: char) -> Option<int> {
    if exists|i: int| first_at(s, c, i) {
        Some(choose|i: int| first_at(s, c, i))
    } else {
        None
    }
}

/// Finds the first occurrence of `c` in `s`.
pub fn find_ch_exec(s: &str, c: char) -> (r: Option<usize>)
    ensures
        r matches Some(i) ==> find_ch(s@, c) == Some(i as int) && first_at(s@, c, i as int),
        r is None ==> find_ch(s@, c) is None,
{
    let n: usize = s.unicode_len();
    let mut i: usize = 0;
    while i < n
        invariant
            i <= n,
            n == s@.len(),
            forall|k: int| 0 <= k < i ==> s@[k] != c,
        decreases n - i,
    {
        if s.get_char(i) == c {
            proof {
                assert(first_at(s@, c, i as int));
                let j = choose|j: int| first_at(s@, c, j);
                if j < i as int {
                    assert(s@[j] != c);
                }
                assert(j == i as int);
            }
            return Some(i);
        }
        i = i + 1;
    }
    proof {
        if exists|j: int| first_at(s@, c, j) {
            let j = choose|j: int| first_at(s@, c, j);
            assert(s@[j] != c);
        }
    }
    None
}

/// Whether two string slices hold the same characters.
pub fn str_eq(a: &str, b: &str) -> (r: bool)
    ensures
        r == (a@ == b@),
{
    let na: usize = a.unicode_len();
    let nb: usize = b.unicode_len();
    if na != nb {
        return false;
    }
    let mut i: usize = 0;
    while i < na
        invariant
            i <= na,
            na == a@.len(),
            na == b@.len(),
            forall|k: int| 0 <= k < i ==> a@[k] == b@[k],
        decreases na - i,
    {
        if a.get_char(i) != b.get_char(i) {
            return false;
        }
        i = i + 1;
    }
    proof {
        assert(a@ =~= b@);
    }
    true
}

/// The `j`-th comma-separated token of `s` (empty when `s` has fewer
/// tokens).
pub open spec fn nth_token(s: Seq<char>, j: int) -> Seq<char>
    decreases j,
{
    match find_ch(s, ',') {
        Some(i) => {
            if j <= 0 {
                s.take(i)
            } else {
                nth_token(s.skip(i + 1), j - 1)
            }
        },
        None => {
            if j <= 0 {
                s
            } else {
                Seq::empty()
            }
        },
    }
}

/// The text between the parentheses of a name's mutability tag, or empty.
pub open spec fn tag_of(name: Seq<char>) -> Seq<char> {
    match find_ch(name, '(') {
        Some(i) => {
            if i + 2 <= name.len() {
                name.subrange(i + 1, name.len() - 1)
            } else {
                Seq::empty()
            }
        },
        None => Seq::empty(),
    }
}

/// Whether a call through `name` passes argument `j` by mutable reference:
/// the name carries a tag and its `j`-th token is `mut`.
pub open spec fn call_arg_is_mut(name: Seq<char>, j: int) -> bool {
    &&& find_ch(name, '(') is Some
    &&& nth_token(tag_of(name), j) == "mut"@
}

/// The name with any parenthesized tag stripped.
pub open spec fn stripped(name: Seq<char>) -> Seq<char> {
    match find_ch(name, '(') {
        Some(i) => name.take(i),
        None => name,
    }
}

/// Whether the `j`-th comma-separated token of `tag` is `mut`.
fn token_mut(tag: &str, j: usize) -> (r: bool)
    ensures
        r == (nth_token(tag@, j as int) == "mut"@),
    decreases j,
{
    let n: usize = tag.unicode_len();
    match find_ch_exec(tag, ',') {
        Some(ci) => {
            if j == 0 {
                let head = tag.substring_char(0, ci);
                assert(head@ == nth_token(tag@, j as int));
                let r = str_eq(head, "mut");
                assert(r == (nth_token(tag@, j as int) == "mut"@));
                r
            } else {
                let rest = tag.substring_char(ci + 1, n);
                assert(rest@ == tag@.skip(ci + 1));
                assert(nth_token(tag@, j as int) == nth_token(rest@, j - 1));
                let r = token_mut(rest, j - 1);
                assert(r == (nth_token(tag@, j as int) == "mut"@));
                r
            }
        },
        None => {
            if j == 0 {
                let r = str_eq(tag, "mut");
                assert(r == (nth_token(tag@, j as int) == "mut"@));
                r
            } else {
                proof {
                    reveal_strlit("mut");
                    assert("mut"@.len() == 3);
                    assert(nth_token(tag@, j as int) == Seq::<char>::empty());
                }
                false
            }
        },
    }
}

/// Whether argument `j` of a call through `name` is passed by mutable
/// reference.
pub fn arg_is_mut(name: &str, j: usize) -> (r: bool)
    ensures
        r == call_arg_is_mut(name@, j as int),
{
    match find_ch_exec(name, '(') {
        None => false,
        Some(p) => {
            let n: usize = name.unicode_len();
            if p >= n - 1 {
                proof {
                    reveal_strlit("mut");
                    assert(tag_of(name@) =~= Seq::<char>::empty());
                    assert(find_ch(Seq::<char>::empty(), ',') is None) by {
                        if exists|i: int| first_at(Seq::<char>::empty(), ',', i) {
                            let i = choose|i: int| first_at(Seq::<char>::empty(), ',', i);
                            assert(0 <= i < 0);
                        }
                    }
                }
                false
            } else {
                let tag = name.substring_char(p + 1, n - 1);
                token_mut(tag, j)
            }
        },
    }
}

/// Appends `name` with any parenthesized tag stripped.
pub fn emit_stripped(out: &mut String, name: &str)
    ensures
        final(out)@ == old(out)@ + stripped(name@),
{
    match find_ch_exec(name, '(') {
        Some(i) => {
            out.append(name.substring_char(0, i));
        },
        None => {
            out.append(name);
        },
    }
}

/// Adds, saturating at the largest representable value.
pub fn sat_add(a: usize, b: usize) -> (r: usize)
    ensures
        r == if a + b > usize::MAX { usize::MAX as int } else { a + b },
{
    if a > usize::MAX - b {
        usize::MAX
    } else {
        a + b
    }
}

} // verus!
