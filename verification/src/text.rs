//! Plain text helpers, the token model of generated code, and the
//! identifier case conversions it relies on.

use vstd::prelude::*;
use vstd::string::*;

verus! {

/// Whether `c` separates two words of a template.
pub open spec fn is_sep(c: char) -> bool {
    c == ' ' || c == '\n'
}

/// The word that ends the scan: `cur` if it holds anything.
pub open spec fn flush(cur: Seq<char>) -> Seq<Seq<char>> {
    if cur.len() == 0 {
        seq![]
    } else {
        seq![cur]
    }
}

/// Splits `s` at separators, with `cur` the word read so far and `quoted`
/// telling whether the scan is inside a double-quoted literal, where
/// separators do not split.
pub open spec fn words_from(s: Seq<char>, cur: Seq<char>, quoted: bool) -> Seq<Seq<char>>
    decreases s.len(),
{
    if s.len() == 0 {
        flush(cur)
    } else if quoted {
        words_from(s.drop_first(), cur.push(s[0]), s[0] != '"')
    } else if is_sep(s[0]) {
        flush(cur) + words_from(s.drop_first(), seq![], false)
    } else {
        words_from(s.drop_first(), cur.push(s[0]), s[0] == '"')
    }
}

/// The words of a template: maximal runs of characters that are neither a
/// space nor a newline, where a double-quoted run keeps its spaces.
pub open spec fn words_of(s: Seq<char>) -> Seq<Seq<char>> {
    words_from(s, seq![], false)
}

/// Views of a sequence of strings.
pub open spec fn strs(v: Seq<String>) -> Seq<Seq<char>> {
    v.map_values(|s: String| s@)
}

/// Whether two strings hold the same characters.
pub fn str_eq(a: &str, b: &str) -> (r: bool)
    ensures
        r == (a@ == b@),
{
    let n = a.unicode_len();
    if n != b.unicode_len() {
        return false;
    }
    let mut i: usize = 0;
    while i < n
        invariant
            n == a@.len(),
            n == b@.len(),
            i <= n,
            forall|j: int| 0 <= j < i ==> a@[j] == b@[j],
        decreases n - i,
    {
        if a.get_char(i) != b.get_char(i) {
            return false;
        }
        i = i + 1;
    }
    assert(a@ =~= b@);
    true
}

/// `a` followed by `b`.
pub fn cat(a: &str, b: &str) -> (r: String)
    ensures
        r@ == a@ + b@,
{
    let mut r = String::from_str(a);
    r.append(b);
    r
}

/// Splits a template into its words (see `words_of`).
pub fn split_words(s: &str) -> (r: Vec<String>)
    ensures
        strs(r@) == words_of(s@),
{
    let n = s.unicode_len();
    let mut out: Vec<String> = Vec::new();
    let mut start: usize = 0;
    let mut quoted = false;
    let mut i: usize = 0;
    assert(s@.skip(0) =~= s@);
    assert(s@.subrange(0, 0) =~= seq![]);
    assert(strs(out@) =~= seq![]);
    assert(strs(out@) + words_of(s@) =~= words_of(s@));
    while i < n
        invariant
            n == s@.len(),
            start <= i <= n,
            strs(out@) + words_from(s@.skip(i as int), s@.subrange(start as int, i as int), quoted)
                == words_of(s@),
        decreases n - i,
    {
        let c = s.get_char(i);
        let ghost rest = s@.skip(i as int);
        let ghost cur = s@.subrange(start as int, i as int);
        assert(rest[0] == c);
        assert(rest.drop_first() =~= s@.skip(i + 1));
        assert(cur.push(c) =~= s@.subrange(start as int, i + 1));
        if quoted {
            quoted = c != '"';
        } else if c == ' ' || c == '\n' {
            if start < i {
                let w = String::from_str(s.substring_char(start, i));
                let ghost before = out@;
                out.push(w);
                assert(strs(out@) =~= strs(before) + flush(cur));
            } else {
                assert(flush(cur) =~= seq![]);
                assert(strs(out@) + flush(cur) =~= strs(out@));
            }
            assert(s@.subrange((i + 1) as int, (i + 1) as int) =~= seq![]);
            start = i + 1;
        } else {
            quoted = c == '"';
        }
        i = i + 1;
    }
    let ghost cur = s@.subrange(start as int, n as int);
    assert(s@.skip(n as int) =~= seq![]);
    if start < n {
        let w = String::from_str(s.substring_char(start, n));
        let ghost before = out@;
        out.push(w);
        assert(strs(out@) =~= strs(before) + flush(cur));
    } else {
        assert(strs(out@) + flush(cur) =~= strs(out@));
    }
    out
}


/// Name for what heck's `CamelCase::to_camel_case` returns for a string.
pub uninterp spec fn camel_case_of(s: Seq<char>) -> Seq<char>;

/// Name for what heck's `SnakeCase::to_snake_case` returns for a string.
pub uninterp spec fn snake_case_of(s: Seq<char>) -> Seq<char>;

/// Name for the text of the string literal that proc_macro2's fallback
/// `Literal::string` makes of a string (quoted, with escapes).
pub uninterp spec fn string_literal_of(s: Seq<char>) -> Seq<char>;

/// Name for what proc_macro2's fallback `TokenStream` prints of the tokens
/// it lexes from a text (`None` where the text does not lex).
pub uninterp spec fn token_stream_text_of(s: Seq<char>) -> Option<Seq<char>>;

/// Calls heck's `CamelCase::to_camel_case`; the contract claims only that
/// the result is a function of the argument (heck's word splitting and
/// capitalisation are not restated here).
#[verifier::external_body]
pub fn camel_case(s: &str) -> (r: String)
    ensures
        r@ == camel_case_of(s@),
{
    heck::CamelCase::to_camel_case(s)
}

/// Calls heck's `SnakeCase::to_snake_case`; the contract claims only that
/// the result is a function of the argument.
#[verifier::external_body]
pub fn snake_case(s: &str) -> (r: String)
    ensures
        r@ == snake_case_of(s@),
{
    heck::SnakeCase::to_snake_case(s)
}

/// Calls proc_macro2's `Literal::string` and prints the literal. The call
/// first selects proc_macro2's fallback implementation (`fallback::force`), so
/// the compiler's is never used; the contract claims only that the text is a
/// function of the string (the fallback quotes and escapes it; its escaping
/// is not restated). The selection is process-wide state of proc_macro2: a
/// call of `fallback::unforce` on another thread at the same moment is not
/// accounted for.
#[verifier::external_body]
pub fn string_literal(s: &str) -> (r: String)
    ensures
        r@ == string_literal_of(s@),
{
    proc_macro2::fallback::force();
    proc_macro2::Literal::string(s).to_string()
}

/// Lexes a text with proc_macro2's `TokenStream::from_str` and prints the
/// stream with its `Display`, after selecting proc_macro2's fallback
/// implementation as `string_literal` does. The contract claims that the
/// result is a function of the text, `None` exactly where lexing fails; how
/// the fallback lays out tokens (which it joins and where it puts spaces) is
/// not restated.
#[verifier::external_body]
pub(crate) fn token_stream_text(s: &str) -> (r: Option<String>)
    ensures
        crate::context::opt_view(r) == token_stream_text_of(s@),
{
    proc_macro2::fallback::force();
    match s.parse::<proc_macro2::TokenStream>() {
        Ok(t) => Some(t.to_string()),
        Err(_) => None,
    }
}

/// A token of generated source: a word printed as it stands (an identifier,
/// a keyword, punctuation, or a literal written in a template), or a string
/// whose literal is printed quoted and escaped.
pub enum Token {
    Word(String),
    Str(String),
}

/// The model of a token.
pub enum Tok {
    Word(Seq<char>),
    Str(Seq<char>),
}

impl View for Token {
    type V = Tok;

    open spec fn view(&self) -> Tok {
        match self {
            Token::Word(w) => Tok::Word(w@),
            Token::Str(s) => Tok::Str(s@),
        }
    }
}

/// The model of a sequence of tokens.
pub open spec fn tv(v: Seq<Token>) -> Seq<Tok> {
    v.map_values(|t: Token| t@)
}

/// The tokens of a template: each word becomes a word token.
pub open spec fn tmpl(s: Seq<char>) -> Seq<Tok> {
    words_of(s).map_values(|w: Seq<char>| Tok::Word(w))
}

/// The tokens of a template.
pub fn words(s: &str) -> (r: Vec<Token>)
    ensures
        tv(r@) == tmpl(s@),
{
    let ws = split_words(s);
    let mut out: Vec<Token> = Vec::new();
    let mut i: usize = 0;
    while i < ws.len()
        invariant
            i <= ws@.len(),
            strs(ws@) == words_of(s@),
            tv(out@) =~= strs(ws@).take(i as int).map_values(|w: Seq<char>| Tok::Word(w)),
        decreases ws@.len() - i,
    {
        let w = ws[i].clone();
        let ghost before = out@;
        out.push(Token::Word(w));
        assert(strs(ws@)[i as int] == ws@[i as int]@);
        assert(tv(out@) =~= tv(before).push(Tok::Word(strs(ws@)[i as int])));
        assert(strs(ws@).take(i + 1) =~= strs(ws@).take(i as int).push(strs(ws@)[i as int]));
        i = i + 1;
    }
    assert(strs(ws@).take(i as int) =~= strs(ws@));
    out
}

/// Appends `more` to `out`.
pub fn extend(out: &mut Vec<Token>, more: Vec<Token>)
    ensures
        tv(final(out)@) == tv(old(out)@) + tv(more@),
        old(out)@.len() == 0 ==> tv(final(out)@) == tv(more@),
{
    let mut more = more;
    let ghost m = more@;
    out.append(&mut more);
    assert(tv(out@) =~= tv(old(out)@) + tv(m));
    assert(old(out)@.len() == 0 ==> tv(out@) =~= tv(m));
}

/// A single word.
pub open spec fn word(w: Seq<char>) -> Seq<Tok> {
    seq![Tok::Word(w)]
}

/// A single string literal.
pub open spec fn lit(s: Seq<char>) -> Seq<Tok> {
    seq![Tok::Str(s)]
}

/// The tokens of nothing.
pub fn nothing() -> (r: Vec<Token>)
    ensures
        tv(r@) == Seq::<Tok>::empty(),
{
    let r: Vec<Token> = Vec::new();
    assert(tv(r@) =~= Seq::<Tok>::empty());
    r
}

/// The single word `w`.
pub fn one_word(w: String) -> (r: Vec<Token>)
    ensures
        tv(r@) == word(w@),
{
    let mut r: Vec<Token> = Vec::new();
    let ghost w0 = w@;
    r.push(Token::Word(w));
    assert(tv(r@) =~= word(w0));
    r
}

/// The single string literal `s`.
pub fn one_lit(s: String) -> (r: Vec<Token>)
    ensures
        tv(r@) == lit(s@),
{
    let mut r: Vec<Token> = Vec::new();
    let ghost s0 = s@;
    r.push(Token::Str(s));
    assert(tv(r@) =~= lit(s0));
    r
}


/// The text of a token.
pub open spec fn tok_text(t: Tok) -> Seq<char> {
    match t {
        Tok::Word(w) => w,
        Tok::Str(s) => string_literal_of(s),
    }
}

/// The source text of a sequence of tokens: their texts, one space between
/// each two (what proc_macro2 lexes before it prints the program).
pub open spec fn print_of(ts: Seq<Tok>) -> Seq<char>
    decreases ts.len(),
{
    if ts.len() == 0 {
        seq![]
    } else if ts.len() == 1 {
        tok_text(ts[0])
    } else {
        print_of(ts.drop_last()) + " "@ + tok_text(ts.last())
    }
}

/// Prints tokens as source text.
pub fn print_tokens(v: &Vec<Token>) -> (r: String)
    ensures
        r@ == print_of(tv(v@)),
{
    let mut out = String::new();
    let mut i: usize = 0;
    while i < v.len()
        invariant
            i <= v@.len(),
            out@ == print_of(tv(v@).take(i as int)),
        decreases v@.len() - i,
    {
        let ghost before = tv(v@).take(i as int);
        assert(tv(v@).take(i + 1).drop_last() =~= before);
        if i > 0 {
            out.append(" ");
        } else {
            assert(before =~= seq![]);
        }
        match &v[i] {
            Token::Word(w) => out.append(w.as_str()),
            Token::Str(s) => {
                let l = string_literal(s.as_str());
                out.append(l.as_str());
            },
        }
        i = i + 1;
    }
    assert(tv(v@).take(i as int) =~= tv(v@));
    out
}


/// The characters of `r` before its first dot (all of them if it has none).
pub open spec fn first_piece(r: Seq<char>) -> Seq<char>
    decreases r.len(),
{
    if r.len() == 0 {
        seq![]
    } else if r[0] == '.' {
        seq![]
    } else {
        seq![r[0]] + first_piece(r.drop_first())
    }
}

/// The characters of `r` after its first dot, if it has one.
pub open spec fn after_dot(r: Seq<char>) -> Option<Seq<char>>
    decreases r.len(),
{
    if r.len() == 0 {
        None
    } else if r[0] == '.' {
        Some(r.drop_first())
    } else {
        after_dot(r.drop_first())
    }
}

/// The position of the first dot of `s` at or after `from`, or the length
/// of `s` if there is none.
fn next_dot(s: &str, from: usize) -> (r: usize)
    requires
        from <= s@.len(),
    ensures
        from <= r <= s@.len(),
        forall|k: int| from <= k < r ==> s@[k] != '.',
        r < s@.len() ==> s@[r as int] == '.',
{
    let n = s.unicode_len();
    let mut i = from;
    while i < n
        invariant
            n == s@.len(),
            from <= i <= n,
            forall|k: int| from <= k < i ==> s@[k] != '.',
        decreases n - i,
    {
        if s.get_char(i) == '.' {
            return i;
        }
        i = i + 1;
    }
    i
}

proof fn lemma_pieces(s: Seq<char>, from: int, r: int)
    requires
        0 <= from <= r <= s.len(),
        forall|k: int| from <= k < r ==> s[k] != '.',
        r < s.len() ==> s[r] == '.',
    ensures
        first_piece(s.skip(from)) == s.subrange(from, r),
        after_dot(s.skip(from)) == if r < s.len() { Some(s.skip(r + 1)) } else { None::<Seq<char>> },
    decreases r - from,
{
    let t = s.skip(from);
    if from == r {
        if r < s.len() {
            assert(t[0] == '.');
            assert(t.drop_first() =~= s.skip(r + 1));
        } else {
            assert(t.len() == 0);
        }
        assert(s.subrange(from, r) =~= seq![]);
    } else {
        lemma_pieces(s, from + 1, r);
        assert(t[0] == s[from]);
        assert(t.drop_first() =~= s.skip(from + 1));
        assert(s.subrange(from, r) =~= seq![s[from]] + s.subrange(from + 1, r));
    }
}

/// Splits a type reference at its dots: the first piece, and the second
/// piece if there is a dot (later pieces are ignored).
pub fn split_ref(s: &str) -> (r: (String, Option<String>))
    ensures
        r.0@ == first_piece(s@),
        match after_dot(s@) {
            Some(rest) => r.1 matches Some(b) && b@ == first_piece(rest),
            None => r.1 is None,
        },
{
    let n = s.unicode_len();
    let d = next_dot(s, 0);
    proof {
        lemma_pieces(s@, 0, d as int);
        assert(s@.skip(0) =~= s@);
    }
    let first = String::from_str(s.substring_char(0, d));
    if d < n {
        let e = next_dot(s, d + 1);
        proof {
            lemma_pieces(s@, d + 1, e as int);
        }
        let second = String::from_str(s.substring_char(d + 1, e));
        (first, Some(second))
    } else {
        (first, None)
    }
}

} // verus!
