//! Text that goes into HTML: escaping of user text, decimal numbers, and the
//! document type line.
use vstd::prelude::*;

verus! {

/// What one character of text becomes inside markup: the four characters
/// that HTML gives a meaning to become entities, every other character
/// stands for itself.
pub open spec fn escape_char(c: char) -> Seq<char> {
    if c == '&' {
        "&amp;"@
    } else if c == '<' {
        "&lt;"@
    } else if c == '>' {
        "&gt;"@
    } else if c == '"' {
        "&quot;"@
    } else {
        seq![c]
    }
}

/// Text as it stands inside markup: each character escaped in turn.
pub open spec fn escape(s: Seq<char>) -> Seq<char>
    decreases s.len(),
{
    if s.len() == 0 {
        Seq::empty()
    } else {
        escape_char(s[0]) + escape(s.drop_first())
    }
}

/// What a browser reads back from escaped text: the four entities stand
/// for their characters, every other character for itself.
pub open spec fn unescape(s: Seq<char>) -> Seq<char>
    decreases s.len(),
{
    if s.len() == 0 {
        Seq::empty()
    } else if s.len() >= 5 && s.subrange(0, 5) == "&amp;"@ {
        seq!['&'] + unescape(s.subrange(5, s.len() as int))
    } else if s.len() >= 4 && s.subrange(0, 4) == "&lt;"@ {
        seq!['<'] + unescape(s.subrange(4, s.len() as int))
    } else if s.len() >= 4 && s.subrange(0, 4) == "&gt;"@ {
        seq!['>'] + unescape(s.subrange(4, s.len() as int))
    } else if s.len() >= 6 && s.subrange(0, 6) == "&quot;"@ {
        seq!['"'] + unescape(s.subrange(6, s.len() as int))
    } else {
        seq![s[0]] + unescape(s.drop_first())
    }
}

/// A character that cannot open a tag, close one, or end an attribute value.
pub open spec fn is_inert(c: char) -> bool {
    c != '<' && c != '>' && c != '"'
}

/// Every character of `s` is inert.
pub open spec fn all_inert(s: Seq<char>) -> bool {
    forall|i: int| 0 <= i < s.len() ==> is_inert(#[trigger] s[i])
}

/// Escapes text for use in HTML content or a quoted attribute value.
///
/// Calls maud's `Render` impl for `str`, whose source (`escape_to_string`)
/// replaces `&`, `<`, `>` and `"` by `&amp;`, `&lt;`, `&gt;` and `&quot;`
/// and copies every other byte; since those four are ASCII, the effect on
/// characters is `escape`. The contract claims exactly that.
#[verifier::external_body]
pub fn escape_text(s: &str) -> (r: String)
    ensures
        r@ == escape(s@),
{
    maud::Render::render(s).into_string()
}

/// The document type line `<!DOCTYPE html>`.
///
/// Reads maud's constant `DOCTYPE`, which its source defines as
/// `PreEscaped("<!DOCTYPE html>")`; the contract claims that text.
#[verifier::external_body]
pub fn doctype() -> (r: String)
    ensures
        r@ == "<!DOCTYPE html>"@,
{
    maud::DOCTYPE.into_string()
}

/// The text of one decimal digit.
pub open spec fn digit_text(d: int) -> Seq<char> {
    if d == 0 {
        "0"@
    } else if d == 1 {
        "1"@
    } else if d == 2 {
        "2"@
    } else if d == 3 {
        "3"@
    } else if d == 4 {
        "4"@
    } else if d == 5 {
        "5"@
    } else if d == 6 {
        "6"@
    } else if d == 7 {
        "7"@
    } else if d == 8 {
        "8"@
    } else {
        "9"@
    }
}

/// The decimal text of a natural number, without leading zeros.
pub open spec fn nat_text(n: nat) -> Seq<char>
    decreases n,
{
    if n < 10 {
        digit_text(n as int)
    } else {
        nat_text(n / 10) + digit_text((n % 10) as int)
    }
}

/// The decimal text of an integer, as `{}` formats it: a minus sign before
/// negative numbers.
pub open spec fn int_text(x: int) -> Seq<char> {
    if x < 0 {
        "-"@ + nat_text((-x) as nat)
    } else {
        nat_text(x as nat)
    }
}

/// Appends the text of one digit.
fn push_digit(s: &mut String, d: u64)
    requires
        d < 10,
    ensures
        final(s)@ == old(s)@ + digit_text(d as int),
{
    if d == 0 {
        s.append("0");
    } else if d == 1 {
        s.append("1");
    } else if d == 2 {
        s.append("2");
    } else if d == 3 {
        s.append("3");
    } else if d == 4 {
        s.append("4");
    } else if d == 5 {
        s.append("5");
    } else if d == 6 {
        s.append("6");
    } else if d == 7 {
        s.append("7");
    } else if d == 8 {
        s.append("8");
    } else {
        s.append("9");
    }
}

/// Appends the decimal text of an unsigned number.
fn push_nat(s: &mut String, n: u64)
    ensures
        final(s)@ == old(s)@ + nat_text(n as nat),
    decreases n,
{
    if n < 10 {
        push_digit(s, n);
    } else {
        push_nat(s, n / 10);
        push_digit(s, n % 10);
        assert(final(s)@ =~= old(s)@ + nat_text(n as nat));
    }
}

/// Appends the decimal text of a signed number, as `{}` formats it.
pub fn push_int(s: &mut String, x: i64)
    ensures
        final(s)@ == old(s)@ + int_text(x as int),
{
    if x < 0 {
        s.append("-");
        let m: u64 = ((-(x + 1)) as u64) + 1;
        assert(m as int == -(x as int));
        push_nat(s, m);
        assert(final(s)@ =~= old(s)@ + int_text(x as int));
    } else {
        push_nat(s, x as u64);
    }
}

/// The decimal text of a signed number, as `{}` formats it.
pub fn int_string(x: i64) -> (r: String)
    ensures
        r@ == int_text(x as int),
{
    let mut s = String::new();
    push_int(&mut s, x);
    assert(s@ =~= int_text(x as int));
    s
}

/// Appends escaped text.
pub fn push_escaped(s: &mut String, text: &str)
    ensures
        final(s)@ == old(s)@ + escape(text@),
{
    let e = escape_text(text);
    s.append(e.as_str());
}

// ---------------------------------------------------------------------------
// Properties of escaping
// ---------------------------------------------------------------------------

/// The escaped form of one character contains no character that could
/// open or close a tag or end an attribute value.
proof fn lemma_escape_char_inert(c: char)
    ensures
        all_inert(escape_char(c)),
{
    reveal_strlit("&amp;");
    reveal_strlit("&lt;");
    reveal_strlit("&gt;");
    reveal_strlit("&quot;");
}

/// Escaped user text cannot inject markup: whatever a user types, the
/// escaped text holds no `<`, `>` or `"`.
pub proof fn lemma_escape_inert(s: Seq<char>)
    ensures
        all_inert(escape(s)),
    decreases s.len(),
{
    if s.len() > 0 {
        lemma_escape_inert(s.drop_first());
        lemma_escape_char_inert(s[0]);
        let a = escape_char(s[0]);
        let b = escape(s.drop_first());
        assert forall|i: int| 0 <= i < (a + b).len() implies is_inert(#[trigger] (a + b)[i]) by {
            if i < a.len() {
                assert((a + b)[i] == a[i]);
            } else {
                assert((a + b)[i] == b[i - a.len()]);
            }
        }
    }
}

/// Text without any of `&`, `<`, `>`, `"` is left as it is by escaping.
pub proof fn lemma_escape_plain(s: Seq<char>)
    requires
        forall|i: int|
            0 <= i < s.len() ==> #[trigger] s[i] != '&' && s[i] != '<' && s[i] != '>' && s[i]
                != '"',
    ensures
        escape(s) == s,
    decreases s.len(),
{
    if s.len() > 0 {
        assert forall|i: int| 0 <= i < s.drop_first().len() implies #[trigger] s.drop_first()[i]
            != '&' && s.drop_first()[i] != '<' && s.drop_first()[i] != '>' && s.drop_first()[i]
            != '"' by {
            assert(s.drop_first()[i] == s[i + 1]);
        }
        lemma_escape_plain(s.drop_first());
        assert(escape(s) =~= seq![s[0]] + s.drop_first());
        assert(s =~= seq![s[0]] + s.drop_first());
    }
}

/// One escaped character followed by more text reads back as that
/// character followed by what the rest reads back as.
proof fn lemma_unescape_step(c: char, rest: Seq<char>)
    ensures
        unescape(escape_char(c) + rest) == seq![c] + unescape(rest),
{
    reveal_strlit("&amp;");
    reveal_strlit("&lt;");
    reveal_strlit("&gt;");
    reveal_strlit("&quot;");
    let t = escape_char(c) + rest;
    if c == '&' {
        assert(t.subrange(0, 5) =~= "&amp;"@);
        assert(t.subrange(5, t.len() as int) =~= rest);
    } else if c == '<' {
        assert(!(t.len() >= 5 && t.subrange(0, 5) == "&amp;"@)) by {
            if t.len() >= 5 {
                assert(t.subrange(0, 5)[1] == 'l');
            }
        }
        assert(t.subrange(0, 4) =~= "&lt;"@);
        assert(t.subrange(4, t.len() as int) =~= rest);
    } else if c == '>' {
        assert(!(t.len() >= 5 && t.subrange(0, 5) == "&amp;"@)) by {
            if t.len() >= 5 {
                assert(t.subrange(0, 5)[1] == 'g');
            }
        }
        assert(!(t.subrange(0, 4) == "&lt;"@)) by {
            assert(t.subrange(0, 4)[1] == 'g');
        }
        assert(t.subrange(0, 4) =~= "&gt;"@);
        assert(t.subrange(4, t.len() as int) =~= rest);
    } else if c == '"' {
        assert(!(t.len() >= 5 && t.subrange(0, 5) == "&amp;"@)) by {
            assert(t.subrange(0, 5)[1] == 'q');
        }
        assert(!(t.subrange(0, 4) == "&lt;"@)) by {
            assert(t.subrange(0, 4)[1] == 'q');
        }
        assert(!(t.subrange(0, 4) == "&gt;"@)) by {
            assert(t.subrange(0, 4)[1] == 'q');
        }
        assert(t.subrange(0, 6) =~= "&quot;"@);
        assert(t.subrange(6, t.len() as int) =~= rest);
    } else {
        assert(t[0] == c);
        assert(!(t.len() >= 5 && t.subrange(0, 5) == "&amp;"@)) by {
            if t.len() >= 5 {
                assert(t.subrange(0, 5)[0] == c);
            }
        }
        assert(!(t.len() >= 4 && t.subrange(0, 4) == "&lt;"@)) by {
            if t.len() >= 4 {
                assert(t.subrange(0, 4)[0] == c);
            }
        }
        assert(!(t.len() >= 4 && t.subrange(0, 4) == "&gt;"@)) by {
            if t.len() >= 4 {
                assert(t.subrange(0, 4)[0] == c);
            }
        }
        assert(!(t.len() >= 6 && t.subrange(0, 6) == "&quot;"@)) by {
            if t.len() >= 6 {
                assert(t.subrange(0, 6)[0] == c);
            }
        }
        assert(t.drop_first() =~= rest);
    }
}

/// What users post is shown as they posted it: a browser that reads the
/// escaped text back gets exactly the text that was posted.
pub proof fn lemma_unescape_escape(s: Seq<char>)
    ensures
        unescape(escape(s)) == s,
    decreases s.len(),
{
    if s.len() == 0 {
        assert(escape(s) =~= Seq::<char>::empty());
    } else {
        lemma_unescape_escape(s.drop_first());
        lemma_unescape_step(s[0], escape(s.drop_first()));
        assert(s =~= seq![s[0]] + s.drop_first());
    }
}

/// Escaping loses nothing: two texts with the same escaped form are equal.
pub proof fn lemma_escape_injective(a: Seq<char>, b: Seq<char>)
    requires
        escape(a) == escape(b),
    ensures
        a == b,
{
    lemma_unescape_escape(a);
    lemma_unescape_escape(b);
}

} // verus!
