use vstd::prelude::*;

verus! {

/// Compares two texts. Once the lengths agree, every character is looked at
/// whatever the earlier ones held, so the time taken does not tell where the
/// first difference lies.
pub fn same_text(a: &str, b: &str) -> (r: bool)
    ensures
        r == (a@ == b@),
{
    let n = a.unicode_len();
    if n != b.unicode_len() {
        return false;
    }
    let mut differs = false;
    let mut i: usize = 0;
    while i < n
        invariant
            n == a@.len(),
            n == b@.len(),
            i <= n,
            differs == exists|j: int| 0 <= j < i && a@[j] != b@[j],
        decreases n - i,
    {
        let ca = a.get_char(i);
        let cb = b.get_char(i);
        let mismatch = ca != cb;
        differs = differs || mismatch;
        i = i + 1;
    }
    if differs {
        assert(a@ != b@);
    } else {
        assert(a@ =~= b@);
    }
    !differs
}

} // verus!

verus! {

/// What one character becomes on a page: the five characters that markup
/// gives a meaning to are written as entities, the rest stand as they are.
pub open spec fn escape_char(c: char) -> Seq<char> {
    if c == '&' {
        "&amp;"@
    } else if c == '<' {
        "&lt;"@
    } else if c == '>' {
        "&gt;"@
    } else if c == '"' {
        "&quot;"@
    } else if c == '\'' {
        "&#39;"@
    } else {
        seq![c]
    }
}

/// A text made safe to embed in a page, character by character.
pub open spec fn escaped(s: Seq<char>) -> Seq<char>
    decreases s.len(),
{
    if s.len() == 0 {
        Seq::empty()
    } else {
        escaped(s.drop_last()) + escape_char(s.last())
    }
}

/// Relies on String::push: the character is added at the end.
#[verifier::external_body]
fn push_char(s: &mut String, c: char)
    ensures
        final(s)@ == old(s)@.push(c),
{
    s.push(c)
}

/// Appends `t`, escaped for markup, to `out`.
pub fn append_escaped(out: &mut String, t: &str)
    ensures
        final(out)@ == old(out)@ + escaped(t@),
{
    let n = t.unicode_len();
    let mut i: usize = 0;
    while i < n
        invariant
            n == t@.len(),
            i <= n,
            out@ == old(out)@ + escaped(t@.subrange(0, i as int)),
        decreases n - i,
    {
        let c = t.get_char(i);
        let ghost before = out@;
        if c == '&' {
            out.append("&amp;");
        } else if c == '<' {
            out.append("&lt;");
        } else if c == '>' {
            out.append("&gt;");
        } else if c == '"' {
            out.append("&quot;");
        } else if c == '\'' {
            out.append("&#39;");
        } else {
            push_char(out, c);
        }
        proof {
            let p = t@.subrange(0, i as int + 1);
            assert(p.drop_last() =~= t@.subrange(0, i as int));
            assert(p.last() == c);
            assert(out@ =~= before + escape_char(c));
        }
        i = i + 1;
    }
    assert(t@.subrange(0, n as int) =~= t@);
}

} // verus!
