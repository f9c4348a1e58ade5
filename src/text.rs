//! Text building blocks: decimal rendering, joining lines and quoting a
//! value as a single POSIX shell word.

use vstd::prelude::*;

verus! {

/// Relies on `String::push`: the character is appended at the end.
#[verifier::external_body]
pub(crate) fn push_char(s: &mut String, c: char)
    ensures
        final(s)@ == old(s)@.push(c),
{
    s.push(c);
}

/// Appends every character of `t`, in order.
pub fn push_str(s: &mut String, t: &str)
    ensures
        final(s)@ == old(s)@ + t@,
{
    let ghost start = s@;
    for c in it: t.chars()
        invariant
            it.seq() == t@,
            s@ == start + t@.take(it.index() as int),
    {
        assert(t@.take(it.index() as int + 1) == t@.take(it.index() as int).push(c));
        push_char(s, c);
    }
    assert(t@.take(t@.len() as int) == t@);
}


/// The character of a decimal digit.
pub open spec fn digit_char(d: nat) -> char
    recommends
        d < 10,
{
    ((d + 48) as u8) as char
}

/// The decimal digits of `n`, most significant first, without leading zeros.
pub open spec fn decimal(n: nat) -> Seq<char>
    decreases n,
{
    if n < 10 {
        seq![digit_char(n)]
    } else {
        decimal(n / 10).push(digit_char(n % 10))
    }
}

/// Appends the decimal digits of `n`.
pub fn push_decimal(s: &mut String, n: u128)
    ensures
        final(s)@ == old(s)@ + decimal(n as nat),
    decreases n,
{
    if n >= 10 {
        push_decimal(s, n / 10);
    }
    let d: u8 = (n % 10) as u8;
    push_char(s, (d + 48) as char);
    assert(s@ =~= old(s)@ + decimal(n as nat));
}

/// The lines joined by a newline character between each two of them.
pub open spec fn join_lines(lines: Seq<Seq<char>>) -> Seq<char>
    decreases lines.len(),
{
    if lines.len() == 0 {
        seq![]
    } else if lines.len() == 1 {
        lines[0]
    } else {
        join_lines(lines.drop_last()) + seq!['\n'] + lines.last()
    }
}

/// What a single quote of the value becomes inside a single-quoted word:
/// close the quote, write an escaped quote, open the quote again.
pub open spec fn escaped_char(c: char) -> Seq<char> {
    if c == '\'' {
        seq!['\'', '\\', '\'', '\'']
    } else {
        seq![c]
    }
}

pub open spec fn escape_quotes(s: Seq<char>) -> Seq<char>
    decreases s.len(),
{
    if s.len() == 0 {
        seq![]
    } else {
        escape_quotes(s.drop_last()) + escaped_char(s.last())
    }
}

/// The value written as one single-quoted shell word.
pub open spec fn shell_quoted(s: Seq<char>) -> Seq<char> {
    seq!['\''] + escape_quotes(s) + seq!['\'']
}

/// How a POSIX shell reads a word made only of single-quoted runs and
/// backslash-escaped characters, outside a quote. `None` where the word holds
/// anything else: an unquoted character, a lone backslash or a quote left open.
pub open spec fn shell_word_value(w: Seq<char>) -> Option<Seq<char>>
    decreases w.len(),
{
    if w.len() == 0 {
        Some(seq![])
    } else if w[0] == '\'' {
        quoted_run_value(w.drop_first())
    } else if w[0] == '\\' && w.len() >= 2 {
        match shell_word_value(w.subrange(2, w.len() as int)) {
            Some(r) => Some(seq![w[1]] + r),
            None => None,
        }
    } else {
        None
    }
}

/// The same reading, from a point inside a single-quoted run: every
/// character stands for itself up to the closing quote.
pub open spec fn quoted_run_value(w: Seq<char>) -> Option<Seq<char>>
    decreases w.len(),
{
    if w.len() == 0 {
        None
    } else if w[0] == '\'' {
        shell_word_value(w.drop_first())
    } else {
        match quoted_run_value(w.drop_first()) {
            Some(r) => Some(seq![w[0]] + r),
            None => None,
        }
    }
}

pub open spec fn prefixed(p: Seq<char>, o: Option<Seq<char>>) -> Option<Seq<char>> {
    match o {
        Some(r) => Some(p + r),
        None => None,
    }
}

proof fn lemma_quoted_run_of_escaped(s: Seq<char>, rest: Seq<char>)
    ensures
        quoted_run_value(escape_quotes(s) + rest) == prefixed(s, quoted_run_value(rest)),
    decreases s.len(),
{
    if s.len() == 0 {
        assert(escape_quotes(s) + rest =~= rest);
        assert(s + seq![] =~= s);
        match quoted_run_value(rest) {
            Some(r) => assert(s + r =~= r),
            None => {},
        }
    } else {
        let init = s.drop_last();
        let c = s.last();
        let tail = escaped_char(c) + rest;
        lemma_quoted_run_of_escaped(init, tail);
        assert(escape_quotes(s) + rest =~= escape_quotes(init) + tail);
        if c == '\'' {
            assert(tail[0] == '\'');
            let w1 = tail.drop_first();
            assert(w1 =~= seq!['\\', '\'', '\''] + rest);
            assert(w1[0] == '\\' && w1[1] == '\'');
            let w2 = w1.subrange(2, w1.len() as int);
            assert(w2 =~= seq!['\''] + rest);
            assert(w2[0] == '\'');
            assert(w2.drop_first() =~= rest);
            assert(shell_word_value(w2) == quoted_run_value(rest));
            assert(shell_word_value(w1) == prefixed(seq!['\''], quoted_run_value(rest)));
        } else {
            assert(tail[0] == c);
            assert(tail.drop_first() =~= rest);
        }
        assert(quoted_run_value(tail) == prefixed(seq![c], quoted_run_value(rest)));
        match quoted_run_value(rest) {
            Some(r) => assert(init + (seq![c] + r) =~= s + r),
            None => {},
        }
    }
}

/// A value quoted by `shell_quoted` reads back, in the shell, as exactly the
/// value: no quote in it ends the word early, and nothing in it is run.
pub proof fn lemma_shell_quoted_reads_back(s: Seq<char>)
    ensures
        shell_word_value(shell_quoted(s)) == Some(s),
{
    let w = shell_quoted(s);
    assert(w[0] == '\'');
    assert(w.drop_first() =~= escape_quotes(s) + seq!['\'']);
    assert(seq!['\''][0] == '\'');
    lemma_quoted_run_of_escaped(s, seq!['\'']);
    assert(seq!['\''].drop_first() =~= Seq::<char>::empty());
    assert(shell_word_value(Seq::<char>::empty()) == Some(Seq::<char>::empty()));
    assert(quoted_run_value(seq!['\'']) == Some(Seq::<char>::empty()));
    assert(s + Seq::<char>::empty() =~= s);
}

/// Writes `s` as one single-quoted shell word, each single quote in it
/// written as `'\''`.
pub fn shell_quote(s: &str) -> (r: String)
    ensures
        r@ == shell_quoted(s@),
{
    let mut r = String::new();
    push_char(&mut r, '\'');
    for c in it: s.chars()
        invariant
            it.seq() == s@,
            r@ == seq!['\''] + escape_quotes(s@.take(it.index() as int)),
    {
        let ghost i = it.index() as int;
        assert(s@.take(i + 1).drop_last() =~= s@.take(i));
        if c == '\'' {
            push_char(&mut r, '\'');
            push_char(&mut r, '\\');
            push_char(&mut r, '\'');
            push_char(&mut r, '\'');
        } else {
            push_char(&mut r, c);
        }
        assert(r@ =~= seq!['\''] + escape_quotes(s@.take(i + 1)));
    }
    assert(s@.take(s@.len() as int) =~= s@);
    push_char(&mut r, '\'');
    assert(r@ =~= shell_quoted(s@));
    r
}

} // verus!
