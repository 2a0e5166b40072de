//! Lines of an environment file, as the command line tool writes them.

use vstd::prelude::*;
use vstd::string::*;

verus! {

/// A value with a line feed, a tab or a carriage return in it cannot stand
/// between single quotes.
pub open spec fn needs_escapes(value: Seq<char>) -> bool {
    value.contains('\n') || value.contains('\t') || value.contains('\r')
}

/// How one character is written between double quotes.
pub open spec fn escape_char(c: char) -> Seq<char> {
    if c == '\n' {
        seq!['\\', 'n']
    } else if c == '\t' {
        seq!['\\', 't']
    } else if c == '\r' {
        seq!['\\', 'r']
    } else {
        seq![c]
    }
}

/// How a value is written between double quotes, character by character.
pub open spec fn escaped(value: Seq<char>) -> Seq<char>
    decreases value.len(),
{
    if value.len() == 0 {
        Seq::empty()
    } else {
        escaped(value.drop_last()) + escape_char(value.last())
    }
}

/// A value as it stands in an environment file: between single quotes as
/// it is, or, where it needs escapes, between double quotes with them.
pub open spec fn shell_quoted(value: Seq<char>) -> Seq<char> {
    if needs_escapes(value) {
        seq!['"'] + escaped(value) + seq!['"']
    } else {
        seq!['\''] + value + seq!['\'']
    }
}

/// A line of an environment file that sets `name` to `value`.
pub open spec fn env_line_text(name: Seq<char>, value: Seq<char>) -> Seq<char> {
    name + seq!['='] + shell_quoted(value) + seq!['\n']
}

/// Whether `value` holds a character that needs an escape.
pub fn has_escapes(value: &str) -> (r: bool)
    ensures
        r == needs_escapes(value@),
{
    let n = value.unicode_len();
    let mut i: usize = 0;
    while i < n
        invariant
            i <= n,
            n == value@.len(),
            forall|j: int| 0 <= j < i ==> value@[j] != '\n' && value@[j] != '\t' && value@[j] != '\r',
        decreases n - i,
    {
        let c = value.get_char(i);
        if c == '\n' || c == '\t' || c == '\r' {
            return true;
        }
        i += 1;
    }
    false
}

/// Quotes `value` for an environment file.
pub fn shell_quote(value: &str) -> (r: String)
    ensures
        r@ == shell_quoted(value@),
{
    proof {
        reveal_strlit("\"");
        reveal_strlit("'");
        reveal_strlit("\\n");
        reveal_strlit("\\t");
        reveal_strlit("\\r");
    }
    if has_escapes(value) {
        let mut r = String::from_str("\"");
        let n = value.unicode_len();
        let mut i: usize = 0;
        while i < n
            invariant
                i <= n,
                n == value@.len(),
                r@ == seq!['"'] + escaped(value@.take(i as int)),
                "\\n"@ == seq!['\\', 'n'],
                "\\t"@ == seq!['\\', 't'],
                "\\r"@ == seq!['\\', 'r'],
            decreases n - i,
        {
            let c = value.get_char(i);
            assert(value@.take(i as int + 1).drop_last() =~= value@.take(i as int));
            assert(value@.take(i as int + 1).last() == c);
            if c == '\n' {
                r.append("\\n");
            } else if c == '\t' {
                r.append("\\t");
            } else if c == '\r' {
                r.append("\\r");
            } else {
                let one = value.substring_char(i, i + 1);
                assert(one@ =~= seq![c]);
                r.append(one);
            }
            assert(r@ =~= seq!['"'] + escaped(value@.take(i as int + 1)));
            i += 1;
        }
        assert(value@.take(n as int) =~= value@);
        r.append("\"");
        r
    } else {
        let mut r = String::from_str("'");
        r.append(value);
        r.append("'");
        r
    }
}

/// The line of an environment file that sets `name` to `value`.
pub fn env_line(name: &str, value: &str) -> (r: String)
    ensures
        r@ == env_line_text(name@, value@),
{
    proof {
        reveal_strlit("=");
        reveal_strlit("\n");
    }
    let mut line = String::new();
    line.append(name);
    line.append("=");
    let quoted = shell_quote(value);
    line.append(quoted.as_str());
    line.append("\n");
    assert(line@ =~= env_line_text(name@, value@));
    line
}

} // verus!
