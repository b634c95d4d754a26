//! Placeholder substitution for translation templates. A template is scanned
//! left to right; each literal `{}` marker is replaced, in order, by the next
//! argument. Extra markers beyond the argument count stay literal, and extra
//! arguments beyond the marker count are ignored. Within each argument the
//! two-character escapes for newline and tab become the control characters
//! themselves before substitution.

use vstd::prelude::*;

verus! {

use crate::text::chars_to_string;
use crate::text::str_to_chars;

/// The argument text with the two-character newline and tab escapes replaced
/// by the control characters themselves.
pub open spec fn unescape(s: Seq<char>) -> Seq<char>
    decreases s.len(),
{
    if s.len() == 0 {
        Seq::empty()
    } else if s.len() >= 2 && s[0] == '\\' && s[1] == 'n' {
        seq!['\n'] + unescape(s.skip(2))
    } else if s.len() >= 2 && s[0] == '\\' && s[1] == 't' {
        seq!['\t'] + unescape(s.skip(2))
    } else {
        seq![s[0]] + unescape(s.skip(1))
    }
}

/// The template with each `{}` marker replaced, in order, by the next
/// argument; markers beyond the argument count stay literal.
pub open spec fn substitute(template: Seq<char>, args: Seq<Seq<char>>) -> Seq<char>
    decreases template.len(),
{
    if template.len() == 0 {
        Seq::empty()
    } else if template.len() >= 2 && template[0] == '{' && template[1] == '}' && args.len() > 0 {
        args[0] + substitute(template.skip(2), args.skip(1))
    } else {
        seq![template[0]] + substitute(template.skip(1), args)
    }
}

/// How many `{}` markers a left-to-right scan of the template finds.
pub open spec fn marker_count(template: Seq<char>) -> nat
    decreases template.len(),
{
    if template.len() < 2 {
        0
    } else if template[0] == '{' && template[1] == '}' {
        1 + marker_count(template.skip(2))
    } else {
        marker_count(template.skip(1))
    }
}

/// The argument sequences after unescaping, in order.
pub open spec fn unescape_all(args: Seq<Seq<char>>) -> Seq<Seq<char>> {
    args.map_values(|a: Seq<char>| unescape(a))
}

/// Replace the newline and tab escapes in one argument.
pub fn unescape_str(s: &str) -> (r: Vec<char>)
    ensures
        r@ == unescape(s@),
{
    let cs = str_to_chars(s);
    let n = cs.len();
    let mut out: Vec<char> = Vec::new();
    let mut i: usize = 0;
    proof {
        assert(s@.skip(0) =~= s@);
        assert(out@ + unescape(s@) =~= unescape(s@));
    }
    while i < n
        invariant
            i <= n,
            n == s@.len(),
            cs@ == s@,
            out@ + unescape(s@.skip(i as int)) == unescape(s@),
        decreases n - i,
    {
        if i + 1 < n && cs[i] == '\\' && cs[i + 1] == 'n' {
            out.push('\n');
            proof {
                assert(s@.skip(i as int).skip(2) =~= s@.skip(i + 2));
            }
            i = i + 2;
        } else if i + 1 < n && cs[i] == '\\' && cs[i + 1] == 't' {
            out.push('\t');
            proof {
                assert(s@.skip(i as int).skip(2) =~= s@.skip(i + 2));
            }
            i = i + 2;
        } else {
            out.push(cs[i]);
            proof {
                assert(s@.skip(i as int).skip(1) =~= s@.skip(i + 1));
            }
            i = i + 1;
        }
    }
    proof {
        assert(s@.skip(n as int) =~= Seq::<char>::empty());
        assert(out@ + Seq::<char>::empty() =~= out@);
    }
    out
}

/// Fill the template's markers, in order, with the unescaped arguments.
pub fn render_template(template: &str, args: &Vec<String>) -> (r: String)
    ensures
        r@ == substitute(template@, unescape_all(args.deep_view())),
{
    let ghost uargs = unescape_all(args.deep_view());
    let tchars = str_to_chars(template);
    let n = tchars.len();
    let m = args.len();
    let mut out: Vec<char> = Vec::new();
    let mut i: usize = 0;
    let mut j: usize = 0;
    proof {
        assert(template@.skip(0) =~= template@);
        assert(uargs.skip(0) =~= uargs);
        assert(out@ + substitute(template@, uargs) =~= substitute(template@, uargs));
    }
    while i < n
        invariant
            i <= n,
            j <= m,
            n == template@.len(),
            m == args@.len(),
            tchars@ == template@,
            uargs == unescape_all(args.deep_view()),
            uargs.len() == m,
            out@ + substitute(template@.skip(i as int), uargs.skip(j as int)) == substitute(
                template@,
                uargs,
            ),
        decreases n - i,
    {
        if i + 1 < n && tchars[i] == '{' && tchars[i + 1] == '}' && j < m {
            let mut ua = unescape_str(args[j].as_str());
            proof {
                assert(ua@ == uargs.skip(j as int)[0]);
            }
            out.append(&mut ua);
            proof {
                assert(template@.skip(i as int).skip(2) =~= template@.skip(i + 2));
                assert(uargs.skip(j as int).skip(1) =~= uargs.skip(j + 1));
            }
            i = i + 2;
            j = j + 1;
        } else {
            out.push(tchars[i]);
            proof {
                assert(template@.skip(i as int).skip(1) =~= template@.skip(i + 1));
            }
            i = i + 1;
        }
    }
    proof {
        assert(template@.skip(n as int) =~= Seq::<char>::empty());
        assert(out@ + Seq::<char>::empty() =~= out@);
    }
    chars_to_string(&out)
}

/// With no arguments at all, substitution leaves the template unchanged:
/// every marker stays literal.
pub proof fn lemma_substitute_no_args(template: Seq<char>)
    ensures
        substitute(template, Seq::empty()) == template,
    decreases template.len(),
{
    if template.len() == 0 {
        assert(substitute(template, Seq::empty()) =~= template);
    } else {
        lemma_substitute_no_args(template.skip(1));
        assert(seq![template[0]] + template.skip(1) =~= template);
    }
}

/// Arguments beyond the marker count are ignored: substitution reads only
/// the first `marker_count(template)` arguments.
pub proof fn lemma_extra_args_ignored(template: Seq<char>, args: Seq<Seq<char>>)
    requires
        args.len() >= marker_count(template),
    ensures
        substitute(template, args.take(marker_count(template) as int)) == substitute(
            template,
            args,
        ),
    decreases template.len(),
{
    if template.len() == 0 {
    } else if template.len() >= 2 && template[0] == '{' && template[1] == '}' {
        if marker_count(template) > 0 {
            lemma_extra_args_ignored(template.skip(2), args.skip(1));
            assert(args.take(marker_count(template) as int).skip(1) =~= args.skip(1).take(
                marker_count(template.skip(2)) as int,
            ));
            assert(args.take(marker_count(template) as int)[0] == args[0]);
            assert(args.take(marker_count(template) as int).len() > 0);
        }
    } else {
        lemma_extra_args_ignored(template.skip(1), args);
        assert(marker_count(template.skip(1)) == marker_count(template));
    }
}

} // verus!
