//! Dotted keys that identify a localized string: a non-empty sequence of
//! non-empty path components, obtained by splitting the written form on `.`.

use vstd::prelude::*;

verus! {

use vstd::string::StrSliceExecFns;

/// An error from parsing a translation key out of its written form.
#[derive(Debug, Clone)]
pub struct TranslationKeyParseError {
    input_string: String,
}

impl TranslationKeyParseError {
    /// The written form that could not be parsed.
    pub closed spec fn spec_input(&self) -> Seq<char> {
        self.input_string@
    }

    pub fn new(input_string: String) -> (r: Self)
        ensures
            r.spec_input() == input_string@,
    {
        TranslationKeyParseError { input_string }
    }

    /// The written form that could not be parsed.
    pub fn input(&self) -> (r: &str)
        ensures
            r@ == self.spec_input(),
    {
        self.input_string.as_str()
    }
}

/// A string of this shape has no valid key decomposition: splitting it on
/// `.` yields at least one empty component.
pub open spec fn has_empty_component(s: Seq<char>) -> bool {
    ||| s.len() == 0
    ||| s[0] == '.'
    ||| s[s.len() - 1] == '.'
    ||| exists|i: int| 0 <= i < s.len() - 1 && #[trigger] s[i] == '.' && s[i + 1] == '.'
}

/// The written form of a key: its components joined by `.`.
pub open spec fn join_dots(cs: Seq<Seq<char>>) -> Seq<char>
    decreases cs.len(),
{
    if cs.len() == 0 {
        Seq::empty()
    } else if cs.len() == 1 {
        cs[0]
    } else {
        cs[0] + seq!['.'] + join_dots(cs.skip(1))
    }
}

/// Every component is non-empty and free of dots.
pub open spec fn components_well_formed(cs: Seq<Seq<char>>) -> bool {
    forall|j: int|
        0 <= j < cs.len() ==> cs[j].len() > 0 && (forall|k: int|
            0 <= k < cs[j].len() ==> cs[j][k] != '.')
}

/// A key used for a translation: an ordered sequence of path components.
#[derive(Debug, Clone)]
pub struct TranslationKey {
    components: Vec<String>,
}

impl View for TranslationKey {
    type V = Seq<Seq<char>>;

    closed spec fn view(&self) -> Seq<Seq<char>> {
        self.components.deep_view()
    }
}

impl TranslationKey {
    /// A key with no components yet.
    pub fn new() -> (r: Self)
        ensures
            r@ == Seq::<Seq<char>>::empty(),
    {
        TranslationKey { components: Vec::new() }
    }

    /// Append one path component.
    pub fn add_component(&mut self, component: &str)
        ensures
            final(self)@ == old(self)@.push(component@),
    {
        self.components.push(component.to_owned());
        proof {
            assert(self.components.deep_view() =~= old(self).components.deep_view().push(
                component@,
            ));
        }
    }

    /// The components, in order.
    pub fn as_slice(&self) -> (r: &[String])
        ensures
            r.deep_view() == self@,
    {
        self.components.as_slice()
    }

    /// How many components the key has.
    pub fn len(&self) -> (r: usize)
        ensures
            r == self@.len(),
    {
        self.components.len()
    }

    /// The written form of the key: its components joined by `.`.
    pub fn as_string(&self) -> (r: String)
        ensures
            r@ == join_dots(self@),
    {
        let mut out: Vec<char> = Vec::new();
        let n = self.components.len();
        let mut j: usize = 0;
        while j < n
            invariant
                j <= n,
                n == self.components@.len(),
                self@ == self.components.deep_view(),
                out@ == join_dots(self@.take(j as int)) + (if 0 < j && j < n {
                    seq!['.']
                } else {
                    Seq::<char>::empty()
                }),
            decreases n - j,
        {
            crate::text::push_str_chars(&mut out, self.components[j].as_str());
            proof {
                lemma_join_dots_take_step(self@, j as int);
                assert(self@[j as int] == self.components@[j as int]@);
                assert(out@ =~= join_dots(self@.take(j + 1)));
            }
            if j + 1 < n {
                out.push('.');
            }
            j = j + 1;
        }
        proof {
            assert(self@.take(n as int) =~= self@);
            assert(out@ =~= join_dots(self@));
        }
        crate::text::chars_to_string(&out)
    }
}

impl TranslationKey {
    /// Parse a key from its written form by splitting on `.`; fails exactly
    /// when some component would be empty (this covers the empty string and
    /// leading, trailing and doubled dots).
    pub fn from_str(s: &str) -> (r: Result<TranslationKey, TranslationKeyParseError>)
        ensures
            r is Err <==> has_empty_component(s@),
            r matches Err(e) ==> e.spec_input() == s@,
            r matches Ok(k) ==> k@.len() > 0 && components_well_formed(k@) && join_dots(k@)
                == s@,
    {
        let len = s.unicode_len();
        let mut components: Vec<String> = Vec::new();
        let mut start: usize = 0;
        let mut i: usize = 0;
        while i < len
            invariant
                start <= i <= len,
                len == s@.len(),
                forall|k: int| start <= k < i ==> s@[k] != '.',
                start == 0 || s@[start - 1] == '.',
                i > 0 ==> s@[0] != '.',
                forall|k: int| 0 <= k < i - 1 ==> !(#[trigger] s@[k] == '.' && s@[k + 1] == '.'),
                components_well_formed(components.deep_view()),
                join_dots(components.deep_view().push(s@.skip(start as int))) == s@,
            decreases len - i,
        {
            let c = s.get_char(i);
            if c == '.' {
                if start == i {
                    return Err(TranslationKeyParseError::new(s.to_owned()));
                }
                let ghost comps0 = components.deep_view();
                let component = s.substring_char(start, i).to_owned();
                components.push(component);
                proof {
                    assert(components.deep_view() =~= comps0.push(
                        s@.subrange(start as int, i as int),
                    ));
                    assert(s@.skip(start as int) =~= s@.subrange(start as int, i as int)
                        + seq!['.'] + s@.skip(i + 1));
                    lemma_join_dots_push_split(
                        comps0,
                        s@.subrange(start as int, i as int),
                        s@.skip(i + 1),
                    );
                }
                start = i + 1;
            }
            i = i + 1;
        }
        if start == len {
            return Err(TranslationKeyParseError::new(s.to_owned()));
        }
        let ghost comps0 = components.deep_view();
        let component = s.substring_char(start, len).to_owned();
        components.push(component);
        proof {
            assert(components.deep_view() =~= comps0.push(s@.subrange(start as int, len as int)));
            assert(s@.skip(start as int) =~= s@.subrange(start as int, len as int));
            assert(!has_empty_component(s@));
        }
        Ok(TranslationKey { components })
    }
}

/// A well-formed key's written form determines its components: two non-empty
/// sequences of non-empty, dot-free components that join to the same string
/// are equal. So a contract that fixes the written form of a key fixes the
/// key itself.
pub proof fn lemma_join_dots_injective(p1: Seq<Seq<char>>, p2: Seq<Seq<char>>)
    requires
        components_well_formed(p1),
        components_well_formed(p2),
        p1.len() > 0,
        p2.len() > 0,
        join_dots(p1) == join_dots(p2),
    ensures
        p1 == p2,
    decreases p1.len(),
{
    if p1.len() == 1 && p2.len() == 1 {
        assert(join_dots(p1) == p1[0]);
        assert(join_dots(p2) == p2[0]);
        assert(p1 =~= p2);
    } else if p1.len() == 1 {
        assert(join_dots(p2) == p2[0] + seq!['.'] + join_dots(p2.skip(1)));
        let d = p2[0].len() as int;
        assert(join_dots(p2)[d] == '.');
        assert(join_dots(p1) == p1[0]);
        assert(p1[0][d] == '.');
        assert(false);
    } else if p2.len() == 1 {
        assert(join_dots(p1) == p1[0] + seq!['.'] + join_dots(p1.skip(1)));
        let d = p1[0].len() as int;
        assert(join_dots(p1)[d] == '.');
        assert(join_dots(p2) == p2[0]);
        assert(p2[0][d] == '.');
        assert(false);
    } else {
        let a = p1[0];
        let b = p2[0];
        assert(join_dots(p1) == a + seq!['.'] + join_dots(p1.skip(1)));
        assert(join_dots(p2) == b + seq!['.'] + join_dots(p2.skip(1)));
        if a.len() < b.len() {
            assert(join_dots(p1)[a.len() as int] == '.');
            assert(join_dots(p2)[a.len() as int] == b[a.len() as int]);
            assert(b[a.len() as int] != '.');
            assert(false);
        } else if b.len() < a.len() {
            assert(join_dots(p2)[b.len() as int] == '.');
            assert(join_dots(p1)[b.len() as int] == a[b.len() as int]);
            assert(a[b.len() as int] != '.');
            assert(false);
        } else {
            assert(a =~= join_dots(p1).subrange(0, a.len() as int));
            assert(b =~= join_dots(p2).subrange(0, b.len() as int));
            assert(a == b);
            assert(join_dots(p1.skip(1)) =~= join_dots(p2.skip(1))) by {
                let n = a.len() as int;
                assert(join_dots(p1).len() == n + 1 + join_dots(p1.skip(1)).len());
                assert(join_dots(p2).len() == n + 1 + join_dots(p2.skip(1)).len());
                assert(join_dots(p1.skip(1)) =~= join_dots(p1).subrange(
                    n + 1,
                    join_dots(p1).len() as int,
                ));
                assert(join_dots(p2.skip(1)) =~= join_dots(p2).subrange(
                    n + 1,
                    join_dots(p2).len() as int,
                ));
            }
            assert(components_well_formed(p1.skip(1))) by {
                assert(forall|j: int| 0 <= j < p1.skip(1).len() ==> #[trigger] p1.skip(1)[j]
                    == p1[j + 1]);
            }
            assert(components_well_formed(p2.skip(1))) by {
                assert(forall|j: int| 0 <= j < p2.skip(1).len() ==> #[trigger] p2.skip(1)[j]
                    == p2[j + 1]);
            }
            lemma_join_dots_injective(p1.skip(1), p2.skip(1));
            assert(p1.len() == p2.len());
            assert forall|j: int| 0 <= j < p1.len() implies p1[j] == p2[j] by {
                if j == 0 {
                    assert(p1[0] == p2[0]);
                } else {
                    assert(p1.skip(1)[j - 1] == p1[j]);
                    assert(p2.skip(1)[j - 1] == p2[j]);
                }
            }
            assert(p1 =~= p2);
        }
    }
}

/// Joining a component sequence whose last component splits at a dot is the
/// same as joining with the two halves as separate components.
proof fn lemma_join_dots_push_split(cs: Seq<Seq<char>>, a: Seq<char>, b: Seq<char>)
    ensures
        join_dots(cs.push(a + seq!['.'] + b)) == join_dots(cs.push(a).push(b)),
    decreases cs.len(),
{
    if cs.len() == 0 {
        assert(cs.push(a + seq!['.'] + b) =~= seq![a + seq!['.'] + b]);
        assert(cs.push(a).push(b) =~= seq![a, b]);
        assert(join_dots(seq![a, b]) == a + seq!['.'] + join_dots(seq![a, b].skip(1)));
        assert(seq![a, b].skip(1) =~= seq![b]);
        assert(join_dots(seq![a + seq!['.'] + b]) == a + seq!['.'] + b);
    } else {
        lemma_join_dots_push_split(cs.skip(1), a, b);
        assert(cs.push(a + seq!['.'] + b).skip(1) =~= cs.skip(1).push(a + seq!['.'] + b));
        assert(cs.push(a).push(b).skip(1) =~= cs.skip(1).push(a).push(b));
        assert(cs.push(a + seq!['.'] + b)[0] == cs[0]);
        assert(cs.push(a).push(b)[0] == cs[0]);
        assert(cs.push(a + seq!['.'] + b).len() >= 2);
        assert(cs.push(a).push(b).len() >= 2);
    }
}

/// Joining one more component appends a separator (when something precedes
/// it) and the component itself.
proof fn lemma_join_dots_take_step(cs: Seq<Seq<char>>, j: int)
    requires
        0 <= j < cs.len(),
    ensures
        join_dots(cs.take(j + 1)) == join_dots(cs.take(j)) + (if j > 0 {
            seq!['.']
        } else {
            Seq::<char>::empty()
        }) + cs[j],
    decreases j,
{
    if j == 0 {
        assert(cs.take(1) =~= seq![cs[0]]);
        assert(join_dots(seq![cs[0]]) == cs[0]);
        assert(join_dots(cs.take(0)) =~= Seq::<char>::empty());
        assert(join_dots(cs.take(0)) + Seq::<char>::empty() + cs[0] =~= cs[0]);
    } else {
        lemma_join_dots_take_step(cs.skip(1), j - 1);
        assert(cs.take(j + 1).skip(1) =~= cs.skip(1).take(j));
        assert(cs.take(j).skip(1) =~= cs.skip(1).take(j - 1));
        assert(cs.take(j + 1)[0] == cs[0]);
        assert(cs.take(j)[0] == cs[0]);
        assert(join_dots(cs.take(j + 1)) == cs[0] + seq!['.'] + join_dots(cs.skip(1).take(j)));
        if j - 1 > 0 {
            assert(join_dots(cs.skip(1).take(j)) == join_dots(cs.skip(1).take(j - 1)) + seq!['.']
                + cs.skip(1)[j - 1]);
            assert(cs.skip(1)[j - 1] == cs[j]);
            assert(join_dots(cs.take(j + 1)) =~= join_dots(cs.take(j)) + seq!['.'] + cs[j]);
        } else {
            assert(cs.skip(1).take(1) =~= seq![cs[1]]);
            assert(join_dots(cs.skip(1).take(0)) =~= Seq::<char>::empty());
            assert(join_dots(cs.take(j + 1)) =~= join_dots(cs.take(j)) + seq!['.'] + cs[j]);
        }
    }
}

} // verus!
