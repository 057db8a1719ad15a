//! Structured personal names: parsing, components, and display resolution.

use crate::nomenclature::Nomenclature;
use crate::nomenclature::NomenclatureComponents;
use crate::text::join_with_spaces;
use crate::text::joined;
use vstd::prelude::*;
use vstd::string::StrSliceExecFns;

verus! {

/// Five independent, optional parts of a personal name.
#[derive(Debug, Clone)]
pub struct NameParts {
    pub prefix: Option<String>,
    pub first: Option<String>,
    pub middle: Option<String>,
    pub last: Option<String>,
    pub suffix: Option<String>,
}

/// The mathematical value of a [`NameParts`]: each part as an optional
/// character sequence.
pub struct NameView {
    pub prefix: Option<Seq<char>>,
    pub first: Option<Seq<char>>,
    pub middle: Option<Seq<char>>,
    pub last: Option<Seq<char>>,
    pub suffix: Option<Seq<char>>,
}

impl View for NameParts {
    type V = NameView;

    open spec fn view(&self) -> NameView {
        NameView {
            prefix: self.prefix.deep_view(),
            first: self.first.deep_view(),
            middle: self.middle.deep_view(),
            last: self.last.deep_view(),
            suffix: self.suffix.deep_view(),
        }
    }
}

/// A name view with every part absent.
pub open spec fn empty_name() -> NameView {
    NameView { prefix: None, first: None, middle: None, last: None, suffix: None }
}

/// The singleton sequence holding `o`'s content, or the empty sequence.
pub open spec fn opt_part(o: Option<Seq<char>>) -> Seq<Seq<char>> {
    match o {
        Some(s) => seq![s],
        None => Seq::empty(),
    }
}

/// The parts of `v` that are present, in the fixed order prefix, first,
/// middle, last, suffix.
pub open spec fn present_parts(v: NameView) -> Seq<Seq<char>> {
    opt_part(v.prefix) + opt_part(v.first) + opt_part(v.middle) + opt_part(v.last) + opt_part(
        v.suffix,
    )
}

/// The display form of a structured name: its present parts joined by
/// single spaces.
pub open spec fn name_display(v: NameView) -> Seq<char> {
    joined(present_parts(v))
}

/// Whitespace, per the Unicode `White_Space` property that
/// `char::is_whitespace` documents.
pub open spec fn is_space(c: char) -> bool {
    let u = c as u32;
    u == 0x20 || (0x9 <= u && u <= 0xd) || u == 0x85 || u == 0xa0 || u == 0x1680 || (0x2000 <= u
        && u <= 0x200a) || u == 0x2028 || u == 0x2029 || u == 0x202f || u == 0x205f || u == 0x3000
}

fn is_space_char(c: char) -> (r: bool)
    ensures
        r == is_space(c),
{
    let u = c as u32;
    u == 0x20 || (0x9 <= u && u <= 0xd) || u == 0x85 || u == 0xa0 || u == 0x1680 || (0x2000 <= u
        && u <= 0x200a) || u == 0x2028 || u == 0x2029 || u == 0x202f || u == 0x205f || u == 0x3000
}

/// The words of `s` after the in-progress word `cur`: maximal runs of
/// non-whitespace characters, in order.
pub open spec fn words_from(s: Seq<char>, cur: Seq<char>) -> Seq<Seq<char>>
    decreases s.len(),
{
    if s.len() == 0 {
        if cur.len() == 0 {
            Seq::empty()
        } else {
            seq![cur]
        }
    } else if is_space(s[0]) {
        if cur.len() == 0 {
            words_from(s.subrange(1, s.len() as int), Seq::empty())
        } else {
            seq![cur] + words_from(s.subrange(1, s.len() as int), Seq::empty())
        }
    } else {
        words_from(s.subrange(1, s.len() as int), cur.push(s[0]))
    }
}

/// The whitespace-separated words of `s`, in order.
pub open spec fn words(s: Seq<char>) -> Seq<Seq<char>> {
    words_from(s, Seq::empty())
}

/// Relies on `String::push`: appends exactly the one character.
#[verifier::external_body]
fn push_char(s: &mut String, c: char)
    ensures
        final(s)@ == old(s)@.push(c),
{
    s.push(c);
}

/// Splits `s` into its whitespace-separated words.
pub fn split_words(s: &str) -> (r: Vec<String>)
    ensures
        r.deep_view() == words(s@),
{
    let n = s.unicode_len();
    let mut toks: Vec<String> = Vec::new();
    let mut cur = String::new();
    let mut i: usize = 0;
    proof {
        assert(s@.skip(0) =~= s@);
        assert(toks.deep_view() =~= Seq::<Seq<char>>::empty());
        assert(Seq::<Seq<char>>::empty() + words(s@) =~= words(s@));
    }
    while i < n
        invariant
            n == s@.len(),
            i <= n,
            words(s@) == toks.deep_view() + words_from(s@.skip(i as int), cur@),
        decreases n - i,
    {
        let ghost rest = s@.skip(i as int);
        let ghost toks0 = toks.deep_view();
        let ghost cur0 = cur@;
        let c = s.get_char(i);
        proof {
            assert(rest.len() == n - i);
            assert(rest[0] == s@[i as int]);
            assert(rest.subrange(1, rest.len() as int) =~= s@.skip(i as int + 1));
        }
        if is_space_char(c) {
            if !cur.as_str().is_empty() {
                proof {
                    assert(words_from(rest, cur0) == seq![cur0] + words_from(
                        s@.skip(i as int + 1),
                        Seq::empty(),
                    ));
                }
                toks.push(cur);
                cur = String::new();
                proof {
                    assert(toks.deep_view() =~= toks0.push(cur0));
                    assert(toks0 + (seq![cur0] + words_from(s@.skip(i as int + 1), Seq::empty()))
                        =~= toks0.push(cur0) + words_from(s@.skip(i as int + 1), Seq::empty()));
                }
            } else {
                proof {
                    assert(cur0 =~= Seq::<char>::empty());
                    assert(words_from(rest, cur0) == words_from(
                        s@.skip(i as int + 1),
                        Seq::empty(),
                    ));
                }
            }
        } else {
            push_char(&mut cur, c);
            proof {
                assert(words_from(rest, cur0) == words_from(
                    s@.skip(i as int + 1),
                    cur0.push(c),
                ));
            }
        }
        i = i + 1;
    }
    proof {
        assert(s@.skip(n as int) =~= Seq::<char>::empty());
    }
    if !cur.as_str().is_empty() {
        let ghost toks0 = toks.deep_view();
        let ghost cur0 = cur@;
        toks.push(cur);
        proof {
            assert(toks.deep_view() =~= toks0.push(cur0));
            assert(toks0 + seq![cur0] =~= toks0.push(cur0));
        }
    } else {
        proof {
            assert(toks.deep_view() + Seq::<Seq<char>>::empty() =~= toks.deep_view());
        }
    }
    toks
}

/// The name that parsing `s` yields: one word is a first name, two are
/// first and last, three are first, middle and last, and anything else
/// leaves every part unset.
pub open spec fn parsed_name(s: Seq<char>) -> NameView {
    let w = words(s);
    if w.len() == 1 {
        NameView { first: Some(w[0]), ..empty_name() }
    } else if w.len() == 2 {
        NameView { first: Some(w[0]), last: Some(w[1]), ..empty_name() }
    } else if w.len() == 3 {
        NameView { first: Some(w[0]), middle: Some(w[1]), last: Some(w[2]), ..empty_name() }
    } else {
        empty_name()
    }
}

impl Default for NameParts {
    /// A name with every part unset.
    fn default() -> (r: NameParts)
        ensures
            r@ == empty_name(),
    {
        NameParts { prefix: None, first: None, middle: None, last: None, suffix: None }
    }
}

impl NameParts {
    /// A name from explicit first, middle and last parts; prefix and
    /// suffix stay unset.
    pub fn new(first: Option<&str>, middle: Option<&str>, last: Option<&str>) -> (r: NameParts)
        ensures
            r@.prefix is None,
            r@.first == first.deep_view(),
            r@.middle == middle.deep_view(),
            r@.last == last.deep_view(),
            r@.suffix is None,
    {
        NameParts {
            prefix: None,
            first: match first {
                Some(f) => Some(f.to_owned()),
                None => None,
            },
            middle: match middle {
                Some(m) => Some(m.to_owned()),
                None => None,
            },
            last: match last {
                Some(l) => Some(l.to_owned()),
                None => None,
            },
            suffix: None,
        }
    }

    /// Parses a whole name written as whitespace-separated words.
    pub fn from_full_name(full_name: &str) -> (r: NameParts)
        ensures
            r@ == parsed_name(full_name@),
    {
        let w = split_words(full_name);
        let r = if w.len() == 1 {
            NameParts {
                prefix: None,
                first: Some(w[0].clone()),
                middle: None,
                last: None,
                suffix: None,
            }
        } else if w.len() == 2 {
            NameParts {
                prefix: None,
                first: Some(w[0].clone()),
                middle: None,
                last: Some(w[1].clone()),
                suffix: None,
            }
        } else if w.len() == 3 {
            NameParts {
                prefix: None,
                first: Some(w[0].clone()),
                middle: Some(w[1].clone()),
                last: Some(w[2].clone()),
                suffix: None,
            }
        } else {
            NameParts { prefix: None, first: None, middle: None, last: None, suffix: None }
        };
        r
    }

    /// Parses a whole name; same contract as [`NameParts::from_full_name`].
    pub fn from(full_name: &str) -> (r: NameParts)
        ensures
            r@ == parsed_name(full_name@),
    {
        Self::from_full_name(full_name)
    }
}

impl NomenclatureComponents for NameParts {
    open spec fn prefix_spec(&self) -> Option<Seq<char>> {
        self@.prefix
    }

    open spec fn first_spec(&self) -> Option<Seq<char>> {
        self@.first
    }

    open spec fn middle_spec(&self) -> Option<Seq<char>> {
        self@.middle
    }

    open spec fn last_spec(&self) -> Option<Seq<char>> {
        self@.last
    }

    open spec fn suffix_spec(&self) -> Option<Seq<char>> {
        self@.suffix
    }

    fn prefix_name(&self) -> (r: Option<String>) {
        match &self.prefix {
            Some(p) => {
                let c = p.clone();
                proof {
                    assert(Some(c).deep_view() =~= self.prefix.deep_view());
                    assert(Some(c).deep_view() == self.prefix_spec());
                }
                Some(c)
            },
            None => None,
        }
    }

    fn first_name(&self) -> (r: Option<String>) {
        match &self.first {
            Some(f) => {
                let c = f.clone();
                proof {
                    assert(Some(c).deep_view() =~= self.first.deep_view());
                    assert(Some(c).deep_view() == self.first_spec());
                }
                Some(c)
            },
            None => None,
        }
    }

    fn middle_name(&self) -> (r: Option<String>) {
        match &self.middle {
            Some(m) => {
                let c = m.clone();
                proof {
                    assert(Some(c).deep_view() =~= self.middle.deep_view());
                    assert(Some(c).deep_view() == self.middle_spec());
                }
                Some(c)
            },
            None => None,
        }
    }

    fn last_name(&self) -> (r: Option<String>) {
        match &self.last {
            Some(l) => {
                let c = l.clone();
                proof {
                    assert(Some(c).deep_view() =~= self.last.deep_view());
                    assert(Some(c).deep_view() == self.last_spec());
                }
                Some(c)
            },
            None => None,
        }
    }

    fn suffix_name(&self) -> (r: Option<String>) {
        match &self.suffix {
            Some(s) => {
                let c = s.clone();
                proof {
                    assert(Some(c).deep_view() =~= self.suffix.deep_view());
                    assert(Some(c).deep_view() == self.suffix_spec());
                }
                Some(c)
            },
            None => None,
        }
    }
}

/// Either a structured name or an opaque designation string; exactly one
/// of the two.
#[derive(Debug, Clone)]
pub enum Moniker {
    Name(NameParts),
    Designation(String),
}

/// The mathematical value of a [`Moniker`].
pub enum MonikerView {
    Name(NameView),
    Designation(Seq<char>),
}

impl View for Moniker {
    type V = MonikerView;

    open spec fn view(&self) -> MonikerView {
        match self {
            Moniker::Name(n) => MonikerView::Name(n@),
            Moniker::Designation(d) => MonikerView::Designation(d@),
        }
    }
}

/// The display form of a moniker: a designation verbatim, or the joined
/// present parts of a structured name.
pub open spec fn moniker_display(v: MonikerView) -> Seq<char> {
    match v {
        MonikerView::Name(n) => name_display(n),
        MonikerView::Designation(d) => d,
    }
}

impl Moniker {
    /// Parses a whole name into a structured moniker; the parsing rules
    /// are those of [`NameParts::from_full_name`].
    pub fn from_full_name(full_name: &str) -> (r: Moniker)
        ensures
            r@ == MonikerView::Name(parsed_name(full_name@)),
    {
        Moniker::Name(NameParts::from_full_name(full_name))
    }
}

impl Nomenclature for Moniker {
    open spec fn display_name_spec(&self) -> Seq<char> {
        moniker_display(self@)
    }

    fn display_name(&self) -> (r: String) {
        match self {
            Moniker::Designation(d) => d.clone(),
            Moniker::Name(name) => {
                let ghost nv = name@;
                let mut parts: Vec<String> = Vec::new();
                if let Some(p) = &name.prefix {
                    parts.push(p.clone());
                }
                proof {
                    assert(parts.deep_view() =~= opt_part(nv.prefix));
                }
                if let Some(f) = &name.first {
                    parts.push(f.clone());
                }
                proof {
                    assert(parts.deep_view() =~= opt_part(nv.prefix) + opt_part(nv.first));
                }
                if let Some(m) = &name.middle {
                    parts.push(m.clone());
                }
                proof {
                    assert(parts.deep_view() =~= opt_part(nv.prefix) + opt_part(nv.first)
                        + opt_part(nv.middle));
                }
                if let Some(l) = &name.last {
                    parts.push(l.clone());
                }
                proof {
                    assert(parts.deep_view() =~= opt_part(nv.prefix) + opt_part(nv.first)
                        + opt_part(nv.middle) + opt_part(nv.last));
                }
                if let Some(sfx) = &name.suffix {
                    parts.push(sfx.clone());
                }
                proof {
                    assert(parts.deep_view() =~= present_parts(nv));
                }
                join_with_spaces(&parts)
            },
        }
    }
}

impl NomenclatureComponents for Moniker {
    open spec fn prefix_spec(&self) -> Option<Seq<char>> {
        match self@ {
            MonikerView::Name(n) => n.prefix,
            MonikerView::Designation(_) => None,
        }
    }

    open spec fn first_spec(&self) -> Option<Seq<char>> {
        match self@ {
            MonikerView::Name(n) => n.first,
            MonikerView::Designation(_) => None,
        }
    }

    open spec fn middle_spec(&self) -> Option<Seq<char>> {
        match self@ {
            MonikerView::Name(n) => n.middle,
            MonikerView::Designation(_) => None,
        }
    }

    open spec fn last_spec(&self) -> Option<Seq<char>> {
        match self@ {
            MonikerView::Name(n) => n.last,
            MonikerView::Designation(_) => None,
        }
    }

    open spec fn suffix_spec(&self) -> Option<Seq<char>> {
        match self@ {
            MonikerView::Name(n) => n.suffix,
            MonikerView::Designation(_) => None,
        }
    }

    fn prefix_name(&self) -> (r: Option<String>) {
        match self {
            Moniker::Name(n) => n.prefix_name(),
            Moniker::Designation(_) => None,
        }
    }

    fn first_name(&self) -> (r: Option<String>) {
        match self {
            Moniker::Name(n) => n.first_name(),
            Moniker::Designation(_) => None,
        }
    }

    fn middle_name(&self) -> (r: Option<String>) {
        match self {
            Moniker::Name(n) => n.middle_name(),
            Moniker::Designation(_) => None,
        }
    }

    fn last_name(&self) -> (r: Option<String>) {
        match self {
            Moniker::Name(n) => n.last_name(),
            Moniker::Designation(_) => None,
        }
    }

    fn suffix_name(&self) -> (r: Option<String>) {
        match self {
            Moniker::Name(n) => n.suffix_name(),
            Moniker::Designation(_) => None,
        }
    }
}

} // verus!
