//! Text helpers for replies: defaults for empty text, joining lists the way a
//! sentence does, and truncating by user-perceived characters (extended
//! grapheme clusters) rather than by code points.

use unicode_segmentation::UnicodeSegmentation;
use heck::ToTitleCase;

use vstd::prelude::*;
use vstd::string::StringExecFns;

verus! {

/// The extended grapheme clusters of a text, as `unicode_segmentation`
/// splits it.
pub uninterp spec fn graphemes_of(s: Seq<char>) -> Seq<Seq<char>>;

/// A text in title case, as `heck` writes it.
pub uninterp spec fn title_case_of(s: Seq<char>) -> Seq<char>;

/// Relies on `UnicodeSegmentation::graphemes(s, true)`: the extended
/// grapheme clusters of `s`, in order.
#[verifier::external_body]
fn graphemes(s: &str) -> (r: Vec<String>)
    ensures
        r@.map_values(|g: String| g@) == graphemes_of(s@),
{
    s.graphemes(true).map(String::from).collect()
}

/// Relies on `heck::ToTitleCase::to_title_case`: the text in title case.
#[verifier::external_body]
fn title_case(s: &str) -> (r: String)
    ensures
        r@ == title_case_of(s@),
{
    s.to_title_case()
}

/// The parts one after the other, with `sep` between each two.
pub open spec fn joined(parts: Seq<Seq<char>>, sep: Seq<char>) -> Seq<char>
    decreases parts.len(),
{
    if parts.len() == 0 {
        Seq::empty()
    } else if parts.len() == 1 {
        parts[0]
    } else {
        joined(parts.drop_last(), sep) + sep + parts.last()
    }
}

/// The parts joined as in a sentence: `sep` between each two but the last
/// two, `last_sep` between those.
pub open spec fn pretty_joined(parts: Seq<Seq<char>>, sep: Seq<char>, last_sep: Seq<char>) -> Seq<
    char,
> {
    if parts.len() <= 1 {
        joined(parts, sep)
    } else {
        joined(parts.drop_last(), sep) + last_sep + parts.last()
    }
}

/// The texts of a list of string slices.
pub open spec fn texts(parts: Seq<&str>) -> Seq<Seq<char>> {
    parts.map_values(|s: &str| s@)
}

/// The texts of a list of strings.
pub open spec fn string_texts(parts: Seq<String>) -> Seq<Seq<char>> {
    parts.map_values(|s: String| s@)
}

fn join_strings(parts: &Vec<String>, sep: &str) -> (r: String)
    ensures
        r@ == joined(string_texts(parts@), sep@),
{
    let ghost views = string_texts(parts@);
    let mut r = String::new();
    let mut i: usize = 0;
    while i < parts.len()
        invariant
            i <= parts@.len(),
            views == string_texts(parts@),
            r@ == joined(views.take(i as int), sep@),
        decreases parts@.len() - i,
    {
        proof {
            assert(views.take(i as int + 1).drop_last() =~= views.take(i as int));
        }
        if i > 0 {
            r.append(sep);
        }
        r.append(parts[i].as_str());
        i = i + 1;
    }
    proof {
        assert(views.take(parts@.len() as int) =~= views);
    }
    r
}

fn to_strings(parts: &[&str]) -> (r: Vec<String>)
    ensures
        string_texts(r@) == texts(parts@),
{
    let mut r: Vec<String> = Vec::new();
    let mut i: usize = 0;
    while i < parts.len()
        invariant
            i <= parts@.len(),
            r@.len() == i,
            forall|j: int| 0 <= j < i ==> #[trigger] r@[j]@ == parts@[j]@,
        decreases parts@.len() - i,
    {
        r.push(parts[i].to_owned());
        i = i + 1;
    }
    assert(string_texts(r@) =~= texts(parts@));
    r
}

fn pretty_join_strings(parts: Vec<String>, sep: &str, last_sep: &str) -> (r: String)
    ensures
        r@ == pretty_joined(string_texts(parts@), sep@, last_sep@),
{
    let ghost views = string_texts(parts@);
    if parts.len() <= 1 {
        join_strings(&parts, sep)
    } else {
        let mut init = parts;
        let last = init.pop().unwrap();
        proof {
            assert(string_texts(init@) =~= views.drop_last());
        }
        let mut r = join_strings(&init, sep);
        r.append(last_sep);
        r.append(last.as_str());
        r
    }
}

/// Text that stands for nothing where it is empty.
pub trait OptionMap {
    fn is_none(&self) -> bool;

    fn or(&self, other: &str) -> String;

    fn or_else<F: FnOnce() -> String>(&self, f: F) -> String
        requires
            f.requires(()),
    ;
}

impl OptionMap for str {
    fn is_none(&self) -> (r: bool)
        ensures
            r == (self@.len() == 0),
    {
        self.is_empty()
    }

    /// The text, or `other` where the text is empty.
    fn or(&self, other: &str) -> (r: String)
        ensures
            r@ == if self@.len() == 0 {
                other@
            } else {
                self@
            },
    {
        if self.is_none() {
            other.to_owned()
        } else {
            self.to_owned()
        }
    }

    /// The text, or what `f` makes where the text is empty.
    fn or_else<F: FnOnce() -> String>(&self, f: F) -> (r: String)
        ensures
            self@.len() == 0 ==> f.ensures((), r),
            self@.len() != 0 ==> r@ == self@,
    {
        if self.is_none() {
            f()
        } else {
            self.to_owned()
        }
    }
}

/// Joining a list with separators.
pub trait PrettyJoin {
    fn pretty_join(slice: &Self, sep: &str, last_sep: &str) -> String;
}

impl PrettyJoin for [String] {
    /// `sep` between each two items but the last two, `last_sep` between those.
    fn pretty_join(slice: &Self, sep: &str, last_sep: &str) -> (r: String)
        ensures
            r@ == pretty_joined(string_texts(slice@), sep@, last_sep@),
    {
        let mut parts: Vec<String> = Vec::new();
        let mut i: usize = 0;
        while i < slice.len()
            invariant
                i <= slice@.len(),
                parts@.len() == i,
                forall|j: int| 0 <= j < i ==> #[trigger] parts@[j]@ == slice@[j]@,
            decreases slice@.len() - i,
        {
            parts.push(slice[i].clone());
            i = i + 1;
        }
        assert(string_texts(parts@) =~= string_texts(slice@));
        pretty_join_strings(parts, sep, last_sep)
    }
}

/// Joining a list as a sentence does: `a, b and c`.
pub trait PrettyJoiner {
    fn sep() -> &'static str;

    fn and() -> &'static str;

    fn or() -> &'static str;

    fn pretty_join(&self, sep: &str, last_sep: &str) -> String;

    fn pretty_join_with(&self, last_sep: &str) -> String;

    fn pretty_join_with_and(&self) -> String;

    fn pretty_join_with_or(&self) -> String;
}

impl<'a> PrettyJoiner for [&'a str] {
    fn sep() -> (r: &'static str)
        ensures
            r@ == ", "@,
    {
        ", "
    }

    fn and() -> (r: &'static str)
        ensures
            r@ == " and "@,
    {
        " and "
    }

    fn or() -> (r: &'static str)
        ensures
            r@ == " or "@,
    {
        " or "
    }

    /// `sep` between each two items but the last two, `last_sep` between those.
    fn pretty_join(&self, sep: &str, last_sep: &str) -> (r: String)
        ensures
            r@ == pretty_joined(texts(self@), sep@, last_sep@),
    {
        pretty_join_strings(to_strings(self), sep, last_sep)
    }

    /// `, ` between each two items but the last two, `last_sep` between those.
    fn pretty_join_with(&self, last_sep: &str) -> (r: String)
        ensures
            r@ == pretty_joined(texts(self@), ", "@, last_sep@),
    {
        pretty_join_strings(to_strings(self), ", ", last_sep)
    }

    /// `a, b and c`.
    fn pretty_join_with_and(&self) -> (r: String)
        ensures
            r@ == pretty_joined(texts(self@), ", "@, " and "@),
    {
        pretty_join_strings(to_strings(self), ", ", " and ")
    }

    /// `a, b or c`.
    fn pretty_join_with_or(&self) -> (r: String)
        ensures
            r@ == pretty_joined(texts(self@), ", "@, " or "@),
    {
        pretty_join_strings(to_strings(self), ", ", " or ")
    }
}

/// The first `n` grapheme clusters of a text, one after the other.
pub open spec fn first_graphemes(s: Seq<char>, n: int) -> Seq<char> {
    joined(graphemes_of(s).take(n), Seq::empty())
}

/// Measuring and cutting text by grapheme clusters.
pub trait ViaGrapheme {
    fn grapheme_len(&self) -> usize;

    fn grapheme_truncate(&self, new_len: usize) -> String;
}

impl ViaGrapheme for str {
    /// The number of grapheme clusters.
    fn grapheme_len(&self) -> (r: usize)
        ensures
            r == graphemes_of(self@).len(),
    {
        graphemes(self).len()
    }

    /// The text where it has at most `new_len` grapheme clusters, else its
    /// first `new_len` of them.
    fn grapheme_truncate(&self, new_len: usize) -> (r: String)
        ensures
            r@ == if graphemes_of(self@).len() <= new_len {
                self@
            } else {
                first_graphemes(self@, new_len as int)
            },
    {
        let parts = graphemes(self);
        let ghost views = parts@.map_values(|g: String| g@);
        if parts.len() <= new_len {
            self.to_owned()
        } else {
            let mut r = String::new();
            let mut i: usize = 0;
            while i < new_len
                invariant
                    i <= new_len < parts@.len(),
                    views == parts@.map_values(|g: String| g@),
                    views == graphemes_of(self@),
                    r@ == joined(views.take(i as int), Seq::empty()),
                decreases new_len - i,
            {
                proof {
                    assert(views.take(i as int + 1).drop_last() =~= views.take(i as int));
                    assert(Seq::<char>::empty() + parts@[i as int]@ =~= parts@[i as int]@);
                }
                r.append(parts[i].as_str());
                i = i + 1;
            }
            r
        }
    }
}

/// Cutting text with a trail that shows it was cut.
pub trait PrettyTruncator {
    fn trail() -> &'static str;

    fn pretty_truncate(&self, new_len: usize) -> String;
}

impl PrettyTruncator for str {
    /// The ellipsis.
    fn trail() -> (r: &'static str)
        ensures
            r@ == "…"@,
    {
        "…"
    }

    /// The text where it has at most `new_len` grapheme clusters; else as many
    /// of its first clusters as leave room for the trail within `new_len`,
    /// then the trail.
    fn pretty_truncate(&self, new_len: usize) -> (r: String)
        ensures
            r@ == if graphemes_of(self@).len() <= new_len {
                self@
            } else {
                first_graphemes(
                    self@,
                    if new_len >= graphemes_of("…"@).len() {
                        new_len - graphemes_of("…"@).len()
                    } else {
                        0
                    },
                ) + "…"@
            },
    {
        let trail = <str as PrettyTruncator>::trail();
        if self.grapheme_len() <= new_len {
            self.to_owned()
        } else {
            let trail_len = trail.grapheme_len();
            let keep: usize = if new_len >= trail_len {
                new_len - trail_len
            } else {
                0
            };
            let mut r = self.grapheme_truncate(keep);
            r.append(trail);
            r
        }
    }
}

/// Names, each in title case, joined as a sentence: `One, Two and Three`.
pub fn prettify_names(names: &[&str]) -> (r: String)
    ensures
        r@ == pretty_joined(texts(names@).map_values(|n: Seq<char>| title_case_of(n)), ", "@, " and "@),
{
    let mut titled: Vec<String> = Vec::new();
    let mut i: usize = 0;
    while i < names.len()
        invariant
            i <= names@.len(),
            titled@.len() == i,
            forall|j: int| 0 <= j < i ==> #[trigger] titled@[j]@ == title_case_of(names@[j]@),
        decreases names@.len() - i,
    {
        titled.push(title_case(names[i]));
        i = i + 1;
    }
    assert(string_texts(titled@) =~= texts(names@).map_values(|n: Seq<char>| title_case_of(n)));
    pretty_join_strings(titled, ", ", " and ")
}

/// A name in title case, as code: between backticks.
pub open spec fn code_title(n: Seq<char>) -> Seq<char> {
    "`"@ + title_case_of(n) + "`"@
}

/// Names, each in title case as code, joined as a sentence:
/// `` `One`, `Two` and `Three` ``.
pub fn prettify_code_names(names: &[&str]) -> (r: String)
    ensures
        r@ == pretty_joined(texts(names@).map_values(|n: Seq<char>| code_title(n)), ", "@, " and "@),
{
    let mut titled: Vec<String> = Vec::new();
    let mut i: usize = 0;
    while i < names.len()
        invariant
            i <= names@.len(),
            titled@.len() == i,
            forall|j: int| 0 <= j < i ==> #[trigger] titled@[j]@ == code_title(names@[j]@),
        decreases names@.len() - i,
    {
        let mut code = String::from_str("`");
        let title = title_case(names[i]);
        code.append(title.as_str());
        code.append("`");
        titled.push(code);
        i = i + 1;
    }
    assert(string_texts(titled@) =~= texts(names@).map_values(|n: Seq<char>| code_title(n)));
    pretty_join_strings(titled, ", ", " and ")
}

} // verus!
