//! Text utilities and a small owned document type. Lengths, counts and
//! slices here are in characters, and the contracts pin each result over
//! the character sequence of the input.

use vstd::prelude::*;
use vstd::string::{StrSliceExecFns, StringExecFns};

verus! {

/// The whitespace characters the word and trim helpers recognise.
pub open spec fn is_space_char(c: char) -> bool {
    c == ' ' || c == '\t' || c == '\n' || c == '\r'
}

/// `i` cuts the first word off `s`: everything before `i` is word, and `i`
/// is the end of the text or a space.
pub open spec fn word_break_at(s: Seq<char>, i: int) -> bool {
    &&& 0 <= i <= s.len()
    &&& (i == s.len() || s[i] == ' ')
    &&& forall|k: int| 0 <= k < i ==> s[k] != ' '
}

/// A word starts at `i`: a non-space character at the start of the text or
/// right after a space.
pub open spec fn word_starts_at(s: Seq<char>, i: int) -> bool {
    &&& 0 <= i < s.len()
    &&& !is_space_char(s[i])
    &&& (i == 0 || is_space_char(s[i - 1]))
}

/// How many words start strictly below position `n`.
pub open spec fn word_count_below(s: Seq<char>, n: int) -> int
    decreases n,
{
    if n <= 0 {
        0
    } else {
        word_count_below(s, n - 1) + if word_starts_at(s, n - 1) {
            1int
        } else {
            0int
        }
    }
}

/// How many full stops sit strictly below position `n`.
pub open spec fn dot_count_below(s: Seq<char>, n: int) -> int
    decreases n,
{
    if n <= 0 {
        0
    } else {
        dot_count_below(s, n - 1) + if s[n - 1] == '.' {
            1int
        } else {
            0int
        }
    }
}

///`a..b` is `s` with leading and trailing whitespace cut away.
pub open spec fn trim_bounds(s: Seq<char>, a: int, b: int) -> bool {
    &&& 0 <= a <= b <= s.len()
    &&& forall|k: int| 0 <= k < a ==> is_space_char(s[k])
    &&& forall|k: int| b <= k < s.len() ==> is_space_char(s[k])
    &&& (a == b || (!is_space_char(s[a]) && !is_space_char(s[b - 1])))
}

/// Whether a character is whitespace, in executable form.
fn est_espace_char(c: char) -> (r: bool)
    ensures
        r == is_space_char(c),
{
    c == ' ' || c == '\t' || c == '\n' || c == '\r'
}

/// The length of a string, in characters.
pub fn calculer_longueur(s: &String) -> (r: usize)
    ensures
        r == s@.len(),
{
    s.as_str().unicode_len()
}

/// Appends `", world!"` to the string.
pub fn modifier_string(s: &mut String)
    ensures
        final(s)@ == old(s)@ + ", world!"@,
{
    s.append(", world!");
}

/// The first word of a text: everything up to the first space, or the whole
/// text when it has none.
pub fn premier_mot(s: &str) -> (r: &str)
    ensures
        exists|i: int| #[trigger] word_break_at(s@, i) && r@ == s@.subrange(0, i),
{
    let n = s.unicode_len();
    let mut i: usize = 0;
    while i < n
        invariant
            n == s@.len(),
            i <= n,
            forall|k: int| 0 <= k < i ==> s@[k] != ' ',
        decreases n - i,
    {
        if s.get_char(i) == ' ' {
            let r = s.substring_char(0, i);
            proof {
                assert(word_break_at(s@, i as int));
            }
            return r;
        }
        i = i + 1;
    }
    let r = s.substring_char(0, n);
    proof {
        assert(word_break_at(s@, n as int));
    }
    r
}

/// The number of words in a text: maximal runs of non-whitespace
/// characters.
pub fn compter_mots(texte: &str) -> (r: usize)
    ensures
        r == word_count_below(texte@, texte@.len() as int),
{
    let n = texte.unicode_len();
    let mut count: usize = 0;
    let mut i: usize = 0;
    while i < n
        invariant
            n == texte@.len(),
            i <= n,
            count <= i,
            count == word_count_below(texte@, i as int),
        decreases n - i,
    {
        let c_space = est_espace_char(texte.get_char(i));
        let prev_space = if i == 0 {
            true
        } else {
            est_espace_char(texte.get_char(i - 1))
        };
        if !c_space && prev_space {
            count = count + 1;
        }
        i = i + 1;
    }
    count
}

/// The number of full stops in a text.
pub fn compter_phrases(texte: &str) -> (r: usize)
    ensures
        r == dot_count_below(texte@, texte@.len() as int),
{
    let n = texte.unicode_len();
    let mut count: usize = 0;
    let mut i: usize = 0;
    while i < n
        invariant
            n == texte@.len(),
            i <= n,
            count <= i,
            count == dot_count_below(texte@, i as int),
        decreases n - i,
    {
        if texte.get_char(i) == '.' {
            count = count + 1;
        }
        i = i + 1;
    }
    count
}

/// Shortens a text to at most `n` characters, marking the cut with an
/// ellipsis; a text that already fits comes back unchanged.
pub fn truncate(s: &str, n: usize) -> (r: String)
    ensures
        s@.len() <= n ==> r@ == s@,
        s@.len() > n ==> r@ == s@.subrange(0, n as int) + "\u{2026}"@,
{
    let len = s.unicode_len();
    if len <= n {
        s.to_owned()
    } else {
        let mut t = s.substring_char(0, n).to_owned();
        t.append("\u{2026}");
        t
    }
}

/// Trims leading and trailing whitespace, nothing more: no format is
/// imposed on what remains.
pub fn normalize_date_like(s: &str) -> (r: String)
    ensures
        exists|a: int, b: int| #[trigger] trim_bounds(s@, a, b) && r@ == s@.subrange(a, b),
{
    let n = s.unicode_len();
    let mut a: usize = 0;
    while a < n && est_espace_char(s.get_char(a))
        invariant
            n == s@.len(),
            a <= n,
            forall|k: int| 0 <= k < a ==> is_space_char(s@[k]),
        decreases n - a,
    {
        a = a + 1;
    }
    if a == n {
        let r = String::new();
        proof {
            assert(trim_bounds(s@, 0, 0));
            assert(r@ =~= s@.subrange(0, 0));
        }
        return r;
    }
    let mut b: usize = n;
    while b > a && est_espace_char(s.get_char(b - 1))
        invariant
            n == s@.len(),
            a < n,
            !is_space_char(s@[a as int]),
            a < b <= n,
            forall|k: int| b <= k < n ==> is_space_char(s@[k]),
        decreases b,
    {
        b = b - 1;
    }
    let r = s.substring_char(a, b).to_owned();
    proof {
        assert(!is_space_char(s@[a as int]));
        assert(b > a);
        assert(!is_space_char(s@[b - 1]));
        assert(trim_bounds(s@, a as int, b as int));
    }
    r
}

/// An owned document: a title, its content, and the content's length in
/// characters, kept in step by every operation.
pub struct Document {
    pub titre: String,
    pub contenu: String,
    pub taille: usize,
}

impl Document {
    /// `taille` always mirrors the character length of `contenu`.
    pub open spec fn wf(self) -> bool {
        self.taille == self.contenu@.len()
    }

    /// A document over the given title and initial content.
    pub fn new(titre: &str, contenu: &str) -> (d: Document)
        ensures
            d.wf(),
            d.titre@ == titre@,
            d.contenu@ == contenu@,
    {
        let contenu_owned = contenu.to_owned();
        let taille = contenu_owned.as_str().unicode_len();
        Document { titre: titre.to_owned(), contenu: contenu_owned, taille }
    }

    /// Appends text to the content; the recorded size follows.
    pub fn ajouter_texte(&mut self, texte: &str)
        requires
            old(self).wf(),
        ensures
            final(self).wf(),
            final(self).titre == old(self).titre,
            final(self).contenu@ == old(self).contenu@ + texte@,
    {
        self.contenu.append(texte);
        self.taille = self.contenu.as_str().unicode_len();
    }

    /// The first `max_chars` characters of the content, or all of it when it
    /// is no longer than that.
    pub fn obtenir_apercu(&self, max_chars: usize) -> (r: &str)
        requires
            self.wf(),
        ensures
            self.contenu@.len() <= max_chars ==> r@ == self.contenu@,
            self.contenu@.len() > max_chars ==> r@ == self.contenu@.subrange(0, max_chars as int),
    {
        if self.taille <= max_chars {
            self.contenu.as_str()
        } else {
            self.contenu.as_str().substring_char(0, max_chars)
        }
    }
}

} // verus!
