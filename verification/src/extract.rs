//! Entry-point extraction from the unoptimized artifact text.
//!
//! A selectable entry point is a top-level function declaration, recognized
//! purely textually: a line that begins with the literal keyword `fn`, one
//! space, and an identifier. Indented declarations do not count. When no
//! declaration is found, a single fallback name is offered instead, so the
//! resulting list is never empty.

use vstd::prelude::*;

verus! {

/// A character the declaration pattern counts as part of an identifier:
/// an ASCII letter, an ASCII digit, or an underscore.
pub open spec fn is_word_char(c: char) -> bool {
    ||| 'a' as u32 <= c as u32 && c as u32 <= 'z' as u32
    ||| 'A' as u32 <= c as u32 && c as u32 <= 'Z' as u32
    ||| '0' as u32 <= c as u32 && c as u32 <= '9' as u32
    ||| c == '_'
}

/// A top-level declaration begins at position `i` of `s`: the position starts
/// a line and is followed by `fn`, a single space, and at least one
/// identifier character.
pub open spec fn decl_at(s: Seq<char>, i: int) -> bool {
    &&& 0 <= i
    &&& i + 3 < s.len()
    &&& i == 0 || s[i - 1] == '\n'
    &&& s[i] == 'f'
    &&& s[i + 1] == 'n'
    &&& s[i + 2] == ' '
    &&& is_word_char(s[i + 3])
}

/// First position at or after `j` holding a character that is not an
/// identifier character, or the end of the text.
pub open spec fn word_end(s: Seq<char>, j: int) -> int
    decreases s.len() - j,
{
    if 0 <= j && j < s.len() && is_word_char(s[j]) {
        word_end(s, j + 1)
    } else {
        j
    }
}

/// The identifier declared at position `i`, assuming `decl_at(s, i)`.
pub open spec fn name_at(s: Seq<char>, i: int) -> Seq<char> {
    s.subrange(i + 3, word_end(s, i + 3))
}

/// The names of all declarations that begin at a position below `n`,
/// in order of position.
pub open spec fn names_up_to(s: Seq<char>, n: int) -> Seq<Seq<char>>
    decreases n,
{
    if n <= 0 {
        Seq::empty()
    } else if decl_at(s, n - 1) {
        names_up_to(s, n - 1).push(name_at(s, n - 1))
    } else {
        names_up_to(s, n - 1)
    }
}

/// All top-level declaration names of the text, in source order.
pub open spec fn declared_names(s: Seq<char>) -> Seq<Seq<char>> {
    names_up_to(s, s.len() as int)
}

/// The name offered when the text declares nothing.
pub open spec fn fallback_entry() -> Seq<char> {
    "main"@
}

/// The entry points derived from an artifact text: its declared names, or
/// the single fallback name when there are none.
pub open spec fn entry_points_of(s: Seq<char>) -> Seq<Seq<char>> {
    if declared_names(s).len() == 0 {
        seq![fallback_entry()]
    } else {
        declared_names(s)
    }
}

/// Law: extraction is a function of the text alone, so running it twice on
/// the same text yields the same sequence.
pub proof fn lemma_extraction_deterministic(s1: Seq<char>, s2: Seq<char>)
    requires
        s1 == s2,
    ensures
        entry_points_of(s1) == entry_points_of(s2),
{
}

/// Law: a text with no top-level declarations yields exactly the single
/// fallback name.
pub proof fn lemma_no_decls_gives_fallback(s: Seq<char>)
    requires
        forall|i: int| !decl_at(s, i),
    ensures
        entry_points_of(s) == seq![fallback_entry()],
{
    lemma_names_up_to_empty(s, s.len() as int);
}

/// Law: a text with at least one declared name yields exactly the declared
/// names, in source order, with no fallback mixed in.
pub proof fn lemma_decls_kept(s: Seq<char>)
    requires
        declared_names(s).len() >= 1,
    ensures
        entry_points_of(s) == declared_names(s),
{
}

proof fn lemma_names_up_to_empty(s: Seq<char>, n: int)
    requires
        forall|i: int| !decl_at(s, i),
    ensures
        names_up_to(s, n) =~= Seq::empty(),
    decreases n,
{
    if n > 0 {
        lemma_names_up_to_empty(s, n - 1);
    }
}

proof fn lemma_word_end_from(s: Seq<char>, a: int, j: int)
    requires
        0 <= a <= j <= s.len(),
        forall|k: int| a <= k < j ==> is_word_char(s[k]),
        j == s.len() || !is_word_char(s[j]),
    ensures
        word_end(s, a) == j,
    decreases j - a,
{
    if a < j {
        lemma_word_end_from(s, a + 1, j);
    }
}

/// Whether `c` counts as an identifier character.
#[verifier::when_used_as_spec(is_word_char)]
pub fn word_char(c: char) -> (b: bool)
    ensures
        b == is_word_char(c),
{
    ('a' as u32 <= c as u32 && c as u32 <= 'z' as u32)
        || ('A' as u32 <= c as u32 && c as u32 <= 'Z' as u32)
        || ('0' as u32 <= c as u32 && c as u32 <= '9' as u32)
        || c == '_'
}

/// Extracts the selectable entry points of an artifact text: every top-level
/// `fn` declaration's name in source order, or the single fallback name when
/// the text declares nothing. The result is never empty.
pub fn extract_entry_points(text: &str) -> (names: Vec<String>)
    ensures
        names.deep_view() == entry_points_of(text@),
        names.len() >= 1,
{
    let n = text.unicode_len();
    let mut names: Vec<String> = Vec::new();
    let mut i: usize = 0;
    while i < n
        invariant
            n == text@.len(),
            i <= n,
            names.deep_view() =~= names_up_to(text@, i as int),
        decreases n - i,
    {
        let line_start = i == 0 || text.get_char(i - 1) == '\n';
        let is_decl = line_start && n - i > 3 && text.get_char(i) == 'f'
            && text.get_char(i + 1) == 'n' && text.get_char(i + 2) == ' '
            && word_char(text.get_char(i + 3));
        if is_decl {
            let mut j: usize = i + 4;
            while j < n && word_char(text.get_char(j))
                invariant
                    n == text@.len(),
                    i + 4 <= j <= n,
                    forall|k: int| i + 3 <= k < j ==> is_word_char(text@[k]),
                decreases n - j,
            {
                j += 1;
            }
            proof {
                lemma_word_end_from(text@, i + 3, j as int);
            }
            let name = text.substring_char(i + 3, j).to_owned();
            let ghost old_names = names.deep_view();
            names.push(name);
            proof {
                assert(names.deep_view() =~= old_names.push(name_at(text@, i as int)));
            }
        }
        i += 1;
    }
    if names.len() == 0 {
        let ghost old_names = names.deep_view();
        names.push(String::from_str("main"));
        proof {
            assert(names.deep_view() =~= old_names.push(fallback_entry()));
        }
    }
    names
}

} // verus!
