pub mod listing;
pub mod settings;
pub mod types;
pub mod validators;
pub mod values;

use vstd::prelude::*;

use crate::strings::{join, join_strings, push_char, split_char, split_on, str_views};


verus! {

/// `c` in ASCII upper case.
pub open spec fn ascii_upper(c: char) -> char {
    if 'a' <= c <= 'z' {
        (((c as u32) - 32) as u8) as char
    } else {
        c
    }
}

/// `w` with its first character in ASCII upper case.
pub open spec fn capitalized(w: Seq<char>) -> Seq<char> {
    seq![ascii_upper(w[0])] + w.drop_first()
}

/// The non-empty pieces, capitalized.
pub open spec fn title_words(pieces: Seq<Seq<char>>) -> Seq<Seq<char>>
    decreases pieces.len(),
{
    if pieces.len() == 0 {
        Seq::empty()
    } else {
        let prev = title_words(pieces.drop_last());
        if pieces.last().len() == 0 {
            prev
        } else {
            prev.push(capitalized(pieces.last()))
        }
    }
}

/// A name as a title: its `_`-separated words, empty ones dropped, each capitalized, joined
/// by spaces.
pub open spec fn display_title(name: Seq<char>) -> Seq<char> {
    join(title_words(split_on(name, '_')), " "@)
}

fn to_ascii_upper(c: char) -> (r: char)
    ensures
        r == ascii_upper(c),
{
    if 'a' <= c && c <= 'z' {
        ((c as u32 - 32) as u8) as char
    } else {
        c
    }
}

/// A name as a title: its `_`-separated words capitalized and joined by spaces.
pub fn title_of(name: &str) -> (r: String)
    ensures
        r@ == display_title(name@),
{
    let pieces = split_char(name, '_');
    let ghost views = str_views(pieces@);
    let mut words: Vec<String> = Vec::new();
    let mut i: usize = 0;
    proof {
        assert(views.take(0) =~= Seq::<Seq<char>>::empty());
        assert(crate::strings::string_views(words@) =~= Seq::<Seq<char>>::empty());
    }
    while i < pieces.len()
        invariant
            views == str_views(pieces@),
            i <= pieces@.len(),
            crate::strings::string_views(words@) == title_words(views.take(i as int)),
        decreases pieces@.len() - i,
    {
        let piece = pieces[i];
        let n = piece.unicode_len();
        let ghost next = views.take(i as int + 1);
        proof {
            assert(next.drop_last() =~= views.take(i as int));
            assert(next.last() == piece@);
        }
        if n > 0 {
            let mut w = String::new();
            push_char(&mut w, to_ascii_upper(piece.get_char(0)));
            w.append(piece.substring_char(1, n));
            proof {
                assert(w@ =~= capitalized(piece@));
            }
            let ghost before = crate::strings::string_views(words@);
            words.push(w);
            proof {
                assert(crate::strings::string_views(words@) =~= before.push(w@));
            }
        }
        i = i + 1;
    }
    proof {
        assert(views.take(pieces@.len() as int) =~= views);
    }
    join_strings(&words, " ")
}


/// `s` after its first `m`: what an escape sequence that began just before `s` leaves.
pub open spec fn after_escape(s: Seq<char>) -> Seq<char>
    decreases s.len(),
{
    if s.len() == 0 {
        s
    } else if s[0] == 'm' {
        s.drop_first()
    } else {
        after_escape(s.drop_first())
    }
}

/// What an escape sequence leaves is no longer than what followed it.
pub proof fn lemma_after_escape_shorter(s: Seq<char>)
    ensures
        after_escape(s).len() <= s.len(),
    decreases s.len(),
{
    if s.len() > 0 && s[0] != 'm' {
        lemma_after_escape_shorter(s.drop_first());
    }
}

/// `s` without its ANSI escape sequences: each `ESC` is dropped together with every
/// character up to and including the next `m`.
pub open spec fn without_ansi(s: Seq<char>) -> Seq<char>
    decreases s.len(),
{
    if s.len() == 0 {
        s
    } else if s[0] == '\u{1b}' {
        proof {
            lemma_after_escape_shorter(s.drop_first());
        }
        without_ansi(after_escape(s.drop_first()))
    } else {
        seq![s[0]] + without_ansi(s.drop_first())
    }
}

/// `input` without its ANSI escape sequences.
pub fn strip_ansi_sequences(input: &str) -> (r: String)
    ensures
        r@ == without_ansi(input@),
{
    let n = input.unicode_len();
    let mut plain = String::new();
    let mut in_escape = false;
    let mut i: usize = 0;
    proof {
        assert(input@.skip(0) =~= input@);
    }
    while i < n
        invariant
            n == input@.len(),
            i <= n,
            plain@ + (if in_escape {
                without_ansi(after_escape(input@.skip(i as int)))
            } else {
                without_ansi(input@.skip(i as int))
            }) == without_ansi(input@),
        decreases n - i,
    {
        let ch = input.get_char(i);
        let ghost rest = input@.skip(i as int);
        proof {
            assert(rest[0] == ch);
            assert(rest.drop_first() =~= input@.skip(i + 1));
        }
        if in_escape {
            if ch == 'm' {
                in_escape = false;
            }
        } else if ch == '\u{1b}' {
            in_escape = true;
        } else {
            proof {
                assert(plain@.push(ch) + without_ansi(input@.skip(i + 1)) =~= plain@ + (seq![ch]
                    + without_ansi(input@.skip(i + 1))));
            }
            push_char(&mut plain, ch);
        }
        i = i + 1;
    }
    proof {
        assert(input@.skip(n as int) =~= Seq::<char>::empty());
        assert(plain@ + Seq::<char>::empty() =~= plain@);
    }
    plain
}

} // verus!
