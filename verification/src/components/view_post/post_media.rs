//! The media list of a post and the image gallery's navigation.
use vstd::prelude::*;
use crate::components::validation::is_first_index;
use crate::text::{contains_char, trim, trimmed};

verus! {

/// What `serde_json::from_str::<Vec<String>>(s)` yields: the strings of
/// a JSON array of strings, or `None` when `s` is not one.
pub uninterp spec fn json_string_array(s: Seq<char>) -> Option<Seq<Seq<char>>>;

/// The views of a list of strings.
pub open spec fn views(v: Seq<String>) -> Seq<Seq<char>> {
    v.map_values(|s: String| s@)
}

/// `serde_json::from_str::<Vec<String>>`: the array's strings, a
/// function of `s` alone.
#[verifier::external_body]
fn parse_json_strings(s: &str) -> (r: Option<Vec<String>>)
    ensures
        match r {
            Some(v) => json_string_array(s@) == Some(views(v@)),
            None => json_string_array(s@) is None,
        },
{
    serde_json::from_str::<Vec<String>>(s).ok()
}

/// The pieces of `s` between the occurrences of `c` (`str::split`).
pub open spec fn split_on(s: Seq<char>, c: char) -> Seq<Seq<char>>
    decreases s.len(),
{
    if exists|i: int| is_first_index(s, c, i) {
        let i = choose|i: int| is_first_index(s, c, i);
        seq![s.take(i)] + split_on(s.skip(i + 1), c)
    } else {
        seq![s]
    }
}

/// Each piece trimmed.
pub open spec fn trim_all(v: Seq<Seq<char>>) -> Seq<Seq<char>> {
    v.map_values(|p: Seq<char>| trimmed(p))
}

/// The media URLs of a post: a JSON array of strings, else a
/// comma-separated list (each entry trimmed), else the single value;
/// nothing for an absent or empty value. Text that starts like an array
/// but is not one is taken as a single URL.
pub open spec fn spec_media_urls(media: Option<Seq<char>>) -> Seq<Seq<char>> {
    match media {
        Some(s) => if s.len() == 0 {
            seq![]
        } else if s[0] == '[' {
            match json_string_array(s) {
                Some(v) => v,
                None => seq![s],
            }
        } else if s.contains(',') {
            trim_all(split_on(s, ','))
        } else {
            seq![s]
        },
        None => seq![],
    }
}

proof fn lemma_split_step(s: Seq<char>, c: char, i: int)
    requires
        is_first_index(s, c, i),
    ensures
        split_on(s, c) == seq![s.take(i)] + split_on(s.skip(i + 1), c),
{
    assert forall|j: int| is_first_index(s, c, j) implies j == i by {
        if j < i {
            assert(s[j] != c);
        }
        if i < j {
            assert(s[i] != c);
        }
    }
}

/// The pieces of `s` separated by `,`, each trimmed.
fn split_commas_trimmed(s: &str) -> (r: Vec<String>)
    ensures
        views(r@) == trim_all(split_on(s@, ',')),
{
    let n = s.unicode_len();
    let mut out: Vec<String> = Vec::new();
    let mut start: usize = 0;
    let mut i: usize = 0;
    assert(s@.skip(0) =~= s@);
    assert(views(out@) + trim_all(split_on(s@.skip(0), ',')) =~= trim_all(split_on(s@, ',')));
    while i < n
        invariant
            n == s@.len(),
            start <= i <= n,
            forall|k: int| start <= k < i ==> s@[k] != ',',
            views(out@) + trim_all(split_on(s@.skip(start as int), ',')) == trim_all(split_on(s@, ',')),
        decreases n - i,
    {
        if s.get_char(i) == ',' {
            let piece = s.substring_char(start, i);
            let ghost rest = s@.skip(start as int);
            proof {
                assert(is_first_index(rest, ',', i - start)) by {
                    assert forall|k: int| 0 <= k < i - start implies rest[k] != ',' by {
                        assert(rest[k] == s@[start + k]);
                    }
                }
                lemma_split_step(rest, ',', i - start);
                assert(rest.take(i - start) =~= piece@);
                assert(rest.skip(i - start + 1) =~= s@.skip(i + 1));
            }
            let ghost before = out@;
            out.push(trim(piece).to_owned());
            proof {
                assert(views(out@) =~= views(before).push(trimmed(piece@)));
                assert(trim_all(seq![piece@] + split_on(s@.skip(i + 1), ',')) =~= seq![trimmed(piece@)]
                    + trim_all(split_on(s@.skip(i + 1), ',')));
                assert(views(out@) + trim_all(split_on(s@.skip(i + 1), ',')) =~= views(before)
                    + trim_all(split_on(rest, ',')));
            }
            start = i + 1;
        }
        i = i + 1;
    }
    let last = s.substring_char(start, n);
    proof {
        let rest = s@.skip(start as int);
        assert(rest =~= last@);
        assert forall|j: int| !is_first_index(rest, ',', j) by {
            if is_first_index(rest, ',', j) {
                assert(rest[j] == s@[start + j]);
            }
        }
    }
    let ghost before = out@;
    out.push(trim(last).to_owned());
    proof {
        assert(views(out@) =~= views(before).push(trimmed(last@)));
        assert(trim_all(seq![last@]) =~= seq![trimmed(last@)]);
        assert(views(out@) =~= views(before) + trim_all(split_on(s@.skip(start as int), ',')));
    }
    out
}

fn single(s: &String) -> (r: Vec<String>)
    ensures
        views(r@) == seq![s@],
{
    let mut v: Vec<String> = Vec::new();
    v.push(s.clone());
    assert(views(v@) =~= seq![s@]);
    v
}

/// Parse media URLs from a JSON array or a comma-separated string.
pub fn parse_media_urls(media: &Option<String>) -> (r: Vec<String>)
    ensures
        views(r@) == spec_media_urls(match *media {
            Some(s) => Some(s@),
            None => None,
        }),
{
    match media {
        Some(s) => {
            if s.as_str().unicode_len() == 0 {
                let v: Vec<String> = Vec::new();
                assert(views(v@) =~= Seq::<Seq<char>>::empty());
                v
            } else if s.as_str().get_char(0) == '[' {
                match parse_json_strings(s.as_str()) {
                    Some(v) => v,
                    None => single(s),
                }
            } else if contains_char(s.as_str(), ',') {
                split_commas_trimmed(s.as_str())
            } else {
                single(s)
            }
        },
        None => {
            let v: Vec<String> = Vec::new();
            assert(views(v@) =~= Seq::<Seq<char>>::empty());
            v
        },
    }
}

/// The gallery image before `i`, wrapping to the last.
pub open spec fn spec_gallery_prev(i: usize, len: usize) -> usize {
    if i == 0 {
        if len == 0 {
            0
        } else {
            (len - 1) as usize
        }
    } else {
        (i - 1) as usize
    }
}

/// The gallery image after `i`, wrapping to the first.
pub open spec fn spec_gallery_next(i: usize, len: usize) -> usize {
    ((i + 1) % (if len > 1 { len as int } else { 1int })) as usize
}

/// Previous-image arrow.
pub fn gallery_prev(i: usize, len: usize) -> (r: usize)
    ensures
        r == spec_gallery_prev(i, len),
{
    if i == 0 {
        if len == 0 {
            0
        } else {
            len - 1
        }
    } else {
        i - 1
    }
}

/// Next-image arrow.
pub fn gallery_next(i: usize, len: usize) -> (r: usize)
    requires
        i < usize::MAX,
    ensures
        r == spec_gallery_next(i, len),
{
    let m = if len > 1 {
        len
    } else {
        1
    };
    (i + 1) % m
}

/// On a gallery of `len` images, the arrows keep the index in range, and
/// next then previous comes back to the same image.
pub proof fn lemma_gallery_round_trip(i: usize, len: usize)
    requires
        i < len,
    ensures
        spec_gallery_next(i, len) < len,
        spec_gallery_prev(i, len) < len,
        spec_gallery_prev(spec_gallery_next(i, len), len) == i,
        spec_gallery_next(spec_gallery_prev(i, len), len) == i,
{
    if len > 1 {
        if i + 1 < len {
            vstd::arithmetic::div_mod::lemma_small_mod((i + 1) as nat, len as nat);
        } else {
            vstd::arithmetic::div_mod::lemma_mod_self_0(len as int);
        }
        if i > 0 {
            vstd::arithmetic::div_mod::lemma_small_mod(i as nat, len as nat);
        } else {
            vstd::arithmetic::div_mod::lemma_mod_self_0(len as int);
        }
    }
}

} // verus!
