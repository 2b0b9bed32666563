use vstd::prelude::*;

use vstd::string::StrSliceExecFns;

verus! {

/// Where the component after the last separator `sep` begins: 0 when the
/// string holds no separator.
pub open spec fn spec_cut_after_last(s: Seq<char>, sep: char) -> int
    decreases s.len(),
{
    if s.len() == 0 {
        0
    } else if s[s.len() - 1] == sep {
        s.len() as int
    } else {
        spec_cut_after_last(s.drop_last(), sep)
    }
}

/// The final path component: everything after the last `/`, the whole string
/// when there is none.
pub open spec fn spec_base_name(s: Seq<char>) -> Seq<char> {
    s.subrange(spec_cut_after_last(s, '/'), s.len() as int)
}

/// The file name's extension: the part of the final path component after its
/// last `.`, provided something non-empty stands before that dot. A name
/// without a dot, and a dot-file such as ".flac" whose only dot leads, have
/// no extension.
pub open spec fn spec_extension(s: Seq<char>) -> Option<Seq<char>> {
    let base = spec_base_name(s);
    let cut = spec_cut_after_last(base, '.');
    if cut >= 2 {
        Some(base.subrange(cut, base.len() as int))
    } else {
        None
    }
}

fn cut_after_last(path: &str, sep: char) -> (cut: usize)
    ensures
        cut == spec_cut_after_last(path@, sep),
        cut <= path@.len(),
{
    let n = path.unicode_len();
    let mut cut: usize = 0;
    let mut i: usize = 0;
    proof {
        assert(path@.take(0) =~= Seq::<char>::empty());
    }
    while i < n
        invariant
            i <= n,
            n == path@.len(),
            cut <= i,
            cut == spec_cut_after_last(path@.take(i as int), sep),
        decreases n - i,
    {
        let c = path.get_char(i);
        proof {
            assert(path@.take(i + 1).drop_last() =~= path@.take(i as int));
            assert(path@.take(i + 1)[i as int] == path@[i as int]);
        }
        if c == sep {
            cut = i + 1;
        }
        i = i + 1;
    }
    proof {
        assert(path@.take(n as int) =~= path@);
    }
    cut
}

/// The display name of a playlist entry: the path's final component.
pub fn base_name(path: &str) -> (r: String)
    ensures
        r@ == spec_base_name(path@),
{
    let n = path.unicode_len();
    let cut = cut_after_last(path, '/');
    path.substring_char(cut, n).to_owned()
}

/// One character of the candidate extension matches one of a known
/// lower-case extension, ignoring ASCII case.
pub open spec fn spec_lower_eq_char(a: char, b: char) -> bool {
    a == b || (65 <= a as u32 <= 90 && a as u32 + 32 == b as u32)
}

pub open spec fn spec_lower_eq(s: Seq<char>, t: Seq<char>) -> bool {
    s.len() == t.len() && (forall|i: int| 0 <= i < s.len() ==> spec_lower_eq_char(s[i], t[i]))
}

/// Compares a string against a lower-case pattern, folding ASCII upper case.
fn eq_ignore_ascii_case(s: &str, lower: &str) -> (r: bool)
    ensures
        r == spec_lower_eq(s@, lower@),
{
    let n = s.unicode_len();
    if n != lower.unicode_len() {
        return false;
    }
    let mut i: usize = 0;
    while i < n
        invariant
            i <= n,
            n == s@.len() == lower@.len(),
            forall|j: int| 0 <= j < i ==> spec_lower_eq_char(s@[j], lower@[j]),
        decreases n - i,
    {
        let a = s.get_char(i);
        let b = lower.get_char(i);
        let au = a as u32;
        let bu = b as u32;
        if !(a == b || (65 <= au && au <= 90 && au + 32 == bu)) {
            return false;
        }
        i = i + 1;
    }
    true
}

/// The playlist accepts these container extensions, in any letter case; a
/// name without an extension is never enqueued.
pub open spec fn spec_is_audio_file(s: Seq<char>) -> bool {
    match spec_extension(s) {
        Some(e) => {
            ||| spec_lower_eq(e, "flac"@)
            ||| spec_lower_eq(e, "wav"@)
            ||| spec_lower_eq(e, "mp3"@)
            ||| spec_lower_eq(e, "aac"@)
        },
        None => false,
    }
}

/// Whether a path names a file the player will enqueue, judged by its
/// extension alone.
pub fn is_audio_file(path: &str) -> (r: bool)
    ensures
        r == spec_is_audio_file(path@),
{
    let base = base_name(path);
    let b = base.as_str();
    let n = b.unicode_len();
    let cut = cut_after_last(b, '.');
    if cut < 2 {
        return false;
    }
    let ext = b.substring_char(cut, n);
    eq_ignore_ascii_case(ext, "flac") || eq_ignore_ascii_case(ext, "wav") || eq_ignore_ascii_case(
        ext,
        "mp3",
    ) || eq_ignore_ascii_case(ext, "aac")
}

} // verus!
