//! Filesystem paths as character sequences: where the engine lives inside the
//! data directory, where cleaned audio is written, and which dropped files are
//! accepted as WAV audio.
//!
//! Separators at the end of a path are skipped. What is left is split at
//! its last separator: what precedes it (separator included) is the
//! directory prefix, what follows it is the file name.
use vstd::prelude::*;

verus! {

/// How paths are spelled on a platform.
#[derive(Clone, Copy, Debug, PartialEq, Eq, Structural)]
pub enum PathStyle {
    /// `/` separates components.
    Unix,
    /// `\` separates components; `/` is accepted as well.
    Windows,
}

/// Whether `c` separates path components in `style`.
pub open spec fn is_separator(style: PathStyle, c: char) -> bool {
    c == '/' || (style == PathStyle::Windows && c == '\\')
}

/// The separator that `style` writes when joining components.
pub open spec fn separator(style: PathStyle) -> Seq<char> {
    if style == PathStyle::Windows {
        seq!['\\']
    } else {
        seq!['/']
    }
}

/// The index of the last separator in `s`, or -1 where it has none.
pub open spec fn last_separator(style: PathStyle, s: Seq<char>) -> int
    decreases s.len(),
{
    if s.len() == 0 {
        -1
    } else if is_separator(style, s.last()) {
        s.len() - 1
    } else {
        last_separator(style, s.drop_last())
    }
}

/// `s` without the separators it ends in.
pub open spec fn trim_end(style: PathStyle, s: Seq<char>) -> Seq<char>
    decreases s.len(),
{
    if s.len() > 0 && is_separator(style, s.last()) {
        trim_end(style, s.drop_last())
    } else {
        s
    }
}

/// The last component of `s`: everything after the last separator that
/// precedes its trailing ones.
pub open spec fn file_name_of(style: PathStyle, s: Seq<char>) -> Seq<char> {
    let t = trim_end(style, s);
    t.subrange(last_separator(style, t) + 1, t.len() as int)
}

/// Everything before the last component of `s`, up to and including the
/// separator before it; empty where that component has none before it.
pub open spec fn directory_prefix(style: PathStyle, s: Seq<char>) -> Seq<char> {
    let t = trim_end(style, s);
    t.subrange(0, last_separator(style, t) + 1)
}

/// Whether the last component of `s` names a file: it is neither empty nor
/// `.` nor `..`.
pub open spec fn names_a_file(style: PathStyle, s: Seq<char>) -> bool {
    let f = file_name_of(style, s);
    f.len() > 0 && f != seq!['.'] && f != seq!['.', '.']
}

/// The directory beside the input that cleaned audio is written into.
pub open spec fn output_directory_of(style: PathStyle, s: Seq<char>) -> Seq<char> {
    directory_prefix(style, s) + "dnf_clean"@
}

/// Where the cleaned copy of the input `s` is written: the output directory
/// followed by the input's file name.
pub open spec fn output_path_of(style: PathStyle, s: Seq<char>) -> Seq<char> {
    output_directory_of(style, s) + separator(style) + file_name_of(style, s)
}

/// `name` placed inside the directory `dir`.
pub open spec fn joined(style: PathStyle, dir: Seq<char>, name: Seq<char>) -> Seq<char> {
    if dir.len() == 0 {
        name
    } else if is_separator(style, dir.last()) {
        dir + name
    } else {
        dir + separator(style) + name
    }
}

/// The directory that contains `s`, trailing separators skipped: empty
/// where no separator precedes the last component, the root where the only
/// one comes first, and otherwise everything before the last one.
pub open spec fn parent_of(style: PathStyle, s: Seq<char>) -> Seq<char> {
    let t = trim_end(style, s);
    let k = last_separator(style, t);
    if k <= 0 {
        t.subrange(0, k + 1)
    } else {
        t.subrange(0, k)
    }
}

/// Whether the file name of `s` has the extension `wav`: it ends in `.wav`
/// and that dot is not its first character.
pub open spec fn is_wav_path(style: PathStyle, s: Seq<char>) -> bool {
    let f = file_name_of(style, s);
    f.len() > 4 && f.subrange(f.len() - 4, f.len() as int) == seq!['.', 'w', 'a', 'v']
}

/// Where cleaned audio for one input goes.
pub struct OutputPlan {
    /// The directory that the engine is told to write into.
    pub output_dir: String,
    /// The file that the engine writes there.
    pub output_path: String,
}

fn is_separator_char(style: PathStyle, c: char) -> (r: bool)
    ensures
        r == is_separator(style, c),
{
    c == '/' || (style == PathStyle::Windows && c == '\\')
}

fn separator_str(style: PathStyle) -> (r: &'static str)
    ensures
        r@ == separator(style),
{
    if style == PathStyle::Windows {
        let r = "\\";
        proof {
            reveal_strlit("\\");
            assert(r@ =~= seq!['\\']);
        }
        r
    } else {
        let r = "/";
        proof {
            reveal_strlit("/");
            assert(r@ =~= seq!['/']);
        }
        r
    }
}

fn last_separator_index(style: PathStyle, s: &str) -> (r: Option<usize>)
    ensures
        match r {
            Some(k) => k == last_separator(style, s@) && k < s@.len(),
            None => last_separator(style, s@) == -1,
        },
        s@.len() <= usize::MAX,
{
    let n = s.unicode_len();
    let mut i: usize = n;
    assert(s@.subrange(0, n as int) =~= s@);
    while i > 0
        invariant
            i <= n,
            n == s@.len(),
            last_separator(style, s@) == last_separator(style, s@.subrange(0, i as int)),
        decreases i,
    {
        let c = s.get_char(i - 1);
        proof {
            let p = s@.subrange(0, i as int);
            assert(p.last() == c);
            assert(p.drop_last() =~= s@.subrange(0, i - 1));
        }
        if is_separator_char(style, c) {
            return Some(i - 1);
        }
        i = i - 1;
    }
    assert(s@.subrange(0, 0) =~= Seq::<char>::empty());
    None
}

/// `s` without the separators it ends in.
fn trimmed(style: PathStyle, s: &str) -> (r: &str)
    ensures
        r@ == trim_end(style, s@),
{
    let n = s.unicode_len();
    let mut i: usize = n;
    assert(s@.subrange(0, n as int) =~= s@);
    while i > 0
        invariant
            i <= n,
            n == s@.len(),
            trim_end(style, s@) == trim_end(style, s@.subrange(0, i as int)),
        decreases i,
    {
        let c = s.get_char(i - 1);
        proof {
            let p = s@.subrange(0, i as int);
            assert(p.last() == c);
            assert(p.drop_last() =~= s@.subrange(0, i - 1));
        }
        if !is_separator_char(style, c) {
            return s.substring_char(0, i);
        }
        i = i - 1;
    }
    s.substring_char(0, 0)
}

/// The index just past the last separator of `s`: where its file name starts.
fn file_name_start(style: PathStyle, s: &str) -> (r: usize)
    ensures
        r == last_separator(style, s@) + 1,
        r <= s@.len(),
{
    match last_separator_index(style, s) {
        Some(k) => k + 1,
        None => 0,
    }
}

/// The last component of `path`.
pub fn file_name(style: PathStyle, path: &str) -> (r: String)
    ensures
        r@ == file_name_of(style, path@),
{
    let t = trimmed(style, path);
    let start = file_name_start(style, t);
    let n = t.unicode_len();
    String::from_str(t.substring_char(start, n))
}

/// Whether `path` names a WAV file by its extension (compared exactly, so
/// `.WAV` is not one).
pub fn has_wav_extension(style: PathStyle, path: &str) -> (r: bool)
    ensures
        r == is_wav_path(style, path@),
{
    let t = trimmed(style, path);
    let start = file_name_start(style, t);
    let n = t.unicode_len();
    let f = t.substring_char(start, n);
    let len = f.unicode_len();
    if len <= 4 {
        return false;
    }
    let ghost lit = seq!['.', 'w', 'a', 'v'];
    let ghost tail = f@.subrange(len - 4, len as int);
    let a = f.get_char(len - 4);
    let b = f.get_char(len - 3);
    let c = f.get_char(len - 2);
    let d = f.get_char(len - 1);
    assert(tail[0] == a && tail[1] == b && tail[2] == c && tail[3] == d);
    let r = a == '.' && b == 'w' && c == 'a' && d == 'v';
    if r {
        assert(tail =~= lit);
    } else {
        assert(tail != lit) by {
            if tail == lit {
                assert(tail[0] == lit[0] && tail[1] == lit[1] && tail[2] == lit[2] && tail[3]
                    == lit[3]);
            }
        }
    }
    r
}

/// Where the cleaned copy of `input` goes: the directory `dnf_clean` beside
/// the input, and the input's file name inside it. Fails where the input's
/// last component names no file.
pub fn plan_output(style: PathStyle, input: &str) -> (r: Result<OutputPlan, String>)
    ensures
        match r {
            Ok(plan) => names_a_file(style, input@) && plan.output_dir@ == output_directory_of(
                style,
                input@,
            ) && plan.output_path@ == output_path_of(style, input@),
            Err(e) => !names_a_file(style, input@) && e@ == "Input path has no file name"@,
        },
{
    let t = trimmed(style, input);
    let start = file_name_start(style, t);
    let n = t.unicode_len();
    let name = t.substring_char(start, n);
    let len = name.unicode_len();
    let ghost dot = seq!['.'];
    let ghost dotdot = seq!['.', '.'];
    let is_dot = len == 1 && name.get_char(0) == '.';
    let is_dotdot = len == 2 && name.get_char(0) == '.' && name.get_char(1) == '.';
    proof {
        if is_dot {
            assert(name@ =~= dot);
        } else if name@ == dot {
            assert(name@[0] == dot[0]);
        }
        if is_dotdot {
            assert(name@ =~= dotdot);
        } else if name@ == dotdot {
            assert(name@[0] == dotdot[0] && name@[1] == dotdot[1]);
        }
    }
    if len == 0 || is_dot || is_dotdot {
        return Err(String::from_str("Input path has no file name"));
    }
    let prefix = t.substring_char(0, start);
    let output_dir = String::from_str(prefix).concat("dnf_clean");
    let output_path = output_dir.clone().concat(separator_str(style)).concat(name);
    Ok(OutputPlan { output_dir, output_path })
}

/// `name` placed inside the directory `dir`, adding a separator only where
/// `dir` is not empty and does not already end in one.
pub fn join_path(style: PathStyle, dir: &str, name: &str) -> (r: String)
    ensures
        r@ == joined(style, dir@, name@),
{
    let n = dir.unicode_len();
    if n == 0 {
        return String::from_str(name);
    }
    let last = dir.get_char(n - 1);
    if is_separator_char(style, last) {
        String::from_str(dir).concat(name)
    } else {
        String::from_str(dir).concat(separator_str(style)).concat(name)
    }
}

/// The directory that contains `path`.
pub fn parent_dir(style: PathStyle, path: &str) -> (r: String)
    ensures
        r@ == parent_of(style, path@),
{
    let t = trimmed(style, path);
    match last_separator_index(style, t) {
        None => String::new(),
        Some(k) => {
            if k == 0 {
                String::from_str(t.substring_char(0, 1))
            } else {
                String::from_str(t.substring_char(0, k))
            }
        },
    }
}

/// Whether no character of `t` is a separator in `style`.
pub open spec fn has_no_separator(style: PathStyle, t: Seq<char>) -> bool {
    forall|i: int| 0 <= i < t.len() ==> !is_separator(style, #[trigger] t[i])
}

proof fn lemma_last_separator_skips(style: PathStyle, s: Seq<char>, t: Seq<char>)
    requires
        has_no_separator(style, t),
    ensures
        last_separator(style, s + t) == last_separator(style, s),
    decreases t.len(),
{
    if t.len() == 0 {
        assert(s + t =~= s);
    } else {
        let st = s + t;
        assert(st.last() == t[t.len() - 1]);
        assert(st.drop_last() =~= s + t.drop_last());
        assert(has_no_separator(style, t.drop_last())) by {
            assert forall|i: int| 0 <= i < t.drop_last().len() implies !is_separator(
                style,
                #[trigger] t.drop_last()[i],
            ) by {
                assert(t.drop_last()[i] == t[i]);
            }
        }
        lemma_last_separator_skips(style, s, t.drop_last());
    }
}

/// A non-empty name without separators placed inside any directory is the file name of
/// the result.
pub proof fn lemma_joined_file_name(style: PathStyle, dir: Seq<char>, name: Seq<char>)
    requires
        name.len() > 0,
        has_no_separator(style, name),
    ensures
        file_name_of(style, joined(style, dir, name)) == name,
{
    let pre = if dir.len() == 0 {
        dir
    } else if is_separator(style, dir.last()) {
        dir
    } else {
        dir + separator(style)
    };
    assert(joined(style, dir, name) =~= pre + name);
    if dir.len() > 0 && !is_separator(style, dir.last()) {
        assert(pre.last() == separator(style)[0]);
    }
    assert((pre + name).last() == name[name.len() - 1]);
    assert(trim_end(style, pre + name) == pre + name);
    assert(last_separator(style, pre) == pre.len() - 1);
    lemma_last_separator_skips(style, pre, name);
    assert((pre + name).subrange(pre.len() as int, (pre + name).len() as int) =~= name);
}

} // verus!
